//! Core of an emulator for the monochrome Game Boy (DMG): the SM83 CPU,
//! the picture processing unit, the cartridge memory-bank controllers, the
//! memory bus, the timer, the joypad and the interrupt controller.

pub mod bus;
pub mod cart;
pub mod cpu;
pub mod gb;
pub mod interrupts;
pub mod joypad;
pub mod oam;
pub mod ppu;
pub mod regs;
pub mod rom;
pub mod serial;
pub mod tile;
pub mod timer;
