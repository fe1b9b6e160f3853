//! A plain 32 KiB ROM without a bank controller, and the absent RAM that
//! goes with it.

use vstd::prelude::*;
use crate::bus::Device;

verus! {

/// Bytes of a ROM without a bank controller.
pub const ROM_LEN: usize = 0x8000;

/// RAM that a cartridge may carry.
pub trait RamController: Device {

}

/// No RAM: writes are dropped and reads give 0xFF.
pub struct NoRam {}

impl Device for NoRam {
    open spec fn valid(&self) -> bool {
        true
    }

    open spec fn peek_byte(&self, addr: u16) -> u8 {
        0xFF
    }

    fn write(&mut self, _addr: u16, _val: u8) {
    }

    fn read(&self, _addr: u16) -> (r: u8) {
        0xFF
    }
}

impl RamController for NoRam {

}

/// 32 KiB of ROM mapped at 0000-7FFF.
pub struct Rom {
    pub rom: Vec<u8>,
}

impl Rom {
    /// Copies a 32 KiB image.
    pub fn from_slice(data: &[u8]) -> (r: Rom)
        requires
            data@.len() == ROM_LEN,
        ensures
            r.rom@ == data@,
    {
        let mut rom: Vec<u8> = Vec::new();
        let mut i: usize = 0;
        while i < ROM_LEN
            invariant
                i <= ROM_LEN,
                data@.len() == ROM_LEN,
                rom@ == data@.take(i as int),
            decreases ROM_LEN - i,
        {
            rom.push(data[i]);
            i = i + 1;
            assert(rom@ =~= data@.take(i as int));
        }
        assert(data@.take(ROM_LEN as int) =~= data@);
        Rom { rom }
    }
}

impl Device for Rom {
    open spec fn valid(&self) -> bool {
        self.rom@.len() == ROM_LEN
    }

    /// ROM bytes below 0x8000; 0xFF above.
    open spec fn peek_byte(&self, addr: u16) -> u8 {
        if (addr as int) < ROM_LEN {
            self.rom@[addr as int]
        } else {
            0xFF
        }
    }

    fn write(&mut self, _addr: u16, _val: u8) {
    }

    fn read(&self, addr: u16) -> (r: u8) {
        if (addr as usize) < ROM_LEN {
            self.rom[addr as usize]
        } else {
            0xFF
        }
    }
}

} // verus!
