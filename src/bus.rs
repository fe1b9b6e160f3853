//! The memory bus: the address map that joins cartridge, video, work and
//! high RAM, the I/O registers and the interrupt controller, and the step
//! that moves timer and PPU along.

use vstd::prelude::*;
use crate::cart::{is_cart_addr, Cartridge};
use crate::interrupts::{IntSource, InterruptController, IE_ADDR, IF_ADDR};
use crate::joypad::{Joypad, JOYP_ADDR};
use crate::ppu::{is_ppu_addr, CYCLES_PER_FRAME, DMA_ADDR, LCDC_FIRST, LCDC_LAST, PPU};
use crate::serial::{deque_bytes, deque_is_full, deque_new, deque_pop_front, deque_push_back,
    deque_to_vec, LOG_LEN};
use crate::timer::Timer;

verus! {

/// The serial data register.
pub const SB_ADDR: u16 = 0xFF01;

pub const WRAM_LEN: usize = 0x1000;

pub const IO_LEN: usize = 0x80;

pub const HRAM_LEN: usize = 0x7F;

/// Bytes that an OAM DMA copies.
pub const DMA_LEN: u16 = 0xA0;

/// A device that answers reads and writes on the bus.
pub trait Device {
    /// The device's own invariant.
    spec fn valid(&self) -> bool;

    /// What a read of `addr` returns.
    spec fn peek_byte(&self, addr: u16) -> u8;

    fn write(&mut self, addr: u16, val: u8)
        requires
            old(self).valid(),
        ensures
            final(self).valid(),
    ;

    fn read(&self, addr: u16) -> (r: u8)
        requires
            self.valid(),
        ensures
            r == self.peek_byte(addr),
    ;
}

/// What Mooneye's test programs write to the serial port when they pass.
pub open spec fn fib_passed() -> Seq<u8> {
    seq![3u8, 5, 8, 13, 21, 34]
}

/// "Passed" in ASCII, which Blargg's test programs write when they pass.
pub open spec fn text_passed() -> Seq<u8> {
    seq![0x50u8, 0x61, 0x73, 0x73, 0x65, 0x64]
}

/// Work RAM and high RAM: what is written there reads back unchanged.
pub open spec fn is_plain_ram(addr: u16) -> bool {
    (0xC000 <= addr <= 0xDFFF) || (0xFF80 <= addr <= 0xFFFE)
}

/// The bytes of the I/O page that the bus keeps itself.
pub open spec fn is_io_backed(addr: u16) -> bool {
    (0xFF01 <= addr <= 0xFF03) || (0xFF10 <= addr <= 0xFF3F) || (0xFF4C <= addr <= 0xFF7F)
}

pub struct Bus {
    pub ppu: PPU,
    pub wram: Vec<u8>,
    pub mapped_wram: Vec<u8>,
    pub timer: Timer,
    pub int_controller: InterruptController,
    pub joypad: Joypad,
    pub io: Vec<u8>,
    pub hram: Vec<u8>,
    pub passed_buf: heapless::Deque<u8, 6>,
    pub rom: Cartridge,
}

impl Bus {
    pub open spec fn wf(&self) -> bool {
        &&& self.ppu.wf()
        &&& self.rom.wf()
        &&& self.joypad.wf()
        &&& self.int_controller.wf()
        &&& self.wram@.len() == WRAM_LEN
        &&& self.mapped_wram@.len() == WRAM_LEN
        &&& self.io@.len() == IO_LEN
        &&& self.hram@.len() == HRAM_LEN
        &&& self.serial_log().len() <= LOG_LEN
    }

    /// The last bytes written to the serial data register, oldest first.
    pub open spec fn serial_log(&self) -> Seq<u8> {
        deque_bytes(self.passed_buf)
    }

    /// What a read of `addr` returns.
    pub open spec fn peek(&self, addr: u16) -> u8 {
        if is_cart_addr(addr) {
            self.rom.peek(addr)
        } else if 0x8000 <= addr <= 0x9FFF || 0xFE00 <= addr <= 0xFE9F || LCDC_FIRST <= addr
            <= LCDC_LAST {
            self.ppu.peek(addr)
        } else if 0xC000 <= addr <= 0xCFFF {
            self.wram@[addr - 0xC000]
        } else if 0xD000 <= addr <= 0xDFFF {
            self.mapped_wram@[addr - 0xD000]
        } else if addr == JOYP_ADDR {
            self.joypad.peek()
        } else if 0xFF04 <= addr <= 0xFF07 {
            self.timer.peek(addr)
        } else if addr == IF_ADDR || addr == IE_ADDR {
            self.int_controller.peek(addr)
        } else if is_io_backed(addr) {
            self.io@[addr - 0xFF00]
        } else if 0xFF80 <= addr <= 0xFFFE {
            self.hram@[addr - 0xFF80]
        } else {
            0
        }
    }

    /// Everything but the serial log and the devices named is unchanged.
    pub open spec fn same_but(old: &Bus, new: &Bus, ppu: bool, cart: bool, wram: bool,
        io: bool) -> bool {
        &&& (!ppu ==> new.ppu == old.ppu)
        &&& (!cart ==> new.rom == old.rom)
        &&& (!wram ==> new.wram == old.wram && new.mapped_wram == old.mapped_wram && new.hram
            == old.hram)
        &&& (!io ==> new.io == old.io && new.timer == old.timer && new.joypad == old.joypad
            && new.int_controller == old.int_controller)
    }

    /// The effect of a write of `val` to `addr`.
    pub open spec fn write_spec(old: &Bus, new: &Bus, addr: u16, val: u8) -> bool {
        &&& new.serial_log() == if addr == SB_ADDR {
            if old.serial_log().len() == LOG_LEN {
                old.serial_log().drop_first().push(val)
            } else {
                old.serial_log().push(val)
            }
        } else {
            old.serial_log()
        }
        &&& if is_cart_addr(addr) {
            Cartridge::write_spec(&old.rom, &new.rom, addr, val) && Self::same_but(
                old,
                new,
                false,
                true,
                false,
                false,
            )
        } else if addr == DMA_ADDR {
            &&& new.ppu.oam@ == Seq::new(0xA0, |i: int| old.peek((val * 0x100 + i) as u16))
            &&& PPU::same_except_oam(&old.ppu, &new.ppu)
            &&& Self::same_but(old, new, true, false, false, false)
        } else if is_ppu_addr(addr) {
            PPU::write_spec(&old.ppu, &new.ppu, addr, val) && Self::same_but(
                old,
                new,
                true,
                false,
                false,
                false,
            )
        } else if is_plain_ram(addr) {
            &&& new.wram@ == if 0xC000 <= addr <= 0xCFFF {
                old.wram@.update(addr - 0xC000, val)
            } else {
                old.wram@
            }
            &&& new.mapped_wram@ == if 0xD000 <= addr <= 0xDFFF {
                old.mapped_wram@.update(addr - 0xD000, val)
            } else {
                old.mapped_wram@
            }
            &&& new.hram@ == if 0xFF80 <= addr <= 0xFFFE {
                old.hram@.update(addr - 0xFF80, val)
            } else {
                old.hram@
            }
            &&& Self::same_but(old, new, false, false, true, false)
        } else {
            &&& Self::same_but(old, new, false, false, false, true)
            &&& new.io@ == if is_io_backed(addr) {
                old.io@.update(addr - 0xFF00, val)
            } else {
                old.io@
            }
            &&& if addr == JOYP_ADDR {
                &&& new.joypad.selector() == val & 0x30
                &&& new.joypad.dpad() == old.joypad.dpad()
                &&& new.joypad.buttons() == old.joypad.buttons()
            } else {
                new.joypad == old.joypad
            }
            &&& if 0xFF04 <= addr <= 0xFF07 {
                new.timer == (if addr == 0xFF04 {
                    Timer { system_counter: 0, ..old.timer }
                } else if addr == 0xFF05 {
                    Timer { tima: val, ..old.timer }
                } else if addr == 0xFF06 {
                    Timer { tma: val, ..old.timer }
                } else {
                    Timer { tac: val, ..old.timer }
                })
            } else {
                new.timer == old.timer
            }
            &&& new.int_controller.int_f == if addr == IF_ADDR {
                val & 0x1F
            } else {
                old.int_controller.int_f
            }
            &&& new.int_controller.int_en == if addr == IE_ADDR {
                val & 0x1F
            } else {
                old.int_controller.int_en
            }
        }
    }

    pub fn new(rom: Cartridge) -> (r: Self)
        requires
            rom.wf(),
        ensures
            r.wf(),
            r.serial_log().len() == 0,
            r.rom == rom,
            r.int_controller.int_f == 0,
            r.int_controller.int_en == 0,
            r.ppu.frame_pos() == 0,
            r.timer == Timer::new_spec(),
    {
        Self {
            ppu: PPU::new(),
            wram: vec![0u8; WRAM_LEN],
            mapped_wram: vec![0u8; WRAM_LEN],
            timer: Timer::new(),
            int_controller: InterruptController::new(),
            joypad: Joypad::new(),
            io: vec![0u8; IO_LEN],
            hram: vec![0u8; HRAM_LEN],
            passed_buf: deque_new(),
            rom,
        }
    }

    #[verifier::spinoff_prover]
    pub fn read(&self, addr: u16) -> (r: u8)
        requires
            self.wf(),
        ensures
            r == self.peek(addr),
    {
        if addr <= 0x7FFF || (0xA000 <= addr && addr <= 0xBFFF) {
            self.rom.read(addr)
        } else if (0x8000 <= addr && addr <= 0x9FFF) || (0xFE00 <= addr && addr <= 0xFE9F) || (
        LCDC_FIRST <= addr && addr <= LCDC_LAST) {
            self.ppu.read(addr)
        } else if 0xC000 <= addr && addr <= 0xCFFF {
            self.wram[(addr - 0xC000) as usize]
        } else if 0xD000 <= addr && addr <= 0xDFFF {
            self.mapped_wram[(addr - 0xD000) as usize]
        } else if addr == JOYP_ADDR {
            self.joypad.read(addr)
        } else if 0xFF04 <= addr && addr <= 0xFF07 {
            self.timer.read(addr)
        } else if addr == IF_ADDR || addr == IE_ADDR {
            self.int_controller.read(addr)
        } else if (0xFF01 <= addr && addr <= 0xFF03) || (0xFF10 <= addr && addr <= 0xFF3F) || (
        0xFF4C <= addr && addr <= 0xFF7F) {
            self.io[(addr - 0xFF00) as usize]
        } else if 0xFF80 <= addr && addr <= 0xFFFE {
            self.hram[(addr - 0xFF80) as usize]
        } else {
            0
        }
    }

    /// Copies 160 bytes from `val * 0x100` into OAM.
    #[verifier::spinoff_prover]
    fn dma(&mut self, val: u8)
        requires
            old(self).wf(),
        ensures
            final(self).wf(),
            final(self).ppu.oam@ == Seq::new(0xA0, |i: int| old(self).peek((val * 0x100
                + i) as u16)),
            PPU::same_except_oam(&old(self).ppu, &final(self).ppu),
            Self::same_but(old(self), final(self), true, false, false, false),
            final(self).serial_log() == old(self).serial_log(),
    {
        let ghost start = *self;
        let base: u16 = val as u16 * 0x100;
        let mut i: u16 = 0;
        while i < DMA_LEN
            invariant
                i <= DMA_LEN,
                base == val * 0x100,
                self.wf(),
                forall|k: int| 0 <= k < i ==> #[trigger] self.ppu.oam@[k] == start.peek((base
                    + k) as u16),
                forall|a: u16| !(0xFE00 <= a < 0xFE00 + i)
                    ==> #[trigger] self.peek(a) == start.peek(a),
                PPU::same_except_oam(&start.ppu, &self.ppu),
                Self::same_but(&start, self, true, false, false, false),
                self.serial_log() == start.serial_log(),
            decreases DMA_LEN - i,
        {
            let src: u16 = base + i;
            let b = self.read(src);
            let ghost prev = *self;
            self.ppu.write(0xFE00 + i, b);
            assert forall|a: u16| !(0xFE00 <= a < 0xFE00 + i + 1) implies #[trigger] self.peek(a)
                == prev.peek(a) by {
                if 0xFE00 <= a <= 0xFE9F {
                    assert(self.ppu.oam@[a - 0xFE00] == prev.ppu.oam@[a - 0xFE00]);
                }
            }
            i = i + 1;
        }
        assert(self.ppu.oam@ =~= Seq::new(0xA0, |k: int| start.peek((val * 0x100 + k) as u16)));
    }

    #[verifier::spinoff_prover]
    pub fn write(&mut self, addr: u16, val: u8)
        requires
            old(self).wf(),
        ensures
            final(self).wf(),
            Self::write_spec(old(self), final(self), addr, val),
    {
        if addr <= 0x7FFF || (0xA000 <= addr && addr <= 0xBFFF) {
            self.rom.write(addr, val);
        } else if addr == DMA_ADDR {
            self.dma(val);
        } else if (0x8000 <= addr && addr <= 0x9FFF) || (0xFE00 <= addr && addr <= 0xFE9F) || (
        LCDC_FIRST <= addr && addr <= LCDC_LAST) {
            self.ppu.write(addr, val);
        } else if 0xC000 <= addr && addr <= 0xCFFF {
            self.wram.set((addr - 0xC000) as usize, val);
        } else if 0xD000 <= addr && addr <= 0xDFFF {
            self.mapped_wram.set((addr - 0xD000) as usize, val);
        } else if 0xFF80 <= addr && addr <= 0xFFFE {
            self.hram.set((addr - 0xFF80) as usize, val);
        } else if addr == JOYP_ADDR {
            self.joypad.write(addr, val);
        } else if 0xFF04 <= addr && addr <= 0xFF07 {
            self.timer.write(addr, val);
        } else if addr == IF_ADDR || addr == IE_ADDR {
            self.int_controller.write(addr, val);
        } else if (0xFF01 <= addr && addr <= 0xFF03) || (0xFF10 <= addr && addr <= 0xFF3F) || (
        0xFF4C <= addr && addr <= 0xFF7F) {
            self.io.set((addr - 0xFF00) as usize, val);
            if addr == SB_ADDR {
                if deque_is_full(&self.passed_buf) {
                    let _ = deque_pop_front(&mut self.passed_buf);
                }
                let _ = deque_push_back(&mut self.passed_buf, val);
            }
        }
    }

    /// Whether the serial stream ends with "Passed" or with Mooneye's
    /// Fibonacci bytes.
    pub fn is_passed(&self) -> (r: bool)
        requires
            self.wf(),
        ensures
            r == (self.serial_log() == text_passed() || self.serial_log() == fib_passed()),
    {
        let buf = deque_to_vec(&self.passed_buf);
        let text: [u8; 6] = [0x50, 0x61, 0x73, 0x73, 0x65, 0x64];
        let fib: [u8; 6] = [3, 5, 8, 13, 21, 34];
        if buf.len() != LOG_LEN {
            assert(buf@.len() != text_passed().len());
            return false;
        }
        let mut is_text = true;
        let mut is_fib = true;
        let mut i: usize = 0;
        while i < LOG_LEN
            invariant
                i <= LOG_LEN,
                buf@.len() == LOG_LEN,
                text@ == text_passed(),
                fib@ == fib_passed(),
                is_text == forall|k: int| 0 <= k < i ==> buf@[k] == text_passed()[k],
                is_fib == forall|k: int| 0 <= k < i ==> buf@[k] == fib_passed()[k],
            decreases LOG_LEN - i,
        {
            proof {
                assert(text[i as int] == text_passed()[i as int]);
                assert(fib[i as int] == fib_passed()[i as int]);
            }
            if buf[i] != text[i] {
                is_text = false;
            }
            if buf[i] != fib[i] {
                is_fib = false;
            }
            i = i + 1;
        }
        if is_text {
            assert(buf@ =~= text_passed());
        }
        if is_fib {
            assert(buf@ =~= fib_passed());
        }
        is_text || is_fib
    }

    /// The pending source that the CPU should serve next, if any.
    pub fn query_interrupt(&self) -> (r: Option<IntSource>)
        ensures
            r == self.int_controller.next_spec(),
    {
        self.int_controller.next()
    }

    pub fn clear_interrupt(&mut self, interrupt: IntSource)
        requires
            old(self).wf(),
        ensures
            final(self).wf(),
            final(self).int_controller.int_f == old(self).int_controller.int_f & !interrupt.mask_spec(),
            final(self).int_controller.int_en == old(self).int_controller.int_en,
            final(self).ppu == old(self).ppu,
            final(self).rom == old(self).rom,
            final(self).timer == old(self).timer,
            final(self).joypad == old(self).joypad,
            final(self).wram == old(self).wram,
            final(self).mapped_wram == old(self).mapped_wram,
            final(self).hram == old(self).hram,
            final(self).io == old(self).io,
            final(self).serial_log() == old(self).serial_log(),
    {
        self.int_controller.interrupt_clear(interrupt);
    }

    pub fn interrupt_pending(&self) -> (r: bool)
        ensures
            r == self.int_controller.pending_spec(),
    {
        self.int_controller.pending()
    }

    /// The effect of `cycles` machine cycles on the timer, the PPU and IF.
    pub open spec fn run_spec(old: &Bus, new: &Bus, cycles: int) -> bool {
        &&& new.timer == old.timer.run_spec(cycles as nat)
        &&& PPU::run_spec(&old.ppu, &new.ppu, cycles, PPU::irq_spec(&old.ppu, cycles))
        &&& PPU::same_registers(&old.ppu, &new.ppu)
        &&& new.ppu.frame_pos() % (CYCLES_PER_FRAME as int) == (old.ppu.frame_pos() + cycles) % (
        CYCLES_PER_FRAME as int)
        &&& new.int_controller.int_en == old.int_controller.int_en
        &&& new.int_controller.int_f == (old.int_controller.int_f | (if old.timer.fires_within(cycles as nat) {
            IntSource::TIMER.mask_spec()
        } else {
            0u8
        })) | (match PPU::irq_spec(&old.ppu, cycles) {
            Some(s) => s.mask_spec(),
            None => 0u8,
        })
        &&& new.rom == old.rom
        &&& new.joypad == old.joypad
        &&& new.wram == old.wram
        &&& new.mapped_wram == old.mapped_wram
        &&& new.hram == old.hram
        &&& new.io == old.io
        &&& new.serial_log() == old.serial_log()
    }

    /// Moves the timer and then the PPU along by `cycles` machine cycles,
    /// and latches the interrupts they raise.
    #[verifier::spinoff_prover]
    pub fn run_cycles(&mut self, cycles: u16)
        requires
            old(self).wf(),
            cycles <= 20,
        ensures
            final(self).wf(),
            Self::run_spec(old(self), final(self), cycles as int),
    {
        let ghost t0 = self.timer;
        let ghost f0 = self.int_controller.int_f;
        let ghost start = *self;
        proof {
            lemma_or_timer(f0);
        }
        let mut fired = false;
        let mut i: u16 = 0;
        while i < cycles
            invariant
                i <= cycles,
                self.wf(),
                self.ppu == start.ppu,
                self.rom == start.rom,
                self.joypad == start.joypad,
                self.wram == start.wram,
                self.mapped_wram == start.mapped_wram,
                self.hram == start.hram,
                self.io == start.io,
                self.passed_buf == start.passed_buf,
                self.int_controller.int_en == start.int_controller.int_en,
                self.timer == t0.run_spec(i as nat),
                fired == t0.fires_within(i as nat),
                self.int_controller.int_f == (f0 | (if fired {
                    IntSource::TIMER.mask_spec()
                } else {
                    0u8
                })),
            decreases cycles - i,
        {
            proof {
                t0.lemma_run_step(i as nat);
                lemma_or_timer(f0);
            }
            if self.timer.tick() {
                fired = true;
                self.int_controller.interrupt(IntSource::TIMER);
            }
            i = i + 1;
        }
        let maybe_int = self.ppu.run(cycles as i32);
        proof {
            lemma_or_timer(self.int_controller.int_f);
        }
        if let Some(ppu_int) = maybe_int {
            self.int_controller.interrupt(ppu_int);
        }
    }
}

impl Device for Bus {
    open spec fn valid(&self) -> bool {
        self.wf()
    }

    open spec fn peek_byte(&self, addr: u16) -> u8 {
        self.peek(addr)
    }

    fn write(&mut self, addr: u16, val: u8) {
        Bus::write(self, addr, val)
    }

    fn read(&self, addr: u16) -> (r: u8) {
        Bus::read(self, addr)
    }
}

/// Or-ing in nothing, or the TIMER bit twice, changes nothing more.
proof fn lemma_or_timer(f: u8)
    by (bit_vector)
    ensures
        f | 0u8 == f,
        (f | 0u8) | 4u8 == f | 4u8,
        (f | 4u8) | 4u8 == f | 4u8,
{
}

/// A write to work or high RAM is read back unchanged, and leaves every
/// other work or high RAM byte as it was.
pub proof fn lemma_plain_ram_write(old: Bus, new: Bus, addr: u16, val: u8)
    requires
        is_plain_ram(addr),
        Bus::write_spec(&old, &new, addr, val),
        old.wf(),
    ensures
        forall|a: u16| is_plain_ram(a) ==> #[trigger] new.peek(a) == if a == addr {
            val
        } else {
            old.peek(a)
        },
{
}

/// A write through the bus leaves the PPU at the same point of its frame.
pub proof fn lemma_write_keeps_frame_pos(old: Bus, new: Bus, addr: u16, val: u8)
    requires
        Bus::write_spec(&old, &new, addr, val),
    ensures
        new.ppu.frame_pos() == old.ppu.frame_pos(),
{
}

/// Running the timer and PPU leaves work and high RAM as they were.
pub proof fn lemma_run_keeps_plain_ram(old: Bus, new: Bus, cycles: int)
    requires
        Bus::run_spec(&old, &new, cycles),
    ensures
        forall|a: u16| is_plain_ram(a) ==> #[trigger] new.peek(a) == old.peek(a),
{
}

} // verus!
