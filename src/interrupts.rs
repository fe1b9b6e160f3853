//! The interrupt controller: the IF (pending) and IE (enable) registers.

use vstd::prelude::*;

verus! {

/// Address of the IF register.
pub const IF_ADDR: u16 = 0xFF0F;

/// Address of the IE register.
pub const IE_ADDR: u16 = 0xFFFF;

/// The five interrupt sources, highest priority first.
#[derive(Clone, Copy, Debug, PartialEq, Eq, Structural)]
pub enum IntSource {
    VBLANK,
    LCD,
    TIMER,
    SERIAL,
    JOYPAD,
}

impl IntSource {
    /// The bit of IF and IE that belongs to this source.
    pub open spec fn mask_spec(self) -> u8 {
        match self {
            IntSource::VBLANK => 0x01,
            IntSource::LCD => 0x02,
            IntSource::TIMER => 0x04,
            IntSource::SERIAL => 0x08,
            IntSource::JOYPAD => 0x10,
        }
    }

    #[verifier::when_used_as_spec(mask_spec)]
    pub fn mask(self) -> (r: u8)
        ensures
            r == self.mask_spec(),
    {
        match self {
            IntSource::VBLANK => 0x01,
            IntSource::LCD => 0x02,
            IntSource::TIMER => 0x04,
            IntSource::SERIAL => 0x08,
            IntSource::JOYPAD => 0x10,
        }
    }

    /// The address the CPU jumps to when it services this source.
    pub open spec fn vector_spec(self) -> u16 {
        match self {
            IntSource::VBLANK => 0x40,
            IntSource::LCD => 0x48,
            IntSource::TIMER => 0x50,
            IntSource::SERIAL => 0x58,
            IntSource::JOYPAD => 0x60,
        }
    }

    #[verifier::when_used_as_spec(vector_spec)]
    pub fn vector(self) -> (r: u16)
        ensures
            r == self.vector_spec(),
    {
        match self {
            IntSource::VBLANK => 0x40,
            IntSource::LCD => 0x48,
            IntSource::TIMER => 0x50,
            IntSource::SERIAL => 0x58,
            IntSource::JOYPAD => 0x60,
        }
    }
}

/// The source of highest priority among the bits set in `masked`, if any.
pub open spec fn highest_priority(masked: u8) -> Option<IntSource> {
    if masked & 0x01 != 0 {
        Some(IntSource::VBLANK)
    } else if masked & 0x02 != 0 {
        Some(IntSource::LCD)
    } else if masked & 0x04 != 0 {
        Some(IntSource::TIMER)
    } else if masked & 0x08 != 0 {
        Some(IntSource::SERIAL)
    } else if masked & 0x10 != 0 {
        Some(IntSource::JOYPAD)
    } else {
        None
    }
}

pub struct InterruptController {
    pub int_en: u8,
    /// The IF register (`if` is a keyword).
    pub int_f: u8,
}

impl InterruptController {
    /// Both registers hold five bits.
    pub open spec fn wf(&self) -> bool {
        self.int_f < 32 && self.int_en < 32
    }

    /// An interrupt is pending when a source is both flagged and enabled.
    pub open spec fn pending_spec(&self) -> bool {
        self.int_f & self.int_en != 0
    }

    /// The source that the CPU services next.
    pub open spec fn next_spec(&self) -> Option<IntSource> {
        highest_priority(self.int_f & self.int_en)
    }

    /// What a read of `addr` returns.
    pub open spec fn peek(&self, addr: u16) -> u8 {
        if addr == IF_ADDR {
            self.int_f
        } else {
            self.int_en
        }
    }

    pub fn new() -> (r: Self)
        ensures
            r.int_en == 0,
            r.int_f == 0,
    {
        InterruptController { int_en: 0, int_f: 0 }
    }

    /// Writes IF or IE, keeping the low five bits.
    pub fn write(&mut self, addr: u16, val: u8)
        requires
            addr == IF_ADDR || addr == IE_ADDR,
        ensures
            addr == IF_ADDR ==> final(self).int_f == val & 0x1F && final(self).int_en
                == old(self).int_en,
            addr == IE_ADDR ==> final(self).int_en == val & 0x1F && final(self).int_f
                == old(self).int_f,
            old(self).wf() ==> final(self).wf(),
    {
        assert(val & 0x1F < 32) by (bit_vector);
        if addr == IF_ADDR {
            self.int_f = val & 0x1F;
        } else {
            self.int_en = val & 0x1F;
        }
    }

    pub fn read(&self, addr: u16) -> (r: u8)
        requires
            addr == IF_ADDR || addr == IE_ADDR,
        ensures
            r == self.peek(addr),
    {
        if addr == IF_ADDR {
            self.int_f
        } else {
            self.int_en
        }
    }

    /// Raises `int_source` in IF.
    pub fn interrupt(&mut self, int_source: IntSource)
        ensures
            final(self).int_f == old(self).int_f | int_source.mask_spec(),
            final(self).int_en == old(self).int_en,
            old(self).wf() ==> final(self).wf(),
    {
        proof {
            lemma_five_bits(self.int_f, int_source.mask_spec());
        }
        self.int_f = self.int_f | int_source.mask();
    }

    /// Clears `int_source` in IF.
    pub fn interrupt_clear(&mut self, int_source: IntSource)
        ensures
            final(self).int_f == old(self).int_f & !int_source.mask_spec(),
            final(self).int_en == old(self).int_en,
            old(self).wf() ==> final(self).wf(),
    {
        proof {
            lemma_five_bits(self.int_f, int_source.mask_spec());
        }
        self.int_f = self.int_f & !int_source.mask();
    }

    pub fn pending(&self) -> (r: bool)
        ensures
            r == self.pending_spec(),
    {
        self.int_f & self.int_en != 0
    }

    /// The pending source of highest priority, if any.
    pub fn next(&self) -> (r: Option<IntSource>)
        ensures
            r == self.next_spec(),
    {
        let masked: u8 = self.int_f & self.int_en;
        if masked & 0x01 != 0 {
            Some(IntSource::VBLANK)
        } else if masked & 0x02 != 0 {
            Some(IntSource::LCD)
        } else if masked & 0x04 != 0 {
            Some(IntSource::TIMER)
        } else if masked & 0x08 != 0 {
            Some(IntSource::SERIAL)
        } else if masked & 0x10 != 0 {
            Some(IntSource::JOYPAD)
        } else {
            None
        }
    }
}

/// Setting or clearing a source bit keeps IF within five bits.
proof fn lemma_five_bits(f: u8, m: u8)
    by (bit_vector)
    requires
        m == 1 || m == 2 || m == 4 || m == 8 || m == 16,
    ensures
        f < 32 ==> (f | m) < 32,
        f < 32 ==> (f & !m) < 32,
{
}

/// Raising a source and clearing it again leaves nothing pending, unless
/// another enabled source was already flagged: `c1` is `c0` after
/// `interrupt(src)` and `c2` is `c1` after `interrupt_clear(src)`.
pub proof fn lemma_interrupt_then_clear(
    c0: InterruptController,
    c1: InterruptController,
    c2: InterruptController,
    src: IntSource,
)
    requires
        c1.int_f == c0.int_f | src.mask_spec(),
        c1.int_en == c0.int_en,
        c2.int_f == c1.int_f & !src.mask_spec(),
        c2.int_en == c1.int_en,
        c0.int_f & c0.int_en & !src.mask_spec() == 0,
    ensures
        !c2.pending_spec(),
{
    let m = src.mask_spec();
    let f = c0.int_f;
    let e = c0.int_en;
    assert(f & e & !m == 0 ==> ((f | m) & !m) & e == 0) by (bit_vector);
}

/// A source that is flagged and enabled is served before every source of
/// lower priority, and nothing is served when nothing is pending.
pub proof fn lemma_next_is_pending(ic: InterruptController)
    requires
        ic.wf(),
    ensures
        ic.next_spec() is None <==> !ic.pending_spec(),
        ic.next_spec() matches Some(s) ==> ic.int_f & ic.int_en & s.mask_spec() != 0,
{
    let f = ic.int_f;
    let e = ic.int_en;
    assert(f < 32 && (f & e) & 0x01 == 0 && (f & e) & 0x02 == 0 && (f & e) & 0x04 == 0 && (f
        & e) & 0x08 == 0 && (f & e) & 0x10 == 0 ==> f & e == 0) by (bit_vector);
    assert(f & e == 0 ==> (f & e) & 0x01 == 0 && (f & e) & 0x02 == 0 && (f & e) & 0x04 == 0 && (f
        & e) & 0x08 == 0 && (f & e) & 0x10 == 0) by (bit_vector);
}

} // verus!
