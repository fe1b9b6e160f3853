//! The SM83 register file and the arithmetic that sets its flags.

use vstd::prelude::*;

verus! {

/// The 16-bit value of the byte pair `hi`, `lo`.
pub open spec fn pair(hi: u8, lo: u8) -> u16 {
    (hi * 256 + lo) as u16
}

/// `v`, wrapped to 16 bits.
pub open spec fn wrap16(v: int) -> u16 {
    (v % 65536) as u16
}

/// `v`, wrapped to 8 bits.
pub open spec fn wrap8(v: int) -> u8 {
    (v % 256) as u8
}

/// The signed value of a byte.
pub open spec fn signed8(v: u8) -> int {
    if v < 128 {
        v as int
    } else {
        v - 256
    }
}

pub fn make_u16(hi: u8, lo: u8) -> (r: u16)
    ensures
        r == pair(hi, lo),
{
    hi as u16 * 256 + lo as u16
}

/// Whether adding the low nibbles of `a` and `b` carries out of bit 3.
pub fn does_bit3_overflow(a: u8, b: u8) -> (r: bool)
    ensures
        r == (a % 16 + b % 16 > 15),
{
    let a = a % 16;
    let b = b % 16;
    (0xF - a) < b
}

/// Whether adding the low twelve bits of `a` and `b` carries out of bit 11.
pub fn does_bit11_overflow(a: u16, b: u16) -> (r: bool)
    ensures
        r == (a % 4096 + b % 4096 > 4095),
{
    let a = a % 4096;
    let b = b % 4096;
    (0xFFF - a) < b
}

/// Whether subtracting the low nibble of `b` from that of `a` borrows from
/// bit 4.
pub fn does_bit3_borrow(a: u8, b: u8) -> (r: bool)
    ensures
        r == (a % 16 < b % 16),
{
    let a = a % 16;
    let b = b % 16;
    b > a
}

/// The four flags.
#[derive(Clone, Copy, Debug, PartialEq, Eq, Structural)]
pub struct Flags {
    pub z: bool,
    pub n: bool,
    pub h: bool,
    pub c: bool,
}

/// The flag byte F: Z, N, H, C in bits 7 to 4, the low nibble zero.
pub open spec fn flag_byte(f: Flags) -> u8 {
    ((if f.z { 128int } else { 0 }) + (if f.n { 64int } else { 0 }) + (if f.h { 32int } else { 0 }) + (
    if f.c { 16int } else { 0 })) as u8
}

/// The flags that the high nibble of `f` holds.
pub open spec fn flags_of_byte(f: u8) -> Flags {
    Flags { z: f & 0x80 == 0x80, n: f & 0x40 == 0x40, h: f & 0x20 == 0x20, c: f & 0x10 == 0x10 }
}

/// The result and flags of the accumulator operation `op` (0 ADD, 1 ADC,
/// 2 SUB, 3 SBC, 4 AND, 5 XOR, 6 OR, 7 CP) on `a` and `v`, with carry-in
/// `carry`. CP gives A unchanged.
pub open spec fn alu_spec(op: u8, a: u8, v: u8, carry: bool) -> (u8, Flags) {
    let ci: int = if carry { 1 } else { 0 };
    if op == 0 {
        let r = wrap8(a + v);
        (r, Flags { z: r == 0, n: false, h: a % 16 + v % 16 > 15, c: a + v > 255 })
    } else if op == 1 {
        let r = wrap8(a + v + ci);
        (r, Flags { z: r == 0, n: false, h: a % 16 + v % 16 + ci > 15, c: a + v + ci > 255 })
    } else if op == 2 || op == 7 {
        let r = wrap8(a - v + 256);
        (if op == 2 { r } else { a }, Flags { z: r == 0, n: true, h: a % 16 < v % 16, c: a < v })
    } else if op == 3 {
        let r = wrap8(a - v - ci + 512);
        (r, Flags { z: r == 0, n: true, h: a % 16 < v % 16 + ci, c: a < v + ci })
    } else if op == 4 {
        let r = a & v;
        (r, Flags { z: r == 0, n: false, h: true, c: false })
    } else if op == 5 {
        let r = a ^ v;
        (r, Flags { z: r == 0, n: false, h: false, c: false })
    } else {
        let r = a | v;
        (r, Flags { z: r == 0, n: false, h: false, c: false })
    }
}

/// The rotate or shift `op` of the CB table (0 RLC, 1 RRC, 2 RL, 3 RR,
/// 4 SLA, 5 SRA, 6 SWAP, 7 SRL) on `v`: the result and the new carry.
pub open spec fn shift_spec(op: u8, v: u8, carry: bool) -> (u8, bool) {
    let ci: int = if carry { 1 } else { 0 };
    let hi: int = if v >= 128 { 1 } else { 0 };
    if op == 0 {
        (wrap8(2 * v + hi), v >= 128)
    } else if op == 1 {
        ((v / 2 + (v % 2) * 128) as u8, v % 2 == 1)
    } else if op == 2 {
        (wrap8(2 * v + ci), v >= 128)
    } else if op == 3 {
        ((v / 2 + ci * 128) as u8, v % 2 == 1)
    } else if op == 4 {
        (wrap8(2 * v), v >= 128)
    } else if op == 5 {
        ((v / 2 + hi * 128) as u8, v % 2 == 1)
    } else if op == 6 {
        (((v % 16) * 16 + v / 16) as u8, false)
    } else {
        ((v / 2) as u8, v % 2 == 1)
    }
}

/// DAA: the accumulator and flags after the decimal adjustment of `a`.
pub open spec fn daa_spec(a: u8, f: Flags) -> (u8, Flags) {
    if !f.n {
        let (a1, c1) = if f.c || a > 0x99 {
            (wrap8(a + 0x60), true)
        } else {
            (a, false)
        };
        let a2 = if f.h || a1 % 16 > 9 {
            wrap8(a1 + 6)
        } else {
            a1
        };
        (a2, Flags { z: a2 == 0, n: false, h: false, c: c1 })
    } else {
        let a1 = if f.c {
            wrap8(a - 0x60 + 256)
        } else {
            a
        };
        let a2 = if f.h {
            wrap8(a1 - 6 + 256)
        } else {
            a1
        };
        (a2, Flags { z: a2 == 0, n: true, h: false, c: f.c })
    }
}

/// The register file.
#[derive(Clone, Copy, Debug, PartialEq, Eq, Structural)]
pub struct Registers {
    pub a: u8,
    pub b: u8,
    pub c: u8,
    pub d: u8,
    pub e: u8,
    pub h: u8,
    pub l: u8,
    pub sp: u16,
    pub pc: u16,
    pub f: Flags,
    /// The master interrupt enable.
    pub ime: bool,
}

impl Registers {
    pub open spec fn hl(self) -> u16 {
        pair(self.h, self.l)
    }

    /// The 8-bit register `r` of `{B, C, D, E, H, L, -, A}`.
    pub open spec fn r8(self, r: u8) -> u8 {
        if r == 0 {
            self.b
        } else if r == 1 {
            self.c
        } else if r == 2 {
            self.d
        } else if r == 3 {
            self.e
        } else if r == 4 {
            self.h
        } else if r == 5 {
            self.l
        } else {
            self.a
        }
    }

    /// The registers with `r` set to `v`.
    pub open spec fn with_r8(self, r: u8, v: u8) -> Registers {
        if r == 0 {
            Registers { b: v, ..self }
        } else if r == 1 {
            Registers { c: v, ..self }
        } else if r == 2 {
            Registers { d: v, ..self }
        } else if r == 3 {
            Registers { e: v, ..self }
        } else if r == 4 {
            Registers { h: v, ..self }
        } else if r == 5 {
            Registers { l: v, ..self }
        } else {
            Registers { a: v, ..self }
        }
    }

    /// The 16-bit register `rr` of `{BC, DE, HL, SP}`.
    pub open spec fn r16(self, rr: u8) -> u16 {
        if rr == 0 {
            pair(self.b, self.c)
        } else if rr == 1 {
            pair(self.d, self.e)
        } else if rr == 2 {
            pair(self.h, self.l)
        } else {
            self.sp
        }
    }

    /// The registers with `rr` set to `v`.
    pub open spec fn with_r16(self, rr: u8, v: u16) -> Registers {
        let hi = (v / 256) as u8;
        let lo = (v % 256) as u8;
        if rr == 0 {
            Registers { b: hi, c: lo, ..self }
        } else if rr == 1 {
            Registers { d: hi, e: lo, ..self }
        } else if rr == 2 {
            Registers { h: hi, l: lo, ..self }
        } else {
            Registers { sp: v, ..self }
        }
    }

    /// Whether condition `cc` of `{NZ, Z, NC, C}` holds.
    pub open spec fn cond(self, cc: u8) -> bool {
        if cc == 0 {
            !self.f.z
        } else if cc == 1 {
            self.f.z
        } else if cc == 2 {
            !self.f.c
        } else {
            self.f.c
        }
    }
}

} // verus!
