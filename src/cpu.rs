//! The SM83 interpreter: one instruction, or one interrupt dispatch, per
//! step, with its cost in machine cycles.

use vstd::prelude::*;
use crate::bus::{
    is_plain_ram, lemma_plain_ram_write, lemma_run_keeps_plain_ram, lemma_write_keeps_frame_pos, Bus,
};
use crate::ppu::CYCLES_PER_FRAME;
use crate::interrupts::IntSource;
use crate::regs::{
    alu_spec, daa_spec, does_bit11_overflow, does_bit3_borrow, does_bit3_overflow, flag_byte,
    flags_of_byte, make_u16, pair, shift_spec, signed8, wrap16, wrap8, Flags, Registers,
};

verus! {

/// The I/O page that LDH addresses.
pub const PAGE0_OFFSET: u16 = 0xFF00;

/// The register code of A.
pub const A_REG: u8 = 7;

/// The 16-bit register code of HL.
pub const HL_REG: u8 = 2;

/// The register code that stands for the byte at (HL).
pub const HL_PTR: u8 = 6;

/// The 8- and 16-bit registers, by name.
#[derive(Clone, Copy, Debug, PartialEq, Eq, Structural)]
pub enum Reg {
    B,
    C,
    D,
    E,
    H,
    L,
    A,
    BC,
    DE,
    HL,
    SP,
}

/// Why the CPU stopped.
#[derive(Clone, Copy, Debug, PartialEq, Eq, Structural)]
pub enum CpuFault {
    /// An opcode that the SM83 does not define.
    InvalidOpcode(u8),
    /// STOP, which this emulator does not model.
    Stop,
}

/// The opcodes that the SM83 leaves undefined.
pub open spec fn is_invalid_opcode(op: u8) -> bool {
    op == 0xD3 || op == 0xDB || op == 0xDD || op == 0xE3 || op == 0xE4 || op == 0xEB || op == 0xEC
        || op == 0xED || op == 0xF4 || op == 0xFC || op == 0xFD
}

pub struct Cpu {
    pub regs: Registers,
    /// Set by HALT until an interrupt is pending.
    pub sleep: bool,
    pub bus: Bus,
}

impl Cpu {
    pub open spec fn wf(&self) -> bool {
        self.bus.wf()
    }

    /// The value of 8-bit operand `r`; code 6 is the byte at (HL).
    pub open spec fn operand(&self, r: u8) -> u8 {
        if r == HL_PTR {
            self.bus.peek(self.regs.hl())
        } else {
            self.regs.r8(r)
        }
    }

    /// The byte after the opcode.
    pub open spec fn imm8(&self) -> u8 {
        self.bus.peek(self.regs.pc)
    }

    /// The little-endian word after the opcode.
    pub open spec fn imm16(&self) -> u16 {
        pair(self.bus.peek(wrap16(self.regs.pc + 1)), self.bus.peek(self.regs.pc))
    }

    /// `new` is `old` with registers `regs` and operand `r` then set to `v`
    /// (through the bus when `r` is (HL)).
    pub open spec fn stored(old: &Cpu, regs: Registers, new: &Cpu, r: u8, v: u8) -> bool {
        &&& new.sleep == old.sleep
        &&& if r == HL_PTR {
            new.regs == regs && Bus::write_spec(&old.bus, &new.bus, regs.hl(), v)
        } else {
            new.regs == regs.with_r8(r, v) && new.bus == old.bus
        }
    }

    /// `new` has registers `regs` and the bus and sleep latch of `old`.
    pub open spec fn regs_only(old: &Cpu, new: &Cpu, regs: Registers) -> bool {
        new.regs == regs && new.bus == old.bus && new.sleep == old.sleep
    }

    /// `new` has registers `regs`, and its bus is `old`'s after a write of
    /// `val` to `addr`.
    pub open spec fn wrote(old: &Cpu, new: &Cpu, regs: Registers, addr: u16, val: u8) -> bool {
        new.regs == regs && new.sleep == old.sleep && Bus::write_spec(&old.bus, &new.bus, addr, val)
    }

    /// `new` has pushed `val`: its high byte to SP - 1, its low byte to
    /// SP - 2, and SP is 2 lower.
    pub open spec fn pushed(old: &Cpu, new: &Cpu, regs: Registers, val: u16) -> bool {
        &&& new.regs == (Registers { sp: wrap16(regs.sp - 2 + 65536), ..regs })
        &&& new.sleep == old.sleep
        &&& Self::pushed_bus(&old.bus, &new.bus, regs.sp, val)
    }

    /// `new_bus` is `old_bus` after pushing `val` below `sp`.
    pub open spec fn pushed_bus(old_bus: &Bus, new_bus: &Bus, sp: u16, val: u16) -> bool {
        exists|mid: Bus|
            Bus::write_spec(old_bus, &mid, wrap16(sp - 1 + 65536), (val / 256) as u8)
                && #[trigger] Bus::write_spec(&mid, new_bus, wrap16(sp - 2 + 65536),
                    (val % 256) as u8)
                && mid.wf()
    }

    /// The word at SP, low byte first.
    pub open spec fn stack_top(&self) -> u16 {
        pair(self.bus.peek(wrap16(self.regs.sp + 1)), self.bus.peek(self.regs.sp))
    }

    /// The value of register `r`, widened to 16 bits.
    pub open spec fn reg_spec(&self, r: Reg) -> u16 {
        match r {
            Reg::B => self.regs.b as u16,
            Reg::C => self.regs.c as u16,
            Reg::D => self.regs.d as u16,
            Reg::E => self.regs.e as u16,
            Reg::H => self.regs.h as u16,
            Reg::L => self.regs.l as u16,
            Reg::A => self.regs.a as u16,
            Reg::BC => self.regs.r16(0),
            Reg::DE => self.regs.r16(1),
            Reg::HL => self.regs.r16(2),
            Reg::SP => self.regs.sp,
        }
    }

    /// Reads register `r` by name, for display.
    pub fn reg(&self, r: Reg) -> (v: u16)
        ensures
            v == self.reg_spec(r),
    {
        match r {
            Reg::B => self.regs.b as u16,
            Reg::C => self.regs.c as u16,
            Reg::D => self.regs.d as u16,
            Reg::E => self.regs.e as u16,
            Reg::H => self.regs.h as u16,
            Reg::L => self.regs.l as u16,
            Reg::A => self.regs.a as u16,
            Reg::BC => make_u16(self.regs.b, self.regs.c),
            Reg::DE => make_u16(self.regs.d, self.regs.e),
            Reg::HL => make_u16(self.regs.h, self.regs.l),
            Reg::SP => self.regs.sp,
        }
    }

    fn rreg8(&self, r: u8) -> (v: u8)
        requires
            self.wf(),
            r < 8,
        ensures
            v == self.operand(r),
    {
        if r == 0 {
            self.regs.b
        } else if r == 1 {
            self.regs.c
        } else if r == 2 {
            self.regs.d
        } else if r == 3 {
            self.regs.e
        } else if r == 4 {
            self.regs.h
        } else if r == 5 {
            self.regs.l
        } else if r == 6 {
            self.bus.read(make_u16(self.regs.h, self.regs.l))
        } else {
            self.regs.a
        }
    }

    fn wreg8(&mut self, r: u8, v: u8)
        requires
            old(self).wf(),
            r < 8,
        ensures
            final(self).wf(),
            Self::stored(old(self), old(self).regs, final(self), r, v),
    {
        if r == 0 {
            self.regs.b = v;
        } else if r == 1 {
            self.regs.c = v;
        } else if r == 2 {
            self.regs.d = v;
        } else if r == 3 {
            self.regs.e = v;
        } else if r == 4 {
            self.regs.h = v;
        } else if r == 5 {
            self.regs.l = v;
        } else if r == 6 {
            let hl = make_u16(self.regs.h, self.regs.l);
            self.bus.write(hl, v);
        } else {
            self.regs.a = v;
        }
    }

    fn rreg16(&self, rr: u8) -> (v: u16)
        requires
            rr < 4,
        ensures
            v == self.regs.r16(rr),
    {
        if rr == 0 {
            make_u16(self.regs.b, self.regs.c)
        } else if rr == 1 {
            make_u16(self.regs.d, self.regs.e)
        } else if rr == 2 {
            make_u16(self.regs.h, self.regs.l)
        } else {
            self.regs.sp
        }
    }

    fn wreg16(&mut self, rr: u8, v: u16)
        requires
            rr < 4,
        ensures
            final(self).regs == old(self).regs.with_r16(rr, v),
            final(self).bus == old(self).bus,
            final(self).sleep == old(self).sleep,
    {
        let hi = (v / 256) as u8;
        let lo = (v % 256) as u8;
        if rr == 0 {
            self.regs.b = hi;
            self.regs.c = lo;
        } else if rr == 1 {
            self.regs.d = hi;
            self.regs.e = lo;
        } else if rr == 2 {
            self.regs.h = hi;
            self.regs.l = lo;
        } else {
            self.regs.sp = v;
        }
    }

    /// The address that memory operand `rr` of `{(BC), (DE), (HL+), (HL-)}`
    /// names.
    pub open spec fn mem_addr(&self, rr: u8) -> u16 {
        if rr == 0 {
            self.regs.r16(0)
        } else if rr == 1 {
            self.regs.r16(1)
        } else {
            self.regs.hl()
        }
    }

    /// The registers after memory operand `rr` was used: HL steps for
    /// (HL+) and (HL-).
    pub open spec fn mem_step(regs: Registers, rr: u8) -> Registers {
        if rr == 2 {
            regs.with_r16(2, wrap16(regs.hl() + 1))
        } else if rr == 3 {
            regs.with_r16(2, wrap16(regs.hl() - 1 + 65536))
        } else {
            regs
        }
    }

    fn rr16mem(&mut self, rr: u8) -> (v: u8)
        requires
            old(self).wf(),
            rr < 4,
        ensures
            final(self).wf(),
            v == old(self).bus.peek(old(self).mem_addr(rr)),
            Self::regs_only(old(self), final(self), Self::mem_step(old(self).regs, rr)),
    {
        if rr == 0 {
            self.bus.read(make_u16(self.regs.b, self.regs.c))
        } else if rr == 1 {
            self.bus.read(make_u16(self.regs.d, self.regs.e))
        } else {
            let hl = make_u16(self.regs.h, self.regs.l);
            let ret = self.bus.read(hl);
            let next = if rr == 2 {
                hl.wrapping_add(1)
            } else {
                hl.wrapping_sub(1)
            };
            self.wreg16(HL_REG, next);
            ret
        }
    }

    fn wr16mem(&mut self, rr: u8, v: u8)
        requires
            old(self).wf(),
            rr < 4,
        ensures
            final(self).wf(),
            Self::wrote(old(self), final(self), Self::mem_step(old(self).regs, rr),
                old(self).mem_addr(rr), v),
    {
        if rr == 0 {
            self.bus.write(make_u16(self.regs.b, self.regs.c), v);
        } else if rr == 1 {
            self.bus.write(make_u16(self.regs.d, self.regs.e), v);
        } else {
            let hl = make_u16(self.regs.h, self.regs.l);
            self.bus.write(hl, v);
            let next = if rr == 2 {
                hl.wrapping_add(1)
            } else {
                hl.wrapping_sub(1)
            };
            self.wreg16(HL_REG, next);
        }
    }

    fn check_cond(&self, cc: u8) -> (r: bool)
        requires
            cc < 4,
        ensures
            r == self.regs.cond(cc),
    {
        if cc == 0 {
            !self.regs.f.z
        } else if cc == 1 {
            self.regs.f.z
        } else if cc == 2 {
            !self.regs.f.c
        } else {
            self.regs.f.c
        }
    }

    fn push_stack(&mut self, val: u16)
        requires
            old(self).wf(),
        ensures
            final(self).wf(),
            Self::pushed(old(self), final(self), old(self).regs, val),
    {
        self.regs.sp = self.regs.sp.wrapping_sub(1);
        self.bus.write(self.regs.sp, (val / 256) as u8);
        let ghost mid = self.bus;
        self.regs.sp = self.regs.sp.wrapping_sub(1);
        self.bus.write(self.regs.sp, (val % 256) as u8);
        assert(Bus::write_spec(&mid, &self.bus, self.regs.sp, (val % 256) as u8));
    }

    fn pop_stack(&mut self) -> (r: u16)
        requires
            old(self).wf(),
        ensures
            final(self).wf(),
            r == old(self).stack_top(),
            Self::regs_only(old(self), final(self), Registers { sp: wrap16(old(self).regs.sp + 2),
                ..old(self).regs }),
    {
        let lo = self.bus.read(self.regs.sp);
        self.regs.sp = self.regs.sp.wrapping_add(1);
        let hi = self.bus.read(self.regs.sp);
        self.regs.sp = self.regs.sp.wrapping_add(1);
        make_u16(hi, lo)
    }

    fn load_byte(&mut self) -> (r: u8)
        requires
            old(self).wf(),
        ensures
            final(self).wf(),
            r == old(self).imm8(),
            Self::regs_only(old(self), final(self), Registers { pc: wrap16(old(self).regs.pc + 1),
                ..old(self).regs }),
    {
        let next_byte = self.bus.read(self.regs.pc);
        self.regs.pc = self.regs.pc.wrapping_add(1);
        next_byte
    }

    fn load_word(&mut self) -> (r: u16)
        requires
            old(self).wf(),
        ensures
            final(self).wf(),
            r == old(self).imm16(),
            Self::regs_only(old(self), final(self), Registers { pc: wrap16(old(self).regs.pc + 2),
                ..old(self).regs }),
    {
        let next = self.load_byte();
        let next_next = self.load_byte();
        make_u16(next_next, next)
    }
}

/// The register and condition fields of an opcode are in range.
proof fn lemma_opcode_fields(opcode: u8)
    by (bit_vector)
    ensures
        (opcode >> 4) & 0x3 < 4,
        (opcode >> 3) & 0x3 < 4,
        (opcode >> 3) & 0x7 < 8,
        opcode & 0x7 < 8,
        opcode >> 6 < 4,
{
}

/// ADD and ADC: `a + v` plus the carry-in when `with_carry`.
#[verifier::spinoff_prover]
fn add_compute(a: u8, v: u8, carry: bool, with_carry: bool) -> (r: (u8, Flags))
    ensures
        r == alu_spec(if with_carry { 1u8 } else { 0u8 }, a, v, carry),
{
    let ci: u16 = if carry && with_carry {
        1
    } else {
        0
    };
    let sum: u16 = a as u16 + v as u16 + ci;
    let res = (sum % 256) as u8;
    (res, Flags { z: res == 0, n: false, h: (a % 16) as u16 + (v % 16) as u16 + ci > 15, c: sum > 255 })
}

/// SUB, SBC and CP: `a - v` minus the carry-in when `with_carry`; CP keeps
/// A.
#[verifier::spinoff_prover]
#[verifier::rlimit(40)]
fn sub_compute(op: u8, a: u8, v: u8, carry: bool) -> (r: (u8, Flags))
    requires
        op == 2 || op == 3 || op == 7,
    ensures
        r == alu_spec(op, a, v, carry),
{
    let ci: u16 = if carry && op == 3 {
        1
    } else {
        0
    };
    let res = ((a as u16 + 512 - v as u16 - ci) % 256) as u8;
    let f = Flags {
        z: res == 0,
        n: true,
        h: ((a % 16) as u16) < (v % 16) as u16 + ci,
        c: (a as u16) < v as u16 + ci,
    };
    if op == 7 {
        (a, f)
    } else {
        (res, f)
    }
}

/// The accumulator operation `op` on `a` and `v` with carry-in `carry`.
fn alu_compute(op: u8, a: u8, v: u8, carry: bool) -> (r: (u8, Flags))
    requires
        op < 8,
    ensures
        r == alu_spec(op, a, v, carry),
{
    if op == 0 {
        add_compute(a, v, carry, false)
    } else if op == 1 {
        add_compute(a, v, carry, true)
    } else if op == 2 || op == 3 || op == 7 {
        sub_compute(op, a, v, carry)
    } else if op == 4 {
        let res = a & v;
        (res, Flags { z: res == 0, n: false, h: true, c: false })
    } else if op == 5 {
        let res = a ^ v;
        (res, Flags { z: res == 0, n: false, h: false, c: false })
    } else {
        let res = a | v;
        (res, Flags { z: res == 0, n: false, h: false, c: false })
    }
}

/// `hl + v` wrapped to 16 bits, and the flags of ADD HL: Z as `z`, N
/// cleared, H from bit 11, C from bit 15.
fn add16(hl: u16, v: u16, z: bool) -> (r: (u16, Flags))
    ensures
        r.0 == wrap16(hl + v),
        r.1 == (Flags { z, n: false, h: hl % 4096 + v % 4096 > 4095, c: hl + v > 65535 }),
{
    (hl.wrapping_add(v), Flags { z, n: false, h: does_bit11_overflow(hl, v), c: hl as u32 + v as u32 > 0xFFFF })
}

/// `v` plus the signed byte `e`, wrapped to 16 bits.
fn add_signed(v: u16, e: u8) -> (r: u16)
    ensures
        r == wrap16(v + signed8(e) + 65536),
{
    if e < 128 {
        v.wrapping_add(e as u16)
    } else {
        v.wrapping_sub(256 - e as u16)
    }
}

impl Cpu {
    fn no_op(&mut self, _opcode: u8) -> (r: u8)
        requires
            old(self).wf(),
        ensures
            final(self).wf(),
            Self::no_op_post(old(self), final(self), _opcode, r),
    {
        1
    }

    /// LD rr,n16.
    fn ld_r16_imm16(&mut self, opcode: u8) -> (r: u8)
        requires
            old(self).wf(),
        ensures
            final(self).wf(),
            Self::ld_r16_imm16_post(old(self), final(self), opcode, r),
    {
        let rr = (opcode >> 4) & 0x3;
        proof { lemma_opcode_fields(opcode); }
        let imm16 = self.load_word();
        self.wreg16(rr, imm16);
        3
    }

    /// LD (rr),A for (BC), (DE), (HL+), (HL-).
    fn ld_r16mem_a(&mut self, opcode: u8) -> (r: u8)
        requires
            old(self).wf(),
        ensures
            final(self).wf(),
            Self::ld_r16mem_a_post(old(self), final(self), opcode, r),
    {
        let rr = (opcode >> 4) & 0x3;
        proof { lemma_opcode_fields(opcode); }
        let a = self.regs.a;
        self.wr16mem(rr, a);
        2
    }

    /// LD A,(rr) for (BC), (DE), (HL+), (HL-).
    fn ld_a_r16mem(&mut self, opcode: u8) -> (r: u8)
        requires
            old(self).wf(),
        ensures
            final(self).wf(),
            Self::ld_a_r16mem_post(old(self), final(self), opcode, r),
    {
        let rr = (opcode >> 4) & 0x3;
        proof { lemma_opcode_fields(opcode); }
        let v = self.rr16mem(rr);
        self.regs.a = v;
        2
    }

    /// INC rr.
    fn inc_r16(&mut self, opcode: u8) -> (r: u8)
        requires
            old(self).wf(),
        ensures
            final(self).wf(),
            Self::inc_r16_post(old(self), final(self), opcode, r),
    {
        let rr = (opcode >> 4) & 0x3;
        proof { lemma_opcode_fields(opcode); }
        let v = self.rreg16(rr).wrapping_add(1);
        self.wreg16(rr, v);
        2
    }

    /// DEC rr.
    fn dec_r16(&mut self, opcode: u8) -> (r: u8)
        requires
            old(self).wf(),
        ensures
            final(self).wf(),
            Self::dec_r16_post(old(self), final(self), opcode, r),
    {
        let rr = (opcode >> 4) & 0x3;
        proof { lemma_opcode_fields(opcode); }
        let v = self.rreg16(rr).wrapping_sub(1);
        self.wreg16(rr, v);
        2
    }

    /// INC r: Z from the result, N cleared, H from bit 3, C kept.
    #[verifier::spinoff_prover]
    fn inc_r8(&mut self, opcode: u8) -> (r: u8)
        requires
            old(self).wf(),
        ensures
            final(self).wf(),
            Self::inc_r8_post(old(self), final(self), opcode, r),
    {
        let reg = (opcode >> 3) & 0x7;
        proof { lemma_opcode_fields(opcode); }
        let before = self.rreg8(reg);
        self.regs.f.h = does_bit3_overflow(before, 1);
        self.regs.f.n = false;
        let incre = before.wrapping_add(1);
        self.regs.f.z = incre == 0;
        self.wreg8(reg, incre);
        if reg == HL_PTR {
            3
        } else {
            1
        }
    }

    /// DEC r: Z from the result, N set, H from the borrow into bit 3, C kept.
    #[verifier::spinoff_prover]
    fn dec_r8(&mut self, opcode: u8) -> (r: u8)
        requires
            old(self).wf(),
        ensures
            final(self).wf(),
            Self::dec_r8_post(old(self), final(self), opcode, r),
    {
        let reg = (opcode >> 3) & 0x7;
        proof { lemma_opcode_fields(opcode); }
        let before = self.rreg8(reg);
        let dec = before.wrapping_sub(1);
        self.regs.f.z = dec == 0;
        self.regs.f.h = does_bit3_borrow(before, 1);
        self.regs.f.n = true;
        self.wreg8(reg, dec);
        if reg == HL_PTR {
            3
        } else {
            1
        }
    }

    /// LD r,n8.
    fn ld_r8_imm8(&mut self, opcode: u8) -> (r: u8)
        requires
            old(self).wf(),
        ensures
            final(self).wf(),
            Self::ld_r8_imm8_post(old(self), final(self), opcode, r),
    {
        let reg = (opcode >> 3) & 0x7;
        proof { lemma_opcode_fields(opcode); }
        let imm8 = self.load_byte();
        self.wreg8(reg, imm8);
        if reg == HL_PTR {
            3
        } else {
            2
        }
    }

    /// The rotate or shift `op` of the CB table applied to operand `reg`:
    /// Z from the result, N and H cleared, C from the bit shifted out.
    #[verifier::spinoff_prover]
    fn shift_op(&mut self, op: u8, reg: u8)
        requires
            old(self).wf(),
            op < 8,
            reg < 8,
        ensures
            final(self).wf(),
            ({
                let (res, c) = shift_spec(op, old(self).operand(reg), old(self).regs.f.c);
                let regs = Registers { f: Flags { z: res == 0, n: false, h: false, c },
                    ..old(self).regs };
                Self::stored(old(self), regs, final(self), reg, res)
            }),
    {
        let v = self.rreg8(reg);
        let ci: u8 = if self.regs.f.c {
            1
        } else {
            0
        };
        let res: u8;
        let c: bool;
        if op == 0 {
            res = ((v as u16 * 2) % 256) as u8 + v / 128;
            c = v >= 128;
        } else if op == 1 {
            res = v / 2 + (v % 2) * 128;
            c = v % 2 == 1;
        } else if op == 2 {
            res = ((v as u16 * 2) % 256) as u8 + ci;
            c = v >= 128;
        } else if op == 3 {
            res = v / 2 + ci * 128;
            c = v % 2 == 1;
        } else if op == 4 {
            res = ((v as u16 * 2) % 256) as u8;
            c = v >= 128;
        } else if op == 5 {
            res = v / 2 + (v / 128) * 128;
            c = v % 2 == 1;
        } else if op == 6 {
            res = (v % 16) * 16 + v / 16;
            c = false;
        } else {
            res = v / 2;
            c = v % 2 == 1;
        }
        self.regs.f = Flags { z: res == 0, n: false, h: false, c };
        self.wreg8(reg, res);
    }

    /// RLCA, RRCA, RLA, RRA (`op` 0 to 3): as the CB forms on A, but Z is
    /// always cleared.
    fn rotate_a(&mut self, op: u8) -> (r: u8)
        requires
            old(self).wf(),
            op < 4,
        ensures
            final(self).wf(),
            r == 1,
            ({
                let (res, c) = shift_spec(op, old(self).regs.a, old(self).regs.f.c);
                Self::regs_only(old(self), final(self), Registers { a: res, f: Flags { z: false,
                    n: false, h: false, c }, ..old(self).regs })
            }),
    {
        self.shift_op(op, A_REG);
        self.regs.f.z = false;
        1
    }

    fn rlca(&mut self, _opcode: u8) -> (r: u8)
        requires
            old(self).wf(),
        ensures
            final(self).wf(),
            Self::rlca_post(old(self), final(self), _opcode, r),
    {
        self.rotate_a(0)
    }

    fn rrca(&mut self, _opcode: u8) -> (r: u8)
        requires
            old(self).wf(),
        ensures
            final(self).wf(),
            Self::rrca_post(old(self), final(self), _opcode, r),
    {
        self.rotate_a(1)
    }

    fn rla(&mut self, _opcode: u8) -> (r: u8)
        requires
            old(self).wf(),
        ensures
            final(self).wf(),
            Self::rla_post(old(self), final(self), _opcode, r),
    {
        self.rotate_a(2)
    }

    fn rra(&mut self, _opcode: u8) -> (r: u8)
        requires
            old(self).wf(),
        ensures
            final(self).wf(),
            Self::rra_post(old(self), final(self), _opcode, r),
    {
        self.rotate_a(3)
    }

    /// LD (n16),SP: the low byte of SP, then the high byte.
    fn ld_imm16_sp(&mut self, _opcode: u8) -> (r: u8)
        requires
            old(self).wf(),
        ensures
            final(self).wf(),
            Self::ld_imm16_sp_post(old(self), final(self), _opcode, r),
    {
        let imm16 = self.load_word();
        let sp = self.regs.sp;
        self.bus.write(imm16, (sp % 256) as u8);
        let ghost mid = self.bus;
        self.bus.write(imm16.wrapping_add(1), (sp / 256) as u8);
        assert(Bus::write_spec(&mid, &self.bus, wrap16(imm16 + 1), (sp / 256) as u8));
        5
    }

    /// ADD HL,rr: Z kept, N cleared, H from bit 11, C from bit 15.
    #[verifier::spinoff_prover]
    fn add_hl_r16(&mut self, opcode: u8) -> (r: u8)
        requires
            old(self).wf(),
        ensures
            final(self).wf(),
            Self::add_hl_r16_post(old(self), final(self), opcode, r),
    {
        let rr = (opcode >> 4) & 0x3;
        proof { lemma_opcode_fields(opcode); }
        let hl_val = self.rreg16(HL_REG);
        let reg_val = self.rreg16(rr);
        let (new_val, f) = add16(hl_val, reg_val, self.regs.f.z);
        self.regs.f = f;
        self.wreg16(HL_REG, new_val);
        2
    }

    /// JR e8: relative to the address after the operand.
    fn jr_imm8(&mut self, _opcode: u8) -> (r: u8)
        requires
            old(self).wf(),
        ensures
            final(self).wf(),
            Self::jr_imm8_post(old(self), final(self), _opcode, r),
    {
        let offset = self.load_byte();
        self.regs.pc = add_signed(self.regs.pc, offset);
        3
    }

    /// JR cc,e8: 3 cycles when taken, else 2.
    fn jr_cond_imm8(&mut self, opcode: u8) -> (r: u8)
        requires
            old(self).wf(),
        ensures
            final(self).wf(),
            Self::jr_cond_imm8_post(old(self), final(self), opcode, r),
    {
        let cc = (opcode >> 3) & 0x3;
        proof { lemma_opcode_fields(opcode); }
        let taken = self.check_cond(cc);
        let offset = self.load_byte();
        if taken {
            self.regs.pc = add_signed(self.regs.pc, offset);
            3
        } else {
            2
        }
    }

    /// DAA: decimal adjustment after a BCD addition or subtraction.
    #[verifier::spinoff_prover]
    fn daa(&mut self, _opcode: u8) -> (r: u8)
        requires
            old(self).wf(),
        ensures
            final(self).wf(),
            Self::daa_post(old(self), final(self), _opcode, r),
    {
        let a = self.regs.a;
        let f = self.regs.f;
        let (a2, c) = if !f.n {
            let (a1, c1) = if f.c || a > 0x99 {
                (((a as u16 + 0x60) % 256) as u8, true)
            } else {
                (a, false)
            };
            let a2 = if f.h || a1 % 16 > 9 {
                ((a1 as u16 + 6) % 256) as u8
            } else {
                a1
            };
            (a2, c1)
        } else {
            let a1 = if f.c {
                ((a as u16 + 256 - 0x60) % 256) as u8
            } else {
                a
            };
            let a2 = if f.h {
                ((a1 as u16 + 256 - 6) % 256) as u8
            } else {
                a1
            };
            (a2, f.c)
        };
        let a = a2;
        self.regs.a = a;
        self.regs.f = Flags { z: a == 0, n: f.n, h: false, c };
        1
    }

    /// CPL: complements A, sets N and H.
    fn cpl(&mut self, _opcode: u8) -> (r: u8)
        requires
            old(self).wf(),
        ensures
            final(self).wf(),
            Self::cpl_post(old(self), final(self), _opcode, r),
    {
        self.regs.a = 255 - self.regs.a;
        self.regs.f.n = true;
        self.regs.f.h = true;
        1
    }

    /// SCF: sets C, clears N and H.
    fn scf(&mut self, _opcode: u8) -> (r: u8)
        requires
            old(self).wf(),
        ensures
            final(self).wf(),
            Self::scf_post(old(self), final(self), _opcode, r),
    {
        self.regs.f.n = false;
        self.regs.f.h = false;
        self.regs.f.c = true;
        1
    }

    /// CCF: toggles C, clears N and H.
    fn ccf(&mut self, _opcode: u8) -> (r: u8)
        requires
            old(self).wf(),
        ensures
            final(self).wf(),
            Self::ccf_post(old(self), final(self), _opcode, r),
    {
        self.regs.f.n = false;
        self.regs.f.h = false;
        self.regs.f.c = !self.regs.f.c;
        1
    }

    /// LD r,r'.
    fn ld_r8_r8(&mut self, opcode: u8) -> (r: u8)
        requires
            old(self).wf(),
        ensures
            final(self).wf(),
            Self::ld_r8_r8_post(old(self), final(self), opcode, r),
    {
        let src = opcode & 0x7;
        let dst = (opcode >> 3) & 0x7;
        proof { lemma_opcode_fields(opcode); }
        let d = self.rreg8(src);
        self.wreg8(dst, d);
        if dst == HL_PTR || src == HL_PTR {
            2
        } else {
            1
        }
    }

    /// HALT: sleeps until an interrupt is pending; with IME clear and an
    /// interrupt already pending it does nothing.
    fn halt(&mut self, _opcode: u8) -> (r: u8)
        requires
            old(self).wf(),
        ensures
            final(self).wf(),
            Self::halt_post(old(self), final(self), _opcode, r),
    {
        if self.regs.ime || !self.bus.interrupt_pending() {
            self.sleep = true;
        }
        1
    }

    /// The accumulator operation `op` with operand `v`.
    fn alu_a(&mut self, op: u8, v: u8)
        requires
            op < 8,
        ensures
            ({
                let (a, f) = alu_spec(op, old(self).regs.a, v, old(self).regs.f.c);
                Self::regs_only(old(self), final(self), Registers { a, f, ..old(self).regs })
            }),
    {
        let (a, f) = alu_compute(op, self.regs.a, v, self.regs.f.c);
        self.regs.a = a;
        self.regs.f = f;
    }

    /// ADD, ADC, SUB, SBC, AND, XOR, OR, CP with an 8-bit operand.
    fn alu_a_r8(&mut self, opcode: u8) -> (r: u8)
        requires
            old(self).wf(),
        ensures
            final(self).wf(),
            Self::alu_a_r8_post(old(self), final(self), opcode, r),
    {
        let reg = opcode & 0x7;
        let op = (opcode >> 3) & 0x7;
        proof { lemma_opcode_fields(opcode); }
        let v = self.rreg8(reg);
        self.alu_a(op, v);
        if reg == HL_PTR {
            2
        } else {
            1
        }
    }

    /// ADD, ADC, SUB, SBC, AND, XOR, OR, CP with an immediate operand.
    fn alu_a_imm8(&mut self, opcode: u8) -> (r: u8)
        requires
            old(self).wf(),
        ensures
            final(self).wf(),
            Self::alu_a_imm8_post(old(self), final(self), opcode, r),
    {
        let op = (opcode >> 3) & 0x7;
        proof { lemma_opcode_fields(opcode); }
        let v = self.load_byte();
        self.alu_a(op, v);
        2
    }

    /// RET cc: 5 cycles when taken, else 2.
    fn ret_cond(&mut self, opcode: u8) -> (r: u8)
        requires
            old(self).wf(),
        ensures
            final(self).wf(),
            Self::ret_cond_post(old(self), final(self), opcode, r),
    {
        let cc = (opcode >> 3) & 0x3;
        proof { lemma_opcode_fields(opcode); }
        if !self.check_cond(cc) {
            return 2;
        }
        self.regs.pc = self.pop_stack();
        5
    }

    /// POP rr for BC, DE, HL, AF; POP AF keeps only the high nibble of F.
    #[verifier::spinoff_prover]
    fn pop_r16stk(&mut self, opcode: u8) -> (r: u8)
        requires
            old(self).wf(),
        ensures
            final(self).wf(),
            Self::pop_r16stk_post(old(self), final(self), opcode, r),
    {
        let rr = (opcode >> 4) & 0x3;
        proof { lemma_opcode_fields(opcode); }
        let val = self.pop_stack();
        if rr == 3 {
            let lo = (val % 256) as u8;
            self.regs.a = (val / 256) as u8;
            self.regs.f = Flags { z: lo & 0x80 == 0x80, n: lo & 0x40 == 0x40, h: lo & 0x20 == 0x20,
                c: lo & 0x10 == 0x10 };
        } else {
            self.wreg16(rr, val);
        }
        3
    }

    /// The value that PUSH rr pushes; for AF, F has its low nibble zero.
    pub open spec fn push_value(regs: Registers, rr: u8) -> u16 {
        if rr == 3 {
            pair(regs.a, flag_byte(regs.f))
        } else {
            regs.r16(rr)
        }
    }

    /// PUSH rr for BC, DE, HL, AF.
    #[verifier::spinoff_prover]
    fn push_r16stk(&mut self, opcode: u8) -> (r: u8)
        requires
            old(self).wf(),
        ensures
            final(self).wf(),
            Self::push_r16stk_post(old(self), final(self), opcode, r),
    {
        let rr = (opcode >> 4) & 0x3;
        proof { lemma_opcode_fields(opcode); }
        let val = if rr == 3 {
            let f = self.regs.f;
            let fb: u8 = (if f.z { 128u8 } else { 0 }) + (if f.n { 64u8 } else { 0 })
                + (if f.h { 32u8 } else { 0 }) + (if f.c { 16u8 } else { 0 });
            make_u16(self.regs.a, fb)
        } else {
            self.rreg16(rr)
        };
        self.push_stack(val);
        4
    }

    /// RET.
    fn ret(&mut self, _opcode: u8) -> (r: u8)
        requires
            old(self).wf(),
        ensures
            final(self).wf(),
            Self::ret_post(old(self), final(self), _opcode, r),
    {
        self.regs.pc = self.pop_stack();
        4
    }

    /// RETI: RET, and sets IME.
    fn reti(&mut self, _opcode: u8) -> (r: u8)
        requires
            old(self).wf(),
        ensures
            final(self).wf(),
            Self::reti_post(old(self), final(self), _opcode, r),
    {
        self.regs.ime = true;
        self.regs.pc = self.pop_stack();
        4
    }

    /// JP cc,n16: 4 cycles when taken, else 3.
    fn jp_cond_imm16(&mut self, opcode: u8) -> (r: u8)
        requires
            old(self).wf(),
        ensures
            final(self).wf(),
            Self::jp_cond_imm16_post(old(self), final(self), opcode, r),
    {
        let cc = (opcode >> 3) & 0x3;
        proof { lemma_opcode_fields(opcode); }
        let taken = self.check_cond(cc);
        let imm16 = self.load_word();
        if taken {
            self.regs.pc = imm16;
            4
        } else {
            3
        }
    }

    /// JP n16.
    fn jp_imm16(&mut self, _opcode: u8) -> (r: u8)
        requires
            old(self).wf(),
        ensures
            final(self).wf(),
            Self::jp_imm16_post(old(self), final(self), _opcode, r),
    {
        let imm16 = self.load_word();
        self.regs.pc = imm16;
        4
    }

    /// CALL cc,n16: 6 cycles when taken, else 3.
    fn call_cond_imm16(&mut self, opcode: u8) -> (r: u8)
        requires
            old(self).wf(),
        ensures
            final(self).wf(),
            Self::call_cond_imm16_post(old(self), final(self), opcode, r),
    {
        let cc = (opcode >> 3) & 0x3;
        proof { lemma_opcode_fields(opcode); }
        let taken = self.check_cond(cc);
        let imm16 = self.load_word();
        if !taken {
            return 3;
        }
        let next = self.regs.pc;
        self.regs.pc = imm16;
        self.push_stack(next);
        6
    }

    /// CALL n16.
    fn call_imm16(&mut self, _opcode: u8) -> (r: u8)
        requires
            old(self).wf(),
        ensures
            final(self).wf(),
            Self::call_imm16_post(old(self), final(self), _opcode, r),
    {
        let imm16 = self.load_word();
        let next = self.regs.pc;
        self.regs.pc = imm16;
        self.push_stack(next);
        6
    }

    /// RST: pushes PC and jumps to `tgt << 3`.
    fn rst_tgt3(&mut self, opcode: u8) -> (r: u8)
        requires
            old(self).wf(),
        ensures
            final(self).wf(),
            Self::rst_tgt3_post(old(self), final(self), opcode, r),
    {
        let tgt = (opcode >> 3) & 0x7;
        proof { lemma_opcode_fields(opcode); }
        let next = self.regs.pc;
        self.regs.pc = tgt as u16 * 8;
        self.push_stack(next);
        4
    }

    /// LDH (n8),A.
    fn ldh_imm8_a(&mut self, _opcode: u8) -> (r: u8)
        requires
            old(self).wf(),
        ensures
            final(self).wf(),
            Self::ldh_imm8_a_post(old(self), final(self), _opcode, r),
    {
        let imm8 = self.load_byte();
        self.bus.write(PAGE0_OFFSET + imm8 as u16, self.regs.a);
        3
    }

    /// LDH (C),A.
    fn ldh_c_a(&mut self, _opcode: u8) -> (r: u8)
        requires
            old(self).wf(),
        ensures
            final(self).wf(),
            Self::ldh_c_a_post(old(self), final(self), _opcode, r),
    {
        self.bus.write(PAGE0_OFFSET + self.regs.c as u16, self.regs.a);
        2
    }

    /// SP plus a signed byte; H and C come from the unsigned add of the low
    /// byte of SP and the byte.
    fn sp_plus(&self, e: u8) -> (r: (u16, Flags))
        ensures
            r.0 == wrap16(self.regs.sp + signed8(e) + 65536),
            r.1 == (Flags { z: false, n: false, h: self.regs.sp % 16 + e % 16 > 15,
                c: self.regs.sp % 256 + e > 255 }),
    {
        let sp = self.regs.sp;
        let low = (sp % 256) as u8;
        (
            add_signed(sp, e),
            Flags { z: false, n: false, h: does_bit3_overflow(low, e), c: low as u16
                + e as u16 > 255 },
        )
    }

    /// ADD SP,e8.
    fn add_sp_imm8(&mut self, _opcode: u8) -> (r: u8)
        requires
            old(self).wf(),
        ensures
            final(self).wf(),
            Self::add_sp_imm8_post(old(self), final(self), _opcode, r),
    {
        let imm8 = self.load_byte();
        let (v, f) = self.sp_plus(imm8);
        self.regs.sp = v;
        self.regs.f = f;
        4
    }

    /// LD HL,SP+e8.
    fn ld_hl_sp_imm8(&mut self, _opcode: u8) -> (r: u8)
        requires
            old(self).wf(),
        ensures
            final(self).wf(),
            Self::ld_hl_sp_imm8_post(old(self), final(self), _opcode, r),
    {
        let imm8 = self.load_byte();
        let (v, f) = self.sp_plus(imm8);
        self.regs.f = f;
        self.wreg16(HL_REG, v);
        3
    }

    /// JP HL.
    fn jp_hl(&mut self, _opcode: u8) -> (r: u8)
        requires
            old(self).wf(),
        ensures
            final(self).wf(),
            Self::jp_hl_post(old(self), final(self), _opcode, r),
    {
        self.regs.pc = make_u16(self.regs.h, self.regs.l);
        1
    }

    /// LD SP,HL.
    fn ld_sp_hl(&mut self, _opcode: u8) -> (r: u8)
        requires
            old(self).wf(),
        ensures
            final(self).wf(),
            Self::ld_sp_hl_post(old(self), final(self), _opcode, r),
    {
        self.regs.sp = make_u16(self.regs.h, self.regs.l);
        2
    }

    /// LD (n16),A.
    fn ld_imm16_a(&mut self, _opcode: u8) -> (r: u8)
        requires
            old(self).wf(),
        ensures
            final(self).wf(),
            Self::ld_imm16_a_post(old(self), final(self), _opcode, r),
    {
        let imm16 = self.load_word();
        self.bus.write(imm16, self.regs.a);
        4
    }

    /// LDH A,(n8).
    fn ldh_a_imm8(&mut self, _opcode: u8) -> (r: u8)
        requires
            old(self).wf(),
        ensures
            final(self).wf(),
            Self::ldh_a_imm8_post(old(self), final(self), _opcode, r),
    {
        let imm8 = self.load_byte();
        self.regs.a = self.bus.read(imm8 as u16 + PAGE0_OFFSET);
        3
    }

    /// LDH A,(C).
    fn ldh_a_c(&mut self, _opcode: u8) -> (r: u8)
        requires
            old(self).wf(),
        ensures
            final(self).wf(),
            Self::ldh_a_c_post(old(self), final(self), _opcode, r),
    {
        self.regs.a = self.bus.read(self.regs.c as u16 + PAGE0_OFFSET);
        2
    }

    /// LD A,(n16).
    fn ld_a_imm16(&mut self, _opcode: u8) -> (r: u8)
        requires
            old(self).wf(),
        ensures
            final(self).wf(),
            Self::ld_a_imm16_post(old(self), final(self), _opcode, r),
    {
        let imm16 = self.load_word();
        self.regs.a = self.bus.read(imm16);
        4
    }

    /// DI.
    fn di(&mut self, _opcode: u8) -> (r: u8)
        requires
            old(self).wf(),
        ensures
            final(self).wf(),
            Self::di_post(old(self), final(self), _opcode, r),
    {
        self.regs.ime = false;
        1
    }

    /// EI (without the one-instruction delay).
    fn ei(&mut self, _opcode: u8) -> (r: u8)
        requires
            old(self).wf(),
        ensures
            final(self).wf(),
            Self::ei_post(old(self), final(self), _opcode, r),
    {
        self.regs.ime = true;
        1
    }
}

impl Cpu {
    /// The effect of `no_op` on `old`, giving `new` in `r` cycles.
    pub open spec fn no_op_post(old: &Cpu, new: &Cpu, opcode: u8, r: u8) -> bool {
        &&& r == 1
        &&& *new == *old
    }

    /// The effect of `di` on `old`, giving `new` in `r` cycles.
    pub open spec fn di_post(old: &Cpu, new: &Cpu, opcode: u8, r: u8) -> bool {
        &&& r == 1
        &&& Self::regs_only(old, new, Registers { ime: false, ..old.regs })
    }

    /// The effect of `ei` on `old`, giving `new` in `r` cycles.
    pub open spec fn ei_post(old: &Cpu, new: &Cpu, opcode: u8, r: u8) -> bool {
        &&& r == 1
        &&& Self::regs_only(old, new, Registers { ime: true, ..old.regs })
    }

    /// The effect of `ld_r16_imm16` on `old`, giving `new` in `r` cycles.
    pub open spec fn ld_r16_imm16_post(old: &Cpu, new: &Cpu, opcode: u8, r: u8) -> bool {
        &&& r == 3
        &&& Self::regs_only(old, new, Registers { pc: wrap16(old.regs.pc + 2),
            ..old.regs }.with_r16((opcode >> 4) & 0x3, old.imm16()))
    }

    /// The effect of `ld_r16mem_a` on `old`, giving `new` in `r` cycles.
    pub open spec fn ld_r16mem_a_post(old: &Cpu, new: &Cpu, opcode: u8, r: u8) -> bool {
        &&& r == 2
        &&& Self::wrote(old, new, Self::mem_step(old.regs, (opcode >> 4) & 0x3),
            old.mem_addr((opcode >> 4) & 0x3), old.regs.a)
    }

    /// The effect of `ld_a_r16mem` on `old`, giving `new` in `r` cycles.
    pub open spec fn ld_a_r16mem_post(old: &Cpu, new: &Cpu, opcode: u8, r: u8) -> bool {
        &&& r == 2
        &&& Self::regs_only(old, new, Registers { a: old.bus.peek(old.mem_addr((opcode >> 4) & 0x3)),
            ..Self::mem_step(old.regs, (opcode >> 4) & 0x3) })
    }

    /// The effect of `inc_r16` on `old`, giving `new` in `r` cycles.
    pub open spec fn inc_r16_post(old: &Cpu, new: &Cpu, opcode: u8, r: u8) -> bool {
        &&& r == 2
        &&& Self::regs_only(old, new, old.regs.with_r16((opcode >> 4) & 0x3,
            wrap16(old.regs.r16((opcode >> 4) & 0x3) + 1)))
    }

    /// The effect of `dec_r16` on `old`, giving `new` in `r` cycles.
    pub open spec fn dec_r16_post(old: &Cpu, new: &Cpu, opcode: u8, r: u8) -> bool {
        &&& r == 2
        &&& Self::regs_only(old, new, old.regs.with_r16((opcode >> 4) & 0x3,
            wrap16(old.regs.r16((opcode >> 4) & 0x3) - 1 + 65536)))
    }

    /// The effect of `inc_r8` on `old`, giving `new` in `r` cycles.
    pub open spec fn inc_r8_post(old: &Cpu, new: &Cpu, opcode: u8, r: u8) -> bool {
        let reg = (opcode >> 3) & 0x7;
        let v = old.operand(reg);
        let res = wrap8(v + 1);
        let regs = Registers { f: Flags { z: res == 0, n: false, h: v % 16 == 15, c: old.regs.f.c },
            ..old.regs };
        &&& Self::stored(old, regs, new, reg, res)
        &&& r == if reg == HL_PTR { 3u8 } else { 1u8 }
    }

    /// The effect of `dec_r8` on `old`, giving `new` in `r` cycles.
    pub open spec fn dec_r8_post(old: &Cpu, new: &Cpu, opcode: u8, r: u8) -> bool {
        let reg = (opcode >> 3) & 0x7;
        let v = old.operand(reg);
        let res = wrap8(v - 1 + 256);
        let regs = Registers { f: Flags { z: res == 0, n: true, h: v % 16 == 0, c: old.regs.f.c },
            ..old.regs };
        &&& Self::stored(old, regs, new, reg, res)
        &&& r == if reg == HL_PTR { 3u8 } else { 1u8 }
    }

    /// The effect of `ld_r8_imm8` on `old`, giving `new` in `r` cycles.
    pub open spec fn ld_r8_imm8_post(old: &Cpu, new: &Cpu, opcode: u8, r: u8) -> bool {
        let reg = (opcode >> 3) & 0x7;
        let regs = Registers { pc: wrap16(old.regs.pc + 1), ..old.regs };
        &&& Self::stored(old, regs, new, reg, old.imm8())
        &&& r == if reg == HL_PTR { 3u8 } else { 2u8 }
    }

    /// The effect of `rlca` on `old`, giving `new` in `r` cycles.
    pub open spec fn rlca_post(old: &Cpu, new: &Cpu, opcode: u8, r: u8) -> bool {
        let (res, c) = shift_spec(0, old.regs.a, old.regs.f.c);
        &&& r == 1
        &&& Self::regs_only(old, new, Registers { a: res, f: Flags { z: false, n: false, h: false,
            c }, ..old.regs })
    }

    /// The effect of `rrca` on `old`, giving `new` in `r` cycles.
    pub open spec fn rrca_post(old: &Cpu, new: &Cpu, opcode: u8, r: u8) -> bool {
        let (res, c) = shift_spec(1, old.regs.a, old.regs.f.c);
        &&& r == 1
        &&& Self::regs_only(old, new, Registers { a: res, f: Flags { z: false, n: false, h: false,
            c }, ..old.regs })
    }

    /// The effect of `rla` on `old`, giving `new` in `r` cycles.
    pub open spec fn rla_post(old: &Cpu, new: &Cpu, opcode: u8, r: u8) -> bool {
        let (res, c) = shift_spec(2, old.regs.a, old.regs.f.c);
        &&& r == 1
        &&& Self::regs_only(old, new, Registers { a: res, f: Flags { z: false, n: false, h: false,
            c }, ..old.regs })
    }

    /// The effect of `rra` on `old`, giving `new` in `r` cycles.
    pub open spec fn rra_post(old: &Cpu, new: &Cpu, opcode: u8, r: u8) -> bool {
        let (res, c) = shift_spec(3, old.regs.a, old.regs.f.c);
        &&& r == 1
        &&& Self::regs_only(old, new, Registers { a: res, f: Flags { z: false, n: false, h: false,
            c }, ..old.regs })
    }

    /// The effect of `ld_imm16_sp` on `old`, giving `new` in `r` cycles.
    pub open spec fn ld_imm16_sp_post(old: &Cpu, new: &Cpu, opcode: u8, r: u8) -> bool {
        &&& r == 5
        &&& new.regs == (Registers { pc: wrap16(old.regs.pc + 2), ..old.regs })
        &&& new.sleep == old.sleep
        &&& (exists|mid: Bus| Bus::write_spec(&old.bus, &mid, old.imm16(),
            (old.regs.sp % 256) as u8) && #[trigger] Bus::write_spec(&mid, &new.bus,
            wrap16(old.imm16() + 1), (old.regs.sp / 256) as u8))
    }

    /// The effect of `add_hl_r16` on `old`, giving `new` in `r` cycles.
    pub open spec fn add_hl_r16_post(old: &Cpu, new: &Cpu, opcode: u8, r: u8) -> bool {
        let hl = old.regs.hl();
        let v = old.regs.r16((opcode >> 4) & 0x3);
        let f = Flags { z: old.regs.f.z, n: false, h: hl % 4096 + v % 4096 > 4095, c: hl
            + v > 65535 };
        &&& r == 2
        &&& Self::regs_only(old, new, Registers { f, ..old.regs }.with_r16(HL_REG, wrap16(hl + v)))
    }

    /// The effect of `jr_imm8` on `old`, giving `new` in `r` cycles.
    pub open spec fn jr_imm8_post(old: &Cpu, new: &Cpu, opcode: u8, r: u8) -> bool {
        &&& r == 3
        &&& Self::regs_only(old, new, Registers { pc: wrap16(old.regs.pc + 1 + signed8(old.imm8())
            + 65536), ..old.regs })
    }

    /// The effect of `jr_cond_imm8` on `old`, giving `new` in `r` cycles.
    pub open spec fn jr_cond_imm8_post(old: &Cpu, new: &Cpu, opcode: u8, r: u8) -> bool {
        let taken = old.regs.cond((opcode >> 3) & 0x3);
        let pc1 = old.regs.pc + 1;
        let pc = if taken { wrap16(pc1 + signed8(old.imm8()) + 65536) } else { wrap16(pc1) };
        &&& Self::regs_only(old, new, Registers { pc, ..old.regs })
        &&& r == if taken { 3u8 } else { 2u8 }
    }

    /// The effect of `daa` on `old`, giving `new` in `r` cycles.
    pub open spec fn daa_post(old: &Cpu, new: &Cpu, opcode: u8, r: u8) -> bool {
        let (a, f) = daa_spec(old.regs.a, old.regs.f);
        &&& r == 1
        &&& Self::regs_only(old, new, Registers { a, f, ..old.regs })
    }

    /// The effect of `cpl` on `old`, giving `new` in `r` cycles.
    pub open spec fn cpl_post(old: &Cpu, new: &Cpu, opcode: u8, r: u8) -> bool {
        &&& r == 1
        &&& Self::regs_only(old, new, Registers { a: (255 - old.regs.a) as u8, f: Flags { n: true,
            h: true, ..old.regs.f }, ..old.regs })
    }

    /// The effect of `scf` on `old`, giving `new` in `r` cycles.
    pub open spec fn scf_post(old: &Cpu, new: &Cpu, opcode: u8, r: u8) -> bool {
        &&& r == 1
        &&& Self::regs_only(old, new, Registers { f: Flags { n: false, h: false, c: true,
            ..old.regs.f }, ..old.regs })
    }

    /// The effect of `ccf` on `old`, giving `new` in `r` cycles.
    pub open spec fn ccf_post(old: &Cpu, new: &Cpu, opcode: u8, r: u8) -> bool {
        &&& r == 1
        &&& Self::regs_only(old, new, Registers { f: Flags { n: false, h: false, c: !old.regs.f.c,
            ..old.regs.f }, ..old.regs })
    }

    /// The effect of `ld_r8_r8` on `old`, giving `new` in `r` cycles.
    pub open spec fn ld_r8_r8_post(old: &Cpu, new: &Cpu, opcode: u8, r: u8) -> bool {
        let src = opcode & 0x7;
        let dst = (opcode >> 3) & 0x7;
        &&& Self::stored(old, old.regs, new, dst, old.operand(src))
        &&& r == if src == HL_PTR || dst == HL_PTR { 2u8 } else { 1u8 }
    }

    /// The effect of `halt` on `old`, giving `new` in `r` cycles.
    pub open spec fn halt_post(old: &Cpu, new: &Cpu, opcode: u8, r: u8) -> bool {
        &&& r == 1
        &&& new.regs == old.regs
        &&& new.bus == old.bus
        &&& new.sleep == (old.sleep || old.regs.ime || !old.bus.int_controller.pending_spec())
    }

    /// The effect of `alu_a_r8` on `old`, giving `new` in `r` cycles.
    pub open spec fn alu_a_r8_post(old: &Cpu, new: &Cpu, opcode: u8, r: u8) -> bool {
        let reg = opcode & 0x7;
        let (a, f) = alu_spec((opcode >> 3) & 0x7, old.regs.a, old.operand(reg), old.regs.f.c);
        &&& Self::regs_only(old, new, Registers { a, f, ..old.regs })
        &&& r == if reg == HL_PTR { 2u8 } else { 1u8 }
    }

    /// The effect of `alu_a_imm8` on `old`, giving `new` in `r` cycles.
    pub open spec fn alu_a_imm8_post(old: &Cpu, new: &Cpu, opcode: u8, r: u8) -> bool {
        let (a, f) = alu_spec((opcode >> 3) & 0x7, old.regs.a, old.imm8(), old.regs.f.c);
        &&& r == 2
        &&& Self::regs_only(old, new, Registers { a, f, pc: wrap16(old.regs.pc + 1), ..old.regs })
    }

    /// The effect of `ret_cond` on `old`, giving `new` in `r` cycles.
    pub open spec fn ret_cond_post(old: &Cpu, new: &Cpu, opcode: u8, r: u8) -> bool {
        let taken = old.regs.cond((opcode >> 3) & 0x3);
        &&& taken ==> Self::regs_only(old, new, Registers { pc: old.stack_top(),
            sp: wrap16(old.regs.sp + 2), ..old.regs })
        &&& !taken ==> *new == *old
        &&& r == if taken { 5u8 } else { 2u8 }
    }

    /// The effect of `pop_r16stk` on `old`, giving `new` in `r` cycles.
    pub open spec fn pop_r16stk_post(old: &Cpu, new: &Cpu, opcode: u8, r: u8) -> bool {
        let rr = (opcode >> 4) & 0x3;
        let v = old.stack_top();
        let regs = Registers { sp: wrap16(old.regs.sp + 2), ..old.regs };
        &&& r == 3
        &&& Self::regs_only(old, new, if rr == 3 { Registers { a: (v / 256) as u8,
            f: flags_of_byte((v % 256) as u8), ..regs } } else { regs.with_r16(rr, v) })
    }

    /// The effect of `push_r16stk` on `old`, giving `new` in `r` cycles.
    pub open spec fn push_r16stk_post(old: &Cpu, new: &Cpu, opcode: u8, r: u8) -> bool {
        &&& r == 4
        &&& Self::pushed(old, new, old.regs, Self::push_value(old.regs, (opcode >> 4) & 0x3))
    }

    /// The effect of `ret` on `old`, giving `new` in `r` cycles.
    pub open spec fn ret_post(old: &Cpu, new: &Cpu, opcode: u8, r: u8) -> bool {
        &&& r == 4
        &&& Self::regs_only(old, new, Registers { pc: old.stack_top(), sp: wrap16(old.regs.sp + 2),
            ..old.regs })
    }

    /// The effect of `reti` on `old`, giving `new` in `r` cycles.
    pub open spec fn reti_post(old: &Cpu, new: &Cpu, opcode: u8, r: u8) -> bool {
        &&& r == 4
        &&& Self::regs_only(old, new, Registers { pc: old.stack_top(), sp: wrap16(old.regs.sp + 2),
            ime: true, ..old.regs })
    }

    /// The effect of `jp_cond_imm16` on `old`, giving `new` in `r` cycles.
    pub open spec fn jp_cond_imm16_post(old: &Cpu, new: &Cpu, opcode: u8, r: u8) -> bool {
        let taken = old.regs.cond((opcode >> 3) & 0x3);
        let pc = if taken { old.imm16() } else { wrap16(old.regs.pc + 2) };
        &&& Self::regs_only(old, new, Registers { pc, ..old.regs })
        &&& r == if taken { 4u8 } else { 3u8 }
    }

    /// The effect of `jp_imm16` on `old`, giving `new` in `r` cycles.
    pub open spec fn jp_imm16_post(old: &Cpu, new: &Cpu, opcode: u8, r: u8) -> bool {
        &&& r == 4
        &&& Self::regs_only(old, new, Registers { pc: old.imm16(), ..old.regs })
    }

    /// The effect of `call_cond_imm16` on `old`, giving `new` in `r` cycles.
    pub open spec fn call_cond_imm16_post(old: &Cpu, new: &Cpu, opcode: u8, r: u8) -> bool {
        let taken = old.regs.cond((opcode >> 3) & 0x3);
        let next = wrap16(old.regs.pc + 2);
        &&& taken ==> Self::pushed(old, new, Registers { pc: old.imm16(), ..old.regs }, next)
        &&& !taken ==> Self::regs_only(old, new, Registers { pc: next, ..old.regs })
        &&& r == if taken { 6u8 } else { 3u8 }
    }

    /// The effect of `call_imm16` on `old`, giving `new` in `r` cycles.
    pub open spec fn call_imm16_post(old: &Cpu, new: &Cpu, opcode: u8, r: u8) -> bool {
        &&& r == 6
        &&& Self::pushed(old, new, Registers { pc: old.imm16(), ..old.regs }, wrap16(old.regs.pc
            + 2))
    }

    /// The effect of `rst_tgt3` on `old`, giving `new` in `r` cycles.
    pub open spec fn rst_tgt3_post(old: &Cpu, new: &Cpu, opcode: u8, r: u8) -> bool {
        &&& r == 4
        &&& Self::pushed(old, new, Registers { pc: (((opcode >> 3) & 0x7) * 8) as u16, ..old.regs },
            old.regs.pc)
    }

    /// The effect of `ldh_imm8_a` on `old`, giving `new` in `r` cycles.
    pub open spec fn ldh_imm8_a_post(old: &Cpu, new: &Cpu, opcode: u8, r: u8) -> bool {
        &&& r == 3
        &&& Self::wrote(old, new, Registers { pc: wrap16(old.regs.pc + 1), ..old.regs },
            (PAGE0_OFFSET + old.imm8()) as u16, old.regs.a)
    }

    /// The effect of `ldh_c_a` on `old`, giving `new` in `r` cycles.
    pub open spec fn ldh_c_a_post(old: &Cpu, new: &Cpu, opcode: u8, r: u8) -> bool {
        &&& r == 2
        &&& Self::wrote(old, new, old.regs, (PAGE0_OFFSET + old.regs.c) as u16, old.regs.a)
    }

    /// The effect of `add_sp_imm8` on `old`, giving `new` in `r` cycles.
    pub open spec fn add_sp_imm8_post(old: &Cpu, new: &Cpu, opcode: u8, r: u8) -> bool {
        let e = old.imm8();
        let sp = old.regs.sp;
        let f = Flags { z: false, n: false, h: sp % 16 + e % 16 > 15, c: sp % 256 + e > 255 };
        &&& r == 4
        &&& Self::regs_only(old, new, Registers { sp: wrap16(sp + signed8(e) + 65536), f,
            pc: wrap16(old.regs.pc + 1), ..old.regs })
    }

    /// The effect of `ld_hl_sp_imm8` on `old`, giving `new` in `r` cycles.
    pub open spec fn ld_hl_sp_imm8_post(old: &Cpu, new: &Cpu, opcode: u8, r: u8) -> bool {
        let e = old.imm8();
        let sp = old.regs.sp;
        let f = Flags { z: false, n: false, h: sp % 16 + e % 16 > 15, c: sp % 256 + e > 255 };
        &&& r == 3
        &&& Self::regs_only(old, new, Registers { f, pc: wrap16(old.regs.pc + 1),
            ..old.regs }.with_r16(HL_REG, wrap16(sp + signed8(e) + 65536)))
    }

    /// The effect of `jp_hl` on `old`, giving `new` in `r` cycles.
    pub open spec fn jp_hl_post(old: &Cpu, new: &Cpu, opcode: u8, r: u8) -> bool {
        &&& r == 1
        &&& Self::regs_only(old, new, Registers { pc: old.regs.hl(), ..old.regs })
    }

    /// The effect of `ld_sp_hl` on `old`, giving `new` in `r` cycles.
    pub open spec fn ld_sp_hl_post(old: &Cpu, new: &Cpu, opcode: u8, r: u8) -> bool {
        &&& r == 2
        &&& Self::regs_only(old, new, Registers { sp: old.regs.hl(), ..old.regs })
    }

    /// The effect of `ld_imm16_a` on `old`, giving `new` in `r` cycles.
    pub open spec fn ld_imm16_a_post(old: &Cpu, new: &Cpu, opcode: u8, r: u8) -> bool {
        &&& r == 4
        &&& Self::wrote(old, new, Registers { pc: wrap16(old.regs.pc + 2), ..old.regs }, old.imm16(),
            old.regs.a)
    }

    /// The effect of `ldh_a_imm8` on `old`, giving `new` in `r` cycles.
    pub open spec fn ldh_a_imm8_post(old: &Cpu, new: &Cpu, opcode: u8, r: u8) -> bool {
        &&& r == 3
        &&& Self::regs_only(old, new, Registers { a: old.bus.peek((PAGE0_OFFSET
            + old.imm8()) as u16), pc: wrap16(old.regs.pc + 1), ..old.regs })
    }

    /// The effect of `ldh_a_c` on `old`, giving `new` in `r` cycles.
    pub open spec fn ldh_a_c_post(old: &Cpu, new: &Cpu, opcode: u8, r: u8) -> bool {
        &&& r == 2
        &&& Self::regs_only(old, new, Registers { a: old.bus.peek((PAGE0_OFFSET
            + old.regs.c) as u16), ..old.regs })
    }

    /// The effect of `ld_a_imm16` on `old`, giving `new` in `r` cycles.
    pub open spec fn ld_a_imm16_post(old: &Cpu, new: &Cpu, opcode: u8, r: u8) -> bool {
        &&& r == 4
        &&& Self::regs_only(old, new, Registers { a: old.bus.peek(old.imm16()),
            pc: wrap16(old.regs.pc + 2), ..old.regs })
    }

    /// The effect of `prefix` on `old`, giving `new` in `r` cycles.
    pub open spec fn prefix_post(old: &Cpu, new: &Cpu, opcode: u8, r: u8) -> bool {
        let cb = old.imm8();
        let reg = cb & 0x7;
        let sub = (cb >> 3) & 0x7;
        let group = cb >> 6;
        let regs = Registers { pc: wrap16(old.regs.pc + 1), ..old.regs };
        let v = old.operand(reg);
        &&& group == 0 ==> ({ let (res, c) = shift_spec(sub, v, old.regs.f.c); Self::stored(old,
            Registers { f: Flags { z: res == 0, n: false, h: false, c }, ..regs }, new, reg, res) })
        &&& group == 1 ==> Self::regs_only(old, new, Registers { f: Flags { z: bit_op_spec(1, sub,
            v).1, n: false, h: true, c: old.regs.f.c }, ..regs })
        &&& group >= 2 ==> Self::stored(old, regs, new, reg, bit_op_spec(group, sub, v).0)
        &&& r == if group == 1 { if reg == HL_PTR { 3u8 } else { 2u8 } } else { if reg == HL_PTR { 4u8 } else { 2u8 } }
    }
}

/// The result of BIT, RES or SET (`group` 1, 2, 3) with bit `bit` on `v`:
/// the value stored (BIT stores nothing) and whether the bit was clear.
pub open spec fn bit_op_spec(group: u8, bit: u8, v: u8) -> (u8, bool) {
    let mask = 1u8 << bit;
    if group == 1 {
        (v, v & mask == 0)
    } else if group == 2 {
        (v & !mask, v & mask == 0)
    } else {
        (v | mask, v & mask == 0)
    }
}

impl Cpu {
    /// The CB-prefixed table: rotates and shifts, BIT, RES and SET.
    #[verifier::spinoff_prover]
    fn prefix(&mut self, _opcode: u8) -> (r: u8)
        requires
            old(self).wf(),
        ensures
            final(self).wf(),
            Self::prefix_post(old(self), final(self), _opcode, r),
    {
        let cb = self.load_byte();
        proof {
            lemma_opcode_fields(cb);
        }
        let reg = cb & 0x7;
        let sub = (cb >> 3) & 0x7;
        let group = cb >> 6;
        if group == 0 {
            self.shift_op(sub, reg);
            return if reg == HL_PTR {
                4
            } else {
                2
            };
        }
        let v = self.rreg8(reg);
        let mask: u8 = 1u8 << sub;
        if group == 1 {
            self.regs.f.z = v & mask == 0;
            self.regs.f.n = false;
            self.regs.f.h = true;
            if reg == HL_PTR {
                3
            } else {
                2
            }
        } else {
            let res = if group == 2 {
                v & !mask
            } else {
                v | mask
            };
            self.wreg8(reg, res);
            if reg == HL_PTR {
                4
            } else {
                2
            }
        }
    }

    /// `new_bus` is `old_bus` with interrupt `src` cleared in IF.
    pub open spec fn cleared(old_bus: &Bus, new_bus: &Bus, src: IntSource) -> bool {
        &&& new_bus.int_controller.int_f == old_bus.int_controller.int_f & !src.mask_spec()
        &&& new_bus.int_controller.int_en == old_bus.int_controller.int_en
        &&& new_bus.ppu == old_bus.ppu
        &&& new_bus.rom == old_bus.rom
        &&& new_bus.timer == old_bus.timer
        &&& new_bus.joypad == old_bus.joypad
        &&& new_bus.wram == old_bus.wram
        &&& new_bus.mapped_wram == old_bus.mapped_wram
        &&& new_bus.hram == old_bus.hram
        &&& new_bus.io == old_bus.io
        &&& new_bus.serial_log() == old_bus.serial_log()
    }

    /// Serves interrupt `int_source`: clears IME, pushes PC, jumps to the
    /// source's vector and clears its IF bit. Takes 5 machine cycles.
    pub fn handle_interrupt(&mut self, int_source: IntSource) -> (r: usize)
        requires
            old(self).wf(),
        ensures
            final(self).wf(),
            r == 5,
            final(self).regs == (Registers {
                ime: false,
                pc: int_source.vector_spec(),
                sp: wrap16(old(self).regs.sp - 2 + 65536),
                ..old(self).regs
            }),
            final(self).sleep == old(self).sleep,
            (exists|b: Bus| Self::pushed_bus(&old(self).bus, &b, old(self).regs.sp,
                old(self).regs.pc) && #[trigger] Self::cleared(&b, &final(self).bus, int_source)),
    {
        self.regs.ime = false;
        let pc = self.regs.pc;
        self.push_stack(pc);
        let ghost b = self.bus;
        self.regs.pc = int_source.vector();
        self.bus.clear_interrupt(int_source);
        assert(Self::cleared(&b, &self.bus, int_source));
        5
    }

    /// The effect of executing `opcode`, whose operands follow at PC, in
    /// `r` cycles; false for STOP and the undefined opcodes.
    pub open spec fn instr_post(old: &Cpu, new: &Cpu, opcode: u8, r: u8) -> bool {
        match opcode {
            0x00 => Self::no_op_post(old, new, opcode, r),
            0x01 | 0x11 | 0x21 | 0x31 => Self::ld_r16_imm16_post(old, new, opcode, r),
            0x02 | 0x12 | 0x22 | 0x32 => Self::ld_r16mem_a_post(old, new, opcode, r),
            0x03 | 0x13 | 0x23 | 0x33 => Self::inc_r16_post(old, new, opcode, r),
            0x04 | 0x0C | 0x14 | 0x1C | 0x24 | 0x2C | 0x34 | 0x3C => Self::inc_r8_post(old, new,
                opcode, r),
            0x05 | 0x0D | 0x15 | 0x1D | 0x25 | 0x2D | 0x35 | 0x3D => Self::dec_r8_post(old, new,
                opcode, r),
            0x06 | 0x0E | 0x16 | 0x1E | 0x26 | 0x2E | 0x36 | 0x3E => Self::ld_r8_imm8_post(old, new,
                opcode, r),
            0x07 => Self::rlca_post(old, new, opcode, r),
            0x08 => Self::ld_imm16_sp_post(old, new, opcode, r),
            0x09 | 0x19 | 0x29 | 0x39 => Self::add_hl_r16_post(old, new, opcode, r),
            0x0A | 0x1A | 0x2A | 0x3A => Self::ld_a_r16mem_post(old, new, opcode, r),
            0x0B | 0x1B | 0x2B | 0x3B => Self::dec_r16_post(old, new, opcode, r),
            0x0F => Self::rrca_post(old, new, opcode, r),
            0x17 => Self::rla_post(old, new, opcode, r),
            0x18 => Self::jr_imm8_post(old, new, opcode, r),
            0x1F => Self::rra_post(old, new, opcode, r),
            0x20 | 0x28 | 0x30 | 0x38 => Self::jr_cond_imm8_post(old, new, opcode, r),
            0x27 => Self::daa_post(old, new, opcode, r),
            0x2F => Self::cpl_post(old, new, opcode, r),
            0x37 => Self::scf_post(old, new, opcode, r),
            0x3F => Self::ccf_post(old, new, opcode, r),
            0x76 => Self::halt_post(old, new, opcode, r),
            0xC0 | 0xC8 | 0xD0 | 0xD8 => Self::ret_cond_post(old, new, opcode, r),
            0xC1 | 0xD1 | 0xE1 | 0xF1 => Self::pop_r16stk_post(old, new, opcode, r),
            0xC2 | 0xCA | 0xD2 | 0xDA => Self::jp_cond_imm16_post(old, new, opcode, r),
            0xC3 => Self::jp_imm16_post(old, new, opcode, r),
            0xC4 | 0xCC | 0xD4 | 0xDC => Self::call_cond_imm16_post(old, new, opcode, r),
            0xC5 | 0xD5 | 0xE5 | 0xF5 => Self::push_r16stk_post(old, new, opcode, r),
            0xC6 | 0xCE | 0xD6 | 0xDE | 0xE6 | 0xEE | 0xF6 | 0xFE => Self::alu_a_imm8_post(old, new,
                opcode, r),
            0xC7 | 0xCF | 0xD7 | 0xDF | 0xE7 | 0xEF | 0xF7 | 0xFF => Self::rst_tgt3_post(old, new,
                opcode, r),
            0xC9 => Self::ret_post(old, new, opcode, r),
            0xCB => Self::prefix_post(old, new, opcode, r),
            0xCD => Self::call_imm16_post(old, new, opcode, r),
            0xD9 => Self::reti_post(old, new, opcode, r),
            0xE0 => Self::ldh_imm8_a_post(old, new, opcode, r),
            0xE2 => Self::ldh_c_a_post(old, new, opcode, r),
            0xE8 => Self::add_sp_imm8_post(old, new, opcode, r),
            0xE9 => Self::jp_hl_post(old, new, opcode, r),
            0xEA => Self::ld_imm16_a_post(old, new, opcode, r),
            0xF0 => Self::ldh_a_imm8_post(old, new, opcode, r),
            0xF2 => Self::ldh_a_c_post(old, new, opcode, r),
            0xF3 => Self::di_post(old, new, opcode, r),
            0xF8 => Self::ld_hl_sp_imm8_post(old, new, opcode, r),
            0xF9 => Self::ld_sp_hl_post(old, new, opcode, r),
            0xFA => Self::ld_a_imm16_post(old, new, opcode, r),
            0xFB => Self::ei_post(old, new, opcode, r),
            _ => if 0x40 <= opcode <= 0x7F {
                Self::ld_r8_r8_post(old, new, opcode, r)
            } else if 0x80 <= opcode <= 0xBF {
                Self::alu_a_r8_post(old, new, opcode, r)
            } else {
                false
            },
        }
    }

    /// `new` is `fetched` after executing `op` in `c` cycles and running
    /// the bus for them.
    pub open spec fn executed(fetched: &Cpu, new: &Cpu, op: u8, c: u8) -> bool {
        exists|mid: Cpu|
            #[trigger] Self::instr_post(fetched, &mid, op, c) && Bus::run_spec(&mid.bus, &new.bus,
                c as int)
                && new.regs == mid.regs && new.sleep == mid.sleep
    }

    /// Executes `opcode`, whose operands follow at PC.
    #[verifier::spinoff_prover]
    fn execute(&mut self, opcode: u8) -> (r: Result<u8, CpuFault>)
        requires
            old(self).wf(),
        ensures
            final(self).wf(),
            is_invalid_opcode(opcode) ==> r == Err::<u8, CpuFault>(CpuFault::InvalidOpcode(opcode)),
            opcode == 0x10 ==> r == Err::<u8, CpuFault>(CpuFault::Stop),
            !is_invalid_opcode(opcode) && opcode != 0x10 ==> (r matches Ok(c) && 1 <= c <= 6),
            r matches Ok(c) ==> Self::instr_post(old(self), final(self), opcode, c),
    {
        let cycles = match opcode {
            0x00 => self.no_op(opcode),
            0x01 | 0x11 | 0x21 | 0x31 => self.ld_r16_imm16(opcode),
            0x02 | 0x12 | 0x22 | 0x32 => self.ld_r16mem_a(opcode),
            0x03 | 0x13 | 0x23 | 0x33 => self.inc_r16(opcode),
            0x04 | 0x0C | 0x14 | 0x1C | 0x24 | 0x2C | 0x34 | 0x3C => self.inc_r8(opcode),
            0x05 | 0x0D | 0x15 | 0x1D | 0x25 | 0x2D | 0x35 | 0x3D => self.dec_r8(opcode),
            0x06 | 0x0E | 0x16 | 0x1E | 0x26 | 0x2E | 0x36 | 0x3E => self.ld_r8_imm8(opcode),
            0x07 => self.rlca(opcode),
            0x08 => self.ld_imm16_sp(opcode),
            0x09 | 0x19 | 0x29 | 0x39 => self.add_hl_r16(opcode),
            0x0A | 0x1A | 0x2A | 0x3A => self.ld_a_r16mem(opcode),
            0x0B | 0x1B | 0x2B | 0x3B => self.dec_r16(opcode),
            0x0F => self.rrca(opcode),
            0x10 => {
                return Err(CpuFault::Stop);
            },
            0x17 => self.rla(opcode),
            0x18 => self.jr_imm8(opcode),
            0x1F => self.rra(opcode),
            0x20 | 0x28 | 0x30 | 0x38 => self.jr_cond_imm8(opcode),
            0x27 => self.daa(opcode),
            0x2F => self.cpl(opcode),
            0x37 => self.scf(opcode),
            0x3F => self.ccf(opcode),
            0x76 => self.halt(opcode),
            0x40..=0x7F => self.ld_r8_r8(opcode),
            0x80..=0xBF => self.alu_a_r8(opcode),
            0xC0 | 0xC8 | 0xD0 | 0xD8 => self.ret_cond(opcode),
            0xC1 | 0xD1 | 0xE1 | 0xF1 => self.pop_r16stk(opcode),
            0xC2 | 0xCA | 0xD2 | 0xDA => self.jp_cond_imm16(opcode),
            0xC3 => self.jp_imm16(opcode),
            0xC4 | 0xCC | 0xD4 | 0xDC => self.call_cond_imm16(opcode),
            0xC5 | 0xD5 | 0xE5 | 0xF5 => self.push_r16stk(opcode),
            0xC6 | 0xCE | 0xD6 | 0xDE | 0xE6 | 0xEE | 0xF6 | 0xFE => self.alu_a_imm8(opcode),
            0xC7 | 0xCF | 0xD7 | 0xDF | 0xE7 | 0xEF | 0xF7 | 0xFF => self.rst_tgt3(opcode),
            0xC9 => self.ret(opcode),
            0xCB => self.prefix(opcode),
            0xCD => self.call_imm16(opcode),
            0xD9 => self.reti(opcode),
            0xE0 => self.ldh_imm8_a(opcode),
            0xE2 => self.ldh_c_a(opcode),
            0xE8 => self.add_sp_imm8(opcode),
            0xE9 => self.jp_hl(opcode),
            0xEA => self.ld_imm16_a(opcode),
            0xF0 => self.ldh_a_imm8(opcode),
            0xF2 => self.ldh_a_c(opcode),
            0xF3 => self.di(opcode),
            0xF8 => self.ld_hl_sp_imm8(opcode),
            0xF9 => self.ld_sp_hl(opcode),
            0xFA => self.ld_a_imm16(opcode),
            0xFB => self.ei(opcode),
            _ => {
                return Err(CpuFault::InvalidOpcode(opcode));
            },
        };
        Ok(cycles)
    }

    /// The register values after the boot program.
    pub open spec fn boot_regs() -> Registers {
        Registers {
            a: 0x01,
            b: 0x00,
            c: 0x13,
            d: 0x00,
            e: 0xD8,
            h: 0x01,
            l: 0x4D,
            sp: 0xFFFE,
            pc: 0x0100,
            f: Flags { z: true, n: false, h: true, c: true },
            ime: false,
        }
    }

    /// A CPU in the state the boot program leaves.
    pub fn new(bus: Bus) -> (r: Self)
        requires
            bus.wf(),
        ensures
            r.wf(),
            r.regs == Self::boot_regs(),
            !r.sleep,
            r.bus == bus,
    {
        Cpu {
            regs: Registers {
                a: 0x01,
                b: 0x00,
                c: 0x13,
                d: 0x00,
                e: 0xD8,
                h: 0x01,
                l: 0x4D,
                sp: 0xFFFE,
                pc: 0x0100,
                f: Flags { z: true, n: false, h: true, c: true },
                ime: false,
            },
            sleep: false,
            bus,
        }
    }

    pub fn is_passed(&self) -> (r: bool)
        requires
            self.wf(),
        ensures
            r == (self.bus.serial_log() == crate::bus::text_passed()
                || self.bus.serial_log() == crate::bus::fib_passed()),
    {
        self.bus.is_passed()
    }

    /// What one step does: a machine cycle of HALT (waking when an
    /// interrupt is pending), an interrupt dispatch when IME is set and one
    /// is pending, or else the instruction at PC, with the bus run for the
    /// cycles taken.
    pub open spec fn step_post(old: &Cpu, new: &Cpu, r: Result<usize, CpuFault>) -> bool {
        if old.sleep {
            &&& r == Ok::<usize, CpuFault>(1)
            &&& new.regs == old.regs
            &&& new.sleep == !old.bus.int_controller.pending_spec()
            &&& Bus::run_spec(&old.bus, &new.bus, 1)
        } else if old.regs.ime && old.bus.int_controller.next_spec() is Some {
            let src = old.bus.int_controller.next_spec()->Some_0;
            &&& r == Ok::<usize, CpuFault>(5)
            &&& new.regs == (Registers {
                ime: false,
                pc: src.vector_spec(),
                sp: wrap16(old.regs.sp - 2 + 65536),
                ..old.regs
            })
            &&& exists|b1: Bus, b2: Bus|
                #[trigger] Self::pushed_bus(&old.bus, &b1, old.regs.sp, old.regs.pc)
                    && #[trigger] Self::cleared(&b1, &b2, src) && Bus::run_spec(&b2, &new.bus, 5)
        } else {
            let op = old.bus.peek(old.regs.pc);
            let fetched = Cpu {
                regs: Registers { pc: wrap16(old.regs.pc + 1), ..old.regs },
                ..*old
            };
            &&& is_invalid_opcode(op) ==> r == Err::<usize, CpuFault>(CpuFault::InvalidOpcode(op))
            &&& op == 0x10 ==> r == Err::<usize, CpuFault>(CpuFault::Stop)
            &&& !is_invalid_opcode(op) && op != 0x10 ==> (r matches Ok(c) && 1 <= c <= 6)
            &&& r matches Ok(c) ==> Self::executed(&fetched, new, op, c as u8)
        }
    }

    /// One step: a machine cycle of HALT, an interrupt dispatch, or one
    /// instruction; then the timer and PPU run for the cycles it took.
    #[verifier::spinoff_prover]
    pub fn run_one(&mut self) -> (r: Result<usize, CpuFault>)
        requires
            old(self).wf(),
        ensures
            final(self).wf(),
            r matches Ok(c) ==> 1 <= c <= 6,
            Self::step_post(old(self), final(self), r),
    {
        if self.sleep {
            if self.bus.interrupt_pending() {
                self.sleep = false;
            }
            self.bus.run_cycles(1);
            return Ok(1);
        }
        if self.regs.ime {
            if let Some(interrupt) = self.bus.query_interrupt() {
                let ghost b0 = self.bus;
                let ghost sp0 = self.regs.sp;
                let ghost pc0 = self.regs.pc;
                let cycles = self.handle_interrupt(interrupt);
                let ghost b2 = self.bus;
                let ghost b1 = choose|b: Bus| Self::pushed_bus(&b0, &b, sp0, pc0)
                    && Self::cleared(&b, &b2, interrupt);
                self.bus.run_cycles(cycles as u16);
                assert(Self::pushed_bus(&b0, &b1, sp0, pc0) && Self::cleared(&b1, &b2, interrupt)
                    && Bus::run_spec(&b2, &self.bus, 5));
                return Ok(cycles);
            }
        }
        let ghost start = *self;
        let opcode = self.bus.read(self.regs.pc);
        self.regs.pc = self.regs.pc.wrapping_add(1);
        let ghost fetched = *self;
        assert(fetched == Cpu { regs: Registers { pc: wrap16(start.regs.pc + 1), ..start.regs },
            ..start });
        match self.execute(opcode) {
            Ok(cycles) => {
                let ghost mid = *self;
                self.bus.run_cycles(cycles as u16);
                assert((cycles as usize) as u8 == cycles);
                assert(Self::instr_post(&fetched, &mid, opcode, cycles) && Bus::run_spec(&mid.bus,
                    &self.bus, cycles as int));
                assert(Self::executed(&fetched, self, opcode, cycles));
                Ok(cycles as usize)
            },
            Err(e) => Err(e),
        }
    }
}


/// The value of a two-digit BCD byte.
pub open spec fn bcd_value(x: u8) -> int {
    (x / 16) * 10 + x % 16
}

/// The BCD byte of a number below 100.
pub open spec fn to_bcd(n: int) -> int {
    (n / 10) * 16 + n % 10
}

/// Whether both nibbles of `x` are decimal digits.
pub open spec fn is_bcd(x: u8) -> bool {
    x % 16 <= 9 && x / 16 <= 9
}

/// After `ADD A,n` on two BCD bytes, DAA leaves the decimal sum modulo 100
/// in A and sets C exactly when the sum reached 100.
pub proof fn lemma_daa_after_add(a: u8, b: u8, carry: bool)
    requires
        is_bcd(a),
        is_bcd(b),
    ensures
        ({
            let (sum, f) = alu_spec(0, a, b, carry);
            let (r, f2) = daa_spec(sum, f);
            &&& r == to_bcd((bcd_value(a) + bcd_value(b)) % 100)
            &&& f2.c == (bcd_value(a) + bcd_value(b) >= 100)
            &&& f2.z == (r == 0)
        }),
{
    let ah = a / 16;
    let al = a % 16;
    let bh = b / 16;
    let bl = b % 16;
    assert(a == ah * 16 + al);
    assert(b == bh * 16 + bl);
    let x = al + bl;
    let y = ah + bh;
    assert(a + b == y * 16 + x);
    assert((a % 16 + b % 16 > 15) == (x > 15));
    assert(0 <= x <= 18 && 0 <= y <= 18);
    assert(bcd_value(a) + bcd_value(b) == y * 10 + x);
    let (sum, f) = alu_spec(0, a, b, carry);
    let (r, f2) = daa_spec(sum, f);
    assert(r == to_bcd((y * 10 + x) % 100) && f2.c == (y * 10 + x >= 100)) by (nonlinear_arith)
        requires
            0 <= x <= 18,
            0 <= y <= 18,
            sum == wrap8(y * 16 + x),
            f.h == (x > 15),
            f.c == (y * 16 + x > 255),
            !f.n,
            (r, f2) == daa_spec(sum, f),
    ;
}

/// The register fields of POP AF, PUSH AF, LD (HL+),A, LD A,(HL-) and
/// ADD A,n.
proof fn lemma_stack_and_hl_opcodes()
    by (bit_vector)
    ensures
        (0xF1u8 >> 4) & 0x3 == 3,
        (0xF5u8 >> 4) & 0x3 == 3,
        (0x22u8 >> 4) & 0x3 == 2,
        (0x3Au8 >> 4) & 0x3 == 3,
        (0xC6u8 >> 3) & 0x7 == 0,
{
}

/// The flag byte rebuilt from the high nibble of `lo` is `lo` with its low
/// nibble cleared, and a word with such a low byte is the word masked with
/// 0xFFF0.
proof fn lemma_flag_nibble(v: u16)
    by (bit_vector)
    ensures
        ({
            let lo = (v % 256) as u8;
            let fb = ((if lo & 0x80 == 0x80 { 128u16 } else { 0u16 })
                + (if lo & 0x40 == 0x40 { 64u16 } else { 0u16 })
                + (if lo & 0x20 == 0x20 { 32u16 } else { 0u16 })
                + (if lo & 0x10 == 0x10 { 16u16 } else { 0u16 }));
            (v / 256) * 256 + fb == v & 0xFFF0
        }),
{
}

/// `POP AF` then `PUSH AF` writes back the word it read, with the low
/// nibble of F cleared, when the stack lies in work or high RAM.
pub proof fn lemma_pop_push_af(c0: Cpu, c1: Cpu, c2: Cpu, r1: u8, r2: u8)
    requires
        c0.wf(),
        c1.wf(),
        is_plain_ram(c0.regs.sp),
        is_plain_ram(wrap16(c0.regs.sp + 1)),
        c0.regs.sp < 0xFFFF,
        Cpu::pop_r16stk_post(&c0, &c1, 0xF1, r1),
        Cpu::push_r16stk_post(&c1, &c2, 0xF5, r2),
    ensures
        c2.regs.sp == c0.regs.sp,
        pair(c2.bus.peek(wrap16(c0.regs.sp + 1)),
            c2.bus.peek(c0.regs.sp)) == c0.stack_top() & 0xFFF0,
{
    lemma_stack_and_hl_opcodes();
    let sp = c0.regs.sp;
    let v = c0.stack_top();
    let val = Cpu::push_value(c1.regs, 3);
    let sp1 = wrap16(c1.regs.sp - 1 + 65536);
    let sp2 = wrap16(c1.regs.sp - 2 + 65536);
    assert(sp1 == wrap16(sp + 1));
    assert(sp2 == sp);
    let mid = choose|mid: Bus|
        Bus::write_spec(&c1.bus, &mid, sp1, (val / 256) as u8) && #[trigger] Bus::write_spec(
            &mid,
            &c2.bus,
            sp2,
            (val % 256) as u8,
        ) && mid.wf();
    lemma_plain_ram_write(c1.bus, mid, sp1, (val / 256) as u8);
    lemma_plain_ram_write(mid, c2.bus, sp2, (val % 256) as u8);
    lemma_flag_nibble(v);
    let lo = (v % 256) as u8;
    assert(flag_byte(flags_of_byte(lo)) as int == (if lo & 0x80 == 0x80 { 128int } else { 0 })
        + (if lo & 0x40 == 0x40 { 64int } else { 0 }) + (if lo & 0x20 == 0x20 { 32int } else { 0 })
        + (if lo & 0x10 == 0x10 { 16int } else { 0 }));
}

/// `LD (HL+),A` then `LD A,(HL-)` brings HL back to where it was and
/// leaves the written byte at HL, when HL and HL + 1 lie in work or high
/// RAM. The load reads HL + 1, so A comes back unchanged only where that
/// byte already equals A.
pub proof fn lemma_hl_inc_dec(c0: Cpu, c1: Cpu, c2: Cpu, r1: u8, r2: u8)
    requires
        c0.wf(),
        c1.wf(),
        is_plain_ram(c0.regs.hl()),
        is_plain_ram(wrap16(c0.regs.hl() + 1)),
        Cpu::ld_r16mem_a_post(&c0, &c1, 0x22, r1),
        Cpu::ld_a_r16mem_post(&c1, &c2, 0x3A, r2),
    ensures
        c2.regs.hl() == c0.regs.hl(),
        c2.bus.peek(c0.regs.hl()) == c0.regs.a,
        c2.regs.a == c0.bus.peek(wrap16(c0.regs.hl() + 1)),
        c0.bus.peek(wrap16(c0.regs.hl() + 1)) == c0.regs.a ==> c2.regs.a == c0.regs.a,
{
    lemma_stack_and_hl_opcodes();
    let hl = c0.regs.hl();
    lemma_plain_ram_write(c0.bus, c1.bus, hl, c0.regs.a);
    assert(c1.regs.hl() == wrap16(hl + 1));
    assert(c2.regs.hl() == wrap16(wrap16(hl + 1) - 1 + 65536));
}

/// `ADD A,n` then `DAA`, with A and `n` in BCD, leaves in A the BCD of
/// their decimal sum modulo 100 and sets C exactly when the sum reached 100.
pub proof fn lemma_add_daa(c0: Cpu, c1: Cpu, c2: Cpu, r1: u8, r2: u8)
    requires
        is_bcd(c0.regs.a),
        is_bcd(c0.imm8()),
        Cpu::alu_a_imm8_post(&c0, &c1, 0xC6, r1),
        Cpu::daa_post(&c1, &c2, 0x27, r2),
    ensures
        c2.regs.a == to_bcd((bcd_value(c0.regs.a) + bcd_value(c0.imm8())) % 100),
        c2.regs.f.c == (bcd_value(c0.regs.a) + bcd_value(c0.imm8()) >= 100),
{
    lemma_stack_and_hl_opcodes();
    lemma_daa_after_add(c0.regs.a, c0.imm8(), c0.regs.f.c);
}

/// Pushing a word leaves the PPU at the same point of its frame.
proof fn lemma_push_keeps_frame_pos(old: Bus, new: Bus, sp: u16, val: u16)
    requires
        Cpu::pushed_bus(&old, &new, sp, val),
    ensures
        new.ppu.frame_pos() == old.ppu.frame_pos(),
{
    let mid = choose|mid: Bus|
        Bus::write_spec(&old, &mid, wrap16(sp - 1 + 65536), (val / 256) as u8) && #[trigger] Bus::write_spec(
            &mid,
            &new,
            wrap16(sp - 2 + 65536),
            (val % 256) as u8,
        ) && mid.wf();
    lemma_write_keeps_frame_pos(old, mid, wrap16(sp - 1 + 65536), (val / 256) as u8);
    lemma_write_keeps_frame_pos(mid, new, wrap16(sp - 2 + 65536), (val % 256) as u8);
}

/// `new_bus` is `old_bus` after two writes.
pub open spec fn two_writes(old_bus: &Bus, new_bus: &Bus) -> bool {
    exists|mid: Bus, a1: u16, v1: u8, a2: u16, v2: u8|
        #[trigger] Bus::write_spec(old_bus, &mid, a1, v1) && #[trigger] Bus::write_spec(&mid, new_bus, a2, v2)
}

/// An instruction leaves the PPU at the same point of its frame; only the
/// cycles that the bus then runs move it.
#[verifier::spinoff_prover]
pub proof fn lemma_instr_keeps_frame_pos(old: Cpu, new: Cpu, op: u8, c: u8)
    requires
        Cpu::instr_post(&old, &new, op, c),
    ensures
        new.bus.ppu.frame_pos() == old.bus.ppu.frame_pos(),
{
    if new.bus != old.bus {
        if exists|a: u16, v: u8| #[trigger] Bus::write_spec(&old.bus, &new.bus, a, v) {
            let (a, v) = choose|a: u16, v: u8| #[trigger] Bus::write_spec(&old.bus, &new.bus, a, v);
            lemma_write_keeps_frame_pos(old.bus, new.bus, a, v);
        } else {
            assert(two_writes(&old.bus, &new.bus));
            let (mid, a1, v1, a2, v2) = choose|mid: Bus, a1: u16, v1: u8, a2: u16, v2: u8|
                #[trigger] Bus::write_spec(&old.bus, &mid, a1, v1) && #[trigger] Bus::write_spec(&mid, &new.bus, a2, v2);
            lemma_write_keeps_frame_pos(old.bus, mid, a1, v1);
            lemma_write_keeps_frame_pos(mid, new.bus, a2, v2);
        }
    }
}

/// One step moves the PPU by exactly the cycles it reports.
pub proof fn lemma_step_frame_pos(old: Cpu, new: Cpu, r: Result<usize, CpuFault>)
    requires
        Cpu::step_post(&old, &new, r),
        r is Ok,
    ensures
        new.bus.ppu.frame_pos() % (CYCLES_PER_FRAME as int) == (old.bus.ppu.frame_pos() + r->Ok_0) % (
        CYCLES_PER_FRAME as int),
{
    if old.sleep {
    } else if old.regs.ime && old.bus.int_controller.next_spec() is Some {
        let src = old.bus.int_controller.next_spec()->Some_0;
        let (b1, b2) = choose|b1: Bus, b2: Bus|
            #[trigger] Cpu::pushed_bus(&old.bus, &b1, old.regs.sp, old.regs.pc)
                && #[trigger] Cpu::cleared(&b1, &b2, src) && Bus::run_spec(&b2, &new.bus, 5);
        lemma_push_keeps_frame_pos(old.bus, b1, old.regs.sp, old.regs.pc);
    } else {
        let op = old.bus.peek(old.regs.pc);
        let fetched = Cpu { regs: Registers { pc: wrap16(old.regs.pc + 1), ..old.regs }, ..old };
        let c = r->Ok_0;
        let mid = choose|mid: Cpu|
            #[trigger] Cpu::instr_post(&fetched, &mid, op, c as u8) && Bus::run_spec(&mid.bus, &new.bus, (c as u8) as int)
                && new.regs == mid.regs && new.sleep == mid.sleep;
        lemma_instr_keeps_frame_pos(fetched, mid, op, c as u8);
    }
}

/// `c` with PC moved past the opcode.
pub open spec fn fetched(c: Cpu) -> Cpu {
    Cpu { regs: Registers { pc: wrap16(c.regs.pc + 1), ..c.regs }, ..c }
}

/// A step with IME clear and not halted executes the opcode at PC: some
/// state after the instruction meets its effect, and the bus then runs.
proof fn lemma_step_executes(c0: Cpu, c1: Cpu, r: Result<usize, CpuFault>) -> (mid: Cpu)
    requires
        Cpu::step_post(&c0, &c1, r),
        !c0.sleep,
        !c0.regs.ime,
        r is Ok,
    ensures
        Cpu::instr_post(&fetched(c0), &mid, c0.bus.peek(c0.regs.pc), r->Ok_0 as u8),
        Bus::run_spec(&mid.bus, &c1.bus, (r->Ok_0 as u8) as int),
        c1.regs == mid.regs,
        c1.sleep == mid.sleep,
{
    let op = c0.bus.peek(c0.regs.pc);
    let c = r->Ok_0;
    choose|mid: Cpu|
        #[trigger] Cpu::instr_post(&fetched(c0), &mid, op, c as u8) && Bus::run_spec(&mid.bus, &c1.bus, (c as u8) as int)
            && c1.regs == mid.regs && c1.sleep == mid.sleep
}

/// Two steps that run `POP AF` then `PUSH AF` (IME clear, not halted, the
/// stack in work or high RAM) write back the word that was popped with the
/// low nibble of F cleared, leave SP where it was, and take 3 and 4
/// machine cycles.
pub proof fn lemma_steps_pop_push_af(c0: Cpu, c1: Cpu, c2: Cpu, r1: Result<usize, CpuFault>, r2: Result<usize, CpuFault>)
    requires
        c0.wf(),
        c1.wf(),
        !c0.sleep,
        !c0.regs.ime,
        c0.bus.peek(c0.regs.pc) == 0xF1,
        c1.bus.peek(c1.regs.pc) == 0xF5,
        is_plain_ram(c0.regs.sp),
        is_plain_ram(wrap16(c0.regs.sp + 1)),
        c0.regs.sp < 0xFFFF,
        Cpu::step_post(&c0, &c1, r1),
        Cpu::step_post(&c1, &c2, r2),
    ensures
        r1 == Ok::<usize, CpuFault>(3),
        r2 == Ok::<usize, CpuFault>(4),
        c2.regs.sp == c0.regs.sp,
        pair(c2.bus.peek(wrap16(c0.regs.sp + 1)), c2.bus.peek(c0.regs.sp)) == c0.stack_top() & 0xFFF0,
{
    lemma_stack_and_hl_opcodes();
    let mid1 = lemma_step_executes(c0, c1, r1);
    let mid2 = lemma_step_executes(c1, c2, r2);
    let sp = c0.regs.sp;
    let v = c0.stack_top();
    let f1 = fetched(c1);
    let val = Cpu::push_value(f1.regs, 3);
    let sp1 = wrap16(f1.regs.sp - 1 + 65536);
    let sp2 = wrap16(f1.regs.sp - 2 + 65536);
    assert(sp1 == wrap16(sp + 1));
    assert(sp2 == sp);
    let mid = choose|mid: Bus|
        Bus::write_spec(&f1.bus, &mid, sp1, (val / 256) as u8) && #[trigger] Bus::write_spec(
            &mid,
            &mid2.bus,
            sp2,
            (val % 256) as u8,
        ) && mid.wf();
    lemma_plain_ram_write(f1.bus, mid, sp1, (val / 256) as u8);
    lemma_plain_ram_write(mid, mid2.bus, sp2, (val % 256) as u8);
    lemma_run_keeps_plain_ram(mid2.bus, c2.bus, 4);
    lemma_flag_nibble(v);
    let lo = (v % 256) as u8;
    assert(flag_byte(flags_of_byte(lo)) as int == (if lo & 0x80 == 0x80 { 128int } else { 0 }) + (
    if lo & 0x40 == 0x40 { 64int } else { 0 }) + (if lo & 0x20 == 0x20 { 32int } else { 0 }) + (if lo
        & 0x10 == 0x10 { 16int } else { 0 }));
}

/// Two steps that run `LD (HL+),A` then `LD A,(HL-)` (IME clear, not
/// halted, HL and HL + 1 in work or high RAM) bring HL back, leave A's
/// byte at HL, load A from HL + 1, and take 2 machine cycles each.
pub proof fn lemma_steps_hl_inc_dec(c0: Cpu, c1: Cpu, c2: Cpu, r1: Result<usize, CpuFault>, r2: Result<usize, CpuFault>)
    requires
        c0.wf(),
        c1.wf(),
        !c0.sleep,
        !c0.regs.ime,
        c0.bus.peek(c0.regs.pc) == 0x22,
        c1.bus.peek(c1.regs.pc) == 0x3A,
        is_plain_ram(c0.regs.hl()),
        is_plain_ram(wrap16(c0.regs.hl() + 1)),
        Cpu::step_post(&c0, &c1, r1),
        Cpu::step_post(&c1, &c2, r2),
    ensures
        r1 == Ok::<usize, CpuFault>(2),
        r2 == Ok::<usize, CpuFault>(2),
        c2.regs.hl() == c0.regs.hl(),
        c2.bus.peek(c0.regs.hl()) == c0.regs.a,
        c2.regs.a == c0.bus.peek(wrap16(c0.regs.hl() + 1)),
{
    lemma_stack_and_hl_opcodes();
    let mid1 = lemma_step_executes(c0, c1, r1);
    let mid2 = lemma_step_executes(c1, c2, r2);
    let hl = c0.regs.hl();
    lemma_plain_ram_write(c0.bus, mid1.bus, hl, c0.regs.a);
    lemma_run_keeps_plain_ram(mid1.bus, c1.bus, 2);
    lemma_run_keeps_plain_ram(mid2.bus, c2.bus, 2);
    assert(c1.regs.hl() == wrap16(hl + 1));
    assert(c2.regs.hl() == wrap16(wrap16(hl + 1) - 1 + 65536));
}

/// Two steps that run `ADD A,n` then `DAA` (IME clear, not halted, A and
/// `n` in BCD) leave in A the BCD of the decimal sum modulo 100, set C
/// exactly when the sum reached 100, and take 2 and 1 machine cycles.
pub proof fn lemma_steps_add_daa(c0: Cpu, c1: Cpu, c2: Cpu, r1: Result<usize, CpuFault>, r2: Result<usize, CpuFault>)
    requires
        !c0.sleep,
        !c0.regs.ime,
        c0.bus.peek(c0.regs.pc) == 0xC6,
        c1.bus.peek(c1.regs.pc) == 0x27,
        is_bcd(c0.regs.a),
        is_bcd(fetched(c0).imm8()),
        Cpu::step_post(&c0, &c1, r1),
        Cpu::step_post(&c1, &c2, r2),
    ensures
        r1 == Ok::<usize, CpuFault>(2),
        r2 == Ok::<usize, CpuFault>(1),
        c2.regs.a == to_bcd((bcd_value(c0.regs.a) + bcd_value(fetched(c0).imm8())) % 100),
        c2.regs.f.c == (bcd_value(c0.regs.a) + bcd_value(fetched(c0).imm8()) >= 100),
{
    lemma_stack_and_hl_opcodes();
    let mid1 = lemma_step_executes(c0, c1, r1);
    let mid2 = lemma_step_executes(c1, c2, r2);
    lemma_daa_after_add(c0.regs.a, fetched(c0).imm8(), c0.regs.f.c);
    assert(fetched(c1).regs.a == mid1.regs.a && fetched(c1).regs.f == mid1.regs.f);
}

} // verus!
