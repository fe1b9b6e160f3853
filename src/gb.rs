//! One emulated console, and the drivers that run it a step, a scanline or
//! a frame at a time.

use vstd::prelude::*;
use crate::bus::Bus;
use crate::cart::{controller_of, header_spec, CartError, Cartridge};
use crate::cpu::{lemma_step_frame_pos, Cpu, CpuFault};
use crate::ppu::{total, CYCLES_PER_FRAME, SCREEN_HEIGHT};

verus! {


/// `t` is a run of CPU steps, each one succeeding with the cycles that
/// `c` lists.
pub open spec fn ok_steps(t: Seq<Cpu>, c: Seq<int>) -> bool {
    &&& t.len() == c.len() + 1
    &&& forall|i: int|
        0 <= i < c.len() ==> #[trigger] Cpu::step_post(&t[i], &t[i + 1], Ok::<usize, CpuFault>(c[i] as usize))
}

/// `new` comes from `old` by successful steps whose cycles add up to `n`.
pub open spec fn ran(old: &Cpu, new: &Cpu, n: int) -> bool {
    exists|t: Seq<Cpu>, c: Seq<int>|
        #[trigger] ok_steps(t, c) && t[0] == *old && t.last() == *new && #[trigger] total(c) == n
}

/// `new` comes from `old` by successful steps taking `n` cycles and then
/// one step that stopped with `e`.
pub open spec fn faulted(old: &Cpu, new: &Cpu, n: int, e: CpuFault) -> bool {
    exists|t: Seq<Cpu>, c: Seq<int>|
        #[trigger] ok_steps(t, c) && t[0] == *old && #[trigger] total(c) == n && Cpu::step_post(
            &t.last(),
            new,
            Err::<usize, CpuFault>(e),
        )
}

pub struct GbRs {
    pub cpu: Cpu,
}

impl GbRs {
    pub open spec fn wf(&self) -> bool {
        self.cpu.wf()
    }

    /// Machine cycles from the start of the PPU's frame to now.
    pub open spec fn frame_pos(&self) -> int {
        self.cpu.bus.ppu.frame_pos()
    }

    /// A console with `cart` inserted, in the state after the boot program.
    pub fn new(cart: Cartridge) -> (r: Self)
        requires
            cart.wf(),
        ensures
            r.wf(),
            r.cpu.regs == Cpu::boot_regs(),
            !r.cpu.sleep,
            r.cpu.bus.rom == cart,
            r.cpu.bus.serial_log().len() == 0,
    {
        Self { cpu: Cpu::new(Bus::new(cart)) }
    }

    /// A console running the cartridge image `rom`, with blank RAM.
    pub fn from_rom(rom: Vec<u8>) -> (r: Result<Self, CartError>)
        ensures
            match r {
                Ok(gb) => gb.wf() && gb.cpu.bus.rom.rom@ == rom@ && gb.cpu.regs == Cpu::boot_regs(),
                Err(e) => match header_spec(rom@) {
                    Err(he) => e == he,
                    Ok(h) => if controller_of(h.3) is None {
                        e == CartError::UnknownCartType(h.3)
                    } else {
                        rom@.len() != h.4 && e == CartError::RomSizeMismatch
                    },
                },
            },
    {
        match Cartridge::new(rom) {
            Ok(cart) => Ok(Self::new(cart)),
            Err(e) => Err(e),
        }
    }

    /// One CPU step; returns the machine cycles it took.
    pub fn run_one(&mut self) -> (r: Result<usize, CpuFault>)
        requires
            old(self).wf(),
        ensures
            final(self).wf(),
            r matches Ok(c) ==> 1 <= c <= 6,
            Cpu::step_post(&old(self).cpu, &final(self).cpu, r),
            r matches Ok(c) ==> final(self).frame_pos() % (CYCLES_PER_FRAME as int) == (old(self).frame_pos() + c) % (
            CYCLES_PER_FRAME as int),
    {
        let ghost before = self.cpu;
        let r = self.cpu.run_one();
        proof {
            if r is Ok {
                lemma_step_frame_pos(before, self.cpu, r);
            }
        }
        r
    }

    /// Steps until at least `cycles` machine cycles have passed; returns how
    /// many did.
    fn run_cycles_at_least(&mut self, cycles: usize) -> (r: Result<usize, CpuFault>)
        requires
            old(self).wf(),
            cycles <= CYCLES_PER_FRAME,
        ensures
            final(self).wf(),
            Self::run_post(old(self), final(self), cycles as int, r),
    {
        let ghost start = self.frame_pos();
        let ghost t: Seq<Cpu> = seq![self.cpu];
        let ghost c: Seq<int> = seq![];
        let mut done: usize = 0;
        while done < cycles
            invariant
                self.wf(),
                cycles <= CYCLES_PER_FRAME,
                done < cycles + 6,
                self.frame_pos() % (CYCLES_PER_FRAME as int) == (start + done) % (CYCLES_PER_FRAME as int),
                ok_steps(t, c),
                t[0] == old(self).cpu,
                t.last() == self.cpu,
                total(c) == done,
                start == old(self).frame_pos(),
            decreases cycles + 6 - done,
        {
            let ghost before = self.frame_pos();
            let ghost before_cpu = self.cpu;
            match self.run_one() {
                Ok(cc) => {
                    proof {
                        let p = self.frame_pos();
                        assert((before + cc) % 17556 == (start + done + cc) % 17556) by (nonlinear_arith)
                            requires
                                before % 17556 == (start + done) % 17556,
                        ;
                        let t2 = t.push(self.cpu);
                        let c2 = c.push(cc as int);
                        assert(c2.drop_last() =~= c);
                        assert forall|i: int| 0 <= i < c2.len() implies #[trigger] Cpu::step_post(
                            &t2[i],
                            &t2[i + 1],
                            Ok::<usize, CpuFault>(c2[i] as usize),
                        ) by {
                            if i < c.len() {
                                assert(Cpu::step_post(&t[i], &t[i + 1], Ok::<usize, CpuFault>(c[i] as usize)));
                            } else {
                                assert(t2[i] == before_cpu);
                                assert((cc as int) as usize == cc);
                            }
                        }
                        t = t2;
                        c = c2;
                    }
                    done = done + cc;
                },
                Err(e) => {
                    proof {
                        assert(ok_steps(t, c) && t[0] == old(self).cpu && total(c) == done as int && Cpu::step_post(&t.last(), &self.cpu, Err::<usize, CpuFault>(e)));
                        assert(faulted(&old(self).cpu, &self.cpu, done as int, e));
                    }
                    return Err(e);
                },
            }
        }
        assert(ok_steps(t, c) && t[0] == old(self).cpu && t.last() == self.cpu && total(c) == done as int);
        assert(ran(&old(self).cpu, &self.cpu, done as int));
        Ok(done)
    }

    /// What running for at least `cycles` machine cycles gave: `Ok(n)` when
    /// successful steps took the console from `old` to `new` in `n` cycles,
    /// `cycles <= n < cycles + 6`, the PPU moving by exactly `n`; `Err(e)`
    /// when, after successful steps of fewer than `cycles` cycles in all, a
    /// step stopped with `e`.
    pub open spec fn run_post(old: &GbRs, new: &GbRs, cycles: int, r: Result<usize, CpuFault>) -> bool {
        match r {
            Ok(n) => {
                &&& cycles <= n < cycles + 6
                &&& ran(&old.cpu, &new.cpu, n as int)
                &&& new.frame_pos() % (CYCLES_PER_FRAME as int) == (old.frame_pos() + n) % (
                CYCLES_PER_FRAME as int)
            },
            Err(e) => exists|n: int| 0 <= n < cycles && #[trigger] faulted(&old.cpu, &new.cpu, n, e),
        }
    }

    /// Runs for one scanline's share of a frame.
    pub fn run_line(&mut self) -> (r: Result<usize, CpuFault>)
        requires
            old(self).wf(),
        ensures
            final(self).wf(),
            Self::run_post(old(self), final(self), (CYCLES_PER_FRAME as usize / SCREEN_HEIGHT) as int, r),
    {
        self.run_cycles_at_least(CYCLES_PER_FRAME as usize / SCREEN_HEIGHT)
    }

    /// Runs for one frame: at least 17 556 machine cycles.
    pub fn run_frame(&mut self) -> (r: Result<usize, CpuFault>)
        requires
            old(self).wf(),
        ensures
            final(self).wf(),
            Self::run_post(old(self), final(self), CYCLES_PER_FRAME as int, r),
    {
        self.run_cycles_at_least(CYCLES_PER_FRAME as usize)
    }
}

} // verus!
