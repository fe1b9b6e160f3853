//! The timer: a free-running 16-bit system counter (DIV is its high byte)
//! and the TIMA counter, which steps on the falling edge of a counter bit
//! chosen by TAC.

use vstd::prelude::*;

verus! {

pub const DIV_ADDR: u16 = 0xFF04;

pub const TIMA_ADDR: u16 = 0xFF05;

pub const TMA_ADDR: u16 = 0xFF06;

pub const TAC_ADDR: u16 = 0xFF07;

#[derive(Clone, Copy, Debug, PartialEq, Eq, Structural)]
pub struct Timer {
    pub tima: u8,
    pub tma: u8,
    pub tac: u8,
    pub system_counter: u16,
}

/// The bit of the system counter whose falling edge steps TIMA, for the
/// clock selected by the two low bits of TAC.
pub open spec fn watched_bit(tac: u8) -> u16 {
    let sel = tac & 0x3;
    if sel == 0 {
        7
    } else if sel == 1 {
        1
    } else if sel == 2 {
        3
    } else {
        5
    }
}

/// Bit `bit` of `v`.
pub open spec fn bit_of(v: u16, bit: u16) -> bool {
    (v >> bit) & 1 == 1
}

/// The counter after one machine cycle.
pub open spec fn next_counter(c: u16) -> u16 {
    if c == 0xFFFF {
        0
    } else {
        (c + 1) as u16
    }
}

impl Timer {
    pub open spec fn enabled_spec(&self) -> bool {
        self.tac & 0x4 == 0x4
    }

    /// Whether the next machine cycle steps TIMA.
    pub open spec fn steps_tima(&self) -> bool {
        self.enabled_spec() && bit_of(self.system_counter, watched_bit(self.tac)) && !bit_of(
            next_counter(self.system_counter),
            watched_bit(self.tac),
        )
    }

    /// TIMA after one step: reloaded from TMA when it overflows.
    pub open spec fn stepped_tima(&self) -> u8 {
        if self.tima == 0xFF {
            self.tma
        } else {
            (self.tima + 1) as u8
        }
    }

    /// The timer after one machine cycle, and whether it raised the TIMER
    /// interrupt.
    pub open spec fn tick_spec(self) -> (Timer, bool) {
        let counted = Timer { system_counter: next_counter(self.system_counter), ..self };
        if self.steps_tima() {
            (Timer { tima: self.stepped_tima(), ..counted }, self.tima == 0xFF)
        } else {
            (counted, false)
        }
    }

    /// The timer after `n` machine cycles.
    pub open spec fn run_spec(self, n: nat) -> Timer
        decreases n,
    {
        if n == 0 {
            self
        } else {
            self.tick_spec().0.run_spec((n - 1) as nat)
        }
    }

    /// Whether TIMA overflows, raising TIMER, within `n` machine cycles.
    pub open spec fn fires_within(self, n: nat) -> bool
        decreases n,
    {
        if n == 0 {
            false
        } else {
            self.tick_spec().1 || self.tick_spec().0.fires_within((n - 1) as nat)
        }
    }

    /// One more cycle after `n` cycles is `n + 1` cycles.
    pub proof fn lemma_run_step(self, n: nat)
        ensures
            self.run_spec(n + 1) == self.run_spec(n).tick_spec().0,
            self.fires_within(n + 1) == (self.fires_within(n) || self.run_spec(n).tick_spec().1),
        decreases n,
    {
        let next = self.tick_spec().0;
        if n == 0 {
            assert(next.run_spec(0) == next);
            assert(next.fires_within(0) == false);
        } else {
            next.lemma_run_step((n - 1) as nat);
            assert(self.run_spec(n) == next.run_spec((n - 1) as nat));
            assert(self.run_spec(n + 1) == next.run_spec(n));
            assert(self.fires_within(n) == (self.tick_spec().1 || next.fires_within((n - 1) as nat)));
            assert(self.fires_within(n + 1) == (self.tick_spec().1 || next.fires_within(n)));
        }
    }

    /// The state after power-on.
    pub open spec fn new_spec() -> Timer {
        Timer { tima: 0, tma: 0, tac: 0, system_counter: 0 }
    }

    /// What a read of `addr` returns.
    pub open spec fn peek(&self, addr: u16) -> u8 {
        if addr == DIV_ADDR {
            (self.system_counter >> 8) as u8
        } else if addr == TIMA_ADDR {
            self.tima
        } else if addr == TMA_ADDR {
            self.tma
        } else {
            self.tac
        }
    }

    pub fn new() -> (r: Self)
        ensures
            r == Self::new_spec(),
            r.tima == 0,
            r.tma == 0,
            r.tac == 0,
            r.system_counter == 0,
    {
        Timer { tima: 0, tma: 0, tac: 0x0, system_counter: 0 }
    }

    pub fn enabled(&self) -> (r: bool)
        ensures
            r == self.enabled_spec(),
    {
        (self.tac & 0x4) == 0x4
    }

    /// A write to DIV zeroes the system counter; the other registers take
    /// the value.
    pub fn write(&mut self, addr: u16, val: u8)
        requires
            DIV_ADDR <= addr <= TAC_ADDR,
        ensures
            *final(self) == (if addr == DIV_ADDR {
                Timer { system_counter: 0, ..*old(self) }
            } else if addr == TIMA_ADDR {
                Timer { tima: val, ..*old(self) }
            } else if addr == TMA_ADDR {
                Timer { tma: val, ..*old(self) }
            } else {
                Timer { tac: val, ..*old(self) }
            }),
    {
        if addr == DIV_ADDR {
            self.system_counter = 0;
        } else if addr == TIMA_ADDR {
            self.tima = val;
        } else if addr == TMA_ADDR {
            self.tma = val;
        } else {
            self.tac = val;
        }
    }

    pub fn read(&self, addr: u16) -> (r: u8)
        requires
            DIV_ADDR <= addr <= TAC_ADDR,
        ensures
            r == self.peek(addr),
    {
        if addr == DIV_ADDR {
            (self.system_counter >> 8) as u8
        } else if addr == TIMA_ADDR {
            self.tima
        } else if addr == TMA_ADDR {
            self.tma
        } else {
            self.tac
        }
    }

    /// Advances one machine cycle; returns whether TIMA overflowed, which
    /// raises the TIMER interrupt.
    pub fn tick(&mut self) -> (r: bool)
        ensures
            (*final(self), r) == old(self).tick_spec(),
    {
        let pre_add = self.system_counter;
        self.system_counter = self.system_counter.wrapping_add(1);

        if !self.enabled() {
            return false;
        }
        let sel = self.tac & 0x3;
        let num_shift: u16 = if sel == 0 {
            7
        } else if sel == 1 {
            1
        } else if sel == 2 {
            3
        } else {
            5
        };

        let pre_lsb = ((pre_add >> num_shift) & 1) == 1;
        let post_lsb = ((self.system_counter >> num_shift) & 1) == 1;

        if pre_lsb && !post_lsb {
            self.tima = self.tima.wrapping_add(1);
            if self.tima == 0 {
                self.tima = self.tma;
                return true;
            }
        }
        false
    }
}

/// With TAC = 0x05 (enabled, clock 1) TIMA steps exactly once in every four
/// machine cycles, from whatever counter value it starts.
pub proof fn lemma_clock1_every_four(t: Timer)
    requires
        t.tac == 0x05,
    ensures
        ({
            let t1 = t.tick_spec().0;
            let t2 = t1.tick_spec().0;
            let t3 = t2.tick_spec().0;
            &&& t.steps_tima() as int + t1.steps_tima() as int + t2.steps_tima() as int
                + t3.steps_tima() as int == 1
            &&& t.run_spec(4).tima == t.stepped_tima()
            &&& t.run_spec(4).system_counter == next_counter(
                next_counter(next_counter(next_counter(t.system_counter))),
            )
        }),
{
    let c = t.system_counter;
    let tac = t.tac;
    assert(tac == 5 ==> tac & 0x3 == 1 && tac & 0x4 == 0x4) by (bit_vector);
    assert((c & 3 == 3) == (bit_of(c, 1) && !bit_of(next_counter(c), 1))) by (bit_vector);
    let c1 = next_counter(c);
    let c2 = next_counter(c1);
    let c3 = next_counter(c2);
    assert((c1 & 3 == 3) == (bit_of(c1, 1) && !bit_of(next_counter(c1), 1))) by (bit_vector);
    assert((c2 & 3 == 3) == (bit_of(c2, 1) && !bit_of(next_counter(c2), 1))) by (bit_vector);
    assert((c3 & 3 == 3) == (bit_of(c3, 1) && !bit_of(next_counter(c3), 1))) by (bit_vector);
    assert(c1 == next_counter(c) && c2 == next_counter(c1) && c3 == next_counter(c2) ==> (c & 3
        == 3) as int + (c1 & 3 == 3) as int + (c2 & 3 == 3) as int + (c3 & 3 == 3) as int == 1)
        by (bit_vector);
    assert(t.run_spec(4) == t.tick_spec().0.run_spec(3));
    assert(t.tick_spec().0.run_spec(3) == t.tick_spec().0.tick_spec().0.run_spec(2));
    assert(t.tick_spec().0.tick_spec().0.run_spec(2) == t.tick_spec().0.tick_spec().0.tick_spec(
    ).0.run_spec(1));
    assert(t.tick_spec().0.tick_spec().0.tick_spec().0.run_spec(1) == t.tick_spec().0.tick_spec(
    ).0.tick_spec().0.tick_spec().0.run_spec(0));
}

} // verus!
