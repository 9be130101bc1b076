//! The programmable timer: a free-running divider and a counter with a
//! selectable rate that raises an interrupt when it overflows.

use vstd::prelude::*;
use vstd::arithmetic::div_mod::lemma_fundamental_div_mod_converse;
use crate::cpu::Interrupts;
use crate::mem::Speed;

verus! {

/// Address of the divider register.
pub const DIV: u16 = 0xFF04;

/// Address of the counter register.
pub const TIMA: u16 = 0xFF05;

/// Address of the modulo register.
pub const TMA: u16 = 0xFF06;

/// Address of the control register.
pub const TAC: u16 = 0xFF07;

/// Base-clock cycles that one step of the divider register takes.
pub const DIV_PERIOD: u32 = 64;

/// Cycles gathered since the visible registers last moved.
#[derive(Debug, Clone, Copy, PartialEq, Eq, Structural)]
pub struct InternalClock {
    pub div: u32,
    pub tima: u32,
}

/// The timer's registers and its sub-cycle accumulators.
#[derive(Debug, Clone, Copy, PartialEq, Eq, Structural)]
pub struct Timer {
    /// Divider register: counts up at a fixed rate, any write clears it.
    pub div: u8,
    /// Counter register: counts up at the selected rate while enabled.
    pub tima: u8,
    /// Modulo register: the counter restarts from it after an overflow.
    pub tma: u8,
    /// Control register: bit 2 enables the counter, bits 0 and 1 select its rate.
    pub tac: u8,
    pub clock: InternalClock,
    /// Base-clock cycles per step of the counter at normal speed, kept in
    /// line with the control register.
    pub speed: u32,
}

/// Base-clock cycles per step of the counter at normal speed, for a value
/// of the control register.
pub open spec fn period_of(tac: u8) -> u32 {
    if tac % 4 == 0 {
        1024
    } else if tac % 4 == 1 {
        16
    } else if tac % 4 == 2 {
        64
    } else {
        256
    }
}

/// Whether a value of the control register lets the counter run.
pub open spec fn counter_enabled(tac: u8) -> bool {
    (tac / 4) % 2 == 1
}

/// Base-clock cycles per step of the counter: at double speed a quarter of
/// those at normal speed.
pub open spec fn cycles_per_count(period: u32, speed: Speed) -> int {
    match speed {
        Speed::Normal => period as int,
        Speed::Double => period as int / 4,
    }
}

/// The whole periods of `period` cycles that `cycles` cycles hold.
#[verifier::opaque]
pub open spec fn periods_in(cycles: int, period: int) -> int {
    cycles / period
}

/// The cycles that are left of `cycles` after its whole periods.
#[verifier::opaque]
pub open spec fn left_over(cycles: int, period: int) -> int {
    cycles % period
}

/// The counter after one increment: it restarts from `tma` when it overflows.
pub open spec fn count_once(tima: u8, tma: u8) -> u8 {
    if tima == 255 {
        tma
    } else {
        (tima + 1) as u8
    }
}

/// The counter after `n` increments.
pub open spec fn count_up(tima: u8, tma: u8, n: int) -> u8
    decreases n,
{
    if n <= 0 {
        tima
    } else {
        count_once(count_up(tima, tma, n - 1), tma)
    }
}

/// How many of `n` increments overflow the counter.
pub open spec fn overflows(tima: u8, tma: u8, n: int) -> int
    decreases n,
{
    if n <= 0 {
        0
    } else {
        overflows(tima, tma, n - 1) + if count_up(tima, tma, n - 1) == 255 {
            1int
        } else {
            0int
        }
    }
}

impl Timer {
    /// The cached rate agrees with the control register and the divider's
    /// accumulator holds less than one period.
    pub open spec fn wf(self) -> bool {
        &&& self.speed == period_of(self.tac)
        &&& self.clock.div < DIV_PERIOD
    }

    /// The timer after `cycles` base-clock cycles at `speed`: the divider
    /// has moved on by one for every 64 cycles and a running counter by one
    /// for every period of its rate, each with the cycles left over from
    /// before counted in.
    pub open spec fn spec_step(self, cycles: u32, speed: Speed) -> Timer {
        let d = self.clock.div + cycles;
        let c = self.clock.tima + cycles;
        let p = cycles_per_count(self.speed, speed);
        Timer {
            div: ((self.div + d / 64) % 256) as u8,
            tima: if counter_enabled(self.tac) {
                count_up(self.tima, self.tma, periods_in(c, p))
            } else {
                self.tima
            },
            tma: self.tma,
            tac: self.tac,
            clock: InternalClock {
                div: (d % 64) as u32,
                tima: if counter_enabled(self.tac) {
                    left_over(c, p) as u32
                } else {
                    self.clock.tima
                },
            },
            speed: self.speed,
        }
    }

    /// Whether the counter overflows during `cycles` base-clock cycles at `speed`.
    pub open spec fn spec_fires(self, cycles: u32, speed: Speed) -> bool {
        let c = self.clock.tima + cycles;
        counter_enabled(self.tac) && overflows(
            self.tima,
            self.tma,
            periods_in(c, cycles_per_count(self.speed, speed)),
        ) > 0
    }

    /// The value the bus reads at `addr`.
    pub open spec fn spec_read_byte(self, addr: u16) -> u8 {
        if addr == DIV {
            self.div
        } else if addr == TIMA {
            self.tima
        } else if addr == TMA {
            self.tma
        } else if addr == TAC {
            self.tac
        } else {
            0xFF
        }
    }

    /// The timer after the bus writes `val` at `addr`.
    pub open spec fn spec_write_byte(self, addr: u16, val: u8) -> Timer {
        if addr == DIV {
            Timer { div: 0, ..self }
        } else if addr == TIMA {
            Timer { tima: val, ..self }
        } else if addr == TMA {
            Timer { tma: val, ..self }
        } else if addr == TAC {
            Timer { tac: val, speed: period_of(val), ..self }
        } else {
            self
        }
    }

    /// A timer at rest: all registers zero, the slowest rate selected.
    pub open spec fn initial() -> Timer {
        Timer {
            div: 0,
            tima: 0,
            tma: 0,
            tac: 0,
            clock: InternalClock { div: 0, tima: 0 },
            speed: 1024,
        }
    }

    /// A timer at rest.
    pub fn new() -> (t: Timer)
        ensures
            t.wf(),
            t == Timer::initial(),
    {
        Timer { div: 0, tima: 0, tma: 0, tac: 0, clock: InternalClock { div: 0, tima: 0 }, speed: 1024 }
    }

    /// Advances the timer by `ticks` base-clock cycles and sets the timer
    /// bit of `intf` if the counter overflowed.
    pub fn step(&mut self, ticks: u32, intf: &mut u8, speed: Speed)
        requires
            old(self).wf(),
        ensures
            final(self).wf(),
            *final(self) == old(self).spec_step(ticks, speed),
            *final(intf) == if old(self).spec_fires(ticks, speed) {
                *old(intf) | Interrupts::Timer.spec_mask()
            } else {
                *old(intf)
            },
    {
        let d: u64 = self.clock.div as u64 + ticks as u64;
        self.div = ((self.div as u64 + d / 64) % 256) as u8;
        self.clock.div = (d % 64) as u32;

        if (self.tac / 4) % 2 == 1 {
            let period: u64 = match speed {
                Speed::Normal => self.speed as u64,
                Speed::Double => (self.speed / 4) as u64,
            };
            let total: u64 = self.clock.tima as u64 + ticks as u64;
            let ghost start = self.tima;
            let ghost tma = self.tma;
            let mut left: u64 = total;
            let mut fired = false;
            let ghost mut n: int = 0;
            while left >= period
                invariant
                    period == cycles_per_count(self.speed, speed),
                    period >= 4,
                    self.tma == tma,
                    self.tac == old(self).tac,
                    self.speed == old(self).speed,
                    self.div == ((old(self).div + d / 64) % 256) as u8,
                    self.clock.div == (d % 64) as u32,
                    n >= 0,
                    left + n * period == total,
                    self.tima == count_up(start, tma, n),
                    overflows(start, tma, n) >= 0,
                    fired == (overflows(start, tma, n) > 0),
                decreases left,
            {
                proof {
                    assert((n + 1) * period == n * period + period) by (nonlinear_arith);
                }
                if self.tima == 255 {
                    self.tima = self.tma;
                    fired = true;
                } else {
                    self.tima = self.tima + 1;
                }
                left = left - period;
                proof {
                    n = n + 1;
                }
            }
            proof {
                reveal(periods_in);
                reveal(left_over);
                lemma_fundamental_div_mod_converse(total as int, period as int, n, left as int);
            }
            self.clock.tima = left as u32;
            if fired {
                *intf = *intf | Interrupts::Timer.mask();
            }
        }
    }

    /// Brings the cached rate in line with the control register.
    fn update(&mut self)
        ensures
            *final(self) == (Timer { speed: period_of(old(self).tac), ..*old(self) }),
    {
        let rate: u8 = self.tac % 4;
        if rate == 0 {
            self.speed = 1024;
        } else if rate == 1 {
            self.speed = 16;
        } else if rate == 2 {
            self.speed = 64;
        } else {
            self.speed = 256;
        }
    }

    /// Reads one of the four registers; any other address reads `0xFF`.
    pub fn read_byte(&self, addr: u16) -> (r: u8)
        ensures
            r == self.spec_read_byte(addr),
    {
        if addr == DIV {
            self.div
        } else if addr == TIMA {
            self.tima
        } else if addr == TMA {
            self.tma
        } else if addr == TAC {
            self.tac
        } else {
            0xFF
        }
    }

    /// Writes one of the four registers: any write clears the divider, and
    /// a write to the control register selects the rate anew.
    pub fn write_byte(&mut self, addr: u16, val: u8)
        requires
            old(self).wf(),
        ensures
            final(self).wf(),
            *final(self) == old(self).spec_write_byte(addr, val),
    {
        if addr == DIV {
            self.div = 0;
        } else if addr == TIMA {
            self.tima = val;
        } else if addr == TMA {
            self.tma = val;
        } else if addr == TAC {
            self.tac = val;
            self.update();
        }
    }
}

/// From zero the counter reaches `k` after `k` increments without an
/// overflow, as long as `k` is below 256.
pub proof fn lemma_count_from_zero(tma: u8, k: int)
    requires
        0 <= k <= 255,
    ensures
        count_up(0, tma, k) == k,
        overflows(0, tma, k) == 0,
    decreases k,
{
    if k > 0 {
        lemma_count_from_zero(tma, k - 1);
    }
}

/// The counter's period is one of five numbers of cycles.
pub proof fn lemma_periods(t: Timer, speed: Speed)
    requires
        t.wf(),
    ensures
        ({
            let p = cycles_per_count(t.speed, speed);
            p == 4 || p == 16 || p == 64 || p == 256 || p == 1024
        }),
{
}

/// Cycles can be counted in two runs: the periods in `x + y` cycles are
/// those in `x` plus those in what `x` leaves over together with `y`, and
/// the same cycles are left over at the end.
pub proof fn lemma_split_periods(x: int, y: int, p: int)
    requires
        x >= 0,
        y >= 0,
        p > 0,
    ensures
        periods_in(x, p) + periods_in(left_over(x, p) + y, p) == periods_in(x + y, p),
        left_over(left_over(x, p) + y, p) == left_over(x + y, p),
        periods_in(x, p) >= 0,
        0 <= left_over(x, p) < p,
{
    reveal(periods_in);
    reveal(left_over);
    vstd::arithmetic::div_mod::lemma_fundamental_div_mod(x, p);
    vstd::arithmetic::div_mod::lemma_fundamental_div_mod(x % p + y, p);
    vstd::arithmetic::div_mod::lemma_mod_bound(x, p);
    vstd::arithmetic::div_mod::lemma_mod_bound(x % p + y, p);
    vstd::arithmetic::div_mod::lemma_div_pos_is_pos(x, p);
    let q = x / p;
    let r = (x % p + y) / p;
    let rest = (x % p + y) % p;
    assert(x + y == (q + r) * p + rest) by (nonlinear_arith)
        requires
            x == p * q + x % p,
            x % p + y == p * r + rest,
    ;
    lemma_fundamental_div_mod_converse(x + y, p, q + r, rest);
}

/// A running counter that starts from zero overflows exactly once in 256
/// of its periods: the step sets the interrupt bit, the 256 increments hold
/// one overflow, and the counter restarts from the modulo register.
pub proof fn law_one_overflow_per_256_counts(t: Timer, cycles: u32, speed: Speed)
    requires
        t.wf(),
        counter_enabled(t.tac),
        t.tima == 0,
        t.clock.tima == 0,
        cycles == 256 * cycles_per_count(t.speed, speed),
    ensures
        t.spec_fires(cycles, speed),
        overflows(t.tima, t.tma, 256) == 1,
        t.spec_step(cycles, speed).tima == t.tma,
        t.spec_step(cycles, speed).clock.tima == 0,
{
    lemma_count_from_zero(t.tma, 255);
    lemma_periods(t, speed);
    let p = cycles_per_count(t.speed, speed);
    assert(periods_in(cycles as int, p) == 256 && left_over(cycles as int, p) == 0) by {
        reveal(periods_in);
        reveal(left_over);
        assert(cycles as int / p == 256 && cycles as int % p == 0) by (nonlinear_arith)
            requires
                cycles == 256 * p,
                p > 0,
        ;
    }
    assert(count_up(0, t.tma, 256) == count_once(count_up(0, t.tma, 255), t.tma));
    assert(overflows(0, t.tma, 256) == overflows(0, t.tma, 255) + 1);
}

/// Counting in two runs is counting in one: the counter after `m` and
/// then `n` increments is the counter after `m + n`, and the overflows add up.
pub proof fn lemma_count_adds_up(tima: u8, tma: u8, m: int, n: int)
    requires
        m >= 0,
        n >= 0,
    ensures
        count_up(count_up(tima, tma, m), tma, n) == count_up(tima, tma, m + n),
        overflows(tima, tma, m) + overflows(count_up(tima, tma, m), tma, n) == overflows(
            tima,
            tma,
            m + n,
        ),
        overflows(tima, tma, m) >= 0,
    decreases n, m,
{
    if n > 0 {
        lemma_count_adds_up(tima, tma, m, n - 1);
    } else if m > 0 {
        lemma_count_adds_up(tima, tma, m - 1, 0);
    }
}

/// Stepping the timer twice is stepping it once by the sum of the cycles:
/// it ends in the same state, and the interrupt is raised by the one step
/// exactly if either of the two raises it.
pub proof fn law_steps_add_up(t: Timer, first: u32, second: u32, speed: Speed)
    requires
        t.wf(),
        first + second <= u32::MAX,
    ensures
        t.spec_step(first, speed).spec_step(second, speed) == t.spec_step(
            (first + second) as u32,
            speed,
        ),
        t.spec_fires((first + second) as u32, speed) == (t.spec_fires(first, speed) || t.spec_step(
            first,
            speed,
        ).spec_fires(second, speed)),
{
    let a = first as int;
    let b = second as int;
    let p = cycles_per_count(t.speed, speed);
    let c = t.clock.tima as int;
    let m = periods_in(c + a, p);
    let n = periods_in(left_over(c + a, p) + b, p);
    lemma_periods(t, speed);
    lemma_split_periods(c + a, b, p);
    lemma_split_periods(left_over(c + a, p) + b, 0, p);
    lemma_count_adds_up(t.tima, t.tma, m, n);
    lemma_count_adds_up(count_up(t.tima, t.tma, m), t.tma, n, 0);
}

} // verus!
