//! Wall-clock timers in integer microseconds: T1 plus the RUN and IDLE
//! elapsed-time counters, and the two hardware tick encodings the firmware
//! reads.  The T1 encoding's low nibble advances at 16 Hz, the RUN/IDLE
//! encoding at 8192 Hz.

use vstd::prelude::*;
use vstd::arithmetic::div_mod::{
    lemma_fundamental_div_mod, lemma_fundamental_div_mod_converse, lemma_mod_multiples_vanish,
};

verus! {

pub const T1_TIMER: usize = 0;
pub const RUN_TIMER: usize = 1;
pub const IDLE_TIMER: usize = 2;
pub const NUM_TIMERS: usize = 3;

/// A 64-bit tick value split at bit 32.
#[derive(Clone, Copy, Debug)]
pub struct TimerVal {
    pub hi: u32,
    pub lo: u32,
}

/// A snapshot of the two hardware timers.
#[derive(Clone, Copy, Debug)]
pub struct T1T2Ticks {
    pub t1_ticks: i32,
    pub t2_ticks: i32,
}

/// One elapsed-time counter over monotonic host microseconds.
#[derive(Clone, Copy, Debug)]
pub struct Timer {
    pub start_us: u64,
    pub stop_us: u64,
    pub running: bool,
    pub accumulated_us: u64,
}

pub struct Timers {
    pub timers: [Timer; 3],
    pub access_time_us: u64,
}

/// Saturating difference, used so a host clock that steps backward reads as
/// zero elapsed time rather than wrapping.
pub open spec fn spec_elapsed(now: u64, start: u64) -> u64 {
    if now >= start {
        (now - start) as u64
    } else {
        0u64
    }
}

/// Total microseconds a timer has measured by time `now`.
pub open spec fn spec_timer_micros(t: Timer, now: u64) -> int {
    if t.running {
        let total = t.accumulated_us + spec_elapsed(now, t.start_us);
        if total > u64::MAX {
            u64::MAX as int
        } else {
            total
        }
    } else {
        t.accumulated_us as int
    }
}

/// The T1 hardware encoding of an elapsed time:
/// `(seconds << 9) | (microseconds / 62500)`; the two parts never overlap,
/// so the OR is an exact sum.
pub open spec fn spec_t1_encoding(us: u64) -> int {
    (us / 1000000) * 512 + (us % 1000000) / 62500
}

/// The RUN/IDLE hardware encoding:
/// `(seconds << 13) | ((microseconds << 7) / 15625)`, again a disjoint sum.
pub open spec fn spec_run_encoding(us: u64) -> int {
    (us / 1000000) * 8192 + ((us % 1000000) * 128) / 15625
}

/// The low four bits of the T1 encoding advance once every 62500
/// microseconds: they count sixteenths of a second.
pub proof fn lemma_t1_low_bits_16hz(us: u64)
    ensures
        spec_t1_encoding(us) % 16 == ((us as int) / 62500) % 16,
{
    let sec = (us as int) / 1000000;
    let usec = (us as int) % 1000000;
    let q = usec / 62500;
    lemma_fundamental_div_mod(us as int, 1000000);
    lemma_fundamental_div_mod(usec, 62500);
    assert(0 <= q < 16);
    assert(us as int == 62500 * (sec * 16 + q) + usec % 62500) by {
        assert(1000000 * sec == 62500 * (16 * sec));
    };
    lemma_fundamental_div_mod_converse(us as int, 62500, sec * 16 + q, usec % 62500);
    assert((us as int) / 62500 == sec * 16 + q);
    lemma_mod_multiples_vanish(32 * sec, q, 16);
    assert(sec * 512 + q == 16 * (32 * sec) + q);
    lemma_mod_multiples_vanish(sec, q, 16);
    assert(sec * 16 + q == 16 * sec + q);
}

/// The RUN/IDLE encoding equals the total number of 8192 Hz ticks in the
/// elapsed time: its low bits advance 8192 times per second.
pub proof fn lemma_run_encoding_8192hz(us: u64)
    ensures
        spec_run_encoding(us) == ((us as int) * 128) / 15625,
{
    let sec = (us as int) / 1000000;
    let usec = (us as int) % 1000000;
    lemma_fundamental_div_mod(us as int, 1000000);
    lemma_fundamental_div_mod(usec * 128, 15625);
    assert(0 <= (usec * 128) / 15625 < 8192) by {
        assert(usec * 128 < 128000000) by (nonlinear_arith)
            requires
                0 <= usec < 1000000,
        ;
    };
    assert((us as int) * 128 == 15625 * (sec * 8192 + (usec * 128) / 15625) + (usec * 128)
        % 15625) by {
        assert((us as int) * 128 == sec * 128000000 + usec * 128) by (nonlinear_arith)
            requires
                us as int == 1000000 * sec + usec,
        ;
        assert(sec * 128000000 == 15625 * (sec * 8192)) by (nonlinear_arith);
    };
    lemma_fundamental_div_mod_converse(
        (us as int) * 128,
        15625,
        sec * 8192 + (usec * 128) / 15625,
        (usec * 128) % 15625,
    );
}

/// Computes the T1 encoding of an elapsed time as a split 64-bit value.
pub fn t1_encoding(us: u64) -> (r: TimerVal)
    requires
        us < 0x2000000000000000,
    ensures
        r.hi as int * 0x100000000 + r.lo == spec_t1_encoding(us),
{
    let val: u64 = (us / 1000000) * 512 + (us % 1000000) / 62500;
    TimerVal { hi: (val / 0x100000000) as u32, lo: (val % 0x100000000) as u32 }
}

/// Computes the RUN/IDLE encoding of an elapsed time as a split 64-bit
/// value.
pub fn run_encoding(us: u64) -> (r: TimerVal)
    requires
        us < 0x2000000000000000,
    ensures
        r.hi as int * 0x100000000 + r.lo == spec_run_encoding(us),
{
    let val: u64 = (us / 1000000) * 8192 + ((us % 1000000) * 128) / 15625;
    TimerVal { hi: (val / 0x100000000) as u32, lo: (val % 0x100000000) as u32 }
}

impl Timers {
    pub fn new() -> (r: Timers)
        ensures
            forall|i: int| 0 <= i < 3 ==> !(#[trigger] r.timers@[i]).running,
            forall|i: int| 0 <= i < 3 ==> (#[trigger] r.timers@[i]).accumulated_us == 0,
            forall|i: int| 0 <= i < 3 ==> (#[trigger] r.timers@[i]).start_us == 0,
            r.access_time_us == 0,
    {
        Timers {
            timers: [
                Timer { start_us: 0, stop_us: 0, running: false, accumulated_us: 0 },
                Timer { start_us: 0, stop_us: 0, running: false, accumulated_us: 0 },
                Timer { start_us: 0, stop_us: 0, running: false, accumulated_us: 0 },
            ],
            access_time_us: 0,
        }
    }

    /// Stops timer `n` and discards everything it measured.
    pub fn reset_timer(&mut self, n: usize)
        requires
            n < 3,
        ensures
            final(self).timers@ == old(self).timers@.update(
                n as int,
                Timer { start_us: 0, stop_us: 0, running: false, accumulated_us: 0 },
            ),
            final(self).access_time_us == old(self).access_time_us,
    {
        self.timers[n] = Timer { start_us: 0, stop_us: 0, running: false, accumulated_us: 0 };
    }

    /// Starts timer `n` at `now` unless it is already running.
    pub fn start_timer(&mut self, n: usize, now_us: u64)
        requires
            n < 3,
        ensures
            final(self).timers@ == (if old(self).timers@[n as int].running {
                old(self).timers@
            } else {
                old(self).timers@.update(
                    n as int,
                    Timer { running: true, start_us: now_us, ..old(self).timers@[n as int] },
                )
            }),
            final(self).access_time_us == old(self).access_time_us,
    {
        if !self.timers[n].running {
            let t = self.timers[n];
            self.timers[n] = Timer { running: true, start_us: now_us, ..t };
        }
    }

    /// Stops timer `n` at `now`, folding the elapsed interval into its
    /// accumulator (saturating).
    pub fn stop_timer(&mut self, n: usize, now_us: u64)
        requires
            n < 3,
        ensures
            final(self).timers@ == (if old(self).timers@[n as int].running {
                let t = old(self).timers@[n as int];
                old(self).timers@.update(
                    n as int,
                    Timer {
                        running: false,
                        stop_us: now_us,
                        accumulated_us: (if t.accumulated_us + spec_elapsed(now_us, t.start_us)
                            > u64::MAX {
                            u64::MAX
                        } else {
                            (t.accumulated_us + spec_elapsed(now_us, t.start_us)) as u64
                        }),
                        ..t
                    },
                )
            } else {
                old(self).timers@
            }),
            final(self).access_time_us == old(self).access_time_us,
    {
        if self.timers[n].running {
            let t = self.timers[n];
            let elapsed: u64 = if now_us >= t.start_us {
                now_us - t.start_us
            } else {
                0
            };
            let acc: u64 = if t.accumulated_us <= u64::MAX - elapsed {
                t.accumulated_us + elapsed
            } else {
                u64::MAX
            };
            self.timers[n] = Timer { running: false, stop_us: now_us, accumulated_us: acc, ..t };
        }
    }

    /// Restarts timer `n` from zero at `now`.
    pub fn restart_timer(&mut self, n: usize, now_us: u64)
        requires
            n < 3,
        ensures
            final(self).timers@ == old(self).timers@.update(
                n as int,
                Timer {
                    running: true,
                    start_us: now_us,
                    accumulated_us: 0,
                    ..old(self).timers@[n as int]
                },
            ),
            final(self).access_time_us == old(self).access_time_us,
    {
        let t = self.timers[n];
        self.timers[n] = Timer { running: true, start_us: now_us, accumulated_us: 0, ..t };
    }

    /// Total microseconds timer `n` has measured by `now`.
    pub fn get_timer_micros(&self, n: usize, now_us: u64) -> (r: u64)
        requires
            n < 3,
        ensures
            r == spec_timer_micros(self.timers@[n as int], now_us),
    {
        let t = self.timers[n];
        if t.running {
            let elapsed: u64 = if now_us >= t.start_us {
                now_us - t.start_us
            } else {
                0
            };
            if t.accumulated_us <= u64::MAX - elapsed {
                t.accumulated_us + elapsed
            } else {
                u64::MAX
            }
        } else {
            t.accumulated_us
        }
    }

    /// Timer `n`'s elapsed time in its hardware encoding: the T1 encoding
    /// for T1, the 8192 Hz encoding for RUN and IDLE.
    pub fn get_timer(&self, n: usize, now_us: u64) -> (r: TimerVal)
        requires
            n < 3,
            spec_timer_micros(self.timers@[n as int], now_us) < 0x2000000000000000,
        ensures
            ({
                let us = spec_timer_micros(self.timers@[n as int], now_us);
                r.hi as int * 0x100000000 + r.lo == (if n == T1_TIMER {
                    spec_t1_encoding(us as u64)
                } else {
                    spec_run_encoding(us as u64)
                })
            }),
    {
        let us: u64 = self.get_timer_micros(n, now_us);
        if n == T1_TIMER {
            t1_encoding(us)
        } else {
            run_encoding(us)
        }
    }

    /// Records the host time of the last access-time synchronisation.
    pub fn set_accesstime(&mut self, now_us: u64)
        ensures
            *final(self) == (Timers { access_time_us: now_us, ..*old(self) }),
    {
        self.access_time_us = now_us;
    }

    /// True iff timer `n` is running.
    pub fn is_running(&self, n: usize) -> (r: bool)
        requires
            n < 3,
        ensures
            r == self.timers@[n as int].running,
    {
        self.timers[n].running
    }
}

} // verus!
