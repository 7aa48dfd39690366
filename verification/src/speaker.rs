//! Speaker frequency detection: windowed analysis of the toggles of bit 3 of
//! the OUT register, measured in executed instructions.

use vstd::prelude::*;

verus! {

pub const HP48_IPS: i64 = 169000;

pub struct Speaker {
    pub last_state: bool,
    pub last_toggle_instr: i64,
    pub win_half_sum: i64,
    pub win_toggle_count: i32,
    pub instr_count: i64,
}

impl Speaker {
    /// The counters a reachable speaker state keeps ordered and bounded.
    pub open spec fn wf(self) -> bool {
        &&& 0 <= self.last_toggle_instr <= self.instr_count
        &&& 0 <= self.win_half_sum <= self.last_toggle_instr
        &&& 0 <= self.win_toggle_count <= 0x40000000
        &&& self.instr_count < 0x4000000000000000
    }

    pub fn new() -> (r: Speaker)
        ensures
            !r.last_state,
            r.last_toggle_instr == 0,
            r.win_half_sum == 0,
            r.win_toggle_count == 0,
            r.instr_count == 0,
            r.wf(),
    {
        Speaker {
            last_state: false,
            last_toggle_instr: 0,
            win_half_sum: 0,
            win_toggle_count: 0,
            instr_count: 0,
        }
    }

    /// Watches bit 3 of OUT nibble 2: on a toggle, records the instruction
    /// distance since the previous toggle and bumps the global toggle
    /// counter.
    pub fn check_out_register(&mut self, out_nibble2: u8, speaker_counter: &mut i32)
        requires
            old(self).wf(),
            old(self).win_toggle_count < 0x40000000,
            *old(speaker_counter) < 0x7fffffff,
        ensures
            ({
                let state = out_nibble2 / 8 % 2 == 1;
                if state == old(self).last_state {
                    *final(self) == *old(self) && *final(speaker_counter) == *old(speaker_counter)
                } else {
                    let delta = old(self).instr_count - old(self).last_toggle_instr;
                    &&& *final(self) == (Speaker {
                        last_state: state,
                        last_toggle_instr: old(self).instr_count,
                        win_half_sum: if old(self).win_toggle_count > 0 && delta > 0 {
                            (old(self).win_half_sum + delta) as i64
                        } else {
                            old(self).win_half_sum
                        },
                        win_toggle_count: (old(self).win_toggle_count + 1) as i32,
                        ..*old(self)
                    })
                    &&& *final(speaker_counter) == *old(speaker_counter) + 1
                }
            }),
    {
        let state: bool = out_nibble2 / 8 % 2 == 1;
        if state != self.last_state {
            let delta: i64 = self.instr_count - self.last_toggle_instr;
            self.last_toggle_instr = self.instr_count;
            if self.win_toggle_count > 0 && delta > 0 {
                self.win_half_sum = self.win_half_sum + delta;
            }
            self.win_toggle_count = self.win_toggle_count + 1;
            *speaker_counter = *speaker_counter + 1;
            self.last_state = state;
        }
    }

    /// Closes the current window: with at least four toggles, returns the
    /// tone frequency `HP48_IPS / (2 * average half period)` clamped to the
    /// audible range, else zero; either way the window restarts.
    pub fn get_frequency(&mut self) -> (r: u32)
        requires
            old(self).wf(),
        ensures
            *final(self) == (Speaker { win_toggle_count: 0, win_half_sum: 0, ..*old(self) }),
            ({
                let count = old(self).win_toggle_count;
                let sum = old(self).win_half_sum;
                if count < 4 {
                    r == 0
                } else {
                    let avg = (sum as int) / (count - 1);
                    if avg <= 0 {
                        r == 0
                    } else {
                        let freq = (HP48_IPS as int) / (2 * avg);
                        r == (if freq < 20 || freq > 20000 { 0int } else { freq })
                    }
                }
            }),
    {
        let count: i32 = self.win_toggle_count;
        let sum: i64 = self.win_half_sum;
        self.win_toggle_count = 0;
        self.win_half_sum = 0;
        if count < 4 {
            return 0;
        }
        let intervals: i64 = (count - 1) as i64;
        let avg: i64 = sum / intervals;
        if avg <= 0 {
            return 0;
        }
        let freq: i64 = HP48_IPS / (2 * avg);
        if freq < 20 || freq > 20000 {
            return 0;
        }
        freq as u32
    }
}

} // verus!
