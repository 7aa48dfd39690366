//! Keyboard: a FIFO queue of 32-bit key events drained into the nine-row key
//! matrix.  Bit 31 distinguishes release from press; 0x8000 is the ON key.

use vstd::prelude::*;
use crate::cpu::{KeyState, Saturn};

verus! {

/// The key matrix and interrupt demand after one event is applied.
pub open spec fn spec_apply_event(rows: Seq<u16>, kbd_ien: u8, code: u32) -> (Seq<u16>, bool) {
    let press = code < 0x80000000;
    let keycode = (code % 0x80000000) as u32;
    if press {
        if keycode == 0x8000 {
            (Seq::new(9, |i: int| (rows[i] | 0x8000) as u16), true)
        } else {
            let r = keycode / 16;
            let c = (1u16 << (keycode % 16)) as u16;
            if r < 9 {
                if rows[r as int] & c == 0 {
                    (rows.update(r as int, (rows[r as int] | c) as u16), kbd_ien != 0)
                } else {
                    (rows, false)
                }
            } else {
                (rows, false)
            }
        }
    } else {
        if keycode == 0x8000 {
            (Seq::new(9, |i: int| 0u16), false)
        } else {
            let r = keycode / 16;
            let c = (1u16 << (keycode % 16)) as u16;
            if r < 9 {
                (rows.update(r as int, (rows[r as int] & !c) as u16), false)
            } else {
                (rows, false)
            }
        }
    }
}

/// The key matrix after the first `n` queued events, and whether any of them
/// demands a keyboard interrupt.
pub open spec fn spec_apply_events(rows: Seq<u16>, kbd_ien: u8, evs: Seq<u32>, n: int) -> (
    Seq<u16>,
    bool,
)
    decreases n,
{
    if n <= 0 {
        (rows, false)
    } else {
        let prev = spec_apply_events(rows, kbd_ien, evs, n - 1);
        let step = spec_apply_event(prev.0, kbd_ien, evs[n - 1]);
        (step.0, prev.1 || step.1)
    }
}

pub struct Keyboard {
    pub event_queue: Vec<u32>,
}

impl Keyboard {
    pub fn new() -> (r: Keyboard)
        ensures
            r.event_queue@.len() == 0,
    {
        Keyboard { event_queue: Vec::new() }
    }

    /// Appends one host key event to the queue.
    pub fn push_key_event(&mut self, code: u32)
        ensures
            final(self).event_queue@ == old(self).event_queue@.push(code),
    {
        self.event_queue.push(code);
    }

    /// Drains every queued event into the key matrix in FIFO order; returns
    /// true iff some event demands a keyboard interrupt: any ON press, or any
    /// fresh press while the keyboard interrupt is enabled.
    pub fn process_events(&mut self, saturn: &mut Saturn) -> (r: bool)
        ensures
            final(self).event_queue@.len() == 0,
            ({
                let folded = spec_apply_events(
                    old(saturn).keybuf.rows@,
                    old(saturn).kbd_ien,
                    old(self).event_queue@,
                    old(self).event_queue@.len() as int,
                );
                &&& final(saturn).keybuf.rows@ == folded.0
                &&& r == folded.1
                &&& *final(saturn) == (Saturn { keybuf: final(saturn).keybuf, ..*old(saturn) })
            }),
    {
        let ghost evs = self.event_queue@;
        let ghost rows0 = saturn.keybuf.rows@;
        let mut need: bool = false;
        let mut i: usize = 0;
        let n: usize = self.event_queue.len();
        while i < n
            invariant
                i <= n,
                n == evs.len(),
                self.event_queue@ == evs,
                (saturn.keybuf.rows@, need) == spec_apply_events(
                    rows0,
                    old(saturn).kbd_ien,
                    evs,
                    i as int,
                ),
                saturn.kbd_ien == old(saturn).kbd_ien,
                *saturn == (Saturn { keybuf: saturn.keybuf, ..*old(saturn) }),
            decreases n - i,
        {
            let code: u32 = self.event_queue[i];
            let press: bool = code < 0x80000000;
            let keycode: u32 = code % 0x80000000;
            if press {
                if keycode == 0x8000 {
                    let mut k: usize = 0;
                    let rows_in: [u16; 9] = saturn.keybuf.rows;
                    let mut rows_new: [u16; 9] = rows_in;
                    while k < 9
                        invariant
                            k <= 9,
                            forall|j: int| 0 <= j < k ==> rows_new@[j] == (rows_in@[j]
                                | 0x8000) as u16,
                            forall|j: int| k <= j < 9 ==> rows_new@[j] == rows_in@[j],
                        decreases 9 - k,
                    {
                        rows_new[k] = rows_in[k] | 0x8000;
                        k += 1;
                    }
                    saturn.keybuf = KeyState { rows: rows_new };
                    need = true;
                    proof {
                        assert(saturn.keybuf.rows@ =~= Seq::new(
                            9,
                            |j: int| (rows_in@[j] | 0x8000) as u16,
                        ));
                    }
                } else {
                    let row: u32 = keycode / 16;
                    let c: u16 = 1u16 << (keycode % 16);
                    if row < 9 {
                        let rv: u16 = saturn.keybuf.rows[row as usize];
                        if rv & c == 0 {
                            if saturn.kbd_ien != 0 {
                                need = true;
                            }
                            let mut rows_new: [u16; 9] = saturn.keybuf.rows;
                            rows_new[row as usize] = rv | c;
                            saturn.keybuf = KeyState { rows: rows_new };
                        }
                    }
                }
            } else {
                if keycode == 0x8000 {
                    saturn.keybuf = KeyState { rows: [0; 9] };
                    proof {
                        assert(saturn.keybuf.rows@ =~= Seq::new(9, |j: int| 0u16));
                    }
                } else {
                    let row: u32 = keycode / 16;
                    let c: u16 = 1u16 << (keycode % 16);
                    if row < 9 {
                        let rv: u16 = saturn.keybuf.rows[row as usize];
                        let mut rows_new: [u16; 9] = saturn.keybuf.rows;
                        rows_new[row as usize] = rv & !c;
                        saturn.keybuf = KeyState { rows: rows_new };
                    }
                }
            }
            i += 1;
        }
        self.event_queue = Vec::new();
        need
    }
}

} // verus!
