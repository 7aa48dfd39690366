//! Processor actions besides the ALU: program and hardware status bits,
//! register bit access, the return stack, memory-controller configuration,
//! address transfers and interrupt enables.

use vstd::prelude::*;
use crate::cpu::Saturn;
use crate::types::{Model, nib20, nibs5_val, get_nib20};
use crate::alu::RegId;

verus! {

/// Bit `b` (0 to 3) of the nibble `v`.
pub open spec fn bit_of(v: u8, b: int) -> int {
    if b == 0 {
        (v as int) % 2
    } else if b == 1 {
        ((v as int) / 2) % 2
    } else if b == 2 {
        ((v as int) / 4) % 2
    } else {
        ((v as int) / 8) % 2
    }
}

/// The nibble that program-status flags `4k` to `4k+3` assemble into.
pub open spec fn st_nibble(p: Seq<u8>, k: int) -> int {
    (if p[4 * k] != 0 { 1int } else { 0 }) + (if p[4 * k + 1] != 0 { 2int } else { 0 })
        + (if p[4 * k + 2] != 0 { 4int } else { 0 }) + (if p[4 * k + 3] != 0 { 8int } else { 0 })
}

/// The 20-bit configuration value assembled from the five low nibbles of C,
/// unmasked bytes OR-folded exactly as the hardware reads them.
pub open spec fn spec_config_value(c: Seq<u8>) -> u32 {
    ((((c[4] as u32) << 4 | (c[3] as u32)) << 4 | (c[2] as u32)) << 4 | (c[1] as u32)) << 4
        | (c[0] as u32)
}

/// The per-controller count of base writes a reset leaves outstanding.
pub open spec fn spec_conf_tab(i: int) -> i16 {
    if i == 0 {
        1
    } else if i == 5 {
        0
    } else {
        2
    }
}

/// Index of the first controller still awaiting configuration, or 6.
pub open spec fn spec_first_unconfigured(s: Saturn) -> int {
    if s.mem_cntl@[0].unconfigured != 0 {
        0
    } else if s.mem_cntl@[1].unconfigured != 0 {
        1
    } else if s.mem_cntl@[2].unconfigured != 0 {
        2
    } else if s.mem_cntl@[3].unconfigured != 0 {
        3
    } else if s.mem_cntl@[4].unconfigured != 0 {
        4
    } else if s.mem_cntl@[5].unconfigured != 0 {
        5
    } else {
        6
    }
}

/// Index of the first controller whose primary base equals `conf`, or 6.
pub open spec fn spec_first_configured_at(s: Saturn, conf: u32) -> int {
    if s.mem_cntl@[0].config@[0] == conf {
        0
    } else if s.mem_cntl@[1].config@[0] == conf {
        1
    } else if s.mem_cntl@[2].config@[0] == conf {
        2
    } else if s.mem_cntl@[3].config@[0] == conf {
        3
    } else if s.mem_cntl@[4].config@[0] == conf {
        4
    } else if s.mem_cntl@[5].config@[0] == conf {
        5
    } else {
        6
    }
}

/// The chip identification nibbles a partially configured controller
/// reports.
pub open spec fn spec_chip_id(k: int) -> u8 {
    if k == 4 {
        0x05
    } else if k == 5 {
        0xf6
    } else if k == 6 {
        0x07
    } else if k == 7 {
        0xf8
    } else if k == 8 {
        0x01
    } else if k == 9 {
        0xf2
    } else {
        0
    }
}

fn chip_id(k: usize) -> (r: u8)
    requires
        k < 12,
    ensures
        r == spec_chip_id(k as int),
{
    match k {
        4 => 0x05,
        5 => 0xf6,
        6 => 0x07,
        7 => 0xf8,
        8 => 0x01,
        9 => 0xf2,
        _ => 0,
    }
}

/// Two states with identical register fields index registers identically.
proof fn lemma_reg_seq_congr(a: Saturn, b: Saturn, id: RegId)
    requires
        a.a == b.a,
        a.b == b.b,
        a.c == b.c,
        a.d == b.d,
        a.r0 == b.r0,
        a.r1 == b.r1,
        a.r2 == b.r2,
        a.r3 == b.r3,
        a.r4 == b.r4,
    ensures
        a.reg_seq(id) == b.reg_seq(id),
        a.reg_arr(id) == b.reg_arr(id),
{
    match id {
        RegId::A => {}
        RegId::B => {}
        RegId::C => {}
        RegId::D => {}
        RegId::R0 => {}
        RegId::R1 => {}
        RegId::R2 => {}
        RegId::R3 => {}
        RegId::R4 => {}
    }
}

impl Saturn {
    // --- Program status ---

    /// Clears program-status flag `n`.
    pub fn clear_program_stat(&mut self, n: usize)
        requires
            n < 16,
        ensures
            *final(self) == (Saturn { pstat: final(self).pstat, ..*old(self) }),
            final(self).pstat@ == old(self).pstat@.update(n as int, 0u8),
    {
        self.pstat[n] = 0;
    }

    /// Sets program-status flag `n`.
    pub fn set_program_stat(&mut self, n: usize)
        requires
            n < 16,
        ensures
            *final(self) == (Saturn { pstat: final(self).pstat, ..*old(self) }),
            final(self).pstat@ == old(self).pstat@.update(n as int, 1u8),
    {
        self.pstat[n] = 1;
    }

    /// True iff program-status flag `n` is set.
    pub fn get_program_stat(&self, n: usize) -> (r: bool)
        requires
            n < 16,
        ensures
            r == (self.pstat@[n as int] != 0),
    {
        self.pstat[n] != 0
    }

    /// Loads the twelve program-status flags from the low twelve bits of
    /// register `r`.
    pub fn register_to_status(&mut self, r_idx: RegId)
        ensures
            *final(self) == (Saturn { pstat: final(self).pstat, ..*old(self) }),
            forall|i: int| 0 <= i < 12 ==> final(self).pstat@[i]
                == bit_of(old(self).reg_seq(r_idx)[i / 4], i % 4),
            forall|i: int| 12 <= i < 16 ==> final(self).pstat@[i] == old(self).pstat@[i],
    {
        let r: [u8; 16] = *self.get_reg(r_idx);
        let mut i: usize = 0;
        while i < 12
            invariant
                i <= 12,
                r@ == old(self).reg_seq(r_idx),
                *self == (Saturn { pstat: self.pstat, ..*old(self) }),
                forall|j: int| 0 <= j < i ==> self.pstat@[j] == bit_of(r@[j / 4], j % 4),
                forall|j: int| i <= j < 16 ==> self.pstat@[j] == old(self).pstat@[j],
            decreases 12 - i,
        {
            let b: usize = i % 4;
            let v: u8 = r[i / 4];
            let bit: u8 = match b {
                0 => v % 2,
                1 => (v / 2) % 2,
                2 => (v / 4) % 2,
                _ => (v / 8) % 2,
            };
            self.pstat[i] = bit;
            i += 1;
        }
    }

    /// Stores the twelve program-status flags into the low three nibbles of
    /// register `r`; each of those nibbles is rebuilt from its four flags.
    pub fn status_to_register(&mut self, r_idx: RegId)
        ensures
            *final(self) == old(self).with_reg_arr(r_idx, final(self).reg_arr(r_idx)),
            forall|k: int| 0 <= k < 3 ==> final(self).reg_seq(r_idx)[k]
                == st_nibble(old(self).pstat@, k) + (
                if old(self).pstat@[4 * k] != 0 && old(self).pstat@[4 * k + 1] != 0 && old(
                    self,
                ).pstat@[4 * k + 2] != 0 && old(self).pstat@[4 * k + 3] != 0 {
                    (old(self).reg_seq(r_idx)[k] / 16) * 16
                } else {
                    0
                }),
            forall|k: int| 3 <= k < 16 ==> final(self).reg_seq(r_idx)[k]
                == old(self).reg_seq(r_idx)[k],
            old(self).regs_valid() ==> final(self).regs_valid(),
            old(self).wf() ==> final(self).wf(),
    {
        let mut out: [u8; 16] = *self.get_reg(r_idx);
        let ghost x = out@;
        let mut k: usize = 0;
        while k < 3
            invariant
                k <= 3,
                forall|j: int| 0 <= j < k ==> out@[j] == st_nibble(old(self).pstat@, j) + (
                    if old(self).pstat@[4 * j] != 0 && old(self).pstat@[4 * j + 1] != 0 && old(
                        self,
                    ).pstat@[4 * j + 2] != 0 && old(self).pstat@[4 * j + 3] != 0 {
                        (x[j] / 16) * 16
                    } else {
                        0
                    }),
                forall|j: int| k <= j < 16 ==> out@[j] == x[j],
                *self == *old(self),
            decreases 3 - k,
        {
            let f0: bool = self.pstat[4 * k] != 0;
            let f1: bool = self.pstat[4 * k + 1] != 0;
            let f2: bool = self.pstat[4 * k + 2] != 0;
            let f3: bool = self.pstat[4 * k + 3] != 0;
            let low: u8 = (if f0 { 1u8 } else { 0u8 }) + (if f1 { 2u8 } else { 0u8 }) + (if f2 {
                4u8
            } else {
                0u8
            }) + (if f3 { 8u8 } else { 0u8 });
            let high: u8 = if f0 && f1 && f2 && f3 {
                (out[k] / 16) * 16
            } else {
                0
            };
            out[k] = low + high;
            k += 1;
        }
        self.set_reg(r_idx, out);
        proof {
            if old(self).regs_valid() {
                crate::alu::lemma_reg_seq_valid(*old(self), r_idx);
                assert forall|j: int| 0 <= j < 16 implies out@[j] < 16 by {
                    if j >= 3 {
                        assert(out@[j] == x[j]);
                    } else {
                        assert(x[j] < 16);
                        assert((x[j] / 16) * 16 == 0);
                    }
                };
                crate::alu::lemma_with_reg_valid(*old(self), r_idx, out);
                assert(self.regs_valid());
            }
        }
    }

    /// Exchanges the program-status flags with the low twelve bits of
    /// register `r`.
    pub fn swap_register_status(&mut self, r_idx: RegId)
        ensures
            *final(self) == (Saturn {
                pstat: final(self).pstat,
                ..old(self).with_reg_arr(r_idx, final(self).reg_arr(r_idx))
            }),
            forall|i: int| 0 <= i < 12 ==> final(self).pstat@[i]
                == bit_of(old(self).reg_seq(r_idx)[i / 4], i % 4),
            forall|i: int| 12 <= i < 16 ==> final(self).pstat@[i] == old(self).pstat@[i],
            forall|k: int| 0 <= k < 3 ==> final(self).reg_seq(r_idx)[k]
                == st_nibble(old(self).pstat@, k) + (
                if old(self).pstat@[4 * k] != 0 && old(self).pstat@[4 * k + 1] != 0 && old(
                    self,
                ).pstat@[4 * k + 2] != 0 && old(self).pstat@[4 * k + 3] != 0 {
                    (old(self).reg_seq(r_idx)[k] / 16) * 16
                } else {
                    0
                }),
            forall|k: int| 3 <= k < 16 ==> final(self).reg_seq(r_idx)[k]
                == old(self).reg_seq(r_idx)[k],
            old(self).regs_valid() ==> final(self).regs_valid(),
            old(self).wf() ==> final(self).wf(),
    {
        let ghost s0 = *self;
        let old_reg: [u8; 16] = *self.get_reg(r_idx);
        self.status_to_register(r_idx);
        let ghost s1 = *self;
        let mut i: usize = 0;
        while i < 12
            invariant
                i <= 12,
                old_reg@ == s0.reg_seq(r_idx),
                *self == (Saturn { pstat: self.pstat, ..s1 }),
                forall|j: int| 0 <= j < i ==> self.pstat@[j] == bit_of(old_reg@[j / 4], j % 4),
                forall|j: int| i <= j < 16 ==> self.pstat@[j] == s1.pstat@[j],
            decreases 12 - i,
        {
            let b: usize = i % 4;
            let v: u8 = old_reg[i / 4];
            let bit: u8 = match b {
                0 => v % 2,
                1 => (v / 2) % 2,
                2 => (v / 4) % 2,
                _ => (v / 8) % 2,
            };
            self.pstat[i] = bit;
            i += 1;
        }
        proof {
            lemma_reg_seq_congr(*self, s1, r_idx);
        }
    }

    /// Clears the twelve program-status flags.
    pub fn clear_status(&mut self)
        ensures
            *final(self) == (Saturn { pstat: final(self).pstat, ..*old(self) }),
            forall|i: int| 0 <= i < 12 ==> final(self).pstat@[i] == 0,
            forall|i: int| 12 <= i < 16 ==> final(self).pstat@[i] == old(self).pstat@[i],
    {
        let mut i: usize = 0;
        while i < 12
            invariant
                i <= 12,
                *self == (Saturn { pstat: self.pstat, ..*old(self) }),
                forall|j: int| 0 <= j < i ==> self.pstat@[j] == 0,
                forall|j: int| i <= j < 16 ==> self.pstat@[j] == old(self).pstat@[j],
            decreases 12 - i,
        {
            self.pstat[i] = 0;
            i += 1;
        }
    }

    // --- Register bit and nibble access ---

    /// Writes nibble `n` of register `r`.
    pub fn set_register_nibble(&mut self, r_idx: RegId, n: usize, val: u8)
        requires
            n < 16,
        ensures
            *final(self) == old(self).with_reg_arr(r_idx, final(self).reg_arr(r_idx)),
            final(self).reg_seq(r_idx) == old(self).reg_seq(r_idx).update(n as int, val),
            old(self).regs_valid() && val < 16 ==> final(self).regs_valid(),
            old(self).wf() ==> final(self).wf(),
    {
        let mut out: [u8; 16] = *self.get_reg(r_idx);
        out[n] = val;
        self.set_reg(r_idx, out);
        proof {
            assert(out@ == old(self).reg_seq(r_idx).update(n as int, val));
            if old(self).regs_valid() && val < 16 {
                crate::alu::lemma_reg_seq_valid(*old(self), r_idx);
                assert(forall|j: int| 0 <= j < 16 ==> out@[j] < 16);
                crate::alu::lemma_with_reg_valid(*old(self), r_idx, out);
                assert(self.regs_valid());
            }
        }
    }

    /// Reads nibble `n` of register `r`.
    pub fn get_register_nibble(&self, r_idx: RegId, n: usize) -> (r: u8)
        requires
            n < 16,
        ensures
            r == self.reg_seq(r_idx)[n as int],
    {
        self.get_reg(r_idx)[n]
    }

    /// Sets bit `n` of register `r` (bit `n % 4` of nibble `n / 4`).
    pub fn set_register_bit(&mut self, r_idx: RegId, n: usize)
        requires
            n < 64,
        ensures
            *final(self) == old(self).with_reg_arr(r_idx, final(self).reg_arr(r_idx)),
            ({
                let k = n as int / 4;
                let b = n as int % 4;
                let v = old(self).reg_seq(r_idx)[k];
                &&& final(self).reg_seq(r_idx)[k]
                    == v + (if bit_of(v, b) == 0 { pow2_4(b) } else { 0 })
                &&& forall|j: int| 0 <= j < 16 && j != k ==> final(self).reg_seq(r_idx)[j]
                    == old(self).reg_seq(r_idx)[j]
            }),
            old(self).regs_valid() ==> final(self).regs_valid(),
            old(self).wf() ==> final(self).wf(),
    {
        let k: usize = n / 4;
        let b: usize = n % 4;
        let mut out: [u8; 16] = *self.get_reg(r_idx);
        let v: u8 = out[k];
        let p: u8 = match b {
            0 => 1,
            1 => 2,
            2 => 4,
            _ => 8,
        };
        let bit: u8 = (v / p) % 2;
        out[k] = if bit == 0 {
            v + p
        } else {
            v
        };
        self.set_reg(r_idx, out);
        proof {
            if old(self).regs_valid() {
                crate::alu::lemma_reg_seq_valid(*old(self), r_idx);
                assert(forall|j: int| 0 <= j < 16 ==> out@[j] < 16);
                crate::alu::lemma_with_reg_valid(*old(self), r_idx, out);
                assert(self.regs_valid());
            }
        }
    }

    /// Clears bit `n` of register `r`.
    pub fn clear_register_bit(&mut self, r_idx: RegId, n: usize)
        requires
            n < 64,
        ensures
            *final(self) == old(self).with_reg_arr(r_idx, final(self).reg_arr(r_idx)),
            ({
                let k = n as int / 4;
                let b = n as int % 4;
                let v = old(self).reg_seq(r_idx)[k];
                &&& final(self).reg_seq(r_idx)[k]
                    == v - (if bit_of(v, b) == 1 { pow2_4(b) } else { 0 })
                &&& forall|j: int| 0 <= j < 16 && j != k ==> final(self).reg_seq(r_idx)[j]
                    == old(self).reg_seq(r_idx)[j]
            }),
            old(self).regs_valid() ==> final(self).regs_valid(),
            old(self).wf() ==> final(self).wf(),
    {
        let k: usize = n / 4;
        let b: usize = n % 4;
        let mut out: [u8; 16] = *self.get_reg(r_idx);
        let v: u8 = out[k];
        let p: u8 = match b {
            0 => 1,
            1 => 2,
            2 => 4,
            _ => 8,
        };
        let bit: u8 = (v / p) % 2;
        out[k] = if bit == 1 {
            v - p
        } else {
            v
        };
        self.set_reg(r_idx, out);
        proof {
            if old(self).regs_valid() {
                crate::alu::lemma_reg_seq_valid(*old(self), r_idx);
                assert(forall|j: int| 0 <= j < 16 ==> out@[j] < 16);
                crate::alu::lemma_with_reg_valid(*old(self), r_idx, out);
                assert(self.regs_valid());
            }
        }
    }

    /// True iff bit `n` of register `r` is set.
    pub fn get_register_bit(&self, r_idx: RegId, n: usize) -> (r: bool)
        requires
            n < 64,
        ensures
            r == (bit_of(self.reg_seq(r_idx)[n as int / 4], n as int % 4) == 1),
    {
        let k: usize = n / 4;
        let b: usize = n % 4;
        let v: u8 = self.get_reg(r_idx)[k];
        let p: u8 = match b {
            0 => 1,
            1 => 2,
            2 => 4,
            _ => 8,
        };
        (v / p) % 2 == 1
    }

    // --- Hardware status ---

    /// Sets the hardware-status bits whose mask bits are on in `op`.
    pub fn set_hardware_stat(&mut self, op: u8)
        ensures
            *final(self) == (Saturn {
                xm: if op & 1 != 0 { 1u8 } else { old(self).xm },
                sb: if op & 2 != 0 { 1u8 } else { old(self).sb },
                sr: if op & 4 != 0 { 1u8 } else { old(self).sr },
                mp: if op & 8 != 0 { 1u8 } else { old(self).mp },
                ..*old(self)
            }),
    {
        if op & 1 != 0 {
            self.xm = 1;
        }
        if op & 2 != 0 {
            self.sb = 1;
        }
        if op & 4 != 0 {
            self.sr = 1;
        }
        if op & 8 != 0 {
            self.mp = 1;
        }
    }

    /// Clears the hardware-status bits whose mask bits are on in `op`.
    pub fn clear_hardware_stat(&mut self, op: u8)
        ensures
            *final(self) == (Saturn {
                xm: if op & 1 != 0 { 0u8 } else { old(self).xm },
                sb: if op & 2 != 0 { 0u8 } else { old(self).sb },
                sr: if op & 4 != 0 { 0u8 } else { old(self).sr },
                mp: if op & 8 != 0 { 0u8 } else { old(self).mp },
                ..*old(self)
            }),
    {
        if op & 1 != 0 {
            self.xm = 0;
        }
        if op & 2 != 0 {
            self.sb = 0;
        }
        if op & 4 != 0 {
            self.sr = 0;
        }
        if op & 8 != 0 {
            self.mp = 0;
        }
    }

    /// True iff every hardware-status bit selected by `op` is zero.
    pub fn is_zero_hardware_stat(&self, op: u8) -> (r: bool)
        ensures
            r == !((op & 1 != 0 && self.xm != 0) || (op & 2 != 0 && self.sb != 0) || (op & 4 != 0
                && self.sr != 0) || (op & 8 != 0 && self.mp != 0)),
    {
        if op & 1 != 0 && self.xm != 0 {
            return false;
        }
        if op & 2 != 0 && self.sb != 0 {
            return false;
        }
        if op & 4 != 0 && self.sr != 0 {
            return false;
        }
        if op & 8 != 0 && self.mp != 0 {
            return false;
        }
        true
    }

    // --- Return stack ---

    /// Pushes a 20-bit return address.  When the stack is full the oldest
    /// entry is dropped and every other entry moves down one slot.
    pub fn push_return_addr(&mut self, addr: u32)
        requires
            -1 <= old(self).rstkp < 8,
        ensures
            *final(self) == (Saturn {
                rstk: final(self).rstk,
                rstkp: final(self).rstkp,
                ..*old(self)
            }),
            old(self).rstkp < 7 ==> {
                &&& final(self).rstkp == old(self).rstkp + 1
                &&& final(self).rstk@ == old(self).rstk@.update(
                    old(self).rstkp as int + 1,
                    (addr % 0x100000) as u32,
                )
            },
            old(self).rstkp == 7 ==> {
                &&& final(self).rstkp == 7
                &&& forall|i: int| 0 <= i < 7 ==> final(self).rstk@[i] == old(self).rstk@[i + 1]
                &&& final(self).rstk@[7] == addr % 0x100000
            },
            old(self).wf() ==> final(self).wf(),
    {
        let a: u32 = addr % 0x100000;
        if self.rstkp >= 7 {
            let mut i: usize = 1;
            while i < 8
                invariant
                    1 <= i <= 8,
                    *self == (Saturn { rstk: self.rstk, ..*old(self) }),
                    forall|j: int| 0 <= j < i - 1 ==> self.rstk@[j] == old(self).rstk@[j + 1],
                    forall|j: int| i - 1 <= j < 8 ==> self.rstk@[j] == old(self).rstk@[j],
                decreases 8 - i,
            {
                let v: u32 = self.rstk[i];
                self.rstk[i - 1] = v;
                i += 1;
            }
            self.rstk[7] = a;
        } else {
            let idx: usize = (self.rstkp + 1) as usize;
            self.rstkp = self.rstkp + 1;
            self.rstk[idx] = a;
        }
    }

    /// Pops the top return address, or 0 when the stack is empty.
    pub fn pop_return_addr(&mut self) -> (r: u32)
        requires
            old(self).rstkp < 8,
        ensures
            old(self).rstkp < 0 ==> r == 0 && *final(self) == *old(self),
            old(self).rstkp >= 0 ==> {
                &&& r == old(self).rstk@[old(self).rstkp as int]
                &&& *final(self) == (Saturn { rstkp: (old(self).rstkp - 1) as i16, ..*old(self) })
            },
            old(self).wf() ==> final(self).wf(),
            old(self).wf() ==> r < 0x100000,
    {
        if self.rstkp < 0 {
            return 0;
        }
        let addr: u32 = self.rstk[self.rstkp as usize];
        self.rstkp = self.rstkp - 1;
        addr
    }

    // --- Memory configuration ---

    /// Returns every controller to its model-specific reset state.
    pub fn do_reset(&mut self, model: Model)
        ensures
            *final(self) == (Saturn { mem_cntl: final(self).mem_cntl, ..*old(self) }),
            forall|i: int| 0 <= i < 6 ==> (#[trigger] final(self).mem_cntl@[i]).unconfigured
                == spec_conf_tab(i),
            forall|i: int| 0 <= i < 6 ==> (#[trigger] final(self).mem_cntl@[i]).config@[0] == 0,
            forall|i: int| 0 <= i < 6 ==> (#[trigger] final(self).mem_cntl@[i]).config@[1] == 0,
            old(self).wf() ==> final(self).wf(),
    {
        let _ = model;
        let mut i: usize = 0;
        while i < 6
            invariant
                i <= 6,
                *self == (Saturn { mem_cntl: self.mem_cntl, ..*old(self) }),
                forall|j: int| 0 <= j < i ==> (#[trigger] self.mem_cntl@[j]).unconfigured
                    == spec_conf_tab(j),
                forall|j: int| 0 <= j < i ==> (#[trigger] self.mem_cntl@[j]).config@[0] == 0,
                forall|j: int| 0 <= j < i ==> (#[trigger] self.mem_cntl@[j]).config@[1] == 0,
                forall|j: int| i <= j < 6 ==> self.mem_cntl@[j] == old(self).mem_cntl@[j],
            decreases 6 - i,
        {
            let tab: i16 = if i == 0 {
                1
            } else if i == 5 {
                0
            } else {
                2
            };
            self.mem_cntl[i].unconfigured = tab;
            self.mem_cntl[i].config[0] = 0;
            self.mem_cntl[i].config[1] = 0;
            i += 1;
        }
    }

    /// Applies a CONFIG instruction: the first controller still awaiting a
    /// base write takes the value assembled from C and its outstanding count
    /// drops by one.
    pub fn do_configure(&mut self)
        requires
            old(self).wf(),
        ensures
            ({
                let conf = spec_config_value(old(self).c@);
                let idx = spec_first_unconfigured(*old(self));
                &&& idx == 6 ==> *final(self) == *old(self)
                &&& idx < 6 ==> {
                    let m0 = old(self).mem_cntl@[idx];
                    let slot = m0.unconfigured - 1;
                    &&& *final(self) == (Saturn { mem_cntl: final(self).mem_cntl, ..*old(self) })
                    &&& final(self).mem_cntl@[idx].unconfigured == slot
                    &&& final(self).mem_cntl@[idx].config@[slot as int] == conf
                    &&& final(self).mem_cntl@[idx].config@[1 - slot as int]
                        == m0.config@[1 - slot as int]
                    &&& forall|j: int| 0 <= j < 6 && j != idx ==> final(self).mem_cntl@[j] == old(
                        self,
                    ).mem_cntl@[j]
                }
            }),
            final(self).wf(),
    {
        let conf: u32 = ((((self.c[4] as u32) << 4 | (self.c[3] as u32)) << 4 | (
        self.c[2] as u32)) << 4 | (self.c[1] as u32)) << 4 | (self.c[0] as u32);
        let mut i: usize = 0;
        while i < 6
            invariant
                i <= 6,
                *self == *old(self),
                old(self).wf(),
                conf == spec_config_value(old(self).c@),
                forall|j: int| 0 <= j < i ==> (#[trigger] old(self).mem_cntl@[j]).unconfigured
                    == 0,
            decreases 6 - i,
        {
            if self.mem_cntl[i].unconfigured != 0 {
                proof {
                    assert(spec_first_unconfigured(*old(self)) == i as int);
                }
                let slot: usize = (self.mem_cntl[i].unconfigured - 1) as usize;
                self.mem_cntl[i].unconfigured = self.mem_cntl[i].unconfigured - 1;
                self.mem_cntl[i].config[slot] = conf;
                return ;
            }
            i += 1;
        }
        proof {
            assert(spec_first_unconfigured(*old(self)) == 6);
        }
    }

    /// Applies an UNCNFG instruction: the first controller whose primary
    /// base matches the value assembled from C returns to its reset state.
    pub fn do_unconfigure(&mut self, model: Model)
        requires
            old(self).wf(),
        ensures
            ({
                let conf = spec_config_value(old(self).c@);
                let idx = spec_first_configured_at(*old(self), conf);
                &&& idx == 6 ==> *final(self) == *old(self)
                &&& idx < 6 ==> {
                    &&& *final(self) == (Saturn { mem_cntl: final(self).mem_cntl, ..*old(self) })
                    &&& final(self).mem_cntl@[idx].unconfigured == spec_conf_tab(idx)
                    &&& final(self).mem_cntl@[idx].config@[0] == 0
                    &&& final(self).mem_cntl@[idx].config@[1] == 0
                    &&& forall|j: int| 0 <= j < 6 && j != idx ==> final(self).mem_cntl@[j] == old(
                        self,
                    ).mem_cntl@[j]
                }
            }),
            final(self).wf(),
    {
        let _ = model;
        let conf: u32 = ((((self.c[4] as u32) << 4 | (self.c[3] as u32)) << 4 | (
        self.c[2] as u32)) << 4 | (self.c[1] as u32)) << 4 | (self.c[0] as u32);
        let mut i: usize = 0;
        while i < 6
            invariant
                i <= 6,
                *self == *old(self),
                old(self).wf(),
                conf == spec_config_value(old(self).c@),
                forall|j: int| 0 <= j < i ==> (#[trigger] old(self).mem_cntl@[j]).config@[0]
                    != conf,
            decreases 6 - i,
        {
            if self.mem_cntl[i].config[0] == conf {
                proof {
                    assert(spec_first_configured_at(*old(self), conf) == i as int);
                }
                let tab: i16 = if i == 0 {
                    1
                } else if i == 5 {
                    0
                } else {
                    2
                };
                self.mem_cntl[i].unconfigured = tab;
                self.mem_cntl[i].config[0] = 0;
                self.mem_cntl[i].config[1] = 0;
                return ;
            }
            i += 1;
        }
        proof {
            assert(spec_first_configured_at(*old(self), spec_config_value(old(self).c@)) == 6);
        }
    }

    /// Answers a C=ID instruction: writes the chip identification of the
    /// first partially configured controller into the low three nibbles of
    /// C and returns 0.
    pub fn get_identification(&mut self) -> (r: i32)
        requires
            old(self).wf(),
        ensures
            r == 0,
            *final(self) == (Saturn { c: final(self).c, ..*old(self) }),
            ({
                let idx = spec_first_unconfigured(*old(self));
                let id = if idx < 6 {
                    spec_chip_id(2 * idx + 2 - old(self).mem_cntl@[idx].unconfigured as int)
                } else {
                    0
                };
                &&& final(self).c@[0] == (id as int) % 16
                &&& final(self).c@[1] == ((id as int) / 16) % 16
                &&& final(self).c@[2] == ((id as int) / 256) % 16
                &&& forall|j: int| 3 <= j < 16 ==> final(self).c@[j] == old(self).c@[j]
            }),
            old(self).regs_valid() ==> final(self).regs_valid(),
            final(self).wf(),
    {
        let mut i: usize = 0;
        while i < 6 && self.mem_cntl[i].unconfigured == 0
            invariant
                i <= 6,
                *self == *old(self),
                old(self).wf(),
                forall|j: int| 0 <= j < i ==> (#[trigger] old(self).mem_cntl@[j]).unconfigured
                    == 0,
            decreases 6 - i,
        {
            i += 1;
        }
        proof {
            assert(spec_first_unconfigured(*old(self)) == if i < 6 { i as int } else { 6 });
        }
        let id: u8 = if i < 6 {
            let u: usize = self.mem_cntl[i].unconfigured as usize;
            chip_id(2 * i + 2 - u)
        } else {
            0
        };
        let idw: u16 = id as u16;
        self.c[0] = (idw % 16) as u8;
        self.c[1] = ((idw / 16) % 16) as u8;
        self.c[2] = ((idw / 256) % 16) as u8;
        0
    }

    // --- Address operations ---

    /// Copies the low four (short) or five nibbles of register `r`, masked
    /// to 4 bits each, into D0 or D1.
    pub fn register_to_address(&mut self, r_idx: RegId, d_sel: u8, short: bool)
        ensures
            ({
                let n: int = if short { 4 } else { 5 };
                let x = old(self).reg_seq(r_idx);
                let d_old = if d_sel == 0 { old(self).d0 } else { old(self).d1 };
                let d_new = if d_sel == 0 { final(self).d0 } else { final(self).d1 };
                &&& *final(self) == (Saturn {
                    d0: final(self).d0,
                    d1: final(self).d1,
                    ..*old(self)
                })
                &&& (if d_sel == 0 { final(self).d1 == old(self).d1 } else {
                    final(self).d0 == old(self).d0
                })
                &&& d_new == nibs5_val(
                    Seq::new(5, |j: int| if j < n { (x[j] % 16) as u8 } else {
                        nib20(d_old, j) as u8
                    }),
                )
                &&& d_new < 0x100000
            }),
            old(self).wf() ==> final(self).wf(),
    {
        let x: [u8; 16] = *self.get_reg(r_idx);
        let d: u32 = if d_sel == 0 {
            self.d0
        } else {
            self.d1
        };
        let n4: u8 = if short {
            get_nib20(d, 4)
        } else {
            x[4] % 16
        };
        let d_new: u32 = (x[0] % 16) as u32 + 16 * (x[1] % 16) as u32 + 0x100 * (x[2] % 16) as u32
            + 0x1000 * (x[3] % 16) as u32 + 0x10000 * n4 as u32;
        proof {
            let n: int = if short { 4 } else { 5 };
            let target = Seq::new(5, |j: int| if j < n { (x@[j] % 16) as u8 } else {
                nib20(d, j) as u8
            });
            assert(d_new == nibs5_val(target));
        }
        if d_sel == 0 {
            self.d0 = d_new;
        } else {
            self.d1 = d_new;
        }
    }

    /// Copies the low four (short) or five nibbles of D0 or D1 into the low
    /// nibbles of register `r`.
    pub fn address_to_register(&mut self, d_sel: u8, r_idx: RegId, short: bool)
        ensures
            ({
                let n: int = if short { 4 } else { 5 };
                let d = if d_sel == 0 { old(self).d0 } else { old(self).d1 };
                &&& *final(self) == old(self).with_reg_arr(r_idx, final(self).reg_arr(r_idx))
                &&& forall|j: int| 0 <= j < n ==> final(self).reg_seq(r_idx)[j] == nib20(d, j)
                &&& forall|j: int| n <= j < 16 ==> final(self).reg_seq(r_idx)[j] == old(
                    self,
                ).reg_seq(r_idx)[j]
            }),
            old(self).regs_valid() ==> final(self).regs_valid(),
            old(self).wf() ==> final(self).wf(),
    {
        let d: u32 = if d_sel == 0 {
            self.d0
        } else {
            self.d1
        };
        let n: usize = if short {
            4
        } else {
            5
        };
        let mut out: [u8; 16] = *self.get_reg(r_idx);
        let ghost x = out@;
        let mut i: usize = 0;
        while i < n
            invariant
                n <= 5,
                i <= n,
                forall|j: int| 0 <= j < i ==> out@[j] == nib20(d, j),
                forall|j: int| 0 <= j < i ==> out@[j] < 16,
                forall|j: int| i <= j < 16 ==> out@[j] == x[j],
            decreases n - i,
        {
            out[i] = get_nib20(d, i);
            i += 1;
        }
        self.set_reg(r_idx, out);
        proof {
            if old(self).regs_valid() {
                crate::alu::lemma_reg_seq_valid(*old(self), r_idx);
                assert forall|j: int| 0 <= j < 16 implies out@[j] < 16 by {
                    if j >= i {
                        assert(out@[j] == x[j]);
                    }
                };
                crate::alu::lemma_with_reg_valid(*old(self), r_idx, out);
                assert(self.regs_valid());
            }
        }
    }

    /// Adds the signed amount to D0 or D1 modulo 2^20; carry records
    /// whether the sum left the 20-bit range before wrapping.
    pub fn add_address(&mut self, d_sel: u8, amount: i32)
        ensures
            ({
                let d = if d_sel == 0 { old(self).d0 } else { old(self).d1 };
                let t = d + amount;
                let wrapped = ((t % 0x100000) + 0x100000) % 0x100000;
                let d_new = if d_sel == 0 { final(self).d0 } else { final(self).d1 };
                &&& *final(self) == (Saturn {
                    d0: final(self).d0,
                    d1: final(self).d1,
                    carry: final(self).carry,
                    ..*old(self)
                })
                &&& (if d_sel == 0 { final(self).d1 == old(self).d1 } else {
                    final(self).d0 == old(self).d0
                })
                &&& d_new == wrapped
                &&& d_new < 0x100000
                &&& final(self).carry == (if t < 0 || t > 0xfffff { 1u8 } else { 0u8 })
            }),
            old(self).wf() ==> final(self).wf(),
    {
        let d: u32 = if d_sel == 0 {
            self.d0
        } else {
            self.d1
        };
        let t: i64 = d as i64 + amount as i64;
        self.carry = if t < 0 || t > 0xfffff {
            1
        } else {
            0
        };
        let wrapped: i64 = ((t % 0x100000) + 0x100000) % 0x100000;
        let d_new: u32 = wrapped as u32;
        if d_sel == 0 {
            self.d0 = d_new;
        } else {
            self.d1 = d_new;
        }
    }

    /// Assembles a 20-bit address from the low five nibbles of a register
    /// image, each masked to 4 bits.
    pub fn dat_to_addr(dat: &[u8; 16]) -> (r: u32)
        ensures
            r == nibs5_val(Seq::new(5, |j: int| (dat@[j] % 16) as u8)),
            r < 0x100000,
    {
        let r: u32 = (dat[0] % 16) as u32 + 16 * (dat[1] % 16) as u32 + 0x100 * (
        dat[2] % 16) as u32 + 0x1000 * (dat[3] % 16) as u32 + 0x10000 * (dat[4] % 16) as u32;
        proof {
            assert(r == nibs5_val(Seq::new(5, |j: int| (dat@[j] % 16) as u8)));
        }
        r
    }

    /// Spreads a 20-bit address over the low five nibbles of a register
    /// image; the other nibbles stay.
    pub fn addr_to_dat(addr: u32, dat: &mut [u8; 16])
        ensures
            forall|j: int| 0 <= j < 5 ==> final(dat)@[j] == nib20(addr, j),
            forall|j: int| 5 <= j < 16 ==> final(dat)@[j] == old(dat)@[j],
    {
        let mut i: usize = 0;
        while i < 5
            invariant
                i <= 5,
                forall|j: int| 0 <= j < i ==> dat@[j] == nib20(addr, j),
                forall|j: int| i <= j < 16 ==> dat@[j] == old(dat)@[j],
            decreases 5 - i,
        {
            dat[i] = get_nib20(addr, i);
            i += 1;
        }
    }

    // --- Interrupt control ---

    /// Enables the keyboard interrupt (INTON).
    pub fn do_inton(&mut self)
        ensures
            *final(self) == (Saturn { kbd_ien: 1u8, ..*old(self) }),
    {
        self.kbd_ien = 1;
    }

    /// Disables the keyboard interrupt (INTOFF).
    pub fn do_intoff(&mut self)
        ensures
            *final(self) == (Saturn { kbd_ien: 0u8, ..*old(self) }),
    {
        self.kbd_ien = 0;
    }
}

/// `2^b` for the four bit positions of a nibble.
pub open spec fn pow2_4(b: int) -> int {
    if b == 0 {
        1
    } else if b == 1 {
        2
    } else if b == 2 {
        4
    } else {
        8
    }
}

// ---------------------------------------------------------------------------
// Return-stack law
// ---------------------------------------------------------------------------

/// A push followed by a pop returns exactly the pushed address (masked to
/// 20 bits) and restores the stack pointer, whether or not the push
/// overflowed.  `s1` is the state after pushing `addr` onto `s0`, and the
/// popped value from `s1` is `r` leaving `s2`.
pub proof fn lemma_push_pop_top(s0: Saturn, addr: u32, s1: Saturn, s2: Saturn, r: u32)
    requires
        -1 <= s0.rstkp < 8,
        // push postcondition
        s1 == (Saturn { rstk: s1.rstk, rstkp: s1.rstkp, ..s0 }),
        s0.rstkp < 7 ==> s1.rstkp == s0.rstkp + 1 && s1.rstk@ == s0.rstk@.update(
            s0.rstkp as int + 1,
            (addr % 0x100000) as u32,
        ),
        s0.rstkp == 7 ==> s1.rstkp == 7 && (forall|i: int| 0 <= i < 7 ==> s1.rstk@[i]
            == s0.rstk@[i + 1]) && s1.rstk@[7] == addr % 0x100000,
        // pop postcondition
        s1.rstkp >= 0 ==> r == s1.rstk@[s1.rstkp as int] && s2 == (Saturn {
            rstkp: (s1.rstkp - 1) as i16,
            ..s1
        }),
        s1.rstkp < 0 ==> r == 0 && s2 == s1,
    ensures
        r == addr % 0x100000,
        s2.rstkp == if s0.rstkp == 7 {
            6int
        } else {
            s0.rstkp as int
        },
{
}

} // verus!
