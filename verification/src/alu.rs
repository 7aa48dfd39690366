//! Nibble-field ALU over the Saturn working and scratch registers.
//!
//! Every operation works on the window `[start, end]` of nibble indices that a
//! field code selects, lowest nibble first.  Arithmetic carries per nibble
//! modulo `hexmode` (10 or 16); the contracts state each produced digit by a
//! carry recurrence over the operand windows.

use vstd::prelude::*;
use crate::cpu::Saturn;
use crate::types::{get_nib20, nib20, nibs5_val};

verus! {

/// Identifies one of the nine 16-nibble registers, so that operations can
/// name two registers without holding two mutable borrows into the state.
#[derive(Clone, Copy, PartialEq, Eq, Structural, Debug)]
pub enum RegId {
    A,
    B,
    C,
    D,
    R0,
    R1,
    R2,
    R3,
    R4,
}

impl Saturn {
    /// The nibbles of register `id`.
    pub open spec fn reg_seq(self, id: RegId) -> Seq<u8> {
        match id {
            RegId::A => self.a@,
            RegId::B => self.b@,
            RegId::C => self.c@,
            RegId::D => self.d@,
            RegId::R0 => self.r0@,
            RegId::R1 => self.r1@,
            RegId::R2 => self.r2@,
            RegId::R3 => self.r3@,
            RegId::R4 => self.r4@,
        }
    }

    /// Register `id` as an array value.
    pub open spec fn reg_arr(self, id: RegId) -> [u8; 16] {
        match id {
            RegId::A => self.a,
            RegId::B => self.b,
            RegId::C => self.c,
            RegId::D => self.d,
            RegId::R0 => self.r0,
            RegId::R1 => self.r1,
            RegId::R2 => self.r2,
            RegId::R3 => self.r3,
            RegId::R4 => self.r4,
        }
    }

    /// The state with register `id` replaced by `v` and all else unchanged.
    pub open spec fn with_reg_arr(self, id: RegId, v: [u8; 16]) -> Saturn {
        match id {
            RegId::A => Saturn { a: v, ..self },
            RegId::B => Saturn { b: v, ..self },
            RegId::C => Saturn { c: v, ..self },
            RegId::D => Saturn { d: v, ..self },
            RegId::R0 => Saturn { r0: v, ..self },
            RegId::R1 => Saturn { r1: v, ..self },
            RegId::R2 => Saturn { r2: v, ..self },
            RegId::R3 => Saturn { r3: v, ..self },
            RegId::R4 => Saturn { r4: v, ..self },
        }
    }

    pub fn get_reg(&self, id: RegId) -> (r: &[u8; 16])
        ensures
            r@ == self.reg_seq(id),
            *r == self.reg_arr(id),
    {
        match id {
            RegId::A => &self.a,
            RegId::B => &self.b,
            RegId::C => &self.c,
            RegId::D => &self.d,
            RegId::R0 => &self.r0,
            RegId::R1 => &self.r1,
            RegId::R2 => &self.r2,
            RegId::R3 => &self.r3,
            RegId::R4 => &self.r4,
        }
    }

    pub fn set_reg(&mut self, id: RegId, v: [u8; 16])
        ensures
            *final(self) == old(self).with_reg_arr(id, v),
            final(self).reg_seq(id) == v@,
    {
        match id {
            RegId::A => { self.a = v; }
            RegId::B => { self.b = v; }
            RegId::C => { self.c = v; }
            RegId::D => { self.d = v; }
            RegId::R0 => { self.r0 = v; }
            RegId::R1 => { self.r1 = v; }
            RegId::R2 => { self.r2 = v; }
            RegId::R3 => { self.r3 = v; }
            RegId::R4 => { self.r4 = v; }
        }
    }
}

// ---------------------------------------------------------------------------
// Field windows
// ---------------------------------------------------------------------------

/// First nibble index of the window that `code` selects when P holds `p`.
pub open spec fn spec_start(code: u8, p: u8) -> int {
    let c = code as int;
    if c == 0 || c == 8 {
        p as int
    } else if c == 2 || c == 10 {
        2
    } else if c == 4 || c == 12 {
        15
    } else if c == 5 || c == 13 {
        3
    } else {
        0
    }
}

/// Last nibble index of the window that `code` selects when P holds `p`.
pub open spec fn spec_end(code: u8, p: u8) -> int {
    let c = code as int;
    if c == 0 || c == 1 || c == 8 || c == 9 {
        p as int
    } else if c == 2 || c == 3 || c == 10 || c == 11 {
        2
    } else if c == 4 || c == 12 {
        15
    } else if c == 5 || c == 13 {
        14
    } else if c == 6 || c == 14 {
        1
    } else if c == 7 {
        15
    } else if c == 15 {
        4
    } else if c == 16 {
        3
    } else if c == 17 {
        2
    } else {
        0
    }
}

pub fn get_start(code: u8, p: u8) -> (r: usize)
    requires
        code < 19,
        p < 16,
    ensures
        r == spec_start(code, p),
        r < 16,
{
    match code {
        0 | 8 => p as usize,
        2 | 10 => 2,
        4 | 12 => 15,
        5 | 13 => 3,
        _ => 0,
    }
}

pub fn get_end(code: u8, p: u8) -> (r: usize)
    requires
        code < 19,
        p < 16,
    ensures
        r == spec_end(code, p),
        r < 16,
        spec_start(code, p) <= r,
{
    match code {
        0 | 1 | 8 | 9 => p as usize,
        2 | 3 | 10 | 11 => 2,
        4 | 12 => 15,
        5 | 13 => 14,
        6 | 14 => 1,
        7 => 15,
        15 => 4,
        16 => 3,
        17 => 2,
        _ => 0,
    }
}

/// Every nibble of register `id` is below 16 in a state whose registers are
/// all valid.
pub proof fn lemma_reg_seq_valid(s: Saturn, id: RegId)
    requires
        s.regs_valid(),
    ensures
        forall|i: int| 0 <= i < 16 ==> s.reg_seq(id)[i] < 16,
{
    match id {
        RegId::A => assert(s.reg_seq(id) == s.a@),
        RegId::B => assert(s.reg_seq(id) == s.b@),
        RegId::C => assert(s.reg_seq(id) == s.c@),
        RegId::D => assert(s.reg_seq(id) == s.d@),
        RegId::R0 => assert(s.reg_seq(id) == s.r0@),
        RegId::R1 => assert(s.reg_seq(id) == s.r1@),
        RegId::R2 => assert(s.reg_seq(id) == s.r2@),
        RegId::R3 => assert(s.reg_seq(id) == s.r3@),
        RegId::R4 => assert(s.reg_seq(id) == s.r4@),
    }
}

/// Replacing one register by an array of valid nibbles keeps all registers
/// valid.
pub proof fn lemma_with_reg_valid(s: Saturn, id: RegId, v: [u8; 16])
    requires
        s.regs_valid(),
        forall|i: int| 0 <= i < 16 ==> v@[i] < 16,
    ensures
        s.with_reg_arr(id, v).regs_valid(),
{
    match id {
        RegId::A => assert(s.with_reg_arr(id, v).a@ == v@),
        RegId::B => assert(s.with_reg_arr(id, v).b@ == v@),
        RegId::C => assert(s.with_reg_arr(id, v).c@ == v@),
        RegId::D => assert(s.with_reg_arr(id, v).d@ == v@),
        RegId::R0 => assert(s.with_reg_arr(id, v).r0@ == v@),
        RegId::R1 => assert(s.with_reg_arr(id, v).r1@ == v@),
        RegId::R2 => assert(s.with_reg_arr(id, v).r2@ == v@),
        RegId::R3 => assert(s.with_reg_arr(id, v).r3@ == v@),
        RegId::R4 => assert(s.with_reg_arr(id, v).r4@ == v@),
    }
}

// ---------------------------------------------------------------------------
// Digit recurrences
// ---------------------------------------------------------------------------

/// Carry into absolute nibble position `i` when adding the windows of `x` and
/// `y` that start at `s`, carrying per digit at modulus `m`.
pub open spec fn add_carry_in(m: int, x: Seq<u8>, y: Seq<u8>, s: int, i: int) -> int
    decreases i - s,
{
    if i <= s {
        0
    } else if x[i - 1] + y[i - 1] + add_carry_in(m, x, y, s, i - 1) >= m {
        1
    } else {
        0
    }
}

/// Result digit at position `i` of the windowed addition.
pub open spec fn add_digit(m: int, x: Seq<u8>, y: Seq<u8>, s: int, i: int) -> int {
    let t = x[i] + y[i] + add_carry_in(m, x, y, s, i);
    if t < m {
        t % 16
    } else {
        (t - m) % 16
    }
}

/// Borrow into absolute nibble position `i` when subtracting the window of
/// `y` from that of `x`.
pub open spec fn sub_borrow_in(m: int, x: Seq<u8>, y: Seq<u8>, s: int, i: int) -> int
    decreases i - s,
{
    if i <= s {
        0
    } else if x[i - 1] - y[i - 1] - sub_borrow_in(m, x, y, s, i - 1) < 0 {
        1
    } else {
        0
    }
}

/// Result digit at position `i` of the windowed subtraction.
pub open spec fn sub_digit(m: int, x: Seq<u8>, y: Seq<u8>, s: int, i: int) -> int {
    let t = x[i] - y[i] - sub_borrow_in(m, x, y, s, i);
    if t >= 0 {
        t % 16
    } else {
        (t + m) % 16
    }
}

impl Saturn {
    /// `dst := a + b` over the field window, carrying per nibble at modulus
    /// `hexmode`; the carry flag records the carry out of the top nibble.
    pub fn add_register(&mut self, res_idx: RegId, r1_idx: RegId, r2_idx: RegId, code: u8)
        requires
            code < 19,
            old(self).p < 16,
        ensures
            ({
                let s = spec_start(code, old(self).p);
                let e = spec_end(code, old(self).p);
                let m = old(self).hexmode as int;
                let x = old(self).reg_seq(r1_idx);
                let y = old(self).reg_seq(r2_idx);
                &&& *final(self) == Saturn {
                    carry: final(self).carry,
                    ..old(self).with_reg_arr(res_idx, final(self).reg_arr(res_idx))
                }
                &&& forall|j: int| s <= j <= e ==> final(self).reg_seq(res_idx)[j]
                    == add_digit(m, x, y, s, j)
                &&& forall|j: int| 0 <= j < 16 && !(s <= j <= e)
                    ==> final(self).reg_seq(res_idx)[j] == old(self).reg_seq(res_idx)[j]
                &&& final(self).carry
                    == (if add_carry_in(m, x, y, s, e + 1) != 0 { 1u8 } else { 0u8 })
            }),
            old(self).regs_valid() ==> final(self).regs_valid(),
            old(self).wf() ==> final(self).wf(),
    {
        let s = get_start(code, self.p);
        let e = get_end(code, self.p);
        let m: u16 = self.hexmode as u16;
        let x: [u8; 16] = *self.get_reg(r1_idx);
        let y: [u8; 16] = *self.get_reg(r2_idx);
        let mut out: [u8; 16] = *self.get_reg(res_idx);
        let ghost out0 = out@;
        let mut c: u16 = 0;
        let mut i: usize = s;
        while i <= e
            invariant
                s <= i <= e + 1,
                e < 16,
                c <= 1,
                m <= 255,
                c == add_carry_in(m as int, x@, y@, s as int, i as int),
                forall|j: int| s <= j < i ==> out@[j] == add_digit(m as int, x@, y@, s as int, j),
                forall|j: int| s <= j < i ==> out@[j] < 16,
                forall|j: int| 0 <= j < 16 && !(s <= j < i) ==> out@[j] == out0[j],
            decreases 16 - i,
        {
            let t: u16 = x[i] as u16 + y[i] as u16 + c;
            if t < m {
                out[i] = (t % 16) as u8;
                c = 0;
            } else {
                out[i] = ((t - m) % 16) as u8;
                c = 1;
            }
            i += 1;
        }
        self.set_reg(res_idx, out);
        self.carry = if c != 0 { 1 } else { 0 };
        proof {
            if old(self).regs_valid() {
                lemma_reg_seq_valid(*old(self), res_idx);
                assert forall|j: int| 0 <= j < 16 implies out@[j] < 16 by {
                    if !(s <= j < i) {
                        assert(out@[j] == out0[j]);
                        assert(old(self).reg_seq(res_idx)[j] < 16);
                    }
                };
                lemma_with_reg_valid(*old(self), res_idx, out);
                assert(self.regs_valid());
            }
        }
    }

    /// `dst := a - b` over the field window, borrowing per nibble at modulus
    /// `hexmode`; the carry flag records the borrow out of the top nibble.
    pub fn sub_register(&mut self, res_idx: RegId, r1_idx: RegId, r2_idx: RegId, code: u8)
        requires
            code < 19,
            old(self).p < 16,
        ensures
            ({
                let s = spec_start(code, old(self).p);
                let e = spec_end(code, old(self).p);
                let m = old(self).hexmode as int;
                let x = old(self).reg_seq(r1_idx);
                let y = old(self).reg_seq(r2_idx);
                &&& *final(self) == Saturn {
                    carry: final(self).carry,
                    ..old(self).with_reg_arr(res_idx, final(self).reg_arr(res_idx))
                }
                &&& forall|j: int| s <= j <= e ==> final(self).reg_seq(res_idx)[j]
                    == sub_digit(m, x, y, s, j)
                &&& forall|j: int| 0 <= j < 16 && !(s <= j <= e)
                    ==> final(self).reg_seq(res_idx)[j] == old(self).reg_seq(res_idx)[j]
                &&& final(self).carry
                    == (if sub_borrow_in(m, x, y, s, e + 1) != 0 { 1u8 } else { 0u8 })
            }),
            old(self).regs_valid() ==> final(self).regs_valid(),
            old(self).wf() ==> final(self).wf(),
    {
        let s = get_start(code, self.p);
        let e = get_end(code, self.p);
        let m: u16 = self.hexmode as u16;
        let x: [u8; 16] = *self.get_reg(r1_idx);
        let y: [u8; 16] = *self.get_reg(r2_idx);
        let mut out: [u8; 16] = *self.get_reg(res_idx);
        let ghost out0 = out@;
        let mut c: u16 = 0;
        let mut i: usize = s;
        while i <= e
            invariant
                s <= i <= e + 1,
                e < 16,
                c <= 1,
                m <= 255,
                c == sub_borrow_in(m as int, x@, y@, s as int, i as int),
                forall|j: int| s <= j < i ==> out@[j] == sub_digit(m as int, x@, y@, s as int, j),
                forall|j: int| s <= j < i ==> out@[j] < 16,
                forall|j: int| 0 <= j < 16 && !(s <= j < i) ==> out@[j] == out0[j],
            decreases 16 - i,
        {
            let xi: u16 = x[i] as u16;
            let yc: u16 = y[i] as u16 + c;
            if xi >= yc {
                let t: u16 = xi - yc;
                out[i] = (t % 16) as u8;
                c = 0;
            } else {
                // The digit value is (x - y - borrow + m) taken modulo 16;
                // 512 is a multiple of 16 added to stay in unsigned range.
                let t: u16 = xi + 512 + m - yc;
                proof {
                    lemma_mod16_plus_512(xi as int - yc as int + m as int);
                }
                out[i] = (t % 16) as u8;
                c = 1;
            }
            i += 1;
        }
        self.set_reg(res_idx, out);
        self.carry = if c != 0 { 1 } else { 0 };
        proof {
            if old(self).regs_valid() {
                lemma_reg_seq_valid(*old(self), res_idx);
                assert forall|j: int| 0 <= j < 16 implies out@[j] < 16 by {
                    if !(s <= j < i) {
                        assert(out@[j] == out0[j]);
                        assert(old(self).reg_seq(res_idx)[j] < 16);
                    }
                };
                lemma_with_reg_valid(*old(self), res_idx, out);
                assert(self.regs_valid());
            }
        }
    }
}

// ---------------------------------------------------------------------------
// Propagate-until-absorbed recurrences (inc, dec, constant add/sub)
// ---------------------------------------------------------------------------

/// Carry into position `i` when adding the initial value `v` at position `s`
/// and propagating upward; propagation stops for good at the first position
/// past `s` whose incoming carry is zero.
pub open spec fn prop_add_carry(m: int, x: Seq<u8>, s: int, i: int, v: int) -> int
    decreases i - s,
{
    if i <= s {
        v
    } else {
        let p = prop_add_carry(m, x, s, i - 1, v);
        if i - 1 > s && p == 0 {
            0
        } else if x[i - 1] + p >= m {
            1
        } else {
            0
        }
    }
}

/// Whether position `i` is still reached by the propagating addition.
pub open spec fn prop_add_active(m: int, x: Seq<u8>, s: int, i: int, v: int) -> bool {
    i == s || prop_add_carry(m, x, s, i, v) != 0
}

/// Result digit at position `i` of the propagating addition.
pub open spec fn prop_add_digit(m: int, x: Seq<u8>, s: int, i: int, v: int) -> int {
    if prop_add_active(m, x, s, i, v) {
        let t = x[i] + prop_add_carry(m, x, s, i, v);
        if t < m {
            t % 16
        } else {
            (t - m) % 16
        }
    } else {
        x[i] as int
    }
}

/// Once the propagating addition's carry dies out it stays dead.
pub proof fn lemma_prop_add_carry_stays_zero(m: int, x: Seq<u8>, s: int, i: int, j: int, v: int)
    requires
        s < i <= j,
        prop_add_carry(m, x, s, i, v) == 0,
    ensures
        prop_add_carry(m, x, s, j, v) == 0,
    decreases j - i,
{
    if j > i {
        lemma_prop_add_carry_stays_zero(m, x, s, i, j - 1, v);
    }
}

/// Borrow into position `i` when subtracting the initial value `v` at
/// position `s` and propagating upward with early absorption.
pub open spec fn prop_sub_borrow(m: int, x: Seq<u8>, s: int, i: int, v: int) -> int
    decreases i - s,
{
    if i <= s {
        v
    } else {
        let p = prop_sub_borrow(m, x, s, i - 1, v);
        if i - 1 > s && p == 0 {
            0
        } else if x[i - 1] - p < 0 {
            1
        } else {
            0
        }
    }
}

/// Whether position `i` is still reached by the propagating subtraction.
pub open spec fn prop_sub_active(m: int, x: Seq<u8>, s: int, i: int, v: int) -> bool {
    i == s || prop_sub_borrow(m, x, s, i, v) != 0
}

/// Result digit at position `i` of the propagating subtraction.
pub open spec fn prop_sub_digit(m: int, x: Seq<u8>, s: int, i: int, v: int) -> int {
    if prop_sub_active(m, x, s, i, v) {
        let t = x[i] - prop_sub_borrow(m, x, s, i, v);
        if t >= 0 {
            t % 16
        } else {
            (t + m) % 16
        }
    } else {
        x[i] as int
    }
}

/// Once the propagating subtraction's borrow dies out it stays dead.
pub proof fn lemma_prop_sub_borrow_stays_zero(m: int, x: Seq<u8>, s: int, i: int, j: int, v: int)
    requires
        s < i <= j,
        prop_sub_borrow(m, x, s, i, v) == 0,
    ensures
        prop_sub_borrow(m, x, s, j, v) == 0,
    decreases j - i,
{
    if j > i {
        lemma_prop_sub_borrow_stays_zero(m, x, s, i, j - 1, v);
    }
}

impl Saturn {
    /// `r := r + (v at the window base)` with carry propagation that stops at
    /// the first absorbed position; the modulus is `m`.  Shared body of the
    /// increment and constant-add operations.
    fn prop_add_into(&mut self, r_idx: RegId, s: usize, e: usize, m: u16, v: u16)
        requires
            s <= e < 16,
            v <= 16,
            m <= 255,
        ensures
            ({
                let x = old(self).reg_seq(r_idx);
                let mi = m as int;
                let vi = v as int;
                let si = s as int;
                &&& *final(self) == Saturn {
                    carry: final(self).carry,
                    ..old(self).with_reg_arr(r_idx, final(self).reg_arr(r_idx))
                }
                &&& forall|j: int| si <= j <= e ==> final(self).reg_seq(r_idx)[j]
                    == prop_add_digit(mi, x, si, j, vi)
                &&& forall|j: int| 0 <= j < 16 && !(si <= j <= e)
                    ==> final(self).reg_seq(r_idx)[j] == old(self).reg_seq(r_idx)[j]
                &&& final(self).carry
                    == (if prop_add_carry(mi, x, si, e + 1, vi) != 0 { 1u8 } else { 0u8 })
            }),
            old(self).regs_valid() ==> final(self).regs_valid(),
            old(self).wf() ==> final(self).wf(),
    {
        let mut out: [u8; 16] = *self.get_reg(r_idx);
        let ghost x = out@;
        proof {
            assert(prop_add_carry(m as int, x, s as int, s as int, v as int) == v);
        }
        let mut c: u16 = v;
        let t0: u16 = out[s] as u16 + c;
        if t0 < m {
            out[s] = (t0 % 16) as u8;
            c = 0;
        } else {
            out[s] = ((t0 - m) % 16) as u8;
            c = 1;
        }
        let mut i: usize = s + 1;
        while c != 0 && i <= e
            invariant
                s < i <= e + 1,
                e < 16,
                c <= 1,
                m <= 255,
                c == prop_add_carry(m as int, x, s as int, i as int, v as int),
                forall|j: int| s <= j < i ==> out@[j]
                    == prop_add_digit(m as int, x, s as int, j, v as int),
                forall|j: int| s <= j < i ==> out@[j] < 16,
                forall|j: int| 0 <= j < 16 && !(s <= j < i) ==> out@[j] == x[j],
            decreases 16 - i,
        {
            let t: u16 = out[i] as u16 + c;
            if t < m {
                out[i] = (t % 16) as u8;
                c = 0;
            } else {
                out[i] = ((t - m) % 16) as u8;
                c = 1;
            }
            i += 1;
        }
        proof {
            if i <= e {
                lemma_prop_add_carry_stays_zero(m as int, x, s as int, i as int, e + 1, v as int);
                assert forall|j: int| i <= j <= e implies out@[j]
                    == prop_add_digit(m as int, x, s as int, j, v as int) by {
                    lemma_prop_add_carry_stays_zero(m as int, x, s as int, i as int, j, v as int);
                };
            }
        }
        self.set_reg(r_idx, out);
        self.carry = if c != 0 { 1 } else { 0 };
        proof {
            if old(self).regs_valid() {
                lemma_reg_seq_valid(*old(self), r_idx);
                assert forall|j: int| 0 <= j < 16 implies out@[j] < 16 by {
                    if !(s <= j < i) {
                        assert(out@[j] == x[j]);
                    }
                };
                lemma_with_reg_valid(*old(self), r_idx, out);
                assert(self.regs_valid());
            }
        }
    }

    /// `r := r - (v at the window base)` with borrow propagation that stops
    /// at the first absorbed position; the modulus is `m`.  Shared body of
    /// the decrement and constant-subtract operations.
    fn prop_sub_into(&mut self, r_idx: RegId, s: usize, e: usize, m: u16, v: u16)
        requires
            s <= e < 16,
            v <= 16,
            m <= 255,
        ensures
            ({
                let x = old(self).reg_seq(r_idx);
                let mi = m as int;
                let vi = v as int;
                let si = s as int;
                &&& *final(self) == Saturn {
                    carry: final(self).carry,
                    ..old(self).with_reg_arr(r_idx, final(self).reg_arr(r_idx))
                }
                &&& forall|j: int| si <= j <= e ==> final(self).reg_seq(r_idx)[j]
                    == prop_sub_digit(mi, x, si, j, vi)
                &&& forall|j: int| 0 <= j < 16 && !(si <= j <= e)
                    ==> final(self).reg_seq(r_idx)[j] == old(self).reg_seq(r_idx)[j]
                &&& final(self).carry
                    == (if prop_sub_borrow(mi, x, si, e + 1, vi) != 0 { 1u8 } else { 0u8 })
            }),
            old(self).regs_valid() ==> final(self).regs_valid(),
            old(self).wf() ==> final(self).wf(),
    {
        let mut out: [u8; 16] = *self.get_reg(r_idx);
        let ghost x = out@;
        proof {
            assert(prop_sub_borrow(m as int, x, s as int, s as int, v as int) == v);
        }
        let mut c: u16 = v;
        let x0: u16 = out[s] as u16;
        if x0 >= c {
            let t: u16 = x0 - c;
            out[s] = (t % 16) as u8;
            c = 0;
        } else {
            let t: u16 = x0 + 512 + m - c;
            proof {
                lemma_mod16_plus_512(x0 as int - c as int + m as int);
            }
            out[s] = (t % 16) as u8;
            c = 1;
        }
        let mut i: usize = s + 1;
        while c != 0 && i <= e
            invariant
                s < i <= e + 1,
                e < 16,
                c <= 1,
                m <= 255,
                c == prop_sub_borrow(m as int, x, s as int, i as int, v as int),
                forall|j: int| s <= j < i ==> out@[j]
                    == prop_sub_digit(m as int, x, s as int, j, v as int),
                forall|j: int| s <= j < i ==> out@[j] < 16,
                forall|j: int| 0 <= j < 16 && !(s <= j < i) ==> out@[j] == x[j],
            decreases 16 - i,
        {
            let xi: u16 = out[i] as u16;
            if xi >= c {
                let t: u16 = xi - c;
                out[i] = (t % 16) as u8;
                c = 0;
            } else {
                let t: u16 = xi + 512 + m - c;
                proof {
                    lemma_mod16_plus_512(xi as int - c as int + m as int);
                }
                out[i] = (t % 16) as u8;
                c = 1;
            }
            i += 1;
        }
        proof {
            if i <= e {
                lemma_prop_sub_borrow_stays_zero(m as int, x, s as int, i as int, e + 1, v as int);
                assert forall|j: int| i <= j <= e implies out@[j]
                    == prop_sub_digit(m as int, x, s as int, j, v as int) by {
                    lemma_prop_sub_borrow_stays_zero(m as int, x, s as int, i as int, j, v as int);
                };
            }
        }
        self.set_reg(r_idx, out);
        self.carry = if c != 0 { 1 } else { 0 };
        proof {
            if old(self).regs_valid() {
                lemma_reg_seq_valid(*old(self), r_idx);
                assert forall|j: int| 0 <= j < 16 implies out@[j] < 16 by {
                    if !(s <= j < i) {
                        assert(out@[j] == x[j]);
                    }
                };
                lemma_with_reg_valid(*old(self), r_idx, out);
                assert(self.regs_valid());
            }
        }
    }

    /// `r := r + 1` over the field window at modulus `hexmode`, propagating
    /// until absorbed; carry set iff the window wrapped.
    pub fn inc_register(&mut self, r_idx: RegId, code: u8)
        requires
            code < 19,
            old(self).p < 16,
        ensures
            ({
                let s = spec_start(code, old(self).p);
                let e = spec_end(code, old(self).p);
                let m = old(self).hexmode as int;
                let x = old(self).reg_seq(r_idx);
                &&& *final(self) == Saturn {
                    carry: final(self).carry,
                    ..old(self).with_reg_arr(r_idx, final(self).reg_arr(r_idx))
                }
                &&& forall|j: int| s <= j <= e ==> final(self).reg_seq(r_idx)[j]
                    == prop_add_digit(m, x, s, j, 1)
                &&& forall|j: int| 0 <= j < 16 && !(s <= j <= e)
                    ==> final(self).reg_seq(r_idx)[j] == old(self).reg_seq(r_idx)[j]
                &&& final(self).carry
                    == (if prop_add_carry(m, x, s, e + 1, 1) != 0 { 1u8 } else { 0u8 })
            }),
            old(self).regs_valid() ==> final(self).regs_valid(),
            old(self).wf() ==> final(self).wf(),
    {
        let s = get_start(code, self.p);
        let e = get_end(code, self.p);
        let m: u16 = self.hexmode as u16;
        self.prop_add_into(r_idx, s, e, m, 1);
    }

    /// `r := r + val` over the field window, always carrying at modulus 16
    /// regardless of the hex/dec mode, propagating until absorbed.
    pub fn add_register_constant(&mut self, r_idx: RegId, code: u8, val: u8)
        requires
            code < 19,
            old(self).p < 16,
            val <= 16,
        ensures
            ({
                let s = spec_start(code, old(self).p);
                let e = spec_end(code, old(self).p);
                let x = old(self).reg_seq(r_idx);
                &&& *final(self) == Saturn {
                    carry: final(self).carry,
                    ..old(self).with_reg_arr(r_idx, final(self).reg_arr(r_idx))
                }
                &&& forall|j: int| s <= j <= e ==> final(self).reg_seq(r_idx)[j]
                    == prop_add_digit(16, x, s, j, val as int)
                &&& forall|j: int| 0 <= j < 16 && !(s <= j <= e)
                    ==> final(self).reg_seq(r_idx)[j] == old(self).reg_seq(r_idx)[j]
                &&& final(self).carry
                    == (if prop_add_carry(16, x, s, e + 1, val as int) != 0 { 1u8 } else { 0u8 })
            }),
            old(self).regs_valid() ==> final(self).regs_valid(),
            old(self).wf() ==> final(self).wf(),
    {
        let s = get_start(code, self.p);
        let e = get_end(code, self.p);
        self.prop_add_into(r_idx, s, e, 16, val as u16);
    }

    /// `r := r - 1` over the field window at modulus `hexmode`, propagating
    /// until absorbed; carry set iff the window wrapped.
    pub fn dec_register(&mut self, r_idx: RegId, code: u8)
        requires
            code < 19,
            old(self).p < 16,
        ensures
            ({
                let s = spec_start(code, old(self).p);
                let e = spec_end(code, old(self).p);
                let m = old(self).hexmode as int;
                let x = old(self).reg_seq(r_idx);
                &&& *final(self) == Saturn {
                    carry: final(self).carry,
                    ..old(self).with_reg_arr(r_idx, final(self).reg_arr(r_idx))
                }
                &&& forall|j: int| s <= j <= e ==> final(self).reg_seq(r_idx)[j]
                    == prop_sub_digit(m, x, s, j, 1)
                &&& forall|j: int| 0 <= j < 16 && !(s <= j <= e)
                    ==> final(self).reg_seq(r_idx)[j] == old(self).reg_seq(r_idx)[j]
                &&& final(self).carry
                    == (if prop_sub_borrow(m, x, s, e + 1, 1) != 0 { 1u8 } else { 0u8 })
            }),
            old(self).regs_valid() ==> final(self).regs_valid(),
            old(self).wf() ==> final(self).wf(),
    {
        let s = get_start(code, self.p);
        let e = get_end(code, self.p);
        let m: u16 = self.hexmode as u16;
        self.prop_sub_into(r_idx, s, e, m, 1);
    }

    /// `r := r - val` over the field window, always borrowing at modulus 16
    /// regardless of the hex/dec mode, propagating until absorbed.
    pub fn sub_register_constant(&mut self, r_idx: RegId, code: u8, val: u8)
        requires
            code < 19,
            old(self).p < 16,
            val <= 16,
        ensures
            ({
                let s = spec_start(code, old(self).p);
                let e = spec_end(code, old(self).p);
                let x = old(self).reg_seq(r_idx);
                &&& *final(self) == Saturn {
                    carry: final(self).carry,
                    ..old(self).with_reg_arr(r_idx, final(self).reg_arr(r_idx))
                }
                &&& forall|j: int| s <= j <= e ==> final(self).reg_seq(r_idx)[j]
                    == prop_sub_digit(16, x, s, j, val as int)
                &&& forall|j: int| 0 <= j < 16 && !(s <= j <= e)
                    ==> final(self).reg_seq(r_idx)[j] == old(self).reg_seq(r_idx)[j]
                &&& final(self).carry
                    == (if prop_sub_borrow(16, x, s, e + 1, val as int) != 0 { 1u8 } else { 0u8 })
            }),
            old(self).regs_valid() ==> final(self).regs_valid(),
            old(self).wf() ==> final(self).wf(),
    {
        let s = get_start(code, self.p);
        let e = get_end(code, self.p);
        self.prop_sub_into(r_idx, s, e, 16, val as u16);
    }
}

// ---------------------------------------------------------------------------
// P+1 addition and complements
// ---------------------------------------------------------------------------

/// Carry into position `i` when adding `v` at nibble 0 and carrying at
/// modulus 16 across every position without early absorption.
pub open spec fn pp_carry(x: Seq<u8>, i: int, v: int) -> int
    decreases i,
{
    if i <= 0 {
        v
    } else if x[i - 1] + pp_carry(x, i - 1, v) >= 16 {
        1
    } else {
        0
    }
}

/// Result digit at position `i` of the P+1 addition.
pub open spec fn pp_digit(x: Seq<u8>, i: int, v: int) -> int {
    let t = x[i] + pp_carry(x, i, v);
    if t < 16 {
        t % 16
    } else {
        (t - 16) % 16
    }
}

/// Borrow-free one's-complement digit at position `i`: `(m - 1) - x[i]`
/// taken modulo 16.
pub open spec fn c1_digit(m: int, x: Seq<u8>, i: int) -> int {
    ((m - 1) - x[i]) % 16
}

/// Carry into position `i` of the two's complement at modulus `m`, which
/// adds one to the one's complement starting at the window base `s`.
pub open spec fn c2_carry(m: int, x: Seq<u8>, s: int, i: int) -> int
    decreases i - s,
{
    if i <= s {
        1
    } else if (m - 1) - x[i - 1] + c2_carry(m, x, s, i - 1) < m {
        0
    } else {
        1
    }
}

/// Result digit at position `i` of the two's complement at modulus `m`.
pub open spec fn c2_digit(m: int, x: Seq<u8>, s: int, i: int) -> int {
    let t = (m - 1) - x[i] + c2_carry(m, x, s, i);
    if t < m {
        t % 16
    } else {
        (t - m) % 16
    }
}

impl Saturn {
    /// `r := r + P + 1` over nibbles 0 to 4, carrying at modulus 16; the
    /// carry flag records the carry out of nibble 4.
    pub fn add_p_plus_one(&mut self, r_idx: RegId)
        requires
            old(self).p < 16,
        ensures
            ({
                let x = old(self).reg_seq(r_idx);
                let v = old(self).p + 1;
                &&& *final(self) == Saturn {
                    carry: final(self).carry,
                    ..old(self).with_reg_arr(r_idx, final(self).reg_arr(r_idx))
                }
                &&& forall|j: int| 0 <= j <= 4 ==> final(self).reg_seq(r_idx)[j]
                    == pp_digit(x, j, v as int)
                &&& forall|j: int| 4 < j < 16 ==> final(self).reg_seq(r_idx)[j]
                    == old(self).reg_seq(r_idx)[j]
                &&& final(self).carry
                    == (if pp_carry(x, 5, v as int) != 0 { 1u8 } else { 0u8 })
            }),
            old(self).regs_valid() ==> final(self).regs_valid(),
            old(self).wf() ==> final(self).wf(),
    {
        let v: u16 = self.p as u16 + 1;
        let mut out: [u8; 16] = *self.get_reg(r_idx);
        let ghost x = out@;
        let mut c: u16 = v;
        let mut i: usize = 0;
        while i <= 4
            invariant
                i <= 5,
                c <= 16,
                c == pp_carry(x, i as int, v as int),
                v <= 16,
                forall|j: int| 0 <= j < i ==> out@[j] == pp_digit(x, j, v as int),
                forall|j: int| 0 <= j < i ==> out@[j] < 16,
                forall|j: int| i <= j < 16 ==> out@[j] == x[j],
            decreases 5 - i,
        {
            let t: u16 = out[i] as u16 + c;
            if t < 16 {
                out[i] = (t % 16) as u8;
                c = 0;
            } else {
                out[i] = ((t - 16) % 16) as u8;
                c = 1;
            }
            i += 1;
        }
        self.set_reg(r_idx, out);
        self.carry = if c != 0 { 1 } else { 0 };
        proof {
            if old(self).regs_valid() {
                lemma_reg_seq_valid(*old(self), r_idx);
                assert forall|j: int| 0 <= j < 16 implies out@[j] < 16 by {
                    if j >= i {
                        assert(out@[j] == x[j]);
                    }
                };
                lemma_with_reg_valid(*old(self), r_idx, out);
                assert(self.regs_valid());
            }
        }
    }

    /// One's complement of the field window at modulus `hexmode`: each digit
    /// becomes `(hexmode - 1) - digit`; carry is cleared.
    pub fn complement_1_register(&mut self, r_idx: RegId, code: u8)
        requires
            code < 19,
            old(self).p < 16,
        ensures
            ({
                let s = spec_start(code, old(self).p);
                let e = spec_end(code, old(self).p);
                let m = old(self).hexmode as int;
                let x = old(self).reg_seq(r_idx);
                &&& *final(self) == Saturn {
                    carry: 0,
                    ..old(self).with_reg_arr(r_idx, final(self).reg_arr(r_idx))
                }
                &&& forall|j: int| s <= j <= e ==> final(self).reg_seq(r_idx)[j]
                    == c1_digit(m, x, j)
                &&& forall|j: int| 0 <= j < 16 && !(s <= j <= e)
                    ==> final(self).reg_seq(r_idx)[j] == old(self).reg_seq(r_idx)[j]
            }),
            old(self).regs_valid() ==> final(self).regs_valid(),
            old(self).wf() ==> final(self).wf(),
    {
        let s = get_start(code, self.p);
        let e = get_end(code, self.p);
        let m: u16 = self.hexmode as u16;
        let mut out: [u8; 16] = *self.get_reg(r_idx);
        let ghost x = out@;
        let mut i: usize = s;
        while i <= e
            invariant
                s <= i <= e + 1,
                e < 16,
                m <= 255,
                forall|j: int| s <= j < i ==> out@[j] == c1_digit(m as int, x, j),
                forall|j: int| s <= j < i ==> out@[j] < 16,
                forall|j: int| 0 <= j < 16 && !(s <= j < i) ==> out@[j] == x[j],
            decreases 16 - i,
        {
            let t: u16 = (m + 511) - out[i] as u16;
            proof {
                lemma_mod16_plus_512(m as int - 1 - x[i as int]);
            }
            out[i] = (t % 16) as u8;
            i += 1;
        }
        self.set_reg(r_idx, out);
        self.carry = 0;
        proof {
            if old(self).regs_valid() {
                lemma_reg_seq_valid(*old(self), r_idx);
                assert forall|j: int| 0 <= j < 16 implies out@[j] < 16 by {
                    if !(s <= j < i) {
                        assert(out@[j] == x[j]);
                    }
                };
                lemma_with_reg_valid(*old(self), r_idx, out);
                assert(self.regs_valid());
            }
        }
    }

    /// Two's complement of the field window at modulus `hexmode`; carry is
    /// set iff the resulting window is nonzero.
    pub fn complement_2_register(&mut self, r_idx: RegId, code: u8)
        requires
            code < 19,
            old(self).p < 16,
        ensures
            ({
                let s = spec_start(code, old(self).p);
                let e = spec_end(code, old(self).p);
                let m = old(self).hexmode as int;
                let x = old(self).reg_seq(r_idx);
                &&& *final(self) == Saturn {
                    carry: final(self).carry,
                    ..old(self).with_reg_arr(r_idx, final(self).reg_arr(r_idx))
                }
                &&& forall|j: int| s <= j <= e ==> final(self).reg_seq(r_idx)[j]
                    == c2_digit(m, x, s, j)
                &&& forall|j: int| 0 <= j < 16 && !(s <= j <= e)
                    ==> final(self).reg_seq(r_idx)[j] == old(self).reg_seq(r_idx)[j]
                &&& final(self).carry == (
                    if exists|j: int| s <= j <= e && c2_digit(m, x, s, j) != 0 { 1u8 } else { 0u8 }
                )
            }),
            old(self).regs_valid() ==> final(self).regs_valid(),
            old(self).wf() ==> final(self).wf(),
    {
        let s = get_start(code, self.p);
        let e = get_end(code, self.p);
        let m: u16 = self.hexmode as u16;
        let mut out: [u8; 16] = *self.get_reg(r_idx);
        let ghost x = out@;
        let mut c: u16 = 1;
        let mut nonzero: bool = false;
        let mut i: usize = s;
        while i <= e
            invariant
                s <= i <= e + 1,
                e < 16,
                c <= 1,
                m <= 255,
                c == c2_carry(m as int, x, s as int, i as int),
                nonzero == exists|j: int| s <= j < i && c2_digit(m as int, x, s as int, j) != 0,
                forall|j: int| s <= j < i ==> out@[j] == c2_digit(m as int, x, s as int, j),
                forall|j: int| s <= j < i ==> out@[j] < 16,
                forall|j: int| 0 <= j < 16 && !(s <= j < i) ==> out@[j] == x[j],
            decreases 16 - i,
        {
            let t: u16 = (m + 511 + c) - out[i] as u16;
            let ghost ti = (m as int - 1) - x[i as int] + c;
            proof {
                lemma_mod16_plus_512(ti);
                lemma_mod16_plus_512(ti - m as int);
            }
            if t < m + 512 {
                out[i] = (t % 16) as u8;
                c = 0;
            } else {
                out[i] = ((t - m) % 16) as u8;
                c = 1;
            }
            if out[i] != 0 {
                nonzero = true;
            }
            proof {
                let ii = i as int;
                if out@[ii] != 0 {
                    assert(s <= ii < ii + 1 && c2_digit(m as int, x, s as int, ii) != 0);
                }
            }
            i += 1;
        }
        self.set_reg(r_idx, out);
        self.carry = if nonzero { 1 } else { 0 };
        proof {
            if old(self).regs_valid() {
                lemma_reg_seq_valid(*old(self), r_idx);
                assert forall|j: int| 0 <= j < 16 implies out@[j] < 16 by {
                    if !(s <= j < i) {
                        assert(out@[j] == x[j]);
                    }
                };
                lemma_with_reg_valid(*old(self), r_idx, out);
                assert(self.regs_valid());
            }
        }
    }
}

// ---------------------------------------------------------------------------
// Window moves, logic and shifts
// ---------------------------------------------------------------------------

impl Saturn {
    /// Clears the field window of `r` to zero.
    pub fn zero_register(&mut self, r_idx: RegId, code: u8)
        requires
            code < 19,
            old(self).p < 16,
        ensures
            ({
                let s = spec_start(code, old(self).p);
                let e = spec_end(code, old(self).p);
                &&& *final(self) == old(self).with_reg_arr(r_idx, final(self).reg_arr(r_idx))
                &&& forall|j: int| s <= j <= e ==> final(self).reg_seq(r_idx)[j] == 0
                &&& forall|j: int| 0 <= j < 16 && !(s <= j <= e)
                    ==> final(self).reg_seq(r_idx)[j] == old(self).reg_seq(r_idx)[j]
            }),
            old(self).regs_valid() ==> final(self).regs_valid(),
            old(self).wf() ==> final(self).wf(),
    {
        let s = get_start(code, self.p);
        let e = get_end(code, self.p);
        let mut out: [u8; 16] = *self.get_reg(r_idx);
        let ghost x = out@;
        let mut i: usize = s;
        while i <= e
            invariant
                s <= i <= e + 1,
                e < 16,
                forall|j: int| s <= j < i ==> out@[j] == 0,
                forall|j: int| 0 <= j < 16 && !(s <= j < i) ==> out@[j] == x[j],
            decreases 16 - i,
        {
            out[i] = 0;
            i += 1;
        }
        self.set_reg(r_idx, out);
        proof {
            if old(self).regs_valid() {
                lemma_reg_seq_valid(*old(self), r_idx);
                assert forall|j: int| 0 <= j < 16 implies out@[j] < 16 by {
                    if !(s <= j < i) {
                        assert(out@[j] == x[j]);
                    }
                };
                lemma_with_reg_valid(*old(self), r_idx, out);
                assert(self.regs_valid());
            }
        }
    }

    /// `dst := a | b` per nibble over the field window, masked to 4 bits.
    pub fn or_register(&mut self, res_idx: RegId, r1_idx: RegId, r2_idx: RegId, code: u8)
        requires
            code < 19,
            old(self).p < 16,
        ensures
            ({
                let s = spec_start(code, old(self).p);
                let e = spec_end(code, old(self).p);
                let x = old(self).reg_seq(r1_idx);
                let y = old(self).reg_seq(r2_idx);
                &&& *final(self) == old(self).with_reg_arr(res_idx, final(self).reg_arr(res_idx))
                &&& forall|j: int| s <= j <= e ==> final(self).reg_seq(res_idx)[j]
                    == (x[j] | y[j]) % 16
                &&& forall|j: int| 0 <= j < 16 && !(s <= j <= e)
                    ==> final(self).reg_seq(res_idx)[j] == old(self).reg_seq(res_idx)[j]
            }),
            old(self).regs_valid() ==> final(self).regs_valid(),
            old(self).wf() ==> final(self).wf(),
    {
        let s = get_start(code, self.p);
        let e = get_end(code, self.p);
        let x: [u8; 16] = *self.get_reg(r1_idx);
        let y: [u8; 16] = *self.get_reg(r2_idx);
        let mut out: [u8; 16] = *self.get_reg(res_idx);
        let ghost out0 = out@;
        let mut i: usize = s;
        while i <= e
            invariant
                s <= i <= e + 1,
                e < 16,
                forall|j: int| s <= j < i ==> out@[j] == (x@[j] | y@[j]) % 16,
                forall|j: int| s <= j < i ==> out@[j] < 16,
                forall|j: int| 0 <= j < 16 && !(s <= j < i) ==> out@[j] == out0[j],
            decreases 16 - i,
        {
            out[i] = (x[i] | y[i]) % 16;
            i += 1;
        }
        self.set_reg(res_idx, out);
        proof {
            if old(self).regs_valid() {
                lemma_reg_seq_valid(*old(self), res_idx);
                assert forall|j: int| 0 <= j < 16 implies out@[j] < 16 by {
                    if !(s <= j < i) {
                        assert(out@[j] == out0[j]);
                        assert(old(self).reg_seq(res_idx)[j] < 16);
                    }
                };
                lemma_with_reg_valid(*old(self), res_idx, out);
                assert(self.regs_valid());
            }
        }
    }

    /// `dst := a & b` per nibble over the field window, masked to 4 bits.
    pub fn and_register(&mut self, res_idx: RegId, r1_idx: RegId, r2_idx: RegId, code: u8)
        requires
            code < 19,
            old(self).p < 16,
        ensures
            ({
                let s = spec_start(code, old(self).p);
                let e = spec_end(code, old(self).p);
                let x = old(self).reg_seq(r1_idx);
                let y = old(self).reg_seq(r2_idx);
                &&& *final(self) == old(self).with_reg_arr(res_idx, final(self).reg_arr(res_idx))
                &&& forall|j: int| s <= j <= e ==> final(self).reg_seq(res_idx)[j]
                    == (x[j] & y[j]) % 16
                &&& forall|j: int| 0 <= j < 16 && !(s <= j <= e)
                    ==> final(self).reg_seq(res_idx)[j] == old(self).reg_seq(res_idx)[j]
            }),
            old(self).regs_valid() ==> final(self).regs_valid(),
            old(self).wf() ==> final(self).wf(),
    {
        let s = get_start(code, self.p);
        let e = get_end(code, self.p);
        let x: [u8; 16] = *self.get_reg(r1_idx);
        let y: [u8; 16] = *self.get_reg(r2_idx);
        let mut out: [u8; 16] = *self.get_reg(res_idx);
        let ghost out0 = out@;
        let mut i: usize = s;
        while i <= e
            invariant
                s <= i <= e + 1,
                e < 16,
                forall|j: int| s <= j < i ==> out@[j] == (x@[j] & y@[j]) % 16,
                forall|j: int| s <= j < i ==> out@[j] < 16,
                forall|j: int| 0 <= j < 16 && !(s <= j < i) ==> out@[j] == out0[j],
            decreases 16 - i,
        {
            out[i] = (x[i] & y[i]) % 16;
            i += 1;
        }
        self.set_reg(res_idx, out);
        proof {
            if old(self).regs_valid() {
                lemma_reg_seq_valid(*old(self), res_idx);
                assert forall|j: int| 0 <= j < 16 implies out@[j] < 16 by {
                    if !(s <= j < i) {
                        assert(out@[j] == out0[j]);
                        assert(old(self).reg_seq(res_idx)[j] < 16);
                    }
                };
                lemma_with_reg_valid(*old(self), res_idx, out);
                assert(self.regs_valid());
            }
        }
    }

    /// Copies the field window of `from` into `to`, other nibbles untouched.
    pub fn copy_register(&mut self, to_idx: RegId, from_idx: RegId, code: u8)
        requires
            code < 19,
            old(self).p < 16,
        ensures
            ({
                let s = spec_start(code, old(self).p);
                let e = spec_end(code, old(self).p);
                let x = old(self).reg_seq(from_idx);
                &&& *final(self) == old(self).with_reg_arr(to_idx, final(self).reg_arr(to_idx))
                &&& forall|j: int| s <= j <= e ==> final(self).reg_seq(to_idx)[j] == x[j]
                &&& forall|j: int| 0 <= j < 16 && !(s <= j <= e)
                    ==> final(self).reg_seq(to_idx)[j] == old(self).reg_seq(to_idx)[j]
            }),
            old(self).regs_valid() ==> final(self).regs_valid(),
            old(self).wf() ==> final(self).wf(),
    {
        let s = get_start(code, self.p);
        let e = get_end(code, self.p);
        let x: [u8; 16] = *self.get_reg(from_idx);
        let mut out: [u8; 16] = *self.get_reg(to_idx);
        let ghost out0 = out@;
        let mut i: usize = s;
        while i <= e
            invariant
                s <= i <= e + 1,
                e < 16,
                forall|j: int| s <= j < i ==> out@[j] == x@[j],
                forall|j: int| 0 <= j < 16 && !(s <= j < i) ==> out@[j] == out0[j],
            decreases 16 - i,
        {
            out[i] = x[i];
            i += 1;
        }
        self.set_reg(to_idx, out);
        proof {
            if old(self).regs_valid() {
                lemma_reg_seq_valid(*old(self), to_idx);
                lemma_reg_seq_valid(*old(self), from_idx);
                assert forall|j: int| 0 <= j < 16 implies out@[j] < 16 by {
                    if s <= j < i {
                        assert(out@[j] == old(self).reg_seq(from_idx)[j]);
                    } else {
                        assert(out@[j] == out0[j]);
                        assert(old(self).reg_seq(to_idx)[j] < 16);
                    }
                };
                lemma_with_reg_valid(*old(self), to_idx, out);
                assert(self.regs_valid());
            }
        }
    }

    /// Swaps the field windows of the two registers.
    pub fn exchange_register(&mut self, r1_idx: RegId, r2_idx: RegId, code: u8)
        requires
            code < 19,
            old(self).p < 16,
        ensures
            ({
                let s = spec_start(code, old(self).p);
                let e = spec_end(code, old(self).p);
                let x = old(self).reg_seq(r1_idx);
                let y = old(self).reg_seq(r2_idx);
                &&& *final(self) == old(self)
                    .with_reg_arr(r1_idx, final(self).reg_arr(r1_idx))
                    .with_reg_arr(r2_idx, final(self).reg_arr(r2_idx))
                &&& r1_idx != r2_idx ==> {
                    &&& forall|j: int| s <= j <= e ==> final(self).reg_seq(r1_idx)[j] == y[j]
                    &&& forall|j: int| s <= j <= e ==> final(self).reg_seq(r2_idx)[j] == x[j]
                    &&& forall|j: int| 0 <= j < 16 && !(s <= j <= e)
                        ==> final(self).reg_seq(r1_idx)[j] == x[j]
                    &&& forall|j: int| 0 <= j < 16 && !(s <= j <= e)
                        ==> final(self).reg_seq(r2_idx)[j] == y[j]
                }
                &&& r1_idx == r2_idx ==> *final(self) == *old(self)
            }),
            old(self).regs_valid() ==> final(self).regs_valid(),
            old(self).wf() ==> final(self).wf(),
    {
        let s = get_start(code, self.p);
        let e = get_end(code, self.p);
        let x: [u8; 16] = *self.get_reg(r1_idx);
        let y: [u8; 16] = *self.get_reg(r2_idx);
        let mut out1: [u8; 16] = x;
        let mut out2: [u8; 16] = y;
        let mut i: usize = s;
        while i <= e
            invariant
                s <= i <= e + 1,
                e < 16,
                forall|j: int| s <= j < i ==> out1@[j] == y@[j],
                forall|j: int| s <= j < i ==> out2@[j] == x@[j],
                forall|j: int| 0 <= j < 16 && !(s <= j < i) ==> out1@[j] == x@[j],
                forall|j: int| 0 <= j < 16 && !(s <= j < i) ==> out2@[j] == y@[j],
            decreases 16 - i,
        {
            out1[i] = y[i];
            out2[i] = x[i];
            i += 1;
        }
        self.set_reg(r1_idx, out1);
        self.set_reg(r2_idx, out2);
        proof {
            if r1_idx == r2_idx {
                assert(out2@ =~= y@);
                lemma_with_reg_overwrite(*old(self), r2_idx, out1, out2);
                lemma_with_reg_same(*old(self), r2_idx, out2);
            }
            if old(self).regs_valid() {
                lemma_reg_seq_valid(*old(self), r1_idx);
                lemma_reg_seq_valid(*old(self), r2_idx);
                assert(forall|j: int| 0 <= j < 16 ==> out1@[j] < 16);
                assert(forall|j: int| 0 <= j < 16 ==> out2@[j] < 16);
                lemma_with_reg_valid(*old(self), r1_idx, out1);
                lemma_with_reg_valid(old(self).with_reg_arr(r1_idx, out1), r2_idx, out2);
                assert(self.regs_valid());
            }
        }
    }
}

/// Writing a register's own current value back leaves the state unchanged.
proof fn lemma_with_reg_same(s: Saturn, id: RegId, v: [u8; 16])
    requires
        v@ =~= s.reg_seq(id),
    ensures
        s.with_reg_arr(id, v) == s,
{
    match id {
        RegId::A => {
            vstd::array::axiom_array_ext_equal(v, s.a);
        }
        RegId::B => {
            vstd::array::axiom_array_ext_equal(v, s.b);
        }
        RegId::C => {
            vstd::array::axiom_array_ext_equal(v, s.c);
        }
        RegId::D => {
            vstd::array::axiom_array_ext_equal(v, s.d);
        }
        RegId::R0 => {
            vstd::array::axiom_array_ext_equal(v, s.r0);
        }
        RegId::R1 => {
            vstd::array::axiom_array_ext_equal(v, s.r1);
        }
        RegId::R2 => {
            vstd::array::axiom_array_ext_equal(v, s.r2);
        }
        RegId::R3 => {
            vstd::array::axiom_array_ext_equal(v, s.r3);
        }
        RegId::R4 => {
            vstd::array::axiom_array_ext_equal(v, s.r4);
        }
    }
}

/// Writing a register twice keeps only the second value.
proof fn lemma_with_reg_overwrite(s: Saturn, id: RegId, v1: [u8; 16], v2: [u8; 16])
    ensures
        s.with_reg_arr(id, v1).with_reg_arr(id, v2) == s.with_reg_arr(id, v2),
{
    match id {
        RegId::A => {}
        RegId::B => {}
        RegId::C => {}
        RegId::D => {}
        RegId::R0 => {}
        RegId::R1 => {}
        RegId::R2 => {}
        RegId::R3 => {}
        RegId::R4 => {}
    }
}

impl Saturn {
    /// Shifts the field window one nibble toward the top; the bottom nibble
    /// becomes zero.
    pub fn shift_left_register(&mut self, r_idx: RegId, code: u8)
        requires
            code < 19,
            old(self).p < 16,
        ensures
            ({
                let s = spec_start(code, old(self).p);
                let e = spec_end(code, old(self).p);
                let x = old(self).reg_seq(r_idx);
                &&& *final(self) == old(self).with_reg_arr(r_idx, final(self).reg_arr(r_idx))
                &&& final(self).reg_seq(r_idx)[s] == 0
                &&& forall|j: int| s < j <= e ==> final(self).reg_seq(r_idx)[j] == x[j - 1] % 16
                &&& forall|j: int| 0 <= j < 16 && !(s <= j <= e)
                    ==> final(self).reg_seq(r_idx)[j] == x[j]
            }),
            old(self).regs_valid() ==> final(self).regs_valid(),
            old(self).wf() ==> final(self).wf(),
    {
        let s = get_start(code, self.p);
        let e = get_end(code, self.p);
        let mut out: [u8; 16] = *self.get_reg(r_idx);
        let ghost x = out@;
        let mut k: usize = 0;
        while k < e - s
            invariant
                s <= e < 16,
                k <= e - s,
                forall|j: int| e - k < j <= e ==> out@[j] == x[j - 1] % 16,
                forall|j: int| 0 <= j < 16 && !(e - k < j <= e) ==> out@[j] == x[j],
            decreases e - s - k,
        {
            let idx: usize = e - k;
            out[idx] = out[idx - 1] % 16;
            k += 1;
        }
        out[s] = 0;
        self.set_reg(r_idx, out);
        proof {
            if old(self).regs_valid() {
                lemma_reg_seq_valid(*old(self), r_idx);
                assert forall|j: int| 0 <= j < 16 implies out@[j] < 16 by {
                    if !(s <= j <= e) {
                        assert(out@[j] == x[j]);
                    }
                };
                lemma_with_reg_valid(*old(self), r_idx, out);
                assert(self.regs_valid());
            }
        }
    }

    /// Rotates the field window one nibble toward the top; the old top
    /// nibble re-enters at the bottom.
    pub fn shift_left_circ_register(&mut self, r_idx: RegId, code: u8)
        requires
            code < 19,
            old(self).p < 16,
        ensures
            ({
                let s = spec_start(code, old(self).p);
                let e = spec_end(code, old(self).p);
                let x = old(self).reg_seq(r_idx);
                &&& *final(self) == old(self).with_reg_arr(r_idx, final(self).reg_arr(r_idx))
                &&& final(self).reg_seq(r_idx)[s] == x[e] % 16
                &&& forall|j: int| s < j <= e ==> final(self).reg_seq(r_idx)[j] == x[j - 1] % 16
                &&& forall|j: int| 0 <= j < 16 && !(s <= j <= e)
                    ==> final(self).reg_seq(r_idx)[j] == x[j]
            }),
            old(self).regs_valid() ==> final(self).regs_valid(),
            old(self).wf() ==> final(self).wf(),
    {
        let s = get_start(code, self.p);
        let e = get_end(code, self.p);
        let mut out: [u8; 16] = *self.get_reg(r_idx);
        let ghost x = out@;
        let t: u8 = out[e] % 16;
        let mut k: usize = 0;
        while k < e - s
            invariant
                s <= e < 16,
                k <= e - s,
                t == x[e as int] % 16,
                forall|j: int| e - k < j <= e ==> out@[j] == x[j - 1] % 16,
                forall|j: int| 0 <= j < 16 && !(e - k < j <= e) ==> out@[j] == x[j],
            decreases e - s - k,
        {
            let idx: usize = e - k;
            out[idx] = out[idx - 1] % 16;
            k += 1;
        }
        out[s] = t;
        self.set_reg(r_idx, out);
        proof {
            if old(self).regs_valid() {
                lemma_reg_seq_valid(*old(self), r_idx);
                assert forall|j: int| 0 <= j < 16 implies out@[j] < 16 by {
                    if !(s <= j <= e) {
                        assert(out@[j] == x[j]);
                    }
                };
                lemma_with_reg_valid(*old(self), r_idx, out);
                assert(self.regs_valid());
            }
        }
    }

    /// Shifts the field window one nibble toward the bottom; the top nibble
    /// becomes zero, and the sticky bit is set iff the dropped bottom nibble
    /// was nonzero.
    pub fn shift_right_register(&mut self, r_idx: RegId, code: u8)
        requires
            code < 19,
            old(self).p < 16,
        ensures
            ({
                let s = spec_start(code, old(self).p);
                let e = spec_end(code, old(self).p);
                let x = old(self).reg_seq(r_idx);
                &&& *final(self) == Saturn {
                    sb: final(self).sb,
                    ..old(self).with_reg_arr(r_idx, final(self).reg_arr(r_idx))
                }
                &&& final(self).reg_seq(r_idx)[e] == 0
                &&& forall|j: int| s <= j < e ==> final(self).reg_seq(r_idx)[j] == x[j + 1] % 16
                &&& forall|j: int| 0 <= j < 16 && !(s <= j <= e)
                    ==> final(self).reg_seq(r_idx)[j] == x[j]
                &&& final(self).sb == (if x[s] % 16 != 0 { 1u8 } else { old(self).sb })
            }),
            old(self).regs_valid() ==> final(self).regs_valid(),
            old(self).wf() ==> final(self).wf(),
    {
        let s = get_start(code, self.p);
        let e = get_end(code, self.p);
        let mut out: [u8; 16] = *self.get_reg(r_idx);
        let ghost x = out@;
        let dropped: bool = out[s] % 16 != 0;
        let mut i: usize = s;
        while i < e
            invariant
                s <= i <= e < 16,
                forall|j: int| s <= j < i ==> out@[j] == x[j + 1] % 16,
                forall|j: int| 0 <= j < 16 && !(s <= j < i) ==> out@[j] == x[j],
            decreases e - i,
        {
            out[i] = out[i + 1] % 16;
            i += 1;
        }
        out[e] = 0;
        self.set_reg(r_idx, out);
        if dropped {
            self.sb = 1;
        }
        proof {
            if old(self).regs_valid() {
                lemma_reg_seq_valid(*old(self), r_idx);
                assert forall|j: int| 0 <= j < 16 implies out@[j] < 16 by {
                    if !(s <= j <= e) {
                        assert(out@[j] == x[j]);
                    }
                };
                lemma_with_reg_valid(*old(self), r_idx, out);
                assert(self.regs_valid());
            }
        }
    }

    /// Rotates the field window one nibble toward the bottom; the old bottom
    /// nibble re-enters at the top, and sets the sticky bit iff nonzero.
    pub fn shift_right_circ_register(&mut self, r_idx: RegId, code: u8)
        requires
            code < 19,
            old(self).p < 16,
        ensures
            ({
                let s = spec_start(code, old(self).p);
                let e = spec_end(code, old(self).p);
                let x = old(self).reg_seq(r_idx);
                &&& *final(self) == Saturn {
                    sb: final(self).sb,
                    ..old(self).with_reg_arr(r_idx, final(self).reg_arr(r_idx))
                }
                &&& final(self).reg_seq(r_idx)[e] == x[s] % 16
                &&& forall|j: int| s <= j < e ==> final(self).reg_seq(r_idx)[j] == x[j + 1] % 16
                &&& forall|j: int| 0 <= j < 16 && !(s <= j <= e)
                    ==> final(self).reg_seq(r_idx)[j] == x[j]
                &&& final(self).sb == (if x[s] % 16 != 0 { 1u8 } else { old(self).sb })
            }),
            old(self).regs_valid() ==> final(self).regs_valid(),
            old(self).wf() ==> final(self).wf(),
    {
        let s = get_start(code, self.p);
        let e = get_end(code, self.p);
        let mut out: [u8; 16] = *self.get_reg(r_idx);
        let ghost x = out@;
        let t: u8 = out[s] % 16;
        let mut i: usize = s;
        while i < e
            invariant
                s <= i <= e < 16,
                t == x[s as int] % 16,
                forall|j: int| s <= j < i ==> out@[j] == x[j + 1] % 16,
                forall|j: int| 0 <= j < 16 && !(s <= j < i) ==> out@[j] == x[j],
            decreases e - i,
        {
            out[i] = out[i + 1] % 16;
            i += 1;
        }
        out[e] = t;
        self.set_reg(r_idx, out);
        if t != 0 {
            self.sb = 1;
        }
        proof {
            if old(self).regs_valid() {
                lemma_reg_seq_valid(*old(self), r_idx);
                assert forall|j: int| 0 <= j < 16 implies out@[j] < 16 by {
                    if !(s <= j <= e) {
                        assert(out@[j] == x[j]);
                    }
                };
                lemma_with_reg_valid(*old(self), r_idx, out);
                assert(self.regs_valid());
            }
        }
    }

    /// Shifts the field window right by one bit across nibble boundaries;
    /// sets the sticky bit iff the dropped low bit of the bottom nibble was
    /// one.
    pub fn shift_right_bit_register(&mut self, r_idx: RegId, code: u8)
        requires
            code < 19,
            old(self).p < 16,
        ensures
            ({
                let s = spec_start(code, old(self).p);
                let e = spec_end(code, old(self).p);
                let x = old(self).reg_seq(r_idx);
                &&& *final(self) == Saturn {
                    sb: final(self).sb,
                    ..old(self).with_reg_arr(r_idx, final(self).reg_arr(r_idx))
                }
                &&& final(self).reg_seq(r_idx)[e] == (x[e] / 2) % 8
                &&& forall|j: int| s <= j < e ==> final(self).reg_seq(r_idx)[j]
                    == (x[j] / 2) % 8 + (x[j + 1] % 2) * 8
                &&& forall|j: int| 0 <= j < 16 && !(s <= j <= e)
                    ==> final(self).reg_seq(r_idx)[j] == x[j]
                &&& final(self).sb == (if x[s] % 2 != 0 { 1u8 } else { old(self).sb })
            }),
            old(self).regs_valid() ==> final(self).regs_valid(),
            old(self).wf() ==> final(self).wf(),
    {
        let s = get_start(code, self.p);
        let e = get_end(code, self.p);
        let mut out: [u8; 16] = *self.get_reg(r_idx);
        let ghost x = out@;
        let mut sbit: u8 = 0;
        let mut k: usize = 0;
        while k <= e - s
            invariant
                s <= e < 16,
                k <= e - s + 1,
                sbit == (if k == 0 { 0u8 } else { x[e - k + 1] % 2 }),
                out@[e as int] == (if k == 0 { x[e as int] } else { (x[e as int] / 2) % 8 }),
                forall|j: int| e - k < j < e ==> out@[j] == (x[j] / 2) % 8 + (x[j + 1] % 2) * 8,
                forall|j: int| 0 <= j < 16 && !(e - k < j <= e) ==> out@[j] == x[j],
            decreases e - s + 1 - k,
        {
            let idx: usize = e - k;
            let t: u8 = (out[idx] / 2) % 8 + sbit * 8;
            sbit = out[idx] % 2;
            out[idx] = t;
            k += 1;
        }
        self.set_reg(r_idx, out);
        if sbit != 0 {
            self.sb = 1;
        }
        proof {
            if old(self).regs_valid() {
                lemma_reg_seq_valid(*old(self), r_idx);
                assert forall|j: int| 0 <= j < 16 implies out@[j] < 16 by {
                    if !(s <= j <= e) {
                        assert(out@[j] == x[j]);
                    }
                };
                lemma_with_reg_valid(*old(self), r_idx, out);
                assert(self.regs_valid());
            }
        }
    }
}

// ---------------------------------------------------------------------------
// Register / data-pointer exchange
// ---------------------------------------------------------------------------

impl Saturn {
    /// Swaps the field window of `r` against the corresponding nibbles of D0
    /// or D1.  Register nibbles entering the pointer are masked to 4 bits;
    /// the window must lie within the pointer's five nibbles.
    pub fn exchange_reg_dat(&mut self, r_idx: RegId, d_sel: u8, code: u8)
        requires
            code < 19,
            old(self).p < 16,
            spec_end(code, old(self).p) <= 4,
        ensures
            ({
                let s = spec_start(code, old(self).p);
                let e = spec_end(code, old(self).p);
                let x = old(self).reg_seq(r_idx);
                let d_old = if d_sel == 0 { old(self).d0 } else { old(self).d1 };
                let d_new = if d_sel == 0 { final(self).d0 } else { final(self).d1 };
                &&& *final(self) == Saturn {
                    d0: final(self).d0,
                    d1: final(self).d1,
                    ..old(self).with_reg_arr(r_idx, final(self).reg_arr(r_idx))
                }
                &&& (if d_sel == 0 { final(self).d1 == old(self).d1 } else {
                    final(self).d0 == old(self).d0
                })
                &&& forall|j: int| s <= j <= e ==> final(self).reg_seq(r_idx)[j]
                    == nib20(d_old, j)
                &&& forall|j: int| 0 <= j < 16 && !(s <= j <= e)
                    ==> final(self).reg_seq(r_idx)[j] == x[j]
                &&& d_new == nibs5_val(
                    Seq::new(5, |j: int| if s <= j <= e { (x[j] % 16) as u8 } else {
                        nib20(d_old, j) as u8
                    }),
                )
                &&& d_new < 0x100000
            }),
            old(self).regs_valid() ==> final(self).regs_valid(),
            old(self).wf() ==> final(self).wf(),
    {
        let s = get_start(code, self.p);
        let e = get_end(code, self.p);
        let d: u32 = if d_sel == 0 { self.d0 } else { self.d1 };
        let mut out: [u8; 16] = *self.get_reg(r_idx);
        let ghost x = out@;
        let mut n: [u8; 5] = [
            get_nib20(d, 0),
            get_nib20(d, 1),
            get_nib20(d, 2),
            get_nib20(d, 3),
            get_nib20(d, 4),
        ];
        let mut i: usize = s;
        while i <= e
            invariant
                s <= i <= e + 1,
                e <= 4,
                forall|j: int| s <= j < i ==> out@[j] == nib20(d, j),
                forall|j: int| s <= j < i ==> out@[j] < 16,
                forall|j: int| 0 <= j < 16 && !(s <= j < i) ==> out@[j] == x[j],
                forall|j: int| s <= j < i ==> n@[j] == x[j] % 16,
                forall|j: int| 0 <= j < 5 && !(s <= j < i) ==> n@[j] == nib20(d, j),
                forall|j: int| 0 <= j < 5 ==> n@[j] < 16,
            decreases 5 - i,
        {
            let t: u8 = out[i];
            out[i] = n[i];
            n[i] = t % 16;
            i += 1;
        }
        let d_new: u32 = n[0] as u32 + 16 * n[1] as u32 + 0x100 * n[2] as u32
            + 0x1000 * n[3] as u32 + 0x10000 * n[4] as u32;
        proof {
            assert(d_new == nibs5_val(n@));
            assert(n@ =~= Seq::new(5, |j: int| if s <= j <= e { (x[j] % 16) as u8 } else {
                nib20(d, j) as u8
            }));
        }
        self.set_reg(r_idx, out);
        if d_sel == 0 {
            self.d0 = d_new;
        } else {
            self.d1 = d_new;
        }
        proof {
            if old(self).regs_valid() {
                lemma_reg_seq_valid(*old(self), r_idx);
                assert forall|j: int| 0 <= j < 16 implies out@[j] < 16 by {
                    if !(s <= j < i) {
                        assert(out@[j] == x[j]);
                    }
                };
                lemma_with_reg_valid(*old(self), r_idx, out);
                assert(self.regs_valid());
            }
        }
    }
}

// ---------------------------------------------------------------------------
// Window comparisons
// ---------------------------------------------------------------------------

/// Numeric value of the nibble window `[s, e]` of `x`, each nibble masked to
/// 4 bits, lowest nibble least significant.
pub open spec fn wval(x: Seq<u8>, s: int, e: int) -> int
    decreases e - s + 1,
{
    if e < s {
        0
    } else {
        (x[e] % 16) * crate::types::pow16(e - s) + wval(x, s, e - 1)
    }
}

/// A window value is nonnegative and below `16^width`.
pub proof fn lemma_wval_bound(x: Seq<u8>, s: int, e: int)
    ensures
        0 <= wval(x, s, e) < crate::types::pow16(e - s + 1),
    decreases e - s + 1,
{
    if e < s {
        assert(crate::types::pow16(e - s + 1) >= 1) by {
            lemma_pow16_pos(e - s + 1);
        };
    } else {
        lemma_wval_bound(x, s, e - 1);
        lemma_pow16_pos(e - s);
        assert((x[e] % 16) * crate::types::pow16(e - s) <= 15 * crate::types::pow16(e - s))
            by (nonlinear_arith)
            requires
                0 <= x[e] % 16 <= 15,
                crate::types::pow16(e - s) > 0,
        ;
        assert((x[e] % 16) * crate::types::pow16(e - s) >= 0) by (nonlinear_arith)
            requires
                0 <= x[e] % 16,
                crate::types::pow16(e - s) > 0,
        ;
    }
}

/// Powers of 16 are positive.
pub proof fn lemma_pow16_pos(k: int)
    ensures
        crate::types::pow16(k) >= 1,
    decreases k,
{
    if k > 0 {
        lemma_pow16_pos(k - 1);
    }
}

/// Windows that agree nibble for nibble (masked) have equal values.
pub proof fn lemma_wval_eq(x: Seq<u8>, y: Seq<u8>, s: int, e: int)
    requires
        forall|j: int| s <= j <= e ==> x[j] % 16 == y[j] % 16,
    ensures
        wval(x, s, e) == wval(y, s, e),
    decreases e - s + 1,
{
    if e >= s {
        lemma_wval_eq(x, y, s, e - 1);
    }
}

/// If the windows agree above position `i` and `x`'s masked nibble at `i` is
/// smaller, then `x`'s window value is smaller.
pub proof fn lemma_wval_lt(x: Seq<u8>, y: Seq<u8>, s: int, e: int, i: int)
    requires
        s <= i <= e,
        x[i] % 16 < y[i] % 16,
        forall|j: int| i < j <= e ==> x[j] % 16 == y[j] % 16,
    ensures
        wval(x, s, e) < wval(y, s, e),
    decreases e - i + 1,
{
    if e == i {
        lemma_wval_bound(x, s, e - 1);
        lemma_wval_bound(y, s, e - 1);
        lemma_pow16_pos(e - s);
        assert((x[e] % 16) * crate::types::pow16(e - s) + crate::types::pow16(e - s)
            <= (y[e] % 16) * crate::types::pow16(e - s)) by (nonlinear_arith)
            requires
                x[e] % 16 + 1 <= y[e] % 16,
                crate::types::pow16(e - s) > 0,
        ;
    } else {
        lemma_wval_lt(x, y, s, e - 1, i);
    }
}

impl Saturn {
    /// True iff every masked nibble of the field window of `r` is zero.
    pub fn is_zero_register(&self, r_idx: RegId, code: u8) -> (r: bool)
        requires
            code < 19,
            self.p < 16,
        ensures
            r == ({
                let s = spec_start(code, self.p);
                let e = spec_end(code, self.p);
                forall|j: int| s <= j <= e ==> self.reg_seq(r_idx)[j] % 16 == 0
            }),
    {
        let s = get_start(code, self.p);
        let e = get_end(code, self.p);
        let x: &[u8; 16] = self.get_reg(r_idx);
        let mut i: usize = s;
        while i <= e
            invariant
                s <= i <= e + 1,
                e < 16,
                s == spec_start(code, self.p),
                e == spec_end(code, self.p),
                x@ == self.reg_seq(r_idx),
                forall|j: int| s <= j < i ==> x@[j] % 16 == 0,
            decreases 16 - i,
        {
            if x[i] % 16 != 0 {
                proof {
                    assert(self.reg_seq(r_idx)[i as int] % 16 != 0);
                }
                return false;
            }
            i += 1;
        }
        true
    }

    /// True iff some masked nibble of the field window of `r` is nonzero.
    pub fn is_not_zero_register(&self, r_idx: RegId, code: u8) -> (r: bool)
        requires
            code < 19,
            self.p < 16,
        ensures
            r == ({
                let s = spec_start(code, self.p);
                let e = spec_end(code, self.p);
                exists|j: int| s <= j <= e && self.reg_seq(r_idx)[j] % 16 != 0
            }),
    {
        let r = self.is_zero_register(r_idx, code);
        !r
    }

    /// True iff the two field windows agree on every masked nibble.
    pub fn is_equal_register(&self, r1_idx: RegId, r2_idx: RegId, code: u8) -> (r: bool)
        requires
            code < 19,
            self.p < 16,
        ensures
            r == ({
                let s = spec_start(code, self.p);
                let e = spec_end(code, self.p);
                forall|j: int| s <= j <= e
                    ==> self.reg_seq(r1_idx)[j] % 16 == self.reg_seq(r2_idx)[j] % 16
            }),
    {
        let s = get_start(code, self.p);
        let e = get_end(code, self.p);
        let x: [u8; 16] = *self.get_reg(r1_idx);
        let y: [u8; 16] = *self.get_reg(r2_idx);
        let mut i: usize = s;
        while i <= e
            invariant
                s <= i <= e + 1,
                e < 16,
                s == spec_start(code, self.p),
                e == spec_end(code, self.p),
                x@ == self.reg_seq(r1_idx),
                y@ == self.reg_seq(r2_idx),
                forall|j: int| s <= j < i ==> x@[j] % 16 == y@[j] % 16,
            decreases 16 - i,
        {
            if x[i] % 16 != y[i] % 16 {
                proof {
                    assert(self.reg_seq(r1_idx)[i as int] % 16 != self.reg_seq(r2_idx)[
                        i as int
                    ] % 16);
                }
                return false;
            }
            i += 1;
        }
        true
    }

    /// True iff the two field windows differ on some masked nibble.
    pub fn is_not_equal_register(&self, r1_idx: RegId, r2_idx: RegId, code: u8) -> (r: bool)
        requires
            code < 19,
            self.p < 16,
        ensures
            r == ({
                let s = spec_start(code, self.p);
                let e = spec_end(code, self.p);
                exists|j: int| s <= j <= e
                    && self.reg_seq(r1_idx)[j] % 16 != self.reg_seq(r2_idx)[j] % 16
            }),
    {
        let r = self.is_equal_register(r1_idx, r2_idx, code);
        !r
    }

    /// Compares two windows from the top nibble down; returns `Some(true)`
    /// when the first is numerically smaller, `Some(false)` when larger,
    /// `None` when equal.
    fn compare_windows(&self, r1_idx: RegId, r2_idx: RegId, s: usize, e: usize) -> (r: Option<
        bool,
    >)
        requires
            s <= e < 16,
        ensures
            ({
                let x = self.reg_seq(r1_idx);
                let y = self.reg_seq(r2_idx);
                &&& (r == Some(true)) == (wval(x, s as int, e as int) < wval(
                    y,
                    s as int,
                    e as int,
                ))
                &&& (r == Some(false)) == (wval(x, s as int, e as int) > wval(
                    y,
                    s as int,
                    e as int,
                ))
                &&& (r == None::<bool>) == (wval(x, s as int, e as int) == wval(
                    y,
                    s as int,
                    e as int,
                ))
            }),
    {
        let x: [u8; 16] = *self.get_reg(r1_idx);
        let y: [u8; 16] = *self.get_reg(r2_idx);
        let mut k: usize = 0;
        while k <= e - s
            invariant
                s <= e < 16,
                k <= e - s + 1,
                x@ == self.reg_seq(r1_idx),
                y@ == self.reg_seq(r2_idx),
                forall|j: int| e - k < j <= e ==> x@[j] % 16 == y@[j] % 16,
            decreases e - s + 1 - k,
        {
            let idx: usize = e - k;
            if x[idx] % 16 < y[idx] % 16 {
                proof {
                    lemma_wval_lt(x@, y@, s as int, e as int, idx as int);
                }
                return Some(true);
            }
            if x[idx] % 16 > y[idx] % 16 {
                proof {
                    lemma_wval_lt(y@, x@, s as int, e as int, idx as int);
                }
                return Some(false);
            }
            k += 1;
        }
        proof {
            lemma_wval_eq(x@, y@, s as int, e as int);
        }
        None
    }

    /// True iff the window of `r1` is numerically below that of `r2`.
    pub fn is_less_register(&self, r1_idx: RegId, r2_idx: RegId, code: u8) -> (r: bool)
        requires
            code < 19,
            self.p < 16,
        ensures
            ({
                let s = spec_start(code, self.p);
                let e = spec_end(code, self.p);
                r == (wval(self.reg_seq(r1_idx), s, e) < wval(self.reg_seq(r2_idx), s, e))
            }),
    {
        let s = get_start(code, self.p);
        let e = get_end(code, self.p);
        match self.compare_windows(r1_idx, r2_idx, s, e) {
            Some(less) => less,
            None => false,
        }
    }

    /// True iff the window of `r1` is numerically at most that of `r2`.
    pub fn is_less_or_equal_register(&self, r1_idx: RegId, r2_idx: RegId, code: u8) -> (r: bool)
        requires
            code < 19,
            self.p < 16,
        ensures
            ({
                let s = spec_start(code, self.p);
                let e = spec_end(code, self.p);
                r == (wval(self.reg_seq(r1_idx), s, e) <= wval(self.reg_seq(r2_idx), s, e))
            }),
    {
        let s = get_start(code, self.p);
        let e = get_end(code, self.p);
        match self.compare_windows(r1_idx, r2_idx, s, e) {
            Some(less) => less,
            None => true,
        }
    }

    /// True iff the window of `r1` is numerically above that of `r2`.
    pub fn is_greater_register(&self, r1_idx: RegId, r2_idx: RegId, code: u8) -> (r: bool)
        requires
            code < 19,
            self.p < 16,
        ensures
            ({
                let s = spec_start(code, self.p);
                let e = spec_end(code, self.p);
                r == (wval(self.reg_seq(r1_idx), s, e) > wval(self.reg_seq(r2_idx), s, e))
            }),
    {
        let s = get_start(code, self.p);
        let e = get_end(code, self.p);
        match self.compare_windows(r1_idx, r2_idx, s, e) {
            Some(less) => !less,
            None => false,
        }
    }

    /// True iff the window of `r1` is numerically at least that of `r2`.
    pub fn is_greater_or_equal_register(&self, r1_idx: RegId, r2_idx: RegId, code: u8) -> (r:
        bool)
        requires
            code < 19,
            self.p < 16,
        ensures
            ({
                let s = spec_start(code, self.p);
                let e = spec_end(code, self.p);
                r == (wval(self.reg_seq(r1_idx), s, e) >= wval(self.reg_seq(r2_idx), s, e))
            }),
    {
        let s = get_start(code, self.p);
        let e = get_end(code, self.p);
        match self.compare_windows(r1_idx, r2_idx, s, e) {
            Some(less) => !less,
            None => true,
        }
    }
}

/// Adding 512 (a multiple of 16) leaves a value's residue modulo 16 unchanged.
proof fn lemma_mod16_plus_512(a: int)
    ensures
        (a + 512) % 16 == a % 16,
{
    vstd::arithmetic::div_mod::lemma_mod_multiples_vanish(32, a, 16);
    assert(16 * 32 + a == a + 512);
}

// ---------------------------------------------------------------------------
// Laws
// ---------------------------------------------------------------------------

/// The decimal ALU keeps decimal digits decimal: if every nibble of both
/// operand windows lies in `[0, 9]`, every result digit of a decimal-mode
/// addition lies in `[0, 9]`, and each carry is 0 or 1.
pub proof fn lemma_dec_add_digits_decimal(x: Seq<u8>, y: Seq<u8>, s: int, i: int)
    requires
        forall|j: int| s <= j <= i ==> x[j] <= 9,
        forall|j: int| s <= j <= i ==> y[j] <= 9,
        s <= i,
    ensures
        0 <= add_carry_in(10, x, y, s, i) <= 1,
        add_digit(10, x, y, s, i) <= 9,
    decreases i - s,
{
    if i > s {
        lemma_dec_add_digits_decimal(x, y, s, i - 1);
    }
}

/// When `z` holds the digits of the hexadecimal windowed sum of `x` and `y`,
/// subtracting `y` from `z` borrows exactly where the addition carried.
pub proof fn lemma_hex_borrow_eq_carry(x: Seq<u8>, y: Seq<u8>, z: Seq<u8>, s: int, i: int)
    requires
        s <= i,
        forall|j: int| s <= j < i ==> x[j] < 16,
        forall|j: int| s <= j < i ==> y[j] < 16,
        forall|j: int| s <= j < i ==> z[j] == add_digit(16, x, y, s, j),
    ensures
        sub_borrow_in(16, z, y, s, i) == add_carry_in(16, x, y, s, i),
    decreases i - s,
{
    if i > s {
        lemma_hex_borrow_eq_carry(x, y, z, s, i - 1);
        lemma_add_carry_in_bound(16, x, y, s, i - 1);
        let cin = add_carry_in(16, x, y, s, i - 1);
        let t = x[i - 1] + y[i - 1] + cin;
        if t >= 16 {
            assert(z[i - 1] == (t - 16) % 16);
            assert(z[i - 1] == t - 16);
        } else {
            assert(z[i - 1] == t % 16);
            assert(z[i - 1] == t);
        }
    }
}

/// Hexadecimal add then subtract of the same window is the identity: if
/// `z` holds the digits of `x + y` at modulus 16, then subtracting `y` from
/// `z` restores every digit of `x`, and the subtraction's borrow out equals
/// the addition's carry out.
pub proof fn lemma_hex_add_sub_inverse(x: Seq<u8>, y: Seq<u8>, z: Seq<u8>, s: int, i: int)
    requires
        s <= i,
        forall|j: int| s <= j < i ==> x[j] < 16,
        forall|j: int| s <= j < i ==> y[j] < 16,
        forall|j: int| s <= j < i ==> z[j] == add_digit(16, x, y, s, j),
    ensures
        sub_borrow_in(16, z, y, s, i) == add_carry_in(16, x, y, s, i),
        forall|j: int| s <= j < i ==> sub_digit(16, z, y, s, j) == x[j],
{
    lemma_hex_borrow_eq_carry(x, y, z, s, i);
    assert forall|j: int| s <= j < i implies sub_digit(16, z, y, s, j) == x[j] by {
        lemma_hex_borrow_eq_carry(x, y, z, s, j);
        lemma_add_carry_in_bound(16, x, y, s, j);
        let cj = add_carry_in(16, x, y, s, j);
        let t = x[j] + y[j] + cj;
        if t >= 16 {
            assert(z[j] == (t - 16) % 16);
            assert(z[j] == t - 16);
        } else {
            assert(z[j] == t % 16);
            assert(z[j] == t);
        }
    };
}

/// Every carry in the addition recurrence is 0 or 1.
pub proof fn lemma_add_carry_in_bound(m: int, x: Seq<u8>, y: Seq<u8>, s: int, i: int)
    ensures
        0 <= add_carry_in(m, x, y, s, i) <= 1,
    decreases i - s,
{
    if i > s {
        lemma_add_carry_in_bound(m, x, y, s, i - 1);
    }
}

/// Every borrow in the subtraction recurrence is 0 or 1.
pub proof fn lemma_sub_borrow_in_bound(m: int, x: Seq<u8>, y: Seq<u8>, s: int, i: int)
    ensures
        0 <= sub_borrow_in(m, x, y, s, i) <= 1,
    decreases i - s,
{
    if i > s {
        lemma_sub_borrow_in_bound(m, x, y, s, i - 1);
    }
}

} // verus!
