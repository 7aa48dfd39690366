//! State persistence: the big-endian binary state layout, ROM/RAM loading in
//! nibble or packed form, and nibble packing for RAM snapshots.

use vstd::prelude::*;
use crate::cpu::Saturn;
use crate::types::{Model, HEX, NR_MCTL};

verus! {

pub const STATE_MAGIC: u32 = 0x48503438;
pub const VERSION_MAJOR: u8 = 0x04;
pub const VERSION_MINOR: u8 = 0x04;
pub const PATCHLEVEL: u8 = 0x00;
pub const COMPILE_VERSION: u8 = 0x00;

/// Total length in bytes of a serialized state.
pub const STATE_LEN: usize = 372;

/// The big-endian 16-bit value at offset `off`.
pub open spec fn be16(b: Seq<u8>, off: int) -> int {
    b[off] * 0x100 + b[off + 1]
}

/// The big-endian 32-bit value at offset `off`.
pub open spec fn be32(b: Seq<u8>, off: int) -> int {
    b[off] * 0x1000000 + b[off + 1] * 0x10000 + b[off + 2] * 0x100 + b[off + 3]
}

/// Whether a state blob is accepted: long enough, right magic, version at
/// least 0.4.0, and the control fields that index arrays in range.
pub open spec fn spec_state_ok(b: Seq<u8>) -> bool {
    &&& b.len() >= STATE_LEN
    &&& be32(b, 0) == STATE_MAGIC
    &&& be32(b, 4) >= 0x00040000
    &&& -1 <= sext16(be16(b, 226)) < 8
    &&& forall|i: int| 0 <= i < 6 ==> 0 <= sext16(#[trigger] be16(b, 312 + 10 * i)) <= 2
}

/// The signed value a big-endian 16-bit field stands for.
pub open spec fn sext16(v: int) -> int {
    if v < 0x8000 {
        v
    } else {
        v - 0x10000
    }
}

/// The signed value an 8-bit field stands for.
pub open spec fn sext8(v: int) -> int {
    if v < 0x80 {
        v
    } else {
        v - 0x100
    }
}

/// How a parsed Saturn state relates to the bytes it was read from: every
/// field comes from its fixed offset; 20-bit and 4-bit fields are masked to
/// width on the way in.
pub open spec fn spec_state_matches(b: Seq<u8>, s: Saturn) -> bool {
    &&& s.magic == be32(b, 0)
    &&& forall|i: int| 0 <= i < 4 ==> s.version@[i] == b[4 + i]
    &&& forall|i: int| 0 <= i < 16 ==> s.a@[i] == b[8 + i]
    &&& forall|i: int| 0 <= i < 16 ==> s.b@[i] == b[24 + i]
    &&& forall|i: int| 0 <= i < 16 ==> s.c@[i] == b[40 + i]
    &&& forall|i: int| 0 <= i < 16 ==> s.d@[i] == b[56 + i]
    &&& s.d0 == be32(b, 72) % 0x100000
    &&& s.d1 == be32(b, 76) % 0x100000
    &&& s.p == b[80] % 16
    &&& s.pc == be32(b, 81) % 0x100000
    &&& forall|i: int| 0 <= i < 16 ==> s.r0@[i] == b[85 + i]
    &&& forall|i: int| 0 <= i < 16 ==> s.r1@[i] == b[101 + i]
    &&& forall|i: int| 0 <= i < 16 ==> s.r2@[i] == b[117 + i]
    &&& forall|i: int| 0 <= i < 16 ==> s.r3@[i] == b[133 + i]
    &&& forall|i: int| 0 <= i < 16 ==> s.r4@[i] == b[149 + i]
    &&& forall|i: int| 0 <= i < 4 ==> s.in_reg@[i] == b[165 + i]
    &&& forall|i: int| 0 <= i < 3 ==> s.out@[i] == b[169 + i]
    &&& s.carry == b[172]
    &&& forall|i: int| 0 <= i < 16 ==> s.pstat@[i] == b[173 + i]
    &&& s.xm == b[189]
    &&& s.sb == b[190]
    &&& s.sr == b[191]
    &&& s.mp == b[192]
    &&& s.hexmode == b[193]
    &&& forall|i: int| 0 <= i < 8 ==> s.rstk@[i] == be32(b, 194 + 4 * i) % 0x100000
    &&& s.rstkp == sext16(be16(b, 226))
    &&& forall|i: int| 0 <= i < 9 ==> s.keybuf.rows@[i] == be16(b, 228 + 2 * i)
    &&& s.intenable == b[246]
    &&& s.int_pending == b[247]
    &&& s.kbd_ien == b[248]
    &&& s.disp_io == b[249]
    &&& s.contrast_ctrl == b[250]
    &&& s.disp_test == b[251]
    &&& s.crc == be16(b, 252)
    &&& s.power_status == b[254]
    &&& s.power_ctrl == b[255]
    &&& s.mode == b[256]
    &&& s.annunc == b[257]
    &&& s.baud == b[258]
    &&& s.card_ctrl == b[259]
    &&& s.card_status == b[260]
    &&& s.io_ctrl == b[261]
    &&& s.rcs == b[262]
    &&& s.tcs == b[263]
    &&& s.rbr == b[264]
    &&& s.tbr == b[265]
    &&& s.sreq == b[266]
    &&& s.ir_ctrl == b[267]
    &&& s.base_off == b[268]
    &&& s.lcr == b[269]
    &&& s.lbr == b[270]
    &&& s.scratch == b[271]
    &&& s.base_nibble == b[272]
    &&& s.disp_addr == be32(b, 273) % 0x100000
    &&& s.line_offset == be16(b, 277)
    &&& s.line_count == b[279]
    &&& s.unknown == be16(b, 280)
    &&& s.t1_ctrl == b[282]
    &&& s.t2_ctrl == b[283]
    &&& s.menu_addr == be32(b, 284) % 0x100000
    &&& s.unknown2 == b[288]
    &&& s.timer1 == sext8(b[289] as int)
    &&& s.timer2 == crate::types::i32_of_u32_bits(be32(b, 290) as u32)
    &&& s.t1_instr == crate::types::i32_of_u32_bits(be32(b, 294) as u32)
    &&& s.t2_instr == crate::types::i32_of_u32_bits(be32(b, 298) as u32)
    &&& s.t1_tick == sext16(be16(b, 302))
    &&& s.t2_tick == sext16(be16(b, 304))
    &&& s.i_per_s == crate::types::i32_of_u32_bits(be32(b, 306) as u32)
    &&& s.bank_switch == be16(b, 310)
    &&& forall|i: int| 0 <= i < 6 ==> (#[trigger] s.mem_cntl@[i]).unconfigured == sext16(
        be16(b, 312 + 10 * i),
    )
    &&& forall|i: int| 0 <= i < 6 ==> (#[trigger] s.mem_cntl@[i]).config@[0] == be32(
        b,
        314 + 10 * i,
    )
    &&& forall|i: int| 0 <= i < 6 ==> (#[trigger] s.mem_cntl@[i]).config@[1] == be32(
        b,
        318 + 10 * i,
    )
}

/// Reads the byte at a fixed offset.
fn byte_at(data: &[u8], i: usize) -> (r: u8)
    requires
        i < data@.len(),
        i <= 0x10000,
    ensures
        r == data@[i as int],
{
    data[i]
}

/// Reads a big-endian 16-bit value.
fn read_be16(data: &[u8], off: usize) -> (r: u16)
    requires
        off + 2 <= data@.len(),
        off <= 0x10000,
    ensures
        r == be16(data@, off as int),
{
    (data[off] as u16) * 0x100 + data[off + 1] as u16
}

/// Reads a big-endian 32-bit value.
fn read_be32(data: &[u8], off: usize) -> (r: u32)
    requires
        off + 4 <= data@.len(),
        off <= 0x10000,
    ensures
        r == be32(data@, off as int),
{
    (data[off] as u32) * 0x1000000 + (data[off + 1] as u32) * 0x10000 + (data[off + 2] as u32)
        * 0x100 + data[off + 3] as u32
}

/// Reads a 16-byte register image.
fn read_reg16(data: &[u8], off: usize) -> (r: [u8; 16])
    requires
        off + 16 <= data@.len(),
        off <= 0x10000,
    ensures
        forall|i: int| 0 <= i < 16 ==> r@[i] == data@[off + i],
{
    let mut out: [u8; 16] = [0; 16];
    let mut i: usize = 0;
    while i < 16
        invariant
            i <= 16,
            off + 16 <= data@.len(),
            off <= 0x10000,
            forall|j: int| 0 <= j < i ==> out@[j] == data@[off + j],
        decreases 16 - i,
    {
        out[i] = data[off + i];
        i += 1;
    }
    out
}

/// The signed value of a 16-bit field.
fn to_i16(v: u16) -> (r: i16)
    ensures
        r as int == sext16(v as int),
{
    if v < 0x8000 {
        v as i16
    } else {
        let w: i32 = v as i32 - 0x10000;
        w as i16
    }
}

/// Reads a version 0.4.0 state blob.  Returns true and replaces the state
/// only when the blob is accepted (long enough, magic, version, control
/// fields in range); a rejected blob leaves the state untouched.
#[verifier::rlimit(100)]
#[verifier::spinoff_prover]
pub fn read_state(data: &[u8], saturn: &mut Saturn) -> (r: bool)
    ensures
        r == spec_state_ok(data@),
        r ==> spec_state_matches(data@, *final(saturn)),
        r ==> final(saturn).wf(),
        !r ==> *final(saturn) == *old(saturn),
{
    if data.len() < STATE_LEN {
        return false;
    }
    let magic: u32 = read_be32(data, 0);
    if magic != STATE_MAGIC {
        return false;
    }
    let version: u32 = read_be32(data, 4);
    if version < 0x00040000 {
        return false;
    }
    let rstkp: i16 = to_i16(read_be16(data, 226));
    if rstkp < -1 || rstkp >= 8 {
        return false;
    }
    let mut k: usize = 0;
    while k < 6
        invariant
            k <= 6,
            data@.len() >= 372,
            forall|i: int| 0 <= i < k ==> 0 <= sext16(#[trigger] be16(data@, 312 + 10 * i)) <= 2,
        decreases 6 - k,
    {
        let u: i16 = to_i16(read_be16(data, 312 + 10 * k));
        if u < 0 || u > 2 {
            return false;
        }
        k += 1;
    }
    let mut s: Saturn = *saturn;
    s.magic = magic;
    s.version = [data[4], data[5], data[6], data[7]];
    s.a = read_reg16(data, 8);
    s.b = read_reg16(data, 24);
    s.c = read_reg16(data, 40);
    s.d = read_reg16(data, 56);
    s.d0 = read_be32(data, 72) % 0x100000;
    s.d1 = read_be32(data, 76) % 0x100000;
    s.p = byte_at(data, 80) % 16;
    s.pc = read_be32(data, 81) % 0x100000;
    s.r0 = read_reg16(data, 85);
    s.r1 = read_reg16(data, 101);
    s.r2 = read_reg16(data, 117);
    s.r3 = read_reg16(data, 133);
    s.r4 = read_reg16(data, 149);
    s.in_reg = [data[165], data[166], data[167], data[168]];
    s.out = [data[169], data[170], data[171]];
    s.carry = byte_at(data, 172);
    s.pstat = read_reg16(data, 173);
    s.xm = byte_at(data, 189);
    s.sb = byte_at(data, 190);
    s.sr = byte_at(data, 191);
    s.mp = byte_at(data, 192);
    s.hexmode = byte_at(data, 193);
    let mut rstk: [u32; 8] = [0; 8];
    let mut i: usize = 0;
    while i < 8
        invariant
            i <= 8,
            data@.len() >= 372,
            forall|j: int| 0 <= j < i ==> rstk@[j] == be32(data@, 194 + 4 * j) % 0x100000,
        decreases 8 - i,
    {
        rstk[i] = read_be32(data, 194 + 4 * i) % 0x100000;
        i += 1;
    }
    s.rstk = rstk;
    s.rstkp = rstkp;
    let mut rows: [u16; 9] = [0; 9];
    let mut i2: usize = 0;
    while i2 < 9
        invariant
            i2 <= 9,
            data@.len() >= 372,
            forall|j: int| 0 <= j < i2 ==> rows@[j] == be16(data@, 228 + 2 * j),
        decreases 9 - i2,
    {
        rows[i2] = read_be16(data, 228 + 2 * i2);
        i2 += 1;
    }
    s.keybuf = crate::cpu::KeyState { rows };
    s.intenable = byte_at(data, 246);
    s.int_pending = byte_at(data, 247);
    s.kbd_ien = byte_at(data, 248);
    s.disp_io = byte_at(data, 249);
    s.contrast_ctrl = byte_at(data, 250);
    s.disp_test = byte_at(data, 251);
    s.crc = read_be16(data, 252);
    s.power_status = byte_at(data, 254);
    s.power_ctrl = byte_at(data, 255);
    s.mode = byte_at(data, 256);
    s.annunc = byte_at(data, 257);
    s.baud = byte_at(data, 258);
    s.card_ctrl = byte_at(data, 259);
    s.card_status = byte_at(data, 260);
    s.io_ctrl = byte_at(data, 261);
    s.rcs = byte_at(data, 262);
    s.tcs = byte_at(data, 263);
    s.rbr = byte_at(data, 264);
    s.tbr = byte_at(data, 265);
    s.sreq = byte_at(data, 266);
    s.ir_ctrl = byte_at(data, 267);
    s.base_off = byte_at(data, 268);
    s.lcr = byte_at(data, 269);
    s.lbr = byte_at(data, 270);
    s.scratch = byte_at(data, 271);
    s.base_nibble = byte_at(data, 272);
    s.disp_addr = read_be32(data, 273) % 0x100000;
    s.line_offset = read_be16(data, 277);
    s.line_count = byte_at(data, 279);
    s.unknown = read_be16(data, 280);
    s.t1_ctrl = byte_at(data, 282);
    s.t2_ctrl = byte_at(data, 283);
    s.menu_addr = read_be32(data, 284) % 0x100000;
    s.unknown2 = byte_at(data, 288);
    let t1b: u8 = byte_at(data, 289);
    s.timer1 = if t1b < 0x80 {
        t1b as i8
    } else {
        ((t1b as i16 - 0x100) as i8)
    };
    s.timer2 = crate::types::i32_from_bits(read_be32(data, 290));
    s.t1_instr = crate::types::i32_from_bits(read_be32(data, 294));
    s.t2_instr = crate::types::i32_from_bits(read_be32(data, 298));
    s.t1_tick = to_i16(read_be16(data, 302));
    s.t2_tick = to_i16(read_be16(data, 304));
    s.i_per_s = crate::types::i32_from_bits(read_be32(data, 306));
    s.bank_switch = read_be16(data, 310);
    let mut mc: [crate::types::MemCntl; 6] = [
        crate::types::MemCntl { unconfigured: 0, config: [0, 0] },
        crate::types::MemCntl { unconfigured: 0, config: [0, 0] },
        crate::types::MemCntl { unconfigured: 0, config: [0, 0] },
        crate::types::MemCntl { unconfigured: 0, config: [0, 0] },
        crate::types::MemCntl { unconfigured: 0, config: [0, 0] },
        crate::types::MemCntl { unconfigured: 0, config: [0, 0] },
    ];
    let mut i3: usize = 0;
    while i3 < 6
        invariant
            i3 <= 6,
            data@.len() >= 372,
            forall|j: int| 0 <= j < 6 ==> 0 <= sext16(#[trigger] be16(data@, 312 + 10 * j)) <= 2,
            forall|j: int| 0 <= j < i3 ==> (#[trigger] mc@[j]).unconfigured == sext16(
                be16(data@, 312 + 10 * j),
            ),
            forall|j: int| 0 <= j < i3 ==> (#[trigger] mc@[j]).config@[0] == be32(
                data@,
                314 + 10 * j,
            ),
            forall|j: int| 0 <= j < i3 ==> (#[trigger] mc@[j]).config@[1] == be32(
                data@,
                318 + 10 * j,
            ),
            forall|j: int| 0 <= j < i3 ==> 0 <= (#[trigger] mc@[j]).unconfigured <= 2,
        decreases 6 - i3,
    {
        mc[i3] = crate::types::MemCntl {
            unconfigured: to_i16(read_be16(data, 312 + 10 * i3)),
            config: [read_be32(data, 314 + 10 * i3), read_be32(data, 318 + 10 * i3)],
        };
        i3 += 1;
    }
    s.mem_cntl = mc;
    *saturn = s;
    true
}

/// Writes one byte of the state image.
fn put8(buf: &mut [u8; 372], off: usize, v: u8)
    requires
        off < 372,
    ensures
        final(buf)@ == old(buf)@.update(off as int, v),
{
    buf[off] = v;
}

/// Writes a big-endian 16-bit value into the state image.
fn putb16(buf: &mut [u8; 372], off: usize, v: u16)
    requires
        off + 2 <= 372,
    ensures
        final(buf)@[off as int] == (v / 0x100) as u8,
        final(buf)@[off + 1] == (v % 0x100) as u8,
        forall|j: int| 0 <= j < 372 && !(off <= j < off + 2) ==> final(buf)@[j] == old(buf)@[j],
        be16(final(buf)@, off as int) == v,
{
    buf[off] = (v / 0x100) as u8;
    buf[off + 1] = (v % 0x100) as u8;
}

/// Writes a big-endian 32-bit value into the state image.
fn putb32(buf: &mut [u8; 372], off: usize, v: u32)
    requires
        off + 4 <= 372,
    ensures
        forall|j: int| 0 <= j < 372 && !(off <= j < off + 4) ==> final(buf)@[j] == old(buf)@[j],
        be32(final(buf)@, off as int) == v,
{
    buf[off] = (v / 0x1000000) as u8;
    buf[off + 1] = ((v / 0x10000) % 0x100) as u8;
    buf[off + 2] = ((v / 0x100) % 0x100) as u8;
    buf[off + 3] = (v % 0x100) as u8;
}

/// Writes a 16-byte register image into the state image.
fn putreg(buf: &mut [u8; 372], off: usize, r: &[u8; 16])
    requires
        off + 16 <= 372,
    ensures
        forall|i: int| 0 <= i < 16 ==> final(buf)@[off + i] == r@[i],
        forall|j: int| 0 <= j < 372 && !(off <= j < off + 16) ==> final(buf)@[j] == old(buf)@[j],
{
    let mut i: usize = 0;
    while i < 16
        invariant
            i <= 16,
            off + 16 <= 372,
            forall|j: int| 0 <= j < i ==> buf@[off + j] == r@[j],
            forall|j: int| 0 <= j < 372 && !(off <= j < off + i) ==> buf@[j] == old(buf)@[j],
        decreases 16 - i,
    {
        buf[off + i] = r[i];
        i += 1;
    }
}

/// The unsigned 16-bit image of a signed field.
fn u16_of_i16(v: i16) -> (r: u16)
    ensures
        sext16(r as int) == v,
{
    if v >= 0 {
        v as u16
    } else {
        ((v as i32) + 0x10000) as u16
    }
}

/// The signed value of a two's-complement 32-bit image is the value whose
/// image it is.
pub proof fn lemma_i32_bits_roundtrip(v: i32)
    ensures
        crate::types::i32_of_u32_bits((crate::types::u32_bits_of_i32(v)) as u32) == v,
{
}

/// Initializes a Saturn state to the power-on defaults.
pub fn init_saturn(saturn: &mut Saturn, model: Model)
    ensures
        final(saturn).magic == STATE_MAGIC,
        final(saturn).pc == 0,
        final(saturn).hexmode == HEX,
        final(saturn).rstkp == -1,
        final(saturn).intenable == 1,
        final(saturn).int_pending == 0,
        final(saturn).kbd_ien == 1,
        final(saturn).timer1 == 0,
        final(saturn).timer2 == 0x2000,
        final(saturn).t1_tick == 8192,
        final(saturn).t2_tick == 16,
        final(saturn).i_per_s == 0,
        final(saturn).bank_switch == 0,
        forall|i: int| 0 <= i < 4 ==> final(saturn).version@[i] == seq![
            VERSION_MAJOR,
            VERSION_MINOR,
            PATCHLEVEL,
            COMPILE_VERSION,
        ][i],
        forall|i: int| 0 <= i < 6 ==> (#[trigger] final(saturn).mem_cntl@[i]).unconfigured == (
        if i == 0 {
            1i16
        } else if i == 5 {
            0i16
        } else {
            2i16
        }),
        forall|i: int| 0 <= i < 6 ==> (#[trigger] final(saturn).mem_cntl@[i]).config@[0] == 0,
        forall|i: int| 0 <= i < 6 ==> (#[trigger] final(saturn).mem_cntl@[i]).config@[1] == 0,
        final(saturn).wf(),
        final(saturn).regs_valid(),
{
    let _ = model;
    let mut s: Saturn = Saturn::default();
    s.pc = 0;
    s.magic = STATE_MAGIC;
    s.t1_tick = 8192;
    s.t2_tick = 16;
    s.i_per_s = 0;
    s.version = [VERSION_MAJOR, VERSION_MINOR, PATCHLEVEL, COMPILE_VERSION];
    s.hexmode = HEX;
    s.rstkp = -1;
    s.intenable = 1;
    s.int_pending = 0;
    s.kbd_ien = 1;
    s.timer1 = 0;
    s.timer2 = 0x2000;
    s.bank_switch = 0;
    let mut i: usize = 0;
    while i < NR_MCTL
        invariant
            i <= 6,
            s.wf(),
            s.regs_valid(),
            s == (Saturn { mem_cntl: s.mem_cntl, ..s }),
            forall|j: int| 0 <= j < i ==> (#[trigger] s.mem_cntl@[j]).unconfigured == (if j == 0 {
                1i16
            } else if j == 5 {
                0i16
            } else {
                2i16
            }),
            forall|j: int| 0 <= j < i ==> (#[trigger] s.mem_cntl@[j]).config@[0] == 0,
            forall|j: int| 0 <= j < i ==> (#[trigger] s.mem_cntl@[j]).config@[1] == 0,
            s.magic == STATE_MAGIC,
            s.pc == 0,
            s.hexmode == HEX,
            s.rstkp == -1,
            s.intenable == 1,
            s.int_pending == 0,
            s.kbd_ien == 1,
            s.timer1 == 0,
            s.timer2 == 0x2000,
            s.t1_tick == 8192,
            s.t2_tick == 16,
            s.i_per_s == 0,
            s.bank_switch == 0,
            s.version@ =~= seq![VERSION_MAJOR, VERSION_MINOR, PATCHLEVEL, COMPILE_VERSION],
        decreases 6 - i,
    {
        let u: i16 = if i == 0 {
            1
        } else if i == 5 {
            0
        } else {
            2
        };
        s.mem_cntl[i] = crate::types::MemCntl { unconfigured: u, config: [0, 0] };
        i += 1;
    }
    *saturn = s;
}

/// Applies the configuration defaults that follow any state load.
pub fn saturn_config_init(saturn: &mut Saturn)
    ensures
        *final(saturn) == (Saturn {
            version: final(saturn).version,
            rcs: 0,
            tcs: 0,
            lbr: 0,
            ..*old(saturn)
        }),
        final(saturn).version@ =~= seq![VERSION_MAJOR, VERSION_MINOR, PATCHLEVEL, COMPILE_VERSION],
{
    saturn.version = [VERSION_MAJOR, VERSION_MINOR, PATCHLEVEL, COMPILE_VERSION];
    saturn.rcs = 0;
    saturn.tcs = 0;
    saturn.lbr = 0;
}

/// The nibble sequence a byte sequence unpacks to, low nibble first.
pub open spec fn spec_unpacked(b: Seq<u8>) -> Seq<u8> {
    Seq::new(b.len() * 2, |i: int| if i % 2 == 0 {
        (b[i / 2] % 16) as u8
    } else {
        (b[i / 2] / 16) as u8
    })
}

/// The byte sequence an even-length nibble sequence packs to.
pub open spec fn spec_packed(n: Seq<u8>) -> Seq<u8> {
    Seq::new(n.len() / 2, |i: int| (n[2 * i] % 16 + (n[2 * i + 1] % 16) * 16) as u8)
}

/// Packing undoes unpacking: for every byte sequence, unpacking to nibbles
/// and packing again restores the bytes exactly.
pub proof fn lemma_pack_unpack_roundtrip(b: Seq<u8>)
    ensures
        spec_packed(spec_unpacked(b)) =~= b,
{
    assert forall|i: int| 0 <= i < b.len() implies spec_packed(spec_unpacked(b))[i] == b[i] by {
        let n = spec_unpacked(b);
        assert(n[2 * i] == b[i] % 16);
        assert(n[2 * i + 1] == b[i] / 16);
    };
}

/// Loads a ROM image: nibble-per-byte images are taken as they are, packed
/// images are expanded low nibble first; a short nibble-format image (more
/// than half the expected size) is zero-padded, and anything else is
/// expanded as packed and adjusted to the expected size.  Every loaded
/// value is masked to a nibble.
pub fn load_rom(data: &[u8], expected_size: usize) -> (r: Vec<u8>)
    ensures
        r@.len() == expected_size,
        forall|i: int| 0 <= i < r@.len() ==> r@[i] < 16,
        data@.len() == expected_size ==> forall|i: int| 0 <= i < r@.len() ==> r@[i] == data@[i]
            % 16,
        expected_size / 2 < data@.len() < expected_size ==> forall|i: int|
            0 <= i < r@.len() ==> r@[i] == (if i < data@.len() {
                data@[i] % 16
            } else {
                0u8
            }),
        data@.len() == expected_size / 2 && expected_size % 2 == 0 ==> forall|i: int|
            0 <= i < r@.len() ==> r@[i] == spec_unpacked(data@)[i],
{
    let mut out: Vec<u8> = Vec::new();
    if data.len() > expected_size / 2 && data.len() < expected_size {
        let mut i: usize = 0;
        while i < data.len()
            invariant
                i <= data@.len(),
                data@.len() < expected_size,
                out@.len() == i,
                forall|j: int| 0 <= j < i ==> out@[j] == data@[j] % 16,
            decreases data@.len() - i,
        {
            out.push(data[i] % 16);
            i += 1;
        }
        while out.len() < expected_size
            invariant
                data@.len() <= out@.len() <= expected_size,
                forall|j: int| 0 <= j < data@.len() ==> out@[j] == data@[j] % 16,
                forall|j: int| data@.len() <= j < out@.len() ==> out@[j] == 0,
            decreases expected_size - out@.len(),
        {
            out.push(0);
        }
        return out;
    }
    if data.len() == expected_size {
        let mut i: usize = 0;
        while i < expected_size
            invariant
                i <= expected_size,
                data@.len() == expected_size,
                out@.len() == i,
                forall|j: int| 0 <= j < i ==> out@[j] == data@[j] % 16,
                forall|j: int| 0 <= j < i ==> out@[j] < 16,
            decreases expected_size - i,
        {
            out.push(data[i] % 16);
            i += 1;
        }
        out
    } else {
        let n: usize = if data.len() < expected_size / 2 {
            data.len()
        } else {
            expected_size / 2
        };
        let mut i: usize = 0;
        while i < n
            invariant
                i <= n,
                n <= data@.len(),
                2 * n <= expected_size,
                out@.len() == 2 * i,
                forall|j: int| 0 <= j < out@.len() ==> out@[j] < 16,
                forall|j: int| 0 <= j < i ==> out@[2 * j] == data@[j] % 16,
                forall|j: int| 0 <= j < i ==> out@[2 * j + 1] == data@[j] / 16,
            decreases n - i,
        {
            out.push(data[i] % 16);
            out.push(data[i] / 16);
            i += 1;
        }
        let ghost filled = out@;
        while out.len() < expected_size
            invariant
                filled.len() <= out@.len() <= expected_size,
                forall|j: int| 0 <= j < filled.len() ==> out@[j] == filled[j],
                forall|j: int| filled.len() <= j < out@.len() ==> out@[j] == 0,
                forall|j: int| 0 <= j < filled.len() ==> filled[j] < 16,
            decreases expected_size - out@.len(),
        {
            out.push(0);
        }
        proof {
            assert forall|j: int| 0 <= j < out@.len() implies out@[j] < 16 by {
                if j < filled.len() {
                    assert(out@[j] == filled[j]);
                } else {
                    assert(out@[j] == 0);
                }
            };
            if data@.len() == expected_size / 2 && expected_size % 2 == 0 {
                assert(n == data@.len());
                assert forall|i2: int| 0 <= i2 < expected_size implies out@[i2] == spec_unpacked(
                    data@,
                )[i2] by {
                    assert(out@[2 * (i2 / 2)] == filled[2 * (i2 / 2)]);
                    assert(out@[2 * (i2 / 2) + 1] == filled[2 * (i2 / 2) + 1]);
                    if i2 % 2 == 0 {
                        assert(filled[2 * (i2 / 2)] == data@[i2 / 2] % 16);
                    } else {
                        assert(filled[2 * (i2 / 2) + 1] == data@[i2 / 2] / 16);
                    }
                };
            }
        }
        out
    }
}

/// Loads a RAM image; the format handling is the same as for ROM.
pub fn load_ram(data: &[u8], expected_size: usize) -> (r: Vec<u8>)
    ensures
        r@.len() == expected_size,
        forall|i: int| 0 <= i < r@.len() ==> r@[i] < 16,
        data@.len() == expected_size ==> forall|i: int| 0 <= i < r@.len() ==> r@[i] == data@[i]
            % 16,
        data@.len() == expected_size / 2 && expected_size % 2 == 0 ==> forall|i: int|
            0 <= i < r@.len() ==> r@[i] == spec_unpacked(data@)[i],
{
    load_rom(data, expected_size)
}

/// Packs a nibble array two per byte, low nibble first; a trailing odd
/// nibble pairs with zero.
pub fn pack_nibbles(nibbles: &Vec<u8>) -> (r: Vec<u8>)
    ensures
        r@.len() == nibbles@.len() / 2,
        forall|i: int| 0 <= i < r@.len() ==> r@[i] == (nibbles@[2 * i] % 16 + (nibbles@[2 * i + 1]
            % 16) * 16) as u8,
        nibbles@.len() % 2 == 0 ==> r@ =~= spec_packed(nibbles@),
{
    let mut out: Vec<u8> = Vec::new();
    let n: usize = nibbles.len() / 2;
    let mut i: usize = 0;
    while i < n
        invariant
            i <= n,
            n == nibbles@.len() / 2,
            n <= usize::MAX / 2,
            out@.len() == i,
            forall|j: int| 0 <= j < i ==> out@[j] == (nibbles@[2 * j] % 16 + (nibbles@[2 * j + 1]
                % 16) * 16) as u8,
        decreases n - i,
    {
        let lo: u8 = nibbles[2 * i] % 16;
        let hi: u8 = nibbles[2 * i + 1] % 16;
        out.push(lo + hi * 16);
        i += 1;
    }
    out
}

/// Fills bytes 0..194 of the state image: magic, version, the working and
/// scratch registers, pointers, PC, IN/OUT, carry, program status and the
/// hardware status bits.
#[verifier::rlimit(100)]
#[verifier::spinoff_prover]
fn fill_state_head(b: &mut [u8; 372], s: &Saturn)
    ensures
        forall|j: int| 194 <= j < 372 ==> final(b)@[j] == old(b)@[j],
        be32(final(b)@, 0) == s.magic,
        forall|i: int| 0 <= i < 4 ==> final(b)@[4 + i] == s.version@[i],
        forall|i: int| 0 <= i < 16 ==> final(b)@[8 + i] == s.a@[i],
        forall|i: int| 0 <= i < 16 ==> final(b)@[24 + i] == s.b@[i],
        forall|i: int| 0 <= i < 16 ==> final(b)@[40 + i] == s.c@[i],
        forall|i: int| 0 <= i < 16 ==> final(b)@[56 + i] == s.d@[i],
        be32(final(b)@, 72) == s.d0,
        be32(final(b)@, 76) == s.d1,
        final(b)@[80] == s.p,
        be32(final(b)@, 81) == s.pc,
        forall|i: int| 0 <= i < 16 ==> final(b)@[85 + i] == s.r0@[i],
        forall|i: int| 0 <= i < 16 ==> final(b)@[101 + i] == s.r1@[i],
        forall|i: int| 0 <= i < 16 ==> final(b)@[117 + i] == s.r2@[i],
        forall|i: int| 0 <= i < 16 ==> final(b)@[133 + i] == s.r3@[i],
        forall|i: int| 0 <= i < 16 ==> final(b)@[149 + i] == s.r4@[i],
        forall|i: int| 0 <= i < 4 ==> final(b)@[165 + i] == s.in_reg@[i],
        forall|i: int| 0 <= i < 3 ==> final(b)@[169 + i] == s.out@[i],
        final(b)@[172] == s.carry,
        forall|i: int| 0 <= i < 16 ==> final(b)@[173 + i] == s.pstat@[i],
        final(b)@[189] == s.xm,
        final(b)@[190] == s.sb,
        final(b)@[191] == s.sr,
        final(b)@[192] == s.mp,
        final(b)@[193] == s.hexmode,
{
    putb32(b, 0, s.magic);
    put8(b, 4, s.version[0]);
    put8(b, 5, s.version[1]);
    put8(b, 6, s.version[2]);
    put8(b, 7, s.version[3]);
    putreg(b, 8, &s.a);
    putreg(b, 24, &s.b);
    putreg(b, 40, &s.c);
    putreg(b, 56, &s.d);
    putb32(b, 72, s.d0);
    putb32(b, 76, s.d1);
    put8(b, 80, s.p);
    putb32(b, 81, s.pc);
    putreg(b, 85, &s.r0);
    putreg(b, 101, &s.r1);
    putreg(b, 117, &s.r2);
    putreg(b, 133, &s.r3);
    putreg(b, 149, &s.r4);
    put8(b, 165, s.in_reg[0]);
    put8(b, 166, s.in_reg[1]);
    put8(b, 167, s.in_reg[2]);
    put8(b, 168, s.in_reg[3]);
    put8(b, 169, s.out[0]);
    put8(b, 170, s.out[1]);
    put8(b, 171, s.out[2]);
    put8(b, 172, s.carry);
    putreg(b, 173, &s.pstat);
    put8(b, 189, s.xm);
    put8(b, 190, s.sb);
    put8(b, 191, s.sr);
    put8(b, 192, s.mp);
    put8(b, 193, s.hexmode);
}

/// Fills bytes 194..312: the return stack, key buffer, interrupt flags and
/// the device register file through the bank switch.
#[verifier::rlimit(100)]
#[verifier::spinoff_prover]
fn fill_state_mid(b: &mut [u8; 372], s: &Saturn)
    ensures
        forall|j: int| 0 <= j < 194 ==> final(b)@[j] == old(b)@[j],
        forall|j: int| 312 <= j < 372 ==> final(b)@[j] == old(b)@[j],
        forall|i: int| 0 <= i < 8 ==> #[trigger] be32(final(b)@, 194 + 4 * i) == s.rstk@[i],
        sext16(be16(final(b)@, 226)) == s.rstkp,
        forall|i: int| 0 <= i < 9 ==> #[trigger] be16(final(b)@, 228 + 2 * i)
            == s.keybuf.rows@[i],
        final(b)@[246] == s.intenable,
        final(b)@[247] == s.int_pending,
        final(b)@[248] == s.kbd_ien,
        final(b)@[249] == s.disp_io,
        final(b)@[250] == s.contrast_ctrl,
        final(b)@[251] == s.disp_test,
        be16(final(b)@, 252) == s.crc,
        final(b)@[254] == s.power_status,
        final(b)@[255] == s.power_ctrl,
        final(b)@[256] == s.mode,
        final(b)@[257] == s.annunc,
        final(b)@[258] == s.baud,
        final(b)@[259] == s.card_ctrl,
        final(b)@[260] == s.card_status,
        final(b)@[261] == s.io_ctrl,
        final(b)@[262] == s.rcs,
        final(b)@[263] == s.tcs,
        final(b)@[264] == s.rbr,
        final(b)@[265] == s.tbr,
        final(b)@[266] == s.sreq,
        final(b)@[267] == s.ir_ctrl,
        final(b)@[268] == s.base_off,
        final(b)@[269] == s.lcr,
        final(b)@[270] == s.lbr,
        final(b)@[271] == s.scratch,
        final(b)@[272] == s.base_nibble,
        be32(final(b)@, 273) == s.disp_addr,
        be16(final(b)@, 277) == s.line_offset,
        final(b)@[279] == s.line_count,
        be16(final(b)@, 280) == s.unknown,
        final(b)@[282] == s.t1_ctrl,
        final(b)@[283] == s.t2_ctrl,
        be32(final(b)@, 284) == s.menu_addr,
        final(b)@[288] == s.unknown2,
        sext8(final(b)@[289] as int) == s.timer1,
        crate::types::i32_of_u32_bits(be32(final(b)@, 290) as u32) == s.timer2,
        crate::types::i32_of_u32_bits(be32(final(b)@, 294) as u32) == s.t1_instr,
        crate::types::i32_of_u32_bits(be32(final(b)@, 298) as u32) == s.t2_instr,
        sext16(be16(final(b)@, 302)) == s.t1_tick,
        sext16(be16(final(b)@, 304)) == s.t2_tick,
        crate::types::i32_of_u32_bits(be32(final(b)@, 306) as u32) == s.i_per_s,
        be16(final(b)@, 310) == s.bank_switch,
{
    putb32(b, 194, s.rstk[0]);
    putb32(b, 198, s.rstk[1]);
    putb32(b, 202, s.rstk[2]);
    putb32(b, 206, s.rstk[3]);
    putb32(b, 210, s.rstk[4]);
    putb32(b, 214, s.rstk[5]);
    putb32(b, 218, s.rstk[6]);
    putb32(b, 222, s.rstk[7]);
    putb16(b, 226, u16_of_i16(s.rstkp));
    putb16(b, 228, s.keybuf.rows[0]);
    putb16(b, 230, s.keybuf.rows[1]);
    putb16(b, 232, s.keybuf.rows[2]);
    putb16(b, 234, s.keybuf.rows[3]);
    putb16(b, 236, s.keybuf.rows[4]);
    putb16(b, 238, s.keybuf.rows[5]);
    putb16(b, 240, s.keybuf.rows[6]);
    putb16(b, 242, s.keybuf.rows[7]);
    putb16(b, 244, s.keybuf.rows[8]);
    put8(b, 246, s.intenable);
    put8(b, 247, s.int_pending);
    put8(b, 248, s.kbd_ien);
    put8(b, 249, s.disp_io);
    put8(b, 250, s.contrast_ctrl);
    put8(b, 251, s.disp_test);
    putb16(b, 252, s.crc);
    put8(b, 254, s.power_status);
    put8(b, 255, s.power_ctrl);
    put8(b, 256, s.mode);
    put8(b, 257, s.annunc);
    put8(b, 258, s.baud);
    put8(b, 259, s.card_ctrl);
    put8(b, 260, s.card_status);
    put8(b, 261, s.io_ctrl);
    put8(b, 262, s.rcs);
    put8(b, 263, s.tcs);
    put8(b, 264, s.rbr);
    put8(b, 265, s.tbr);
    put8(b, 266, s.sreq);
    put8(b, 267, s.ir_ctrl);
    put8(b, 268, s.base_off);
    put8(b, 269, s.lcr);
    put8(b, 270, s.lbr);
    put8(b, 271, s.scratch);
    put8(b, 272, s.base_nibble);
    putb32(b, 273, s.disp_addr);
    putb16(b, 277, s.line_offset);
    put8(b, 279, s.line_count);
    putb16(b, 280, s.unknown);
    put8(b, 282, s.t1_ctrl);
    put8(b, 283, s.t2_ctrl);
    putb32(b, 284, s.menu_addr);
    put8(b, 288, s.unknown2);
    let t1: i16 = s.timer1 as i16;
    put8(b, 289, if t1 >= 0 {
        t1 as u8
    } else {
        (t1 + 0x100) as u8
    });
    putb32(b, 290, crate::types::i32_bits(s.timer2));
    putb32(b, 294, crate::types::i32_bits(s.t1_instr));
    putb32(b, 298, crate::types::i32_bits(s.t2_instr));
    putb16(b, 302, u16_of_i16(s.t1_tick));
    putb16(b, 304, u16_of_i16(s.t2_tick));
    putb32(b, 306, crate::types::i32_bits(s.i_per_s));
    putb16(b, 310, s.bank_switch);
    proof {
        lemma_i32_bits_roundtrip(s.timer2);
        lemma_i32_bits_roundtrip(s.t1_instr);
        lemma_i32_bits_roundtrip(s.t2_instr);
        lemma_i32_bits_roundtrip(s.i_per_s);
    }
}

/// Fills bytes 312..372: the six memory-controller records.
#[verifier::rlimit(100)]
#[verifier::spinoff_prover]
fn fill_state_tail(b: &mut [u8; 372], s: &Saturn)
    ensures
        forall|j: int| 0 <= j < 312 ==> final(b)@[j] == old(b)@[j],
        forall|i: int| 0 <= i < 6 ==> sext16(#[trigger] be16(final(b)@, 312 + 10 * i))
            == s.mem_cntl@[i].unconfigured,
        forall|i: int| 0 <= i < 6 ==> #[trigger] be32(final(b)@, 314 + 10 * i)
            == s.mem_cntl@[i].config@[0],
        forall|i: int| 0 <= i < 6 ==> #[trigger] be32(final(b)@, 318 + 10 * i)
            == s.mem_cntl@[i].config@[1],
{
    putb16(b, 312, u16_of_i16(s.mem_cntl[0].unconfigured));
    putb32(b, 314, s.mem_cntl[0].config[0]);
    putb32(b, 318, s.mem_cntl[0].config[1]);
    putb16(b, 322, u16_of_i16(s.mem_cntl[1].unconfigured));
    putb32(b, 324, s.mem_cntl[1].config[0]);
    putb32(b, 328, s.mem_cntl[1].config[1]);
    putb16(b, 332, u16_of_i16(s.mem_cntl[2].unconfigured));
    putb32(b, 334, s.mem_cntl[2].config[0]);
    putb32(b, 338, s.mem_cntl[2].config[1]);
    putb16(b, 342, u16_of_i16(s.mem_cntl[3].unconfigured));
    putb32(b, 344, s.mem_cntl[3].config[0]);
    putb32(b, 348, s.mem_cntl[3].config[1]);
    putb16(b, 352, u16_of_i16(s.mem_cntl[4].unconfigured));
    putb32(b, 354, s.mem_cntl[4].config[0]);
    putb32(b, 358, s.mem_cntl[4].config[1]);
    putb16(b, 362, u16_of_i16(s.mem_cntl[5].unconfigured));
    putb32(b, 364, s.mem_cntl[5].config[0]);
    putb32(b, 368, s.mem_cntl[5].config[1]);
}

/// Serializes a Saturn state in the version 0.4.0 layout: every field at
/// its fixed big-endian offset.  For a well-formed state the bytes parse
/// back to exactly the state written.
#[verifier::rlimit(100)]
#[verifier::spinoff_prover]
pub fn write_state(saturn: &Saturn) -> (r: Vec<u8>)
    ensures
        r@.len() == STATE_LEN,
        be32(r@, 0) == saturn.magic,
        forall|i: int| 0 <= i < 4 ==> r@[4 + i] == saturn.version@[i],
        saturn.wf() ==> spec_state_matches(r@, *saturn),
{
    let mut b: [u8; 372] = [0; 372];
    fill_state_head(&mut b, saturn);
    fill_state_mid(&mut b, saturn);
    let ghost bmid = b@;
    fill_state_tail(&mut b, saturn);
    let mut out: Vec<u8> = Vec::new();
    let mut k: usize = 0;
    while k < 372
        invariant
            k <= 372,
            out@.len() == k,
            forall|j: int| 0 <= j < k ==> out@[j] == b@[j],
        decreases 372 - k,
    {
        out.push(b[k]);
        k += 1;
    }
    proof {
        assert(out@ =~= b@);
        if saturn.wf() {
            vstd::arithmetic::div_mod::lemma_small_mod(saturn.d0 as nat, 0x100000);
            vstd::arithmetic::div_mod::lemma_small_mod(saturn.d1 as nat, 0x100000);
            vstd::arithmetic::div_mod::lemma_small_mod(saturn.pc as nat, 0x100000);
            vstd::arithmetic::div_mod::lemma_small_mod(saturn.disp_addr as nat, 0x100000);
            vstd::arithmetic::div_mod::lemma_small_mod(saturn.menu_addr as nat, 0x100000);
            assert forall|i: int| 0 <= i < 8 implies saturn.rstk@[i] == #[trigger] be32(
                out@,
                194 + 4 * i,
            ) % 0x100000 by {
                assert(out@[194 + 4 * i] == bmid[194 + 4 * i]);
                assert(out@[194 + 4 * i + 1] == bmid[194 + 4 * i + 1]);
                assert(out@[194 + 4 * i + 2] == bmid[194 + 4 * i + 2]);
                assert(out@[194 + 4 * i + 3] == bmid[194 + 4 * i + 3]);
                assert(be32(bmid, 194 + 4 * i) == saturn.rstk@[i]);
                vstd::arithmetic::div_mod::lemma_small_mod(saturn.rstk@[i] as nat, 0x100000);
            };
            assert forall|i: int| 0 <= i < 9 implies saturn.keybuf.rows@[i] == #[trigger] be16(
                out@,
                228 + 2 * i,
            ) by {
                assert(out@[228 + 2 * i] == bmid[228 + 2 * i]);
                assert(out@[228 + 2 * i + 1] == bmid[228 + 2 * i + 1]);
                assert(be16(bmid, 228 + 2 * i) == saturn.keybuf.rows@[i]);
            };
        }
    }
    out
}

} // verus!
