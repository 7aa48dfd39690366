//! Shared constants and small value types: field codes, hex/dec modes,
//! memory sizes, memory-controller indices and the calculator model.

use vstd::prelude::*;

verus! {

// Field codes selecting a nibble window over a 16-nibble register.
pub const P_FIELD: u8 = 0;
pub const WP_FIELD: u8 = 1;
pub const XS_FIELD: u8 = 2;
pub const X_FIELD: u8 = 3;
pub const S_FIELD: u8 = 4;
pub const M_FIELD: u8 = 5;
pub const B_FIELD: u8 = 6;
pub const W_FIELD: u8 = 7;
pub const A_FIELD: u8 = 15;
pub const IN_FIELD: u8 = 16;
pub const OUT_FIELD: u8 = 17;
pub const OUTS_FIELD: u8 = 18;

// ALU nibble-carry modulus: decimal or hexadecimal.
pub const DEC: u8 = 10;
pub const HEX: u8 = 16;

pub const NR_RSTK: usize = 8;
pub const NR_PSTAT: usize = 16;
pub const NR_MCTL: usize = 6;

// Memory sizes in nibbles.
pub const RAM_SIZE_SX: usize = 0x10000;
pub const RAM_SIZE_GX: usize = 0x40000;
pub const ROM_SIZE_SX: usize = 0x80000;
pub const ROM_SIZE_GX: usize = 0x100000;

pub const NIBBLES_PER_ROW: u32 = 0x22;

// Memory controller indices for the SX model.
pub const MCTL_MMIO_SX: usize = 0;
pub const MCTL_SYSRAM_SX: usize = 1;
pub const MCTL_PORT1_SX: usize = 2;
pub const MCTL_PORT2_SX: usize = 3;
pub const MCTL_EXTRA_SX: usize = 4;
pub const MCTL_SYSROM_SX: usize = 5;

// Memory controller indices for the GX model.
pub const MCTL_MMIO_GX: usize = 0;
pub const MCTL_SYSRAM_GX: usize = 1;
pub const MCTL_BANK_GX: usize = 2;
pub const MCTL_PORT1_GX: usize = 3;
pub const MCTL_PORT2_GX: usize = 4;
pub const MCTL_SYSROM_GX: usize = 5;

// Number of device-check passes a display touch stays pending.
pub const DISP_INSTR_OFF: i32 = 0x10;

// Annunciator mask values, as the annunciator register encodes them.
pub const ANN_LEFT: u8 = 0x81;
pub const ANN_RIGHT: u8 = 0x82;
pub const ANN_ALPHA: u8 = 0x84;
pub const ANN_BATTERY: u8 = 0x88;
pub const ANN_BUSY: u8 = 0x90;
pub const ANN_IO: u8 = 0xa0;

#[derive(Clone, Copy, PartialEq, Eq, Structural, Debug)]
pub enum Model {
    Sx,
    Gx,
}

/// One Saturn memory controller: the count of base writes still needed to
/// finish configuration, and the two configured 20-bit base values.
#[derive(Clone, Copy, Debug)]
pub struct MemCntl {
    pub unconfigured: i16,
    pub config: [u32; 2],
}

impl Default for MemCntl {
    fn default() -> (r: Self)
        ensures
            r.unconfigured == 0,
            r.config@[0] == 0,
            r.config@[1] == 0,
    {
        MemCntl { unconfigured: 0, config: [0, 0] }
    }
}

/// ROM size in nibbles for a model.
pub open spec fn spec_rom_size(model: Model) -> int {
    match model {
        Model::Sx => 0x80000,
        Model::Gx => 0x100000,
    }
}

/// RAM size in nibbles for a model.
pub open spec fn spec_ram_size(model: Model) -> int {
    match model {
        Model::Sx => 0x10000,
        Model::Gx => 0x40000,
    }
}

pub fn rom_size(model: Model) -> (r: usize)
    ensures
        r == spec_rom_size(model),
{
    match model {
        Model::Sx => ROM_SIZE_SX,
        Model::Gx => ROM_SIZE_GX,
    }
}

pub fn ram_size(model: Model) -> (r: usize)
    ensures
        r == spec_ram_size(model),
{
    match model {
        Model::Sx => RAM_SIZE_SX,
        Model::Gx => RAM_SIZE_GX,
    }
}

/// `2^k` for `k >= 0`.
pub open spec fn pow2(k: int) -> int
    decreases k,
{
    if k <= 0 {
        1
    } else {
        2 * pow2(k - 1)
    }
}

/// `16^k` for `k >= 0`.
pub open spec fn pow16(k: int) -> int
    decreases k,
{
    if k <= 0 {
        1
    } else {
        16 * pow16(k - 1)
    }
}

/// The small powers of 16 that nibble addressing uses.
pub proof fn lemma_pow16_small()
    ensures
        pow16(0) == 1,
        pow16(1) == 16,
        pow16(2) == 0x100,
        pow16(3) == 0x1000,
        pow16(4) == 0x10000,
        pow16(5) == 0x100000,
{
    assert(pow16(0) == 1);
    assert(pow16(1) == 16);
    assert(pow16(2) == 0x100);
    assert(pow16(3) == 0x1000);
    assert(pow16(4) == 0x10000);
    assert(pow16(5) == 0x100000);
}

/// Nibble `j` of the value `d`.
pub open spec fn nib20(d: u32, j: int) -> int {
    (d as int / pow16(j)) % 16
}

/// The 20-bit value assembled from five nibbles, lowest first.
pub open spec fn nibs5_val(n: Seq<u8>) -> int {
    n[0] + 16 * n[1] + 0x100 * n[2] + 0x1000 * n[3] + 0x10000 * n[4]
}

/// Reads nibble `j` of a 20-bit value.
pub fn get_nib20(d: u32, j: usize) -> (r: u8)
    requires
        j <= 4,
    ensures
        r == nib20(d, j as int),
        r < 16,
{
    proof {
        lemma_pow16_small();
    }
    match j {
        0 => (d % 16) as u8,
        1 => ((d / 16) % 16) as u8,
        2 => ((d / 0x100) % 16) as u8,
        3 => ((d / 0x1000) % 16) as u8,
        _ => ((d / 0x10000) % 16) as u8,
    }
}

/// Nibble `off` of a one-byte register.
pub open spec fn nib8(x: u8, off: int) -> u8 {
    if off == 0 {
        x % 16
    } else {
        (x / 16) as u8
    }
}

/// A one-byte register with nibble `off` replaced by `v`.
pub open spec fn set_nib8(x: u8, off: int, v: u8) -> u8 {
    if off == 0 {
        ((x / 16) * 16 + v) as u8
    } else {
        (x % 16 + v * 16) as u8
    }
}

/// Nibble `off` of a two-byte register.
pub open spec fn nib16(x: u16, off: int) -> u8 {
    if off == 0 {
        (x % 16) as u8
    } else if off == 1 {
        ((x / 16) % 16) as u8
    } else if off == 2 {
        ((x / 0x100) % 16) as u8
    } else {
        ((x / 0x1000) % 16) as u8
    }
}

/// A two-byte register with nibble `off` replaced by `v`.
pub open spec fn set_nib16(x: u16, off: int, v: u8) -> u16 {
    if off == 0 {
        ((x / 16) * 16 + v) as u16
    } else if off == 1 {
        (x % 16 + (x / 0x100) * 0x100 + (v as u16) * 16) as u16
    } else if off == 2 {
        (x % 0x100 + (x / 0x1000) * 0x1000 + (v as u16) * 0x100) as u16
    } else {
        (x % 0x1000 + (v as u16) * 0x1000) as u16
    }
}

/// Nibble `off` of a four-byte register.
pub open spec fn nib32(x: u32, off: int) -> u8 {
    if off == 0 {
        (x % 16) as u8
    } else if off == 1 {
        ((x / 16) % 16) as u8
    } else if off == 2 {
        ((x / 0x100) % 16) as u8
    } else if off == 3 {
        ((x / 0x1000) % 16) as u8
    } else if off == 4 {
        ((x / 0x10000) % 16) as u8
    } else if off == 5 {
        ((x / 0x100000) % 16) as u8
    } else if off == 6 {
        ((x / 0x1000000) % 16) as u8
    } else {
        ((x / 0x10000000) % 16) as u8
    }
}

/// A four-byte register with nibble `off` replaced by `v`.
pub open spec fn set_nib32(x: u32, off: int, v: u8) -> u32 {
    if off == 0 {
        ((x / 16) * 16 + v) as u32
    } else if off == 1 {
        (x % 16 + (x / 0x100) * 0x100 + (v as u32) * 16) as u32
    } else if off == 2 {
        (x % 0x100 + (x / 0x1000) * 0x1000 + (v as u32) * 0x100) as u32
    } else if off == 3 {
        (x % 0x1000 + (x / 0x10000) * 0x10000 + (v as u32) * 0x1000) as u32
    } else if off == 4 {
        (x % 0x10000 + (x / 0x100000) * 0x100000 + (v as u32) * 0x10000) as u32
    } else if off == 5 {
        (x % 0x100000 + (x / 0x1000000) * 0x1000000 + (v as u32) * 0x100000) as u32
    } else if off == 6 {
        (x % 0x1000000 + (x / 0x10000000) * 0x10000000 + (v as u32) * 0x1000000) as u32
    } else {
        (x % 0x10000000 + (v as u32) * 0x10000000) as u32
    }
}

pub fn get_nib8(x: u8, off: usize) -> (r: u8)
    requires
        off < 2,
    ensures
        r == nib8(x, off as int),
        r < 16,
{
    if off == 0 {
        x % 16
    } else {
        x / 16
    }
}

pub fn put_nib8(x: u8, off: usize, v: u8) -> (r: u8)
    requires
        off < 2,
        v < 16,
    ensures
        r == set_nib8(x, off as int, v),
{
    if off == 0 {
        (x / 16) * 16 + v
    } else {
        x % 16 + v * 16
    }
}

pub fn get_nib16(x: u16, off: usize) -> (r: u8)
    requires
        off < 4,
    ensures
        r == nib16(x, off as int),
        r < 16,
{
    match off {
        0 => (x % 16) as u8,
        1 => ((x / 16) % 16) as u8,
        2 => ((x / 0x100) % 16) as u8,
        _ => ((x / 0x1000) % 16) as u8,
    }
}

pub fn put_nib16(x: u16, off: usize, v: u8) -> (r: u16)
    requires
        off < 4,
        v < 16,
    ensures
        r == set_nib16(x, off as int, v),
{
    match off {
        0 => (x / 16) * 16 + v as u16,
        1 => x % 16 + (x / 0x100) * 0x100 + (v as u16) * 16,
        2 => x % 0x100 + (x / 0x1000) * 0x1000 + (v as u16) * 0x100,
        _ => x % 0x1000 + (v as u16) * 0x1000,
    }
}

pub fn get_nib32(x: u32, off: usize) -> (r: u8)
    requires
        off < 8,
    ensures
        r == nib32(x, off as int),
        r < 16,
{
    match off {
        0 => (x % 16) as u8,
        1 => ((x / 16) % 16) as u8,
        2 => ((x / 0x100) % 16) as u8,
        3 => ((x / 0x1000) % 16) as u8,
        4 => ((x / 0x10000) % 16) as u8,
        5 => ((x / 0x100000) % 16) as u8,
        6 => ((x / 0x1000000) % 16) as u8,
        _ => ((x / 0x10000000) % 16) as u8,
    }
}

pub fn put_nib32(x: u32, off: usize, v: u8) -> (r: u32)
    requires
        off < 8,
        v < 16,
    ensures
        r == set_nib32(x, off as int, v),
{
    match off {
        0 => (x / 16) * 16 + v as u32,
        1 => x % 16 + (x / 0x100) * 0x100 + (v as u32) * 16,
        2 => x % 0x100 + (x / 0x1000) * 0x1000 + (v as u32) * 0x100,
        3 => x % 0x1000 + (x / 0x10000) * 0x10000 + (v as u32) * 0x1000,
        4 => x % 0x10000 + (x / 0x100000) * 0x100000 + (v as u32) * 0x10000,
        5 => x % 0x100000 + (x / 0x1000000) * 0x1000000 + (v as u32) * 0x100000,
        6 => x % 0x1000000 + (x / 0x10000000) * 0x10000000 + (v as u32) * 0x1000000,
        _ => x % 0x10000000 + (v as u32) * 0x10000000,
    }
}

/// The unsigned 32-bit image of a signed value, two's complement.
pub open spec fn u32_bits_of_i32(x: i32) -> int {
    (x as int) % 0x100000000
}

/// The signed value a 32-bit image stands for.
pub open spec fn i32_of_u32_bits(b: u32) -> int {
    if b < 0x80000000 {
        b as int
    } else {
        b - 0x100000000
    }
}

pub fn i32_bits(x: i32) -> (r: u32)
    ensures
        r == u32_bits_of_i32(x),
{
    if x >= 0 {
        x as u32
    } else {
        let neg: u32 = ((-(x as i64)) as u32);
        0xffffffffu32 - neg + 1
    }
}

pub fn i32_from_bits(b: u32) -> (r: i32)
    ensures
        r == i32_of_u32_bits(b),
{
    if b < 0x80000000 {
        b as i32
    } else {
        let low: i64 = b as i64 - 0x100000000i64;
        low as i32
    }
}

} // verus!
