//! Memory system: ROM, system RAM, the two plug-in ports, the memory-mapped
//! device register file at 0x100..0x13F, and the 20-bit MMU dispatch for the
//! SX and GX models, including the CRC side channel and GX bank switching.

use vstd::prelude::*;
use crate::cpu::{DisplayState, Saturn};
use crate::device::DeviceFlags;
use crate::types::{
    Model, spec_rom_size, spec_ram_size, nib8, set_nib8, nib16, set_nib16, nib32, set_nib32,
    get_nib8, put_nib8, get_nib16, put_nib16, get_nib32, put_nib32, u32_bits_of_i32,
    i32_of_u32_bits, i32_bits, i32_from_bits, NIBBLES_PER_ROW, DISP_INSTR_OFF,
};

verus! {

/// The memories a Saturn address can route to.
pub struct Memory {
    pub rom: Vec<u8>,
    pub ram: Vec<u8>,
    pub port1: Vec<u8>,
    pub port2: Vec<u8>,
    pub port1_is_ram: bool,
    pub port1_mask: u32,
    pub port2_is_ram: bool,
    pub port2_mask: u32,
    /// Free-running line counter the firmware reads at 0x128/0x129.
    pub line_counter: i32,
}

impl Memory {
    /// Sizes fixed by the model and every stored value a genuine nibble.
    pub open spec fn wf(self, model: Model) -> bool {
        &&& self.rom@.len() == spec_rom_size(model)
        &&& self.ram@.len() == spec_ram_size(model)
        &&& forall|i: int| 0 <= i < self.rom@.len() ==> self.rom@[i] < 16
        &&& forall|i: int| 0 <= i < self.ram@.len() ==> self.ram@[i] < 16
        &&& forall|i: int| 0 <= i < self.port1@.len() ==> self.port1@[i] < 16
        &&& forall|i: int| 0 <= i < self.port2@.len() ==> self.port2@[i] < 16
    }

    pub fn new(rom: Vec<u8>, ram: Vec<u8>) -> (r: Memory)
        ensures
            r.rom@ == rom@,
            r.ram@ == ram@,
            r.port1@.len() == 0,
            r.port2@.len() == 0,
            !r.port1_is_ram,
            !r.port2_is_ram,
            r.port1_mask == 0,
            r.port2_mask == 0,
            r.line_counter == -1,
    {
        Memory {
            rom,
            ram,
            port1: Vec::new(),
            port2: Vec::new(),
            port1_is_ram: false,
            port1_mask: 0,
            port2_is_ram: false,
            port2_mask: 0,
            line_counter: -1,
        }
    }
}

// ---------------------------------------------------------------------------
// CRC side channel
// ---------------------------------------------------------------------------

/// One step of the CCITT-style CRC the hardware applies to every nibble read
/// through the CRC path: `crc := (crc >> 4) ^ (((crc ^ n) & 0xF) * 0x1081)`.
pub open spec fn crc_step(crc: u16, nib: u8) -> u16 {
    (crc >> 4) ^ ((((crc ^ (nib as u16)) & 0xf) * 0x1081) as u16)
}

/// Feeds one nibble through the CRC update and hands the nibble back.
pub fn calc_crc(saturn: &mut Saturn, nib: u8) -> (r: u8)
    ensures
        r == nib,
        *final(saturn) == (Saturn { crc: crc_step(old(saturn).crc, nib), ..*old(saturn) }),
{
    let c0: u16 = saturn.crc;
    let masked: u16 = (c0 ^ (nib as u16)) & 0xf;
    proof {
        assert(masked <= 0xf) by (bit_vector)
            requires
                masked == (c0 ^ (nib as u16)) & 0xf,
        ;
    }
    saturn.crc = (saturn.crc >> 4) ^ (masked * 0x1081);
    nib
}

// ---------------------------------------------------------------------------
// Device register file: write path
// ---------------------------------------------------------------------------

/// The display line width the controller derives from the offset register
/// and the line-offset register.
pub open spec fn spec_nibs_per_line(offset: u32, line_offset: u16) -> u32 {
    if offset > 3 {
        ((NIBBLES_PER_ROW + line_offset + 2) % 0x1000) as u32
    } else {
        ((NIBBLES_PER_ROW + line_offset) % 0x1000) as u32
    }
}

/// The complete effect of a device write of nibble `val` at `addr` in
/// 0x100..0x11F: the new register file, derived display state and
/// device-touched flags.
pub open spec fn spec_write_dev_low(s: Saturn, d: DisplayState, f: DeviceFlags, addr: u32, val: u8)
    -> (Saturn, DisplayState, DeviceFlags) {
    let a = addr as int;
    if a == 0x100 {
        if val != s.disp_io {
            let offset = (val % 8) as u32;
            let npl = spec_nibs_per_line(offset, s.line_offset);
            (
                Saturn { disp_io: val, ..s },
                DisplayState {
                    on: val >= 8,
                    offset,
                    nibs_per_line: npl,
                    disp_end: (d.disp_start + npl * (d.lines + 1)) as u32,
                    ..d
                },
                DeviceFlags { display_touched: DISP_INSTR_OFF, ..f },
            )
        } else {
            (s, d, f)
        }
    } else if a == 0x101 {
        (
            Saturn { contrast_ctrl: val, ..s },
            DisplayState { contrast: ((d.contrast / 16) * 16 + val) as u32, ..d },
            DeviceFlags { contrast_touched: true, ..f },
        )
    } else if a == 0x102 {
        (
            Saturn { disp_test: set_nib8(s.disp_test, 0, val), ..s },
            DisplayState {
                contrast: (d.contrast % 16 + (d.contrast / 0x100) * 0x100 + (val % 2) * 16) as u32,
                ..d
            },
            DeviceFlags { contrast_touched: true, disp_test_touched: true, ..f },
        )
    } else if a == 0x103 {
        (
            Saturn { disp_test: set_nib8(s.disp_test, 1, val), ..s },
            d,
            DeviceFlags { disp_test_touched: true, ..f },
        )
    } else if 0x104 <= a <= 0x107 {
        (Saturn { crc: set_nib16(s.crc, a - 0x104, val), ..s }, d, f)
    } else if a == 0x108 {
        (Saturn { power_status: val, ..s }, d, DeviceFlags { power_status_touched: true, ..f })
    } else if a == 0x109 {
        (Saturn { power_ctrl: val, ..s }, d, DeviceFlags { power_ctrl_touched: true, ..f })
    } else if a == 0x10a {
        (Saturn { mode: val, ..s }, d, DeviceFlags { mode_touched: true, ..f })
    } else if a == 0x10b || a == 0x10c {
        let ann = set_nib8(s.annunc, a - 0x10b, val);
        (
            Saturn { annunc: ann, ..s },
            DisplayState { annunc: ann as u32, ..d },
            DeviceFlags { ann_touched: true, ..f },
        )
    } else if a == 0x10d {
        (Saturn { baud: val, ..s }, d, DeviceFlags { baud_touched: true, ..f })
    } else if a == 0x10e {
        (
            Saturn { card_ctrl: val, mp: if val % 4 >= 2 { 1u8 } else { s.mp }, ..s },
            d,
            DeviceFlags { card_ctrl_touched: true, ..f },
        )
    } else if a == 0x110 {
        (Saturn { io_ctrl: val, ..s }, d, DeviceFlags { ioc_touched: true, ..f })
    } else if a == 0x111 {
        (Saturn { rcs: val, ..s }, d, f)
    } else if a == 0x112 {
        (Saturn { tcs: val, ..s }, d, f)
    } else if a == 0x113 {
        (Saturn { rcs: s.rcs & 0x0b, ..s }, d, f)
    } else if a == 0x116 || a == 0x117 {
        (
            Saturn { tbr: set_nib8(s.tbr, a - 0x116, val), tcs: s.tcs | 0x01, ..s },
            d,
            DeviceFlags { tbr_touched: true, ..f },
        )
    } else if a == 0x118 || a == 0x119 {
        (
            Saturn { sreq: set_nib8(s.sreq, a - 0x118, val), ..s },
            d,
            DeviceFlags { sreq_touched: true, ..f },
        )
    } else if a == 0x11a {
        (Saturn { ir_ctrl: val, ..s }, d, DeviceFlags { ir_ctrl_touched: true, ..f })
    } else if a == 0x11b {
        (Saturn { base_off: val, ..s }, d, DeviceFlags { base_off_touched: true, ..f })
    } else if a == 0x11c {
        (Saturn { lcr: val, ..s }, d, DeviceFlags { lcr_touched: true, ..f })
    } else if a == 0x11d {
        (Saturn { lbr: val, ..s }, d, DeviceFlags { lbr_touched: true, ..f })
    } else if a == 0x11e {
        (Saturn { scratch: val, ..s }, d, DeviceFlags { scratch_touched: true, ..f })
    } else if a == 0x11f {
        (Saturn { base_nibble: val, ..s }, d, DeviceFlags { base_nibble_touched: true, ..f })
    } else {
        (s, d, f)
    }
}

/// The same for 0x120..0x12F, where writes reconfigure the display layout.
pub open spec fn spec_write_dev_mid(s: Saturn, d: DisplayState, f: DeviceFlags, addr: u32, val: u8)
    -> (Saturn, DisplayState, DeviceFlags) {
    let a = addr as int;
    if 0x120 <= a <= 0x124 {
        let da = set_nib32(s.disp_addr, a - 0x120, val);
        let new_start = ((da / 2) * 2) as u32;
        if d.disp_start != new_start {
            (
                Saturn { disp_addr: da, ..s },
                DisplayState {
                    disp_start: new_start,
                    disp_end: (new_start + d.nibs_per_line * (d.lines + 1)) as u32,
                    ..d
                },
                DeviceFlags { display_touched: DISP_INSTR_OFF, ..f },
            )
        } else {
            (Saturn { disp_addr: da, ..s }, d, f)
        }
    } else if 0x125 <= a <= 0x127 {
        let lo = set_nib16(s.line_offset, a - 0x125, val);
        if lo != s.line_offset {
            let npl = spec_nibs_per_line(d.offset, lo);
            (
                Saturn { line_offset: lo, ..s },
                DisplayState {
                    nibs_per_line: npl,
                    disp_end: (d.disp_start + npl * (d.lines + 1)) as u32,
                    ..d
                },
                DeviceFlags { display_touched: DISP_INSTR_OFF, ..f },
            )
        } else {
            (Saturn { line_offset: lo, ..s }, d, f)
        }
    } else if a == 0x128 || a == 0x129 {
        let lcnt = set_nib8(s.line_count, a - 0x128, val);
        let new_lines = (lcnt % 64) as u32;
        if d.lines != new_lines {
            let lines = if new_lines == 0 { 63u32 } else { new_lines };
            (
                Saturn { line_count: lcnt, ..s },
                DisplayState {
                    lines,
                    disp_end: (d.disp_start + d.nibs_per_line * (lines + 1)) as u32,
                    ..d
                },
                DeviceFlags { display_touched: DISP_INSTR_OFF, ..f },
            )
        } else {
            (Saturn { line_count: lcnt, ..s }, d, f)
        }
    } else if 0x12a <= a <= 0x12d {
        (
            Saturn { unknown: set_nib16(s.unknown, a - 0x12a, val), ..s },
            d,
            DeviceFlags { unknown_touched: true, ..f },
        )
    } else if a == 0x12e {
        (Saturn { t1_ctrl: val, ..s }, d, DeviceFlags { t1_ctrl_touched: true, ..f })
    } else if a == 0x12f {
        (Saturn { t2_ctrl: val, ..s }, d, DeviceFlags { t2_ctrl_touched: true, ..f })
    } else {
        (s, d, f)
    }
}

/// The same for 0x130..0x13F: menu address and the two hardware timers.
pub open spec fn spec_write_dev_high(s: Saturn, d: DisplayState, f: DeviceFlags, addr: u32, val: u8)
    -> (Saturn, DisplayState, DeviceFlags) {
    let a = addr as int;
    if 0x130 <= a <= 0x134 {
        let nm = set_nib32(s.menu_addr, a - 0x130, val);
        if d.menu_start != nm {
            (
                Saturn { menu_addr: nm, ..s },
                DisplayState { menu_start: nm, menu_end: (nm + 0x110) as u32, ..d },
                DeviceFlags { display_touched: DISP_INSTR_OFF, ..f },
            )
        } else {
            (Saturn { menu_addr: nm, ..s }, d, f)
        }
    } else if a == 0x135 || a == 0x136 {
        (
            Saturn { unknown2: set_nib8(s.unknown2, a - 0x135, val), ..s },
            d,
            DeviceFlags { unknown2_touched: true, ..f },
        )
    } else if a == 0x137 {
        (Saturn { timer1: val as i8, ..s }, d, DeviceFlags { t1_touched: true, ..f })
    } else if 0x138 <= a <= 0x13f {
        let t2 = i32_of_u32_bits(
            set_nib32((u32_bits_of_i32(s.timer2)) as u32, a - 0x138, val),
        ) as i32;
        (Saturn { timer2: t2, ..s }, d, DeviceFlags { t2_touched: true, ..f })
    } else {
        (s, d, f)
    }
}

/// The complete effect of a device write anywhere in 0x100..0x13F.
#[verifier::opaque]
pub open spec fn spec_write_dev(s: Saturn, d: DisplayState, f: DeviceFlags, addr: u32, val: u8)
    -> (Saturn, DisplayState, DeviceFlags) {
    if addr < 0x120 {
        spec_write_dev_low(s, d, f, addr, val)
    } else if addr < 0x130 {
        spec_write_dev_mid(s, d, f, addr, val)
    } else {
        spec_write_dev_high(s, d, f, addr, val)
    }
}

/// The recomputed display end address stays comfortably inside 32 bits.
pub proof fn lemma_disp_end_bound(start: u32, npl: u32, lines: u32)
    requires
        start < 0x100000,
        npl < 0x1000,
        lines < 64,
    ensures
        start + npl * (lines + 1) < 0x200000,
{
    assert(npl * (lines + 1) <= 0xfff * 64) by (nonlinear_arith)
        requires
            npl < 0x1000,
            lines < 64,
    ;
}

/// Computes the derived display line width.
fn nibs_per_line(offset: u32, line_offset: u16) -> (r: u32)
    ensures
        r == spec_nibs_per_line(offset, line_offset),
        r < 0x1000,
{
    if offset > 3 {
        (NIBBLES_PER_ROW + line_offset as u32 + 2) % 0x1000
    } else {
        (NIBBLES_PER_ROW + line_offset as u32) % 0x1000
    }
}

impl Memory {
    #[verifier::rlimit(100)]
    #[verifier::spinoff_prover]
    fn write_dev_low(
        &mut self,
        saturn: &mut Saturn,
        display: &mut DisplayState,
        device: &mut DeviceFlags,
        addr: u32,
        val: u8,
    )
        requires
            0x100 <= addr <= 0x11f,
            val < 16,
            old(saturn).wf(),
            old(display).wf(),
        ensures
            (*final(saturn), *final(display), *final(device)) == spec_write_dev_low(
                *old(saturn),
                *old(display),
                *old(device),
                addr,
                val,
            ),
            final(saturn).pc == old(saturn).pc,
            final(saturn).p == old(saturn).p,
            final(saturn).d0 == old(saturn).d0,
            final(saturn).d1 == old(saturn).d1,
            final(saturn).rstk == old(saturn).rstk,
            final(saturn).rstkp == old(saturn).rstkp,
            final(saturn).mem_cntl == old(saturn).mem_cntl,
            final(saturn).disp_addr < 0x100000,
            final(saturn).menu_addr < 0x100000,
            final(saturn).a == old(saturn).a,
            final(saturn).b == old(saturn).b,
            final(saturn).c == old(saturn).c,
            final(saturn).d == old(saturn).d,
            final(saturn).r0 == old(saturn).r0,
            final(saturn).r1 == old(saturn).r1,
            final(saturn).r2 == old(saturn).r2,
            final(saturn).r3 == old(saturn).r3,
            final(saturn).r4 == old(saturn).r4,
            final(display).disp_start < 0x100000,
            final(display).offset < 8,
            0 < final(display).lines < 64,
            final(display).nibs_per_line < 0x1000,
            final(display).menu_start < 0x100000,
            final(display).menu_end == final(display).menu_start + 0x110,
            final(display).disp_end == final(display).disp_start + final(display).nibs_per_line
                * (final(display).lines + 1),
            *final(self) == *old(self),
    {
        let s0: Saturn = *saturn;
        let d0: DisplayState = *display;
        let f0: DeviceFlags = *device;
        if addr == 0x100 {
            if val != s0.disp_io {
                let offset: u32 = (val % 8) as u32;
                let npl: u32 = nibs_per_line(offset, s0.line_offset);
                proof {
                    lemma_disp_end_bound(d0.disp_start, npl, d0.lines);
                }
                *saturn = Saturn { disp_io: val, ..s0 };
                *display = DisplayState {
                    on: val >= 8,
                    offset,
                    nibs_per_line: npl,
                    disp_end: d0.disp_start + npl * (d0.lines + 1),
                    ..d0
                };
                *device = DeviceFlags { display_touched: DISP_INSTR_OFF, ..f0 };
            }
        } else if addr == 0x101 {
            *saturn = Saturn { contrast_ctrl: val, ..s0 };
            *display = DisplayState { contrast: (d0.contrast / 16) * 16 + val as u32, ..d0 };
            *device = DeviceFlags { contrast_touched: true, ..f0 };
        } else if addr == 0x102 {
            *saturn = Saturn { disp_test: put_nib8(s0.disp_test, 0, val), ..s0 };
            *display = DisplayState {
                contrast: d0.contrast % 16 + (d0.contrast / 0x100) * 0x100 + (val as u32 % 2) * 16,
                ..d0
            };
            *device = DeviceFlags { contrast_touched: true, disp_test_touched: true, ..f0 };
        } else if addr == 0x103 {
            *saturn = Saturn { disp_test: put_nib8(s0.disp_test, 1, val), ..s0 };
            *device = DeviceFlags { disp_test_touched: true, ..f0 };
        } else if addr <= 0x107 {
            *saturn = Saturn { crc: put_nib16(s0.crc, (addr - 0x104) as usize, val), ..s0 };
        } else if addr == 0x108 {
            *saturn = Saturn { power_status: val, ..s0 };
            *device = DeviceFlags { power_status_touched: true, ..f0 };
        } else if addr == 0x109 {
            *saturn = Saturn { power_ctrl: val, ..s0 };
            *device = DeviceFlags { power_ctrl_touched: true, ..f0 };
        } else if addr == 0x10a {
            *saturn = Saturn { mode: val, ..s0 };
            *device = DeviceFlags { mode_touched: true, ..f0 };
        } else if addr == 0x10b || addr == 0x10c {
            let ann: u8 = put_nib8(s0.annunc, (addr - 0x10b) as usize, val);
            *saturn = Saturn { annunc: ann, ..s0 };
            *display = DisplayState { annunc: ann as u32, ..d0 };
            *device = DeviceFlags { ann_touched: true, ..f0 };
        } else if addr == 0x10d {
            *saturn = Saturn { baud: val, ..s0 };
            *device = DeviceFlags { baud_touched: true, ..f0 };
        } else if addr == 0x10e {
            *saturn = Saturn {
                card_ctrl: val,
                mp: if val % 4 >= 2 {
                    1
                } else {
                    s0.mp
                },
                ..s0
            };
            *device = DeviceFlags { card_ctrl_touched: true, ..f0 };
        } else if addr == 0x10f {
            // Card status is read only; the write is dropped.
        } else if addr == 0x110 {
            *saturn = Saturn { io_ctrl: val, ..s0 };
            *device = DeviceFlags { ioc_touched: true, ..f0 };
        } else if addr == 0x111 {
            *saturn = Saturn { rcs: val, ..s0 };
        } else if addr == 0x112 {
            *saturn = Saturn { tcs: val, ..s0 };
        } else if addr == 0x113 {
            *saturn = Saturn { rcs: s0.rcs & 0x0b, ..s0 };
        } else if addr == 0x114 || addr == 0x115 {
            // The receive buffer is read only; the write is dropped.
        } else if addr == 0x116 || addr == 0x117 {
            *saturn = Saturn {
                tbr: put_nib8(s0.tbr, (addr - 0x116) as usize, val),
                tcs: s0.tcs | 0x01,
                ..s0
            };
            *device = DeviceFlags { tbr_touched: true, ..f0 };
        } else if addr == 0x118 || addr == 0x119 {
            *saturn = Saturn { sreq: put_nib8(s0.sreq, (addr - 0x118) as usize, val), ..s0 };
            *device = DeviceFlags { sreq_touched: true, ..f0 };
        } else if addr == 0x11a {
            *saturn = Saturn { ir_ctrl: val, ..s0 };
            *device = DeviceFlags { ir_ctrl_touched: true, ..f0 };
        } else if addr == 0x11b {
            *saturn = Saturn { base_off: val, ..s0 };
            *device = DeviceFlags { base_off_touched: true, ..f0 };
        } else if addr == 0x11c {
            *saturn = Saturn { lcr: val, ..s0 };
            *device = DeviceFlags { lcr_touched: true, ..f0 };
        } else if addr == 0x11d {
            *saturn = Saturn { lbr: val, ..s0 };
            *device = DeviceFlags { lbr_touched: true, ..f0 };
        } else if addr == 0x11e {
            *saturn = Saturn { scratch: val, ..s0 };
            *device = DeviceFlags { scratch_touched: true, ..f0 };
        } else {
            *saturn = Saturn { base_nibble: val, ..s0 };
            *device = DeviceFlags { base_nibble_touched: true, ..f0 };
        }
    }

    #[verifier::rlimit(100)]
    #[verifier::spinoff_prover]
    fn write_dev_mid(
        &mut self,
        saturn: &mut Saturn,
        display: &mut DisplayState,
        device: &mut DeviceFlags,
        addr: u32,
        val: u8,
    )
        requires
            0x120 <= addr <= 0x12f,
            val < 16,
            old(saturn).wf(),
            old(display).wf(),
        ensures
            (*final(saturn), *final(display), *final(device)) == spec_write_dev_mid(
                *old(saturn),
                *old(display),
                *old(device),
                addr,
                val,
            ),
            final(saturn).pc == old(saturn).pc,
            final(saturn).p == old(saturn).p,
            final(saturn).d0 == old(saturn).d0,
            final(saturn).d1 == old(saturn).d1,
            final(saturn).rstk == old(saturn).rstk,
            final(saturn).rstkp == old(saturn).rstkp,
            final(saturn).mem_cntl == old(saturn).mem_cntl,
            final(saturn).disp_addr < 0x100000,
            final(saturn).menu_addr < 0x100000,
            final(saturn).a == old(saturn).a,
            final(saturn).b == old(saturn).b,
            final(saturn).c == old(saturn).c,
            final(saturn).d == old(saturn).d,
            final(saturn).r0 == old(saturn).r0,
            final(saturn).r1 == old(saturn).r1,
            final(saturn).r2 == old(saturn).r2,
            final(saturn).r3 == old(saturn).r3,
            final(saturn).r4 == old(saturn).r4,
            final(display).disp_start < 0x100000,
            final(display).offset < 8,
            0 < final(display).lines < 64,
            final(display).nibs_per_line < 0x1000,
            final(display).menu_start < 0x100000,
            final(display).menu_end == final(display).menu_start + 0x110,
            final(display).disp_end == final(display).disp_start + final(display).nibs_per_line
                * (final(display).lines + 1),
            *final(self) == (Memory {
                line_counter: if addr == 0x128 || addr == 0x129 { -1i32 } else {
                    old(self).line_counter
                },
                ..*old(self)
            }),
    {
        let s0: Saturn = *saturn;
        let d0: DisplayState = *display;
        let f0: DeviceFlags = *device;
        if addr <= 0x124 {
            let da: u32 = put_nib32(s0.disp_addr, (addr - 0x120) as usize, val);
            let new_start: u32 = (da / 2) * 2;
            if d0.disp_start != new_start {
                proof {
                    lemma_disp_end_bound(new_start, d0.nibs_per_line, d0.lines);
                }
                *saturn = Saturn { disp_addr: da, ..s0 };
                *display = DisplayState {
                    disp_start: new_start,
                    disp_end: new_start + d0.nibs_per_line * (d0.lines + 1),
                    ..d0
                };
                *device = DeviceFlags { display_touched: DISP_INSTR_OFF, ..f0 };
            } else {
                *saturn = Saturn { disp_addr: da, ..s0 };
            }
        } else if addr <= 0x127 {
            let lo: u16 = put_nib16(s0.line_offset, (addr - 0x125) as usize, val);
            if lo != s0.line_offset {
                let npl: u32 = nibs_per_line(d0.offset, lo);
                proof {
                    lemma_disp_end_bound(d0.disp_start, npl, d0.lines);
                }
                *saturn = Saturn { line_offset: lo, ..s0 };
                *display = DisplayState {
                    nibs_per_line: npl,
                    disp_end: d0.disp_start + npl * (d0.lines + 1),
                    ..d0
                };
                *device = DeviceFlags { display_touched: DISP_INSTR_OFF, ..f0 };
            } else {
                *saturn = Saturn { line_offset: lo, ..s0 };
            }
        } else if addr == 0x128 || addr == 0x129 {
            let lcnt: u8 = put_nib8(s0.line_count, (addr - 0x128) as usize, val);
            self.line_counter = -1;
            let new_lines: u32 = (lcnt % 64) as u32;
            if d0.lines != new_lines {
                let lines: u32 = if new_lines == 0 {
                    63
                } else {
                    new_lines
                };
                proof {
                    lemma_disp_end_bound(d0.disp_start, d0.nibs_per_line, lines);
                }
                *saturn = Saturn { line_count: lcnt, ..s0 };
                *display = DisplayState {
                    lines,
                    disp_end: d0.disp_start + d0.nibs_per_line * (lines + 1),
                    ..d0
                };
                *device = DeviceFlags { display_touched: DISP_INSTR_OFF, ..f0 };
            } else {
                *saturn = Saturn { line_count: lcnt, ..s0 };
            }
        } else if addr <= 0x12d {
            *saturn = Saturn { unknown: put_nib16(s0.unknown, (addr - 0x12a) as usize, val), ..s0 };
            *device = DeviceFlags { unknown_touched: true, ..f0 };
        } else if addr == 0x12e {
            *saturn = Saturn { t1_ctrl: val, ..s0 };
            *device = DeviceFlags { t1_ctrl_touched: true, ..f0 };
        } else {
            *saturn = Saturn { t2_ctrl: val, ..s0 };
            *device = DeviceFlags { t2_ctrl_touched: true, ..f0 };
        }
    }

    #[verifier::rlimit(100)]
    #[verifier::spinoff_prover]
    fn write_dev_high(
        &mut self,
        saturn: &mut Saturn,
        display: &mut DisplayState,
        device: &mut DeviceFlags,
        addr: u32,
        val: u8,
    )
        requires
            0x130 <= addr <= 0x13f,
            val < 16,
            old(saturn).wf(),
            old(display).wf(),
        ensures
            (*final(saturn), *final(display), *final(device)) == spec_write_dev_high(
                *old(saturn),
                *old(display),
                *old(device),
                addr,
                val,
            ),
            final(saturn).pc == old(saturn).pc,
            final(saturn).p == old(saturn).p,
            final(saturn).d0 == old(saturn).d0,
            final(saturn).d1 == old(saturn).d1,
            final(saturn).rstk == old(saturn).rstk,
            final(saturn).rstkp == old(saturn).rstkp,
            final(saturn).mem_cntl == old(saturn).mem_cntl,
            final(saturn).disp_addr < 0x100000,
            final(saturn).menu_addr < 0x100000,
            final(saturn).a == old(saturn).a,
            final(saturn).b == old(saturn).b,
            final(saturn).c == old(saturn).c,
            final(saturn).d == old(saturn).d,
            final(saturn).r0 == old(saturn).r0,
            final(saturn).r1 == old(saturn).r1,
            final(saturn).r2 == old(saturn).r2,
            final(saturn).r3 == old(saturn).r3,
            final(saturn).r4 == old(saturn).r4,
            final(display).disp_start < 0x100000,
            final(display).offset < 8,
            0 < final(display).lines < 64,
            final(display).nibs_per_line < 0x1000,
            final(display).menu_start < 0x100000,
            final(display).menu_end == final(display).menu_start + 0x110,
            final(display).disp_end == final(display).disp_start + final(display).nibs_per_line
                * (final(display).lines + 1),
            *final(self) == *old(self),
    {
        let s0: Saturn = *saturn;
        let d0: DisplayState = *display;
        let f0: DeviceFlags = *device;
        if addr <= 0x134 {
            let nm: u32 = put_nib32(s0.menu_addr, (addr - 0x130) as usize, val);
            if d0.menu_start != nm {
                *saturn = Saturn { menu_addr: nm, ..s0 };
                *display = DisplayState { menu_start: nm, menu_end: nm + 0x110, ..d0 };
                *device = DeviceFlags { display_touched: DISP_INSTR_OFF, ..f0 };
            } else {
                *saturn = Saturn { menu_addr: nm, ..s0 };
            }
        } else if addr == 0x135 || addr == 0x136 {
            *saturn = Saturn { unknown2: put_nib8(s0.unknown2, (addr - 0x135) as usize, val), ..s0 };
            *device = DeviceFlags { unknown2_touched: true, ..f0 };
        } else if addr == 0x137 {
            *saturn = Saturn { timer1: val as i8, ..s0 };
            *device = DeviceFlags { t1_touched: true, ..f0 };
        } else {
            let bits: u32 = i32_bits(s0.timer2);
            *saturn = Saturn {
                timer2: i32_from_bits(put_nib32(bits, (addr - 0x138) as usize, val)),
                ..s0
            };
            *device = DeviceFlags { t2_touched: true, ..f0 };
        }
    }

    /// Writes one nibble into the device register file, updating the derived
    /// display state and marking the touched device; every such write forces
    /// an immediate device-check pass, and a line-count write restarts the
    /// free-running line counter.
    pub fn write_dev_mem(
        &mut self,
        saturn: &mut Saturn,
        display: &mut DisplayState,
        device: &mut DeviceFlags,
        device_check: &mut bool,
        schedule_event: &mut i32,
        addr: u32,
        val: u8,
    )
        requires
            0x100 <= addr < 0x140,
            val < 16,
            old(saturn).wf(),
            old(display).wf(),
        ensures
            (*final(saturn), *final(display), *final(device)) == spec_write_dev(
                *old(saturn),
                *old(display),
                *old(device),
                addr,
                val,
            ),
            *final(device_check) == true,
            *final(schedule_event) == 0,
            *final(self) == (Memory {
                line_counter: if addr == 0x128 || addr == 0x129 { -1i32 } else {
                    old(self).line_counter
                },
                ..*old(self)
            }),
            final(saturn).wf(),
            final(display).wf(),
            final(saturn).pc == old(saturn).pc,
            final(saturn).p == old(saturn).p,
            final(saturn).a == old(saturn).a,
            final(saturn).b == old(saturn).b,
            final(saturn).c == old(saturn).c,
            final(saturn).d == old(saturn).d,
            final(saturn).r0 == old(saturn).r0,
            final(saturn).r1 == old(saturn).r1,
            final(saturn).r2 == old(saturn).r2,
            final(saturn).r3 == old(saturn).r3,
            final(saturn).r4 == old(saturn).r4,
    {
        proof {
            reveal(spec_write_dev);
        }
        *device_check = true;
        *schedule_event = 0;
        if addr < 0x120 {
            self.write_dev_low(saturn, display, device, addr, val);
        } else if addr < 0x130 {
            self.write_dev_mid(saturn, display, device, addr, val);
        } else {
            self.write_dev_high(saturn, display, device, addr, val);
        }
    }
}

// ---------------------------------------------------------------------------
// Device register file: read path
// ---------------------------------------------------------------------------

/// The line counter value after one read of the line-count register.
pub open spec fn spec_next_line_counter(lc: i32) -> i32 {
    if lc >= 0x3f || lc < -1 {
        (-1) as i32
    } else {
        (lc + 1) as i32
    }
}

/// The combined line-count byte the firmware reads: the top two bits of the
/// line-count register over the free-running counter (all ones when idle).
pub open spec fn spec_lc_byte(line_count: u8, lc: i32) -> u8 {
    (((line_count / 64) * 64) + (if lc < 0 { 63u8 } else { (lc % 64) as u8 })) as u8
}

/// The nibble a device read at `addr` returns, `lc2` being the line counter
/// value after the read.
pub open spec fn spec_read_dev_val(s: Saturn, lc2: i32, addr: u32) -> u8 {
    let a = addr as int;
    if a == 0x100 {
        s.disp_io % 16
    } else if a == 0x101 {
        s.contrast_ctrl % 16
    } else if a == 0x102 || a == 0x103 {
        nib8(s.disp_test, a - 0x102)
    } else if 0x104 <= a <= 0x107 {
        nib16(s.crc, a - 0x104)
    } else if a == 0x108 {
        s.power_status % 16
    } else if a == 0x109 {
        s.power_ctrl % 16
    } else if a == 0x10a {
        s.mode % 16
    } else if a == 0x10b || a == 0x10c {
        nib8(s.annunc, a - 0x10b)
    } else if a == 0x10d {
        s.baud % 16
    } else if a == 0x10e {
        s.card_ctrl % 16
    } else if a == 0x10f {
        s.card_status % 16
    } else if a == 0x110 {
        s.io_ctrl % 16
    } else if a == 0x111 {
        s.rcs % 16
    } else if a == 0x112 {
        s.tcs % 16
    } else if a == 0x113 {
        0
    } else if a == 0x114 || a == 0x115 {
        nib8(s.rbr, a - 0x114)
    } else if a == 0x116 || a == 0x117 {
        0
    } else if a == 0x118 || a == 0x119 {
        nib8(s.sreq, a - 0x118)
    } else if a == 0x11a {
        s.ir_ctrl % 16
    } else if a == 0x11b {
        s.base_off % 16
    } else if a == 0x11c {
        s.lcr % 16
    } else if a == 0x11d {
        s.lbr % 16
    } else if a == 0x11e {
        s.scratch % 16
    } else if a == 0x11f {
        s.base_nibble % 16
    } else if 0x120 <= a <= 0x124 {
        nib32(s.disp_addr, a - 0x120)
    } else if 0x125 <= a <= 0x127 {
        nib16(s.line_offset, a - 0x125)
    } else if a == 0x128 || a == 0x129 {
        nib8(spec_lc_byte(s.line_count, lc2), a - 0x128)
    } else if 0x12a <= a <= 0x12d {
        nib16(s.unknown, a - 0x12a)
    } else if a == 0x12e {
        s.t1_ctrl % 16
    } else if a == 0x12f {
        s.t2_ctrl % 16
    } else if 0x130 <= a <= 0x134 {
        nib32(s.menu_addr, a - 0x130)
    } else if a == 0x135 || a == 0x136 {
        nib8(s.unknown2, a - 0x135)
    } else if a == 0x137 {
        ((((s.timer1 as int) % 16) + 16) % 16) as u8
    } else if 0x138 <= a <= 0x13f {
        nib32((u32_bits_of_i32(s.timer2)) as u32, a - 0x138)
    } else {
        0
    }
}

impl Memory {
    /// Reads one nibble from the device register file.  Reading the serial
    /// receive buffer clears the receive-ready bit, marks the device touched
    /// and forces a device-check pass; reading the line count advances the
    /// free-running line counter.
    #[verifier::rlimit(100)]
    #[verifier::spinoff_prover]
    pub fn read_dev_mem(
        &mut self,
        saturn: &mut Saturn,
        device: &mut DeviceFlags,
        device_check: &mut bool,
        schedule_event: &mut i32,
        addr: u32,
    ) -> (r: u8)
        requires
            0x100 <= addr < 0x140,
        ensures
            ({
                let lc2 = spec_next_line_counter(old(self).line_counter);
                &&& r == spec_read_dev_val(*old(saturn), lc2, addr)
                &&& r < 16
                &&& *final(saturn) == (if addr == 0x114 || addr == 0x115 {
                    Saturn { rcs: old(saturn).rcs & 0x0e, ..*old(saturn) }
                } else {
                    *old(saturn)
                })
                &&& *final(device) == (if addr == 0x114 || addr == 0x115 {
                    DeviceFlags { rbr_touched: true, ..*old(device) }
                } else {
                    *old(device)
                })
                &&& *final(device_check) == (if addr == 0x114 || addr == 0x115 { true } else {
                    *old(device_check)
                })
                &&& *final(schedule_event) == (if addr == 0x114 || addr == 0x115 { 0i32 } else {
                    *old(schedule_event)
                })
                &&& *final(self) == (Memory {
                    line_counter: if addr == 0x128 || addr == 0x129 { lc2 } else {
                        old(self).line_counter
                    },
                    ..*old(self)
                })
            }),
    {
        let s0: Saturn = *saturn;
        if addr == 0x100 {
            s0.disp_io % 16
        } else if addr == 0x101 {
            s0.contrast_ctrl % 16
        } else if addr == 0x102 || addr == 0x103 {
            get_nib8(s0.disp_test, (addr - 0x102) as usize)
        } else if addr <= 0x107 {
            get_nib16(s0.crc, (addr - 0x104) as usize)
        } else if addr == 0x108 {
            s0.power_status % 16
        } else if addr == 0x109 {
            s0.power_ctrl % 16
        } else if addr == 0x10a {
            s0.mode % 16
        } else if addr == 0x10b || addr == 0x10c {
            get_nib8(s0.annunc, (addr - 0x10b) as usize)
        } else if addr == 0x10d {
            s0.baud % 16
        } else if addr == 0x10e {
            s0.card_ctrl % 16
        } else if addr == 0x10f {
            s0.card_status % 16
        } else if addr == 0x110 {
            s0.io_ctrl % 16
        } else if addr == 0x111 {
            s0.rcs % 16
        } else if addr == 0x112 {
            s0.tcs % 16
        } else if addr == 0x113 {
            0
        } else if addr == 0x114 || addr == 0x115 {
            *saturn = Saturn { rcs: s0.rcs & 0x0e, ..s0 };
            *device = DeviceFlags { rbr_touched: true, ..*device };
            *device_check = true;
            *schedule_event = 0;
            get_nib8(s0.rbr, (addr - 0x114) as usize)
        } else if addr == 0x116 || addr == 0x117 {
            0
        } else if addr == 0x118 || addr == 0x119 {
            get_nib8(s0.sreq, (addr - 0x118) as usize)
        } else if addr == 0x11a {
            s0.ir_ctrl % 16
        } else if addr == 0x11b {
            s0.base_off % 16
        } else if addr == 0x11c {
            s0.lcr % 16
        } else if addr == 0x11d {
            s0.lbr % 16
        } else if addr == 0x11e {
            s0.scratch % 16
        } else if addr == 0x11f {
            s0.base_nibble % 16
        } else if addr <= 0x124 {
            get_nib32(s0.disp_addr, (addr - 0x120) as usize)
        } else if addr <= 0x127 {
            get_nib16(s0.line_offset, (addr - 0x125) as usize)
        } else if addr == 0x128 || addr == 0x129 {
            let lc2: i32 = if self.line_counter >= 0x3f || self.line_counter < -1 {
                -1
            } else {
                self.line_counter + 1
            };
            self.line_counter = lc2;
            let idle: u8 = if lc2 < 0 {
                63
            } else {
                (lc2 % 64) as u8
            };
            let combined: u8 = (s0.line_count / 64) * 64 + idle;
            get_nib8(combined, (addr - 0x128) as usize)
        } else if addr <= 0x12d {
            get_nib16(s0.unknown, (addr - 0x12a) as usize)
        } else if addr == 0x12e {
            s0.t1_ctrl % 16
        } else if addr == 0x12f {
            s0.t2_ctrl % 16
        } else if addr <= 0x134 {
            get_nib32(s0.menu_addr, (addr - 0x130) as usize)
        } else if addr == 0x135 || addr == 0x136 {
            get_nib8(s0.unknown2, (addr - 0x135) as usize)
        } else if addr == 0x137 {
            let t: i32 = s0.timer1 as i32;
            (((t % 16) + 16) % 16) as u8
        } else {
            get_nib32(i32_bits(s0.timer2), (addr - 0x138) as usize)
        }
    }
}

// ---------------------------------------------------------------------------
// 20-bit address routing
// ---------------------------------------------------------------------------

/// Where a 20-bit address routes: the device file, one of the memories at a
/// computed index, the constant-7 card region, or nowhere.  `Zero` is the
/// device window with the I/O controller unconfigured.
pub enum Route {
    Mmio,
    Zero,
    Rom { idx: int },
    SysRam { idx: int },
    Port1 { idx: int },
    Port2 { idx: int },
    Seven,
    Unmapped,
}

impl Memory {
    /// Every stored value is a genuine nibble.
    pub open spec fn nibbles_valid(self) -> bool {
        &&& forall|i: int| 0 <= i < self.rom@.len() ==> self.rom@[i] < 16
        &&& forall|i: int| 0 <= i < self.ram@.len() ==> self.ram@[i] < 16
        &&& forall|i: int| 0 <= i < self.port1@.len() ==> self.port1@[i] < 16
        &&& forall|i: int| 0 <= i < self.port2@.len() ==> self.port2@[i] < 16
    }
}

/// The value a routed read returns; out-of-range indices read as zero.
pub open spec fn spec_route_val(m: Memory, rt: Route) -> u8 {
    match rt {
        Route::Mmio => 0,
        Route::Zero => 0,
        Route::Seven => 7,
        Route::Rom { idx } => if 0 <= idx < m.rom@.len() {
            m.rom@[idx]
        } else {
            0
        },
        Route::SysRam { idx } => if 0 <= idx < m.ram@.len() {
            m.ram@[idx]
        } else {
            0
        },
        Route::Port1 { idx } => if 0 <= idx < m.port1@.len() {
            m.port1@[idx]
        } else {
            0
        },
        Route::Port2 { idx } => if 0 <= idx < m.port2@.len() {
            m.port2@[idx]
        } else {
            0
        },
        Route::Unmapped => 0,
    }
}

/// Whether a read on the CRC path at this route feeds the CRC register.
pub open spec fn spec_route_crcs(rt: Route) -> bool {
    match rt {
        Route::Rom { idx } => true,
        Route::SysRam { idx } => true,
        Route::Port1 { idx } => true,
        Route::Port2 { idx } => true,
        Route::Zero => true,
        _ => false,
    }
}

/// The SX plug-in port index for an address, relative to `base`.
pub open spec fn spec_port_idx(a: u32, base: u32, mask: u32) -> int {
    ((a - base) as u32 & mask) as int
}

/// The GX port-2 index, which folds in the 256 KiB bank selected by the
/// bank-switch register.
pub open spec fn spec_port2_idx_gx(bank: u16, a: u32, base: u32, mask: u32) -> int {
    (((bank as u64) * 0x40000 + (((a - base) as u32) as u64)) as u64 & (mask as u64)) as int
}

/// Where an SX write at masked address `a` lands.
pub open spec fn sx_write_route(s: Saturn, m: Memory, a: u32) -> Route {
    let page = a / 0x10000;
    if page == 0 {
        if 0x100 <= a < 0x140 && s.mem_cntl@[0].config@[0] == 0x100 {
            Route::Mmio
        } else {
            Route::Unmapped
        }
    } else if page <= 6 {
        Route::Unmapped
    } else if page == 7 {
        if s.mem_cntl@[1].config@[0] == 0x70000 {
            if s.mem_cntl@[1].config@[1] == 0xfc000 && a < 0x74000 {
                Route::SysRam { idx: a - 0x70000 }
            } else if s.mem_cntl@[1].config@[1] == 0xfe000 && a < 0x72000 {
                Route::SysRam { idx: a - 0x70000 }
            } else if s.mem_cntl@[1].config@[1] == 0xf0000 {
                Route::SysRam { idx: a - 0x70000 }
            } else {
                Route::Unmapped
            }
        } else {
            Route::Unmapped
        }
    } else if page <= 0xb {
        if s.mem_cntl@[2].config@[0] == 0x80000 {
            Route::Port1 { idx: spec_port_idx(a, 0x80000, m.port1_mask) }
        } else if s.mem_cntl@[3].config@[0] == 0x80000 {
            Route::Port2 { idx: spec_port_idx(a, 0x80000, m.port2_mask) }
        } else {
            Route::Unmapped
        }
    } else if page <= 0xe {
        if s.mem_cntl@[2].config@[0] == 0xc0000 {
            Route::Port1 { idx: spec_port_idx(a, 0xc0000, m.port1_mask) }
        } else if s.mem_cntl@[3].config@[0] == 0xc0000 {
            Route::Port2 { idx: spec_port_idx(a, 0xc0000, m.port2_mask) }
        } else {
            Route::Unmapped
        }
    } else {
        if s.mem_cntl@[1].config@[0] == 0xf0000 {
            Route::SysRam { idx: a - 0xf0000 }
        } else if s.mem_cntl@[2].config@[0] == 0xc0000 {
            Route::Port1 { idx: spec_port_idx(a, 0xc0000, m.port1_mask) }
        } else if s.mem_cntl@[3].config@[0] == 0xc0000 {
            Route::Port2 { idx: spec_port_idx(a, 0xc0000, m.port2_mask) }
        } else {
            Route::Unmapped
        }
    }
}

/// Where an SX read at masked address `a` comes from.
pub open spec fn sx_read_route(s: Saturn, m: Memory, a: u32) -> Route {
    let page = a / 0x10000;
    if page == 0 {
        if 0x100 <= a < 0x140 {
            if s.mem_cntl@[0].config@[0] == 0x100 {
                Route::Mmio
            } else {
                Route::Zero
            }
        } else {
            Route::Rom { idx: a as int }
        }
    } else if page <= 6 {
        Route::Rom { idx: a as int }
    } else if page == 7 {
        if s.mem_cntl@[1].config@[0] == 0x70000 && ((s.mem_cntl@[1].config@[1] == 0xfc000 && a
            < 0x74000) || (s.mem_cntl@[1].config@[1] == 0xfe000 && a < 0x72000)
            || s.mem_cntl@[1].config@[1] == 0xf0000) {
            Route::SysRam { idx: a - 0x70000 }
        } else {
            Route::Rom { idx: a as int }
        }
    } else if page <= 0xb {
        if s.mem_cntl@[2].config@[0] == 0x80000 {
            Route::Port1 { idx: spec_port_idx(a, 0x80000, m.port1_mask) }
        } else if s.mem_cntl@[3].config@[0] == 0x80000 {
            Route::Port2 { idx: spec_port_idx(a, 0x80000, m.port2_mask) }
        } else {
            Route::Unmapped
        }
    } else if page <= 0xe {
        if s.mem_cntl@[2].config@[0] == 0xc0000 {
            Route::Port1 { idx: spec_port_idx(a, 0xc0000, m.port1_mask) }
        } else if s.mem_cntl@[3].config@[0] == 0xc0000 {
            Route::Port2 { idx: spec_port_idx(a, 0xc0000, m.port2_mask) }
        } else {
            Route::Unmapped
        }
    } else {
        if s.mem_cntl@[1].config@[0] == 0xf0000 {
            Route::SysRam { idx: a - 0xf0000 }
        } else if s.mem_cntl@[2].config@[0] == 0xc0000 {
            Route::Port1 { idx: spec_port_idx(a, 0xc0000, m.port1_mask) }
        } else if s.mem_cntl@[3].config@[0] == 0xc0000 {
            Route::Port2 { idx: spec_port_idx(a, 0xc0000, m.port2_mask) }
        } else {
            Route::Unmapped
        }
    }
}

impl Memory {
    /// Writes one SX nibble through the MMU.  Returns true iff the write
    /// landed in system RAM, where the caller must run the display-window
    /// check.
    #[verifier::rlimit(100)]
    #[verifier::spinoff_prover]
    pub fn write_nibble_sx(
        &mut self,
        saturn: &mut Saturn,
        display: &mut DisplayState,
        device: &mut DeviceFlags,
        device_check: &mut bool,
        schedule_event: &mut i32,
        addr: u32,
        val: u8,
    ) -> (r: bool)
        requires
            old(saturn).wf(),
            old(display).wf(),
        ensures
            ({
                let a = (addr % 0x100000) as u32;
                let v = (val % 16) as u8;
                match sx_write_route(*old(saturn), *old(self), a) {
                    Route::Mmio => {
                        &&& (*final(saturn), *final(display), *final(device)) == spec_write_dev(
                            *old(saturn),
                            *old(display),
                            *old(device),
                            a,
                            v,
                        )
                        &&& *final(device_check) == true
                        &&& *final(schedule_event) == 0
                        &&& *final(self) == (Memory {
                            line_counter: if a == 0x128 || a == 0x129 { -1i32 } else {
                                old(self).line_counter
                            },
                            ..*old(self)
                        })
                        &&& r == false
                    },
                    Route::SysRam { idx } => {
                        &&& *final(self) == (Memory { ram: final(self).ram, ..*old(self) })
                        &&& final(self).ram@ == (if 0 <= idx < old(self).ram@.len() {
                            old(self).ram@.update(idx, v)
                        } else {
                            old(self).ram@
                        })
                        &&& *final(saturn) == *old(saturn)
                        &&& *final(display) == *old(display)
                        &&& *final(device) == *old(device)
                        &&& *final(device_check) == *old(device_check)
                        &&& *final(schedule_event) == *old(schedule_event)
                        &&& r == true
                    },
                    Route::Port1 { idx } => {
                        &&& *final(self) == (Memory { port1: final(self).port1, ..*old(self) })
                        &&& final(self).port1@ == (if old(self).port1_is_ram && 0 <= idx < old(
                            self,
                        ).port1@.len() {
                            old(self).port1@.update(idx, v)
                        } else {
                            old(self).port1@
                        })
                        &&& *final(saturn) == *old(saturn)
                        &&& *final(display) == *old(display)
                        &&& *final(device) == *old(device)
                        &&& *final(device_check) == *old(device_check)
                        &&& *final(schedule_event) == *old(schedule_event)
                        &&& r == false
                    },
                    Route::Port2 { idx } => {
                        &&& *final(self) == (Memory { port2: final(self).port2, ..*old(self) })
                        &&& final(self).port2@ == (if old(self).port2_is_ram && 0 <= idx < old(
                            self,
                        ).port2@.len() {
                            old(self).port2@.update(idx, v)
                        } else {
                            old(self).port2@
                        })
                        &&& *final(saturn) == *old(saturn)
                        &&& *final(display) == *old(display)
                        &&& *final(device) == *old(device)
                        &&& *final(device_check) == *old(device_check)
                        &&& *final(schedule_event) == *old(schedule_event)
                        &&& r == false
                    },
                    _ => {
                        &&& *final(self) == *old(self)
                        &&& *final(saturn) == *old(saturn)
                        &&& *final(display) == *old(display)
                        &&& *final(device) == *old(device)
                        &&& *final(device_check) == *old(device_check)
                        &&& *final(schedule_event) == *old(schedule_event)
                        &&& r == false
                    },
                }
            }),
    {
        let a: u32 = addr % 0x100000;
        let v: u8 = val % 16;
        let page: u32 = a / 0x10000;
        if page == 0 {
            if a >= 0x100 && a < 0x140 && self.cfg0(saturn, 0) == 0x100 {
                self.write_dev_mem(saturn, display, device, device_check, schedule_event, a, v);
            }
            false
        } else if page <= 6 {
            false
        } else if page == 7 {
            if self.cfg0(saturn, 1) == 0x70000 {
                let c1: u32 = self.cfg1(saturn, 1);
                if (c1 == 0xfc000 && a < 0x74000) || (c1 == 0xfe000 && a < 0x72000) || c1
                    == 0xf0000 {
                    self.ram_store((a - 0x70000) as usize, v);
                    true
                } else {
                    false
                }
            } else {
                false
            }
        } else if page <= 0xb {
            if self.cfg0(saturn, 2) == 0x80000 {
                self.port1_store(a, 0x80000, v);
            } else if self.cfg0(saturn, 3) == 0x80000 {
                self.port2_store_sx(a, 0x80000, v);
            }
            false
        } else if page <= 0xe {
            if self.cfg0(saturn, 2) == 0xc0000 {
                self.port1_store(a, 0xc0000, v);
            } else if self.cfg0(saturn, 3) == 0xc0000 {
                self.port2_store_sx(a, 0xc0000, v);
            }
            false
        } else {
            if self.cfg0(saturn, 1) == 0xf0000 {
                self.ram_store((a - 0xf0000) as usize, v);
                true
            } else {
                if self.cfg0(saturn, 2) == 0xc0000 {
                    self.port1_store(a, 0xc0000, v);
                } else if self.cfg0(saturn, 3) == 0xc0000 {
                    self.port2_store_sx(a, 0xc0000, v);
                }
                false
            }
        }
    }

    /// Primary base of controller `i`.
    fn cfg0(&self, saturn: &Saturn, i: usize) -> (r: u32)
        requires
            i < 6,
        ensures
            r == saturn.mem_cntl@[i as int].config@[0],
    {
        saturn.mem_cntl[i].config[0]
    }

    /// Secondary base of controller `i`.
    fn cfg1(&self, saturn: &Saturn, i: usize) -> (r: u32)
        requires
            i < 6,
        ensures
            r == saturn.mem_cntl@[i as int].config@[1],
    {
        saturn.mem_cntl[i].config[1]
    }

    /// Stores into system RAM when the index is in range.
    fn ram_store(&mut self, idx: usize, v: u8)
        ensures
            *final(self) == (Memory { ram: final(self).ram, ..*old(self) }),
            final(self).ram@ == (if idx < old(self).ram@.len() {
                old(self).ram@.update(idx as int, v)
            } else {
                old(self).ram@
            }),
    {
        if idx < self.ram.len() {
            self.ram[idx] = v;
        }
    }

    /// Stores into port 1 when it is RAM and the masked index is in range.
    fn port1_store(&mut self, a: u32, base: u32, v: u8)
        requires
            base <= a,
        ensures
            *final(self) == (Memory { port1: final(self).port1, ..*old(self) }),
            final(self).port1@ == ({
                let idx = spec_port_idx(a, base, old(self).port1_mask);
                if old(self).port1_is_ram && 0 <= idx < old(self).port1@.len() {
                    old(self).port1@.update(idx, v)
                } else {
                    old(self).port1@
                }
            }),
    {
        let idx: usize = ((a - base) & self.port1_mask) as usize;
        if self.port1_is_ram && idx < self.port1.len() {
            self.port1[idx] = v;
        }
    }

    /// Stores into port 2 (SX addressing) when it is RAM and in range.
    fn port2_store_sx(&mut self, a: u32, base: u32, v: u8)
        requires
            base <= a,
        ensures
            *final(self) == (Memory { port2: final(self).port2, ..*old(self) }),
            final(self).port2@ == ({
                let idx = spec_port_idx(a, base, old(self).port2_mask);
                if old(self).port2_is_ram && 0 <= idx < old(self).port2@.len() {
                    old(self).port2@.update(idx, v)
                } else {
                    old(self).port2@
                }
            }),
    {
        let idx: usize = ((a - base) & self.port2_mask) as usize;
        if self.port2_is_ram && idx < self.port2.len() {
            self.port2[idx] = v;
        }
    }

    /// Reads one SX nibble through the MMU; the device window is handled by
    /// the caller and reads as zero here.
    #[verifier::rlimit(100)]
    #[verifier::spinoff_prover]
    pub fn read_nibble_sx(&self, saturn: &Saturn, addr: u32) -> (r: u8)
        ensures
            r == spec_route_val(*self, sx_read_route(*saturn, *self, (addr % 0x100000) as u32)),
            self.nibbles_valid() ==> r < 16,
    {
        let a: u32 = addr % 0x100000;
        match self.sx_read_inner(saturn, a) {
            Some(v) => v,
            None => 0,
        }
    }

    /// The SX read dispatch; `None` stands for the device window and the
    /// unmapped pages, which read as zero.
    #[verifier::rlimit(100)]
    #[verifier::spinoff_prover]
    fn sx_read_inner(&self, saturn: &Saturn, a: u32) -> (r: Option<u8>)
        requires
            a < 0x100000,
        ensures
            ({
                let rt = sx_read_route(*saturn, *self, a);
                &&& match r {
                    Some(v) => v == spec_route_val(*self, rt) && (self.nibbles_valid() ==> v
                        < 16),
                    None => spec_route_val(*self, rt) == 0,
                }
                &&& match rt {
                    Route::Mmio => r == None::<u8>,
                    Route::Zero => r == None::<u8>,
                    Route::Unmapped => r == None::<u8>,
                    _ => !(r == None::<u8>),
                }
            }),
    {
        let page: u32 = a / 0x10000;
        if page == 0 {
            if a >= 0x100 && a < 0x140 {
                None
            } else {
                self.rom_load(a as usize)
            }
        } else if page <= 6 {
            self.rom_load(a as usize)
        } else if page == 7 {
            if self.cfg0(saturn, 1) == 0x70000 {
                let c1: u32 = self.cfg1(saturn, 1);
                if (c1 == 0xfc000 && a < 0x74000) || (c1 == 0xfe000 && a < 0x72000) || c1
                    == 0xf0000 {
                    self.ram_load((a - 0x70000) as usize)
                } else {
                    self.rom_load(a as usize)
                }
            } else {
                self.rom_load(a as usize)
            }
        } else if page <= 0xb {
            if self.cfg0(saturn, 2) == 0x80000 {
                self.port1_load(a, 0x80000)
            } else if self.cfg0(saturn, 3) == 0x80000 {
                self.port2_load_sx(a, 0x80000)
            } else {
                None
            }
        } else if page <= 0xe {
            if self.cfg0(saturn, 2) == 0xc0000 {
                self.port1_load(a, 0xc0000)
            } else if self.cfg0(saturn, 3) == 0xc0000 {
                self.port2_load_sx(a, 0xc0000)
            } else {
                None
            }
        } else {
            if self.cfg0(saturn, 1) == 0xf0000 {
                self.ram_load((a - 0xf0000) as usize)
            } else if self.cfg0(saturn, 2) == 0xc0000 {
                self.port1_load(a, 0xc0000)
            } else if self.cfg0(saturn, 3) == 0xc0000 {
                self.port2_load_sx(a, 0xc0000)
            } else {
                None
            }
        }
    }

    fn rom_load(&self, idx: usize) -> (r: Option<u8>)
        ensures
            r == Some(if idx < self.rom@.len() {
                self.rom@[idx as int]
            } else {
                0u8
            }),
    {
        if idx < self.rom.len() {
            Some(self.rom[idx])
        } else {
            Some(0)
        }
    }

    fn ram_load(&self, idx: usize) -> (r: Option<u8>)
        ensures
            r == Some(if idx < self.ram@.len() {
                self.ram@[idx as int]
            } else {
                0u8
            }),
    {
        if idx < self.ram.len() {
            Some(self.ram[idx])
        } else {
            Some(0)
        }
    }

    fn port1_load(&self, a: u32, base: u32) -> (r: Option<u8>)
        requires
            base <= a,
        ensures
            ({
                let idx = spec_port_idx(a, base, self.port1_mask);
                r == Some(if 0 <= idx < self.port1@.len() {
                    self.port1@[idx]
                } else {
                    0u8
                })
            }),
    {
        let idx: usize = ((a - base) & self.port1_mask) as usize;
        if idx < self.port1.len() {
            Some(self.port1[idx])
        } else {
            Some(0)
        }
    }

    fn port2_load_sx(&self, a: u32, base: u32) -> (r: Option<u8>)
        requires
            base <= a,
        ensures
            ({
                let idx = spec_port_idx(a, base, self.port2_mask);
                r == Some(if 0 <= idx < self.port2@.len() {
                    self.port2@[idx]
                } else {
                    0u8
                })
            }),
    {
        let idx: usize = ((a - base) & self.port2_mask) as usize;
        if idx < self.port2.len() {
            Some(self.port2[idx])
        } else {
            Some(0)
        }
    }

    /// Reads one SX nibble through the CRC path: any nibble that a mapped
    /// memory (or the unconfigured device window) yields is fed through the
    /// CRC update; the device window with a configured controller is handled
    /// by the caller.
    #[verifier::rlimit(100)]
    #[verifier::spinoff_prover]
    pub fn read_nibble_crc_sx(&self, saturn: &mut Saturn, addr: u32) -> (r: u8)
        ensures
            ({
                let a = (addr % 0x100000) as u32;
                let rt = sx_read_route(*old(saturn), *self, a);
                &&& r == spec_route_val(*self, rt)
                &&& *final(saturn) == (if spec_route_crcs(rt) {
                    Saturn { crc: crc_step(old(saturn).crc, r), ..*old(saturn) }
                } else {
                    *old(saturn)
                })
                &&& (self.nibbles_valid() ==> r < 16)
            }),
    {
        let a: u32 = addr % 0x100000;
        match self.sx_read_inner(saturn, a) {
            Some(v) => calc_crc(saturn, v),
            None => {
                if a >= 0x100 && a < 0x140 && a / 0x10000 == 0 {
                    if self.cfg0(saturn, 0) == 0x100 {
                        0
                    } else {
                        calc_crc(saturn, 0)
                    }
                } else {
                    0
                }
            },
        }
    }
}

/// Writing a nibble into a configured SX RAM region and reading the same
/// address back yields exactly the written nibble.
pub proof fn lemma_sx_write_read_ram(s: Saturn, m0: Memory, m1: Memory, a: u32, v: u8)
    requires
        a < 0x100000,
        v < 16,
        match sx_write_route(s, m0, a) {
            Route::SysRam { idx } => 0 <= idx < m0.ram@.len() && m1 == (Memory {
                ram: m1.ram,
                ..m0
            }) && m1.ram@ == m0.ram@.update(idx, v),
            _ => false,
        },
    ensures
        spec_route_val(m1, sx_read_route(s, m1, a)) == v,
{
}

/// The GX bank-switch index after a read at masked address `a`: reads in the
/// bank-control regions select a 256 KiB slice of port 2.
pub open spec fn gx_bank_after(s: Saturn, a: u32) -> u16 {
    if 0x7f000 <= a < 0x80000 && s.mem_cntl@[2].config@[0] == 0x7f000 {
        if a == 0x7f000 {
            0u16
        } else if 0x7f040 <= a < 0x7f080 {
            ((a - 0x7f040) / 2) as u16
        } else {
            s.bank_switch
        }
    } else if 0x90000 <= a < 0x91000 && s.mem_cntl@[0].config@[0] == 0x90000 {
        if a == 0x90000 {
            0u16
        } else if 0x90040 <= a < 0x90080 {
            ((a - 0x90040) / 2) as u16
        } else {
            s.bank_switch
        }
    } else {
        s.bank_switch
    }
}

/// Where a GX read at masked address `a` comes from.
pub open spec fn gx_read_route(s: Saturn, m: Memory, a: u32) -> Route {
    let page = a / 0x10000;
    if page == 0 {
        if 0x100 <= a < 0x140 {
            if s.mem_cntl@[0].config@[0] == 0x100 {
                Route::Mmio
            } else {
                Route::Zero
            }
        } else {
            Route::Rom { idx: a as int }
        }
    } else if page <= 3 || page == 5 || page == 6 {
        Route::Rom { idx: a as int }
    } else if page == 4 {
        if s.mem_cntl@[1].config@[0] == 0x40000 {
            Route::SysRam { idx: a - 0x40000 }
        } else {
            Route::Rom { idx: a as int }
        }
    } else if page == 7 {
        if a >= 0x7f000 && s.mem_cntl@[2].config@[0] == 0x7f000 {
            Route::Seven
        } else if 0x7e000 <= a < 0x7f000 && s.mem_cntl@[3].config@[0] == 0x7e000 {
            Route::Seven
        } else if 0x7e000 <= a < 0x7f000 && s.mem_cntl@[4].config@[0] == 0x7e000 {
            Route::Seven
        } else {
            Route::Rom { idx: a as int }
        }
    } else if page == 8 {
        if s.mem_cntl@[1].config@[0] == 0x80000 && ((s.mem_cntl@[1].config@[1] == 0xfc000 && a
            < 0x84000) || (s.mem_cntl@[1].config@[1] == 0xfe000 && a < 0x82000)
            || s.mem_cntl@[1].config@[1] == 0xf0000 || s.mem_cntl@[1].config@[1] == 0xc0000) {
            Route::SysRam { idx: a - 0x80000 }
        } else {
            Route::Rom { idx: a as int }
        }
    } else if page == 9 {
        if s.mem_cntl@[0].config@[0] == 0x90000 && a < 0x91000 {
            Route::Seven
        } else if s.mem_cntl@[1].config@[0] == 0x80000 && s.mem_cntl@[1].config@[1] == 0xc0000 {
            Route::SysRam { idx: a - 0x80000 }
        } else {
            Route::Rom { idx: a as int }
        }
    } else if page == 0xa {
        if s.mem_cntl@[1].config@[0] == 0x80000 && s.mem_cntl@[1].config@[1] == 0xc0000 {
            Route::SysRam { idx: a - 0x80000 }
        } else if s.mem_cntl@[3].config@[0] == 0xa0000 {
            Route::Port1 { idx: spec_port_idx(a, 0xa0000, m.port1_mask) }
        } else {
            Route::Rom { idx: a as int }
        }
    } else if page == 0xb {
        if s.mem_cntl@[1].config@[0] == 0x80000 && s.mem_cntl@[1].config@[1] == 0xc0000 {
            Route::SysRam { idx: a - 0x80000 }
        } else if s.mem_cntl@[4].config@[0] == 0xb0000 {
            Route::Port2 { idx: spec_port2_idx_gx(s.bank_switch, a, 0xb0000, m.port2_mask) }
        } else {
            Route::Rom { idx: a as int }
        }
    } else if page == 0xc {
        if s.mem_cntl@[1].config@[0] == 0xc0000 {
            Route::SysRam { idx: a - 0xc0000 }
        } else if s.mem_cntl@[3].config@[0] == 0xc0000 {
            Route::Port1 { idx: spec_port_idx(a, 0xc0000, m.port1_mask) }
        } else if s.mem_cntl@[4].config@[0] == 0xc0000 {
            Route::Port2 { idx: spec_port2_idx_gx(s.bank_switch, a, 0xc0000, m.port2_mask) }
        } else {
            Route::Rom { idx: a as int }
        }
    } else {
        if s.mem_cntl@[1].config@[0] == 0xc0000 && s.mem_cntl@[1].config@[1] == 0xc0000 {
            Route::SysRam { idx: a - 0xc0000 }
        } else if s.mem_cntl@[3].config@[0] == 0xc0000 && s.mem_cntl@[3].config@[1] == 0xc0000 {
            Route::Port1 { idx: spec_port_idx(a, 0xc0000, m.port1_mask) }
        } else if s.mem_cntl@[4].config@[0] == 0xc0000 && s.mem_cntl@[4].config@[1] == 0xc0000 {
            Route::Port2 { idx: spec_port2_idx_gx(s.bank_switch, a, 0xc0000, m.port2_mask) }
        } else {
            Route::Rom { idx: a as int }
        }
    }
}

/// Where a GX write at masked address `a` lands.
pub open spec fn gx_write_route(s: Saturn, m: Memory, a: u32) -> Route {
    let page = a / 0x10000;
    if page == 0 {
        if 0x100 <= a < 0x140 && s.mem_cntl@[0].config@[0] == 0x100 {
            Route::Mmio
        } else {
            Route::Unmapped
        }
    } else if page <= 3 || page == 5 || page == 6 || page == 7 {
        Route::Unmapped
    } else if page == 4 {
        if s.mem_cntl@[1].config@[0] == 0x40000 {
            Route::SysRam { idx: a - 0x40000 }
        } else {
            Route::Unmapped
        }
    } else if page == 8 {
        if s.mem_cntl@[1].config@[0] == 0x80000 && ((s.mem_cntl@[1].config@[1] == 0xfc000 && a
            < 0x84000) || (s.mem_cntl@[1].config@[1] == 0xfe000 && a < 0x82000)
            || s.mem_cntl@[1].config@[1] == 0xf0000 || s.mem_cntl@[1].config@[1] == 0xc0000) {
            Route::SysRam { idx: a - 0x80000 }
        } else {
            Route::Unmapped
        }
    } else if page == 9 {
        if s.mem_cntl@[2].config@[0] == 0x90000 && a < 0x91000 {
            Route::Unmapped
        } else if s.mem_cntl@[1].config@[0] == 0x80000 && s.mem_cntl@[1].config@[1] == 0xc0000 {
            Route::SysRam { idx: a - 0x80000 }
        } else {
            Route::Unmapped
        }
    } else if page == 0xa {
        if s.mem_cntl@[1].config@[0] == 0x80000 && s.mem_cntl@[1].config@[1] == 0xc0000 {
            Route::SysRam { idx: a - 0x80000 }
        } else if s.mem_cntl@[3].config@[0] == 0xa0000 {
            Route::Port1 { idx: spec_port_idx(a, 0xa0000, m.port1_mask) }
        } else {
            Route::Unmapped
        }
    } else if page == 0xb {
        if s.mem_cntl@[1].config@[0] == 0x80000 && s.mem_cntl@[1].config@[1] == 0xc0000 {
            Route::SysRam { idx: a - 0x80000 }
        } else if s.mem_cntl@[4].config@[0] == 0xb0000 {
            Route::Port2 { idx: spec_port2_idx_gx(s.bank_switch, a, 0xb0000, m.port2_mask) }
        } else {
            Route::Unmapped
        }
    } else if page == 0xc {
        if s.mem_cntl@[1].config@[0] == 0xc0000 {
            Route::SysRam { idx: a - 0xc0000 }
        } else if s.mem_cntl@[3].config@[0] == 0xc0000 {
            Route::Port1 { idx: spec_port_idx(a, 0xc0000, m.port1_mask) }
        } else if s.mem_cntl@[4].config@[0] == 0xc0000 {
            Route::Port2 { idx: spec_port2_idx_gx(s.bank_switch, a, 0xc0000, m.port2_mask) }
        } else {
            Route::Unmapped
        }
    } else {
        if s.mem_cntl@[1].config@[0] == 0xc0000 && s.mem_cntl@[1].config@[1] == 0xc0000 {
            Route::SysRam { idx: a - 0xc0000 }
        } else if s.mem_cntl@[3].config@[0] == 0xc0000 && s.mem_cntl@[3].config@[1] == 0xc0000 {
            Route::Port1 { idx: spec_port_idx(a, 0xc0000, m.port1_mask) }
        } else if s.mem_cntl@[4].config@[0] == 0xc0000 && s.mem_cntl@[4].config@[1] == 0xc0000 {
            Route::Port2 { idx: spec_port2_idx_gx(s.bank_switch, a, 0xc0000, m.port2_mask) }
        } else {
            Route::Unmapped
        }
    }
}

impl Memory {
    /// Stores into port 2 with GX bank-folded addressing.
    fn port2_store_gx(&mut self, bank: u16, a: u32, base: u32, v: u8)
        requires
            base <= a,
        ensures
            *final(self) == (Memory { port2: final(self).port2, ..*old(self) }),
            final(self).port2@ == ({
                let idx = spec_port2_idx_gx(bank, a, base, old(self).port2_mask);
                if old(self).port2_is_ram && 0 <= idx < old(self).port2@.len() {
                    old(self).port2@.update(idx, v)
                } else {
                    old(self).port2@
                }
            }),
    {
        let idx64: u64 = (bank as u64) * 0x40000 + ((a - base) as u64);
        let masked: u64 = idx64 & (self.port2_mask as u64);
        proof {
            let m64 = old(self).port2_mask as u64;
            assert(masked <= m64) by (bit_vector)
                requires
                    masked == idx64 & m64,
            ;
        }
        let idx: usize = masked as usize;
        if self.port2_is_ram && idx < self.port2.len() {
            self.port2[idx] = v;
        }
    }

    /// Loads from port 2 with GX bank-folded addressing.
    fn port2_load_gx(&self, bank: u16, a: u32, base: u32) -> (r: Option<u8>)
        requires
            base <= a,
        ensures
            ({
                let idx = spec_port2_idx_gx(bank, a, base, self.port2_mask);
                r == Some(if 0 <= idx < self.port2@.len() {
                    self.port2@[idx]
                } else {
                    0u8
                })
            }),
    {
        let idx64: u64 = (bank as u64) * 0x40000 + ((a - base) as u64);
        let masked: u64 = idx64 & (self.port2_mask as u64);
        proof {
            let m64 = self.port2_mask as u64;
            assert(masked <= m64) by (bit_vector)
                requires
                    masked == idx64 & m64,
            ;
        }
        let idx: usize = masked as usize;
        if idx < self.port2.len() {
            Some(self.port2[idx])
        } else {
            Some(0)
        }
    }

    /// Writes one GX nibble through the MMU.  Returns true iff the write
    /// landed in system RAM.
    #[verifier::rlimit(100)]
    #[verifier::spinoff_prover]
    pub fn write_nibble_gx(
        &mut self,
        saturn: &mut Saturn,
        display: &mut DisplayState,
        device: &mut DeviceFlags,
        device_check: &mut bool,
        schedule_event: &mut i32,
        addr: u32,
        val: u8,
    ) -> (r: bool)
        requires
            old(saturn).wf(),
            old(display).wf(),
        ensures
            ({
                let a = (addr % 0x100000) as u32;
                let v = (val % 16) as u8;
                match gx_write_route(*old(saturn), *old(self), a) {
                    Route::Mmio => {
                        &&& (*final(saturn), *final(display), *final(device)) == spec_write_dev(
                            *old(saturn),
                            *old(display),
                            *old(device),
                            a,
                            v,
                        )
                        &&& *final(device_check) == true
                        &&& *final(schedule_event) == 0
                        &&& *final(self) == (Memory {
                            line_counter: if a == 0x128 || a == 0x129 { -1i32 } else {
                                old(self).line_counter
                            },
                            ..*old(self)
                        })
                        &&& r == false
                    },
                    Route::SysRam { idx } => {
                        &&& *final(self) == (Memory { ram: final(self).ram, ..*old(self) })
                        &&& final(self).ram@ == (if 0 <= idx < old(self).ram@.len() {
                            old(self).ram@.update(idx, v)
                        } else {
                            old(self).ram@
                        })
                        &&& *final(saturn) == *old(saturn)
                        &&& *final(display) == *old(display)
                        &&& *final(device) == *old(device)
                        &&& *final(device_check) == *old(device_check)
                        &&& *final(schedule_event) == *old(schedule_event)
                        &&& r == true
                    },
                    Route::Port1 { idx } => {
                        &&& *final(self) == (Memory { port1: final(self).port1, ..*old(self) })
                        &&& final(self).port1@ == (if old(self).port1_is_ram && 0 <= idx < old(
                            self,
                        ).port1@.len() {
                            old(self).port1@.update(idx, v)
                        } else {
                            old(self).port1@
                        })
                        &&& *final(saturn) == *old(saturn)
                        &&& *final(display) == *old(display)
                        &&& *final(device) == *old(device)
                        &&& *final(device_check) == *old(device_check)
                        &&& *final(schedule_event) == *old(schedule_event)
                        &&& r == false
                    },
                    Route::Port2 { idx } => {
                        &&& *final(self) == (Memory { port2: final(self).port2, ..*old(self) })
                        &&& final(self).port2@ == (if old(self).port2_is_ram && 0 <= idx < old(
                            self,
                        ).port2@.len() {
                            old(self).port2@.update(idx, v)
                        } else {
                            old(self).port2@
                        })
                        &&& *final(saturn) == *old(saturn)
                        &&& *final(display) == *old(display)
                        &&& *final(device) == *old(device)
                        &&& *final(device_check) == *old(device_check)
                        &&& *final(schedule_event) == *old(schedule_event)
                        &&& r == false
                    },
                    _ => {
                        &&& *final(self) == *old(self)
                        &&& *final(saturn) == *old(saturn)
                        &&& *final(display) == *old(display)
                        &&& *final(device) == *old(device)
                        &&& *final(device_check) == *old(device_check)
                        &&& *final(schedule_event) == *old(schedule_event)
                        &&& r == false
                    },
                }
            }),
    {
        let a: u32 = addr % 0x100000;
        let v: u8 = val % 16;
        let page: u32 = a / 0x10000;
        let bank: u16 = saturn.bank_switch;
        if page == 0 {
            if a >= 0x100 && a < 0x140 && self.cfg0(saturn, 0) == 0x100 {
                self.write_dev_mem(saturn, display, device, device_check, schedule_event, a, v);
            }
            false
        } else if page <= 3 || page == 5 || page == 6 || page == 7 {
            false
        } else if page == 4 {
            if self.cfg0(saturn, 1) == 0x40000 {
                self.ram_store((a - 0x40000) as usize, v);
                true
            } else {
                false
            }
        } else if page == 8 {
            if self.cfg0(saturn, 1) == 0x80000 {
                let c1: u32 = self.cfg1(saturn, 1);
                if (c1 == 0xfc000 && a < 0x84000) || (c1 == 0xfe000 && a < 0x82000) || c1
                    == 0xf0000 || c1 == 0xc0000 {
                    self.ram_store((a - 0x80000) as usize, v);
                    true
                } else {
                    false
                }
            } else {
                false
            }
        } else if page == 9 {
            if self.cfg0(saturn, 2) == 0x90000 && a < 0x91000 {
                false
            } else if self.cfg0(saturn, 1) == 0x80000 && self.cfg1(saturn, 1) == 0xc0000 {
                self.ram_store((a - 0x80000) as usize, v);
                true
            } else {
                false
            }
        } else if page == 0xa {
            if self.cfg0(saturn, 1) == 0x80000 && self.cfg1(saturn, 1) == 0xc0000 {
                self.ram_store((a - 0x80000) as usize, v);
                true
            } else {
                if self.cfg0(saturn, 3) == 0xa0000 {
                    self.port1_store(a, 0xa0000, v);
                }
                false
            }
        } else if page == 0xb {
            if self.cfg0(saturn, 1) == 0x80000 && self.cfg1(saturn, 1) == 0xc0000 {
                self.ram_store((a - 0x80000) as usize, v);
                true
            } else {
                if self.cfg0(saturn, 4) == 0xb0000 {
                    self.port2_store_gx(bank, a, 0xb0000, v);
                }
                false
            }
        } else if page == 0xc {
            if self.cfg0(saturn, 1) == 0xc0000 {
                self.ram_store((a - 0xc0000) as usize, v);
                true
            } else {
                if self.cfg0(saturn, 3) == 0xc0000 {
                    self.port1_store(a, 0xc0000, v);
                } else if self.cfg0(saturn, 4) == 0xc0000 {
                    self.port2_store_gx(bank, a, 0xc0000, v);
                }
                false
            }
        } else {
            if self.cfg0(saturn, 1) == 0xc0000 && self.cfg1(saturn, 1) == 0xc0000 {
                self.ram_store((a - 0xc0000) as usize, v);
                true
            } else {
                if self.cfg0(saturn, 3) == 0xc0000 && self.cfg1(saturn, 3) == 0xc0000 {
                    self.port1_store(a, 0xc0000, v);
                } else if self.cfg0(saturn, 4) == 0xc0000 && self.cfg1(saturn, 4) == 0xc0000 {
                    self.port2_store_gx(bank, a, 0xc0000, v);
                }
                false
            }
        }
    }

    /// The GX read dispatch; `None` stands for the device window and the
    /// unmapped pages.
    #[verifier::rlimit(100)]
    #[verifier::spinoff_prover]
    fn gx_read_inner(&self, saturn: &Saturn, a: u32) -> (r: Option<u8>)
        requires
            a < 0x100000,
        ensures
            ({
                let rt = gx_read_route(*saturn, *self, a);
                &&& match r {
                    Some(v) => v == spec_route_val(*self, rt) && (self.nibbles_valid() ==> v
                        < 16),
                    None => spec_route_val(*self, rt) == 0,
                }
                &&& match rt {
                    Route::Mmio => r == None::<u8>,
                    Route::Zero => r == None::<u8>,
                    Route::Unmapped => r == None::<u8>,
                    _ => !(r == None::<u8>),
                }
            }),
    {
        let page: u32 = a / 0x10000;
        let bank: u16 = saturn.bank_switch;
        if page == 0 {
            if a >= 0x100 && a < 0x140 {
                None
            } else {
                self.rom_load(a as usize)
            }
        } else if page <= 3 || page == 5 || page == 6 {
            self.rom_load(a as usize)
        } else if page == 4 {
            if self.cfg0(saturn, 1) == 0x40000 {
                self.ram_load((a - 0x40000) as usize)
            } else {
                self.rom_load(a as usize)
            }
        } else if page == 7 {
            if a >= 0x7f000 && self.cfg0(saturn, 2) == 0x7f000 {
                Some(7)
            } else if a >= 0x7e000 && a < 0x7f000 && self.cfg0(saturn, 3) == 0x7e000 {
                Some(7)
            } else if a >= 0x7e000 && a < 0x7f000 && self.cfg0(saturn, 4) == 0x7e000 {
                Some(7)
            } else {
                self.rom_load(a as usize)
            }
        } else if page == 8 {
            if self.cfg0(saturn, 1) == 0x80000 {
                let c1: u32 = self.cfg1(saturn, 1);
                if (c1 == 0xfc000 && a < 0x84000) || (c1 == 0xfe000 && a < 0x82000) || c1
                    == 0xf0000 || c1 == 0xc0000 {
                    self.ram_load((a - 0x80000) as usize)
                } else {
                    self.rom_load(a as usize)
                }
            } else {
                self.rom_load(a as usize)
            }
        } else if page == 9 {
            if self.cfg0(saturn, 0) == 0x90000 && a < 0x91000 {
                Some(7)
            } else if self.cfg0(saturn, 1) == 0x80000 && self.cfg1(saturn, 1) == 0xc0000 {
                self.ram_load((a - 0x80000) as usize)
            } else {
                self.rom_load(a as usize)
            }
        } else if page == 0xa {
            if self.cfg0(saturn, 1) == 0x80000 && self.cfg1(saturn, 1) == 0xc0000 {
                self.ram_load((a - 0x80000) as usize)
            } else if self.cfg0(saturn, 3) == 0xa0000 {
                self.port1_load(a, 0xa0000)
            } else {
                self.rom_load(a as usize)
            }
        } else if page == 0xb {
            if self.cfg0(saturn, 1) == 0x80000 && self.cfg1(saturn, 1) == 0xc0000 {
                self.ram_load((a - 0x80000) as usize)
            } else if self.cfg0(saturn, 4) == 0xb0000 {
                self.port2_load_gx(bank, a, 0xb0000)
            } else {
                self.rom_load(a as usize)
            }
        } else if page == 0xc {
            if self.cfg0(saturn, 1) == 0xc0000 {
                self.ram_load((a - 0xc0000) as usize)
            } else if self.cfg0(saturn, 3) == 0xc0000 {
                self.port1_load(a, 0xc0000)
            } else if self.cfg0(saturn, 4) == 0xc0000 {
                self.port2_load_gx(bank, a, 0xc0000)
            } else {
                self.rom_load(a as usize)
            }
        } else {
            if self.cfg0(saturn, 1) == 0xc0000 && self.cfg1(saturn, 1) == 0xc0000 {
                self.ram_load((a - 0xc0000) as usize)
            } else if self.cfg0(saturn, 3) == 0xc0000 && self.cfg1(saturn, 3) == 0xc0000 {
                self.port1_load(a, 0xc0000)
            } else if self.cfg0(saturn, 4) == 0xc0000 && self.cfg1(saturn, 4) == 0xc0000 {
                self.port2_load_gx(bank, a, 0xc0000)
            } else {
                self.rom_load(a as usize)
            }
        }
    }

    /// Applies the bank-switch side effect a GX read at `a` causes.
    fn gx_apply_bank(&self, saturn: &mut Saturn, a: u32)
        requires
            a < 0x100000,
        ensures
            *final(saturn) == (Saturn {
                bank_switch: gx_bank_after(*old(saturn), a),
                ..*old(saturn)
            }),
    {
        if a >= 0x7f000 && a < 0x80000 && self.cfg0(saturn, 2) == 0x7f000 {
            if a == 0x7f000 {
                saturn.bank_switch = 0;
            } else if a >= 0x7f040 && a < 0x7f080 {
                saturn.bank_switch = ((a - 0x7f040) / 2) as u16;
            }
        } else if a >= 0x90000 && a < 0x91000 && self.cfg0(saturn, 0) == 0x90000 {
            if a == 0x90000 {
                saturn.bank_switch = 0;
            } else if a >= 0x90040 && a < 0x90080 {
                saturn.bank_switch = ((a - 0x90040) / 2) as u16;
            }
        }
    }

    /// Reads one GX nibble through the MMU; reads in the bank-control
    /// regions switch the port-2 bank.  The device window is handled by the
    /// caller and reads as zero here.
    pub fn read_nibble_gx(&self, saturn: &mut Saturn, addr: u32) -> (r: u8)
        ensures
            ({
                let a = (addr % 0x100000) as u32;
                &&& r == spec_route_val(*self, gx_read_route(*old(saturn), *self, a))
                &&& *final(saturn) == (Saturn {
                    bank_switch: gx_bank_after(*old(saturn), a),
                    ..*old(saturn)
                })
                &&& (self.nibbles_valid() ==> r < 16)
            }),
    {
        let a: u32 = addr % 0x100000;
        let r: u8 = match self.gx_read_inner(saturn, a) {
            Some(v) => v,
            None => 0,
        };
        self.gx_apply_bank(saturn, a);
        r
    }

    /// Reads one GX nibble for display rendering: the same routing as
    /// `read_nibble_gx` but without the bank-switch side effect.
    pub fn read_nibble_gx_display(&self, saturn: &Saturn, addr: u32) -> (r: u8)
        ensures
            r == spec_route_val(*self, gx_read_route(*saturn, *self, (addr % 0x100000) as u32)),
            self.nibbles_valid() ==> r < 16,
    {
        let a: u32 = addr % 0x100000;
        match self.gx_read_inner(saturn, a) {
            Some(v) => v,
            None => 0,
        }
    }

    /// Reads one GX nibble through the CRC path, with the bank-switch side
    /// effect; mapped values and the unconfigured device window feed the CRC
    /// register.
    #[verifier::rlimit(100)]
    #[verifier::spinoff_prover]
    pub fn read_nibble_crc_gx(&self, saturn: &mut Saturn, addr: u32) -> (r: u8)
        ensures
            ({
                let a = (addr % 0x100000) as u32;
                let rt = gx_read_route(*old(saturn), *self, a);
                &&& r == spec_route_val(*self, rt)
                &&& *final(saturn) == (Saturn {
                    crc: if spec_route_crcs(rt) && !(rt is Seven) {
                        crc_step(old(saturn).crc, r)
                    } else {
                        old(saturn).crc
                    },
                    bank_switch: gx_bank_after(*old(saturn), a),
                    ..*old(saturn)
                })
                &&& (self.nibbles_valid() ==> r < 16)
            }),
    {
        let a: u32 = addr % 0x100000;
        let inner = self.gx_read_inner(saturn, a);
        self.gx_apply_bank(saturn, a);
        match inner {
            Some(v) => {
                if v == 7 && self.is_gx_seven(saturn, a) {
                    v
                } else {
                    calc_crc(saturn, v)
                }
            },
            None => {
                if a >= 0x100 && a < 0x140 && a / 0x10000 == 0 {
                    if self.cfg0(saturn, 0) == 0x100 {
                        0
                    } else {
                        calc_crc(saturn, 0)
                    }
                } else {
                    0
                }
            },
        }
    }

    /// Whether a GX address falls in one of the constant-7 card regions.
    fn is_gx_seven(&self, saturn: &Saturn, a: u32) -> (r: bool)
        requires
            a < 0x100000,
        ensures
            r == (gx_read_route(*saturn, *self, a) is Seven),
    {
        let page: u32 = a / 0x10000;
        if page == 7 {
            if a >= 0x7f000 && self.cfg0(saturn, 2) == 0x7f000 {
                true
            } else if a >= 0x7e000 && a < 0x7f000 && (self.cfg0(saturn, 3) == 0x7e000 || self.cfg0(
                saturn,
                4,
            ) == 0x7e000) {
                true
            } else {
                false
            }
        } else if page == 9 {
            self.cfg0(saturn, 0) == 0x90000 && a < 0x91000
        } else {
            false
        }
    }
}

/// Writing a nibble into a configured GX RAM region and reading the same
/// address back yields exactly the written nibble.  The bank-control window
/// at 0x90000..0x91000 is excluded: there the hardware accepts the write
/// when the bank controller is not parked on it, yet a read with the I/O
/// controller parked there answers from the bank region instead.
pub proof fn lemma_gx_write_read_ram(s: Saturn, m0: Memory, m1: Memory, a: u32, v: u8)
    requires
        a < 0x100000,
        v < 16,
        !(s.mem_cntl@[0].config@[0] == 0x90000 && 0x90000 <= a < 0x91000),
        match gx_write_route(s, m0, a) {
            Route::SysRam { idx } => 0 <= idx < m0.ram@.len() && m1 == (Memory {
                ram: m1.ram,
                ..m0
            }) && m1.ram@ == m0.ram@.update(idx, v),
            _ => false,
        },
    ensures
        spec_route_val(m1, gx_read_route(s, m1, a)) == v,
{
}

} // verus!
