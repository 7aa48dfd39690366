//! Saturn processor state: the working and scratch registers, data pointers,
//! program counter, status bits, return stack, device register file and the
//! six memory controllers.

use vstd::prelude::*;
use crate::types::{HEX, MemCntl};

verus! {

/// Keyboard matrix shadow: nine rows of sixteen key bits.
#[derive(Clone, Copy, Debug)]
pub struct KeyState {
    pub rows: [u16; 9],
}

impl Default for KeyState {
    fn default() -> (r: Self)
        ensures
            forall|i: int| 0 <= i < 9 ==> r.rows@[i] == 0,
    {
        KeyState { rows: [0; 9] }
    }
}

/// Derived display configuration, recomputed whenever one of its inputs
/// (display I/O register, line offset, line count, display address) changes.
#[derive(Clone, Copy, Debug)]
pub struct DisplayState {
    pub on: bool,
    pub disp_start: u32,
    pub disp_end: u32,
    pub offset: u32,
    pub lines: u32,
    pub nibs_per_line: u32,
    pub contrast: u32,
    pub menu_start: u32,
    pub menu_end: u32,
    pub annunc: u32,
}

impl DisplayState {
    /// Bounds that every reachable display state satisfies; they keep the
    /// address arithmetic of the memory and display paths in range.
    pub open spec fn wf(self) -> bool {
        &&& self.disp_start < 0x100000
        &&& self.offset < 8
        &&& 0 < self.lines < 64
        &&& self.nibs_per_line < 0x1000
        &&& self.menu_start < 0x100000
        &&& self.menu_end == self.menu_start + 0x110
        &&& self.disp_end == self.disp_start + self.nibs_per_line * (self.lines + 1)
    }
}

impl Default for DisplayState {
    fn default() -> (r: Self)
        ensures
            !r.on,
            r.disp_start == 0,
            r.disp_end == 0,
            r.offset == 0,
            r.lines == 0,
            r.nibs_per_line == 0,
            r.contrast == 0,
            r.menu_start == 0,
            r.menu_end == 0,
            r.annunc == 0,
    {
        DisplayState {
            on: false,
            disp_start: 0,
            disp_end: 0,
            offset: 0,
            lines: 0,
            nibs_per_line: 0,
            contrast: 0,
            menu_start: 0,
            menu_end: 0,
            annunc: 0,
        }
    }
}

/// The full Saturn processor state.
///
/// Registers hold one nibble per byte.  Addresses (`d0`, `d1`, `pc`, the
/// return stack and the controller bases) are 20-bit values.
#[derive(Clone, Copy, Debug)]
pub struct Saturn {
    pub magic: u32,
    pub version: [u8; 4],

    // Working registers A-D, 16 nibbles each.
    pub a: [u8; 16],
    pub b: [u8; 16],
    pub c: [u8; 16],
    pub d: [u8; 16],

    // Data pointers.
    pub d0: u32,
    pub d1: u32,

    // Pointer register, 4 bits.
    pub p: u8,

    // Program counter, 20 bits.
    pub pc: u32,

    // Scratch registers R0-R4.
    pub r0: [u8; 16],
    pub r1: [u8; 16],
    pub r2: [u8; 16],
    pub r3: [u8; 16],
    pub r4: [u8; 16],

    // Input/output shadow registers.
    pub in_reg: [u8; 4],
    pub out: [u8; 3],

    // Carry flag.
    pub carry: u8,

    // Program status flags.
    pub pstat: [u8; 16],

    // Hardware status bits.
    pub xm: u8,
    pub sb: u8,
    pub sr: u8,
    pub mp: u8,

    // ALU nibble-carry modulus, 10 or 16.
    pub hexmode: u8,

    // Return stack; `rstkp == -1` means empty.
    pub rstk: [u32; 8],
    pub rstkp: i16,

    // Keyboard matrix shadow.
    pub keybuf: KeyState,

    // Interrupt state.
    pub intenable: u8,
    pub int_pending: u8,
    pub kbd_ien: u8,

    // Device register file.
    pub disp_io: u8,
    pub contrast_ctrl: u8,
    pub disp_test: u8,
    pub crc: u16,
    pub power_status: u8,
    pub power_ctrl: u8,
    pub mode: u8,
    pub annunc: u8,
    pub baud: u8,
    pub card_ctrl: u8,
    pub card_status: u8,
    pub io_ctrl: u8,
    pub rcs: u8,
    pub tcs: u8,
    pub rbr: u8,
    pub tbr: u8,
    pub sreq: u8,
    pub ir_ctrl: u8,
    pub base_off: u8,
    pub lcr: u8,
    pub lbr: u8,
    pub scratch: u8,
    pub base_nibble: u8,
    pub disp_addr: u32,
    pub line_offset: u16,
    pub line_count: u8,
    pub unknown: u16,
    pub t1_ctrl: u8,
    pub t2_ctrl: u8,
    pub menu_addr: u32,
    pub unknown2: u8,

    // Hardware timers: T1 is a signed 4-bit down counter, T2 is 32 bits.
    pub timer1: i8,
    pub timer2: i32,

    // Timer scheduling statistics.
    pub t1_instr: i32,
    pub t2_instr: i32,
    pub t1_tick: i16,
    pub t2_tick: i16,
    pub i_per_s: i32,

    // Bank switch index (GX only).
    pub bank_switch: u16,

    // Memory controllers.
    pub mem_cntl: [MemCntl; 6],
}

impl Saturn {
    /// The structural bounds every reachable Saturn state keeps: the pointer
    /// register is a nibble, addresses are 20 bits, the return-stack pointer
    /// stays in `[-1, 7]` and each controller has at most two base writes
    /// outstanding.
    pub open spec fn wf(self) -> bool {
        &&& self.p < 16
        &&& self.pc < 0x100000
        &&& self.d0 < 0x100000
        &&& self.d1 < 0x100000
        &&& self.disp_addr < 0x100000
        &&& self.menu_addr < 0x100000
        &&& -1 <= self.rstkp < 8
        &&& forall|i: int| 0 <= i < 8 ==> self.rstk@[i] < 0x100000
        &&& forall|i: int| 0 <= i < 6 ==> 0 <= (#[trigger] self.mem_cntl@[i]).unconfigured <= 2
    }

    /// All register files hold genuine nibbles.
    pub open spec fn regs_valid(self) -> bool {
        &&& forall|i: int| 0 <= i < 16 ==> self.a@[i] < 16
        &&& forall|i: int| 0 <= i < 16 ==> self.b@[i] < 16
        &&& forall|i: int| 0 <= i < 16 ==> self.c@[i] < 16
        &&& forall|i: int| 0 <= i < 16 ==> self.d@[i] < 16
        &&& forall|i: int| 0 <= i < 16 ==> self.r0@[i] < 16
        &&& forall|i: int| 0 <= i < 16 ==> self.r1@[i] < 16
        &&& forall|i: int| 0 <= i < 16 ==> self.r2@[i] < 16
        &&& forall|i: int| 0 <= i < 16 ==> self.r3@[i] < 16
        &&& forall|i: int| 0 <= i < 16 ==> self.r4@[i] < 16
    }
}

impl Saturn {
    /// Pointwise description of the reset state `Default::default` yields.
    pub open spec fn is_reset_state(self) -> bool {
        &&& self.magic == 0
        &&& self.version@ =~= seq![0u8, 0u8, 0u8, 0u8]
        &&& forall|i: int| 0 <= i < 16 ==> self.a@[i] == 0
        &&& forall|i: int| 0 <= i < 16 ==> self.b@[i] == 0
        &&& forall|i: int| 0 <= i < 16 ==> self.c@[i] == 0
        &&& forall|i: int| 0 <= i < 16 ==> self.d@[i] == 0
        &&& self.d0 == 0
        &&& self.d1 == 0
        &&& self.p == 0
        &&& self.pc == 0
        &&& forall|i: int| 0 <= i < 16 ==> self.r0@[i] == 0
        &&& forall|i: int| 0 <= i < 16 ==> self.r1@[i] == 0
        &&& forall|i: int| 0 <= i < 16 ==> self.r2@[i] == 0
        &&& forall|i: int| 0 <= i < 16 ==> self.r3@[i] == 0
        &&& forall|i: int| 0 <= i < 16 ==> self.r4@[i] == 0
        &&& forall|i: int| 0 <= i < 4 ==> self.in_reg@[i] == 0
        &&& forall|i: int| 0 <= i < 3 ==> self.out@[i] == 0
        &&& self.carry == 0
        &&& forall|i: int| 0 <= i < 16 ==> self.pstat@[i] == 0
        &&& self.xm == 0
        &&& self.sb == 0
        &&& self.sr == 0
        &&& self.mp == 0
        &&& self.hexmode == HEX
        &&& forall|i: int| 0 <= i < 8 ==> self.rstk@[i] == 0
        &&& self.rstkp == -1
        &&& forall|i: int| 0 <= i < 9 ==> self.keybuf.rows@[i] == 0
        &&& self.intenable == 0
        &&& self.int_pending == 0
        &&& self.kbd_ien == 0
        &&& self.disp_io == 0
        &&& self.contrast_ctrl == 0
        &&& self.disp_test == 0
        &&& self.crc == 0
        &&& self.power_status == 0
        &&& self.power_ctrl == 0
        &&& self.mode == 0
        &&& self.annunc == 0
        &&& self.baud == 0
        &&& self.card_ctrl == 0
        &&& self.card_status == 0
        &&& self.io_ctrl == 0
        &&& self.rcs == 0
        &&& self.tcs == 0
        &&& self.rbr == 0
        &&& self.tbr == 0
        &&& self.sreq == 0
        &&& self.ir_ctrl == 0
        &&& self.base_off == 0
        &&& self.lcr == 0
        &&& self.lbr == 0
        &&& self.scratch == 0
        &&& self.base_nibble == 0
        &&& self.disp_addr == 0
        &&& self.line_offset == 0
        &&& self.line_count == 0
        &&& self.unknown == 0
        &&& self.t1_ctrl == 0
        &&& self.t2_ctrl == 0
        &&& self.menu_addr == 0
        &&& self.unknown2 == 0
        &&& self.timer1 == 0
        &&& self.timer2 == 0
        &&& self.t1_instr == 0
        &&& self.t2_instr == 0
        &&& self.t1_tick == 8
        &&& self.t2_tick == 16
        &&& self.i_per_s == 0
        &&& self.bank_switch == 0
        &&& forall|i: int| 0 <= i < 6 ==> (#[trigger] self.mem_cntl@[i]).unconfigured == 0
        &&& forall|i: int| 0 <= i < 6 ==> (#[trigger] self.mem_cntl@[i]).config@[0] == 0
        &&& forall|i: int| 0 <= i < 6 ==> (#[trigger] self.mem_cntl@[i]).config@[1] == 0
    }
}

impl Default for Saturn {
    fn default() -> (r: Self)
        ensures
            r.is_reset_state(),
            r.wf(),
            r.regs_valid(),
    {
        let r = Saturn {
            magic: 0,
            version: [0; 4],
            a: [0; 16],
            b: [0; 16],
            c: [0; 16],
            d: [0; 16],
            d0: 0,
            d1: 0,
            p: 0,
            pc: 0,
            r0: [0; 16],
            r1: [0; 16],
            r2: [0; 16],
            r3: [0; 16],
            r4: [0; 16],
            in_reg: [0; 4],
            out: [0; 3],
            carry: 0,
            pstat: [0; 16],
            xm: 0,
            sb: 0,
            sr: 0,
            mp: 0,
            hexmode: HEX,
            rstk: [0; 8],
            rstkp: -1,
            keybuf: KeyState { rows: [0; 9] },
            intenable: 0,
            int_pending: 0,
            kbd_ien: 0,
            disp_io: 0,
            contrast_ctrl: 0,
            disp_test: 0,
            crc: 0,
            power_status: 0,
            power_ctrl: 0,
            mode: 0,
            annunc: 0,
            baud: 0,
            card_ctrl: 0,
            card_status: 0,
            io_ctrl: 0,
            rcs: 0,
            tcs: 0,
            rbr: 0,
            tbr: 0,
            sreq: 0,
            ir_ctrl: 0,
            base_off: 0,
            lcr: 0,
            lbr: 0,
            scratch: 0,
            base_nibble: 0,
            disp_addr: 0,
            line_offset: 0,
            line_count: 0,
            unknown: 0,
            t1_ctrl: 0,
            t2_ctrl: 0,
            menu_addr: 0,
            unknown2: 0,
            timer1: 0,
            timer2: 0,
            t1_instr: 0,
            t2_instr: 0,
            t1_tick: 8,
            t2_tick: 16,
            i_per_s: 0,
            bank_switch: 0,
            mem_cntl: [
                MemCntl { unconfigured: 0, config: [0, 0] },
                MemCntl { unconfigured: 0, config: [0, 0] },
                MemCntl { unconfigured: 0, config: [0, 0] },
                MemCntl { unconfigured: 0, config: [0, 0] },
                MemCntl { unconfigured: 0, config: [0, 0] },
                MemCntl { unconfigured: 0, config: [0, 0] },
            ],
        };
        r
    }
}

} // verus!
