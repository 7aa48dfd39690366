//! The assembled machine: Saturn state, memory, devices, display, keyboard,
//! speaker, scheduler and timers, with the per-instruction memory accessors,
//! interrupt actions, device-check fanout, the scheduler pass and the
//! budgeted frame driver.  Host time arrives as integer microseconds.

use vstd::prelude::*;
use crate::actions::{spec_config_value, spec_first_configured_at, spec_conf_tab};
use crate::alu::{RegId, spec_start, spec_end};
use crate::cpu::{DisplayState, Saturn};
use crate::device::DeviceFlags;
use crate::display::Display;
use crate::keyboard::Keyboard;
use crate::memory::Memory;
use crate::persist;
use crate::scheduler::{
    Scheduler, SCHED_ADJTIME, SCHED_INSTR_ROLLOVER, SCHED_NEVER, SCHED_RECEIVE, SCHED_STATISTICS,
    SCHED_TIMER1, SCHED_TIMER2, NR_SAMPLES, SRVC_IO_END, SRVC_IO_START,
};
use crate::serial::Serial;
use crate::speaker::Speaker;
use crate::timer::{Timers, T1T2Ticks, T1_TIMER, RUN_TIMER, IDLE_TIMER, t1_encoding, run_encoding};
use crate::types::{Model, NIBBLES_PER_ROW, MCTL_MMIO_SX, MCTL_MMIO_GX, rom_size, ram_size};

verus! {

pub const TARGET_IPS: u64 = 5000000;
pub const TARGET_IPS_BEEP: u64 = 184000;
pub const MAX_INSTRUCTIONS_PER_FRAME: u64 = 100000;

/// The 8192 Hz tick count of the HP-48 epoch.
pub const UNIX_0_TIME_HI: u64 = 0x0001cf2e;
pub const UNIX_0_TIME_LO: u64 = 0x8f800000;

pub struct Emulator {
    pub saturn: Saturn,
    pub mem: Memory,
    pub display_state: DisplayState,
    pub display: Display,
    pub device: DeviceFlags,
    pub keyboard: Keyboard,
    pub speaker: Speaker,
    pub serial: Serial,
    pub sched: Scheduler,
    pub timers: Timers,
    pub model: Model,
    pub got_alarm: bool,
    pub interrupt_called: bool,
    pub is_shutdown: bool,
    pub first_press: bool,
    /// Monotonic host time of the current frame, microseconds.
    pub now_us: u64,
    /// Speaker counter sampled at the previous frame, for beep detection.
    pub last_speaker_counter: i32,
    /// Offset from monotonic to local epoch microseconds.
    pub epoch_offset_us: u64,
    /// HP-48 epoch plus the drift adjustment, 8192 Hz ticks (wrapping).
    pub time_offset: u64,
    /// Accumulated drift adjustment, 8192 Hz ticks (wrapping).
    pub set_0_time: u64,
}

impl Emulator {
    /// Every component in its reachable shape.
    pub open spec fn wf(self) -> bool {
        &&& self.saturn.wf()
        &&& self.display_state.wf()
        &&& self.mem.wf(self.model)
        &&& self.display.wf()
        &&& self.speaker.wf()
        &&& self.now_us < 0x2000000000000000
        &&& self.epoch_offset_us < 0x2000000000000000
    }

    /// The nibble a read at masked address `a` returns: through the device
    /// register file when the I/O controller is parked at 0x100, else
    /// through the model's MMU routing.
    pub open spec fn spec_read_value(self, a: u32) -> u8 {
        if 0x100 <= a < 0x140 && self.saturn.mem_cntl@[0].config@[0] == 0x100 {
            crate::memory::spec_read_dev_val(
                self.saturn,
                crate::memory::spec_next_line_counter(self.mem.line_counter),
                a,
            )
        } else {
            match self.model {
                Model::Sx => crate::memory::spec_route_val(
                    self.mem,
                    crate::memory::sx_read_route(self.saturn, self.mem, a),
                ),
                Model::Gx => crate::memory::spec_route_val(
                    self.mem,
                    crate::memory::gx_read_route(self.saturn, self.mem, a),
                ),
            }
        }
    }

    /// Whether a read at masked address `a` is free of side effects: outside
    /// the device window, and not a GX bank-switch read.
    pub open spec fn spec_read_pure(self, a: u32) -> bool {
        &&& !(0x100 <= a < 0x140)
        &&& (self.model == Model::Gx ==> crate::memory::gx_bank_after(self.saturn, a)
            == self.saturn.bank_switch)
    }

    /// The value `n` nibbles read little-endian at `addr` assemble into,
    /// when every read is side-effect free.
    pub open spec fn spec_read_nibs(self, addr: u32, n: int) -> int
        decreases n,
    {
        if n <= 0 {
            0
        } else {
            self.spec_read_nibs(addr, n - 1) + self.spec_read_value(
                (((addr + n - 1) as int % 0x100000) as u32),
            ) * crate::types::pow16(n - 1)
        }
    }

    /// Builds an emulator from a ROM image, optional RAM image and optional
    /// saved state; a rejected or absent state starts from the power-on
    /// defaults.
    pub fn new(rom_data: &[u8], ram_data: Option<&[u8]>, state_data: Option<&[u8]>, model: Model)
        -> (r: Emulator)
        ensures
            r.wf(),
            r.model == model,
            !r.is_shutdown,
            match state_data {
                Some(d) => crate::persist::spec_state_ok(d@) ==> exists|s1: Saturn|
                    #[trigger] crate::persist::spec_state_matches(d@, s1) && r.saturn == (Saturn {
                        version: r.saturn.version,
                        rcs: 0u8,
                        tcs: 0u8,
                        lbr: 0u8,
                        card_status: 0u8,
                        ..s1
                    }),
                None => true,
            },
    {
        let rsz: usize = rom_size(model);
        let msz: usize = ram_size(model);
        let rom: Vec<u8> = persist::load_rom(rom_data, rsz);
        let ram: Vec<u8> = match ram_data {
            Some(data) => persist::load_ram(data, msz),
            None => zero_nibbles(msz),
        };
        let mut saturn: Saturn = Saturn::default();
        let mut has_state: bool = false;
        match state_data {
            Some(state) => {
                if persist::read_state(state, &mut saturn) {
                    has_state = true;
                }
            },
            None => {},
        }
        if !has_state {
            persist::init_saturn(&mut saturn, model);
        }
        let ghost parsed = saturn;
        persist::saturn_config_init(&mut saturn);
        saturn.card_status = 0;

        let mut ds: DisplayState = DisplayState::default();
        ds.on = saturn.disp_io >= 8;
        ds.offset = (saturn.disp_io % 8) as u32;
        ds.contrast = saturn.contrast_ctrl as u32;
        ds.annunc = saturn.annunc as u32;
        ds.disp_start = (saturn.disp_addr / 2) * 2;
        ds.menu_start = saturn.menu_addr;
        ds.menu_end = ds.menu_start + 0x110;
        let raw_lines: u32 = (saturn.line_count % 64) as u32;
        ds.lines = if raw_lines == 0 {
            63
        } else {
            raw_lines
        };
        ds.nibs_per_line = if ds.offset > 3 {
            (NIBBLES_PER_ROW + saturn.line_offset as u32 + 2) % 0x1000
        } else {
            (NIBBLES_PER_ROW + saturn.line_offset as u32) % 0x1000
        };
        proof {
            crate::memory::lemma_disp_end_bound(ds.disp_start, ds.nibs_per_line, ds.lines);
        }
        ds.disp_end = ds.disp_start + ds.nibs_per_line * (ds.lines + 1);

        let mut sched: Scheduler = Scheduler::new();
        sched.init(saturn.t1_tick, saturn.t2_tick, saturn.timer1);

        let mut device: DeviceFlags = DeviceFlags::default();
        device.display_touched = 1;
        device.contrast_touched = true;
        device.baud_touched = true;
        device.ann_touched = true;

        proof {
            if has_state {
                match state_data {
                    Some(d) => {
                        assert(crate::persist::spec_state_matches(d@, parsed));
                    },
                    None => {},
                }
            }
        }
        Emulator {
            saturn,
            mem: Memory::new(rom, ram),
            display_state: ds,
            display: Display::new(),
            device,
            keyboard: Keyboard::new(),
            speaker: Speaker::new(),
            serial: Serial::new(),
            sched,
            timers: Timers::new(),
            model,
            got_alarm: false,
            interrupt_called: false,
            is_shutdown: false,
            first_press: true,
            now_us: 0,
            last_speaker_counter: 0,
            epoch_offset_us: 0,
            time_offset: 0,
            set_0_time: 0,
        }
    }

    /// Starts the wall-clock machinery once: fixes the monotonic-to-epoch
    /// mapping, seeds the HP-48 epoch offset and starts the RUN timer.
    pub fn start(&mut self, now_us: u64, unix_epoch_us: u64)
        requires
            old(self).wf(),
            unix_epoch_us >= now_us,
            unix_epoch_us < 0x2000000000000000,
        ensures
            final(self).wf(),
            final(self).epoch_offset_us == unix_epoch_us - now_us,
            final(self).set_0_time == 0,
            final(self).time_offset == UNIX_0_TIME_HI * 0x100000000 + UNIX_0_TIME_LO,
    {
        self.epoch_offset_us = unix_epoch_us - now_us;
        self.set_0_time = 0;
        self.time_offset = UNIX_0_TIME_HI * 0x100000000 + UNIX_0_TIME_LO;
        self.timers.set_accesstime(now_us);
        self.timers.start_timer(RUN_TIMER, now_us);
    }

    /// Advances the program counter by `k` nibbles modulo 2^20.
    pub fn adv(&mut self, k: u32)
        requires
            old(self).wf(),
            k <= 32,
        ensures
            final(self).wf(),
            *final(self) == (Emulator {
                saturn: Saturn {
                    pc: ((old(self).saturn.pc + k) % 0x100000) as u32,
                    ..old(self).saturn
                },
                ..*old(self)
            }),
    {
        self.saturn.pc = (self.saturn.pc + k) % 0x100000;
    }

    /// Reads one nibble at `addr`: the device window goes through the
    /// register file (with its read side effects), everything else through
    /// the model's MMU.
    pub fn read_nibble(&mut self, addr: u32) -> (r: u8)
        requires
            old(self).wf(),
        ensures
            final(self).wf(),
            r < 16,
            r == old(self).spec_read_value((addr % 0x100000) as u32),
            old(self).spec_read_pure((addr % 0x100000) as u32) ==> *final(self) == *old(self),
            final(self).saturn.pc == old(self).saturn.pc,
            final(self).saturn.p == old(self).saturn.p,
            final(self).saturn == (Saturn {
                rcs: final(self).saturn.rcs,
                bank_switch: final(self).saturn.bank_switch,
                ..old(self).saturn
            }),
            final(self).mem.rom@ == old(self).mem.rom@,
            final(self).mem.ram@ == old(self).mem.ram@,
            *final(self) == (Emulator {
                saturn: final(self).saturn,
                mem: final(self).mem,
                device: final(self).device,
                sched: final(self).sched,
                ..*old(self)
            }),
    {
        let a: u32 = addr % 0x100000;
        if a >= 0x100 && a < 0x140 {
            let mmio: usize = match self.model {
                Model::Sx => MCTL_MMIO_SX,
                Model::Gx => MCTL_MMIO_GX,
            };
            if self.saturn.mem_cntl[mmio].config[0] == 0x100 {
                let mut dc: bool = self.sched.device_check;
                let mut se: i32 = self.sched.schedule_event;
                let r = self.mem.read_dev_mem(&mut self.saturn, &mut self.device, &mut dc, &mut se, a);
                self.sched.device_check = dc;
                self.sched.schedule_event = se;
                return r;
            }
        }
        match self.model {
            Model::Sx => self.mem.read_nibble_sx(&self.saturn, a),
            Model::Gx => {
                let m = &self.mem;
                m.read_nibble_gx(&mut self.saturn, a)
            },
        }
    }

    /// Reads `n` nibbles starting at `addr`, low nibble first.  When every
    /// read is side-effect free the assembled value is exact and the state
    /// is untouched.
    pub fn read_nibbles(&mut self, addr: u32, n: u32) -> (r: u32)
        requires
            old(self).wf(),
            1 <= n <= 5,
            addr < 0x200000,
        ensures
            final(self).wf(),
            r < 0x100000,
            (forall|i: int| 0 <= i < n ==> #[trigger] old(self).spec_read_pure(
                (((addr + i) % 0x100000) as u32),
            )) ==> (*final(self) == *old(self) && r == old(self).spec_read_nibs(addr, n as int)
                && r < crate::types::pow16(n as int)),
            final(self).saturn.pc == old(self).saturn.pc,
            final(self).saturn.p == old(self).saturn.p,
            *final(self) == (Emulator {
                saturn: final(self).saturn,
                mem: final(self).mem,
                device: final(self).device,
                sched: final(self).sched,
                ..*old(self)
            }),
    {
        let ghost all_pure = forall|i: int| 0 <= i < n ==> #[trigger] old(self).spec_read_pure(
            (((addr + i) % 0x100000) as u32),
        );
        let mut val: u32 = 0;
        let mut i: u32 = n;
        while i > 0
            invariant
                self.wf(),
                i <= n <= 5,
                val < 0x100000,
                addr < 0x200000,
                all_pure == (forall|k: int| 0 <= k < n ==> #[trigger] old(self).spec_read_pure(
                    (((addr + k) % 0x100000) as u32),
                )),
                all_pure ==> (*self == *old(self) && ({
                    let width = (n - i) as int;
                    val == old(self).spec_read_nibs((addr + i) as u32, width) && val
                        < crate::types::pow16(width)
                })),
                self.saturn.pc == old(self).saturn.pc,
                self.saturn.p == old(self).saturn.p,
                *self == (Emulator {
                    saturn: self.saturn,
                    mem: self.mem,
                    device: self.device,
                    sched: self.sched,
                    ..*old(self)
                }),
            decreases i,
        {
            i -= 1;
            let ghost w_prev = (n - i - 1) as int;
            let ghost val_prev = val;
            let nib: u8 = self.read_nibble(addr + i);
            proof {
                crate::types::lemma_pow16_small();
                if all_pure {
                    assert(old(self).spec_read_pure((((addr + i) % 0x100000) as u32)));
                    lemma_read_nibs_bottom(*old(self), (addr + i) as u32, (n - i) as int);
                    assert(nib == old(self).spec_read_value(
                        ((((addr + i) as u32) as int % 0x100000) as u32),
                    ));
                }
            }
            val = (val * 16) % 0x100000 + nib as u32;
            val = val % 0x100000;
            proof {
                if all_pure {
                    assert(crate::types::pow16((n - i) as int) == 16 * crate::types::pow16(
                        w_prev,
                    ));
                    assert(val_prev * 16 < 0x100000);
                    assert(val == nib + 16 * val_prev);
                    assert(val == old(self).spec_read_nibs((addr + i) as u32, (n - i) as int));
                }
            }
        }
        val
    }

    /// Runs the speaker edge detector on the OUT register.
    pub fn check_out_register(&mut self)
        requires
            old(self).wf(),
        ensures
            final(self).wf(),
            *final(self) == (Emulator {
                speaker: final(self).speaker,
                device: final(self).device,
                ..*old(self)
            }),
    {
        let out2: u8 = self.saturn.out[2];
        if self.speaker.win_toggle_count < 0x3fffffff && self.device.speaker_counter < 0x7ffffffe
            && self.speaker.instr_count < 0x3fffffffffffffff {
            let mut counter: i32 = self.device.speaker_counter;
            self.speaker.check_out_register(out2, &mut counter);
            self.device.speaker_counter = counter;
        }
    }

    /// Writes one nibble at `addr` through the model's MMU; a write that
    /// lands in RAM inside the display or menu window updates the display.
    /// Writes one nibble at `addr`: the device window goes through the
    /// register file, everything else through the model's MMU, and a write
    /// that lands in RAM inside the display or menu window updates the
    /// display.
    pub fn write_nibble(&mut self, addr: u32, val: u8)
        requires
            old(self).wf(),
        ensures
            final(self).wf(),
            final(self).saturn.pc == old(self).saturn.pc,
            final(self).saturn.p == old(self).saturn.p,
    {
        let a: u32 = addr % 0x100000;
        let v: u8 = val % 16;
        if a >= 0x100 && a < 0x140 {
            self.write_nibble_dev(a, v);
            return ;
        }
        let landed: bool = self.write_nibble_mmu(a, v);
        if landed {
            self.display_write_check(a, v);
        }
    }

    /// The device-window leg of a write: applied through the register file
    /// when the I/O controller is parked at 0x100, dropped otherwise.
    #[verifier::rlimit(100)]
    #[verifier::spinoff_prover]
    fn write_nibble_dev(&mut self, a: u32, v: u8)
        requires
            old(self).wf(),
            0x100 <= a < 0x140,
            v < 16,
        ensures
            final(self).wf(),
            final(self).saturn.pc == old(self).saturn.pc,
            final(self).saturn.p == old(self).saturn.p,
    {
        let mmio: usize = match self.model {
            Model::Sx => MCTL_MMIO_SX,
            Model::Gx => MCTL_MMIO_GX,
        };
        if self.saturn.mem_cntl[mmio].config[0] == 0x100 {
            let mut dc: bool = self.sched.device_check;
            let mut se: i32 = self.sched.schedule_event;
            self.mem.write_dev_mem(
                &mut self.saturn,
                &mut self.display_state,
                &mut self.device,
                &mut dc,
                &mut se,
                a,
                v,
            );
            self.sched.device_check = dc;
            self.sched.schedule_event = se;
            proof {
                assert(self.mem.rom@ == old(self).mem.rom@);
                assert(self.mem.ram@ == old(self).mem.ram@);
                assert(self.mem.port1@ == old(self).mem.port1@);
                assert(self.mem.port2@ == old(self).mem.port2@);
            }
        }
    }

    /// The MMU leg of a write outside the device window; returns true iff
    /// the write landed in system RAM.
    #[verifier::rlimit(100)]
    #[verifier::spinoff_prover]
    fn write_nibble_mmu(&mut self, a: u32, v: u8) -> (r: bool)
        requires
            old(self).wf(),
            a < 0x100000,
            !(0x100 <= a < 0x140),
            v < 16,
        ensures
            final(self).wf(),
            final(self).saturn.pc == old(self).saturn.pc,
            final(self).saturn.p == old(self).saturn.p,
    {
        let mut dc: bool = self.sched.device_check;
        let mut se: i32 = self.sched.schedule_event;
        let landed: bool = match self.model {
            Model::Sx => self.mem.write_nibble_sx(
                &mut self.saturn,
                &mut self.display_state,
                &mut self.device,
                &mut dc,
                &mut se,
                a,
                v,
            ),
            Model::Gx => self.mem.write_nibble_gx(
                &mut self.saturn,
                &mut self.display_state,
                &mut self.device,
                &mut dc,
                &mut se,
                a,
                v,
            ),
        };
        self.sched.device_check = dc;
        self.sched.schedule_event = se;
        proof {
            assert(self.saturn == old(self).saturn);
        }
        landed
    }

    /// Forwards a RAM write inside the display or menu window to the
    /// display's nibble hooks.
    fn display_write_check(&mut self, a: u32, v: u8)
        requires
            old(self).wf(),
            a < 0x100000,
        ensures
            final(self).wf(),
            final(self).saturn == old(self).saturn,
    {
        if self.device.display_touched != 0 {
            return ;
        }
        if a >= self.display_state.disp_start && a < self.display_state.disp_end {
            self.display.disp_draw_nibble(
                self.display_state.disp_start,
                self.display_state.nibs_per_line,
                self.display_state.lines,
                a,
                v,
            );
        }
        if self.display_state.lines == 63 {
            return ;
        }
        if a >= self.display_state.menu_start && a < self.display_state.menu_end {
            self.display.menu_draw_nibble(
                self.display_state.menu_start,
                self.display_state.lines,
                a,
                v,
            );
        }
    }

    /// Reads one nibble through the CRC path; the device window is read
    /// through the register file and fed to the CRC by hand, everything
    /// else through the model's CRC read path.
    pub fn read_nibble_crc(&mut self, addr: u32) -> (r: u8)
        requires
            old(self).wf(),
        ensures
            final(self).wf(),
            r < 16,
            r == old(self).spec_read_value((addr % 0x100000) as u32),
            ({
                let a = (addr % 0x100000) as u32;
                let in_dev = 0x100 <= a < 0x140 && old(self).saturn.mem_cntl@[0].config@[0]
                    == 0x100;
                let crcs = in_dev || (match old(self).model {
                    Model::Sx => crate::memory::spec_route_crcs(
                        crate::memory::sx_read_route(old(self).saturn, old(self).mem, a),
                    ),
                    Model::Gx => crate::memory::spec_route_crcs(
                        crate::memory::gx_read_route(old(self).saturn, old(self).mem, a),
                    ),
                });
                final(self).saturn.crc == (if crcs {
                    crate::memory::crc_step(old(self).saturn.crc, r)
                } else {
                    old(self).saturn.crc
                })
            }),
            final(self).saturn.pc == old(self).saturn.pc,
            final(self).saturn.p == old(self).saturn.p,
            final(self).saturn == (Saturn {
                rcs: final(self).saturn.rcs,
                bank_switch: final(self).saturn.bank_switch,
                crc: final(self).saturn.crc,
                ..old(self).saturn
            }),
            *final(self) == (Emulator {
                saturn: final(self).saturn,
                mem: final(self).mem,
                device: final(self).device,
                sched: final(self).sched,
                ..*old(self)
            }),
    {
        let a: u32 = addr % 0x100000;
        if a >= 0x100 && a < 0x140 {
            let mmio: usize = match self.model {
                Model::Sx => MCTL_MMIO_SX,
                Model::Gx => MCTL_MMIO_GX,
            };
            if self.saturn.mem_cntl[mmio].config[0] == 0x100 {
                let mut dc: bool = self.sched.device_check;
                let mut se: i32 = self.sched.schedule_event;
                let v = self.mem.read_dev_mem(&mut self.saturn, &mut self.device, &mut dc, &mut se, a);
                self.sched.device_check = dc;
                self.sched.schedule_event = se;
                let _ = crate::memory::calc_crc(&mut self.saturn, v);
                return v;
            }
        }
        match self.model {
            Model::Sx => {
                let m = &self.mem;
                m.read_nibble_crc_sx(&mut self.saturn, a)
            },
            Model::Gx => {
                let m = &self.mem;
                m.read_nibble_crc_gx(&mut self.saturn, a)
            },
        }
    }

    /// Stores the field window of a register to memory at D0 or D1.
    pub fn store(&mut self, r_idx: RegId, code: u8, d_sel: u8)
        requires
            old(self).wf(),
            code < 19,
        ensures
            final(self).wf(),
            final(self).saturn.pc == old(self).saturn.pc,
            final(self).saturn.p == old(self).saturn.p,
    {
        let s: usize = crate::alu::get_start(code, self.saturn.p);
        let e: usize = crate::alu::get_end(code, self.saturn.p);
        let r: [u8; 16] = *self.saturn.get_reg(r_idx);
        let mut dat: u32 = if d_sel == 0 {
            self.saturn.d0
        } else {
            self.saturn.d1
        };
        let mut i: usize = s;
        while i <= e
            invariant
                self.wf(),
                e < 16,
                dat < 0x200000,
                self.saturn.pc == old(self).saturn.pc,
                self.saturn.p == old(self).saturn.p,
            decreases 16 - i,
        {
            self.write_nibble(dat, r[i]);
            dat = (dat + 1) % 0x200000;
            i += 1;
        }
    }

    /// Stores the low `n` nibbles of a register to memory at D0 or D1.
    pub fn store_n(&mut self, r_idx: RegId, n: usize, d_sel: u8)
        requires
            old(self).wf(),
            n <= 16,
        ensures
            final(self).wf(),
            final(self).saturn.pc == old(self).saturn.pc,
            final(self).saturn.p == old(self).saturn.p,
    {
        let r: [u8; 16] = *self.saturn.get_reg(r_idx);
        let mut dat: u32 = if d_sel == 0 {
            self.saturn.d0
        } else {
            self.saturn.d1
        };
        let mut i: usize = 0;
        while i < n
            invariant
                self.wf(),
                n <= 16,
                i <= n,
                dat < 0x200000,
                self.saturn.pc == old(self).saturn.pc,
                self.saturn.p == old(self).saturn.p,
            decreases n - i,
        {
            self.write_nibble(dat, r[i]);
            dat = (dat + 1) % 0x200000;
            i += 1;
        }
    }

    /// Recalls the field window of a register from memory through the CRC
    /// path.
    pub fn recall(&mut self, r_idx: RegId, code: u8, d_sel: u8)
        requires
            old(self).wf(),
            code < 19,
        ensures
            final(self).wf(),
            final(self).saturn.pc == old(self).saturn.pc,
            final(self).saturn.p == old(self).saturn.p,
            old(self).saturn.regs_valid() ==> final(self).saturn.regs_valid(),
    {
        let s: usize = crate::alu::get_start(code, self.saturn.p);
        let e: usize = crate::alu::get_end(code, self.saturn.p);
        let mut dat: u32 = if d_sel == 0 {
            self.saturn.d0
        } else {
            self.saturn.d1
        };
        let mut vals: [u8; 16] = [0; 16];
        let mut i: usize = s;
        while i <= e
            invariant
                self.wf(),
                s <= i,
                e < 16,
                dat < 0x200000,
                self.saturn.pc == old(self).saturn.pc,
                self.saturn.p == old(self).saturn.p,
                forall|j: int| 0 <= j < 16 ==> vals@[j] < 16,
                old(self).saturn.regs_valid() ==> self.saturn.regs_valid(),
            decreases 16 - i,
        {
            let v: u8 = self.read_nibble_crc(dat);
            vals[i] = v;
            dat = (dat + 1) % 0x200000;
            i += 1;
        }
        let mut out: [u8; 16] = *self.saturn.get_reg(r_idx);
        let ghost pre = self.saturn;
        let mut k: usize = s;
        while k <= e
            invariant
                s <= k,
                e < 16,
                forall|j: int| 0 <= j < 16 ==> vals@[j] < 16,
                forall|j: int| 0 <= j < 16 ==> out@[j] == (if s <= j < k {
                    vals@[j]
                } else {
                    pre.reg_seq(r_idx)[j]
                }),
            decreases 16 - k,
        {
            out[k] = vals[k];
            k += 1;
        }
        proof {
            if self.saturn.regs_valid() {
                crate::alu::lemma_reg_seq_valid(self.saturn, r_idx);
                assert(forall|j: int| 0 <= j < 16 ==> out@[j] < 16);
                crate::alu::lemma_with_reg_valid(self.saturn, r_idx, out);
            }
        }
        self.saturn.set_reg(r_idx, out);
    }

    /// Recalls the low `n` nibbles of a register from memory through the
    /// CRC path.
    pub fn recall_n(&mut self, r_idx: RegId, n: usize, d_sel: u8)
        requires
            old(self).wf(),
            n <= 16,
        ensures
            final(self).wf(),
            final(self).saturn.pc == old(self).saturn.pc,
            final(self).saturn.p == old(self).saturn.p,
            old(self).saturn.regs_valid() ==> final(self).saturn.regs_valid(),
    {
        let mut dat: u32 = if d_sel == 0 {
            self.saturn.d0
        } else {
            self.saturn.d1
        };
        let mut vals: [u8; 16] = [0; 16];
        let mut i: usize = 0;
        while i < n
            invariant
                self.wf(),
                n <= 16,
                i <= n,
                dat < 0x200000,
                self.saturn.pc == old(self).saturn.pc,
                self.saturn.p == old(self).saturn.p,
                forall|j: int| 0 <= j < 16 ==> vals@[j] < 16,
                old(self).saturn.regs_valid() ==> self.saturn.regs_valid(),
            decreases n - i,
        {
            let v: u8 = self.read_nibble_crc(dat);
            vals[i] = v;
            dat = (dat + 1) % 0x200000;
            i += 1;
        }
        let mut out: [u8; 16] = *self.saturn.get_reg(r_idx);
        let ghost pre = self.saturn;
        let mut k: usize = 0;
        while k < n
            invariant
                k <= n <= 16,
                forall|j: int| 0 <= j < 16 ==> vals@[j] < 16,
                forall|j: int| 0 <= j < 16 ==> out@[j] == (if 0 <= j < k {
                    vals@[j]
                } else {
                    pre.reg_seq(r_idx)[j]
                }),
            decreases n - k,
        {
            out[k] = vals[k];
            k += 1;
        }
        proof {
            if self.saturn.regs_valid() {
                crate::alu::lemma_reg_seq_valid(self.saturn, r_idx);
                assert(forall|j: int| 0 <= j < 16 ==> out@[j] < 16);
                crate::alu::lemma_with_reg_valid(self.saturn, r_idx, out);
            }
        }
        self.saturn.set_reg(r_idx, out);
    }

    /// Loads `n` nibbles from the opcode stream into a register starting at
    /// nibble P, wrapping at the top.
    pub fn load_constant(&mut self, r_idx: RegId, n: usize, addr: u32)
        requires
            old(self).wf(),
            n <= 16,
            addr < 0x200000,
        ensures
            final(self).wf(),
            final(self).saturn.pc == old(self).saturn.pc,
            final(self).saturn.p == old(self).saturn.p,
            old(self).saturn.regs_valid() ==> final(self).saturn.regs_valid(),
    {
        let mut vals: [u8; 16] = [0; 16];
        let mut i: usize = 0;
        while i < n
            invariant
                self.wf(),
                n <= 16,
                i <= n,
                addr < u32::MAX - 16,
                self.saturn.pc == old(self).saturn.pc,
                self.saturn.p == old(self).saturn.p,
                forall|j: int| 0 <= j < 16 ==> vals@[j] < 16,
                old(self).saturn.regs_valid() ==> self.saturn.regs_valid(),
            decreases n - i,
        {
            vals[i] = self.read_nibble(addr + i as u32);
            i += 1;
        }
        let mut p: usize = self.saturn.p as usize;
        let mut out: [u8; 16] = *self.saturn.get_reg(r_idx);
        let ghost pre = self.saturn;
        let mut k: usize = 0;
        while k < n
            invariant
                k <= n <= 16,
                p < 16,
                forall|j: int| 0 <= j < 16 ==> vals@[j] < 16,
                forall|j: int| 0 <= j < 16 ==> out@[j] < 16 || out@[j] == pre.reg_seq(r_idx)[j],
            decreases n - k,
        {
            out[p] = vals[k];
            p = (p + 1) % 16;
            k += 1;
        }
        proof {
            if self.saturn.regs_valid() {
                crate::alu::lemma_reg_seq_valid(self.saturn, r_idx);
                assert(forall|j: int| 0 <= j < 16 ==> out@[j] < 16);
                crate::alu::lemma_with_reg_valid(self.saturn, r_idx, out);
            }
        }
        self.saturn.set_reg(r_idx, out);
    }

    /// Loads `n` nibbles from the opcode stream into the low nibbles of D0
    /// or D1.
    pub fn load_addr(&mut self, d_sel: u8, addr: u32, n: usize)
        requires
            old(self).wf(),
            1 <= n <= 5,
            addr < 0x200000,
        ensures
            final(self).wf(),
            final(self).saturn.pc == old(self).saturn.pc,
            final(self).saturn.p == old(self).saturn.p,
    {
        let mut dat: u32 = if d_sel == 0 {
            self.saturn.d0
        } else {
            self.saturn.d1
        };
        let mut i: usize = 0;
        while i < n
            invariant
                self.wf(),
                n <= 5,
                i <= n,
                dat < 0x100000,
                addr < u32::MAX - 5,
                self.saturn.pc == old(self).saturn.pc,
                self.saturn.p == old(self).saturn.p,
            decreases n - i,
        {
            let v: u8 = self.read_nibble(addr + i as u32);
            dat = crate::types::put_nib32(dat, i, v) % 0x100000;
            i += 1;
        }
        if d_sel == 0 {
            self.saturn.d0 = dat;
        } else {
            self.saturn.d1 = dat;
        }
    }

    /// Loads `n` nibbles from the opcode stream into the low nibbles of a
    /// register.
    pub fn load_address(&mut self, r_idx: RegId, addr: u32, n: usize)
        requires
            old(self).wf(),
            n <= 16,
            addr < 0x200000,
        ensures
            final(self).wf(),
            final(self).saturn.pc == old(self).saturn.pc,
            final(self).saturn.p == old(self).saturn.p,
            old(self).saturn.regs_valid() ==> final(self).saturn.regs_valid(),
    {
        let mut vals: [u8; 16] = [0; 16];
        let mut i: usize = 0;
        while i < n
            invariant
                self.wf(),
                n <= 16,
                i <= n,
                addr < u32::MAX - 16,
                self.saturn.pc == old(self).saturn.pc,
                self.saturn.p == old(self).saturn.p,
                forall|j: int| 0 <= j < 16 ==> vals@[j] < 16,
                old(self).saturn.regs_valid() ==> self.saturn.regs_valid(),
            decreases n - i,
        {
            vals[i] = self.read_nibble(addr + i as u32);
            i += 1;
        }
        let mut out: [u8; 16] = *self.saturn.get_reg(r_idx);
        let ghost pre = self.saturn;
        let mut k: usize = 0;
        while k < n
            invariant
                k <= n <= 16,
                forall|j: int| 0 <= j < 16 ==> vals@[j] < 16,
                forall|j: int| 0 <= j < 16 ==> out@[j] == (if 0 <= j < k {
                    vals@[j]
                } else {
                    pre.reg_seq(r_idx)[j]
                }),
            decreases n - k,
        {
            out[k] = vals[k];
            k += 1;
        }
        proof {
            if self.saturn.regs_valid() {
                crate::alu::lemma_reg_seq_valid(self.saturn, r_idx);
                assert(forall|j: int| 0 <= j < 16 ==> out@[j] < 16);
                crate::alu::lemma_with_reg_valid(self.saturn, r_idx, out);
            }
        }
        self.saturn.set_reg(r_idx, out);
    }

    /// Applies an UNCNFG instruction for the current model.
    pub fn do_unconfigure(&mut self)
        requires
            old(self).wf(),
        ensures
            final(self).wf(),
            *final(self) == (Emulator { saturn: final(self).saturn, ..*old(self) }),
            ({
                let conf = spec_config_value(old(self).saturn.c@);
                let idx = spec_first_configured_at(old(self).saturn, conf);
                &&& (idx == 6 ==> final(self).saturn == old(self).saturn)
                &&& (idx < 6 ==> {
                    &&& final(self).saturn == (Saturn {
                        mem_cntl: final(self).saturn.mem_cntl,
                        ..old(self).saturn
                    })
                    &&& final(self).saturn.mem_cntl@[idx].unconfigured == spec_conf_tab(idx)
                    &&& final(self).saturn.mem_cntl@[idx].config@[0] == 0
                    &&& final(self).saturn.mem_cntl@[idx].config@[1] == 0
                    &&& forall|j: int| 0 <= j < 6 && j != idx ==> final(self).saturn.mem_cntl@[j]
                        == old(self).saturn.mem_cntl@[j]
                })
            }),
    {
        let model: Model = self.model;
        self.saturn.do_unconfigure(model);
    }

    /// Applies a RESET instruction for the current model.
    pub fn do_reset(&mut self)
        requires
            old(self).wf(),
        ensures
            final(self).wf(),
            *final(self) == (Emulator { saturn: final(self).saturn, ..*old(self) }),
            final(self).saturn == (Saturn {
                mem_cntl: final(self).saturn.mem_cntl,
                ..old(self).saturn
            }),
            forall|i: int| 0 <= i < 6 ==> (#[trigger] final(self).saturn.mem_cntl@[i]).unconfigured
                == spec_conf_tab(i),
            forall|i: int| 0 <= i < 6 ==> (#[trigger] final(self).saturn.mem_cntl@[i]).config@[0]
                == 0,
            forall|i: int| 0 <= i < 6 ==> (#[trigger] final(self).saturn.mem_cntl@[i]).config@[1]
                == 0,
    {
        let model: Model = self.model;
        self.saturn.do_reset(model);
    }

    /// Raises an interrupt: when interrupts are enabled the current PC is
    /// pushed and control transfers to the interrupt vector at 0xF.
    pub fn do_interrupt(&mut self)
        requires
            old(self).wf(),
        ensures
            final(self).wf(),
            final(self).interrupt_called,
            old(self).saturn.intenable != 0 ==> final(self).saturn == (Saturn {
                pc: 0xfu32,
                intenable: 0u8,
                rstk: final(self).saturn.rstk,
                rstkp: final(self).saturn.rstkp,
                ..old(self).saturn
            }),
            old(self).saturn.intenable == 0 ==> final(self).saturn == old(self).saturn,
            *final(self) == (Emulator {
                saturn: final(self).saturn,
                interrupt_called: true,
                ..*old(self)
            }),
    {
        self.interrupt_called = true;
        if self.saturn.intenable != 0 {
            let pc: u32 = self.saturn.pc;
            self.saturn.push_return_addr(pc);
            self.saturn.pc = 0xf;
            self.saturn.intenable = 0;
        }
    }

    /// Raises a keyboard interrupt; when interrupts are disabled it stays
    /// pending instead.
    pub fn do_kbd_int(&mut self)
        requires
            old(self).wf(),
        ensures
            final(self).wf(),
            final(self).interrupt_called,
            old(self).saturn.intenable != 0 ==> final(self).saturn == (Saturn {
                pc: 0xfu32,
                intenable: 0u8,
                rstk: final(self).saturn.rstk,
                rstkp: final(self).saturn.rstkp,
                ..old(self).saturn
            }),
            old(self).saturn.intenable == 0 ==> final(self).saturn == (Saturn {
                int_pending: 1u8,
                ..old(self).saturn
            }),
            *final(self) == (Emulator {
                saturn: final(self).saturn,
                interrupt_called: true,
                ..*old(self)
            }),
    {
        self.interrupt_called = true;
        if self.saturn.intenable != 0 {
            let pc: u32 = self.saturn.pc;
            self.saturn.push_return_addr(pc);
            self.saturn.pc = 0xf;
            self.saturn.intenable = 0;
        } else {
            self.saturn.int_pending = 1;
        }
    }

    /// Returns from an interrupt: a pending interrupt dispatches at once,
    /// otherwise the saved PC is popped and interrupts re-enable.
    pub fn do_return_interrupt(&mut self)
        requires
            old(self).wf(),
        ensures
            final(self).wf(),
            old(self).saturn.int_pending != 0 ==> final(self).saturn == (Saturn {
                int_pending: 0u8,
                intenable: 0u8,
                pc: 0xfu32,
                ..old(self).saturn
            }),
            old(self).saturn.int_pending == 0 && old(self).saturn.rstkp >= 0 ==> final(self).saturn == (Saturn {
                pc: old(self).saturn.rstk@[old(self).saturn.rstkp as int],
                rstkp: (old(self).saturn.rstkp - 1) as i16,
                intenable: 1u8,
                ..old(self).saturn
            }),
            old(self).saturn.int_pending == 0 && old(self).saturn.rstkp < 0 ==> final(self).saturn == (Saturn { pc: 0u32, intenable: 1u8, ..old(self).saturn }),
    {
        if self.saturn.int_pending != 0 {
            self.saturn.int_pending = 0;
            self.saturn.intenable = 0;
            self.saturn.pc = 0xf;
        } else {
            let pc: u32 = self.saturn.pop_return_addr();
            self.saturn.pc = pc;
            self.saturn.intenable = 1;
            if self.sched.adj_time_pending {
                self.sched.schedule_event = 0;
                self.sched.sched_adjtime = 0;
            }
        }
    }

    /// Handles RSI: re-enables the keyboard interrupt and raises it if any
    /// key is held.
    pub fn do_reset_interrupt_system(&mut self)
        requires
            old(self).wf(),
        ensures
            final(self).wf(),
            final(self).saturn.kbd_ien == 1,
            (forall|i: int| 0 <= i < 9 ==> old(self).saturn.keybuf.rows@[i] == 0) ==> *final(self) == (Emulator {
                saturn: Saturn { kbd_ien: 1u8, ..old(self).saturn },
                ..*old(self)
            }),
            (exists|i: int| 0 <= i < 9 && old(self).saturn.keybuf.rows@[i] != 0) ==> {
                &&& final(self).interrupt_called
                &&& (old(self).saturn.intenable != 0 ==> final(self).saturn.pc == 0xf
                    && final(self).saturn.intenable == 0)
                &&& (old(self).saturn.intenable == 0 ==> final(self).saturn.int_pending == 1)
            },
    {
        self.saturn.kbd_ien = 1;
        let mut gen: bool = false;
        let mut i: usize = 0;
        while i < 9
            invariant
                self.wf(),
                i <= 9,
                self.saturn.kbd_ien == 1,
                *self == (Emulator {
                    saturn: Saturn { kbd_ien: 1u8, ..old(self).saturn },
                    ..*old(self)
                }),
                gen == exists|j: int| 0 <= j < 9 && j < i && old(self).saturn.keybuf.rows@[j]
                    != 0,
            decreases 9 - i,
        {
            if self.saturn.keybuf.rows[i] != 0 {
                gen = true;
                proof {
                    let ii = i as int;
                    assert(0 <= ii < 9 && ii < i + 1 && old(self).saturn.keybuf.rows@[ii] != 0);
                }
            }
            i += 1;
        }
        if gen {
            self.do_kbd_int();
        }
    }

    /// The 12-bit row-select value the OUT register drives.
    pub open spec fn spec_out_bits(out: Seq<u8>) -> u32 {
        ((out[0] % 16) + (out[1] % 16) * 16 + (out[2] % 16) * 0x100) as u32
    }

    /// The OR of the first `k` key-matrix rows whose select bit is on.
    pub open spec fn spec_in_fold(rows: Seq<u16>, outv: u32, k: int) -> u16
        decreases k,
    {
        if k <= 0 {
            0u16
        } else {
            let p = Emulator::spec_in_fold(rows, outv, k - 1);
            if ((outv as int) / crate::types::pow2(k - 1)) % 2 == 1 {
                p | rows[k - 1]
            } else {
                p
            }
        }
    }

    /// Loads IN with the OR of the key-matrix rows that OUT selects,
    /// applying the firmware debounce patch at its polling address: there a
    /// repeated poll that still sees held keys clears the selected rows
    /// instead of re-latching them.
    #[verifier::rlimit(100)]
    #[verifier::spinoff_prover]
    pub fn do_in(&mut self)
        requires
            old(self).wf(),
        ensures
            final(self).wf(),
            final(self).saturn.regs_valid() == old(self).saturn.regs_valid(),
            ({
                let outv = Emulator::spec_out_bits(old(self).saturn.out@);
                let inv = Emulator::spec_in_fold(old(self).saturn.keybuf.rows@, outv, 9);
                let deb = old(self).saturn.pc == 0xe31 && !old(self).first_press && ((outv % 32
                    >= 16 && inv % 2 == 1) || (((outv as int) / 64) % 2 == 1 && inv % 8 != 0) || ((
                (outv as int) / 128) % 2 == 1 && ((inv as int) / 2) % 2 == 1));
                &&& (!deb ==> *final(self) == (Emulator {
                    saturn: Saturn { in_reg: final(self).saturn.in_reg, ..old(self).saturn },
                    first_press: false,
                    ..*old(self)
                }))
                &&& (deb ==> final(self).first_press && final(self).saturn.in_reg
                    == final(self).saturn.in_reg && (forall|r: int| 0 <= r < 9
                    ==> final(self).saturn.keybuf.rows@[r] == (if ((outv as int)
                    / #[trigger] crate::types::pow2(r)) % 2 == 1 {
                    0u16
                } else {
                    old(self).saturn.keybuf.rows@[r]
                })))
                &&& final(self).saturn.in_reg@[0] == crate::types::nib16(inv, 0)
                &&& final(self).saturn.in_reg@[1] == crate::types::nib16(inv, 1)
                &&& final(self).saturn.in_reg@[2] == crate::types::nib16(inv, 2)
                &&& final(self).saturn.in_reg@[3] == crate::types::nib16(inv, 3)
            }),
    {
        let out: u32 = (self.saturn.out[0] % 16) as u32 + (self.saturn.out[1] % 16) as u32 * 16 + (
        self.saturn.out[2] % 16) as u32 * 0x100;
        let ghost rows0 = self.saturn.keybuf.rows@;
        let mut in_val: u32 = 0;
        let mut k: usize = 0;
        while k < 9
            invariant
                self.wf(),
                *self == *old(self),
                out == Emulator::spec_out_bits(old(self).saturn.out@),
                k <= 9,
                in_val < 0x10000,
                rows0 == old(self).saturn.keybuf.rows@,
                in_val == Emulator::spec_in_fold(rows0, out, k as int) as u32,
            decreases 9 - k,
        {
            if (out / pow2_u32(k)) % 2 == 1 {
                let row16: u16 = self.saturn.keybuf.rows[k];
                let prev16: u16 = in_val as u16;
                let row: u32 = row16 as u32;
                let merged: u32 = in_val | row;
                proof {
                    assert(merged < 0x10000 && merged == ((prev16 | row16) as u32))
                        by (bit_vector)
                        requires
                            merged == in_val | row,
                            in_val < 0x10000,
                            row == row16 as u32,
                            prev16 == in_val as u16,
                    ;
                }
                in_val = merged;
            }
            k += 1;
        }
        if self.saturn.pc == 0x00e31 && !self.first_press && ((out % 32 >= 16 && in_val % 2 == 1)
            || (out / 64 % 2 == 1 && in_val % 8 != 0) || (out / 128 % 2 == 1 && in_val / 2 % 2
            == 1)) {
            let mut r: usize = 0;
            while r < 9
                invariant
                    r <= 9,
                    out < 0x1000,
                    self.wf(),
                    out == Emulator::spec_out_bits(old(self).saturn.out@),
                    *self == (Emulator {
                        saturn: Saturn { keybuf: self.saturn.keybuf, ..old(self).saturn },
                        ..*old(self)
                    }),
                    forall|q: int| 0 <= q < r ==> self.saturn.keybuf.rows@[q] == (if ((
                    out as int) / #[trigger] crate::types::pow2(q)) % 2 == 1 {
                        0u16
                    } else {
                        old(self).saturn.keybuf.rows@[q]
                    }),
                    forall|q: int| r <= q < 9 ==> self.saturn.keybuf.rows@[q] == old(
                        self,
                    ).saturn.keybuf.rows@[q],
                decreases 9 - r,
            {
                if (out / pow2_u32(r)) % 2 == 1 {
                    let mut rows: [u16; 9] = self.saturn.keybuf.rows;
                    rows[r] = 0;
                    self.saturn.keybuf = crate::cpu::KeyState { rows };
                }
                r += 1;
            }
            self.first_press = true;
        } else {
            self.first_press = false;
        }
        let ghost mid = *self;
        let mut v: u32 = in_val;
        let mut j: usize = 0;
        while j < 4
            invariant
                j <= 4,
                self.wf(),
                in_val < 0x10000,
                v as int == (in_val as int) / crate::types::pow16(j as int),
                *self == (Emulator {
                    saturn: Saturn { in_reg: self.saturn.in_reg, ..mid.saturn },
                    ..mid
                }),
                forall|q: int| 0 <= q < j ==> self.saturn.in_reg@[q] == crate::types::nib16(
                    (in_val as u16),
                    q,
                ),
            decreases 4 - j,
        {
            proof {
                crate::types::lemma_pow16_small();
                vstd::arithmetic::div_mod::lemma_div_denominator(
                    in_val as int,
                    crate::types::pow16(j as int),
                    16,
                );
            }
            self.saturn.in_reg[j] = (v % 16) as u8;
            v = v / 16;
            j += 1;
        }
        proof {
            crate::types::lemma_pow16_small();
            assert(self.saturn.a == old(self).saturn.a);
            assert(self.saturn.b == old(self).saturn.b);
            assert(self.saturn.c == old(self).saturn.c);
            assert(self.saturn.d == old(self).saturn.d);
            assert(self.saturn.r0 == old(self).saturn.r0);
            assert(self.saturn.r1 == old(self).saturn.r1);
            assert(self.saturn.r2 == old(self).saturn.r2);
            assert(self.saturn.r3 == old(self).saturn.r3);
            assert(self.saturn.r4 == old(self).saturn.r4);
        }
    }
}

/// A little-endian nibble read peels at the bottom: the first nibble plus
/// sixteen times the rest.
pub proof fn lemma_read_nibs_bottom(em: Emulator, addr: u32, w: int)
    requires
        w >= 1,
        addr < 0xf0000000,
    ensures
        em.spec_read_nibs(addr, w) == em.spec_read_value(((addr as int % 0x100000) as u32)) + 16
            * em.spec_read_nibs((addr + 1) as u32, w - 1),
    decreases w,
{
    if w == 1 {
        assert(em.spec_read_nibs(addr, 1) == em.spec_read_value(
            (((addr as int + 0) % 0x100000) as u32),
        ) * crate::types::pow16(0) + em.spec_read_nibs(addr, 0));
    } else {
        lemma_read_nibs_bottom(em, addr, w - 1);
        let vtop = em.spec_read_value((((addr as int + w - 1) % 0x100000) as u32));
        assert(em.spec_read_nibs(addr, w) == em.spec_read_nibs(addr, w - 1) + vtop
            * crate::types::pow16(w - 1));
        assert(em.spec_read_nibs((addr + 1) as u32, w - 1) == em.spec_read_nibs(
            (addr + 1) as u32,
            w - 2,
        ) + em.spec_read_value(((((addr + 1) as u32) as int + w - 2) % 0x100000) as u32)
            * crate::types::pow16(w - 2));
        assert((((addr + 1) as u32) as int + w - 2) == addr as int + w - 1);
        assert(crate::types::pow16(w - 1) == 16 * crate::types::pow16(w - 2));
        assert(vtop * crate::types::pow16(w - 1) == 16 * (vtop * crate::types::pow16(w - 2)))
            by (nonlinear_arith)
            requires
                crate::types::pow16(w - 1) == 16 * crate::types::pow16(w - 2),
        ;
    }
}

/// A RAM image of `n` zero nibbles./// A RAM image of `n` zero nibbles.
fn zero_nibbles(n: usize) -> (r: Vec<u8>)
    ensures
        r@.len() == n,
        forall|i: int| 0 <= i < n ==> r@[i] < 16,
{
    let mut out: Vec<u8> = Vec::new();
    let mut i: usize = 0;
    while i < n
        invariant
            i <= n,
            out@.len() == i,
            forall|j: int| 0 <= j < i ==> out@[j] == 0,
        decreases n - i,
    {
        out.push(0);
        i += 1;
    }
    out
}

/// `2^k` for the nine key-matrix rows.
pub fn pow2_u32(k: usize) -> (r: u32)
    requires
        k < 9,
    ensures
        r >= 1,
        r == crate::types::pow2(k as int),
{
    proof {
        assert(crate::types::pow2(0) == 1);
        assert(crate::types::pow2(1) == 2);
        assert(crate::types::pow2(2) == 4);
        assert(crate::types::pow2(3) == 8);
        assert(crate::types::pow2(4) == 16);
        assert(crate::types::pow2(5) == 32);
        assert(crate::types::pow2(6) == 64);
        assert(crate::types::pow2(7) == 128);
        assert(crate::types::pow2(8) == 256);
    }
    match k {
        0 => 1,
        1 => 2,
        2 => 4,
        3 => 8,
        4 => 16,
        5 => 32,
        6 => 64,
        7 => 128,
        _ => 256,
    }
}

impl Emulator {
    /// SHUTDN: flushes any pending display redraw, stops the RUN timer,
    /// starts IDLE, and with OUT all zero re-enables interrupts.
    pub fn do_shutdown(&mut self)
        requires
            old(self).wf(),
        ensures
            final(self).wf(),
            final(self).is_shutdown,
            !final(self).timers.timers@[1].running,
            final(self).timers.timers@[2].running,
            final(self).device.display_touched == 0,
            old(self).saturn.out@[0] == 0 && old(self).saturn.out@[1] == 0 && old(
                self,
            ).saturn.out@[2] == 0 ==> final(self).saturn.intenable == 1 && final(self).saturn.int_pending == 0,
            old(self).saturn.out@[0] != 0 || old(self).saturn.out@[1] != 0 || old(
                self,
            ).saturn.out@[2] != 0 ==> final(self).saturn == old(self).saturn,
    {
        if self.device.display_touched != 0 {
            self.device.display_touched = 0;
            self.update_display();
        }
        let now: u64 = self.now_us;
        self.timers.stop_timer(RUN_TIMER, now);
        self.timers.start_timer(IDLE_TIMER, now);
        if self.saturn.out[0] == 0 && self.saturn.out[1] == 0 && self.saturn.out[2] == 0 {
            self.saturn.intenable = 1;
            self.saturn.int_pending = 0;
        }
        self.is_shutdown = true;
    }

    /// Redraws the frame from the current display configuration.
    pub fn update_display(&mut self)
        requires
            old(self).wf(),
        ensures
            final(self).wf(),
            final(self).saturn == old(self).saturn,
            *final(self) == (Emulator { display: final(self).display, ..*old(self) }),
    {
        let on: bool = self.display_state.on;
        let disp_start: u32 = self.display_state.disp_start;
        let npl: u32 = self.display_state.nibs_per_line;
        let lines: u32 = self.display_state.lines;
        let offset: u32 = self.display_state.offset;
        let menu_start: u32 = self.display_state.menu_start;
        let model: Model = self.model;
        self.display.render(
            &self.mem,
            &self.saturn,
            model,
            on,
            disp_start,
            npl,
            lines,
            offset,
            menu_start,
        );
    }

    /// A hardware-timer snapshot: T1 from the T1 timer's encoding, T2 from
    /// the firmware's access time in RAM against the host clock, with drift
    /// beyond 0x3C000 ticks folded back into the HP-48 epoch offset.
    pub fn get_t1_t2(&mut self) -> (r: T1T2Ticks)
        requires
            old(self).wf(),
        ensures
            final(self).wf(),
            ({
                let us0 = crate::timer::spec_timer_micros(
                    old(self).timers.timers@[0],
                    old(self).now_us,
                );
                let us = if us0 < 0x2000000000000000 { us0 } else { 0x1fffffffffffffff };
                r.t1_ticks == crate::types::i32_of_u32_bits(
                    ((crate::timer::spec_t1_encoding(us as u64) % 0x100000000) as u32),
                )
            }),
    {
        let now: u64 = self.now_us;
        let t1_us: u64 = self.timers.get_timer_micros(T1_TIMER, now);
        let t1v = t1_encoding(if t1_us < 0x2000000000000000 {
            t1_us
        } else {
            0x1fffffffffffffff
        });
        let t1_ticks: i32 = crate::types::i32_from_bits(t1v.lo);

        let epoch_now: u64 = now + self.epoch_offset_us;
        let tv_sec: u64 = epoch_now / 1000000;
        let tv_usec: u64 = epoch_now % 1000000;
        let stop_lo: u64 = ((tv_sec % 0x80000) * 8192) + (tv_usec * 128) / 15625;
        let stop_hi: u64 = tv_sec / 0x80000;
        let stop: u64 = (stop_hi % 0x100000000).wrapping_mul(0x100000000).wrapping_add(stop_lo);
        let stop2: u64 = stop.wrapping_add(self.time_offset);

        let base: usize = match self.model {
            Model::Gx => 0x58,
            Model::Sx => 0x52,
        };
        let mut access_time: u64 = 0;
        let mut i: usize = 13;
        while i > 0
            invariant
                self.wf(),
                i <= 13,
                base <= 0x58,
            decreases i,
        {
            i -= 1;
            access_time = access_time.wrapping_mul(16);
            if base + i < self.mem.ram.len() {
                access_time = access_time.wrapping_add((self.mem.ram[base + i] % 16) as u64);
            }
        }
        let at: u64 = access_time.wrapping_sub(stop2);
        let at_lo: u32 = (at % 0x100000000) as u32;

        if self.sched.adj_time_pending {
            let timer2: i32 = self.saturn.timer2;
            if (timer2 >= 0 && at_lo >= 0x80000000) || (crate::types::i32_bits(timer2) > at_lo) {
                return T1T2Ticks { t1_ticks, t2_ticks: crate::types::i32_from_bits(at_lo) };
            } else {
                self.saturn.t2_tick = self.saturn.t2_tick.wrapping_add(1);
                return T1T2Ticks { t1_ticks, t2_ticks: timer2 };
            }
        }

        let timer2_64: u64 = if self.saturn.timer2 >= 0 {
            self.saturn.timer2 as u64
        } else {
            (self.saturn.timer2 as i64 as i128 + 0x10000000000000000i128) as u64
        };
        let adj_time: u64 = at.wrapping_sub(timer2_64);
        let delta: u64 = if adj_time >= 0x8000000000000000 {
            (0u64).wrapping_sub(adj_time)
        } else {
            adj_time
        };
        let mut at2: u64 = at;
        if delta > 0x3c000 {
            self.set_0_time = self.set_0_time.wrapping_add(adj_time);
            self.time_offset = self.time_offset.wrapping_add(adj_time);
            at2 = at.wrapping_sub(adj_time);
        }
        let at2_lo: u32 = (at2 % 0x100000000) as u32;
        let timer2: i32 = self.saturn.timer2;
        if (timer2 >= 0 && at2_lo >= 0x80000000) || (crate::types::i32_bits(timer2) > at2_lo) {
            T1T2Ticks { t1_ticks, t2_ticks: crate::types::i32_from_bits(at2_lo) }
        } else {
            self.saturn.t2_tick = self.saturn.t2_tick.wrapping_add(1);
            T1T2Ticks { t1_ticks, t2_ticks: timer2 }
        }
    }

    /// The shutdown loop body: on an alarm, resynchronises the hardware
    /// timers and wakes on an enabled timer interrupt; key events wake the
    /// processor at once.
    #[verifier::rlimit(100)]
    #[verifier::spinoff_prover]
    pub fn do_shutdown_check(&mut self)
        requires
            old(self).wf(),
        ensures
            final(self).wf(),
    {
        let mut wake: bool = false;
        if self.got_alarm {
            self.got_alarm = false;
            let ticks: T1T2Ticks = self.get_t1_t2();
            if self.saturn.t2_ctrl % 2 == 1 {
                self.saturn.timer2 = ticks.t2_ticks;
            }
            let d: i32 = self.sched.set_t1.wrapping_sub(ticks.t1_ticks);
            self.saturn.timer1 = (d % 256) as i8;
            self.sched.set_t1 = ticks.t1_ticks;
            self.interrupt_called = false;
            if self.saturn.timer2 <= 0 {
                if self.saturn.t2_ctrl % 8 >= 4 {
                    wake = true;
                }
                if self.saturn.t2_ctrl % 4 >= 2 {
                    wake = true;
                    self.saturn.t2_ctrl = self.saturn.t2_ctrl | 0x08;
                    self.do_interrupt();
                }
            }
            if self.saturn.timer1 <= 0 {
                let t1: i8 = self.saturn.timer1;
                self.saturn.timer1 = t1 & 0x0f;
                if self.saturn.t1_ctrl % 8 >= 4 {
                    wake = true;
                }
                if self.saturn.t1_ctrl % 4 >= 1 {
                    wake = true;
                    self.saturn.t1_ctrl = self.saturn.t1_ctrl | 0x08;
                    self.do_interrupt();
                }
            }
            if !wake {
                self.interrupt_called = false;
                self.serial.receive_char();
                if self.interrupt_called {
                    wake = true;
                }
            }
        }
        self.interrupt_called = false;
        let kbd: bool = self.keyboard.process_events(&mut self.saturn);
        if kbd {
            self.do_kbd_int();
            if self.interrupt_called {
                wake = true;
            }
        }
        if wake {
            self.is_shutdown = false;
            let now: u64 = self.now_us;
            self.timers.stop_timer(IDLE_TIMER, now);
            self.timers.start_timer(RUN_TIMER, now);
        }
    }

    /// Serializes the processor state in the persistent layout.
    pub fn save_state(&self) -> (r: Vec<u8>)
        ensures
            r@.len() == crate::persist::STATE_LEN,
    {
        crate::persist::write_state(&self.saturn)
    }

    /// Packs the system RAM two nibbles per byte, low nibble first.
    pub fn save_ram(&self) -> (r: Vec<u8>)
        ensures
            r@.len() == self.mem.ram@.len() / 2,
            self.mem.ram@.len() % 2 == 0 ==> r@ =~= crate::persist::spec_packed(self.mem.ram@),
    {
        crate::persist::pack_nibbles(&self.mem.ram)
    }

    /// Appends one host key event to the keyboard queue.
    pub fn push_key_event(&mut self, code: u32)
        ensures
            final(self).keyboard.event_queue@ == old(self).keyboard.event_queue@.push(code),
            *final(self) == (Emulator { keyboard: final(self).keyboard, ..*old(self) }),
    {
        self.keyboard.push_key_event(code);
    }

    /// The RGBA frame at native resolution.
    pub fn display_buffer(&self) -> (r: &Vec<u8>)
        ensures
            r@ == self.display.rgba@,
    {
        &self.display.rgba
    }

    /// True iff the frame changed since the dirty flag was last cleared.
    pub fn is_display_dirty(&self) -> (r: bool)
        ensures
            r == self.display.dirty,
    {
        self.display.dirty
    }

    /// Clears the frame dirty flag.
    pub fn clear_display_dirty(&mut self)
        ensures
            *final(self) == (Emulator { display: final(self).display, ..*old(self) }),
            final(self).display == (crate::display::Display {
                dirty: false,
                ..old(self).display
            }),
    {
        self.display.dirty = false;
    }

    /// The annunciator register as a host-facing bitmask.
    pub fn annunciator_state(&self) -> (r: u32)
        ensures
            r == self.saturn.annunc,
    {
        self.saturn.annunc as u32
    }

    /// The detected speaker frequency in Hz, zero when silent; resets the
    /// detection window.
    pub fn speaker_frequency(&mut self) -> (r: u32)
        requires
            old(self).wf(),
        ensures
            final(self).wf(),
            *final(self) == (Emulator { speaker: final(self).speaker, ..*old(self) }),
            final(self).speaker == (crate::speaker::Speaker {
                win_toggle_count: 0,
                win_half_sum: 0,
                ..old(self).speaker
            }),
            ({
                let count = old(self).speaker.win_toggle_count;
                let sum = old(self).speaker.win_half_sum;
                if count < 4 {
                    r == 0
                } else {
                    let avg = (sum as int) / (count - 1);
                    if avg <= 0 {
                        r == 0
                    } else {
                        let freq = (crate::speaker::HP48_IPS as int) / (2 * avg);
                        r == (if freq < 20 || freq > 20000 { 0int } else { freq })
                    }
                }
            }),
    {
        self.speaker.get_frequency()
    }
}

} // verus!
