//! Instruction decoder: a prefix tree over successive nibbles fetched at PC.
//! Each step executes one instruction, advances PC by the consumed nibbles
//! (modulo 2^20) and reports whether an illegal opcode was met.

use vstd::prelude::*;
use crate::alu::RegId;
use crate::cpu::Saturn;
use crate::emulator::Emulator;
use crate::types::{A_FIELD, DEC, HEX, IN_FIELD, W_FIELD};

verus! {

impl Emulator {
    /// Takes a conditional jump that the carry flag guards, given the
    /// two-nibble displacement already fetched at `PC + base`: displacement
    /// zero pops the return stack into PC, anything else lands at
    /// `PC + base + sign-extended displacement` modulo 2^20; with carry
    /// clear, PC skips past the displacement.
    pub fn cond_jump_with(&mut self, base: u32, op: u32)
        requires
            old(self).wf(),
            base <= 8,
            op < 0x100,
        ensures
            final(self).wf(),
            old(self).saturn.carry == 0 ==> *final(self) == (Emulator {
                saturn: Saturn {
                    pc: ((old(self).saturn.pc + base + 2) % 0x100000) as u32,
                    ..old(self).saturn
                },
                ..*old(self)
            }),
            old(self).saturn.carry != 0 && op == 0 ==> {
                &&& (old(self).saturn.rstkp >= 0 ==> final(self).saturn.pc == old(
                    self,
                ).saturn.rstk@[old(self).saturn.rstkp as int] && final(self).saturn.rstkp == old(
                    self,
                ).saturn.rstkp - 1)
                &&& (old(self).saturn.rstkp < 0 ==> final(self).saturn.pc == 0)
            },
            old(self).saturn.carry != 0 && op != 0 ==> final(self).saturn.pc == (((old(
                self,
            ).saturn.pc + base) + (if op >= 0x80 {
                (op + 0x100000 - 0x100) as int
            } else {
                op as int
            })) % 0x100000),
    {
        if self.saturn.carry != 0 {
            self.saturn.pc = (self.saturn.pc + base) % 0x100000;
            if op != 0 {
                let disp: u32 = if op >= 0x80 {
                    op + 0x100000 - 0x100
                } else {
                    op
                };
                self.saturn.pc = (self.saturn.pc + disp) % 0x100000;
                proof {
                    vstd::arithmetic::div_mod::lemma_add_mod_noop(
                        old(self).saturn.pc + base,
                        disp as int,
                        0x100000,
                    );
                    vstd::arithmetic::div_mod::lemma_small_mod(disp as nat, 0x100000);
                }
            } else {
                let a: u32 = self.saturn.pop_return_addr();
                self.saturn.pc = a;
            }
        } else {
            self.saturn.pc = (self.saturn.pc + base + 2) % 0x100000;
        }
    }

    /// Fetches the two-nibble displacement at `PC + base` (only when the
    /// carry is set) and takes the conditional jump: zero displacement pops
    /// the return stack into PC, a nonzero one lands sign-extended relative,
    /// and a clear carry skips past the displacement.
    pub fn cond_jump(&mut self, base: u32)
        requires
            old(self).wf(),
            base <= 8,
        ensures
            final(self).wf(),
            old(self).saturn.carry == 0 ==> *final(self) == (Emulator {
                saturn: Saturn {
                    pc: ((old(self).saturn.pc + base + 2) % 0x100000) as u32,
                    ..old(self).saturn
                },
                ..*old(self)
            }),
            ({
                let pcb = (old(self).saturn.pc + base) as u32;
                let pure2 = old(self).spec_read_pure(((pcb as int % 0x100000) as u32)) && old(
                    self,
                ).spec_read_pure((((pcb + 1) as int % 0x100000) as u32));
                let d = old(self).spec_read_nibs(pcb, 2);
                &&& (old(self).saturn.carry != 0 && pure2 && d == 0 ==> {
                    &&& (old(self).saturn.rstkp >= 0 ==> final(self).saturn.pc == old(
                        self,
                    ).saturn.rstk@[old(self).saturn.rstkp as int] && final(self).saturn.rstkp
                        == old(self).saturn.rstkp - 1)
                    &&& (old(self).saturn.rstkp < 0 ==> final(self).saturn.pc == 0)
                })
                &&& (old(self).saturn.carry != 0 && pure2 && d != 0 ==> final(self).saturn.pc
                    == (((old(self).saturn.pc + base) + (if d >= 0x80 {
                    d + 0x100000 - 0x100
                } else {
                    d
                })) % 0x100000))
            }),
    {
        if self.saturn.carry != 0 {
            let pc: u32 = self.saturn.pc;
            proof {
                crate::types::lemma_pow16_small();
                let pcb = (old(self).saturn.pc + base) as u32;
                if old(self).spec_read_pure(((pcb as int % 0x100000) as u32)) && old(
                    self,
                ).spec_read_pure((((pcb + 1) as int % 0x100000) as u32)) {
                    assert forall|i: int| 0 <= i < 2 implies #[trigger] old(self).spec_read_pure(
                        (((pcb + i) % 0x100000) as u32),
                    ) by {
                        if i == 0 {
                            assert((((pcb + 0) % 0x100000) as u32) == ((pcb as int
                                % 0x100000) as u32));
                        } else {
                            assert((((pcb + 1) % 0x100000) as u32) == (((pcb + 1) as int
                                % 0x100000) as u32));
                        }
                    };
                }
            }
            let op: u32 = self.read_nibbles(pc + base, 2);
            self.cond_jump_with(base, op % 0x100);
        } else {
            self.cond_jump_with(base, 0);
        }
    }

    /// Decodes the 80x opcode group: device control, identification, bit
    /// operations, interrupt control and P transfers.  Returns true on an
    /// illegal opcode.
    #[verifier::rlimit(100)]
    #[verifier::spinoff_prover]
    pub fn decode_group_80(&mut self) -> (stop: bool)
        requires
            old(self).wf(),
        ensures
            final(self).wf(),
    {
        let pc0: u32 = self.saturn.pc;
        let op3: u8 = self.read_nibble(pc0 + 2);
        if op3 == 0 {
            self.adv(3);
            self.saturn.out[0] = self.saturn.c[0];
            self.check_out_register();
            false
        } else if op3 == 1 {
            self.adv(3);
            self.saturn.out[0] = self.saturn.c[0];
            self.saturn.out[1] = self.saturn.c[1];
            self.saturn.out[2] = self.saturn.c[2];
            self.check_out_register();
            false
        } else if op3 == 2 {
            self.adv(3);
            self.do_in();
            self.saturn.a[0] = self.saturn.in_reg[0];
            self.saturn.a[1] = self.saturn.in_reg[1];
            self.saturn.a[2] = self.saturn.in_reg[2];
            self.saturn.a[3] = self.saturn.in_reg[3];
            false
        } else if op3 == 3 {
            self.adv(3);
            self.do_in();
            self.saturn.c[0] = self.saturn.in_reg[0];
            self.saturn.c[1] = self.saturn.in_reg[1];
            self.saturn.c[2] = self.saturn.in_reg[2];
            self.saturn.c[3] = self.saturn.in_reg[3];
            false
        } else if op3 == 4 {
            self.adv(3);
            self.do_unconfigure();
            false
        } else if op3 == 5 {
            self.adv(3);
            self.saturn.do_configure();
            false
        } else if op3 == 6 {
            self.adv(3);
            let _ = self.saturn.get_identification();
            false
        } else if op3 == 7 {
            self.adv(3);
            self.do_shutdown();
            false
        } else if op3 == 8 {
            let op4: u8 = self.read_nibble(pc0 + 3);
            if op4 == 0 {
                self.adv(4);
                self.saturn.do_inton();
                false
            } else if op4 == 1 {
                let _op5: u8 = self.read_nibble(self.saturn.pc + 4);
                self.adv(5);
                self.do_reset_interrupt_system();
                false
            } else if op4 == 2 {
                let op5: u8 = self.read_nibble(self.saturn.pc + 4);
                let pc: u32 = self.saturn.pc;
                self.load_constant(RegId::A, (op5 + 1) as usize, (pc + 5) % 0x100000);
                self.adv(6 + op5 as u32 - 0);
                false
            } else if op4 == 3 {
                self.adv(4);
                false
            } else if op4 == 4 {
                let op5: u8 = self.read_nibble(self.saturn.pc + 4);
                self.adv(5);
                self.saturn.clear_register_bit(RegId::A, op5 as usize);
                false
            } else if op4 == 5 {
                let op5: u8 = self.read_nibble(self.saturn.pc + 4);
                self.adv(5);
                self.saturn.set_register_bit(RegId::A, op5 as usize);
                false
            } else if op4 == 8 {
                let op5: u8 = self.read_nibble(self.saturn.pc + 4);
                self.adv(5);
                self.saturn.clear_register_bit(RegId::C, op5 as usize);
                false
            } else if op4 == 9 {
                let op5: u8 = self.read_nibble(self.saturn.pc + 4);
                self.adv(5);
                self.saturn.set_register_bit(RegId::C, op5 as usize);
                false
            } else if op4 == 6 || op4 == 7 || op4 == 0xa || op4 == 0xb {
                let op5: u8 = self.read_nibble(self.saturn.pc + 4);
                let reg: RegId = if op4 < 8 {
                    RegId::A
                } else {
                    RegId::C
                };
                let t: bool = !(op4 == 6 || op4 == 0xa);
                let bit: bool = self.saturn.get_register_bit(reg, op5 as usize);
                self.saturn.carry = if bit == t {
                    1
                } else {
                    0
                };
                self.cond_jump(5);
                false
            } else if op4 == 0xc {
                let a: u32 = Saturn::dat_to_addr(self.saturn.get_reg(RegId::A));
                let target: u32 = self.read_nibbles(a, 5);
                self.saturn.pc = target;
                false
            } else if op4 == 0xd {
                self.adv(4);
                false
            } else if op4 == 0xe {
                let a: u32 = Saturn::dat_to_addr(self.saturn.get_reg(RegId::C));
                let target: u32 = self.read_nibbles(a, 5);
                self.saturn.pc = target;
                false
            } else if op4 == 0xf {
                self.adv(4);
                self.saturn.do_intoff();
                false
            } else {
                true
            }
        } else if op3 == 9 {
            self.adv(3);
            self.saturn.add_p_plus_one(RegId::C);
            false
        } else if op3 == 0xa {
            self.adv(3);
            self.do_reset();
            false
        } else if op3 == 0xb {
            self.adv(3);
            false
        } else if op3 == 0xc {
            let op4: u8 = self.read_nibble(pc0 + 3);
            self.adv(4);
            let p: u8 = self.saturn.p;
            self.saturn.set_register_nibble(RegId::C, op4 as usize, p);
            false
        } else if op3 == 0xd {
            let op4: u8 = self.read_nibble(pc0 + 3);
            self.adv(4);
            self.saturn.p = self.saturn.get_register_nibble(RegId::C, op4 as usize) % 16;
            false
        } else if op3 == 0xe {
            self.adv(3);
            self.saturn.c[0] = 0;
            self.saturn.sr = 0;
            false
        } else {
            let op4: u8 = self.read_nibble(pc0 + 3);
            self.adv(4);
            let t: u8 = self.saturn.get_register_nibble(RegId::C, op4 as usize);
            let p: u8 = self.saturn.p;
            self.saturn.set_register_nibble(RegId::C, op4 as usize, p);
            self.saturn.p = t % 16;
            false
        }
    }

    /// Decodes the 1xx opcode group: scratch register moves and exchanges,
    /// data pointer loads and arithmetic, and field or counted store/recall.
    #[verifier::rlimit(100)]
    #[verifier::spinoff_prover]
    pub fn decode_group_1(&mut self) -> (stop: bool)
        requires
            old(self).wf(),
        ensures
            final(self).wf(),
    {
        let pc0: u32 = self.saturn.pc;
        let op2: u8 = self.read_nibble(pc0 + 1);
        if op2 == 0 || op2 == 1 || op2 == 2 {
            let op3: u8 = self.read_nibble(pc0 + 2);
            let scratch: RegId = if op3 % 8 == 0 {
                RegId::R0
            } else if op3 % 4 == 1 {
                RegId::R1
            } else if op3 % 4 == 2 {
                RegId::R2
            } else if op3 % 4 == 3 {
                RegId::R3
            } else {
                RegId::R4
            };
            let work: RegId = if op3 < 8 {
                RegId::A
            } else {
                RegId::C
            };
            self.adv(3);
            if op2 == 0 {
                self.saturn.copy_register(scratch, work, W_FIELD);
            } else if op2 == 1 {
                self.saturn.copy_register(work, scratch, W_FIELD);
            } else {
                self.saturn.exchange_register(work, scratch, W_FIELD);
            }
            false
        } else if op2 == 3 {
            let op3: u8 = self.read_nibble(pc0 + 2);
            self.adv(3);
            let reg: RegId = if op3 % 8 < 4 || op3 % 2 == 0 {
                if op3 == 0 || op3 == 1 || op3 == 2 || op3 == 3 || op3 == 8 || op3 == 9 || op3
                    == 0xa || op3 == 0xb {
                    RegId::A
                } else {
                    RegId::C
                }
            } else {
                RegId::C
            };
            let reg2: RegId = if op3 < 4 || (8 <= op3 && op3 < 0xc) {
                RegId::A
            } else {
                RegId::C
            };
            let d_sel: u8 = if op3 % 2 == 0 {
                0
            } else {
                1
            };
            let _ = reg;
            if op3 == 2 || op3 == 3 || op3 == 6 || op3 == 7 {
                self.saturn.exchange_reg_dat(reg2, d_sel, A_FIELD);
            } else if op3 == 0xa || op3 == 0xb || op3 == 0xe || op3 == 0xf {
                self.saturn.exchange_reg_dat(reg2, d_sel, IN_FIELD);
            } else if op3 < 8 {
                self.saturn.register_to_address(reg2, d_sel, false);
            } else {
                self.saturn.register_to_address(reg2, d_sel, true);
            }
            false
        } else if op2 == 4 {
            let op3: u8 = self.read_nibble(pc0 + 2);
            let code: u8 = if op3 < 8 {
                A_FIELD
            } else {
                6
            };
            let reg: RegId = if op3 % 8 < 4 {
                RegId::A
            } else {
                RegId::C
            };
            let d_sel: u8 = op3 % 2;
            self.adv(3);
            if op3 % 4 < 2 {
                self.store(reg, code, d_sel);
            } else {
                self.recall(reg, code, d_sel);
            }
            false
        } else if op2 == 5 {
            let op3: u8 = self.read_nibble(pc0 + 2);
            let op4: u8 = self.read_nibble(pc0 + 3);
            let reg: RegId = if op3 % 8 < 4 {
                RegId::A
            } else {
                RegId::C
            };
            let d_sel: u8 = op3 % 2;
            self.adv(4);
            if op3 >= 8 {
                let n: usize = (op4 + 1) as usize;
                if op3 % 4 < 2 {
                    self.store_n(reg, n, d_sel);
                } else {
                    self.recall_n(reg, n, d_sel);
                }
            } else {
                if op4 < 16 && (op4 as u8) < 19 {
                    if op3 % 4 < 2 {
                        self.store(reg, op4, d_sel);
                    } else {
                        self.recall(reg, op4, d_sel);
                    }
                }
            }
            false
        } else if op2 == 6 {
            let op3: u8 = self.read_nibble(pc0 + 2);
            self.adv(3);
            self.saturn.add_address(0, op3 as i32 + 1);
            false
        } else if op2 == 7 {
            let op3: u8 = self.read_nibble(pc0 + 2);
            self.adv(3);
            self.saturn.add_address(1, op3 as i32 + 1);
            false
        } else if op2 == 8 {
            let op3: u8 = self.read_nibble(pc0 + 2);
            self.adv(3);
            self.saturn.add_address(0, -(op3 as i32 + 1));
            false
        } else if op2 == 9 || op2 == 0xa || op2 == 0xb {
            let n: usize = if op2 == 9 {
                2
            } else if op2 == 0xa {
                4
            } else {
                5
            };
            self.load_addr(0, (pc0 + 2) % 0x100000, n);
            self.adv((n + 2) as u32);
            false
        } else if op2 == 0xc {
            let op3: u8 = self.read_nibble(pc0 + 2);
            self.adv(3);
            self.saturn.add_address(1, -(op3 as i32 + 1));
            false
        } else {
            let n: usize = if op2 == 0xd {
                2
            } else if op2 == 0xe {
                4
            } else {
                5
            };
            self.load_addr(1, (pc0 + 2) % 0x100000, n);
            self.adv((n + 2) as u32);
            false
        }
    }

    /// Decodes opcode roots 8 through F: the 8xx sub-tree (group 80, shifts,
    /// status tests, register tests and long jumps), the field-selected
    /// register groups 9 to B, and the A-field shorthand groups C to F.
    #[verifier::rlimit(100)]
    #[verifier::spinoff_prover]
    pub fn decode_8_thru_f(&mut self, op1: u8) -> (stop: bool)
        requires
            old(self).wf(),
            8 <= op1 < 16,
        ensures
            final(self).wf(),
    {
        let pc0: u32 = self.saturn.pc;
        let op2: u8 = self.read_nibble(pc0 + 1);
        if op1 == 8 {
            if op2 == 0 {
                self.decode_group_80()
            } else if op2 == 1 {
                self.decode_group_81()
            } else if op2 == 2 {
                let op3: u8 = self.read_nibble(pc0 + 2);
                self.adv(3);
                self.saturn.clear_hardware_stat(op3);
                false
            } else if op2 == 3 {
                let op3: u8 = self.read_nibble(pc0 + 2);
                let z: bool = self.saturn.is_zero_hardware_stat(op3);
                self.saturn.carry = if z {
                    1
                } else {
                    0
                };
                self.cond_jump(3);
                false
            } else if op2 == 4 {
                let op3: u8 = self.read_nibble(pc0 + 2);
                self.adv(3);
                self.saturn.clear_program_stat(op3 as usize);
                false
            } else if op2 == 5 {
                let op3: u8 = self.read_nibble(pc0 + 2);
                self.adv(3);
                self.saturn.set_program_stat(op3 as usize);
                false
            } else if op2 == 6 || op2 == 7 {
                let op3: u8 = self.read_nibble(pc0 + 2);
                let st: bool = self.saturn.get_program_stat(op3 as usize);
                let want: bool = op2 == 7;
                self.saturn.carry = if st == want {
                    1
                } else {
                    0
                };
                self.cond_jump(3);
                false
            } else if op2 == 8 || op2 == 9 {
                let op3: u8 = self.read_nibble(pc0 + 2);
                let eq: bool = self.saturn.p == op3;
                let want: bool = op2 == 9;
                self.saturn.carry = if eq == want {
                    1
                } else {
                    0
                };
                self.cond_jump(3);
                false
            } else if op2 == 0xa || op2 == 0xb {
                let op3: u8 = self.read_nibble(pc0 + 2);
                self.reg_test(op2 % 2 == 0, A_FIELD, op3);
                self.cond_jump(3);
                false
            } else if op2 == 0xc {
                let disp: u32 = self.read_nibbles(pc0 + 2, 4);
                let sdisp: u32 = if disp >= 0x8000 {
                    disp + 0x100000 - 0x10000
                } else {
                    disp
                };
                self.saturn.pc = ((self.saturn.pc + sdisp) % 0x100000 + 2) % 0x100000;
                false
            } else if op2 == 0xd {
                let target: u32 = self.read_nibbles(pc0 + 2, 5);
                self.saturn.pc = target;
                false
            } else if op2 == 0xe {
                let disp: u32 = self.read_nibbles(pc0 + 2, 4);
                let sdisp: u32 = if disp >= 0x8000 {
                    disp + 0x100000 - 0x10000
                } else {
                    disp
                };
                let jump: u32 = ((self.saturn.pc + sdisp) % 0x100000 + 6) % 0x100000;
                let ret: u32 = (self.saturn.pc + 6) % 0x100000;
                self.saturn.push_return_addr(ret);
                self.saturn.pc = jump;
                false
            } else {
                let target: u32 = self.read_nibbles(pc0 + 2, 5);
                let ret: u32 = (self.saturn.pc + 7) % 0x100000;
                self.saturn.push_return_addr(ret);
                self.saturn.pc = target;
                false
            }
        } else if op1 == 9 {
            let op3: u8 = self.read_nibble(pc0 + 2);
            let code: u8 = op2 % 8;
            self.reg_test(op2 < 8, code, op3);
            self.cond_jump(3);
            false
        } else if op1 == 0xa {
            let op3: u8 = self.read_nibble(pc0 + 2);
            let code: u8 = op2 % 8;
            self.adv(3);
            if op2 < 8 {
                self.reg_arith_a(code, op3);
            } else {
                self.reg_move_a(code, op3);
            }
            false
        } else if op1 == 0xb {
            let op3: u8 = self.read_nibble(pc0 + 2);
            let code: u8 = op2 % 8;
            self.adv(3);
            if op2 < 8 {
                self.reg_arith_b(code, op3);
            } else {
                self.reg_shift_b(code, op3);
            }
            false
        } else if op1 == 0xc {
            self.adv(2);
            self.reg_arith_a(A_FIELD, op2);
            false
        } else if op1 == 0xd {
            self.adv(2);
            self.reg_move_a(A_FIELD, op2);
            false
        } else if op1 == 0xe {
            self.adv(2);
            self.reg_arith_b(A_FIELD, op2);
            false
        } else {
            self.adv(2);
            self.reg_shift_b(A_FIELD, op2);
            false
        }
    }

    /// Decodes the 81x sub-group: circular shifts, constant add/subtract,
    /// bit shifts and the PC transfers.
    #[verifier::rlimit(100)]
    #[verifier::spinoff_prover]
    fn decode_group_81(&mut self) -> (stop: bool)
        requires
            old(self).wf(),
        ensures
            final(self).wf(),
    {
        let pc0: u32 = self.saturn.pc;
        let op3: u8 = self.read_nibble(pc0 + 2);
        if op3 < 4 {
            self.adv(3);
            let reg: RegId = abcd(op3 % 4);
            self.saturn.shift_left_circ_register(reg, W_FIELD);
            false
        } else if op3 < 8 {
            self.adv(3);
            let reg: RegId = abcd(op3 % 4);
            self.saturn.shift_right_circ_register(reg, W_FIELD);
            false
        } else if op3 == 8 {
            let op4: u8 = self.read_nibble(pc0 + 3);
            let op5: u8 = self.read_nibble(pc0 + 4);
            let op6: u8 = self.read_nibble(pc0 + 5);
            self.adv(6);
            let reg: RegId = abcd(op5 % 4);
            if op4 < 16 {
                if op5 < 8 {
                    self.saturn.add_register_constant(reg, op4, op6 + 1);
                } else {
                    self.saturn.sub_register_constant(reg, op4, op6 + 1);
                }
            }
            false
        } else if op3 == 9 {
            let op4: u8 = self.read_nibble(pc0 + 3);
            let op5: u8 = self.read_nibble(pc0 + 4);
            self.adv(5);
            let reg: RegId = abcd(op5 % 4);
            self.saturn.shift_right_bit_register(reg, op4);
            false
        } else if op3 == 0xa {
            let op4: u8 = self.read_nibble(pc0 + 3);
            let op5: u8 = self.read_nibble(pc0 + 4);
            let op6: u8 = self.read_nibble(pc0 + 5);
            self.adv(6);
            let scratch: RegId = if op6 % 8 == 0 {
                RegId::R0
            } else if op6 % 4 == 1 {
                RegId::R1
            } else if op6 % 4 == 2 {
                RegId::R2
            } else if op6 % 4 == 3 {
                RegId::R3
            } else {
                RegId::R4
            };
            let work: RegId = if op6 < 8 {
                RegId::A
            } else {
                RegId::C
            };
            if op5 == 0 {
                self.saturn.copy_register(scratch, work, op4);
            } else if op5 == 1 {
                self.saturn.copy_register(work, scratch, op4);
            } else if op5 == 2 {
                self.saturn.exchange_register(work, scratch, op4);
            } else {
                return true;
            }
            false
        } else if op3 == 0xb {
            let op4: u8 = self.read_nibble(pc0 + 3);
            if op4 == 2 || op4 == 3 {
                let reg: RegId = if op4 == 2 {
                    RegId::A
                } else {
                    RegId::C
                };
                let target: u32 = Saturn::dat_to_addr(self.saturn.get_reg(reg));
                self.saturn.pc = target;
                false
            } else if op4 == 4 || op4 == 5 {
                self.adv(4);
                let pc: u32 = self.saturn.pc;
                if op4 == 4 {
                    Saturn::addr_to_dat(pc, &mut self.saturn.a);
                } else {
                    Saturn::addr_to_dat(pc, &mut self.saturn.c);
                }
                false
            } else if op4 == 6 {
                self.adv(4);
                let jump: u32 = Saturn::dat_to_addr(&self.saturn.a);
                let pc: u32 = self.saturn.pc;
                Saturn::addr_to_dat(pc, &mut self.saturn.a);
                self.saturn.pc = jump;
                false
            } else if op4 == 7 {
                self.adv(4);
                let jump: u32 = Saturn::dat_to_addr(&self.saturn.c);
                let pc: u32 = self.saturn.pc;
                Saturn::addr_to_dat(pc, &mut self.saturn.c);
                self.saturn.pc = jump;
                false
            } else {
                true
            }
        } else {
            self.adv(3);
            let reg: RegId = abcd(op3 % 4);
            self.saturn.shift_right_bit_register(reg, W_FIELD);
            false
        }
    }

    /// Writes the carry flag from one of the sixteen register tests of a
    /// test group: equality and zero tests when `eq_group`, ordered
    /// comparisons otherwise.
    fn reg_test(&mut self, eq_group: bool, code: u8, op3: u8)
        requires
            old(self).wf(),
            code < 19,
        ensures
            final(self).wf(),
            *final(self) == (Emulator {
                saturn: Saturn { carry: final(self).saturn.carry, ..old(self).saturn },
                ..*old(self)
            }),
    {
        let r: bool = if eq_group {
            if op3 % 16 < 4 {
                let (x, y) = test_pair(op3 % 4);
                self.saturn.is_equal_register(x, y, code)
            } else if op3 % 16 < 8 {
                let (x, y) = test_pair(op3 % 4);
                self.saturn.is_not_equal_register(x, y, code)
            } else if op3 % 16 < 0xc {
                self.saturn.is_zero_register(abcd(op3 % 4), code)
            } else {
                self.saturn.is_not_zero_register(abcd(op3 % 4), code)
            }
        } else {
            if op3 % 16 < 4 {
                let (x, y) = cmp_pair(op3 % 4);
                self.saturn.is_greater_register(x, y, code)
            } else if op3 % 16 < 8 {
                let (x, y) = cmp_pair(op3 % 4);
                self.saturn.is_less_register(x, y, code)
            } else if op3 % 16 < 0xc {
                let (x, y) = cmp_pair(op3 % 4);
                self.saturn.is_greater_or_equal_register(x, y, code)
            } else {
                let (x, y) = cmp_pair(op3 % 4);
                self.saturn.is_less_or_equal_register(x, y, code)
            }
        };
        self.saturn.carry = if r {
            1
        } else {
            0
        };
    }

    /// One add/decrement opcode of a register arithmetic group.
    fn reg_arith_a(&mut self, code: u8, op3: u8)
        requires
            old(self).wf(),
            code < 19,
        ensures
            final(self).wf(),
    {
        if op3 < 4 {
            let (d, x, y) = add_triple(op3 % 4);
            self.saturn.add_register(d, x, y, code);
        } else if op3 < 8 {
            let r: RegId = abcd(op3 % 4);
            self.saturn.add_register(r, r, r, code);
        } else if op3 < 0xc {
            let (d, x, y) = add_swapped(op3 % 4);
            self.saturn.add_register(d, x, y, code);
        } else {
            self.saturn.dec_register(abcd(op3 % 4), code);
        }
    }

    /// One zero/copy/exchange opcode of a register move group.
    fn reg_move_a(&mut self, code: u8, op3: u8)
        requires
            old(self).wf(),
            code < 19,
        ensures
            final(self).wf(),
    {
        if op3 < 4 {
            self.saturn.zero_register(abcd(op3 % 4), code);
        } else if op3 < 8 {
            let (x, y) = cmp_pair(op3 % 4);
            self.saturn.copy_register(x, y, code);
        } else if op3 < 0xc {
            let (d, _, y) = add_swapped(op3 % 4);
            self.saturn.copy_register(d, y, code);
        } else {
            let (x, y) = test_pair(op3 % 4);
            self.saturn.exchange_register(x, y, code);
        }
    }

    /// One subtract/increment opcode of a register arithmetic group.
    fn reg_arith_b(&mut self, code: u8, op3: u8)
        requires
            old(self).wf(),
            code < 19,
        ensures
            final(self).wf(),
    {
        if op3 < 4 {
            let (d, x, y) = add_triple(op3 % 4);
            self.saturn.sub_register(d, x, y, code);
        } else if op3 < 8 {
            self.saturn.inc_register(abcd(op3 % 4), code);
        } else if op3 < 0xc {
            let (d, x, y) = add_swapped(op3 % 4);
            self.saturn.sub_register(d, x, y, code);
        } else {
            let (d, x, y) = add_triple(op3 % 4);
            self.saturn.sub_register(d, y, d, code);
            let _ = x;
        }
    }

    /// One shift/complement opcode of a register shift group.
    fn reg_shift_b(&mut self, code: u8, op3: u8)
        requires
            old(self).wf(),
            code < 19,
        ensures
            final(self).wf(),
    {
        if op3 < 4 {
            self.saturn.shift_left_register(abcd(op3 % 4), code);
        } else if op3 < 8 {
            self.saturn.shift_right_register(abcd(op3 % 4), code);
        } else if op3 < 0xc {
            self.saturn.complement_2_register(abcd(op3 % 4), code);
        } else {
            self.saturn.complement_1_register(abcd(op3 % 4), code);
        }
    }

    /// Decodes and executes one instruction at PC.  Returns true when an
    /// illegal opcode stops the machine.
    #[verifier::rlimit(100)]
    #[verifier::spinoff_prover]
    pub fn step_instruction(&mut self) -> (stop: bool)
        requires
            old(self).wf(),
        ensures
            final(self).wf(),
            ({
                let pc0 = old(self).saturn.pc;
                let a1 = (((pc0 + 1) as int % 0x100000) as u32);
                let v0 = old(self).spec_read_value(pc0);
                let v1 = old(self).spec_read_value(a1);
                let p01 = old(self).spec_read_pure(pc0) && old(self).spec_read_pure(a1);
                let pc2 = ((pc0 + 2) % 0x100000) as u32;
                &&& (p01 && v0 == 2 ==> *final(self) == (Emulator {
                    saturn: Saturn { p: v1, pc: pc2, ..old(self).saturn },
                    ..*old(self)
                }))
                &&& (p01 && v0 == 0 && v1 == 4 ==> *final(self) == (Emulator {
                    saturn: Saturn { hexmode: 16u8, pc: pc2, ..old(self).saturn },
                    ..*old(self)
                }))
                &&& (p01 && v0 == 0 && v1 == 5 ==> *final(self) == (Emulator {
                    saturn: Saturn { hexmode: 10u8, pc: pc2, ..old(self).saturn },
                    ..*old(self)
                }))
                &&& (p01 && v0 == 0 && v1 == 1 && old(self).saturn.rstkp >= 0 ==> *final(self)
                    == (Emulator {
                    saturn: Saturn {
                        pc: old(self).saturn.rstk@[old(self).saturn.rstkp as int],
                        rstkp: (old(self).saturn.rstkp - 1) as i16,
                        ..old(self).saturn
                    },
                    ..*old(self)
                }))
                &&& (p01 && v0 == 0 && v1 == 1 && old(self).saturn.rstkp < 0 ==> *final(self)
                    == (Emulator {
                    saturn: Saturn { pc: 0u32, ..old(self).saturn },
                    ..*old(self)
                }))
                &&& (p01 && v0 == 0 && v1 == 2 && old(self).saturn.rstkp >= 0 ==> *final(self)
                    == (Emulator {
                    saturn: Saturn {
                        carry: 1u8,
                        pc: old(self).saturn.rstk@[old(self).saturn.rstkp as int],
                        rstkp: (old(self).saturn.rstkp - 1) as i16,
                        ..old(self).saturn
                    },
                    ..*old(self)
                }))
                &&& (p01 && v0 == 0 && v1 == 3 && old(self).saturn.rstkp >= 0 ==> *final(self)
                    == (Emulator {
                    saturn: Saturn {
                        carry: 0u8,
                        pc: old(self).saturn.rstk@[old(self).saturn.rstkp as int],
                        rstkp: (old(self).saturn.rstkp - 1) as i16,
                        ..old(self).saturn
                    },
                    ..*old(self)
                }))
                &&& (p01 && v0 == 0 && v1 == 0 && old(self).saturn.rstkp >= 0 ==> *final(self)
                    == (Emulator {
                    saturn: Saturn {
                        xm: 1u8,
                        pc: old(self).saturn.rstk@[old(self).saturn.rstkp as int],
                        rstkp: (old(self).saturn.rstkp - 1) as i16,
                        ..old(self).saturn
                    },
                    ..*old(self)
                }))
            }),
    {
        let pc0: u32 = self.saturn.pc;
        let op0: u8 = self.read_nibble(pc0);
        if op0 < 8 {
            self.decode_0_thru_7(op0)
        } else {
            self.decode_8_thru_f(op0)
        }
    }

    /// Decodes opcode roots 0 through 7: returns and mode controls, the 1xx
    /// group, P loads, constants into C and the short jumps.
    #[verifier::rlimit(100)]
    #[verifier::spinoff_prover]
    fn decode_0_thru_7(&mut self, op0: u8) -> (stop: bool)
        requires
            old(self).wf(),
            op0 < 8,
            old(self).spec_read_pure(old(self).saturn.pc) ==> op0 == old(self).spec_read_value(
                old(self).saturn.pc,
            ),
        ensures
            final(self).wf(),
            ({
                let pc0 = old(self).saturn.pc;
                let a1 = (((pc0 + 1) as int % 0x100000) as u32);
                let v0 = old(self).spec_read_value(pc0);
                let v1 = old(self).spec_read_value(a1);
                let p01 = old(self).spec_read_pure(pc0) && old(self).spec_read_pure(a1);
                let pc2 = ((pc0 + 2) % 0x100000) as u32;
                &&& (p01 && v0 == 2 ==> *final(self) == (Emulator {
                    saturn: Saturn { p: v1, pc: pc2, ..old(self).saturn },
                    ..*old(self)
                }))
                &&& (p01 && v0 == 0 && v1 == 4 ==> *final(self) == (Emulator {
                    saturn: Saturn { hexmode: 16u8, pc: pc2, ..old(self).saturn },
                    ..*old(self)
                }))
                &&& (p01 && v0 == 0 && v1 == 5 ==> *final(self) == (Emulator {
                    saturn: Saturn { hexmode: 10u8, pc: pc2, ..old(self).saturn },
                    ..*old(self)
                }))
                &&& (p01 && v0 == 0 && v1 == 1 && old(self).saturn.rstkp >= 0 ==> *final(self)
                    == (Emulator {
                    saturn: Saturn {
                        pc: old(self).saturn.rstk@[old(self).saturn.rstkp as int],
                        rstkp: (old(self).saturn.rstkp - 1) as i16,
                        ..old(self).saturn
                    },
                    ..*old(self)
                }))
                &&& (p01 && v0 == 0 && v1 == 1 && old(self).saturn.rstkp < 0 ==> *final(self)
                    == (Emulator {
                    saturn: Saturn { pc: 0u32, ..old(self).saturn },
                    ..*old(self)
                }))
                &&& (p01 && v0 == 0 && v1 == 2 && old(self).saturn.rstkp >= 0 ==> *final(self)
                    == (Emulator {
                    saturn: Saturn {
                        carry: 1u8,
                        pc: old(self).saturn.rstk@[old(self).saturn.rstkp as int],
                        rstkp: (old(self).saturn.rstkp - 1) as i16,
                        ..old(self).saturn
                    },
                    ..*old(self)
                }))
                &&& (p01 && v0 == 0 && v1 == 3 && old(self).saturn.rstkp >= 0 ==> *final(self)
                    == (Emulator {
                    saturn: Saturn {
                        carry: 0u8,
                        pc: old(self).saturn.rstk@[old(self).saturn.rstkp as int],
                        rstkp: (old(self).saturn.rstkp - 1) as i16,
                        ..old(self).saturn
                    },
                    ..*old(self)
                }))
                &&& (p01 && v0 == 0 && v1 == 0 && old(self).saturn.rstkp >= 0 ==> *final(self)
                    == (Emulator {
                    saturn: Saturn {
                        xm: 1u8,
                        pc: old(self).saturn.rstk@[old(self).saturn.rstkp as int],
                        rstkp: (old(self).saturn.rstkp - 1) as i16,
                        ..old(self).saturn
                    },
                    ..*old(self)
                }))
            }),
    {
        let pc0: u32 = self.saturn.pc;
        if op0 == 0 {
            let op1: u8 = self.read_nibble(pc0 + 1);
            if op1 == 0 {
                self.saturn.xm = 1;
                let a: u32 = self.saturn.pop_return_addr();
                self.saturn.pc = a;
                false
            } else if op1 == 1 {
                let a: u32 = self.saturn.pop_return_addr();
                self.saturn.pc = a;
                false
            } else if op1 == 2 {
                self.saturn.carry = 1;
                let a: u32 = self.saturn.pop_return_addr();
                self.saturn.pc = a;
                false
            } else if op1 == 3 {
                self.saturn.carry = 0;
                let a: u32 = self.saturn.pop_return_addr();
                self.saturn.pc = a;
                false
            } else if op1 == 4 {
                self.adv(2);
                self.saturn.hexmode = HEX;
                false
            } else if op1 == 5 {
                self.adv(2);
                self.saturn.hexmode = DEC;
                false
            } else if op1 == 6 {
                let a: u32 = Saturn::dat_to_addr(&self.saturn.c);
                self.saturn.push_return_addr(a);
                self.adv(2);
                false
            } else if op1 == 7 {
                self.adv(2);
                let a: u32 = self.saturn.pop_return_addr();
                Saturn::addr_to_dat(a, &mut self.saturn.c);
                false
            } else if op1 == 8 {
                self.adv(2);
                self.saturn.clear_status();
                false
            } else if op1 == 9 {
                self.adv(2);
                self.saturn.status_to_register(RegId::C);
                false
            } else if op1 == 0xa {
                self.adv(2);
                self.saturn.register_to_status(RegId::C);
                false
            } else if op1 == 0xb {
                self.adv(2);
                self.saturn.swap_register_status(RegId::C);
                false
            } else if op1 == 0xc {
                self.adv(2);
                if self.saturn.p == 0xf {
                    self.saturn.p = 0;
                    self.saturn.carry = 1;
                } else {
                    self.saturn.p = self.saturn.p + 1;
                    self.saturn.carry = 0;
                }
                false
            } else if op1 == 0xd {
                self.adv(2);
                if self.saturn.p == 0 {
                    self.saturn.p = 0xf;
                    self.saturn.carry = 1;
                } else {
                    self.saturn.p = self.saturn.p - 1;
                    self.saturn.carry = 0;
                }
                false
            } else if op1 == 0xe {
                let op2: u8 = self.read_nibble(pc0 + 2);
                let op3: u8 = self.read_nibble(pc0 + 3);
                self.adv(4);
                if op2 < 16 {
                    let (d, x, y) = add_triple(op3 % 8 % 4);
                    if op3 % 8 < 4 {
                        if op3 < 8 {
                            self.saturn.and_register(d, x, y, op2);
                        } else {
                            self.saturn.or_register(d, x, y, op2);
                        }
                    } else {
                        let (d2, x2, y2) = add_swapped(op3 % 4);
                        if op3 < 8 {
                            self.saturn.and_register(d2, x2, y2, op2);
                        } else {
                            self.saturn.or_register(d2, x2, y2, op2);
                        }
                    }
                }
                false
            } else {
                self.do_return_interrupt();
                false
            }
        } else if op0 == 1 {
            self.decode_group_1()
        } else if op0 == 2 {
            let op2: u8 = self.read_nibble(pc0 + 1);
            self.adv(2);
            self.saturn.p = op2 % 16;
            false
        } else if op0 == 3 {
            let op2: u8 = self.read_nibble(pc0 + 1);
            self.load_constant(RegId::C, (op2 + 1) as usize, (pc0 + 2) % 0x100000);
            self.adv(3 + op2 as u32);
            false
        } else if op0 == 4 {
            let op2: u32 = self.read_nibbles(pc0 + 1, 2);
            if op2 == 0x02 {
                self.adv(3);
            } else if self.saturn.carry != 0 {
                if op2 != 0 {
                    let disp: u32 = if op2 >= 0x80 {
                        op2 + 0x100000 - 0x100
                    } else {
                        op2
                    };
                    self.saturn.pc = (self.saturn.pc + disp + 1) % 0x100000;
                } else {
                    let a: u32 = self.saturn.pop_return_addr();
                    self.saturn.pc = a;
                }
            } else {
                self.adv(3);
            }
            false
        } else if op0 == 5 {
            if self.saturn.carry == 0 {
                let op2: u32 = self.read_nibbles(pc0 + 1, 2);
                if op2 != 0 {
                    let disp: u32 = if op2 >= 0x80 {
                        op2 + 0x100000 - 0x100
                    } else {
                        op2
                    };
                    self.saturn.pc = (self.saturn.pc + disp + 1) % 0x100000;
                } else {
                    let a: u32 = self.saturn.pop_return_addr();
                    self.saturn.pc = a;
                }
            } else {
                self.adv(3);
            }
            false
        } else if op0 == 6 {
            let op2: u32 = self.read_nibbles(pc0 + 1, 3);
            if op2 == 0x003 {
                self.adv(4);
                false
            } else if op2 == 0x004 {
                let op3: u32 = self.read_nibbles(self.saturn.pc + 4, 1);
                self.adv(5);
                op3 != 0
            } else {
                let disp: u32 = if op2 >= 0x800 {
                    op2 + 0x100000 - 0x1000
                } else {
                    op2
                };
                self.saturn.pc = (self.saturn.pc + disp + 1) % 0x100000;
                false
            }
        } else {
            let op2: u32 = self.read_nibbles(pc0 + 1, 3);
            let disp: u32 = if op2 >= 0x800 {
                op2 + 0x100000 - 0x1000
            } else {
                op2
            };
            let jump: u32 = (self.saturn.pc + disp + 4) % 0x100000;
            let ret: u32 = (self.saturn.pc + 4) % 0x100000;
            self.saturn.push_return_addr(ret);
            self.saturn.pc = jump;
            false
        }
    }
}

/// The working register that a two-bit opcode field selects.
fn abcd(k: u8) -> (r: RegId)
    requires
        k < 4,
{
    if k == 0 {
        RegId::A
    } else if k == 1 {
        RegId::B
    } else if k == 2 {
        RegId::C
    } else {
        RegId::D
    }
}

/// The operand pair of an equality test opcode.
fn test_pair(k: u8) -> (r: (RegId, RegId))
    requires
        k < 4,
{
    if k == 0 {
        (RegId::A, RegId::B)
    } else if k == 1 {
        (RegId::B, RegId::C)
    } else if k == 2 {
        (RegId::A, RegId::C)
    } else {
        (RegId::C, RegId::D)
    }
}

/// The operand pair of an ordered comparison opcode.
fn cmp_pair(k: u8) -> (r: (RegId, RegId))
    requires
        k < 4,
{
    if k == 0 {
        (RegId::A, RegId::B)
    } else if k == 1 {
        (RegId::B, RegId::C)
    } else if k == 2 {
        (RegId::C, RegId::A)
    } else {
        (RegId::D, RegId::C)
    }
}

/// The destination and operands of an add/sub/logic opcode.
fn add_triple(k: u8) -> (r: (RegId, RegId, RegId))
    requires
        k < 4,
{
    if k == 0 {
        (RegId::A, RegId::A, RegId::B)
    } else if k == 1 {
        (RegId::B, RegId::B, RegId::C)
    } else if k == 2 {
        (RegId::C, RegId::C, RegId::A)
    } else {
        (RegId::D, RegId::D, RegId::C)
    }
}

/// The destination and operands of the swapped-operand arithmetic opcodes.
fn add_swapped(k: u8) -> (r: (RegId, RegId, RegId))
    requires
        k < 4,
{
    if k == 0 {
        (RegId::B, RegId::B, RegId::A)
    } else if k == 1 {
        (RegId::C, RegId::C, RegId::B)
    } else if k == 2 {
        (RegId::A, RegId::A, RegId::C)
    } else {
        (RegId::C, RegId::C, RegId::D)
    }
}

} // verus!
