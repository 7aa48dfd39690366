use saturn48::alu::RegId;
use saturn48::cpu::Saturn;
use saturn48::types::{DEC, HEX, P_FIELD, W_FIELD};

#[test]
fn test_add_register_hex() {
    let mut sat = Saturn::default();
    sat.hexmode = HEX;
    sat.a = [0x5, 0, 0, 0, 0, 0, 0, 0, 0, 0, 0, 0, 0, 0, 0, 0];
    sat.b = [0x3, 0, 0, 0, 0, 0, 0, 0, 0, 0, 0, 0, 0, 0, 0, 0];
    sat.add_register(RegId::A, RegId::A, RegId::B, W_FIELD);
    assert_eq!(sat.a[0], 0x8);
    assert_eq!(sat.carry, 0);
}

#[test]
fn test_add_register_hex_carry() {
    let mut sat = Saturn::default();
    sat.hexmode = HEX;
    sat.a = [0xf; 16];
    sat.b = [1, 0, 0, 0, 0, 0, 0, 0, 0, 0, 0, 0, 0, 0, 0, 0];
    sat.add_register(RegId::A, RegId::A, RegId::B, W_FIELD);
    assert_eq!(sat.a, [0, 0, 0, 0, 0, 0, 0, 0, 0, 0, 0, 0, 0, 0, 0, 0]);
    assert_eq!(sat.carry, 1);
}

#[test]
fn test_add_register_dec() {
    let mut sat = Saturn::default();
    sat.hexmode = DEC;
    sat.a = [7, 0, 0, 0, 0, 0, 0, 0, 0, 0, 0, 0, 0, 0, 0, 0];
    sat.b = [5, 0, 0, 0, 0, 0, 0, 0, 0, 0, 0, 0, 0, 0, 0, 0];
    sat.add_register(RegId::A, RegId::A, RegId::B, W_FIELD);
    assert_eq!(sat.a[0], 2);
    assert_eq!(sat.a[1], 1);
    assert_eq!(sat.carry, 0);
}

#[test]
fn test_sub_register() {
    let mut sat = Saturn::default();
    sat.hexmode = HEX;
    sat.a = [5, 0, 0, 0, 0, 0, 0, 0, 0, 0, 0, 0, 0, 0, 0, 0];
    sat.b = [3, 0, 0, 0, 0, 0, 0, 0, 0, 0, 0, 0, 0, 0, 0, 0];
    sat.sub_register(RegId::A, RegId::A, RegId::B, W_FIELD);
    assert_eq!(sat.a[0], 2);
    assert_eq!(sat.carry, 0);
}

#[test]
fn test_sub_register_borrow() {
    let mut sat = Saturn::default();
    sat.hexmode = HEX;
    sat.a = [3, 0, 0, 0, 0, 0, 0, 0, 0, 0, 0, 0, 0, 0, 0, 0];
    sat.b = [5, 0, 0, 0, 0, 0, 0, 0, 0, 0, 0, 0, 0, 0, 0, 0];
    sat.sub_register(RegId::A, RegId::A, RegId::B, W_FIELD);
    assert_eq!(sat.a[0], 0xe);
    assert_eq!(sat.a[1], 0xf);
    assert_eq!(sat.carry, 1);
}

#[test]
fn test_shift_right_register() {
    let mut sat = Saturn::default();
    sat.a = [1, 2, 3, 4, 5, 6, 7, 8, 9, 0xa, 0xb, 0xc, 0xd, 0xe, 0xf, 0];
    sat.shift_right_register(RegId::A, W_FIELD);
    assert_eq!(sat.a[0], 2);
    assert_eq!(sat.a[14], 0);
    assert_eq!(sat.a[15], 0);
    assert_eq!(sat.sb, 1);
}

#[test]
fn test_is_less_register() {
    let mut sat = Saturn::default();
    sat.a = [5, 0, 0, 0, 0, 0, 0, 0, 0, 0, 0, 0, 0, 0, 0, 0];
    sat.b = [6, 0, 0, 0, 0, 0, 0, 0, 0, 0, 0, 0, 0, 0, 0, 0];
    assert!(sat.is_less_register(RegId::A, RegId::B, W_FIELD));
    assert!(!sat.is_less_register(RegId::B, RegId::A, W_FIELD));
    assert!(!sat.is_less_register(RegId::A, RegId::A, W_FIELD));
}

#[test]
fn test_p_field() {
    let mut sat = Saturn::default();
    sat.p = 3;
    sat.a = [0, 0, 0, 5, 0, 0, 0, 0, 0, 0, 0, 0, 0, 0, 0, 0];
    sat.inc_register(RegId::A, P_FIELD);
    assert_eq!(sat.a[3], 6);
}

#[test]
fn test_return_stack_overflow() {
    let mut sat = Saturn::default();
    for k in 0..9u32 {
        sat.push_return_addr(0x1000 + k);
    }
    assert_eq!(sat.rstkp, 7);
    assert_eq!(sat.rstk[0], 0x1001);
    assert_eq!(sat.rstk[7], 0x1008);
    let popped = sat.pop_return_addr();
    assert_eq!(popped, 0x1008);
    assert_eq!(sat.rstkp, 6);
}

#[test]
fn test_crc_step_formula() {
    let mut sat = Saturn::default();
    sat.crc = 0x1234;
    let n = saturn48::memory::calc_crc(&mut sat, 0x7);
    assert_eq!(n, 0x7);
    let expected = (0x1234u16 >> 4) ^ (((0x1234u16 ^ 0x7) & 0xf) * 0x1081);
    assert_eq!(sat.crc, expected);
}
