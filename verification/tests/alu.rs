//! Flag-exact behavior of the ALU family, exercised through the handlers.

use vb_core::cpu::Cpu;
use vb_core::bus::Bus;
use vb_core::errors::EmuError;

fn machine() -> (Cpu, Bus) {
    let rom = vec![0u8; 16];
    (Cpu::new(), Bus::new(rom).unwrap())
}

/// Encode a two-register-field instruction body: reg2 in bits 5-9, reg1 in
/// bits 0-4 (the opcode bits are ignored by direct handler calls).
fn rr(reg2: u16, reg1: u16) -> u16 {
    (reg2 << 5) | reg1
}

#[test]
fn add_carry_and_zero() {
    let (mut cpu, mut bus) = machine();
    cpu.regs.gprs[1] = 0xFFFF_FFFF;
    cpu.regs.gprs[2] = 1;
    cpu.add_reg(&mut bus, rr(2, 1));
    assert_eq!(cpu.regs.gprs[2], 0);
    assert!(cpu.regs.psw.carry());
    assert!(cpu.regs.psw.zero());
    assert!(!cpu.regs.psw.overflow());
    assert!(!cpu.regs.psw.sign());
}

#[test]
fn add_signed_overflow() {
    let (mut cpu, mut bus) = machine();
    cpu.regs.gprs[1] = 0x7FFF_FFFF;
    cpu.regs.gprs[2] = 1;
    cpu.add_reg(&mut bus, rr(2, 1));
    assert_eq!(cpu.regs.gprs[2], 0x8000_0000);
    assert!(!cpu.regs.psw.carry());
    assert!(!cpu.regs.psw.zero());
    assert!(cpu.regs.psw.overflow());
    assert!(cpu.regs.psw.sign());
}

#[test]
fn add_plain() {
    let (mut cpu, mut bus) = machine();
    cpu.regs.gprs[3] = 40;
    cpu.regs.gprs[4] = 2;
    cpu.add_reg(&mut bus, rr(4, 3));
    assert_eq!(cpu.regs.gprs[4], 42);
    assert!(!cpu.regs.psw.carry());
    assert!(!cpu.regs.psw.zero());
    assert!(!cpu.regs.psw.overflow());
    assert!(!cpu.regs.psw.sign());
}

#[test]
fn addi_short_sign_extends() {
    let (mut cpu, mut bus) = machine();
    cpu.regs.gprs[2] = 5;
    // Immediate field 0b11111 is -1 after sign extension.
    cpu.addi_short(&mut bus, rr(2, 0x1F));
    assert_eq!(cpu.regs.gprs[2], 4);
    assert!(cpu.regs.psw.carry());
}

#[test]
fn cmp_reg_sets_borrow_and_sign() {
    let (mut cpu, mut bus) = machine();
    cpu.regs.gprs[2] = 1;
    cpu.regs.gprs[1] = 2;
    let before = cpu.regs.gprs;
    cpu.cmp_reg(&mut bus, rr(2, 1));
    // The difference is discarded; only flags change.
    assert_eq!(cpu.regs.gprs, before);
    assert!(cpu.regs.psw.carry());
    assert!(cpu.regs.psw.sign());
    assert!(!cpu.regs.psw.zero());
    assert!(!cpu.regs.psw.overflow());
}

#[test]
fn cmp_imm_equal_sets_zero() {
    let (mut cpu, mut bus) = machine();
    cpu.regs.gprs[2] = 3;
    cpu.cmp_imm(&mut bus, rr(2, 3));
    assert!(cpu.regs.psw.zero());
    assert!(!cpu.regs.psw.carry());
    assert!(!cpu.regs.psw.sign());
}

#[test]
fn div_overflow_case() {
    // Minimum signed value divided by minus one: overflow is flagged and
    // the wrapping quotient and the unsigned remainder are written.
    let (mut cpu, _bus) = machine();
    cpu.regs.gprs[2] = 0x8000_0000;
    cpu.regs.gprs[1] = 0xFFFF_FFFF;
    cpu.div(rr(2, 1)).unwrap();
    assert_eq!(cpu.regs.gprs[2], 0x8000_0000);
    assert_eq!(cpu.regs.gprs[30], 0x8000_0000);
    assert!(cpu.regs.psw.overflow());
    assert!(cpu.regs.psw.sign());
    assert!(!cpu.regs.psw.zero());
}

#[test]
fn div_by_zero_is_fault() {
    let (mut cpu, _bus) = machine();
    cpu.regs.gprs[2] = 7;
    cpu.regs.gprs[1] = 0;
    assert_eq!(cpu.div(rr(2, 1)), Err(EmuError::DivisionByZero));
    // The fault leaves the registers untouched.
    assert_eq!(cpu.regs.gprs[2], 7);
}

#[test]
fn div_truncates_toward_zero() {
    let (mut cpu, _bus) = machine();
    cpu.regs.gprs[2] = 7;
    cpu.regs.gprs[1] = 0xFFFF_FFFE; // -2
    cpu.div(rr(2, 1)).unwrap();
    assert_eq!(cpu.regs.gprs[2], 0xFFFF_FFFD); // -3
    assert_eq!(cpu.regs.gprs[30], 7 % 0xFFFF_FFFEu32);
    assert!(!cpu.regs.psw.overflow());
}

#[test]
fn mul_signed_64_bit_product() {
    let (mut cpu, _bus) = machine();
    cpu.regs.gprs[2] = 0xFFFF_FFFE; // -2
    cpu.regs.gprs[1] = 3;
    cpu.mul(rr(2, 1));
    // -6 as a 64-bit two's-complement value.
    assert_eq!(cpu.regs.gprs[2], 0xFFFF_FFFA);
    assert_eq!(cpu.regs.gprs[30], 0xFFFF_FFFF);
}

#[test]
fn mul_large_positive_product() {
    let (mut cpu, _bus) = machine();
    cpu.regs.gprs[2] = 0x8000_0000;
    cpu.regs.gprs[1] = 0x8000_0000;
    cpu.mul(rr(2, 1));
    // (-2^31) * (-2^31) = 2^62.
    assert_eq!(cpu.regs.gprs[2], 0);
    assert_eq!(cpu.regs.gprs[30], 0x4000_0000);
}

#[test]
fn mov_imm_and_mov_reg() {
    let (mut cpu, mut bus) = machine();
    cpu.mov_imm(&mut bus, rr(4, 0x10)); // immediate -16
    assert_eq!(cpu.regs.gprs[4], 0xFFFF_FFF0);
    cpu.mov_reg(&mut bus, rr(5, 4));
    assert_eq!(cpu.regs.gprs[5], 0xFFFF_FFF0);
}

#[test]
fn sei_sets_irqs_disabled() {
    let (mut cpu, _bus) = machine();
    assert!(!cpu.regs.psw.irqs_disabled());
    cpu.sei();
    assert!(cpu.regs.psw.irqs_disabled());
}
