//! The packed status word: pack/unpack layout and the 16-way condition
//! table.

use vb_core::psw::Psw;

#[test]
fn reset_value_layout() {
    let p = Psw::new();
    assert_eq!(p.raw(), 0x0000_8000);
    assert!(p.nmi_pending);
    assert!(!p.zero());
    assert!(!p.irqs_disabled());
}

#[test]
fn raw_round_trip_drops_reserved_bits() {
    let mut p = Psw::new();
    p.set_raw(0xFFFF_FFFF);
    // Bits 10, 11 and 20 to 31 are reserved and read back as zero.
    assert_eq!(p.raw(), 0x000F_F3FF);
    assert_eq!(p.int_level, 0xF);
    p.set_raw(0x0000_0001);
    assert_eq!(p.raw(), 1);
    assert!(p.zero());
    assert!(!p.sign());
}

#[test]
fn set_raw_unpacks_each_flag() {
    let mut p = Psw::new();
    p.set_raw(0x0000_100A);
    assert!(!p.zero());
    assert!(p.sign());
    assert!(!p.overflow());
    assert!(p.carry());
    assert!(p.irqs_disabled());
    assert!(!p.nmi_pending);
}

#[test]
fn set_sign_and_zero_follows_result() {
    let mut p = Psw::new();
    p.set_sign_and_zero(0);
    assert!(p.zero() && !p.sign());
    p.set_sign_and_zero(0x8000_0000);
    assert!(!p.zero() && p.sign());
    p.set_sign_and_zero(1);
    assert!(!p.zero() && !p.sign());
}

#[test]
fn condition_table_flag_rows() {
    let mut p = Psw::new();
    p.set_raw(0); // all flags clear
    let expected = [
        false, false, false, false, false, true, false, false, true, true, true, true, true,
        false, true, true,
    ];
    for cond in 0..16u16 {
        assert_eq!(p.satisfies_cond(cond), expected[cond as usize], "cond {}", cond);
    }
}

#[test]
fn condition_table_signed_orderings_use_xor() {
    let mut p = Psw::new();
    // Overflow and sign both set: V xor S is false, so the less-than
    // condition does not hold and its negation does.
    p.set_raw(0b0110); // overflow + sign
    assert!(!p.satisfies_cond(6));
    assert!(!p.satisfies_cond(7));
    assert!(p.satisfies_cond(14));
    assert!(p.satisfies_cond(15));
    // Only overflow set: V xor S holds.
    p.set_raw(0b0100);
    assert!(p.satisfies_cond(6));
    assert!(p.satisfies_cond(7));
    assert!(!p.satisfies_cond(14));
    assert!(!p.satisfies_cond(15));
}

#[test]
fn condition_table_zero_and_carry_combos() {
    let mut p = Psw::new();
    p.set_raw(0b1001); // carry + zero
    assert!(p.satisfies_cond(1));
    assert!(p.satisfies_cond(2));
    assert!(p.satisfies_cond(3));
    assert!(!p.satisfies_cond(9));
    assert!(!p.satisfies_cond(10));
    assert!(!p.satisfies_cond(11));
    // The less-or-equal row includes zero even without overflow or sign.
    assert!(p.satisfies_cond(7));
    assert!(!p.satisfies_cond(15));
}
