use gameboyo::alu::{alu_add, alu_daa, alu_dec, alu_inc, alu_sub};

// F bit masks: Z = 0x80, N = 0x40, H = 0x20, C = 0x10.

#[test]
fn add_sets_half_carry_only() {
    let r = alu_add(0x0F, 0x01, false);
    assert_eq!(r.val, 0x10);
    assert_eq!(r.f, 0x20);
}

#[test]
fn add_wraps_with_carry_and_zero() {
    let r = alu_add(0xFF, 0x01, false);
    assert_eq!(r.val, 0x00);
    assert_eq!(r.f, 0x80 + 0x20 + 0x10);
}

#[test]
fn adc_adds_the_carry_in() {
    let r = alu_add(0x01, 0x01, true);
    assert_eq!(r.val, 0x03);
    assert_eq!(r.f, 0x00);
}

#[test]
fn sub_borrows_through_zero() {
    let r = alu_sub(0x00, 0x01, false);
    assert_eq!(r.val, 0xFF);
    assert_eq!(r.f, 0x40 + 0x20 + 0x10);
}

#[test]
fn sub_equal_values_gives_zero() {
    let r = alu_sub(0x42, 0x42, false);
    assert_eq!(r.val, 0x00);
    assert_eq!(r.f, 0x80 + 0x40);
}

#[test]
fn inc_preserves_carry_flag() {
    let r = alu_inc(0x0F, 0x10);
    assert_eq!(r.val, 0x10);
    // H set (low nibble was 15), N clear, C preserved
    assert_eq!(r.f, 0x20 + 0x10);
}

#[test]
fn dec_sets_n_and_half_borrow() {
    let r = alu_dec(0x10, 0x00);
    assert_eq!(r.val, 0x0F);
    assert_eq!(r.f, 0x40 + 0x20);
}

#[test]
fn daa_corrects_a_bcd_addition() {
    // 15 + 27 = 42 in decimal
    let s = alu_add(0x15, 0x27, false);
    assert_eq!(s.val, 0x3C);
    let d = alu_daa(s.val, s.f);
    assert_eq!(d.val, 0x42);
    assert_eq!(d.f & 0x10, 0);
    assert_eq!(d.f & 0x40, 0);
}

#[test]
fn daa_reports_the_decimal_carry() {
    // 99 + 1 = 100: result 00 with a decimal carry
    let s = alu_add(0x99, 0x01, false);
    let d = alu_daa(s.val, s.f);
    assert_eq!(d.val, 0x00);
    assert!(d.f & 0x10 != 0);
    assert!(d.f & 0x80 != 0);
}

#[test]
fn daa_corrects_a_bcd_subtraction() {
    // 42 - 15 = 27 in decimal
    let s = alu_sub(0x42, 0x15, false);
    assert_eq!(s.val, 0x2D);
    let d = alu_daa(s.val, s.f);
    assert_eq!(d.val, 0x27);
    assert!(d.f & 0x40 != 0);
    assert_eq!(d.f & 0x10, 0);
}

#[test]
fn daa_corrects_a_bcd_borrow() {
    // 10 - 25 = -15, which reads 85 with a decimal borrow
    let s = alu_sub(0x10, 0x25, false);
    let d = alu_daa(s.val, s.f);
    assert_eq!(d.val, 0x85);
    assert!(d.f & 0x10 != 0);
}

#[test]
fn inc_then_dec_restores_value_but_flags_differ() {
    let i = alu_inc(0x42, 0x00);
    assert_eq!(i.val, 0x43);
    assert_eq!(i.f & 0x40, 0);
    let d = alu_dec(i.val, i.f);
    assert_eq!(d.val, 0x42);
    assert!(d.f & 0x40 != 0);
}

#[test]
fn inc_then_dec_restores_across_the_wrap() {
    let i = alu_inc(0xFF, 0x00);
    assert_eq!(i.val, 0x00);
    assert!(i.f & 0x80 != 0);
    let d = alu_dec(i.val, i.f);
    assert_eq!(d.val, 0xFF);
    assert_eq!(d.f & 0x80, 0);
}
