//! The fixed-point arithmetic itself.

use arclib::fix::Fix32;

fn fix(bits: i32) -> Fix32 {
    Fix32 { bits }
}

#[test]
fn constants_and_conversions() {
    assert_eq!(Fix32::zero().bits, 0);
    assert_eq!(Fix32::one().bits, 65536);
    assert_eq!(Fix32::from_int(3).bits, 3 * 65536);
    assert_eq!(Fix32::from_int(-2).bits, -2 * 65536);
    assert_eq!(fix(3 * 65536 + 40000).to_int_floor(), 3);
    assert_eq!(fix(0).to_int_floor(), 0);
}

#[test]
fn addition_and_subtraction_are_exact() {
    assert_eq!(fix(300).plus(fix(-500)).bits, -200);
    assert_eq!(fix(300).minus(fix(500)).bits, -200);
    assert_eq!(fix(65536).plus(fix(65536)).bits, 131072);
}

#[test]
fn multiplication_floors() {
    // a half times a half is a quarter
    assert_eq!(fix(32768).times(fix(32768)).bits, 16384);
    // the smallest positive values truncate to nothing
    assert_eq!(fix(1).times(fix(1)).bits, 0);
    assert_eq!(fix(65536).times(fix(12345)).bits, 12345);
    // 0.75 * 1/3-ish
    assert_eq!(fix(49152).times(fix(21845)).bits, 49152 * 21845 / 65536);
}

#[test]
fn division_floors() {
    assert_eq!(fix(16384).divide(fix(32768)).bits, 32768);
    assert_eq!(fix(1).divide(fix(65536)).bits, 1);
    assert_eq!(fix(65536).divide(fix(3 * 65536)).bits, 21845);
    // anything divided by itself is exactly one
    assert_eq!(fix(12345).divide(fix(12345)).bits, 65536);
}

#[test]
fn min_max_and_wrap() {
    assert_eq!(fix(3).min_of(fix(-5)).bits, -5);
    assert_eq!(fix(3).max_of(fix(-5)).bits, 3);
    assert_eq!(fix(70000).wrap_unit().bits, 70000 - 65536);
    assert_eq!(fix(65536).wrap_unit().bits, 0);
    assert_eq!(fix(65535).wrap_unit().bits, 65535);
    assert_eq!(fix(2 * 65536).wrap_unit().bits, 65536);
}
