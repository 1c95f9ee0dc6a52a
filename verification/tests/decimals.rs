use storefront::decimal::Decimal;
use storefront::text::{contains_bytes, integer_to_text, natural_to_text, same_text};

#[test]
fn decimal_zero_has_no_fractional_digits() {
    assert_eq!(Decimal::zero(), Decimal::new(0, 0));
}

#[test]
fn decimal_times_keeps_the_scale() {
    assert_eq!(Decimal::new(1999, 2).checked_mul_int(3), Some(Decimal::new(5997, 2)));
    assert_eq!(Decimal::new(1999, 2).checked_mul_int(0), Some(Decimal::new(0, 2)));
    assert_eq!(Decimal::new(1999, 2).checked_mul_int(-1), Some(Decimal::new(-1999, 2)));
}

#[test]
fn decimal_times_refuses_what_it_cannot_hold() {
    assert_eq!(Decimal::new(i128::MAX, 0).checked_mul_int(2), None);
    assert_eq!(Decimal::new(i128::MIN, 0).checked_mul_int(-1), None);
    assert_eq!(Decimal::new(i128::MAX, 0).checked_mul_int(1), Some(Decimal::new(i128::MAX, 0)));
}

#[test]
fn decimal_sum_takes_the_longer_scale() {
    assert_eq!(Decimal::new(15, 1).checked_add(Decimal::new(25, 2)), Some(Decimal::new(175, 2)));
    assert_eq!(Decimal::new(25, 2).checked_add(Decimal::new(15, 1)), Some(Decimal::new(175, 2)));
    assert_eq!(Decimal::zero().checked_add(Decimal::new(2000, 2)), Some(Decimal::new(2000, 2)));
    assert_eq!(Decimal::new(1, 0).checked_add(Decimal::new(-1, 3)), Some(Decimal::new(999, 3)));
}

#[test]
fn decimal_sum_refuses_what_it_cannot_hold() {
    assert_eq!(Decimal::new(i128::MAX, 0).checked_add(Decimal::new(1, 0)), None);
    assert_eq!(Decimal::new(i128::MAX, 0).checked_add(Decimal::new(0, 1)), None);
    assert_eq!(Decimal::new(1, 0).checked_add(Decimal::new(1, 60)), None);
}

#[test]
fn decimal_zero_takes_any_scale() {
    assert_eq!(Decimal::new(0, 0).checked_add(Decimal::new(7, 4_000_000_000)), Some(Decimal::new(7, 4_000_000_000)));
}

#[test]
fn numbers_are_written_in_decimal() {
    assert_eq!(natural_to_text(0), "0");
    assert_eq!(natural_to_text(7), "7");
    assert_eq!(natural_to_text(10), "10");
    assert_eq!(natural_to_text(1234567890), "1234567890");
    assert_eq!(natural_to_text(u64::MAX), "18446744073709551615");
    assert_eq!(integer_to_text(0), "0");
    assert_eq!(integer_to_text(-1), "-1");
    assert_eq!(integer_to_text(-305), "-305");
    assert_eq!(integer_to_text(i64::MAX), "9223372036854775807");
    assert_eq!(integer_to_text(i64::MIN), "-9223372036854775808");
}

#[test]
fn text_is_compared_by_its_characters() {
    assert!(same_text("vendor", "vendor"));
    assert!(!same_text("vendor", "Vendor"));
    assert!(!same_text("vendor", "vendors"));
    assert!(same_text("", ""));
}

#[test]
fn bytes_are_found_where_they_stand() {
    assert!(contains_bytes(b"abcabd", b"abd"));
    assert!(contains_bytes(b"abcabd", b"abc"));
    assert!(contains_bytes(b"abcabd", b""));
    assert!(contains_bytes(b"", b""));
    assert!(!contains_bytes(b"abcabd", b"abe"));
    assert!(!contains_bytes(b"ab", b"abc"));
    assert!(contains_bytes(b"aab", b"ab"));
}
