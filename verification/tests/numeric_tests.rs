use sig_viewer::numeric::Fixed;
use sig_viewer::numeric::FIXED_SCALE;
use sig_viewer::numeric::duration_fixed;
use sig_viewer::numeric::parse_i64;

#[test]
fn parses_plain_integer() {
    assert_eq!(Fixed::from_text("5"), Some(Fixed::from_units(5_000_000_000)));
}

#[test]
fn parses_fraction() {
    assert_eq!(Fixed::from_text("0.5"), Some(Fixed::from_units(500_000_000)));
    assert_eq!(Fixed::from_text("2.25"), Some(Fixed::from_units(2_250_000_000)));
}

#[test]
fn parses_signs() {
    assert_eq!(Fixed::from_text("-3.2"), Some(Fixed::from_units(-3_200_000_000)));
    assert_eq!(Fixed::from_text("+7"), Some(Fixed::from_units(7_000_000_000)));
}

#[test]
fn parses_dot_edge_forms() {
    assert_eq!(Fixed::from_text(".5"), Some(Fixed::from_units(500_000_000)));
    assert_eq!(Fixed::from_text("5."), Some(Fixed::from_units(5_000_000_000)));
    assert_eq!(Fixed::from_text("."), None);
    assert_eq!(Fixed::from_text(""), None);
    assert_eq!(Fixed::from_text("-"), None);
}

#[test]
fn truncates_beyond_nine_fraction_digits() {
    // The tenth fraction digit is dropped, not rounded.
    assert_eq!(Fixed::from_text("0.1234567899"), Some(Fixed::from_units(123_456_789)));
}

#[test]
fn rejects_non_numeric_text() {
    assert_eq!(Fixed::from_text("abc"), None);
    assert_eq!(Fixed::from_text("1.2.3"), None);
    assert_eq!(Fixed::from_text("1e9"), None);
    assert_eq!(Fixed::from_text("5 "), None);
}

#[test]
fn rejects_overflowing_magnitude() {
    // Far more than i128::MAX units.
    let huge = "9".repeat(60);
    assert_eq!(Fixed::from_text(&huge), None);
}

#[test]
fn fixed_ordering() {
    let a = Fixed::from_units(1);
    let b = Fixed::from_units(2);
    assert!(b.ge(&a));
    assert!(!a.ge(&b));
    assert!(a.ge(&a));
}

#[test]
fn duration_divides_samples_by_rate() {
    // 48000 samples at 48000 Hz is exactly one second.
    let rate = Fixed::from_units(48_000 * FIXED_SCALE);
    assert_eq!(duration_fixed(48_000, rate), Fixed::from_units(FIXED_SCALE));
    // 24000 samples at 48000 Hz is half a second.
    assert_eq!(duration_fixed(24_000, rate), Fixed::from_units(500_000_000));
}

#[test]
fn duration_zero_for_nonpositive_rate() {
    assert_eq!(duration_fixed(1000, Fixed::from_units(0)), Fixed::from_units(0));
    assert_eq!(duration_fixed(1000, Fixed::from_units(-5)), Fixed::from_units(0));
}

#[test]
fn parses_i64_values() {
    assert_eq!(parse_i64("0"), Some(0));
    assert_eq!(parse_i64("42"), Some(42));
    assert_eq!(parse_i64("-17"), Some(-17));
    assert_eq!(parse_i64("+8"), Some(8));
    assert_eq!(parse_i64("9223372036854775807"), Some(i64::MAX));
    assert_eq!(parse_i64("-9223372036854775808"), Some(i64::MIN));
}

#[test]
fn rejects_bad_i64_text() {
    assert_eq!(parse_i64(""), None);
    assert_eq!(parse_i64("-"), None);
    assert_eq!(parse_i64("1.5"), None);
    assert_eq!(parse_i64("x"), None);
    assert_eq!(parse_i64("9223372036854775808"), None);
    assert_eq!(parse_i64("-9223372036854775809"), None);
}
