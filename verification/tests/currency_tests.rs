use travel_core::currency::format_currency;

#[test]
fn currency_grouping_large() {
    assert_eq!(format_currency(1234567), "¥1,234,567");
}

#[test]
fn currency_zero() {
    assert_eq!(format_currency(0), "¥0");
}

#[test]
fn currency_three_digits() {
    assert_eq!(format_currency(100), "¥100");
}

#[test]
fn currency_four_digits() {
    assert_eq!(format_currency(1000), "¥1,000");
}

#[test]
fn currency_exact_groups() {
    assert_eq!(format_currency(123456), "¥123,456");
}

#[test]
fn currency_negative() {
    assert_eq!(format_currency(-1234), "¥-1,234");
}

#[test]
fn currency_extreme_values() {
    assert_eq!(format_currency(i32::MAX), "¥2,147,483,647");
    assert_eq!(format_currency(i32::MIN), "¥-2,147,483,648");
}
