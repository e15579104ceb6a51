use branch_cleanup::text::{push_decimal, to_decimal};

#[test]
fn decimal_of_single_digits() {
    assert_eq!(to_decimal(0), "0");
    assert_eq!(to_decimal(7), "7");
    assert_eq!(to_decimal(9), "9");
}

#[test]
fn decimal_of_longer_numbers() {
    assert_eq!(to_decimal(10), "10");
    assert_eq!(to_decimal(42), "42");
    assert_eq!(to_decimal(100), "100");
    assert_eq!(to_decimal(1234567890), "1234567890");
}

#[test]
fn decimal_agrees_with_the_standard_rendering() {
    for n in 0..2000usize {
        assert_eq!(to_decimal(n), n.to_string());
    }
    assert_eq!(to_decimal(usize::MAX), usize::MAX.to_string());
}

#[test]
fn push_decimal_appends() {
    let mut out = String::from("count: ");
    push_decimal(&mut out, 305);
    assert_eq!(out, "count: 305");
    push_decimal(&mut out, 0);
    assert_eq!(out, "count: 3050");
}
