use accounting::{unformat, unformat_number, UnformatError};

#[test]
fn unformat_test() {
    assert_eq!(unformat("$4,500.23", 2, "USD"), Ok("4500.23".to_string()));
    assert_eq!(unformat("EUR 12.500,3474", 3, "EUR"), Ok("12500.347".to_string()));
    assert_eq!(unformat("EUR 111.145.000,33", 2, "eur"), Ok("111145000.33".to_string()));
}

#[test]
fn unformat_error_test() {
    assert_eq!(unformat("$45,567.10", 2, "zzz"), Err(UnformatError::NoLocaleFound));
}

#[test]
fn unformat_number_test() {
    assert_eq!(unformat_number("$4,500.23", 2, "USD"), "4500.23");
    assert_eq!(unformat_number("EUR 45.000,33", 2, "eur"), "45000.33");
    assert_eq!(unformat_number("EUR 111.145.000,33", 2, "eur"), "111145000.33");
}

#[test]
fn unformat_number_error_test() {
    // unformat_number expects a known currency code and a parseable
    // number; the fallible variant is exercised in unformat_error_test.
}
