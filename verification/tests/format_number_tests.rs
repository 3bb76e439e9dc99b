use accounting::FormatNumber;
use accounting::Number;

fn num_f64(x: f64) -> Number {
    let d = rust_decimal::Decimal::from_f64_retain(x).unwrap();
    Number::Decimal {
        negative: d.is_sign_negative(),
        mantissa: d.mantissa().unsigned_abs(),
        scale: d.scale(),
    }
}

fn num_dec(d: rust_decimal::Decimal) -> Number {
    Number::Decimal {
        negative: d.is_sign_negative(),
        mantissa: d.mantissa().unsigned_abs(),
        scale: d.scale(),
    }
}

#[test]
fn format_number_int_test() {
    let x = -220300isize;
    assert_eq!(x.format_number(2, ",", "."), "-220,300.00");

    let x = 320300usize;
    assert_eq!(x.format_number(2, ",", "."), "320,300.00");
}

#[test]
fn format_number_float_test() {
    let x = 123456789.213123f64;
    assert_eq!(num_f64(x).format_number(2, ",", "."), "123,456,789.21");
}

#[test]
fn format_number_decimal_test() {
    let x = rust_decimal::Decimal::new(12345678921, 2);
    assert_eq!(num_dec(x).format_number(2, ",", "."), "123,456,789.21");

    let x = rust_decimal::Decimal::new(-123456789213, 3);
    assert_eq!(num_dec(x).format_number(2, ",", "."), "-123,456,789.21");
}
