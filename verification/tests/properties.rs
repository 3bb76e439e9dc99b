use accounting::locale_map;
use accounting::set_precision;
use accounting::Accounting;
use accounting::FormatNumber;
use accounting::Number;
use accounting::{unformat, UnformatError};

fn num_f64(x: f64) -> Number {
    let d = rust_decimal::Decimal::from_f64_retain(x).unwrap();
    Number::Decimal {
        negative: d.is_sign_negative(),
        mantissa: d.mantissa().unsigned_abs(),
        scale: d.scale(),
    }
}

#[test]
fn grouping_exact() {
    assert_eq!(1234567i32.format_number(0, ",", "."), "1,234,567");
    assert_eq!(1234567i32.format_number(2, ",", "."), "1,234,567.00");
    assert_eq!(999i32.format_number(0, ",", "."), "999");
    assert_eq!(1000i32.format_number(0, ",", "."), "1,000");
}

#[test]
fn negation_prefixes_minus() {
    assert_eq!(5000i64.format_number(2, ",", "."), "5,000.00");
    assert_eq!((-5000i64).format_number(2, ",", "."), "-5,000.00");
}

#[test]
fn sign_suppressed_when_rounding_to_zero() {
    // -0.004 rounds to zero at two digits: no minus sign.
    let tiny = Number::Decimal { negative: true, mantissa: 4, scale: 3 };
    assert_eq!(tiny.format_number(2, ",", "."), "0.00");
    // -0.005 rounds half away from zero to -0.01: the sign stays.
    let half = Number::Decimal { negative: true, mantissa: 5, scale: 3 };
    assert_eq!(half.format_number(2, ",", "."), "-0.01");
    // A negative zero renders without a sign.
    let negzero = Number::Decimal { negative: true, mantissa: 0, scale: 0 };
    assert_eq!(negzero.format_number(2, ",", "."), "0.00");
}

#[test]
fn custom_separators_have_distinct_roles() {
    assert_eq!(num_f64(123456789.213123).format_number(2, "'", "'"), "123'456'789'21");
    assert_eq!(1234567i32.format_number(0, " / ", "."), "1 / 234 / 567");
}

#[test]
fn empty_separators() {
    let ac = Accounting::new_from_seperator("X", 2, "", "");
    assert_eq!(ac.format_money(1234567), "X123456700");
}

#[test]
fn extreme_integers_group_fully() {
    assert_eq!(
        (i128::MIN).format_number(0, ",", "."),
        "-170,141,183,460,469,231,731,687,303,715,884,105,728"
    );
    assert_eq!(
        (u128::MAX).format_number(0, ",", "."),
        "340,282,366,920,938,463,463,374,607,431,768,211,455"
    );
}

#[test]
fn template_selection_end_to_end() {
    let mut ac = Accounting::new_from("$", 2);
    assert_eq!(ac.format_money(num_f64(-123456789.213123)), "-$123,456,789.21");
    assert_eq!(ac.format_money(0), "$0.00");
    ac.set_format("{v} {s}");
    assert_eq!(ac.format_money(num_f64(123456789.213123)), "123,456,789.21 $");
}

#[test]
fn zero_template_is_independent() {
    let mut ac = Accounting::new_from("$", 2);
    ac.set_format_zero("{s} --");
    assert_eq!(ac.format_money(0), "$ --");
    assert_eq!(ac.format_money(1), "$1.00");
    assert_eq!(ac.format_money(-1), "-$1.00");
}

#[test]
fn set_format_resets_negative_template() {
    let mut ac = Accounting::new_from("$", 2);
    ac.set_format_negative("{s}({v})");
    ac.set_format("{s} {v}");
    assert_eq!(ac.format_money(-1), "-$ 1.00");
}

#[test]
fn set_format_all_sets_all_three() {
    let mut ac = Accounting::new_from("$", 2);
    ac.set_format_all("{v}+{s}");
    assert_eq!(ac.format_money(1), "1.00+$");
    assert_eq!(ac.format_money(-1), "-1.00+$");
    assert_eq!(ac.format_money(0), "0.00+$");
}

#[test]
fn number_variants_format() {
    let ac = Accounting::new_from("$", 0);
    assert_eq!(ac.format_money(Number::Signed(-42)), "-$42");
    assert_eq!(ac.format_money(Number::Unsigned(7u128)), "$7");
    let half = Number::Decimal { negative: false, mantissa: 5, scale: 1 };
    assert_eq!(half.format_number(3, ",", "."), "0.500");
}

#[test]
fn deep_zero_padding() {
    assert_eq!(7i32.format_number(5, ",", "."), "7.00000");
}

#[test]
fn set_precision_rounds_half_away() {
    assert_eq!(set_precision("0.125", 2), "0.13");
    assert_eq!(set_precision("4500.2", 3), "4500.200");
    assert_eq!(set_precision(" 7 ", 0), "7");
    assert_eq!(set_precision("007.5", 1), "7.5");
    assert_eq!(set_precision("9.99", 1), "10.0");
    assert_eq!(set_precision("99.995", 2), "100.00");
    assert_eq!(set_precision("-0.004", 2), "-0.00");
}

#[test]
fn unformat_parse_errors() {
    assert_eq!(unformat("abc", 2, "USD"), Err(UnformatError::Parse));
    assert_eq!(unformat("1.2.3", 2, "USD"), Err(UnformatError::Parse));
    assert_eq!(unformat("", 2, "USD"), Err(UnformatError::Parse));
}

#[test]
fn unformat_strips_stray_text() {
    assert_eq!(unformat("US$ 4,5x00.23abc", 2, "USD"), Ok("4500.23".to_string()));
    assert_eq!(unformat("$1,000", 0, "usd"), Ok("1000".to_string()));
    assert_eq!(unformat("$5", 3, "USD"), Ok("5.000".to_string()));
}

#[test]
fn locale_map_lookup() {
    let usd = locale_map("USD").unwrap();
    assert_eq!(usd.name, "US Dollar");
    assert_eq!(usd.fraction_length, 2);
    assert_eq!(usd.thousands_seperator, ",");
    assert_eq!(usd.decimal_seperator, ".");
    assert_eq!(usd.common_symbol, "$");
    assert!(usd.is_pre);

    let eur = locale_map("EUR").unwrap();
    assert_eq!(eur.thousands_seperator, ".");
    assert_eq!(eur.decimal_seperator, ",");

    assert!(locale_map("ABC").is_none());
    assert!(locale_map("usd").is_none());
}

#[test]
fn locale_new_builds_record() {
    let lc = accounting::Locale::new("Testland Coin", 2, " ", ",", "", "", "", "T", false);
    assert_eq!(lc.name, "Testland Coin");
    assert_eq!(lc.fraction_length, 2);
    assert_eq!(lc.thousands_seperator, " ");
    assert_eq!(lc.decimal_seperator, ",");
    assert!(!lc.is_pre);
}
