//! The panicking variant of the unformat path: `unformat_number` expects a
//! known currency code and a cleanable number, and `set_precision`
//! re-renders a plain decimal string at a fixed precision.

use vstd::prelude::*;
use vstd::pervasive::unreached;

use crate::chars::{chars_to_string, str_to_chars, to_ascii_upper, trim_chars, trim_spaces, upper_chars};
use crate::digits::digits_val;
use crate::fixed::{parse_number, render_fixed, spec_fixed_output, spec_parse_number};
use crate::locale::{locale_map, spec_locale_map, Locale};
use crate::unformat_money::{clean_chars, spec_clean};

verus! {

/// Re-render a plain decimal string at `precision` fractional digits,
/// rounding half away from zero.
pub fn set_precision(num: &str, precision: usize) -> (r: String)
    requires
        spec_parse_number(trim_spaces(num@)) is Some,
    ensures
        ({
            let t = spec_parse_number(trim_spaces(num@))->0;
            r@ == spec_fixed_output(
                t.0,
                digits_val(t.1 + t.2),
                t.2.len() as nat,
                precision as nat,
            )
        }),
{
    let chars = str_to_chars(num);
    let trimmed = trim_chars(&chars);
    match parse_number(&trimmed) {
        Some((neg, ipart, fpart)) => {
            let out = render_fixed(neg, &ipart, &fpart, precision);
            chars_to_string(&out)
        },
        None => unreached(),
    }
}

/// Strip currency formatting off `n` using the locale of `currency`
/// (case-insensitive) and render the number at `precision` fractional
/// digits. The currency code must be in the locale table and the cleaned
/// text must be a plain decimal number.
pub fn unformat_number(n: &str, precision: usize, currency: &str) -> (r: String)
    requires
        spec_locale_map(upper_chars(currency@)) is Some,
        spec_parse_number(
            spec_clean(n@, spec_locale_map(upper_chars(currency@))->0),
        ) is Some,
    ensures
        ({
            let lc = spec_locale_map(upper_chars(currency@))->0;
            let t = spec_parse_number(spec_clean(n@, lc))->0;
            r@ == spec_fixed_output(
                t.0,
                digits_val(t.1 + t.2),
                t.2.len() as nat,
                precision as nat,
            )
        }),
{
    let upper = to_ascii_upper(currency);
    let lc: Locale = match locale_map(upper.as_str()) {
        Some(l) => l,
        None => unreached(),
    };
    let cleaned = clean_chars(n, &lc);
    match parse_number(&cleaned) {
        Some((neg, ipart, fpart)) => {
            let out = render_fixed(neg, &ipart, &fpart, precision);
            chars_to_string(&out)
        },
        None => unreached(),
    }
}

} // verus!
