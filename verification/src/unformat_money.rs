//! Strip currency formatting off a string and return the plain numeric
//! string: every character that is not a digit, minus, dot, comma or space
//! is removed, the locale's thousands separator is dropped, its decimal
//! separator is normalised to a dot, and the remainder is re-rendered at
//! the requested precision.

use vstd::prelude::*;

use crate::chars::{
    chars_to_string, is_digit_char, replace_all, replace_chars, str_eq, str_to_chars,
    to_ascii_upper, trim_chars, trim_spaces, upper_chars,
};
use crate::digits::digits_val;
use crate::fixed::{parse_number, render_fixed, spec_fixed_output, spec_parse_number};
use crate::locale::{locale_map, spec_locale_map, Locale, LocaleView};

verus! {

/// Why unformatting failed: the currency code is not in the locale table,
/// or the cleaned text is not a plain decimal number.
#[derive(Debug, PartialEq, Eq)]
pub enum UnformatError {
    NoLocaleFound,
    Parse,
}

impl UnformatError {
    /// A short description of the failure.
    pub fn message(&self) -> (r: String)
        ensures
            r@ == (match *self {
                UnformatError::NoLocaleFound => "no locale info found"@,
                UnformatError::Parse => "could not parse a number"@,
            }),
    {
        match self {
            UnformatError::NoLocaleFound => String::from_str("no locale info found"),
            UnformatError::Parse => String::from_str("could not parse a number"),
        }
    }
}

/// The characters that survive the strip: digits, minus, dot, comma and
/// space.
pub open spec fn is_numeric_char(c: char) -> bool {
    is_digit_char(c) || c == '-' || c == '.' || c == ',' || c == ' '
}

/// The subsequence of characters that survive the strip.
pub open spec fn keep_numeric(s: Seq<char>) -> Seq<char> {
    s.filter(|c: char| is_numeric_char(c))
}

/// Relies on `regex::Regex::replace_all`: replacing every match of the
/// negated class of digit, minus, dot, comma and space with the empty
/// string removes exactly the characters outside that set and keeps the
/// rest in order.
#[verifier::external_body]
fn strip_non_numeric(s: &str) -> (r: String)
    ensures
        r@ == keep_numeric(s@),
{
    let re = regex::Regex::new(r"[^0-9-., ]").unwrap();
    re.replace_all(s, "").into_owned()
}

/// The cleaned text that is handed to the number parser: the strip, then
/// removal of the locale's thousands separator, then normalisation of its
/// decimal separator to a dot, then trimming of spaces.
pub open spec fn spec_clean(s: Seq<char>, lc: LocaleView) -> Seq<char> {
    let kept = keep_numeric(s);
    let no_thousands = replace_all(kept, lc.thousands_seperator, Seq::empty());
    let normalized = if lc.decimal_seperator == "."@ {
        no_thousands
    } else {
        replace_all(no_thousands, lc.decimal_seperator, "."@)
    };
    trim_spaces(normalized)
}

/// Clean a string for the number parser, as `spec_clean` describes.
pub(crate) fn clean_chars(n: &str, lc: &Locale) -> (r: Vec<char>)
    ensures
        r@ == spec_clean(n@, lc@),
{
    let stripped = strip_non_numeric(n);
    let kept = str_to_chars(stripped.as_str());
    let ts = str_to_chars(lc.thousands_seperator.as_str());
    let nothing: Vec<char> = Vec::new();
    let no_thousands = replace_chars(&kept, &ts, &nothing);
    let normalized: Vec<char> = if str_eq(lc.decimal_seperator.as_str(), ".") {
        no_thousands
    } else {
        let ds = str_to_chars(lc.decimal_seperator.as_str());
        let dot = str_to_chars(".");
        replace_chars(&no_thousands, &ds, &dot)
    };
    trim_chars(&normalized)
}

/// Strip currency formatting off `n` using the locale of `currency`
/// (case-insensitive) and render the number at `precision` fractional
/// digits. Fails with `NoLocaleFound` for an unknown currency code and
/// with `Parse` when the cleaned text is not a plain decimal number.
pub fn unformat(n: &str, precision: usize, currency: &str) -> (r: Result<String, UnformatError>)
    ensures
        match r {
            Ok(s) => {
                &&& spec_locale_map(upper_chars(currency@)) is Some
                &&& {
                    let lc = spec_locale_map(upper_chars(currency@))->0;
                    let parsed = spec_parse_number(spec_clean(n@, lc));
                    &&& parsed is Some
                    &&& {
                        let t = parsed->0;
                        s@ == spec_fixed_output(
                            t.0,
                            digits_val(t.1 + t.2),
                            t.2.len() as nat,
                            precision as nat,
                        )
                    }
                }
            },
            Err(UnformatError::NoLocaleFound) => spec_locale_map(upper_chars(currency@)) is None,
            Err(UnformatError::Parse) => {
                &&& spec_locale_map(upper_chars(currency@)) is Some
                &&& spec_parse_number(
                    spec_clean(n@, spec_locale_map(upper_chars(currency@))->0),
                ) is None
            },
        },
{
    let upper = to_ascii_upper(currency);
    let lc: Locale = match locale_map(upper.as_str()) {
        Some(l) => l,
        None => {
            return Err(UnformatError::NoLocaleFound);
        },
    };
    let cleaned = clean_chars(n, &lc);
    match parse_number(&cleaned) {
        Some((neg, ipart, fpart)) => {
            proof {
                assert(spec_parse_number(cleaned@) is Some);
            }
            let out = render_fixed(neg, &ipart, &fpart, precision);
            Ok(chars_to_string(&out))
        },
        None => Err(UnformatError::Parse),
    }
}

} // verus!
