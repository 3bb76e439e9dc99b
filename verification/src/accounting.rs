//! Format numbers as money values according to settings: currency symbol,
//! precision, thousand/decimal separators and one format template for each
//! of positive, negative and zero values. In a template `{s}` stands for
//! the symbol and `{v}` for the rendered number; either may be absent.

use vstd::prelude::*;

use crate::chars::{chars_to_string, replace_all, replace_chars, str_to_chars};
use crate::number::{
    format_number_parts, spec_format_number, FormatNumber, NumberView,
};

verus! {

/// The model of a formatter configuration.
pub ghost struct AccountingView {
    pub symbol: Seq<char>,
    pub precision: nat,
    pub thousand: Seq<char>,
    pub decimal: Seq<char>,
    pub format_positive: Seq<char>,
    pub format_negative: Seq<char>,
    pub format_zero: Seq<char>,
}

/// A template with `{s}` replaced by `symbol`, then `{v}` replaced by
/// `value`.
pub open spec fn spec_substitute(template: Seq<char>, symbol: Seq<char>, value: Seq<char>) -> Seq<
    char,
> {
    replace_all(replace_all(template, "{s}"@, symbol), "{v}"@, value)
}

/// The model of the canonical zero input.
pub open spec fn zero_view() -> NumberView {
    NumberView { negative: false, mantissa: 0, scale: 0 }
}

/// Template selection and substitution: the negative template takes the
/// digits with the minus sign stripped; the zero template is chosen when
/// the digits render exactly as zero renders at the current settings;
/// otherwise the positive template is used.
pub open spec fn spec_format_money(cfg: AccountingView, v: NumberView) -> Seq<char> {
    let digits = spec_format_number(v, cfg.precision, cfg.thousand, cfg.decimal);
    let zero = spec_format_number(zero_view(), cfg.precision, cfg.thousand, cfg.decimal);
    if digits.len() > 0 && digits[0] == '-' {
        spec_substitute(cfg.format_negative, cfg.symbol, digits.skip(1))
    } else if digits == zero {
        spec_substitute(cfg.format_zero, cfg.symbol, digits)
    } else {
        spec_substitute(cfg.format_positive, cfg.symbol, digits)
    }
}

/// The zero template is selected exactly when the rendered digits carry no
/// leading minus and equal the zero rendering at the current precision and
/// separators; a leading minus selects the negative template with the
/// minus stripped; anything else selects the positive template.
pub proof fn lemma_template_selection(cfg: AccountingView, v: NumberView)
    ensures
        ({
            let digits = spec_format_number(v, cfg.precision, cfg.thousand, cfg.decimal);
            let zero = spec_format_number(zero_view(), cfg.precision, cfg.thousand, cfg.decimal);
            &&& digits.len() > 0 && digits[0] == '-' ==> spec_format_money(cfg, v)
                == spec_substitute(cfg.format_negative, cfg.symbol, digits.skip(1))
            &&& !(digits.len() > 0 && digits[0] == '-') && digits == zero ==> spec_format_money(
                cfg,
                v,
            ) == spec_substitute(cfg.format_zero, cfg.symbol, digits)
            &&& !(digits.len() > 0 && digits[0] == '-') && digits != zero ==> spec_format_money(
                cfg,
                v,
            ) == spec_substitute(cfg.format_positive, cfg.symbol, digits)
        }),
{
}

/// Changing only the zero template leaves the result unchanged for every
/// input whose digits do not render as the zero rendering, or that carries
/// a minus sign: only true zero renderings see the new template.
pub proof fn lemma_set_format_zero_independence(
    cfg1: AccountingView,
    cfg2: AccountingView,
    v: NumberView,
)
    requires
        cfg2 == (AccountingView { format_zero: cfg2.format_zero, ..cfg1 }),
    ensures
        ({
            let digits = spec_format_number(v, cfg1.precision, cfg1.thousand, cfg1.decimal);
            let zero = spec_format_number(zero_view(), cfg1.precision, cfg1.thousand, cfg1.decimal);
            (digits.len() > 0 && digits[0] == '-') || digits != zero ==> spec_format_money(cfg2, v)
                == spec_format_money(cfg1, v)
        }),
{
}

/// Substitute symbol and value into a template.
fn substitute(template: &str, symbol: &str, value: &Vec<char>) -> (r: Vec<char>)
    ensures
        r@ == spec_substitute(template@, symbol@, value@),
{
    let t = str_to_chars(template);
    let sym = str_to_chars(symbol);
    let ps = str_to_chars("{s}");
    let pv = str_to_chars("{v}");
    let step = replace_chars(&t, &ps, &sym);
    replace_chars(&step, &pv, value)
}

/// Format numbers as money values according to settings.
///
/// | Field | Description | Default |
/// | --------------- | ------------- | ------------- |
/// | symbol          | currency symbol | `$` |
/// | precision       | decimal places | `0` |
/// | thousand        | thousand separator | `,` |
/// | decimal         | decimal separator | `.` |
/// | format_positive | template for positive values | `{s}{v}` |
/// | format_negative | template for negative values | `-{s}{v}` |
/// | format_zero     | template for zero values | `{s}{v}` |
pub struct Accounting {
    symbol: String,
    precision: usize,
    thousand: String,
    decimal: String,
    format_positive: String,
    format_negative: String,
    format_zero: String,
}

impl View for Accounting {
    type V = AccountingView;

    closed spec fn view(&self) -> AccountingView {
        AccountingView {
            symbol: self.symbol@,
            precision: self.precision as nat,
            thousand: self.thousand@,
            decimal: self.decimal@,
            format_positive: self.format_positive@,
            format_negative: self.format_negative@,
            format_zero: self.format_zero@,
        }
    }
}

/// The configuration that `Accounting::default` builds.
pub open spec fn spec_default_accounting() -> AccountingView {
    AccountingView {
        symbol: "$"@,
        precision: 0,
        thousand: ","@,
        decimal: "."@,
        format_positive: "{s}{v}"@,
        format_negative: "-"@ + "{s}{v}"@,
        format_zero: "{s}{v}"@,
    }
}

impl Default for Accounting {
    /// Returns a default Accounting.
    fn default() -> (r: Self)
        ensures
            r@ == spec_default_accounting(),
    {
        let format = "{s}{v}";
        Accounting {
            symbol: String::from_str("$"),
            precision: 0,
            thousand: String::from_str(","),
            decimal: String::from_str("."),
            format_positive: String::from_str(format),
            format_negative: String::from_str("-").concat(format),
            format_zero: String::from_str(format),
        }
    }
}

impl Accounting {
    /// Create an Accounting with every field given.
    pub fn new(
        symbol: &str,
        precision: usize,
        thousand: &str,
        decimal: &str,
        format: &str,
        format_negative: &str,
        format_zero: &str,
    ) -> (r: Self)
        ensures
            r@ == (AccountingView {
                symbol: symbol@,
                precision: precision as nat,
                thousand: thousand@,
                decimal: decimal@,
                format_positive: format@,
                format_negative: format_negative@,
                format_zero: format_zero@,
            }),
    {
        Accounting {
            symbol: String::from_str(symbol),
            precision,
            thousand: String::from_str(thousand),
            decimal: String::from_str(decimal),
            format_positive: String::from_str(format),
            format_negative: String::from_str(format_negative),
            format_zero: String::from_str(format_zero),
        }
    }

    /// Create an Accounting from symbol and precision, with default settings
    /// otherwise.
    pub fn new_from(symbol: &str, precision: usize) -> (r: Self)
        ensures
            r@ == (AccountingView {
                symbol: symbol@,
                precision: precision as nat,
                ..spec_default_accounting()
            }),
    {
        let mut ac = Self::default();
        ac.symbol = String::from_str(symbol);
        ac.precision = precision;
        ac
    }

    /// Create an Accounting from symbol, precision and both separators,
    /// with default settings otherwise.
    pub fn new_from_seperator(
        symbol: &str,
        precision: usize,
        thousand: &str,
        decimal: &str,
    ) -> (r: Self)
        ensures
            r@ == (AccountingView {
                symbol: symbol@,
                precision: precision as nat,
                thousand: thousand@,
                decimal: decimal@,
                ..spec_default_accounting()
            }),
    {
        let mut ac = Self::default();
        ac.symbol = String::from_str(symbol);
        ac.precision = precision;
        ac.thousand = String::from_str(thousand);
        ac.decimal = String::from_str(decimal);
        ac
    }

    /// Sets the separator for the thousands separation.
    pub fn set_thousand_separator(&mut self, s: &str)
        ensures
            final(self)@ == (AccountingView { thousand: s@, ..old(self)@ }),
    {
        self.thousand = String::from_str(s);
    }

    /// Sets the separator for the decimal separation.
    pub fn set_decimal_separator(&mut self, s: &str)
        ensures
            final(self)@ == (AccountingView { decimal: s@, ..old(self)@ }),
    {
        self.decimal = String::from_str(s);
    }

    /// Sets the format template for positive values.
    pub fn set_format_positive(&mut self, s: &str)
        ensures
            final(self)@ == (AccountingView { format_positive: s@, ..old(self)@ }),
    {
        self.format_positive = String::from_str(s);
    }

    /// Sets the format template for negative values.
    pub fn set_format_negative(&mut self, s: &str)
        ensures
            final(self)@ == (AccountingView { format_negative: s@, ..old(self)@ }),
    {
        self.format_negative = String::from_str(s);
    }

    /// Sets the format template for zero values.
    pub fn set_format_zero(&mut self, s: &str)
        ensures
            final(self)@ == (AccountingView { format_zero: s@, ..old(self)@ }),
    {
        self.format_zero = String::from_str(s);
    }

    /// Sets the template for positive and zero values to `s`, and the
    /// template for negative values to `s` with a leading minus. Any
    /// earlier customisation of the negative or zero template is
    /// overwritten.
    pub fn set_format(&mut self, s: &str)
        ensures
            final(self)@ == (AccountingView {
                format_positive: s@,
                format_negative: "-"@ + s@,
                format_zero: s@,
                ..old(self)@
            }),
    {
        self.set_format_positive(s);
        let neg = String::from_str("-").concat(s);
        self.set_format_negative(neg.as_str());
        self.set_format_zero(s);
    }

    /// Sets all three format templates at once, as `set_format` does.
    pub fn set_format_all(&mut self, s: &str)
        ensures
            final(self)@ == (AccountingView {
                format_positive: s@,
                format_negative: "-"@ + s@,
                format_zero: s@,
                ..old(self)@
            }),
    {
        self.set_format(s);
    }

    /// Format a number as a money value, using the configured symbol,
    /// precision, separators and templates.
    pub fn format_money<T: FormatNumber>(&self, value: T) -> (r: String)
        ensures
            r@ == spec_format_money(self@, value.number_view()),
    {
        let number_string = value.format_number(
            self.precision,
            self.thousand.as_str(),
            self.decimal.as_str(),
        );
        let zero_string = format_number_parts(
            false,
            0,
            0,
            self.precision,
            self.thousand.as_str(),
            self.decimal.as_str(),
        );
        let num = str_to_chars(number_string.as_str());
        let out_chars: Vec<char>;
        if num.len() > 0 && num[0] == '-' {
            let mut stripped: Vec<char> = Vec::new();
            let mut i: usize = 1;
            while i < num.len()
                invariant
                    1 <= i <= num@.len(),
                    stripped@ == num@.subrange(1, i as int),
                decreases num@.len() - i,
            {
                stripped.push(num[i]);
                proof {
                    assert(num@.subrange(1, i + 1) =~= num@.subrange(1, i as int).push(
                        num@[i as int],
                    ));
                }
                i = i + 1;
            }
            proof {
                assert(num@.subrange(1, num@.len() as int) =~= num@.skip(1));
            }
            out_chars = substitute(
                self.format_negative.as_str(),
                self.symbol.as_str(),
                &stripped,
            );
        } else if number_string == zero_string {
            out_chars = substitute(self.format_zero.as_str(), self.symbol.as_str(), &num);
        } else {
            out_chars = substitute(self.format_positive.as_str(), self.symbol.as_str(), &num);
        }
        chars_to_string(&out_chars)
    }
}

} // verus!
