//! The number-formatting engine: a numeric value is modelled as a sign, a
//! decimal mantissa and a scale (the value is `mantissa / 10^scale`), and is
//! rendered at a fixed precision with thousands grouping, round half away
//! from zero, and sign suppression when the rounded magnitude is zero.

use vstd::prelude::*;
use vstd::arithmetic::div_mod::lemma_fundamental_div_mod_converse;

use crate::chars::{chars_to_string, digit_char, is_digit_char, str_to_chars};
use crate::digits::{
    count_char, dec_digits, grouped_digits, lemma_count_absent, lemma_count_concat,
    lemma_count_single, lemma_grouped_chars, lemma_padded_all_digits,
    lemma_padded_mul_pow, lemma_pow10_adds, lemma_pow10_mono, lemma_pow10_pos, lemma_pow10_u128,
    padded_digits, pow10, push_grouped_digits, push_padded_digits,
};

verus! {

/// The mathematical model of a numeric input: the value is
/// `mantissa / 10^scale`, negated when `negative` is set.
pub ghost struct NumberView {
    pub negative: bool,
    pub mantissa: nat,
    pub scale: nat,
}

/// The magnitude scaled to `precision` fractional digits, rounding half
/// away from zero.
pub open spec fn round_scaled(mantissa: nat, scale: nat, precision: nat) -> nat {
    if scale <= precision {
        mantissa * pow10((precision - scale) as nat)
    } else {
        let d = pow10((scale - precision) as nat);
        if 2 * (mantissa % d) >= d {
            mantissa / d + 1
        } else {
            mantissa / d
        }
    }
}

/// The rendering of a number: an optional minus sign (suppressed when the
/// value rounds to zero at this precision), the integer part grouped in
/// threes by `thousand`, and, when `precision > 0`, the decimal separator
/// followed by exactly `precision` fractional digits.
pub open spec fn spec_format_number(
    v: NumberView,
    precision: nat,
    thousand: Seq<char>,
    decimal: Seq<char>,
) -> Seq<char> {
    let m = round_scaled(v.mantissa, v.scale, precision);
    let sign: Seq<char> = if v.negative && m != 0 {
        seq!['-']
    } else {
        Seq::empty()
    };
    let frac: Seq<char> = if precision == 0 {
        Seq::empty()
    } else {
        decimal + padded_digits(m % pow10(precision), precision)
    };
    sign + grouped_digits(m / pow10(precision), thousand) + frac
}

/// A non-negative value renders with no leading minus, and with exactly
/// one decimal point followed by exactly `precision` digits when
/// `precision > 0` and none when it is zero, under the separators `","`
/// and `"."`.
pub proof fn lemma_format_nonnegative(v: NumberView, precision: nat)
    requires
        !v.negative,
    ensures
        ({
            let r = spec_format_number(v, precision, ","@, "."@);
            &&& r.len() > 0
            &&& is_digit_char(r[0])
            &&& r[0] != '-'
            &&& count_char(r, '.') == (if precision > 0 {
                1nat
            } else {
                0nat
            })
            &&& precision > 0 ==> {
                &&& r.len() > precision
                &&& r[r.len() - precision - 1] == '.'
                &&& forall|j: int| r.len() - precision <= j < r.len() ==> is_digit_char(#[trigger] r[j])
            }
        }),
{
    let r = spec_format_number(v, precision, ","@, "."@);
    let m = round_scaled(v.mantissa, v.scale, precision);
    let g = grouped_digits(m / pow10(precision), ","@);
    lemma_grouped_chars(m / pow10(precision), ","@);
    reveal_strlit(",");
    reveal_strlit(".");
    assert("."@ =~= seq!['.']);
    assert(is_digit_char(g[0]) && g[0] as u32 != 45) by {
        assert(48 <= g[0] as u32 <= 57);
    }
    assert(r[0] == g[0]);
    assert(forall|i: int| 0 <= i < g.len() ==> #[trigger] g[i] != '.') by {
        assert forall|i: int| 0 <= i < g.len() implies #[trigger] g[i] != '.' by {
            if is_digit_char(g[i]) {
                assert(g[i] as u32 != 46);
            } else {
                assert(","@.contains(g[i]));
                assert(g[i] == ',');
            }
        }
    }
    lemma_count_absent(g, '.');
    if precision > 0 {
        let padded = padded_digits(m % pow10(precision), precision);
        lemma_padded_all_digits(m % pow10(precision), precision);
        assert(r =~= g + (seq!['.'] + padded));
        lemma_count_concat(g, seq!['.'] + padded, '.');
        lemma_count_concat(seq!['.'], padded, '.');
        lemma_count_single('.');
        lemma_count_absent(padded, '.');
        assert(r[g.len() as int] == '.');
        assert(r.len() == g.len() + 1 + precision);
        assert forall|j: int| r.len() - precision <= j < r.len() implies is_digit_char(
            #[trigger] r[j],
        ) by {
            assert(r[j] == padded[j - g.len() - 1]);
        }
    } else {
        assert(r =~= g);
    }
}

/// Negating a non-zero value that does not round to zero prepends exactly
/// one minus sign; when the magnitude rounds to zero, the rendering is the
/// unsigned one and carries no minus.
pub proof fn lemma_format_negation(v: NumberView, precision: nat, thousand: Seq<char>, decimal: Seq<char>)
    ensures
        ({
            let rneg = spec_format_number(
                NumberView { negative: true, ..v },
                precision,
                thousand,
                decimal,
            );
            let rpos = spec_format_number(
                NumberView { negative: false, ..v },
                precision,
                thousand,
                decimal,
            );
            &&& round_scaled(v.mantissa, v.scale, precision) != 0 ==> rneg == seq!['-'] + rpos
            &&& round_scaled(v.mantissa, v.scale, precision) == 0 ==> rneg == rpos
                && is_digit_char(rneg[0])
        }),
{
    let m = round_scaled(v.mantissa, v.scale, precision);
    let g = grouped_digits(m / pow10(precision), thousand);
    lemma_grouped_chars(m / pow10(precision), thousand);
    let frac: Seq<char> = if precision == 0 {
        Seq::empty()
    } else {
        decimal + padded_digits(m % pow10(precision), precision)
    };
    if m != 0 {
        assert(seq!['-'] + g + frac =~= seq!['-'] + (Seq::<char>::empty() + g + frac));
    } else {
        assert(Seq::<char>::empty() + g + frac =~= g + frac);
        assert((g + frac)[0] == g[0]);
    }
}

/// A zero magnitude renders with a leading `0` digit and never with a
/// minus sign, at any precision and with any separators.
pub proof fn lemma_format_zero(v: NumberView, precision: nat, thousand: Seq<char>, decimal: Seq<char>)
    requires
        v.mantissa == 0,
    ensures
        ({
            let r = spec_format_number(v, precision, thousand, decimal);
            &&& r.len() > 0
            &&& r[0] == '0'
        }),
{
    let m = round_scaled(0, v.scale, precision);
    assert(m == 0) by {
        if v.scale <= precision {
            lemma_pow10_pos((precision - v.scale) as nat);
            assert(0 * pow10((precision - v.scale) as nat) == 0);
        } else {
            let d = pow10((v.scale - precision) as nat);
            lemma_pow10_pos((v.scale - precision) as nat);
            vstd::arithmetic::div_mod::lemma_basic_div(0, d as int);
            vstd::arithmetic::div_mod::lemma_small_mod(0, d);
        }
    };
    lemma_pow10_pos(precision);
    vstd::arithmetic::div_mod::lemma_basic_div(0, pow10(precision) as int);
    let g = grouped_digits(0, thousand);
    assert(g =~= dec_digits(0));
    crate::chars::lemma_digit_char_val(0);
    crate::chars::lemma_digit_val_char('0');
    assert(digit_char(0) == '0');
    let r = spec_format_number(v, precision, thousand, decimal);
    assert(r[0] == g[0]);
}

/// Compute ten to the power `e`.
pub fn pow10_u128(e: u32) -> (r: u128)
    requires
        e <= 38,
    ensures
        r as nat == pow10(e as nat),
{
    proof {
        lemma_pow10_u128();
    }
    let mut r: u128 = 1;
    let mut i: u32 = 0;
    while i < e
        invariant
            i <= e,
            e <= 38,
            r as nat == pow10(i as nat),
            pow10(38) == 100000000000000000000000000000000000000,
        decreases e - i,
    {
        proof {
            lemma_pow10_mono((i + 1) as nat, 38);
        }
        r = r * 10;
        i = i + 1;
    }
    r
}

/// A `u128` is smaller than any power of ten with 39 or more zeros.
proof fn lemma_u128_below_pow10(x: u128, e: nat)
    requires
        e >= 39,
    ensures
        2 * (x as nat) < pow10(e),
        (x as nat) / pow10(e) == 0,
        (x as nat) % pow10(e) == x as nat,
{
    lemma_pow10_u128();
    lemma_pow10_mono(39, e);
    vstd::arithmetic::div_mod::lemma_basic_div(x as int, pow10(e) as int);
    vstd::arithmetic::div_mod::lemma_small_mod(x as nat, pow10(e));
}

/// Render a number whose scale does not exceed the precision: no rounding,
/// the fractional digits are the scaled mantissa digits plus zero padding.
#[verifier::rlimit(50)]
fn format_no_rounding(
    negative: bool,
    mantissa: u128,
    scale: u32,
    precision: usize,
    thousand: &Vec<char>,
    decimal: &Vec<char>,
) -> (r: Vec<char>)
    requires
        scale as usize <= precision,
    ensures
        r@ == spec_format_number(
            NumberView { negative, mantissa: mantissa as nat, scale: scale as nat },
            precision as nat,
            thousand@,
            decimal@,
        ),
{
    let ghost v = NumberView { negative, mantissa: mantissa as nat, scale: scale as nat };
    let ghost p = precision as nat;
    let ghost s = scale as nat;
    let ghost kk = pow10((p - s) as nat);
    let ghost m = round_scaled(v.mantissa, s, p);
    let mut out: Vec<char> = Vec::new();
    let (ipart, fracnum): (u128, u128) = if scale <= 38 {
        let pw = pow10_u128(scale);
        proof {
            lemma_pow10_pos(scale as nat);
            vstd::arithmetic::div_mod::lemma_fundamental_div_mod(mantissa as int, pw as int);
        }
        (mantissa / pw, mantissa % pw)
    } else {
        proof {
            lemma_u128_below_pow10(mantissa, s);
        }
        (0, mantissa)
    };
    proof {
        lemma_pow10_pos((p - s) as nat);
        lemma_pow10_pos(s);
        lemma_pow10_adds(s, (p - s) as nat);
        assert(pow10(p) == pow10(s) * kk);
        assert(m == v.mantissa * kk);
        // Divide the scaled magnitude by 10^p via the split at 10^s.
        assert(v.mantissa == (ipart as nat) * pow10(s) + (fracnum as nat)) by (nonlinear_arith)
            requires
                mantissa as nat == pow10(s) * (ipart as nat) + (fracnum as nat),
                v.mantissa == mantissa as nat,
        ;
        assert(m == (ipart as nat) * pow10(p) + (fracnum as nat) * kk) by (nonlinear_arith)
            requires
                m == v.mantissa * kk,
                v.mantissa == (ipart as nat) * pow10(s) + (fracnum as nat),
                pow10(p) == pow10(s) * kk,
        ;
        assert((fracnum as nat) * kk < pow10(p)) by (nonlinear_arith)
            requires
                (fracnum as nat) < pow10(s),
                kk >= 1,
                pow10(p) == pow10(s) * kk,
        ;
        lemma_fundamental_div_mod_converse(
            m as int,
            pow10(p) as int,
            ipart as int,
            ((fracnum as nat) * kk) as int,
        );
        assert(m / pow10(p) == ipart as nat);
        assert(m % pow10(p) == (fracnum as nat) * kk);
        assert(m == 0 <==> v.mantissa == 0) by (nonlinear_arith)
            requires
                m == v.mantissa * kk,
                kk >= 1,
        ;
    }
    if negative && mantissa != 0 {
        out.push('-');
    }
    push_grouped_digits(&mut out, ipart, thousand);
    if precision > 0 {
        crate::chars::push_chars(&mut out, decimal);
        push_padded_digits(&mut out, fracnum, scale as usize);
        let zeros = precision - (scale as usize);
        push_padded_digits(&mut out, 0, zeros);
        proof {
            lemma_pow10_pos(zeros as nat);
            lemma_padded_mul_pow(fracnum as nat, s, (p - s) as nat);
            assert(padded_digits(m % pow10(p), p) == padded_digits(fracnum as nat, s)
                + padded_digits(0, (p - s) as nat));
        }
    }
    proof {
        let sign: Seq<char> = if v.negative && m != 0 {
            seq!['-']
        } else {
            Seq::empty()
        };
        if precision > 0 {
            assert(out@ =~= sign + grouped_digits(m / pow10(p), thousand@) + (decimal@
                + padded_digits(m % pow10(p), p)));
        } else {
            assert(out@ =~= sign + grouped_digits(m / pow10(p), thousand@) + Seq::empty());
        }
    }
    out
}

/// Render a number whose scale exceeds the precision: the mantissa is
/// rounded half away from zero to `precision` fractional digits first.
#[verifier::rlimit(50)]
fn format_with_rounding(
    negative: bool,
    mantissa: u128,
    scale: u32,
    precision: usize,
    thousand: &Vec<char>,
    decimal: &Vec<char>,
) -> (r: Vec<char>)
    requires
        scale as usize > precision,
    ensures
        r@ == spec_format_number(
            NumberView { negative, mantissa: mantissa as nat, scale: scale as nat },
            precision as nat,
            thousand@,
            decimal@,
        ),
{
    let ghost v = NumberView { negative, mantissa: mantissa as nat, scale: scale as nat };
    let ghost p = precision as nat;
    let ghost s = scale as nat;
    let ghost m_spec = round_scaled(v.mantissa, s, p);
    let mut out: Vec<char> = Vec::new();
    let e: u32 = scale - (precision as u32);
    let m: u128 = if e <= 38 {
            let d = pow10_u128(e);
            proof {
                lemma_pow10_pos(e as nat);
            }
            let q = mantissa / d;
            let r2 = mantissa % d;
            proof {
                lemma_pow10_u128();
                lemma_pow10_mono(e as nat, 38);
                reveal_with_fuel(pow10, 3);
                assert(pow10(1) == 10);
                lemma_pow10_mono(1, e as nat);
                assert(d >= 10);
                assert(r2 < d);
                assert(2 * (r2 as nat) < 0x100000000000000000000000000000000);
                assert((q as nat) * (d as nat) <= mantissa as nat) by (nonlinear_arith)
                    requires
                        q == mantissa / d,
                        d >= 1,
                ;
                assert(q < u128::MAX) by (nonlinear_arith)
                    requires
                        (q as nat) * (d as nat) <= mantissa as nat,
                        d >= 10,
                        mantissa <= u128::MAX,
                ;
            }
            if 2 * r2 >= d {
                q + 1
            } else {
                q
            }
        } else {
            proof {
                lemma_u128_below_pow10(mantissa, (s - p) as nat);
            }
            0
        };
        proof {
            assert(m as nat == m_spec);
        }
        let (ipart, fracnum): (u128, u128) = if precision == 0 {
            proof {
                assert(pow10(0) == 1);
                assert(m as nat / 1 == m as nat && m as nat % 1 == 0) by (nonlinear_arith);
            }
            (m, 0)
        } else if precision <= 38 {
            let pw = pow10_u128(precision as u32);
            proof {
                lemma_pow10_pos(p);
            }
            (m / pw, m % pw)
        } else {
            proof {
                lemma_u128_below_pow10(m, p);
            }
            (0, m)
        };
        if negative && m != 0 {
            out.push('-');
        }
        push_grouped_digits(&mut out, ipart, thousand);
        if precision > 0 {
            crate::chars::push_chars(&mut out, decimal);
            push_padded_digits(&mut out, fracnum, precision);
        }
        proof {
            let sign: Seq<char> = if v.negative && m_spec != 0 {
                seq!['-']
            } else {
                Seq::empty()
            };
            if precision > 0 {
                assert(out@ =~= sign + grouped_digits(m_spec / pow10(p), thousand@) + (decimal@
                    + padded_digits(m_spec % pow10(p), p)));
            } else {
                assert(out@ =~= sign + grouped_digits(m_spec / pow10(p), thousand@)
                    + Seq::empty());
            }
        }
    out
}

/// Render a number given by sign, mantissa and scale at `precision`
/// fractional digits, as a character vector.
pub fn format_number_vec(
    negative: bool,
    mantissa: u128,
    scale: u32,
    precision: usize,
    thousand: &Vec<char>,
    decimal: &Vec<char>,
) -> (r: Vec<char>)
    ensures
        r@ == spec_format_number(
            NumberView { negative, mantissa: mantissa as nat, scale: scale as nat },
            precision as nat,
            thousand@,
            decimal@,
        ),
{
    if (scale as usize) <= precision {
        format_no_rounding(negative, mantissa, scale, precision, thousand, decimal)
    } else {
        format_with_rounding(negative, mantissa, scale, precision, thousand, decimal)
    }
}

/// Render a number given by sign, mantissa and scale as a `String`.
pub fn format_number_parts(
    negative: bool,
    mantissa: u128,
    scale: u32,
    precision: usize,
    thousand: &str,
    decimal: &str,
) -> (r: String)
    ensures
        r@ == spec_format_number(
            NumberView { negative, mantissa: mantissa as nat, scale: scale as nat },
            precision as nat,
            thousand@,
            decimal@,
        ),
{
    let t = str_to_chars(thousand);
    let d = str_to_chars(decimal);
    let v = format_number_vec(negative, mantissa, scale, precision, &t, &d);
    chars_to_string(&v)
}

/// The magnitude of a signed value, with its sign.
fn signed_parts(x: i128) -> (r: (bool, u128))
    ensures
        r.0 == (x < 0),
        r.1 as int == (if x < 0 {
            -(x as int)
        } else {
            x as int
        }),
{
    if x < 0 {
        (true, ((-(x + 1)) as u128) + 1)
    } else {
        (false, x as u128)
    }
}

/// A numeric input to the formatter: a signed integer, an unsigned integer,
/// or a decimal given by sign, mantissa and scale
/// (the value `mantissa / 10^scale`).
pub enum Number {
    Signed(i128),
    Unsigned(u128),
    Decimal { negative: bool, mantissa: u128, scale: u32 },
}

/// Types the formatter accepts: anything that can present itself as a sign,
/// a decimal mantissa and a scale.
pub trait FormatNumber {
    /// The modelled value.
    spec fn number_view(&self) -> NumberView;

    /// Render the value at `precision` fractional digits with the given
    /// thousands and decimal separators.
    fn format_number(&self, precision: usize, thousand: &str, decimal: &str) -> (r: String)
        ensures
            r@ == spec_format_number(
                self.number_view(),
                precision as nat,
                thousand@,
                decimal@,
            ),
    ;
}

impl FormatNumber for Number {
    open spec fn number_view(&self) -> NumberView {
        match *self {
            Number::Signed(x) => NumberView {
                negative: x < 0,
                mantissa: (if x < 0 {
                    -(x as int)
                } else {
                    x as int
                }) as nat,
                scale: 0,
            },
            Number::Unsigned(x) => NumberView { negative: false, mantissa: x as nat, scale: 0 },
            Number::Decimal { negative, mantissa, scale } => NumberView {
                negative,
                mantissa: mantissa as nat,
                scale: scale as nat,
            },
        }
    }

    fn format_number(&self, precision: usize, thousand: &str, decimal: &str) -> (r: String) {
        match self {
            Number::Signed(x) => {
                let (neg, mag) = signed_parts(*x);
                format_number_parts(neg, mag, 0, precision, thousand, decimal)
            },
            Number::Unsigned(x) => format_number_parts(false, *x, 0, precision, thousand, decimal),
            Number::Decimal { negative, mantissa, scale } => format_number_parts(
                *negative,
                *mantissa,
                *scale,
                precision,
                thousand,
                decimal,
            ),
        }
    }
}

impl FormatNumber for u8 {
    open spec fn number_view(&self) -> NumberView {
        NumberView { negative: false, mantissa: *self as nat, scale: 0 }
    }

    fn format_number(&self, precision: usize, thousand: &str, decimal: &str) -> (r: String) {
        format_number_parts(false, *self as u128, 0, precision, thousand, decimal)
    }
}

impl FormatNumber for u16 {
    open spec fn number_view(&self) -> NumberView {
        NumberView { negative: false, mantissa: *self as nat, scale: 0 }
    }

    fn format_number(&self, precision: usize, thousand: &str, decimal: &str) -> (r: String) {
        format_number_parts(false, *self as u128, 0, precision, thousand, decimal)
    }
}

impl FormatNumber for u32 {
    open spec fn number_view(&self) -> NumberView {
        NumberView { negative: false, mantissa: *self as nat, scale: 0 }
    }

    fn format_number(&self, precision: usize, thousand: &str, decimal: &str) -> (r: String) {
        format_number_parts(false, *self as u128, 0, precision, thousand, decimal)
    }
}

impl FormatNumber for u64 {
    open spec fn number_view(&self) -> NumberView {
        NumberView { negative: false, mantissa: *self as nat, scale: 0 }
    }

    fn format_number(&self, precision: usize, thousand: &str, decimal: &str) -> (r: String) {
        format_number_parts(false, *self as u128, 0, precision, thousand, decimal)
    }
}

impl FormatNumber for u128 {
    open spec fn number_view(&self) -> NumberView {
        NumberView { negative: false, mantissa: *self as nat, scale: 0 }
    }

    fn format_number(&self, precision: usize, thousand: &str, decimal: &str) -> (r: String) {
        format_number_parts(false, *self, 0, precision, thousand, decimal)
    }
}

impl FormatNumber for usize {
    open spec fn number_view(&self) -> NumberView {
        NumberView { negative: false, mantissa: *self as nat, scale: 0 }
    }

    fn format_number(&self, precision: usize, thousand: &str, decimal: &str) -> (r: String) {
        format_number_parts(false, *self as u128, 0, precision, thousand, decimal)
    }
}

impl FormatNumber for i8 {
    open spec fn number_view(&self) -> NumberView {
        NumberView {
            negative: *self < 0,
            mantissa: (if *self < 0 {
                -(*self as int)
            } else {
                *self as int
            }) as nat,
            scale: 0,
        }
    }

    fn format_number(&self, precision: usize, thousand: &str, decimal: &str) -> (r: String) {
        let (neg, mag) = signed_parts(*self as i128);
        format_number_parts(neg, mag, 0, precision, thousand, decimal)
    }
}

impl FormatNumber for i16 {
    open spec fn number_view(&self) -> NumberView {
        NumberView {
            negative: *self < 0,
            mantissa: (if *self < 0 {
                -(*self as int)
            } else {
                *self as int
            }) as nat,
            scale: 0,
        }
    }

    fn format_number(&self, precision: usize, thousand: &str, decimal: &str) -> (r: String) {
        let (neg, mag) = signed_parts(*self as i128);
        format_number_parts(neg, mag, 0, precision, thousand, decimal)
    }
}

impl FormatNumber for i32 {
    open spec fn number_view(&self) -> NumberView {
        NumberView {
            negative: *self < 0,
            mantissa: (if *self < 0 {
                -(*self as int)
            } else {
                *self as int
            }) as nat,
            scale: 0,
        }
    }

    fn format_number(&self, precision: usize, thousand: &str, decimal: &str) -> (r: String) {
        let (neg, mag) = signed_parts(*self as i128);
        format_number_parts(neg, mag, 0, precision, thousand, decimal)
    }
}

impl FormatNumber for i64 {
    open spec fn number_view(&self) -> NumberView {
        NumberView {
            negative: *self < 0,
            mantissa: (if *self < 0 {
                -(*self as int)
            } else {
                *self as int
            }) as nat,
            scale: 0,
        }
    }

    fn format_number(&self, precision: usize, thousand: &str, decimal: &str) -> (r: String) {
        let (neg, mag) = signed_parts(*self as i128);
        format_number_parts(neg, mag, 0, precision, thousand, decimal)
    }
}

impl FormatNumber for i128 {
    open spec fn number_view(&self) -> NumberView {
        NumberView {
            negative: *self < 0,
            mantissa: (if *self < 0 {
                -(*self as int)
            } else {
                *self as int
            }) as nat,
            scale: 0,
        }
    }

    fn format_number(&self, precision: usize, thousand: &str, decimal: &str) -> (r: String) {
        let (neg, mag) = signed_parts(*self);
        format_number_parts(neg, mag, 0, precision, thousand, decimal)
    }
}

impl FormatNumber for isize {
    open spec fn number_view(&self) -> NumberView {
        NumberView {
            negative: *self < 0,
            mantissa: (if *self < 0 {
                -(*self as int)
            } else {
                *self as int
            }) as nat,
            scale: 0,
        }
    }

    fn format_number(&self, precision: usize, thousand: &str, decimal: &str) -> (r: String) {
        let (neg, mag) = signed_parts(*self as i128);
        format_number_parts(neg, mag, 0, precision, thousand, decimal)
    }
}

} // verus!
