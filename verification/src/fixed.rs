//! Parsing of plain decimal number strings (an optional minus, integer
//! digits, an optional dot and fraction digits) and their re-rendering at a
//! fixed precision, rounding half away from zero. The rounding works on the
//! digit characters themselves, so inputs of any length keep their exact
//! value.

use vstd::prelude::*;
use vstd::arithmetic::div_mod::lemma_fundamental_div_mod_converse;
use vstd::pervasive::VecAdditionalExecFns;

use crate::chars::{copy_range, digit_char, digit_to_char, digit_val, is_digit_char};
use crate::chars::{lemma_digit_char_val, lemma_digit_val_char, push_chars};
use crate::digits::{
    all_digits, check_digits, dec_digits, digits_val, lemma_dec_roundtrip, lemma_digits_val_bound,
    lemma_digits_val_concat, lemma_dv_single, lemma_dv_zeros, lemma_padded_mul_pow,
    lemma_padded_roundtrip, lemma_pow10_adds, lemma_pow10_pos, padded_digits, pow10,
    push_padded_digits,
};
use crate::number::round_scaled;

verus! {

/// Split a character sequence at its first dot: the part before it, and,
/// when a dot occurs, the whole part after it.
pub open spec fn split_on_dot(b: Seq<char>) -> (Seq<char>, Option<Seq<char>>)
    decreases b.len(),
{
    if b.len() == 0 {
        (Seq::empty(), None)
    } else if b[0] == '.' {
        (Seq::empty(), Some(b.skip(1)))
    } else {
        let r = split_on_dot(b.skip(1));
        (seq![b[0]] + r.0, r.1)
    }
}

/// Parse a plain decimal number: an optional leading minus, then digits
/// with at most one dot and at least one digit. The result is the sign,
/// the integer digits and the fraction digits.
pub open spec fn spec_parse_number(s: Seq<char>) -> Option<(bool, Seq<char>, Seq<char>)> {
    let neg = s.len() > 0 && s[0] == '-';
    let b = if neg {
        s.skip(1)
    } else {
        s
    };
    let sp = split_on_dot(b);
    let ipart = sp.0;
    let fpart = if sp.1 is Some {
        sp.1->0
    } else {
        Seq::empty()
    };
    if all_digits(ipart) && all_digits(fpart) && ipart.len() + fpart.len() > 0 {
        Some((neg, ipart, fpart))
    } else {
        None
    }
}

/// The fixed-precision rendering of a parsed number: the sign is kept as
/// parsed, the magnitude `mant / 10^scale` is rounded half away from zero
/// to `precision` fractional digits, and no grouping is applied.
pub open spec fn spec_fixed_output(neg: bool, mant: nat, scale: nat, precision: nat) -> Seq<
    char,
> {
    let m = round_scaled(mant, scale, precision);
    let sign: Seq<char> = if neg {
        seq!['-']
    } else {
        Seq::empty()
    };
    let frac: Seq<char> = if precision == 0 {
        Seq::empty()
    } else {
        seq!['.'] + padded_digits(m % pow10(precision), precision)
    };
    sign + dec_digits(m / pow10(precision)) + frac
}

proof fn lemma_split_no_dot(b: Seq<char>)
    requires
        forall|k: int| 0 <= k < b.len() ==> b[k] != '.',
    ensures
        split_on_dot(b) == (b, None::<Seq<char>>),
    decreases b.len(),
{
    if b.len() > 0 {
        lemma_split_no_dot(b.skip(1));
        assert(seq![b[0]] + b.skip(1) =~= b);
    }
}

proof fn lemma_split_with_dot(a: Seq<char>, c: Seq<char>)
    requires
        forall|k: int| 0 <= k < a.len() ==> a[k] != '.',
    ensures
        split_on_dot(a + seq!['.'] + c) == (a, Some(c)),
    decreases a.len(),
{
    let b = a + seq!['.'] + c;
    if a.len() == 0 {
        assert(b[0] == '.');
        assert(b.skip(1) =~= c);
        assert(split_on_dot(b).0 =~= a);
    } else {
        assert(b[0] == a[0]);
        assert(b.skip(1) =~= a.skip(1) + seq!['.'] + c);
        lemma_split_with_dot(a.skip(1), c);
        assert(seq![b[0]] + a.skip(1) =~= a);
    }
}

/// Parse a character sequence as a plain decimal number.
pub fn parse_number(s: &Vec<char>) -> (r: Option<(bool, Vec<char>, Vec<char>)>)
    ensures
        match r {
            Some(t) => spec_parse_number(s@) == Some((t.0, t.1@, t.2@)),
            None => spec_parse_number(s@) is None,
        },
{
    let n = s.len();
    let start: usize = if n > 0 && s[0] == '-' {
        1
    } else {
        0
    };
    let ghost b = s@.skip(start as int);
    let mut j: usize = start;
    while j < n && s[j] != '.'
        invariant
            start <= j <= n,
            n == s@.len(),
            forall|k: int| start <= k < j ==> s@[k] != '.',
        decreases n - j,
    {
        j = j + 1;
    }
    let dotted = j < n;
    let ipart = copy_range(s, start, j);
    let fpart: Vec<char> = if dotted {
        copy_range(s, j + 1, n)
    } else {
        Vec::new()
    };
    proof {
        assert(s@.skip(0) =~= s@);
        if dotted {
            assert(s@[j as int] == '.');
            assert(b =~= ipart@ + seq!['.'] + fpart@);
            lemma_split_with_dot(ipart@, fpart@);
        } else {
            assert(b =~= ipart@);
            lemma_split_no_dot(b);
        }
    }
    let ilen = ipart.len();
    let flen = fpart.len();
    if check_digits(&ipart) && check_digits(&fpart) && ilen + flen > 0 {
        Some((start == 1, ipart, fpart))
    } else {
        None
    }
}

/// Strip leading zeros from a digit string, giving the canonical digit
/// string of its value.
pub fn strip_leading_zeros(v: &Vec<char>) -> (r: Vec<char>)
    requires
        all_digits(v@),
    ensures
        r@ == dec_digits(digits_val(v@)),
{
    let n = v.len();
    let mut k: usize = 0;
    while k < n && v[k] == '0'
        invariant
            0 <= k <= n,
            n == v@.len(),
            forall|t: int| 0 <= t < k ==> v@[t] == '0',
        decreases n - k,
    {
        k = k + 1;
    }
    if k == n {
        proof {
            lemma_dv_zeros(v@);
            lemma_digit_char_val(0);
        }
        let mut r: Vec<char> = Vec::new();
        r.push(digit_to_char(0));
        proof {
            assert(r@ =~= dec_digits(0));
        }
        r
    } else {
        let rest = copy_range(v, k, n);
        proof {
            assert(v@ =~= v@.take(k as int) + v@.skip(k as int));
            lemma_dv_zeros(v@.take(k as int));
            lemma_digits_val_concat(v@.take(k as int), v@.skip(k as int));
            assert(rest@ =~= v@.skip(k as int));
            assert(digits_val(v@) == digits_val(rest@));
            assert(rest@[0] == v@[k as int]);
            assert(all_digits(rest@));
            lemma_dec_roundtrip(rest@);
        }
        rest
    }
}

/// Add one to a digit string, carrying; the result may be one longer.
pub fn increment_digits(v: &Vec<char>) -> (r: Vec<char>)
    requires
        all_digits(v@),
    ensures
        all_digits(r@),
        digits_val(r@) == digits_val(v@) + 1,
        v@.len() <= r@.len() <= v@.len() + 1,
{
    let n = v.len();
    let mut out = copy_range(v, 0, n);
    let mut i: usize = n;
    proof {
        assert(v@.take(n as int) =~= v@);
        assert(pow10(0) == 1);
        assert((n - n) as nat == 0);
        assert(pow10((n - n) as nat) == 1);
        assert(digits_val(v@.take(n as int)) == digits_val(v@));
        assert((digits_val(v@.take(n as int)) + 1) * 1 == digits_val(v@.take(n as int)) + 1);
        assert(digits_val(v@) + 1 == (digits_val(v@.take(n as int)) + 1) * pow10((n - n) as nat));
    }
    loop
        invariant
            0 <= i <= n,
            n == v@.len(),
            out@.len() == n,
            all_digits(v@),
            out@.take(i as int) == v@.take(i as int),
            forall|t: int| i <= t < n ==> out@[t] == '0',
            digits_val(v@) + 1 == (digits_val(v@.take(i as int)) + 1) * pow10((n - i) as nat),
        ensures
            i == 0,
            out@.len() == n,
            forall|t: int| 0 <= t < n ==> out@[t] == '0',
            digits_val(v@) + 1 == (digits_val(v@.take(0)) + 1) * pow10(n as nat),
        decreases i,
    {
        if i == 0 {
            break ;
        }
        let c = out[i - 1];
        proof {
            assert(out@[i - 1] == v@.take(i as int)[i - 1]);
            assert(is_digit_char(v@[i - 1]));
            lemma_digit_val_char(v@[i - 1]);
        }
        let d = (c as u32) - 48;
        if d < 9 {
            out.set(i - 1, digit_to_char((d + 1) as u8));
            proof {
                lemma_digit_char_val((d + 1) as nat);
                let ti = out@.take(i as int);
                assert(ti.drop_last() =~= v@.take(i - 1));
                assert(ti.last() == digit_char((d + 1) as nat));
                assert(digits_val(ti) == digits_val(v@.take(i - 1)) * 10 + d + 1);
                let vi = v@.take(i as int);
                assert(vi.drop_last() =~= v@.take(i - 1));
                assert(vi.last() == v@[i - 1]);
                assert(digits_val(vi) == digits_val(v@.take(i - 1)) * 10 + d);
                assert(digits_val(ti) == digits_val(vi) + 1);
                assert(out@ =~= ti + out@.skip(i as int));
                lemma_digits_val_concat(ti, out@.skip(i as int));
                lemma_dv_zeros(out@.skip(i as int));
                assert(digits_val(out@) == digits_val(ti) * pow10((n - i) as nat));
                assert((digits_val(vi) + 1) * pow10((n - i) as nat) == digits_val(v@) + 1);
                assert(forall|t: int|
                    0 <= t < n ==> is_digit_char(#[trigger] out@[t])) by {
                    assert forall|t: int| 0 <= t < n implies is_digit_char(#[trigger] out@[t]) by {
                        if t < i - 1 {
                            assert(out@[t] == v@.take(i as int)[t]);
                        } else if t == i - 1 {
                            lemma_digit_char_val((d + 1) as nat);
                        } else {
                            assert(out@[t] == '0');
                            assert(is_digit_char('0'));
                        }
                    }
                }
            }
            return out;
        } else {
            out.set(i - 1, digit_to_char(0));
            proof {
                lemma_digit_char_val(0);
                let vi = v@.take(i as int);
                assert(vi.drop_last() =~= v@.take(i - 1));
                assert(vi.last() == v@[i - 1]);
                assert(digit_val(v@[i - 1]) == 9);
                assert(digits_val(vi) == digits_val(v@.take(i - 1)) * 10 + 9);
                let a = digits_val(v@.take(i - 1));
                let pp = pow10((n - i) as nat);
                assert(pow10((n - i + 1) as nat) == 10 * pp) by {
                    lemma_pow10_adds(1, (n - i) as nat);
                    reveal_with_fuel(pow10, 3);
                }
                assert((a * 10 + 9 + 1) * pp == (a + 1) * (10 * pp)) by (nonlinear_arith);
                assert(digits_val(v@) + 1 == (a + 1) * pow10((n - i + 1) as nat));
            }
            i = i - 1;
        }
    }
    // Every digit was a nine: the result is a one followed by zeros.
    proof {
        assert(v@.take(0) =~= Seq::<char>::empty());
        assert(digits_val(v@.take(0)) == 0);
        assert(digits_val(v@) + 1 == 1 * pow10(n as nat));
    }
    let mut r: Vec<char> = Vec::new();
    r.push(digit_to_char(1));
    push_chars(&mut r, &out);
    proof {
        lemma_digit_char_val(1);
        assert(r@ =~= seq![digit_char(1)] + out@);
        lemma_digits_val_concat(seq![digit_char(1)], out@);
        lemma_dv_single(digit_char(1));
        lemma_dv_zeros(out@);
        assert(digits_val(r@) == 1 * pow10(n as nat));
        assert(forall|t: int| 0 <= t < r@.len() ==> is_digit_char(#[trigger] r@[t])) by {
            assert forall|t: int| 0 <= t < r@.len() implies is_digit_char(#[trigger] r@[t]) by {
                if t == 0 {
                    lemma_digit_char_val(1);
                } else {
                    assert(r@[t] == out@[t - 1]);
                    assert(is_digit_char('0'));
                }
            }
        }
    }
    r
}

/// Rounding a digit string at `precision` keeps the digits up to the cut
/// and rounds up exactly when the first dropped digit is five or more.
proof fn lemma_round_digits(i: Seq<char>, f: Seq<char>, p: nat)
    requires
        all_digits(i),
        all_digits(f),
        f.len() > p,
    ensures
        round_scaled(digits_val(i + f), f.len(), p) == digits_val(i + f.take(p as int)) + (
        if digit_val(f[p as int]) >= 5 {
            1nat
        } else {
            0nat
        }),
{
    let a = i + f.take(p as int);
    let b = f.skip(p as int);
    let k = (f.len() - p) as nat;
    assert(i + f =~= a + b);
    lemma_digits_val_concat(a, b);
    assert(all_digits(b));
    lemma_digits_val_bound(b);
    lemma_pow10_pos(k);
    lemma_fundamental_div_mod_converse(
        digits_val(i + f) as int,
        pow10(k) as int,
        digits_val(a) as int,
        digits_val(b) as int,
    );
    assert(digits_val(i + f) / pow10(k) == digits_val(a));
    assert(digits_val(i + f) % pow10(k) == digits_val(b));
    // The bump condition is decided by the first dropped digit.
    let v = digit_val(f[p as int]);
    assert(b =~= seq![f[p as int]] + b.skip(1));
    assert(b.skip(1) =~= f.skip(p as int + 1));
    lemma_digits_val_concat(seq![f[p as int]], b.skip(1));
    lemma_dv_single(f[p as int]);
    assert(all_digits(b.skip(1)));
    lemma_digits_val_bound(b.skip(1));
    let ee = pow10((k - 1) as nat);
    assert(pow10(k) == 10 * ee) by {
        lemma_pow10_adds(1, (k - 1) as nat);
        reveal_with_fuel(pow10, 3);
    }
    assert(digits_val(b) == v * ee + digits_val(b.skip(1)));
    lemma_pow10_pos((k - 1) as nat);
    if v >= 5 {
        assert(2 * digits_val(b) >= 10 * ee) by (nonlinear_arith)
            requires
                digits_val(b) == v * ee + digits_val(b.skip(1)),
                v >= 5,
                ee >= 1,
        ;
    } else {
        assert(2 * digits_val(b) < 10 * ee) by (nonlinear_arith)
            requires
                digits_val(b) == v * ee + digits_val(b.skip(1)),
                v <= 4,
                digits_val(b.skip(1)) < ee,
        ;
    }
}

/// Render a parsed number whose fraction is at most `precision` digits:
/// no rounding, only zero padding.
#[verifier::rlimit(50)]
fn render_fixed_pad(neg: bool, ipart: &Vec<char>, fpart: &Vec<char>, precision: usize) -> (r:
    Vec<char>)
    requires
        all_digits(ipart@),
        all_digits(fpart@),
        fpart@.len() <= precision,
    ensures
        r@ == spec_fixed_output(
            neg,
            digits_val(ipart@ + fpart@),
            fpart@.len() as nat,
            precision as nat,
        ),
{
    let ghost mant = digits_val(ipart@ + fpart@);
    let ghost f = fpart@.len() as nat;
    let ghost p = precision as nat;
    let ghost m = round_scaled(mant, f, p);
    let mut out: Vec<char> = Vec::new();
    if neg {
        out.push('-');
    }
    {
        // No rounding; the fraction is the parsed digits plus zero padding.
        let int_digits = strip_leading_zeros(ipart);
        push_chars(&mut out, &int_digits);
        proof {
            let kk = pow10((p - f) as nat);
            lemma_pow10_pos((p - f) as nat);
            lemma_pow10_pos(f);
            lemma_pow10_adds(f, (p - f) as nat);
            lemma_digits_val_concat(ipart@, fpart@);
            lemma_digits_val_bound(fpart@);
            assert(m == mant * kk);
            assert(m == digits_val(ipart@) * pow10(p) + digits_val(fpart@) * kk)
                by (nonlinear_arith)
                requires
                    m == mant * kk,
                    mant == digits_val(ipart@) * pow10(f) + digits_val(fpart@),
                    pow10(p) == pow10(f) * kk,
            ;
            assert(digits_val(fpart@) * kk < pow10(p)) by (nonlinear_arith)
                requires
                    digits_val(fpart@) < pow10(f),
                    kk >= 1,
                    pow10(p) == pow10(f) * kk,
            ;
            lemma_fundamental_div_mod_converse(
                m as int,
                pow10(p) as int,
                digits_val(ipart@) as int,
                (digits_val(fpart@) * kk) as int,
            );
            assert(m / pow10(p) == digits_val(ipart@));
            assert(m % pow10(p) == digits_val(fpart@) * kk);
        }
        if precision > 0 {
            out.push('.');
            push_chars(&mut out, fpart);
            push_padded_digits(&mut out, 0, precision - fpart.len());
            proof {
                lemma_pow10_pos((p - f) as nat);
                lemma_padded_mul_pow(digits_val(fpart@), f, (p - f) as nat);
                lemma_padded_roundtrip(fpart@);
                assert(padded_digits(m % pow10(p), p) == fpart@ + padded_digits(
                    0,
                    (p - f) as nat,
                ));
            }
        }
        proof {
            let sign: Seq<char> = if neg {
                seq!['-']
            } else {
                Seq::empty()
            };
            if precision > 0 {
                assert(out@ =~= sign + dec_digits(m / pow10(p)) + (seq!['.'] + padded_digits(
                    m % pow10(p),
                    p,
                )));
            } else {
                assert(out@ =~= sign + dec_digits(m / pow10(p)) + Seq::empty());
            }
        }
    }
    out
}

/// Render a parsed number whose fraction exceeds `precision` digits:
/// the digit characters are rounded half away from zero.
#[verifier::rlimit(100)]
fn render_fixed_round(neg: bool, ipart: &Vec<char>, fpart: &Vec<char>, precision: usize) -> (r:
    Vec<char>)
    requires
        all_digits(ipart@),
        all_digits(fpart@),
        fpart@.len() > precision,
    ensures
        r@ == spec_fixed_output(
            neg,
            digits_val(ipart@ + fpart@),
            fpart@.len() as nat,
            precision as nat,
        ),
{
    let ghost mant = digits_val(ipart@ + fpart@);
    let ghost f = fpart@.len() as nat;
    let ghost p = precision as nat;
    let ghost m = round_scaled(mant, f, p);
    let mut out: Vec<char> = Vec::new();
    if neg {
        out.push('-');
    }
    {
        // Keep `precision` fraction digits and round by the next one.
        let mut combined = copy_range(ipart, 0, ipart.len());
        let kept = copy_range(fpart, 0, precision);
        push_chars(&mut combined, &kept);
        proof {
            assert(combined@ =~= ipart@ + fpart@.take(precision as int));
        }
        let next = fpart[precision];
        proof {
            assert(is_digit_char(fpart@[precision as int]));
        }
        let roundup = (next as u32) >= 53;
        proof {
            lemma_digit_val_char(fpart@[precision as int]);
            assert(roundup == (digit_val(fpart@[precision as int]) >= 5));
            lemma_round_digits(ipart@, fpart@, p);
            assert(forall|t: int|
                0 <= t < combined@.len() ==> is_digit_char(#[trigger] combined@[t])) by {
                assert forall|t: int| 0 <= t < combined@.len() implies is_digit_char(
                    #[trigger] combined@[t],
                ) by {
                    if t < ipart@.len() {
                        assert(combined@[t] == ipart@[t]);
                    } else {
                        assert(combined@[t] == fpart@[t - ipart@.len()]);
                    }
                }
            }
        }
        let rounded: Vec<char> = if roundup {
            increment_digits(&combined)
        } else {
            let same = copy_range(&combined, 0, combined.len());
            proof {
                assert(same@ =~= combined@);
            }
            same
        };
        proof {
            assert(digits_val(rounded@) == m);
            assert(all_digits(rounded@));
        }
        let ll = rounded.len();
        proof {
            assert(combined@.len() >= precision);
            assert(ll >= precision);
        }
        let int_raw = copy_range(&rounded, 0, ll - precision);
        let frac_digits = copy_range(&rounded, ll - precision, ll);
        proof {
            assert(rounded@ =~= int_raw@ + frac_digits@);
            lemma_digits_val_concat(int_raw@, frac_digits@);
            assert(all_digits(frac_digits@));
            assert(all_digits(int_raw@));
            lemma_digits_val_bound(frac_digits@);
            lemma_pow10_pos(p);
            lemma_fundamental_div_mod_converse(
                m as int,
                pow10(p) as int,
                digits_val(int_raw@) as int,
                digits_val(frac_digits@) as int,
            );
            assert(m / pow10(p) == digits_val(int_raw@));
            assert(m % pow10(p) == digits_val(frac_digits@));
            lemma_padded_roundtrip(frac_digits@);
        }
        let int_digits = strip_leading_zeros(&int_raw);
        push_chars(&mut out, &int_digits);
        if precision > 0 {
            out.push('.');
            push_chars(&mut out, &frac_digits);
        }
        proof {
            let sign: Seq<char> = if neg {
                seq!['-']
            } else {
                Seq::empty()
            };
            if precision > 0 {
                assert(out@ =~= sign + dec_digits(m / pow10(p)) + (seq!['.'] + padded_digits(
                    m % pow10(p),
                    p,
                )));
            } else {
                assert(out@ =~= sign + dec_digits(m / pow10(p)) + Seq::empty());
            }
        }
    }
    out
}

/// Render a parsed number at `precision` fractional digits, rounding the
/// digit characters half away from zero.
pub fn render_fixed(neg: bool, ipart: &Vec<char>, fpart: &Vec<char>, precision: usize) -> (r:
    Vec<char>)
    requires
        all_digits(ipart@),
        all_digits(fpart@),
    ensures
        r@ == spec_fixed_output(
            neg,
            digits_val(ipart@ + fpart@),
            fpart@.len() as nat,
            precision as nat,
        ),
{
    if fpart.len() <= precision {
        render_fixed_pad(neg, ipart, fpart, precision)
    } else {
        render_fixed_round(neg, ipart, fpart, precision)
    }
}

} // verus!
