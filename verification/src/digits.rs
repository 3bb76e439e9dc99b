//! Decimal digit sequences: powers of ten, the digit string of a number,
//! zero-padded digit strings of a fixed width, thousands grouping, and the
//! numeric value of a digit string, with executable emitters for each.

use vstd::prelude::*;

use crate::chars::{digit_char, digit_to_char, digit_val, is_digit_char, push_chars};
use crate::chars::{lemma_digit_char_val, lemma_digit_val_char};

verus! {

/// Ten to the power `e`.
pub open spec fn pow10(e: nat) -> nat
    decreases e,
{
    if e == 0 {
        1
    } else {
        10 * pow10((e - 1) as nat)
    }
}

pub broadcast proof fn lemma_pow10_pos(e: nat)
    ensures
        #[trigger] pow10(e) >= 1,
    decreases e,
{
    if e > 0 {
        lemma_pow10_pos((e - 1) as nat);
    }
}

pub proof fn lemma_pow10_adds(a: nat, b: nat)
    ensures
        pow10(a + b) == pow10(a) * pow10(b),
    decreases a,
{
    if a == 0 {
        assert(pow10(b) == 1 * pow10(b));
    } else {
        lemma_pow10_adds((a - 1) as nat, b);
        assert(pow10(a + b) == 10 * pow10((a + b - 1) as nat));
        assert(10 * (pow10((a - 1) as nat) * pow10(b)) == (10 * pow10((a - 1) as nat)) * pow10(b))
            by (nonlinear_arith);
    }
}

pub proof fn lemma_pow10_mono(a: nat, b: nat)
    requires
        a <= b,
    ensures
        pow10(a) <= pow10(b),
    decreases b,
{
    if a < b {
        lemma_pow10_mono(a, (b - 1) as nat);
        lemma_pow10_pos((b - 1) as nat);
    }
}

/// `pow10(38)` is the largest power of ten that fits in a `u128`.
pub proof fn lemma_pow10_u128()
    ensures
        pow10(38) == 100000000000000000000000000000000000000,
        pow10(39) > 2 * (u128::MAX as nat),
{
    reveal_with_fuel(pow10, 41);
    assert(pow10(38) == 100000000000000000000000000000000000000);
    assert(pow10(39) == 1000000000000000000000000000000000000000);
}

/// The decimal digit string of `n`, without leading zeros (`0` gives `"0"`).
pub open spec fn dec_digits(n: nat) -> Seq<char>
    decreases n,
{
    if n < 10 {
        seq![digit_char(n)]
    } else {
        dec_digits(n / 10).push(digit_char(n % 10))
    }
}

/// The low `width` decimal digits of `n`, zero-padded to exactly `width`.
pub open spec fn padded_digits(n: nat, width: nat) -> Seq<char>
    decreases width,
{
    if width == 0 {
        Seq::empty()
    } else {
        padded_digits(n / 10, (width - 1) as nat).push(digit_char(n % 10))
    }
}

/// The digit string of `n` grouped from the right in runs of three,
/// with `thousand` between runs.
pub open spec fn grouped_digits(n: nat, thousand: Seq<char>) -> Seq<char>
    decreases n,
{
    if n < 1000 {
        dec_digits(n)
    } else {
        grouped_digits(n / 1000, thousand) + thousand + padded_digits(n % 1000, 3)
    }
}

/// How many times `c` occurs in `s`.
pub open spec fn count_char(s: Seq<char>, c: char) -> nat
    decreases s.len(),
{
    if s.len() == 0 {
        0
    } else {
        count_char(s.drop_last(), c) + (if s.last() == c {
            1nat
        } else {
            0nat
        })
    }
}

pub proof fn lemma_count_concat(a: Seq<char>, b: Seq<char>, c: char)
    ensures
        count_char(a + b, c) == count_char(a, c) + count_char(b, c),
    decreases b.len(),
{
    if b.len() == 0 {
        assert(a + b =~= a);
    } else {
        assert((a + b).drop_last() =~= a + b.drop_last());
        assert((a + b).last() == b.last());
        lemma_count_concat(a, b.drop_last(), c);
    }
}

pub proof fn lemma_count_absent(s: Seq<char>, c: char)
    requires
        forall|i: int| 0 <= i < s.len() ==> s[i] != c,
    ensures
        count_char(s, c) == 0,
    decreases s.len(),
{
    if s.len() > 0 {
        lemma_count_absent(s.drop_last(), c);
    }
}

pub proof fn lemma_count_single(c: char)
    ensures
        count_char(seq![c], c) == 1,
{
    assert(seq![c].drop_last().len() == 0);
    assert(count_char(seq![c].drop_last(), c) == 0);
    assert(seq![c].last() == c);
}

/// Every character of a grouped digit string is a digit or comes from the
/// separator; the string is never empty and starts with a digit.
pub proof fn lemma_grouped_chars(n: nat, t: Seq<char>)
    ensures
        grouped_digits(n, t).len() >= 1,
        is_digit_char(grouped_digits(n, t)[0]),
        forall|i: int|
            0 <= i < grouped_digits(n, t).len() ==> is_digit_char(#[trigger] grouped_digits(n, t)[i])
                || t.contains(grouped_digits(n, t)[i]),
    decreases n,
{
    if n < 1000 {
        lemma_dec_digits_props(n);
    } else {
        lemma_grouped_chars(n / 1000, t);
        lemma_padded_all_digits(n % 1000, 3);
        let g = grouped_digits(n, t);
        let g0 = grouped_digits(n / 1000, t);
        assert(g[0] == g0[0]);
        assert forall|i: int| 0 <= i < g.len() implies is_digit_char(#[trigger] g[i])
            || t.contains(g[i]) by {
            if i < g0.len() {
                assert(g[i] == g0[i]);
            } else if i < g0.len() + t.len() {
                assert(g[i] == t[i - g0.len()]);
            } else {
                assert(g[i] == padded_digits(n % 1000, 3)[i - g0.len() - t.len()]);
            }
        }
    }
}

/// Whether every character of `s` is a decimal digit.
pub open spec fn all_digits(s: Seq<char>) -> bool {
    forall|i: int| 0 <= i < s.len() ==> is_digit_char(#[trigger] s[i])
}

/// The numeric value of a digit string.
pub open spec fn digits_val(s: Seq<char>) -> nat
    decreases s.len(),
{
    if s.len() == 0 {
        0
    } else {
        digits_val(s.drop_last()) * 10 + digit_val(s.last())
    }
}

pub proof fn lemma_dec_digits_props(n: nat)
    ensures
        dec_digits(n).len() >= 1,
        all_digits(dec_digits(n)),
        n < pow10(dec_digits(n).len()),
        n > 0 ==> dec_digits(n)[0] != '0',
    decreases n,
{
    broadcast use lemma_digit_char_val;

    if n < 10 {
        reveal_with_fuel(pow10, 3);
        assert(pow10(1) == 10);
        if n > 0 {
            assert(digit_char(n) as u32 == 48 + n);
            assert('0' as u32 == 48);
        }
    } else {
        lemma_dec_digits_props(n / 10);
        let l = dec_digits(n / 10).len();
        assert(pow10(l + 1) == 10 * pow10(l));
        assert(n / 10 < pow10(l) ==> n < 10 * pow10(l)) by (nonlinear_arith);
        assert(dec_digits(n)[0] == dec_digits(n / 10)[0]);
    }
}

pub proof fn lemma_dec_digits_len_le(n: nat, w: nat)
    requires
        n < pow10(w),
        w >= 1,
    ensures
        dec_digits(n).len() <= w,
    decreases w,
{
    if n < 10 {
    } else {
        assert(pow10(w) == 10 * pow10((w - 1) as nat));
        assert(w >= 2) by {
            if w == 1 {
                reveal_with_fuel(pow10, 3);
                assert(pow10(1) == 10);
            }
        }
        assert(n / 10 < pow10((w - 1) as nat)) by (nonlinear_arith)
            requires
                n < 10 * pow10((w - 1) as nat),
        ;
        lemma_dec_digits_len_le(n / 10, (w - 1) as nat);
    }
}

pub proof fn lemma_padded_all_digits(n: nat, w: nat)
    ensures
        all_digits(padded_digits(n, w)),
        padded_digits(n, w).len() == w,
    decreases w,
{
    broadcast use lemma_digit_char_val;

    if w > 0 {
        lemma_padded_all_digits(n / 10, (w - 1) as nat);
    }
}

/// A padded digit string is the zero padding followed by the plain digits.
pub proof fn lemma_padded_zeros_dec(n: nat, w: nat)
    requires
        n < pow10(w),
        w >= 1,
    ensures
        dec_digits(n).len() <= w,
        padded_digits(n, w) == padded_digits(0, (w - dec_digits(n).len()) as nat) + dec_digits(n),
    decreases w,
{
    lemma_dec_digits_len_le(n, w);
    if n < 10 {
        assert(padded_digits(n, w) == padded_digits(0, (w - 1) as nat).push(digit_char(n)));
        assert(padded_digits(0, (w - 1) as nat) + dec_digits(n) =~= padded_digits(
            0,
            (w - 1) as nat,
        ).push(digit_char(n)));
    } else {
        assert(pow10(w) == 10 * pow10((w - 1) as nat));
        assert(w >= 2) by {
            if w == 1 {
                reveal_with_fuel(pow10, 3);
                assert(pow10(1) == 10);
            }
        }
        assert(n / 10 < pow10((w - 1) as nat)) by (nonlinear_arith)
            requires
                n < 10 * pow10((w - 1) as nat),
        ;
        lemma_padded_zeros_dec(n / 10, (w - 1) as nat);
        let k = (w - dec_digits(n).len()) as nat;
        assert((padded_digits(0, k) + dec_digits(n / 10)).push(digit_char(n % 10))
            =~= padded_digits(0, k) + dec_digits(n));
    }
}

/// Multiplying by a power of ten appends zeros to a padded digit string.
pub proof fn lemma_padded_mul_pow(a: nat, w: nat, k: nat)
    ensures
        padded_digits(a * pow10(k), w + k) == padded_digits(a, w) + padded_digits(0, k),
    decreases k,
{
    if k == 0 {
        assert(pow10(0) == 1);
        assert(a * pow10(0) == a) by (nonlinear_arith)
            requires
                pow10(0) == 1,
        ;
        assert(padded_digits(a, w) + padded_digits(0, 0) =~= padded_digits(a, w));
    } else {
        let b = a * pow10((k - 1) as nat);
        assert(a * pow10(k) == b * 10) by (nonlinear_arith)
            requires
                pow10(k) == 10 * pow10((k - 1) as nat),
                b == a * pow10((k - 1) as nat),
        ;
        assert((b * 10) / 10 == b && (b * 10) % 10 == 0) by (nonlinear_arith);
        lemma_padded_mul_pow(a, w, (k - 1) as nat);
        assert(padded_digits(a * pow10(k), w + k) == padded_digits(b, (w + k - 1) as nat).push(
            digit_char(0),
        ));
        assert((padded_digits(a, w) + padded_digits(0, (k - 1) as nat)).push(digit_char(0))
            =~= padded_digits(a, w) + padded_digits(0, k));
    }
}

/// Concatenation law for the value of digit strings.
pub proof fn lemma_digits_val_concat(a: Seq<char>, b: Seq<char>)
    ensures
        digits_val(a + b) == digits_val(a) * pow10(b.len()) + digits_val(b),
    decreases b.len(),
{
    if b.len() == 0 {
        assert(a + b =~= a);
        assert(digits_val(a) * 1 == digits_val(a));
    } else {
        assert((a + b).drop_last() =~= a + b.drop_last());
        assert((a + b).last() == b.last());
        lemma_digits_val_concat(a, b.drop_last());
        let bl = (b.len() - 1) as nat;
        assert(pow10(bl + 1) == 10 * pow10(bl));
        assert((digits_val(a) * pow10(bl) + digits_val(b.drop_last())) * 10 == digits_val(a) * (10
            * pow10(bl)) + digits_val(b.drop_last()) * 10) by (nonlinear_arith);
    }
}

pub proof fn lemma_digits_val_bound(s: Seq<char>)
    requires
        all_digits(s),
    ensures
        digits_val(s) < pow10(s.len()),
    decreases s.len(),
{
    if s.len() == 0 {
    } else {
        assert(is_digit_char(s.last()));
        lemma_digit_val_char(s.last());
        assert(all_digits(s.drop_last()));
        lemma_digits_val_bound(s.drop_last());
        let l = (s.len() - 1) as nat;
        assert(pow10(l + 1) == 10 * pow10(l));
        assert(digits_val(s.drop_last()) <= pow10(l) - 1);
        assert(digits_val(s.drop_last()) * 10 <= (pow10(l) - 1) * 10) by (nonlinear_arith)
            requires
                digits_val(s.drop_last()) <= pow10(l) - 1,
        ;
    }
}

/// Reading back the value of a padded digit string gives the string itself.
pub proof fn lemma_padded_roundtrip(f: Seq<char>)
    requires
        all_digits(f),
    ensures
        padded_digits(digits_val(f), f.len()) == f,
    decreases f.len(),
{
    if f.len() == 0 {
        assert(padded_digits(0, 0) =~= f);
    } else {
        assert(is_digit_char(f.last()));
        lemma_digit_val_char(f.last());
        assert(all_digits(f.drop_last()));
        lemma_padded_roundtrip(f.drop_last());
        let n = digits_val(f);
        let a = digits_val(f.drop_last());
        let v = digit_val(f.last());
        assert(n / 10 == a && n % 10 == v) by (nonlinear_arith)
            requires
                n == a * 10 + v,
                v < 10,
        ;
        assert(padded_digits(n, f.len()) =~= f);
    }
}

/// Reading back the value of a digit string without leading zeros
/// gives the string itself.
pub proof fn lemma_dec_roundtrip(j: Seq<char>)
    requires
        all_digits(j),
        j.len() >= 1,
        j.len() == 1 || j[0] != '0',
    ensures
        dec_digits(digits_val(j)) == j,
    decreases j.len(),
{
    assert(is_digit_char(j.last()));
    lemma_digit_val_char(j.last());
    if j.len() == 1 {
        assert(j.drop_last().len() == 0);
        assert(digits_val(j.drop_last()) == 0);
        assert(digits_val(j) == digit_val(j.last()));
        assert(dec_digits(digits_val(j)) =~= j);
    } else {
        let d = j.drop_last();
        assert(all_digits(d));
        assert(d[0] != '0');
        assert(is_digit_char(d[0]));
        lemma_digit_val_char(d[0]);
        assert(digit_val(d[0]) >= 1) by {
            if digit_val(d[0]) == 0 {
                assert(digit_char(0) as u32 == 48);
                assert('0' as u32 == 48);
                assert(d[0] == digit_char(digit_val(d[0])));
            }
        }
        assert(d =~= seq![d[0]] + d.skip(1));
        lemma_digits_val_concat(seq![d[0]], d.skip(1));
        assert(seq![d[0]].drop_last().len() == 0);
        assert(digits_val(seq![d[0]].drop_last()) == 0);
        assert(seq![d[0]].last() == d[0]);
        assert(digits_val(seq![d[0]]) == digit_val(d[0]));
        lemma_pow10_pos(d.skip(1).len());
        assert(digit_val(d[0]) * pow10(d.skip(1).len()) >= 1 * pow10(d.skip(1).len()))
            by (nonlinear_arith)
            requires
                digit_val(d[0]) >= 1,
        ;
        assert(digits_val(d) >= 1);
        lemma_dec_roundtrip(d);
        let n = digits_val(j);
        let a = digits_val(d);
        let v = digit_val(j.last());
        assert(n / 10 == a && n % 10 == v) by (nonlinear_arith)
            requires
                n == a * 10 + v,
                v < 10,
        ;
        assert(n >= 10) by (nonlinear_arith)
            requires
                n == a * 10 + v,
                a >= 1,
        ;
        assert(dec_digits(n) =~= j);
    }
}

/// Check that every character of `v` is a decimal digit.
pub fn check_digits(v: &Vec<char>) -> (b: bool)
    ensures
        b == all_digits(v@),
{
    let mut i: usize = 0;
    while i < v.len()
        invariant
            i <= v@.len(),
            forall|t: int| 0 <= t < i ==> is_digit_char(#[trigger] v@[t]),
        decreases v@.len() - i,
    {
        let c = v[i];
        let u = c as u32;
        if u < 48 || u > 57 {
            proof {
                assert(!is_digit_char(v@[i as int]));
            }
            return false;
        }
        i = i + 1;
    }
    true
}

/// The value of a digit string of zeros is zero.
pub proof fn lemma_dv_zeros(z: Seq<char>)
    requires
        forall|i: int| 0 <= i < z.len() ==> z[i] == '0',
    ensures
        digits_val(z) == 0,
    decreases z.len(),
{
    if z.len() > 0 {
        lemma_dv_zeros(z.drop_last());
        assert(z.last() == '0');
        assert(digit_val('0') == 0);
    }
}

/// The value of a one-character digit string.
pub proof fn lemma_dv_single(c: char)
    ensures
        digits_val(seq![c]) == digit_val(c),
{
    assert(seq![c].drop_last().len() == 0);
    assert(digits_val(seq![c].drop_last()) == 0);
    assert(seq![c].last() == c);
}

/// Count how many decimal digits `n` has.
pub fn dec_len_u128(n: u128) -> (l: usize)
    ensures
        l == dec_digits(n as nat).len(),
{
    let mut d: usize = 1;
    let mut x: u128 = n;
    while x >= 10
        invariant
            dec_digits(n as nat).len() == d - 1 + dec_digits(x as nat).len(),
            d >= 1,
            d <= 40,
            x <= n,
        decreases x,
    {
        proof {
            lemma_dec_len_bound_u128(n as nat);
            lemma_dec_digits_props((x / 10) as nat);
        }
        x = x / 10;
        d = d + 1;
    }
    d
}

proof fn lemma_dec_len_bound_u128(n: nat)
    requires
        n <= u128::MAX,
    ensures
        dec_digits(n).len() <= 39,
{
    lemma_pow10_u128();
    lemma_pow10_mono(38, 39);
    lemma_dec_digits_len_le(n, 39);
}

/// Append the plain decimal digits of `n`.
pub fn push_dec_digits(out: &mut Vec<char>, n: u128)
    ensures
        final(out)@ == old(out)@ + dec_digits(n as nat),
    decreases n,
{
    if n < 10 {
        out.push(digit_to_char(n as u8));
        proof {
            assert(old(out)@.push(digit_char(n as nat)) =~= old(out)@ + dec_digits(n as nat));
        }
    } else {
        push_dec_digits(out, n / 10);
        out.push(digit_to_char((n % 10) as u8));
        proof {
            assert((old(out)@ + dec_digits((n / 10) as nat)).push(digit_char((n % 10) as nat))
                =~= old(out)@ + dec_digits(n as nat));
        }
    }
}

/// Append the low `w` digits of `n`, zero-padded to exactly `w` characters.
pub fn push_padded_digits(out: &mut Vec<char>, n: u128, w: usize)
    requires
        (n as nat) < pow10(w as nat),
    ensures
        final(out)@ == old(out)@ + padded_digits(n as nat, w as nat),
{
    if w == 0 {
        proof {
            assert(old(out)@ + padded_digits(n as nat, 0) =~= old(out)@);
        }
        return ;
    }
    let dlen = dec_len_u128(n);
    proof {
        lemma_padded_zeros_dec(n as nat, w as nat);
    }
    let zeros: usize = w - dlen;
    let mut pushed: usize = 0;
    while pushed < zeros
        invariant
            pushed <= zeros,
            out@ == old(out)@ + padded_digits(0, pushed as nat),
        decreases zeros - pushed,
    {
        out.push(digit_to_char(0));
        proof {
            assert((old(out)@ + padded_digits(0, pushed as nat)).push(digit_char(0)) =~= old(out)@
                + padded_digits(0, (pushed + 1) as nat));
        }
        pushed = pushed + 1;
    }
    push_dec_digits(out, n);
    proof {
        assert((old(out)@ + padded_digits(0, zeros as nat)) + dec_digits(n as nat) =~= old(out)@
            + (padded_digits(0, zeros as nat) + dec_digits(n as nat)));
    }
}

/// Append the digits of `n` grouped in threes by `thousand`.
pub fn push_grouped_digits(out: &mut Vec<char>, n: u128, thousand: &Vec<char>)
    ensures
        final(out)@ == old(out)@ + grouped_digits(n as nat, thousand@),
    decreases n,
{
    if n < 1000 {
        push_dec_digits(out, n);
    } else {
        push_grouped_digits(out, n / 1000, thousand);
        push_chars(out, thousand);
        proof {
            reveal_with_fuel(pow10, 5);
            assert(pow10(3) == 1000);
        }
        push_padded_digits(out, n % 1000, 3);
        proof {
            assert(((old(out)@ + grouped_digits((n / 1000) as nat, thousand@)) + thousand@)
                + padded_digits((n % 1000) as nat, 3) =~= old(out)@ + grouped_digits(
                n as nat,
                thousand@,
            ));
        }
    }
}

} // verus!
