//! Character-level utilities shared by the formatting and unformatting paths:
//! conversions between `str`/`String` and `Vec<char>`, string equality,
//! substring replacement, trimming and ASCII upper-casing.

use vstd::prelude::*;

verus! {

/// Whether a character is a decimal digit.
pub open spec fn is_digit_char(c: char) -> bool {
    48 <= c as u32 <= 57
}

/// The numeric value of a digit character.
pub open spec fn digit_val(c: char) -> nat {
    (c as u32 - 48) as nat
}

/// The character for a single decimal digit value.
pub open spec fn digit_char(d: nat) -> char {
    ((48 + d) as u8) as char
}

/// Turn a digit value into its character.
pub fn digit_to_char(d: u8) -> (c: char)
    requires
        d < 10,
    ensures
        c == digit_char(d as nat),
{
    (48 + d) as char
}

pub broadcast proof fn lemma_digit_char_val(d: nat)
    requires
        d < 10,
    ensures
        is_digit_char(#[trigger] digit_char(d)),
        digit_val(digit_char(d)) == d,
{
    assert(digit_char(d) as u32 == 48 + d);
}

pub broadcast proof fn lemma_digit_val_char(c: char)
    requires
        is_digit_char(c),
    ensures
        digit_val(c) < 10,
        #[trigger] digit_char(digit_val(c)) == c,
{
    assert(digit_char(digit_val(c)) as u32 == c as u32);
}

/// Collect the characters of a string slice.
pub fn str_to_chars(s: &str) -> (v: Vec<char>)
    ensures
        v@ == s@,
{
    let n = s.unicode_len();
    let mut v: Vec<char> = Vec::new();
    let mut i: usize = 0;
    while i < n
        invariant
            i <= n,
            n == s@.len(),
            v@ == s@.take(i as int),
        decreases n - i,
    {
        v.push(s.get_char(i));
        proof {
            assert(v@ =~= s@.take(i + 1 as int));
        }
        i = i + 1;
    }
    proof {
        assert(v@ =~= s@);
    }
    v
}

/// Build a `String` from a sequence of characters.
/// Relies on `core::iter::Iterator::collect` for `String`, which
/// concatenates exactly the characters of the iterator in order.
#[verifier::external_body]
pub fn chars_to_string(v: &Vec<char>) -> (s: String)
    ensures
        s@ == v@,
{
    v.iter().collect()
}

/// Character-wise equality of two string slices.
pub fn str_eq(a: &str, b: &str) -> (r: bool)
    ensures
        r == (a@ == b@),
{
    let na = a.unicode_len();
    let nb = b.unicode_len();
    if na != nb {
        proof {
            assert(a@ != b@);
        }
        return false;
    }
    let mut i: usize = 0;
    while i < na
        invariant
            i <= na,
            na == a@.len(),
            na == b@.len(),
            a@.take(i as int) == b@.take(i as int),
        decreases na - i,
    {
        if a.get_char(i) != b.get_char(i) {
            proof {
                assert(a@[i as int] != b@[i as int]);
            }
            return false;
        }
        proof {
            assert(a@.take(i + 1 as int) =~= b@.take(i + 1 as int));
        }
        i = i + 1;
    }
    proof {
        assert(a@.take(na as int) =~= a@);
        assert(b@.take(na as int) =~= b@);
    }
    true
}

/// Append every character of `src` to `out`.
pub fn push_chars(out: &mut Vec<char>, src: &Vec<char>)
    ensures
        final(out)@ == old(out)@ + src@,
{
    let mut i: usize = 0;
    while i < src.len()
        invariant
            i <= src@.len(),
            out@ == old(out)@ + src@.take(i as int),
        decreases src@.len() - i,
    {
        out.push(src[i]);
        proof {
            assert(old(out)@ + src@.take(i + 1 as int) =~= (old(out)@ + src@.take(i as int)).push(
                src@[i as int],
            ));
        }
        i = i + 1;
    }
    proof {
        assert(src@.take(src@.len() as int) =~= src@);
    }
}

/// Replacement of every non-overlapping occurrence of `from` in `s` by `to`,
/// scanning from the left. An empty `from` matches at every character
/// boundary, as `str::replace` does.
pub open spec fn replace_all(s: Seq<char>, from: Seq<char>, to: Seq<char>) -> Seq<char>
    decreases s.len(),
{
    if from.len() == 0 {
        if s.len() == 0 {
            to
        } else {
            to + seq![s[0]] + replace_all(s.skip(1), from, to)
        }
    } else if s.len() < from.len() {
        s
    } else if s.take(from.len() as int) == from {
        to + replace_all(s.skip(from.len() as int), from, to)
    } else {
        seq![s[0]] + replace_all(s.skip(1), from, to)
    }
}

/// Whether `from` occurs in `s` at position `i`.
fn matches_at(s: &Vec<char>, i: usize, from: &Vec<char>) -> (r: bool)
    requires
        i + from@.len() <= s@.len(),
    ensures
        r == (s@.subrange(i as int, i + from@.len()) == from@),
{
    let slen = s.len();
    let mut j: usize = 0;
    while j < from.len()
        invariant
            j <= from@.len(),
            i + from@.len() <= s@.len(),
            slen == s@.len(),
            s@.subrange(i as int, i + j) == from@.take(j as int),
        decreases from@.len() - j,
    {
        if s[i + j] != from[j] {
            proof {
                assert(s@.subrange(i as int, i + from@.len())[j as int] != from@[j as int]);
            }
            return false;
        }
        proof {
            assert(s@.subrange(i as int, i + j + 1) =~= from@.take(j + 1 as int));
        }
        j = j + 1;
    }
    proof {
        assert(s@.subrange(i as int, i + from@.len()) =~= from@);
    }
    true
}

/// Replace every non-overlapping occurrence of `from` in `s` by `to`.
pub fn replace_chars(s: &Vec<char>, from: &Vec<char>, to: &Vec<char>) -> (r: Vec<char>)
    ensures
        r@ == replace_all(s@, from@, to@),
{
    let mut out: Vec<char> = Vec::new();
    let mut i: usize = 0;
    proof {
        assert(s@.skip(0) =~= s@);
        assert(out@ + replace_all(s@, from@, to@) =~= replace_all(s@, from@, to@));
    }
    if from.len() == 0 {
        while i < s.len()
            invariant
                i <= s@.len(),
                replace_all(s@, from@, to@) == out@ + replace_all(s@.skip(i as int), from@, to@),
                from@.len() == 0,
            decreases s@.len() - i,
        {
            push_chars(&mut out, to);
            out.push(s[i]);
            proof {
                assert(s@.skip(i as int)[0] == s@[i as int]);
                assert(s@.skip(i as int).skip(1) =~= s@.skip(i + 1));
            }
            i = i + 1;
        }
        push_chars(&mut out, to);
        proof {
            assert(s@.skip(s@.len() as int) =~= Seq::<char>::empty());
        }
        return out;
    }
    while i < s.len()
        invariant
            i <= s@.len(),
            replace_all(s@, from@, to@) == out@ + replace_all(s@.skip(i as int), from@, to@),
            from@.len() > 0,
        decreases s@.len() - i,
    {
        if from.len() <= s.len() - i && matches_at(s, i, from) {
            push_chars(&mut out, to);
            proof {
                assert(s@.skip(i as int).take(from@.len() as int) =~= s@.subrange(
                    i as int,
                    i + from@.len(),
                ));
                assert(s@.skip(i as int).skip(from@.len() as int) =~= s@.skip(
                    i + from@.len(),
                ));
            }
            i = i + from.len();
        } else {
            out.push(s[i]);
            proof {
                let rem = s@.skip(i as int);
                assert(rem[0] == s@[i as int]);
                assert(rem.skip(1) =~= s@.skip(i + 1));
                if rem.len() >= from@.len() {
                    assert(rem.take(from@.len() as int) =~= s@.subrange(
                        i as int,
                        i + from@.len(),
                    ));
                }
            }
            i = i + 1;
        }
    }
    proof {
        assert(s@.skip(s@.len() as int) =~= Seq::<char>::empty());
    }
    out
}

/// Copy the characters of `s` between `from` and `to`.
pub fn copy_range(s: &Vec<char>, from: usize, to: usize) -> (r: Vec<char>)
    requires
        from <= to <= s@.len(),
    ensures
        r@ == s@.subrange(from as int, to as int),
{
    let mut r: Vec<char> = Vec::new();
    let mut i: usize = from;
    while i < to
        invariant
            from <= i <= to <= s@.len(),
            r@ == s@.subrange(from as int, i as int),
        decreases to - i,
    {
        r.push(s[i]);
        proof {
            assert(s@.subrange(from as int, i + 1) =~= s@.subrange(from as int, i as int).push(
                s@[i as int],
            ));
        }
        i = i + 1;
    }
    r
}

/// The sequence without leading and trailing spaces.
pub open spec fn trim_spaces(s: Seq<char>) -> Seq<char>
    decreases s.len(),
{
    if s.len() > 0 && s[0] == ' ' {
        trim_spaces(s.skip(1))
    } else if s.len() > 0 && s[s.len() - 1] == ' ' {
        trim_spaces(s.take(s.len() - 1))
    } else {
        s
    }
}

/// Remove leading and trailing spaces.
pub fn trim_chars(s: &Vec<char>) -> (r: Vec<char>)
    ensures
        r@ == trim_spaces(s@),
{
    let mut lo: usize = 0;
    let mut hi: usize = s.len();
    proof {
        assert(s@.subrange(0, s@.len() as int) =~= s@);
    }
    while lo < hi && s[lo] == ' '
        invariant
            lo <= hi <= s@.len(),
            trim_spaces(s@) == trim_spaces(s@.subrange(lo as int, hi as int)),
            hi == s@.len(),
        decreases hi - lo,
    {
        proof {
            let cur = s@.subrange(lo as int, hi as int);
            assert(cur[0] == s@[lo as int]);
            assert(cur.skip(1) =~= s@.subrange(lo + 1, hi as int));
        }
        lo = lo + 1;
    }
    while lo < hi && s[hi - 1] == ' '
        invariant
            lo <= hi <= s@.len(),
            trim_spaces(s@) == trim_spaces(s@.subrange(lo as int, hi as int)),
            lo < hi ==> s@[lo as int] != ' ',
        decreases hi,
    {
        proof {
            let cur = s@.subrange(lo as int, hi as int);
            assert(cur[0] == s@[lo as int]);
            assert(cur[cur.len() - 1] == s@[hi - 1]);
            assert(cur.take(cur.len() - 1) =~= s@.subrange(lo as int, hi - 1));
        }
        hi = hi - 1;
    }
    let mut out: Vec<char> = Vec::new();
    let mut i: usize = lo;
    while i < hi
        invariant
            lo <= i <= hi <= s@.len(),
            out@ == s@.subrange(lo as int, i as int),
        decreases hi - i,
    {
        out.push(s[i]);
        proof {
            assert(s@.subrange(lo as int, i + 1) =~= s@.subrange(lo as int, i as int).push(
                s@[i as int],
            ));
        }
        i = i + 1;
    }
    proof {
        let cur = s@.subrange(lo as int, hi as int);
        assert(trim_spaces(cur) == cur) by {
            if cur.len() > 0 {
                assert(cur[0] == s@[lo as int]);
                assert(cur[cur.len() - 1] == s@[hi - 1]);
            }
        }
    }
    out
}

/// ASCII upper-casing of one character; other characters are unchanged.
pub open spec fn upper_char(c: char) -> char {
    if 97 <= c as u32 <= 122 {
        ((c as u32 - 32) as u8) as char
    } else {
        c
    }
}

/// The sequence with every ASCII lower-case letter upper-cased.
pub open spec fn upper_chars(s: Seq<char>) -> Seq<char> {
    s.map_values(|c: char| upper_char(c))
}

/// Upper-case the ASCII letters of a string.
pub fn to_ascii_upper(s: &str) -> (r: String)
    ensures
        r@ == upper_chars(s@),
{
    let n = s.unicode_len();
    let mut v: Vec<char> = Vec::new();
    let mut i: usize = 0;
    while i < n
        invariant
            i <= n,
            n == s@.len(),
            v@ == upper_chars(s@.take(i as int)),
        decreases n - i,
    {
        let c = s.get_char(i);
        let u = c as u32;
        if 97 <= u && u <= 122 {
            let d = (u - 32) as u8;
            v.push(d as char);
        } else {
            v.push(c);
        }
        proof {
            assert(v@ =~= upper_chars(s@.take(i + 1 as int)));
        }
        i = i + 1;
    }
    proof {
        assert(s@.take(n as int) =~= s@);
        assert(upper_chars(s@.take(n as int)) =~= upper_chars(s@));
    }
    chars_to_string(&v)
}

} // verus!
