//! The written form of a real number in a record: decimal or scientific
//! notation, such as `2`, `-0.5`, `.25`, `3.` or `1.7e-3`.

use vstd::prelude::*;

verus! {

/// A decimal digit, `0` to `9`.
pub open spec fn is_digit(c: char) -> bool {
    '0' as u32 <= c as u32 && c as u32 <= '9' as u32
}

/// Length of the run of decimal digits that opens `s`.
pub open spec fn digits_len(s: Seq<char>) -> nat
    decreases s.len(),
{
    if s.len() > 0 && is_digit(s[0]) {
        1 + digits_len(s.drop_first())
    } else {
        0
    }
}

/// Length of the optional `+` or `-` that opens `s`.
pub open spec fn sign_len(s: Seq<char>) -> nat {
    if s.len() > 0 && (s[0] == '+' || s[0] == '-') {
        1
    } else {
        0
    }
}

/// `s` is all digits, and at least one.
pub open spec fn is_digits(s: Seq<char>) -> bool {
    s.len() > 0 && digits_len(s) == s.len()
}

/// `s` is empty, or is an exponent: `e` or `E`, an optional sign, then digits.
pub open spec fn is_exponent_tail(s: Seq<char>) -> bool {
    s.len() == 0 || ((s[0] == 'e' || s[0] == 'E') && is_digits(
        s.drop_first().skip(sign_len(s.drop_first()) as int),
    ))
}

/// `s` is an optional sign, digits with an optional decimal point and at
/// least one digit on either side of it, and an optional exponent.
pub open spec fn is_real_literal(s: Seq<char>) -> bool {
    let m = s.skip(sign_len(s) as int);
    let a = digits_len(m);
    let after = m.skip(a as int);
    if after.len() > 0 && after[0] == '.' {
        let frac = after.drop_first();
        let b = digits_len(frac);
        a + b > 0 && is_exponent_tail(frac.skip(b as int))
    } else {
        a > 0 && is_exponent_tail(after)
    }
}

fn is_digit_char(c: char) -> (r: bool)
    ensures
        r == is_digit(c),
{
    '0' as u32 <= c as u32 && c as u32 <= '9' as u32
}

/// Length of the run of digits in `s` that starts at `from`.
fn count_digits(s: &[char], from: usize) -> (n: usize)
    requires
        from <= s@.len(),
    ensures
        n == digits_len(s@.skip(from as int)),
        from + n <= s@.len(),
{
    let mut i: usize = from;
    while i < s.len() && is_digit_char(s[i])
        invariant
            from <= i <= s@.len(),
            digits_len(s@.skip(from as int)) == (i - from) + digits_len(s@.skip(i as int)),
        decreases s@.len() - i,
    {
        assert(s@.skip(i as int).drop_first() =~= s@.skip(i + 1));
        i = i + 1;
    }
    i - from
}

/// Length of the optional sign in `s` at `from`.
fn sign_at(s: &[char], from: usize) -> (n: usize)
    requires
        from <= s@.len(),
    ensures
        n == sign_len(s@.skip(from as int)),
        from + n <= s@.len(),
{
    if from < s.len() && (s[from] == '+' || s[from] == '-') {
        1
    } else {
        0
    }
}

/// Whether the text of `s` from `from` on is empty or an exponent.
fn exponent_tail_at(s: &[char], from: usize) -> (r: bool)
    requires
        from <= s@.len(),
    ensures
        r == is_exponent_tail(s@.skip(from as int)),
{
    let ghost t = s@.skip(from as int);
    if from == s.len() {
        return true;
    }
    if s[from] != 'e' && s[from] != 'E' {
        return false;
    }
    assert(t.drop_first() =~= s@.skip(from + 1));
    let k = sign_at(s, from + 1);
    assert(t.drop_first().skip(k as int) =~= s@.skip(from + 1 + k));
    let n = count_digits(s, from + 1 + k);
    n > 0 && from + 1 + k + n == s.len()
}

/// Whether `s` is the written form of a real number.
pub fn is_real_text(s: &[char]) -> (r: bool)
    ensures
        r == is_real_literal(s@),
{
    let k = sign_at(s, 0);
    assert(s@.skip(0) =~= s@);
    let a = count_digits(s, k);
    let ghost m = s@.skip(k as int);
    assert(m.skip(a as int) =~= s@.skip(k + a));
    let len = s.len();
    assert(k + a <= len);
    let p = k + a;
    if p < s.len() && s[p] == '.' {
        assert(m.skip(a as int).drop_first() =~= s@.skip(p + 1));
        let b = count_digits(s, p + 1);
        assert(s@.skip(p + 1).skip(b as int) =~= s@.skip(p + 1 + b));
        (a > 0 || b > 0) && exponent_tail_at(s, p + 1 + b)
    } else {
        a > 0 && exponent_tail_at(s, p)
    }
}

} // verus!
