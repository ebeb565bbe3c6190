//! Decimal text as sensors publish it, read as a count of thousandths.
//!
//! A reading such as `"18.1"` becomes `18100`. Digits past the third after the
//! point are not lost silently: the value is rounded down (towards negative
//! infinity), so that for every threshold `t` that is itself a whole number of
//! thousandths, `value >= t` holds of the text exactly when it holds of the
//! rounded count.

use vstd::arithmetic::div_mod::lemma_fundamental_div_mod;
use vstd::arithmetic::div_mod::lemma_fundamental_div_mod_converse;
use vstd::prelude::*;

verus! {

/// The most digits, before and after the point together, that a text may hold.
pub const MAX_DIGITS: usize = 30;

pub open spec fn is_digit(b: u8) -> bool {
    48 <= b <= 57
}

pub open spec fn all_digits(s: Seq<u8>) -> bool {
    forall|i: int| 0 <= i < s.len() ==> is_digit(#[trigger] s[i])
}

/// The number that a string of decimal digits spells.
pub open spec fn digits_value(s: Seq<u8>) -> int
    decreases s.len(),
{
    if s.len() == 0 {
        0
    } else {
        digits_value(s.drop_last()) * 10 + (s.last() - 48)
    }
}

pub open spec fn pow10(k: nat) -> int
    decreases k,
{
    if k == 0 {
        1
    } else {
        10 * pow10((k - 1) as nat)
    }
}

/// How many digits `s` starts with.
pub open spec fn leading_digits(s: Seq<u8>) -> nat
    decreases s.len(),
{
    if s.len() > 0 && is_digit(s[0]) {
        1 + leading_digits(s.drop_first())
    } else {
        0
    }
}

pub open spec fn sign_len(s: Seq<u8>) -> int {
    if s.len() > 0 && (s[0] == 45u8 || s[0] == 43u8) {
        1
    } else {
        0
    }
}

pub open spec fn is_negative(s: Seq<u8>) -> bool {
    s.len() > 0 && s[0] == 45u8
}

/// The text after its sign, if any.
pub open spec fn unsigned_part(s: Seq<u8>) -> Seq<u8> {
    s.skip(sign_len(s))
}

/// The digits before the point.
pub open spec fn int_part(s: Seq<u8>) -> Seq<u8> {
    unsigned_part(s).take(leading_digits(unsigned_part(s)) as int)
}

/// What follows the digits before the point.
pub open spec fn after_int(s: Seq<u8>) -> Seq<u8> {
    unsigned_part(s).skip(leading_digits(unsigned_part(s)) as int)
}

/// The digits after the point (empty when there is no point).
pub open spec fn frac_part(s: Seq<u8>) -> Seq<u8> {
    if after_int(s).len() > 0 {
        after_int(s).skip(1)
    } else {
        Seq::empty()
    }
}

/// `s` is an optional `-` or `+`, then digits, then optionally `.` and more
/// digits, with at least one digit in all.
pub open spec fn is_decimal_text(s: Seq<u8>) -> bool {
    &&& (after_int(s).len() == 0 || (after_int(s)[0] == 46u8 && all_digits(frac_part(s))))
    &&& int_part(s).len() + frac_part(s).len() > 0
}

/// The value of decimal text `s` times one thousand, rounded down.
pub open spec fn decimal_milli(s: Seq<u8>) -> int {
    let n = digits_value(int_part(s) + frac_part(s));
    let signed = if is_negative(s) {
        -n
    } else {
        n
    };
    (signed * 1000) / pow10(frac_part(s).len())
}

/// The thousandths that `s` reads as, if it is decimal text of at most
/// `MAX_DIGITS` digits whose value fits.
pub open spec fn parse_milli_spec(s: Seq<u8>) -> Option<i64> {
    if is_decimal_text(s) && int_part(s).len() + frac_part(s).len() <= MAX_DIGITS
        && i64::MIN <= decimal_milli(s) <= i64::MAX {
        Some(decimal_milli(s) as i64)
    } else {
        None
    }
}

proof fn lemma_pow10_positive(k: nat)
    ensures
        pow10(k) >= 1,
    decreases k,
{
    if k > 0 {
        lemma_pow10_positive((k - 1) as nat);
    }
}

proof fn lemma_pow10_monotone(a: nat, b: nat)
    requires
        a <= b,
    ensures
        pow10(a) <= pow10(b),
    decreases b - a,
{
    if a < b {
        lemma_pow10_monotone(a, (b - 1) as nat);
        lemma_pow10_positive((b - 1) as nat);
    }
}

proof fn lemma_pow10_max()
    ensures
        pow10(MAX_DIGITS as nat) == 1_000_000_000_000_000_000_000_000_000_000int,
{
    reveal_with_fuel(pow10, 31);
}

/// `leading_digits` counts up to the first byte that is no digit.
proof fn lemma_leading_digits(s: Seq<u8>, m: int)
    requires
        0 <= m <= s.len(),
        forall|i: int| 0 <= i < m ==> is_digit(#[trigger] s[i]),
    ensures
        leading_digits(s) >= m,
        leading_digits(s) <= s.len(),
        m == s.len() || !is_digit(s[m]) ==> leading_digits(s) == m,
    decreases s.len(),
{
    if m == 0 && s.len() > 0 {
        lemma_leading_digits(s.drop_first(), 0);
    }
    if m > 0 {
        let t = s.drop_first();
        assert forall|i: int| 0 <= i < m - 1 implies is_digit(#[trigger] t[i]) by {
            assert(t[i] == s[i + 1]);
        }
        if m < s.len() {
            assert(t[m - 1] == s[m]);
        }
        lemma_leading_digits(t, m - 1);
    }
}

/// Division rounds down for negative dividends too.
proof fn lemma_floor_div_negated(a: int, b: int)
    requires
        a >= 0,
        b > 0,
    ensures
        (-a) / b == -((a + b - 1) / b),
{
    let q = (a + b - 1) / b;
    let r = (a + b - 1) % b;
    lemma_fundamental_div_mod(a + b - 1, b);
    assert(0 <= r < b);
    assert((-q) * b == -(q * b)) by (nonlinear_arith);
    assert(-a == (-q) * b + (b - 1 - r)) by (nonlinear_arith)
        requires
            a + b - 1 == b * q + r,
            (-q) * b == -(q * b),
    ;
    lemma_fundamental_div_mod_converse(-a, b, -q, b - 1 - r);
}

/// Reads decimal text as a count of thousandths, rounded down.
pub fn parse_milli(s: &[u8]) -> (r: Option<i64>)
    ensures
        r == parse_milli_spec(s@),
{
    let len = s.len();
    let mut i: usize = 0;
    let mut neg = false;
    if len > 0 && (s[0] == 45u8 || s[0] == 43u8) {
        neg = s[0] == 45u8;
        i = 1;
    }
    let start = i;
    let ghost body = unsigned_part(s@);
    assert(body =~= s@.subrange(start as int, len as int));

    let mut n: u128 = 0;
    let mut count: usize = 0;
    while i < len && 48u8 <= s[i] && s[i] <= 57u8
        invariant
            start <= i <= len,
            len == s@.len(),
            body == s@.subrange(start as int, len as int),
            body == unsigned_part(s@),
            count == i - start,
            count <= MAX_DIGITS,
            forall|k: int| 0 <= k < i - start ==> is_digit(#[trigger] body[k]),
            n == digits_value(s@.subrange(start as int, i as int)),
            n < pow10(count as nat),
        decreases len - i,
    {
        proof {
            assert(body[i - start] == s@[i as int]);
            lemma_leading_digits(body, i - start + 1);
        }
        if count == MAX_DIGITS {
            assert(int_part(s@).len() > MAX_DIGITS);
            return None;
        }
        proof {
            lemma_pow10_monotone((count + 1) as nat, MAX_DIGITS as nat);
            lemma_pow10_max();
            assert(s@.subrange(start as int, i + 1).drop_last() =~= s@.subrange(
                start as int,
                i as int,
            ));
        }
        n = n * 10 + (s[i] - 48u8) as u128;
        i = i + 1;
        count = count + 1;
    }
    let int_end = i;
    proof {
        lemma_leading_digits(body, int_end - start);
        assert(int_part(s@) =~= s@.subrange(start as int, int_end as int));
        assert(after_int(s@) =~= s@.subrange(int_end as int, len as int));
    }
    let mut frac_count: usize = 0;
    let mut pow: u128 = 1;
    if i < len {
        if s[i] != 46u8 {
            return None;
        }
        i = i + 1;
        let ghost int_digits = s@.subrange(start as int, int_end as int);
        assert(frac_part(s@) =~= s@.subrange(int_end + 1, len as int));
        assert(after_int(s@)[0] == 46u8);
        assert(int_digits + s@.subrange(int_end + 1, i as int) =~= int_digits);
        while i < len
            invariant
                int_end + 1 <= i <= len,
                len == s@.len(),
                int_digits == s@.subrange(start as int, int_end as int),
                int_digits.len() == int_end - start,
                int_part(s@) == int_digits,
                frac_part(s@) == s@.subrange(int_end + 1, len as int),
                after_int(s@)[0] == 46u8,
                after_int(s@).len() > 0,
                frac_count == i - int_end - 1,
                count == int_digits.len() + frac_count,
                count <= MAX_DIGITS,
                forall|k: int| int_end + 1 <= k < i ==> is_digit(#[trigger] s@[k]),
                n == digits_value(int_digits + s@.subrange(int_end + 1, i as int)),
                n < pow10(count as nat),
                pow == pow10(frac_count as nat),
                pow <= pow10(count as nat),
            decreases len - i,
        {
            if s[i] < 48u8 || s[i] > 57u8 {
                assert(!is_digit(frac_part(s@)[i - int_end - 1]));
                return None;
            }
            if count == MAX_DIGITS {
                return None;
            }
            proof {
                lemma_pow10_monotone((count + 1) as nat, MAX_DIGITS as nat);
                lemma_pow10_max();
                assert((int_digits + s@.subrange(int_end + 1, i + 1)).drop_last() =~= int_digits
                    + s@.subrange(int_end + 1, i as int));
            }
            n = n * 10 + (s[i] - 48u8) as u128;
            pow = pow * 10;
            i = i + 1;
            count = count + 1;
            frac_count = frac_count + 1;
        }
        assert(int_part(s@) + frac_part(s@) =~= int_digits + s@.subrange(int_end + 1, i as int));
        assert(all_digits(frac_part(s@))) by {
            assert forall|k: int| 0 <= k < frac_part(s@).len() implies is_digit(
                #[trigger] frac_part(s@)[k],
            ) by {
                assert(frac_part(s@)[k] == s@[int_end + 1 + k]);
            }
        }
    } else {
        assert(frac_part(s@) =~= Seq::<u8>::empty());
        assert(int_part(s@) + frac_part(s@) =~= int_part(s@));
    }
    if count == 0 {
        return None;
    }
    proof {
        lemma_pow10_monotone(count as nat, MAX_DIGITS as nat);
        lemma_pow10_max();
        lemma_pow10_positive(frac_count as nat);
    }
    let scaled: u128 = n * 1000;
    if !neg {
        let q = scaled / pow;
        if q > 9_223_372_036_854_775_807u128 {
            return None;
        }
        Some(q as i64)
    } else {
        proof {
            lemma_floor_div_negated(scaled as int, pow as int);
            assert(-(n as int) * 1000 == -(scaled as int));
        }
        let q = (scaled + pow - 1) / pow;
        if q > 9_223_372_036_854_775_808u128 {
            return None;
        }
        let v: i128 = -(q as i128);
        Some(v as i64)
    }
}

} // verus!
