//! Reading a decimal integer from the digits of a JSON number.

use vstd::prelude::*;

use crate::text::chars_of;

verus! {

/// Whether `c` is one of the ten decimal digits.
pub open spec fn is_digit(c: char) -> bool {
    '0' <= c <= '9'
}

/// The value of a decimal digit.
pub open spec fn digit_value(c: char) -> int {
    c as int - '0' as int
}

/// Whether `s` holds decimal digits only.
pub open spec fn all_digits(s: Seq<char>) -> bool {
    forall|i: int| 0 <= i < s.len() ==> is_digit(#[trigger] s[i])
}

/// The number that the digits `s` spell in base ten.
pub open spec fn decimal(s: Seq<char>) -> int
    decreases s.len(),
{
    if s.len() == 0 {
        0
    } else {
        decimal(s.drop_last()) * 10 + digit_value(s.last())
    }
}

/// The integer that `s` spells: one or more digits, with a minus sign in front
/// of them or none. Any other text spells none.
pub open spec fn integer_of(s: Seq<char>) -> Option<int> {
    if s.len() > 0 && s[0] == '-' {
        let digits = s.drop_first();
        if digits.len() > 0 && all_digits(digits) {
            Some(-decimal(digits))
        } else {
            None
        }
    } else if s.len() > 0 && all_digits(s) {
        Some(decimal(s))
    } else {
        None
    }
}

/// The integer that `s` spells, where it fits into 64 bits with a sign.
pub open spec fn i64_of(s: Seq<char>) -> Option<i64> {
    match integer_of(s) {
        Some(v) => if i64::MIN <= v <= i64::MAX {
            Some(v as i64)
        } else {
            None
        },
        None => None,
    }
}

/// Digits never spell a negative number, and more digits never spell a
/// smaller one.
pub proof fn lemma_decimal_grows(s: Seq<char>, k: int)
    requires
        all_digits(s),
        0 <= k <= s.len(),
    ensures
        0 <= decimal(s.take(k)) <= decimal(s),
    decreases s.len() - k,
{
    if k == s.len() {
        assert(s.take(k) == s);
        lemma_decimal_nonnegative(s);
    } else {
        lemma_decimal_grows(s, k + 1);
        let longer = s.take(k + 1);
        assert(longer.drop_last() == s.take(k));
        assert(is_digit(s[k]));
        assert(longer.last() == s[k]);
        lemma_decimal_nonnegative(s.take(k));
    }
}

/// Digits never spell a negative number.
pub proof fn lemma_decimal_nonnegative(s: Seq<char>)
    requires
        all_digits(s),
    ensures
        0 <= decimal(s),
    decreases s.len(),
{
    if s.len() > 0 {
        assert(is_digit(s.last()));
        assert forall|i: int| 0 <= i < s.drop_last().len() implies is_digit(
            #[trigger] s.drop_last()[i],
        ) by {
            assert(s.drop_last()[i] == s[i]);
        }
        lemma_decimal_nonnegative(s.drop_last());
    }
}

/// The magnitude that the digits of `chars` from `from` on spell, as far as it
/// stays within `limit`.
fn magnitude(chars: &Vec<char>, from: usize, limit: u64) -> (value: Option<u64>)
    requires
        from <= chars@.len(),
    ensures
        value is Some <==> all_digits(chars@.skip(from as int)) && decimal(
            chars@.skip(from as int),
        ) <= limit,
        value is Some ==> value->0 == decimal(chars@.skip(from as int)),
{
    let ghost digits = chars@.skip(from as int);
    let mut acc: u64 = 0;
    let mut i: usize = from;
    assert(digits.take(0) == Seq::<char>::empty());
    while i < chars.len()
        invariant
            from <= i <= chars@.len(),
            digits == chars@.skip(from as int),
            all_digits(digits.take(i - from)),
            acc == decimal(digits.take(i - from)),
            acc <= limit,
        decreases chars@.len() - i,
    {
        let c = chars[i];
        let ghost longer = digits.take(i - from + 1);
        assert(longer.drop_last() == digits.take(i - from));
        assert(longer.last() == c);
        if c < '0' || c > '9' {
            assert(digits[i - from] == c);
            return None;
        }
        let d: u64 = (c as u32 - '0' as u32) as u64;
        assert(d == digit_value(c));
        assert forall|j: int| 0 <= j < longer.len() implies is_digit(#[trigger] longer[j]) by {
            if j < longer.len() - 1 {
                assert(longer[j] == digits.take(i - from)[j]);
            }
        }
        if d > limit || acc > (limit - d) / 10 {
            proof {
                if all_digits(digits) {
                    lemma_decimal_grows(digits, i - from + 1);
                }
            }
            return None;
        }
        acc = acc * 10 + d;
        i = i + 1;
    }
    assert(digits.take(i - from) == digits);
    Some(acc)
}

/// The integer that `digits` spell, where they spell one that fits.
pub fn parse_i64(digits: &str) -> (value: Option<i64>)
    ensures
        value == i64_of(digits@),
{
    let chars = chars_of(digits);
    if chars.len() == 0 {
        return None;
    }
    if chars[0] == '-' {
        assert(chars@.skip(1) == chars@.drop_first());
        if chars.len() == 1 {
            return None;
        }
        match magnitude(&chars, 1, 0x8000_0000_0000_0000) {
            Some(m) => {
                if m == 0x8000_0000_0000_0000 {
                    Some(i64::MIN)
                } else {
                    Some(-(m as i64))
                }
            },
            None => None,
        }
    } else {
        assert(chars@.skip(0) == chars@);
        match magnitude(&chars, 0, 0x7fff_ffff_ffff_ffff) {
            Some(m) => Some(m as i64),
            None => None,
        }
    }
}

} // verus!
