//! Prices as the upstream API writes them: decimal text such as `18.010000`.

use vstd::prelude::*;
use vstd::string::StringSliceAdditionalSpecFns;

verus! {

/// The byte that writes `.` in ASCII.
const POINT: u8 = 0x2e;

/// The byte that writes `0` in ASCII.
const DIGIT_0: u8 = 0x30;

/// The byte that writes `9` in ASCII.
const DIGIT_9: u8 = 0x39;

/// The most dollars whose cents fit `u64`.
const WHOLE_LIMIT: u64 = 184467440737095516;

/// One of the ten decimal digits of ASCII.
pub open spec fn is_digit(c: char) -> bool {
    '0' <= c && c <= '9'
}

/// The number that a digit stands for.
pub open spec fn digit_value(c: char) -> int {
    c as int - '0' as int
}

/// Every character is a digit.
pub open spec fn all_digits(s: Seq<char>) -> bool {
    forall|i: int| 0 <= i < s.len() ==> is_digit(#[trigger] s[i])
}

/// The number that a run of decimal digits writes.
pub open spec fn decimal_value(s: Seq<char>) -> int
    decreases s.len(),
{
    if s.len() == 0 {
        0
    } else {
        decimal_value(s.drop_last()) * 10 + digit_value(s.last())
    }
}

/// Where the first `.` stands, or the length where there is none.
pub open spec fn point_index(s: Seq<char>) -> int
    decreases s.len(),
{
    if s.len() == 0 || s[0] == '.' {
        0
    } else {
        1 + point_index(s.drop_first())
    }
}

/// What stands before the first `.`.
pub open spec fn whole_digits(s: Seq<char>) -> Seq<char> {
    s.subrange(0, point_index(s))
}

/// What stands after the first `.`.
pub open spec fn fraction_digits(s: Seq<char>) -> Seq<char> {
    if point_index(s) < s.len() {
        s.subrange(point_index(s) + 1, s.len() as int)
    } else {
        Seq::empty()
    }
}

/// A price is written as digits, optionally followed by `.` and more digits,
/// with at least one digit in all.
pub open spec fn is_price_text(s: Seq<char>) -> bool {
    &&& all_digits(whole_digits(s))
    &&& all_digits(fraction_digits(s))
    &&& whole_digits(s).len() + fraction_digits(s).len() > 0
}

/// The digit at place `i` of a fraction, zero past its end.
pub open spec fn fraction_digit(s: Seq<char>, i: int) -> int {
    if 0 <= i < s.len() {
        digit_value(s[i])
    } else {
        0
    }
}

/// The price in cents, rounded to the nearest cent, halves up.
pub open spec fn cents_of(s: Seq<char>) -> int {
    decimal_value(whole_digits(s)) * 100 + fraction_digit(fraction_digits(s), 0) * 10
        + fraction_digit(fraction_digits(s), 1) + if fraction_digit(fraction_digits(s), 2) >= 5 {
        1int
    } else {
        0int
    }
}

/// What a price text is worth: its cents where it is well formed and they fit.
pub open spec fn price_cents(s: Seq<char>) -> Option<u64> {
    if is_price_text(s) && cents_of(s) <= u64::MAX {
        Some(cents_of(s) as u64)
    } else {
        None
    }
}

/// `point_index` is the one place that has no `.` before it and is either the
/// end or a `.` itself.
pub proof fn lemma_point_index(s: Seq<char>, p: int)
    requires
        0 <= p <= s.len(),
        forall|j: int| 0 <= j < p ==> s[j] != '.',
        p < s.len() ==> s[p] == '.',
    ensures
        point_index(s) == p,
    decreases s.len(),
{
    if s.len() == 0 || s[0] == '.' {
    } else {
        lemma_point_index(s.drop_first(), p - 1);
    }
}

/// The first `.` lies within the text, and nothing before it is a `.`.
pub proof fn lemma_point_index_bounds(s: Seq<char>)
    ensures
        0 <= point_index(s) <= s.len(),
        point_index(s) < s.len() ==> s[point_index(s)] == '.',
        forall|j: int| 0 <= j < point_index(s) ==> s[j] != '.',
    decreases s.len(),
{
    if s.len() == 0 || s[0] == '.' {
    } else {
        let rest = s.drop_first();
        lemma_point_index_bounds(rest);
        assert forall|j: int| 0 <= j < point_index(s) implies s[j] != '.' by {
            if j > 0 {
                assert(s[j] == rest[j - 1]);
            }
        }
    }
}

/// A price text holds nothing but digits and one `.`, all of them ASCII.
pub proof fn lemma_price_text_is_ascii(s: Seq<char>)
    requires
        is_price_text(s),
    ensures
        vstd::utf8::is_ascii_chars(s),
{
    lemma_point_index_bounds(s);
    let p = point_index(s);
    assert forall|i: int| 0 <= i < s.len() implies '\0' <= #[trigger] s[i] <= '\u{7f}' by {
        if i < p {
            assert(whole_digits(s)[i] == s[i]);
        } else if i > p {
            assert(fraction_digits(s)[i - p - 1] == s[i]);
        }
    }
}

/// One more digit multiplies the value by ten and adds the digit.
proof fn lemma_decimal_value_step(s: Seq<char>, i: int)
    requires
        0 <= i < s.len(),
    ensures
        decimal_value(s.subrange(0, i + 1)) == decimal_value(s.subrange(0, i)) * 10 + digit_value(
            s[i],
        ),
{
    assert(s.subrange(0, i + 1).drop_last() =~= s.subrange(0, i));
}

/// Reads a price such as `18.010000` as cents, rounding to the nearest cent.
/// Anything but digits around at most one `.`, and any price too large for
/// `u64` cents, gives `None`.
pub fn parse_price(text: &str) -> (cents: Option<u64>)
    ensures
        cents == price_cents(text@),
{
    if !text.is_ascii() {
        proof {
            if is_price_text(text@) {
                lemma_price_text_is_ascii(text@);
            }
        }
        return None;
    }
    let bytes = text.as_bytes();
    let n: usize = bytes.len();
    let ghost s = text@;
    proof {
        // In ASCII a byte is a character.
        vstd::string::is_ascii_spec_bytes(text);
        lemma_point_index_bounds(s);
    }
    // The whole part: digits up to the first `.` or the end.
    let mut i: usize = 0;
    let mut whole: u64 = 0;
    let mut too_big = false;
    while i < n && bytes[i] != POINT
        invariant
            s == text@,
            n == s.len(),
            n == bytes@.len(),
            forall|k: int| 0 <= k < n ==> bytes@[k] == s[k] as u8,
            vstd::utf8::is_ascii_chars(s),
            i <= n,
            forall|k: int| 0 <= k < i ==> is_digit(s[k]),
            !too_big ==> whole == decimal_value(s.subrange(0, i as int)),
            !too_big ==> whole <= WHOLE_LIMIT * 10 + 9,
            too_big ==> decimal_value(s.subrange(0, i as int)) > WHOLE_LIMIT,
        ensures
            i <= n,
            i < n ==> s[i as int] == '.',
        decreases n - i,
    {
        let b: u8 = bytes[i];
        if b < DIGIT_0 || b > DIGIT_9 {
            proof {
                // The first `.` comes later, so this is part of the whole part.
                if is_price_text(s) {
                    lemma_point_index_bounds(s);
                    assert(whole_digits(s)[i as int] == s[i as int]);
                }
            }
            return None;
        }
        proof {
            lemma_decimal_value_step(s, i as int);
        }
        if !too_big {
            if whole > WHOLE_LIMIT {
                too_big = true;
            } else {
                whole = whole * 10 + (b - DIGIT_0) as u64;
            }
        }
        i = i + 1;
    }
    proof {
        lemma_point_index(s, i as int);
        assert(whole_digits(s) == s.subrange(0, i as int));
    }
    // The fraction: digits from behind the `.` to the end. Three of them count.
    let mut tenths: u8 = 0;
    let mut hundredths: u8 = 0;
    let mut thousandths: u8 = 0;
    let mut digits: usize = i;
    if i < n {
        let start: usize = i + 1;
        let ghost frac = fraction_digits(s);
        let mut j: usize = start;
        while j < n
            invariant
                s == text@,
                n == s.len(),
                n == bytes@.len(),
                forall|k: int| 0 <= k < n ==> bytes@[k] == s[k] as u8,
                vstd::utf8::is_ascii_chars(s),
                start <= j <= n,
                frac == fraction_digits(s),
                frac == s.subrange(start as int, n as int),
                forall|k: int| start <= k < j ==> is_digit(s[k]),
                tenths == if j > start { fraction_digit(frac, 0) } else { 0 },
                hundredths == if j > start + 1 { fraction_digit(frac, 1) } else { 0 },
                thousandths == if j > start + 2 { fraction_digit(frac, 2) } else { 0 },
                tenths <= 9,
                hundredths <= 9,
                thousandths <= 9,
            decreases n - j,
        {
            let b: u8 = bytes[j];
            assert(frac[j - start] == s[j as int]);
            if b < DIGIT_0 || b > DIGIT_9 {
                return None;
            }
            if j == start {
                tenths = b - DIGIT_0;
            } else if j == start + 1 {
                hundredths = b - DIGIT_0;
            } else if j == start + 2 {
                thousandths = b - DIGIT_0;
            }
            j = j + 1;
        }
        proof {
            assert forall|k: int| 0 <= k < frac.len() implies is_digit(#[trigger] frac[k]) by {
                assert(frac[k] == s[start + k]);
            }
        }
        digits = n - 1;
    }
    assert(digits == whole_digits(s).len() + fraction_digits(s).len());
    if digits == 0 || too_big {
        return None;
    }
    let carry: u128 = if thousandths >= 5 { 1 } else { 0 };
    let total: u128 = whole as u128 * 100 + tenths as u128 * 10 + hundredths as u128 + carry;
    assert(total == cents_of(s));
    if total > u64::MAX as u128 {
        None
    } else {
        Some(total as u64)
    }
}

} // verus!
