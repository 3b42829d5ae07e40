//! Fixed-point numbers as decimal text.

use vstd::prelude::*;
use vstd::string::*;
use crate::text::{decimal, digit_char, digit_str, u64_to_string};

verus! {

/// The last `digits` decimal digits of `n`, with leading zeros.
pub open spec fn padded_decimal(n: nat, digits: nat) -> Seq<char>
    decreases digits,
{
    if digits == 0 {
        Seq::empty()
    } else {
        padded_decimal(n / 10, (digits - 1) as nat).push(digit_char(n % 10))
    }
}

/// The digits after the decimal point of a fraction of `digits` digits,
/// without the zeros at the end: nothing for a fraction of zero.
pub open spec fn fraction_text(fraction: nat, digits: nat) -> Seq<char>
    decreases digits,
{
    if digits == 0 || fraction == 0 {
        Seq::empty()
    } else if fraction % 10 == 0 {
        fraction_text(fraction / 10, (digits - 1) as nat)
    } else {
        padded_decimal(fraction, digits)
    }
}

/// The decimal text of the fixed-point number `value / scale`, where
/// `scale` is ten to the power of `digits`: a minus sign if the value is
/// negative, the whole part, and, unless the fraction is zero, a point
/// and the fraction without zeros at the end.
pub open spec fn fixed_decimal(value: int, scale: int, digits: nat) -> Seq<char> {
    let magnitude = if value < 0 {
        -value
    } else {
        value
    };
    let whole = (magnitude / scale) as nat;
    let fraction = (magnitude % scale) as nat;
    let body = if fraction == 0 {
        decimal(whole)
    } else {
        decimal(whole) + seq!['.'] + fraction_text(fraction, digits)
    };
    if value < 0 {
        seq!['-'] + body
    } else {
        body
    }
}

/// Writes the last `digits` decimal digits of `n`, with leading zeros.
pub fn write_padded(n: u64, digits: u32) -> (r: String)
    ensures
        r@ == padded_decimal(n as nat, digits as nat),
    decreases digits,
{
    if digits == 0 {
        String::new()
    } else {
        let mut s = write_padded(n / 10, digits - 1);
        s.append(digit_str((n % 10) as u8));
        assert(s@ =~= padded_decimal(n as nat, digits as nat));
        s
    }
}

/// Writes the digits after the decimal point of a fraction of `digits`
/// digits, without the zeros at the end.
pub fn write_fraction(fraction: u64, digits: u32) -> (r: String)
    ensures
        r@ == fraction_text(fraction as nat, digits as nat),
    decreases digits,
{
    if digits == 0 || fraction == 0 {
        String::new()
    } else if fraction % 10 == 0 {
        write_fraction(fraction / 10, digits - 1)
    } else {
        write_padded(fraction, digits)
    }
}

/// Writes the fixed-point number `value / scale` in decimal.
pub fn fixed_to_string(value: i64, scale: u64, digits: u32) -> (r: String)
    requires
        scale > 0,
    ensures
        r@ == fixed_decimal(value as int, scale as int, digits as nat),
{
    let magnitude: u64 = if value < 0 {
        if value == i64::MIN {
            9223372036854775808u64
        } else {
            (-value) as u64
        }
    } else {
        value as u64
    };
    let whole: u64 = magnitude / scale;
    let fraction: u64 = magnitude % scale;
    let mut s = if value < 0 {
        String::from_str("-")
    } else {
        String::new()
    };
    proof {
        reveal_strlit("-");
        reveal_strlit(".");
    }
    s.append(u64_to_string(whole).as_str());
    if fraction != 0 {
        s.append(".");
        s.append(write_fraction(fraction, digits).as_str());
    }
    assert(s@ =~= fixed_decimal(value as int, scale as int, digits as nat));
    s
}

} // verus!

verus! {

/// The value of a decimal digit character.
pub open spec fn digit_of(c: char) -> Option<nat> {
    if c == '0' {
        Some(0)
    } else if c == '1' {
        Some(1)
    } else if c == '2' {
        Some(2)
    } else if c == '3' {
        Some(3)
    } else if c == '4' {
        Some(4)
    } else if c == '5' {
        Some(5)
    } else if c == '6' {
        Some(6)
    } else if c == '7' {
        Some(7)
    } else if c == '8' {
        Some(8)
    } else if c == '9' {
        Some(9)
    } else {
        None
    }
}

/// Whether every character is a decimal digit.
pub open spec fn all_digits(s: Seq<char>) -> bool {
    forall|i: int| 0 <= i < s.len() ==> digit_of(#[trigger] s[i]) is Some
}

/// The number that a string of decimal digits writes; zero for the empty
/// string.
pub open spec fn digits_value(s: Seq<char>) -> nat
    decreases s.len(),
{
    if s.len() == 0 {
        0
    } else {
        digits_value(s.drop_last()) * 10 + match digit_of(s.last()) {
            Some(d) => d,
            None => 0,
        }
    }
}

/// The first `digits` characters of `s`, with zeros added at the end if
/// there are fewer.
pub open spec fn padded_right(s: Seq<char>, digits: nat) -> Seq<char> {
    Seq::new(
        digits,
        |i: int|
            if i < s.len() {
                s[i]
            } else {
                '0'
            },
    )
}

/// The position of the first point in `s`, or the length of `s` if there
/// is none.
pub open spec fn first_point(s: Seq<char>) -> int
    decreases s.len(),
{
    if s.len() == 0 || s[0] == '.' {
        0
    } else {
        1 + first_point(s.drop_first())
    }
}

/// The number of leading sign characters of `s`: one if `s` starts with
/// `-` or `+`, else none.
pub open spec fn sign_length(s: Seq<char>) -> int {
    if s.len() > 0 && (s[0] == '-' || s[0] == '+') {
        1
    } else {
        0
    }
}

/// What stands before the first point of a decimal text, without the
/// sign.
pub open spec fn whole_part(text: Seq<char>) -> Seq<char> {
    let body = text.skip(sign_length(text));
    body.take(first_point(body))
}

/// What stands after the first point of a decimal text; nothing if there
/// is no point.
pub open spec fn fraction_part(text: Seq<char>) -> Seq<char> {
    let body = text.skip(sign_length(text));
    if first_point(body) < body.len() {
        body.skip(first_point(body) + 1)
    } else {
        Seq::empty()
    }
}

/// The coordinate that a decimal text writes, in units of 1e-7: an
/// optional sign, digits, and optionally a point and more digits, of which
/// those beyond the seventh are dropped. There must be a digit before or
/// after the point. `None` for any other text, and for a number beyond
/// the range of a coordinate.
pub open spec fn parse_coordinate_spec(text: Seq<char>) -> Option<int> {
    let whole = whole_part(text);
    let fraction = fraction_part(text);
    if !all_digits(whole) || !all_digits(fraction) || (whole.len() == 0 && fraction.len() == 0) {
        None
    } else {
        let magnitude = digits_value(whole) * 10_000_000 + digits_value(padded_right(fraction, 7));
        let value = if text.len() > 0 && text[0] == '-' {
            -magnitude
        } else {
            magnitude as int
        };
        if i32::MIN <= value <= i32::MAX {
            Some(value)
        } else {
            None
        }
    }
}

/// The first point of a text lies within it, and before it there is no
/// point.
pub proof fn lemma_first_point(s: Seq<char>)
    ensures
        0 <= first_point(s) <= s.len(),
        forall|i: int| 0 <= i < first_point(s) ==> s[i] != '.',
        first_point(s) < s.len() ==> s[first_point(s)] == '.',
    decreases s.len(),
{
    if s.len() > 0 && s[0] != '.' {
        lemma_first_point(s.drop_first());
        assert forall|i: int| 0 <= i < first_point(s) implies s[i] != '.' by {
            if i > 0 {
                assert(s.drop_first()[i - 1] == s[i]);
            }
        }
    }
}

/// The first position without a point before it that holds a point, or
/// is the end, is the first point.
pub proof fn lemma_first_point_unique(s: Seq<char>, p: int)
    requires
        0 <= p <= s.len(),
        forall|i: int| 0 <= i < p ==> s[i] != '.',
        p < s.len() ==> s[p] == '.',
    ensures
        first_point(s) == p,
{
    lemma_first_point(s);
}

/// The value of a decimal digit character, if it is one.
pub fn digit_value(c: char) -> (r: Option<u8>)
    ensures
        match r {
            Some(d) => digit_of(c) == Some(d as nat) && d < 10,
            None => digit_of(c) is None,
        },
{
    if c == '0' {
        Some(0)
    } else if c == '1' {
        Some(1)
    } else if c == '2' {
        Some(2)
    } else if c == '3' {
        Some(3)
    } else if c == '4' {
        Some(4)
    } else if c == '5' {
        Some(5)
    } else if c == '6' {
        Some(6)
    } else if c == '7' {
        Some(7)
    } else if c == '8' {
        Some(8)
    } else if c == '9' {
        Some(9)
    } else {
        None
    }
}

/// Reads a coordinate in units of 1e-7 from decimal text.
pub fn parse_coordinate(text: &str) -> (r: Option<i32>)
    ensures
        match r {
            Some(v) => parse_coordinate_spec(text@) == Some(v as int),
            None => parse_coordinate_spec(text@) is None,
        },
{
    let n = text.unicode_len();
    let negative = n > 0 && text.get_char(0) == '-';
    let start: usize = if n > 0 && (text.get_char(0) == '-' || text.get_char(0) == '+') {
        1
    } else {
        0
    };
    let ghost body = text@.skip(start as int);
    let ghost p = first_point(body);
    let ghost whole = body.take(p);
    let ghost fraction = if p < body.len() {
        body.skip(p + 1)
    } else {
        Seq::empty()
    };
    proof {
        lemma_first_point(body);
    }
    // The digits before the point.
    let mut i: usize = start;
    let mut whole_value: u64 = 0;
    let mut too_large = false;
    while i < n && text.get_char(i) != '.'
        invariant
            start <= i <= n,
            n == text@.len(),
            body == text@.skip(start as int),
            start == sign_length(text@),
            p == first_point(body),
            0 <= p <= body.len(),
            p < body.len() ==> body[p] == '.',
            whole == whole_part(text@),
            whole == body.take(p),
            forall|k: int| 0 <= k < i - start ==> body[k] != '.',
            all_digits(body.take(i - start)),
            !too_large ==> whole_value == digits_value(body.take(i - start)),
            !too_large ==> whole_value <= 1000,
            too_large ==> digits_value(body.take(i - start)) > 1000,
        decreases n - i,
    {
        let c = text.get_char(i);
        let ghost before = body.take(i - start);
        let ghost after = body.take(i - start + 1);
        proof {
            assert(body[i - start] == c);
            assert(after.drop_last() =~= before);
            assert(after.last() == c);
        }
        match digit_value(c) {
            None => {
                proof {
                    // A character that is no digit stands before the first point.
                    if i - start < p {
                        assert(whole[i - start] == c);
                    } else {
                        assert(body[p] == '.');
                        assert(false);
                    }
                }
                return None;
            },
            Some(d) => {
                if !too_large {
                    whole_value = whole_value * 10 + d as u64;
                    if whole_value > 1000 {
                        too_large = true;
                    }
                }
                proof {
                    assert forall|k: int| 0 <= k < after.len() implies digit_of(
                        #[trigger] after[k],
                    ) is Some by {
                        if k < before.len() {
                            assert(after[k] == before[k]);
                        }
                    }
                }
            },
        }
        i += 1;
    }
    proof {
        lemma_first_point_unique(body, i - start);
        assert(whole =~= body.take(i - start));
    }
    let point: usize = i;
    // The digits after the point.
    let mut fraction_value: u64 = 0;
    let mut taken: usize = 0;
    if i < n {
        i += 1;
    }
    let first: usize = i;
    proof {
        assert(fraction =~= text@.skip(first as int)) by {
            if point < n {
                assert(body.skip(p + 1) =~= text@.skip(first as int));
            } else {
                assert(text@.skip(first as int) =~= Seq::<char>::empty());
            }
        }
        assert(padded_right(fraction, 7).take(0).len() == 0);
    }
    while i < n
        invariant
            first <= i <= n,
            n == text@.len(),
            fraction == text@.skip(first as int),
            fraction == fraction_part(text@),
            all_digits(fraction.take(i - first)),
            taken == if i - first < 7 {
                i - first
            } else {
                7
            },
            fraction_value == digits_value(padded_right(fraction, 7).take(taken as int)),
            fraction_value < 10_000_000,
        decreases n - i,
    {
        let c = text.get_char(i);
        let ghost before = fraction.take(i - first);
        let ghost after = fraction.take(i - first + 1);
        proof {
            assert(fraction[i - first] == c);
        }
        match digit_value(c) {
            None => {
                return None;
            },
            Some(d) => {
                if taken < 7 {
                    proof {
                        let padded = padded_right(fraction, 7);
                        assert(padded.take(taken + 1).drop_last() =~= padded.take(taken as int));
                        assert(padded.take(taken + 1).last() == c);
                        lemma_digits_bound(padded.take(taken + 1));
                        lemma_pow10_small(taken + 1);
                    }
                    fraction_value = fraction_value * 10 + d as u64;
                    taken += 1;
                }
                proof {
                    assert forall|k: int| 0 <= k < after.len() implies digit_of(
                        #[trigger] after[k],
                    ) is Some by {
                        if k < before.len() {
                            assert(after[k] == before[k]);
                        }
                    }
                }
            },
        }
        i += 1;
    }
    proof {
        assert(fraction.take(n - first) =~= fraction);
    }
    while taken < 7
        invariant
            taken <= 7,
            taken == 7 || fraction.len() <= taken,
            fraction_value == digits_value(padded_right(fraction, 7).take(taken as int)),
            fraction_value < 10_000_000,
        decreases 7 - taken,
    {
        proof {
            let padded = padded_right(fraction, 7);
            assert(padded.take(taken + 1).drop_last() =~= padded.take(taken as int));
            assert(padded.take(taken + 1).last() == '0');
            lemma_digits_bound(padded.take(taken + 1));
            lemma_pow10_small(taken + 1);
        }
        fraction_value = fraction_value * 10;
        taken += 1;
    }
    proof {
        assert(padded_right(fraction, 7).take(7) =~= padded_right(fraction, 7));
    }
    if point == start && first == n {
        return None;
    }
    if too_large {
        return None;
    }
    let magnitude: i64 = (whole_value * 10_000_000 + fraction_value) as i64;
    let value: i64 = if negative {
        -magnitude
    } else {
        magnitude
    };
    if value < -2147483648 || value > 2147483647 {
        None
    } else {
        Some(value as i32)
    }
}

/// Ten to the power of `n`.
pub open spec fn pow10(n: nat) -> nat
    decreases n,
{
    if n == 0 {
        1
    } else {
        10 * pow10((n - 1) as nat)
    }
}

/// A string of digits writes a number below ten to the power of its
/// length.
pub proof fn lemma_digits_bound(s: Seq<char>)
    ensures
        digits_value(s) < pow10(s.len()),
    decreases s.len(),
{
    if s.len() > 0 {
        lemma_digits_bound(s.drop_last());
    }
}

/// The powers of ten up to the seventh.
pub proof fn lemma_pow10_small(n: int)
    requires
        0 <= n <= 7,
    ensures
        pow10(n as nat) <= 10_000_000,
{
    reveal_with_fuel(pow10, 9);
}

} // verus!
