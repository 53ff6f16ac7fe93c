//! Decimal rendering of integers, verified against a recursive
//! specification of the digit string.

use vstd::prelude::*;

use crate::hexcodec::{hex_char_value, hex_digit};
use vstd::string::{StrSliceExecFns, StringExecFns};

verus! {

/// The decimal digit string of a non-negative number, most significant
/// digit first. The first ten hexadecimal digits are the decimal ones.
pub open spec fn spec_nat_digits(n: int) -> Seq<char>
    recommends
        n >= 0,
    decreases n,
{
    if n < 10 {
        seq![hex_digit(n)]
    } else {
        spec_nat_digits(n / 10) + seq![hex_digit(n % 10)]
    }
}

/// The decimal text of a signed number: a minus sign in front of the
/// magnitude's digits.
pub open spec fn spec_i64_text(n: int) -> Seq<char> {
    if n < 0 {
        seq!['-'] + spec_nat_digits(-n)
    } else {
        spec_nat_digits(n)
    }
}

/// One decimal digit as text.
fn digit_to_str(d: u64) -> (r: String)
    requires
        d < 10,
    ensures
        r@ =~= seq![hex_digit(d as int)],
{
    let s: &str = match d {
        0 => "0",
        1 => "1",
        2 => "2",
        3 => "3",
        4 => "4",
        5 => "5",
        6 => "6",
        7 => "7",
        8 => "8",
        _ => "9",
    };
    proof {
        reveal_strlit("0");
        reveal_strlit("1");
        reveal_strlit("2");
        reveal_strlit("3");
        reveal_strlit("4");
        reveal_strlit("5");
        reveal_strlit("6");
        reveal_strlit("7");
        reveal_strlit("8");
        reveal_strlit("9");
    }
    String::from_str(s)
}

/// The decimal text of an unsigned number.
pub fn u64_to_string(n: u64) -> (r: String)
    ensures
        r@ =~= spec_nat_digits(n as int),
    decreases n,
{
    if n < 10 {
        digit_to_str(n)
    } else {
        let head = u64_to_string(n / 10);
        let tail = digit_to_str(n % 10);
        let out = head.concat(tail.as_str());
        assert(out@ =~= spec_nat_digits(n as int));
        out
    }
}

/// The decimal text of a signed number.
pub fn i64_to_string(n: i64) -> (r: String)
    ensures
        r@ =~= spec_i64_text(n as int),
{
    if n >= 0 {
        u64_to_string(n as u64)
    } else {
        let mag: u64 = ((-(n + 1)) as u64) + 1;
        let digits = u64_to_string(mag);
        let mut out = String::from_str("-");
        out.append(digits.as_str());
        proof {
            reveal_strlit("-");
            assert(mag as int == -(n as int));
            assert(out@ =~= spec_i64_text(n as int));
        }
        out
    }
}

/// The decimal text of a 32-bit signed number.
pub fn i32_to_string(n: i32) -> (r: String)
    ensures
        r@ =~= spec_i64_text(n as int),
{
    i64_to_string(n as i64)
}

/// Whether a character is a decimal digit.
pub open spec fn is_dec_digit(c: char) -> bool {
    0 <= hex_char_value(c) <= 9
}

/// The value of a decimal digit string, most significant digit first.
pub open spec fn spec_digits_value(s: Seq<char>) -> int
    decreases s.len(),
{
    if s.len() == 0 {
        0
    } else {
        spec_digits_value(s.drop_last()) * 10 + hex_char_value(s.last())
    }
}

/// Whether text is one or more decimal digits.
pub open spec fn spec_all_digits(s: Seq<char>) -> bool {
    s.len() > 0 && (forall|i: int| 0 <= i < s.len() ==> is_dec_digit(#[trigger] s[i]))
}

/// The signed value decimal text denotes, before any range check: an
/// optional sign, then one or more digits; anything else denotes
/// nothing.
pub open spec fn spec_text_value(s: Seq<char>) -> Option<int> {
    if s.len() >= 1 && (s[0] == '+' || s[0] == '-') {
        let rest = s.subrange(1, s.len() as int);
        if spec_all_digits(rest) {
            if s[0] == '-' {
                Some(-spec_digits_value(rest))
            } else {
                Some(spec_digits_value(rest))
            }
        } else {
            None
        }
    } else {
        if spec_all_digits(s) {
            Some(spec_digits_value(s))
        } else {
            None
        }
    }
}

/// What parsing decimal text into a bounded signed type yields, as
/// str::parse does: a value out of range is an error.
pub open spec fn spec_parse_in_range(s: Seq<char>, lo: int, hi: int) -> Option<int> {
    match spec_text_value(s) {
        Some(v) => if lo <= v && v <= hi {
            Some(v)
        } else {
            None
        },
        None => None,
    }
}

/// A digit string's value is never negative.
proof fn lemma_digits_value_nonneg(s: Seq<char>)
    requires
        forall|i: int| 0 <= i < s.len() ==> is_dec_digit(#[trigger] s[i]),
    ensures
        spec_digits_value(s) >= 0,
    decreases s.len(),
{
    if s.len() > 0 {
        assert(forall|i: int|
            0 <= i < s.drop_last().len() ==> is_dec_digit(#[trigger] s.drop_last()[i]));
        lemma_digits_value_nonneg(s.drop_last());
    }
}

/// Extending a digit string never shrinks its value.
proof fn lemma_digits_value_mono(s: Seq<char>, k: int)
    requires
        forall|i: int| 0 <= i < s.len() ==> is_dec_digit(#[trigger] s[i]),
        0 <= k <= s.len(),
    ensures
        spec_digits_value(s) >= spec_digits_value(s.subrange(0, k)),
    decreases s.len() - k,
{
    if k < s.len() {
        lemma_digits_value_mono(s, k + 1);
        let shorter = s.subrange(0, k);
        let longer = s.subrange(0, k + 1);
        assert(longer.drop_last() =~= shorter);
        assert(longer.last() == s[k]);
        lemma_digits_value_nonneg(shorter);
        assert(spec_digits_value(longer) == spec_digits_value(shorter) * 10 + hex_char_value(
            s[k],
        ));
    } else {
        assert(s.subrange(0, k) =~= s);
    }
}

/// One character's decimal digit value, or nothing.
fn dec_digit_value(c: char) -> (r: Option<u64>)
    ensures
        r matches Some(d) ==> d as int == hex_char_value(c) && is_dec_digit(c),
        r is None ==> !is_dec_digit(c),
{
    match c {
        '0' => Some(0),
        '1' => Some(1),
        '2' => Some(2),
        '3' => Some(3),
        '4' => Some(4),
        '5' => Some(5),
        '6' => Some(6),
        '7' => Some(7),
        '8' => Some(8),
        '9' => Some(9),
        _ => None,
    }
}

/// Parses decimal text as a 64-bit signed integer, exactly as
/// str::parse does: an optional sign, one or more digits, and a range
/// check.
pub fn parse_i64(s: &str) -> (r: Option<i64>)
    ensures
        r matches Some(v) ==> spec_parse_in_range(s@, i64::MIN as int, i64::MAX as int) == Some(
            v as int,
        ),
        r is None ==> spec_parse_in_range(s@, i64::MIN as int, i64::MAX as int) is None,
{
    let n = s.unicode_len();
    if n == 0 {
        return None;
    }
    let c0 = s.get_char(0);
    let neg = c0 == '-';
    let has_sign = neg || c0 == '+';
    let start: usize = if has_sign {
        1
    } else {
        0
    };
    if start == n {
        return None;
    }
    let ghost rest = s@.subrange(start as int, n as int);
    proof {
        if start == 0 {
            assert(s@.subrange(0, n as int) =~= s@);
        }
    }
    let mut mag: u64 = 0;
    let mut i: usize = start;
    while i < n
        invariant
            start <= i <= n,
            n == s@.len(),
            start == 1 <==> has_sign,
            start == 0 || start == 1,
            rest == s@.subrange(start as int, n as int),
            rest.len() == n - start,
            s@[0] == c0,
            neg <==> c0 == '-',
            has_sign <==> (c0 == '-' || c0 == '+'),
            start == 0 ==> rest == s@,
            forall|j: int| start <= j < i ==> is_dec_digit(#[trigger] s@[j]),
            mag as int == spec_digits_value(s@.subrange(start as int, i as int)),
            mag <= 0x8000_0000_0000_0000,
        decreases n - i,
    {
        let c = s.get_char(i);
        let d = match dec_digit_value(c) {
            Some(d) => d,
            None => {
                proof {
                    assert(rest[i - start] == s@[i as int]);
                    assert(!spec_all_digits(rest));
                }
                return None;
            },
        };
        proof {
            let pref = s@.subrange(start as int, i as int);
            let pref1 = s@.subrange(start as int, i + 1);
            assert(pref1.drop_last() =~= pref);
            assert(pref1.last() == s@[i as int]);
        }
        if mag > (u64::MAX - 9) / 10 {
            proof {
                lemma_out_of_range(s@, rest, start as int, i + 1, mag as int * 10 + d as int);
            }
            return None;
        }
        let next = mag * 10 + d;
        if next > 0x8000_0000_0000_0000 {
            proof {
                lemma_out_of_range(s@, rest, start as int, i + 1, next as int);
            }
            return None;
        }
        mag = next;
        i = i + 1;
    }
    proof {
        assert(s@.subrange(start as int, n as int) =~= rest);
        assert(forall|j: int| 0 <= j < rest.len() ==> is_dec_digit(#[trigger] rest[j]));
        assert(spec_all_digits(rest));
        assert(mag as int == spec_digits_value(rest));
        lemma_digits_value_nonneg(rest);
        if has_sign {
            assert(s@.subrange(1, n as int) == rest);
            assert(spec_text_value(s@) == Some(
                if neg {
                    -spec_digits_value(rest)
                } else {
                    spec_digits_value(rest)
                },
            ));
        } else {
            assert(spec_text_value(s@) == Some(spec_digits_value(rest)));
        }
    }
    if neg {
        if mag == 0x8000_0000_0000_0000 {
            Some(i64::MIN)
        } else {
            Some(-(mag as i64))
        }
    } else {
        if mag > 0x7FFF_FFFF_FFFF_FFFF {
            None
        } else {
            Some(mag as i64)
        }
    }
}

/// When the digits seen so far already exceed the signed 64-bit range,
/// the whole text does.
proof fn lemma_out_of_range(s: Seq<char>, rest: Seq<char>, start: int, upto: int, partial: int)
    requires
        start == 0 || start == 1,
        start <= upto <= s.len(),
        rest == s.subrange(start, s.len() as int),
        start == 1 ==> s.len() >= 1 && (s[0] == '+' || s[0] == '-'),
        start == 0 ==> !(s.len() >= 1 && (s[0] == '+' || s[0] == '-')),
        forall|j: int| start <= j < upto ==> is_dec_digit(#[trigger] s[j]),
        partial == spec_digits_value(s.subrange(start, upto)),
        partial > 0x8000_0000_0000_0000,
    ensures
        spec_parse_in_range(s, i64::MIN as int, i64::MAX as int) is None,
{
    if start == 0 {
        assert(s.subrange(0, s.len() as int) =~= s);
    }
    if spec_all_digits(rest) {
        assert(forall|i: int| 0 <= i < rest.len() ==> is_dec_digit(#[trigger] rest[i]));
        lemma_digits_value_mono(rest, upto - start);
        assert(rest.subrange(0, upto - start) =~= s.subrange(start, upto));
        assert(spec_digits_value(rest) >= partial);
    }
}

/// Parses decimal text as a 32-bit signed integer, exactly as
/// str::parse does.
pub fn parse_i32(s: &str) -> (r: Option<i32>)
    ensures
        r matches Some(v) ==> spec_parse_in_range(s@, i32::MIN as int, i32::MAX as int) == Some(
            v as int,
        ),
        r is None ==> spec_parse_in_range(s@, i32::MIN as int, i32::MAX as int) is None,
{
    match parse_i64(s) {
        Some(v) => {
            if i32::MIN as i64 <= v && v <= i32::MAX as i64 {
                Some(v as i32)
            } else {
                None
            }
        },
        None => None,
    }
}

} // verus!
