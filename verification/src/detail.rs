use vstd::prelude::*;
use vstd::string::*;

use crate::error::HandleError;
use crate::query::Query;

verus! {

pub open spec fn is_digit(c: char) -> bool {
    '0' <= c <= '9'
}

pub open spec fn digit_value(c: char) -> int {
    c as int - '0' as int
}

pub open spec fn all_digits(s: Seq<char>) -> bool {
    forall|i: int| 0 <= i < s.len() ==> is_digit(#[trigger] s[i])
}

/// The number that a string of decimal digits denotes.
pub open spec fn digits_value(s: Seq<char>) -> int
    decreases s.len(),
{
    if s.len() == 0 {
        0
    } else {
        digits_value(s.drop_last()) * 10 + digit_value(s.last())
    }
}

/// Whether the text starts with a sign, `-` or `+`.
pub open spec fn has_sign(s: Seq<char>) -> bool {
    s.len() > 0 && (s[0] == '-' || s[0] == '+')
}

/// The digits of the text, after its sign if it has one.
pub open spec fn unsigned_part(s: Seq<char>) -> Seq<char> {
    if has_sign(s) {
        s.skip(1)
    } else {
        s
    }
}

/// How `str::parse::<i32>` reads a text: an optional `+` or `-`, then one or
/// more ASCII digits, denoting a number that fits in an `i32`.
pub open spec fn parsed_i32(s: Seq<char>) -> Option<i32> {
    let digits = unsigned_part(s);
    let magnitude: int = digits_value(digits);
    let value: int = if s.len() > 0 && s[0] == '-' { -magnitude } else { magnitude };
    if digits.len() > 0 && all_digits(digits) && i32::MIN <= value <= i32::MAX {
        Some(value as i32)
    } else {
        None
    }
}

/// A string of digits denotes at least as much as any of its prefixes.
proof fn lemma_digits_value_prefix(s: Seq<char>, k: int)
    requires
        all_digits(s),
        0 <= k <= s.len(),
    ensures
        0 <= digits_value(s.take(k)) <= digits_value(s),
    decreases s.len(),
{
    lemma_digits_value_nonneg(s);
    if k < s.len() {
        let init = s.drop_last();
        assert(init.take(k) =~= s.take(k));
        lemma_digits_value_prefix(init, k);
        lemma_digits_value_nonneg(init);
    } else {
        assert(s.take(k) =~= s);
    }
}

proof fn lemma_digits_value_nonneg(s: Seq<char>)
    requires
        all_digits(s),
    ensures
        digits_value(s) >= 0,
    decreases s.len(),
{
    if s.len() > 0 {
        lemma_digits_value_nonneg(s.drop_last());
    }
}

/// Reads a text as `str::parse::<i32>` does.
pub fn parse_i32(text: &str) -> (r: Option<i32>)
    ensures
        r == parsed_i32(text@),
{
    let n: usize = text.unicode_len();
    if n == 0 {
        return None;
    }
    let first = text.get_char(0);
    let negative = first == '-';
    let start: usize = if first == '-' || first == '+' { 1 } else { 0 };
    let ghost digits = unsigned_part(text@);
    proof {
        if start == 1 {
            assert(has_sign(text@));
        } else {
            assert(!has_sign(text@));
            assert(digits =~= text@);
        }
        assert(digits =~= text@.subrange(start as int, n as int));
    }
    if start >= n {
        return None;
    }
    let mut magnitude: u64 = 0;
    let mut i: usize = start;
    while i < n
        invariant
            start <= i <= n,
            n == text@.len(),
            digits =~= text@.subrange(start as int, n as int),
            digits == unsigned_part(text@),
            negative == (text@[0] == '-'),
            all_digits(digits.take(i - start)),
            magnitude == digits_value(digits.take(i - start)),
            magnitude <= 0x8000_0000,
        decreases n - i,
    {
        let c = text.get_char(i);
        if !('0' <= c && c <= '9') {
            proof {
                assert(digits[i - start] == text@[i as int]);
                assert(!is_digit(digits[i - start]));
                assert(!all_digits(digits));
            }
            return None;
        }
        let d: u64 = (c as u32 - '0' as u32) as u64;
        let next: u64 = magnitude * 10 + d;
        proof {
            let prefix = digits.take(i - start + 1);
            assert(prefix.drop_last() =~= digits.take(i - start));
            assert(prefix.last() == digits[i - start]);
            assert(digits[i - start] == text@[i as int]);
            assert(digit_value(c) == d);
            assert(all_digits(prefix));
        }
        if next > 0x8000_0000 {
            proof {
                let prefix = digits.take(i - start + 1);
                assert(digits_value(prefix) == next);
                if all_digits(digits) {
                    lemma_digits_value_prefix(digits, i - start + 1);
                    assert(digits_value(digits) > 0x8000_0000);
                }
            }
            return None;
        }
        magnitude = next;
        i = i + 1;
    }
    proof {
        assert(digits.take(n - start) =~= digits);
    }
    if negative {
        let v: i64 = 0i64 - magnitude as i64;
        Some(v as i32)
    } else if magnitude > 0x7fff_ffff {
        None
    } else {
        Some(magnitude as i32)
    }
}

/// The character of a decimal digit.
pub open spec fn digit_char(d: int) -> char {
    (d + '0' as int) as char
}

/// The decimal digits of a natural number, without leading zeros.
pub open spec fn decimal_digits(n: nat) -> Seq<char>
    decreases n,
{
    if n < 10 {
        seq![digit_char(n as int)]
    } else {
        decimal_digits(n / 10).push(digit_char((n % 10) as int))
    }
}

/// An integer written as `i32`'s `to_string` writes it: a `-` for a negative
/// number, then its decimal digits.
pub open spec fn decimal_text(n: int) -> Seq<char> {
    if n < 0 {
        seq!['-'] + decimal_digits((-n) as nat)
    } else {
        decimal_digits(n as nat)
    }
}

proof fn lemma_decimal_digits(n: nat)
    ensures
        decimal_digits(n).len() > 0,
        all_digits(decimal_digits(n)),
        digits_value(decimal_digits(n)) == n,
    decreases n,
{
    let s = decimal_digits(n);
    if n < 10 {
        assert(s.drop_last() =~= Seq::<char>::empty());
        assert(digit_value(digit_char(n as int)) == n);
        assert(digits_value(s.drop_last()) == 0);
        assert(digits_value(s) == digits_value(s.drop_last()) * 10 + digit_value(s.last()));
    } else {
        lemma_decimal_digits(n / 10);
        let init = decimal_digits(n / 10);
        assert(s.drop_last() =~= init);
        assert(digit_value(digit_char((n % 10) as int)) == n % 10);
        assert(digits_value(s) == digits_value(init) * 10 + digit_value(s.last()));
        assert((n / 10) * 10 + n % 10 == n) by (nonlinear_arith);
        assert forall|i: int| 0 <= i < s.len() implies is_digit(#[trigger] s[i]) by {
            if i < init.len() {
                assert(s[i] == init[i]);
            }
        }
    }
}

/// A text is read as a number only if it is non-empty and, after at most one
/// leading `+` or `-`, consists of one or more ASCII digits; a `+` in front of
/// digits changes nothing, and a `-` in front of digits negates.
pub proof fn law_parse_shape(s: Seq<char>, digits: Seq<char>)
    ensures
        parsed_i32(s) is Some ==> s.len() > 0 && (forall|i: int|
            0 <= i < s.len() && !(i == 0 && (s[0] == '+' || s[0] == '-')) ==> '0' <= #[trigger] s[i]
                <= '9') && exists|i: int| 0 <= i < s.len() && '0' <= #[trigger] s[i] <= '9',
        digits.len() > 0 && (forall|i: int| 0 <= i < digits.len() ==> '0' <= #[trigger] digits[i]
            <= '9') ==> parsed_i32(seq!['+'] + digits) == parsed_i32(digits),
        digits.len() > 0 && (forall|i: int| 0 <= i < digits.len() ==> '0' <= #[trigger] digits[i]
            <= '9') && parsed_i32(digits) is Some && parsed_i32(digits)->0 > 0 ==> parsed_i32(
            seq!['-'] + digits,
        ) == Some((-parsed_i32(digits)->0) as i32),
{
    if parsed_i32(s) is Some {
        let d = unsigned_part(s);
        assert forall|i: int|
            0 <= i < s.len() && !(i == 0 && (s[0] == '+' || s[0] == '-')) implies '0' <= #[trigger] s[i]
            <= '9' by {
            if has_sign(s) {
                assert(s[i] == d[i - 1]);
            } else {
                assert(s[i] == d[i]);
            }
        }
        if has_sign(s) {
            assert(s[1] == d[0]);
        } else {
            assert(s[0] == d[0]);
        }
    }
    if digits.len() > 0 && (forall|i: int| 0 <= i < digits.len() ==> '0' <= #[trigger] digits[i]
        <= '9') {
        assert(!has_sign(digits)) by {
            assert('0' <= digits[0] <= '9');
        }
        let plus = seq!['+'] + digits;
        let minus = seq!['-'] + digits;
        assert(has_sign(plus));
        assert(has_sign(minus));
        assert(unsigned_part(plus) =~= digits);
        assert(unsigned_part(minus) =~= digits);
        assert(all_digits(digits));
    }
}

/// Every account id, written in decimal, is read back as the same id when it
/// is the `user_id` parameter of a score-detail query.
pub proof fn law_user_id_round_trip(query: Map<Seq<char>, Seq<char>>, id: i32)
    requires
        query.contains_key("user_id"@),
        query["user_id"@] == decimal_text(id as int),
    ensures
        selected_user_id(query) == Ok::<i32, HandleError>(id),
{
    let text = decimal_text(id as int);
    if id < 0 {
        let m: nat = (-id) as nat;
        lemma_decimal_digits(m);
        assert(has_sign(text));
        assert(unsigned_part(text) =~= decimal_digits(m));
    } else {
        let m: nat = id as nat;
        lemma_decimal_digits(m);
        assert(is_digit(text[0]));
        assert(!has_sign(text));
    }
}

/// The id of the account whose scores are asked for: the `user_id` parameter
/// of the query, read as an `i32`.
pub open spec fn selected_user_id(query: Map<Seq<char>, Seq<char>>) -> Result<i32, HandleError> {
    if !query.contains_key("user_id"@) {
        Err(HandleError::AccountIsNotSelected)
    } else {
        match parsed_i32(query["user_id"@]) {
            Some(id) => Ok(id),
            None => Err(HandleError::AccountSelectionIsInvalid),
        }
    }
}

/// The account asked for is the `user_id` parameter: without it the request
/// is `AccountIsNotSelected`, with one that reads as no number it is
/// `AccountSelectionIsInvalid`, and otherwise it is the number it reads as.
pub proof fn law_selected_user_id(query: Map<Seq<char>, Seq<char>>)
    ensures
        !query.contains_key("user_id"@) ==> selected_user_id(query) matches Err(
            HandleError::AccountIsNotSelected,
        ),
        query.contains_key("user_id"@) && parsed_i32(query["user_id"@]) is None
            ==> selected_user_id(query) matches Err(HandleError::AccountSelectionIsInvalid),
        forall|id: i32|
            query.contains_key("user_id"@) && parsed_i32(query["user_id"@]) == Some(id)
                ==> selected_user_id(query) == Ok::<i32, HandleError>(id),
{
}

/// Reads the account that the score-detail handler is asked about: no
/// `user_id` parameter is `AccountIsNotSelected`, one that is no `i32` is
/// `AccountSelectionIsInvalid`.
pub fn detail_user_id(query: &Query) -> (r: Result<i32, HandleError>)
    ensures
        r == selected_user_id(query@),
{
    match query.get("user_id") {
        None => Err(HandleError::AccountIsNotSelected),
        Some(raw) => match parse_i32(raw.as_str()) {
            Some(id) => Ok(id),
            None => Err(HandleError::AccountSelectionIsInvalid),
        },
    }
}

} // verus!
