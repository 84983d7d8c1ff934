//! Reading a shift from its decimal spelling.
//!
//! A shift is written as an optional `+` or `-` sign followed by one or more
//! decimal digits, and has to fit in an `i32`. Nothing else is accepted: no
//! blanks, no underscores, no other digits than `'0'..='9'`.

use vstd::prelude::*;
use vstd::string::StringExecFns;

verus! {

/// Why a text is not the spelling of a shift.
#[derive(Clone, Copy, Debug, PartialEq, Eq, Structural)]
pub enum ShiftError {
    /// The text is empty.
    Empty,
    /// A character is not a decimal digit where one is expected, or a sign
    /// stands alone.
    InvalidDigit,
    /// The number is greater than the largest `i32`.
    TooLarge,
    /// The number is less than the smallest `i32`.
    TooSmall,
}

/// `c` is one of `'0'..='9'`.
pub open spec fn is_digit(c: char) -> bool {
    '0' <= c <= '9'
}

/// The number that the decimal digit `c` stands for.
pub open spec fn digit_value(c: char) -> int
    recommends
        is_digit(c),
{
    c as int - '0' as int
}

/// Every character of `s` is a decimal digit.
pub open spec fn all_digits(s: Seq<char>) -> bool {
    forall|i: int| 0 <= i < s.len() ==> is_digit(#[trigger] s[i])
}

/// The natural number that the digits `s` spell in base ten; 0 for no digits.
pub open spec fn decimal_value(s: Seq<char>) -> int
    decreases s.len(),
{
    if s.len() == 0 {
        0
    } else {
        decimal_value(s.drop_last()) * 10 + digit_value(s.last())
    }
}

/// The text starts with a `+` or a `-`.
pub open spec fn has_sign(s: Seq<char>) -> bool {
    s.len() > 0 && (s[0] == '+' || s[0] == '-')
}

/// The text starts with a `-`.
pub open spec fn is_negative(s: Seq<char>) -> bool {
    s.len() > 0 && s[0] == '-'
}

/// Number of characters that the sign takes: 1 or 0.
pub open spec fn sign_len(s: Seq<char>) -> int {
    if has_sign(s) {
        1
    } else {
        0
    }
}

/// The part of the text after its sign, if it has one.
pub open spec fn digits_of(s: Seq<char>) -> Seq<char> {
    if has_sign(s) {
        s.drop_first()
    } else {
        s
    }
}

/// `magnitude` with a sign: its negative where `negative` holds.
pub open spec fn with_sign(negative: bool, magnitude: int) -> int {
    if negative {
        -magnitude
    } else {
        magnitude
    }
}

/// The number that a well-formed text spells.
pub open spec fn signed_value(s: Seq<char>) -> int {
    with_sign(is_negative(s), decimal_value(digits_of(s)))
}

/// The text is an optional sign followed by at least one digit and nothing
/// else.
pub open spec fn well_formed(s: Seq<char>) -> bool {
    digits_of(s).len() > 0 && all_digits(digits_of(s))
}

/// Reading `digits` from left to right into a number of the given sign. The
/// first character that cannot be taken in decides the error: it is not a
/// digit, or with it the number leaves the range of `i32`.
pub open spec fn scan_digits(digits: Seq<char>, negative: bool) -> Result<int, ShiftError>
    decreases digits.len(),
{
    if digits.len() == 0 {
        Ok(0)
    } else {
        match scan_digits(digits.drop_last(), negative) {
            Err(e) => Err(e),
            Ok(value) => {
                let c = digits.last();
                let next = value * 10 + with_sign(negative, digit_value(c));
                if !is_digit(c) {
                    Err(ShiftError::InvalidDigit)
                } else if next > i32::MAX {
                    Err(ShiftError::TooLarge)
                } else if next < i32::MIN {
                    Err(ShiftError::TooSmall)
                } else {
                    Ok(next)
                }
            },
        }
    }
}

/// What reading the text `s` as a shift gives: its value, or the reason why
/// it has none.
pub open spec fn parse_shift_spec(s: Seq<char>) -> Result<int, ShiftError> {
    if s.len() == 0 {
        Err(ShiftError::Empty)
    } else if digits_of(s).len() == 0 {
        Err(ShiftError::InvalidDigit)
    } else {
        scan_digits(digits_of(s), is_negative(s))
    }
}

/// Once reading has failed on a front part of the digits, reading all of
/// them fails in the same way: what follows the failure is never looked at.
pub proof fn scan_digits_stops_at_error(digits: Seq<char>, n: int, negative: bool)
    requires
        0 <= n <= digits.len(),
        scan_digits(digits.take(n), negative) is Err,
    ensures
        scan_digits(digits, negative) == scan_digits(digits.take(n), negative),
    decreases digits.len() - n,
{
    if n < digits.len() {
        assert(digits.take(n + 1).drop_last() =~= digits.take(n));
        scan_digits_stops_at_error(digits, n + 1, negative);
    } else {
        assert(digits.take(n) =~= digits);
    }
}

/// A text holds digits only exactly when its last character is a digit and
/// so is every one before it.
proof fn all_digits_by_last(s: Seq<char>)
    requires
        s.len() > 0,
    ensures
        all_digits(s) <==> all_digits(s.drop_last()) && is_digit(s.last()),
{
    let front = s.drop_last();
    if all_digits(front) && is_digit(s.last()) {
        assert forall|i: int| 0 <= i < s.len() implies is_digit(#[trigger] s[i]) by {
            if i < front.len() {
                assert(s[i] == front[i]);
            }
        }
    }
}

/// Digits spell a number that is not negative.
pub proof fn decimal_value_nonnegative(s: Seq<char>)
    requires
        all_digits(s),
    ensures
        decimal_value(s) >= 0,
    decreases s.len(),
{
    if s.len() > 0 {
        all_digits_by_last(s);
        decimal_value_nonnegative(s.drop_last());
    }
}

/// Reading digits succeeds exactly when all of them are digits and the number
/// they spell, with its sign, fits in an `i32`; the result is then that
/// number.
pub proof fn scan_digits_accepts(digits: Seq<char>, negative: bool)
    ensures
        scan_digits(digits, negative) is Ok <==> all_digits(digits) && i32::MIN <= with_sign(
            negative,
            decimal_value(digits),
        ) <= i32::MAX,
        scan_digits(digits, negative) matches Ok(v) ==> v == with_sign(
            negative,
            decimal_value(digits),
        ),
    decreases digits.len(),
{
    if digits.len() > 0 {
        all_digits_by_last(digits);
        scan_digits_accepts(digits.drop_last(), negative);
    }
}

/// A text is read as a shift exactly when it is well formed, an optional sign
/// and then digits only, and the number it spells fits in an `i32`; the
/// shift is then that number.
pub proof fn parse_shift_accepts(s: Seq<char>)
    ensures
        parse_shift_spec(s) is Ok <==> well_formed(s) && i32::MIN <= signed_value(s) <= i32::MAX,
        parse_shift_spec(s) matches Ok(v) ==> v == signed_value(s),
{
    scan_digits_accepts(digits_of(s), is_negative(s));
}

/// What reading digits can give. The number read has the sign that was asked
/// for, or is zero. The reading never fails for want of a character; it
/// fails on a digit only by the number's size, too large without a `-` and
/// too small with one.
pub proof fn scan_digits_sign(digits: Seq<char>, negative: bool)
    ensures
        scan_digits(digits, negative) matches Ok(v) ==> with_sign(negative, v) >= 0,
        scan_digits(digits, negative) != Err::<int, ShiftError>(ShiftError::Empty),
        scan_digits(digits, negative) == Err::<int, ShiftError>(ShiftError::InvalidDigit)
            ==> !all_digits(digits),
        scan_digits(digits, negative) == Err::<int, ShiftError>(ShiftError::TooLarge)
            ==> !negative,
        scan_digits(digits, negative) == Err::<int, ShiftError>(ShiftError::TooSmall)
            ==> negative,
    decreases digits.len(),
{
    if digits.len() > 0 {
        all_digits_by_last(digits);
        scan_digits_sign(digits.drop_last(), negative);
    }
}

/// Why a text is refused. It is empty exactly when the error says so. A
/// well-formed text fails only by its size: it is too large where it spells
/// a number above the largest `i32`, too small where it spells one below the
/// smallest. And only a text with a `-` in front is ever too small, only one
/// without is ever too large.
pub proof fn parse_shift_rejects(s: Seq<char>)
    ensures
        parse_shift_spec(s) == Err::<int, ShiftError>(ShiftError::Empty) <==> s.len() == 0,
        well_formed(s) && signed_value(s) > i32::MAX ==> parse_shift_spec(s) == Err::<
            int,
            ShiftError,
        >(ShiftError::TooLarge),
        well_formed(s) && signed_value(s) < i32::MIN ==> parse_shift_spec(s) == Err::<
            int,
            ShiftError,
        >(ShiftError::TooSmall),
        parse_shift_spec(s) == Err::<int, ShiftError>(ShiftError::TooLarge) ==> !is_negative(s),
        parse_shift_spec(s) == Err::<int, ShiftError>(ShiftError::TooSmall) ==> is_negative(s),
        s.len() > 0 && !well_formed(s) ==> parse_shift_spec(s) is Err,
{
    scan_digits_sign(digits_of(s), is_negative(s));
    scan_digits_accepts(digits_of(s), is_negative(s));
    if well_formed(s) {
        decimal_value_nonnegative(digits_of(s));
    }
}

impl ShiftError {
    /// The wording of the error.
    pub open spec fn text(self) -> Seq<char> {
        match self {
            ShiftError::Empty => "cannot parse integer from empty string"@,
            ShiftError::InvalidDigit => "invalid digit found in string"@,
            ShiftError::TooLarge => "number too large to fit in target type"@,
            ShiftError::TooSmall => "number too small to fit in target type"@,
        }
    }

    /// The wording of the error, as a string to show.
    pub fn message(&self) -> (m: String)
        ensures
            m@ == self.text(),
    {
        match self {
            ShiftError::Empty => String::from_str("cannot parse integer from empty string"),
            ShiftError::InvalidDigit => String::from_str("invalid digit found in string"),
            ShiftError::TooLarge => String::from_str("number too large to fit in target type"),
            ShiftError::TooSmall => String::from_str("number too small to fit in target type"),
        }
    }
}

/// Reads a shift from its decimal spelling: an optional `+` or `-`, then
/// digits. The text is read from left to right, and the first character that
/// cannot be taken in decides the error.
pub fn parse_shift(s: &str) -> (r: Result<i32, ShiftError>)
    ensures
        match r {
            Ok(v) => parse_shift_spec(s@) == Ok::<int, ShiftError>(v as int),
            Err(e) => parse_shift_spec(s@) == Err::<int, ShiftError>(e),
        },
        r is Ok <==> well_formed(s@) && i32::MIN <= signed_value(s@) <= i32::MAX,
        r matches Ok(v) ==> v == signed_value(s@),
{
    proof {
        parse_shift_accepts(s@);
    }
    let ghost digits = digits_of(s@);
    let ghost skipped = sign_len(s@);
    let mut value: i64 = 0;
    let mut negative: bool = false;
    let mut first: bool = true;
    let mut any_digit: bool = false;
    for c in it: s.chars()
        invariant
            it.seq() == s@,
            digits == digits_of(s@),
            skipped == sign_len(s@),
            parse_shift_spec(s@) is Ok <==> well_formed(s@) && i32::MIN <= signed_value(s@)
                <= i32::MAX,
            first <==> it.index() == 0,
            any_digit <==> it.index() > skipped,
            first ==> !negative && value == 0,
            !first ==> negative == is_negative(s@),
            !first ==> scan_digits(digits.take(it.index() - skipped), negative) == Ok::<
                int,
                ShiftError,
            >(value as int),
            i32::MIN <= value <= i32::MAX,
    {
        let ghost k = it.index();
        if first && (c == '+' || c == '-') {
            negative = c == '-';
        } else {
            proof {
                let taken = digits.take(k - skipped + 1);
                assert(taken.drop_last() =~= digits.take(k - skipped));
                if scan_digits(taken, negative) is Err {
                    scan_digits_stops_at_error(digits, k - skipped + 1, negative);
                }
            }
            if !('0' <= c && c <= '9') {
                return Err(ShiftError::InvalidDigit);
            }
            let digit: i64 = (c as u32 - '0' as u32) as i64;
            let next: i64 = if negative {
                value * 10 - digit
            } else {
                value * 10 + digit
            };
            if next > i32::MAX as i64 {
                return Err(ShiftError::TooLarge);
            }
            if next < i32::MIN as i64 {
                return Err(ShiftError::TooSmall);
            }
            value = next;
            any_digit = true;
        }
        first = false;
    }
    if first {
        return Err(ShiftError::Empty);
    }
    if !any_digit {
        return Err(ShiftError::InvalidDigit);
    }
    assert(digits.take(s@.len() - skipped) =~= digits);
    Ok(value as i32)
}

} // verus!
