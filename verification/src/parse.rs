//! Reading numbers out of text.

use vstd::prelude::*;
use vstd::string::*;

verus! {

/// Why a text is not a number.
#[derive(Clone, Copy, Debug, PartialEq, Eq, Structural)]
pub enum NumberError {
    /// There is nothing.
    Empty,
    /// There is something other than a digit.
    InvalidDigit,
    /// It does not fit.
    TooLarge,
}

impl NumberError {
    /// What is wrong, in words.
    pub open spec fn words(self) -> Seq<char> {
        match self {
            NumberError::Empty => "cannot parse integer from empty string"@,
            NumberError::InvalidDigit => "invalid digit found in string"@,
            NumberError::TooLarge => "number too large to fit in target type"@,
        }
    }

    /// What is wrong, in words.
    pub fn as_text(self) -> (r: &'static str)
        ensures
            r@ == self.words(),
    {
        match self {
            NumberError::Empty => "cannot parse integer from empty string",
            NumberError::InvalidDigit => "invalid digit found in string",
            NumberError::TooLarge => "number too large to fit in target type",
        }
    }
}

/// The value of a decimal digit.
pub open spec fn digit_value(c: char) -> Option<int> {
    if '0' <= c && c <= '9' {
        Some(c as int - '0' as int)
    } else {
        None
    }
}

/// The number that some digits make behind those already read; the first thing
/// wrong, from the left, is the error.
pub open spec fn digits_read(s: Seq<char>, so_far: int, max: int) -> Result<int, NumberError>
    decreases s.len(),
{
    if s.len() == 0 {
        Ok(so_far)
    } else {
        match digit_value(s[0]) {
            None => Err(NumberError::InvalidDigit),
            Some(d) => if so_far * 10 + d > max {
                Err(NumberError::TooLarge)
            } else {
                digits_read(s.skip(1), so_far * 10 + d, max)
            },
        }
    }
}

/// The unsigned decimal number that a text holds: digits, behind a plus sign or not.
pub open spec fn decimal(s: Seq<char>, max: int) -> Result<int, NumberError> {
    if s.len() == 0 {
        Err(NumberError::Empty)
    } else if s[0] == '+' && s.len() > 1 {
        digits_read(s.skip(1), 0, max)
    } else {
        digits_read(s, 0, max)
    }
}

/// The unsigned decimal number that a text holds.
pub fn parse_decimal(s: &str, max: u64) -> (r: Result<u64, NumberError>)
    ensures
        match decimal(s@, max as int) {
            Ok(n) => r is Ok && r->Ok_0 == n && n <= max,
            Err(e) => r == Err::<u64, NumberError>(e),
        },
{
    let len: usize = s.unicode_len();
    if len == 0 {
        return Err(NumberError::Empty);
    }
    let mut at: usize = 0;
    if len > 1 && s.get_char(0) == '+' {
        at = 1;
    }
    assert(s@.skip(0) =~= s@);
    let mut value: u64 = 0;
    while at < len
        invariant
            len == s@.len(),
            at <= len,
            value <= max,
            decimal(s@, max as int) == digits_read(s@.skip(at as int), value as int, max as int),
        decreases len - at,
    {
        let c = s.get_char(at);
        let ghost rest = s@.skip(at as int);
        assert(rest[0] == c);
        assert(rest.skip(1) =~= s@.skip(at + 1));
        if c < '0' || c > '9' {
            return Err(NumberError::InvalidDigit);
        }
        let digit: u64 = (c as u32 - '0' as u32) as u64;
        if value > max / 10 {
            assert(value * 10 + digit > max) by (nonlinear_arith)
                requires
                    value > max / 10,
                    digit >= 0,
            ;
            return Err(NumberError::TooLarge);
        }
        let tenfold: u64 = value * 10;
        if digit > max - tenfold {
            return Err(NumberError::TooLarge);
        }
        value = tenfold + digit;
        at += 1;
    }
    Ok(value)
}

} // verus!
