//! One-Time Password (OTP) digits.
use crate::integer::{self, parse_unsigned, IntErrorKind};
use crate::text::{decimal, to_padded_decimal, zero_padded};
use vstd::prelude::*;

verus! {

/// The minimum digits value.
pub const MIN: u8 = 6;

/// The maximum digits value.
pub const MAX: u8 = 8;

/// The default digits value.
pub const DEFAULT: u8 = MIN;

/// Represents errors that can occur during digits creation.
///
/// This error is returned when the given value is less than [`MIN`] or greater than [`MAX`].
#[derive(Debug)]
pub struct Error {
    /// The invalid value.
    pub value: u8,
}

impl Error {
    /// Constructs [`Self`].
    pub fn new(value: u8) -> (r: Self)
        ensures
            r.value == value,
    {
        Self { value }
    }
}

/// Represents sources of errors that can occur when parsing [`Digits`] values.
#[derive(Debug)]
pub enum ParseErrorSource {
    /// Invalid digits value.
    Digits(Error),
    /// Integer parse error.
    Int(integer::ParseError),
}

/// Represents errors that occur when parsing [`Digits`] values.
#[derive(Debug)]
pub struct ParseError {
    /// The source of this error.
    pub source: ParseErrorSource,
    /// The string that could not be parsed.
    pub string: String,
}

impl ParseError {
    /// Constructs [`Self`].
    pub fn new(source: ParseErrorSource, string: String) -> (r: Self)
        ensures
            r.source == source,
            r.string@ == string@,
    {
        Self { source, string }
    }

    /// Constructs [`Self`] from [`struct@Error`].
    pub fn digits(error: Error, string: String) -> (r: Self)
        ensures
            r.source == ParseErrorSource::Digits(error),
            r.string@ == string@,
    {
        Self::new(ParseErrorSource::Digits(error), string)
    }

    /// Constructs [`Self`] from [`integer::ParseError`].
    pub fn integer(error: integer::ParseError, string: String) -> (r: Self)
        ensures
            r.source == ParseErrorSource::Int(error),
            r.string@ == string@,
    {
        Self::new(ParseErrorSource::Int(error), string)
    }
}

/// Whether `value` is a valid number of digits.
pub open spec fn valid(value: nat) -> bool {
    MIN <= value <= MAX
}

/// `10` raised to the power `n`.
pub open spec fn pow10(n: nat) -> nat
    decreases n,
{
    if n == 0 {
        1
    } else {
        10 * pow10((n - 1) as nat)
    }
}

/// The result of parsing `s` as a number of digits: the value, or the integer error, or the
/// out-of-range value.
pub open spec fn parse_spec(s: Seq<char>) -> Result<u8, Result<u8, IntErrorKind>> {
    match parse_unsigned(s, 255) {
        Ok(v) => if valid(v) {
            Ok(v as u8)
        } else {
            Err(Ok(v as u8))
        },
        Err(kind) => Err(Err(kind)),
    }
}

/// Represents the number of digits in OTPs.
#[derive(Debug, Clone, Copy, PartialEq, Eq, Hash)]
pub struct Digits {
    value: u8,
}

impl View for Digits {
    type V = u8;

    closed spec fn view(&self) -> u8 {
        self.value
    }
}

impl std::str::FromStr for Digits {
    type Err = ParseError;

    fn from_str(string: &str) -> (r: Result<Self, Self::Err>)
        ensures
            match parse_spec(string@) {
                Ok(v) => r is Ok && r->Ok_0@ == v,
                Err(Ok(v)) => r is Err && r->Err_0.string@ == string@
                    && r->Err_0.source == ParseErrorSource::Digits(Error { value: v }),
                Err(Err(kind)) => r is Err && r->Err_0.string@ == string@
                    && r->Err_0.source == ParseErrorSource::Int(integer::wrap_spec(kind)),
            },
    {
        Digits::parse(string)
    }
}

impl Default for Digits {
    /// The default number of digits is [`DEFAULT`].
    fn default() -> (r: Self)
        ensures
            r@ == DEFAULT,
    {
        Self { value: DEFAULT }
    }
}

impl Digits {
    /// Every number of digits lies in `[MIN, MAX]`.
    #[verifier::type_invariant]
    pub open spec fn well_formed(self) -> bool {
        valid(self@ as nat)
    }

    /// Constructs [`Self`], if possible.
    ///
    /// # Errors
    ///
    /// Returns [`struct@Error`] if the given value is less than [`MIN`] or greater than [`MAX`].
    pub fn new(value: u8) -> (r: Result<Self, Error>)
        ensures
            valid(value as nat) ==> r is Ok && r->Ok_0@ == value,
            !valid(value as nat) ==> r is Err && r->Err_0.value == value,
    {
        match Self::check(value) {
            Ok(()) => Ok(Self::new_unchecked(value)),
            Err(error) => Err(error),
        }
    }

    /// Similar to [`new`], but the error is discarded.
    ///
    /// [`new`]: Self::new
    pub fn new_ok(value: u8) -> (r: Option<Self>)
        ensures
            valid(value as nat) ==> r is Some && r->Some_0@ == value,
            !valid(value as nat) ==> r is None,
    {
        match Self::new(value) {
            Ok(digits) => Some(digits),
            Err(_) => None,
        }
    }

    /// Checks if the provided value is valid for [`Self`].
    ///
    /// # Errors
    ///
    /// Returns [`struct@Error`] if the given value is less than [`MIN`] or greater than [`MAX`].
    pub fn check(value: u8) -> (r: Result<(), Error>)
        ensures
            valid(value as nat) ==> r is Ok,
            !valid(value as nat) ==> r is Err && r->Err_0.value == value,
    {
        if value < MIN || value > MAX {
            return Err(Error::new(value));
        }
        Ok(())
    }

    /// Constructs [`Self`] from a value known to lie in `[MIN, MAX]`.
    pub fn new_unchecked(value: u8) -> (r: Self)
        requires
            valid(value as nat),
        ensures
            r@ == value,
    {
        Self { value }
    }

    /// Returns the value wrapped in [`Self`].
    pub fn get(self) -> (r: u8)
        ensures
            r == self@,
            valid(r as nat),
    {
        proof {
            use_type_invariant(&self);
        }
        self.value
    }

    /// Returns the value wrapped in [`Self`] as [`usize`].
    pub fn count(self) -> (r: usize)
        ensures
            r == self@,
            valid(r as nat),
    {
        self.get() as usize
    }

    /// Raises `10` to the power of the value wrapped in [`Self`].
    pub fn power(self) -> (r: u32)
        ensures
            r == pow10(self@ as nat),
            r >= 1_000_000,
    {
        let value = self.get();
        proof {
            reveal_with_fuel(pow10, 9);
        }
        if value == 6 {
            1_000_000
        } else if value == 7 {
            10_000_000
        } else {
            100_000_000
        }
    }

    /// Formats the given code, padding it with zeros to the length returned from [`count`].
    ///
    /// [`count`]: Self::count
    pub fn string(self, code: u32) -> (r: String)
        ensures
            r@ == zero_padded(decimal(code as nat), self@ as nat),
    {
        to_padded_decimal(code as u64, self.count())
    }

    /// Formats the value wrapped in [`Self`] in decimal.
    pub fn to_string(self) -> (r: String)
        ensures
            r@ == decimal(self@ as nat),
    {
        crate::text::to_decimal(self.get() as u64)
    }

    /// Parses [`Self`] from its decimal form.
    ///
    /// # Errors
    ///
    /// Returns [`ParseError`] holding the string if it is not a decimal number, or if the
    /// number lies outside `[MIN, MAX]`.
    pub fn parse(string: &str) -> (r: Result<Self, ParseError>)
        ensures
            match parse_spec(string@) {
                Ok(v) => r is Ok && r->Ok_0@ == v,
                Err(Ok(v)) => r is Err && r->Err_0.string@ == string@
                    && r->Err_0.source == ParseErrorSource::Digits(Error { value: v }),
                Err(Err(kind)) => r is Err && r->Err_0.string@ == string@
                    && r->Err_0.source == ParseErrorSource::Int(integer::wrap_spec(kind)),
            },
    {
        match integer::parse_bounded(string, 255) {
            Ok(value) => match Self::new(value as u8) {
                Ok(digits) => Ok(digits),
                Err(error) => Err(ParseError::digits(error, string.to_owned())),
            },
            Err(error) => Err(ParseError::integer(error, string.to_owned())),
        }
    }
}

} // verus!
