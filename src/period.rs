//! Time-based One-Time Password (TOTP) periods.
use crate::integer::{self, parse_unsigned, IntErrorKind};
use crate::text::decimal;
use std::time::Duration;
use vstd::prelude::*;

verus! {

/// The minimum period value.
pub const MIN: u64 = 1;

/// The default period value.
pub const DEFAULT: u64 = 30;

/// Represents errors that can occur during period creation.
///
/// This error is returned when the given value is less than [`MIN`].
#[derive(Debug)]
pub struct Error {
    /// The invalid value.
    pub value: u64,
}

impl Error {
    /// Constructs [`Self`].
    pub fn new(value: u64) -> (r: Self)
        ensures
            r.value == value,
    {
        Self { value }
    }
}

/// Represents sources of errors that can occur when parsing [`Period`] values.
#[derive(Debug)]
pub enum ParseErrorSource {
    /// Invalid period value.
    Period(Error),
    /// Integer parse error.
    Int(integer::ParseError),
}

/// Represents errors that occur when parsing [`Period`] values.
#[derive(Debug)]
pub struct ParseError {
    /// The source of this error.
    pub source: ParseErrorSource,
    /// The string that could not be parsed.
    pub string: String,
}

impl ParseError {
    /// Constructs [`Self`].
    pub fn new(source: ParseErrorSource, string: String) -> (r: Self)
        ensures
            r.source == source,
            r.string@ == string@,
    {
        Self { source, string }
    }

    /// Constructs [`Self`] from [`struct@Error`].
    pub fn period(error: Error, string: String) -> (r: Self)
        ensures
            r.source == ParseErrorSource::Period(error),
            r.string@ == string@,
    {
        Self::new(ParseErrorSource::Period(error), string)
    }

    /// Constructs [`Self`] from [`integer::ParseError`].
    pub fn integer(error: integer::ParseError, string: String) -> (r: Self)
        ensures
            r.source == ParseErrorSource::Int(error),
            r.string@ == string@,
    {
        Self::new(ParseErrorSource::Int(error), string)
    }
}

/// The result of parsing `s` as a period: the value, or the integer error, or the value that
/// is too small.
pub open spec fn parse_spec(s: Seq<char>) -> Result<u64, Result<u64, IntErrorKind>> {
    match parse_unsigned(s, u64::MAX as nat) {
        Ok(v) => if v >= MIN {
            Ok(v as u64)
        } else {
            Err(Ok(v as u64))
        },
        Err(kind) => Err(Err(kind)),
    }
}

/// Represents time periods, in seconds.
#[derive(Debug, Clone, Copy, PartialEq, Eq, Hash)]
pub struct Period {
    value: u64,
}

impl View for Period {
    type V = u64;

    closed spec fn view(&self) -> u64 {
        self.value
    }
}

impl std::str::FromStr for Period {
    type Err = ParseError;

    fn from_str(string: &str) -> (r: Result<Self, Self::Err>)
        ensures
            match parse_spec(string@) {
                Ok(v) => r is Ok && r->Ok_0@ == v,
                Err(Ok(v)) => r is Err && r->Err_0.string@ == string@
                    && r->Err_0.source == ParseErrorSource::Period(Error { value: v }),
                Err(Err(kind)) => r is Err && r->Err_0.string@ == string@
                    && r->Err_0.source == ParseErrorSource::Int(integer::wrap_spec(kind)),
            },
    {
        Period::parse(string)
    }
}

impl Default for Period {
    /// The default period is [`DEFAULT`] seconds.
    fn default() -> (r: Self)
        ensures
            r@ == DEFAULT,
    {
        Self { value: DEFAULT }
    }
}

impl Period {
    /// Every period is at least [`MIN`].
    #[verifier::type_invariant]
    pub open spec fn well_formed(self) -> bool {
        self@ >= MIN
    }

    /// Constructs [`Self`], if possible.
    ///
    /// # Errors
    ///
    /// Returns [`struct@Error`] if the given value is less than [`MIN`].
    pub fn new(value: u64) -> (r: Result<Self, Error>)
        ensures
            value >= MIN ==> r is Ok && r->Ok_0@ == value,
            value < MIN ==> r is Err && r->Err_0.value == value,
    {
        match Self::check(value) {
            Ok(()) => Ok(Self::new_unchecked(value)),
            Err(error) => Err(error),
        }
    }

    /// Similar to [`new`], but the error is discarded.
    ///
    /// [`new`]: Self::new
    pub fn new_ok(value: u64) -> (r: Option<Self>)
        ensures
            value >= MIN ==> r is Some && r->Some_0@ == value,
            value < MIN ==> r is None,
    {
        match Self::new(value) {
            Ok(period) => Some(period),
            Err(_) => None,
        }
    }

    /// Checks if the given value is valid for [`Self`].
    ///
    /// # Errors
    ///
    /// Returns [`struct@Error`] if the given value is less than [`MIN`].
    pub fn check(value: u64) -> (r: Result<(), Error>)
        ensures
            value >= MIN ==> r is Ok,
            value < MIN ==> r is Err && r->Err_0.value == value,
    {
        if value < MIN {
            return Err(Error::new(value));
        }
        Ok(())
    }

    /// Constructs [`Self`] from a value known to be at least [`MIN`].
    pub fn new_unchecked(value: u64) -> (r: Self)
        requires
            value >= MIN,
        ensures
            r@ == value,
    {
        Self { value }
    }

    /// Returns the value wrapped in [`Self`].
    pub fn get(self) -> (r: u64)
        ensures
            r == self@,
            r >= MIN,
    {
        proof {
            use_type_invariant(&self);
        }
        self.value
    }

    /// Returns the period as [`Duration`].
    ///
    /// Relies on `Duration::from_secs`, which builds a duration of whole seconds.
    #[verifier::external_body]
    pub fn as_duration(self) -> Duration {
        Duration::from_secs(self.value)
    }

    /// Formats the period in decimal.
    pub fn to_string(self) -> (r: String)
        ensures
            r@ == decimal(self@ as nat),
    {
        crate::text::to_decimal(self.value)
    }

    /// Parses [`Self`] from its decimal form.
    ///
    /// # Errors
    ///
    /// Returns [`ParseError`] holding the string if it is not a decimal number that fits in
    /// 64 bits, or if the number is less than [`MIN`].
    pub fn parse(string: &str) -> (r: Result<Self, ParseError>)
        ensures
            match parse_spec(string@) {
                Ok(v) => r is Ok && r->Ok_0@ == v,
                Err(Ok(v)) => r is Err && r->Err_0.string@ == string@
                    && r->Err_0.source == ParseErrorSource::Period(Error { value: v }),
                Err(Err(kind)) => r is Err && r->Err_0.string@ == string@
                    && r->Err_0.source == ParseErrorSource::Int(integer::wrap_spec(kind)),
            },
    {
        match integer::parse_bounded(string, u64::MAX) {
            Ok(value) => match Self::new(value) {
                Ok(period) => Ok(period),
                Err(error) => Err(ParseError::period(error, string.to_owned())),
            },
            Err(error) => Err(ParseError::integer(error, string.to_owned())),
        }
    }
}

} // verus!
