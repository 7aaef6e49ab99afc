//! One-Time Password (OTP) counters.
use crate::integer::{self, parse_unsigned};
use crate::text::decimal;
use vstd::prelude::*;

verus! {

/// The default counter value.
pub const DEFAULT: u64 = 0;

/// Represents errors that can occur when parsing counters.
#[derive(Debug)]
pub struct Error {
    /// The source of this error.
    pub source: integer::ParseError,
    /// The string that could not be parsed.
    pub string: String,
}

impl Error {
    /// Constructs [`Self`].
    pub fn new(source: integer::ParseError, string: String) -> (r: Self)
        ensures
            r.source == source,
            r.string@ == string@,
    {
        Self { source, string }
    }
}

/// Represents counters.
#[derive(Debug, Clone, Copy, PartialEq, Eq, Hash)]
pub struct Counter {
    value: u64,
}

impl View for Counter {
    type V = u64;

    closed spec fn view(&self) -> u64 {
        self.value
    }
}

impl std::str::FromStr for Counter {
    type Err = Error;

    fn from_str(string: &str) -> (r: Result<Self, Self::Err>)
        ensures
            match parse_unsigned(string@, u64::MAX as nat) {
                Ok(v) => r is Ok && r->Ok_0@ == v,
                Err(kind) => r is Err && r->Err_0.string@ == string@
                    && r->Err_0.source == integer::wrap_spec(kind),
            },
    {
        Counter::parse(string)
    }
}

impl Default for Counter {
    /// The default counter is [`DEFAULT`].
    fn default() -> (r: Self)
        ensures
            r@ == DEFAULT,
    {
        Self::new(DEFAULT)
    }
}

impl Counter {
    /// Constructs [`Self`].
    pub fn new(value: u64) -> (r: Self)
        ensures
            r@ == value,
    {
        Self { value }
    }

    /// Returns the value of this counter.
    pub fn get(self) -> (r: u64)
        ensures
            r == self@,
    {
        self.value
    }

    /// Returns the incremented counter, or [`None`] if the counter is at its maximum.
    pub fn try_next(self) -> (r: Option<Self>)
        ensures
            self@ < u64::MAX ==> r is Some && r->Some_0@ == self@ + 1,
            self@ == u64::MAX ==> r is None,
    {
        match self.get().checked_add(1) {
            Some(value) => Some(Self::new(value)),
            None => None,
        }
    }

    /// Returns the incremented counter; the counter must be below its maximum.
    pub fn next(self) -> (r: Self)
        requires
            self@ < u64::MAX,
        ensures
            r@ == self@ + 1,
    {
        Self::new(self.get() + 1)
    }

    /// Formats the counter in decimal.
    pub fn to_string(self) -> (r: String)
        ensures
            r@ == decimal(self@ as nat),
    {
        crate::text::to_decimal(self.value)
    }

    /// Parses [`Self`] from its decimal form.
    ///
    /// # Errors
    ///
    /// Returns [`struct@Error`] holding the string if it is not a decimal number that fits in
    /// 64 bits.
    pub fn parse(string: &str) -> (r: Result<Self, Error>)
        ensures
            match parse_unsigned(string@, u64::MAX as nat) {
                Ok(v) => r is Ok && r->Ok_0@ == v,
                Err(kind) => r is Err && r->Err_0.string@ == string@
                    && r->Err_0.source == integer::wrap_spec(kind),
            },
    {
        match integer::parse_bounded(string, u64::MAX) {
            Ok(value) => Ok(Self::new(value)),
            Err(error) => Err(Error::new(error, string.to_owned())),
        }
    }
}

} // verus!
