//! One-Time Password (OTP) types: HOTP or TOTP.
use crate::auth::url::Url;
use crate::text::str_eq;
use vstd::prelude::*;

verus! {

/// Represents OTP types: HOTP or TOTP.
#[derive(Debug, Clone, Copy, PartialEq, Eq, Hash)]
pub enum Type {
    /// HOTP type.
    Hotp,
    /// TOTP type.
    Totp,
}

/// The `hotp` literal.
pub const HOTP: &'static str = "hotp";

/// The `totp` literal.
pub const TOTP: &'static str = "totp";

impl Type {
    /// The name of the type, as written in OTP URLs.
    pub open spec fn name(self) -> Seq<char> {
        match self {
            Type::Hotp => seq!['h', 'o', 't', 'p'],
            Type::Totp => seq!['t', 'o', 't', 'p'],
        }
    }

    /// The type that the given name stands for, if any (names are case-sensitive).
    pub open spec fn from_name(s: Seq<char>) -> Option<Type> {
        if s == Type::Hotp.name() {
            Some(Type::Hotp)
        } else if s == Type::Totp.name() {
            Some(Type::Totp)
        } else {
            None
        }
    }

    /// Returns the static string representation of this type.
    pub fn static_str(&self) -> (r: &'static str)
        ensures
            r@ == self.name(),
    {
        proof {
            reveal_strlit("hotp");
            reveal_strlit("totp");
        }
        match self {
            Type::Hotp => {
                assert(HOTP@ =~= self.name());
                HOTP
            },
            Type::Totp => {
                assert(TOTP@ =~= self.name());
                TOTP
            },
        }
    }

    /// Parses the type from its name.
    ///
    /// # Errors
    ///
    /// Returns [`ParseError`] holding the string if it names no type.
    pub fn parse(string: &str) -> (r: Result<Self, ParseError>)
        ensures
            match Type::from_name(string@) {
                Some(t) => r is Ok && r->Ok_0 == t,
                None => r is Err && r->Err_0.string@ == string@,
            },
    {
        if str_eq(string, Type::Hotp.static_str()) {
            Ok(Type::Hotp)
        } else if str_eq(string, Type::Totp.static_str()) {
            Ok(Type::Totp)
        } else {
            Err(ParseError::new(string.to_owned()))
        }
    }

    /// Extracts the type from the host of the given URL.
    ///
    /// # Errors
    ///
    /// Returns [`struct@Error`] if the URL has no host, or if the host names no type.
    pub fn extract_from(url: &Url) -> (r: Result<Self, Error>)
        ensures
            match url.host {
                None => r is Err && r->Err_0.source is NotFound,
                Some(host) => match Type::from_name(host@) {
                    Some(t) => r is Ok && r->Ok_0 == t,
                    None => r is Err && r->Err_0.source is Parse
                        && r->Err_0.source->Parse_0.string@ == host@,
                },
            },
    {
        match &url.host {
            None => Err(Error::new_not_found()),
            Some(host) => match Type::parse(host.as_str()) {
                Ok(t) => Ok(t),
                Err(error) => Err(Error::parse(error)),
            },
        }
    }
}

impl std::str::FromStr for Type {
    type Err = ParseError;

    fn from_str(string: &str) -> (r: Result<Self, Self::Err>)
        ensures
            match Type::from_name(string@) {
                Some(t) => r is Ok && r->Ok_0 == t,
                None => r is Err && r->Err_0.string@ == string@,
            },
    {
        Type::parse(string)
    }
}

/// Represents errors that can occur when parsing [`Type`].
#[derive(Debug)]
pub struct ParseError {
    /// The string that could not be parsed.
    pub string: String,
}

impl ParseError {
    /// Constructs [`Self`].
    pub fn new(string: String) -> (r: Self)
        ensures
            r.string@ == string@,
    {
        Self { string }
    }
}

/// Represents errors that can occur when the type is not found in the OTP URL.
#[derive(Debug)]
pub struct NotFoundError;

/// Represents sources of errors that can occur when extracting the type from the OTP URL.
#[derive(Debug)]
pub enum ErrorSource {
    /// The type was not found.
    NotFound(NotFoundError),
    /// The type was found, but could not be parsed.
    Parse(ParseError),
}

/// Represents errors that can occur when extracting the type from the OTP URL.
#[derive(Debug)]
pub struct Error {
    /// The source of this error.
    pub source: ErrorSource,
}

impl Error {
    /// Constructs [`Self`].
    pub fn new(source: ErrorSource) -> (r: Self)
        ensures
            r.source == source,
    {
        Self { source }
    }

    /// Constructs [`Self`] from [`NotFoundError`].
    pub fn not_found(error: NotFoundError) -> (r: Self)
        ensures
            r.source is NotFound,
    {
        Self::new(ErrorSource::NotFound(error))
    }

    /// Constructs [`NotFoundError`] and constructs [`Self`] from it.
    pub fn new_not_found() -> (r: Self)
        ensures
            r.source is NotFound,
    {
        Self::not_found(NotFoundError)
    }

    /// Constructs [`Self`] from [`ParseError`].
    pub fn parse(error: ParseError) -> (r: Self)
        ensures
            r.source == ErrorSource::Parse(error),
    {
        Self::new(ErrorSource::Parse(error))
    }
}

} // verus!
