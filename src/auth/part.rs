//! Authentication parts: the issuer and the user of a label.
use crate::auth::url::{percent_decode, percent_decoded, percent_encode, percent_encoded, utf8_error};
use crate::auth::utf8;
use crate::text::find_char;
use vstd::prelude::*;

verus! {

/// The separator used to join parts.
pub const SEPARATOR: &'static str = ":";

/// Whether `s` can be a part: non-empty, and without the separator.
pub open spec fn valid(s: Seq<char>) -> bool {
    s.len() > 0 && !s.contains(':')
}

/// Represents authentication parts.
#[derive(Debug, PartialEq, Eq, Hash)]
pub struct Part {
    string: String,
}

/// Represents owned [`Part`].
pub type Owned = Part;

impl View for Part {
    type V = Seq<char>;

    closed spec fn view(&self) -> Seq<char> {
        self.string@
    }
}

impl Clone for Part {
    fn clone(&self) -> (r: Self)
        ensures
            r@ == self@,
    {
        proof {
            use_type_invariant(self);
        }
        Self { string: self.string.clone() }
    }
}

impl std::str::FromStr for Part {
    type Err = Error;

    fn from_str(string: &str) -> (r: Result<Self, Self::Err>)
        ensures
            valid(string@) ==> r is Ok && r->Ok_0@ == string@,
            !valid(string@) ==> r is Err && error_matches(string@, r->Err_0),
    {
        Part::borrowed(string)
    }
}

/// Represents errors returned when the part is empty.
#[derive(Debug)]
pub struct EmptyError;

/// Represents errors returned when parts contain the [`SEPARATOR`].
#[derive(Debug)]
pub struct SeparatorError {
    /// The string that contains the separator.
    pub string: String,
}

impl SeparatorError {
    /// Constructs [`Self`].
    pub fn new(string: String) -> (r: Self)
        ensures
            r.string@ == string@,
    {
        Self { string }
    }
}

/// Represents sources of errors that can occur when parsing parts.
#[derive(Debug)]
pub enum ErrorSource {
    /// The part is empty.
    Empty(EmptyError),
    /// The part contains the separator.
    Separator(SeparatorError),
}

/// Represents errors that can occur when parsing parts.
#[derive(Debug)]
pub struct Error {
    /// The source of this error.
    pub source: ErrorSource,
}

impl Error {
    /// Constructs [`Self`].
    pub fn new(source: ErrorSource) -> (r: Self)
        ensures
            r.source == source,
    {
        Self { source }
    }

    /// Constructs [`Self`] from [`EmptyError`].
    pub fn empty(error: EmptyError) -> (r: Self)
        ensures
            r.source is Empty,
    {
        Self::new(ErrorSource::Empty(error))
    }

    /// Constructs [`Self`] from [`SeparatorError`].
    pub fn separator(error: SeparatorError) -> (r: Self)
        ensures
            r.source == ErrorSource::Separator(error),
    {
        Self::new(ErrorSource::Separator(error))
    }

    /// Constructs [`EmptyError`] and constructs [`Self`] from it.
    pub fn new_empty() -> (r: Self)
        ensures
            r.source is Empty,
    {
        Self::empty(EmptyError)
    }

    /// Constructs [`SeparatorError`] and constructs [`Self`] from it.
    pub fn new_separator(string: String) -> (r: Self)
        ensures
            r.source is Separator,
            r.source->Separator_0.string@ == string@,
    {
        Self::separator(SeparatorError::new(string))
    }
}

/// The error that the text `s` gives as a part, if any: empty, or holding the separator.
pub open spec fn error_matches(s: Seq<char>, e: Error) -> bool {
    if s.len() == 0 {
        e.source is Empty
    } else {
        e.source is Separator && e.source->Separator_0.string@ == s
    }
}

impl Part {
    /// Every part is valid.
    #[verifier::type_invariant]
    pub open spec fn well_formed(self) -> bool {
        valid(self@)
    }

    /// Checks whether the given string is valid for constructing [`Self`].
    ///
    /// # Errors
    ///
    /// Returns [`struct@Error`] if the given string is empty or contains the [`SEPARATOR`].
    pub fn check(string: &str) -> (r: Result<(), Error>)
        ensures
            valid(string@) ==> r is Ok,
            !valid(string@) ==> r is Err && error_matches(string@, r->Err_0),
    {
        if string.unicode_len() == 0 {
            return Err(Error::new_empty());
        }
        match find_char(string, ':') {
            Some(i) => {
                assert(string@.contains(':'));
                Err(Error::new_separator(string.to_owned()))
            },
            None => Ok(()),
        }
    }

    /// Constructs [`Self`], if possible.
    ///
    /// # Errors
    ///
    /// Returns [`struct@Error`] if the given string is empty or contains the [`SEPARATOR`].
    pub fn new(string: String) -> (r: Result<Self, Error>)
        ensures
            valid(string@) ==> r is Ok && r->Ok_0@ == string@,
            !valid(string@) ==> r is Err && error_matches(string@, r->Err_0),
    {
        match Self::check(string.as_str()) {
            Ok(()) => Ok(Self::new_unchecked(string)),
            Err(error) => Err(error),
        }
    }

    /// Constructs [`Self`] from a string known to be valid.
    pub fn new_unchecked(string: String) -> (r: Self)
        requires
            valid(string@),
        ensures
            r@ == string@,
    {
        Self { string }
    }

    /// Constructs [`Self`] from owned data, if possible.
    ///
    /// # Errors
    ///
    /// Returns [`struct@Error`] if the given string is empty or contains the [`SEPARATOR`].
    pub fn owned(string: String) -> (r: Result<Self, Error>)
        ensures
            valid(string@) ==> r is Ok && r->Ok_0@ == string@,
            !valid(string@) ==> r is Err && error_matches(string@, r->Err_0),
    {
        Self::new(string)
    }

    /// Constructs [`Self`] from owned data known to be valid.
    pub fn owned_unchecked(string: String) -> (r: Self)
        requires
            valid(string@),
        ensures
            r@ == string@,
    {
        Self::new_unchecked(string)
    }

    /// Constructs [`Self`] from a copy of borrowed data, if possible.
    ///
    /// # Errors
    ///
    /// Returns [`struct@Error`] if the given string is empty or contains the [`SEPARATOR`].
    pub fn borrowed(string: &str) -> (r: Result<Self, Error>)
        ensures
            valid(string@) ==> r is Ok && r->Ok_0@ == string@,
            !valid(string@) ==> r is Err && error_matches(string@, r->Err_0),
    {
        Self::new(string.to_owned())
    }

    /// Constructs [`Self`] from a copy of borrowed data known to be valid.
    pub fn borrowed_unchecked(string: &str) -> (r: Self)
        requires
            valid(string@),
        ensures
            r@ == string@,
    {
        Self::new_unchecked(string.to_owned())
    }

    /// Consumes [`Self`] and returns the contained string.
    pub fn get(self) -> (r: String)
        ensures
            r@ == self@,
            valid(r@),
    {
        proof {
            use_type_invariant(&self);
        }
        self.string
    }

    /// Returns the borrowed string.
    pub fn as_str(&self) -> (r: &str)
        ensures
            r@ == self@,
            valid(r@),
    {
        proof {
            use_type_invariant(self);
        }
        self.string.as_str()
    }

    /// Decodes the given percent-encoded string.
    ///
    /// # Errors
    ///
    /// Returns [`DecodeError`] if the string does not decode to UTF-8, or if the decoded string
    /// is not a valid part.
    pub fn decode(string: &str) -> (r: Result<Self, DecodeError>)
        ensures
            match percent_decoded(string@) {
                None => r is Err && r->Err_0.source is Utf8,
                Some(decoded) => if valid(decoded) {
                    r is Ok && r->Ok_0@ == decoded
                } else {
                    r is Err && r->Err_0.source is Part && error_matches(
                        decoded,
                        r->Err_0.source->Part_0,
                    )
                },
            },
    {
        match percent_decode(string) {
            Ok(decoded) => match Self::owned(decoded) {
                Ok(part) => Ok(part),
                Err(error) => Err(DecodeError::part(error)),
            },
            Err(error) => Err(DecodeError::utf8(utf8_error(error))),
        }
    }

    /// Percent-encodes the contained string.
    pub fn encode(&self) -> (r: String)
        ensures
            r@ == percent_encoded(self@),
            percent_decoded(r@) == Some(self@),
    {
        percent_encode(self.as_str())
    }

    /// Converts [`Self`] into [`Owned`].
    pub fn into_owned(self) -> (r: Owned)
        ensures
            r@ == self@,
    {
        self
    }
}

/// Represents sources of errors that can occur when decoding parts.
#[derive(Debug)]
pub enum DecodeErrorSource {
    /// The part contains invalid UTF-8.
    Utf8(utf8::Error),
    /// The part is empty or contains the separator.
    Part(Error),
}

/// Represents errors that can occur when decoding parts.
#[derive(Debug)]
pub struct DecodeError {
    /// The source of this error.
    pub source: DecodeErrorSource,
}

impl DecodeError {
    /// Constructs [`Self`].
    pub fn new(source: DecodeErrorSource) -> (r: Self)
        ensures
            r.source == source,
    {
        Self { source }
    }

    /// Constructs [`Self`] from [`utf8::Error`].
    pub fn utf8(error: utf8::Error) -> (r: Self)
        ensures
            r.source is Utf8,
    {
        Self::new(DecodeErrorSource::Utf8(error))
    }

    /// Constructs [`Self`] from [`struct@Error`].
    pub fn part(error: Error) -> (r: Self)
        ensures
            r.source == DecodeErrorSource::Part(error),
    {
        Self::new(DecodeErrorSource::Part(error))
    }
}

} // verus!
