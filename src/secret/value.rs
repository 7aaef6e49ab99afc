//! Core types and functions for working with secrets.
use crate::secret::encoding::{self, base32_decoded, base32_encoded};
use crate::secret::generate::generate;
use crate::secret::length::{self, accepts, Length, Policy};
use vstd::prelude::*;
use vstd::slice::slice_to_vec;

verus! {

/// Compares two byte strings in time that does not depend on where they differ.
///
/// Relies on `constant_time_eq::constant_time_eq`, which returns `true` exactly when the two
/// slices are equal.
#[verifier::external_body]
pub(crate) fn constant_time_eq(a: &[u8], b: &[u8]) -> (r: bool)
    ensures
        r == (a@ == b@),
{
    constant_time_eq::constant_time_eq(a, b)
}

/// Represents secrets: byte strings, of at least [`length::MIN`] bytes unless the caller opted
/// into [`Policy::Unsafe`].
#[derive(Debug, Hash)]
pub struct Secret {
    value: Vec<u8>,
}

/// Represents owned [`Secret`].
pub type Owned = Secret;

impl View for Secret {
    type V = Seq<u8>;

    closed spec fn view(&self) -> Seq<u8> {
        self.value@
    }
}

impl Clone for Secret {
    fn clone(&self) -> (r: Self)
        ensures
            r@ == self@,
    {
        let value = self.value.clone();
        assert(value@ =~= self.value@);
        Self { value }
    }
}

impl std::str::FromStr for Secret {
    type Err = Error;

    fn from_str(string: &str) -> (r: Result<Self, Self::Err>)
        ensures
            match decode_spec(string@) {
                Ok(bytes) => r is Ok && r->Ok_0@ == bytes,
                Err(Ok(len)) => r is Err && r->Err_0.source == ErrorSource::Length(
                    length::Error { length: len },
                ),
                Err(Err(text)) => r is Err && r->Err_0.source is Encoding
                    && r->Err_0.source->Encoding_0.secret@ == text,
            },
    {
        Secret::decode(string)
    }
}

impl PartialEq for Secret {
    /// Compares the secrets in constant time.
    fn eq(&self, other: &Self) -> (r: bool)
        ensures
            r == (self@ == other@),
    {
        constant_time_eq(self.value.as_slice(), other.value.as_slice())
    }
}

impl vstd::std_specs::cmp::PartialEqSpecImpl for Secret {
    open spec fn obeys_eq_spec() -> bool {
        true
    }

    open spec fn eq_spec(&self, other: &Secret) -> bool {
        self@ == other@
    }
}

impl Eq for Secret {
}

/// Represents sources of errors that can occur when decoding secrets.
#[derive(Debug)]
pub enum ErrorSource {
    /// Secret has an unsafe length.
    Length(length::Error),
    /// Secret could not be decoded.
    Encoding(encoding::Error),
}

/// Represents errors that can occur when decoding secrets.
#[derive(Debug)]
pub struct Error {
    /// The source of this error.
    pub source: ErrorSource,
}

impl Error {
    /// Constructs [`Self`].
    pub fn new(source: ErrorSource) -> (r: Self)
        ensures
            r.source == source,
    {
        Self { source }
    }

    /// Constructs [`Self`] from [`length::Error`].
    pub fn length(error: length::Error) -> (r: Self)
        ensures
            r.source == ErrorSource::Length(error),
    {
        Self::new(ErrorSource::Length(error))
    }

    /// Constructs [`Self`] from [`encoding::Error`].
    pub fn encoding(error: encoding::Error) -> (r: Self)
        ensures
            r.source == ErrorSource::Encoding(error),
    {
        Self::new(ErrorSource::Encoding(error))
    }
}

/// The secret that the given base32 text decodes to under the policy, or why there is none:
/// the text, if it is not base32, or the length of the bytes, if the policy rejects it.
pub open spec fn decode_spec_with(text: Seq<char>, policy: Policy) -> Result<
    Seq<u8>,
    Result<usize, Seq<char>>,
> {
    match base32_decoded(text) {
        Some(bytes) => if accepts(policy, bytes.len()) {
            Ok(bytes)
        } else {
            Err(Ok(bytes.len() as usize))
        },
        None => Err(Err(text)),
    }
}

/// The secret that the given base32 text decodes to, under [`Policy::Safe`].
pub open spec fn decode_spec(text: Seq<char>) -> Result<Seq<u8>, Result<usize, Seq<char>>> {
    decode_spec_with(text, Policy::Safe)
}

impl Secret {
    /// Constructs [`Self`] under the given policy, if it accepts the length.
    ///
    /// # Errors
    ///
    /// Returns [`length::Error`] if the policy rejects the length of the secret.
    pub fn new_with(value: Vec<u8>, policy: Policy) -> (r: Result<Self, length::Error>)
        ensures
            accepts(policy, value@.len()) ==> r is Ok && r->Ok_0@ == value@,
            !accepts(policy, value@.len()) ==> r is Err && r->Err_0.length == value@.len(),
    {
        match Length::check_with(value.len(), policy) {
            Ok(()) => Ok(Self { value }),
            Err(error) => Err(error),
        }
    }

    /// Constructs [`Self`], if possible.
    ///
    /// # Errors
    ///
    /// Returns [`length::Error`] if the secret is shorter than [`length::MIN`] bytes.
    pub fn new(value: Vec<u8>) -> (r: Result<Self, length::Error>)
        ensures
            value@.len() >= length::MIN ==> r is Ok && r->Ok_0@ == value@,
            value@.len() < length::MIN ==> r is Err && r->Err_0.length == value@.len(),
    {
        Self::new_with(value, Policy::Safe)
    }

    /// Constructs [`Self`] from bytes known to be long enough.
    pub fn new_unchecked(value: Vec<u8>) -> (r: Self)
        requires
            value@.len() >= length::MIN,
        ensures
            r@ == value@,
    {
        Self { value }
    }

    /// Constructs [`Self`] from a copy of borrowed data, if possible.
    ///
    /// # Errors
    ///
    /// Returns [`length::Error`] if the secret is shorter than [`length::MIN`] bytes.
    pub fn borrowed(value: &[u8]) -> (r: Result<Self, length::Error>)
        ensures
            value@.len() >= length::MIN ==> r is Ok && r->Ok_0@ == value@,
            value@.len() < length::MIN ==> r is Err && r->Err_0.length == value@.len(),
    {
        Self::new(slice_to_vec(value))
    }

    /// Constructs [`Self`] from a copy of borrowed data known to be long enough.
    pub fn borrowed_unchecked(value: &[u8]) -> (r: Self)
        requires
            value@.len() >= length::MIN,
        ensures
            r@ == value@,
    {
        Self::new_unchecked(slice_to_vec(value))
    }

    /// Constructs [`Self`] from owned data, if possible.
    ///
    /// # Errors
    ///
    /// Returns [`length::Error`] if the secret is shorter than [`length::MIN`] bytes.
    pub fn owned(value: Vec<u8>) -> (r: Result<Self, length::Error>)
        ensures
            value@.len() >= length::MIN ==> r is Ok && r->Ok_0@ == value@,
            value@.len() < length::MIN ==> r is Err && r->Err_0.length == value@.len(),
    {
        Self::new(value)
    }

    /// Constructs [`Self`] from owned data known to be long enough.
    pub fn owned_unchecked(value: Vec<u8>) -> (r: Self)
        requires
            value@.len() >= length::MIN,
        ensures
            r@ == value@,
    {
        Self::new_unchecked(value)
    }

    /// Consumes [`Self`] and returns the contained secret value.
    pub fn get(self) -> (r: Vec<u8>)
        ensures
            r@ == self@,
    {
        self.value
    }

    /// Returns the secret value as bytes.
    pub fn as_bytes(&self) -> (r: &[u8])
        ensures
            r@ == self@,
    {
        self.value.as_slice()
    }

    /// Decodes [`Self`] from the given base32 string under the given policy.
    ///
    /// # Errors
    ///
    /// Returns [`struct@Error`] if the string is not base32, or if the policy rejects the
    /// length of the bytes it decodes to.
    pub fn decode_with(string: &str, policy: Policy) -> (r: Result<Self, Error>)
        ensures
            match decode_spec_with(string@, policy) {
                Ok(bytes) => r is Ok && r->Ok_0@ == bytes,
                Err(Ok(len)) => r is Err && r->Err_0.source == ErrorSource::Length(
                    length::Error { length: len },
                ),
                Err(Err(text)) => r is Err && r->Err_0.source is Encoding
                    && r->Err_0.source->Encoding_0.secret@ == text,
            },
    {
        match encoding::decode(string) {
            Ok(owned) => match Self::new_with(owned, policy) {
                Ok(secret) => Ok(secret),
                Err(error) => Err(Error::length(error)),
            },
            Err(error) => Err(Error::encoding(error)),
        }
    }

    /// Decodes [`Self`] from the given base32 string.
    ///
    /// # Errors
    ///
    /// Returns [`struct@Error`] if the string is not base32, or if it decodes to fewer than
    /// [`length::MIN`] bytes.
    pub fn decode(string: &str) -> (r: Result<Self, Error>)
        ensures
            match decode_spec(string@) {
                Ok(bytes) => r is Ok && r->Ok_0@ == bytes,
                Err(Ok(len)) => r is Err && r->Err_0.source == ErrorSource::Length(
                    length::Error { length: len },
                ),
                Err(Err(text)) => r is Err && r->Err_0.source is Encoding
                    && r->Err_0.source->Encoding_0.secret@ == text,
            },
    {
        Self::decode_with(string, Policy::Safe)
    }

    /// Encodes [`Self`] into base32.
    pub fn encode(&self) -> (r: String)
        ensures
            r@ == base32_encoded(self@),
            base32_decoded(r@) == Some(self@),
            self@.len() >= length::MIN ==> decode_spec(r@) == Ok::<
                Seq<u8>,
                Result<usize, Seq<char>>,
            >(self@),
    {
        encoding::encode(self.as_bytes())
    }

    /// Generates secrets of the given length from the operating system's random source, or
    /// returns [`None`] if that source fails.
    pub fn generate(length: Length) -> (r: Option<Self>)
        ensures
            r is Some ==> r->Some_0@.len() == length@,
    {
        match generate(length) {
            Some(value) => Some(Self { value }),
            None => None,
        }
    }

    /// Generates secrets of the default length, or returns [`None`] if the operating system's
    /// random source fails.
    pub fn generate_default() -> (r: Option<Self>)
        ensures
            r is Some ==> r->Some_0@.len() == length::DEFAULT,
    {
        Self::generate(Length::default())
    }

    /// Converts [`Self`] into [`Owned`].
    pub fn into_owned(self) -> (r: Owned)
        ensures
            r@ == self@,
    {
        self
    }
}

} // verus!
