//! One-Time Password (OTP) configuration enums.
//!
//! The [`Otp`] enum contains [`Hotp`] and [`Totp`] as its variants.
use crate::algorithm::Algorithm;
use crate::auth::query::Query;
use crate::auth::url::{option_view, Url};
use crate::base::{self, Base};
use crate::secret::encoding::{base32_decoded, base32_encoded};
use crate::secret::value::decode_spec;
use crate::hotp::{self, hotp_pairs, hotp_spec, Hotp};
use crate::totp::{self, totp_pairs, totp_spec, Totp};
use vstd::prelude::*;

pub mod type_of;

pub use type_of::Type;

verus! {

/// Represents errors that can occur when parsing [`Type`].
pub type ParseTypeError = type_of::ParseError;

/// The plain-value form of an OTP configuration: its type, its base configuration, the
/// counter (HOTP) or the period (TOTP), and the skew (zero for HOTP).
pub type OtpView = (Type, (Seq<u8>, Algorithm, u8), u64, u64);

/// Represents either [`Hotp`] or [`Totp`] configuration.
#[derive(Debug, Clone, PartialEq, Eq, Hash)]
pub enum Otp {
    /// HOTP configuration.
    Hotp(Hotp),
    /// TOTP configuration.
    Totp(Totp),
}

/// Represents owned [`Otp`].
pub type Owned = Otp;

impl View for Otp {
    type V = OtpView;

    open spec fn view(&self) -> OtpView {
        match self {
            Otp::Hotp(h) => (Type::Hotp, h.base@, h.counter@, 0),
            Otp::Totp(t) => (Type::Totp, t.base@, t.period@, t.skew@),
        }
    }
}

impl From<Hotp> for Otp {
    fn from(hotp: Hotp) -> (r: Self)
        ensures
            r == Otp::Hotp(hotp),
    {
        Otp::Hotp(hotp)
    }
}

impl vstd::std_specs::convert::FromSpecImpl<Hotp> for Otp {
    open spec fn obeys_from_spec() -> bool {
        true
    }

    open spec fn from_spec(hotp: Hotp) -> Otp {
        Otp::Hotp(hotp)
    }
}

impl From<Totp> for Otp {
    fn from(totp: Totp) -> (r: Self)
        ensures
            r == Otp::Totp(totp),
    {
        Otp::Totp(totp)
    }
}

impl vstd::std_specs::convert::FromSpecImpl<Totp> for Otp {
    open spec fn obeys_from_spec() -> bool {
        true
    }

    open spec fn from_spec(totp: Totp) -> Otp {
        Otp::Totp(totp)
    }
}

/// The OTP configuration of the given type that the query pairs describe, if they describe
/// one.
pub open spec fn otp_spec(type_of: Type, q: Seq<(Seq<char>, Seq<char>)>) -> Option<OtpView> {
    match type_of {
        Type::Hotp => match hotp_spec(q) {
            Some(h) => Some((Type::Hotp, h.0, h.1, 0)),
            None => None,
        },
        Type::Totp => match totp_spec(q) {
            Some(t) => Some((Type::Totp, t.0, t.2, t.1)),
            None => None,
        },
    }
}

/// The query parameter that only the given type reads: `counter` or `period`.
pub open spec fn param_key(type_of: Type) -> Seq<char> {
    match type_of {
        Type::Hotp => hotp::COUNTER@,
        Type::Totp => totp::PERIOD@,
    }
}

/// Whether `e` is the error that extracting an OTP configuration of the given type from the
/// query pairs gives: the variant of that type, holding that type's extraction error.
pub open spec fn error_matches(type_of: Type, q: Seq<(Seq<char>, Seq<char>)>, e: Error) -> bool {
    match type_of {
        Type::Hotp => e.source is Hotp && hotp::error_matches(q, e.source->Hotp_0),
        Type::Totp => e.source is Totp && totp::error_matches(q, e.source->Totp_0),
    }
}

/// The query pairs that describe the OTP configuration.
pub open spec fn otp_pairs(otp: Otp) -> Seq<(Seq<char>, Seq<char>)> {
    match otp {
        Otp::Hotp(h) => hotp_pairs(h@),
        Otp::Totp(t) => totp_pairs(t@),
    }
}

/// Represents sources of errors that can occur when extracting OTP configurations from URLs.
#[derive(Debug)]
pub enum ErrorSource {
    /// The HOTP configuration could not be extracted.
    Hotp(hotp::Error),
    /// The TOTP configuration could not be extracted.
    Totp(totp::Error),
}

/// Represents errors that can occur when extracting OTP configurations from URLs.
#[derive(Debug)]
pub struct Error {
    /// The source of this error.
    pub source: ErrorSource,
}

impl Error {
    /// Constructs [`Self`].
    pub fn new(source: ErrorSource) -> (r: Self)
        ensures
            r.source == source,
    {
        Self { source }
    }

    /// Constructs [`Self`] from [`hotp::Error`].
    pub fn hotp(error: hotp::Error) -> (r: Self)
        ensures
            r.source == ErrorSource::Hotp(error),
    {
        Self::new(ErrorSource::Hotp(error))
    }

    /// Constructs [`Self`] from [`totp::Error`].
    pub fn totp(error: totp::Error) -> (r: Self)
        ensures
            r.source == ErrorSource::Totp(error),
    {
        Self::new(ErrorSource::Totp(error))
    }
}

impl Otp {
    /// The base configuration, regardless of the variant.
    pub open spec fn base_spec(&self) -> Base {
        match self {
            Otp::Hotp(h) => h.base,
            Otp::Totp(t) => t.base,
        }
    }

    /// Returns the base configuration, regardless of the variant.
    pub fn base(&self) -> (r: &Base)
        ensures
            *r == match self {
                Otp::Hotp(h) => h.base,
                Otp::Totp(t) => t.base,
            },
    {
        match self {
            Otp::Hotp(hotp) => hotp.base(),
            Otp::Totp(totp) => totp.base(),
        }
    }

    /// Returns the mutable base configuration, regardless of the variant.
    pub fn base_mut(&mut self) -> (r: &mut Base)
        ensures
            *r == match *old(self) {
                Otp::Hotp(h) => h.base,
                Otp::Totp(t) => t.base,
            },
            match *final(self) {
                Otp::Hotp(h) => *old(self) is Hotp && h.base == *final(r) && h.counter == (
                *old(self))->Hotp_0.counter,
                Otp::Totp(t) => *old(self) is Totp && t.base == *final(r) && t.skew == (*old(
                    self))->Totp_0.skew && t.period == (*old(self))->Totp_0.period,
            },
    {
        match self {
            Otp::Hotp(hotp) => hotp.base_mut(),
            Otp::Totp(totp) => totp.base_mut(),
        }
    }

    /// Consumes [`Self`], returning the base configuration, regardless of the variant.
    pub fn into_base(self) -> (r: Base)
        ensures
            r == match self {
                Otp::Hotp(h) => h.base,
                Otp::Totp(t) => t.base,
            },
    {
        match self {
            Otp::Hotp(hotp) => hotp.into_base(),
            Otp::Totp(totp) => totp.into_base(),
        }
    }

    /// Returns the [`Type`] of this OTP configuration.
    pub fn type_of(&self) -> (r: Type)
        ensures
            r == self@.0,
    {
        match self {
            Otp::Hotp(_) => Type::Hotp,
            Otp::Totp(_) => Type::Totp,
        }
    }

    /// Applies the OTP configuration to the given URL.
    pub fn query_for(&self, url: &mut Url)
        ensures
            final(url).scheme@ == old(url).scheme@,
            option_view(final(url).host) == option_view(old(url).host),
            final(url).path@ == old(url).path@,
            final(url).parts().3 == old(url).parts().3 + otp_pairs(*self),
            base32_decoded(base32_encoded(self.base_spec().secret@)) == Some(self.base_spec().secret@),
    {
        match self {
            Otp::Hotp(hotp) => hotp.query_for(url),
            Otp::Totp(totp) => totp.query_for(url),
        }
    }

    /// Extracts the OTP configuration of the given type from the given query.
    ///
    /// # Errors
    ///
    /// Returns [`struct@Error`] when the OTP configuration can not be extracted.
    pub fn extract_from(query: &mut Query, type_of: Type) -> (r: Result<Self, Error>)
        ensures
            match otp_spec(type_of, old(query)@) {
                Some(v) => r is Ok && r->Ok_0@ == v,
                None => r is Err,
            },
            otp_spec(type_of, old(query)@) is None ==> r is Err && error_matches(
                type_of,
                old(query)@,
                r->Err_0,
            ),
            final(query).get_spec(base::SECRET@) is None,
            final(query).get_spec(base::ALGORITHM@) is None,
            final(query).get_spec(base::DIGITS@) is None,
            final(query).get_spec(param_key(type_of)) is None,
            forall|other: Seq<char>|
                other != base::SECRET@ && other != base::ALGORITHM@ && other != base::DIGITS@
                    && other != param_key(type_of) ==> #[trigger] final(query).get_spec(other)
                    == old(query).get_spec(other),
    {
        match type_of {
            Type::Hotp => match Hotp::extract_from(query) {
                Ok(hotp) => Ok(Otp::Hotp(hotp)),
                Err(error) => Err(Error::hotp(error)),
            },
            Type::Totp => match Totp::extract_from(query) {
                Ok(totp) => Ok(Otp::Totp(totp)),
                Err(error) => Err(Error::totp(error)),
            },
        }
    }

    /// Converts [`Self`] into [`Owned`].
    pub fn into_owned(self) -> (r: Owned)
        ensures
            r == self,
    {
        self
    }
}

} // verus!
