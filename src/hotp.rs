//! HOTP (HMAC-based One-Time Password) functionality.
use crate::algorithm::Algorithm;
use crate::auth::query::{lookup, Query};
use crate::auth::url::{option_view, Url};
use crate::base::{self, base_pairs, base_spec, Base};
use crate::counter::{self, Counter};
use crate::integer::{self, parse_unsigned};
use crate::secret::encoding::{base32_decoded, base32_encoded};
use crate::secret::value::decode_spec;
use crate::text::decimal;
use vstd::prelude::*;

verus! {

/// Represents HOTP configuration.
#[derive(Debug, Clone, PartialEq, Eq, Hash)]
pub struct Hotp {
    /// The base configuration.
    pub base: Base,
    /// The counter used to generate codes.
    pub counter: Counter,
}

/// Represents owned [`Hotp`].
pub type Owned = Hotp;

impl View for Hotp {
    type V = ((Seq<u8>, Algorithm, u8), u64);

    open spec fn view(&self) -> ((Seq<u8>, Algorithm, u8), u64) {
        (self.base@, self.counter@)
    }
}

impl Hotp {
    /// Constructs [`Self`].
    pub fn new(base: Base, counter: Counter) -> (r: Self)
        ensures
            r.base == base,
            r.counter == counter,
    {
        Self { base, counter }
    }

    /// Returns the base configuration.
    pub fn base(&self) -> (r: &Base)
        ensures
            *r == self.base,
    {
        &self.base
    }

    /// Returns the mutable base configuration.
    pub fn base_mut(&mut self) -> (r: &mut Base)
        ensures
            *r == old(self).base,
            final(self).counter == old(self).counter,
            final(self).base == *final(r),
    {
        &mut self.base
    }

    /// Consumes [`Self`], returning the base configuration.
    pub fn into_base(self) -> (r: Base)
        ensures
            r == self.base,
    {
        self.base
    }

    /// Returns the current counter value.
    pub fn counter(&self) -> (r: u64)
        ensures
            r == self.counter@,
    {
        self.counter.get()
    }

    /// Increments the counter value; the counter must be below its maximum.
    pub fn increment(&mut self)
        requires
            old(self).counter@ < u64::MAX,
        ensures
            final(self).counter@ == old(self).counter@ + 1,
            final(self).base == old(self).base,
    {
        self.counter = self.counter.next();
    }

    /// Generates the code for the current counter value.
    pub fn generate(&self) -> (r: u32)
        ensures
            r == self.base.code(self.counter@),
    {
        self.base.generate(self.counter())
    }

    /// Generates the string code for the current counter value.
    pub fn generate_string(&self) -> (r: String)
        ensures
            r@ == self.base.code_string(self.counter@),
    {
        self.base.generate_string(self.counter())
    }

    /// Verifies the code for the current counter value.
    pub fn verify(&self, code: u32) -> (r: bool)
        ensures
            r == (self.base.code(self.counter@) == code),
    {
        self.base.verify(self.counter(), code)
    }

    /// Verifies the string code for the current counter value, comparing in constant time.
    pub fn verify_string(&self, code: &str) -> (r: bool)
        ensures
            r == (self.base.code_string(self.counter@) == code@),
    {
        self.base.verify_string(self.counter(), code)
    }

    /// Converts [`Self`] into [`Owned`].
    pub fn into_owned(self) -> (r: Owned)
        ensures
            r == self,
    {
        self
    }
}

/// The `counter` literal.
pub const COUNTER: &'static str = "counter";

/// Represents errors returned when the counter is not found in the OTP URL.
#[derive(Debug)]
pub struct CounterNotFoundError;

/// Represents sources of errors that can occur when extracting HOTP configurations from OTP URLs.
#[derive(Debug)]
pub enum ErrorSource {
    /// The base configuration could not be extracted from the OTP URL.
    Base(base::Error),
    /// The counter was not found in the OTP URL.
    CounterNotFound(CounterNotFoundError),
    /// The counter was found, but could not be parsed.
    Counter(counter::Error),
}

/// Represents errors that can occur when extracting HOTP configurations from OTP URLs.
#[derive(Debug)]
pub struct Error {
    /// The source of this error.
    pub source: ErrorSource,
}

impl Error {
    /// Constructs [`Self`].
    pub fn new(source: ErrorSource) -> (r: Self)
        ensures
            r.source == source,
    {
        Self { source }
    }

    /// Constructs [`Self`] from [`base::Error`].
    pub fn base(error: base::Error) -> (r: Self)
        ensures
            r.source == ErrorSource::Base(error),
    {
        Self::new(ErrorSource::Base(error))
    }

    /// Constructs [`Self`] from [`CounterNotFoundError`].
    pub fn counter_not_found(error: CounterNotFoundError) -> (r: Self)
        ensures
            r.source is CounterNotFound,
    {
        Self::new(ErrorSource::CounterNotFound(error))
    }

    /// Creates [`CounterNotFoundError`] and constructs [`Self`] from it.
    pub fn new_counter_not_found() -> (r: Self)
        ensures
            r.source is CounterNotFound,
    {
        Self::counter_not_found(CounterNotFoundError)
    }

    /// Constructs [`Self`] from [`counter::Error`].
    pub fn counter(error: counter::Error) -> (r: Self)
        ensures
            r.source == ErrorSource::Counter(error),
    {
        Self::new(ErrorSource::Counter(error))
    }
}

/// The HOTP configuration that the query pairs describe, if they describe one.
pub open spec fn hotp_spec(q: Seq<(Seq<char>, Seq<char>)>) -> Option<
    ((Seq<u8>, Algorithm, u8), u64),
> {
    match base_spec(q) {
        None => None,
        Some(b) => match lookup(q, COUNTER@) {
            None => None,
            Some(text) => match parse_unsigned(text, u64::MAX as nat) {
                Ok(c) => Some((b, c as u64)),
                Err(_) => None,
            },
        },
    }
}

/// Whether `e` is the error that extracting a HOTP configuration from the query pairs gives:
/// the base configuration's error, else the counter is missing, else it is not a 64-bit
/// decimal number (holding its text and the reason).
pub open spec fn error_matches(q: Seq<(Seq<char>, Seq<char>)>, e: Error) -> bool {
    match base_spec(q) {
        None => e.source is Base && base::error_matches(q, e.source->Base_0),
        Some(_) => match lookup(q, COUNTER@) {
            None => e.source is CounterNotFound,
            Some(text) => {
                &&& e.source is Counter
                &&& e.source->Counter_0.string@ == text
                &&& match parse_unsigned(text, u64::MAX as nat) {
                    Err(kind) => e.source->Counter_0.source == integer::wrap_spec(kind),
                    Ok(_) => true,
                }
            },
        },
    }
}

/// The query pairs that describe the HOTP configuration `v`.
pub open spec fn hotp_pairs(v: ((Seq<u8>, Algorithm, u8), u64)) -> Seq<(Seq<char>, Seq<char>)> {
    base_pairs(v.0).push((COUNTER@, decimal(v.1 as nat)))
}

impl Hotp {
    /// Applies the HOTP configuration to the given URL: the base configuration, then
    /// `counter`.
    pub fn query_for(&self, url: &mut Url)
        ensures
            final(url).scheme@ == old(url).scheme@,
            option_view(final(url).host) == option_view(old(url).host),
            final(url).path@ == old(url).path@,
            final(url).parts().3 == old(url).parts().3 + hotp_pairs(self@),
            base32_decoded(base32_encoded(self.base.secret@)) == Some(self.base.secret@),
    {
        self.base.query_for(url);
        let counter = self.counter.to_string();
        url.append_pair(COUNTER, counter.as_str());
        assert(url.parts().3 =~= old(url).parts().3 + hotp_pairs(self@));
    }

    /// Extracts the HOTP configuration from the given query, removing the parameters it
    /// reads.
    ///
    /// # Errors
    ///
    /// Returns [`struct@Error`] if the base configuration can not be extracted, or if the
    /// counter is missing or is not a 64-bit decimal number.
    pub fn extract_from(query: &mut Query) -> (r: Result<Self, Error>)
        ensures
            match hotp_spec(old(query)@) {
                Some(v) => r is Ok && r->Ok_0@ == v,
                None => r is Err,
            },
            hotp_spec(old(query)@) is None ==> r is Err && error_matches(old(query)@, r->Err_0),
            final(query).get_spec(base::SECRET@) is None,
            final(query).get_spec(base::ALGORITHM@) is None,
            final(query).get_spec(base::DIGITS@) is None,
            final(query).get_spec(COUNTER@) is None,
            forall|other: Seq<char>|
                other != base::SECRET@ && other != base::ALGORITHM@ && other != base::DIGITS@
                    && other != COUNTER@ ==> #[trigger] final(query).get_spec(other) == old(
                    query,
                ).get_spec(other),
    {
        proof {
            reveal_strlit("secret");
            reveal_strlit("algorithm");
            reveal_strlit("digits");
            reveal_strlit("counter");
            assert(COUNTER@[0] != base::SECRET@[0]);
            assert(COUNTER@.len() != base::ALGORITHM@.len());
            assert(COUNTER@.len() != base::DIGITS@.len());
        }
        let ghost q0 = query@;
        let counter_text = query.remove(COUNTER);
        assert(query.get_spec(base::SECRET@) == lookup(q0, base::SECRET@));
        assert(query.get_spec(base::ALGORITHM@) == lookup(q0, base::ALGORITHM@));
        assert(query.get_spec(base::DIGITS@) == lookup(q0, base::DIGITS@));
        let base = match Base::extract_from(query) {
            Ok(base) => base,
            Err(error) => return Err(Error::base(error)),
        };
        let counter = match counter_text {
            None => return Err(Error::new_counter_not_found()),
            Some(text) => match Counter::parse(text.as_str()) {
                Ok(counter) => counter,
                Err(error) => return Err(Error::counter(error)),
            },
        };
        Ok(Self::new(base, counter))
    }
}

} // verus!
