//! Time-based One-Time Password (TOTP) functionality.
use crate::algorithm::Algorithm;
use crate::auth::query::{lookup, Query};
use crate::auth::url::{option_view, Url};
use crate::base::{self, base_pairs, base_spec, Base};
use crate::integer;
use crate::period::{self, Period};
use crate::skew::{self, window, Skew};
use crate::secret::encoding::{base32_decoded, base32_encoded};
use crate::secret::value::decode_spec;
use crate::text::decimal;
use crate::time::{self, now};
use vstd::prelude::*;

verus! {

/// Represents TOTP configurations.
#[derive(Debug, Clone, PartialEq, Eq, Hash)]
pub struct Totp {
    /// The base configuration.
    pub base: Base,
    /// The skew to apply.
    pub skew: Skew,
    /// The period to use.
    pub period: Period,
}

/// Represents owned [`Totp`].
pub type Owned = Totp;

impl View for Totp {
    type V = ((Seq<u8>, Algorithm, u8), u64, u64);

    /// The base configuration, the skew and the period.
    open spec fn view(&self) -> ((Seq<u8>, Algorithm, u8), u64, u64) {
        (self.base@, self.skew@, self.period@)
    }
}

impl Totp {
    /// The moving factor at `time`: the number of whole periods since the epoch.
    pub open spec fn input_spec(&self, time: u64) -> u64 {
        (time / self.period@) as u64
    }

    /// The start of the period that follows the one holding `time`.
    pub open spec fn next_period_spec(&self, time: u64) -> nat {
        (time / self.period@ + 1) as nat * self.period@ as nat
    }

    /// The number of seconds from `time` to the start of the next period.
    pub open spec fn time_to_live_spec(&self, time: u64) -> u64 {
        (self.period@ - time % self.period@) as u64
    }

    /// The start of the next period, or `u64::MAX` where that does not fit in 64 bits.
    pub open spec fn next_period_saturated(&self, time: u64) -> u64 {
        if self.next_period_spec(time) <= u64::MAX {
            self.next_period_spec(time) as u64
        } else {
            u64::MAX
        }
    }

    /// The code at `time`.
    pub open spec fn code_at(&self, time: u64) -> nat {
        self.base.code(self.input_spec(time))
    }

    /// The string code at `time`.
    pub open spec fn code_string_at(&self, time: u64) -> Seq<char> {
        self.base.code_string(self.input_spec(time))
    }

    /// Whether `code` is the code of some moving factor in the skew window around `time`.
    pub open spec fn accepts_at(&self, time: u64, code: u32) -> bool {
        let w = window(self.skew@ as nat, self.input_spec(time));
        exists|i: int| 0 <= i < w.len() && self.base.code(#[trigger] w[i]) == code
    }

    /// Whether `code` is the string code of some moving factor in the skew window around `time`.
    pub open spec fn accepts_string_at(&self, time: u64, code: Seq<char>) -> bool {
        let w = window(self.skew@ as nat, self.input_spec(time));
        exists|i: int| 0 <= i < w.len() && self.base.code_string(#[trigger] w[i]) == code
    }

    /// Constructs [`Self`].
    pub fn new(base: Base, skew: Skew, period: Period) -> (r: Self)
        ensures
            r.base == base,
            r.skew == skew,
            r.period == period,
    {
        Self { base, skew, period }
    }

    /// Returns the base configuration.
    pub fn base(&self) -> (r: &Base)
        ensures
            *r == self.base,
    {
        &self.base
    }

    /// Returns the mutable base configuration.
    pub fn base_mut(&mut self) -> (r: &mut Base)
        ensures
            *r == old(self).base,
            final(self).skew == old(self).skew,
            final(self).period == old(self).period,
            final(self).base == *final(r),
    {
        &mut self.base
    }

    /// Consumes [`Self`], returning the base configuration.
    pub fn into_base(self) -> (r: Base)
        ensures
            r == self.base,
    {
        self.base
    }

    /// Returns the input value corresponding to the given time.
    pub fn input_at(&self, time: u64) -> (r: u64)
        ensures
            r == self.input_spec(time),
    {
        time / self.period.get()
    }

    /// Returns the time corresponding to the next period from the given time; that time must
    /// fit in 64 bits.
    pub fn next_period_at(&self, time: u64) -> (r: u64)
        requires
            self.next_period_spec(time) <= u64::MAX,
        ensures
            r == self.next_period_spec(time),
    {
        let period = self.period.get();
        assert(time / period + 1 <= (time / period + 1) * period) by (nonlinear_arith)
            requires
                period >= 1,
        ;
        (time / period + 1) * period
    }

    /// Returns the time corresponding to the next period from the given time, or `u64::MAX`
    /// where that does not fit in 64 bits.
    pub fn next_period_or_max(&self, time: u64) -> (r: u64)
        ensures
            r == self.next_period_saturated(time),
    {
        let period = self.period.get();
        if time / period == u64::MAX {
            proof {
                assert((time / period + 1) * period >= time / period + 1) by (nonlinear_arith)
                    requires
                        period >= 1,
                ;
            }
            return u64::MAX;
        }
        let steps = time / period + 1;
        if steps > u64::MAX / period {
            proof {
                assert(steps * period > u64::MAX) by (nonlinear_arith)
                    requires
                        steps > u64::MAX / period,
                        period > 0,
                ;
            }
            u64::MAX
        } else {
            proof {
                assert(steps * period <= u64::MAX) by (nonlinear_arith)
                    requires
                        steps <= u64::MAX / period,
                        period > 0,
                ;
            }
            self.next_period_at(time)
        }
    }

    /// Tries to return the time corresponding to the next period from the current time
    /// (`u64::MAX` where that does not fit in 64 bits).
    ///
    /// # Errors
    ///
    /// Returns [`time::Error`] if the system time is before the epoch.
    pub fn try_next_period(&self) -> (r: Result<u64, time::Error>)
        ensures
            r is Ok ==> exists|t: u64| r->Ok_0 == #[trigger] self.next_period_saturated(t),
    {
        match now() {
            Ok(time) => Ok(self.next_period_or_max(time)),
            Err(error) => Err(error),
        }
    }

    /// Returns the time to live of the code for the given time.
    pub fn time_to_live_at(&self, time: u64) -> (r: u64)
        ensures
            r == self.time_to_live_spec(time),
            1 <= r <= self.period@,
    {
        let period = self.period.get();
        period - time % period
    }

    /// Tries to return the time to live of the code for the current time.
    ///
    /// # Errors
    ///
    /// Returns [`time::Error`] if the system time is before the epoch.
    pub fn try_time_to_live(&self) -> (r: Result<u64, time::Error>)
        ensures
            r is Ok ==> exists|t: u64| r->Ok_0 == #[trigger] self.time_to_live_spec(t),
            r is Ok ==> 1 <= r->Ok_0 <= self.period@,
    {
        match now() {
            Ok(time) => Ok(self.time_to_live_at(time)),
            Err(error) => Err(error),
        }
    }

    /// Generates the code for the given time.
    pub fn generate_at(&self, time: u64) -> (r: u32)
        ensures
            r == self.code_at(time),
    {
        self.base.generate(self.input_at(time))
    }

    /// Generates the string code for the given time.
    pub fn generate_string_at(&self, time: u64) -> (r: String)
        ensures
            r@ == self.code_string_at(time),
    {
        self.base.generate_string(self.input_at(time))
    }

    /// Tries to generate the code for the current time.
    ///
    /// # Errors
    ///
    /// Returns [`time::Error`] if the system time is before the epoch.
    pub fn try_generate(&self) -> (r: Result<u32, time::Error>)
        ensures
            r is Ok ==> exists|t: u64| r->Ok_0 == #[trigger] self.code_at(t),
    {
        match now() {
            Ok(time) => Ok(self.generate_at(time)),
            Err(error) => Err(error),
        }
    }

    /// Tries to generate the string code for the current time.
    ///
    /// # Errors
    ///
    /// Returns [`time::Error`] if the system time is before the epoch.
    pub fn try_generate_string(&self) -> (r: Result<String, time::Error>)
        ensures
            r is Ok ==> exists|t: u64| r->Ok_0@ == #[trigger] self.code_string_at(t),
    {
        match now() {
            Ok(time) => Ok(self.generate_string_at(time)),
            Err(error) => Err(error),
        }
    }

    /// Verifies the given code for the given time.
    pub fn verify_exact_at(&self, time: u64, code: u32) -> (r: bool)
        ensures
            r == (self.code_at(time) == code),
    {
        self.base.verify(self.input_at(time), code)
    }

    /// Verifies the given string code for the given time, comparing in constant time.
    pub fn verify_string_exact_at(&self, time: u64, code: &str) -> (r: bool)
        ensures
            r == (self.code_string_at(time) == code@),
    {
        self.base.verify_string(self.input_at(time), code)
    }

    /// Tries to verify the given code for the current time *exactly*.
    ///
    /// # Errors
    ///
    /// Returns [`time::Error`] if the system time is before the epoch.
    pub fn try_verify_exact(&self, code: u32) -> (r: Result<bool, time::Error>)
        ensures
            r is Ok ==> exists|t: u64| r->Ok_0 == (#[trigger] self.code_at(t) == code),
    {
        match now() {
            Ok(time) => Ok(self.verify_exact_at(time, code)),
            Err(error) => Err(error),
        }
    }

    /// Tries to verify the given string code for the current time *exactly*.
    ///
    /// # Errors
    ///
    /// Returns [`time::Error`] if the system time is before the epoch.
    pub fn try_verify_string_exact(&self, code: &str) -> (r: Result<bool, time::Error>)
        ensures
            r is Ok ==> exists|t: u64| r->Ok_0 == (#[trigger] self.code_string_at(t) == code@),
    {
        match now() {
            Ok(time) => Ok(self.verify_string_exact_at(time, code)),
            Err(error) => Err(error),
        }
    }

    /// Verifies the given code for the given time, accounting for *skews*: the moving factors
    /// of the skew window are tried in order until one matches.
    pub fn verify_at(&self, time: u64, code: u32) -> (r: bool)
        ensures
            r == self.accepts_at(time, code),
    {
        let value = self.input_at(time);
        let skew = self.skew.get();
        let ghost w = window(skew as nat, value);
        let k: u64 = if skew <= value { skew } else { value };
        let room: u64 = u64::MAX - value;
        let m: u64 = if skew <= room { skew } else { room };
        let mut i: u64 = 0;
        while i < k
            invariant
                k <= value,
                i <= k,
                k == (if skew <= value { skew } else { value }),
                w == window(skew as nat, value),
                value == self.input_spec(time),
                skew == self.skew@,
                forall|j: int| 0 <= j < i ==> self.base.code(#[trigger] w[j]) != code,
            decreases k - i,
        {
            assert(w[i as int] == value - k + i);
            if self.base.verify(value - k + i, code) {
                assert(self.base.code(w[i as int]) == code);
                return true;
            }
            i = i + 1;
        }
        assert(w[k as int] == value);
        if self.base.verify(value, code) {
            assert(self.base.code(w[k as int]) == code);
            return true;
        }
        let mut j: u64 = 0;
        while j < m
            invariant
                m <= u64::MAX - value,
                j <= m,
                m == (if skew <= u64::MAX - value { skew } else { (u64::MAX - value) as u64 }),
                k == (if skew <= value { skew } else { value }),
                w == window(skew as nat, value),
                value == self.input_spec(time),
                skew == self.skew@,
                w.len() == k + 1 + m,
                forall|l: int| 0 <= l < k + 1 + j ==> self.base.code(#[trigger] w[l]) != code,
            decreases m - j,
        {
            assert(w[k + 1 + j] == value + 1 + j);
            if self.base.verify(value + 1 + j, code) {
                assert(self.base.code(w[k + 1 + j]) == code);
                return true;
            }
            j = j + 1;
        }
        false
    }

    /// Verifies the given string code for the given time, accounting for *skews*: the moving
    /// factors of the skew window are tried in order until one matches, each comparison in
    /// constant time.
    pub fn verify_string_at(&self, time: u64, code: &str) -> (r: bool)
        ensures
            r == self.accepts_string_at(time, code@),
    {
        let value = self.input_at(time);
        let skew = self.skew.get();
        let ghost w = window(skew as nat, value);
        let k: u64 = if skew <= value { skew } else { value };
        let room: u64 = u64::MAX - value;
        let m: u64 = if skew <= room { skew } else { room };
        let mut i: u64 = 0;
        while i < k
            invariant
                k <= value,
                i <= k,
                k == (if skew <= value { skew } else { value }),
                w == window(skew as nat, value),
                value == self.input_spec(time),
                skew == self.skew@,
                forall|j: int| 0 <= j < i ==> self.base.code_string(#[trigger] w[j]) != code@,
            decreases k - i,
        {
            assert(w[i as int] == value - k + i);
            if self.base.verify_string(value - k + i, code) {
                assert(self.base.code_string(w[i as int]) == code@);
                return true;
            }
            i = i + 1;
        }
        assert(w[k as int] == value);
        if self.base.verify_string(value, code) {
            assert(self.base.code_string(w[k as int]) == code@);
            return true;
        }
        let mut j: u64 = 0;
        while j < m
            invariant
                m <= u64::MAX - value,
                j <= m,
                m == (if skew <= u64::MAX - value { skew } else { (u64::MAX - value) as u64 }),
                k == (if skew <= value { skew } else { value }),
                w == window(skew as nat, value),
                value == self.input_spec(time),
                skew == self.skew@,
                w.len() == k + 1 + m,
                forall|l: int| 0 <= l < k + 1 + j ==> self.base.code_string(#[trigger] w[l]) != code@,
            decreases m - j,
        {
            assert(w[k + 1 + j] == value + 1 + j);
            if self.base.verify_string(value + 1 + j, code) {
                assert(self.base.code_string(w[k + 1 + j]) == code@);
                return true;
            }
            j = j + 1;
        }
        false
    }

    /// Tries to verify the given code for the current time, accounting for *skews*.
    ///
    /// # Errors
    ///
    /// Returns [`time::Error`] if the system time is before the epoch.
    pub fn try_verify(&self, code: u32) -> (r: Result<bool, time::Error>)
        ensures
            r is Ok ==> exists|t: u64| r->Ok_0 == #[trigger] self.accepts_at(t, code),
    {
        match now() {
            Ok(time) => Ok(self.verify_at(time, code)),
            Err(error) => Err(error),
        }
    }

    /// Tries to verify the given string code for the current time, accounting for *skews*.
    ///
    /// # Errors
    ///
    /// Returns [`time::Error`] if the system time is before the epoch.
    pub fn try_verify_string(&self, code: &str) -> (r: Result<bool, time::Error>)
        ensures
            r is Ok ==> exists|t: u64| r->Ok_0 == #[trigger] self.accepts_string_at(t, code@),
    {
        match now() {
            Ok(time) => Ok(self.verify_string_at(time, code)),
            Err(error) => Err(error),
        }
    }

    /// Converts [`Self`] into [`Owned`].
    pub fn into_owned(self) -> (r: Owned)
        ensures
            r == self,
    {
        self
    }
}

/// The `period` literal.
pub const PERIOD: &'static str = "period";

/// Represents sources of errors that can occur when extracting TOTP configurations
/// from OTP URLs.
#[derive(Debug)]
pub enum ErrorSource {
    /// The base configuration could not be extracted.
    Base(base::Error),
    /// The period could not be parsed.
    Period(period::ParseError),
}

/// Represents errors that can occur when extracting TOTP configurations from OTP URLs.
#[derive(Debug)]
pub struct Error {
    /// The source of this error.
    pub source: ErrorSource,
}

impl Error {
    /// Constructs [`Self`].
    pub fn new(source: ErrorSource) -> (r: Self)
        ensures
            r.source == source,
    {
        Self { source }
    }

    /// Constructs [`Self`] from [`base::Error`].
    pub fn base(error: base::Error) -> (r: Self)
        ensures
            r.source == ErrorSource::Base(error),
    {
        Self::new(ErrorSource::Base(error))
    }

    /// Constructs [`Self`] from [`period::ParseError`].
    pub fn period(error: period::ParseError) -> (r: Self)
        ensures
            r.source == ErrorSource::Period(error),
    {
        Self::new(ErrorSource::Period(error))
    }
}

/// The period that an optional `period` parameter gives: thirty seconds when it is absent.
pub open spec fn period_param(text: Option<Seq<char>>) -> Option<u64> {
    match text {
        None => Some(period::DEFAULT),
        Some(t) => match period::parse_spec(t) {
            Ok(v) => Some(v),
            Err(_) => None,
        },
    }
}

/// The TOTP configuration that the query pairs describe, if they describe one; URLs carry no
/// skew, so it is the default.
pub open spec fn totp_spec(q: Seq<(Seq<char>, Seq<char>)>) -> Option<
    ((Seq<u8>, Algorithm, u8), u64, u64),
> {
    match base_spec(q) {
        None => None,
        Some(b) => match period_param(lookup(q, PERIOD@)) {
            None => None,
            Some(p) => Some((b, skew::DEFAULT, p)),
        },
    }
}

/// Whether `e` is the error that extracting a TOTP configuration from the query pairs gives:
/// the base configuration's error, else the period is not valid (holding its text and the
/// reason).
pub open spec fn error_matches(q: Seq<(Seq<char>, Seq<char>)>, e: Error) -> bool {
    match base_spec(q) {
        None => e.source is Base && base::error_matches(q, e.source->Base_0),
        Some(_) => {
            let text = lookup(q, PERIOD@)->Some_0;
            &&& e.source is Period
            &&& e.source->Period_0.string@ == text
            &&& match period::parse_spec(text) {
                Err(Ok(v)) => e.source->Period_0.source == period::ParseErrorSource::Period(
                    period::Error { value: v },
                ),
                Err(Err(kind)) => e.source->Period_0.source == period::ParseErrorSource::Int(
                    integer::wrap_spec(kind),
                ),
                Ok(_) => true,
            }
        },
    }
}

/// The query pairs that describe the TOTP configuration `v`.
pub open spec fn totp_pairs(v: ((Seq<u8>, Algorithm, u8), u64, u64)) -> Seq<(Seq<char>, Seq<char>)> {
    base_pairs(v.0).push((PERIOD@, decimal(v.2 as nat)))
}

impl Totp {
    /// Applies the TOTP configuration to the given URL: the base configuration, then
    /// `period`.
    pub fn query_for(&self, url: &mut Url)
        ensures
            final(url).scheme@ == old(url).scheme@,
            option_view(final(url).host) == option_view(old(url).host),
            final(url).path@ == old(url).path@,
            final(url).parts().3 == old(url).parts().3 + totp_pairs(self@),
            base32_decoded(base32_encoded(self.base.secret@)) == Some(self.base.secret@),
    {
        self.base.query_for(url);
        let period = self.period.to_string();
        url.append_pair(PERIOD, period.as_str());
        assert(url.parts().3 =~= old(url).parts().3 + totp_pairs(self@));
    }

    /// Extracts the TOTP configuration from the given query, removing the parameters it
    /// reads; the skew is the default.
    ///
    /// # Errors
    ///
    /// Returns [`struct@Error`] if the base configuration can not be extracted, or if the
    /// period is present and is not a decimal number of at least one second.
    pub fn extract_from(query: &mut Query) -> (r: Result<Self, Error>)
        ensures
            match totp_spec(old(query)@) {
                Some(v) => r is Ok && r->Ok_0@ == v,
                None => r is Err,
            },
            totp_spec(old(query)@) is None ==> r is Err && error_matches(old(query)@, r->Err_0),
            final(query).get_spec(base::SECRET@) is None,
            final(query).get_spec(base::ALGORITHM@) is None,
            final(query).get_spec(base::DIGITS@) is None,
            final(query).get_spec(PERIOD@) is None,
            forall|other: Seq<char>|
                other != base::SECRET@ && other != base::ALGORITHM@ && other != base::DIGITS@
                    && other != PERIOD@ ==> #[trigger] final(query).get_spec(other) == old(
                    query,
                ).get_spec(other),
    {
        proof {
            reveal_strlit("secret");
            reveal_strlit("algorithm");
            reveal_strlit("digits");
            reveal_strlit("period");
            assert(PERIOD@[0] != base::SECRET@[0]);
            assert(PERIOD@.len() != base::ALGORITHM@.len());
            assert(PERIOD@[0] != base::DIGITS@[0]);
        }
        let ghost q0 = query@;
        let period_text = query.remove(PERIOD);
        assert(query.get_spec(base::SECRET@) == lookup(q0, base::SECRET@));
        assert(query.get_spec(base::ALGORITHM@) == lookup(q0, base::ALGORITHM@));
        assert(query.get_spec(base::DIGITS@) == lookup(q0, base::DIGITS@));
        let base = match Base::extract_from(query) {
            Ok(base) => base,
            Err(error) => return Err(Error::base(error)),
        };
        let period = match period_text {
            None => Period::default(),
            Some(text) => match Period::parse(text.as_str()) {
                Ok(period) => period,
                Err(error) => return Err(Error::period(error)),
            },
        };
        Ok(Self::new(base, Skew::default(), period))
    }
}

} // verus!
