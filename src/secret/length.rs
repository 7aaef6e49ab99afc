//! Secret lengths.
use crate::algorithm::Algorithm;
use vstd::prelude::*;

verus! {

/// The default (and recommended) secret length.
pub const DEFAULT: usize = 20;

/// The minimum allowed secret length.
pub const MIN: usize = 16;

/// Represents errors returned when unsafe lengths are used.
#[derive(Debug)]
pub struct Error {
    /// The unsafe length.
    pub length: usize,
}

impl Error {
    /// Constructs [`Self`].
    pub fn new(length: usize) -> (r: Self)
        ensures
            r.length == length,
    {
        Self { length }
    }
}

/// Represents OTP secret lengths, in bytes.
#[derive(Debug, Clone, Copy, PartialEq, Eq, Hash)]
pub struct Length {
    value: usize,
}

impl View for Length {
    type V = usize;

    closed spec fn view(&self) -> usize {
        self.value
    }
}

impl Default for Length {
    /// The default length is [`DEFAULT`] bytes.
    fn default() -> (r: Self)
        ensures
            r@ == DEFAULT,
    {
        Self { value: DEFAULT }
    }
}

/// Whether secrets shorter than [`MIN`] bytes are accepted.
///
/// [`Policy::Safe`] is what every constructor without a policy argument applies; callers that
/// must accept short secrets opt in with [`Policy::Unsafe`].
#[derive(Debug, Clone, Copy, PartialEq, Eq, Hash)]
pub enum Policy {
    /// Lengths below [`MIN`] are rejected.
    Safe,
    /// Any length is accepted.
    Unsafe,
}

/// Whether the policy accepts the length.
pub open spec fn accepts(policy: Policy, value: nat) -> bool {
    policy is Unsafe || value >= MIN
}

impl Length {

    /// Constructs [`Self`], if possible.
    ///
    /// # Errors
    ///
    /// Returns [`struct@Error`] if the value is less than [`MIN`].
    pub fn new(value: usize) -> (r: Result<Self, Error>)
        ensures
            value >= MIN ==> r is Ok && r->Ok_0@ == value,
            value < MIN ==> r is Err && r->Err_0.length == value,
    {
        match Self::check(value) {
            Ok(()) => Ok(Self::new_unchecked(value)),
            Err(error) => Err(error),
        }
    }

    /// Similar to [`new`], but the error is discarded.
    ///
    /// [`new`]: Self::new
    pub fn new_ok(value: usize) -> (r: Option<Self>)
        ensures
            value >= MIN ==> r is Some && r->Some_0@ == value,
            value < MIN ==> r is None,
    {
        match Self::new(value) {
            Ok(length) => Some(length),
            Err(_) => None,
        }
    }

    /// Checks if the provided value is valid for [`Self`].
    ///
    /// # Errors
    ///
    /// Returns [`struct@Error`] holding the value if it is less than [`MIN`].
    pub fn check(value: usize) -> (r: Result<(), Error>)
        ensures
            value >= MIN ==> r is Ok,
            value < MIN ==> r is Err && r->Err_0.length == value,
    {
        if value < MIN {
            return Err(Error::new(value));
        }
        Ok(())
    }

    /// Checks the value under the given policy: under [`Policy::Unsafe`] every value passes.
    ///
    /// # Errors
    ///
    /// Returns [`struct@Error`] holding the value if the policy rejects it.
    pub fn check_with(value: usize, policy: Policy) -> (r: Result<(), Error>)
        ensures
            accepts(policy, value as nat) ==> r is Ok,
            !accepts(policy, value as nat) ==> r is Err && r->Err_0.length == value,
    {
        match policy {
            Policy::Safe => Self::check(value),
            Policy::Unsafe => Ok(()),
        }
    }

    /// Constructs [`Self`] under the given policy, if it accepts the value.
    ///
    /// # Errors
    ///
    /// Returns [`struct@Error`] holding the value if the policy rejects it.
    pub fn new_with(value: usize, policy: Policy) -> (r: Result<Self, Error>)
        ensures
            accepts(policy, value as nat) ==> r is Ok && r->Ok_0@ == value,
            !accepts(policy, value as nat) ==> r is Err && r->Err_0.length == value,
    {
        match Self::check_with(value, policy) {
            Ok(()) => Ok(Self { value }),
            Err(error) => Err(error),
        }
    }

    /// Constructs [`Self`] without checking the value: the explicit opt-in to lengths below
    /// [`MIN`].
    pub fn new_unsafe(value: usize) -> (r: Self)
        ensures
            r@ == value,
    {
        Self { value }
    }

    /// Constructs [`Self`] from a value known to be at least [`MIN`].
    pub fn new_unchecked(value: usize) -> (r: Self)
        requires
            value >= MIN,
        ensures
            r@ == value,
    {
        Self { value }
    }

    /// Returns the recommended length for the given [`Algorithm`].
    pub fn recommended_for(algorithm: Algorithm) -> (r: Self)
        ensures
            r@ == algorithm.digest_len(),
    {
        Self::new_unchecked(algorithm.recommended_length())
    }

    /// Returns the length value.
    pub fn get(self) -> (r: usize)
        ensures
            r == self@,
    {
        self.value
    }
}

} // verus!
