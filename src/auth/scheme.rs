//! Authentication scheme.
use crate::auth::url::Url;
use crate::text::str_eq;
use vstd::prelude::*;

verus! {

/// The scheme used in OTP URLs.
pub const SCHEME: &'static str = "otpauth";

/// The scheme used in OTP URLs, as plain value.
pub open spec fn scheme_spec() -> Seq<char> {
    seq!['o', 't', 'p', 'a', 'u', 't', 'h']
}

/// Returns [`SCHEME`].
pub fn scheme() -> (r: &'static str)
    ensures
        r@ == scheme_spec(),
{
    proof {
        reveal_strlit("otpauth");
    }
    assert(SCHEME@ =~= scheme_spec());
    SCHEME
}

/// Represents errors that occur when unexpected schemes are encountered.
///
/// The only scheme valid for OTP URLs is [`SCHEME`].
#[derive(Debug)]
pub struct Error {
    /// The unexpected scheme.
    pub scheme: String,
}

impl Error {
    /// Constructs [`Self`].
    pub fn new(scheme: String) -> (r: Self)
        ensures
            r.scheme@ == scheme@,
    {
        Self { scheme }
    }
}

/// Checks whether the given scheme matches [`SCHEME`].
///
/// # Errors
///
/// Returns [`struct@Error`] holding the scheme when it does not match [`SCHEME`].
pub fn check(scheme_string: &str) -> (r: Result<(), Error>)
    ensures
        scheme_string@ == scheme_spec() ==> r is Ok,
        scheme_string@ != scheme_spec() ==> r is Err && r->Err_0.scheme@ == scheme_string@,
{
    if !str_eq(scheme_string, scheme()) {
        return Err(Error::new(scheme_string.to_owned()));
    }
    Ok(())
}

/// Checks whether the URL has the scheme matching [`SCHEME`].
///
/// # Errors
///
/// Returns [`struct@Error`] holding the scheme when it does not match [`SCHEME`].
pub fn check_url(url: &Url) -> (r: Result<(), Error>)
    ensures
        url.scheme@ == scheme_spec() ==> r is Ok,
        url.scheme@ != scheme_spec() ==> r is Err && r->Err_0.scheme@ == url.scheme@,
{
    check(url.scheme.as_str())
}

} // verus!
