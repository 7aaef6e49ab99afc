//! UTF-8 errors.
use std::string::FromUtf8Error;
use vstd::prelude::*;

verus! {

#[verifier::external_type_specification]
#[verifier::external_body]
pub struct ExFromUtf8Error(FromUtf8Error);

/// Wraps [`FromUtf8Error`]: percent-decoding produced bytes that are not UTF-8.
#[derive(Debug)]
pub struct Error(pub FromUtf8Error);

} // verus!
