//! Secret generation.
use crate::secret::length::Length;
use rand::rngs::OsRng;
use rand::TryRngCore;
use vstd::prelude::*;

verus! {

/// Relies on `OsRng::try_fill_bytes` (rand's re-export of `rand_core`), which fills the
/// buffer from the operating system's random source and reports its failure as an error
/// instead of panicking; only the length of the result is known.
#[verifier::external_body]
fn random_bytes(len: usize) -> (r: Option<Vec<u8>>)
    ensures
        r is Some ==> r->Some_0@.len() == len,
{
    let mut bytes = vec![0u8; len];
    OsRng.try_fill_bytes(&mut bytes).ok().map(|()| bytes)
}

/// Generates cryptographically secure random bytes of specified length, or returns [`None`] if
/// the operating system's random source fails.
pub fn generate(length: Length) -> (r: Option<Vec<u8>>)
    ensures
        r is Some ==> r->Some_0@.len() == length@,
{
    random_bytes(length.get())
}

} // verus!
