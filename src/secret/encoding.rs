//! Secret encoding and decoding (base32, RFC 4648 alphabet, no padding).
use vstd::prelude::*;

verus! {

/// Represents errors that can occur when secret decoding fails.
#[derive(Debug)]
pub struct Error {
    /// The encoded secret that could not be decoded.
    pub secret: String,
}

impl Error {
    /// Constructs [`Self`].
    pub fn new(secret: String) -> (r: Self)
        ensures
            r.secret@ == secret@,
    {
        Self { secret }
    }
}

/// The unpadded RFC 4648 base32 text of the given bytes.
pub uninterp spec fn base32_encoded(bytes: Seq<u8>) -> Seq<char>;

/// The bytes that the given text decodes to as unpadded RFC 4648 base32, if it is valid.
pub uninterp spec fn base32_decoded(text: Seq<char>) -> Option<Seq<u8>>;

/// Encodes the given secret.
///
/// Relies on `base32::encode` with the unpadded RFC 4648 alphabet, whose output
/// `base32::decode` with the same alphabet turns back into the input.
#[verifier::external_body]
pub fn encode(secret: &[u8]) -> (r: String)
    ensures
        r@ == base32_encoded(secret@),
        base32_decoded(r@) == Some(secret@),
{
    base32::encode(base32::Alphabet::Rfc4648 { padding: false }, secret)
}

/// Relies on `base32::decode` with the unpadded RFC 4648 alphabet.
#[verifier::external_body]
fn decode_bytes(secret: &str) -> (r: Option<Vec<u8>>)
    ensures
        match base32_decoded(secret@) {
            Some(bytes) => r is Some && r->Some_0@ == bytes,
            None => r is None,
        },
{
    base32::decode(base32::Alphabet::Rfc4648 { padding: false }, secret)
}

/// Decodes the given secret.
///
/// # Errors
///
/// Returns [`struct@Error`] holding the string if it is not valid base32.
pub fn decode(secret: &str) -> (r: Result<Vec<u8>, Error>)
    ensures
        match base32_decoded(secret@) {
            Some(bytes) => r is Ok && r->Ok_0@ == bytes,
            None => r is Err && r->Err_0.secret@ == secret@,
        },
{
    match decode_bytes(secret) {
        Some(bytes) => Ok(bytes),
        None => Err(Error::new(secret.to_owned())),
    }
}

} // verus!
