//! Hash-based Message Authentication Code (HMAC) functionality.
use hmac::{Hmac, Mac};
use sha1::Sha1;
use sha2::{Sha256, Sha512};
use vstd::prelude::*;

verus! {

/// Represents errors that occur when unknown algorithms are encountered.
#[derive(Debug)]
pub struct Error {
    /// The unknown algorithm.
    pub unknown: String,
}

impl Error {
    /// Constructs [`Self`].
    pub fn new(unknown: String) -> (r: Self)
        ensures
            r.unknown@ == unknown@,
    {
        Self { unknown }
    }
}

/// Represents hash algorithms used in HMACs.
#[derive(Debug, Clone, Copy, PartialEq, Eq, Hash)]
pub enum Algorithm {
    /// SHA-1 algorithm.
    Sha1,
    /// SHA-256 algorithm.
    Sha256,
    /// SHA-512 algorithm.
    Sha512,
}

impl std::str::FromStr for Algorithm {
    type Err = Error;

    fn from_str(string: &str) -> (r: Result<Self, Self::Err>)
        ensures
            match Algorithm::from_name(string@) {
                Some(a) => r == Ok::<Algorithm, Error>(a),
                None => r is Err && r->Err_0.unknown@ == string@,
            },
    {
        Algorithm::parse(string)
    }
}

impl Default for Algorithm {
    /// The default algorithm is SHA-1.
    fn default() -> (r: Self)
        ensures
            r == Algorithm::Sha1,
    {
        Algorithm::Sha1
    }
}

/// The `SHA1` literal.
pub const SHA1: &'static str = "SHA1";

/// The `SHA256` literal.
pub const SHA256: &'static str = "SHA256";

/// The `SHA512` literal.
pub const SHA512: &'static str = "SHA512";

/// The length of the SHA-1 hash.
pub const SHA1_LENGTH: usize = 20;

/// The length of the SHA-256 hash.
pub const SHA256_LENGTH: usize = 32;

/// The length of the SHA-512 hash.
pub const SHA512_LENGTH: usize = 64;

/// HMAC accepts any key length.
pub const HMAC_ANY_KEY_LENGTH: &'static str = "hmac accepts any key length";

/// The HMAC-SHA1 tag of `data` under `key`.
pub uninterp spec fn hmac_sha1_of(key: Seq<u8>, data: Seq<u8>) -> Seq<u8>;

/// The HMAC-SHA256 tag of `data` under `key`.
pub uninterp spec fn hmac_sha256_of(key: Seq<u8>, data: Seq<u8>) -> Seq<u8>;

/// The HMAC-SHA512 tag of `data` under `key`.
pub uninterp spec fn hmac_sha512_of(key: Seq<u8>, data: Seq<u8>) -> Seq<u8>;

impl Algorithm {
    /// The name of the algorithm, as written in OTP URLs.
    pub open spec fn name(self) -> Seq<char> {
        match self {
            Algorithm::Sha1 => seq!['S', 'H', 'A', '1'],
            Algorithm::Sha256 => seq!['S', 'H', 'A', '2', '5', '6'],
            Algorithm::Sha512 => seq!['S', 'H', 'A', '5', '1', '2'],
        }
    }

    /// The length of the digest (and the recommended key length) in bytes.
    pub open spec fn digest_len(self) -> nat {
        match self {
            Algorithm::Sha1 => 20,
            Algorithm::Sha256 => 32,
            Algorithm::Sha512 => 64,
        }
    }

    /// The HMAC tag of `data` under `key`, using this algorithm.
    pub open spec fn mac(self, key: Seq<u8>, data: Seq<u8>) -> Seq<u8> {
        match self {
            Algorithm::Sha1 => hmac_sha1_of(key, data),
            Algorithm::Sha256 => hmac_sha256_of(key, data),
            Algorithm::Sha512 => hmac_sha512_of(key, data),
        }
    }

    /// The algorithm that the given name stands for, if any (names are case-sensitive).
    pub open spec fn from_name(s: Seq<char>) -> Option<Algorithm> {
        if s == Algorithm::Sha1.name() {
            Some(Algorithm::Sha1)
        } else if s == Algorithm::Sha256.name() {
            Some(Algorithm::Sha256)
        } else if s == Algorithm::Sha512.name() {
            Some(Algorithm::Sha512)
        } else {
            None
        }
    }

    /// Returns the static string representation of [`Self`].
    pub fn static_str(self) -> (r: &'static str)
        ensures
            r@ == self.name(),
    {
        proof {
            reveal_strlit("SHA1");
            reveal_strlit("SHA256");
            reveal_strlit("SHA512");
        }
        match self {
            Algorithm::Sha1 => {
                assert(SHA1@ =~= self.name());
                SHA1
            },
            Algorithm::Sha256 => {
                assert(SHA256@ =~= self.name());
                SHA256
            },
            Algorithm::Sha512 => {
                assert(SHA512@ =~= self.name());
                SHA512
            },
        }
    }

    /// Returns the recommended length of the key for [`Self`].
    pub fn recommended_length(self) -> (r: usize)
        ensures
            r == self.digest_len(),
    {
        match self {
            Algorithm::Sha1 => SHA1_LENGTH,
            Algorithm::Sha256 => SHA256_LENGTH,
            Algorithm::Sha512 => SHA512_LENGTH,
        }
    }

    /// Computes HMAC using the [`Self`] algorithm, the key provided, and the given data.
    ///
    /// Keys of any length are accepted.
    pub fn hmac(self, key: &[u8], data: &[u8]) -> (r: Vec<u8>)
        ensures
            r@ == self.mac(key@, data@),
            r@.len() == self.digest_len(),
    {
        match self {
            Algorithm::Sha1 => hmac_sha1(key, data),
            Algorithm::Sha256 => hmac_sha256(key, data),
            Algorithm::Sha512 => hmac_sha512(key, data),
        }
    }

    /// Parses the algorithm from its name.
    ///
    /// # Errors
    ///
    /// Returns [`struct@Error`] holding the string if it names no algorithm.
    pub fn parse(string: &str) -> (r: Result<Self, Error>)
        ensures
            match Algorithm::from_name(string@) {
                Some(a) => r == Ok::<Algorithm, Error>(a),
                None => r is Err && r->Err_0.unknown@ == string@,
            },
    {
        let sha1 = Algorithm::Sha1.static_str();
        let sha256 = Algorithm::Sha256.static_str();
        let sha512 = Algorithm::Sha512.static_str();
        if crate::text::str_eq(string, sha1) {
            Ok(Algorithm::Sha1)
        } else if crate::text::str_eq(string, sha256) {
            Ok(Algorithm::Sha256)
        } else if crate::text::str_eq(string, sha512) {
            Ok(Algorithm::Sha512)
        } else {
            Err(Error::new(string.to_owned()))
        }
    }
}

/// Parsing the name of an algorithm gives the algorithm back.
pub proof fn lemma_parse_name(algorithm: Algorithm)
    ensures
        Algorithm::from_name(algorithm.name()) == Some(algorithm),
{
    assert(Algorithm::Sha1.name().len() != Algorithm::Sha256.name().len());
    assert(Algorithm::Sha1.name().len() != Algorithm::Sha512.name().len());
    assert(Algorithm::Sha256.name()[3] != Algorithm::Sha512.name()[3]);
}

/// Computes the HMAC-SHA1 tag of `data` under `key`.
///
/// Relies on `hmac::Hmac<sha1::Sha1>`: `new_from_slice` accepts keys of any length, and the
/// finalized tag is the 20-byte SHA-1 output.
#[verifier::external_body]
pub fn hmac_sha1(key: &[u8], data: &[u8]) -> (r: Vec<u8>)
    ensures
        r@ == hmac_sha1_of(key@, data@),
        r@.len() == 20,
{
    let mut mac = <Hmac<Sha1> as Mac>::new_from_slice(key).expect(HMAC_ANY_KEY_LENGTH);
    mac.update(data);
    mac.finalize().into_bytes().to_vec()
}

/// Computes the HMAC-SHA256 tag of `data` under `key`.
///
/// Relies on `hmac::Hmac<sha2::Sha256>`: `new_from_slice` accepts keys of any length, and the
/// finalized tag is the 32-byte SHA-256 output.
#[verifier::external_body]
pub fn hmac_sha256(key: &[u8], data: &[u8]) -> (r: Vec<u8>)
    ensures
        r@ == hmac_sha256_of(key@, data@),
        r@.len() == 32,
{
    let mut mac = <Hmac<Sha256> as Mac>::new_from_slice(key).expect(HMAC_ANY_KEY_LENGTH);
    mac.update(data);
    mac.finalize().into_bytes().to_vec()
}

/// Computes the HMAC-SHA512 tag of `data` under `key`.
///
/// Relies on `hmac::Hmac<sha2::Sha512>`: `new_from_slice` accepts keys of any length, and the
/// finalized tag is the 64-byte SHA-512 output.
#[verifier::external_body]
pub fn hmac_sha512(key: &[u8], data: &[u8]) -> (r: Vec<u8>)
    ensures
        r@ == hmac_sha512_of(key@, data@),
        r@.len() == 64,
{
    let mut mac = <Hmac<Sha512> as Mac>::new_from_slice(key).expect(HMAC_ANY_KEY_LENGTH);
    mac.update(data);
    mac.finalize().into_bytes().to_vec()
}

} // verus!
