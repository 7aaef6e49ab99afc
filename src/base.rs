//! Base One-Time Password (OTP) functionality: turning a moving factor into a code.
use crate::algorithm::{self, Algorithm};
use crate::auth::query::{lookup, Query};
use crate::auth::url::{option_view, Url};
use crate::digits::{self, pow10, Digits};
use crate::integer;
use crate::secret::length;
use crate::secret::encoding::{base32_decoded, base32_encoded};
use crate::secret::value::{self, constant_time_eq, decode_spec, Secret};
use crate::text::{decimal, zero_padded};
use vstd::prelude::*;

verus! {

broadcast use vstd::utf8::encode_utf8_decode_utf8;

/// The eight bytes of `x`, most significant first.
pub open spec fn be_bytes(x: u64) -> Seq<u8> {
    seq![
        (x >> 56u64) as u8,
        (x >> 48u64) as u8,
        (x >> 40u64) as u8,
        (x >> 32u64) as u8,
        (x >> 24u64) as u8,
        (x >> 16u64) as u8,
        (x >> 8u64) as u8,
        x as u8,
    ]
}

/// Dynamic truncation (RFC 4226, section 5.3): the low nibble of the last byte of the digest
/// picks an offset, and the four bytes from there, read big-endian with the top bit cleared,
/// give the value.
pub open spec fn truncate(digest: Seq<u8>) -> nat {
    let offset = (digest.last() % 16) as int;
    (digest[offset] % 128) as nat * 0x100_0000 + digest[offset + 1] as nat * 0x1_0000
        + digest[offset + 2] as nat * 0x100 + digest[offset + 3] as nat
}

/// The code of `digits` digits that the given digest yields.
pub open spec fn code_of(digest: Seq<u8>, digits: u8) -> nat {
    truncate(digest) % pow10(digits as nat)
}

/// Represents OTP base configuration.
#[derive(Debug, Clone, PartialEq, Eq, Hash)]
pub struct Base {
    /// The secret to use as the key.
    pub secret: Secret,
    /// The algorithm to use.
    pub algorithm: Algorithm,
    /// The number of digits to return.
    pub digits: Digits,
}

/// Represents owned [`Base`].
pub type Owned = Base;

impl View for Base {
    type V = (Seq<u8>, Algorithm, u8);

    open spec fn view(&self) -> (Seq<u8>, Algorithm, u8) {
        (self.secret@, self.algorithm, self.digits@)
    }
}

impl Base {
    /// The HMAC digest of the moving factor `input`, keyed by the secret.
    pub open spec fn digest(&self, input: u64) -> Seq<u8> {
        self.algorithm.mac(self.secret@, be_bytes(input))
    }

    /// The code for the moving factor `input`.
    pub open spec fn code(&self, input: u64) -> nat {
        code_of(self.digest(input), self.digits@)
    }

    /// The code for the moving factor `input`, zero-padded to the number of digits.
    pub open spec fn code_string(&self, input: u64) -> Seq<char> {
        zero_padded(decimal(self.code(input)), self.digits@ as nat)
    }

    /// Constructs [`Self`].
    pub fn new(secret: Secret, algorithm: Algorithm, digits: Digits) -> (r: Self)
        ensures
            r.secret@ == secret@,
            r.algorithm == algorithm,
            r.digits == digits,
    {
        Self { secret, algorithm, digits }
    }

    /// Generates codes based on the given input.
    pub fn generate(&self, input: u64) -> (r: u32)
        ensures
            r == self.code(input),
    {
        let bytes: Vec<u8> = vec![
            (input >> 56u64) as u8,
            (input >> 48u64) as u8,
            (input >> 40u64) as u8,
            (input >> 32u64) as u8,
            (input >> 24u64) as u8,
            (input >> 16u64) as u8,
            (input >> 8u64) as u8,
            input as u8,
        ];
        assert(bytes@ =~= be_bytes(input));
        let hmac = self.algorithm.hmac(self.secret.as_bytes(), bytes.as_slice());
        let last = hmac[hmac.len() - 1];
        let offset = (last % 16) as usize;
        let value: u32 = (hmac[offset] % 128) as u32 * 0x100_0000 + hmac[offset + 1] as u32
            * 0x1_0000 + hmac[offset + 2] as u32 * 0x100 + hmac[offset + 3] as u32;
        let power = self.digits.power();
        assert(value == truncate(hmac@));
        value % power
    }

    /// Calls [`generate`] and returns the string representation of the resulting code,
    /// padded with zeros to the number of digits.
    ///
    /// [`generate`]: Self::generate
    pub fn generate_string(&self, input: u64) -> (r: String)
        ensures
            r@ == self.code_string(input),
    {
        self.digits.string(self.generate(input))
    }

    /// Verifies that the given code matches the given input.
    pub fn verify(&self, input: u64, code: u32) -> (r: bool)
        ensures
            r == (self.code(input) == code),
    {
        self.generate(input) == code
    }

    /// Verifies that the given string code matches the given input, comparing in constant time.
    pub fn verify_string(&self, input: u64, code: &str) -> (r: bool)
        ensures
            r == (self.code_string(input) == code@),
    {
        let expected = self.generate_string(input);
        let r = constant_time_eq(expected.as_str().as_bytes(), code.as_bytes());
        proof {
            if r {
                assert(vstd::utf8::decode_utf8(vstd::utf8::encode_utf8(expected@)) == expected@);
                assert(vstd::utf8::decode_utf8(vstd::utf8::encode_utf8(code@)) == code@);
            }
        }
        r
    }
}

/// The `secret` literal.
pub const SECRET: &'static str = "secret";

/// The `algorithm` literal.
pub const ALGORITHM: &'static str = "algorithm";

/// The `digits` literal.
pub const DIGITS: &'static str = "digits";

/// Represents errors returned when the secret is not found in the OTP URL.
#[derive(Debug)]
pub struct SecretNotFoundError;

/// Represents sources of errors that can occur when extracting base configurations
/// from OTP URLs.
#[derive(Debug)]
pub enum ErrorSource {
    /// The secret was not found in the OTP URL.
    SecretNotFound(SecretNotFoundError),
    /// The secret was found, but could not be parsed.
    Secret(value::Error),
    /// The algorithm could not be parsed.
    Algorithm(algorithm::Error),
    /// The number of digits could not be parsed.
    Digits(digits::ParseError),
}

/// Represents errors that can occur when extracting the base from OTP URLs.
#[derive(Debug)]
pub struct Error {
    /// The source of this error.
    pub source: ErrorSource,
}

impl Error {
    /// Constructs [`Self`].
    pub fn new(source: ErrorSource) -> (r: Self)
        ensures
            r.source == source,
    {
        Self { source }
    }

    /// Constructs [`Self`] from [`SecretNotFoundError`].
    pub fn secret_not_found(error: SecretNotFoundError) -> (r: Self)
        ensures
            r.source is SecretNotFound,
    {
        Self::new(ErrorSource::SecretNotFound(error))
    }

    /// Creates [`SecretNotFoundError`] and constructs [`Self`] from it.
    pub fn new_secret_not_found() -> (r: Self)
        ensures
            r.source is SecretNotFound,
    {
        Self::secret_not_found(SecretNotFoundError)
    }

    /// Constructs [`Self`] from [`value::Error`].
    pub fn secret(error: value::Error) -> (r: Self)
        ensures
            r.source == ErrorSource::Secret(error),
    {
        Self::new(ErrorSource::Secret(error))
    }

    /// Constructs [`Self`] from [`algorithm::Error`].
    pub fn algorithm(error: algorithm::Error) -> (r: Self)
        ensures
            r.source == ErrorSource::Algorithm(error),
    {
        Self::new(ErrorSource::Algorithm(error))
    }

    /// Constructs [`Self`] from [`digits::ParseError`].
    pub fn digits(error: digits::ParseError) -> (r: Self)
        ensures
            r.source == ErrorSource::Digits(error),
    {
        Self::new(ErrorSource::Digits(error))
    }
}

/// The algorithm that an optional `algorithm` parameter gives: SHA-1 when it is absent.
pub open spec fn algorithm_param(text: Option<Seq<char>>) -> Option<Algorithm> {
    match text {
        None => Some(Algorithm::Sha1),
        Some(t) => Algorithm::from_name(t),
    }
}

/// The number of digits that an optional `digits` parameter gives: six when it is absent.
pub open spec fn digits_param(text: Option<Seq<char>>) -> Option<u8> {
    match text {
        None => Some(digits::DEFAULT),
        Some(t) => match digits::parse_spec(t) {
            Ok(v) => Some(v),
            Err(_) => None,
        },
    }
}

/// The base configuration that the query pairs describe, if they describe one.
pub open spec fn base_spec(q: Seq<(Seq<char>, Seq<char>)>) -> Option<(Seq<u8>, Algorithm, u8)> {
    match lookup(q, SECRET@) {
        None => None,
        Some(text) => match decode_spec(text) {
            Err(_) => None,
            Ok(bytes) => match algorithm_param(lookup(q, ALGORITHM@)) {
                None => None,
                Some(a) => match digits_param(lookup(q, DIGITS@)) {
                    None => None,
                    Some(d) => Some((bytes, a, d)),
                },
            },
        },
    }
}

/// Whether `e` is the error that extracting a base configuration from the query pairs gives:
/// the secret is missing, else it does not decode (with the decoding error), else the
/// algorithm is unknown (holding its text), else the number of digits is not valid (holding
/// its text and the reason).
pub open spec fn error_matches(q: Seq<(Seq<char>, Seq<char>)>, e: Error) -> bool {
    match lookup(q, SECRET@) {
        None => e.source is SecretNotFound,
        Some(text) => match decode_spec(text) {
            Err(Ok(len)) => e.source is Secret && e.source->Secret_0.source
                == value::ErrorSource::Length(length::Error { length: len }),
            Err(Err(t)) => e.source is Secret && e.source->Secret_0.source is Encoding
                && e.source->Secret_0.source->Encoding_0.secret@ == t,
            Ok(_) => match algorithm_param(lookup(q, ALGORITHM@)) {
                None => e.source is Algorithm && e.source->Algorithm_0.unknown@ == lookup(
                    q,
                    ALGORITHM@,
                )->Some_0,
                Some(_) => {
                    let t = lookup(q, DIGITS@)->Some_0;
                    &&& e.source is Digits
                    &&& e.source->Digits_0.string@ == t
                    &&& match digits::parse_spec(t) {
                        Err(Ok(v)) => e.source->Digits_0.source == digits::ParseErrorSource::Digits(
                            digits::Error { value: v },
                        ),
                        Err(Err(kind)) => e.source->Digits_0.source
                            == digits::ParseErrorSource::Int(integer::wrap_spec(kind)),
                        Ok(_) => true,
                    }
                },
            },
        },
    }
}

/// The query pairs that describe the base configuration `v`.
pub open spec fn base_pairs(v: (Seq<u8>, Algorithm, u8)) -> Seq<(Seq<char>, Seq<char>)> {
    seq![
        (SECRET@, base32_encoded(v.0)),
        (ALGORITHM@, v.1.name()),
        (DIGITS@, decimal(v.2 as nat)),
    ]
}

impl Base {
    /// Applies the base configuration to the given URL: `secret`, `algorithm` and `digits`.
    pub fn query_for(&self, url: &mut Url)
        ensures
            final(url).scheme@ == old(url).scheme@,
            option_view(final(url).host) == option_view(old(url).host),
            final(url).path@ == old(url).path@,
            final(url).parts().3 == old(url).parts().3 + base_pairs(self@),
            base32_decoded(base32_encoded(self.secret@)) == Some(self.secret@),
    {
        let secret = self.secret.encode();
        let algorithm = self.algorithm.static_str();
        let digits = self.digits.to_string();
        let ghost before = old(url).parts().3;
        url.append_pair(SECRET, secret.as_str());
        url.append_pair(ALGORITHM, algorithm);
        url.append_pair(DIGITS, digits.as_str());
        assert(url.parts().3 =~= before + base_pairs(self@));
    }

    /// Extracts [`Self`] from the given URL query, removing `secret`, `algorithm` and `digits`
    /// from it.
    ///
    /// # Errors
    ///
    /// Returns [`struct@Error`] if the secret is missing or is not valid, or if the algorithm
    /// or the number of digits is present and not valid.
    pub fn extract_from(query: &mut Query) -> (r: Result<Self, Error>)
        ensures
            match base_spec(old(query)@) {
                Some(v) => r is Ok && r->Ok_0@ == v,
                None => r is Err,
            },
            base_spec(old(query)@) is None ==> r is Err && error_matches(old(query)@, r->Err_0),
            final(query).get_spec(SECRET@) is None,
            final(query).get_spec(ALGORITHM@) is None,
            final(query).get_spec(DIGITS@) is None,
            forall|other: Seq<char>|
                other != SECRET@ && other != ALGORITHM@ && other != DIGITS@
                    ==> #[trigger] final(query).get_spec(other) == old(query).get_spec(other),
    {
        proof {
            reveal_strlit("secret");
            reveal_strlit("algorithm");
            reveal_strlit("digits");
            assert(SECRET@[0] != DIGITS@[0]);
            assert(SECRET@.len() != ALGORITHM@.len());
            assert(DIGITS@.len() != ALGORITHM@.len());
        }
        let secret_text = query.remove(SECRET);
        let algorithm_text = query.remove(ALGORITHM);
        let digits_text = query.remove(DIGITS);
        let secret = match secret_text {
            None => return Err(Error::new_secret_not_found()),
            Some(text) => match Secret::decode(text.as_str()) {
                Ok(secret) => secret,
                Err(error) => return Err(Error::secret(error)),
            },
        };
        let algorithm = match algorithm_text {
            None => Algorithm::Sha1,
            Some(text) => match Algorithm::parse(text.as_str()) {
                Ok(algorithm) => algorithm,
                Err(error) => return Err(Error::algorithm(error)),
            },
        };
        let digits = match digits_text {
            None => Digits::default(),
            Some(text) => match Digits::parse(text.as_str()) {
                Ok(digits) => digits,
                Err(error) => return Err(Error::digits(error)),
            },
        };
        Ok(Self::new(secret, algorithm, digits))
    }
}

} // verus!
