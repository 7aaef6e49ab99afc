//! URL functionality.
//!
//! [`Url`] holds, as plain values, the parts of a URL that OTP URLs are made of; the `url`
//! crate parses the text, and the `urlencoding` crate percent-encodes and decodes.
use crate::auth::label::{label_text, Label, SLASH};
use crate::auth::query::pairs_view;
use crate::auth::scheme::{scheme, scheme_spec};
use crate::otp::Type;
use crate::auth::utf8;
use std::string::FromUtf8Error;
use vstd::prelude::*;

verus! {

/// The parts of a URL as plain values: scheme, host, path and the decoded query pairs.
pub type UrlParts = (Seq<char>, Option<Seq<char>>, Seq<char>, Seq<(Seq<char>, Seq<char>)>);

/// The parts of the URL that `url::Url::parse` reads from the text, if the text is a URL.
pub uninterp spec fn url_parsed(text: Seq<char>) -> Option<UrlParts>;

/// The text of the URL that `url::Url::parse_with_params` builds from `scheme://host` followed
/// by the path and the query pairs, if the url crate accepts it.
pub uninterp spec fn url_serialized(parts: UrlParts) -> Option<Seq<char>>;

/// The percent-encoded form of the text.
pub uninterp spec fn percent_encoded(text: Seq<char>) -> Seq<char>;

/// The text that percent-decoding yields, if the decoded bytes are UTF-8.
pub uninterp spec fn percent_decoded(text: Seq<char>) -> Option<Seq<char>>;

/// Percent-encodes the text.
///
/// Relies on `urlencoding::encode`, which encodes each UTF-8 byte other than alphanumerics and
/// `-`, `_`, `.`, `~` as `%XX` (so no `/` is left); `urlencoding::decode` turns the result back
/// into the text.
#[verifier::external_body]
pub(crate) fn percent_encode(text: &str) -> (r: String)
    ensures
        r@ == percent_encoded(text@),
        percent_decoded(r@) == Some(text@),
        !r@.contains('/'),
{
    urlencoding::encode(text).into_owned()
}

/// Percent-decodes the text.
///
/// Relies on `urlencoding::decode`, which fails when the decoded bytes are not UTF-8.
#[verifier::external_body]
pub(crate) fn percent_decode(text: &str) -> (r: Result<String, FromUtf8Error>)
    ensures
        match percent_decoded(text@) {
            Some(decoded) => r is Ok && r->Ok_0@ == decoded,
            None => r is Err,
        },
{
    urlencoding::decode(text).map(|decoded| decoded.into_owned())
}

/// Represents URLs by their parts.
pub struct Url {
    /// The scheme.
    pub scheme: String,
    /// The host, if any.
    pub host: Option<String>,
    /// The path, percent-encoded.
    pub path: String,
    /// The query pairs, decoded, in order.
    pub query: Vec<(String, String)>,
}

/// The plain-value form of an optional string.
pub open spec fn option_view(o: Option<String>) -> Option<Seq<char>> {
    match o {
        Some(s) => Some(s@),
        None => None,
    }
}

impl Url {
    /// The parts of the URL as plain values.
    pub open spec fn parts(&self) -> UrlParts {
        (self.scheme@, option_view(self.host), self.path@, pairs_view(self.query@))
    }

    /// Appends a query pair.
    pub fn append_pair(&mut self, key: &str, value: &str)
        ensures
            final(self).scheme@ == old(self).scheme@,
            option_view(final(self).host) == option_view(old(self).host),
            final(self).path@ == old(self).path@,
            pairs_view(final(self).query@) == pairs_view(old(self).query@).push((key@, value@)),
    {
        let ghost before = self.query@;
        self.query.push((key.to_owned(), value.to_owned()));
        assert(pairs_view(self.query@) =~= pairs_view(before).push((key@, value@)));
    }

    /// Serializes the URL through the url crate: `scheme://host/path?key=value&...`, with the
    /// query form-encoded; [`None`] if the url crate does not accept the parts.
    pub fn to_string(&self) -> (r: Option<String>)
        ensures
            match url_serialized(self.parts()) {
                Some(text) => r is Some && r->Some_0@ == text,
                None => r is None,
            },
    {
        serialize_parts(self)
    }
}

/// Relies on `url::Url::parse_with_params`, given `scheme://host` and the path as text and the
/// query pairs, and on the serialization of the `Url` it returns.
#[verifier::external_body]
fn serialize_parts(url: &Url) -> (r: Option<String>)
    ensures
        match url_serialized(url.parts()) {
            Some(text) => r is Some && r->Some_0@ == text,
            None => r is None,
        },
{
    let base = format!("{}://{}{}", url.scheme, url.host.as_deref().unwrap_or(""), url.path);
    ::url::Url::parse_with_params(&base, url.query.iter()).ok().map(|parsed| parsed.to_string())
}

/// Represents errors returned when the text is not a URL.
#[derive(Debug)]
pub struct Error {
    /// What the URL parser reported.
    pub message: String,
}

/// Relies on `url::Url::parse`, whose error is kept as its message, and reads the parts through `Url::scheme`, `Url::host_str`,
/// `Url::path` and `Url::query_pairs`.
#[verifier::external_body]
fn parse_parts(string: &str) -> (r: Result<Url, String>)
    ensures
        match url_parsed(string@) {
            Some(parts) => r is Ok && r->Ok_0.parts() == parts,
            None => r is Err,
        },
{
    ::url::Url::parse(string).map(|url| Url {
        scheme: url.scheme().to_owned(),
        host: url.host_str().map(|host| host.to_owned()),
        path: url.path().to_owned(),
        query: url.query_pairs().map(|(key, value)| (key.into_owned(), value.into_owned())).collect(),
    }).map_err(|error| error.to_string())
}

/// Parses the given string into [`Url`].
///
/// # Errors
///
/// Returns [`struct@Error`] when the string can not be parsed into URL.
pub fn parse(string: &str) -> (r: Result<Url, Error>)
    ensures
        match url_parsed(string@) {
            Some(parts) => r is Ok && r->Ok_0.parts() == parts,
            None => r is Err,
        },
{
    match parse_parts(string) {
        Ok(url) => Ok(url),
        Err(message) => Err(Error { message }),
    }
}

/// Returns the base OTP URL for the given type and label: `otpauth://type/label`, with the
/// label percent-encoded, and no query.
pub fn base(type_of: Type, label: &Label) -> (r: Url)
    ensures
        r.parts() == (
            scheme_spec(),
            Some(type_of.name()),
            seq!['/'] + percent_encoded(label_text(label@)),
            Seq::<(Seq<char>, Seq<char>)>::empty(),
        ),
        percent_decoded(percent_encoded(label_text(label@))) == Some(label_text(label@)),
        !percent_encoded(label_text(label@)).contains('/'),
{
    let mut path = String::new();
    proof {
        reveal_strlit("/");
    }
    path.append(SLASH);
    let encoded = label.encode();
    path.append(encoded.as_str());
    let r = Url {
        scheme: scheme().to_owned(),
        host: Some(type_of.static_str().to_owned()),
        path,
        query: Vec::new(),
    };
    assert(r.path@ =~= seq!['/'] + percent_encoded(label_text(label@)));
    assert(pairs_view(r.query@) =~= Seq::<(Seq<char>, Seq<char>)>::empty());
    r
}

/// Wraps the error of percent-decoding.
pub(crate) fn utf8_error(error: FromUtf8Error) -> (r: utf8::Error) {
    utf8::Error(error)
}

} // verus!
