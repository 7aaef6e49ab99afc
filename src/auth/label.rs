//! Authentication labels: `issuer:user` or `user`.
use crate::auth::part::{self, valid, Part, SEPARATOR};
use crate::auth::query::Query;
use crate::auth::url::{
    option_view, percent_decode, percent_decoded, percent_encode, percent_encoded, utf8_error, Url,
};
use crate::auth::utf8;
use crate::text::{find_char, substring};
use vstd::prelude::*;

verus! {

/// The `issuer` literal.
pub const ISSUER: &'static str = "issuer";

/// The `/` literal.
pub const SLASH: &'static str = "/";

/// Whether `i` is the position of the first separator in `s`.
pub open spec fn is_first_separator(s: Seq<char>, i: int) -> bool {
    0 <= i < s.len() && s[i] == ':' && forall|j: int| 0 <= j < i ==> s[j] != ':'
}

/// The text split at its first separator: the issuer (if there is a separator) and the user.
pub open spec fn split_spec(s: Seq<char>) -> (Option<Seq<char>>, Seq<char>) {
    if s.contains(':') {
        let i = choose|i: int| is_first_separator(s, i);
        (Some(s.take(i)), s.skip(i + 1))
    } else {
        (None, s)
    }
}

/// Whether the text is a label: both parts of its split are valid.
pub open spec fn parses(s: Seq<char>) -> bool {
    let (issuer, user) = split_spec(s);
    s.len() > 0 && valid(user) && match issuer {
        Some(i) => valid(i),
        None => true,
    }
}

/// The text of a label with the given issuer and user.
pub open spec fn label_text(label: (Option<Seq<char>>, Seq<char>)) -> Seq<char> {
    match label.0 {
        Some(issuer) => issuer + seq![':'] + label.1,
        None => label.1,
    }
}

/// The text with its leading slashes removed.
pub open spec fn trim_slashes(s: Seq<char>) -> Seq<char>
    decreases s.len(),
{
    if s.len() > 0 && s[0] == '/' {
        trim_slashes(s.drop_first())
    } else {
        s
    }
}

/// The plain-value form of an optional part.
pub open spec fn part_view(p: Option<Part>) -> Option<Seq<char>> {
    match p {
        Some(part) => Some(part@),
        None => None,
    }
}

/// The issuer that the label and the query agree on, if they do not contradict each other.
pub open spec fn matched(label: Option<Seq<char>>, query: Option<Seq<char>>) -> Option<
    Option<Seq<char>>,
> {
    match (label, query) {
        (Some(l), Some(q)) => if l == q {
            Some(Some(l))
        } else {
            None
        },
        (Some(l), None) => Some(Some(l)),
        (None, q) => Some(q),
    }
}

/// The text of a label splits back into its issuer and user.
pub proof fn lemma_split_label_text(label: (Option<Seq<char>>, Seq<char>))
    requires
        valid(label.1),
        label.0 is Some ==> valid(label.0->Some_0),
    ensures
        split_spec(label_text(label)) == label,
        parses(label_text(label)),
{
    let s = label_text(label);
    match label.0 {
        Some(issuer) => {
            let n = issuer.len() as int;
            assert(s[n] == ':');
            assert forall|j: int| 0 <= j < n implies s[j] != ':' by {
                assert(s[j] == issuer[j]);
                assert(!issuer.contains(':'));
            }
            assert(is_first_separator(s, n));
            assert(s.contains(':'));
            let i = choose|i: int| is_first_separator(s, i);
            if i < n {
                assert(s[i] == issuer[i]);
            }
            if i > n {
                assert(s[n] != ':');
            }
            assert(i == n);
            assert(s.take(n) =~= issuer);
            assert(s.skip(n + 1) =~= label.1);
        },
        None => {},
    }
}

/// Represents errors that occur when the label is empty.
#[derive(Debug)]
pub struct EmptyError;

/// Represents sources of errors that can occur when parsing labels.
#[derive(Debug)]
pub enum ParseErrorSource {
    /// The label is empty.
    Empty(EmptyError),
    /// The label part is invalid.
    Part(part::Error),
}

/// Represents errors that occur when parsing labels.
#[derive(Debug)]
pub struct ParseError {
    /// The source of this error.
    pub source: ParseErrorSource,
}

impl ParseError {
    /// Constructs [`Self`].
    pub fn new(source: ParseErrorSource) -> (r: Self)
        ensures
            r.source == source,
    {
        Self { source }
    }

    /// Constructs [`Self`] from [`EmptyError`].
    pub fn empty(error: EmptyError) -> (r: Self)
        ensures
            r.source is Empty,
    {
        Self::new(ParseErrorSource::Empty(error))
    }

    /// Constructs [`Self`] from [`part::Error`].
    pub fn part(error: part::Error) -> (r: Self)
        ensures
            r.source == ParseErrorSource::Part(error),
    {
        Self::new(ParseErrorSource::Part(error))
    }

    /// Constructs [`EmptyError`] and constructs [`Self`] from it.
    pub fn new_empty() -> (r: Self)
        ensures
            r.source is Empty,
    {
        Self::empty(EmptyError)
    }
}

/// Represents authentication labels.
#[derive(Debug, Clone, PartialEq, Eq, Hash)]
pub struct Label {
    /// The authentication issuer.
    pub issuer: Option<Part>,
    /// The authentication user.
    pub user: Part,
}

/// Represents owned [`Label`].
pub type Owned = Label;

/// Represents `(issuer, user)` parts of the label.
pub type Parts = (Option<Part>, Part);

impl View for Label {
    type V = (Option<Seq<char>>, Seq<char>);

    open spec fn view(&self) -> (Option<Seq<char>>, Seq<char>) {
        (part_view(self.issuer), self.user@)
    }
}

impl std::str::FromStr for Label {
    type Err = ParseError;

    fn from_str(string: &str) -> (r: Result<Self, Self::Err>)
        ensures
            string@.len() == 0 ==> r is Err && r->Err_0.source is Empty,
            string@.len() > 0 && parses(string@) ==> r is Ok && r->Ok_0@ == split_spec(string@),
            string@.len() > 0 && !parses(string@) ==> r is Err && r->Err_0.source is Part,
    {
        Label::parse(string)
    }
}

/// Represents sources of errors that can occur when decoding labels.
#[derive(Debug)]
pub enum DecodeErrorSource {
    /// The label is not valid UTF-8.
    Utf8(utf8::Error),
    /// The label is otherwise not valid.
    Parse(ParseError),
}

/// Represents errors that occur when decoding labels.
#[derive(Debug)]
pub struct DecodeError {
    /// The source of this error.
    pub source: DecodeErrorSource,
}

impl DecodeError {
    /// Constructs [`Self`].
    pub fn new(source: DecodeErrorSource) -> (r: Self)
        ensures
            r.source == source,
    {
        Self { source }
    }

    /// Constructs [`Self`] from [`utf8::Error`].
    pub fn utf8(error: utf8::Error) -> (r: Self)
        ensures
            r.source is Utf8,
    {
        Self::new(DecodeErrorSource::Utf8(error))
    }

    /// Constructs [`Self`] from [`ParseError`].
    pub fn label(error: ParseError) -> (r: Self)
        ensures
            r.source == DecodeErrorSource::Parse(error),
    {
        Self::new(DecodeErrorSource::Parse(error))
    }
}

/// Represents errors that can occur on issuer mismatch.
#[derive(Debug)]
pub struct MismatchError {
    /// The label issuer.
    pub label: String,
    /// The query issuer.
    pub query: String,
}

impl MismatchError {
    /// Constructs [`Self`].
    pub fn new(label: String, query: String) -> (r: Self)
        ensures
            r.label@ == label@,
            r.query@ == query@,
    {
        Self { label, query }
    }
}

/// Checks whether the label issuer and the query issuer match, provided both are present.
///
/// This function returns either the label issuer or the query issuer.
///
/// # Errors
///
/// Returns [`MismatchError`] if both issuers are present and do not match.
pub fn try_match(label_issuer: Option<Part>, query_issuer: Option<Part>) -> (r: Result<
    Option<Part>,
    MismatchError,
>)
    ensures
        match matched(part_view(label_issuer), part_view(query_issuer)) {
            Some(issuer) => r is Ok && part_view(r->Ok_0) == issuer,
            None => r is Err && r->Err_0.label@ == label_issuer->Some_0@ && r->Err_0.query@
                == query_issuer->Some_0@,
        },
{
    match label_issuer {
        Some(label) => match query_issuer {
            Some(query) => {
                if crate::text::str_eq(label.as_str(), query.as_str()) {
                    Ok(Some(label))
                } else {
                    Err(MismatchError::new(label.get(), query.get()))
                }
            },
            None => Ok(Some(label)),
        },
        None => Ok(query_issuer),
    }
}

/// Represents sources of errors that can occur when extracting labels.
#[derive(Debug)]
pub enum ErrorSource {
    /// The label could not be decoded.
    Decode(DecodeError),
    /// The issuer could not be decoded.
    Issuer(part::DecodeError),
    /// The label and query issuers do not match.
    Mismatch(MismatchError),
}

/// Represents errors that can occur when extracting labels.
#[derive(Debug)]
pub struct Error {
    /// The source of this error.
    pub source: ErrorSource,
}

impl Error {
    /// Constructs [`Self`].
    pub fn new(source: ErrorSource) -> (r: Self)
        ensures
            r.source == source,
    {
        Self { source }
    }

    /// Constructs [`Self`] from [`DecodeError`].
    pub fn decode(error: DecodeError) -> (r: Self)
        ensures
            r.source == ErrorSource::Decode(error),
    {
        Self::new(ErrorSource::Decode(error))
    }

    /// Constructs [`Self`] from [`MismatchError`].
    pub fn mismatch(error: MismatchError) -> (r: Self)
        ensures
            r.source == ErrorSource::Mismatch(error),
    {
        Self::new(ErrorSource::Mismatch(error))
    }

    /// Constructs [`Self`] from [`part::DecodeError`].
    pub fn issuer(error: part::DecodeError) -> (r: Self)
        ensures
            r.source == ErrorSource::Issuer(error),
    {
        Self::new(ErrorSource::Issuer(error))
    }
}

/// What extracting a label from a URL path and the value of its `issuer` query parameter
/// gives, as plain values: `None` where it fails.
pub open spec fn extract_spec(path: Seq<char>, query_issuer: Option<Seq<char>>) -> Option<
    (Option<Seq<char>>, Seq<char>),
> {
    match percent_decoded(trim_slashes(path)) {
        None => None,
        Some(text) => if !parses(text) {
            None
        } else {
            let (label_issuer, user) = split_spec(text);
            let decoded_issuer = match query_issuer {
                Some(q) => match percent_decoded(q) {
                    Some(d) => if valid(d) {
                        Some(Some(d))
                    } else {
                        None
                    },
                    None => None,
                },
                None => Some(None),
            };
            match decoded_issuer {
                None => None,
                Some(qi) => match matched(label_issuer, qi) {
                    Some(issuer) => Some((issuer, user)),
                    None => None,
                },
            }
        },
    }
}

/// Whether the URL path decodes to a label.
pub open spec fn decodes_to_label(path: Seq<char>) -> bool {
    match percent_decoded(trim_slashes(path)) {
        Some(text) => parses(text),
        None => false,
    }
}

/// Whether the value of the `issuer` query parameter, if there is one, decodes to a part.
pub open spec fn issuer_decodes(query_issuer: Option<Seq<char>>) -> bool {
    match query_issuer {
        Some(q) => match percent_decoded(q) {
            Some(d) => valid(d),
            None => false,
        },
        None => true,
    }
}

/// The issuer written in the label of a URL path that decodes to a label.
pub open spec fn path_issuer(path: Seq<char>) -> Option<Seq<char>> {
    split_spec(percent_decoded(trim_slashes(path))->Some_0).0
}

/// Whether `e` is the error that extracting a label from the URL path and the value of the
/// `issuer` query parameter gives: the path does not decode to a label, else the query issuer
/// does not decode to a part, else the two issuers differ, and the error holds both.
pub open spec fn extract_error_matches(
    path: Seq<char>,
    query_issuer: Option<Seq<char>>,
    e: Error,
) -> bool {
    if !decodes_to_label(path) {
        e.source is Decode
    } else if !issuer_decodes(query_issuer) {
        e.source is Issuer
    } else {
        &&& e.source is Mismatch
        &&& e.source->Mismatch_0.label@ == path_issuer(path)->Some_0
        &&& e.source->Mismatch_0.query@ == percent_decoded(query_issuer->Some_0)->Some_0
    }
}

/// Removes the leading slashes of the text.
fn trim_leading_slashes(s: &str) -> (r: String)
    ensures
        r@ == trim_slashes(s@),
{
    let n = s.unicode_len();
    let mut i: usize = 0;
    assert(s@.skip(0) =~= s@);
    while i < n && s.get_char(i) == '/'
        invariant
            n == s@.len(),
            i <= n,
            trim_slashes(s@) == trim_slashes(s@.skip(i as int)),
        decreases n - i,
    {
        assert(s@.skip(i as int).drop_first() =~= s@.skip(i as int + 1));
        i = i + 1;
    }
    assert(trim_slashes(s@.skip(i as int)) == s@.skip(i as int));
    substring(s, i, n)
}

impl Label {
    /// Constructs [`Self`] from parts.
    pub fn from_parts(parts: Parts) -> (r: Self)
        ensures
            r.issuer == parts.0,
            r.user == parts.1,
    {
        let (issuer, user) = parts;
        Self { issuer, user }
    }

    /// Consumes [`Self`], returning the contained parts.
    pub fn into_parts(self) -> (r: Parts)
        ensures
            r.0 == self.issuer,
            r.1 == self.user,
    {
        (self.issuer, self.user)
    }

    /// Formats the label as `issuer:user`, or as `user` without an issuer.
    pub fn to_string(&self) -> (r: String)
        ensures
            r@ == label_text(self@),
    {
        match &self.issuer {
            Some(issuer) => {
                let mut out = issuer.as_str().to_owned();
                proof {
                    reveal_strlit(":");
                }
                out.append(SEPARATOR);
                out.append(self.user.as_str());
                assert(out@ =~= label_text(self@));
                out
            },
            None => self.user.as_str().to_owned(),
        }
    }

    /// Parses the label from its text.
    ///
    /// # Errors
    ///
    /// Returns [`ParseError`] if the text is empty, or if its issuer or user is not a valid
    /// part.
    pub fn parse(string: &str) -> (r: Result<Self, ParseError>)
        ensures
            string@.len() == 0 ==> r is Err && r->Err_0.source is Empty,
            string@.len() > 0 && parses(string@) ==> r is Ok && r->Ok_0@ == split_spec(string@),
            string@.len() > 0 && !parses(string@) ==> r is Err && r->Err_0.source is Part,
    {
        let n = string.unicode_len();
        if n == 0 {
            return Err(ParseError::new_empty());
        }
        match find_char(string, ':') {
            Some(i) => {
                proof {
                    assert(is_first_separator(string@, i as int));
                    assert(string@.contains(':'));
                    let k = choose|k: int| is_first_separator(string@, k);
                    if k < i {
                        assert(string@[k] != ':');
                    }
                    if k > i {
                        assert(string@[i as int] != ':');
                    }
                }
                let issuer_string = substring(string, 0, i);
                let user_string = substring(string, i + 1, n);
                assert(issuer_string@ =~= string@.take(i as int));
                assert(user_string@ =~= string@.skip(i as int + 1));
                let issuer = match Part::owned(issuer_string) {
                    Ok(part) => part,
                    Err(error) => return Err(ParseError::part(error)),
                };
                let user = match Part::owned(user_string) {
                    Ok(part) => part,
                    Err(error) => return Err(ParseError::part(error)),
                };
                Ok(Self { issuer: Some(issuer), user })
            },
            None => {
                let user = match Part::owned(string.to_owned()) {
                    Ok(part) => part,
                    Err(error) => return Err(ParseError::part(error)),
                };
                Ok(Self { issuer: None, user })
            },
        }
    }

    /// Decodes the label from the given percent-encoded string.
    ///
    /// # Errors
    ///
    /// Returns [`DecodeError`] if the label could not be decoded.
    pub fn decode(string: &str) -> (r: Result<Self, DecodeError>)
        ensures
            match percent_decoded(string@) {
                None => r is Err && r->Err_0.source is Utf8,
                Some(text) => if parses(text) {
                    r is Ok && r->Ok_0@ == split_spec(text)
                } else {
                    r is Err && r->Err_0.source is Parse
                },
            },
    {
        match percent_decode(string) {
            Ok(decoded) => match Self::parse(decoded.as_str()) {
                Ok(label) => Ok(label),
                Err(error) => Err(DecodeError::label(error)),
            },
            Err(error) => Err(DecodeError::utf8(utf8_error(error))),
        }
    }

    /// Percent-encodes the label text.
    pub fn encode(&self) -> (r: String)
        ensures
            r@ == percent_encoded(label_text(self@)),
            percent_decoded(r@) == Some(label_text(self@)),
            !r@.contains('/'),
    {
        let text = self.to_string();
        percent_encode(text.as_str())
    }

    /// Applies the label to the given URL: the issuer, if any, goes into the query,
    /// percent-encoded.
    pub fn query_for(&self, url: &mut Url)
        ensures
            final(url).scheme@ == old(url).scheme@,
            option_view(final(url).host) == option_view(old(url).host),
            final(url).path@ == old(url).path@,
            match self.issuer {
                Some(issuer) => final(url).parts().3 == old(url).parts().3.push(
                    (ISSUER@, percent_encoded(issuer@)),
                ),
                None => final(url).parts().3 == old(url).parts().3,
            },
            self.issuer is Some ==> percent_decoded(percent_encoded(self.issuer->Some_0@)) == Some(
                self.issuer->Some_0@,
            ),
    {
        match &self.issuer {
            Some(issuer) => {
                let value = issuer.encode();
                url.append_pair(ISSUER, value.as_str());
            },
            None => {},
        }
    }

    /// Extracts [`Self`] from the given query and URL: the label from the path, reconciled
    /// with the `issuer` query parameter, which is removed from the query.
    ///
    /// # Errors
    ///
    /// Returns [`struct@Error`] if the path is not a label, if the query issuer is not a
    /// part, or if both issuers are present and differ.
    pub fn extract_from(query: &mut Query, url: &Url) -> (r: Result<Self, Error>)
        ensures
            match extract_spec(url.path@, old(query).get_spec(ISSUER@)) {
                Some(label) => r is Ok && r->Ok_0@ == label,
                None => r is Err,
            },
            extract_spec(url.path@, old(query).get_spec(ISSUER@)) is None ==> r is Err
                && extract_error_matches(url.path@, old(query).get_spec(ISSUER@), r->Err_0),
            final(query).get_spec(ISSUER@) is None,
            forall|other: Seq<char>|
                other != ISSUER@ ==> #[trigger] final(query).get_spec(other) == old(
                    query,
                ).get_spec(other),
    {
        let path = trim_leading_slashes(url.path.as_str());
        let decoded = Self::decode(path.as_str());
        let query_issuer_text = query.remove(ISSUER);
        let label = match decoded {
            Ok(label) => label,
            Err(error) => return Err(Error::decode(error)),
        };
        let (label_issuer, user) = label.into_parts();
        let query_issuer = match query_issuer_text {
            Some(text) => match Part::decode(text.as_str()) {
                Ok(part) => Some(part),
                Err(error) => return Err(Error::issuer(error)),
            },
            None => None,
        };
        match try_match(label_issuer, query_issuer) {
            Ok(issuer) => Ok(Self::from_parts((issuer, user))),
            Err(error) => Err(Error::mismatch(error)),
        }
    }

    /// Converts [`Self`] into [`Owned`].
    pub fn into_owned(self) -> (r: Owned)
        ensures
            r == self,
    {
        self
    }
}

} // verus!
