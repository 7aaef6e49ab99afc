//! OTP authentication: an OTP configuration with its label, read from and written to
//! `otpauth://` URLs.
use crate::auth::label::{
    self, extract_error_matches, extract_spec, label_text, lemma_split_label_text, matched,
    trim_slashes, Label, ISSUER,
};
use crate::auth::part::valid;
use crate::auth::query::{lemma_lookup_push, lookup, Query};
use crate::auth::scheme::{self, scheme_spec};
use crate::auth::url::{self, base, percent_decoded, percent_encoded, url_parsed, Url, UrlParts};
use crate::algorithm::Algorithm;
use crate::base::{base_pairs, base_spec, ALGORITHM, DIGITS, SECRET};
use crate::digits;
use crate::hotp::{hotp_pairs, COUNTER};
use crate::otp::type_of;
use crate::otp::{self, otp_pairs, otp_spec, Otp, OtpView, Type};
use crate::secret::encoding::{base32_decoded, base32_encoded};
use crate::secret::value::decode_spec;
use crate::secret::length;
use crate::skew;
use crate::text::decimal;
use crate::totp::{totp_pairs, PERIOD};
use vstd::prelude::*;

verus! {

/// The plain-value form of an authentication: the OTP configuration and the label.
pub type AuthView = (OtpView, (Option<Seq<char>>, Seq<char>));

/// The authentication that a URL with the given parts describes, if it describes one.
pub open spec fn auth_spec(parts: UrlParts) -> Option<AuthView> {
    if parts.0 != scheme_spec() {
        None
    } else {
        match parts.1 {
            None => None,
            Some(host) => match Type::from_name(host) {
                None => None,
                Some(t) => match extract_spec(parts.2, lookup(parts.3, ISSUER@)) {
                    None => None,
                    Some(l) => match otp_spec(t, parts.3) {
                        None => None,
                        Some(o) => Some((o, l)),
                    },
                },
            },
        }
    }
}

/// The OTP type that the host of a URL with the given parts names, if any.
pub open spec fn host_type(parts: UrlParts) -> Option<Type> {
    match parts.1 {
        Some(host) => Type::from_name(host),
        None => None,
    }
}

/// The query pair that carries the issuer of the label, if it has one.
pub open spec fn issuer_pairs(label: (Option<Seq<char>>, Seq<char>)) -> Seq<
    (Seq<char>, Seq<char>),
> {
    match label.0 {
        Some(issuer) => seq![(ISSUER@, percent_encoded(issuer))],
        None => seq![],
    }
}

/// Represents OTP authentication.
#[derive(Debug, Clone, PartialEq, Eq, Hash)]
pub struct Auth {
    /// The OTP configuration.
    pub otp: Otp,
    /// The authentication label.
    pub label: Label,
}

/// Represents owned [`Auth`].
pub type Owned = Auth;

/// Represents `(otp, label)` parts of the authentication.
pub type Parts = (Otp, Label);

impl View for Auth {
    type V = AuthView;

    open spec fn view(&self) -> AuthView {
        (self.otp@, self.label@)
    }
}

/// Represents sources of errors that can occur when parsing OTP URLs.
#[derive(Debug)]
pub enum ErrorSource {
    /// URL could not be parsed.
    Url(url::Error),
    /// Unexpected scheme found.
    Scheme(scheme::Error),
    /// OTP type extraction failed.
    TypeOf(type_of::Error),
    /// Label could not be extracted.
    Label(label::Error),
    /// OTP extraction failed.
    Otp(otp::Error),
}

/// Represents errors that can occur when parsing OTP URLs.
#[derive(Debug)]
pub struct Error {
    /// The source of this error.
    pub source: ErrorSource,
    /// The string that could not be parsed.
    pub string: String,
}

impl Error {
    /// Constructs [`Self`].
    pub fn new(source: ErrorSource, string: String) -> (r: Self)
        ensures
            r.source == source,
            r.string@ == string@,
    {
        Self { source, string }
    }

    /// Constructs [`Self`] from [`url::Error`].
    pub fn parse(error: url::Error, string: String) -> (r: Self)
        ensures
            r.source == ErrorSource::Url(error),
            r.string@ == string@,
    {
        Self::new(ErrorSource::Url(error), string)
    }

    /// Constructs [`Self`] from [`scheme::Error`].
    pub fn scheme(error: scheme::Error, string: String) -> (r: Self)
        ensures
            r.source == ErrorSource::Scheme(error),
            r.string@ == string@,
    {
        Self::new(ErrorSource::Scheme(error), string)
    }

    /// Constructs [`Self`] from [`type_of::Error`].
    pub fn type_of(error: type_of::Error, string: String) -> (r: Self)
        ensures
            r.source == ErrorSource::TypeOf(error),
            r.string@ == string@,
    {
        Self::new(ErrorSource::TypeOf(error), string)
    }

    /// Constructs [`Self`] from [`label::Error`].
    pub fn label(error: label::Error, string: String) -> (r: Self)
        ensures
            r.source == ErrorSource::Label(error),
            r.string@ == string@,
    {
        Self::new(ErrorSource::Label(error), string)
    }

    /// Constructs [`Self`] from [`otp::Error`].
    pub fn otp(error: otp::Error, string: String) -> (r: Self)
        ensures
            r.source == ErrorSource::Otp(error),
            r.string@ == string@,
    {
        Self::new(ErrorSource::Otp(error), string)
    }
}

/// The facts about the codecs and the values of an authentication that reading its URL back
/// depends on.
pub open spec fn readable(auth: Auth) -> bool {
    let l = auth.label@;
    let b = match auth.otp {
        Otp::Hotp(h) => h.base,
        Otp::Totp(t) => t.base,
    };
    &&& percent_decoded(percent_encoded(label_text(l))) == Some(label_text(l))
    &&& !percent_encoded(label_text(l)).contains('/')
    &&& valid(l.1)
    &&& l.0 is Some ==> valid(l.0->Some_0) && percent_decoded(percent_encoded(l.0->Some_0)) == Some(
        l.0->Some_0,
    )
    &&& base32_decoded(base32_encoded(b.secret@)) == Some(b.secret@)
    &&& b.secret@.len() >= length::MIN
    &&& digits::valid(b.digits@ as nat)
    &&& auth.otp is Totp ==> auth.otp->Totp_0.period@ >= 1
}

proof fn lemma_type_name(t: Type)
    ensures
        Type::from_name(t.name()) == Some(t),
{
    assert(Type::Hotp.name()[0] != Type::Totp.name()[0]);
}

proof fn lemma_keys_distinct()
    ensures
        ISSUER@ != SECRET@,
        ISSUER@ != ALGORITHM@,
        ISSUER@ != DIGITS@,
        ISSUER@ != COUNTER@,
        ISSUER@ != PERIOD@,
        SECRET@ != ALGORITHM@,
        SECRET@ != DIGITS@,
        ALGORITHM@ != DIGITS@,
        COUNTER@ != SECRET@,
        COUNTER@ != ALGORITHM@,
        COUNTER@ != DIGITS@,
        PERIOD@ != SECRET@,
        PERIOD@ != ALGORITHM@,
        PERIOD@ != DIGITS@,
{
    reveal_strlit("issuer");
    reveal_strlit("secret");
    reveal_strlit("algorithm");
    reveal_strlit("digits");
    reveal_strlit("counter");
    reveal_strlit("period");
    assert(ISSUER@[0] != SECRET@[0]);
    assert(ISSUER@.len() != ALGORITHM@.len());
    assert(ISSUER@[0] != DIGITS@[0]);
    assert(ISSUER@.len() != COUNTER@.len());
    assert(ISSUER@[0] != PERIOD@[0]);
    assert(SECRET@.len() != ALGORITHM@.len());
    assert(SECRET@[0] != DIGITS@[0]);
    assert(ALGORITHM@.len() != DIGITS@.len());
    assert(COUNTER@.len() != SECRET@.len());
    assert(COUNTER@.len() != ALGORITHM@.len());
    assert(COUNTER@.len() != DIGITS@.len());
    assert(PERIOD@[0] != SECRET@[0]);
    assert(PERIOD@.len() != ALGORITHM@.len());
    assert(PERIOD@[0] != DIGITS@[0]);
}

/// What the base pairs, followed by one more pair and the issuer pair, hold for each key.
proof fn lemma_lookup_pairs(
    b: (Seq<u8>, Algorithm, u8),
    extra: (Seq<char>, Seq<char>),
    label: (Option<Seq<char>>, Seq<char>),
)
    requires
        extra.0 != ISSUER@,
        extra.0 != SECRET@,
        extra.0 != ALGORITHM@,
        extra.0 != DIGITS@,
    ensures
        ({
            let q = base_pairs(b).push(extra) + issuer_pairs(label);
            &&& lookup(q, SECRET@) == Some(base32_encoded(b.0))
            &&& lookup(q, ALGORITHM@) == Some(b.1.name())
            &&& lookup(q, DIGITS@) == Some(decimal(b.2 as nat))
            &&& lookup(q, extra.0) == Some(extra.1)
            &&& lookup(q, ISSUER@) == match label.0 {
                Some(i) => Some(percent_encoded(i)),
                None => None::<Seq<char>>,
            }
        }),
{
    lemma_keys_distinct();
    let none = Seq::<(Seq<char>, Seq<char>)>::empty();
    let with_secret = none.push((SECRET@, base32_encoded(b.0)));
    let with_algorithm = with_secret.push((ALGORITHM@, b.1.name()));
    let with_digits = with_algorithm.push((DIGITS@, decimal(b.2 as nat)));
    assert(base_pairs(b) =~= with_digits);
    let with_extra = with_digits.push(extra);
    let keys = seq![SECRET@, ALGORITHM@, DIGITS@, extra.0, ISSUER@];
    assert forall|i: int| 0 <= i < 5 implies lookup(with_extra, #[trigger] keys[i]) == (if i == 0 {
        Some(base32_encoded(b.0))
    } else if i == 1 {
        Some(b.1.name())
    } else if i == 2 {
        Some(decimal(b.2 as nat))
    } else if i == 3 {
        Some(extra.1)
    } else {
        None::<Seq<char>>
    }) by {
        let k = keys[i];
        lemma_lookup_push(with_digits, extra, k);
        lemma_lookup_push(with_algorithm, (DIGITS@, decimal(b.2 as nat)), k);
        lemma_lookup_push(with_secret, (ALGORITHM@, b.1.name()), k);
        lemma_lookup_push(none, (SECRET@, base32_encoded(b.0)), k);
    }
    assert(keys[0] == SECRET@);
    assert(keys[1] == ALGORITHM@);
    assert(keys[2] == DIGITS@);
    assert(keys[3] == extra.0);
    assert(keys[4] == ISSUER@);
    match label.0 {
        Some(i) => {
            let pair = (ISSUER@, percent_encoded(i));
            assert(with_extra + issuer_pairs(label) =~= with_extra.push(pair));
            lemma_lookup_push(with_extra, pair, SECRET@);
            lemma_lookup_push(with_extra, pair, ALGORITHM@);
            lemma_lookup_push(with_extra, pair, DIGITS@);
            lemma_lookup_push(with_extra, pair, extra.0);
            lemma_lookup_push(with_extra, pair, ISSUER@);
        },
        None => {
            assert(with_extra + issuer_pairs(label) =~= with_extra);
        },
    }
}

/// Reading the parts of the URL of an authentication gives the authentication back, where
/// the codecs round-trip and the skew is the one that URLs imply.
proof fn lemma_round_trip(auth: Auth)
    requires
        readable(auth),
        auth.otp is Totp ==> auth.otp->Totp_0.skew@ == skew::DEFAULT,
    ensures
        auth_spec(auth.url_parts_spec()) == Some(auth@),
{
    let l = auth.label@;
    let parts = auth.url_parts_spec();
    let t = auth.otp@.0;
    lemma_type_name(t);
    let enc = percent_encoded(label_text(l));
    let path = seq!['/'] + enc;
    assert(path.drop_first() =~= enc);
    if enc.len() > 0 {
        assert(enc[0] != '/');
    }
    assert(trim_slashes(path) == trim_slashes(enc));
    assert(trim_slashes(enc) == enc);
    lemma_split_label_text(l);
    lemma_keys_distinct();
    match auth.otp {
        Otp::Hotp(h) => {
            let extra = (COUNTER@, decimal(h.counter@ as nat));
            lemma_lookup_pairs(h.base@, extra, l);
            assert(otp_pairs(auth.otp) + issuer_pairs(l) == base_pairs(h.base@).push(extra)
                + issuer_pairs(l));
            crate::algorithm::lemma_parse_name(h.base.algorithm);
            crate::integer::lemma_parse_decimal(h.base.digits@ as nat, 255);
            crate::integer::lemma_parse_decimal(h.counter@ as nat, u64::MAX as nat);
        },
        Otp::Totp(tt) => {
            let extra = (PERIOD@, decimal(tt.period@ as nat));
            lemma_lookup_pairs(tt.base@, extra, l);
            assert(otp_pairs(auth.otp) + issuer_pairs(l) == base_pairs(tt.base@).push(extra)
                + issuer_pairs(l));
            crate::algorithm::lemma_parse_name(tt.base.algorithm);
            crate::integer::lemma_parse_decimal(tt.base.digits@ as nat, 255);
            crate::integer::lemma_parse_decimal(tt.period@ as nat, u64::MAX as nat);
        },
    }
}

impl Auth {
    /// The parts of the URL that describes this authentication.
    pub open spec fn url_parts_spec(&self) -> UrlParts {
        (
            scheme_spec(),
            Some(self.otp@.0.name()),
            seq!['/'] + percent_encoded(label_text(self.label@)),
            otp_pairs(self.otp) + issuer_pairs(self.label@),
        )
    }

    /// Whether the URL of this authentication describes it in full: the skew is the default
    /// one (URLs carry no skew), and the secret is long enough to be read back without opting
    /// into short secrets.
    pub open spec fn round_trips(&self) -> bool {
        &&& self.otp is Totp ==> self.otp->Totp_0.skew@ == skew::DEFAULT
        &&& self.otp.base_spec().secret@.len() >= length::MIN
    }

    /// Returns the OTP configuration reference.
    pub fn otp(&self) -> (r: &Otp)
        ensures
            *r == self.otp,
    {
        &self.otp
    }

    /// Returns the label reference.
    pub fn label(&self) -> (r: &Label)
        ensures
            *r == self.label,
    {
        &self.label
    }

    /// Constructs [`Self`] from parts.
    pub fn from_parts(parts: Parts) -> (r: Self)
        ensures
            r.otp == parts.0,
            r.label == parts.1,
    {
        let (otp, label) = parts;
        Self { otp, label }
    }

    /// Consumes [`Self`], returning the contained parts.
    pub fn into_parts(self) -> (r: Parts)
        ensures
            r.0 == self.otp,
            r.1 == self.label,
    {
        (self.otp, self.label)
    }

    /// Constructs the OTP URL base: `otpauth://type/label`.
    pub fn base_url(&self) -> (r: Url)
        ensures
            r.parts() == (
                scheme_spec(),
                Some(self.otp@.0.name()),
                seq!['/'] + percent_encoded(label_text(self.label@)),
                Seq::<(Seq<char>, Seq<char>)>::empty(),
            ),
            percent_decoded(percent_encoded(label_text(self.label@))) == Some(
                label_text(self.label@),
            ),
            !percent_encoded(label_text(self.label@)).contains('/'),
    {
        base(self.otp.type_of(), &self.label)
    }

    /// Applies the OTP configuration and the issuer to the given URL.
    pub fn query_for(&self, url: &mut Url)
        ensures
            final(url).scheme@ == old(url).scheme@,
            crate::auth::url::option_view(final(url).host) == crate::auth::url::option_view(
                old(url).host,
            ),
            final(url).path@ == old(url).path@,
            final(url).parts().3 == old(url).parts().3 + otp_pairs(self.otp) + issuer_pairs(
                self.label@,
            ),
    {
        self.otp.query_for(url);
        self.label.query_for(url);
        assert(url.parts().3 =~= old(url).parts().3 + otp_pairs(self.otp) + issuer_pairs(
            self.label@,
        ));
    }

    /// Builds the OTP URL, applying query parameters to the base URL.
    ///
    /// Reading the parts of the URL back gives this authentication, provided the URL
    /// describes it in full (see [`Auth::round_trips`]).
    ///
    /// The path holds the label as a single percent-encoded segment. A label that is `.` or
    /// `..` is a dot segment however it is encoded, and URL parsers remove such segments, so
    /// its text does not read back.
    pub fn build_url(&self) -> (r: Url)
        ensures
            r.parts() == self.url_parts_spec(),
            self.round_trips() ==> auth_spec(r.parts()) == Some(self@),
    {
        let mut url = self.base_url();
        let ghost empty = url.parts().3;
        self.otp.query_for(&mut url);
        self.label.query_for(&mut url);
        proof {
            assert(url.parts().3 =~= empty + otp_pairs(self.otp) + issuer_pairs(self.label@));
        }
        proof {
            use_type_invariant(&self.label.user);
        }
        match &self.label.issuer {
            Some(issuer) => proof {
                use_type_invariant(issuer);
            },
            None => {},
        }
        match &self.otp {
            Otp::Hotp(hotp) => proof {
                use_type_invariant(&hotp.base.digits);
            },
            Otp::Totp(totp) => proof {
                use_type_invariant(&totp.base.digits);
                use_type_invariant(&totp.period);
            },
        }
        proof {
            if self.round_trips() {
                lemma_round_trip(*self);
            }
        }
        url
    }

    /// Parses the OTP URL from the given string.
    ///
    /// # Errors
    ///
    /// Returns [`struct@Error`], holding the string, if the string is not a URL, if the scheme
    /// is not `otpauth`, if the host is not `hotp` or `totp`, if the label can not be
    /// extracted, or if the OTP configuration can not be extracted.
    pub fn parse_url(string: &str) -> (r: Result<Self, Error>)
        ensures
            match url_parsed(string@) {
                None => r is Err && r->Err_0.source is Url,
                Some(parts) => match auth_spec(parts) {
                    Some(v) => r is Ok && r->Ok_0@ == v,
                    None => r is Err,
                },
            },
            r is Err ==> r->Err_0.string@ == string@,
            url_parsed(string@) is Some && url_parsed(string@)->Some_0.0 != scheme_spec() ==> r is Err
                && r->Err_0.source is Scheme && r->Err_0.source->Scheme_0.scheme@ == url_parsed(
                string@,
            )->Some_0.0,
            url_parsed(string@) is Some && url_parsed(string@)->Some_0.0 == scheme_spec()
                && url_parsed(string@)->Some_0.1 is None ==> r is Err && r->Err_0.source is TypeOf
                && r->Err_0.source->TypeOf_0.source is NotFound,
            url_parsed(string@) is Some && url_parsed(string@)->Some_0.0 == scheme_spec()
                && url_parsed(string@)->Some_0.1 is Some && host_type(url_parsed(string@)->Some_0)
                is None ==> r is Err && r->Err_0.source is TypeOf
                && r->Err_0.source->TypeOf_0.source is Parse
                && r->Err_0.source->TypeOf_0.source->Parse_0.string@ == url_parsed(
                string@,
            )->Some_0.1->Some_0,
            url_parsed(string@) is Some && url_parsed(string@)->Some_0.0 == scheme_spec()
                && host_type(url_parsed(string@)->Some_0) is Some && extract_spec(
                url_parsed(string@)->Some_0.2,
                lookup(url_parsed(string@)->Some_0.3, ISSUER@),
            ) is None ==> r is Err && r->Err_0.source is Label && extract_error_matches(
                url_parsed(string@)->Some_0.2,
                lookup(url_parsed(string@)->Some_0.3, ISSUER@),
                r->Err_0.source->Label_0,
            ),
            url_parsed(string@) is Some && url_parsed(string@)->Some_0.0 == scheme_spec()
                && host_type(url_parsed(string@)->Some_0) is Some && extract_spec(
                url_parsed(string@)->Some_0.2,
                lookup(url_parsed(string@)->Some_0.3, ISSUER@),
            ) is Some && otp_spec(
                host_type(url_parsed(string@)->Some_0)->Some_0,
                url_parsed(string@)->Some_0.3,
            ) is None ==> r is Err && r->Err_0.source is Otp && otp::error_matches(
                host_type(url_parsed(string@)->Some_0)->Some_0,
                url_parsed(string@)->Some_0.3,
                r->Err_0.source->Otp_0,
            ),
    {
        let mut url = match url::parse(string) {
            Ok(url) => url,
            Err(error) => return Err(Error::parse(error, string.to_owned())),
        };
        match scheme::check_url(&url) {
            Ok(()) => {},
            Err(error) => return Err(Error::scheme(error, string.to_owned())),
        }
        let type_of = match Type::extract_from(&url) {
            Ok(type_of) => type_of,
            Err(error) => return Err(Error::type_of(error, string.to_owned())),
        };
        let ghost parts = url.parts();
        let mut pairs: Vec<(String, String)> = Vec::new();
        core::mem::swap(&mut pairs, &mut url.query);
        let mut query = Query::from_pairs(pairs);
        let ghost q0 = query@;
        assert(q0 == parts.3);
        let label = match Label::extract_from(&mut query, &url) {
            Ok(label) => label,
            Err(error) => return Err(Error::label(error, string.to_owned())),
        };
        proof {
            lemma_keys_distinct();
            assert(query.get_spec(SECRET@) == lookup(q0, SECRET@));
            assert(query.get_spec(ALGORITHM@) == lookup(q0, ALGORITHM@));
            assert(query.get_spec(DIGITS@) == lookup(q0, DIGITS@));
            assert(query.get_spec(COUNTER@) == lookup(q0, COUNTER@));
            assert(query.get_spec(PERIOD@) == lookup(q0, PERIOD@));
        }
        let otp = match Otp::extract_from(&mut query, type_of) {
            Ok(otp) => otp,
            Err(error) => return Err(Error::otp(error, string.to_owned())),
        };
        Ok(Self::from_parts((otp, label)))
    }

    /// Converts [`Self`] into [`Owned`].
    pub fn into_owned(self) -> (r: Owned)
        ensures
            r == self,
    {
        self
    }
}

} // verus!
