use otp_std::algorithm::{hmac_sha1, hmac_sha256, hmac_sha512};
use otp_std::auth::entry::ErrorSource as AuthErrorSource;
use otp_std::auth::label::{try_match, ErrorSource as LabelErrorSource, ParseErrorSource};
use otp_std::auth::part::ErrorSource as PartErrorSource;
use otp_std::auth::url::parse;
use otp_std::base::ErrorSource as BaseErrorSource;
use otp_std::hotp::ErrorSource as HotpErrorSource;
use otp_std::integer::{parse_bounded, IntErrorKind};
use otp_std::otp::type_of::ErrorSource as TypeErrorSource;
use otp_std::otp::ErrorSource as OtpErrorSource;
use otp_std::secret::length::Policy;
use otp_std::secret::value::ErrorSource as SecretErrorSource;
use otp_std::totp::ErrorSource as TotpErrorSource;
use otp_std::{
    Algorithm, Auth, Base, Counter, Digits, Hotp, Label, Length, Otp, Part, Period, Secret, Skew,
    Totp, Type,
};

const RFC_SECRET: &[u8] = b"12345678901234567890";

fn rfc_base(digits: u8) -> Base {
    let secret = Secret::borrowed(RFC_SECRET).ok().unwrap();
    Base::new(secret, Algorithm::Sha1, Digits::new_ok(digits).unwrap())
}

fn part(text: &str) -> Part {
    Part::borrowed(text).ok().unwrap()
}

#[test]
fn digits_padding() {
    let six = Digits::new_ok(6).unwrap();
    assert_eq!(six.string(5), "000005");
    assert_eq!(six.string(123456), "123456");
    assert_eq!(six.string(0), "000000");
    let eight = Digits::new_ok(8).unwrap();
    assert_eq!(eight.string(7081804), "07081804");
    assert_eq!(eight.to_string(), "8");
}

#[test]
fn skew_window_order() {
    assert_eq!(Skew::new(1).apply(13), vec![12, 13, 14]);
    assert_eq!(Skew::new(0).apply(13), vec![13]);
    assert_eq!(Skew::new(2).apply(13), vec![11, 12, 13, 14, 15]);
}

#[test]
fn skew_overflow_is_dropped() {
    let value = u64::MAX;
    assert_eq!(Skew::new(1).apply(value), vec![value - 1, value]);
    assert_eq!(Skew::new(2).apply(0), vec![0, 1, 2]);
    assert_eq!(Skew::new(3).apply(1), vec![0, 1, 2, 3, 4]);
}

#[test]
fn digits_range() {
    assert!(Digits::new(5).is_err());
    assert!(Digits::new(9).is_err());
    assert_eq!(Digits::new(5).err().unwrap().value, 5);
    for value in 6..=8 {
        assert_eq!(Digits::new(value).ok().unwrap().get(), value);
    }
    assert!(Digits::check(0).is_err());
    assert!(Digits::new_ok(7).is_some());
    assert_eq!(Digits::default().get(), 6);
}

#[test]
fn part_rejection() {
    let empty = Part::new(String::new()).err().unwrap();
    assert!(matches!(empty.source, PartErrorSource::Empty(_)));
    let separator = Part::new("a:b".to_owned()).err().unwrap();
    match separator.source {
        PartErrorSource::Separator(error) => assert_eq!(error.string, "a:b"),
        _ => panic!("expected a separator error"),
    }
    assert_eq!(Part::new("ab".to_owned()).ok().unwrap().as_str(), "ab");
    assert!(Part::check("x").is_ok());
}

#[test]
fn hmac_any_key_length() {
    let data = 7u64.to_be_bytes();
    for length in [0usize, 1, 20, 63, 64, 65, 128, 129, 100_000] {
        let key = vec![0x5a; length];
        assert_eq!(Algorithm::Sha1.hmac(&key, &data).len(), 20);
        assert_eq!(Algorithm::Sha256.hmac(&key, &data).len(), 32);
        assert_eq!(Algorithm::Sha512.hmac(&key, &data).len(), 64);
    }
}

fn hex(bytes: &[u8]) -> String {
    bytes.iter().map(|byte| format!("{byte:02x}")).collect()
}

#[test]
fn hmac_known_tags() {
    let key = b"key";
    let data = b"The quick brown fox jumps over the lazy dog";
    assert_eq!(hex(&hmac_sha1(key, data)), "de7c9b85b8b78aa6bc8a7a36f70a90701c9db4d9");
    assert_eq!(
        hex(&hmac_sha256(key, data)),
        "f7bc83f430538424b13298e6aa6fb143ef4d59a14946175997479dbc2d1a3cd8"
    );
    assert_eq!(
        hex(&hmac_sha512(key, data)),
        "b42af09057bac1e2d41708e48a902e09b5ff7f12ab428a4fe86653c73dd248fb82f948a549f7b791a5b41915ee4d1ec3935357e4e2317250d0372afa2ebeeb3a"
    );
}

#[test]
fn algorithm_names() {
    for algorithm in [Algorithm::Sha1, Algorithm::Sha256, Algorithm::Sha512] {
        assert_eq!(Algorithm::parse(algorithm.static_str()).ok().unwrap(), algorithm);
    }
    assert_eq!(Algorithm::Sha256.static_str(), "SHA256");
    assert_eq!(Algorithm::parse("sha1").err().unwrap().unknown, "sha1");
    assert_eq!(Algorithm::Sha512.recommended_length(), 64);
    assert_eq!(Length::recommended_for(Algorithm::Sha256).get(), 32);
}

#[test]
fn integer_parsing() {
    assert_eq!(parse_bounded("42", 100).ok().unwrap(), 42);
    assert_eq!(parse_bounded("+7", 100).ok().unwrap(), 7);
    assert_eq!(parse_bounded("", 100).err().unwrap().kind, IntErrorKind::Empty);
    assert_eq!(parse_bounded("+", 100).err().unwrap().kind, IntErrorKind::InvalidDigit);
    assert_eq!(parse_bounded("4a", 100).err().unwrap().kind, IntErrorKind::InvalidDigit);
    assert_eq!(parse_bounded("-1", 100).err().unwrap().kind, IntErrorKind::InvalidDigit);
    assert_eq!(parse_bounded("101", 100).err().unwrap().kind, IntErrorKind::PosOverflow);
    assert_eq!(
        parse_bounded("18446744073709551615", u64::MAX).ok().unwrap(),
        u64::MAX
    );
    assert_eq!(
        parse_bounded("18446744073709551616", u64::MAX).err().unwrap().kind,
        IntErrorKind::PosOverflow
    );
    assert_eq!(Counter::parse("12").ok().unwrap().get(), 12);
    assert_eq!(Counter::parse("x").err().unwrap().string, "x");
    assert_eq!(Skew::parse("3").ok().unwrap().get(), 3);
    assert!(Period::parse("0").is_err());
    assert_eq!(Period::parse("45").ok().unwrap().get(), 45);
    assert!(Digits::parse("9").is_err());
    assert_eq!(Digits::parse("7").ok().unwrap().get(), 7);
}

#[test]
fn counter_increments() {
    assert_eq!(Counter::new(0).try_next(), Some(Counter::new(1)));
    assert_eq!(Counter::new(u64::MAX).try_next(), None);
    assert_eq!(Counter::new(41).next().get(), 42);
    assert_eq!(Counter::default().get(), 0);
    assert_eq!(Counter::new(1234).to_string(), "1234");
}

#[test]
fn hotp_counter_state() {
    let mut hotp = Hotp::new(rfc_base(6), Counter::new(0));
    assert_eq!(hotp.generate(), 755224);
    assert!(hotp.verify(755224));
    hotp.increment();
    assert_eq!(hotp.counter(), 1);
    assert_eq!(hotp.generate_string(), "287082");
    assert!(hotp.verify_string("287082"));
    assert!(!hotp.verify(755224));
}

#[test]
fn totp_time_arithmetic() {
    let totp = Totp::new(rfc_base(6), Skew::disabled(), Period::new_ok(30).unwrap());
    assert_eq!(totp.input_at(59), 1);
    assert_eq!(totp.next_period_at(59), 60);
    assert_eq!(totp.next_period_at(60), 90);
    assert_eq!(totp.time_to_live_at(59), 1);
    assert_eq!(totp.time_to_live_at(60), 30);
    assert!(totp.try_generate().is_ok());
    let ttl = totp.try_time_to_live().ok().unwrap();
    assert!((1..=30).contains(&ttl));
    let next = totp.try_next_period().ok().unwrap();
    assert_eq!(next % 30, 0);
}

#[test]
fn totp_skew_accepts_neighbours() {
    let base = rfc_base(6);
    let previous = base.generate(0);
    let exact = Totp::new(rfc_base(6), Skew::disabled(), Period::new_ok(30).unwrap());
    let skewed = Totp::new(base, Skew::new(1), Period::new_ok(30).unwrap());
    assert!(!exact.verify_at(30, previous));
    assert!(skewed.verify_at(30, previous));
    assert!(skewed.verify_string_at(30, &format!("{previous:06}")));
    assert!(!skewed.verify_at(90, previous));
    assert!(skewed.verify_at(0, rfc_base(6).generate(1)));
}

#[test]
fn secret_codec() {
    let secret = Secret::decode("GEZDGNBVGY3TQOJQGEZDGNBVGY3TQOJQ").ok().unwrap();
    assert_eq!(secret.as_bytes(), RFC_SECRET);
    assert_eq!(secret.encode(), "GEZDGNBVGY3TQOJQGEZDGNBVGY3TQOJQ");
    let short = Secret::decode("GEZDGNBV").err().unwrap();
    match short.source {
        SecretErrorSource::Length(error) => assert_eq!(error.length, 5),
        _ => panic!("expected a length error"),
    }
    let invalid = Secret::decode("not base32!").err().unwrap();
    match invalid.source {
        SecretErrorSource::Encoding(error) => assert_eq!(error.secret, "not base32!"),
        _ => panic!("expected an encoding error"),
    }
    assert!(Secret::borrowed(&[1u8; 15]).is_err());
    assert_eq!(Secret::generate_default().unwrap().as_bytes().len(), 20);
    assert_eq!(Secret::generate(Length::new_ok(32).unwrap()).unwrap().get().len(), 32);
    assert_eq!(Secret::generate(Length::new_unsafe(4)).unwrap().get().len(), 4);
    assert!(Secret::borrowed(RFC_SECRET).ok().unwrap() == Secret::borrowed(RFC_SECRET).ok().unwrap());
}

#[test]
fn label_text() {
    let label = Label::parse("Issuer:alice").ok().unwrap();
    assert_eq!(label.issuer.as_ref().unwrap().as_str(), "Issuer");
    assert_eq!(label.user.as_str(), "alice");
    assert_eq!(label.to_string(), "Issuer:alice");
    let bare = Label::parse("bob").ok().unwrap();
    assert!(bare.issuer.is_none());
    assert!(matches!(Label::parse("").err().unwrap().source, ParseErrorSource::Empty(_)));
    assert!(matches!(Label::parse("a:b:c").err().unwrap().source, ParseErrorSource::Part(_)));
    assert!(matches!(Label::parse(":c").err().unwrap().source, ParseErrorSource::Part(_)));
    assert_eq!(Label::decode("ACME%20Co%3Ajohn").ok().unwrap().to_string(), "ACME Co:john");
    assert_eq!(label.encode(), "Issuer%3Aalice");
}

#[test]
fn issuer_matching() {
    assert!(try_match(Some(part("A")), Some(part("B"))).is_err());
    assert_eq!(try_match(Some(part("A")), Some(part("A"))).ok().unwrap().unwrap().as_str(), "A");
    assert_eq!(try_match(None, Some(part("B"))).ok().unwrap().unwrap().as_str(), "B");
    assert!(try_match(None, None).ok().unwrap().is_none());
}

const RFC_SECRET_TEXT: &str = "GEZDGNBVGY3TQOJQGEZDGNBVGY3TQOJQ";

#[test]
fn issuer_mismatch() {
    let url = format!("otpauth://totp/Issuer:alice?secret={RFC_SECRET_TEXT}&issuer=Other");
    let error = Auth::parse_url(&url).err().unwrap();
    assert_eq!(error.string, url);
    match error.source {
        AuthErrorSource::Label(label) => match label.source {
            LabelErrorSource::Mismatch(mismatch) => {
                assert_eq!(mismatch.label, "Issuer");
                assert_eq!(mismatch.query, "Other");
            }
            _ => panic!("expected a mismatch"),
        },
        _ => panic!("expected a label error"),
    }
    let url = format!("otpauth://totp/Issuer:alice?secret={RFC_SECRET_TEXT}&issuer=Issuer");
    let auth = Auth::parse_url(&url).ok().unwrap();
    assert_eq!(auth.label.issuer.as_ref().unwrap().as_str(), "Issuer");
    assert_eq!(auth.label.user.as_str(), "alice");
}

#[test]
fn parse_url_defaults() {
    let url = format!("otpauth://totp/alice?secret={RFC_SECRET_TEXT}&issuer=Example%20Co&unknown=1");
    let auth = Auth::parse_url(&url).ok().unwrap();
    assert_eq!(auth.otp.type_of(), Type::Totp);
    let base = auth.otp.base();
    assert_eq!(base.secret.as_bytes(), RFC_SECRET);
    assert_eq!(base.algorithm, Algorithm::Sha1);
    assert_eq!(base.digits.get(), 6);
    match &auth.otp {
        Otp::Totp(totp) => {
            assert_eq!(totp.period.get(), 30);
            assert_eq!(totp.skew.get(), 0);
        }
        Otp::Hotp(_) => panic!("expected TOTP"),
    }
    assert_eq!(auth.label.issuer.as_ref().unwrap().as_str(), "Example Co");
}

#[test]
fn parse_url_hotp() {
    let url = format!(
        "otpauth://hotp/ACME%20Co:john?secret={RFC_SECRET_TEXT}&algorithm=SHA256&digits=8&counter=42"
    );
    let auth = Auth::parse_url(&url).ok().unwrap();
    match &auth.otp {
        Otp::Hotp(hotp) => {
            assert_eq!(hotp.counter(), 42);
            assert_eq!(hotp.base.algorithm, Algorithm::Sha256);
            assert_eq!(hotp.base.digits.get(), 8);
        }
        Otp::Totp(_) => panic!("expected HOTP"),
    }
    assert_eq!(auth.label.to_string(), "ACME Co:john");
}

fn auth_error(url: &str) -> AuthErrorSource {
    Auth::parse_url(url).err().unwrap().source
}

#[test]
fn parse_url_errors() {
    assert!(matches!(auth_error("no url here"), AuthErrorSource::Url(_)));
    match auth_error("https://totp/alice?secret=AAAA") {
        AuthErrorSource::Scheme(error) => assert_eq!(error.scheme, "https"),
        _ => panic!("expected a scheme error"),
    }
    match auth_error("otpauth://motp/alice") {
        AuthErrorSource::TypeOf(error) => match error.source {
            TypeErrorSource::Parse(parse) => assert_eq!(parse.string, "motp"),
            _ => panic!("expected a parse error"),
        },
        _ => panic!("expected a type error"),
    }
    assert!(matches!(auth_error("otpauth:alice"), AuthErrorSource::TypeOf(_)));
    assert!(matches!(auth_error("otpauth://totp/?secret=AAAA"), AuthErrorSource::Label(_)));
    match auth_error("otpauth://totp/alice") {
        AuthErrorSource::Otp(error) => match error.source {
            OtpErrorSource::Totp(totp) => match totp.source {
                TotpErrorSource::Base(base) => {
                    assert!(matches!(base.source, BaseErrorSource::SecretNotFound(_)))
                }
                _ => panic!("expected a base error"),
            },
            _ => panic!("expected a TOTP error"),
        },
        _ => panic!("expected an OTP error"),
    }
    let no_counter = format!("otpauth://hotp/alice?secret={RFC_SECRET_TEXT}");
    match auth_error(&no_counter) {
        AuthErrorSource::Otp(error) => match error.source {
            OtpErrorSource::Hotp(hotp) => {
                assert!(matches!(hotp.source, HotpErrorSource::CounterNotFound(_)))
            }
            _ => panic!("expected a HOTP error"),
        },
        _ => panic!("expected an OTP error"),
    }
    let bad_period = format!("otpauth://totp/alice?secret={RFC_SECRET_TEXT}&period=0");
    assert!(matches!(auth_error(&bad_period), AuthErrorSource::Otp(_)));
    let bad_algorithm = format!("otpauth://totp/alice?secret={RFC_SECRET_TEXT}&algorithm=MD5");
    match auth_error(&bad_algorithm) {
        AuthErrorSource::Otp(error) => match error.source {
            OtpErrorSource::Totp(totp) => match totp.source {
                TotpErrorSource::Base(base) => match base.source {
                    BaseErrorSource::Algorithm(algorithm) => assert_eq!(algorithm.unknown, "MD5"),
                    _ => panic!("expected an algorithm error"),
                },
                _ => panic!("expected a base error"),
            },
            _ => panic!("expected a TOTP error"),
        },
        _ => panic!("expected an OTP error"),
    }
    let short_secret = "otpauth://totp/alice?secret=GEZDGNBV";
    assert!(matches!(auth_error(short_secret), AuthErrorSource::Otp(_)));
}

fn round_trip(auth: Auth) {
    let text = auth.build_url().to_string().unwrap();
    let parsed = Auth::parse_url(&text).ok().unwrap();
    assert_eq!(parsed, auth);
}

#[test]
fn url_round_trip() {
    let label = Label::from_parts((Some(part("ACME Co")), part("john@example.com")));
    let totp = Totp::new(rfc_base(8), Skew::disabled(), Period::new_ok(60).unwrap());
    round_trip(Auth::from_parts((Otp::Totp(totp), label.clone())));
    let hotp = Hotp::new(rfc_base(6), Counter::new(u64::MAX));
    round_trip(Auth::from_parts((Otp::Hotp(hotp), label)));
    let plain = Label::from_parts((None, part("user+tag 100%/x?y&z=#")));
    let secret = Secret::borrowed(&[0xffu8; 64]).ok().unwrap();
    let base = Base::new(secret, Algorithm::Sha512, Digits::new_ok(7).unwrap());
    let totp = Totp::new(base, Skew::default(), Period::default());
    round_trip(Auth::from_parts((Otp::Totp(totp), plain)));
}

#[test]
fn url_text() {
    let label = Label::from_parts((Some(part("Issuer")), part("alice")));
    let totp = Totp::new(rfc_base(6), Skew::disabled(), Period::default());
    let auth = Auth::from_parts((Otp::Totp(totp), label));
    assert_eq!(
        auth.build_url().to_string().unwrap(),
        format!("otpauth://totp/Issuer%3Aalice?secret={RFC_SECRET_TEXT}&algorithm=SHA1&digits=6&period=30&issuer=Issuer")
    );
    let url = parse("otpauth://totp/x?a=1+2&b=%41").ok().unwrap();
    assert_eq!(url.scheme, "otpauth");
    assert_eq!(url.host.as_deref(), Some("totp"));
    assert_eq!(url.path, "/x");
    assert_eq!(url.query, vec![("a".to_owned(), "1 2".to_owned()), ("b".to_owned(), "A".to_owned())]);
}

#[test]
fn type_names() {
    assert_eq!(Type::parse("hotp").ok().unwrap(), Type::Hotp);
    assert_eq!(Type::Totp.static_str(), "totp");
    assert_eq!(Type::parse("TOTP").err().unwrap().string, "TOTP");
}

#[test]
fn unsafe_length_opt_in() {
    assert!(Length::check(15).is_err());
    assert_eq!(Length::check(15).err().unwrap().length, 15);
    assert!(Length::check_with(15, Policy::Unsafe).is_ok());
    assert!(Length::check_with(15, Policy::Safe).is_err());
    assert_eq!(Length::new_with(3, Policy::Unsafe).ok().unwrap().get(), 3);
    assert!(Secret::decode("GEZDGNBV").is_err());
    let short = Secret::decode_with("GEZDGNBV", Policy::Unsafe).ok().unwrap();
    assert_eq!(short.as_bytes(), b"12345");
    assert!(Secret::new_with(vec![1u8; 2], Policy::Unsafe).is_ok());
    assert!(Secret::new_with(vec![1u8; 2], Policy::Safe).is_err());
}

#[test]
fn from_str_forwards() {
    assert_eq!("SHA512".parse::<Algorithm>().ok().unwrap(), Algorithm::Sha512);
    assert_eq!("sha1".parse::<Algorithm>().err().unwrap().unknown, "sha1");
    assert_eq!("totp".parse::<Type>().ok().unwrap(), Type::Totp);
    assert_eq!("TOTP".parse::<Type>().err().unwrap().string, "TOTP");
    let label: Label = "Issuer:alice".parse().ok().unwrap();
    assert_eq!(label.to_string(), "Issuer:alice");
    assert!("".parse::<Label>().is_err());
    assert_eq!("7".parse::<Digits>().ok().unwrap().get(), 7);
}

#[test]
fn extraction_error_payloads() {
    let bad_digits = format!("otpauth://totp/alice?secret={RFC_SECRET_TEXT}&digits=12");
    match auth_error(&bad_digits) {
        AuthErrorSource::Otp(error) => match error.source {
            OtpErrorSource::Totp(totp) => match totp.source {
                TotpErrorSource::Base(base) => match base.source {
                    BaseErrorSource::Digits(digits) => assert_eq!(digits.string, "12"),
                    _ => panic!("expected a digits error"),
                },
                _ => panic!("expected a base error"),
            },
            _ => panic!("expected a TOTP error"),
        },
        _ => panic!("expected an OTP error"),
    }
    let bad_counter = format!("otpauth://hotp/alice?secret={RFC_SECRET_TEXT}&counter=x1");
    match auth_error(&bad_counter) {
        AuthErrorSource::Otp(error) => match error.source {
            OtpErrorSource::Hotp(hotp) => match hotp.source {
                HotpErrorSource::Counter(counter) => assert_eq!(counter.string, "x1"),
                _ => panic!("expected a counter error"),
            },
            _ => panic!("expected a HOTP error"),
        },
        _ => panic!("expected an OTP error"),
    }
}

#[test]
fn otp_errors_pass_through() {
    let no_secret = "otpauth://hotp/alice?counter=1";
    match auth_error(no_secret) {
        AuthErrorSource::Otp(error) => match error.source {
            OtpErrorSource::Hotp(hotp) => match hotp.source {
                HotpErrorSource::Base(base) => {
                    assert!(matches!(base.source, BaseErrorSource::SecretNotFound(_)))
                }
                _ => panic!("expected a base error"),
            },
            _ => panic!("expected a HOTP error"),
        },
        _ => panic!("expected an OTP error"),
    }
    let bad_period = format!("otpauth://totp/alice?secret={RFC_SECRET_TEXT}&period=0");
    match auth_error(&bad_period) {
        AuthErrorSource::Otp(error) => match error.source {
            OtpErrorSource::Totp(totp) => match totp.source {
                TotpErrorSource::Period(period) => {
                    assert_eq!(period.string, "0");
                    assert!(matches!(
                        period.source,
                        otp_std::period::ParseErrorSource::Period(otp_std::period::Error { value: 0 })
                    ));
                }
                _ => panic!("expected a period error"),
            },
            _ => panic!("expected a TOTP error"),
        },
        _ => panic!("expected an OTP error"),
    }
}
