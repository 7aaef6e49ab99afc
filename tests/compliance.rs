use otp_std::{Algorithm, Base, Digits, OwnedBase, OwnedSecret, OwnedTotp, Period, Secret, Skew, Totp};

const SECRET_CHARS: &str = "1234567890";
const SECRET_BYTES: &[u8] = SECRET_CHARS.as_bytes();

fn build_secret_for(algorithm: Algorithm) -> OwnedSecret {
    let value = SECRET_BYTES
        .iter()
        .copied()
        .cycle()
        .take(algorithm.recommended_length())
        .collect();

    Secret::owned(value).ok().unwrap()
}

fn build_base(secret: Secret, algorithm: Algorithm, digits: Digits) -> Base {
    Base::new(secret, algorithm, digits)
}

fn build_base_for(algorithm: Algorithm, digits: Digits) -> OwnedBase {
    build_base(build_secret_for(algorithm), algorithm, digits)
}

fn build_totp(base: Base, skew: Skew, period: Period) -> Totp {
    Totp::new(base, skew, period)
}

fn build_totp_for(algorithm: Algorithm, digits: Digits, skew: Skew, period: Period) -> OwnedTotp {
    build_totp(build_base_for(algorithm, digits), skew, period)
}

type Pair = (u64, u32);

const HOTP_PAIRS: [Pair; 10] = [
    (0, 755224),
    (1, 287082),
    (2, 359152),
    (3, 969429),
    (4, 338314),
    (5, 254676),
    (6, 287922),
    (7, 162583),
    (8, 399871),
    (9, 520489),
];

#[test]
fn hotp() {
    let digits = Digits::new_ok(6).unwrap();
    let pairs = HOTP_PAIRS;

    let base = build_base_for(Algorithm::Sha1, digits);

    for (input, code) in pairs {
        assert!(base.verify(input, code));
        assert!(base.verify_string(input, &digits.string(code)));
    }
}

const TOTP_SHA1_PAIRS: [Pair; 6] = [
    (59, 94287082),
    (1111111109, 07081804),
    (1111111111, 14050471),
    (1234567890, 89005924),
    (2000000000, 69279037),
    (20000000000, 65353130),
];

const TOTP_SHA256_PAIRS: [Pair; 6] = [
    (59, 46119246),
    (1111111109, 68084774),
    (1111111111, 67062674),
    (1234567890, 91819424),
    (2000000000, 90698825),
    (20000000000, 77737706),
];

const TOTP_SHA512_PAIRS: [Pair; 6] = [
    (59, 90693936),
    (1111111109, 25091201),
    (1111111111, 99943326),
    (1234567890, 93441116),
    (2000000000, 38618901),
    (20000000000, 47863826),
];

fn totp_digits() -> Digits {
    Digits::new_ok(8).unwrap()
}

fn totp_period() -> Period {
    Period::new_ok(30).unwrap()
}

#[test]
fn totp_sha1() {
    let digits = totp_digits();
    let skew = Skew::disabled();
    let period = totp_period();

    let pairs = TOTP_SHA1_PAIRS;

    let totp = build_totp_for(Algorithm::Sha1, digits, skew, period);

    for (time, code) in pairs {
        assert!(totp.verify_at(time, code));
        assert!(totp.verify_string_at(time, &digits.string(code)));
    }
}

#[test]
fn totp_sha256() {
    let digits = totp_digits();
    let skew = Skew::disabled();
    let period = totp_period();

    let pairs = TOTP_SHA256_PAIRS;

    let totp = build_totp_for(Algorithm::Sha256, digits, skew, period);

    for (time, code) in pairs {
        assert!(totp.verify_at(time, code));
        assert!(totp.verify_string_at(time, &digits.string(code)));
    }
}

#[test]
fn totp_sha512() {
    let digits = totp_digits();
    let skew = Skew::disabled();
    let period = totp_period();

    let pairs = TOTP_SHA512_PAIRS;

    let totp = build_totp_for(Algorithm::Sha512, digits, skew, period);

    for (time, code) in pairs {
        assert!(totp.verify_at(time, code));
        assert!(totp.verify_string_at(time, &digits.string(code)));
    }
}

#[test]
fn rfc4226_codes_exact() {
    let digits = Digits::new_ok(6).unwrap();
    let base = build_base_for(Algorithm::Sha1, digits);
    for (input, code) in HOTP_PAIRS {
        assert_eq!(base.generate(input), code);
        assert_eq!(base.generate_string(input), format!("{code:06}"));
    }
    assert!(!base.verify(0, 287082));
    assert!(!base.verify_string(0, "287082"));
    assert!(!base.verify_string(0, "55224"));
}

#[test]
fn rfc6238_codes_exact() {
    let digits = totp_digits();
    for (algorithm, pairs) in [
        (Algorithm::Sha1, TOTP_SHA1_PAIRS),
        (Algorithm::Sha256, TOTP_SHA256_PAIRS),
        (Algorithm::Sha512, TOTP_SHA512_PAIRS),
    ] {
        let totp = build_totp_for(algorithm, digits, Skew::disabled(), totp_period());
        for (time, code) in pairs {
            assert_eq!(totp.generate_at(time), code);
            assert_eq!(totp.generate_string_at(time), format!("{code:08}"));
            assert!(totp.verify_exact_at(time, code));
            assert!(totp.verify_string_exact_at(time, &format!("{code:08}")));
        }
    }
}
