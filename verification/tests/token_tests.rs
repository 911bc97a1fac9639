use webapp_core::crypt::token::{generate_web_token, validate_web_token, Token};
use webapp_core::crypt::Error;
use webapp_core::utils::{format_utc, max_utc_ts, parse_utc};

const KEY: &[u8] = b"test-signing-key";
const SALT: &str = "f05e8961-d6ad-4086-9e78-a6de065e5453";
const NOW: u64 = 1_709_210_096;  // 2024-02-29T12:34:56Z

#[test]
fn format_utc_known_values() {
    assert_eq!(format_utc(0), "1970-01-01T00:00:00Z");
    assert_eq!(format_utc(1_709_210_096), "2024-02-29T12:34:56Z");
    assert_eq!(format_utc(951_827_696), "2000-02-29T12:34:56Z");
    assert_eq!(max_utc_ts(), 253_402_300_799);
    assert_eq!(format_utc(max_utc_ts()), "9999-12-31T23:59:59Z");
}

#[test]
fn parse_utc_inverts_format() {
    for ts in [0u64, 1, 59, 86_399, 86_400, 951_827_696, 1_709_210_096, 253_402_300_799] {
        assert_eq!(parse_utc(&format_utc(ts)).unwrap(), ts);
    }
}

#[test]
fn parse_utc_rejects_malformed() {
    for s in [
        "",
        "2024-02-29",
        "2024-02-30T00:00:00Z",
        "2024-13-01T00:00:00Z",
        "1969-12-31T23:59:59Z",
        "2023-02-29T00:00:00Z",
        "2024-02-29T24:00:00Z",
        "2024-02-29 12:34:56Z",
        "2024-02-29T12:34:56",
    ] {
        assert!(parse_utc(s).is_err(), "accepted {s:?}");
    }
}

#[test]
fn token_round_trip() {
    let token = generate_web_token("demo1", SALT, KEY, NOW, 1800).unwrap();
    assert_eq!(token.ident, "demo1");
    assert_eq!(token.exp, format_utc(NOW + 1800));

    let serialized = token.serialize();
    let parsed = Token::parse(&serialized).unwrap();
    assert_eq!(parsed.ident, token.ident);
    assert_eq!(parsed.exp, token.exp);
    assert_eq!(parsed.sign_b64u, token.sign_b64u);
}

#[test]
fn token_validates_before_expiry() {
    let token = generate_web_token("demo1", SALT, KEY, NOW, 1800).unwrap();
    assert!(validate_web_token(&token, SALT, KEY, NOW).is_ok());
    assert!(validate_web_token(&token, SALT, KEY, NOW + 1799).is_ok());
}

#[test]
fn token_expiry_boundary() {
    let token = generate_web_token("demo1", SALT, KEY, NOW, 1800).unwrap();
    // one second before the expiration instant: accepted
    assert!(validate_web_token(&token, SALT, KEY, NOW + 1799).is_ok());
    // exactly at the expiration instant: rejected
    assert_eq!(validate_web_token(&token, SALT, KEY, NOW + 1800).unwrap_err(), Error::Expired);
    assert_eq!(
        validate_web_token(&token, SALT, KEY, NOW + 1801).unwrap_err(),
        Error::Expired
    );
}

#[test]
fn token_signature_tamper_sensitivity() {
    let token = generate_web_token("demo1", SALT, KEY, NOW, 1800).unwrap();
    let serialized = token.serialize();
    let sig_start = serialized.rfind('.').unwrap() + 1;
    let bytes = serialized.as_bytes();
    for i in sig_start..serialized.len() {
        // flip the low bit of this signature byte, staying in the alphabet
        let mut tampered = bytes.to_vec();
        let orig = tampered[i];
        let flipped = if orig.is_ascii_alphanumeric() {
            if orig == b'0' { b'1' } else if orig.is_ascii_digit() { orig - 1 } else if orig == b'a' { b'b' } else if orig == b'A' { b'B' } else { orig - 1 }
        } else if orig == b'-' {
            b'_'
        } else {
            b'-'
        };
        tampered[i] = flipped;
        assert_ne!(tampered[i], orig);
        let tampered = String::from_utf8(tampered).unwrap();
        let parsed = Token::parse(&tampered).expect("tampered token still parses");
        assert_eq!(
            validate_web_token(&parsed, SALT, KEY, NOW).unwrap_err(),
            Error::SignatureMismatch,
            "byte {i} flip not caught as signature mismatch"
        );
    }
}

#[test]
fn token_rejects_wrong_salt() {
    let token = generate_web_token("demo1", SALT, KEY, NOW, 1800).unwrap();
    assert_eq!(
        validate_web_token(&token, "other-salt", KEY, NOW).unwrap_err(),
        Error::SignatureMismatch
    );
}

#[test]
fn token_parse_rejects_malformed() {
    assert_eq!(Token::parse("no-dots-here").unwrap_err(), Error::MalformedToken);
    assert_eq!(Token::parse("a.b").unwrap_err(), Error::MalformedToken);
    assert_eq!(Token::parse("a.b.c.d").unwrap_err(), Error::MalformedToken);
    assert_eq!(Token::parse("ä.b.c").unwrap_err(), Error::MalformedToken);
}
