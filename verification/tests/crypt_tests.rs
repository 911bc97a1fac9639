use rand::Rng;

use webapp_core::crypt::pwd::{encrypt_pwd, validate_pwd};
use webapp_core::crypt::{encrypt_into_b64u, ct_str_eq, EncryptContent, Error};
use webapp_core::utils::Error as UtilsError;
use webapp_core::utils::{b64u_decode, b64u_encode};

#[test]
fn test_encrypt_into_b64u() {
    // setup
    let mut fx_key = [0u8; 64];
    rand::rng().fill_bytes(&mut fx_key);
    let fx_enc_content = EncryptContent {
        content: "Hello, World!".to_string(),
        salt: "some pepper".to_string(),
    };
    let fx_res = encrypt_into_b64u(&fx_key, &fx_enc_content).unwrap();

    // exec
    let res = encrypt_into_b64u(&fx_key, &fx_enc_content).unwrap();

    // check
    assert_eq!(res, fx_res);
}

#[test]
fn b64u_known_value() {
    assert_eq!(b64u_encode("Hello, world!"), "SGVsbG8sIHdvcmxkIQ");
    assert_eq!(b64u_decode("SGVsbG8sIHdvcmxkIQ").unwrap(), "Hello, world!");
}

#[test]
fn b64u_round_trip() {
    for s in ["", "a", "demo1", "Hello, World!", "token.with.dots", "üñí©ødé"] {
        let enc = b64u_encode(s);
        assert!(!enc.contains('.'));
        assert_eq!(b64u_decode(&enc).unwrap(), s);
    }
}

#[test]
fn b64u_decode_rejects_garbage() {
    assert_eq!(b64u_decode("not base64!!").unwrap_err(), UtilsError::FailToB64uDecode);
    assert!(b64u_decode("a.b").is_err());
}

#[test]
fn pwd_round_trip_ok() {
    let key = b"server-key-material";
    let enc = EncryptContent { content: "welcome2".to_string(), salt: "salt-1".to_string() };
    let digest = encrypt_pwd(key, &enc).unwrap();
    assert!(validate_pwd(key, &enc, &digest).is_ok());
}

#[test]
fn pwd_wrong_secret_rejected() {
    let key = b"server-key-material";
    let enc = EncryptContent { content: "welcome2".to_string(), salt: "salt-1".to_string() };
    let digest = encrypt_pwd(key, &enc).unwrap();
    let wrong = EncryptContent { content: "welcome3".to_string(), salt: "salt-1".to_string() };
    assert_eq!(validate_pwd(key, &wrong, &digest).unwrap_err(), Error::VerificationMismatch);
    let wrong_salt = EncryptContent { content: "welcome2".to_string(), salt: "salt-2".to_string() };
    assert_eq!(
        validate_pwd(key, &wrong_salt, &digest).unwrap_err(),
        Error::VerificationMismatch
    );
}

#[test]
fn pwd_digest_depends_on_key() {
    let enc = EncryptContent { content: "secret".to_string(), salt: "pepper".to_string() };
    let d1 = encrypt_pwd(b"key-one", &enc).unwrap();
    let d2 = encrypt_pwd(b"key-two", &enc).unwrap();
    assert_ne!(d1, d2);
}

#[test]
fn ct_str_eq_agrees_with_eq() {
    assert!(ct_str_eq("abc", "abc"));
    assert!(!ct_str_eq("abc", "abd"));
    assert!(!ct_str_eq("abc", "abcd"));
    assert!(ct_str_eq("", ""));
}
