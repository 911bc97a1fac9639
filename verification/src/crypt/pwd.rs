use vstd::prelude::*;

use crate::crypt::{ct_str_eq, encrypt_into_b64u, encrypt_spec, EncryptContent, Error};

verus! {

/// The outcome of password verification: success exactly when the stored
/// reference equals the recomputed digest of the offered secret.
pub open spec fn spec_validate_pwd(
    key: Seq<u8>,
    content: Seq<char>,
    salt: Seq<char>,
    pwd_ref: Seq<char>,
) -> Result<(), Error> {
    if pwd_ref == encrypt_spec(key, content, salt) {
        Ok(())
    } else {
        Err(Error::VerificationMismatch)
    }
}

/// Hashes a clear password with its per-user salt under the server key.
/// Deterministic, so verification can recompute it.
pub fn encrypt_pwd(key: &[u8], to_enc: &EncryptContent) -> (r: Result<String, Error>)
    ensures
        r matches Ok(v) && v@ == encrypt_spec(key@, to_enc.content@, to_enc.salt@),
{
    encrypt_into_b64u(key, to_enc)
}

/// Verifies a clear password against a stored digest by recomputing the
/// digest and comparing without early exit.  Succeeds if and only if the
/// reference is the digest of the offered secret and salt; every failure is
/// `VerificationMismatch`.
pub fn validate_pwd(key: &[u8], enc_content: &EncryptContent, pwd_ref: &str) -> (r: Result<
    (),
    Error,
>)
    ensures
        r == spec_validate_pwd(key@, enc_content.content@, enc_content.salt@, pwd_ref@),
{
    let pwd = match encrypt_pwd(key, enc_content) {
        Ok(p) => p,
        Err(e) => {
            return Err(e);
        },
    };
    if ct_str_eq(pwd.as_str(), pwd_ref) {
        Ok(())
    } else {
        Err(Error::VerificationMismatch)
    }
}

/// Law: hashing a secret with a salt and then verifying the same secret
/// against that digest always succeeds.
pub proof fn lemma_pwd_round_trip(key: Seq<u8>, content: Seq<char>, salt: Seq<char>)
    ensures
        spec_validate_pwd(key, content, salt, encrypt_spec(key, content, salt)) == Ok::<
            (),
            Error,
        >(()),
{
}

} // verus!
