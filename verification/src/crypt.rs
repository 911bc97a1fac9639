pub mod pwd;
pub mod token;

use vstd::prelude::*;
use vstd::utf8::encode_utf8;

use hmac::{Hmac, KeyInit, Mac};

use crate::utils::{all_b64u_chars, b64u_of};

verus! {

/// Errors of the cryptography layer, in three groups: key material, password
/// verification, and token structure or validity.
#[derive(Debug, Clone, Copy, PartialEq, Eq, Structural)]
pub enum Error {
    KeyFailure,
    VerificationMismatch,
    MalformedToken,
    SignatureMismatch,
    Expired,
}

/// The clear content and the per-user salt that enter an encryption.
pub struct EncryptContent {
    pub content: String,
    pub salt: String,
}

/// The clear content recovered from a decryption.
pub struct DecryptContent {
    pub content: String,
}

/// The HMAC-SHA-512 digest of a message under a key, as computed by the
/// `hmac` crate over `sha2`.  A function of key and message alone.
pub uninterp spec fn hmac_sha512_of(key: Seq<u8>, msg: Seq<u8>) -> Seq<u8>;

/// Relies on `hmac::Hmac<sha2::Sha512>`: `new_from_slice` accepts keys of any
/// length (shorter keys are padded, longer ones hashed), so it never fails,
/// and the finalized digest is 64 bytes determined by key and message alone.
#[verifier::external_body]
pub(crate) fn hmac_sha512(key: &[u8], msg: &[u8]) -> (r: Result<Vec<u8>, Error>)
    ensures
        r is Ok,
        r->Ok_0@ == hmac_sha512_of(key@, msg@),
        r->Ok_0@.len() == 64,
{
    let mut mac = <Hmac<sha2::Sha512> as KeyInit>::new_from_slice(key)
        .map_err(|_| Error::KeyFailure)?;
    mac.update(msg);
    Ok(mac.finalize().into_bytes().to_vec())
}

/// The Base64-URL digest that `encrypt_into_b64u` produces: the HMAC-SHA-512
/// of content followed by salt, under the server key, rendered as Base64-URL.
pub open spec fn encrypt_spec(key: Seq<u8>, content: Seq<char>, salt: Seq<char>) -> Seq<char> {
    b64u_of(hmac_sha512_of(key, encode_utf8(content + salt)))
}

/// Produces the salted one-way digest of the content: HMAC-SHA-512 under
/// `key` over content then salt, rendered as a Base64-URL string.  Always
/// succeeds, and the result is deterministic in `(key, content, salt)`.
pub fn encrypt_into_b64u(key: &[u8], enc_content: &EncryptContent) -> (r: Result<String, Error>)
    ensures
        r matches Ok(v) && v@ == encrypt_spec(key@, enc_content.content@, enc_content.salt@),
        r matches Ok(v) && all_b64u_chars(v@),
{
    let msg: String = enc_content.content.clone().concat(enc_content.salt.as_str());
    let digest = hmac_sha512(key, msg.as_str().as_bytes())?;
    Ok(crate::utils::b64u_encode_digest(&digest))
}

/// Compares two strings without an early exit on the first differing
/// character: the scan always covers every position of equal-length inputs,
/// so no timing difference reveals the length of a matching prefix.
pub fn ct_str_eq(a: &str, b: &str) -> (r: bool)
    ensures
        r == (a@ == b@),
{
    let a_len = a.unicode_len();
    let b_len = b.unicode_len();
    if a_len != b_len {
        proof {
            assert(a@ != b@) by {
                assert(a@.len() != b@.len());
            }
        }
        return false;
    }
    let mut diff = false;
    for i in 0..a_len
        invariant
            a_len == a@.len(),
            b_len == b@.len(),
            a_len == b_len,
            diff == exists|k: int| 0 <= k < i && a@[k] != b@[k],
    {
        if a.get_char(i) != b.get_char(i) {
            diff = true;
        }
    }
    proof {
        if !diff {
            assert(a@ =~= b@);
        }
    }
    !diff
}

} // verus!
