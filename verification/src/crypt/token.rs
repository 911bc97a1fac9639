use vstd::prelude::*;
use vstd::string::*;
use vstd::utf8::encode_utf8;

use crate::crypt::{ct_str_eq, hmac_sha512, hmac_sha512_of, Error};
use crate::utils::{
    all_b64u, all_b64u_chars, b64u_decode, b64u_encode, b64u_encode_digest, b64u_of, is_ts_chars,
    parse_utc, ts_chars_val, ts_in_range,
};

verus! {

/// A web token in its three parts: identifier, expiration (ISO-8601 UTC,
/// second precision) and Base64-URL signature.
#[derive(Debug)]
pub struct Token {
    pub ident: String,
    pub exp: String,
    pub sign_b64u: String,
}

/// The byte message that a token signature covers:
/// `identifier "." expiration "." signing-salt`.
pub open spec fn token_sign_msg(ident: Seq<char>, exp: Seq<char>, salt: Seq<char>) -> Seq<char> {
    ident + "."@ + exp + "."@ + salt
}

/// The signature of a token: the HMAC-SHA-512 of the signing message under
/// the server key, rendered as Base64-URL.
pub open spec fn token_sign_spec(
    key: Seq<u8>,
    ident: Seq<char>,
    exp: Seq<char>,
    salt: Seq<char>,
) -> Seq<char> {
    b64u_of(hmac_sha512_of(key, encode_utf8(token_sign_msg(ident, exp, salt))))
}

/// The one-string form of a token: the Base64-URL renderings of identifier
/// and expiration and the signature, joined by `.`.
pub open spec fn serialize_spec(ident: Seq<char>, exp: Seq<char>, sign: Seq<char>) -> Seq<char> {
    b64u_of(encode_utf8(ident)) + "."@ + b64u_of(encode_utf8(exp)) + "."@ + sign
}

/// The segments of a serialized token contain no `.`, so splitting at `.`
/// recovers them.  Holds of every token this module produces.
pub open spec fn serialized_wf(ident: Seq<char>, exp: Seq<char>, sign: Seq<char>) -> bool {
    &&& all_b64u_chars(b64u_of(encode_utf8(ident)))
    &&& all_b64u_chars(b64u_of(encode_utf8(exp)))
    &&& all_b64u_chars(sign)
}

/// The outcome of validating a token against a signing salt and key at a
/// given time: a wrong signature is reported first, then an expiration that
/// is not a well-formed ISO-8601 time, then expiry itself (a token is dead
/// from its expiration instant on).
pub open spec fn spec_validate_token(
    ident: Seq<char>,
    exp: Seq<char>,
    sign: Seq<char>,
    salt: Seq<char>,
    key: Seq<u8>,
    now: int,
) -> Result<(), Error> {
    if sign != token_sign_spec(key, ident, exp, salt) {
        Err(Error::SignatureMismatch)
    } else if !is_ts_chars(exp) {
        Err(Error::MalformedToken)
    } else if now >= ts_chars_val(exp) {
        Err(Error::Expired)
    } else {
        Ok(())
    }
}

/// Signs the message `ident "." exp "." salt` under the key.  Deterministic
/// in its arguments; never fails.
fn token_sign_into_b64u(ident: &str, exp: &str, salt: &str, key: &[u8]) -> (r: Result<
    String,
    Error,
>)
    ensures
        r matches Ok(v) && v@ == token_sign_spec(key@, ident@, exp@, salt@),
        r matches Ok(v) && all_b64u_chars(v@),
{
    let mut msg = ident.to_owned();
    msg.append(".");
    msg.append(exp);
    msg.append(".");
    msg.append(salt);
    proof {
        assert(msg@ == token_sign_msg(ident@, exp@, salt@));
    }
    let digest = hmac_sha512(key, msg.as_str().as_bytes())?;
    Ok(b64u_encode_digest(&digest))
}

/// Builds a freshly signed token for `user`: expiration `now + duration`,
/// signature over identifier, expiration and the per-user signing salt.
pub fn generate_web_token(
    user: &str,
    salt: &str,
    key: &[u8],
    now_sec: u64,
    duration_sec: u64,
) -> (r: Result<Token, Error>)
    requires
        ts_in_range(now_sec + duration_sec),
    ensures
        r matches Ok(t) && t.ident@ == user@,
        r matches Ok(t) && is_ts_chars(t.exp@) && ts_chars_val(t.exp@) == now_sec + duration_sec,
        r matches Ok(t) && t.sign_b64u@ == token_sign_spec(key@, user@, t.exp@, salt@),
        r matches Ok(t) && all_b64u_chars(t.sign_b64u@),
{
    proof {
        crate::utils::lemma_days_before_year_upper(10000);
    }
    let exp = crate::utils::format_utc(now_sec + duration_sec);
    let sign_b64u = token_sign_into_b64u(user, exp.as_str(), salt, key)?;
    Ok(Token { ident: user.to_owned(), exp, sign_b64u })
}

/// Recomputes the token's signature from the given salt and key and checks
/// signature, well-formedness of the expiration, and expiry against `now`,
/// in that order.  Pure: same token, salt, key and time give the same
/// outcome.
pub fn validate_web_token(token: &Token, salt: &str, key: &[u8], now_sec: u64) -> (r: Result<
    (),
    Error,
>)
    ensures
        r == spec_validate_token(
            token.ident@,
            token.exp@,
            token.sign_b64u@,
            salt@,
            key@,
            now_sec as int,
        ),
{
    let expect = match token_sign_into_b64u(token.ident.as_str(), token.exp.as_str(), salt, key) {
        Ok(v) => v,
        Err(e) => {
            return Err(e);
        },
    };
    if !ct_str_eq(token.sign_b64u.as_str(), expect.as_str()) {
        return Err(Error::SignatureMismatch);
    }
    let exp_ts = match parse_utc(token.exp.as_str()) {
        Ok(t) => t,
        Err(_) => {
            return Err(Error::MalformedToken);
        },
    };
    if now_sec >= exp_ts {
        return Err(Error::Expired);
    }
    Ok(())
}

/// Law: changing the signature of a token to anything but the one its
/// identifier, expiration, salt and key determine makes validation fail
/// with `SignatureMismatch` and never another error, at every instant.
pub proof fn lemma_signature_tamper(
    ident: Seq<char>,
    exp: Seq<char>,
    sign: Seq<char>,
    salt: Seq<char>,
    key: Seq<u8>,
    now: int,
)
    requires
        sign != token_sign_spec(key, ident, exp, salt),
    ensures
        spec_validate_token(ident, exp, sign, salt, key, now) == Err::<(), Error>(
            Error::SignatureMismatch,
        ),
{
}

/// Law: a correctly signed token is rejected as `Expired` exactly at its
/// expiration instant, and accepted one second before it.
pub proof fn lemma_expiry_boundary(ident: Seq<char>, exp: Seq<char>, salt: Seq<char>, key: Seq<u8>)
    requires
        is_ts_chars(exp),
    ensures
        spec_validate_token(
            ident,
            exp,
            token_sign_spec(key, ident, exp, salt),
            salt,
            key,
            ts_chars_val(exp),
        ) == Err::<(), Error>(Error::Expired),
        spec_validate_token(
            ident,
            exp,
            token_sign_spec(key, ident, exp, salt),
            salt,
            key,
            ts_chars_val(exp) - 1,
        ) == Ok::<(), Error>(()),
{
}

/// True when the sequence holds no `.` character.
pub open spec fn dot_free(s: Seq<char>) -> bool {
    forall|i: int| 0 <= i < s.len() ==> #[trigger] s[i] != '.'
}

proof fn lemma_concat3_dot_positions(a: Seq<char>, b: Seq<char>, c: Seq<char>, p: int)
    requires
        dot_free(a),
        dot_free(b),
        dot_free(c),
        0 <= p < (a + "."@ + b + "."@ + c).len(),
        (a + "."@ + b + "."@ + c)[p] == '.',
    ensures
        p == a.len() || p == a.len() + 1 + b.len(),
{
    reveal_strlit(".");
}

proof fn lemma_split3_unique(s: Seq<char>, p1: int, p2: int, a: Seq<char>, b: Seq<char>, c: Seq<
    char,
>)
    requires
        s == a + "."@ + b + "."@ + c,
        dot_free(a),
        dot_free(b),
        dot_free(c),
        0 <= p1 < p2 < s.len(),
        s[p1] == '.',
        s[p2] == '.',
        forall|j: int| 0 <= j < s.len() && j != p1 && j != p2 ==> #[trigger] s[j] != '.',
    ensures
        p1 == a.len(),
        p2 == a.len() + 1 + b.len(),
        a == s.subrange(0, p1),
        b == s.subrange(p1 + 1, p2),
        c == s.subrange(p2 + 1, s.len() as int),
{
    reveal_strlit(".");
    let la = a.len() as int;
    let lb = b.len() as int;
    assert(s.len() == la + 1 + lb + 1 + c.len());
    assert(s[la] == '.');
    assert(s[la + 1 + lb] == '.');
    lemma_concat3_dot_positions(a, b, c, p1);
    lemma_concat3_dot_positions(a, b, c, p2);
    assert(la == p1 || la == p2);
    if la == p2 {
        assert(s[la + 1 + lb] == '.');
        assert(la + 1 + lb == p1 || la + 1 + lb == p2);
        assert(false);
    }
    assert(p1 == la);
    assert(p2 == la + 1 + lb);
    assert(a =~= s.subrange(0, p1));
    assert(b =~= s.subrange(p1 + 1, p2));
    assert(c =~= s.subrange(p2 + 1, s.len() as int));
}

impl Token {
    /// Renders the token as one URL-safe string: the Base64-URL renderings
    /// of identifier and expiration and the signature, joined by `.`.
    pub fn serialize(&self) -> (r: String)
        ensures
            r@ == serialize_spec(self.ident@, self.exp@, self.sign_b64u@),
            all_b64u_chars(b64u_of(encode_utf8(self.ident@))),
            all_b64u_chars(b64u_of(encode_utf8(self.exp@))),
    {
        let mut out = b64u_encode(self.ident.as_str());
        out.append(".");
        let e = b64u_encode(self.exp.as_str());
        out.append(e.as_str());
        out.append(".");
        out.append(self.sign_b64u.as_str());
        proof {
            assert(out@ == serialize_spec(self.ident@, self.exp@, self.sign_b64u@));
        }
        out
    }

    /// Splits a serialized token at `.` into exactly three segments, decodes
    /// identifier and expiration from Base64-URL, and checks the signature
    /// segment against the Base64-URL alphabet.  Succeeds on every rendering
    /// a token produces — the round trip is exact — and every failure is
    /// `MalformedToken`.
    pub fn parse(s: &str) -> (r: Result<Token, Error>)
        ensures
            r matches Ok(t) ==> s@ == serialize_spec(t.ident@, t.exp@, t.sign_b64u@)
                && serialized_wf(t.ident@, t.exp@, t.sign_b64u@),
            forall|i: Seq<char>, e: Seq<char>, g: Seq<char>|
                (s@ == #[trigger] serialize_spec(i, e, g) && serialized_wf(i, e, g)) ==> (
                r matches Ok(t) && t.ident@ == i && t.exp@ == e && t.sign_b64u@ == g),
            r matches Err(err) ==> err == Error::MalformedToken,
    {
        proof {
            reveal_strlit(".");
        }
        let n = s.unicode_len();
        let mut dots: usize = 0;
        let mut p1: usize = 0;
        let mut p2: usize = 0;
        let mut idx: usize = 0;
        while idx < n
            invariant
                n == s@.len(),
                0 <= idx <= n,
                dots <= 2,
                dots == 0 ==> forall|j: int| 0 <= j < idx ==> #[trigger] s@[j] != '.',
                dots >= 1 ==> 0 <= p1 < idx && s@[p1 as int] == '.',
                dots == 1 ==> forall|j: int|
                    0 <= j < idx && j != p1 ==> #[trigger] s@[j] != '.',
                dots == 2 ==> p1 < p2 < idx && s@[p2 as int] == '.',
                dots == 2 ==> forall|j: int|
                    0 <= j < idx && j != p1 && j != p2 ==> #[trigger] s@[j] != '.',
            decreases n - idx,
        {
            if s.get_char(idx) == '.' {
                if dots == 0 {
                    p1 = idx;
                } else if dots == 1 {
                    p2 = idx;
                } else {
                    proof {
                        lemma_too_many_dots(s@, p1 as int, p2 as int, idx as int);
                    }
                    return Err(Error::MalformedToken);
                }
                dots = dots + 1;
            }
            idx = idx + 1;
        }
        if dots != 2 {
            proof {
                lemma_too_few_dots(s@, dots as int, p1 as int);
            }
            return Err(Error::MalformedToken);
        }
        let seg1 = s.substring_char(0, p1);
        let seg2 = s.substring_char(p1 + 1, p2);
        let seg3 = s.substring_char(p2 + 1, n);
        proof {
            lemma_parse_segments(s@, p1 as int, p2 as int);
        }
        if !(all_b64u(seg1) && all_b64u(seg2) && all_b64u(seg3)) {
            return Err(Error::MalformedToken);
        }
        let ident = match b64u_decode(seg1) {
            Ok(v) => v,
            Err(_) => {
                return Err(Error::MalformedToken);
            },
        };
        let exp = match b64u_decode(seg2) {
            Ok(v) => v,
            Err(_) => {
                return Err(Error::MalformedToken);
            },
        };
        let sign_b64u = seg3.to_owned();
        proof {
            assert(s@ =~= serialize_spec(ident@, exp@, sign_b64u@));
        }
        Ok(Token { ident, exp, sign_b64u })
    }
}

/// In a string with three or more `.`, no well-formed serialized token can
/// be read: its segments would leave only two separator positions.
proof fn lemma_too_many_dots(s: Seq<char>, p1: int, p2: int, p3: int)
    requires
        0 <= p1 < p2 < p3 < s.len(),
        s[p1] == '.',
        s[p2] == '.',
        s[p3] == '.',
    ensures
        forall|i: Seq<char>, e: Seq<char>, g: Seq<char>|
            s == #[trigger] serialize_spec(i, e, g) ==> !serialized_wf(i, e, g),
{
    assert forall|i: Seq<char>, e: Seq<char>, g: Seq<char>|
        s == #[trigger] serialize_spec(i, e, g) implies !serialized_wf(i, e, g) by {
        if serialized_wf(i, e, g) {
            let a = b64u_of(encode_utf8(i));
            let b = b64u_of(encode_utf8(e));
            crate::utils::lemma_b64u_chars_dot_free(a);
            crate::utils::lemma_b64u_chars_dot_free(b);
            crate::utils::lemma_b64u_chars_dot_free(g);
            lemma_concat3_dot_positions(a, b, g, p1);
            lemma_concat3_dot_positions(a, b, g, p2);
            lemma_concat3_dot_positions(a, b, g, p3);
        }
    }
}

/// In a string with fewer than two `.`, no well-formed serialized token can
/// be read either: its segments put separators at two distinct positions.
proof fn lemma_too_few_dots(s: Seq<char>, dots: int, p1: int)
    requires
        dots == 0 || dots == 1,
        dots == 0 ==> forall|j: int| 0 <= j < s.len() ==> #[trigger] s[j] != '.',
        dots == 1 ==> 0 <= p1 < s.len() && s[p1] == '.',
        dots == 1 ==> forall|j: int| 0 <= j < s.len() && j != p1 ==> #[trigger] s[j] != '.',
    ensures
        forall|i: Seq<char>, e: Seq<char>, g: Seq<char>|
            s == #[trigger] serialize_spec(i, e, g) ==> !serialized_wf(i, e, g),
{
    reveal_strlit(".");
    assert forall|i: Seq<char>, e: Seq<char>, g: Seq<char>|
        s == #[trigger] serialize_spec(i, e, g) implies !serialized_wf(i, e, g) by {
        if serialized_wf(i, e, g) {
            let a = b64u_of(encode_utf8(i));
            let b = b64u_of(encode_utf8(e));
            let la = a.len() as int;
            let lb = b.len() as int;
            assert(s[la] == '.');
            assert(s[la + 1 + lb] == '.');
        }
    }
}

/// After a successful scan, the three substrings between the separators are
/// the segments of every well-formed serialized reading of the string.
proof fn lemma_parse_segments(s: Seq<char>, p1: int, p2: int)
    requires
        0 <= p1 < p2 < s.len(),
        s[p1] == '.',
        s[p2] == '.',
        forall|j: int| 0 <= j < s.len() && j != p1 && j != p2 ==> #[trigger] s[j] != '.',
    ensures
        forall|i: Seq<char>, e: Seq<char>, g: Seq<char>|
            (s == #[trigger] serialize_spec(i, e, g) && serialized_wf(i, e, g)) ==> (s.subrange(
                0,
                p1,
            ) == b64u_of(encode_utf8(i)) && s.subrange(p1 + 1, p2) == b64u_of(encode_utf8(e))
                && s.subrange(p2 + 1, s.len() as int) == g),
{
    assert forall|i: Seq<char>, e: Seq<char>, g: Seq<char>|
        (s == #[trigger] serialize_spec(i, e, g) && serialized_wf(i, e, g)) implies (s.subrange(
        0,
        p1,
    ) == b64u_of(encode_utf8(i)) && s.subrange(p1 + 1, p2) == b64u_of(encode_utf8(e))
        && s.subrange(p2 + 1, s.len() as int) == g) by {
        let a = b64u_of(encode_utf8(i));
        let b = b64u_of(encode_utf8(e));
        crate::utils::lemma_b64u_chars_dot_free(a);
        crate::utils::lemma_b64u_chars_dot_free(b);
        crate::utils::lemma_b64u_chars_dot_free(g);
        lemma_split3_unique(s, p1, p2, a, b, g);
    }
}

} // verus!
