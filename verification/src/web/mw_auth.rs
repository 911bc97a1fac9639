use vstd::prelude::*;

use crate::crypt::token::{
    serialize_spec, serialized_wf, token_sign_spec, validate_web_token, Token,
};
use crate::ctx::Ctx;
use crate::model::user::{UserBMC, UserForAuth};
use crate::model::ModelManager;
use crate::utils::{all_b64u_chars, is_ts_chars, ts_chars_val, ts_in_range};
use crate::web::{CookieAction, Error, TOKEN_DURATION_SEC};

verus! {

/// The closed set of ways per-request context resolution can end short of
/// an identity.
#[derive(Debug)]
pub enum CtxExtError {
    TokenNotInCookie,
    TokenWrongFormat,
    CtxNotInRequestExt,
    CtxCreateFail(String),
    ModelAccessError(String),
    UserNotFound,
    FailedTokenValidation,
    FailedToUpdateCookie,
}

/// True when the cookie segments name a stored user whose current token
/// salt signs exactly this token, and the token is still live at `now`.
/// This is what a successful resolution proves about the request.
pub open spec fn resolved_user(
    mm: ModelManager,
    ident: Seq<char>,
    exp: Seq<char>,
    sign: Seq<char>,
    key: Seq<u8>,
    now: int,
) -> bool {
    &&& mm.spec_users().contains_username(ident)
    &&& sign == token_sign_spec(key, ident, exp, mm.spec_users().rec_of_username(
        ident,
    ).token_salt@)
    &&& is_ts_chars(exp)
    &&& now < ts_chars_val(exp)
}

/// Resolves the auth cookie into an identity, one step per state: no
/// cookie, parse, user lookup, validation, cookie refresh, context.
fn ctx_resolve_steps(mm: &ModelManager, cookie: Option<&str>, key: &[u8], now_sec: u64) -> (r: (
    Result<Ctx, CtxExtError>,
    Option<Token>,
))
    requires
        mm.wf(),
        ts_in_range(now_sec + TOKEN_DURATION_SEC),
    ensures
        cookie is None ==> r.0 == Err::<Ctx, CtxExtError>(CtxExtError::TokenNotInCookie),
        r.0 is Ok ==> cookie is Some,
        r.0 is Ok ==> exists|i: Seq<char>, e: Seq<char>, g: Seq<char>|
            {
                &&& cookie->0@ == #[trigger] serialize_spec(i, e, g)
                &&& serialized_wf(i, e, g)
                &&& resolved_user(*mm, i, e, g, key@, now_sec as int)
                &&& r.0->Ok_0.spec_user_id() == mm.spec_users().rec_of_username(i).id
                &&& (r.1 is Some && r.1->0.ident@ == i && is_ts_chars(r.1->0.exp@)
                    && ts_chars_val(r.1->0.exp@) == now_sec + TOKEN_DURATION_SEC
                    && r.1->0.sign_b64u@ == token_sign_spec(
                    key@,
                    i,
                    r.1->0.exp@,
                    mm.spec_users().rec_of_username(i).token_salt@,
                ) && all_b64u_chars(r.1->0.sign_b64u@))
            },
        forall|i: Seq<char>, e: Seq<char>, g: Seq<char>|
            (cookie is Some && cookie->0@ == #[trigger] serialize_spec(i, e, g)
                && serialized_wf(i, e, g) && resolved_user(*mm, i, e, g, key@, now_sec as int))
                ==> r.0 is Ok && r.0->Ok_0.spec_user_id() == mm.spec_users().rec_of_username(
                i,
            ).id,
        r.0 is Err ==> r.1 is None,
{
    let token_str = match cookie {
        Some(s) => s,
        None => {
            return (Err(CtxExtError::TokenNotInCookie), None);
        },
    };
    let token = match Token::parse(token_str) {
        Ok(t) => t,
        Err(_) => {
            return (Err(CtxExtError::TokenWrongFormat), None);
        },
    };
    let root_ctx = Ctx::root_ctx();
    let user: UserForAuth = match UserBMC::first_by_username(&root_ctx, mm, token.ident.as_str()) {
        Ok(Some(u)) => u,
        Ok(None) => {
            return (Err(CtxExtError::UserNotFound), None);
        },
        Err(_) => {
            return (Err(CtxExtError::ModelAccessError(String::new())), None);
        },
    };
    if validate_web_token(&token, user.token_salt.as_str(), key, now_sec).is_err() {
        return (Err(CtxExtError::FailedTokenValidation), None);
    }
    let fresh = match crate::crypt::token::generate_web_token(
        user.username.as_str(),
        user.token_salt.as_str(),
        key,
        now_sec,
        TOKEN_DURATION_SEC,
    ) {
        Ok(t) => t,
        Err(_) => {
            return (Err(CtxExtError::FailedToUpdateCookie), None);
        },
    };
    let ctx = match Ctx::new(user.id) {
        Ok(c) => c,
        Err(_) => {
            return (Err(CtxExtError::CtxCreateFail(String::new())), None);
        },
    };
    (Ok(ctx), Some(fresh))
}

/// The per-request middleware decision: resolves the cookie and says what
/// to do with it.  The only failure that keeps the cookie untouched is the
/// absence of one; every other failure clears it, and success rewrites it
/// with a freshly signed token (sliding expiration).
pub fn mw_ctx_resolve(mm: &ModelManager, cookie: Option<&str>, key: &[u8], now_sec: u64) -> (r: (
    Result<Ctx, CtxExtError>,
    CookieAction,
))
    requires
        mm.wf(),
        ts_in_range(now_sec + TOKEN_DURATION_SEC),
    ensures
        cookie is None ==> r.0 == Err::<Ctx, CtxExtError>(CtxExtError::TokenNotInCookie) && r.1
            is Keep,
        r.0 is Err && !(r.0->Err_0 is TokenNotInCookie) ==> r.1 is Clear,
        r.0 is Ok ==> cookie is Some,
        r.0 is Ok ==> exists|i: Seq<char>, e: Seq<char>, g: Seq<char>|
            {
                &&& cookie->0@ == #[trigger] serialize_spec(i, e, g)
                &&& serialized_wf(i, e, g)
                &&& resolved_user(*mm, i, e, g, key@, now_sec as int)
                &&& r.0->Ok_0.spec_user_id() == mm.spec_users().rec_of_username(i).id
                &&& (r.1 is Issue && r.1->Issue_0.ident@ == i && is_ts_chars(r.1->Issue_0.exp@)
                    && ts_chars_val(r.1->Issue_0.exp@) == now_sec + TOKEN_DURATION_SEC
                    && r.1->Issue_0.sign_b64u@ == token_sign_spec(
                    key@,
                    i,
                    r.1->Issue_0.exp@,
                    mm.spec_users().rec_of_username(i).token_salt@,
                ) && all_b64u_chars(r.1->Issue_0.sign_b64u@))
            },
        forall|i: Seq<char>, e: Seq<char>, g: Seq<char>|
            (cookie is Some && cookie->0@ == #[trigger] serialize_spec(i, e, g)
                && serialized_wf(i, e, g) && resolved_user(*mm, i, e, g, key@, now_sec as int))
                ==> r.0 is Ok && r.0->Ok_0.spec_user_id() == mm.spec_users().rec_of_username(
                i,
            ).id,
{
    let (result_ctx, fresh) = ctx_resolve_steps(mm, cookie, key, now_sec);
    let keep = match &result_ctx {
        Err(CtxExtError::TokenNotInCookie) => true,
        Err(_) => false,
        Ok(_) => true,
    };
    let action = match fresh {
        Some(t) => CookieAction::Issue(t),
        None => if keep {
            CookieAction::Keep
        } else {
            CookieAction::Clear
        },
    };
    (result_ctx, action)
}

/// Gate for protected routes: an identity passes through, anything else
/// becomes the typed authorization error.
pub fn mw_ctx_require(ctx: Result<Ctx, CtxExtError>) -> (r: Result<Ctx, Error>)
    ensures
        ctx matches Ok(c) ==> r == Ok::<Ctx, Error>(c),
        ctx matches Err(e) ==> r == Err::<Ctx, Error>(Error::CtxExt(e)),
{
    match ctx {
        Ok(c) => Ok(c),
        Err(e) => Err(Error::CtxExt(e)),
    }
}

/// What a handler finds in its request scope: no entry at all means the
/// resolver never ran — a wiring fault, not an authentication failure.
pub fn ctx_from_extension(ext: Option<Result<Ctx, CtxExtError>>) -> (r: Result<Ctx, Error>)
    ensures
        ext is None ==> r == Err::<Ctx, Error>(Error::CtxExt(CtxExtError::CtxNotInRequestExt)),
        ext matches Some(Ok(c)) ==> r == Ok::<Ctx, Error>(c),
        ext matches Some(Err(e)) ==> r == Err::<Ctx, Error>(Error::CtxExt(e)),
{
    match ext {
        None => Err(Error::CtxExt(CtxExtError::CtxNotInRequestExt)),
        Some(Ok(c)) => Ok(c),
        Some(Err(e)) => Err(Error::CtxExt(e)),
    }
}

} // verus!
