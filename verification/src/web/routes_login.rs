use vstd::prelude::*;

use crate::crypt::pwd::validate_pwd;
use crate::crypt::token::{generate_web_token, token_sign_spec, Token};
use crate::crypt::{encrypt_spec, EncryptContent};
use crate::ctx::Ctx;
use crate::model::user::{UserBMC, UserForLogin};
use crate::model::ModelManager;
use crate::utils::{all_b64u_chars, is_ts_chars, ts_chars_val, ts_in_range};
use crate::web::{CookieAction, Error, TOKEN_DURATION_SEC};

verus! {

/// The credentials a login request carries.
pub struct LoginPayload {
    pub username: String,
    pub pwd: String,
}

/// The logout request: nothing happens unless the client really asks.
pub struct LogoutPayload {
    pub logoff: bool,
}

/// The login decision.  An unknown username, a user without a stored
/// password, and a wrong password each fail with their own internal error
/// (the client sees one category for all three); correct credentials yield
/// a freshly signed token to set as the auth cookie.
pub fn api_login_handler(mm: &ModelManager, payload: &LoginPayload, key: &[u8], now_sec: u64) -> (
    r: Result<Token, Error>)
    requires
        mm.wf(),
        ts_in_range(now_sec + TOKEN_DURATION_SEC),
    ensures
        !mm.spec_users().contains_username(payload.username@) ==> r == Err::<Token, Error>(
            Error::LoginFailUsernameNotFound,
        ),
        (mm.spec_users().contains_username(payload.username@) && mm.spec_users().rec_of_username(
            payload.username@,
        ).pwd is None) ==> r == Err::<Token, Error>(
            Error::LoginFailNoPassword {
                user_id: mm.spec_users().rec_of_username(payload.username@).id,
            },
        ),
        (mm.spec_users().contains_username(payload.username@) && mm.spec_users().rec_of_username(
            payload.username@,
        ).pwd is Some && mm.spec_users().rec_of_username(payload.username@).pwd->Some_0@
            != encrypt_spec(
            key@,
            payload.pwd@,
            mm.spec_users().rec_of_username(payload.username@).pwd_salt@,
        )) ==> r == Err::<Token, Error>(
            Error::LoginFailPasswordMismatch {
                user_id: mm.spec_users().rec_of_username(payload.username@).id,
            },
        ),
        (mm.spec_users().contains_username(payload.username@) && mm.spec_users().rec_of_username(
            payload.username@,
        ).pwd is Some && mm.spec_users().rec_of_username(payload.username@).pwd->Some_0@
            == encrypt_spec(
            key@,
            payload.pwd@,
            mm.spec_users().rec_of_username(payload.username@).pwd_salt@,
        )) ==> r is Ok && r->Ok_0.ident@ == payload.username@ && is_ts_chars(r->Ok_0.exp@)
            && ts_chars_val(r->Ok_0.exp@) == now_sec + TOKEN_DURATION_SEC && r->Ok_0.sign_b64u@
            == token_sign_spec(
            key@,
            payload.username@,
            r->Ok_0.exp@,
            mm.spec_users().rec_of_username(payload.username@).token_salt@,
        ) && all_b64u_chars(r->Ok_0.sign_b64u@),
{
    let root_ctx = Ctx::root_ctx();
    let user: UserForLogin = match UserBMC::first_by_username(
        &root_ctx,
        mm,
        payload.username.as_str(),
    ) {
        Ok(Some(u)) => u,
        Ok(None) => {
            return Err(Error::LoginFailUsernameNotFound);
        },
        Err(_) => {
            return Err(Error::LoginFailUsernameNotFound);
        },
    };
    let user_id = user.id;
    let stored_pwd = match user.pwd {
        Some(p) => p,
        None => {
            return Err(Error::LoginFailNoPassword { user_id });
        },
    };
    let enc = EncryptContent { content: payload.pwd.clone(), salt: user.pwd_salt.clone() };
    if validate_pwd(key, &enc, stored_pwd.as_str()).is_err() {
        return Err(Error::LoginFailPasswordMismatch { user_id });
    }
    match generate_web_token(
        user.username.as_str(),
        user.token_salt.as_str(),
        key,
        now_sec,
        TOKEN_DURATION_SEC,
    ) {
        Ok(t) => Ok(t),
        Err(e) => Err(Error::Crypt(e)),
    }
}

/// The logout decision: an explicit `logoff` clears the auth cookie,
/// anything else is refused.
pub fn api_logout_handler(payload: &LogoutPayload) -> (r: Result<CookieAction, Error>)
    ensures
        payload.logoff ==> r is Ok && r->Ok_0 is Clear,
        !payload.logoff ==> r == Err::<CookieAction, Error>(Error::LogoutFail),
{
    if payload.logoff {
        Ok(CookieAction::Clear)
    } else {
        Err(Error::LogoutFail)
    }
}

} // verus!
