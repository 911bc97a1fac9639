use vstd::prelude::*;

use crate::crypt;
use crate::model;
use crate::web::mw_auth::CtxExtError;

verus! {

/// Errors of the web layer: login, context extraction, RPC dispatch, and
/// pass-throughs from the model and cryptography layers.
#[derive(Debug)]
pub enum Error {
    // -- Login
    LoginFail,
    LoginFailUsernameNotFound,
    LoginFailNoPassword { user_id: u64 },
    LoginFailPasswordMismatch { user_id: u64 },
    LogoutFail,
    // -- Context extraction
    CtxExt(CtxExtError),
    // -- RPC
    RpcMethodUnknown(String),
    RpcMissingParams { rpc_method: String },
    RpcFailToInterpret { rpc_method: String },
    // -- Modules
    Model(model::Error),
    Crypt(crypt::Error),
    // -- Externals
    Serde(String),
}

/// The client-safe categories: every login failure collapses into one
/// label, every context-extraction failure into another, so the response
/// never reveals which part of a credential was wrong.
#[derive(Debug)]
#[allow(non_camel_case_types)]
pub enum ClientError {
    LOGIN_FAIL,
    NO_AUTH,
    SERVICE_ERROR,
    ENTITY_NOT_FOUND { entity: &'static str, id: i64 },
}

/// The deterministic mapping from an internal error to HTTP status and
/// client category.  Anything unmapped falls back to a generic service
/// error — internal detail never reaches the client.
pub open spec fn spec_client_status_and_error(e: Error) -> (u16, ClientError) {
    match e {
        Error::LoginFail => (401u16, ClientError::LOGIN_FAIL),
        Error::LoginFailUsernameNotFound => (401u16, ClientError::LOGIN_FAIL),
        Error::LoginFailNoPassword { user_id: _ } => (401u16, ClientError::LOGIN_FAIL),
        Error::LoginFailPasswordMismatch { user_id: _ } => (401u16, ClientError::LOGIN_FAIL),
        Error::CtxExt(_) => (403u16, ClientError::NO_AUTH),
        Error::Model(model::Error::EntityNotFound { entity, id }) => (
            400u16,
            ClientError::ENTITY_NOT_FOUND { entity, id },
        ),
        _ => (500u16, ClientError::SERVICE_ERROR),
    }
}

impl Error {
    /// Classifies the error into its HTTP status code and client category.
    pub fn client_status_and_error(&self) -> (r: (u16, ClientError))
        ensures
            r == spec_client_status_and_error(*self),
    {
        match self {
            Error::LoginFail | Error::LoginFailUsernameNotFound | Error::LoginFailNoPassword {
                user_id: _,
            } | Error::LoginFailPasswordMismatch { user_id: _ } => (401, ClientError::LOGIN_FAIL),
            Error::CtxExt(_) => (403, ClientError::NO_AUTH),
            Error::Model(model::Error::EntityNotFound { entity, id }) => (
                400,
                ClientError::ENTITY_NOT_FOUND { entity, id: *id },
            ),
            _ => (500, ClientError::SERVICE_ERROR),
        }
    }
}

} // verus!
