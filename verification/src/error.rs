use vstd::prelude::*;

verus! {

/// Errors of the ticket service surface.
#[derive(Debug, Clone, Copy, PartialEq, Eq, Structural)]
pub enum Error {
    LoginFail,
    TicketDeletionFailtureIdNotfound { id: u64 },
    AuthFailNoAuthTokenCookie,
    AuthFailWrongTokenFormat,
    AuthFailCTXNotInRequest,
}

/// The client-safe categories a response may carry in place of the internal
/// error.
#[derive(Debug, Clone, Copy, PartialEq, Eq, Structural)]
#[allow(non_camel_case_types)]
pub enum ClientError {
    LOGIN_FAIL,
    NO_AUTH,
    INVALD_PARAMS,
    SERVICE_ERROR,
}

/// The deterministic mapping from an internal error to the HTTP status code
/// and client-safe category that the response carries.  Authentication
/// failures all map to one category, so a client cannot tell which part of
/// the credential was wrong.
pub open spec fn spec_client_status_and_error(e: Error) -> (u16, ClientError) {
    match e {
        Error::LoginFail => (401u16, ClientError::LOGIN_FAIL),
        Error::TicketDeletionFailtureIdNotfound { id: _ } => (400u16, ClientError::INVALD_PARAMS),
        Error::AuthFailNoAuthTokenCookie => (401u16, ClientError::NO_AUTH),
        Error::AuthFailWrongTokenFormat => (401u16, ClientError::NO_AUTH),
        Error::AuthFailCTXNotInRequest => (401u16, ClientError::NO_AUTH),
    }
}

impl Error {
    /// Classifies the error into its HTTP status code and client category.
    pub fn client_status_and_error(&self) -> (r: (u16, ClientError))
        ensures
            r == spec_client_status_and_error(*self),
    {
        match self {
            Error::LoginFail => (401, ClientError::LOGIN_FAIL),
            Error::TicketDeletionFailtureIdNotfound { id: _ } => (400, ClientError::INVALD_PARAMS),
            Error::AuthFailNoAuthTokenCookie | Error::AuthFailWrongTokenFormat
            | Error::AuthFailCTXNotInRequest => (401, ClientError::NO_AUTH),
        }
    }
}

} // verus!
