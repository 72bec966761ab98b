//! Error taxonomy and its mapping to client-facing status and error codes.

use vstd::prelude::*;

verus! {

/// Internal failure taxonomy. Rich variants stay server-side; clients only
/// ever see the `ClientError` each variant maps to.
#[derive(Clone, Copy, Debug, PartialEq, Eq)]
pub enum Error {
    LoginFail,
    // -- Auth errors.
    AuthFailNoAuthTokenCookie,
    AuthFailTokenWrongFormat,
    AuthFailCtxNotInRequestExt,
    // -- Model errors.
    TicketDeleteFailIdNotFound { id: u64 },
    TicketGetFailIdNotFound { id: u64 },
}

/// Closed set of error codes ever shown to clients.
#[derive(Clone, Copy, Debug, PartialEq, Eq)]
#[allow(non_camel_case_types)]
pub enum ClientError {
    LOGIN_FAIL,
    NO_AUTH,
    INVALID_PARAMS,
    SERVICE_ERROR,
}

/// HTTP status an error is reported at. Variants without an explicit
/// mapping deliberately fall back to 500.
pub open spec fn status_of(e: Error) -> u16 {
    match e {
        Error::LoginFail => 403u16,
        Error::AuthFailNoAuthTokenCookie => 403u16,
        Error::AuthFailTokenWrongFormat => 403u16,
        Error::AuthFailCtxNotInRequestExt => 403u16,
        Error::TicketDeleteFailIdNotFound { .. } => 400u16,
        _ => 500u16,
    }
}

/// Client error code an internal error is reported as. Variants without an
/// explicit mapping deliberately fall back to `SERVICE_ERROR`.
pub open spec fn client_error_of(e: Error) -> ClientError {
    match e {
        Error::LoginFail => ClientError::LOGIN_FAIL,
        Error::AuthFailNoAuthTokenCookie => ClientError::NO_AUTH,
        Error::AuthFailTokenWrongFormat => ClientError::NO_AUTH,
        Error::AuthFailCtxNotInRequestExt => ClientError::NO_AUTH,
        Error::TicketDeleteFailIdNotFound { .. } => ClientError::INVALID_PARAMS,
        _ => ClientError::SERVICE_ERROR,
    }
}

impl Error {
    /// The `(status, client error)` pair this internal error is reported
    /// as at the HTTP boundary.
    pub fn client_status_and_error(&self) -> (r: (u16, ClientError))
        ensures
            r.0 == status_of(*self),
            r.1 == client_error_of(*self),
    {
        match self {
            // -- Login.
            Error::LoginFail => (403, ClientError::LOGIN_FAIL),
            // -- Auth.
            Error::AuthFailNoAuthTokenCookie => (403, ClientError::NO_AUTH),
            Error::AuthFailTokenWrongFormat => (403, ClientError::NO_AUTH),
            Error::AuthFailCtxNotInRequestExt => (403, ClientError::NO_AUTH),
            // -- Model.
            Error::TicketDeleteFailIdNotFound { .. } => (400, ClientError::INVALID_PARAMS),
            // -- Fallback.
            Error::TicketGetFailIdNotFound { .. } => (500, ClientError::SERVICE_ERROR),
        }
    }

    /// Variant name, for the server-side request log.
    pub fn variant_name(&self) -> (r: &'static str)
        ensures
            r@ == error_name_of(*self),
    {
        match self {
            Error::LoginFail => "LoginFail",
            Error::AuthFailNoAuthTokenCookie => "AuthFailNoAuthTokenCookie",
            Error::AuthFailTokenWrongFormat => "AuthFailTokenWrongFormat",
            Error::AuthFailCtxNotInRequestExt => "AuthFailCtxNotInRequestExt",
            Error::TicketDeleteFailIdNotFound { .. } => "TicketDeleteFailIdNotFound",
            Error::TicketGetFailIdNotFound { .. } => "TicketGetFailIdNotFound",
        }
    }
}

/// The auth group of the taxonomy: the failures the context resolver and
/// the require-auth stage can record.
pub open spec fn is_auth_error(e: Error) -> bool {
    ||| e == Error::AuthFailNoAuthTokenCookie
    ||| e == Error::AuthFailTokenWrongFormat
    ||| e == Error::AuthFailCtxNotInRequestExt
}

/// Variant name of an internal error, as logged.
pub open spec fn error_name_of(e: Error) -> Seq<char> {
    match e {
        Error::LoginFail => "LoginFail"@,
        Error::AuthFailNoAuthTokenCookie => "AuthFailNoAuthTokenCookie"@,
        Error::AuthFailTokenWrongFormat => "AuthFailTokenWrongFormat"@,
        Error::AuthFailCtxNotInRequestExt => "AuthFailCtxNotInRequestExt"@,
        Error::TicketDeleteFailIdNotFound { .. } => "TicketDeleteFailIdNotFound"@,
        Error::TicketGetFailIdNotFound { .. } => "TicketGetFailIdNotFound"@,
    }
}

/// Name of a client error code, exactly as it appears in the envelope.
pub open spec fn client_error_name_of(ce: ClientError) -> Seq<char> {
    match ce {
        ClientError::LOGIN_FAIL => "LOGIN_FAIL"@,
        ClientError::NO_AUTH => "NO_AUTH"@,
        ClientError::INVALID_PARAMS => "INVALID_PARAMS"@,
        ClientError::SERVICE_ERROR => "SERVICE_ERROR"@,
    }
}

impl ClientError {
    /// The code's name, exactly as it appears in the error envelope.
    pub fn as_str(&self) -> (r: &'static str)
        ensures
            r@ == client_error_name_of(*self),
    {
        match self {
            ClientError::LOGIN_FAIL => "LOGIN_FAIL",
            ClientError::NO_AUTH => "NO_AUTH",
            ClientError::INVALID_PARAMS => "INVALID_PARAMS",
            ClientError::SERVICE_ERROR => "SERVICE_ERROR",
        }
    }
}

} // verus!
