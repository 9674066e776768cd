//! The unified error taxonomy and its HTTP rendering: each kind maps to one
//! status code; protocol errors carry their standard error code.

use vstd::prelude::*;

verus! {

/// RFC 6749 token-endpoint error kinds used by this provider.
#[derive(Clone, Copy, Debug, PartialEq, Eq, Structural)]
pub enum TokenErrorKind {
    /// The authorization code is unknown, expired, or already used.
    InvalidGrant,
    /// Client authentication failed.
    InvalidClient,
}

impl TokenErrorKind {
    /// The standard `error` code string.
    pub fn code(&self) -> (r: &'static str)
        ensures
            *self is InvalidGrant ==> r@ == "invalid_grant"@,
            *self is InvalidClient ==> r@ == "invalid_client"@,
    {
        match self {
            TokenErrorKind::InvalidGrant => "invalid_grant",
            TokenErrorKind::InvalidClient => "invalid_client",
        }
    }
}

/// RFC 7591 registration error kinds used by this provider.
#[derive(Clone, Copy, Debug, PartialEq, Eq, Structural)]
pub enum RegisterErrorKind {
    /// Required client metadata was absent or unusable.
    InvalidClientMetadata,
}

impl RegisterErrorKind {
    /// The standard `error` code string.
    pub fn code(&self) -> (r: &'static str)
        ensures
            r@ == "invalid_client_metadata"@,
    {
        "invalid_client_metadata"
    }
}

/// Everything a handler can fail with.
#[derive(Clone, Debug)]
pub enum ApiError {
    /// The submitted CSRF field did not match the browser's nonce cookie.
    CsrfFailure,
    /// A storage operation failed.
    Database,
    /// Password hashing failed internally.
    PasswordHash,
    /// A URL could not be parsed or built.
    Url,
    /// A signing operation failed.
    Crypto,
    /// Client registration was rejected.
    OidcRegistration(RegisterErrorKind),
    /// The token exchange was rejected.
    OauthToken(TokenErrorKind),
    /// A request failed before its redirect URI was attested; rendered as
    /// problem+json, never as a redirect.
    BadRequest,
    /// The client or redirect URI is not registered.
    NotFound,
    /// A bearer credential was missing, unknown, or expired.
    Unauthorized,
    /// A prepared redirect: the response is `Location: <the carried URL>`.
    Redirect(String),
}

impl ApiError {
    /// The HTTP status this error renders as.
    pub open spec fn spec_status(&self) -> u16 {
        match self {
            ApiError::CsrfFailure => 400,
            ApiError::Database => 500,
            ApiError::PasswordHash => 500,
            ApiError::Url => 500,
            ApiError::Crypto => 500,
            ApiError::OidcRegistration(_) => 400,
            ApiError::OauthToken(_) => 400,
            ApiError::BadRequest => 400,
            ApiError::NotFound => 404,
            ApiError::Unauthorized => 401,
            ApiError::Redirect(_) => 303,
        }
    }

    /// The HTTP status this error renders as: 400 for CSRF, protocol and
    /// parse failures, 404 for unknown client data, 401 for bad bearer
    /// credentials, 303 for prepared redirects, 500 for internal faults.
    pub fn status(&self) -> (s: u16)
        ensures
            s == self.spec_status(),
    {
        match self {
            ApiError::CsrfFailure => 400,
            ApiError::Database => 500,
            ApiError::PasswordHash => 500,
            ApiError::Url => 500,
            ApiError::Crypto => 500,
            ApiError::OidcRegistration(_) => 400,
            ApiError::OauthToken(_) => 400,
            ApiError::BadRequest => 400,
            ApiError::NotFound => 404,
            ApiError::Unauthorized => 401,
            ApiError::Redirect(_) => 303,
        }
    }
}

} // verus!
