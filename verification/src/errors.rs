//! Error taxonomy of the core and its mapping to transport status codes.

use vstd::prelude::*;

verus! {

/// Failures of session-token validation.
#[derive(Clone, Copy, Debug, PartialEq, Eq, Structural)]
pub enum TokenError {
    /// The token does not decode into claims at all.
    Malformed,
    /// The claims decode but the integrity tag does not match.
    InvalidSignature,
    /// An access token was presented where a refresh token is required, or
    /// the other way round.
    WrongTokenType,
    /// The token is past its expiry instant.
    Expired,
}

/// Domain errors surfaced by the authentication service.  Distinct internal
/// reasons are deliberately collapsed where revealing them would allow
/// account enumeration: a missing user and a wrong password both surface as
/// [`AuthError::InvalidCredentials`], and a missing, consumed or expired
/// verification artifact surfaces uniformly as
/// [`AuthError::InvalidOrExpiredToken`].
#[derive(Clone, Copy, Debug, PartialEq, Eq, Structural)]
pub enum AuthError {
    InvalidCredentials,
    EmailAlreadyExists,
    WeakPassword,
    InvalidOrExpiredToken,
    AccountDisabled,
    EmailNotVerified,
    Forbidden,
    UserNotFound,
    Malformed,
    InvalidSignature,
    WrongTokenType,
    Expired,
    Internal,
}

/// How a token-validation failure surfaces at the service boundary.
pub open spec fn spec_auth_error_of_token(e: TokenError) -> AuthError {
    match e {
        TokenError::Malformed => AuthError::Malformed,
        TokenError::InvalidSignature => AuthError::InvalidSignature,
        TokenError::WrongTokenType => AuthError::WrongTokenType,
        TokenError::Expired => AuthError::Expired,
    }
}

#[verifier::when_used_as_spec(spec_auth_error_of_token)]
pub fn auth_error_of_token(e: TokenError) -> (r: AuthError)
    ensures
        r == spec_auth_error_of_token(e),
{
    match e {
        TokenError::Malformed => AuthError::Malformed,
        TokenError::InvalidSignature => AuthError::InvalidSignature,
        TokenError::WrongTokenType => AuthError::WrongTokenType,
        TokenError::Expired => AuthError::Expired,
    }
}

/// HTTP status under which each error kind leaves the core.
pub open spec fn spec_status_code(e: AuthError) -> u16 {
    match e {
        AuthError::InvalidCredentials => 401,
        AuthError::EmailAlreadyExists => 409,
        AuthError::WeakPassword => 422,
        AuthError::InvalidOrExpiredToken => 400,
        AuthError::AccountDisabled => 403,
        AuthError::EmailNotVerified => 403,
        AuthError::Forbidden => 403,
        AuthError::UserNotFound => 404,
        AuthError::Malformed => 401,
        AuthError::InvalidSignature => 401,
        AuthError::WrongTokenType => 401,
        AuthError::Expired => 401,
        AuthError::Internal => 500,
    }
}

impl AuthError {
    pub fn status_code(self) -> (c: u16)
        ensures
            c == spec_status_code(self),
    {
        match self {
            AuthError::InvalidCredentials => 401,
            AuthError::EmailAlreadyExists => 409,
            AuthError::WeakPassword => 422,
            AuthError::InvalidOrExpiredToken => 400,
            AuthError::AccountDisabled => 403,
            AuthError::EmailNotVerified => 403,
            AuthError::Forbidden => 403,
            AuthError::UserNotFound => 404,
            AuthError::Malformed => 401,
            AuthError::InvalidSignature => 401,
            AuthError::WrongTokenType => 401,
            AuthError::Expired => 401,
            AuthError::Internal => 500,
        }
    }

    /// User-visible message.  The message is a function of the error kind
    /// alone, so the two collapsed login failures are textually identical.
    pub fn message(self) -> (s: &'static str)
        ensures
            self == AuthError::InvalidCredentials ==> s@ == "Invalid email or password"@,
            self == AuthError::InvalidOrExpiredToken ==> s@ == "Invalid or expired token"@,
    {
        match self {
            AuthError::InvalidCredentials => "Invalid email or password",
            AuthError::EmailAlreadyExists => "An account with this email already exists",
            AuthError::WeakPassword => "Password does not meet the minimum requirements",
            AuthError::InvalidOrExpiredToken => "Invalid or expired token",
            AuthError::AccountDisabled => "This account has been disabled",
            AuthError::EmailNotVerified => "Email address has not been verified",
            AuthError::Forbidden => "You are not allowed to perform this action",
            AuthError::UserNotFound => "User not found",
            AuthError::Malformed => "Invalid token",
            AuthError::InvalidSignature => "Invalid token signature",
            AuthError::WrongTokenType => "Wrong token type",
            AuthError::Expired => "Token has expired",
            AuthError::Internal => "Internal server error",
        }
    }
}

} // verus!
