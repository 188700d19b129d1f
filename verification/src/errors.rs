use vstd::prelude::*;

verus! {

/// The error taxonomy of the authentication flows.  Authentication
/// failures share one generic variant per cause class, so a caller
/// cannot distinguish a wrong password from an unknown email.
#[derive(Clone, Copy, Debug, PartialEq, Eq, Structural)]
pub enum AuthError {
    /// Registration: a user with the same email or username exists.
    Conflict,
    /// Login: unknown email or wrong password (indistinguishable).
    InvalidCredentials,
    /// Protected route: no `Authorization` header at all.
    NoToken,
    /// Protected route: header does not carry `Bearer <token>`.
    InvalidTokenFormat,
    /// Token rejected: bad signature, malformed, or expired.
    InvalidToken,
    /// Token issuance failed.
    TokenCreation,
    /// Registration could not assign a fresh user id.
    Internal,
}

impl AuthError {
    /// The stable, generic message sent to clients for this error.
    pub fn message(&self) -> (r: &'static str)
        ensures
            r@ == self.spec_message(),
    {
        match self {
            AuthError::Conflict => "User with that email or username already exists",
            AuthError::InvalidCredentials => "Invalid credentials",
            AuthError::NoToken => "No authentication token provided",
            AuthError::InvalidTokenFormat => "Invalid token format",
            AuthError::InvalidToken => "Invalid or expired token",
            AuthError::TokenCreation => "Failed to generate authentication token",
            AuthError::Internal => "Failed to create user",
        }
    }

    pub open spec fn spec_message(self) -> Seq<char> {
        match self {
            AuthError::Conflict => "User with that email or username already exists"@,
            AuthError::InvalidCredentials => "Invalid credentials"@,
            AuthError::NoToken => "No authentication token provided"@,
            AuthError::InvalidTokenFormat => "Invalid token format"@,
            AuthError::InvalidToken => "Invalid or expired token"@,
            AuthError::TokenCreation => "Failed to generate authentication token"@,
            AuthError::Internal => "Failed to create user"@,
        }
    }

    /// The HTTP status code this error is reported with.
    pub fn status_code(&self) -> (r: u16)
        ensures
            r == self.spec_status_code(),
    {
        match self {
            AuthError::Conflict => 409u16,
            AuthError::InvalidCredentials => 401u16,
            AuthError::NoToken => 401u16,
            AuthError::InvalidTokenFormat => 401u16,
            AuthError::InvalidToken => 401u16,
            AuthError::TokenCreation => 500u16,
            AuthError::Internal => 500u16,
        }
    }

    pub open spec fn spec_status_code(self) -> u16 {
        match self {
            AuthError::Conflict => 409u16,
            AuthError::InvalidCredentials => 401u16,
            AuthError::NoToken => 401u16,
            AuthError::InvalidTokenFormat => 401u16,
            AuthError::InvalidToken => 401u16,
            AuthError::TokenCreation => 500u16,
            AuthError::Internal => 500u16,
        }
    }
}

} // verus!
