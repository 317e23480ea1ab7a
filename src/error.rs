use vstd::prelude::*;

verus! {

/// Why a raw string was not accepted as a domain value.
#[derive(Debug, Clone, Copy, PartialEq, Eq, Structural)]
pub enum ValidationError {
    InvalidEmail,
    InvalidPassword,
    InvalidLoginAttemptId,
    InvalidTwoFACode,
}

} // verus!

verus! {

/// Failures of the account store.
#[derive(Debug, Clone, Copy, PartialEq, Eq, Structural)]
pub enum UserStoreError {
    UserAlreadyExists,
    UserNotFound,
    InvalidCredentials,
}

/// Failures of the revocation ledger.
#[derive(Debug, Clone, Copy, PartialEq, Eq, Structural)]
pub enum BannedTokenStoreError {
    UnexpectedError,
}

/// Failures of the second-factor challenge store.
#[derive(Debug, Clone, Copy, PartialEq, Eq, Structural)]
pub enum TwoFACodeStoreError {
    LoginAttemptIdNotFound,
    UnexpectedError,
}

} // verus!

verus! {

/// The outcome classes that the use cases report to a caller.
#[derive(Debug, Clone, Copy, PartialEq, Eq, Structural)]
pub enum AuthAPIError {
    UserAlreadyExists,
    InvalidCredentials,
    IncorrectCredentials,
    MissingToken,
    InvalidToken,
    UnexpectedError,
    /// The challenge was recorded but its code could not be delivered.
    TwoFACodeNotSent,
}

/// The HTTP status of each error.
pub open spec fn status_of(e: AuthAPIError) -> u16 {
    match e {
        AuthAPIError::UserAlreadyExists => 409,
        AuthAPIError::InvalidCredentials => 400,
        AuthAPIError::IncorrectCredentials => 401,
        AuthAPIError::MissingToken => 400,
        AuthAPIError::InvalidToken => 401,
        AuthAPIError::UnexpectedError => 500,
        AuthAPIError::TwoFACodeNotSent => 502,
    }
}

/// The message shown to the client for each error.
pub open spec fn message_of(e: AuthAPIError) -> Seq<char> {
    match e {
        AuthAPIError::UserAlreadyExists => "User already exists"@,
        AuthAPIError::InvalidCredentials => "Invalid credentials"@,
        AuthAPIError::IncorrectCredentials => "Incorrect credentials"@,
        AuthAPIError::MissingToken => "Missing auth token"@,
        AuthAPIError::InvalidToken => "Invalid auth token"@,
        AuthAPIError::UnexpectedError => "Unexpected error"@,
        AuthAPIError::TwoFACodeNotSent => "Failed to send 2FA code"@,
    }
}

/// The body of an error response.
#[derive(Debug)]
pub struct ErrorResponse {
    pub error: String,
}

impl AuthAPIError {
    pub fn status_code(&self) -> (r: u16)
        ensures
            r == status_of(*self),
    {
        match self {
            AuthAPIError::UserAlreadyExists => 409,
            AuthAPIError::InvalidCredentials => 400,
            AuthAPIError::IncorrectCredentials => 401,
            AuthAPIError::MissingToken => 400,
            AuthAPIError::InvalidToken => 401,
            AuthAPIError::UnexpectedError => 500,
            AuthAPIError::TwoFACodeNotSent => 502,
        }
    }

    pub fn message(&self) -> (r: &'static str)
        ensures
            r@ == message_of(*self),
    {
        match self {
            AuthAPIError::UserAlreadyExists => "User already exists",
            AuthAPIError::InvalidCredentials => "Invalid credentials",
            AuthAPIError::IncorrectCredentials => "Incorrect credentials",
            AuthAPIError::MissingToken => "Missing auth token",
            AuthAPIError::InvalidToken => "Invalid auth token",
            AuthAPIError::UnexpectedError => "Unexpected error",
            AuthAPIError::TwoFACodeNotSent => "Failed to send 2FA code",
        }
    }

    /// The status and body that a client receives for this error.
    pub fn error_response(&self) -> (r: (u16, ErrorResponse))
        ensures
            r.0 == status_of(*self),
            r.1.error@ == message_of(*self),
    {
        (self.status_code(), ErrorResponse { error: self.message().to_string() })
    }
}

} // verus!
