//! The failures a request can end in, and how each is reported.

use vstd::prelude::*;

verus! {

/// Why a request was turned away.
///
/// Every value is final for the request it belongs to: nothing here is retried.
#[derive(Clone, Copy, Debug, PartialEq, Eq, Structural)]
pub enum AuthError {
    /// Sign-in with an unknown email or a password that does not match.
    /// The two are reported alike, so that a caller cannot learn which
    /// addresses are registered.
    InvalidCredentials,
    /// Sign-up with an email that already has a credential record.
    EmailTaken,
    /// A protected request that carried no token.
    TokenAbsent,
    /// A token that is malformed, wrongly signed or expired.
    InvalidToken,
    /// The credential store, or the hashing it relies on, failed.
    StorageError,
}

/// HTTP status of a request that was not authenticated.
pub const STATUS_UNAUTHORIZED: u16 = 401;

/// HTTP status of a sign-up whose email is already registered.
pub const STATUS_UNPROCESSABLE: u16 = 422;

/// HTTP status of a request that failed inside the service.
pub const STATUS_INTERNAL: u16 = 500;

/// HTTP status of a resource that does not exist.
pub const STATUS_NOT_FOUND: u16 = 404;

/// HTTP status of a request that was answered.
pub const STATUS_OK: u16 = 200;

/// HTTP status of a request that created a record.
pub const STATUS_CREATED: u16 = 201;

impl AuthError {
    /// The status that `self` is answered with.
    pub open spec fn spec_status(self) -> u16 {
        match self {
            AuthError::InvalidCredentials => STATUS_UNAUTHORIZED,
            AuthError::EmailTaken => STATUS_UNPROCESSABLE,
            AuthError::TokenAbsent => STATUS_UNAUTHORIZED,
            AuthError::InvalidToken => STATUS_UNAUTHORIZED,
            AuthError::StorageError => STATUS_INTERNAL,
        }
    }

    /// The text that `self` is answered with.
    pub open spec fn spec_message(self) -> Seq<char> {
        match self {
            AuthError::InvalidCredentials => "Invalid credentials"@,
            AuthError::EmailTaken => "An account exists with that email address."@,
            AuthError::TokenAbsent => "Token absent"@,
            AuthError::InvalidToken => "Invalid token"@,
            AuthError::StorageError => "Storage error"@,
        }
    }

    /// The HTTP status for this error.
    pub fn status(&self) -> (code: u16)
        ensures
            code == self.spec_status(),
            400 <= code < 600,
    {
        match self {
            AuthError::InvalidCredentials => STATUS_UNAUTHORIZED,
            AuthError::EmailTaken => STATUS_UNPROCESSABLE,
            AuthError::TokenAbsent => STATUS_UNAUTHORIZED,
            AuthError::InvalidToken => STATUS_UNAUTHORIZED,
            AuthError::StorageError => STATUS_INTERNAL,
        }
    }

    /// The message for this error. It names the kind of failure and nothing
    /// of what caused it.
    pub fn message(&self) -> (text: String)
        ensures
            text@ == self.spec_message(),
    {
        match self {
            AuthError::InvalidCredentials => "Invalid credentials".to_owned(),
            AuthError::EmailTaken => "An account exists with that email address.".to_owned(),
            AuthError::TokenAbsent => "Token absent".to_owned(),
            AuthError::InvalidToken => "Invalid token".to_owned(),
            AuthError::StorageError => "Storage error".to_owned(),
        }
    }
}

} // verus!
