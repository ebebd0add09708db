//! Why a token could not be issued or was not accepted.

use vstd::prelude::*;

verus! {

/// How the token service fails.
///
/// A caller whose token is not accepted is told [`JwtError::Invalid`] and no
/// more. The three reasons behind it are kept apart for logging only; they
/// are what [`crate::jwt::jwt::check_claims`] returns.
#[derive(Debug, Clone, Copy, PartialEq, Eq, Structural)]
pub enum JwtError {
    /// The token is not accepted.
    Invalid,
    /// The token could not be made: its expiry does not fit.
    TokenCreationError,
    /// Reason: the token is malformed or its signature does not match the
    /// key.
    TokenDecodingError,
    /// Reason: the token's expiry lies in the past.
    TokenExpired,
    /// Reason: the token is of another kind than the one expected.
    InvalidTokenType,
}

impl JwtError {
    /// The message that belongs to this error.
    pub fn message(&self) -> (s: &'static str)
        ensures
            s@ == self.message_text(),
    {
        match self {
            JwtError::Invalid => "Invalid token",
            JwtError::TokenCreationError => "Failed to create token",
            JwtError::TokenDecodingError => "Failed to decode token",
            JwtError::TokenExpired => "Token expired",
            JwtError::InvalidTokenType => "Invalid token type",
        }
    }

    /// The text of [`JwtError::message`].
    pub open spec fn message_text(&self) -> Seq<char> {
        match self {
            JwtError::Invalid => "Invalid token"@,
            JwtError::TokenCreationError => "Failed to create token"@,
            JwtError::TokenDecodingError => "Failed to decode token"@,
            JwtError::TokenExpired => "Token expired"@,
            JwtError::InvalidTokenType => "Invalid token type"@,
        }
    }
}

} // verus!
