//! The failures the authentication core reports, and what a client is told
//! about each: a status code and a fixed message, never the text of a store
//! or cryptography error.

use vstd::prelude::*;

verus! {

/// Why a token was refused.
#[derive(Debug, Clone, Copy, PartialEq, Eq, Structural)]
pub enum TokenError {
    /// The token could not be read as a signed set of claims.
    Malformed,
    /// The signature does not belong to the token's content under the
    /// signing key and the pinned algorithm.
    InvalidSignature,
    /// The token's expiry lies in the past.
    Expired,
    /// The clock stands before the epoch, so no expiry can be judged.
    ClockBeforeEpoch,
}

/// The failures a request can end in.
#[derive(Debug, Clone, Copy, PartialEq, Eq, Structural)]
pub enum AuthError {
    /// The input has the wrong shape, such as an empty field.
    Validation,
    /// The resource exists already.
    Conflict,
    /// Bad credentials, or a missing, bad or expired token.
    Unauthorized,
    /// The store could not be reached for now; the client may try again.
    StoreUnavailable,
    /// Anything unexpected.
    Internal,
}

/// Why the service cannot be configured.
#[derive(Debug, Clone, Copy, PartialEq, Eq, Structural)]
pub enum ConfigError {
    /// No secret was supplied, or an empty one.
    MissingSecret,
}

impl AuthError {
    /// The HTTP status that stands for this failure.
    pub open spec fn spec_status_code(self) -> u16 {
        match self {
            AuthError::Validation => 400,
            AuthError::Conflict => 409,
            AuthError::Unauthorized => 401,
            AuthError::StoreUnavailable => 503,
            AuthError::Internal => 500,
        }
    }

    /// The message a client reads for this failure.
    pub open spec fn spec_message(self) -> Seq<char> {
        match self {
            AuthError::Validation => "Username and password are required"@,
            AuthError::Conflict => "username taken"@,
            AuthError::Unauthorized => "Invalid username or password"@,
            AuthError::StoreUnavailable => "Service temporarily unavailable"@,
            AuthError::Internal => "Internal error"@,
        }
    }

    /// The HTTP status that stands for this failure.
    pub fn status_code(&self) -> (code: u16)
        ensures
            code == self.spec_status_code(),
    {
        match self {
            AuthError::Validation => 400,
            AuthError::Conflict => 409,
            AuthError::Unauthorized => 401,
            AuthError::StoreUnavailable => 503,
            AuthError::Internal => 500,
        }
    }

    /// The message a client reads for this failure. It depends on the kind
    /// of failure alone, so nothing internal can leak through it.
    pub fn message(&self) -> (text: &'static str)
        ensures
            text@ == self.spec_message(),
    {
        match self {
            AuthError::Validation => "Username and password are required",
            AuthError::Conflict => "username taken",
            AuthError::Unauthorized => "Invalid username or password",
            AuthError::StoreUnavailable => "Service temporarily unavailable",
            AuthError::Internal => "Internal error",
        }
    }
}

impl TokenError {
    /// The reason a client reads when its token is refused.
    pub open spec fn spec_reason(self) -> Seq<char> {
        match self {
            TokenError::Malformed => "malformed token"@,
            TokenError::InvalidSignature => "invalid token signature"@,
            TokenError::Expired => "token expired"@,
            TokenError::ClockBeforeEpoch => "token cannot be judged"@,
        }
    }

    /// The reason a client reads when its token is refused.
    pub fn reason(&self) -> (text: &'static str)
        ensures
            text@ == self.spec_reason(),
    {
        match self {
            TokenError::Malformed => "malformed token",
            TokenError::InvalidSignature => "invalid token signature",
            TokenError::Expired => "token expired",
            TokenError::ClockBeforeEpoch => "token cannot be judged",
        }
    }
}

} // verus!
