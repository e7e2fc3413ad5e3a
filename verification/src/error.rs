//! The outcomes a caller can observe, and the causes that lead to them.

use vstd::prelude::*;

verus! {

/// What a client is told when a request does not go through.
#[derive(Clone, Copy, Debug, PartialEq, Eq, Structural)]
pub enum AuthError {
    /// The request carries no acceptable credential.
    Unauthorized,
    /// The service itself is misconfigured or could not sign.
    ServerError,
    /// An identity value could not be read by the handler that needs it.
    BadRequest,
}

impl AuthError {
    /// The HTTP status code that stands for this error.
    pub open spec fn spec_status_code(self) -> u16 {
        match self {
            AuthError::Unauthorized => 401,
            AuthError::ServerError => 500,
            AuthError::BadRequest => 400,
        }
    }

    /// The HTTP status code that stands for this error.
    #[verifier::when_used_as_spec(spec_status_code)]
    pub fn status_code(self) -> (code: u16)
        ensures
            code == self.spec_status_code(),
    {
        match self {
            AuthError::Unauthorized => 401,
            AuthError::ServerError => 500,
            AuthError::BadRequest => 400,
        }
    }
}

/// Why a request was turned away. Kept for logs and tests; a client only
/// ever sees the [`AuthError`] that [`Rejection::outcome`] maps it to.
#[derive(Clone, Copy, Debug, PartialEq, Eq, Structural)]
pub enum Rejection {
    /// No signing configuration is available.
    Unconfigured,
    /// The request has no `Authorization` header.
    MissingHeader,
    /// The header does not begin with `Bearer `.
    WrongScheme,
    /// The token is empty, malformed, or not signed with the configured secret.
    InvalidToken,
    /// The token's expiry time has been reached.
    Expired,
    /// The token names another issuer.
    WrongIssuer,
}

impl Rejection {
    /// The single mapping from causes to what the client observes: every
    /// cause but a missing configuration collapses to `Unauthorized`.
    pub open spec fn spec_outcome(self) -> AuthError {
        match self {
            Rejection::Unconfigured => AuthError::ServerError,
            _ => AuthError::Unauthorized,
        }
    }

    /// The single mapping from causes to what the client observes.
    #[verifier::when_used_as_spec(spec_outcome)]
    pub fn outcome(self) -> (error: AuthError)
        ensures
            error == self.spec_outcome(),
    {
        match self {
            Rejection::Unconfigured => AuthError::ServerError,
            _ => AuthError::Unauthorized,
        }
    }
}

} // verus!
