//! Error taxonomy of the authentication pipeline.
//!
//! Every failure a request can meet while its identity is extracted is one
//! of the kinds below.  The split follows one rule: only the true absence
//! of a credential is "no identity" (`NoSessionCookie`); a present but bad
//! credential is always a distinct, rejected-credential kind; an account
//! missing for a validly signed token is an internal inconsistency.

use vstd::prelude::*;

verus! {

/// A failure of the identity extraction chain.
#[derive(Debug, Clone, PartialEq, Eq, Structural)]
pub enum AuthExtractorError {
    /// The session cookie is not present.
    NoSessionCookie,
    /// The token does not have the well-formed three-part signed shape,
    /// or its payload is not a claims object.
    TokenMalformed,
    /// The signature does not verify under the referenced key.
    SignatureInvalid,
    /// The token's key id is not in the key cache, even after one refresh.
    UnknownKey,
    /// The token's header algorithm is outside the accepted allow-list.
    DisallowedAlgorithm,
    /// The claims' expiry is not strictly in the future.
    TokenExpired,
    /// The claims' not-before is still in the future.
    TokenNotYetValid,
    /// The claims' issuer differs from the configured issuer.
    InvalidIssuer,
    /// A validly signed token has no matching stored user.
    UserNotFound,
}

/// A failure to fetch or parse the remote key-set document.
///
/// Never surfaced on the request path: it only degrades key freshness.
#[derive(Debug, Clone, PartialEq, Eq, Structural)]
pub enum FetchError {
    /// The network call to the key-set endpoint failed.
    Transport,
    /// The fetched document is not a well-formed key-set document.
    Malformed,
    /// A listed key's material could not be turned into a verification key.
    BadKey,
}

impl AuthExtractorError {
    /// The HTTP status this failure maps to at the service edge.
    ///
    /// `UserNotFound` signals a provisioning defect, not a bad credential,
    /// so it maps to a server error; every other kind is an unauthenticated
    /// outcome.
    pub fn status_code(&self) -> (code: u16)
        ensures
            code == self.status_code_spec(),
    {
        match self {
            AuthExtractorError::UserNotFound => 500,
            _ => 401,
        }
    }

    /// What `status_code` returns for each kind.
    pub open spec fn status_code_spec(self) -> u16 {
        match self {
            AuthExtractorError::UserNotFound => 500u16,
            _ => 401u16,
        }
    }
}

} // verus!
