//! The per-request identity extraction chain.
//!
//! Three stages, each built strictly on the previous one: the session
//! token read from the cookie, the validated claims, and the stored user.
//! Every stage has an optional form — absence of the prerequisite is not
//! an error — and a required form derived mechanically by turning absence
//! into `NoSessionCookie`.  A present but invalid credential is always a
//! hard error, never treated as absence.

use vstd::prelude::*;

use crate::errors::AuthExtractorError;
use crate::keys::KeyCache;
use crate::token::{token_claims, token_header, alg_allowed, Claims};
use crate::users::User;
use crate::verify::{claims_valid, needs_refresh, verify_token, verify_token_after_refresh, TokenVerdict};

verus! {

/// The name of the session cookie the identity provider sets.
pub const SESSION_COOKIE: &'static str = "cbo_session_token";

/// The opaque session token read from the named session cookie.
pub struct SessionToken {
    value: String,
}

impl View for SessionToken {
    type V = Seq<char>;

    closed spec fn view(&self) -> Seq<char> {
        self.value@
    }
}

impl SessionToken {
    /// The raw token text.
    pub fn as_str(&self) -> (r: &str)
        ensures
            r@ == self@,
    {
        self.value.as_str()
    }
}

/// Stage one, optional form: the session token is the cookie's value;
/// an absent cookie is no identity, not an error.
pub fn session_token_optional(cookie: Option<&str>) -> (r: Option<SessionToken>)
    ensures
        r is Some <==> cookie is Some,
        r matches Some(t) ==> t@ == cookie->Some_0@,
{
    match cookie {
        Some(v) => Some(SessionToken { value: v.to_owned() }),
        None => None,
    }
}

/// Turns a resolved optional extraction into the required form: absence
/// of the prerequisite becomes `NoSessionCookie`, everything else is kept.
pub fn require_present<T>(r: Result<Option<T>, AuthExtractorError>) -> (q: Result<T, AuthExtractorError>)
    ensures
        r matches Ok(o) ==> (o matches Some(v) ==> q == Ok::<T, AuthExtractorError>(v)),
        r matches Ok(o) ==> (o is None ==> q == Err::<T, AuthExtractorError>(AuthExtractorError::NoSessionCookie)),
        r matches Err(e) ==> q == Err::<T, AuthExtractorError>(e),
{
    match r {
        Ok(Some(v)) => Ok(v),
        Ok(None) => Err(AuthExtractorError::NoSessionCookie),
        Err(e) => Err(e),
    }
}

/// Stage one, required form.
pub fn session_token_required(cookie: Option<&str>) -> (r: Result<SessionToken, AuthExtractorError>)
    ensures
        cookie is None <==> r == Err::<SessionToken, AuthExtractorError>(AuthExtractorError::NoSessionCookie),
        r matches Ok(t) ==> t@ == cookie->Some_0@,
{
    require_present(match session_token_optional(cookie) {
        Some(t) => Ok(Some(t)),
        None => Ok(None),
    })
}

/// What one attempt at the claims stage decides: a final answer, or a
/// request for exactly one synchronous key refresh.
pub enum ClaimsOutcome {
    Decided(Result<Option<Claims>, AuthExtractorError>),
    NeedRefresh,
}

/// Stage two, optional form: verify and validate the cookie's token
/// against the installed keys and one time snapshot.
///
/// "No identity" (`Ok(None)`) arises exactly when the cookie is absent:
/// a present but malformed, badly signed, expired, premature or
/// misattributed token is a hard error, because a rejected credential is
/// not the absence of one.  An unknown key id asks the caller for one
/// refresh.
pub fn claims_optional(cache: &KeyCache, cookie: Option<&str>, now: i64, expected_issuer: &str)
    -> (r: ClaimsOutcome)
    ensures
        r == ClaimsOutcome::Decided(Ok::<Option<Claims>, AuthExtractorError>(None)) <==> cookie is None,
        r == ClaimsOutcome::NeedRefresh <==> (cookie matches Some(tok) && needs_refresh(
            *cache,
            tok@,
        )),
        cookie matches Some(tok) ==> (token_header(tok@) is None ==> r == ClaimsOutcome::Decided(
            Err::<Option<Claims>, AuthExtractorError>(AuthExtractorError::TokenMalformed),
        )),
        cookie matches Some(tok) ==> ((token_header(tok@) matches Some(h) && !alg_allowed(h.alg))
            ==> r == ClaimsOutcome::Decided(
            Err::<Option<Claims>, AuthExtractorError>(AuthExtractorError::DisallowedAlgorithm),
        )),
        r matches ClaimsOutcome::Decided(d) ==> (d matches Ok(o) ==> (o matches Some(c) ==> (
        cookie matches Some(tok) && token_claims(tok@) == Some(c@) && claims_valid(
            c@,
            now as int,
            expected_issuer@,
        )))),
{
    let token = match session_token_optional(cookie) {
        Some(t) => t,
        None => {
            return ClaimsOutcome::Decided(Ok(None));
        },
    };
    match verify_token(cache, token.as_str(), now, expected_issuer) {
        TokenVerdict::Decided(d) => match d {
            Ok(c) => ClaimsOutcome::Decided(Ok(Some(c))),
            Err(e) => ClaimsOutcome::Decided(Err(e)),
        },
        TokenVerdict::NeedRefresh => ClaimsOutcome::NeedRefresh,
    }
}

/// Stage two, the single retry after the one on-demand refresh: the same
/// checks, but a key id still missing is now a final `UnknownKey` error.
pub fn claims_optional_after_refresh(
    cache: &KeyCache,
    cookie: Option<&str>,
    now: i64,
    expected_issuer: &str,
) -> (r: Result<Option<Claims>, AuthExtractorError>)
    ensures
        r == Ok::<Option<Claims>, AuthExtractorError>(None) <==> cookie is None,
        cookie matches Some(tok) ==> (needs_refresh(*cache, tok@) ==> r == Err::<
            Option<Claims>,
            AuthExtractorError,
        >(AuthExtractorError::UnknownKey)),
        r matches Ok(o) ==> (o matches Some(c) ==> (cookie matches Some(tok) && token_claims(tok@)
            == Some(c@) && claims_valid(c@, now as int, expected_issuer@))),
{
    let token = match session_token_optional(cookie) {
        Some(t) => t,
        None => {
            return Ok(None);
        },
    };
    match verify_token_after_refresh(cache, token.as_str(), now, expected_issuer) {
        Ok(c) => Ok(Some(c)),
        Err(e) => Err(e),
    }
}

/// Stage three, optional form: combine the resolved claims with the
/// storage lookup for the claims' subject.
///
/// Absent claims stay "no identity"; claims whose subject has no stored
/// user are promoted to the hard error `UserNotFound`, because a validly
/// signed token without a local account is an inconsistency to surface,
/// not a bad credential.  The caller performs the lookup only when claims
/// are present and passes its result in `looked_up`.
pub fn user_optional(claims: Result<Option<Claims>, AuthExtractorError>, looked_up: Option<User>) -> (r:
    Result<Option<User>, AuthExtractorError>)
    ensures
        claims matches Err(e) ==> r == Err::<Option<User>, AuthExtractorError>(e),
        claims == Ok::<Option<Claims>, AuthExtractorError>(None) ==> r == Ok::<
            Option<User>,
            AuthExtractorError,
        >(None),
        claims matches Ok(o) ==> (o is Some ==> match looked_up {
            Some(u) => r == Ok::<Option<User>, AuthExtractorError>(Some(u)),
            None => r == Err::<Option<User>, AuthExtractorError>(AuthExtractorError::UserNotFound),
        }),
{
    match claims {
        Err(e) => Err(e),
        Ok(None) => Ok(None),
        Ok(Some(_)) => match looked_up {
            Some(u) => Ok(Some(u)),
            None => Err(AuthExtractorError::UserNotFound),
        },
    }
}

/// Stage three, required form.
pub fn user_required(claims: Result<Option<Claims>, AuthExtractorError>, looked_up: Option<User>) -> (r:
    Result<User, AuthExtractorError>)
    ensures
        claims matches Err(e) ==> r == Err::<User, AuthExtractorError>(e),
        claims == Ok::<Option<Claims>, AuthExtractorError>(None) ==> r == Err::<User, AuthExtractorError>(
            AuthExtractorError::NoSessionCookie,
        ),
        claims matches Ok(o) ==> (o is Some ==> match looked_up {
            Some(u) => r == Ok::<User, AuthExtractorError>(u),
            None => r == Err::<User, AuthExtractorError>(AuthExtractorError::UserNotFound),
        }),
{
    require_present(user_optional(claims, looked_up))
}

/// The outcome of the administrator requirement, kept structurally apart from
/// the authentication error taxonomy: an authenticated non-administrator
/// is a different condition from an authentication failure.
#[derive(Debug, Clone, Copy, PartialEq, Eq, Structural)]
pub enum AccessDecision {
    Granted,
    Forbidden,
}

impl AccessDecision {
    /// The HTTP status of the decision: forbidden, not unauthenticated.
    pub fn status_code(&self) -> (code: u16)
        ensures
            *self is Granted ==> code == 200,
            *self is Forbidden ==> code == 403,
    {
        match self {
            AccessDecision::Granted => 200,
            AccessDecision::Forbidden => 403,
        }
    }
}

/// Guards administrator-only routes: every user whose role is not the
/// administrator role is turned away.
pub fn require_admin(user: &User) -> (r: AccessDecision)
    ensures
        r == AccessDecision::Granted <==> user.role_spec() is Admin,
{
    if user.is_admin() {
        AccessDecision::Granted
    } else {
        AccessDecision::Forbidden
    }
}

} // verus!
