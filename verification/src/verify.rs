//! The token verifier and claims validator.
//!
//! Verification runs in a fixed order per request: decode the header,
//! check the algorithm against the allow-list, resolve the referenced key
//! in the cache, check the signature, decode the payload, and validate the
//! claims against one externally supplied `now` and the configured issuer.
//! A key id missing from the cache asks the caller for exactly one
//! synchronous refresh; the single retry that follows never asks again.

use vstd::prelude::*;

use crate::errors::AuthExtractorError;
use crate::keys::{KeyCache, KeyEntry};
use crate::token::{
    alg_allowed, check_signature, claims_of_value, decode_token_header, is_alg_allowed,
    token_claims, token_header, value_claims, Alg, Claims, ClaimsInfo,
};

verus! {

/// Claims that pass every check at time `now` against the configured
/// issuer: expiry is strict, not-before is inclusive, and the issuer must
/// match exactly; the three conditions are independent.
pub open spec fn claims_valid(c: ClaimsInfo, now: int, issuer: Seq<char>) -> bool {
    &&& now < c.exp
    &&& c.nbf <= now
    &&& c.iss == issuer
}

/// Validates a claims value against one time snapshot and the configured
/// issuer.
///
/// The three checks are independent; the error reports the first failing
/// one in the order expiry, not-before, issuer.
pub fn validate_claims(claims: &Claims, now: i64, expected_issuer: &str) -> (r: Result<
    (),
    AuthExtractorError,
>)
    ensures
        r is Ok <==> claims_valid(claims@, now as int, expected_issuer@),
        r == Err::<(), AuthExtractorError>(AuthExtractorError::TokenExpired) <==> claims@.exp <= now,
        r == Err::<(), AuthExtractorError>(AuthExtractorError::TokenNotYetValid) <==> (now < claims@.exp
            && claims@.nbf > now),
        r == Err::<(), AuthExtractorError>(AuthExtractorError::InvalidIssuer) <==> (now < claims@.exp
            && claims@.nbf <= now && claims@.iss != expected_issuer@),
{
    if claims.exp <= now {
        return Err(AuthExtractorError::TokenExpired);
    }
    if claims.nbf > now {
        return Err(AuthExtractorError::TokenNotYetValid);
    }
    let expected: String = expected_issuer.to_owned();
    if !(claims.iss == expected) {
        return Err(AuthExtractorError::InvalidIssuer);
    }
    Ok(())
}

/// Law: the validity window's boundaries.  At `now == expiresAt` the
/// claims are already invalid (expiry is strict); at `now == notBefore`
/// they are valid, provided the window is non-empty and the issuer
/// matches (not-before is inclusive).
pub proof fn lemma_validity_boundaries(c: ClaimsInfo, issuer: Seq<char>)
    ensures
        !claims_valid(c, c.exp, issuer),
        c.iss == issuer && c.nbf < c.exp ==> claims_valid(c, c.nbf, issuer),
{
}

/// What one verification attempt decides: a final answer, or a request
/// for exactly one synchronous key refresh because the referenced key id
/// is not in the cache.
pub enum TokenVerdict {
    Decided(Result<Claims, AuthExtractorError>),
    NeedRefresh,
}

/// The pre-crypto triage of a token against a cache's readable key ids:
/// which early outcome the fixed checking order picks, if any.
pub open spec fn needs_refresh(cache: KeyCache, token: Seq<char>) -> bool {
    &&& token_header(token) matches Some(h)
    &&& alg_allowed(token_header(token)->Some_0.alg)
    &&& token_header(token)->Some_0.kid matches Some(k)
    &&& !cache.ids().contains(token_header(token)->Some_0.kid->Some_0)
}

/// Accepts or rejects a payload the signature check handed back: decodes
/// the five claim fields and validates them against one time snapshot and
/// the configured issuer.
///
/// The contract is exact for every payload value: a payload carrying all
/// five fields with valid claims is accepted with exactly those claims —
/// in particular the encoded subject — and every other payload draws the
/// one matching error.
pub fn accept_payload(payload: &serde_json::Value, now: i64, expected_issuer: &str) -> (r: Result<
    Claims,
    AuthExtractorError,
>)
    ensures
        r matches Ok(c) ==> (value_claims(*payload) == Some(c@) && claims_valid(
            c@,
            now as int,
            expected_issuer@,
        )),
        r is Ok <==> (value_claims(*payload) matches Some(ci) && claims_valid(
            ci,
            now as int,
            expected_issuer@,
        )),
        r == Err::<Claims, AuthExtractorError>(AuthExtractorError::TokenMalformed) <==> value_claims(
            *payload,
        ) is None,
        r == Err::<Claims, AuthExtractorError>(AuthExtractorError::TokenExpired) <==> (value_claims(*payload)
            matches Some(ci) && ci.exp <= now),
        r == Err::<Claims, AuthExtractorError>(AuthExtractorError::TokenNotYetValid) <==> (value_claims(*payload)
            matches Some(ci) && now < ci.exp && ci.nbf > now),
        r == Err::<Claims, AuthExtractorError>(AuthExtractorError::InvalidIssuer) <==> (value_claims(*payload)
            matches Some(ci) && now < ci.exp && ci.nbf <= now && ci.iss != expected_issuer@),
{
    let claims = match claims_of_value(payload) {
        Some(c) => c,
        None => {
            return Err(AuthExtractorError::TokenMalformed);
        },
    };
    match validate_claims(&claims, now, expected_issuer) {
        Ok(()) => Ok(claims),
        Err(e) => Err(e),
    }
}

/// Checks the signature with the resolved key and validates the claims.
fn complete_check(entry: &KeyEntry, alg: Alg, token: &str, now: i64, expected_issuer: &str) -> (r:
    Result<Claims, AuthExtractorError>)
    requires
        alg_allowed(alg),
    ensures
        r matches Ok(c) ==> token_claims(token@) == Some(c@) && claims_valid(
            c@,
            now as int,
            expected_issuer@,
        ),
        r == Err::<Claims, AuthExtractorError>(AuthExtractorError::TokenExpired) ==> (token_claims(token@) matches
            Some(c) && c.exp <= now),
        r == Err::<Claims, AuthExtractorError>(AuthExtractorError::TokenNotYetValid) ==> (token_claims(token@)
            matches Some(c) && now < c.exp && c.nbf > now),
        r == Err::<Claims, AuthExtractorError>(AuthExtractorError::InvalidIssuer) ==> (token_claims(token@) matches
            Some(c) && now < c.exp && c.nbf <= now && c.iss != expected_issuer@),
        r matches Err(e) ==> (e == AuthExtractorError::SignatureInvalid || e == AuthExtractorError::TokenMalformed
            || e == AuthExtractorError::TokenExpired || e == AuthExtractorError::TokenNotYetValid || e
            == AuthExtractorError::InvalidIssuer),
{
    let payload = match check_signature(token, &entry.key, alg) {
        Ok(v) => v,
        Err(e) => {
            return Err(e);
        },
    };
    accept_payload(&payload, now, expected_issuer)
}

/// One verification attempt against the currently installed keys.
///
/// The checking order is fixed: a malformed token is rejected first, then
/// an algorithm outside the allow-list — before any key work, so a token
/// under a disallowed algorithm is rejected even if its signature would
/// verify — then a token without a key id; a known key id goes on to the
/// signature and claim checks, and only an unknown key id asks for a
/// refresh.
pub fn verify_token(cache: &KeyCache, token: &str, now: i64, expected_issuer: &str) -> (r:
    TokenVerdict)
    ensures
        r == TokenVerdict::NeedRefresh <==> needs_refresh(*cache, token@),
        token_header(token@) is None ==> r == TokenVerdict::Decided(
            Err::<Claims, AuthExtractorError>(AuthExtractorError::TokenMalformed),
        ),
        token_header(token@) matches Some(h) && !alg_allowed(h.alg) ==> r
            == TokenVerdict::Decided(Err::<Claims, AuthExtractorError>(AuthExtractorError::DisallowedAlgorithm)),
        token_header(token@) matches Some(h) && alg_allowed(h.alg) && h.kid is None ==> r
            == TokenVerdict::Decided(Err::<Claims, AuthExtractorError>(AuthExtractorError::UnknownKey)),
        r == TokenVerdict::Decided(Err::<Claims, AuthExtractorError>(AuthExtractorError::DisallowedAlgorithm))
            <==> (token_header(token@) matches Some(h) && !alg_allowed(h.alg)),
        r == TokenVerdict::Decided(Err::<Claims, AuthExtractorError>(AuthExtractorError::UnknownKey)) <==> (
        token_header(token@) matches Some(h) && alg_allowed(h.alg) && h.kid is None),
        r matches TokenVerdict::Decided(d) ==> (d matches Ok(c) ==> token_claims(token@) == Some(
            c@,
        ) && claims_valid(c@, now as int, expected_issuer@)),
        r matches TokenVerdict::Decided(d) ==> (d is Ok ==> (token_header(token@) matches Some(h)
            && alg_allowed(h.alg) && h.kid is Some && cache.ids().contains(h.kid->Some_0))),
{
    let head = match decode_token_header(token) {
        Some(h) => h,
        None => {
            return TokenVerdict::Decided(Err(AuthExtractorError::TokenMalformed));
        },
    };
    if !is_alg_allowed(head.alg) {
        return TokenVerdict::Decided(Err(AuthExtractorError::DisallowedAlgorithm));
    }
    let kid = match head.kid {
        Some(k) => k,
        None => {
            return TokenVerdict::Decided(Err(AuthExtractorError::UnknownKey));
        },
    };
    match cache.get(kid.as_str()) {
        Some(entry) => TokenVerdict::Decided(
            complete_check(entry, head.alg, token, now, expected_issuer),
        ),
        None => TokenVerdict::NeedRefresh,
    }
}

/// The single retry after the one on-demand refresh.
///
/// It repeats the same fixed checking order, but a key id still missing
/// from the cache is now a final `UnknownKey` rejection: the rotation
/// cost is bounded to one refresh per affected request, never a loop.
pub fn verify_token_after_refresh(cache: &KeyCache, token: &str, now: i64, expected_issuer: &str)
    -> (r: Result<Claims, AuthExtractorError>)
    ensures
        needs_refresh(*cache, token@) ==> r == Err::<Claims, AuthExtractorError>(AuthExtractorError::UnknownKey),
        token_header(token@) is None ==> r == Err::<Claims, AuthExtractorError>(AuthExtractorError::TokenMalformed),
        token_header(token@) matches Some(h) && !alg_allowed(h.alg) ==> r == Err::<
            Claims,
            AuthExtractorError,
        >(AuthExtractorError::DisallowedAlgorithm),
        token_header(token@) matches Some(h) && alg_allowed(h.alg) && h.kid is None ==> r == Err::<
            Claims,
            AuthExtractorError,
        >(AuthExtractorError::UnknownKey),
        r == Err::<Claims, AuthExtractorError>(AuthExtractorError::DisallowedAlgorithm) <==> (token_header(token@)
            matches Some(h) && !alg_allowed(h.alg)),
        r == Err::<Claims, AuthExtractorError>(AuthExtractorError::UnknownKey) <==> (token_header(
            token@,
        ) matches Some(h) && alg_allowed(h.alg) && (h.kid is None || needs_refresh(
            *cache,
            token@,
        ))),
        r matches Ok(c) ==> token_claims(token@) == Some(c@) && claims_valid(
            c@,
            now as int,
            expected_issuer@,
        ),
        r is Ok ==> (token_header(token@) matches Some(h) && alg_allowed(h.alg)
            && h.kid is Some && cache.ids().contains(h.kid->Some_0)),
{
    match verify_token(cache, token, now, expected_issuer) {
        TokenVerdict::Decided(d) => d,
        TokenVerdict::NeedRefresh => Err(AuthExtractorError::UnknownKey),
    }
}

} // verus!
