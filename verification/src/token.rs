//! Token-level data: header algorithm tags, the claims carried by a
//! verified token, and the trusted boundary to the signature library.
//!
//! The pipeline accepts a fixed allow-list of asymmetric signature
//! algorithms; everything else (symmetric algorithms, `none`, unknown
//! names) is collapsed into [`Alg::Other`] and rejected before any
//! cryptographic work happens.

use vstd::prelude::*;

use crate::errors::AuthExtractorError;

verus! {

/// The signature algorithm named by a token header, folded onto the
/// pipeline's allow-list: the three accepted RSA algorithms are kept
/// apart, every other algorithm is `Other`.
#[derive(Debug, Clone, Copy, PartialEq, Eq, Structural)]
pub enum Alg {
    /// RSASSA-PKCS1-v1_5 using SHA-256: the primary accepted algorithm.
    Rs256,
    /// RSASSA-PKCS1-v1_5 using SHA-384: accepted fallback.
    Rs384,
    /// RSASSA-PKCS1-v1_5 using SHA-512: accepted fallback.
    Rs512,
    /// Any algorithm outside the allow-list.
    Other,
}

/// Whether an algorithm is on the fixed allow-list.
pub open spec fn alg_allowed(a: Alg) -> bool {
    a != Alg::Other
}

/// Runtime form of [`alg_allowed`].
pub fn is_alg_allowed(a: Alg) -> (r: bool)
    ensures
        r == alg_allowed(a),
{
    match a {
        Alg::Other => false,
        _ => true,
    }
}

/// What a token's protected header says: the optional key id and the
/// algorithm, folded onto the allow-list.
pub ghost struct HeaderInfo {
    pub kid: Option<Seq<char>>,
    pub alg: Alg,
}

/// The runtime form of a decoded token header.
pub struct TokenHead {
    pub kid: Option<String>,
    pub alg: Alg,
}

impl View for TokenHead {
    type V = HeaderInfo;

    open spec fn view(&self) -> HeaderInfo {
        HeaderInfo {
            kid: match self.kid {
                Some(k) => Some(k@),
                None => None,
            },
            alg: self.alg,
        }
    }
}

/// The five claim fields this service reads from a token payload.
/// Timestamps are seconds since the Unix epoch.
pub ghost struct ClaimsInfo {
    pub iss: Seq<char>,
    pub sub: Seq<char>,
    pub exp: int,
    pub nbf: int,
    pub email: Seq<char>,
}

/// The validated payload of a signed token: issuer, subject, validity
/// window, and the subject's e-mail address.  Unknown payload fields are
/// ignored when the payload is decoded.
#[derive(Debug, Clone)]
pub struct Claims {
    pub iss: String,
    pub sub: String,
    pub exp: i64,
    pub nbf: i64,
    pub email: String,
}

impl View for Claims {
    type V = ClaimsInfo;

    open spec fn view(&self) -> ClaimsInfo {
        ClaimsInfo {
            iss: self.iss@,
            sub: self.sub@,
            exp: self.exp as int,
            nbf: self.nbf as int,
            email: self.email@,
        }
    }
}

/// The header encoded in a token string, if the string has the well-formed
/// three-part shape with a JSON header object.  A pure function of the
/// token text; its value is known only through the trusted decoder below.
pub uninterp spec fn token_header(token: Seq<char>) -> Option<HeaderInfo>;

/// The claims object encoded in a token's payload part, if the payload is
/// a JSON object carrying all five claim fields with the right types.
/// A pure function of the token text.
pub uninterp spec fn token_claims(token: Seq<char>) -> Option<ClaimsInfo>;

/// Relies on `jsonwebtoken::decode_header`: it reads the token's protected
/// header without touching the signature, and fails exactly when the token
/// does not have the three-part shape with a decodable JSON header.
#[verifier::external_body]
pub(crate) fn decode_token_header(token: &str) -> (r: Option<TokenHead>)
    ensures
        r matches Some(h) ==> token_header(token@) == Some(h@),
        r is Some <==> token_header(token@) is Some,
{
    let h = match jsonwebtoken::decode_header(token) {
        Ok(h) => h,
        Err(_) => return None,
    };
    let alg = match h.alg {
        jsonwebtoken::Algorithm::RS256 => Alg::Rs256,
        jsonwebtoken::Algorithm::RS384 => Alg::Rs384,
        jsonwebtoken::Algorithm::RS512 => Alg::Rs512,
        _ => Alg::Other,
    };
    Some(TokenHead { kid: h.kid, alg })
}

/// `serde_json::Value`: the raw payload object handed back by the
/// signature check, opaque to the verifier.
#[verifier::external_type_specification]
#[verifier::external_body]
pub struct ExValue(serde_json::Value);

/// The five claim fields held by a payload value, when it is a JSON object
/// carrying all of them with the right types.  Names what the accessors of
/// `serde_json::Value` read out of the value.
pub uninterp spec fn value_claims(v: serde_json::Value) -> Option<ClaimsInfo>;

/// Relies on `jsonwebtoken::decode`, with the algorithm list pinned to the
/// single algorithm the caller passes and every claim check switched off:
/// it checks the token's signature against the given key and hands back
/// the raw payload.  Whether the signature verifies depends on the key
/// material, which this model does not describe, so the contract only
/// fixes what each outcome means: an accepted token's payload is the
/// payload encoded in the token text, and a rejection is either a
/// signature mismatch or a malformed token.
#[verifier::external_body]
pub(crate) fn check_signature(token: &str, key: &jsonwebtoken::DecodingKey, alg: Alg) -> (r:
    Result<serde_json::Value, AuthExtractorError>)
    requires
        alg_allowed(alg),
    ensures
        r matches Ok(v) ==> value_claims(v) == token_claims(token@),
        r matches Err(e) ==> (e == AuthExtractorError::SignatureInvalid || e == AuthExtractorError::TokenMalformed),
{
    let a: jsonwebtoken::Algorithm = match alg {
        Alg::Rs384 => jsonwebtoken::Algorithm::RS384,
        Alg::Rs512 => jsonwebtoken::Algorithm::RS512,
        _ => jsonwebtoken::Algorithm::RS256,
    };
    let mut v = jsonwebtoken::Validation::new(a);
    v.validate_exp = false;
    v.validate_aud = false;
    v.required_spec_claims.clear();
    match jsonwebtoken::decode::<serde_json::Value>(token, key, &v) {
        Ok(data) => Ok(data.claims),
        Err(e) if matches!(e.kind(), jsonwebtoken::errors::ErrorKind::InvalidSignature) => Err(AuthExtractorError::SignatureInvalid),
        Err(_) => Err(AuthExtractorError::TokenMalformed),
    }
}

/// Relies on the accessors of `serde_json::Value` (`get`, `as_str`,
/// `as_i64`): reads the five claim fields out of the payload object,
/// succeeding exactly when all five are present with the right types.
/// Fields beyond the five are ignored.
#[verifier::external_body]
pub(crate) fn claims_of_value(v: &serde_json::Value) -> (r: Option<Claims>)
    ensures
        r matches Some(c) ==> value_claims(*v) == Some(c@),
        r is Some <==> value_claims(*v) is Some,
{
    let iss = v.get("iss").and_then(|x| x.as_str())?.to_string();
    let sub = v.get("sub").and_then(|x| x.as_str())?.to_string();
    let email = v.get("email").and_then(|x| x.as_str())?.to_string();
    let exp = v.get("exp").and_then(|x| x.as_i64())?;
    let nbf = v.get("nbf").and_then(|x| x.as_i64())?;
    Some(Claims { iss, sub, exp, nbf, email })
}

} // verus!
