//! Claim validation, the error taxonomy, roles, and the pure stages of
//! the extraction chain.

use sql_grimoire_auth::errors::AuthExtractorError;
use sql_grimoire_auth::extract::{
    require_admin, require_present, session_token_optional, session_token_required, user_optional,
    user_required, AccessDecision,
};
use sql_grimoire_auth::token::Claims;
use sql_grimoire_auth::users::{needs_provisioning, AuthState, Queryable, User, UserInner, UserRole};
use sql_grimoire_auth::verify::{accept_payload, validate_claims};

const NOW: i64 = 1_700_000_000;
const ISSUER: &str = "https://auth.example.com";

fn claims(iss: &str, exp: i64, nbf: i64) -> Claims {
    Claims {
        iss: iss.to_string(),
        sub: "sub-1".to_string(),
        exp,
        nbf,
        email: "a@example.com".to_string(),
    }
}

#[test]
fn valid_claims_pass() {
    let c = claims(ISSUER, NOW + 60, NOW - 60);
    assert!(validate_claims(&c, NOW, ISSUER).is_ok());
}

#[test]
fn expiry_is_strict_at_the_boundary() {
    // expiresAt == now must already count as expired.
    let c = claims(ISSUER, NOW, NOW - 60);
    assert!(matches!(validate_claims(&c, NOW, ISSUER), Err(AuthExtractorError::TokenExpired)));
    // one second earlier the token is still valid
    let c2 = claims(ISSUER, NOW + 1, NOW - 60);
    assert!(validate_claims(&c2, NOW, ISSUER).is_ok());
}

#[test]
fn not_before_is_inclusive_at_the_boundary() {
    // notBefore == now is valid.
    let c = claims(ISSUER, NOW + 60, NOW);
    assert!(validate_claims(&c, NOW, ISSUER).is_ok());
    // one second later in nbf and the token is premature
    let c2 = claims(ISSUER, NOW + 60, NOW + 1);
    assert!(matches!(validate_claims(&c2, NOW, ISSUER), Err(AuthExtractorError::TokenNotYetValid)));
}

#[test]
fn each_check_fails_independently() {
    // expiry alone
    let c = claims(ISSUER, NOW - 1, NOW - 60);
    assert!(matches!(validate_claims(&c, NOW, ISSUER), Err(AuthExtractorError::TokenExpired)));
    // not-before alone
    let c = claims(ISSUER, NOW + 60, NOW + 30);
    assert!(matches!(validate_claims(&c, NOW, ISSUER), Err(AuthExtractorError::TokenNotYetValid)));
    // issuer alone
    let c = claims("https://evil.example.com", NOW + 60, NOW - 60);
    assert!(matches!(validate_claims(&c, NOW, ISSUER), Err(AuthExtractorError::InvalidIssuer)));
}

#[test]
fn issuer_mismatch_beats_otherwise_valid_window() {
    let c = claims("https://other.example.com", NOW + 3600, NOW - 3600);
    assert!(matches!(validate_claims(&c, NOW, ISSUER), Err(AuthExtractorError::InvalidIssuer)));
}

#[test]
fn status_codes_follow_the_taxonomy() {
    assert_eq!(AuthExtractorError::NoSessionCookie.status_code(), 401);
    assert_eq!(AuthExtractorError::TokenMalformed.status_code(), 401);
    assert_eq!(AuthExtractorError::SignatureInvalid.status_code(), 401);
    assert_eq!(AuthExtractorError::UnknownKey.status_code(), 401);
    assert_eq!(AuthExtractorError::DisallowedAlgorithm.status_code(), 401);
    assert_eq!(AuthExtractorError::TokenExpired.status_code(), 401);
    assert_eq!(AuthExtractorError::TokenNotYetValid.status_code(), 401);
    assert_eq!(AuthExtractorError::InvalidIssuer.status_code(), 401);
    // a provisioning defect is a server error, not a bad credential
    assert_eq!(AuthExtractorError::UserNotFound.status_code(), 500);
}

#[test]
fn session_stage_reads_the_cookie() {
    assert!(session_token_optional(None).is_none());
    let t = session_token_optional(Some("tok")).unwrap();
    assert_eq!(t.as_str(), "tok");
    assert!(matches!(session_token_required(None), Err(AuthExtractorError::NoSessionCookie)));
    assert_eq!(session_token_required(Some("tok")).unwrap().as_str(), "tok");
}

#[test]
fn require_present_maps_absence_only() {
    assert!(matches!(
        require_present::<u64>(Ok(None)),
        Err(AuthExtractorError::NoSessionCookie)
    ));
    assert_eq!(require_present::<u64>(Ok(Some(7))).unwrap(), 7);
    assert!(matches!(
        require_present::<u64>(Err(AuthExtractorError::SignatureInvalid)),
        Err(AuthExtractorError::SignatureInvalid)
    ));
}

#[test]
fn user_stage_promotes_missing_user() {
    let u = User::new("sub-1".to_string(), UserRole::User);
    let c = claims(ISSUER, NOW + 60, NOW - 60);

    // no claims, no lookup: no identity
    assert!(matches!(user_optional(Ok(None), None), Ok(None)));
    // claims with a stored user
    let got = user_optional(Ok(Some(c.clone())), Some(u.clone())).unwrap().unwrap();
    assert_eq!(got.id().as_str(), "sub-1");
    // claims without a stored user: an inconsistency, not a bad credential
    assert!(matches!(
        user_optional(Ok(Some(c.clone())), None),
        Err(AuthExtractorError::UserNotFound)
    ));
    // errors pass through unchanged
    assert!(matches!(
        user_optional(Err(AuthExtractorError::TokenExpired), None),
        Err(AuthExtractorError::TokenExpired)
    ));

    // required form: absence becomes NoSessionCookie
    assert!(matches!(
        user_required(Ok(None), None),
        Err(AuthExtractorError::NoSessionCookie)
    ));
    assert!(matches!(
        user_required(Ok(Some(c)), None),
        Err(AuthExtractorError::UserNotFound)
    ));
}

#[test]
fn roles_parse_and_print() {
    assert!(matches!(UserRole::from_name("admin".to_string()), UserRole::Admin));
    assert!(matches!(UserRole::from_name("user".to_string()), UserRole::User));
    match UserRole::from_name("editor".to_string()) {
        UserRole::Unknown(raw) => assert_eq!(raw, "editor"),
        _ => panic!("unknown role must be kept verbatim"),
    }
    assert_eq!(UserRole::Admin.name(), "admin");
    assert_eq!(UserRole::User.name(), "user");
    assert_eq!(UserRole::Unknown("editor".to_string()).name(), "editor");
}

#[test]
fn admin_distinction_and_auth_state() {
    let admin = User::new("a".to_string(), UserRole::Admin);
    let user = User::new("u".to_string(), UserRole::User);
    let odd = User::new("o".to_string(), UserRole::Unknown("editor".to_string()));

    assert!(admin.is_admin());
    assert!(!user.is_admin());
    assert!(!odd.is_admin());

    assert_eq!(admin.auth_state(), AuthState::Admin);
    assert_eq!(user.auth_state(), AuthState::User);
    assert_eq!(odd.auth_state(), AuthState::Unauthenticated);

    // the admin requirement fails closed, outside the auth-error taxonomy
    assert_eq!(require_admin(&admin), AccessDecision::Granted);
    assert_eq!(require_admin(&user), AccessDecision::Forbidden);
    assert_eq!(require_admin(&odd), AccessDecision::Forbidden);
    assert_eq!(AccessDecision::Forbidden.status_code(), 403);
    assert_eq!(AccessDecision::Granted.status_code(), 200);
}

#[test]
fn provisioning_decision() {
    let u = User::new("s".to_string(), UserRole::User);
    assert!(needs_provisioning(&None));
    assert!(!needs_provisioning(&Some(u)));
}

#[test]
fn user_parses_from_row() {
    let u = User::parse(UserInner { id: "s".to_string(), role: UserRole::Admin });
    assert_eq!(u.id().as_str(), "s");
    assert!(u.is_admin());
}

#[test]
fn session_cookie_name_is_fixed() {
    assert_eq!(sql_grimoire_auth::extract::SESSION_COOKIE, "cbo_session_token");
}

#[test]
fn title_link_depends_on_auth_state() {
    assert_eq!(AuthState::Admin.title_href(), "/");
    assert_eq!(AuthState::User.title_href(), "/");
    assert_eq!(AuthState::Unauthenticated.title_href(), "#");
}

fn payload(iss: &str, sub: &str, exp: i64, nbf: i64) -> serde_json::Value {
    let mut m = serde_json::Map::new();
    m.insert("iss".to_string(), serde_json::Value::String(iss.to_string()));
    m.insert("sub".to_string(), serde_json::Value::String(sub.to_string()));
    m.insert(
        "exp".to_string(),
        serde_json::Value::Number(serde_json::Number::from(exp)),
    );
    m.insert(
        "nbf".to_string(),
        serde_json::Value::Number(serde_json::Number::from(nbf)),
    );
    m.insert(
        "email".to_string(),
        serde_json::Value::String("a@example.com".to_string()),
    );
    serde_json::Value::Object(m)
}

#[test]
fn payload_acceptance_is_exact() {
    let good = payload(ISSUER, "sub-1", NOW + 60, NOW - 60);
    let c = accept_payload(&good, NOW, ISSUER).unwrap();
    assert_eq!(c.sub, "sub-1");
    assert_eq!(c.iss, ISSUER);

    // a payload that is not a claims object at all
    let not_an_object = serde_json::Value::String("nope".to_string());
    assert!(matches!(
        accept_payload(&not_an_object, NOW, ISSUER),
        Err(AuthExtractorError::TokenMalformed)
    ));

    // a claims object whose expiry field is a string, not a timestamp
    let mut wrong_type = payload(ISSUER, "sub-1", NOW + 60, NOW - 60);
    if let serde_json::Value::Object(m) = &mut wrong_type {
        m.insert(
            "exp".to_string(),
            serde_json::Value::String("soon".to_string()),
        );
    }
    assert!(matches!(
        accept_payload(&wrong_type, NOW, ISSUER),
        Err(AuthExtractorError::TokenMalformed)
    ));

    // a well-formed but expired payload
    let stale = payload(ISSUER, "sub-1", NOW, NOW - 60);
    assert!(matches!(
        accept_payload(&stale, NOW, ISSUER),
        Err(AuthExtractorError::TokenExpired)
    ));
}
