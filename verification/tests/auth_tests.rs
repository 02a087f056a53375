use std::sync::Arc;

use api_gateway::error::AuthError;
use api_gateway::middleware::jwt_validator::{
    bearer_token, claims_from_payload, validate_jwt, verify, Claims, JwtValidator, Payload,
};

const SECRET: &str = "gateway-secret";
const NOW: u64 = 1_700_000_000;

fn claim_set(sub: Option<&str>, company: Option<&str>, exp: Option<serde_json::Value>) -> serde_json::Value {
    let mut members = serde_json::Map::new();
    if let Some(sub) = sub {
        members.insert("sub".to_string(), serde_json::Value::from(sub));
    }
    if let Some(company) = company {
        members.insert("company".to_string(), serde_json::Value::from(company));
    }
    if let Some(exp) = exp {
        members.insert("exp".to_string(), exp);
    }
    serde_json::Value::Object(members)
}

fn signed(secret: &str, claims: &serde_json::Value) -> String {
    jsonwebtoken::encode(
        &jsonwebtoken::Header::default(),
        claims,
        &jsonwebtoken::EncodingKey::from_secret(secret.as_bytes()),
    )
    .unwrap()
}

fn good_token(exp: u64) -> String {
    signed(SECRET, &claim_set(Some("alice"), Some("acme"), Some(serde_json::Value::from(exp))))
}

#[test]
fn bearer_token_is_what_follows_the_prefix() {
    assert_eq!(bearer_token(Some("Bearer abc.def.ghi")), Some("abc.def.ghi"));
    assert_eq!(bearer_token(Some("Bearer ")), Some(""));
    assert_eq!(bearer_token(Some("Bearer  x")), Some(" x"));
}

#[test]
fn bearer_token_is_absent_without_the_prefix() {
    assert_eq!(bearer_token(None), None);
    assert_eq!(bearer_token(Some("")), None);
    assert_eq!(bearer_token(Some("Basic abc")), None);
    assert_eq!(bearer_token(Some("bearer abc")), None);
    assert_eq!(bearer_token(Some("Bearer")), None);
    assert_eq!(bearer_token(Some(" Bearer abc")), None);
}

#[test]
fn payload_with_all_claims_and_later_expiry_is_accepted() {
    let payload = Payload {
        sub: Some("alice".to_string()),
        company: Some("acme".to_string()),
        exp: Some(NOW + 1),
    };
    assert_eq!(
        claims_from_payload(payload, NOW),
        Ok(Claims { sub: "alice".to_string(), company: "acme".to_string(), exp: NOW + 1 })
    );
}

#[test]
fn payload_expiring_now_is_still_accepted() {
    let payload =
        Payload { sub: Some("a".to_string()), company: Some("b".to_string()), exp: Some(NOW) };
    assert_eq!(
        claims_from_payload(payload, NOW),
        Ok(Claims { sub: "a".to_string(), company: "b".to_string(), exp: NOW })
    );
}

#[test]
fn payload_past_its_expiry_is_expired() {
    let payload =
        Payload { sub: Some("a".to_string()), company: Some("b".to_string()), exp: Some(NOW - 1) };
    assert_eq!(claims_from_payload(payload, NOW), Err(AuthError::Expired));
    let payload = Payload { sub: Some("a".to_string()), company: Some("b".to_string()), exp: Some(0) };
    assert_eq!(claims_from_payload(payload, u64::MAX), Err(AuthError::Expired));
}

#[test]
fn payload_lacking_a_claim_is_invalid() {
    let no_sub = Payload { sub: None, company: Some("b".to_string()), exp: Some(NOW + 1) };
    assert_eq!(claims_from_payload(no_sub, NOW), Err(AuthError::Invalid));
    let no_company = Payload { sub: Some("a".to_string()), company: None, exp: Some(NOW + 1) };
    assert_eq!(claims_from_payload(no_company, NOW), Err(AuthError::Invalid));
    let no_exp = Payload { sub: Some("a".to_string()), company: Some("b".to_string()), exp: None };
    assert_eq!(claims_from_payload(no_exp, NOW), Err(AuthError::Invalid));
    let expired_and_incomplete = Payload { sub: None, company: None, exp: Some(0) };
    assert_eq!(claims_from_payload(expired_and_incomplete, NOW), Err(AuthError::Invalid));
}

#[test]
fn signed_unexpired_token_yields_its_claims() {
    let token = good_token(NOW + 3600);
    assert_eq!(
        validate_jwt(&token, SECRET, NOW),
        Ok(Claims { sub: "alice".to_string(), company: "acme".to_string(), exp: NOW + 3600 })
    );
}

#[test]
fn token_is_judged_against_the_given_second_not_the_clock() {
    let long_gone = good_token(1000);
    assert_eq!(
        validate_jwt(&long_gone, SECRET, 999),
        Ok(Claims { sub: "alice".to_string(), company: "acme".to_string(), exp: 1000 })
    );
    assert_eq!(validate_jwt(&long_gone, SECRET, 1001), Err(AuthError::Expired));
    let far_future = good_token(4_000_000_000);
    assert_eq!(validate_jwt(&far_future, SECRET, 4_000_000_001), Err(AuthError::Expired));
}

#[test]
fn token_signed_with_another_secret_is_invalid() {
    let token = signed(
        "another-secret",
        &claim_set(Some("alice"), Some("acme"), Some(serde_json::Value::from(NOW + 3600))),
    );
    assert_eq!(validate_jwt(&token, SECRET, NOW), Err(AuthError::Invalid));
}

#[test]
fn malformed_token_is_invalid() {
    assert_eq!(validate_jwt("", SECRET, NOW), Err(AuthError::Invalid));
    assert_eq!(validate_jwt("not-a-token", SECRET, NOW), Err(AuthError::Invalid));
    assert_eq!(validate_jwt("a.b.c", SECRET, NOW), Err(AuthError::Invalid));
    let token = good_token(NOW + 3600);
    let tampered = format!("{}x", token);
    assert_eq!(validate_jwt(&tampered, SECRET, NOW), Err(AuthError::Invalid));
}

#[test]
fn token_with_missing_or_mistyped_claims_is_invalid() {
    let exp = || Some(serde_json::Value::from(NOW + 3600));
    let no_company = signed(SECRET, &claim_set(Some("alice"), None, exp()));
    assert_eq!(validate_jwt(&no_company, SECRET, NOW), Err(AuthError::Invalid));
    let no_sub = signed(SECRET, &claim_set(None, Some("acme"), exp()));
    assert_eq!(validate_jwt(&no_sub, SECRET, NOW), Err(AuthError::Invalid));
    let no_exp = signed(SECRET, &claim_set(Some("alice"), Some("acme"), None));
    assert_eq!(validate_jwt(&no_exp, SECRET, NOW), Err(AuthError::Invalid));
    let text_exp = signed(
        SECRET,
        &claim_set(Some("alice"), Some("acme"), Some(serde_json::Value::from("tomorrow"))),
    );
    assert_eq!(validate_jwt(&text_exp, SECRET, NOW), Err(AuthError::Invalid));
    let mut members = serde_json::Map::new();
    members.insert("sub".to_string(), serde_json::Value::from(7));
    members.insert("company".to_string(), serde_json::Value::from("acme"));
    members.insert("exp".to_string(), serde_json::Value::from(NOW + 3600));
    let numeric_sub = signed(SECRET, &serde_json::Value::Object(members));
    assert_eq!(validate_jwt(&numeric_sub, SECRET, NOW), Err(AuthError::Invalid));
}

#[test]
fn verify_reports_a_missing_credential() {
    assert_eq!(verify(None, SECRET, NOW), Err(AuthError::Missing));
    assert_eq!(verify(Some("Token abc"), SECRET, NOW), Err(AuthError::Missing));
    let token = good_token(NOW + 3600);
    assert_eq!(verify(Some(&token), SECRET, NOW), Err(AuthError::Missing));
}

#[test]
fn verify_reports_invalid_and_expired_credentials() {
    assert_eq!(verify(Some("Bearer junk"), SECRET, NOW), Err(AuthError::Invalid));
    let header = format!("Bearer {}", good_token(NOW - 1));
    assert_eq!(verify(Some(&header), SECRET, NOW), Err(AuthError::Expired));
}

#[test]
fn verify_accepts_a_valid_bearer_token() {
    let header = format!("Bearer {}", good_token(NOW + 60));
    assert_eq!(
        verify(Some(&header), SECRET, NOW),
        Ok(Claims { sub: "alice".to_string(), company: "acme".to_string(), exp: NOW + 60 })
    );
}

#[test]
fn validator_keeps_its_secret() {
    let secret = Arc::new(SECRET.to_string());
    let validator = JwtValidator::new(Arc::clone(&secret));
    assert!(Arc::ptr_eq(&validator.secret, &secret));
    assert_eq!(validator.secret.as_str(), SECRET);
}

#[test]
fn guard_hands_out_the_service_to_verified_requests_only() {
    let validator = JwtValidator::new(Arc::new(SECRET.to_string()));
    let guard = validator.new_transform("handler");
    let header = format!("Bearer {}", good_token(NOW + 60));
    match guard.call(Some(&header), NOW) {
        Ok((service, claims)) => {
            assert_eq!(*service, "handler");
            assert_eq!(claims.sub, "alice");
            assert_eq!(claims.company, "acme");
            assert_eq!(claims.exp, NOW + 60);
        }
        Err(cause) => panic!("refused: {:?}", cause),
    }
    assert_eq!(guard.call(None, NOW).err(), Some(AuthError::Missing));
    assert_eq!(guard.call(Some("Bearer junk"), NOW).err(), Some(AuthError::Invalid));
    assert_eq!(guard.call(Some(&header), NOW + 61).err(), Some(AuthError::Expired));
}
