use text_intelligence::reply::{Body, Reply};
use text_intelligence::session::{
    check_expiry, check_form, create_jwt, create_jwt_at, handle_session, jwt_failure_message, require_session,
    session_claims, session_failure_reply, verify_jwt, JWT_EXPIRY_SECS,
};

const SECRET: &[u8] = b"a-test-secret-for-session-tokens";

fn now() -> i64 {
    chrono::Utc::now().timestamp()
}

fn decoded_claims(token: &str, secret: &[u8]) -> serde_json::Map<String, serde_json::Value> {
    let mut validation = jsonwebtoken::Validation::default();
    validation.required_spec_claims.clear();
    validation.validate_exp = false;
    jsonwebtoken::decode::<serde_json::Map<String, serde_json::Value>>(
        token,
        &jsonwebtoken::DecodingKey::from_secret(secret),
        &validation,
    )
    .unwrap()
    .claims
}

fn error_parts(reply: &Reply) -> (u16, String, String, String, bool) {
    match &reply.body {
        Body::Error { err_type, code, message, details } => {
            (reply.status, err_type.clone(), code.clone(), message.clone(), *details)
        }
        other => panic!("not an error body: {:?}", other),
    }
}

#[test]
fn session_claims_expire_one_hour_after_issue() {
    let c = session_claims(1_700_000_000);
    assert_eq!(c.iat, 1_700_000_000);
    assert_eq!(c.exp, 1_700_003_600);
    assert_eq!(JWT_EXPIRY_SECS, 3600);
}

#[test]
fn token_issued_at_a_time_carries_its_claims() {
    let token = create_jwt_at(SECRET, 1_000).unwrap();
    assert_eq!(token.split('.').count(), 3);
    let claims = decoded_claims(&token, SECRET);
    assert_eq!(claims.get("iat").and_then(|v| v.as_i64()), Some(1_000));
    assert_eq!(claims.get("exp").and_then(|v| v.as_i64()), Some(4_600));
    assert_eq!(claims.len(), 2);
}

#[test]
fn token_is_signed_with_hs256() {
    let token = create_jwt_at(SECRET, 5).unwrap();
    let header = jsonwebtoken::decode_header(&token).unwrap();
    assert_eq!(header.alg, jsonwebtoken::Algorithm::HS256);
}

#[test]
fn create_jwt_uses_the_current_time() {
    let before = now();
    let token = create_jwt(SECRET).unwrap();
    let after = now();
    let claims = decoded_claims(&token, SECRET);
    let iat = claims.get("iat").and_then(|v| v.as_i64()).unwrap();
    let exp = claims.get("exp").and_then(|v| v.as_i64()).unwrap();
    assert!(before <= iat && iat <= after);
    assert_eq!(exp - iat, 3600);
}

#[test]
fn fresh_token_verifies() {
    let token = create_jwt(SECRET).unwrap();
    assert_eq!(verify_jwt(&token, SECRET), Ok(()));
}

#[test]
fn token_under_another_secret_is_invalid() {
    let token = create_jwt(SECRET).unwrap();
    assert_eq!(
        verify_jwt(&token, b"some-other-secret"),
        Err("invalid token: InvalidSignature".to_string())
    );
}

#[test]
fn expired_token_reports_token_expired() {
    let token = create_jwt_at(SECRET, now() - 100_000).unwrap();
    assert_eq!(verify_jwt(&token, SECRET), Err("token expired".to_string()));
}

#[test]
fn token_within_leeway_still_verifies() {
    // Expired 30 seconds ago: within the decoder's 60-second leeway.
    let token = create_jwt_at(SECRET, now() - 3630).unwrap();
    assert_eq!(verify_jwt(&token, SECRET), Ok(()));
}

#[test]
fn malformed_token_is_invalid() {
    assert_eq!(
        verify_jwt("not-a-token", SECRET),
        Err("invalid token: InvalidToken".to_string())
    );
}

#[test]
fn token_without_session_claims_is_invalid() {
    let mut claims = std::collections::BTreeMap::new();
    claims.insert("sub", "someone");
    let token = jsonwebtoken::encode(
        &jsonwebtoken::Header::default(),
        &claims,
        &jsonwebtoken::EncodingKey::from_secret(SECRET),
    )
    .unwrap();
    assert_eq!(
        verify_jwt(&token, SECRET),
        Err("invalid token: JSON error: missing field `iat`".to_string())
    );
}

#[test]
fn failure_message_of_expired_signature() {
    assert_eq!(jwt_failure_message("ExpiredSignature"), "token expired");
}

#[test]
fn failure_message_of_other_errors() {
    assert_eq!(jwt_failure_message("InvalidSignature"), "invalid token: InvalidSignature");
    assert_eq!(jwt_failure_message(""), "invalid token: ");
}

#[test]
fn missing_header_is_refused() {
    let r = require_session("", SECRET).unwrap();
    assert_eq!(
        error_parts(&r),
        (
            401,
            "AuthenticationError".to_string(),
            "MISSING_TOKEN".to_string(),
            "Authorization header with Bearer token is required".to_string(),
            false
        )
    );
}

#[test]
fn non_bearer_header_is_refused() {
    let token = create_jwt(SECRET).unwrap();
    let r = require_session(&format!("Basic {}", token), SECRET).unwrap();
    assert_eq!(error_parts(&r).2, "MISSING_TOKEN");
    let r = require_session(&format!("bearer {}", token), SECRET).unwrap();
    assert_eq!(error_parts(&r).2, "MISSING_TOKEN");
}

#[test]
fn valid_bearer_token_passes() {
    let token = create_jwt(SECRET).unwrap();
    assert_eq!(require_session(&format!("Bearer {}", token), SECRET), None);
}

#[test]
fn expired_bearer_token_asks_for_refresh() {
    let token = create_jwt_at(SECRET, now() - 100_000).unwrap();
    let r = require_session(&format!("Bearer {}", token), SECRET).unwrap();
    assert_eq!(
        error_parts(&r),
        (
            401,
            "AuthenticationError".to_string(),
            "INVALID_TOKEN".to_string(),
            "Session expired, please refresh the page".to_string(),
            false
        )
    );
}

#[test]
fn invalid_bearer_token_is_refused() {
    let r = require_session("Bearer abc.def.ghi", SECRET).unwrap();
    assert_eq!(error_parts(&r).2, "INVALID_TOKEN");
    assert_eq!(error_parts(&r).3, "Invalid session token");
    let r = require_session("Bearer ", SECRET).unwrap();
    assert_eq!(error_parts(&r).3, "Invalid session token");
}

#[test]
fn failure_reply_tells_expiry_apart() {
    assert_eq!(
        error_parts(&session_failure_reply("token expired")).3,
        "Session expired, please refresh the page"
    );
    assert_eq!(
        error_parts(&session_failure_reply("invalid token: InvalidSignature")).3,
        "Invalid session token"
    );
}

#[test]
fn session_endpoint_issues_a_verifiable_token() {
    let r = handle_session(SECRET);
    assert_eq!(r.status, 200);
    match r.body {
        Body::Token { token } => assert_eq!(verify_jwt(&token, SECRET), Ok(())),
        other => panic!("unexpected body {:?}", other),
    }
}

#[test]
fn form_check_of_decoder_outcomes() {
    let good = vec![("exp".to_string(), Ok(2)), ("iat".to_string(), Ok(1)), ("sub".to_string(), Err("x".to_string()))];
    assert_eq!(check_form(&Ok(good)), Ok(()));
    let no_iat = vec![("exp".to_string(), Ok(2))];
    assert_eq!(
        check_form(&Ok(no_iat)),
        Err("invalid token: JSON error: missing field `iat`".to_string())
    );
    let no_exp = vec![("iat".to_string(), Ok(1))];
    assert_eq!(
        check_form(&Ok(no_exp)),
        Err("invalid token: JSON error: missing field `exp`".to_string())
    );
    let bad_iat = vec![
        ("exp".to_string(), Ok(2)),
        ("iat".to_string(), Err("invalid type: string \"soon\", expected i64".to_string())),
    ];
    assert_eq!(
        check_form(&Ok(bad_iat)),
        Err("invalid token: JSON error: invalid type: string \"soon\", expected i64".to_string())
    );
    let both_bad = vec![
        ("exp".to_string(), Err("invalid type: null, expected i64".to_string())),
        ("iat".to_string(), Err("invalid type: boolean `true`, expected i64".to_string())),
    ];
    assert_eq!(
        check_form(&Ok(both_bad)),
        Err("invalid token: JSON error: invalid type: null, expected i64".to_string())
    );
    assert_eq!(
        check_form(&Err("InvalidSignature".to_string())),
        Err("invalid token: InvalidSignature".to_string())
    );
}

fn signed(claims: &serde_json::Value) -> String {
    jsonwebtoken::encode(
        &jsonwebtoken::Header::default(),
        claims,
        &jsonwebtoken::EncodingKey::from_secret(SECRET),
    )
    .unwrap()
}

#[test]
fn claim_of_the_wrong_type_reports_serde_error() {
    let mut claims = serde_json::Map::new();
    claims.insert("iat".to_string(), serde_json::Value::from(1.5));
    claims.insert("exp".to_string(), serde_json::Value::from(now() + 3600));
    let token = signed(&serde_json::Value::Object(claims));
    assert_eq!(
        verify_jwt(&token, SECRET),
        Err("invalid token: JSON error: invalid type: floating point `1.5`, expected i64".to_string())
    );
}

#[test]
fn claim_text_quoting_expired_asks_for_refresh() {
    let mut claims = serde_json::Map::new();
    claims.insert("iat".to_string(), serde_json::Value::from(now()));
    claims.insert("exp".to_string(), serde_json::Value::from("expired"));
    let token = signed(&serde_json::Value::Object(claims));
    let err = verify_jwt(&token, SECRET).unwrap_err();
    assert_eq!(err, "invalid token: JSON error: invalid type: string \"expired\", expected i64");
    let r = require_session(&format!("Bearer {}", token), SECRET).unwrap();
    assert_eq!(error_parts(&r).3, "Session expired, please refresh the page");
}

#[test]
fn expiry_check_of_decoder_outcomes() {
    assert_eq!(check_expiry(&Ok(vec![])), Ok(()));
    assert_eq!(check_expiry(&Err("ExpiredSignature".to_string())), Err("token expired".to_string()));
    assert_eq!(
        check_expiry(&Err("InvalidAudience".to_string())),
        Err("invalid token: InvalidAudience".to_string())
    );
}

#[test]
fn token_with_audience_is_refused_for_it() {
    let mut claims = std::collections::BTreeMap::new();
    claims.insert("iat", serde_json::Value::from(now()));
    claims.insert("exp", serde_json::Value::from(now() + 3600));
    claims.insert("aud", serde_json::Value::from("someone"));
    let token = jsonwebtoken::encode(
        &jsonwebtoken::Header::default(),
        &claims,
        &jsonwebtoken::EncodingKey::from_secret(SECRET),
    )
    .unwrap();
    assert_eq!(verify_jwt(&token, SECRET), Err("invalid token: InvalidAudience".to_string()));
}

#[test]
fn issued_token_under_another_key_is_invalid_signature() {
    let token = create_jwt_at(b"alpha", now()).unwrap();
    assert_eq!(verify_jwt(&token, b"beta"), Err("invalid token: InvalidSignature".to_string()));
}

#[test]
fn same_time_same_token() {
    assert_eq!(create_jwt_at(SECRET, 1234).unwrap(), create_jwt_at(SECRET, 1234).unwrap());
    assert_ne!(create_jwt_at(SECRET, 1234).unwrap(), create_jwt_at(SECRET, 1235).unwrap());
}

#[test]
fn issuing_with_an_empty_secret_succeeds() {
    assert!(create_jwt_at(b"", 0).is_ok());
    assert!(create_jwt(b"").is_ok());
}
