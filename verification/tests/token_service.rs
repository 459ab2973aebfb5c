//! The token service: round trips, kind checks and expiry.

use echo_backend::token::{JwtService, TokenType, ACCESS_TOKEN_LIFETIME_SECS};

const NOW: i64 = 1_700_000_000;

fn subject_of(id: u128) -> String {
    uuid::Uuid::from_u128(id).to_string()
}

#[test]
fn test_generate_and_verify_access_token() {
    let jwt_service = JwtService::new("test_secret");
    let user_id: u128 = 0x0123_4567_89ab_cdef_0123_4567_89ab_cdef;

    let token = jwt_service.generate_access_token(user_id, NOW).unwrap();
    let claims = jwt_service.verify_access_token(token.as_str(), NOW).unwrap();

    assert_eq!(claims.sub, subject_of(user_id));
    assert_eq!(claims.token_type, TokenType::Access);
}

#[test]
fn test_generate_and_verify_refresh_token() {
    let jwt_service = JwtService::new("test_secret");
    let user_id: u128 = 0xfedc_ba98_7654_3210_fedc_ba98_7654_3210;

    let token = jwt_service.generate_refresh_token(user_id, NOW).unwrap();
    let claims = jwt_service
        .verify_refresh_token(token.as_str(), NOW)
        .unwrap();

    assert_eq!(claims.sub, subject_of(user_id));
    assert_eq!(claims.token_type, TokenType::Refresh);
}

#[test]
fn test_verify_wrong_token_type() {
    let jwt_service = JwtService::new("test_secret");
    let user_id: u128 = 42;

    let access_token = jwt_service.generate_access_token(user_id, NOW).unwrap();
    let result = jwt_service.verify_refresh_token(access_token.as_str(), NOW);

    assert!(result.is_err());
}

#[test]
fn test_verify_after_expiry_fails() {
    let jwt_service = JwtService::new("test_secret");
    let user_id: u128 = 7;

    let token = jwt_service.generate_access_token(user_id, NOW).unwrap();
    // Right before the expiry instant the token still verifies; at the
    // instant itself it no longer does.
    let last_valid = NOW + ACCESS_TOKEN_LIFETIME_SECS - 1;
    assert!(jwt_service
        .verify_access_token(token.as_str(), last_valid)
        .is_ok());
    let at_expiry = NOW + ACCESS_TOKEN_LIFETIME_SECS;
    assert!(jwt_service
        .verify_access_token(token.as_str(), at_expiry)
        .is_err());
}

#[test]
fn test_sse_token_round_trip() {
    let jwt_service = JwtService::new("test_secret");
    let user_id: u128 = 99;

    let token = jwt_service.generate_sse_token(user_id, NOW).unwrap();
    let claims = jwt_service.verify_sse_token(token.as_str(), NOW).unwrap();
    assert_eq!(claims.sub, subject_of(user_id));
    assert_eq!(claims.token_type, TokenType::Sse);

    // A stream token lives for one minute only.
    assert!(jwt_service
        .verify_sse_token(token.as_str(), NOW + 61)
        .is_err());
}

#[test]
fn test_tampered_token_fails() {
    let jwt_service = JwtService::new("test_secret");
    let token = jwt_service.generate_access_token(3, NOW).unwrap();
    let mut tampered = token.clone();
    tampered.push('x');
    assert!(jwt_service
        .verify_access_token(tampered.as_str(), NOW)
        .is_err());
}

#[test]
fn test_wrong_secret_fails() {
    let issuing = JwtService::new("test_secret");
    let other = JwtService::new("another_secret");
    let token = issuing.generate_access_token(3, NOW).unwrap();
    assert!(other.verify_access_token(token.as_str(), NOW).is_err());
}
