//! Authentication: signup, login, refresh, logout, stream authentication
//! and the persona generator.

use echo_backend::errors::AppError;
use echo_backend::memory::MemoryStore;
use echo_backend::repos::UserRepository;
use echo_backend::persona::{PersonaGenerator, RandomUserService};
use echo_backend::stream_auth::{
    authenticate_sse_query, extract_user_id, SseQueryParams, StreamCredentials,
};
use echo_backend::token::JwtService;
use echo_backend::usecases::auth::{
    CreateUserUseCase, GenerateSseTokenUseCase, LoginUseCase, LogoutUseCase, RefreshTokenUseCase,
    SignupUseCase,
};

const THRESHOLD: i32 = 100;
const NOW: i64 = 1_700_000_000;
const SECRET: &str = "test_secret";

#[test]
fn test_signup_and_login() {
    let store = MemoryStore::new(THRESHOLD);
    let mut signup = SignupUseCase::new(store, JwtService::new(SECRET));
    let tokens = signup
        .execute("alice".to_string(), "hunter2".to_string(), None, NOW)
        .unwrap();

    let jwt = JwtService::new(SECRET);
    let claims = jwt
        .verify_access_token(tokens.access_token.as_str(), NOW)
        .unwrap();
    assert_eq!(claims.sub, tokens.user_id);

    // A second signup under the same name is rejected.
    let taken = signup.execute("alice".to_string(), "other".to_string(), None, NOW);
    assert!(matches!(taken, Err(AppError::Validation(_))));

    let mut login = LoginUseCase::new(signup.store, JwtService::new(SECRET));
    let login_tokens = login
        .execute("alice".to_string(), "hunter2".to_string(), NOW)
        .unwrap();
    assert_eq!(login_tokens.user_id, tokens.user_id);

    let wrong = login.execute("alice".to_string(), "wrong".to_string(), NOW);
    assert!(matches!(wrong, Err(AppError::Validation(_))));

    let unknown = login.execute("bob".to_string(), "hunter2".to_string(), NOW);
    assert!(matches!(unknown, Err(AppError::NotFound(_))));
}

#[test]
fn test_refresh_round_trip_and_logout() {
    let store = MemoryStore::new(THRESHOLD);
    let mut signup = SignupUseCase::new(store, JwtService::new(SECRET));
    let tokens = signup
        .execute("carol".to_string(), "pw".to_string(), None, NOW)
        .unwrap();

    let mut refresh = RefreshTokenUseCase::new(signup.store, JwtService::new(SECRET));
    let refreshed = refresh
        .execute(tokens.refresh_token.as_str(), NOW + 60)
        .unwrap();
    let jwt = JwtService::new(SECRET);
    let claims = jwt
        .verify_access_token(refreshed.access_token.as_str(), NOW + 60)
        .unwrap();
    assert_eq!(claims.sub, tokens.user_id);

    // A token that is not on file is rejected.
    let foreign = jwt
        .generate_refresh_token(uuid::Uuid::parse_str(&tokens.user_id).unwrap().as_u128(), NOW + 1)
        .unwrap();
    let mismatch = refresh.execute(foreign.as_str(), NOW + 60);
    assert!(matches!(mismatch, Err(AppError::Validation(_))));

    // After logout the stored token is gone and refresh fails.
    let user_id = uuid::Uuid::parse_str(&tokens.user_id).unwrap().as_u128();
    let mut logout = LogoutUseCase::new(refresh.store);
    logout.execute(user_id).unwrap();
    let mut refresh_again = RefreshTokenUseCase::new(logout.store, JwtService::new(SECRET));
    let after_logout = refresh_again.execute(tokens.refresh_token.as_str(), NOW + 120);
    assert!(matches!(after_logout, Err(AppError::Validation(_))));
}

#[test]
fn test_login_without_credentials_is_validation() {
    // A user created without a password cannot log in by password; the
    // rejection is a validation error, not a not-found one.
    let mut store = MemoryStore::new(THRESHOLD);
    store.create_user("ghost".to_string(), None).unwrap();
    let mut login = LoginUseCase::new(store, JwtService::new(SECRET));
    let result = login.execute("ghost".to_string(), "anything".to_string(), NOW);
    assert!(matches!(result, Err(AppError::Validation(_))));
}

#[test]
fn test_expired_refresh_token_fails() {
    let store = MemoryStore::new(THRESHOLD);
    let mut signup = SignupUseCase::new(store, JwtService::new(SECRET));
    let tokens = signup
        .execute("dave".to_string(), "pw".to_string(), None, NOW)
        .unwrap();
    let mut refresh = RefreshTokenUseCase::new(signup.store, JwtService::new(SECRET));
    let thirty_days = 30 * 24 * 60 * 60;
    let late = refresh.execute(tokens.refresh_token.as_str(), NOW + thirty_days);
    assert!(matches!(late, Err(AppError::NotFound(_))));
}

#[test]
fn test_create_user_issues_tokens() {
    let store = MemoryStore::new(THRESHOLD);
    let mut create = CreateUserUseCase::new(store, JwtService::new(SECRET));
    let tokens = create
        .execute("Visitor".to_string(), None, NOW)
        .unwrap();
    let jwt = JwtService::new(SECRET);
    assert!(jwt
        .verify_access_token(tokens.access_token.as_str(), NOW)
        .is_ok());
    assert!(jwt
        .verify_refresh_token(tokens.refresh_token.as_str(), NOW)
        .is_ok());
}

#[test]
fn test_stream_auth_bearer_wins_over_cookie() {
    // Both a valid bearer header and a valid refresh cookie are attached,
    // for different identities: the bearer header's subject wins.
    let jwt = JwtService::new(SECRET);
    let bearer_user: u128 = 101;
    let cookie_user: u128 = 202;
    let bearer = jwt.generate_access_token(bearer_user, NOW).unwrap();
    let cookie = jwt.generate_refresh_token(cookie_user, NOW).unwrap();

    let creds = StreamCredentials {
        bearer: Some(bearer),
        stream_token: None,
        refresh_cookie: Some(cookie),
    };
    let resolved = extract_user_id(&jwt, &creds, NOW).unwrap();
    assert_eq!(resolved, bearer_user);
}

#[test]
fn test_stream_auth_bad_bearer_does_not_fall_through() {
    // A present bearer header that fails to verify rejects the
    // connection even though a valid cookie is also attached.
    let jwt = JwtService::new(SECRET);
    let cookie = jwt.generate_refresh_token(5, NOW).unwrap();
    let creds = StreamCredentials {
        bearer: Some("not-a-token".to_string()),
        stream_token: None,
        refresh_cookie: Some(cookie),
    };
    assert!(extract_user_id(&jwt, &creds, NOW).is_err());
}

#[test]
fn test_stream_auth_expired_stream_token_rejects() {
    // Only an expired stream token is attached: the connection is
    // rejected, never silently downgraded.
    let jwt = JwtService::new(SECRET);
    let token_use_case = GenerateSseTokenUseCase::new(JwtService::new(SECRET));
    let user_id: u128 = 303;
    let sse_token = token_use_case.execute(user_id, NOW).unwrap();

    let fresh = SseQueryParams { token: Some(sse_token.clone()) };
    assert_eq!(authenticate_sse_query(&jwt, &fresh, NOW).unwrap(), user_id);

    let stale = SseQueryParams { token: Some(sse_token) };
    assert!(authenticate_sse_query(&jwt, &stale, NOW + 61).is_err());
}

#[test]
fn test_stream_auth_missing_credentials() {
    let jwt = JwtService::new(SECRET);
    let creds = StreamCredentials { bearer: None, stream_token: None, refresh_cookie: None };
    assert!(extract_user_id(&jwt, &creds, NOW).is_err());

    let params = SseQueryParams { token: None };
    assert!(authenticate_sse_query(&jwt, &params, NOW).is_err());
}

#[test]
fn test_generate_avatar() {
    let avatar = PersonaGenerator::generate_avatar();
    assert!(avatar.starts_with("https://api.dicebear.com"));
    println!("Generated avatar: {}", avatar);
}

#[test]
fn test_multiple_generations_are_different() {
    let avatar1 = PersonaGenerator::generate_avatar();
    let avatar2 = PersonaGenerator::generate_avatar();

    assert_ne!(avatar1, avatar2);

    println!("Avatar 1: {}", avatar1);
    println!("Avatar 2: {}", avatar2);
}

#[test]
fn test_generate_random_user() {
    let user = RandomUserService::generate_random_user();
    let prefix = "https://api.dicebear.com/7.x/avataaars/svg?seed=";
    assert!(user.avatar_url.starts_with(prefix));
    let seed: u64 = user.avatar_url[prefix.len()..].parse().unwrap();
    assert!((1..=100).contains(&seed));
    assert!(user.password_hash.is_none());
}
