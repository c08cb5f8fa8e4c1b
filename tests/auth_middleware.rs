use cell_api_auth::auth_middleware::{
    extract_bearer_token, validate_token_at, AuthMiddlewareError, AuthenticatedUser,
    AuthenticationMiddleware,
};
use cell_api_auth::config::JwtConfig;
use cell_api_auth::ids::uuid_text;
use cell_api_auth::keys::token_key;
use cell_api_auth::time::Timestamp;
use cell_api_auth::token::{issue, TokenClaims};
use uuid::Uuid;

#[test]
fn test_error_status_codes() {
    assert_eq!(
        AuthMiddlewareError::MissingToken.status_code(),
        actix_web::http::StatusCode::UNAUTHORIZED.as_u16()
    );
    assert_eq!(
        AuthMiddlewareError::InvalidToken.status_code(),
        actix_web::http::StatusCode::UNAUTHORIZED.as_u16()
    );
    assert_eq!(
        AuthMiddlewareError::TokenExpired.status_code(),
        actix_web::http::StatusCode::UNAUTHORIZED.as_u16()
    );
}

#[test]
fn test_www_authenticate_values() {
    assert_eq!(AuthMiddlewareError::MissingToken.www_authenticate_value(), "Bearer");
    assert!(AuthMiddlewareError::TokenExpired.www_authenticate_value().contains("expired"));
    assert!(AuthMiddlewareError::InvalidTokenFormat
        .www_authenticate_value()
        .contains("invalid_token"));
    assert!(AuthMiddlewareError::InvalidToken
        .www_authenticate_value()
        .contains("validation failed"));
    assert!(AuthMiddlewareError::InvalidTokenType
        .www_authenticate_value()
        .contains("Access token required"));
}

#[test]
fn test_error_codes() {
    assert_eq!(AuthMiddlewareError::MissingToken.error_code(), "MISSING_TOKEN");
    assert_eq!(AuthMiddlewareError::InvalidTokenFormat.error_code(), "INVALID_TOKEN_FORMAT");
    assert_eq!(AuthMiddlewareError::InvalidToken.error_code(), "INVALID_TOKEN");
    assert_eq!(AuthMiddlewareError::TokenExpired.error_code(), "TOKEN_EXPIRED");
    assert_eq!(AuthMiddlewareError::InvalidTokenType.error_code(), "INVALID_TOKEN_TYPE");
}

#[test]
fn test_error_messages() {
    assert_eq!(AuthMiddlewareError::MissingToken.message(), "Missing authentication token");
    assert_eq!(
        AuthMiddlewareError::InvalidTokenFormat.message(),
        "Invalid token format. Use 'Bearer <token>'"
    );
    assert_eq!(AuthMiddlewareError::TokenExpired.message(), "Token has expired");
    assert_eq!(
        AuthMiddlewareError::InvalidTokenType.message(),
        "Invalid token type. Access token required"
    );
}

#[test]
fn test_authenticated_user_clone() {
    let user = AuthenticatedUser {
        user_id: Uuid::new_v4().as_u128(),
        username: "test_user".to_string(),
    };
    let cloned = user.clone();

    assert_eq!(user.user_id, cloned.user_id);
    assert_eq!(user.username, cloned.username);
}

#[test]
fn config_error_is_500_without_challenge() {
    let reply = AuthMiddlewareError::ConfigError.to_response();
    assert_eq!(reply.status, 500);
    assert!(reply.www_authenticate.is_none());
    assert_eq!(reply.body.error.unwrap().code, "CONFIG_ERROR");
}

#[test]
fn every_401_reply_carries_its_challenge() {
    let kinds = [
        AuthMiddlewareError::MissingToken,
        AuthMiddlewareError::InvalidTokenFormat,
        AuthMiddlewareError::InvalidToken,
        AuthMiddlewareError::TokenExpired,
        AuthMiddlewareError::InvalidTokenType,
    ];
    for k in kinds {
        let reply = k.to_response();
        assert_eq!(reply.status, 401);
        assert_eq!(reply.www_authenticate.as_deref(), Some(k.www_authenticate_value()));
        assert!(!reply.body.success);
        let err = reply.body.error.unwrap();
        assert_eq!(err.code, k.error_code());
        assert_eq!(err.message, k.message());
    }
    assert_eq!(
        AuthMiddlewareError::TokenExpired.www_authenticate_value(),
        "Bearer error=\"invalid_token\", error_description=\"The access token expired\""
    );
}

#[test]
fn bearer_extraction_cases() {
    assert_eq!(extract_bearer_token(None).unwrap_err(), AuthMiddlewareError::MissingToken);
    assert_eq!(
        extract_bearer_token(Some("Bearer ")).unwrap_err(),
        AuthMiddlewareError::MissingToken
    );
    assert_eq!(
        extract_bearer_token(Some("Basic abc")).unwrap_err(),
        AuthMiddlewareError::InvalidTokenFormat
    );
    assert_eq!(
        extract_bearer_token(Some("bearer abc")).unwrap_err(),
        AuthMiddlewareError::InvalidTokenFormat
    );
    assert_eq!(
        extract_bearer_token(Some("Bearer a\u{e9}b")).unwrap_err(),
        AuthMiddlewareError::InvalidTokenFormat
    );
    assert_eq!(extract_bearer_token(Some("Bearer v4.local.xyz")).unwrap(), "v4.local.xyz");
    assert_eq!(extract_bearer_token(Some("Bearer  x")).unwrap(), " x");
}

fn config() -> JwtConfig {
    JwtConfig {
        secret: "SECRET-REDACTED-middleware-test".to_string(),
        expiration_hours: 24,
        refresh_expiration_days: 7,
    }
}

fn sealed(kind: &str, sub: &str, username: Option<&str>, exp: &str) -> String {
    let claims = TokenClaims {
        sub: sub.to_string(),
        username: username.map(String::from),
        token_type: kind.to_string(),
        exp: exp.to_string(),
    };
    issue(&claims, &token_key(&config().secret)).unwrap()
}

const NOW: Timestamp = Timestamp { secs: 1_760_000_000, nanos: 0 };
const NOW_TEXT: &str = "2025-10-09T08:53:20+00:00";
const NEXT_SECOND_TEXT: &str = "2025-10-09T08:53:21+00:00";

#[test]
fn expiry_exactly_now_is_refused() {
    let sub = uuid_text(7);
    let token = sealed("access", &sub, Some("alice"), NOW_TEXT);
    assert_eq!(
        validate_token_at(&token, &config(), NOW).unwrap_err(),
        AuthMiddlewareError::TokenExpired
    );
}

#[test]
fn expiry_one_second_ahead_is_accepted() {
    let sub = uuid_text(7);
    let token = sealed("access", &sub, Some("alice"), NEXT_SECOND_TEXT);
    let claims = validate_token_at(&token, &config(), NOW).unwrap();
    assert_eq!(claims.exp, NEXT_SECOND_TEXT);
    let mw = AuthenticationMiddleware::new(config());
    let header = format!("Bearer {}", token);
    let user = mw.validate_request_at(Some(&header), NOW).unwrap();
    assert_eq!(user.user_id, 7);
    assert_eq!(user.username, "alice");
}

#[test]
fn refresh_token_is_refused_with_invalid_token_type() {
    let sub = uuid_text(9);
    let token = sealed("refresh", &sub, None, NEXT_SECOND_TEXT);
    let mw = AuthenticationMiddleware::new(config());
    let header = format!("Bearer {}", token);
    assert_eq!(
        mw.validate_request_at(Some(&header), NOW).unwrap_err(),
        AuthMiddlewareError::InvalidTokenType
    );
}

#[test]
fn bad_subject_and_bad_expiry_are_invalid_tokens() {
    let mw = AuthenticationMiddleware::new(config());
    let not_uuid = sealed("access", "user-1", Some("bob"), NEXT_SECOND_TEXT);
    assert_eq!(
        mw.validate_request_at(Some(&format!("Bearer {}", not_uuid)), NOW).unwrap_err(),
        AuthMiddlewareError::InvalidToken
    );
    let other_key = TokenClaims {
        sub: uuid_text(1),
        username: Some("bob".to_string()),
        token_type: "access".to_string(),
        exp: NEXT_SECOND_TEXT.to_string(),
    };
    let forged = issue(&other_key, &token_key("another secret")).unwrap();
    assert_eq!(
        mw.validate_request_at(Some(&format!("Bearer {}", forged)), NOW).unwrap_err(),
        AuthMiddlewareError::InvalidToken
    );
    assert_eq!(
        mw.validate_request_at(Some("Bearer not-a-token"), NOW).unwrap_err(),
        AuthMiddlewareError::InvalidToken
    );
}
