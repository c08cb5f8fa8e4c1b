use cell_api_auth::auth_middleware::{AuthMiddlewareError, AuthenticationMiddleware};
use cell_api_auth::auth_service::{AuthError, AuthErrorKind, AuthService};
use cell_api_auth::config::JwtConfig;
use cell_api_auth::keys::token_key;
use cell_api_auth::token::verify;
use cell_api_auth::dto_auth::{LoginRequest, RegisterRequest};
use cell_api_auth::models::User;
use cell_api_auth::time::Timestamp;

fn config() -> JwtConfig {
    JwtConfig {
        secret: "SECRET-REDACTED".to_string(),
        expiration_hours: 24,
        refresh_expiration_days: 7,
    }
}

#[test]
fn hashed_password_verifies_and_salts_differ() {
    let a = AuthService::hash_password("correct horse").unwrap();
    let b = AuthService::hash_password("correct horse").unwrap();
    assert!(a.starts_with("$argon2id$v=19$"));
    assert!(a != "correct horse");
    assert_ne!(a, b);
    assert!(AuthService::verify_password("correct horse", &a).unwrap());
    assert!(AuthService::verify_password("correct horse", &b).unwrap());
    assert!(!AuthService::verify_password("wrong horse", &a).unwrap());
}

#[test]
fn malformed_credential_is_a_hashing_error() {
    let e = AuthService::verify_password("pw", "not a phc string").unwrap_err();
    assert_eq!(e.kind(), AuthErrorKind::Hashing);
    assert_eq!(e.login_reply().status, 500);
}

#[test]
fn unknown_user_and_wrong_password_look_the_same() {
    let stored = AuthService::hash_password("right password").unwrap();
    let user = User { user_id: 1, username: "bob".to_string(), password_hash: stored, created_at: None };
    let req = LoginRequest { username: "bob".to_string(), password: "wrong password".to_string() };
    let unknown = AuthService::login(None, &req, &config()).unwrap_err();
    let wrong = AuthService::login(Some(user), &req, &config()).unwrap_err();
    assert!(matches!(unknown, AuthError::InvalidCredentials));
    assert!(matches!(wrong, AuthError::InvalidCredentials));
    let (a, b) = (unknown.login_reply(), wrong.login_reply());
    assert_eq!(a.status, 401);
    assert_eq!(a.status, b.status);
    assert_eq!(a.www_authenticate, b.www_authenticate);
    let (ea, eb) = (a.body.error.unwrap(), b.body.error.unwrap());
    assert_eq!((ea.code.as_str(), ea.message.as_str()), ("INVALID_CREDENTIALS", "Invalid username or password"));
    assert_eq!((ea.code, ea.message), (eb.code, eb.message));
}

#[test]
fn error_replies_of_the_endpoints() {
    let r = AuthError::UsernameExists.register_reply();
    assert_eq!((r.status, r.body.error.unwrap().code.as_str()), (409, "USERNAME_EXISTS"));
    let r = AuthError::ValidationError("bad".to_string()).register_reply();
    assert_eq!((r.status, r.body.error.unwrap().message.as_str()), (400, "bad"));
    let r = AuthError::DatabaseError("connection refused at 10.0.0.1".to_string()).register_reply();
    let e = r.body.error.unwrap();
    assert_eq!((r.status, e.code.as_str()), (500, "INTERNAL_ERROR"));
    assert_eq!(e.message, "An error occurred during registration");
    let r = AuthError::TokenError("x".to_string()).login_reply();
    assert_eq!(r.body.error.unwrap().message, "An error occurred during login");
}

#[test]
fn token_lifetimes_follow_the_configuration() {
    let now = Timestamp { secs: 1_760_000_000, nanos: 0 };
    let user = User { user_id: 5, username: "carol".to_string(), password_hash: String::new(), created_at: None };
    let cfg = JwtConfig { expiration_hours: 1, ..config() };
    let (access, refresh) = AuthService::generate_tokens_at(&user, &cfg, now).unwrap();
    let mw = AuthenticationMiddleware::new(cfg.clone());
    let almost = Timestamp { secs: now.secs + 3599, nanos: 0 };
    let at_expiry = Timestamp { secs: now.secs + 3600, nanos: 0 };
    assert!(mw.validate_request_at(Some(&format!("Bearer {}", access)), almost).is_ok());
    assert_eq!(
        mw.validate_request_at(Some(&format!("Bearer {}", access)), at_expiry).unwrap_err(),
        AuthMiddlewareError::TokenExpired
    );
    assert_eq!(
        mw.validate_request_at(Some(&format!("Bearer {}", refresh)), now).unwrap_err(),
        AuthMiddlewareError::InvalidTokenType
    );
    let overflow = JwtConfig { expiration_hours: i64::MAX, ..config() };
    match AuthService::generate_tokens_at(&user, &overflow, now).unwrap_err() {
        AuthError::TokenError(m) => assert_eq!(m, "token expiry out of range"),
        other => panic!("unexpected {:?}", other),
    }
    // Past chrono's range, but within i64: still a range error.
    let far = JwtConfig { refresh_expiration_days: 1 << 40, ..config() };
    match AuthService::generate_tokens_at(&user, &far, now).unwrap_err() {
        AuthError::TokenError(m) => assert_eq!(m, "token expiry out of range"),
        other => panic!("unexpected {:?}", other),
    }
    let stored = User { password_hash: AuthService::hash_password("pw").unwrap(), ..user.clone() };
    let req = LoginRequest { username: "carol".to_string(), password: "pw".to_string() };
    match AuthService::login_at(Some(stored), &req, &overflow, now).unwrap_err() {
        AuthError::TokenError(m) => assert_eq!(m, "token expiry out of range"),
        other => panic!("unexpected {:?}", other),
    }
}

#[test]
fn registration_then_login_scenario() {
    let cfg = config();
    let req = RegisterRequest { username: "alice".to_string(), password: "Str0ng!Passw0rd123".to_string() };
    assert!(req.validate().is_ok());

    // First registration: the name is free.
    let new_user = AuthService::register(&req, false).unwrap();
    assert_eq!(new_user.username, "alice");
    let stored = User {
        user_id: 0x1111_2222_3333_4444_5555_6666_7777_8888,
        username: new_user.username.clone(),
        password_hash: new_user.password_hash.clone(),
        created_at: Some(Timestamp { secs: 1_760_000_000, nanos: 0 }),
    };
    let summary = AuthService::registration_response(&stored);
    assert_eq!(summary.user_id, stored.user_id);
    assert_eq!(summary.username, "alice");
    assert_eq!(summary.created_at, "2025-10-09T08:53:20+00:00");

    // Second registration of the same name.
    let again = AuthService::register(&req, true).unwrap_err();
    let reply = again.register_reply();
    assert_eq!((reply.status, reply.body.error.unwrap().code.as_str()), (409, "USERNAME_EXISTS"));

    // Wrong password.
    let wrong = LoginRequest { username: "alice".to_string(), password: "Wr0ng!Passw0rd123".to_string() };
    let reply = AuthService::login(Some(stored.clone()), &wrong, &cfg).unwrap_err().login_reply();
    assert_eq!((reply.status, reply.body.error.unwrap().code.as_str()), (401, "INVALID_CREDENTIALS"));

    // Right password.
    let now = Timestamp { secs: 1_760_000_000, nanos: 0 };
    let right = LoginRequest { username: "alice".to_string(), password: "Str0ng!Passw0rd123".to_string() };
    let login = AuthService::login_at(Some(stored.clone()), &right, &cfg, now).unwrap();
    assert_eq!(login.expires_in, 24 * 3600);
    assert_eq!(login.user.user_id, stored.user_id);
    assert_eq!(login.user.username, "alice");
    assert!(login.access_token.starts_with("v4.local."));
    assert!(login.refresh_token.starts_with("v4.local."));
    assert_ne!(login.access_token, login.refresh_token);
    let key = token_key(&cfg.secret);
    let access_claims = verify(&login.access_token, &key).unwrap();
    let refresh_claims = verify(&login.refresh_token, &key).unwrap();
    assert_eq!(access_claims.sub, "11112222-3333-4444-5555-666677778888");
    assert_eq!(access_claims.exp, "2025-10-10T08:53:20+00:00");
    assert_eq!(refresh_claims.sub, access_claims.sub);
    assert_eq!(refresh_claims.username.as_deref(), Some("alice"));
    assert_eq!(refresh_claims.token_type, "refresh");
    assert_eq!(refresh_claims.exp, "2025-10-16T08:53:20+00:00");

    // Protected route with each token.
    let mw = AuthenticationMiddleware::new(cfg.clone());
    let access = format!("Bearer {}", login.access_token);
    let refresh = format!("Bearer {}", login.refresh_token);
    let identity = mw.validate_request_at(Some(&access), now).unwrap();
    assert_eq!(identity.user_id, stored.user_id);
    assert_eq!(identity.username, "alice");
    let e = mw.validate_request_at(Some(&refresh), now).unwrap_err();
    let reply = e.to_response();
    assert!(!reply.body.success && reply.body.data.is_none());
    assert!(reply.www_authenticate.as_deref().unwrap().contains("Access token required"));
    assert_eq!((reply.status, reply.body.error.unwrap().code.as_str()), (401, "INVALID_TOKEN_TYPE"));
    let later = Timestamp { secs: now.secs + 24 * 3600, nanos: 0 };
    let e = mw.validate_request_at(Some(&access), later).unwrap_err();
    let reply = e.to_response();
    assert_eq!((reply.status, reply.body.error.unwrap().code.as_str()), (401, "TOKEN_EXPIRED"));
}
