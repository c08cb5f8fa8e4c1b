//! Registration and login: the decisions between the user store's answers.
use crate::config::JwtConfig;
use crate::domain::{is_error_body, ErrorReply, ReplyView};
use crate::dto_auth::{LoginRequest, LoginResponse, RegisterRequest, RegisterResponse, UserResponse};
use crate::hasher::{argon2_check, argon2_hash_fresh, argon2_verify};
use crate::ids::{uuid_hyphenated, uuid_parsed, uuid_text};
use crate::keys::{token_key, token_key_of};
use crate::models::User;
use crate::time::{
    chrono_holds, current_time, format_rfc3339, parsed_instant, plain_instant, rfc3339_text,
    Timestamp,
};
use crate::token::{
    carries, issue, openable, paseto_v4_payload, token_text, ClaimsView, TokenClaims,
};
use vstd::prelude::*;
use vstd::utf8::encode_utf8;

verus! {

#[derive(Clone, Debug)]
pub enum AuthError {
    UsernameExists,
    /// Deliberately the same for an unknown username and a wrong password.
    InvalidCredentials,
    HashingError(String),
    TokenError(String),
    DatabaseError(String),
    ValidationError(String),
}

#[derive(Clone, Copy, Debug, PartialEq, Eq, Structural)]
pub enum AuthErrorKind {
    UsernameExists,
    InvalidCredentials,
    Hashing,
    Token,
    Database,
    Validation,
}

impl AuthError {
    pub open spec fn kind_of(&self) -> AuthErrorKind {
        match *self {
            AuthError::UsernameExists => AuthErrorKind::UsernameExists,
            AuthError::InvalidCredentials => AuthErrorKind::InvalidCredentials,
            AuthError::HashingError(_) => AuthErrorKind::Hashing,
            AuthError::TokenError(_) => AuthErrorKind::Token,
            AuthError::DatabaseError(_) => AuthErrorKind::Database,
            AuthError::ValidationError(_) => AuthErrorKind::Validation,
        }
    }

    pub fn kind(&self) -> (r: AuthErrorKind)
        ensures
            r == self.kind_of(),
    {
        match self {
            AuthError::UsernameExists => AuthErrorKind::UsernameExists,
            AuthError::InvalidCredentials => AuthErrorKind::InvalidCredentials,
            AuthError::HashingError(_) => AuthErrorKind::Hashing,
            AuthError::TokenError(_) => AuthErrorKind::Token,
            AuthError::DatabaseError(_) => AuthErrorKind::Database,
            AuthError::ValidationError(_) => AuthErrorKind::Validation,
        }
    }

    /// The reply of the registration endpoint to this error. Infrastructure
    /// failures get a generic message; their detail is never echoed.
    pub fn register_reply(&self) -> (r: ErrorReply)
        ensures
            r@ == register_reply_of(*self),
            is_error_body(r),
    {
        match self {
            AuthError::UsernameExists => ErrorReply::new(
                409,
                None,
                "USERNAME_EXISTS",
                "Username already exists",
            ),
            AuthError::ValidationError(msg) => ErrorReply::new(
                400,
                None,
                "VALIDATION_ERROR",
                msg.as_str(),
            ),
            _ => ErrorReply::new(
                500,
                None,
                "INTERNAL_ERROR",
                "An error occurred during registration",
            ),
        }
    }

    /// The reply of the login endpoint to this error: it depends on the kind alone.
    pub fn login_reply(&self) -> (r: ErrorReply)
        ensures
            r@ == login_reply_of(self.kind_of()),
            is_error_body(r),
    {
        match self {
            AuthError::InvalidCredentials => ErrorReply::new(
                401,
                Some("Bearer"),
                "INVALID_CREDENTIALS",
                "Invalid username or password",
            ),
            _ => ErrorReply::new(500, None, "INTERNAL_ERROR", "An error occurred during login"),
        }
    }
}

pub open spec fn register_reply_of(e: AuthError) -> ReplyView {
    match e {
        AuthError::UsernameExists => ReplyView {
            status: 409,
            challenge: None,
            code: "USERNAME_EXISTS"@,
            message: "Username already exists"@,
        },
        AuthError::ValidationError(msg) => ReplyView {
            status: 400,
            challenge: None,
            code: "VALIDATION_ERROR"@,
            message: msg@,
        },
        _ => ReplyView {
            status: 500,
            challenge: None,
            code: "INTERNAL_ERROR"@,
            message: "An error occurred during registration"@,
        },
    }
}

pub open spec fn login_reply_of(k: AuthErrorKind) -> ReplyView {
    if k == AuthErrorKind::InvalidCredentials {
        ReplyView {
            status: 401,
            challenge: Some("Bearer"@),
            code: "INVALID_CREDENTIALS"@,
            message: "Invalid username or password"@,
        }
    } else {
        ReplyView {
            status: 500,
            challenge: None,
            code: "INTERNAL_ERROR"@,
            message: "An error occurred during login"@,
        }
    }
}

/// `stored` is a credential that hashing `password` produced.
pub open spec fn hashed_from(password: Seq<char>, stored: Seq<char>) -> bool {
    argon2_check(password, stored) == Some(true)
}

/// What checking `password` against `stored` yields.
pub open spec fn verify_outcome(password: Seq<char>, stored: Seq<char>) -> Result<bool, AuthErrorKind> {
    match argon2_check(password, stored) {
        Some(b) => Ok(b),
        None => Err(AuthErrorKind::Hashing),
    }
}

/// A PHC string of argon2id, version 19: `$argon2id$v=19$...`.
pub open spec fn is_argon2id_phc(h: Seq<char>) -> bool {
    h.len() >= 15 && h.subrange(0, 15) == "$argon2id$v=19$"@
}

/// A user row ready for the store: the username and its fresh credential.
#[derive(Clone, Debug)]
pub struct NewUser {
    pub username: String,
    pub password_hash: String,
}

/// Why login refuses, from what the store returned and the password check;
/// `None` where the credentials hold.
pub open spec fn login_failure(user: Option<User>, password: Seq<char>) -> Option<AuthErrorKind> {
    match user {
        None => Some(AuthErrorKind::InvalidCredentials),
        Some(u) => match argon2_check(password, u.password_hash@) {
            None => Some(AuthErrorKind::Hashing),
            Some(false) => Some(AuthErrorKind::InvalidCredentials),
            Some(true) => None,
        },
    }
}

/// The instant `secs` seconds after `now`, as RFC 3339 text.
pub open spec fn expiry_text(now: Timestamp, secs: int) -> Seq<char> {
    rfc3339_text((now.secs + secs) as i64, now.nanos)
}

/// The instant `secs` seconds after `now`.
pub open spec fn expiry_instant(now: Timestamp, secs: int) -> Timestamp {
    Timestamp { secs: (now.secs + secs) as i64, nanos: now.nanos }
}

/// The expiry text `secs` after `now` reads back as that instant wherever it
/// has a four-digit year.
pub open spec fn readable_expiry(now: Timestamp, secs: int) -> bool {
    plain_instant(expiry_instant(now, secs).secs, now.nanos) ==> parsed_instant(
        expiry_text(now, secs),
    ) == Some(expiry_instant(now, secs))
}

pub open spec fn access_claims_of(u: User, exp: Seq<char>) -> ClaimsView {
    ClaimsView {
        sub: uuid_hyphenated(u.user_id),
        username: Some(u.username@),
        token_type: "access"@,
        exp,
    }
}

pub open spec fn refresh_claims_of(u: User, exp: Seq<char>) -> ClaimsView {
    ClaimsView {
        sub: uuid_hyphenated(u.user_id),
        username: Some(u.username@),
        token_type: "refresh"@,
        exp,
    }
}

/// An expiry `count` units of `unit` seconds after `now` can be written: the
/// offset and the instant fit in `i64`, and chrono holds the instant.
pub open spec fn expiry_fits(now: Timestamp, count: i64, unit: int) -> bool {
    &&& i64::MIN <= count * unit <= i64::MAX
    &&& i64::MIN <= now.secs + count * unit <= i64::MAX
    &&& chrono_holds((now.secs + count * unit) as i64, now.nanos)
}

/// Both configured lifetimes give expiries that can be written at `now`.
pub open spec fn lifetimes_fit(config: JwtConfig, now: Timestamp) -> bool {
    expiry_fits(now, config.expiration_hours, 3600) && expiry_fits(
        now,
        config.refresh_expiration_days,
        86400,
    )
}

pub const EXPIRY_OUT_OF_RANGE: &'static str = "token expiry out of range";

pub const NOT_SEALED: &'static str = "token could not be sealed";

/// The error of a lifetime whose expiry cannot be written.
pub open spec fn is_range_error(e: AuthError) -> bool {
    e matches AuthError::TokenError(m) && m@ == EXPIRY_OUT_OF_RANGE@
}

/// The error of claims that the token library did not seal.
pub open spec fn is_sealing_error(e: AuthError) -> bool {
    e matches AuthError::TokenError(m) && m@ == NOT_SEALED@
}

/// What issuing at `now` may fail with: a range error exactly where a lifetime
/// does not fit, else only a sealing error.
pub open spec fn issue_failure(config: JwtConfig, now: Timestamp, e: AuthError) -> bool {
    if lifetimes_fit(config, now) {
        is_sealing_error(e)
    } else {
        is_range_error(e)
    }
}

/// `access` and `refresh` are the pair issued to `u` at `now` under `config`.
pub open spec fn issued_pair(
    access: Seq<char>,
    refresh: Seq<char>,
    u: User,
    config: JwtConfig,
    now: Timestamp,
) -> bool {
    let key = token_key_of(config.secret@);
    &&& openable(access)
    &&& openable(refresh)
    &&& token_text(access)
    &&& token_text(refresh)
    &&& uuid_parsed(uuid_hyphenated(u.user_id)) == Some(u.user_id)
    &&& readable_expiry(now, config.expiration_hours * 3600)
    &&& readable_expiry(now, config.refresh_expiration_days * 86400)
    &&& carries(
        paseto_v4_payload(access, key),
        access_claims_of(u, expiry_text(now, config.expiration_hours * 3600)),
    )
    &&& carries(
        paseto_v4_payload(refresh, key),
        refresh_claims_of(u, expiry_text(now, config.refresh_expiration_days * 86400)),
    )
}

pub struct AuthService;

impl AuthService {
    /// Hashes a password with a fresh random salt. CPU- and memory-heavy: callers
    /// run it off the request-handling threads.
    pub fn hash_password(password: &str) -> (r: Result<String, AuthError>)
        ensures
            r matches Ok(h) ==> hashed_from(password@, h@) && is_argon2id_phc(h@),
            r matches Err(e) ==> e.kind_of() == AuthErrorKind::Hashing,
            encode_utf8(password@).len() <= u32::MAX ==> r is Ok,
    {
        match argon2_hash_fresh(password) {
            Some(h) => Ok(h),
            None => Err(AuthError::HashingError("password hashing failed".to_string())),
        }
    }

    /// Checks a password against a stored credential. A mismatch is `Ok(false)`;
    /// a malformed credential is a hashing error, never a panic.
    pub fn verify_password(password: &str, hash: &str) -> (r: Result<bool, AuthError>)
        ensures
            match verify_outcome(password@, hash@) {
                Ok(b) => r == Ok::<bool, AuthError>(b),
                Err(k) => r matches Err(e) && e.kind_of() == k,
            },
    {
        match argon2_verify(password, hash) {
            Some(b) => Ok(b),
            None => Err(AuthError::HashingError("stored credential is malformed".to_string())),
        }
    }

    /// Registration once the store has said whether the username is taken: a
    /// taken name fails, else the password is hashed for the new user row.
    pub fn register(request: &RegisterRequest, username_taken: bool) -> (r: Result<
        NewUser,
        AuthError,
    >)
        ensures
            username_taken ==> (r matches Err(e) && e.kind_of() == AuthErrorKind::UsernameExists),
            !username_taken ==> (r matches Ok(n) ==> n.username@ == request.username@
                && hashed_from(request.password@, n.password_hash@)),
            !username_taken ==> (r matches Err(e) ==> e.kind_of() == AuthErrorKind::Hashing),
            !username_taken && encode_utf8(request.password@).len() <= u32::MAX ==> r is Ok,
    {
        if username_taken {
            return Err(AuthError::UsernameExists);
        }
        let password_hash = AuthService::hash_password(request.password.as_str())?;
        Ok(NewUser { username: request.username.clone(), password_hash })
    }

    /// The public summary of a freshly stored user.
    pub fn registration_response(user: &User) -> (r: RegisterResponse)
        ensures
            r.user_id == user.user_id,
            r.username@ == user.username@,
            user.created_at is None ==> r.created_at@ == Seq::<char>::empty(),
            user.created_at matches Some(t) ==> (chrono_holds(t.secs, t.nanos) ==> r.created_at@
                == rfc3339_text(t.secs, t.nanos)),
            user.created_at matches Some(t) ==> (!chrono_holds(t.secs, t.nanos) ==> r.created_at@
                == Seq::<char>::empty()),
    {
        let created_at = match user.created_at {
            Some(t) => match format_rfc3339(t) {
                Some(s) => s,
                None => String::new(),
            },
            None => String::new(),
        };
        RegisterResponse { user_id: user.user_id, username: user.username.clone(), created_at }
    }

    /// Issues the access and refresh tokens of `user` at the instant `now`. Both
    /// carry the subject and username; they differ in kind and in lifetime.
    pub fn generate_tokens_at(user: &User, config: &JwtConfig, now: Timestamp) -> (r: Result<
        (String, String),
        AuthError,
    >)
        ensures
            r matches Ok(p) ==> issued_pair(p.0@, p.1@, *user, *config, now) && lifetimes_fit(
                *config,
                now,
            ),
            r matches Err(e) ==> issue_failure(*config, now, e),
            !lifetimes_fit(*config, now) ==> r is Err,
    {
        let access_exp = AuthService::expiry(now, config.expiration_hours, 3600);
        let refresh_exp = AuthService::expiry(now, config.refresh_expiration_days, 86400);
        let (access_exp, refresh_exp) = match (access_exp, refresh_exp) {
            (Some(a), Some(b)) => (a, b),
            _ => return Err(AuthError::TokenError(EXPIRY_OUT_OF_RANGE.to_string())),
        };
        let key = token_key(config.secret.as_str());
        let sub = uuid_text(user.user_id);
        let access = TokenClaims {
            sub: sub.clone(),
            username: Some(user.username.clone()),
            token_type: "access".to_string(),
            exp: access_exp,
        };
        let refresh = TokenClaims {
            sub,
            username: Some(user.username.clone()),
            token_type: "refresh".to_string(),
            exp: refresh_exp,
        };
        let access_token = match issue(&access, &key) {
            Ok(t) => t,
            Err(_) => return Err(AuthError::TokenError(NOT_SEALED.to_string())),
        };
        let refresh_token = match issue(&refresh, &key) {
            Ok(t) => t,
            Err(_) => return Err(AuthError::TokenError(NOT_SEALED.to_string())),
        };
        Ok((access_token, refresh_token))
    }

    /// RFC 3339 text of `count` units of `unit` seconds after `now`, where it
    /// can be written.
    fn expiry(now: Timestamp, count: i64, unit: i64) -> (r: Option<String>)
        ensures
            r is Some <==> expiry_fits(now, count, unit as int),
            r matches Some(s) ==> s@ == expiry_text(now, count * unit) && readable_expiry(
                now,
                count * unit,
            ),
    {
        let delta = match count.checked_mul(unit) {
            Some(d) => d,
            None => return None,
        };
        match now.plus_seconds(delta) {
            Some(t) => format_rfc3339(t),
            None => None,
        }
    }

    /// Issues the token pair of `user` now.
    pub fn generate_tokens(user: &User, config: &JwtConfig) -> (r: Result<(String, String), AuthError>)
        ensures
            r matches Ok(p) ==> exists|now: Timestamp|
                #[trigger] issued_pair(p.0@, p.1@, *user, *config, now),
            r matches Err(e) ==> exists|now: Timestamp| #[trigger] issue_failure(*config, now, e),
    {
        AuthService::generate_tokens_at(user, config, current_time())
    }

    /// Login once the store has answered the lookup by username, at the instant
    /// `now`. An unknown user and a wrong password fail alike.
    pub fn login_at(
        user: Option<User>,
        request: &LoginRequest,
        config: &JwtConfig,
        now: Timestamp,
    ) -> (r: Result<LoginResponse, AuthError>)
        ensures
            login_failure(user, request.password@) matches Some(k) ==> (r matches Err(e)
                && e.kind_of() == k),
            login_failure(user, request.password@) is None ==> (r matches Err(e) ==> issue_failure(
                *config,
                now,
                e,
            )),
            login_failure(user, request.password@) is None && !lifetimes_fit(*config, now)
                ==> r is Err,
            r matches Ok(resp) ==> (user matches Some(u) && resp.user.user_id == u.user_id
                && resp.user.username@ == u.username@ && resp.expires_in == config.expiration_hours
                * 3600 && issued_pair(resp.access_token@, resp.refresh_token@, u, *config, now)),
    {
        let u = match user {
            Some(u) => u,
            None => return Err(AuthError::InvalidCredentials),
        };
        let valid = AuthService::verify_password(
            request.password.as_str(),
            u.password_hash.as_str(),
        )?;
        if !valid {
            return Err(AuthError::InvalidCredentials);
        }
        let (access_token, refresh_token) = AuthService::generate_tokens_at(&u, config, now)?;
        let expires_in = config.expiration_hours * 3600;
        Ok(
            LoginResponse {
                access_token,
                refresh_token,
                expires_in,
                user: UserResponse { user_id: u.user_id, username: u.username },
            },
        )
    }

    /// Login against the current instant.
    pub fn login(user: Option<User>, request: &LoginRequest, config: &JwtConfig) -> (r: Result<
        LoginResponse,
        AuthError,
    >)
        ensures
            login_failure(user, request.password@) matches Some(k) ==> (r matches Err(e)
                && e.kind_of() == k),
            login_failure(user, request.password@) is None ==> (r matches Err(e) ==> exists|
                now: Timestamp,
            | #[trigger] issue_failure(*config, now, e)),
            r matches Ok(resp) ==> (user matches Some(u) && resp.user.user_id == u.user_id
                && resp.user.username@ == u.username@ && resp.expires_in == config.expiration_hours
                * 3600 && exists|now: Timestamp|
                #[trigger] issued_pair(resp.access_token@, resp.refresh_token@, u, *config, now)),
    {
        AuthService::login_at(user, request, config, current_time())
    }
}

/// A login for a username that does not exist and a login for one that exists,
/// with a wrong password, fail with the same error and get the same reply, so the
/// reply does not tell whether the username exists.
pub proof fn lemma_login_hides_unknown_users(password: Seq<char>, known: User)
    requires
        argon2_check(password, known.password_hash@) == Some(false),
    ensures
        login_failure(None, password) == login_failure(Some(known), password),
        login_failure(None, password) == Some(AuthErrorKind::InvalidCredentials),
        login_reply_of(login_failure(None, password)->0) == login_reply_of(
            login_failure(Some(known), password)->0,
        ),
{
}

/// A credential that hashing produced for a password verifies that password.
pub proof fn lemma_hash_then_verify(password: Seq<char>, stored: Seq<char>)
    requires
        hashed_from(password, stored),
    ensures
        verify_outcome(password, stored) == Ok::<bool, AuthErrorKind>(true),
{
}

} // verus!
