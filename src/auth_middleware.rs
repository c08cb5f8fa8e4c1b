//! Per-request authentication: bearer token in, identity or a 401 reply out.
use crate::auth_service::{expiry_instant, issued_pair};
use crate::config::JwtConfig;
use crate::models::User;
use crate::domain::{is_error_body, ErrorReply, ReplyView};
use crate::ids::{parse_uuid, uuid_parsed};
use crate::keys::{token_key, token_key_of};
use crate::text::{starts_with_text, text_eq};
use crate::time::{before, current_time, parse_rfc3339, parsed_instant, plain_instant, Timestamp};
use crate::token::{
    lemma_issue_then_verify, opened, token_text, verify, ClaimsView, TokenClaims,
};
use vstd::prelude::*;
use vstd::string::*;

verus! {

/// The principal of one request, attached to its context for the handlers.
#[derive(Clone, Debug)]
pub struct AuthenticatedUser {
    pub user_id: u128,
    pub username: String,
}

pub ghost struct IdentityView {
    pub user_id: u128,
    pub username: Seq<char>,
}

impl View for AuthenticatedUser {
    type V = IdentityView;

    open spec fn view(&self) -> IdentityView {
        IdentityView { user_id: self.user_id, username: self.username@ }
    }
}

#[derive(Clone, Copy, Debug, PartialEq, Eq, Structural)]
pub enum AuthMiddlewareError {
    /// No `Authorization` header, or a bearer scheme with an empty token.
    MissingToken,
    /// A header that is not `Bearer <token>`.
    InvalidTokenFormat,
    /// A token that does not authenticate, or whose claims do not parse.
    InvalidToken,
    /// A token whose expiry has been reached.
    TokenExpired,
    /// A token of another kind than `access`.
    InvalidTokenType,
    /// The server is misconfigured.
    ConfigError,
}

pub open spec fn status_of(e: AuthMiddlewareError) -> u16 {
    match e {
        AuthMiddlewareError::ConfigError => 500,
        _ => 401,
    }
}

pub open spec fn code_of(e: AuthMiddlewareError) -> Seq<char> {
    match e {
        AuthMiddlewareError::MissingToken => "MISSING_TOKEN"@,
        AuthMiddlewareError::InvalidTokenFormat => "INVALID_TOKEN_FORMAT"@,
        AuthMiddlewareError::InvalidToken => "INVALID_TOKEN"@,
        AuthMiddlewareError::TokenExpired => "TOKEN_EXPIRED"@,
        AuthMiddlewareError::InvalidTokenType => "INVALID_TOKEN_TYPE"@,
        AuthMiddlewareError::ConfigError => "CONFIG_ERROR"@,
    }
}

pub open spec fn message_of(e: AuthMiddlewareError) -> Seq<char> {
    match e {
        AuthMiddlewareError::MissingToken => "Missing authentication token"@,
        AuthMiddlewareError::InvalidTokenFormat => "Invalid token format. Use 'Bearer <token>'"@,
        AuthMiddlewareError::InvalidToken => "Invalid or malformed token"@,
        AuthMiddlewareError::TokenExpired => "Token has expired"@,
        AuthMiddlewareError::InvalidTokenType => "Invalid token type. Access token required"@,
        AuthMiddlewareError::ConfigError => "Server configuration error"@,
    }
}

pub open spec fn challenge_of(e: AuthMiddlewareError) -> Seq<char> {
    match e {
        AuthMiddlewareError::TokenExpired =>
            "Bearer error=\"invalid_token\", error_description=\"The access token expired\""@,
        AuthMiddlewareError::InvalidTokenFormat =>
            "Bearer error=\"invalid_token\", error_description=\"Invalid token format\""@,
        AuthMiddlewareError::InvalidToken =>
            "Bearer error=\"invalid_token\", error_description=\"Token validation failed\""@,
        AuthMiddlewareError::InvalidTokenType =>
            "Bearer error=\"invalid_token\", error_description=\"Access token required\""@,
        _ => "Bearer"@,
    }
}

/// The reply to a failed authentication: every 401 carries its challenge.
pub open spec fn failure_reply(e: AuthMiddlewareError) -> ReplyView {
    ReplyView {
        status: status_of(e),
        challenge: if status_of(e) == 401 {
            Some(challenge_of(e))
        } else {
            None
        },
        code: code_of(e),
        message: message_of(e),
    }
}

impl AuthMiddlewareError {
    pub fn status_code(&self) -> (r: u16)
        ensures
            r == status_of(*self),
    {
        match self {
            AuthMiddlewareError::ConfigError => 500,
            _ => 401,
        }
    }

    pub fn error_code(&self) -> (r: &'static str)
        ensures
            r@ == code_of(*self),
    {
        match self {
            AuthMiddlewareError::MissingToken => "MISSING_TOKEN",
            AuthMiddlewareError::InvalidTokenFormat => "INVALID_TOKEN_FORMAT",
            AuthMiddlewareError::InvalidToken => "INVALID_TOKEN",
            AuthMiddlewareError::TokenExpired => "TOKEN_EXPIRED",
            AuthMiddlewareError::InvalidTokenType => "INVALID_TOKEN_TYPE",
            AuthMiddlewareError::ConfigError => "CONFIG_ERROR",
        }
    }

    pub fn message(&self) -> (r: &'static str)
        ensures
            r@ == message_of(*self),
    {
        match self {
            AuthMiddlewareError::MissingToken => "Missing authentication token",
            AuthMiddlewareError::InvalidTokenFormat => "Invalid token format. Use 'Bearer <token>'",
            AuthMiddlewareError::InvalidToken => "Invalid or malformed token",
            AuthMiddlewareError::TokenExpired => "Token has expired",
            AuthMiddlewareError::InvalidTokenType => "Invalid token type. Access token required",
            AuthMiddlewareError::ConfigError => "Server configuration error",
        }
    }

    /// The `WWW-Authenticate` challenge (RFC 6750): bare `Bearer` where no token
    /// came, else `invalid_token` with a description of the failure.
    pub fn www_authenticate_value(&self) -> (r: &'static str)
        ensures
            r@ == challenge_of(*self),
    {
        match self {
            AuthMiddlewareError::TokenExpired =>
                "Bearer error=\"invalid_token\", error_description=\"The access token expired\"",
            AuthMiddlewareError::InvalidTokenFormat =>
                "Bearer error=\"invalid_token\", error_description=\"Invalid token format\"",
            AuthMiddlewareError::InvalidToken =>
                "Bearer error=\"invalid_token\", error_description=\"Token validation failed\"",
            AuthMiddlewareError::InvalidTokenType =>
                "Bearer error=\"invalid_token\", error_description=\"Access token required\"",
            _ => "Bearer",
        }
    }

    pub fn to_response(&self) -> (r: ErrorReply)
        ensures
            r@ == failure_reply(*self),
            is_error_body(r),
    {
        let status = self.status_code();
        let challenge = if status == 401 {
            Some(self.www_authenticate_value())
        } else {
            None
        };
        ErrorReply::new(status, challenge, self.error_code(), self.message())
    }
}

/// Characters that an HTTP header value may hold as text: visible ASCII and tab.
pub open spec fn visible_header_char(c: char) -> bool {
    c == '\t' || (' ' <= c && c <= '~')
}

pub open spec fn bearer_prefix() -> Seq<char> {
    seq!['B', 'e', 'a', 'r', 'e', 'r', ' ']
}

/// The token that an `Authorization` header value presents.
pub open spec fn bearer_of(header: Option<Seq<char>>) -> Result<Seq<char>, AuthMiddlewareError> {
    match header {
        None => Err(AuthMiddlewareError::MissingToken),
        Some(h) => if !(forall|i: int| 0 <= i < h.len() ==> visible_header_char(#[trigger] h[i])) {
            Err(AuthMiddlewareError::InvalidTokenFormat)
        } else if h.len() >= 7 && h.subrange(0, 7) == bearer_prefix() {
            if h.len() == 7 {
                Err(AuthMiddlewareError::MissingToken)
            } else {
                Ok(h.subrange(7, h.len() as int))
            }
        } else {
            Err(AuthMiddlewareError::InvalidTokenFormat)
        },
    }
}

/// What the claims of an authentic token decide at `now`: only an access token
/// whose expiry lies strictly after `now` passes.
pub open spec fn claims_verdict(c: ClaimsView, now: Timestamp) -> Result<
    ClaimsView,
    AuthMiddlewareError,
> {
    if c.token_type != "access"@ {
        Err(AuthMiddlewareError::InvalidTokenType)
    } else {
        match parsed_instant(c.exp) {
            None => Err(AuthMiddlewareError::InvalidToken),
            Some(t) => if before(now, t) {
                Ok(c)
            } else {
                Err(AuthMiddlewareError::TokenExpired)
            },
        }
    }
}

pub open spec fn token_verdict(token: Seq<char>, secret: Seq<char>, now: Timestamp) -> Result<
    ClaimsView,
    AuthMiddlewareError,
> {
    match opened(token, token_key_of(secret)) {
        None => Err(AuthMiddlewareError::InvalidToken),
        Some(c) => claims_verdict(c, now),
    }
}

pub open spec fn identity_of(c: ClaimsView) -> Result<IdentityView, AuthMiddlewareError> {
    match uuid_parsed(c.sub) {
        None => Err(AuthMiddlewareError::InvalidToken),
        Some(id) => Ok(
            IdentityView {
                user_id: id,
                username: match c.username {
                    Some(u) => u,
                    None => Seq::empty(),
                },
            },
        ),
    }
}

/// What a request with this `Authorization` header is, at `now`.
pub open spec fn request_verdict(header: Option<Seq<char>>, secret: Seq<char>, now: Timestamp) -> Result<
    IdentityView,
    AuthMiddlewareError,
> {
    match bearer_of(header) {
        Err(e) => Err(e),
        Ok(token) => match token_verdict(token, secret, now) {
            Err(e) => Err(e),
            Ok(c) => identity_of(c),
        },
    }
}

pub open spec fn opt_str(s: Option<&str>) -> Option<Seq<char>> {
    match s {
        Some(t) => Some(t@),
        None => None,
    }
}

fn all_visible(h: &str) -> (r: bool)
    ensures
        r == (forall|i: int| 0 <= i < h@.len() ==> visible_header_char(#[trigger] h@[i])),
{
    let n = h.unicode_len();
    let mut i: usize = 0;
    while i < n
        invariant
            n == h@.len(),
            i <= n,
            forall|j: int| 0 <= j < i ==> visible_header_char(#[trigger] h@[j]),
        decreases n - i,
    {
        let c = h.get_char(i);
        if !(c == '\t' || (' ' <= c && c <= '~')) {
            assert(!visible_header_char(h@[i as int]));
            return false;
        }
        i += 1;
    }
    true
}

/// Takes the token out of an `Authorization` header value (RFC 6750 section 2.1).
pub fn extract_bearer_token(authorization: Option<&str>) -> (r: Result<String, AuthMiddlewareError>)
    ensures
        match bearer_of(opt_str(authorization)) {
            Ok(t) => r matches Ok(s) && s@ == t,
            Err(e) => r == Err::<String, AuthMiddlewareError>(e),
        },
{
    let h = match authorization {
        Some(h) => h,
        None => return Err(AuthMiddlewareError::MissingToken),
    };
    if !all_visible(h) {
        return Err(AuthMiddlewareError::InvalidTokenFormat);
    }
    let prefix = "Bearer ";
    proof {
        reveal_strlit("Bearer ");
        assert(prefix@ =~= bearer_prefix());
    }
    if starts_with_text(h, prefix) {
        let n = h.unicode_len();
        if n == 7 {
            return Err(AuthMiddlewareError::MissingToken);
        }
        Ok(h.substring_char(7, n).to_string())
    } else {
        Err(AuthMiddlewareError::InvalidTokenFormat)
    }
}

/// Verifies a token under the configured secret and checks its claims at `now`.
pub fn validate_token_at(token: &str, jwt_config: &JwtConfig, now: Timestamp) -> (r: Result<
    TokenClaims,
    AuthMiddlewareError,
>)
    ensures
        match token_verdict(token@, jwt_config.secret@, now) {
            Ok(c) => r matches Ok(x) && x@ == c,
            Err(e) => r == Err::<TokenClaims, AuthMiddlewareError>(e),
        },
{
    let key = token_key(jwt_config.secret.as_str());
    let claims = match verify(token, &key) {
        Ok(c) => c,
        Err(_) => return Err(AuthMiddlewareError::InvalidToken),
    };
    if !text_eq(claims.token_type.as_str(), "access") {
        return Err(AuthMiddlewareError::InvalidTokenType);
    }
    let expiration = match parse_rfc3339(claims.exp.as_str()) {
        Some(t) => t,
        None => return Err(AuthMiddlewareError::InvalidToken),
    };
    if !now.is_before(&expiration) {
        return Err(AuthMiddlewareError::TokenExpired);
    }
    Ok(claims)
}

/// The middleware: holds the token settings and decides each request.
#[derive(Clone, Debug)]
pub struct AuthenticationMiddleware {
    pub jwt_config: JwtConfig,
}

impl AuthenticationMiddleware {
    pub fn new(jwt_config: JwtConfig) -> (r: AuthenticationMiddleware)
        ensures
            r.jwt_config == jwt_config,
    {
        AuthenticationMiddleware { jwt_config }
    }

    /// The identity that a request with this `Authorization` header value has at
    /// `now`, or the failure that stops it before any handler runs.
    pub fn validate_request_at(&self, authorization: Option<&str>, now: Timestamp) -> (r: Result<
        AuthenticatedUser,
        AuthMiddlewareError,
    >)
        ensures
            match request_verdict(opt_str(authorization), self.jwt_config.secret@, now) {
                Ok(id) => r matches Ok(u) && u@ == id,
                Err(e) => r == Err::<AuthenticatedUser, AuthMiddlewareError>(e),
            },
    {
        let token = extract_bearer_token(authorization)?;
        let claims = validate_token_at(token.as_str(), &self.jwt_config, now)?;
        let user_id = match parse_uuid(claims.sub.as_str()) {
            Some(id) => id,
            None => return Err(AuthMiddlewareError::InvalidToken),
        };
        let username = match claims.username {
            Some(u) => u,
            None => String::new(),
        };
        Ok(AuthenticatedUser { user_id, username })
    }

    /// The same decision against the current instant.
    pub fn validate_request(&self, authorization: Option<&str>) -> (r: Result<
        AuthenticatedUser,
        AuthMiddlewareError,
    >)
        ensures
            bearer_of(opt_str(authorization)) matches Err(e) ==> r == Err::<
                AuthenticatedUser,
                AuthMiddlewareError,
            >(e),
            r matches Ok(u) ==> exists|now: Timestamp|
                request_verdict(opt_str(authorization), self.jwt_config.secret@, now) == Ok::<
                    IdentityView,
                    AuthMiddlewareError,
                >(u@),
            r matches Err(e) ==> exists|now: Timestamp|
                request_verdict(opt_str(authorization), self.jwt_config.secret@, now) == Err::<
                    IdentityView,
                    AuthMiddlewareError,
                >(e),
    {
        self.validate_request_at(authorization, current_time())
    }
}

/// A token whose expiry is exactly `now` is refused; one whose expiry is one
/// second later is accepted.
pub proof fn lemma_expiry_boundary(c: ClaimsView, now: Timestamp)
    requires
        c.token_type == "access"@,
    ensures
        parsed_instant(c.exp) == Some(now) ==> claims_verdict(c, now) == Err::<
            ClaimsView,
            AuthMiddlewareError,
        >(AuthMiddlewareError::TokenExpired),
        now.secs < i64::MAX && parsed_instant(c.exp) == Some(
            Timestamp { secs: (now.secs + 1) as i64, nanos: now.nanos },
        ) ==> claims_verdict(c, now) == Ok::<ClaimsView, AuthMiddlewareError>(c),
{
}

/// A refresh token never authenticates a request, though it decrypts: the
/// request fails with `InvalidTokenType`.
pub proof fn lemma_refresh_token_refused(
    header: Option<Seq<char>>,
    secret: Seq<char>,
    now: Timestamp,
)
    requires
        bearer_of(header) is Ok,
        opened(bearer_of(header)->Ok_0, token_key_of(secret)) matches Some(c) && c.token_type
            == "refresh"@,
    ensures
        request_verdict(header, secret, now) == Err::<IdentityView, AuthMiddlewareError>(
            AuthMiddlewareError::InvalidTokenType,
        ),
{
    reveal_strlit("access");
    reveal_strlit("refresh");
    let c = opened(bearer_of(header)->Ok_0, token_key_of(secret))->0;
    assert(c.token_type.len() != "access"@.len());
}

/// An issued token presented as `Bearer <token>` reaches the token checks
/// unchanged.
proof fn lemma_bearer_of_issued(t: Seq<char>)
    requires
        token_text(t),
    ensures
        bearer_of(Some(bearer_prefix() + t)) == Ok::<Seq<char>, AuthMiddlewareError>(t),
{
    let h = bearer_prefix() + t;
    assert forall|i: int| 0 <= i < h.len() implies visible_header_char(#[trigger] h[i]) by {
        if i >= 7 {
            assert(h[i] == t[i - 7]);
        }
    }
    assert(h.subrange(0, 7) =~= bearer_prefix());
    assert(h.subrange(7, h.len() as int) =~= t);
}

/// A pair issued to `u` at `t0`, presented on a request at `now`: the access
/// token admits the request as `u` strictly before its expiry (an instant of a
/// four-digit year) and is refused as expired from then on; the refresh token
/// is always refused as being of the wrong kind.
pub proof fn lemma_issued_pair_at_the_door(
    access: Seq<char>,
    refresh: Seq<char>,
    u: User,
    config: JwtConfig,
    t0: Timestamp,
    now: Timestamp,
)
    requires
        issued_pair(access, refresh, u, config, t0),
        plain_instant(expiry_instant(t0, config.expiration_hours * 3600).secs, t0.nanos),
    ensures
        before(now, expiry_instant(t0, config.expiration_hours * 3600)) ==> request_verdict(
            Some(bearer_prefix() + access),
            config.secret@,
            now,
        ) == Ok::<IdentityView, AuthMiddlewareError>(
            IdentityView { user_id: u.user_id, username: u.username@ },
        ),
        !before(now, expiry_instant(t0, config.expiration_hours * 3600)) ==> request_verdict(
            Some(bearer_prefix() + access),
            config.secret@,
            now,
        ) == Err::<IdentityView, AuthMiddlewareError>(AuthMiddlewareError::TokenExpired),
        request_verdict(Some(bearer_prefix() + refresh), config.secret@, now) == Err::<
            IdentityView,
            AuthMiddlewareError,
        >(AuthMiddlewareError::InvalidTokenType),
{
    reveal_strlit("access");
    reveal_strlit("refresh");
    let key = crate::keys::token_key_of(config.secret@);
    lemma_bearer_of_issued(access);
    lemma_bearer_of_issued(refresh);
    let ca = crate::auth_service::access_claims_of(
        u,
        crate::auth_service::expiry_text(t0, config.expiration_hours * 3600),
    );
    let cr = crate::auth_service::refresh_claims_of(
        u,
        crate::auth_service::expiry_text(t0, config.refresh_expiration_days * 86400),
    );
    lemma_issue_then_verify(access, key, ca);
    lemma_issue_then_verify(refresh, key, cr);
    assert(cr.token_type.len() != "access"@.len());
}

} // verus!
