//! Request and response bodies of the authentication endpoints.
use vstd::prelude::*;

verus! {

#[derive(Clone, Debug)]
pub struct RegisterRequest {
    pub username: String,
    pub password: String,
}

#[derive(Clone, Debug)]
pub struct LoginRequest {
    pub username: String,
    pub password: String,
}

/// Public summary of a user (never the credential).
#[derive(Clone, Debug)]
pub struct UserResponse {
    pub user_id: u128,
    pub username: String,
}

#[derive(Clone, Debug)]
pub struct RegisterResponse {
    pub user_id: u128,
    pub username: String,
    pub created_at: String,
}

/// The token pair handed out once at login, with the access token's lifetime in seconds.
#[derive(Clone, Debug)]
pub struct LoginResponse {
    pub access_token: String,
    pub refresh_token: String,
    pub expires_in: i64,
    pub user: UserResponse,
}

#[derive(Clone, Debug)]
pub struct LogoutResponse {
    pub message: String,
}

impl LogoutResponse {
    /// Logout is stateless: the server only tells the client to discard its tokens.
    pub fn acknowledged() -> (r: LogoutResponse)
        ensures
            r.message@ == "Logged out successfully. Please discard your tokens."@,
    {
        LogoutResponse { message: "Logged out successfully. Please discard your tokens.".to_string() }
    }
}

} // verus!
