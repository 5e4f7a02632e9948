//! Records of user accounts.

use crate::calendar::Timestamp;
use vstd::prelude::*;

verus! {

/// A user account, as it is kept.
#[derive(Clone, Debug, PartialEq, Eq)]
pub struct User {
    pub id: i32,
    pub username: String,
    pub email: String,
    pub password_hash: String,
    pub display_name: Option<String>,
    pub role: Option<String>,
    pub avatar_url: Option<String>,
    pub is_active: bool,
    pub is_verified: bool,
    pub created_at: Timestamp,
    pub updated_at: Timestamp,
}

/// A user account, as it is shown: without the hash of the password.
#[derive(Clone, Debug, PartialEq, Eq)]
pub struct UserResponse {
    pub id: i32,
    pub username: String,
    pub email: String,
    pub display_name: Option<String>,
    pub avatar_url: Option<String>,
    pub is_active: bool,
    pub is_verified: bool,
    pub created_at: Timestamp,
}

impl From<User> for UserResponse {
    fn from(user: User) -> (shown: UserResponse) {
        UserResponse {
            id: user.id,
            username: user.username,
            email: user.email,
            display_name: user.display_name,
            avatar_url: user.avatar_url,
            is_active: user.is_active,
            is_verified: user.is_verified,
            created_at: user.created_at,
        }
    }
}

impl vstd::std_specs::convert::FromSpecImpl<User> for UserResponse {
    open spec fn obeys_from_spec() -> bool {
        true
    }

    open spec fn from_spec(user: User) -> UserResponse {
        UserResponse {
            id: user.id,
            username: user.username,
            email: user.email,
            display_name: user.display_name,
            avatar_url: user.avatar_url,
            is_active: user.is_active,
            is_verified: user.is_verified,
            created_at: user.created_at,
        }
    }
}

/// What a user gets who has signed in.
#[derive(Clone, Debug, PartialEq, Eq)]
pub struct LoginResponse {
    pub access_token: String,
    pub refresh_token: String,
    pub expires_in: i64,
    pub user: UserResponse,
}

#[derive(Clone, Debug, PartialEq, Eq)]
pub struct RegisterRequest {
    pub username: String,
    pub email: String,
    pub password: String,
    pub display_name: Option<String>,
}

#[derive(Clone, Debug, PartialEq, Eq)]
pub struct LoginRequest {
    pub username: String,
    pub password: String,
}

/// What a signed token holds.
#[derive(Clone, Debug, PartialEq, Eq)]
pub struct TokenClaims {
    /// The user's id.
    pub sub: String,
    pub username: String,
    /// When the token expires, in seconds since 1970.
    pub exp: usize,
    /// When the token was issued, in seconds since 1970.
    pub iat: usize,
}

#[derive(Clone, Debug, PartialEq, Eq)]
pub struct AvatarUploadResponse {
    pub success: bool,
    pub message: String,
    pub avatar_url: Option<String>,
}

} // verus!
