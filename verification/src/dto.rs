//! Request and response shapes of the authentication operations, and the
//! uniform response envelope.

use vstd::prelude::*;
use crate::role::Role;
use crate::user::User;

verus! {

/// Registration payload.  The `role` field is only honoured on the
/// privileged account-creation paths; the public registration path
/// overwrites it with [`Role::User`].
pub struct RegisterRequest {
    pub email: String,
    pub password: String,
    pub first_name: String,
    pub last_name: String,
    pub role: Option<Role>,
}

/// Role an account created from `req` receives.
pub open spec fn spec_requested_role(req: RegisterRequest) -> Role {
    match req.role {
        Some(r) => r,
        None => Role::User,
    }
}

pub struct LoginRequest {
    pub email: String,
    pub password: String,
}

pub struct VerifyEmailRequest {
    pub token: String,
}

pub struct ResendVerificationRequest {
    pub email: String,
}

pub struct ForgotPasswordRequest {
    pub email: String,
}

pub struct ResetPasswordRequest {
    pub token: String,
    pub new_password: String,
}

pub struct ChangePasswordRequest {
    pub current_password: String,
    pub new_password: String,
}

pub struct RefreshTokenRequest {
    pub refresh_token: String,
}

/// Public view of a user, as returned by the profile and registration
/// endpoints; it never carries the password hash.
pub struct UserResponse {
    pub id: u64,
    pub email: String,
    pub first_name: String,
    pub last_name: String,
    pub role: Role,
    pub is_email_verified: bool,
    pub is_active: bool,
}

impl UserResponse {
    /// The public fields of `u`.
    pub fn of_user(u: &User) -> (r: UserResponse)
        ensures
            r.id == u.id,
            r.email@ == u.email@,
            r.first_name@ == u.first_name@,
            r.last_name@ == u.last_name@,
            r.role == u.role,
            r.is_email_verified == u.is_email_verified,
            r.is_active == u.is_active,
    {
        UserResponse {
            id: u.id,
            email: u.email.clone(),
            first_name: u.first_name.clone(),
            last_name: u.last_name.clone(),
            role: u.role,
            is_email_verified: u.is_email_verified,
            is_active: u.is_active,
        }
    }
}

/// A user together with a fresh access/refresh token pair.
pub struct AuthResponse {
    pub user: UserResponse,
    pub access_token: String,
    pub refresh_token: String,
}

/// A bare human-readable outcome.
pub struct MessageResponse {
    pub message: String,
}

/// Uniform response envelope of every endpoint.
pub struct ApiResponse<T> {
    pub success: bool,
    pub message: Option<String>,
    pub data: Option<T>,
}

impl<T> ApiResponse<T> {
    pub fn success_with_message(data: T, message: String) -> (r: Self)
        ensures
            r.success == true,
            r.message matches Some(m) && m@ == message@,
            r.data matches Some(d) && d == data,
    {
        ApiResponse { success: true, message: Some(message), data: Some(data) }
    }
}

} // verus!
