use auth_core::errors::AuthError;

#[test]
fn status_codes_follow_the_error_kind() {
    assert_eq!(AuthError::InvalidCredentials.status_code(), 401);
    assert_eq!(AuthError::Forbidden.status_code(), 403);
    assert_eq!(AuthError::EmailAlreadyExists.status_code(), 409);
    assert_eq!(AuthError::WeakPassword.status_code(), 422);
    assert_eq!(AuthError::UserNotFound.status_code(), 404);
    assert_eq!(AuthError::Internal.status_code(), 500);
    assert_eq!(AuthError::Expired.status_code(), 401);
    assert_eq!(AuthError::InvalidOrExpiredToken.status_code(), 400);
}

#[test]
fn messages_never_leak_the_reason_for_a_login_failure() {
    assert_eq!(AuthError::InvalidCredentials.message(), "Invalid email or password");
    assert_eq!(AuthError::InvalidOrExpiredToken.message(), "Invalid or expired token");
}
