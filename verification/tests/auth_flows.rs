use auth_core::controller::AuthController;
use auth_core::dto::{
    LoginRequest, RegisterRequest, ResendVerificationRequest, VerifyEmailRequest,
};
use auth_core::errors::AuthError;
use auth_core::role::Role;
use auth_core::service::AuthService;

const NOW: u64 = 1700000000;

fn controller() -> AuthController {
    AuthController::new(AuthService::new(1234, 4, 900, 604800))
}

fn register_req(email: &str, password: &str) -> RegisterRequest {
    RegisterRequest {
        email: email.to_string(),
        password: password.to_string(),
        first_name: "Alice".to_string(),
        last_name: "Example".to_string(),
        role: None,
    }
}

fn login_req(email: &str, password: &str) -> LoginRequest {
    LoginRequest { email: email.to_string(), password: password.to_string() }
}

#[test]
fn registration_stores_hashed_unverified_user() {
    let mut c = controller();
    let r = c.register(register_req("alice@example.com", "Secret123!"), NOW);
    let (status, env) = match r {
        Ok(v) => v,
        Err(_) => panic!("registration failed"),
    };
    assert_eq!(status, 201);
    assert!(env.success);
    let u = c.auth_service.store.find_by_email("alice@example.com").unwrap();
    assert!(!u.is_email_verified);
    assert!(!u.password_hash.is_empty());
    assert_ne!(u.password_hash, "Secret123!");
    assert!(u.password_hash.starts_with('$'));
    assert_eq!(u.role, Role::User);
    assert!(u.is_active);
}

#[test]
fn weak_password_and_duplicate_email() {
    let mut c = controller();
    let r = c.register(register_req("a@example.com", "short"), NOW);
    assert_eq!(r.err(), Some(AuthError::WeakPassword));
    assert!(c.register(register_req("a@example.com", "Secret123!"), NOW).is_ok());
    let r = c.register(register_req("a@example.com", "Other456!"), NOW);
    assert_eq!(r.err(), Some(AuthError::EmailAlreadyExists));
}

#[test]
fn verification_scenario() {
    let mut c = controller();
    c.register(register_req("alice@example.com", "Secret123!"), NOW).ok().unwrap();
    // a fabricated token of the right shape is rejected
    let fake = VerifyEmailRequest { token: "12345678901234567890".to_string() };
    assert_eq!(c.verify_email(fake, NOW).err(), Some(AuthError::InvalidOrExpiredToken));
    // the issued token is accepted once
    let issued = c.auth_service.outbox.last().unwrap().token.clone();
    let r = c.verify_email(VerifyEmailRequest { token: issued.clone() }, NOW);
    assert!(r.is_ok());
    let u = c.auth_service.store.find_by_email("alice@example.com").unwrap();
    assert!(u.is_email_verified);
    // and rejected the second time
    let r = c.verify_email(VerifyEmailRequest { token: issued }, NOW);
    assert_eq!(r.err(), Some(AuthError::InvalidOrExpiredToken));
}

#[test]
fn login_blocked_until_verified_then_succeeds() {
    let mut c = controller();
    c.register(register_req("alice@example.com", "Secret123!"), NOW).ok().unwrap();
    let r = c.login(login_req("alice@example.com", "Secret123!"), NOW);
    assert_eq!(r.err(), Some(AuthError::EmailNotVerified));
    let issued = c.auth_service.outbox.last().unwrap().token.clone();
    c.verify_email(VerifyEmailRequest { token: issued }, NOW).ok().unwrap();
    let (status, env) = match c.login(login_req("alice@example.com", "Secret123!"), NOW) {
        Ok(v) => v,
        Err(_) => panic!("login failed"),
    };
    assert_eq!(status, 200);
    assert!(env.success);
    let u = c.auth_service.store.find_by_email("alice@example.com").unwrap();
    assert_eq!(u.last_login, Some(NOW));
}

#[test]
fn login_failures_are_indistinguishable() {
    let mut c = controller();
    c.register(register_req("alice@example.com", "Secret123!"), NOW).ok().unwrap();
    let wrong_password = c.login(login_req("alice@example.com", "WrongPass9!"), NOW).err().unwrap();
    let unknown_email = c.login(login_req("nobody@example.com", "Secret123!"), NOW).err().unwrap();
    assert_eq!(wrong_password, AuthError::InvalidCredentials);
    assert_eq!(unknown_email, AuthError::InvalidCredentials);
    assert_eq!(wrong_password.message(), unknown_email.message());
    assert_eq!(wrong_password.status_code(), unknown_email.status_code());
}

#[test]
fn resend_verification_paths() {
    let mut c = controller();
    let r = c.resend_verification(
        ResendVerificationRequest { email: "nobody@example.com".to_string() },
        NOW,
    );
    assert_eq!(r.err(), Some(AuthError::UserNotFound));
    c.register(register_req("alice@example.com", "Secret123!"), NOW).ok().unwrap();
    let first = c.auth_service.outbox.last().unwrap().token.clone();
    // a resend supersedes the first artifact
    let (status, _env) = c
        .resend_verification(ResendVerificationRequest { email: "alice@example.com".to_string() }, NOW)
        .ok()
        .unwrap();
    assert_eq!(status, 200);
    let second = c.auth_service.outbox.last().unwrap().token.clone();
    assert_ne!(first, second);
    assert_eq!(
        c.verify_email(VerifyEmailRequest { token: first }, NOW).err(),
        Some(AuthError::InvalidOrExpiredToken)
    );
    c.verify_email(VerifyEmailRequest { token: second }, NOW).ok().unwrap();
    // already verified: success-shaped answer with the dedicated message
    let (status, env) = c
        .resend_verification(ResendVerificationRequest { email: "alice@example.com".to_string() }, NOW)
        .ok()
        .unwrap();
    assert_eq!(status, 200);
    assert!(env.success);
    assert_eq!(env.message.unwrap(), "Email is already verified.");
}

#[test]
fn distinct_registrations_get_distinct_identifiers() {
    let mut c = controller();
    c.register(register_req("alice@example.com", "Secret123!"), NOW).ok().unwrap();
    c.register(register_req("bob@example.com", "Secret123!"), NOW).ok().unwrap();
    let a = c.auth_service.store.find_by_email("alice@example.com").unwrap();
    let b = c.auth_service.store.find_by_email("bob@example.com").unwrap();
    assert_ne!(a.id, b.id);
    assert_ne!(a.password_hash, b.password_hash);
}

#[test]
fn emails_are_case_normalized() {
    let mut c = controller();
    c.register(register_req("Alice@Example.COM", "Secret123!"), NOW).ok().unwrap();
    // stored under the normalized form, and lookups normalize too
    let u = c.auth_service.store.find_by_email("alice@example.com").unwrap();
    assert_eq!(u.email, "alice@example.com");
    let r = c.register(register_req("ALICE@EXAMPLE.com", "Other456!"), NOW);
    assert_eq!(r.err(), Some(AuthError::EmailAlreadyExists));
    let token = c.auth_service.outbox.last().unwrap().token.clone();
    c.verify_email(VerifyEmailRequest { token }, NOW).ok().unwrap();
    assert!(c.login(login_req("aLiCe@eXaMpLe.CoM", "Secret123!"), NOW).is_ok());
}
