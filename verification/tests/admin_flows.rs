use auth_core::controller::AuthController;
use auth_core::dto::{
    ChangePasswordRequest, ForgotPasswordRequest, LoginRequest, RegisterRequest,
    ResetPasswordRequest, VerifyEmailRequest,
};
use auth_core::errors::AuthError;
use auth_core::role::Role;
use auth_core::seed::ensure_super_admin;
use auth_core::service::AuthService;

const NOW: u64 = 1700000000;

fn controller_with_super_admin() -> AuthController {
    let mut svc = AuthService::new(99, 4, 900, 604800);
    let created = ensure_super_admin(
        &mut svc,
        "root@example.com".to_string(),
        "RootPass123!",
        "Super".to_string(),
        "Admin".to_string(),
        NOW,
    )
    .unwrap();
    assert!(created);
    // seeding is idempotent
    let again = ensure_super_admin(
        &mut svc,
        "root@example.com".to_string(),
        "RootPass123!",
        "Super".to_string(),
        "Admin".to_string(),
        NOW,
    )
    .unwrap();
    assert!(!again);
    AuthController::new(svc)
}

fn register_req(email: &str, role: Option<Role>) -> RegisterRequest {
    RegisterRequest {
        email: email.to_string(),
        password: "Secret123!".to_string(),
        first_name: "Some".to_string(),
        last_name: "Body".to_string(),
        role,
    }
}

fn login(c: &mut AuthController, email: &str, password: &str) -> (String, String) {
    let (_, env) = c
        .login(LoginRequest { email: email.to_string(), password: password.to_string() }, NOW)
        .ok()
        .unwrap();
    let data = env.data.unwrap();
    (data.access_token, data.refresh_token)
}

fn register_verified_user(c: &mut AuthController, email: &str) {
    c.register(register_req(email, None), NOW).ok().unwrap();
    let token = c.auth_service.outbox.last().unwrap().token.clone();
    c.verify_email(VerifyEmailRequest { token }, NOW).ok().unwrap();
}

#[test]
fn only_super_admin_creates_admin_accounts() {
    let mut c = controller_with_super_admin();
    register_verified_user(&mut c, "user@example.com");
    let (user_access, _) = login(&mut c, "user@example.com", "Secret123!");
    let r = c.create_admin(&user_access, register_req("new.admin@example.com", None), NOW);
    assert_eq!(r.err(), Some(AuthError::Forbidden));
    assert_eq!(AuthError::Forbidden.status_code(), 403);

    let (root_access, _) = login(&mut c, "root@example.com", "RootPass123!");
    // the caller-supplied role is overridden server-side
    let (status, _) = c
        .create_admin(&root_access, register_req("new.admin@example.com", Some(Role::User)), NOW)
        .ok()
        .unwrap();
    assert_eq!(status, 201);
    let u = c.auth_service.store.find_by_email("new.admin@example.com").unwrap();
    assert_eq!(u.role, Role::Admin);
}

#[test]
fn only_super_admin_creates_police_accounts() {
    let mut c = controller_with_super_admin();
    register_verified_user(&mut c, "user@example.com");
    let (user_access, _) = login(&mut c, "user@example.com", "Secret123!");
    let r = c.create_police(&user_access, register_req("police@example.com", None), NOW);
    assert_eq!(r.err(), Some(AuthError::Forbidden));

    let (root_access, _) = login(&mut c, "root@example.com", "RootPass123!");
    let (status, _) = c
        .create_police(&root_access, register_req("police@example.com", Some(Role::SuperAdmin)), NOW)
        .ok()
        .unwrap();
    assert_eq!(status, 201);
    let u = c.auth_service.store.find_by_email("police@example.com").unwrap();
    assert_eq!(u.role, Role::Police);
}

#[test]
fn public_registration_never_grants_elevated_roles() {
    let mut c = controller_with_super_admin();
    c.register(register_req("sneaky@example.com", Some(Role::SuperAdmin)), NOW).ok().unwrap();
    let u = c.auth_service.store.find_by_email("sneaky@example.com").unwrap();
    assert_eq!(u.role, Role::User);
}

#[test]
fn me_returns_the_bearer_profile() {
    let mut c = controller_with_super_admin();
    let (root_access, _) = login(&mut c, "root@example.com", "RootPass123!");
    let (status, env) = c.me(&root_access, NOW).ok().unwrap();
    assert_eq!(status, 200);
    let p = env.data.unwrap();
    assert_eq!(p.email, "root@example.com");
    assert_eq!(p.role, Role::SuperAdmin);
    assert!(c.me("garbage", NOW).is_err());
}

#[test]
fn change_password_flow() {
    let mut c = controller_with_super_admin();
    register_verified_user(&mut c, "user@example.com");
    let (access, _) = login(&mut c, "user@example.com", "Secret123!");
    let wrong = c.change_password(
        &access,
        ChangePasswordRequest {
            current_password: "Nope".to_string(),
            new_password: "NewSecret456!".to_string(),
        },
        NOW,
    );
    assert_eq!(wrong.err(), Some(AuthError::InvalidCredentials));
    let weak = c.change_password(
        &access,
        ChangePasswordRequest {
            current_password: "Secret123!".to_string(),
            new_password: "tiny".to_string(),
        },
        NOW,
    );
    assert_eq!(weak.err(), Some(AuthError::WeakPassword));
    c.change_password(
        &access,
        ChangePasswordRequest {
            current_password: "Secret123!".to_string(),
            new_password: "NewSecret456!".to_string(),
        },
        NOW,
    )
    .ok()
    .unwrap();
    assert_eq!(
        c.login(
            LoginRequest {
                email: "user@example.com".to_string(),
                password: "Secret123!".to_string(),
            },
            NOW,
        )
        .err(),
        Some(AuthError::InvalidCredentials)
    );
    login(&mut c, "user@example.com", "NewSecret456!");
}

#[test]
fn password_reset_flow() {
    let mut c = controller_with_super_admin();
    register_verified_user(&mut c, "user@example.com");
    // unknown addresses get the same success answer
    let (status, _) = c
        .forgot_password(ForgotPasswordRequest { email: "nobody@example.com".to_string() }, NOW)
        .ok()
        .unwrap();
    assert_eq!(status, 200);
    let before = c.auth_service.outbox.len();
    c.forgot_password(ForgotPasswordRequest { email: "user@example.com".to_string() }, NOW)
        .ok()
        .unwrap();
    assert_eq!(c.auth_service.outbox.len(), before + 1);
    let reset_token = c.auth_service.outbox.last().unwrap().token.clone();
    let weak = c.reset_password(
        ResetPasswordRequest { token: reset_token.clone(), new_password: "tiny".to_string() },
        NOW,
    );
    assert_eq!(weak.err(), Some(AuthError::WeakPassword));
    c.reset_password(
        ResetPasswordRequest {
            token: reset_token.clone(),
            new_password: "Reset789!x".to_string(),
        },
        NOW,
    )
    .ok()
    .unwrap();
    // the artifact is single-use
    let again = c.reset_password(
        ResetPasswordRequest { token: reset_token, new_password: "Reset789!x".to_string() },
        NOW,
    );
    assert_eq!(again.err(), Some(AuthError::InvalidOrExpiredToken));
    login(&mut c, "user@example.com", "Reset789!x");
}
