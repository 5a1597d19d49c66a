use auth_core::controller::AuthController;
use auth_core::dto::{LoginRequest, RefreshTokenRequest, RegisterRequest, VerifyEmailRequest};
use auth_core::errors::AuthError;
use auth_core::role::Role;
use auth_core::service::AuthService;

const NOW: u64 = 1000;
const ACCESS_TTL: u64 = 60;
const REFRESH_TTL: u64 = 1000;

fn controller() -> AuthController {
    AuthController::new(AuthService::new(5, 4, ACCESS_TTL, REFRESH_TTL))
}

fn logged_in(c: &mut AuthController) -> (u64, String, String) {
    c.register(
        RegisterRequest {
            email: "bob@example.com".to_string(),
            password: "Secret123!".to_string(),
            first_name: "Bob".to_string(),
            last_name: "Example".to_string(),
            role: None,
        },
        NOW,
    )
    .ok()
    .unwrap();
    let token = c.auth_service.outbox.last().unwrap().token.clone();
    c.verify_email(VerifyEmailRequest { token }, NOW).ok().unwrap();
    let (_, env) = c
        .login(
            LoginRequest {
                email: "bob@example.com".to_string(),
                password: "Secret123!".to_string(),
            },
            NOW,
        )
        .ok()
        .unwrap();
    let data = env.data.unwrap();
    (data.user.id, data.access_token, data.refresh_token)
}

#[test]
fn refresh_after_access_expiry() {
    let mut c = controller();
    let (uid, access, refresh) = logged_in(&mut c);
    let later = NOW + ACCESS_TTL + 1;
    // the access token has expired
    assert_eq!(c.auth_service.decode_jwt_token(&access, later).err(), Some(AuthError::Expired));
    // the refresh token still mints a fresh pair for the same subject
    let (status, env) = c
        .refresh_token(RefreshTokenRequest { refresh_token: refresh }, later)
        .ok()
        .unwrap();
    assert_eq!(status, 200);
    let data = env.data.unwrap();
    assert_eq!(data.user.id, uid);
    assert_eq!(data.user.role, Role::User);
    let claims = c.auth_service.decode_jwt_token(&data.access_token, later).unwrap();
    assert_eq!(claims.sub, uid);
    assert_eq!(claims.role, Role::User);
}

#[test]
fn expired_refresh_token_is_rejected() {
    let mut c = controller();
    let (_, _, refresh) = logged_in(&mut c);
    let after_expiry = NOW + REFRESH_TTL;
    let r = c.refresh_token(RefreshTokenRequest { refresh_token: refresh }, after_expiry);
    assert_eq!(r.err(), Some(AuthError::Expired));
}

#[test]
fn refresh_rejects_other_shapes() {
    let mut c = controller();
    let (_, access, _) = logged_in(&mut c);
    // an access token is not a refresh token
    let r = c.refresh_token(RefreshTokenRequest { refresh_token: access }, NOW + 1);
    assert_eq!(r.err(), Some(AuthError::WrongTokenType));
    let r = c.refresh_token(RefreshTokenRequest { refresh_token: "xyz".to_string() }, NOW + 1);
    assert_eq!(r.err(), Some(AuthError::Malformed));
}

#[test]
fn disabled_account_cannot_login_or_refresh() {
    let mut c = controller();
    let (uid, _, refresh) = logged_in(&mut c);
    let mut u = c.auth_service.store.find_by_id(uid).unwrap();
    u.is_active = false;
    c.auth_service.store.update_user(u).unwrap();
    assert_eq!(
        c.login(
            LoginRequest {
                email: "bob@example.com".to_string(),
                password: "Secret123!".to_string(),
            },
            NOW + 1,
        )
        .err(),
        Some(AuthError::AccountDisabled)
    );
    assert_eq!(
        c.refresh_token(RefreshTokenRequest { refresh_token: refresh }, NOW + 1).err(),
        Some(AuthError::AccountDisabled)
    );
}
