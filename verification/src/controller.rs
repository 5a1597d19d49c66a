//! The operation surface over the authentication service: maps each
//! operation to a status code and the uniform response envelope, forces the
//! role on the public registration path, and gates privileged account
//! creation on the authorization policy.

use vstd::prelude::*;
use vstd::string::StringExecFns;
use crate::dto::{
    ApiResponse, AuthResponse, ChangePasswordRequest, ForgotPasswordRequest, LoginRequest,
    MessageResponse, RefreshTokenRequest, RegisterRequest, ResendVerificationRequest,
    ResetPasswordRequest, UserResponse, VerifyEmailRequest,
};
use crate::errors::{AuthError, spec_auth_error_of_token};
use crate::role::{Role, can_create, spec_can_create};
use crate::service::{AuthService, EMAIL_VERIFICATION_TTL_SECS, PASSWORD_RESET_TTL_SECS};
use crate::token::{TokenType, spec_validate};
use crate::user::spec_normalize_email;

verus! {

/// Front door of the core.  Each method takes plain values — the bearer
/// token text where authentication is required, the request body, and the
/// current instant — and returns a status code with the response envelope,
/// or a domain error for the transport layer to map.
pub struct AuthController {
    pub auth_service: AuthService,
}

impl AuthController {
    pub fn new(auth_service: AuthService) -> (c: Self)
        ensures
            c.auth_service == auth_service,
    {
        AuthController { auth_service }
    }

    pub open spec fn wf(self) -> bool {
        self.auth_service.wf()
    }

    /// Public self-registration.  Whatever role the request carries is
    /// overwritten with [`Role::User`] before the service sees it: elevated
    /// roles are only reachable through [`AuthController::create_admin`]
    /// and [`AuthController::create_police`].
    pub fn register(&mut self, req: RegisterRequest, now: u64) -> (r: Result<(u16, ApiResponse<AuthResponse>), AuthError>)
        requires
            old(self).wf(),
            now + old(self).auth_service.tokens.access_ttl_secs <= u64::MAX,
            now + old(self).auth_service.tokens.refresh_ttl_secs <= u64::MAX,
            now + EMAIL_VERIFICATION_TTL_SECS <= u64::MAX,
        ensures
            final(self).wf(),
            old(self).auth_service.spec_same_config(final(self).auth_service),
            r == Err::<(u16, ApiResponse<AuthResponse>), AuthError>(AuthError::WeakPassword)
                <==> !crate::hasher::spec_password_ok(req.password@),
            r == Err::<(u16, ApiResponse<AuthResponse>), AuthError>(AuthError::EmailAlreadyExists)
                <==> crate::hasher::spec_password_ok(req.password@)
                && old(self).auth_service.store.spec_has_email(spec_normalize_email(req.email@)),
            r is Err ==> (r == Err::<(u16, ApiResponse<AuthResponse>), AuthError>(AuthError::WeakPassword)
                || r == Err::<(u16, ApiResponse<AuthResponse>), AuthError>(AuthError::EmailAlreadyExists)
                || r == Err::<(u16, ApiResponse<AuthResponse>), AuthError>(AuthError::Internal))
                && crate::service::spec_same_store(old(self).auth_service, final(self).auth_service),
            r is Ok ==> r.unwrap().0 == 201 && r.unwrap().1.success
                && (r.unwrap().1.data matches Some(d) && crate::service::spec_register_effect(
                old(self).auth_service,
                final(self).auth_service,
                spec_normalize_email(req.email@),
                req.password@,
                req.first_name@,
                req.last_name@,
                Role::User,
                d,
                now,
            )),
    {
        let req2 = RegisterRequest { role: Some(Role::User), ..req };
        match self.auth_service.register(req2, now) {
            Ok(resp) => Ok((
                201,
                ApiResponse::success_with_message(
                    resp,
                    String::from_str("User registered successfully"),
                ),
            )),
            Err(e) => Err(e),
        }
    }

    /// Super admin creates an admin account: the bearer token must decode
    /// to super-admin claims, and the created account is an admin whatever
    /// role the body carries.
    pub fn create_admin(&mut self, bearer_token: &str, req: RegisterRequest, now: u64) -> (r: Result<(u16, ApiResponse<AuthResponse>), AuthError>)
        requires
            old(self).wf(),
            now + old(self).auth_service.tokens.access_ttl_secs <= u64::MAX,
            now + old(self).auth_service.tokens.refresh_ttl_secs <= u64::MAX,
            now + EMAIL_VERIFICATION_TTL_SECS <= u64::MAX,
        ensures
            final(self).wf(),
            old(self).auth_service.spec_same_config(final(self).auth_service),
            r is Ok ==> (spec_validate(
                old(self).auth_service.tokens.secret,
                bearer_token@,
                TokenType::Access,
                now,
            ) matches Ok(c) && c.role == Role::SuperAdmin),
            spec_validate(
                old(self).auth_service.tokens.secret,
                bearer_token@,
                TokenType::Access,
                now,
            ) matches Err(e) ==> r == Err::<(u16, ApiResponse<AuthResponse>), AuthError>(
                spec_auth_error_of_token(e),
            ) && crate::service::spec_same_store(old(self).auth_service, final(self).auth_service),
            spec_validate(
                old(self).auth_service.tokens.secret,
                bearer_token@,
                TokenType::Access,
                now,
            ) matches Ok(c) && !spec_can_create(c.role, Role::Admin) ==> r == Err::<
                (u16, ApiResponse<AuthResponse>),
                AuthError,
            >(AuthError::Forbidden) && crate::service::spec_same_store(
                old(self).auth_service,
                final(self).auth_service,
            ),
            spec_validate(
                old(self).auth_service.tokens.secret,
                bearer_token@,
                TokenType::Access,
                now,
            ) matches Ok(c) && spec_can_create(c.role, Role::Admin) ==> ({
                &&& (r == Err::<(u16, ApiResponse<AuthResponse>), AuthError>(AuthError::WeakPassword)
                    <==> !crate::hasher::spec_password_ok(req.password@))
                &&& (r == Err::<(u16, ApiResponse<AuthResponse>), AuthError>(AuthError::EmailAlreadyExists)
                    <==> crate::hasher::spec_password_ok(req.password@)
                    && old(self).auth_service.store.spec_has_email(spec_normalize_email(req.email@)))
                &&& (r is Err ==> (r == Err::<(u16, ApiResponse<AuthResponse>), AuthError>(AuthError::WeakPassword)
                    || r == Err::<(u16, ApiResponse<AuthResponse>), AuthError>(AuthError::EmailAlreadyExists)
                    || r == Err::<(u16, ApiResponse<AuthResponse>), AuthError>(AuthError::Internal))
                    && crate::service::spec_same_store(old(self).auth_service, final(self).auth_service))
                &&& (r is Ok ==> r.unwrap().0 == 201 && r.unwrap().1.success
                    && (r.unwrap().1.data matches Some(d) && crate::service::spec_register_effect(
                    old(self).auth_service,
                    final(self).auth_service,
                    spec_normalize_email(req.email@),
                    req.password@,
                    req.first_name@,
                    req.last_name@,
                    Role::Admin,
                    d,
                    now,
                )))
            }),
    {
        let claims = match self.auth_service.decode_jwt_token(bearer_token, now) {
            Ok(c) => c,
            Err(e) => { return Err(e); },
        };
        if !can_create(claims.role, Role::Admin) {
            return Err(AuthError::Forbidden);
        }
        let req2 = RegisterRequest { role: Some(Role::Admin), ..req };
        match self.auth_service.register(req2, now) {
            Ok(resp) => Ok((
                201,
                ApiResponse::success_with_message(
                    resp,
                    String::from_str("Admin account created successfully"),
                ),
            )),
            Err(e) => Err(e),
        }
    }

    /// Super admin creates a police account; the same gate as
    /// [`AuthController::create_admin`].
    pub fn create_police(&mut self, bearer_token: &str, req: RegisterRequest, now: u64) -> (r: Result<(u16, ApiResponse<AuthResponse>), AuthError>)
        requires
            old(self).wf(),
            now + old(self).auth_service.tokens.access_ttl_secs <= u64::MAX,
            now + old(self).auth_service.tokens.refresh_ttl_secs <= u64::MAX,
            now + EMAIL_VERIFICATION_TTL_SECS <= u64::MAX,
        ensures
            final(self).wf(),
            old(self).auth_service.spec_same_config(final(self).auth_service),
            r is Ok ==> (spec_validate(
                old(self).auth_service.tokens.secret,
                bearer_token@,
                TokenType::Access,
                now,
            ) matches Ok(c) && c.role == Role::SuperAdmin),
            spec_validate(
                old(self).auth_service.tokens.secret,
                bearer_token@,
                TokenType::Access,
                now,
            ) matches Err(e) ==> r == Err::<(u16, ApiResponse<AuthResponse>), AuthError>(
                spec_auth_error_of_token(e),
            ) && crate::service::spec_same_store(old(self).auth_service, final(self).auth_service),
            spec_validate(
                old(self).auth_service.tokens.secret,
                bearer_token@,
                TokenType::Access,
                now,
            ) matches Ok(c) && !spec_can_create(c.role, Role::Police) ==> r == Err::<
                (u16, ApiResponse<AuthResponse>),
                AuthError,
            >(AuthError::Forbidden) && crate::service::spec_same_store(
                old(self).auth_service,
                final(self).auth_service,
            ),
            spec_validate(
                old(self).auth_service.tokens.secret,
                bearer_token@,
                TokenType::Access,
                now,
            ) matches Ok(c) && spec_can_create(c.role, Role::Police) ==> ({
                &&& (r == Err::<(u16, ApiResponse<AuthResponse>), AuthError>(AuthError::WeakPassword)
                    <==> !crate::hasher::spec_password_ok(req.password@))
                &&& (r == Err::<(u16, ApiResponse<AuthResponse>), AuthError>(AuthError::EmailAlreadyExists)
                    <==> crate::hasher::spec_password_ok(req.password@)
                    && old(self).auth_service.store.spec_has_email(spec_normalize_email(req.email@)))
                &&& (r is Err ==> (r == Err::<(u16, ApiResponse<AuthResponse>), AuthError>(AuthError::WeakPassword)
                    || r == Err::<(u16, ApiResponse<AuthResponse>), AuthError>(AuthError::EmailAlreadyExists)
                    || r == Err::<(u16, ApiResponse<AuthResponse>), AuthError>(AuthError::Internal))
                    && crate::service::spec_same_store(old(self).auth_service, final(self).auth_service))
                &&& (r is Ok ==> r.unwrap().0 == 201 && r.unwrap().1.success
                    && (r.unwrap().1.data matches Some(d) && crate::service::spec_register_effect(
                    old(self).auth_service,
                    final(self).auth_service,
                    spec_normalize_email(req.email@),
                    req.password@,
                    req.first_name@,
                    req.last_name@,
                    Role::Police,
                    d,
                    now,
                )))
            }),
    {
        let claims = match self.auth_service.decode_jwt_token(bearer_token, now) {
            Ok(c) => c,
            Err(e) => { return Err(e); },
        };
        if !can_create(claims.role, Role::Police) {
            return Err(AuthError::Forbidden);
        }
        let req2 = RegisterRequest { role: Some(Role::Police), ..req };
        match self.auth_service.register(req2, now) {
            Ok(resp) => Ok((
                201,
                ApiResponse::success_with_message(
                    resp,
                    String::from_str("Police account created successfully"),
                ),
            )),
            Err(e) => Err(e),
        }
    }

    /// Profile of the bearer of a valid access token.
    pub fn me(&self, bearer_token: &str, now: u64) -> (r: Result<(u16, ApiResponse<UserResponse>), AuthError>)
        requires
            self.wf(),
        ensures
            spec_validate(
                self.auth_service.tokens.secret,
                bearer_token@,
                TokenType::Access,
                now,
            ) matches Err(e) ==> r == Err::<(u16, ApiResponse<UserResponse>), AuthError>(
                spec_auth_error_of_token(e),
            ),
            spec_validate(
                self.auth_service.tokens.secret,
                bearer_token@,
                TokenType::Access,
                now,
            ) matches Ok(c) ==> ({
                let u = self.auth_service.store.spec_user_by_id(c.sub);
                &&& !self.auth_service.store.spec_has_user(c.sub) ==> r == Err::<
                    (u16, ApiResponse<UserResponse>),
                    AuthError,
                >(AuthError::UserNotFound)
                &&& self.auth_service.store.spec_has_user(c.sub) ==> r is Ok && ({
                    let p = r.unwrap().1.data.unwrap();
                    &&& r.unwrap().0 == 200
                    &&& p.id == u.id
                    &&& p.email@ == u.email@
                    &&& p.first_name@ == u.first_name@
                    &&& p.last_name@ == u.last_name@
                    &&& p.role == u.role
                    &&& p.is_email_verified == u.is_email_verified
                    &&& p.is_active == u.is_active
                })
            }),
    {
        let claims = match self.auth_service.decode_jwt_token(bearer_token, now) {
            Ok(c) => c,
            Err(e) => { return Err(e); },
        };
        let u = match self.auth_service.find_user_by_id(claims.sub) {
            Ok(u) => u,
            Err(e) => { return Err(e); },
        };
        let profile = UserResponse::of_user(&u);
        Ok((200, ApiResponse::success_with_message(profile, String::from_str("OK"))))
    }

    /// Login; see [`AuthService::login`] for the exact outcome.
    pub fn login(&mut self, req: LoginRequest, now: u64) -> (r: Result<(u16, ApiResponse<AuthResponse>), AuthError>)
        requires
            old(self).wf(),
            now + old(self).auth_service.tokens.access_ttl_secs <= u64::MAX,
            now + old(self).auth_service.tokens.refresh_ttl_secs <= u64::MAX,
        ensures
            final(self).wf(),
            old(self).auth_service.spec_same_config(final(self).auth_service),
            final(self).auth_service.store.artifacts@ == old(self).auth_service.store.artifacts@,
            final(self).auth_service.outbox@ == old(self).auth_service.outbox@,
            r is Err ==> crate::service::spec_same_store(
                old(self).auth_service,
                final(self).auth_service,
            ),
            !old(self).auth_service.store.spec_has_email(spec_normalize_email(req.email@)) ==> r == Err::<
                (u16, ApiResponse<AuthResponse>),
                AuthError,
            >(AuthError::InvalidCredentials),
            old(self).auth_service.store.spec_has_email(spec_normalize_email(req.email@)) ==> ({
                let u = old(self).auth_service.store.spec_user_by_email(spec_normalize_email(req.email@));
                &&& !crate::hasher::bcrypt_matches(req.password@, u.password_hash@) ==> r == Err::<
                    (u16, ApiResponse<AuthResponse>),
                    AuthError,
                >(AuthError::InvalidCredentials)
                &&& crate::hasher::bcrypt_matches(req.password@, u.password_hash@) && !u.is_active
                    ==> r == Err::<(u16, ApiResponse<AuthResponse>), AuthError>(AuthError::AccountDisabled)
                &&& crate::hasher::bcrypt_matches(req.password@, u.password_hash@) && u.is_active
                    && !u.is_email_verified ==> r == Err::<
                    (u16, ApiResponse<AuthResponse>),
                    AuthError,
                >(AuthError::EmailNotVerified)
                &&& crate::hasher::bcrypt_matches(req.password@, u.password_hash@) && u.is_active
                    && u.is_email_verified ==> r is Ok && r.unwrap().0 == 200
                    && r.unwrap().1.success && (r.unwrap().1.data matches Some(d)
                    && crate::service::spec_login_effect(
                    old(self).auth_service,
                    final(self).auth_service,
                    u,
                    d,
                    now,
                ))
            }),
    {
        match self.auth_service.login(req, now) {
            Ok(resp) => Ok((
                200,
                ApiResponse::success_with_message(resp, String::from_str("Login successful")),
            )),
            Err(e) => Err(e),
        }
    }

    /// Email verification; see [`AuthService::verify_email`].
    pub fn verify_email(&mut self, req: VerifyEmailRequest, now: u64) -> (r: Result<(u16, ApiResponse<MessageResponse>), AuthError>)
        requires
            old(self).wf(),
        ensures
            final(self).wf(),
            old(self).auth_service.spec_same_config(final(self).auth_service),
            final(self).auth_service.outbox@ == old(self).auth_service.outbox@,
            r is Err ==> r == Err::<(u16, ApiResponse<MessageResponse>), AuthError>(
                AuthError::InvalidOrExpiredToken,
            ) && crate::service::spec_same_store(old(self).auth_service, final(self).auth_service),
            r is Err <==> crate::codec::spec_parse_u64(req.token@) is None
                || crate::store::spec_consume_result(
                old(self).auth_service.store.artifacts@,
                crate::codec::spec_parse_u64(req.token@).unwrap(),
                crate::store::Purpose::EmailVerification,
                now,
            ) is Err,
            r is Ok ==> r.unwrap().0 == 200 && r.unwrap().1.success
                && crate::service::spec_verify_email_effect(
                old(self).auth_service,
                final(self).auth_service,
                req.token@,
                now,
            ),
    {
        match self.auth_service.verify_email(req, now) {
            Ok(resp) => Ok((
                200,
                ApiResponse::success_with_message(
                    resp,
                    String::from_str("Email verified successfully"),
                ),
            )),
            Err(e) => Err(e),
        }
    }

    /// Resend of the verification email; an already verified account gets
    /// the same success-shaped answer the service gives.
    pub fn resend_verification(&mut self, req: ResendVerificationRequest, now: u64) -> (r: Result<(u16, ApiResponse<MessageResponse>), AuthError>)
        requires
            old(self).wf(),
            now + EMAIL_VERIFICATION_TTL_SECS <= u64::MAX,
        ensures
            final(self).wf(),
            old(self).auth_service.spec_same_config(final(self).auth_service),
            final(self).auth_service.store.users@ == old(self).auth_service.store.users@,
            r == Err::<(u16, ApiResponse<MessageResponse>), AuthError>(AuthError::UserNotFound)
                <==> !old(self).auth_service.store.spec_has_email(spec_normalize_email(req.email@)),
            r is Err ==> (r == Err::<(u16, ApiResponse<MessageResponse>), AuthError>(AuthError::UserNotFound)
                || r == Err::<(u16, ApiResponse<MessageResponse>), AuthError>(AuthError::Internal))
                && crate::service::spec_same_store(old(self).auth_service, final(self).auth_service),
            r is Ok ==> r.unwrap().0 == 200 && r.unwrap().1.success,
            old(self).auth_service.store.spec_has_email(spec_normalize_email(req.email@))
                && old(self).auth_service.store.spec_user_by_email(spec_normalize_email(req.email@)).is_email_verified
                ==> r is Ok && (r.unwrap().1.message matches Some(m) && m@
                == "Email is already verified."@) && crate::service::spec_same_store(
                old(self).auth_service,
                final(self).auth_service,
            ),
            old(self).auth_service.store.spec_has_email(spec_normalize_email(req.email@))
                && !old(self).auth_service.store.spec_user_by_email(spec_normalize_email(req.email@)).is_email_verified
                && r is Ok ==> (r.unwrap().1.message matches Some(m) && m@
                == "Verification email sent successfully"@) && crate::service::spec_artifact_issued(
                old(self).auth_service,
                final(self).auth_service,
                spec_normalize_email(req.email@),
                old(self).auth_service.store.spec_user_by_email(spec_normalize_email(req.email@)).id,
                crate::store::Purpose::EmailVerification,
                (now + EMAIL_VERIFICATION_TTL_SECS) as u64,
            ),
    {
        let resp = match self.auth_service.resend_verification(req, now) {
            Ok(resp) => resp,
            Err(e) => { return Err(e); },
        };
        let already = String::from_str("Email is already verified.");
        proof {
            reveal_strlit("Email is already verified.");
            reveal_strlit("Verification email sent.");
            assert("Email is already verified."@.len() != "Verification email sent."@.len());
        }
        let message = if resp.message == already {
            resp.message.clone()
        } else {
            String::from_str("Verification email sent successfully")
        };
        Ok((200, ApiResponse::success_with_message(resp, message)))
    }

    /// Start of the password-reset flow; deliberately indistinguishable
    /// for existing and unknown addresses.
    pub fn forgot_password(&mut self, req: ForgotPasswordRequest, now: u64) -> (r: Result<(u16, ApiResponse<MessageResponse>), AuthError>)
        requires
            old(self).wf(),
            now + PASSWORD_RESET_TTL_SECS <= u64::MAX,
        ensures
            final(self).wf(),
            old(self).auth_service.spec_same_config(final(self).auth_service),
            final(self).auth_service.store.users@ == old(self).auth_service.store.users@,
            r is Err ==> r == Err::<(u16, ApiResponse<MessageResponse>), AuthError>(AuthError::Internal)
                && crate::service::spec_same_store(old(self).auth_service, final(self).auth_service),
            !old(self).auth_service.store.spec_has_email(spec_normalize_email(req.email@)) ==> r is Ok
                && crate::service::spec_same_store(old(self).auth_service, final(self).auth_service),
            r is Ok ==> r.unwrap().0 == 200 && r.unwrap().1.success
                && (r.unwrap().1.message matches Some(m) && m@
                == "Password reset email sent successfully"@),
            old(self).auth_service.store.spec_has_email(spec_normalize_email(req.email@)) && r is Ok
                ==> crate::service::spec_artifact_issued(
                old(self).auth_service,
                final(self).auth_service,
                spec_normalize_email(req.email@),
                old(self).auth_service.store.spec_user_by_email(spec_normalize_email(req.email@)).id,
                crate::store::Purpose::PasswordReset,
                (now + PASSWORD_RESET_TTL_SECS) as u64,
            ),
    {
        match self.auth_service.forgot_password(req, now) {
            Ok(resp) => Ok((
                200,
                ApiResponse::success_with_message(
                    resp,
                    String::from_str("Password reset email sent successfully"),
                ),
            )),
            Err(e) => Err(e),
        }
    }

    /// Completion of the password-reset flow; see
    /// [`AuthService::reset_password`].
    pub fn reset_password(&mut self, req: ResetPasswordRequest, now: u64) -> (r: Result<(u16, ApiResponse<MessageResponse>), AuthError>)
        requires
            old(self).wf(),
        ensures
            final(self).wf(),
            old(self).auth_service.spec_same_config(final(self).auth_service),
            final(self).auth_service.outbox@ == old(self).auth_service.outbox@,
            r == Err::<(u16, ApiResponse<MessageResponse>), AuthError>(AuthError::WeakPassword)
                <==> !crate::hasher::spec_password_ok(req.new_password@),
            r is Err ==> (r == Err::<(u16, ApiResponse<MessageResponse>), AuthError>(AuthError::WeakPassword)
                || r == Err::<(u16, ApiResponse<MessageResponse>), AuthError>(
                AuthError::InvalidOrExpiredToken,
            ) || r == Err::<(u16, ApiResponse<MessageResponse>), AuthError>(AuthError::Internal))
                && crate::service::spec_same_store(old(self).auth_service, final(self).auth_service),
            crate::hasher::spec_password_ok(req.new_password@)
                && crate::codec::spec_parse_u64(req.token@) is None ==> r is Err && r != Err::<
                (u16, ApiResponse<MessageResponse>),
                AuthError,
            >(AuthError::WeakPassword),
            crate::hasher::spec_password_ok(req.new_password@)
                && crate::codec::spec_parse_u64(req.token@) is Some && crate::store::spec_consume_result(
                old(self).auth_service.store.artifacts@,
                crate::codec::spec_parse_u64(req.token@).unwrap(),
                crate::store::Purpose::PasswordReset,
                now,
            ) is Err ==> r is Err && r != Err::<(u16, ApiResponse<MessageResponse>), AuthError>(
                AuthError::WeakPassword,
            ),
            crate::hasher::spec_password_ok(req.new_password@)
                && crate::codec::spec_parse_u64(req.token@) is Some && crate::store::spec_consume_result(
                old(self).auth_service.store.artifacts@,
                crate::codec::spec_parse_u64(req.token@).unwrap(),
                crate::store::Purpose::PasswordReset,
                now,
            ) is Ok ==> (r is Ok || r == Err::<(u16, ApiResponse<MessageResponse>), AuthError>(
                AuthError::Internal,
            )),
            r is Ok ==> r.unwrap().0 == 200 && r.unwrap().1.success
                && crate::service::spec_reset_effect(
                old(self).auth_service,
                final(self).auth_service,
                req.token@,
                req.new_password@,
                now,
            ),
    {
        match self.auth_service.reset_password(req, now) {
            Ok(resp) => Ok((
                200,
                ApiResponse::success_with_message(
                    resp,
                    String::from_str("Password reset successfully"),
                ),
            )),
            Err(e) => Err(e),
        }
    }

    /// Password change for the bearer of a valid access token.
    pub fn change_password(&mut self, bearer_token: &str, req: ChangePasswordRequest, now: u64) -> (r: Result<(u16, ApiResponse<MessageResponse>), AuthError>)
        requires
            old(self).wf(),
        ensures
            final(self).wf(),
            old(self).auth_service.spec_same_config(final(self).auth_service),
            final(self).auth_service.store.artifacts@ == old(self).auth_service.store.artifacts@,
            final(self).auth_service.outbox@ == old(self).auth_service.outbox@,
            r is Err ==> crate::service::spec_same_store(
                old(self).auth_service,
                final(self).auth_service,
            ),
            spec_validate(
                old(self).auth_service.tokens.secret,
                bearer_token@,
                TokenType::Access,
                now,
            ) matches Err(e) ==> r == Err::<(u16, ApiResponse<MessageResponse>), AuthError>(
                spec_auth_error_of_token(e),
            ),
            spec_validate(
                old(self).auth_service.tokens.secret,
                bearer_token@,
                TokenType::Access,
                now,
            ) matches Ok(c) ==> ({
                let u = old(self).auth_service.store.spec_user_by_id(c.sub);
                &&& (r == Err::<(u16, ApiResponse<MessageResponse>), AuthError>(AuthError::UserNotFound)
                    <==> !old(self).auth_service.store.spec_has_user(c.sub))
                &&& old(self).auth_service.store.spec_has_user(c.sub) ==> ({
                    &&& !crate::hasher::bcrypt_matches(req.current_password@, u.password_hash@)
                        ==> r == Err::<(u16, ApiResponse<MessageResponse>), AuthError>(
                        AuthError::InvalidCredentials,
                    )
                    &&& crate::hasher::bcrypt_matches(req.current_password@, u.password_hash@)
                        && !crate::hasher::spec_password_ok(req.new_password@) ==> r == Err::<
                        (u16, ApiResponse<MessageResponse>),
                        AuthError,
                    >(AuthError::WeakPassword)
                    &&& crate::hasher::bcrypt_matches(req.current_password@, u.password_hash@)
                        && crate::hasher::spec_password_ok(req.new_password@) ==> (r is Ok || r
                        == Err::<(u16, ApiResponse<MessageResponse>), AuthError>(AuthError::Internal))
                    &&& r is Ok ==> r.unwrap().0 == 200 && r.unwrap().1.success
                        && crate::service::spec_change_effect(
                        old(self).auth_service,
                        final(self).auth_service,
                        c.sub,
                        req.new_password@,
                        now,
                    )
                })
            }),
    {
        let claims = match self.auth_service.decode_jwt_token(bearer_token, now) {
            Ok(c) => c,
            Err(e) => { return Err(e); },
        };
        match self.auth_service.change_password(claims.sub, req, now) {
            Ok(resp) => Ok((
                200,
                ApiResponse::success_with_message(
                    resp,
                    String::from_str("Password changed successfully"),
                ),
            )),
            Err(e) => Err(e),
        }
    }

    /// Mints a fresh token pair from a refresh token; see
    /// [`AuthService::refresh_token`].
    pub fn refresh_token(&self, req: RefreshTokenRequest, now: u64) -> (r: Result<(u16, ApiResponse<AuthResponse>), AuthError>)
        requires
            self.wf(),
            now + self.auth_service.tokens.access_ttl_secs <= u64::MAX,
            now + self.auth_service.tokens.refresh_ttl_secs <= u64::MAX,
        ensures
            spec_validate(
                self.auth_service.tokens.secret,
                req.refresh_token@,
                TokenType::Refresh,
                now,
            ) matches Err(e) ==> r == Err::<(u16, ApiResponse<AuthResponse>), AuthError>(
                spec_auth_error_of_token(e),
            ),
            spec_validate(
                self.auth_service.tokens.secret,
                req.refresh_token@,
                TokenType::Refresh,
                now,
            ) matches Ok(c) ==> ({
                let u = self.auth_service.store.spec_user_by_id(c.sub);
                &&& !self.auth_service.store.spec_has_user(c.sub) ==> r == Err::<
                    (u16, ApiResponse<AuthResponse>),
                    AuthError,
                >(AuthError::UserNotFound)
                &&& self.auth_service.store.spec_has_user(c.sub) && !u.is_active ==> r == Err::<
                    (u16, ApiResponse<AuthResponse>),
                    AuthError,
                >(AuthError::AccountDisabled)
                &&& self.auth_service.store.spec_has_user(c.sub) && u.is_active ==> r is Ok && ({
                    let resp = r.unwrap().1.data.unwrap();
                    &&& r.unwrap().0 == 200
                    &&& resp.user.id == u.id
                    &&& resp.user.role == u.role
                    &&& resp.access_token@ == self.auth_service.tokens.spec_token(
                        TokenType::Access,
                        u.id,
                        u.role,
                        now,
                    )
                    &&& resp.refresh_token@ == self.auth_service.tokens.spec_token(
                        TokenType::Refresh,
                        u.id,
                        Role::User,
                        now,
                    )
                })
            }),
    {
        match self.auth_service.refresh_token(req.refresh_token.as_str(), now) {
            Ok(resp) => Ok((
                200,
                ApiResponse::success_with_message(
                    resp,
                    String::from_str("Token refreshed successfully"),
                ),
            )),
            Err(e) => Err(e),
        }
    }
}

} // verus!
