//! The authentication service: orchestrates the repository, the credential
//! hasher, the token service and the verification-artifact lifecycle.
//!
//! Every operation takes the current instant `now` as an argument; the
//! transport layer reads the clock once per request and passes it down.
//! Outbound email is modelled by an outbox of [`EmailNotice`] values that
//! the transport layer drains and delivers best-effort; a delivery failure
//! never rolls back the artifact that was issued.

use vstd::prelude::*;
use crate::dto::{
    AuthResponse, ChangePasswordRequest, ForgotPasswordRequest, LoginRequest, MessageResponse,
    RegisterRequest, ResendVerificationRequest, ResetPasswordRequest, UserResponse, VerifyEmailRequest,
    spec_requested_role,
};
use crate::errors::{AuthError, spec_auth_error_of_token, auth_error_of_token};
use crate::hasher::{
    bcrypt_matches, hash_password, password_meets_policy, spec_password_ok, verify_password,
    MIN_HASH_COST, MAX_HASH_COST,
};
use crate::role::Role;
use crate::store::{
    Artifact, Purpose, UserStore, spec_artifact_by_value, spec_consume_next,
    spec_consume_result, spec_has_value, spec_users_idx_of, spec_users_idx_of_email,
};
use crate::token::{Claims, TokenService, TokenType, spec_validate};
use crate::user::{User, normalize_email, spec_normalize_email};
use crate::codec::{encode_u64, parse_u64, spec_parse_u64};
use vstd::string::StringExecFns;

verus! {

/// Lifetime of an email-verification artifact.
pub const EMAIL_VERIFICATION_TTL_SECS: u64 = 86400;

/// Lifetime of a password-reset artifact.
pub const PASSWORD_RESET_TTL_SECS: u64 = 3600;

/// An email the core has decided to send: who it goes to, why, and the
/// artifact token it carries.
pub struct EmailNotice {
    pub recipient: String,
    pub purpose: Purpose,
    pub token: String,
}

/// Relies on `getrandom::fill`: eight random bytes from the operating
/// system, or `None` when its randomness source fails.  Nothing is
/// promised about the value; the repository itself rejects collisions.
#[verifier::external_body]
pub(crate) fn fresh_id() -> Option<u64> {
    let mut bytes = [0u8; 8];
    match getrandom::fill(&mut bytes) {
        Ok(()) => Some(u64::from_le_bytes(bytes)),
        Err(_) => None,
    }
}

/// Repository and outbox unchanged between two service states.
pub open spec fn spec_same_store(a: AuthService, b: AuthService) -> bool {
    &&& a.store.users@ == b.store.users@
    &&& a.store.artifacts@ == b.store.artifacts@
    &&& a.outbox@ == b.outbox@
}

/// A fresh unconsumed artifact for `uid` and `purpose` was stored and the
/// matching email notice queued at the end of the outbox, its token text
/// the decimal rendering of the artifact's value.
pub open spec fn spec_artifact_issued(
    pre: AuthService,
    post: AuthService,
    recipient: Seq<char>,
    uid: u64,
    purpose: Purpose,
    expires_at: u64,
) -> bool {
    let nt = post.outbox@.last();
    let v = spec_parse_u64(nt.token@).unwrap();
    &&& post.outbox@.len() == pre.outbox@.len() + 1
    &&& post.outbox@.subrange(0, pre.outbox@.len() as int) == pre.outbox@
    &&& nt.recipient@ == recipient
    &&& nt.purpose == purpose
    &&& spec_parse_u64(nt.token@) is Some
    &&& spec_has_value(post.store.artifacts@, v)
    &&& spec_artifact_by_value(post.store.artifacts@, v) == (Artifact {
        token_value: v,
        user_id: uid,
        purpose,
        expires_at,
        consumed: false,
    })
}

/// The state and response a successful registration leaves: one user
/// appended whose password hash the password verifies against and is not
/// the plaintext, a verification artifact issued, the email queued, and a
/// fresh token pair in the response.
pub open spec fn spec_register_effect(
    pre: AuthService,
    post: AuthService,
    email: Seq<char>,
    password: Seq<char>,
    first_name: Seq<char>,
    last_name: Seq<char>,
    role: Role,
    resp: AuthResponse,
    now: u64,
) -> bool {
    let u = post.store.spec_user_by_email(email);
    &&& post.store.users@.len() == pre.store.users@.len() + 1
    &&& post.store.users@ == pre.store.users@.push(u)
    &&& post.store.spec_has_email(email)
    &&& u.email@ == email
    &&& u.first_name@ == first_name
    &&& u.last_name@ == last_name
    &&& u.role == role
    &&& !u.is_email_verified
    &&& u.is_active
    &&& u.created_at == now
    &&& u.updated_at == now
    &&& u.last_login is None
    &&& u.password_hash@.len() > 0
    &&& bcrypt_matches(password, u.password_hash@)
    &&& (password.len() != 60 || password[0] != '$' ==> u.password_hash@ != password)
    &&& resp.user.id == u.id
    &&& resp.user.email@ == u.email@
    &&& resp.user.role == u.role
    &&& !resp.user.is_email_verified
    &&& resp.user.is_active
    &&& resp.access_token@ == post.tokens.spec_token(TokenType::Access, u.id, u.role, now)
    &&& resp.refresh_token@ == post.tokens.spec_token(TokenType::Refresh, u.id, Role::User, now)
    &&& spec_artifact_issued(
        pre,
        post,
        email,
        u.id,
        Purpose::EmailVerification,
        (now + EMAIL_VERIFICATION_TTL_SECS) as u64,
    )
}

/// The state and response a successful login leaves: the last-login
/// instant recorded, nothing else of the record changed, and a fresh
/// token pair for the user.
pub open spec fn spec_login_effect(
    pre: AuthService,
    post: AuthService,
    u: User,
    resp: AuthResponse,
    now: u64,
) -> bool {
    &&& post.store.users@ == pre.store.users@.update(
        spec_users_idx_of(pre.store.users@, u.id),
        User { last_login: Some(now), updated_at: now, ..u },
    )
    &&& resp.user.id == u.id
    &&& resp.user.email@ == u.email@
    &&& resp.user.role == u.role
    &&& resp.access_token@ == post.tokens.spec_token(TokenType::Access, u.id, u.role, now)
    &&& resp.refresh_token@ == post.tokens.spec_token(TokenType::Refresh, u.id, Role::User, now)
}

/// The state a successful email verification leaves: exactly the
/// presented artifact consumed and its owner's verified flag set.
pub open spec fn spec_verify_email_effect(
    pre: AuthService,
    post: AuthService,
    token: Seq<char>,
    now: u64,
) -> bool {
    let v = spec_parse_u64(token).unwrap();
    let uid = spec_consume_result(pre.store.artifacts@, v, Purpose::EmailVerification, now).unwrap();
    &&& post.store.artifacts@ == spec_consume_next(
        pre.store.artifacts@,
        v,
        Purpose::EmailVerification,
        now,
    )
    &&& post.store.users@ == pre.store.users@.update(
        spec_users_idx_of(pre.store.users@, uid),
        User { is_email_verified: true, updated_at: now, ..pre.store.spec_user_by_id(uid) },
    )
}

/// The state a successful password reset leaves: exactly the presented
/// artifact consumed and its owner's hash replaced by one the new
/// password verifies against.
pub open spec fn spec_reset_effect(
    pre: AuthService,
    post: AuthService,
    token: Seq<char>,
    new_password: Seq<char>,
    now: u64,
) -> bool {
    let v = spec_parse_u64(token).unwrap();
    let uid = spec_consume_result(pre.store.artifacts@, v, Purpose::PasswordReset, now).unwrap();
    let h = post.store.spec_user_by_id(uid).password_hash;
    &&& post.store.artifacts@ == spec_consume_next(
        pre.store.artifacts@,
        v,
        Purpose::PasswordReset,
        now,
    )
    &&& post.store.users@ == pre.store.users@.update(
        spec_users_idx_of(pre.store.users@, uid),
        User { password_hash: h, updated_at: now, ..pre.store.spec_user_by_id(uid) },
    )
    &&& h@.len() > 0
    &&& bcrypt_matches(new_password, h@)
}

/// The state a successful password change leaves for user `uid`: only the
/// hash and update instant replaced, the new password verifying against
/// the new hash.
pub open spec fn spec_change_effect(
    pre: AuthService,
    post: AuthService,
    uid: u64,
    new_password: Seq<char>,
    now: u64,
) -> bool {
    let h = post.store.spec_user_by_id(uid).password_hash;
    &&& post.store.users@ == pre.store.users@.update(
        spec_users_idx_of(pre.store.users@, uid),
        User { password_hash: h, updated_at: now, ..pre.store.spec_user_by_id(uid) },
    )
    &&& h@.len() > 0
    &&& bcrypt_matches(new_password, h@)
}

/// The authentication service.
pub struct AuthService {
    pub store: UserStore,
    pub tokens: TokenService,
    pub hash_cost: u32,
    pub outbox: Vec<EmailNotice>,
}

impl AuthService {
    /// Service invariant: the repository invariant holds and the hash cost
    /// is one bcrypt accepts.
    pub open spec fn wf(self) -> bool {
        &&& self.store.wf()
        &&& MIN_HASH_COST <= self.hash_cost <= MAX_HASH_COST
    }

    /// The configuration part of the state: everything but the repository
    /// and the outbox.
    pub open spec fn spec_same_config(self, other: AuthService) -> bool {
        self.tokens == other.tokens && self.hash_cost == other.hash_cost
    }

    /// A fresh service around an empty repository.
    pub fn new(secret: u64, hash_cost: u32, access_ttl_secs: u64, refresh_ttl_secs: u64) -> (s: Self)
        requires
            MIN_HASH_COST <= hash_cost <= MAX_HASH_COST,
            access_ttl_secs >= 1,
            refresh_ttl_secs >= 1,
        ensures
            s.wf(),
            s.store.users@.len() == 0,
            s.store.artifacts@.len() == 0,
            s.outbox@.len() == 0,
            s.tokens.secret == secret,
            s.tokens.access_ttl_secs == access_ttl_secs,
            s.tokens.refresh_ttl_secs == refresh_ttl_secs,
            s.hash_cost == hash_cost,
    {
        AuthService {
            store: UserStore::new(),
            tokens: TokenService::new(secret, access_ttl_secs, refresh_ttl_secs),
            hash_cost,
            outbox: Vec::new(),
        }
    }

    /// Registers a new account: rejects weak passwords and taken emails,
    /// hashes the password, stores the user unverified and active, issues
    /// an email-verification artifact superseding none (the account is
    /// new), queues the verification email, and returns the profile with a
    /// fresh token pair.  The password policy is checked before the email,
    /// so a weak password on a taken email reports the weak password.
    /// `Internal` covers only hashing failures and random-value
    /// collisions, and leaves the repository unchanged: a user created
    /// before the artifact could be stored is rolled back.
    pub fn register(&mut self, req: RegisterRequest, now: u64) -> (r: Result<AuthResponse, AuthError>)
        requires
            old(self).wf(),
            now + old(self).tokens.access_ttl_secs <= u64::MAX,
            now + old(self).tokens.refresh_ttl_secs <= u64::MAX,
            now + EMAIL_VERIFICATION_TTL_SECS <= u64::MAX,
        ensures
            final(self).wf(),
            old(self).spec_same_config(*final(self)),
            r == Err::<AuthResponse, AuthError>(AuthError::WeakPassword) <==> !spec_password_ok(req.password@),
            r == Err::<AuthResponse, AuthError>(AuthError::EmailAlreadyExists) <==> spec_password_ok(req.password@)
                && old(self).store.spec_has_email(spec_normalize_email(req.email@)),
            r is Err ==> r == Err::<AuthResponse, AuthError>(AuthError::WeakPassword)
                || r == Err::<AuthResponse, AuthError>(AuthError::EmailAlreadyExists)
                || r == Err::<AuthResponse, AuthError>(AuthError::Internal),
            r is Err ==> final(self).store.users@ == old(self).store.users@
                && final(self).store.artifacts@ == old(self).store.artifacts@
                && final(self).outbox@ == old(self).outbox@,
            r is Ok ==> spec_register_effect(
                *old(self),
                *final(self),
                spec_normalize_email(req.email@),
                req.password@,
                req.first_name@,
                req.last_name@,
                spec_requested_role(req),
                r.unwrap(),
                now,
            ),
    {
        if !password_meets_policy(req.password.as_str()) {
            return Err(AuthError::WeakPassword);
        }
        let email_n = normalize_email(req.email.as_str());
        match self.store.find_by_email(email_n.as_str()) {
            Some(_) => { return Err(AuthError::EmailAlreadyExists); },
            None => {},
        }
        let digest = match hash_password(req.password.as_str(), self.hash_cost) {
            Some(d) => d,
            None => { return Err(AuthError::Internal); },
        };
        let id = match fresh_id() {
            Some(v) => v,
            None => { return Err(AuthError::Internal); },
        };
        let v = match fresh_id() {
            Some(x) => x,
            None => { return Err(AuthError::Internal); },
        };
        let role = match req.role {
            Some(ro) => ro,
            None => Role::User,
        };
        let user = User {
            id,
            email: email_n.clone(),
            password_hash: digest,
            first_name: req.first_name.clone(),
            last_name: req.last_name.clone(),
            role,
            is_email_verified: false,
            is_active: true,
            created_at: now,
            updated_at: now,
            last_login: None,
        };
        let stored = user.clone();
        let ghost pre = *self;
        match self.store.create_user(user) {
            Ok(()) => {},
            Err(_) => { return Err(AuthError::Internal); },
        }
        proof {
            assert(self.store.users@.last() == stored);
            assert(self.store.spec_has_user(stored.id));
        }
        let art = Artifact {
            token_value: v,
            user_id: stored.id,
            purpose: Purpose::EmailVerification,
            expires_at: now + EMAIL_VERIFICATION_TTL_SECS,
            consumed: false,
        };
        let ghost mid = *self;
        match self.store.put_artifact(art) {
            Ok(()) => {},
            Err(_) => {
                // keep registration atomic: without its verification
                // artifact the fresh user record is rolled back
                self.store.users.pop();
                proof {
                    assert(self.store.users@ =~= pre.store.users@);
                    assert(self.store.artifacts@ == pre.store.artifacts@);
                    assert forall|t: int|
                        0 <= t < self.store.artifacts@.len() implies self.store.spec_has_user(
                        (#[trigger] self.store.artifacts@[t]).user_id,
                    ) by {
                        let w = choose|i2: int|
                            0 <= i2 < pre.store.users@.len() && (#[trigger] pre.store.users@[i2]).id
                                == pre.store.artifacts@[t].user_id;
                        assert(self.store.users@[w].id == self.store.artifacts@[t].user_id);
                    }
                }
                return Err(AuthError::Internal);
            },
        }
        let token_text = encode_u64(v);
        proof {
            crate::codec::lemma_u64_round_trip(v);
            assert(spec_has_value(self.store.artifacts@, v)) by {
                assert(self.store.artifacts@.last() == art);
            }
            assert(spec_artifact_by_value(self.store.artifacts@, v) == art) by {
                let w = crate::store::spec_value_idx(self.store.artifacts@, v);
                assert(self.store.artifacts@.last() == art);
                assert(self.store.artifacts@[self.store.artifacts@.len() - 1].token_value == v);
                assert(0 <= w < self.store.artifacts@.len() && self.store.artifacts@[w].token_value
                    == v);
                if w != self.store.artifacts@.len() - 1 {
                    assert(false);
                }
            }
        }
        self.outbox.push(EmailNotice {
            recipient: email_n.clone(),
            purpose: Purpose::EmailVerification,
            token: token_text,
        });
        let access_token = self.tokens.issue_access(stored.id, stored.role, now);
        let refresh_token = self.tokens.issue_refresh(stored.id, now);
        let resp = AuthResponse {
            user: UserResponse::of_user(&stored),
            access_token,
            refresh_token,
        };
        proof {
            let fin = *self;
            assert(fin.store.users@ == pre.store.users@.push(stored));
            assert(fin.store.spec_has_email(spec_normalize_email(req.email@))) by {
                assert(fin.store.users@.last().email@ == spec_normalize_email(req.email@));
            }
            assert(fin.store.spec_user_by_email(spec_normalize_email(req.email@)) == stored) by {
                let w = crate::store::spec_users_idx_of_email(fin.store.users@, spec_normalize_email(req.email@));
                assert(fin.store.users@[fin.store.users@.len() - 1].email@ == spec_normalize_email(req.email@));
                assert(0 <= w < fin.store.users@.len() && fin.store.users@[w].email@ == spec_normalize_email(req.email@));
                if w != fin.store.users@.len() - 1 {
                    assert(fin.store.users@[w].email@ != fin.store.users@[fin.store.users@.len()
                        - 1].email@);
                    assert(false);
                }
            }
            assert(fin.outbox@.subrange(0, pre.outbox@.len() as int) =~= pre.outbox@);
        }
        Ok(resp)
    }

    /// Logs a user in: a missing account and a wrong password yield the
    /// same `InvalidCredentials`, a disabled account `AccountDisabled`, an
    /// unverified email `EmailNotVerified`; otherwise the last-login
    /// instant is recorded and a fresh token pair returned.
    pub fn login(&mut self, req: LoginRequest, now: u64) -> (r: Result<AuthResponse, AuthError>)
        requires
            old(self).wf(),
            now + old(self).tokens.access_ttl_secs <= u64::MAX,
            now + old(self).tokens.refresh_ttl_secs <= u64::MAX,
        ensures
            final(self).wf(),
            old(self).spec_same_config(*final(self)),
            final(self).outbox@ == old(self).outbox@,
            final(self).store.artifacts@ == old(self).store.artifacts@,
            !old(self).store.spec_has_email(spec_normalize_email(req.email@)) ==> r == Err::<AuthResponse, AuthError>(AuthError::InvalidCredentials)
                && final(self).store.users@ == old(self).store.users@,
            old(self).store.spec_has_email(spec_normalize_email(req.email@)) ==> ({
                let u = old(self).store.spec_user_by_email(spec_normalize_email(req.email@));
                &&& !bcrypt_matches(req.password@, u.password_hash@) ==> r == Err::<
                    AuthResponse,
                    AuthError,
                >(AuthError::InvalidCredentials)
                    && final(self).store.users@ == old(self).store.users@
                &&& bcrypt_matches(req.password@, u.password_hash@) && !u.is_active ==> r == Err::<
                    AuthResponse,
                    AuthError,
                >(AuthError::AccountDisabled) && final(self).store.users@ == old(self).store.users@
                &&& bcrypt_matches(req.password@, u.password_hash@) && u.is_active
                    && !u.is_email_verified ==> r == Err::<AuthResponse, AuthError>(AuthError::EmailNotVerified)
                    && final(self).store.users@ == old(self).store.users@
                &&& bcrypt_matches(req.password@, u.password_hash@) && u.is_active
                    && u.is_email_verified ==> r is Ok && spec_login_effect(
                    *old(self),
                    *final(self),
                    u,
                    r.unwrap(),
                    now,
                )
            }),
    {
        let email_n = normalize_email(req.email.as_str());
        let u = match self.store.find_by_email(email_n.as_str()) {
            Some(u) => u,
            None => { return Err(AuthError::InvalidCredentials); },
        };
        let ok = match verify_password(req.password.as_str(), u.password_hash.as_str()) {
            Some(b) => b,
            None => {
                proof {
                    assert(false);
                }
                return Err(AuthError::InvalidCredentials);
            },
        };
        if !ok {
            return Err(AuthError::InvalidCredentials);
        }
        if !u.is_active {
            return Err(AuthError::AccountDisabled);
        }
        if !u.is_email_verified {
            return Err(AuthError::EmailNotVerified);
        }
        let updated = User { last_login: Some(now), updated_at: now, ..u.clone() };
        let ghost pre = *self;
        match self.store.update_user(updated) {
            Ok(()) => {},
            Err(_) => {
                proof {
                    assert(pre.store.spec_has_user(u.id));
                    assert forall|k: int|
                        0 <= k < pre.store.users@.len() && (#[trigger] pre.store.users@[k]).id
                            != u.id implies pre.store.users@[k].email@ != u.email@ by {
                        let w = crate::store::spec_users_idx_of_email(
                            pre.store.users@,
                            spec_normalize_email(req.email@),
                        );
                        if pre.store.users@[k].email@ == u.email@ {
                            assert(false);
                        }
                    }
                    assert(false);
                }
                return Err(AuthError::Internal);
            },
        }
        let access_token = self.tokens.issue_access(u.id, u.role, now);
        let refresh_token = self.tokens.issue_refresh(u.id, now);
        let resp = AuthResponse {
            user: UserResponse::of_user(&u),
            access_token,
            refresh_token,
        };
        Ok(resp)
    }

    /// Confirms an email address: consumes the presented artifact and flips
    /// the owner's verified flag.  A token that does not parse, is unknown,
    /// already consumed or expired surfaces uniformly as
    /// `InvalidOrExpiredToken`.
    pub fn verify_email(&mut self, req: VerifyEmailRequest, now: u64) -> (r: Result<MessageResponse, AuthError>)
        requires
            old(self).wf(),
        ensures
            final(self).wf(),
            old(self).spec_same_config(*final(self)),
            final(self).outbox@ == old(self).outbox@,
            r is Err ==> r == Err::<MessageResponse, AuthError>(AuthError::InvalidOrExpiredToken)
                && final(self).store.users@ == old(self).store.users@
                && final(self).store.artifacts@ == old(self).store.artifacts@,
            r is Err <==> spec_parse_u64(req.token@) is None || spec_consume_result(
                old(self).store.artifacts@,
                spec_parse_u64(req.token@).unwrap(),
                Purpose::EmailVerification,
                now,
            ) is Err,
            r is Ok ==> spec_verify_email_effect(*old(self), *final(self), req.token@, now),
    {
        let v = match parse_u64(req.token.as_str()) {
            Some(v) => v,
            None => { return Err(AuthError::InvalidOrExpiredToken); },
        };
        let ghost pre = *self;
        let uid = match self.store.consume_artifact(v, Purpose::EmailVerification, now) {
            Ok(uid) => uid,
            Err(_) => { return Err(AuthError::InvalidOrExpiredToken); },
        };
        let ghost mid = *self;
        let u = match self.store.find_by_id(uid) {
            Some(u) => u,
            None => {
                proof {
                    assert(false);
                }
                return Err(AuthError::InvalidOrExpiredToken);
            },
        };
        let updated = User { is_email_verified: true, updated_at: now, ..u.clone() };
        match self.store.update_user(updated) {
            Ok(()) => {},
            Err(_) => {
                proof {
                    assert(mid.store.spec_has_user(uid));
                    let w = spec_users_idx_of(mid.store.users@, uid);
                    assert forall|k: int|
                        0 <= k < mid.store.users@.len() && (#[trigger] mid.store.users@[k]).id
                            != updated.id implies mid.store.users@[k].email@ != updated.email@ by {
                        if mid.store.users@[k].email@ == updated.email@ {
                            assert(false);
                        }
                    }
                    assert(false);
                }
                return Err(AuthError::InvalidOrExpiredToken);
            },
        }
        Ok(MessageResponse { message: String::from_str("Email verified.") })
    }

    /// Issues a fresh verification artifact for an unverified account,
    /// superseding any outstanding one, and queues the email; an account
    /// that is already verified is answered with a success-shaped message
    /// instead of a new artifact.
    pub fn resend_verification(&mut self, req: ResendVerificationRequest, now: u64) -> (r: Result<MessageResponse, AuthError>)
        requires
            old(self).wf(),
            now + EMAIL_VERIFICATION_TTL_SECS <= u64::MAX,
        ensures
            final(self).wf(),
            old(self).spec_same_config(*final(self)),
            final(self).store.users@ == old(self).store.users@,
            r == Err::<MessageResponse, AuthError>(AuthError::UserNotFound) <==> !old(self).store.spec_has_email(spec_normalize_email(req.email@)),
            r is Err ==> (r == Err::<MessageResponse, AuthError>(AuthError::UserNotFound) || r
                == Err::<MessageResponse, AuthError>(AuthError::Internal))
                && final(self).store.artifacts@ == old(self).store.artifacts@
                && final(self).outbox@ == old(self).outbox@,
            old(self).store.spec_has_email(spec_normalize_email(req.email@)) && old(self).store.spec_user_by_email(
                spec_normalize_email(req.email@),
            ).is_email_verified ==> r is Ok && r.unwrap().message@ == "Email is already verified."@
                && final(self).store.artifacts@ == old(self).store.artifacts@
                && final(self).outbox@ == old(self).outbox@,
            old(self).store.spec_has_email(spec_normalize_email(req.email@)) && !old(self).store.spec_user_by_email(
                spec_normalize_email(req.email@),
            ).is_email_verified && r is Ok ==> r.unwrap().message@ == "Verification email sent."@
                && spec_artifact_issued(
                *old(self),
                *final(self),
                spec_normalize_email(req.email@),
                old(self).store.spec_user_by_email(spec_normalize_email(req.email@)).id,
                Purpose::EmailVerification,
                (now + EMAIL_VERIFICATION_TTL_SECS) as u64,
            ),
    {
        let email_n = normalize_email(req.email.as_str());
        let u = match self.store.find_by_email(email_n.as_str()) {
            Some(u) => u,
            None => { return Err(AuthError::UserNotFound); },
        };
        if u.is_email_verified {
            return Ok(MessageResponse { message: String::from_str("Email is already verified.") });
        }
        proof {
            let w = spec_users_idx_of_email(self.store.users@, spec_normalize_email(req.email@));
            assert(self.store.users@[w].id == u.id);
            assert(self.store.spec_has_user(u.id));
        }
        let v = match fresh_id() {
            Some(x) => x,
            None => { return Err(AuthError::Internal); },
        };
        let art = Artifact {
            token_value: v,
            user_id: u.id,
            purpose: Purpose::EmailVerification,
            expires_at: now + EMAIL_VERIFICATION_TTL_SECS,
            consumed: false,
        };
        match self.store.put_artifact(art) {
            Ok(()) => {},
            Err(_) => { return Err(AuthError::Internal); },
        }
        let token_text = encode_u64(v);
        proof {
            crate::codec::lemma_u64_round_trip(v);
            assert(self.store.artifacts@.last() == art);
            assert(spec_has_value(self.store.artifacts@, v));
            let w = crate::store::spec_value_idx(self.store.artifacts@, v);
            assert(0 <= w < self.store.artifacts@.len() && self.store.artifacts@[w].token_value
                == v);
            if w != self.store.artifacts@.len() - 1 {
                assert(false);
            }
        }
        self.outbox.push(EmailNotice {
            recipient: email_n.clone(),
            purpose: Purpose::EmailVerification,
            token: token_text,
        });
        proof {
            assert(self.outbox@.subrange(0, old(self).outbox@.len() as int) =~= old(self).outbox@);
        }
        Ok(MessageResponse { message: String::from_str("Verification email sent.") })
    }

    /// Starts a password reset.  The answer is the same whether or not an
    /// account exists for the address, so callers cannot enumerate
    /// accounts; when one exists, a reset artifact is issued superseding
    /// any outstanding one and the email is queued.
    pub fn forgot_password(&mut self, req: ForgotPasswordRequest, now: u64) -> (r: Result<MessageResponse, AuthError>)
        requires
            old(self).wf(),
            now + PASSWORD_RESET_TTL_SECS <= u64::MAX,
        ensures
            final(self).wf(),
            old(self).spec_same_config(*final(self)),
            final(self).store.users@ == old(self).store.users@,
            r is Err ==> r == Err::<MessageResponse, AuthError>(AuthError::Internal)
                && final(self).store.artifacts@ == old(self).store.artifacts@
                && final(self).outbox@ == old(self).outbox@,
            !old(self).store.spec_has_email(spec_normalize_email(req.email@)) ==> r is Ok
                && final(self).store.artifacts@ == old(self).store.artifacts@
                && final(self).outbox@ == old(self).outbox@,
            r is Ok ==> r.unwrap().message@
                == "If an account exists for that address, a password reset email has been sent."@,
            old(self).store.spec_has_email(spec_normalize_email(req.email@)) && r is Ok ==> spec_artifact_issued(
                *old(self),
                *final(self),
                spec_normalize_email(req.email@),
                old(self).store.spec_user_by_email(spec_normalize_email(req.email@)).id,
                Purpose::PasswordReset,
                (now + PASSWORD_RESET_TTL_SECS) as u64,
            ),
    {
        let email_n = normalize_email(req.email.as_str());
        let u = match self.store.find_by_email(email_n.as_str()) {
            Some(u) => u,
            None => {
                return Ok(MessageResponse {
                    message: String::from_str(
                        "If an account exists for that address, a password reset email has been sent.",
                    ),
                });
            },
        };
        proof {
            let w = spec_users_idx_of_email(self.store.users@, spec_normalize_email(req.email@));
            assert(self.store.users@[w].id == u.id);
            assert(self.store.spec_has_user(u.id));
        }
        let v = match fresh_id() {
            Some(x) => x,
            None => { return Err(AuthError::Internal); },
        };
        let art = Artifact {
            token_value: v,
            user_id: u.id,
            purpose: Purpose::PasswordReset,
            expires_at: now + PASSWORD_RESET_TTL_SECS,
            consumed: false,
        };
        match self.store.put_artifact(art) {
            Ok(()) => {},
            Err(_) => { return Err(AuthError::Internal); },
        }
        let token_text = encode_u64(v);
        proof {
            crate::codec::lemma_u64_round_trip(v);
            assert(self.store.artifacts@.last() == art);
            assert(spec_has_value(self.store.artifacts@, v));
            let w = crate::store::spec_value_idx(self.store.artifacts@, v);
            assert(0 <= w < self.store.artifacts@.len() && self.store.artifacts@[w].token_value
                == v);
            if w != self.store.artifacts@.len() - 1 {
                assert(false);
            }
        }
        self.outbox.push(EmailNotice {
            recipient: email_n.clone(),
            purpose: Purpose::PasswordReset,
            token: token_text,
        });
        proof {
            assert(self.outbox@.subrange(0, old(self).outbox@.len() as int) =~= old(self).outbox@);
        }
        Ok(MessageResponse {
            message: String::from_str(
                "If an account exists for that address, a password reset email has been sent.",
            ),
        })
    }

    /// Completes a password reset: checks the new password against the
    /// policy, consumes the reset artifact and replaces the owner's hash.
    /// A failing operation leaves the repository unchanged.
    pub fn reset_password(&mut self, req: ResetPasswordRequest, now: u64) -> (r: Result<MessageResponse, AuthError>)
        requires
            old(self).wf(),
        ensures
            final(self).wf(),
            old(self).spec_same_config(*final(self)),
            final(self).outbox@ == old(self).outbox@,
            r == Err::<MessageResponse, AuthError>(AuthError::WeakPassword) <==> !spec_password_ok(req.new_password@),
            r is Err ==> (r == Err::<MessageResponse, AuthError>(AuthError::WeakPassword) || r
                == Err::<MessageResponse, AuthError>(AuthError::InvalidOrExpiredToken) || r == Err::<
                MessageResponse,
                AuthError,
            >(AuthError::Internal)) && final(self).store.users@ == old(self).store.users@
                && final(self).store.artifacts@ == old(self).store.artifacts@,
            spec_password_ok(req.new_password@) && spec_parse_u64(req.token@) is None ==> r is Err
                && r != Err::<MessageResponse, AuthError>(AuthError::WeakPassword),
            spec_password_ok(req.new_password@) && spec_parse_u64(req.token@) is Some
                && spec_consume_result(
                old(self).store.artifacts@,
                spec_parse_u64(req.token@).unwrap(),
                Purpose::PasswordReset,
                now,
            ) is Err ==> r is Err && r != Err::<MessageResponse, AuthError>(AuthError::WeakPassword),
            spec_password_ok(req.new_password@) && spec_parse_u64(req.token@) is Some
                && spec_consume_result(
                old(self).store.artifacts@,
                spec_parse_u64(req.token@).unwrap(),
                Purpose::PasswordReset,
                now,
            ) is Ok ==> (r is Ok || r == Err::<MessageResponse, AuthError>(AuthError::Internal)),
            r is Ok ==> spec_password_ok(req.new_password@) && spec_parse_u64(req.token@) is Some
                && spec_consume_result(
                old(self).store.artifacts@,
                spec_parse_u64(req.token@).unwrap(),
                Purpose::PasswordReset,
                now,
            ) is Ok && spec_reset_effect(*old(self), *final(self), req.token@, req.new_password@, now),
    {
        if !password_meets_policy(req.new_password.as_str()) {
            return Err(AuthError::WeakPassword);
        }
        let digest = match hash_password(req.new_password.as_str(), self.hash_cost) {
            Some(d) => d,
            None => { return Err(AuthError::Internal); },
        };
        let v = match parse_u64(req.token.as_str()) {
            Some(v) => v,
            None => { return Err(AuthError::InvalidOrExpiredToken); },
        };
        let ghost pre = *self;
        let uid = match self.store.consume_artifact(v, Purpose::PasswordReset, now) {
            Ok(uid) => uid,
            Err(_) => { return Err(AuthError::InvalidOrExpiredToken); },
        };
        let ghost mid = *self;
        let u = match self.store.find_by_id(uid) {
            Some(u) => u,
            None => {
                proof {
                    assert(false);
                }
                return Err(AuthError::InvalidOrExpiredToken);
            },
        };
        let updated = User { password_hash: digest, updated_at: now, ..u.clone() };
        match self.store.update_user(updated) {
            Ok(()) => {},
            Err(_) => {
                proof {
                    assert(mid.store.spec_has_user(uid));
                    let w = spec_users_idx_of(mid.store.users@, uid);
                    assert forall|k: int|
                        0 <= k < mid.store.users@.len() && (#[trigger] mid.store.users@[k]).id
                            != updated.id implies mid.store.users@[k].email@ != updated.email@ by {
                        if mid.store.users@[k].email@ == updated.email@ {
                            assert(false);
                        }
                    }
                    assert(false);
                }
                return Err(AuthError::InvalidOrExpiredToken);
            },
        }
        proof {
            let w = spec_users_idx_of(mid.store.users@, uid);
            assert(self.store.users@[w] == updated);
            assert(self.store.spec_user_by_id(uid) == updated) by {
                let w2 = spec_users_idx_of(self.store.users@, uid);
                assert(self.store.users@[w2].id == uid);
                if w2 != w {
                    assert(false);
                }
            }
        }
        Ok(MessageResponse { message: String::from_str("Password has been reset.") })
    }

    /// Changes the password of an authenticated user after checking the
    /// current one; a wrong current password surfaces as
    /// `InvalidCredentials`.
    pub fn change_password(&mut self, user_id: u64, req: ChangePasswordRequest, now: u64) -> (r: Result<MessageResponse, AuthError>)
        requires
            old(self).wf(),
        ensures
            final(self).wf(),
            old(self).spec_same_config(*final(self)),
            final(self).outbox@ == old(self).outbox@,
            final(self).store.artifacts@ == old(self).store.artifacts@,
            r is Err ==> final(self).store.users@ == old(self).store.users@,
            r == Err::<MessageResponse, AuthError>(AuthError::UserNotFound) <==> !old(self).store.spec_has_user(user_id),
            old(self).store.spec_has_user(user_id) ==> ({
                let u = old(self).store.spec_user_by_id(user_id);
                &&& !bcrypt_matches(req.current_password@, u.password_hash@) ==> r == Err::<
                    MessageResponse,
                    AuthError,
                >(AuthError::InvalidCredentials)
                &&& bcrypt_matches(req.current_password@, u.password_hash@) && !spec_password_ok(
                    req.new_password@,
                ) ==> r == Err::<MessageResponse, AuthError>(AuthError::WeakPassword)
                &&& bcrypt_matches(req.current_password@, u.password_hash@) && spec_password_ok(
                    req.new_password@,
                ) ==> (r is Ok || r == Err::<MessageResponse, AuthError>(AuthError::Internal))
                &&& r is Ok ==> spec_change_effect(
                    *old(self),
                    *final(self),
                    user_id,
                    req.new_password@,
                    now,
                )
            }),
    {
        let u = match self.store.find_by_id(user_id) {
            Some(u) => u,
            None => { return Err(AuthError::UserNotFound); },
        };
        let ok = match verify_password(req.current_password.as_str(), u.password_hash.as_str()) {
            Some(b) => b,
            None => {
                proof {
                    assert(false);
                }
                return Err(AuthError::InvalidCredentials);
            },
        };
        if !ok {
            return Err(AuthError::InvalidCredentials);
        }
        if !password_meets_policy(req.new_password.as_str()) {
            return Err(AuthError::WeakPassword);
        }
        let digest = match hash_password(req.new_password.as_str(), self.hash_cost) {
            Some(d) => d,
            None => { return Err(AuthError::Internal); },
        };
        let ghost pre = *self;
        let updated = User { password_hash: digest, updated_at: now, ..u.clone() };
        match self.store.update_user(updated) {
            Ok(()) => {},
            Err(_) => {
                proof {
                    assert(pre.store.spec_has_user(user_id));
                    let w = spec_users_idx_of(pre.store.users@, user_id);
                    assert forall|k: int|
                        0 <= k < pre.store.users@.len() && (#[trigger] pre.store.users@[k]).id
                            != updated.id implies pre.store.users@[k].email@ != updated.email@ by {
                        if pre.store.users@[k].email@ == updated.email@ {
                            assert(false);
                        }
                    }
                    assert(false);
                }
                return Err(AuthError::Internal);
            },
        }
        proof {
            let w = spec_users_idx_of(pre.store.users@, user_id);
            assert(self.store.users@[w] == updated);
            assert(self.store.spec_user_by_id(user_id) == updated) by {
                let w2 = spec_users_idx_of(self.store.users@, user_id);
                assert(self.store.users@[w2].id == user_id);
                if w2 != w {
                    assert(false);
                }
            }
        }
        Ok(MessageResponse { message: String::from_str("Password changed.") })
    }

    /// Mints a new access/refresh pair from a valid, unexpired refresh
    /// token whose subject still exists and is active.  Refresh tokens are
    /// stateless: they stay valid until natural expiry, and presenting one
    /// does not invalidate it.
    pub fn refresh_token(&self, token: &str, now: u64) -> (r: Result<AuthResponse, AuthError>)
        requires
            self.wf(),
            now + self.tokens.access_ttl_secs <= u64::MAX,
            now + self.tokens.refresh_ttl_secs <= u64::MAX,
        ensures
            spec_validate(self.tokens.secret, token@, TokenType::Refresh, now) matches Err(e)
                ==> r == Err::<AuthResponse, AuthError>(spec_auth_error_of_token(e)),
            spec_validate(self.tokens.secret, token@, TokenType::Refresh, now) matches Ok(c)
                ==> ({
                let u = self.store.spec_user_by_id(c.sub);
                &&& !self.store.spec_has_user(c.sub) ==> r == Err::<AuthResponse, AuthError>(AuthError::UserNotFound)
                &&& self.store.spec_has_user(c.sub) && !u.is_active ==> r == Err::<
                    AuthResponse,
                    AuthError,
                >(AuthError::AccountDisabled)
                &&& self.store.spec_has_user(c.sub) && u.is_active ==> r is Ok && ({
                    let resp = r.unwrap();
                    &&& resp.user.id == u.id
                    &&& resp.user.role == u.role
                    &&& resp.user.email@ == u.email@
                    &&& resp.access_token@ == self.tokens.spec_token(
                        TokenType::Access,
                        u.id,
                        u.role,
                        now,
                    )
                    &&& resp.refresh_token@ == self.tokens.spec_token(
                        TokenType::Refresh,
                        u.id,
                        Role::User,
                        now,
                    )
                })
            }),
    {
        let c = match self.tokens.validate(token, TokenType::Refresh, now) {
            Ok(c) => c,
            Err(e) => { return Err(auth_error_of_token(e)); },
        };
        let u = match self.store.find_by_id(c.sub) {
            Some(u) => u,
            None => { return Err(AuthError::UserNotFound); },
        };
        if !u.is_active {
            return Err(AuthError::AccountDisabled);
        }
        let access_token = self.tokens.issue_access(u.id, u.role, now);
        let refresh_token = self.tokens.issue_refresh(u.id, now);
        Ok(AuthResponse { user: UserResponse::of_user(&u), access_token, refresh_token })
    }

    /// Decodes and validates a bearer access token.
    pub fn decode_jwt_token(&self, token: &str, now: u64) -> (r: Result<Claims, AuthError>)
        ensures
            spec_validate(self.tokens.secret, token@, TokenType::Access, now) matches Ok(c) ==> r
                == Ok::<Claims, AuthError>(c),
            spec_validate(self.tokens.secret, token@, TokenType::Access, now) matches Err(e) ==> r
                == Err::<Claims, AuthError>(spec_auth_error_of_token(e)),
    {
        match self.tokens.validate(token, TokenType::Access, now) {
            Ok(c) => Ok(c),
            Err(e) => Err(auth_error_of_token(e)),
        }
    }

    /// Looks a user up by identifier.
    pub fn find_user_by_id(&self, id: u64) -> (r: Result<User, AuthError>)
        requires
            self.wf(),
        ensures
            r is Ok <==> self.store.spec_has_user(id),
            r matches Ok(u) ==> u == self.store.spec_user_by_id(id),
            r is Err ==> r == Err::<User, AuthError>(AuthError::UserNotFound),
    {
        match self.store.find_by_id(id) {
            Some(u) => Ok(u),
            None => Err(AuthError::UserNotFound),
        }
    }
}

} // verus!
