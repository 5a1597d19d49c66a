//! Idempotent startup seeding of the super-admin account.

use vstd::prelude::*;
use crate::errors::AuthError;
use crate::hasher::{bcrypt_matches, hash_password};
use crate::role::Role;
use crate::service::AuthService;
use crate::user::{User, normalize_email, spec_normalize_email};

verus! {

/// Ensures exactly one account with the given email exists and is a super
/// admin: creates it, already verified and active, when absent, and leaves
/// the repository untouched when present.  Safe to run on every startup;
/// the result says whether an account was created.
pub fn ensure_super_admin(
    svc: &mut AuthService,
    email: String,
    password: &str,
    first_name: String,
    last_name: String,
    now: u64,
) -> (r: Result<bool, AuthError>)
    requires
        old(svc).wf(),
    ensures
        final(svc).wf(),
        old(svc).spec_same_config(*final(svc)),
        final(svc).outbox@ == old(svc).outbox@,
        final(svc).store.artifacts@ == old(svc).store.artifacts@,
        r == Ok::<bool, AuthError>(false) <==> old(svc).store.spec_has_email(spec_normalize_email(email@)),
        r is Err ==> r == Err::<bool, AuthError>(AuthError::Internal) && final(svc).store.users@
            == old(svc).store.users@,
        r == Ok::<bool, AuthError>(false) ==> final(svc).store.users@ == old(svc).store.users@,
        r == Ok::<bool, AuthError>(true) ==> ({
            let u = final(svc).store.spec_user_by_email(spec_normalize_email(email@));
            &&& final(svc).store.users@ == old(svc).store.users@.push(u)
            &&& u.email@ == spec_normalize_email(email@)
            &&& u.first_name@ == first_name@
            &&& u.last_name@ == last_name@
            &&& u.role == Role::SuperAdmin
            &&& u.is_email_verified
            &&& u.is_active
            &&& u.created_at == now
            &&& u.updated_at == now
            &&& u.last_login is None
            &&& u.password_hash@.len() > 0
            &&& bcrypt_matches(password@, u.password_hash@)
            &&& (password@.len() != 60 || password@[0] != '$' ==> u.password_hash@ != password@)
        }),
{
    let email_n = normalize_email(email.as_str());
    match svc.store.find_by_email(email_n.as_str()) {
        Some(_) => { return Ok(false); },
        None => {},
    }
    let digest = match hash_password(password, svc.hash_cost) {
        Some(d) => d,
        None => { return Err(AuthError::Internal); },
    };
    let id = match crate::service::fresh_id() {
        Some(v) => v,
        None => { return Err(AuthError::Internal); },
    };
    let user = User {
        id,
        email: email_n.clone(),
        password_hash: digest,
        first_name,
        last_name,
        role: Role::SuperAdmin,
        is_email_verified: true,
        is_active: true,
        created_at: now,
        updated_at: now,
        last_login: None,
    };
    let stored = user.clone();
    match svc.store.create_user(user) {
        Ok(()) => {},
        Err(_) => { return Err(AuthError::Internal); },
    }
    proof {
        assert(svc.store.users@.last() == stored);
        assert(svc.store.spec_has_email(spec_normalize_email(email@)));
        assert(svc.store.spec_user_by_email(spec_normalize_email(email@)) == stored) by {
            let w = crate::store::spec_users_idx_of_email(svc.store.users@, spec_normalize_email(email@));
            assert(0 <= w < svc.store.users@.len() && svc.store.users@[w].email@ == spec_normalize_email(email@));
            if w != svc.store.users@.len() - 1 {
                assert(svc.store.users@[w].email@ != svc.store.users@[svc.store.users@.len()
                    - 1].email@);
                assert(false);
            }
        }
    }
    Ok(true)
}

} // verus!
