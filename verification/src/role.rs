//! Account roles and the authorization policy for privileged account
//! creation.

use vstd::prelude::*;

verus! {

/// Closed set of account roles, ordered by privilege:
/// `SuperAdmin > Admin > Police > User`.
#[derive(Clone, Copy, Debug, PartialEq, Eq, Structural)]
pub enum Role {
    User,
    Police,
    Admin,
    SuperAdmin,
}

/// The authorization policy: only a super admin may create admin or police
/// accounts.  Everything else is denied; plain self-registration does not go
/// through this check at all and always yields [`Role::User`].
pub open spec fn spec_can_create(caller: Role, target: Role) -> bool {
    caller == Role::SuperAdmin && (target == Role::Admin || target == Role::Police)
}

/// Executable form of the authorization policy.
#[verifier::when_used_as_spec(spec_can_create)]
pub fn can_create(caller: Role, target: Role) -> (allowed: bool)
    ensures
        allowed == spec_can_create(caller, target),
{
    match (caller, target) {
        (Role::SuperAdmin, Role::Admin) => true,
        (Role::SuperAdmin, Role::Police) => true,
        _ => false,
    }
}

/// Numeric code under which a role travels inside a session token.
pub open spec fn spec_role_code(r: Role) -> u64 {
    match r {
        Role::User => 0,
        Role::Police => 1,
        Role::Admin => 2,
        Role::SuperAdmin => 3,
    }
}

/// Role denoted by a numeric code; codes above 3 never appear in a token
/// that parses, so they fall back to the least privileged role.
pub open spec fn spec_role_of_code(c: u64) -> Role {
    if c == 1 {
        Role::Police
    } else if c == 2 {
        Role::Admin
    } else if c == 3 {
        Role::SuperAdmin
    } else {
        Role::User
    }
}

#[verifier::when_used_as_spec(spec_role_code)]
pub fn role_code(r: Role) -> (c: u64)
    ensures
        c == spec_role_code(r),
{
    match r {
        Role::User => 0,
        Role::Police => 1,
        Role::Admin => 2,
        Role::SuperAdmin => 3,
    }
}

#[verifier::when_used_as_spec(spec_role_of_code)]
pub fn role_of_code(c: u64) -> (r: Role)
    ensures
        r == spec_role_of_code(c),
{
    if c == 1 {
        Role::Police
    } else if c == 2 {
        Role::Admin
    } else if c == 3 {
        Role::SuperAdmin
    } else {
        Role::User
    }
}

/// Round trip between a role and its numeric code.
pub proof fn lemma_role_code_round_trip(r: Role)
    ensures
        spec_role_of_code(spec_role_code(r)) == r,
{
}

/// Wire name of a role, as it appears in responses.
pub fn role_name(r: Role) -> (s: &'static str)
    ensures
        r == Role::User ==> s@ == "user"@,
        r == Role::Police ==> s@ == "police"@,
        r == Role::Admin ==> s@ == "admin"@,
        r == Role::SuperAdmin ==> s@ == "super_admin"@,
{
    match r {
        Role::User => "user",
        Role::Police => "police",
        Role::Admin => "admin",
        Role::SuperAdmin => "super_admin",
    }
}

} // verus!
