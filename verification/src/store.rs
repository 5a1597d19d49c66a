//! In-memory repository of user records and verification artifacts.
//!
//! It keeps emails and user identifiers unique, artifact token values
//! unique, at most one live artifact per user and purpose, and consumption
//! of an artifact exactly-once: marking an artifact consumed is a single
//! conditional update, so of two consume calls with the same token value
//! exactly one succeeds.

use vstd::prelude::*;
use vstd::pervasive::VecAdditionalExecFns;
use crate::errors::AuthError;
use crate::hasher::spec_digest_ok;
use crate::user::User;

verus! {

/// What a verification artifact is for.
#[derive(Clone, Copy, Debug, PartialEq, Eq, Structural)]
pub enum Purpose {
    EmailVerification,
    PasswordReset,
}

/// Why consuming an artifact failed.
#[derive(Clone, Copy, Debug, PartialEq, Eq, Structural)]
pub enum ConsumeError {
    NotFound,
    AlreadyUsed,
    Expired,
}

/// A single-use, expiring token tied to one user and one purpose.
#[derive(Clone, Copy, Debug, PartialEq, Eq, Structural)]
pub struct Artifact {
    pub token_value: u64,
    pub user_id: u64,
    pub purpose: Purpose,
    /// The artifact is invalid at this instant and after.
    pub expires_at: u64,
    pub consumed: bool,
}

/// `x` with its consumed flag set.
pub open spec fn spec_mark_consumed(x: Artifact) -> Artifact {
    Artifact { consumed: true, ..x }
}

/// A fresh artifact for `user_id`/`purpose` invalidates `x`.
pub open spec fn spec_superseded(x: Artifact, user_id: u64, purpose: Purpose) -> bool {
    x.user_id == user_id && x.purpose == purpose && !x.consumed
}

/// Some artifact in `arts` carries token value `v`.
pub open spec fn spec_has_value(arts: Seq<Artifact>, v: u64) -> bool {
    exists|i: int| 0 <= i < arts.len() && (#[trigger] arts[i]).token_value == v
}

/// Index of the artifact carrying `v`; meaningful only when one exists.
pub open spec fn spec_value_idx(arts: Seq<Artifact>, v: u64) -> int {
    choose|i: int| 0 <= i < arts.len() && (#[trigger] arts[i]).token_value == v
}

/// The artifact carrying `v`; meaningful only when one exists.
pub open spec fn spec_artifact_by_value(arts: Seq<Artifact>, v: u64) -> Artifact {
    arts[spec_value_idx(arts, v)]
}

/// Token values are pairwise distinct.
pub open spec fn spec_values_unique(arts: Seq<Artifact>) -> bool {
    forall|i: int, j: int|
        0 <= i < arts.len() && 0 <= j < arts.len() && i != j ==> (#[trigger] arts[i]).token_value
            != (#[trigger] arts[j]).token_value
}

/// At most one unconsumed artifact per user and purpose.
pub open spec fn spec_one_live_per_pair(arts: Seq<Artifact>) -> bool {
    forall|i: int, j: int|
        0 <= i < arts.len() && 0 <= j < arts.len() && i != j && (#[trigger] arts[i]).user_id
            == (#[trigger] arts[j]).user_id && arts[i].purpose == arts[j].purpose ==> arts[i].consumed
            || arts[j].consumed
}

/// Outcome of consuming token value `v` for `purpose` at instant `now`:
/// absent values fail `NotFound`, consumed ones `AlreadyUsed`, expired ones
/// `Expired`, and otherwise the owning user is returned.
pub open spec fn spec_consume_result(arts: Seq<Artifact>, v: u64, purpose: Purpose, now: u64) -> Result<u64, ConsumeError> {
    if !spec_has_value(arts, v) || spec_artifact_by_value(arts, v).purpose != purpose {
        Err(ConsumeError::NotFound)
    } else {
        let a = spec_artifact_by_value(arts, v);
        if a.consumed {
            Err(ConsumeError::AlreadyUsed)
        } else if now >= a.expires_at {
            Err(ConsumeError::Expired)
        } else {
            Ok(a.user_id)
        }
    }
}

/// The artifacts after consuming `v`: unchanged unless consumption
/// succeeds, in which case exactly that artifact is marked consumed.
pub open spec fn spec_consume_next(arts: Seq<Artifact>, v: u64, purpose: Purpose, now: u64) -> Seq<Artifact> {
    if spec_consume_result(arts, v, purpose, now) is Ok {
        arts.update(spec_value_idx(arts, v), spec_mark_consumed(spec_artifact_by_value(arts, v)))
    } else {
        arts
    }
}

/// An artifact can be consumed exactly once: once a consume call has
/// succeeded, any later consume call with the same token value observes
/// `AlreadyUsed`, whatever instant it runs at.
pub proof fn lemma_consume_exactly_once(arts: Seq<Artifact>, v: u64, purpose: Purpose, now: u64, now2: u64)
    requires
        spec_values_unique(arts),
        spec_consume_result(arts, v, purpose, now) is Ok,
    ensures
        spec_consume_result(spec_consume_next(arts, v, purpose, now), v, purpose, now2) == Err::<u64, ConsumeError>(ConsumeError::AlreadyUsed),
{
    let idx = spec_value_idx(arts, v);
    let next = spec_consume_next(arts, v, purpose, now);
    assert(0 <= idx < arts.len() && arts[idx].token_value == v);
    assert(next[idx].token_value == v);
    assert(spec_has_value(next, v));
    let k = spec_value_idx(next, v);
    assert(0 <= k < next.len() && next[k].token_value == v);
    if k != idx {
        assert(arts[k].token_value == next[k].token_value);
        assert(false);
    }
    assert(next[idx].consumed);
}

/// Some user in `users` carries identifier `id`.
pub open spec fn spec_users_have_id(users: Seq<User>, id: u64) -> bool {
    exists|i: int| 0 <= i < users.len() && (#[trigger] users[i]).id == id
}

/// Some user in `users` carries email `email`.
pub open spec fn spec_users_have_email(users: Seq<User>, email: Seq<char>) -> bool {
    exists|i: int| 0 <= i < users.len() && (#[trigger] users[i]).email@ == email
}

/// Index of the user with identifier `id`; meaningful only when one exists.
pub open spec fn spec_users_idx_of(users: Seq<User>, id: u64) -> int {
    choose|i: int| 0 <= i < users.len() && (#[trigger] users[i]).id == id
}

/// Index of the user with email `email`; meaningful only when one exists.
pub open spec fn spec_users_idx_of_email(users: Seq<User>, email: Seq<char>) -> int {
    choose|i: int| 0 <= i < users.len() && (#[trigger] users[i]).email@ == email
}

/// In-memory user and artifact repository.
pub struct UserStore {
    pub users: Vec<User>,
    pub artifacts: Vec<Artifact>,
}

impl UserStore {
    /// Some user carries identifier `id`.
    pub open spec fn spec_has_user(self, id: u64) -> bool {
        spec_users_have_id(self.users@, id)
    }

    /// Some user carries email `email`.
    pub open spec fn spec_has_email(self, email: Seq<char>) -> bool {
        spec_users_have_email(self.users@, email)
    }

    /// Index of the user with identifier `id`; meaningful only when one
    /// exists.
    pub open spec fn spec_user_idx(self, id: u64) -> int {
        spec_users_idx_of(self.users@, id)
    }

    /// The user with identifier `id`; meaningful only when one exists.
    pub open spec fn spec_user_by_id(self, id: u64) -> User {
        self.users@[spec_users_idx_of(self.users@, id)]
    }

    /// The user with email `email`; meaningful only when one exists.
    pub open spec fn spec_user_by_email(self, email: Seq<char>) -> User {
        self.users@[spec_users_idx_of_email(self.users@, email)]
    }

    /// Repository invariant: unique emails and identifiers, non-empty
    /// password hashes, unique artifact token values, at most one live
    /// artifact per user and purpose, and every artifact owned by an
    /// existing user.
    pub open spec fn wf(self) -> bool {
        &&& forall|i: int, j: int|
            0 <= i < self.users@.len() && 0 <= j < self.users@.len() && i != j
                ==> (#[trigger] self.users@[i]).email@ != (#[trigger] self.users@[j]).email@
        &&& forall|i: int, j: int|
            0 <= i < self.users@.len() && 0 <= j < self.users@.len() && i != j
                ==> (#[trigger] self.users@[i]).id != (#[trigger] self.users@[j]).id
        &&& forall|i: int|
            0 <= i < self.users@.len() ==> (#[trigger] self.users@[i]).password_hash@.len() > 0
                && spec_digest_ok(self.users@[i].password_hash@)
        &&& spec_values_unique(self.artifacts@)
        &&& spec_one_live_per_pair(self.artifacts@)
        &&& forall|i: int|
            0 <= i < self.artifacts@.len() ==> self.spec_has_user(
                (#[trigger] self.artifacts@[i]).user_id,
            )
    }

    /// An empty repository.
    pub fn new() -> (s: Self)
        ensures
            s.wf(),
            s.users@.len() == 0,
            s.artifacts@.len() == 0,
    {
        UserStore { users: Vec::new(), artifacts: Vec::new() }
    }

    /// Looks a user up by email.
    pub fn find_by_email(&self, email: &str) -> (r: Option<User>)
        requires
            self.wf(),
        ensures
            r is Some <==> self.spec_has_email(email@),
            r matches Some(u) ==> u == self.spec_user_by_email(email@),
    {
        let e = email.to_owned();
        let mut i: usize = 0;
        while i < self.users.len()
            invariant
                self.wf(),
                0 <= i <= self.users@.len(),
                e@ == email@,
                forall|k: int| 0 <= k < i ==> (#[trigger] self.users@[k]).email@ != email@,
            decreases self.users@.len() - i,
        {
            if self.users[i].email == e {
                let u = self.users[i].clone();
                proof {
                    let w = choose|k: int|
                        0 <= k < self.users@.len() && (#[trigger] self.users@[k]).email@ == email@;
                    assert(self.users@[w].email@ == email@);
                    if w != i as int {
                        assert(self.users@[w].email@ != self.users@[i as int].email@);
                        assert(false);
                    }
                }
                return Some(u);
            }
            i = i + 1;
        }
        None
    }

    /// Looks a user up by identifier.
    pub fn find_by_id(&self, id: u64) -> (r: Option<User>)
        requires
            self.wf(),
        ensures
            r is Some <==> self.spec_has_user(id),
            r matches Some(u) ==> u == self.spec_user_by_id(id),
    {
        let mut i: usize = 0;
        while i < self.users.len()
            invariant
                self.wf(),
                0 <= i <= self.users@.len(),
                forall|k: int| 0 <= k < i ==> (#[trigger] self.users@[k]).id != id,
            decreases self.users@.len() - i,
        {
            if self.users[i].id == id {
                let u = self.users[i].clone();
                proof {
                    let w = self.spec_user_idx(id);
                    assert(self.users@[w].id == id);
                    if w != i as int {
                        assert(false);
                    }
                }
                return Some(u);
            }
            i = i + 1;
        }
        None
    }

    /// Inserts a new user; fails on an email already registered, or on an
    /// identifier collision, which callers surface as an internal fault.
    pub fn create_user(&mut self, user: User) -> (r: Result<(), AuthError>)
        requires
            old(self).wf(),
            user.password_hash@.len() > 0,
            spec_digest_ok(user.password_hash@),
        ensures
            final(self).wf(),
            r == Err::<(), AuthError>(AuthError::EmailAlreadyExists) <==> old(self).spec_has_email(user.email@),
            r == Err::<(), AuthError>(AuthError::Internal) <==> !old(self).spec_has_email(user.email@)
                && old(self).spec_has_user(user.id),
            r is Ok <==> !old(self).spec_has_email(user.email@) && !old(self).spec_has_user(user.id),
            r is Ok ==> final(self).users@ == old(self).users@.push(user)
                && final(self).artifacts@ == old(self).artifacts@,
            r is Err ==> final(self).users@ == old(self).users@
                && final(self).artifacts@ == old(self).artifacts@,
    {
        let mut i: usize = 0;
        while i < self.users.len()
            invariant
                self.wf(),
                *self == *old(self),
                0 <= i <= self.users@.len(),
                forall|k: int| 0 <= k < i ==> (#[trigger] self.users@[k]).email@ != user.email@,
            decreases self.users@.len() - i,
        {
            if self.users[i].email == user.email {
                return Err(AuthError::EmailAlreadyExists);
            }
            i = i + 1;
        }
        let mut j: usize = 0;
        while j < self.users.len()
            invariant
                self.wf(),
                *self == *old(self),
                0 <= j <= self.users@.len(),
                forall|k: int| 0 <= k < self.users@.len() ==> (#[trigger] self.users@[k]).email@ != user.email@,
                forall|k: int| 0 <= k < j ==> (#[trigger] self.users@[k]).id != user.id,
            decreases self.users@.len() - j,
        {
            if self.users[j].id == user.id {
                return Err(AuthError::Internal);
            }
            j = j + 1;
        }
        let ghost pre = *self;
        self.users.push(user);
        proof {
            assert forall|k: int|
                0 <= k < self.artifacts@.len() implies self.spec_has_user(
                (#[trigger] self.artifacts@[k]).user_id,
            ) by {
                let w = choose|i2: int|
                    0 <= i2 < pre.users@.len() && (#[trigger] pre.users@[i2]).id
                        == pre.artifacts@[k].user_id;
                assert(self.users@[w].id == self.artifacts@[k].user_id);
            }
        }
        Ok(())
    }

    /// Replaces the stored record whose identifier matches `user.id`.
    /// The caller may change every field but the identifier; a change of
    /// email to one held by another user is rejected.
    pub fn update_user(&mut self, user: User) -> (r: Result<(), AuthError>)
        requires
            old(self).wf(),
            user.password_hash@.len() > 0,
            spec_digest_ok(user.password_hash@),
        ensures
            final(self).wf(),
            r == Err::<(), AuthError>(AuthError::UserNotFound) <==> !old(self).spec_has_user(user.id),
            r == Err::<(), AuthError>(AuthError::EmailAlreadyExists) <==> old(self).spec_has_user(user.id)
                && (exists|k: int|
                    0 <= k < old(self).users@.len() && (#[trigger] old(self).users@[k]).id != user.id
                        && old(self).users@[k].email@ == user.email@),
            r is Ok <==> old(self).spec_has_user(user.id) && (forall|k: int|
                0 <= k < old(self).users@.len() ==> ((#[trigger] old(self).users@[k]).id != user.id
                    ==> old(self).users@[k].email@ != user.email@)),
            r is Ok ==> final(self).users@ == old(self).users@.update(
                old(self).spec_user_idx(user.id),
                user,
            ) && final(self).artifacts@ == old(self).artifacts@,
            r is Err ==> final(self).users@ == old(self).users@
                && final(self).artifacts@ == old(self).artifacts@,
    {
        let n = self.users.len();
        let mut i: usize = 0;
        let mut found: bool = false;
        let mut idx: usize = 0;
        while i < n && !found
            invariant
                self.wf(),
                *self == *old(self),
                n == self.users@.len(),
                0 <= i <= n,
                !found ==> forall|k: int| 0 <= k < i ==> (#[trigger] self.users@[k]).id != user.id,
                found ==> 0 <= idx < n && self.users@[idx as int].id == user.id,
            decreases n - i + (if found { 0int } else { 1int }),
        {
            if self.users[i].id == user.id {
                found = true;
                idx = i;
            } else {
                i = i + 1;
            }
        }
        if !found {
            return Err(AuthError::UserNotFound);
        }
        let mut k: usize = 0;
        while k < n
            invariant
                self.wf(),
                *self == *old(self),
                n == self.users@.len(),
                0 <= k <= n,
                0 <= idx < n,
                self.users@[idx as int].id == user.id,
                forall|t: int|
                    0 <= t < k && t != idx ==> (#[trigger] self.users@[t]).email@ != user.email@,
            decreases n - k,
        {
            if k != idx && self.users[k].email == user.email {
                return Err(AuthError::EmailAlreadyExists);
            }
            k = k + 1;
        }
        let ghost pre = *self;
        self.users.set(idx, user);
        proof {
            assert(pre.spec_user_idx(user.id) == idx as int) by {
                let w = pre.spec_user_idx(user.id);
                assert(pre.users@[w].id == user.id);
                if w != idx as int {
                    assert(false);
                }
            }
            assert forall|t: int|
                0 <= t < self.artifacts@.len() implies self.spec_has_user(
                (#[trigger] self.artifacts@[t]).user_id,
            ) by {
                let w = choose|i2: int|
                    0 <= i2 < pre.users@.len() && (#[trigger] pre.users@[i2]).id
                        == pre.artifacts@[t].user_id;
                assert(self.users@[w].id == self.artifacts@[t].user_id);
            }
        }
        Ok(())
    }

    /// Stores a fresh artifact, superseding any live artifact of the same
    /// user and purpose by marking it consumed.  A token-value collision
    /// with any stored artifact is rejected as an internal fault.
    pub fn put_artifact(&mut self, a: Artifact) -> (r: Result<(), AuthError>)
        requires
            old(self).wf(),
            old(self).spec_has_user(a.user_id),
            !a.consumed,
        ensures
            final(self).wf(),
            r is Ok <==> !spec_has_value(old(self).artifacts@, a.token_value),
            r is Err ==> r == Err::<(), AuthError>(AuthError::Internal)
                && final(self).users@ == old(self).users@
                && final(self).artifacts@ == old(self).artifacts@,
            r is Ok ==> final(self).users@ == old(self).users@
                && final(self).artifacts@.len() == old(self).artifacts@.len() + 1
                && final(self).artifacts@.last() == a
                && forall|k: int|
                    0 <= k < old(self).artifacts@.len() ==> final(self).artifacts@[k] == (
                    if spec_superseded(#[trigger] old(self).artifacts@[k], a.user_id, a.purpose) {
                        spec_mark_consumed(old(self).artifacts@[k])
                    } else {
                        old(self).artifacts@[k]
                    }),
    {
        let n = self.artifacts.len();
        let mut i: usize = 0;
        while i < n
            invariant
                self.wf(),
                *self == *old(self),
                n == self.artifacts@.len(),
                0 <= i <= n,
                forall|k: int|
                    0 <= k < i ==> (#[trigger] self.artifacts@[k]).token_value != a.token_value,
            decreases n - i,
        {
            if self.artifacts[i].token_value == a.token_value {
                return Err(AuthError::Internal);
            }
            i = i + 1;
        }
        let ghost pre = *self;
        let mut j: usize = 0;
        while j < n
            invariant
                n == self.artifacts@.len(),
                n == pre.artifacts@.len(),
                0 <= j <= n,
                self.users@ == pre.users@,
                pre.wf(),
                forall|k: int|
                    0 <= k < j ==> self.artifacts@[k] == (
                    if spec_superseded(#[trigger] pre.artifacts@[k], a.user_id, a.purpose) {
                        spec_mark_consumed(pre.artifacts@[k])
                    } else {
                        pre.artifacts@[k]
                    }),
                forall|k: int| j <= k < n ==> self.artifacts@[k] == pre.artifacts@[k],
            decreases n - j,
        {
            let x = self.artifacts[j];
            if x.user_id == a.user_id && x.purpose == a.purpose && !x.consumed {
                self.artifacts.set(j, Artifact { consumed: true, ..x });
            }
            j = j + 1;
        }
        self.artifacts.push(a);
        proof {
            let post = *self;
            assert(forall|k: int|
                0 <= k < n ==> (#[trigger] post.artifacts@[k]).token_value
                    == pre.artifacts@[k].token_value);
            assert(forall|k: int|
                0 <= k < n ==> ((#[trigger] post.artifacts@[k]).user_id == pre.artifacts@[k].user_id
                    && post.artifacts@[k].purpose == pre.artifacts@[k].purpose));
            assert(forall|k: int|
                0 <= k < n && spec_superseded(#[trigger] pre.artifacts@[k], a.user_id, a.purpose)
                    ==> post.artifacts@[k].consumed);
            assert forall|t: int|
                0 <= t < post.artifacts@.len() implies post.spec_has_user(
                (#[trigger] post.artifacts@[t]).user_id,
            ) by {
                if t < n {
                    let w = choose|i2: int|
                        0 <= i2 < pre.users@.len() && (#[trigger] pre.users@[i2]).id
                            == pre.artifacts@[t].user_id;
                    assert(post.users@[w].id == post.artifacts@[t].user_id);
                } else {
                    let w = choose|i2: int|
                        0 <= i2 < pre.users@.len() && (#[trigger] pre.users@[i2]).id == a.user_id;
                    assert(post.users@[w].id == post.artifacts@[t].user_id);
                }
            }
        }
        Ok(())
    }

    /// Looks an artifact up by token value.
    pub fn get_artifact(&self, v: u64) -> (r: Option<Artifact>)
        requires
            self.wf(),
        ensures
            r is Some <==> spec_has_value(self.artifacts@, v),
            r matches Some(a) ==> a == spec_artifact_by_value(self.artifacts@, v),
    {
        let mut i: usize = 0;
        while i < self.artifacts.len()
            invariant
                self.wf(),
                0 <= i <= self.artifacts@.len(),
                forall|k: int| 0 <= k < i ==> (#[trigger] self.artifacts@[k]).token_value != v,
            decreases self.artifacts@.len() - i,
        {
            if self.artifacts[i].token_value == v {
                proof {
                    let w = spec_value_idx(self.artifacts@, v);
                    assert(self.artifacts@[w].token_value == v);
                    if w != i as int {
                        assert(false);
                    }
                }
                return Some(self.artifacts[i]);
            }
            i = i + 1;
        }
        None
    }

    /// Atomically consumes the artifact carrying `v` for `purpose` at
    /// instant `now`: of two calls with the same token value at most one
    /// ever returns the owning user.
    pub fn consume_artifact(&mut self, v: u64, purpose: Purpose, now: u64) -> (r: Result<u64, ConsumeError>)
        requires
            old(self).wf(),
        ensures
            final(self).wf(),
            r == spec_consume_result(old(self).artifacts@, v, purpose, now),
            final(self).users@ == old(self).users@,
            final(self).artifacts@ == spec_consume_next(old(self).artifacts@, v, purpose, now),
            r is Ok ==> old(self).spec_has_user(r.unwrap()) && final(self).spec_has_user(r.unwrap()),
    {
        let n = self.artifacts.len();
        let mut i: usize = 0;
        while i < n
            invariant
                self.wf(),
                *self == *old(self),
                n == self.artifacts@.len(),
                0 <= i <= n,
                forall|k: int| 0 <= k < i ==> (#[trigger] self.artifacts@[k]).token_value != v,
            decreases n - i,
        {
            if self.artifacts[i].token_value == v {
                let a = self.artifacts[i];
                proof {
                    let w = spec_value_idx(self.artifacts@, v);
                    assert(self.artifacts@[w].token_value == v);
                    if w != i as int {
                        assert(false);
                    }
                }
                if a.purpose != purpose {
                    return Err(ConsumeError::NotFound);
                }
                if a.consumed {
                    return Err(ConsumeError::AlreadyUsed);
                }
                if now >= a.expires_at {
                    return Err(ConsumeError::Expired);
                }
                let ghost pre = *self;
                self.artifacts.set(i, Artifact { consumed: true, ..a });
                proof {
                    assert(self.artifacts@ =~= spec_consume_next(pre.artifacts@, v, purpose, now));
                    assert forall|t: int|
                        0 <= t < self.artifacts@.len() implies self.spec_has_user(
                        (#[trigger] self.artifacts@[t]).user_id,
                    ) by {
                        let w2 = choose|i2: int|
                            0 <= i2 < pre.users@.len() && (#[trigger] pre.users@[i2]).id
                                == pre.artifacts@[t].user_id;
                        assert(self.users@[w2].id == self.artifacts@[t].user_id);
                    }
                }
                return Ok(a.user_id);
            }
            i = i + 1;
        }
        Err(ConsumeError::NotFound)
    }
}

} // verus!
