//! The use cases: sign-in, disabling by id, and what the outcome of a
//! storage call means to the caller.

use vstd::prelude::*;
use vstd::utf8::encode_utf8;
use crate::bindings::{after_unbind, unbind_outcome, Pair};
use crate::credential::{argon2_encoded, hash_password};
use crate::entities::{Binding, Entity, Stamp, User, UserForCreation};
use crate::entity_table::{disable_outcome, law_disable_twice, rows_after_create, rows_after_disable};
use crate::errors::{to_use_case_error, use_case_error, AccessModelError, TokenError, UserUCError};
use crate::store::RbacStore;
use crate::token::{expiry_of, signature, validation, Token, TokenService};
use crate::user_repo::{name_taken, password_match, user_of};

verus! {

/// A storage backend that can switch a permission off.
pub trait DisablePermission: Sized {
    /// What the backend needs to hold between calls.
    spec fn valid(&self) -> bool;

    /// How the backend after a disable relates to the backend before it and
    /// to what the call reported.
    spec fn disabled_from(
        &self,
        before: &Self,
        permission_id: i32,
        outcome: Result<(), AccessModelError>,
    ) -> bool;

    fn disable_permission_in_storage(&mut self, permission_id: i32) -> (r: Result<(), AccessModelError>)
        requires
            old(self).valid(),
        ensures
            final(self).valid(),
            final(self).disabled_from(old(self), permission_id, r),
    ;
}

/// What a disable reports to the caller: a missing row and an unreachable
/// backend keep their kind, every other storage error is fatal.
pub open spec fn disable_result_of(outcome: Result<(), AccessModelError>) -> Result<(), UserUCError> {
    match outcome {
        Ok(_) => Ok(()),
        Err(AccessModelError::NotFoundError) => Err(UserUCError::NotFoundError),
        Err(AccessModelError::TemporaryError) => Err(UserUCError::TemporaryError),
        Err(_) => Err(UserUCError::FatalError),
    }
}

/// What the storage outcome of a disable means to the caller.
pub fn disable_result(outcome: Result<(), AccessModelError>) -> (r: Result<(), UserUCError>)
    ensures
        r == disable_result_of(outcome),
{
    match outcome {
        Ok(_) => Ok(()),
        Err(AccessModelError::NotFoundError) => Err(UserUCError::NotFoundError),
        Err(AccessModelError::TemporaryError) => Err(UserUCError::TemporaryError),
        Err(_) => Err(UserUCError::FatalError),
    }
}

/// Switches a permission off in the backend and reports in use-case terms.
pub fn disable_permission_by_id<M: DisablePermission>(model: &mut M, permission_id: i32) -> (r: Result<
    (),
    UserUCError,
>)
    requires
        old(model).valid(),
    ensures
        final(model).valid(),
        exists|outcome: Result<(), AccessModelError>|
            final(model).disabled_from(old(model), permission_id, outcome) && r == disable_result_of(
                outcome,
            ),
{
    let outcome = model.disable_permission_in_storage(permission_id);
    disable_result(outcome)
}

/// Switches a user off at `now`. The bindings of the user stay as they are.
pub fn disable_user_by_id(store: &mut RbacStore, user_id: i32, now: i64) -> (r: Result<(), UserUCError>)
    requires
        old(store).wf(),
    ensures
        final(store).wf(),
        r == disable_result_of(disable_outcome(old(store).users.rows(), user_id)),
        final(store).users.rows() == rows_after_disable(old(store).users.rows(), user_id, now),
        final(store).users.hashes() == old(store).users.hashes(),
        final(store).groups == old(store).groups,
        final(store).permissions == old(store).permissions,
        final(store).group_permissions == old(store).group_permissions,
        final(store).group_members == old(store).group_members,
{
    disable_result(store.users.remove_user_by_id(user_id, now))
}

/// Switches a group off at `now`. The bindings of the group stay as they
/// are.
pub fn disable_group_by_id(store: &mut RbacStore, group_id: i32, now: i64) -> (r: Result<(), UserUCError>)
    requires
        old(store).wf(),
    ensures
        final(store).wf(),
        r == disable_result_of(disable_outcome(old(store).groups@, group_id)),
        final(store).groups@ == rows_after_disable(old(store).groups@, group_id, now),
        final(store).users == old(store).users,
        final(store).permissions == old(store).permissions,
        final(store).group_permissions == old(store).group_permissions,
        final(store).group_members == old(store).group_members,
{
    disable_result(store.groups.disable_by_id(group_id, now))
}

/// The status for a use-case error.
pub open spec fn error_status_of(e: UserUCError) -> u16 {
    match e {
        UserUCError::NotFoundError => 404,
        UserUCError::ConflictError => 409,
        UserUCError::TemporaryError => 503,
        UserUCError::FatalError => 500,
        UserUCError::ForbiddenError => 403,
    }
}

pub fn error_status(e: UserUCError) -> (status: u16)
    ensures
        status == error_status_of(e),
{
    match e {
        UserUCError::NotFoundError => 404,
        UserUCError::ConflictError => 409,
        UserUCError::TemporaryError => 503,
        UserUCError::FatalError => 500,
        UserUCError::ForbiddenError => 403,
    }
}

/// The status that answers a disable: 204 for a row that was switched off
/// and for one that does not exist; a failing backend shows as it is.
pub open spec fn disable_status_of(r: Result<(), UserUCError>) -> u16 {
    match r {
        Ok(_) => 204,
        Err(UserUCError::NotFoundError) => 204,
        Err(e) => error_status_of(e),
    }
}

pub fn disable_status(r: Result<(), UserUCError>) -> (status: u16)
    ensures
        status == disable_status_of(r),
{
    match r {
        Ok(_) => 204,
        Err(UserUCError::NotFoundError) => 204,
        Err(e) => error_status(e),
    }
}

/// The status that answers a read: 200 with the row, else the error's.
pub fn find_status<T>(r: &Result<T, UserUCError>) -> (status: u16)
    ensures
        status == (match *r {
            Ok(_) => 200,
            Err(e) => error_status_of(e),
        }),
{
    match r {
        Ok(_) => 200,
        Err(e) => error_status(*e),
    }
}

/// The status that answers a create: 201 with the new row, else the
/// error's.
pub fn create_status<T>(r: &Result<T, UserUCError>) -> (status: u16)
    ensures
        status == (match *r {
            Ok(_) => 201,
            Err(e) => error_status_of(e),
        }),
{
    match r {
        Ok(_) => 201,
        Err(e) => error_status(*e),
    }
}

/// What a storage call reports to the caller of a read or a create.
pub fn storage_result<T>(outcome: Result<T, AccessModelError>) -> (r: Result<T, UserUCError>)
    ensures
        r == (match outcome {
            Ok(v) => Ok::<T, UserUCError>(v),
            Err(e) => Err::<T, UserUCError>(use_case_error(e)),
        }),
{
    match outcome {
        Ok(v) => Ok(v),
        Err(e) => Err(to_use_case_error(e)),
    }
}

/// What an unbind reports to the caller: a pair that was never bound is no
/// error but a binding that is not there.
pub open spec fn unbind_result_of(outcome: Result<Binding, AccessModelError>) -> Result<
    Option<Binding>,
    UserUCError,
> {
    match outcome {
        Ok(b) => Ok(Some(b)),
        Err(AccessModelError::NotFoundError) => Ok(None),
        Err(e) => Err(use_case_error(e)),
    }
}

pub fn unbind_result(outcome: Result<Binding, AccessModelError>) -> (r: Result<
    Option<Binding>,
    UserUCError,
>)
    ensures
        r == unbind_result_of(outcome),
{
    match outcome {
        Ok(b) => Ok(Some(b)),
        Err(AccessModelError::NotFoundError) => Ok(None),
        Err(e) => Err(to_use_case_error(e)),
    }
}

/// Withdraws a permission from a group. A pair that was never bound is no
/// error: the answer is `Ok(None)` and nothing changes.
pub fn unbind_permission_from_group(store: &mut RbacStore, group_id: i32, permission_id: i32, now: i64) -> (r:
    Result<Option<Binding>, UserUCError>)
    requires
        old(store).wf(),
    ensures
        final(store).wf(),
        r == unbind_result_of(unbind_outcome(old(store).group_permissions@, (group_id, permission_id), now)),
        final(store).group_permissions@ == after_unbind(
            old(store).group_permissions@,
            (group_id, permission_id),
            now,
        ),
        final(store).group_permissions.row_count() == old(store).group_permissions.row_count(),
        final(store).users == old(store).users,
        final(store).groups == old(store).groups,
        final(store).permissions == old(store).permissions,
        final(store).group_members == old(store).group_members,
{
    unbind_result(store.unbind_permission_with_group(group_id, permission_id, now))
}

/// Ends a user's membership in a group. A pair that was never bound is no
/// error: the answer is `Ok(None)` and nothing changes.
pub fn unbind_member_from_group(store: &mut RbacStore, group_id: i32, user_id: i32, now: i64) -> (r: Result<
    Option<Binding>,
    UserUCError,
>)
    requires
        old(store).wf(),
    ensures
        final(store).wf(),
        r == unbind_result_of(unbind_outcome(old(store).group_members@, (group_id, user_id), now)),
        final(store).group_members@ == after_unbind(old(store).group_members@, (group_id, user_id), now),
        final(store).group_members.row_count() == old(store).group_members.row_count(),
        final(store).users == old(store).users,
        final(store).groups == old(store).groups,
        final(store).permissions == old(store).permissions,
        final(store).group_permissions == old(store).group_permissions,
{
    unbind_result(store.unbind_member_with_group(group_id, user_id, now))
}

/// Registers a user at `now` under a password, which is stored as a salted
/// hash that accepts it: the new user can sign in with it. `FatalError` exactly when the password cannot be hashed under this
/// salt; else `ConflictError` exactly when the username is taken; else
/// `FatalError` exactly when the ids have run out. On an error nothing
/// changes.
pub fn sign_up(store: &mut RbacStore, username: String, password: &str, salt: &[u8], now: i64) -> (r: Result<
    User,
    UserUCError,
>)
    requires
        old(store).wf(),
    ensures
        final(store).wf(),
        final(store).groups == old(store).groups,
        final(store).permissions == old(store).permissions,
        final(store).group_permissions == old(store).group_permissions,
        final(store).group_members == old(store).group_members,
        match argon2_encoded(encode_utf8(password@), salt@) {
            None => r == Err::<User, UserUCError>(UserUCError::FatalError) && final(store).users == old(
                store,
            ).users,
            Some(encoded) => if name_taken(old(store).users.rows(), username@) {
                r == Err::<User, UserUCError>(UserUCError::ConflictError) && final(store).users.rows()
                    == old(store).users.rows() && final(store).users.hashes() == old(
                    store,
                ).users.hashes()
            } else if old(store).users.rows().len() >= i32::MAX {
                r == Err::<User, UserUCError>(UserUCError::FatalError) && final(store).users.rows()
                    == old(store).users.rows() && final(store).users.hashes() == old(
                    store,
                ).users.hashes()
            } else {
                &&& r == Ok::<User, UserUCError>(user_of(final(store).users.rows().last()))
                &&& final(store).users.rows() == rows_after_create(old(store).users.rows(), username, now)
                &&& final(store).users.hashes().len() == old(store).users.hashes().len() + 1
                &&& final(store).users.hashes().last()@ == encoded
                &&& final(store).users.hashes().drop_last() == old(store).users.hashes()
                &&& password_match(
                    final(store).users.rows(),
                    final(store).users.hashes(),
                    final(store).users.rows().len() - 1,
                    username@,
                    encode_utf8(password@),
                )
            },
        },
{
    match hash_password(password, salt) {
        Err(_) => Err(UserUCError::FatalError),
        Ok(password_hash) => {
            let ghost before = store.users.hashes();
            let outcome = store.users.create_user(UserForCreation { username, password_hash }, now);
            proof {
                if outcome.is_ok() {
                    assert(store.users.hashes().drop_last() =~= before);
                }
            }
            storage_result(outcome)
        },
    }
}

/// What `sign_in` owes: a token for the enabled user with this username
/// whose stored hash accepts the password, carrying the user's current roles and signed under `key`; or
/// `ForbiddenError` where no such user exists.
pub open spec fn signed_in(
    store: &RbacStore,
    key: Seq<u8>,
    username: Seq<char>,
    password: Seq<char>,
    now: i64,
    ttl: i64,
    r: Result<Token, UserUCError>,
) -> bool {
    match r {
        Ok(t) => {
            &&& password_match(
                store.users.rows(),
                store.users.hashes(),
                t.claims.user_id - 1,
                username,
                encode_utf8(password),
            )
            &&& t.claims.roles@ == store.roles(t.claims.user_id)
            &&& t.claims.issued_at == now
            &&& t.claims.expiry == expiry_of(now, ttl)
            &&& t.tag@ == signature(key, t.claims)
        },
        Err(e) => e == UserUCError::ForbiddenError && forall|i: int|
            !password_match(store.users.rows(), store.users.hashes(), i, username, encode_utf8(password)),
    }
}

/// Signs a user in at `now`: the credentials are verified against the
/// store, and the token issued carries the user's id and current roles and
/// expires `ttl` later. Every failure of verification is `ForbiddenError`: an
/// unknown username, a wrong password and a disabled user cannot be told
/// apart.
pub fn sign_in(
    store: &RbacStore,
    service: &TokenService,
    username: &str,
    password: &str,
    now: i64,
    ttl: i64,
) -> (r: Result<Token, UserUCError>)
    requires
        store.wf(),
    ensures
        signed_in(store, service.key(), username@, password@, now, ttl, r),
{
    match store.users.verify(username, password) {
        Ok(user_id) => {
            let roles = store.roles_of(user_id);
            Ok(service.issue(user_id, roles, now, ttl))
        },
        Err(_) => Err(UserUCError::ForbiddenError),
    }
}

/// A registered, enabled user who signs in with a password that the stored
/// hash accepts gets a token for their own id, and that token is honoured under the same key, for
/// that id, at every instant up to its expiry.
pub proof fn law_sign_in_round_trip(
    store: &RbacStore,
    key: Seq<u8>,
    i: int,
    username: Seq<char>,
    password: Seq<char>,
    r: Result<Token, UserUCError>,
    now: i64,
    ttl: i64,
    at: i64,
)
    requires
        store.wf(),
        password_match(store.users.rows(), store.users.hashes(), i, username, encode_utf8(password)),
        signed_in(store, key, username, password, now, ttl, r),
        at <= expiry_of(now, ttl),
    ensures
        r.is_ok(),
        r.unwrap().claims.user_id == store.users.rows()[i].id,
        validation(key, Some(r.unwrap()), at) == Ok::<(i32, Vec<String>), TokenError>(
            (store.users.rows()[i].id, r.unwrap().claims.roles),
        ),
{
    let j = r.unwrap().claims.user_id - 1;
    if j < i {
        assert(store.users.rows()[j].name@ != store.users.rows()[i].name@);
    } else if i < j {
        assert(store.users.rows()[i].name@ != store.users.rows()[j].name@);
    }
    assert(store.users.rows()[i].id == i + 1);
}

/// Disabling an entity that exists, one that is disabled already, and one
/// that never existed all answer 204, and so does a second disable after
/// any of them, which changes nothing.
pub proof fn law_disable_always_succeeds(rows: Seq<Entity>, id: i32, now1: i64, now2: i64)
    ensures
        disable_status_of(disable_result_of(disable_outcome(rows, id))) == 204,
        disable_status_of(disable_result_of(disable_outcome(rows_after_disable(rows, id, now1), id)))
            == 204,
        rows_after_disable(rows_after_disable(rows, id, now1), id, now2) == rows_after_disable(
            rows,
            id,
            now1,
        ),
{
    law_disable_twice(rows, id, now1, now2);
}

/// Unbinding a pair that was never bound succeeds with no binding to show,
/// and the table stays as it was.
pub proof fn law_unbind_unbound_succeeds(m: Map<Pair, Stamp>, k: Pair, now: i64)
    requires
        !m.contains_key(k),
    ensures
        unbind_result_of(unbind_outcome(m, k, now)) == Ok::<Option<Binding>, UserUCError>(None),
        after_unbind(m, k, now) == m,
{
}

} // verus!
