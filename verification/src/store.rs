//! The whole access-control graph held in memory: users, groups,
//! permissions and the two binding tables. Disabling a group, a user or a
//! permission never touches a binding; bindings are switched on their own.

use vstd::prelude::*;
use crate::bindings::{after_bind, after_unbind, bind_outcome, unbind_outcome, BindingTable, Pair};
use crate::clock::utc_now_micros;
use crate::entities::{Binding, Entity, Stamp};
use crate::entity_table::{disable_outcome, rows_after_disable, EntityTable};
use crate::errors::AccessModelError;
use crate::usecases::DisablePermission;
use crate::user_repo::UserRepo;

verus! {

/// Whether a group makes `user_id` hold its name as a role: the group is
/// enabled and the user's membership in it is.
pub open spec fn grants_role(group: Entity, members: Map<Pair, Stamp>, user_id: i32) -> bool {
    &&& group.stamp.enabled
    &&& members.contains_key((group.id, user_id))
    &&& members[(group.id, user_id)].enabled
}

/// The names of those among the first `n` groups that grant `user_id` a
/// role, in the order of the groups' ids.
pub open spec fn roles_among(groups: Seq<Entity>, members: Map<Pair, Stamp>, user_id: i32, n: int) -> Seq<
    String,
>
    decreases n,
{
    if n <= 0 || n > groups.len() {
        Seq::empty()
    } else if grants_role(groups[n - 1], members, user_id) {
        roles_among(groups, members, user_id, n - 1).push(groups[n - 1].name)
    } else {
        roles_among(groups, members, user_id, n - 1)
    }
}

/// A name is among a user's roles exactly when some group of that name
/// grants it: the group is enabled and so is the user's membership in it.
pub proof fn law_roles_are_granting_groups(
    groups: Seq<Entity>,
    members: Map<Pair, Stamp>,
    user_id: i32,
    n: int,
    name: String,
)
    requires
        0 <= n <= groups.len(),
    ensures
        roles_among(groups, members, user_id, n).contains(name) <==> exists|i: int|
            0 <= i < n && grants_role(#[trigger] groups[i], members, user_id) && groups[i].name == name,
    decreases n,
{
    if n > 0 {
        law_roles_are_granting_groups(groups, members, user_id, n - 1, name);
        let rest = roles_among(groups, members, user_id, n - 1);
        let all = roles_among(groups, members, user_id, n);
        if grants_role(groups[n - 1], members, user_id) {
            assert(all == rest.push(groups[n - 1].name));
            if all.contains(name) {
                let j = choose|j: int| 0 <= j < all.len() && all[j] == name;
                if j < rest.len() {
                    assert(rest[j] == name);
                    assert(rest.contains(name));
                } else {
                    assert(groups[n - 1].name == name);
                }
            }
            if rest.contains(name) {
                let j = choose|j: int| 0 <= j < rest.len() && rest[j] == name;
                assert(all[j] == name);
            }
            if groups[n - 1].name == name {
                assert(all[rest.len() as int] == name);
            }
        }
    }
}

pub struct RbacStore {
    pub users: UserRepo,
    pub groups: EntityTable,
    pub permissions: EntityTable,
    pub group_permissions: BindingTable,
    pub group_members: BindingTable,
}

impl RbacStore {
    pub open spec fn wf(&self) -> bool {
        &&& self.users.wf()
        &&& self.groups.wf()
        &&& self.permissions.wf()
        &&& self.group_permissions.wf()
        &&& self.group_members.wf()
    }

    /// The roles that `user_id` holds now.
    pub open spec fn roles(&self, user_id: i32) -> Seq<String> {
        roles_among(self.groups@, self.group_members@, user_id, self.groups@.len() as int)
    }

    /// Whether an operation left everything but the permission table alone.
    pub open spec fn same_but_permissions(&self, before: &RbacStore) -> bool {
        &&& self.users == before.users
        &&& self.groups == before.groups
        &&& self.group_permissions == before.group_permissions
        &&& self.group_members == before.group_members
    }

    /// An empty store: no user and no password hash, no group, no
    /// permission, and no pair ever bound in either binding table.
    pub fn new() -> (s: RbacStore)
        ensures
            s.wf(),
            s.users.rows() == Seq::<Entity>::empty(),
            s.users.hashes() == Seq::<String>::empty(),
            s.groups@ == Seq::<Entity>::empty(),
            s.permissions@ == Seq::<Entity>::empty(),
            s.group_permissions@ == Map::<Pair, Stamp>::empty(),
            s.group_permissions.row_count() == 0,
            s.group_members@ == Map::<Pair, Stamp>::empty(),
            s.group_members.row_count() == 0,
    {
        RbacStore {
            users: UserRepo::new(),
            groups: EntityTable::new(),
            permissions: EntityTable::new(),
            group_permissions: BindingTable::new(),
            group_members: BindingTable::new(),
        }
    }

    /// The role names for a user: the names of the enabled groups in which
    /// the user's membership is enabled, in the order of the groups' ids.
    pub fn roles_of(&self, user_id: i32) -> (r: Vec<String>)
        requires
            self.wf(),
        ensures
            r@ == self.roles(user_id),
    {
        let mut names: Vec<String> = Vec::new();
        let n: usize = self.groups.len();
        let mut i: usize = 0;
        while i < n
            invariant
                self.wf(),
                n == self.groups@.len(),
                i <= n,
                names@ == roles_among(self.groups@, self.group_members@, user_id, i as int),
            decreases n - i,
        {
            let group = self.groups.row(i);
            let granted: bool = group.stamp.enabled && match self.group_members.find(group.id, user_id) {
                Some(b) => b.stamp.enabled,
                None => false,
            };
            if granted {
                names.push(group.name.clone());
            }
            i += 1;
        }
        names
    }

    /// Grants a permission to a group.
    pub fn bind_permission_with_group(&mut self, group_id: i32, permission_id: i32, now: i64) -> (b:
        Binding)
        requires
            old(self).wf(),
        ensures
            final(self).wf(),
            final(self).group_permissions@ == after_bind(
                old(self).group_permissions@,
                (group_id, permission_id),
                now,
            ),
            b == bind_outcome(old(self).group_permissions@, (group_id, permission_id), now),
            final(self).group_permissions.row_count() == old(self).group_permissions.row_count() + (
            if old(self).group_permissions@.contains_key((group_id, permission_id)) {
                0nat
            } else {
                1nat
            }),
            final(self).users == old(self).users,
            final(self).groups == old(self).groups,
            final(self).permissions == old(self).permissions,
            final(self).group_members == old(self).group_members,
    {
        self.group_permissions.bind(group_id, permission_id, now)
    }

    /// Withdraws a permission from a group. `NotFoundError` exactly when the
    /// pair was never bound.
    pub fn unbind_permission_with_group(&mut self, group_id: i32, permission_id: i32, now: i64) -> (r:
        Result<Binding, AccessModelError>)
        requires
            old(self).wf(),
        ensures
            final(self).wf(),
            final(self).group_permissions@ == after_unbind(
                old(self).group_permissions@,
                (group_id, permission_id),
                now,
            ),
            final(self).group_permissions.row_count() == old(self).group_permissions.row_count(),
            r == unbind_outcome(old(self).group_permissions@, (group_id, permission_id), now),
            final(self).users == old(self).users,
            final(self).groups == old(self).groups,
            final(self).permissions == old(self).permissions,
            final(self).group_members == old(self).group_members,
    {
        self.group_permissions.unbind(group_id, permission_id, now)
    }

    /// Makes a user a member of a group.
    pub fn bind_member_with_group(&mut self, group_id: i32, user_id: i32, now: i64) -> (b: Binding)
        requires
            old(self).wf(),
        ensures
            final(self).wf(),
            final(self).group_members@ == after_bind(old(self).group_members@, (group_id, user_id), now),
            b == bind_outcome(old(self).group_members@, (group_id, user_id), now),
            final(self).group_members.row_count() == old(self).group_members.row_count() + (
            if old(self).group_members@.contains_key((group_id, user_id)) {
                0nat
            } else {
                1nat
            }),
            final(self).users == old(self).users,
            final(self).groups == old(self).groups,
            final(self).permissions == old(self).permissions,
            final(self).group_permissions == old(self).group_permissions,
    {
        self.group_members.bind(group_id, user_id, now)
    }

    /// Ends a user's membership in a group. `NotFoundError` exactly when the
    /// pair was never bound.
    pub fn unbind_member_with_group(&mut self, group_id: i32, user_id: i32, now: i64) -> (r: Result<
        Binding,
        AccessModelError,
    >)
        requires
            old(self).wf(),
        ensures
            final(self).wf(),
            final(self).group_members@ == after_unbind(
                old(self).group_members@,
                (group_id, user_id),
                now,
            ),
            final(self).group_members.row_count() == old(self).group_members.row_count(),
            r == unbind_outcome(old(self).group_members@, (group_id, user_id), now),
            final(self).users == old(self).users,
            final(self).groups == old(self).groups,
            final(self).permissions == old(self).permissions,
            final(self).group_permissions == old(self).group_permissions,
    {
        self.group_members.unbind(group_id, user_id, now)
    }
}

impl DisablePermission for RbacStore {
    open spec fn valid(&self) -> bool {
        self.wf()
    }

    /// The permission was switched off at some clock reading, and nothing
    /// else changed: no group, no user, no binding.
    open spec fn disabled_from(
        &self,
        before: &RbacStore,
        permission_id: i32,
        outcome: Result<(), AccessModelError>,
    ) -> bool {
        &&& self.same_but_permissions(before)
        &&& outcome == disable_outcome(before.permissions@, permission_id)
        &&& exists|now: i64|
            self.permissions@ == rows_after_disable(before.permissions@, permission_id, now)
    }

    fn disable_permission_in_storage(&mut self, permission_id: i32) -> (r: Result<(), AccessModelError>) {
        let now: i64 = utc_now_micros();
        self.permissions.disable_by_id(permission_id, now)
    }
}

} // verus!
