//! The rows of the access-control graph and their soft-delete lifecycle.

use vstd::prelude::*;

verus! {

/// The later of a stored instant and a clock reading.
pub open spec fn later(stored: i64, now: i64) -> i64 {
    if now > stored {
        now
    } else {
        stored
    }
}

/// The lifecycle part that every row carries: the soft-delete flag and the
/// two timestamps.
#[derive(Clone, Copy, Debug, PartialEq, Eq, Structural)]
pub struct Stamp {
    pub enabled: bool,
    pub created_at: i64,
    pub updated_at: i64,
}

impl Stamp {
    /// A row is never updated before it was created.
    pub open spec fn wf(self) -> bool {
        self.created_at <= self.updated_at
    }

    /// The stamp of a row created at `now`.
    pub open spec fn created(now: i64) -> Stamp {
        Stamp { enabled: true, created_at: now, updated_at: now }
    }

    /// The stamp after a disable at `now`: an enabled row is switched off and
    /// its `updated_at` moves to `now` unless that would set it back; a
    /// disabled row stays as it is.
    pub open spec fn disabled(self, now: i64) -> Stamp {
        if self.enabled {
            Stamp {
                enabled: false,
                created_at: self.created_at,
                updated_at: later(self.updated_at, now),
            }
        } else {
            self
        }
    }

    /// The stamp after an enable at `now`: a disabled row is switched on and
    /// its `updated_at` moves to `now` unless that would set it back; an
    /// enabled row stays as it is.
    pub open spec fn reenabled(self, now: i64) -> Stamp {
        if self.enabled {
            self
        } else {
            Stamp {
                enabled: true,
                created_at: self.created_at,
                updated_at: later(self.updated_at, now),
            }
        }
    }

    pub fn new(now: i64) -> (s: Stamp)
        ensures
            s == Stamp::created(now),
            s.wf(),
    {
        Stamp { enabled: true, created_at: now, updated_at: now }
    }

    pub fn disable(self, now: i64) -> (s: Stamp)
        ensures
            s == self.disabled(now),
            self.wf() ==> s.wf(),
    {
        if self.enabled {
            let updated_at: i64 = if now > self.updated_at { now } else { self.updated_at };
            Stamp { enabled: false, created_at: self.created_at, updated_at }
        } else {
            self
        }
    }

    pub fn enable(self, now: i64) -> (s: Stamp)
        ensures
            s == self.reenabled(now),
            self.wf() ==> s.wf(),
    {
        if self.enabled {
            self
        } else {
            let updated_at: i64 = if now > self.updated_at { now } else { self.updated_at };
            Stamp { enabled: true, created_at: self.created_at, updated_at }
        }
    }
}

/// Whatever happens to a row, its `created_at` stays, its `updated_at` never
/// goes back, and it stays well formed; a row made at `now` has both equal.
/// A switch that changes the flag under a clock that has moved on moves
/// `updated_at` to the clock's reading.
pub proof fn law_stamp_transitions(s: Stamp, now: i64)
    requires
        s.wf(),
    ensures
        Stamp::created(now).wf() && Stamp::created(now).enabled,
        Stamp::created(now).created_at == Stamp::created(now).updated_at,
        s.disabled(now).wf() && s.reenabled(now).wf(),
        !s.disabled(now).enabled && s.reenabled(now).enabled,
        s.disabled(now).created_at == s.created_at && s.reenabled(now).created_at == s.created_at,
        s.disabled(now).updated_at >= s.updated_at && s.reenabled(now).updated_at >= s.updated_at,
        s.enabled && now > s.updated_at ==> s.disabled(now).updated_at == now,
        !s.enabled && now > s.updated_at ==> s.reenabled(now).updated_at == now,
        s.disabled(now).disabled(now) == s.disabled(now),
        s.reenabled(now).reenabled(now) == s.reenabled(now),
{
}

/// A group or a permission: an id assigned by the store, a name, and the
/// lifecycle stamp.
#[derive(Clone, Debug, PartialEq, Eq)]
pub struct Entity {
    pub id: i32,
    pub name: String,
    pub stamp: Stamp,
}

/// A user as callers see it; the password hash never leaves the store.
#[derive(Clone, Debug, PartialEq, Eq)]
pub struct User {
    pub user_id: i32,
    pub username: String,
    pub stamp: Stamp,
}

/// What is needed to register a user.
#[derive(Clone, Debug, PartialEq, Eq)]
pub struct UserForCreation {
    pub username: String,
    pub password_hash: String,
}

/// The association of a group with a permission or with a user.
#[derive(Clone, Copy, Debug, PartialEq, Eq, Structural)]
pub struct Binding {
    pub group_id: i32,
    pub other_id: i32,
    pub stamp: Stamp,
}

impl User {
    pub fn new(user_id: i32, username: String, enabled: bool, created_at: i64, updated_at: i64) -> (u: User)
        ensures
            u == (User { user_id, username, stamp: Stamp { enabled, created_at, updated_at } }),
    {
        User { user_id, username, stamp: Stamp { enabled, created_at, updated_at } }
    }
}

impl UserForCreation {
    pub fn new(username: String, password_hash: String) -> (u: UserForCreation)
        ensures
            u == (UserForCreation { username, password_hash }),
    {
        UserForCreation { username, password_hash }
    }
}

} // verus!
