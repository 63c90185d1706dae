//! The user table: rows with unique usernames, each with its password hash.

use vstd::prelude::*;
use crate::clock::utc_now_micros;
use crate::credential::{accepts, check_credential};
use crate::entities::{Entity, Stamp, User, UserForCreation};
use crate::entity_table::{disable_outcome, has_id, row_of, rows_after_create, rows_after_disable, rows_wf, EntityTable};
use crate::errors::AccessModelError;
use vstd::utf8::encode_utf8;

verus! {

/// Whether some row, enabled or not, carries this username.
pub open spec fn name_taken(rows: Seq<Entity>, name: Seq<char>) -> bool {
    exists|i: int| 0 <= i < rows.len() && (#[trigger] rows[i]).name@ == name
}

/// No two rows share a username.
pub open spec fn names_distinct(rows: Seq<Entity>) -> bool {
    forall|i: int, j: int|
        0 <= i < j < rows.len() ==> (#[trigger] rows[i]).name@ != (#[trigger] rows[j]).name@
}

/// Whether row `i` is an enabled user with this username and password hash.
pub open spec fn credentials_match(
    rows: Seq<Entity>,
    hashes: Seq<String>,
    i: int,
    username: Seq<char>,
    hash: Seq<char>,
) -> bool {
    &&& 0 <= i < rows.len()
    &&& i < hashes.len()
    &&& rows[i].stamp.enabled
    &&& rows[i].name@ == username
    &&& hashes[i]@ == hash
}

/// Whether row `i` is an enabled user with this username whose stored hash
/// accepts the password.
pub open spec fn password_match(
    rows: Seq<Entity>,
    hashes: Seq<String>,
    i: int,
    username: Seq<char>,
    password: Seq<u8>,
) -> bool {
    &&& 0 <= i < rows.len()
    &&& i < hashes.len()
    &&& rows[i].stamp.enabled
    &&& rows[i].name@ == username
    &&& accepts(hashes[i]@, password)
}

/// The user that a row stands for.
pub open spec fn user_of(row: Entity) -> User {
    User { user_id: row.id, username: row.name, stamp: row.stamp }
}

pub struct UserRepo {
    table: EntityTable,
    hashes: Vec<String>,
}

impl UserRepo {
    /// The rows, in the order of their ids.
    pub closed spec fn rows(&self) -> Seq<Entity> {
        self.table@
    }

    /// The password hash of each row.
    pub closed spec fn hashes(&self) -> Seq<String> {
        self.hashes@
    }

    pub open spec fn wf(&self) -> bool {
        &&& rows_wf(self.rows())
        &&& self.hashes().len() == self.rows().len()
        &&& names_distinct(self.rows())
    }

    pub fn new() -> (r: UserRepo)
        ensures
            r.wf(),
            r.rows() == Seq::<Entity>::empty(),
            r.hashes() == Seq::<String>::empty(),
    {
        UserRepo { table: EntityTable::new(), hashes: Vec::new() }
    }

    /// Whether a row carries this username.
    fn has_name(&self, name: &String) -> (b: bool)
        requires
            self.wf(),
        ensures
            b == name_taken(self.rows(), name@),
    {
        let n: usize = self.table.len();
        let mut i: usize = 0;
        while i < n
            invariant
                self.wf(),
                n == self.rows().len(),
                i <= n,
                forall|j: int| 0 <= j < i ==> (#[trigger] self.rows()[j]).name@ != name@,
            decreases n - i,
        {
            let row = self.table.row(i);
            if row.name == *name {
                return true;
            }
            i += 1;
        }
        false
    }

    /// Registers a user at `now`: an enabled row with the next id.
    /// `ConflictError` exactly when the username is taken, by an enabled or a
    /// disabled row; else `FatalError` exactly when every `i32` id has been
    /// handed out. On an error nothing changes.
    pub fn create_user(&mut self, user: UserForCreation, now: i64) -> (r: Result<User, AccessModelError>)
        requires
            old(self).wf(),
        ensures
            final(self).wf(),
            name_taken(old(self).rows(), user.username@) ==> r == Err::<User, AccessModelError>(
                AccessModelError::ConflictError,
            ) && final(self).rows() == old(self).rows() && final(self).hashes() == old(self).hashes(),
            !name_taken(old(self).rows(), user.username@) && old(self).rows().len() >= i32::MAX ==> r
                == Err::<User, AccessModelError>(AccessModelError::FatalError) && final(self).rows()
                == old(self).rows() && final(self).hashes() == old(self).hashes(),
            !name_taken(old(self).rows(), user.username@) && old(self).rows().len() < i32::MAX ==> r
                == Ok::<User, AccessModelError>(user_of(final(self).rows().last())) && final(self).rows()
                == rows_after_create(old(self).rows(), user.username, now) && final(self).hashes()
                == old(self).hashes().push(user.password_hash),
    {
        if self.has_name(&user.username) {
            return Err(AccessModelError::ConflictError);
        }
        match self.table.create(user.username, now) {
            Ok(row) => {
                self.hashes.push(user.password_hash);
                Ok(User { user_id: row.id, username: row.name, stamp: row.stamp })
            },
            Err(e) => Err(e),
        }
    }

    /// Registers a user at the time the wall clock shows.
    pub fn save_user_in_storage(&mut self, user: UserForCreation) -> (r: Result<User, AccessModelError>)
        requires
            old(self).wf(),
        ensures
            final(self).wf(),
            name_taken(old(self).rows(), user.username@) ==> r == Err::<User, AccessModelError>(
                AccessModelError::ConflictError,
            ) && final(self).rows() == old(self).rows() && final(self).hashes() == old(self).hashes(),
            !name_taken(old(self).rows(), user.username@) && old(self).rows().len() >= i32::MAX ==> r
                == Err::<User, AccessModelError>(AccessModelError::FatalError) && final(self).rows()
                == old(self).rows() && final(self).hashes() == old(self).hashes(),
            !name_taken(old(self).rows(), user.username@) && old(self).rows().len() < i32::MAX ==> r
                == Ok::<User, AccessModelError>(user_of(final(self).rows().last())) && final(self).hashes()
                == old(self).hashes().push(user.password_hash) && exists|now: i64|
                final(self).rows() == rows_after_create(old(self).rows(), user.username, now),
    {
        let now: i64 = utc_now_micros();
        self.create_user(user, now)
    }

    /// The user with this id; a disabled user is found too.
    pub fn find_user_by_id(&self, user_id: i32) -> (r: Result<User, AccessModelError>)
        requires
            self.wf(),
        ensures
            has_id(self.rows(), user_id) ==> r == Ok::<User, AccessModelError>(
                user_of(row_of(self.rows(), user_id)),
            ),
            !has_id(self.rows(), user_id) ==> r == Err::<User, AccessModelError>(
                AccessModelError::NotFoundError,
            ),
    {
        match self.table.find_by_id(user_id) {
            Ok(row) => Ok(User { user_id: row.id, username: row.name, stamp: row.stamp }),
            Err(e) => Err(e),
        }
    }

    /// Switches the user off at `now`; the row stays. `NotFoundError` exactly
    /// when no row has this id.
    pub fn remove_user_by_id(&mut self, user_id: i32, now: i64) -> (r: Result<(), AccessModelError>)
        requires
            old(self).wf(),
        ensures
            final(self).wf(),
            final(self).rows() == rows_after_disable(old(self).rows(), user_id, now),
            final(self).hashes() == old(self).hashes(),
            r == disable_outcome(old(self).rows(), user_id),
    {
        self.table.disable_by_id(user_id, now)
    }

    /// Verifies a username and password: the id of the enabled user with
    /// this username, where the stored hash accepts the password.
    /// `NotFoundError` otherwise: an unknown username, a wrong password and
    /// a disabled user look the same.
    pub fn verify(&self, username: &str, password: &str) -> (r: Result<i32, AccessModelError>)
        requires
            self.wf(),
        ensures
            match r {
                Ok(id) => has_id(self.rows(), id) && password_match(
                    self.rows(),
                    self.hashes(),
                    id - 1,
                    username@,
                    encode_utf8(password@),
                ),
                Err(e) => e == AccessModelError::NotFoundError && forall|i: int|
                    !password_match(self.rows(), self.hashes(), i, username@, encode_utf8(password@)),
            },
    {
        let name: String = username.to_owned();
        let n: usize = self.table.len();
        let mut i: usize = 0;
        while i < n
            invariant
                self.wf(),
                n == self.rows().len(),
                i <= n,
                name@ == username@,
                forall|j: int| 0 <= j < i ==> (#[trigger] self.rows()[j]).name@ != username@,
            decreases n - i,
        {
            let row = self.table.row(i);
            if row.name == name {
                proof {
                    assert forall|j: int| j != i && 0 <= j < n implies (#[trigger] self.rows()[j]).name@
                        != username@ by {
                        if j < i {
                        } else {
                            assert(self.rows()[i as int].name@ != self.rows()[j].name@);
                        }
                    }
                }
                return check_credential(row.id, row.stamp.enabled, self.hashes[i].as_str(), password);
            }
            i += 1;
        }
        Err(AccessModelError::NotFoundError)
    }

    /// The id of the enabled user with this username and password hash.
    /// `NotFoundError` where there is none: an unknown username, another
    /// hash, and a disabled user look the same.
    pub fn verificate_default(&self, username: &str, hash: &str) -> (r: Result<i32, AccessModelError>)
        requires
            self.wf(),
        ensures
            match r {
                Ok(id) => has_id(self.rows(), id) && credentials_match(
                    self.rows(),
                    self.hashes(),
                    id - 1,
                    username@,
                    hash@,
                ),
                Err(e) => e == AccessModelError::NotFoundError && forall|i: int|
                    !credentials_match(self.rows(), self.hashes(), i, username@, hash@),
            },
    {
        let name: String = username.to_owned();
        let secret: String = hash.to_owned();
        let n: usize = self.table.len();
        let mut i: usize = 0;
        while i < n
            invariant
                self.wf(),
                n == self.rows().len(),
                i <= n,
                name@ == username@,
                secret@ == hash@,
                forall|j: int|
                    0 <= j < i ==> !credentials_match(self.rows(), self.hashes(), j, name@, secret@),
            decreases n - i,
        {
            let row = self.table.row(i);
            if row.stamp.enabled && row.name == name && self.hashes[i] == secret {
                return Ok(row.id);
            }
            i += 1;
        }
        Err(AccessModelError::NotFoundError)
    }
}

} // verus!
