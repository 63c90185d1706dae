//! A table of groups or of permissions. Rows are never removed, so the store
//! hands out ids in sequence: the row with id `n` is the `n`-th row created.

use vstd::prelude::*;
use crate::entities::{Entity, Stamp};
use crate::errors::AccessModelError;

verus! {

/// Ids count from one in creation order, every stamp is well formed, and the
/// ids fit in `i32`.
pub open spec fn rows_wf(rows: Seq<Entity>) -> bool {
    &&& rows.len() <= i32::MAX
    &&& forall|i: int| 0 <= i < rows.len() ==> (#[trigger] rows[i]).id == i + 1 && rows[i].stamp.wf()
}

/// Whether a row with this id exists, enabled or not.
pub open spec fn has_id(rows: Seq<Entity>, id: i32) -> bool {
    1 <= id <= rows.len()
}

/// The row with this id.
pub open spec fn row_of(rows: Seq<Entity>, id: i32) -> Entity
    recommends
        has_id(rows, id),
{
    rows[id - 1]
}

/// The table after a row named `name` was created at `now`.
pub open spec fn rows_after_create(rows: Seq<Entity>, name: String, now: i64) -> Seq<Entity> {
    rows.push(Entity { id: (rows.len() + 1) as i32, name, stamp: Stamp::created(now) })
}

/// The table after a disable of `id` at `now`: only that row's stamp changes,
/// and a missing id changes nothing.
pub open spec fn rows_after_disable(rows: Seq<Entity>, id: i32, now: i64) -> Seq<Entity> {
    if has_id(rows, id) {
        rows.update(
            id - 1,
            Entity { id: rows[id - 1].id, name: rows[id - 1].name, stamp: rows[id - 1].stamp.disabled(now) },
        )
    } else {
        rows
    }
}

/// What a disable of `id` reports: success where the row exists, enabled or
/// not, and `NotFoundError` where it does not.
pub open spec fn disable_outcome(rows: Seq<Entity>, id: i32) -> Result<(), AccessModelError> {
    if has_id(rows, id) {
        Ok(())
    } else {
        Err(AccessModelError::NotFoundError)
    }
}

/// A second disable of the same id changes nothing and reports what the
/// first reported, whether or not the id exists.
pub proof fn law_disable_twice(rows: Seq<Entity>, id: i32, now1: i64, now2: i64)
    ensures
        rows_after_disable(rows_after_disable(rows, id, now1), id, now2) == rows_after_disable(
            rows,
            id,
            now1,
        ),
        disable_outcome(rows_after_disable(rows, id, now1), id) == disable_outcome(rows, id),
        !has_id(rows, id) ==> rows_after_disable(rows, id, now1) == rows,
{
    assert(rows_after_disable(rows_after_disable(rows, id, now1), id, now2) =~= rows_after_disable(
        rows,
        id,
        now1,
    ));
}

/// A disable never creates or removes a row, keeps every `created_at`, and
/// sets no `updated_at` back.
pub proof fn law_disable_keeps_rows(rows: Seq<Entity>, id: i32, now: i64, i: int)
    requires
        0 <= i < rows.len(),
    ensures
        rows_after_disable(rows, id, now).len() == rows.len(),
        rows_after_disable(rows, id, now)[i].id == rows[i].id,
        rows_after_disable(rows, id, now)[i].name == rows[i].name,
        rows_after_disable(rows, id, now)[i].stamp.created_at == rows[i].stamp.created_at,
        rows_after_disable(rows, id, now)[i].stamp.updated_at >= rows[i].stamp.updated_at,
        i != id - 1 ==> rows_after_disable(rows, id, now)[i] == rows[i],
{
}

pub struct EntityTable {
    rows: Vec<Entity>,
}

impl View for EntityTable {
    type V = Seq<Entity>;

    closed spec fn view(&self) -> Seq<Entity> {
        self.rows@
    }
}

impl EntityTable {
    pub open spec fn wf(&self) -> bool {
        rows_wf(self@)
    }

    pub fn new() -> (t: EntityTable)
        ensures
            t.wf(),
            t@ == Seq::<Entity>::empty(),
    {
        EntityTable { rows: Vec::new() }
    }

    /// The number of rows, disabled ones included.
    pub fn len(&self) -> (n: usize)
        ensures
            n == self@.len(),
    {
        self.rows.len()
    }

    /// The row at a position.
    pub fn row(&self, at: usize) -> (r: &Entity)
        requires
            at < self@.len(),
        ensures
            *r == self@[at as int],
    {
        &self.rows[at]
    }

    /// Inserts an enabled row stamped `now` and returns it. The only failure
    /// is `FatalError`, when every `i32` id has been handed out.
    pub fn create(&mut self, name: String, now: i64) -> (r: Result<Entity, AccessModelError>)
        requires
            old(self).wf(),
        ensures
            final(self).wf(),
            old(self)@.len() < i32::MAX ==> final(self)@ == rows_after_create(old(self)@, name, now)
                && r == Ok::<Entity, AccessModelError>(final(self)@.last()),
            old(self)@.len() >= i32::MAX ==> final(self)@ == old(self)@ && r == Err::<
                Entity,
                AccessModelError,
            >(AccessModelError::FatalError),
    {
        let n: usize = self.rows.len();
        if n >= 2147483647 {
            return Err(AccessModelError::FatalError);
        }
        let id: i32 = (n + 1) as i32;
        let stamp = Stamp::new(now);
        let copy = Entity { id, name: name.clone(), stamp };
        self.rows.push(Entity { id, name, stamp });
        Ok(copy)
    }

    /// A copy of the row with this id; a disabled row is found too.
    pub fn find_by_id(&self, id: i32) -> (r: Result<Entity, AccessModelError>)
        requires
            self.wf(),
        ensures
            has_id(self@, id) ==> r == Ok::<Entity, AccessModelError>(row_of(self@, id)),
            !has_id(self@, id) ==> r == Err::<Entity, AccessModelError>(AccessModelError::NotFoundError),
    {
        if id < 1 || (id as usize) > self.rows.len() {
            return Err(AccessModelError::NotFoundError);
        }
        let row = &self.rows[(id - 1) as usize];
        Ok(Entity { id: row.id, name: row.name.clone(), stamp: row.stamp })
    }

    /// Switches the row off. `NotFoundError` exactly when no row has this id;
    /// then nothing changes.
    pub fn disable_by_id(&mut self, id: i32, now: i64) -> (r: Result<(), AccessModelError>)
        requires
            old(self).wf(),
        ensures
            final(self).wf(),
            final(self)@ == rows_after_disable(old(self)@, id, now),
            r == disable_outcome(old(self)@, id),
    {
        if id < 1 || (id as usize) > self.rows.len() {
            return Err(AccessModelError::NotFoundError);
        }
        let at: usize = (id - 1) as usize;
        let row = &self.rows[at];
        let next = Entity { id: row.id, name: row.name.clone(), stamp: row.stamp.disable(now) };
        self.rows.set(at, next);
        Ok(())
    }
}

} // verus!
