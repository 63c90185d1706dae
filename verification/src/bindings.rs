//! A binding table: at most one row per (group, other) pair, ever. A bind is
//! an upsert and an unbind a soft delete, each a single step on the table.

use vstd::prelude::*;
use crate::entities::{Binding, Stamp};
use crate::errors::AccessModelError;

verus! {

/// The key of a binding: the group's id, then the permission's or user's id.
pub type Pair = (i32, i32);

/// The stamp that a bind at `now` leaves on a pair: a fresh one where no row
/// existed, else the existing row's stamp, switched on.
pub open spec fn stamp_after_bind(m: Map<Pair, Stamp>, k: Pair, now: i64) -> Stamp {
    if m.contains_key(k) {
        m[k].reenabled(now)
    } else {
        Stamp::created(now)
    }
}

/// The table after `bind` of `k` at `now`.
pub open spec fn after_bind(m: Map<Pair, Stamp>, k: Pair, now: i64) -> Map<Pair, Stamp> {
    m.insert(k, stamp_after_bind(m, k, now))
}

/// The table after `unbind` of `k` at `now`: an existing row is switched off,
/// and no row is created.
pub open spec fn after_unbind(m: Map<Pair, Stamp>, k: Pair, now: i64) -> Map<Pair, Stamp> {
    if m.contains_key(k) {
        m.insert(k, m[k].disabled(now))
    } else {
        m
    }
}

/// The binding that `bind` of `k` at `now` returns.
pub open spec fn bind_outcome(m: Map<Pair, Stamp>, k: Pair, now: i64) -> Binding {
    Binding { group_id: k.0, other_id: k.1, stamp: stamp_after_bind(m, k, now) }
}

/// What `unbind` of `k` at `now` returns: the binding, switched off, or
/// `NotFoundError` where the pair was never bound.
pub open spec fn unbind_outcome(m: Map<Pair, Stamp>, k: Pair, now: i64) -> Result<
    Binding,
    AccessModelError,
> {
    if m.contains_key(k) {
        Ok(Binding { group_id: k.0, other_id: k.1, stamp: m[k].disabled(now) })
    } else {
        Err(AccessModelError::NotFoundError)
    }
}

/// Every stamp in the table is well formed.
pub open spec fn stamps_wf(m: Map<Pair, Stamp>) -> bool {
    forall|k: Pair| m.contains_key(k) ==> (#[trigger] m[k]).wf()
}

pub struct BindingTable {
    rows: Vec<Binding>,
    /// Where each bound pair's row stands.
    index: Ghost<Map<Pair, int>>,
}

impl View for BindingTable {
    type V = Map<Pair, Stamp>;

    closed spec fn view(&self) -> Map<Pair, Stamp> {
        Map::new(|k: Pair| self.index@.contains_key(k), |k: Pair| self.rows@[self.index@[k]].stamp)
    }
}

impl BindingTable {
    /// The index names exactly the rows, each under its own pair, so no pair
    /// has two rows; and every stamp is well formed.
    pub closed spec fn wf(&self) -> bool {
        &&& forall|k: Pair| #[trigger]
            self.index@.contains_key(k) ==> 0 <= self.index@[k] < self.rows@.len() && (
            self.rows@[self.index@[k]].group_id,
            self.rows@[self.index@[k]].other_id,
        ) == k
        &&& forall|i: int|
            0 <= i < self.rows@.len() ==> self.index@.contains_key(
                ((#[trigger] self.rows@[i]).group_id, self.rows@[i].other_id),
            ) && self.index@[(self.rows@[i].group_id, self.rows@[i].other_id)] == i
                && self.rows@[i].stamp.wf()
        &&& self.index@.dom().finite()
        &&& self.index@.dom().len() == self.rows@.len()
    }

    /// The number of rows that the table holds.
    pub closed spec fn row_count(&self) -> nat {
        self.rows@.len()
    }

    /// The positions of the rows that carry the pair `k`.
    pub closed spec fn rows_of(&self, k: Pair) -> Set<int> {
        Set::new(
            |i: int| 0 <= i < self.rows@.len() && (self.rows@[i].group_id, self.rows@[i].other_id) == k,
        )
    }

    /// A pair that was bound has one row, and one that never was has none.
    pub proof fn lemma_one_row_per_pair(&self, k: Pair)
        requires
            self.wf(),
        ensures
            self@.contains_key(k) ==> self.rows_of(k).len() == 1,
            !self@.contains_key(k) ==> self.rows_of(k).len() == 0,
    {
        if self@.contains_key(k) {
            assert(self.rows_of(k) =~= set![self.index@[k]]);
        } else {
            assert(self.rows_of(k) =~= Set::<int>::empty());
        }
    }

    /// The table holds as many rows as pairs were ever bound.
    pub proof fn lemma_rows_are_pairs(&self)
        requires
            self.wf(),
        ensures
            self@.dom().finite(),
            self@.dom().len() == self.row_count(),
    {
        assert(self@.dom() =~= self.index@.dom());
    }

    /// In a well-formed table no row was updated before it was created.
    pub proof fn lemma_stamps_wf(&self)
        requires
            self.wf(),
        ensures
            stamps_wf(self@),
    {
    }

    pub fn new() -> (t: BindingTable)
        ensures
            t.wf(),
            t@ == Map::<Pair, Stamp>::empty(),
            t.row_count() == 0,
    {
        let t = BindingTable { rows: Vec::new(), index: Ghost(Map::empty()) };
        assert(t@ =~= Map::<Pair, Stamp>::empty());
        t
    }

    /// The number of rows, disabled ones included.
    pub fn len(&self) -> (n: usize)
        ensures
            n == self.row_count(),
    {
        self.rows.len()
    }

    /// Where the row of the pair stands, if it has one.
    fn position(&self, group_id: i32, other_id: i32) -> (r: Option<usize>)
        requires
            self.wf(),
        ensures
            match r {
                Some(i) => self.index@.contains_key((group_id, other_id)) && self.index@[(
                    group_id,
                    other_id,
                )] == i && i < self.rows@.len(),
                None => !self.index@.contains_key((group_id, other_id)),
            },
    {
        let mut i: usize = 0;
        while i < self.rows.len()
            invariant
                self.wf(),
                i <= self.rows@.len(),
                forall|j: int|
                    0 <= j < i ==> ((#[trigger] self.rows@[j]).group_id, self.rows@[j].other_id) != (
                        group_id,
                        other_id,
                    ),
            decreases self.rows@.len() - i,
        {
            if self.rows[i].group_id == group_id && self.rows[i].other_id == other_id {
                return Some(i);
            }
            i += 1;
        }
        None
    }

    /// The binding of the pair as it stands, if the pair was ever bound.
    pub fn find(&self, group_id: i32, other_id: i32) -> (r: Option<Binding>)
        requires
            self.wf(),
        ensures
            self@.contains_key((group_id, other_id)) ==> r == Some(
                Binding { group_id, other_id, stamp: self@[(group_id, other_id)] },
            ),
            !self@.contains_key((group_id, other_id)) ==> r.is_none(),
    {
        match self.position(group_id, other_id) {
            Some(i) => Some(self.rows[i]),
            None => None,
        }
    }

    /// Binds the pair: inserts an enabled row where none exists, switches a
    /// disabled row on, and leaves an enabled row as it is. Returns the row
    /// as it stands afterwards.
    pub fn bind(&mut self, group_id: i32, other_id: i32, now: i64) -> (b: Binding)
        requires
            old(self).wf(),
        ensures
            final(self).wf(),
            final(self)@ == after_bind(old(self)@, (group_id, other_id), now),
            b == bind_outcome(old(self)@, (group_id, other_id), now),
            final(self).row_count() == old(self).row_count() + (if old(self)@.contains_key(
                (group_id, other_id),
            ) {
                0nat
            } else {
                1nat
            }),
    {
        let ghost k: Pair = (group_id, other_id);
        match self.position(group_id, other_id) {
            Some(i) => {
                let b = Binding { group_id, other_id, stamp: self.rows[i].stamp.enable(now) };
                self.rows.set(i, b);
                proof {
                    assert(self@ =~= after_bind(old(self)@, k, now));
                }
                b
            },
            None => {
                let b = Binding { group_id, other_id, stamp: Stamp::new(now) };
                let ghost at: int = self.rows@.len() as int;
                self.rows.push(b);
                proof {
                    self.index@ = self.index@.insert(k, at);
                    assert(self@ =~= after_bind(old(self)@, k, now));
                }
                b
            },
        }
    }

    /// Unbinds the pair: switches its row off. `NotFoundError` exactly when
    /// the pair was never bound; then nothing changes and no row is created.
    pub fn unbind(&mut self, group_id: i32, other_id: i32, now: i64) -> (r: Result<
        Binding,
        AccessModelError,
    >)
        requires
            old(self).wf(),
        ensures
            final(self).wf(),
            final(self)@ == after_unbind(old(self)@, (group_id, other_id), now),
            final(self).row_count() == old(self).row_count(),
            r == unbind_outcome(old(self)@, (group_id, other_id), now),
    {
        let ghost k: Pair = (group_id, other_id);
        match self.position(group_id, other_id) {
            Some(i) => {
                let b = Binding { group_id, other_id, stamp: self.rows[i].stamp.disable(now) };
                self.rows.set(i, b);
                proof {
                    assert(self@ =~= after_unbind(old(self)@, k, now));
                }
                Ok(b)
            },
            None => {
                Err(AccessModelError::NotFoundError)
            },
        }
    }
}

/// A bind or an unbind of one pair leaves every other pair as it was, and
/// keeps the `created_at` of the pair itself while its `updated_at` never
/// goes back.
pub proof fn law_binding_steps_are_local(m: Map<Pair, Stamp>, k: Pair, other: Pair, now: i64)
    requires
        stamps_wf(m),
    ensures
        stamps_wf(after_bind(m, k, now)),
        stamps_wf(after_unbind(m, k, now)),
        other != k ==> after_bind(m, k, now).contains_key(other) == m.contains_key(other)
            && after_unbind(m, k, now).contains_key(other) == m.contains_key(other),
        other != k && m.contains_key(other) ==> after_bind(m, k, now)[other] == m[other]
            && after_unbind(m, k, now)[other] == m[other],
        m.contains_key(k) ==> after_bind(m, k, now)[k].created_at == m[k].created_at && after_unbind(
            m,
            k,
            now,
        )[k].created_at == m[k].created_at,
        m.contains_key(k) ==> after_bind(m, k, now)[k].updated_at >= m[k].updated_at && after_unbind(
            m,
            k,
            now,
        )[k].updated_at >= m[k].updated_at,
{
    assert(m.contains_key(k) ==> m[k].wf());
    assert forall|j: Pair| after_bind(m, k, now).contains_key(j) implies (#[trigger] after_bind(
        m,
        k,
        now,
    )[j]).wf() by {
        if j != k {
            assert(m[j].wf());
        }
    }
    assert forall|j: Pair| after_unbind(m, k, now).contains_key(j) implies (#[trigger] after_unbind(
        m,
        k,
        now,
    )[j]).wf() by {
        if j != k {
            assert(m[j].wf());
        } else {
            assert(m[k].wf());
        }
    }
}

/// Binding a pair twice leaves exactly one row for it; the second bind
/// keeps `created_at`, and the binding is enabled after either.
pub proof fn law_bind_twice(
    first: &BindingTable,
    second: &BindingTable,
    m: Map<Pair, Stamp>,
    k: Pair,
    now1: i64,
    now2: i64,
)
    requires
        first.wf(),
        second.wf(),
        first@ == after_bind(m, k, now1),
        second@ == after_bind(first@, k, now2),
    ensures
        first.rows_of(k).len() == 1,
        second.rows_of(k).len() == 1,
        first@[k].enabled,
        second@[k].enabled,
        second@[k].created_at == first@[k].created_at,
        second@ == first@,
{
    first.lemma_one_row_per_pair(k);
    second.lemma_one_row_per_pair(k);
    assert(second@ =~= first@);
}

/// After an unbind and then a bind of a bound pair, the binding is enabled
/// again with the `created_at` it always had, and, where the clock has moved
/// past the unbind, with a strictly later `updated_at`.
pub proof fn law_rebind_after_unbind(m: Map<Pair, Stamp>, k: Pair, now1: i64, now2: i64)
    requires
        m.contains_key(k),
        now2 > after_unbind(m, k, now1)[k].updated_at,
    ensures
        !after_unbind(m, k, now1)[k].enabled,
        after_bind(after_unbind(m, k, now1), k, now2)[k].enabled,
        after_bind(after_unbind(m, k, now1), k, now2)[k].created_at == m[k].created_at,
        after_bind(after_unbind(m, k, now1), k, now2)[k].updated_at > after_unbind(
            m,
            k,
            now1,
        )[k].updated_at,
        after_unbind(m, k, now1)[k].updated_at >= m[k].updated_at,
{
}

/// Unbinding a pair that was never bound changes nothing: no row is
/// created, and the pair stays unbound.
pub proof fn law_unbind_unbound(m: Map<Pair, Stamp>, k: Pair, now: i64)
    requires
        !m.contains_key(k),
    ensures
        after_unbind(m, k, now) == m,
        !after_unbind(m, k, now).contains_key(k),
{
}

/// A fresh binding has `created_at == updated_at`; once the clock has moved
/// on, an unbind leaves `updated_at` past `created_at`, and a bind after it
/// moves `updated_at` further while `created_at` stays.
pub proof fn law_binding_lifecycle(m: Map<Pair, Stamp>, k: Pair, t0: i64, t1: i64, t2: i64)
    requires
        !m.contains_key(k),
        t0 < t1 < t2,
    ensures
        after_bind(m, k, t0)[k] == Stamp::created(t0),
        after_unbind(after_bind(m, k, t0), k, t1)[k] == (Stamp {
            enabled: false,
            created_at: t0,
            updated_at: t1,
        }),
        after_bind(after_unbind(after_bind(m, k, t0), k, t1), k, t2)[k] == (Stamp {
            enabled: true,
            created_at: t0,
            updated_at: t2,
        }),
{
}

} // verus!
