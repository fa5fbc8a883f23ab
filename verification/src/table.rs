//! The model of the stored `architectures` table, and what each SQL
//! statement of the service does to it.  The handlers run their statements
//! against the real storage engine; this type states, and the laws below
//! prove, what those statements mean for the sequence of stored rows.

use vstd::prelude::*;
use crate::record::{ArchView, Architecture};

verus! {

/// What inserting a record does: the row is appended.
pub open spec fn spec_insert(t: Seq<ArchView>, r: ArchView) -> Seq<ArchView> {
    t.push(r)
}

/// What updating by id does to one row.
pub open spec fn replace_match(r: ArchView) -> spec_fn(ArchView) -> ArchView {
    |x: ArchView| if x.arch_id == r.arch_id {
        r
    } else {
        x
    }
}

/// What updating by id does: every row whose `arch_id` matches is replaced
/// by the payload, all other rows are kept in place.
pub open spec fn spec_update(t: Seq<ArchView>, r: ArchView) -> Seq<ArchView> {
    t.map_values(replace_match(r))
}

/// Keeps the rows a delete by `id` leaves behind.
pub open spec fn keep_other(id: int) -> spec_fn(ArchView) -> bool {
    |x: ArchView| x.arch_id != id
}

/// What deleting by id does: every row whose `arch_id` matches is removed,
/// all other rows are kept in order.
pub open spec fn spec_delete(t: Seq<ArchView>, id: int) -> Seq<ArchView> {
    t.filter(keep_other(id))
}

/// An in-memory image of the stored table: the rows in storage order.
pub struct Table {
    pub rows: Vec<Architecture>,
}

impl View for Table {
    type V = Seq<ArchView>;

    open spec fn view(&self) -> Seq<ArchView> {
        Seq::new(self.rows@.len(), |i: int| self.rows@[i]@)
    }
}

impl Table {
    /// An empty table, as the initialization statement leaves it.
    pub fn new() -> (r: Table)
        ensures
            r@ == Seq::<ArchView>::empty(),
    {
        let t = Table { rows: Vec::new() };
        proof {
            assert(t@ =~= Seq::<ArchView>::empty());
        }
        t
    }

    /// Drops every row: the table is recreated empty.
    pub fn init(&mut self)
        ensures
            final(self)@ == Seq::<ArchView>::empty(),
    {
        self.rows = Vec::new();
        proof {
            assert(self@ =~= Seq::<ArchView>::empty());
        }
    }

    /// Appends one row; duplicate ids are permitted.
    pub fn insert(&mut self, r: Architecture)
        ensures
            final(self)@ == spec_insert(old(self)@, r@),
    {
        let ghost rv = r@;
        self.rows.push(r);
        proof {
            assert(self@ =~= old(self)@.push(rv));
        }
    }

    /// Replaces every row whose id matches the payload's id by the payload.
    pub fn update(&mut self, r: &Architecture)
        ensures
            final(self)@ == spec_update(old(self)@, r@),
    {
        let n = self.rows.len();
        let mut i: usize = 0;
        while i < n
            invariant
                n == self.rows@.len(),
                i <= n,
                self.rows@.len() == old(self).rows@.len(),
                forall|j: int|
                    0 <= j < i ==> self.rows@[j]@ == (if old(self)@[j].arch_id == r@.arch_id {
                        r@
                    } else {
                        old(self)@[j]
                    }),
                forall|j: int| i <= j < n ==> self.rows@[j] == old(self).rows@[j],
            decreases n - i,
        {
            if self.rows[i].arch_id == r.arch_id {
                let row = r.clone_record();
                self.rows.set(i, row);
            }
            i = i + 1;
        }
        proof {
            assert(self@ =~= spec_update(old(self)@, r@));
        }
    }

    /// Removes every row whose id matches; all other rows keep their order.
    pub fn delete(&mut self, id: i32)
        ensures
            final(self)@ == spec_delete(old(self)@, id as int),
    {
        let mut kept: Vec<Architecture> = Vec::new();
        let n = self.rows.len();
        proof {
            reveal(Seq::filter);
            assert(old(self)@.take(0) =~= Seq::<ArchView>::empty());
            assert(Seq::new(kept@.len(), |k: int| kept@[k]@) =~= spec_delete(
                old(self)@.take(0),
                id as int,
            ));
        }
        let mut i: usize = 0;
        while i < n
            invariant
                n == self.rows@.len(),
                i <= n,
                self.rows@ == old(self).rows@,
                Seq::new(kept@.len(), |k: int| kept@[k]@) == spec_delete(
                    old(self)@.take(i as int),
                    id as int,
                ),
            decreases n - i,
        {
            if self.rows[i].arch_id != id {
                let row = self.rows[i].clone_record();
                kept.push(row);
            }
            proof {
                reveal(Seq::filter);
                let taken = old(self)@.take(i + 1 as int);
                assert(taken.drop_last() =~= old(self)@.take(i as int));
                assert(taken.last() == old(self)@[i as int]);
                assert(Seq::new(kept@.len(), |k: int| kept@[k]@) =~= spec_delete(
                    taken,
                    id as int,
                ));
            }
            i = i + 1;
        }
        self.rows = kept;
        proof {
            assert(old(self)@.take(n as int) =~= old(self)@);
            assert(self@ =~= spec_delete(old(self)@, id as int));
        }
    }

    /// A copy of every row, in storage order.
    pub fn list(&self) -> (r: Vec<Architecture>)
        ensures
            Seq::new(r@.len(), |i: int| r@[i]@) == self@,
    {
        let mut out: Vec<Architecture> = Vec::new();
        let n = self.rows.len();
        let mut i: usize = 0;
        while i < n
            invariant
                n == self.rows@.len(),
                i <= n,
                out@.len() == i,
                forall|j: int| 0 <= j < i ==> out@[j]@ == self.rows@[j]@,
            decreases n - i,
        {
            let row = self.rows[i].clone_record();
            out.push(row);
            i = i + 1;
        }
        proof {
            assert(Seq::new(out@.len(), |j: int| out@[j]@) =~= self@);
        }
        out
    }
}

/// A created record is among the rows a listing returns.
pub proof fn insert_then_list_contains(t: Seq<ArchView>, r: ArchView)
    ensures
        spec_insert(t, r).contains(r),
{
    assert(spec_insert(t, r)[t.len() as int] == r);
}

/// Updating by the same payload twice is the same as updating once: the
/// second pass replaces each matching row by the value it already holds.
pub proof fn update_idempotent(t: Seq<ArchView>, r: ArchView)
    ensures
        spec_update(spec_update(t, r), r) == spec_update(t, r),
{
    assert(spec_update(spec_update(t, r), r) =~= spec_update(t, r));
}

/// After a delete, no row with the deleted id remains, and every row with
/// a different id is kept.
pub proof fn delete_removes_matches(t: Seq<ArchView>, id: int)
    ensures
        forall|j: int| 0 <= j < spec_delete(t, id).len() ==> spec_delete(t, id)[j].arch_id != id,
        forall|x: ArchView| t.contains(x) && x.arch_id != id ==> spec_delete(t, id).contains(x),
{
    let pred = keep_other(id);
    assert forall|j: int| 0 <= j < spec_delete(t, id).len() implies spec_delete(
        t,
        id,
    )[j].arch_id != id by {
        Seq::lemma_filter_pred(t, pred, j);
    }
    assert forall|x: ArchView| t.contains(x) && x.arch_id != id implies spec_delete(
        t,
        id,
    ).contains(x) by {
        let i = choose|i: int| 0 <= i < t.len() && t[i] == x;
        Seq::lemma_filter_contains(t, pred, i);
    }
}

/// Deleting an id that no row holds leaves the table exactly as it was.
pub proof fn delete_absent_is_noop(t: Seq<ArchView>, id: int)
    requires
        forall|j: int| 0 <= j < t.len() ==> t[j].arch_id != id,
    ensures
        spec_delete(t, id) == t,
    decreases t.len(),
{
    reveal(Seq::filter);
    if t.len() == 0 {
        assert(spec_delete(t, id) =~= t);
    } else {
        assert(forall|j: int| 0 <= j < t.drop_last().len() ==> t.drop_last()[j].arch_id != id);
        delete_absent_is_noop(t.drop_last(), id);
        assert(t.last().arch_id != id);
        assert(spec_delete(t, id) =~= spec_delete(t.drop_last(), id).push(t.last()));
        assert(spec_delete(t, id) =~= t);
    }
}

} // verus!
