use vstd::prelude::*;

use crate::ctx::Ctx;
use crate::model::Error;

verus! {

/// The descriptor a backed model controller carries: the name of its table.
pub trait DbBMC {
    spec fn table_spec() -> Seq<char>;

    fn table() -> (r: &'static str)
        ensures
            r@ == Self::table_spec(),
    ;
}

/// An entity payload that can be duplicated field for field, so reads can
/// hand out copies with an exact contract.
pub trait RowDup: Sized {
    fn dup(&self) -> (r: Self)
        ensures
            r == *self,
    ;
}

/// A partial-field patch: applied to a stored payload it overwrites exactly
/// the fields it carries and leaves the others untouched.
pub trait FieldPatch<T>: Sized {
    spec fn spec_apply(self, t: T) -> T;

    fn apply(self, t: &T) -> (r: T)
        ensures
            r == self.spec_apply(*t),
    ;
}

/// The keyed table behind the generic access layer: rows in ascending id
/// order, with identifiers assigned by a counter and never reused.
pub struct Table<T> {
    pub rows: Vec<(i64, T)>,
    pub next_id: i64,
}

/// True when the not-found error carries exactly the given table name and
/// id.  This shape pins the error value: two errors that satisfy it for the
/// same table and id are equal.
pub open spec fn not_found_err(e: Error, table: Seq<char>, id: i64) -> bool {
    e matches Error::EntityNotFound { entity, id: eid } && entity@ == table && eid == id
}

impl<T> Table<T> {
    /// Well-formedness: ids strictly ascend, all below the counter, and the
    /// counter stays positive.
    pub open spec fn wf(&self) -> bool {
        &&& 1 <= self.next_id
        &&& forall|i: int, j: int|
            0 <= i < j < self.rows@.len() ==> (#[trigger] self.rows@[i]).0 < (
            #[trigger] self.rows@[j]).0
        &&& forall|i: int|
            0 <= i < self.rows@.len() ==> 1 <= (#[trigger] self.rows@[i]).0 < self.next_id
    }

    pub open spec fn contains_id(&self, id: i64) -> bool {
        exists|i: int| 0 <= i < self.rows@.len() && (#[trigger] self.rows@[i]).0 == id
    }

    pub open spec fn idx_of(&self, id: i64) -> int {
        choose|i: int| 0 <= i < self.rows@.len() && (#[trigger] self.rows@[i]).0 == id
    }

    pub open spec fn row_of(&self, id: i64) -> T {
        self.rows@[self.idx_of(id)].1
    }

    /// An id occurs in at most one row of a well-formed table.
    pub proof fn lemma_idx_unique(&self, id: i64, k: int)
        requires
            self.wf(),
            0 <= k < self.rows@.len(),
            self.rows@[k].0 == id,
        ensures
            self.contains_id(id),
            self.idx_of(id) == k,
    {
        let w = self.idx_of(id);
        if w < k {
            assert(self.rows@[w].0 < self.rows@[k].0);
        } else if w > k {
            assert(self.rows@[k].0 < self.rows@[w].0);
        }
    }

    pub fn new() -> (t: Table<T>)
        ensures
            t.wf(),
            t.rows@.len() == 0,
            t.next_id == 1,
    {
        Table { rows: Vec::new(), next_id: 1 }
    }

    /// Finds the row index of an id, if any.
    fn find(&self, id: i64) -> (r: Option<usize>)
        requires
            self.wf(),
        ensures
            r matches Some(k) ==> k < self.rows@.len() && self.rows@[k as int].0 == id
                && self.contains_id(id) && self.idx_of(id) == k,
            r is None ==> !self.contains_id(id),
    {
        let n = self.rows.len();
        for k in 0..n
            invariant
                n == self.rows@.len(),
                self.wf(),
                forall|j: int| 0 <= j < k ==> (#[trigger] self.rows@[j]).0 != id,
        {
            if self.rows[k].0 == id {
                proof {
                    self.lemma_idx_unique(id, k as int);
                }
                return Some(k);
            }
        }
        None
    }
}

/// Inserts the supplied fields as a fresh row and returns the
/// store-assigned identifier.  Like every operation here it takes the
/// ambient identity context — the seam for per-owner filtering — though
/// none filters by it yet.  The id is the counter value: fresh, larger
/// than every existing id, never reused.
pub fn create<MC: DbBMC, T>(_ctx: &Ctx, table: &mut Table<T>, data: T) -> (r: Result<i64, Error>)
    requires
        old(table).wf(),
        old(table).next_id < i64::MAX,
        old(table).rows@.len() < usize::MAX,
    ensures
        final(table).wf(),
        r matches Ok(id) && id == old(table).next_id,
        r matches Ok(id) && final(table).rows@ == old(table).rows@.push((id, data)),
        final(table).next_id == old(table).next_id + 1,
{
    let id = table.next_id;
    table.rows.push((id, data));
    table.next_id = id + 1;
    Ok(id)
}

/// Reads the row with the given id.  Fails with `EntityNotFound`, carrying
/// the table name and the id echoed back, exactly when no row matches.
pub fn get<MC: DbBMC, T: RowDup>(_ctx: &Ctx, table: &Table<T>, id: i64) -> (r: Result<T, Error>)
    requires
        table.wf(),
    ensures
        table.contains_id(id) ==> r is Ok && r->Ok_0 == table.row_of(id),
        !table.contains_id(id) ==> r is Err && not_found_err(r->Err_0, MC::table_spec(), id),
{
    match table.find(id) {
        Some(k) => {
            let row = &table.rows[k];
            Ok(row.1.dup())
        },
        None => Err(Error::EntityNotFound { entity: MC::table(), id }),
    }
}

/// Lists every row in ascending id order — the full scan is the contract.
pub fn list<MC: DbBMC, T: RowDup>(_ctx: &Ctx, table: &Table<T>) -> (r: Result<Vec<(i64, T)>, Error>)
    requires
        table.wf(),
    ensures
        r matches Ok(v) && v@ == table.rows@,
{
    let n = table.rows.len();
    let mut out: Vec<(i64, T)> = Vec::new();
    for k in 0..n
        invariant
            n == table.rows@.len(),
            out@ =~= table.rows@.subrange(0, k as int),
    {
        let row = &table.rows[k];
        out.push((row.0, row.1.dup()));
        proof {
            assert(out@ =~= table.rows@.subrange(0, k + 1));
        }
    }
    proof {
        assert(out@ =~= table.rows@);
    }
    Ok(out)
}

/// Applies a partial patch to the row with the given id: only the fields
/// the patch carries change, every other row stays.  Zero matching rows
/// fail with `EntityNotFound`; by id uniqueness at most one row matches.
pub fn update<MC: DbBMC, T, U: FieldPatch<T>>(_ctx: &Ctx, table: &mut Table<T>, id: i64, data: U) -> (r:
    Result<(), Error>)
    requires
        old(table).wf(),
    ensures
        final(table).wf(),
        final(table).next_id == old(table).next_id,
        old(table).contains_id(id) ==> r is Ok && final(table).rows@ == old(table).rows@.update(
            old(table).idx_of(id),
            (id, data.spec_apply(old(table).row_of(id))),
        ),
        !old(table).contains_id(id) ==> r is Err && not_found_err(r->Err_0, MC::table_spec(), id)
            && final(table).rows@ == old(table).rows@,
{
    let found = table.find(id);
    match found {
        Some(k) => {
            let patched = data.apply(&table.rows[k].1);
            let ghost pre = table.rows@;
            table.rows[k] = (id, patched);
            proof {
                assert(table.rows@ == pre.update(k as int, (id, patched)));
                assert forall|i: int, j: int|
                    0 <= i < j < table.rows@.len() implies (#[trigger] table.rows@[i]).0 < (
                #[trigger] table.rows@[j]).0 by {
                    assert(pre[i].0 < pre[j].0);
                }
            }
            Ok(())
        },
        None => Err(Error::EntityNotFound { entity: MC::table(), id }),
    }
}

/// Deletes the row with the given id.  Zero matching rows fail with
/// `EntityNotFound`; exactly one row leaves on success.
pub fn delete<MC: DbBMC, T>(_ctx: &Ctx, table: &mut Table<T>, id: i64) -> (r: Result<(), Error>)
    requires
        old(table).wf(),
    ensures
        final(table).wf(),
        final(table).next_id == old(table).next_id,
        old(table).contains_id(id) ==> r is Ok && final(table).rows@ == old(table).rows@.remove(
            old(table).idx_of(id),
        ),
        !old(table).contains_id(id) ==> r is Err && not_found_err(r->Err_0, MC::table_spec(), id)
            && final(table).rows@ == old(table).rows@,
{
    let found = table.find(id);
    match found {
        Some(k) => {
            let ghost pre = table.rows@;
            table.rows.remove(k);
            proof {
                assert forall|i: int, j: int|
                    0 <= i < j < table.rows@.len() implies (#[trigger] table.rows@[i]).0 < (
                #[trigger] table.rows@[j]).0 by {
                    let pi: int = if i < k { i } else { i + 1 };
                    let pj: int = if j < k { j } else { j + 1 };
                    assert(table.rows@[i] == pre[pi]);
                    assert(table.rows@[j] == pre[pj]);
                    assert(pre[pi].0 < pre[pj].0);
                }
                assert forall|i: int| 0 <= i < table.rows@.len() implies 1 <= (
                #[trigger] table.rows@[i]).0 < table.next_id by {
                    let pi: int = if i < k { i } else { i + 1 };
                    assert(table.rows@[i] == pre[pi]);
                }
            }
            Ok(())
        },
        None => Err(Error::EntityNotFound { entity: MC::table(), id }),
    }
}

/// Law: the not-found shape is uniform — any two errors that `get`,
/// `update` or `delete` report for the same table and absent id are
/// `EntityNotFound` values carrying the same table name and the same
/// echoed id.
pub proof fn lemma_not_found_uniform(e1: Error, e2: Error, table: Seq<char>, id: i64)
    requires
        not_found_err(e1, table, id),
        not_found_err(e2, table, id),
    ensures
        e1 is EntityNotFound,
        e2 is EntityNotFound,
        e1->EntityNotFound_entity@ == e2->EntityNotFound_entity@,
        e1->EntityNotFound_id == id,
        e2->EntityNotFound_id == id,
{
}

} // verus!
