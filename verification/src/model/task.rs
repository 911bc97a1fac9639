use vstd::prelude::*;

use crate::ctx::Ctx;
use crate::model::base::{self, DbBMC, FieldPatch, RowDup};
use crate::model::{Error, ModelManager};

verus! {

/// A task as callers see it: the store-assigned id and its fields.
#[derive(Debug)]
pub struct Task {
    pub id: i64,
    pub title: String,
}

/// The fields supplied when creating a task.
pub struct TaskForCreate {
    pub title: String,
}

/// A partial update of a task: an absent field is left untouched, never
/// written as empty.
pub struct TaskForUpdate {
    pub title: Option<String>,
}

/// The task model controller.
pub struct TaskBMC;

impl DbBMC for TaskBMC {
    open spec fn table_spec() -> Seq<char> {
        "task"@
    }

    fn table() -> (r: &'static str) {
        "task"
    }
}

impl RowDup for TaskForCreate {
    fn dup(&self) -> (r: Self) {
        TaskForCreate { title: self.title.clone() }
    }
}

impl FieldPatch<TaskForCreate> for TaskForUpdate {
    open spec fn spec_apply(self, t: TaskForCreate) -> TaskForCreate {
        match self.title {
            Some(x) => TaskForCreate { title: x },
            None => t,
        }
    }

    fn apply(self, t: &TaskForCreate) -> (r: TaskForCreate) {
        match self.title {
            Some(x) => TaskForCreate { title: x },
            None => t.dup(),
        }
    }
}

/// The task a row denotes.
pub open spec fn task_of_row(row: (i64, TaskForCreate)) -> Task {
    Task { id: row.0, title: row.1.title }
}

impl TaskBMC {
    /// Inserts the supplied fields as a new task and returns its fresh id.
    pub fn create(ctx: &Ctx, mm: &mut ModelManager, task_c: TaskForCreate) -> (r: Result<
        i64,
        Error,
    >)
        requires
            old(mm).wf(),
            old(mm).spec_tasks().next_id < i64::MAX,
            old(mm).spec_tasks().rows@.len() < usize::MAX,
        ensures
            final(mm).wf(),
            r matches Ok(id) && id == old(mm).spec_tasks().next_id,
            r matches Ok(id) && final(mm).spec_tasks().rows@ == old(mm).spec_tasks().rows@.push(
                (id, task_c),
            ),
            final(mm).spec_tasks().next_id == old(mm).spec_tasks().next_id + 1,
            final(mm).spec_users() == old(mm).spec_users(),
    {
        base::create::<TaskBMC, TaskForCreate>(ctx, &mut mm.db.tasks, task_c)
    }

    /// Reads a task; an absent id fails with `EntityNotFound { "task", id }`.
    pub fn get(ctx: &Ctx, mm: &ModelManager, id: i64) -> (r: Result<Task, Error>)
        requires
            mm.wf(),
        ensures
            mm.spec_tasks().contains_id(id) ==> r is Ok && r->Ok_0 == task_of_row((id, mm.spec_tasks().row_of(id))),
            !mm.spec_tasks().contains_id(id) ==> r is Err && base::not_found_err(r->Err_0, "task"@, id),
    {
        match base::get::<TaskBMC, TaskForCreate>(ctx, &mm.db.tasks, id) {
            Ok(data) => Ok(Task { id, title: data.title }),
            Err(e) => Err(e),
        }
    }

    /// Lists every task in ascending id order.
    pub fn list(ctx: &Ctx, mm: &ModelManager) -> (r: Result<Vec<Task>, Error>)
        requires
            mm.wf(),
        ensures
            r matches Ok(v) && v@.len() == mm.spec_tasks().rows@.len(),
            r matches Ok(v) && forall|i: int|
                0 <= i < v@.len() ==> #[trigger] v@[i] == task_of_row(mm.spec_tasks().rows@[i]),
    {
        let rows = match base::list::<TaskBMC, TaskForCreate>(ctx, &mm.db.tasks) {
            Ok(v) => v,
            Err(e) => {
                return Err(e);
            },
        };
        let n = rows.len();
        let mut out: Vec<Task> = Vec::new();
        let mut k: usize = 0;
        while k < n
            invariant
                n == rows@.len(),
                rows@ == mm.spec_tasks().rows@,
                0 <= k <= n,
                out@.len() == k,
                forall|i: int| 0 <= i < k ==> #[trigger] out@[i] == task_of_row(rows@[i]),
            decreases n - k,
        {
            let row = &rows[k];
            out.push(Task { id: row.0, title: row.1.title.clone() });
            k = k + 1;
        }
        Ok(out)
    }

    /// Applies a partial update; an absent id fails with
    /// `EntityNotFound { "task", id }` and changes nothing.
    pub fn update(ctx: &Ctx, mm: &mut ModelManager, id: i64, task_u: TaskForUpdate) -> (r: Result<
        (),
        Error,
    >)
        requires
            old(mm).wf(),
        ensures
            final(mm).wf(),
            final(mm).spec_users() == old(mm).spec_users(),
            final(mm).spec_tasks().next_id == old(mm).spec_tasks().next_id,
            old(mm).spec_tasks().contains_id(id) ==> r is Ok && final(mm).spec_tasks().rows@ == old(mm).spec_tasks().rows@.update(
                old(mm).spec_tasks().idx_of(id),
                (id, task_u.spec_apply(old(mm).spec_tasks().row_of(id))),
            ),
            !old(mm).spec_tasks().contains_id(id) ==> r is Err && base::not_found_err(r->Err_0, "task"@, id) && final(mm).spec_tasks().rows@ == old(mm).spec_tasks().rows@,
    {
        base::update::<TaskBMC, TaskForCreate, TaskForUpdate>(ctx, &mut mm.db.tasks, id, task_u)
    }

    /// Deletes a task; an absent id fails with `EntityNotFound { "task", id }`
    /// and changes nothing.
    pub fn delete(ctx: &Ctx, mm: &mut ModelManager, id: i64) -> (r: Result<(), Error>)
        requires
            old(mm).wf(),
        ensures
            final(mm).wf(),
            final(mm).spec_users() == old(mm).spec_users(),
            final(mm).spec_tasks().next_id == old(mm).spec_tasks().next_id,
            old(mm).spec_tasks().contains_id(id) ==> r is Ok && final(mm).spec_tasks().rows@ == old(mm).spec_tasks().rows@.remove(old(mm).spec_tasks().idx_of(id)),
            !old(mm).spec_tasks().contains_id(id) ==> r is Err && base::not_found_err(r->Err_0, "task"@, id) && final(mm).spec_tasks().rows@ == old(mm).spec_tasks().rows@,
    {
        base::delete::<TaskBMC, TaskForCreate>(ctx, &mut mm.db.tasks, id)
    }
}

/// Law: a partial update with an absent field is a no-op on that field —
/// with no fields present it leaves the task unchanged — and with the
/// field present it changes exactly that field.
pub proof fn lemma_partial_update(t: TaskForCreate, x: String)
    ensures
        (TaskForUpdate { title: None }).spec_apply(t) == t,
        (TaskForUpdate { title: Some(x) }).spec_apply(t) == (TaskForCreate { title: x }),
{
}

} // verus!
