use vstd::prelude::*;

use crate::ctx::Ctx;
use crate::model::base;
use crate::model::base::FieldPatch;
use crate::model::task::{task_of_row, Task, TaskBMC, TaskForCreate, TaskForUpdate};
use crate::model::ModelManager;
use crate::web::rpc::{ParamsById, ParamsForCreate, ParamsForUpdate};
use crate::web::Error;

verus! {

/// Creates a task from the shape-validated params and returns the stored
/// row read back.
pub fn create_task(ctx: &Ctx, mm: &mut ModelManager, params: ParamsForCreate<TaskForCreate>) -> (
    r: Result<Task, Error>)
    requires
        old(mm).wf(),
        old(mm).spec_tasks().next_id < i64::MAX,
        old(mm).spec_tasks().rows@.len() < usize::MAX,
    ensures
        final(mm).wf(),
        final(mm).spec_users() == old(mm).spec_users(),
        r is Ok && r->Ok_0.id == old(mm).spec_tasks().next_id && r->Ok_0.title@
            == params.data.title@,
        r is Ok && final(mm).spec_tasks().rows@ == old(mm).spec_tasks().rows@.push(
            (r->Ok_0.id, params.data),
        ),
{
    let ParamsForCreate { data } = params;
    let id = match TaskBMC::create(ctx, mm, data) {
        Ok(id) => id,
        Err(e) => {
            return Err(Error::Model(e));
        },
    };
    proof {
        let rows = mm.spec_tasks().rows@;
        mm.spec_tasks().lemma_idx_unique(id, rows.len() - 1);
    }
    match TaskBMC::get(ctx, mm, id) {
        Ok(task) => Ok(task),
        Err(e) => Err(Error::Model(e)),
    }
}

/// Lists every task, ascending by id.
pub fn list_tasks(ctx: &Ctx, mm: &ModelManager) -> (r: Result<Vec<Task>, Error>)
    requires
        mm.wf(),
    ensures
        r is Ok && r->Ok_0@.len() == mm.spec_tasks().rows@.len(),
        r is Ok && forall|i: int|
            0 <= i < r->Ok_0@.len() ==> #[trigger] r->Ok_0@[i] == task_of_row(
                mm.spec_tasks().rows@[i],
            ),
{
    match TaskBMC::list(ctx, mm) {
        Ok(v) => Ok(v),
        Err(e) => Err(Error::Model(e)),
    }
}

/// Applies a partial update to a task; an absent id surfaces the model's
/// not-found error.
pub fn update_task(ctx: &Ctx, mm: &mut ModelManager, params: ParamsForUpdate<TaskForUpdate>) -> (
    r: Result<(), Error>)
    requires
        old(mm).wf(),
    ensures
        final(mm).wf(),
        final(mm).spec_users() == old(mm).spec_users(),
        final(mm).spec_tasks().next_id == old(mm).spec_tasks().next_id,
        old(mm).spec_tasks().contains_id(params.id) ==> r is Ok && final(mm).spec_tasks().rows@
            == old(mm).spec_tasks().rows@.update(
            old(mm).spec_tasks().idx_of(params.id),
            (params.id, params.data.spec_apply(old(mm).spec_tasks().row_of(params.id))),
        ),
        !old(mm).spec_tasks().contains_id(params.id) ==> r is Err && (r->Err_0 matches
            Error::Model(e) && base::not_found_err(e, "task"@, params.id)) && final(mm).spec_tasks().rows@ == old(mm).spec_tasks().rows@,
{
    let ParamsForUpdate { id, data } = params;
    match TaskBMC::update(ctx, mm, id, data) {
        Ok(()) => Ok(()),
        Err(e) => Err(Error::Model(e)),
    }
}

/// Deletes a task and returns it as it stood; an absent id surfaces the
/// model's not-found error.
pub fn delete_task(ctx: &Ctx, mm: &mut ModelManager, params: ParamsById) -> (r: Result<
    Task,
    Error,
>)
    requires
        old(mm).wf(),
    ensures
        final(mm).wf(),
        final(mm).spec_users() == old(mm).spec_users(),
        final(mm).spec_tasks().next_id == old(mm).spec_tasks().next_id,
        old(mm).spec_tasks().contains_id(params.id) ==> r is Ok && r->Ok_0 == task_of_row(
            (params.id, old(mm).spec_tasks().row_of(params.id)),
        ) && final(mm).spec_tasks().rows@ == old(mm).spec_tasks().rows@.remove(
            old(mm).spec_tasks().idx_of(params.id),
        ),
        !old(mm).spec_tasks().contains_id(params.id) ==> r is Err && (r->Err_0 matches
            Error::Model(e) && base::not_found_err(e, "task"@, params.id)) && final(mm).spec_tasks().rows@ == old(mm).spec_tasks().rows@,
{
    let ParamsById { id } = params;
    let task = match TaskBMC::get(ctx, mm, id) {
        Ok(t) => t,
        Err(e) => {
            return Err(Error::Model(e));
        },
    };
    match TaskBMC::delete(ctx, mm, id) {
        Ok(()) => Ok(task),
        Err(e) => Err(Error::Model(e)),
    }
}

} // verus!
