pub mod task_rpc;

use vstd::prelude::*;

use crate::ctx::Ctx;
use crate::model::base;
use crate::model::base::FieldPatch;
use crate::model::task::{task_of_row, Task, TaskForCreate, TaskForUpdate};
use crate::model::ModelManager;
use crate::web::Error;

verus! {

/// Params of a create call: the entity's fields.
pub struct ParamsForCreate<D> {
    pub data: D,
}

/// Params of an update call: the target id and the partial fields.
pub struct ParamsForUpdate<D> {
    pub id: i64,
    pub data: D,
}

/// Params of a call addressed by id alone.
pub struct ParamsById {
    pub id: i64,
}

/// The shape-validated params of one of the known methods.
pub enum RpcParams {
    CreateTask(ParamsForCreate<TaskForCreate>),
    UpdateTask(ParamsForUpdate<TaskForUpdate>),
    ById(ParamsById),
}

/// What the transport found in the request's `params` member: nothing,
/// something that does not fit the method's schema, or a validated shape.
pub enum RpcParamsInput {
    Absent,
    Malformed,
    Parsed(RpcParams),
}

/// A typed RPC result, serialized uniformly by the transport beside the
/// echoed request id.
#[derive(Debug)]
pub enum RpcReply {
    TaskReply(Task),
    TaskListReply(Vec<Task>),
    UnitReply,
}

/// True when the method name is one of the fixed, statically known set.
pub open spec fn known_method(m: Seq<char>) -> bool {
    m == "create_task"@ || m == "list_tasks"@ || m == "update_task"@ || m == "delete_task"@
}

/// The create-shaped params, if the input carries them.
pub open spec fn as_create(params: RpcParamsInput) -> Option<ParamsForCreate<TaskForCreate>> {
    match params {
        RpcParamsInput::Parsed(RpcParams::CreateTask(p)) => Some(p),
        _ => None,
    }
}

/// The update-shaped params, if the input carries them.
pub open spec fn as_update(params: RpcParamsInput) -> Option<ParamsForUpdate<TaskForUpdate>> {
    match params {
        RpcParamsInput::Parsed(RpcParams::UpdateTask(p)) => Some(p),
        _ => None,
    }
}

/// The id-shaped params, if the input carries them.
pub open spec fn as_by_id(params: RpcParamsInput) -> Option<ParamsById> {
    match params {
        RpcParamsInput::Parsed(RpcParams::ById(p)) => Some(p),
        _ => None,
    }
}

/// The params shape a method expects, for the transport layer to know
/// which schema to read the JSON `params` member against.
#[derive(Debug, Clone, Copy, PartialEq, Eq, Structural)]
pub enum RpcParamsKind {
    ForCreateTask,
    ForUpdateTask,
    ForId,
    NoParams,
}

/// Names the params shape of each known method; an unknown method has
/// none.  The transport reads the request's params against this shape and
/// hands the outcome back to `rpc_execute`, which makes every decision.
pub fn rpc_params_kind(method: &str) -> (r: Option<RpcParamsKind>)
    ensures
        method@ == "create_task"@ ==> r == Some(RpcParamsKind::ForCreateTask),
        method@ == "update_task"@ ==> r == Some(RpcParamsKind::ForUpdateTask),
        method@ == "delete_task"@ ==> r == Some(RpcParamsKind::ForId),
        method@ == "list_tasks"@ ==> r == Some(RpcParamsKind::NoParams),
        !known_method(method@) ==> r is None,
{
    proof {
        lemma_methods_distinct();
    }
    if str_eq_exec(method, "create_task") {
        Some(RpcParamsKind::ForCreateTask)
    } else if str_eq_exec(method, "update_task") {
        Some(RpcParamsKind::ForUpdateTask)
    } else if str_eq_exec(method, "delete_task") {
        Some(RpcParamsKind::ForId)
    } else if str_eq_exec(method, "list_tasks") {
        Some(RpcParamsKind::NoParams)
    } else {
        None
    }
}

proof fn lemma_methods_distinct()
    ensures
        "create_task"@ != "update_task"@,
        "create_task"@ != "delete_task"@,
        "create_task"@ != "list_tasks"@,
        "update_task"@ != "delete_task"@,
        "update_task"@ != "list_tasks"@,
        "delete_task"@ != "list_tasks"@,
{
    reveal_strlit("create_task");
    reveal_strlit("list_tasks");
    reveal_strlit("update_task");
    reveal_strlit("delete_task");
    assert("create_task"@[0] == 'c' && "update_task"@[0] == 'u' && "delete_task"@[0] == 'd');
    assert("create_task"@.len() == 11 && "update_task"@.len() == 11 && "delete_task"@.len() == 11
        && "list_tasks"@.len() == 10);
}

fn str_eq_exec(a: &str, b: &str) -> (r: bool)
    ensures
        r == (a@ == b@),
{
    crate::crypt::ct_str_eq(a, b)
}

/// Dispatches a method name and its params to the matching task operation.
/// An unknown name, absent params where the method needs them, and params
/// of the wrong shape each fail with their own error; otherwise the call
/// is the corresponding task operation.
#[verifier::rlimit(100)]
pub fn rpc_execute(ctx: &Ctx, mm: &mut ModelManager, method: &str, params: RpcParamsInput) -> (r:
    Result<RpcReply, Error>)
    requires
        old(mm).wf(),
        old(mm).spec_tasks().next_id < i64::MAX,
        old(mm).spec_tasks().rows@.len() < usize::MAX,
    ensures
        final(mm).wf(),
        final(mm).spec_users() == old(mm).spec_users(),
        !known_method(method@) ==> final(mm).spec_tasks() == old(mm).spec_tasks() && r is Err && (
        r->Err_0 matches Error::RpcMethodUnknown(m) && m@ == method@),
        (known_method(method@) && method@ != "list_tasks"@ && params is Absent) ==> final(mm).spec_tasks() == old(mm).spec_tasks() && r is Err && (r->Err_0 matches
            Error::RpcMissingParams { rpc_method } && rpc_method@ == method@),
        (method@ == "create_task"@ && as_create(params) is None && !(params is Absent)) ==> final(mm).spec_tasks() == old(mm).spec_tasks() && r is Err && (r->Err_0 matches
            Error::RpcFailToInterpret { rpc_method } && rpc_method@ == method@),
        (method@ == "update_task"@ && as_update(params) is None && !(params is Absent)) ==> final(mm).spec_tasks() == old(mm).spec_tasks() && r is Err && (r->Err_0 matches
            Error::RpcFailToInterpret { rpc_method } && rpc_method@ == method@),
        (method@ == "delete_task"@ && as_by_id(params) is None && !(params is Absent)) ==> final(mm).spec_tasks() == old(mm).spec_tasks() && r is Err && (r->Err_0 matches
            Error::RpcFailToInterpret { rpc_method } && rpc_method@ == method@),
        (method@ == "create_task"@ && as_create(params) is Some) ==> r is Ok && (r->Ok_0 matches
            RpcReply::TaskReply(t) && t.id == old(mm).spec_tasks().next_id && t.title@ == as_create(
            params,
        )->Some_0.data.title@ && final(mm).spec_tasks().rows@ == old(mm).spec_tasks().rows@.push(
            (t.id, as_create(params)->Some_0.data),
        )),
        method@ == "list_tasks"@ ==> final(mm).spec_tasks() == old(mm).spec_tasks() && r is Ok && (
        r->Ok_0 matches RpcReply::TaskListReply(v) && v@.len() == old(mm).spec_tasks().rows@.len()
            && (forall|i: int|
            0 <= i < v@.len() ==> #[trigger] v@[i] == task_of_row(old(mm).spec_tasks().rows@[i]))),
        (method@ == "update_task"@ && as_update(params) is Some && old(mm).spec_tasks().contains_id(
            as_update(params)->Some_0.id,
        )) ==> r is Ok && r->Ok_0 is UnitReply && final(mm).spec_tasks().rows@ == old(mm).spec_tasks().rows@.update(
            old(mm).spec_tasks().idx_of(as_update(params)->Some_0.id),
            (
                as_update(params)->Some_0.id,
                as_update(params)->Some_0.data.spec_apply(
                    old(mm).spec_tasks().row_of(as_update(params)->Some_0.id),
                ),
            ),
        ),
        (method@ == "update_task"@ && as_update(params) is Some && !old(mm).spec_tasks().contains_id(as_update(params)->Some_0.id)) ==> final(mm).spec_tasks().rows@
            == old(mm).spec_tasks().rows@ && final(mm).spec_tasks().next_id == old(mm).spec_tasks().next_id && r is Err && (r->Err_0 matches Error::Model(e)
            && base::not_found_err(e, "task"@, as_update(params)->Some_0.id)),
        (method@ == "delete_task"@ && as_by_id(params) is Some && old(mm).spec_tasks().contains_id(
            as_by_id(params)->Some_0.id,
        )) ==> r is Ok && (r->Ok_0 matches RpcReply::TaskReply(t) && t == task_of_row(
            (as_by_id(params)->Some_0.id, old(mm).spec_tasks().row_of(as_by_id(params)->Some_0.id)),
        )) && final(mm).spec_tasks().rows@ == old(mm).spec_tasks().rows@.remove(
            old(mm).spec_tasks().idx_of(as_by_id(params)->Some_0.id),
        ),
        (method@ == "delete_task"@ && as_by_id(params) is Some && !old(mm).spec_tasks().contains_id(
            as_by_id(params)->Some_0.id,
        )) ==> final(mm).spec_tasks().rows@ == old(mm).spec_tasks().rows@ && final(mm).spec_tasks().next_id == old(mm).spec_tasks().next_id && r is Err && (r->Err_0 matches
            Error::Model(e) && base::not_found_err(e, "task"@, as_by_id(params)->Some_0.id)),
{
    proof {
        lemma_methods_distinct();
    }
    if str_eq_exec(method, "create_task") {
        match params {
            RpcParamsInput::Absent => Err(
                Error::RpcMissingParams { rpc_method: method.to_owned() },
            ),
            RpcParamsInput::Parsed(RpcParams::CreateTask(p)) => {
                match task_rpc::create_task(ctx, mm, p) {
                    Ok(t) => Ok(RpcReply::TaskReply(t)),
                    Err(e) => Err(e),
                }
            },
            _ => Err(Error::RpcFailToInterpret { rpc_method: method.to_owned() }),
        }
    } else if str_eq_exec(method, "list_tasks") {
        match task_rpc::list_tasks(ctx, mm) {
            Ok(v) => Ok(RpcReply::TaskListReply(v)),
            Err(e) => Err(e),
        }
    } else if str_eq_exec(method, "update_task") {
        match params {
            RpcParamsInput::Absent => Err(
                Error::RpcMissingParams { rpc_method: method.to_owned() },
            ),
            RpcParamsInput::Parsed(RpcParams::UpdateTask(p)) => {
                match task_rpc::update_task(ctx, mm, p) {
                    Ok(()) => Ok(RpcReply::UnitReply),
                    Err(e) => Err(e),
                }
            },
            _ => Err(Error::RpcFailToInterpret { rpc_method: method.to_owned() }),
        }
    } else if str_eq_exec(method, "delete_task") {
        match params {
            RpcParamsInput::Absent => Err(
                Error::RpcMissingParams { rpc_method: method.to_owned() },
            ),
            RpcParamsInput::Parsed(RpcParams::ById(p)) => {
                match task_rpc::delete_task(ctx, mm, p) {
                    Ok(t) => Ok(RpcReply::TaskReply(t)),
                    Err(e) => Err(e),
                }
            },
            _ => Err(Error::RpcFailToInterpret { rpc_method: method.to_owned() }),
        }
    } else {
        Err(Error::RpcMethodUnknown(method.to_owned()))
    }
}

} // verus!
