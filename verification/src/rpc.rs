//! Routing of JSON-RPC 2.0 requests to the task operations.
use vstd::prelude::*;

verus! {

/// The task operations that the RPC endpoint offers.
#[derive(Debug, Clone, Copy, PartialEq, Eq, Structural)]
pub enum RpcMethod {
    TaskCreate,
    TaskList,
    TaskUpdate,
    TaskDelete,
}

/// Errors of RPC routing.
#[derive(Debug)]
pub enum RpcError {
    RpcMethodUnknown(String),
    RpcMissingParams { rpc_method: String },
    RpcFailJsonParams { rpc_method: String },
}

/// The operation that a method name selects.
pub open spec fn spec_rpc_method(method: Seq<char>) -> Option<RpcMethod> {
    if method == "task.create"@ {
        Some(RpcMethod::TaskCreate)
    } else if method == "task.list"@ {
        Some(RpcMethod::TaskList)
    } else if method == "task.update"@ {
        Some(RpcMethod::TaskUpdate)
    } else if method == "task.delete"@ {
        Some(RpcMethod::TaskDelete)
    } else {
        None
    }
}

/// The name of the handler of an operation, as its errors report it.
pub open spec fn spec_handler_name(m: RpcMethod) -> Seq<char> {
    match m {
        RpcMethod::TaskCreate => "create_task"@,
        RpcMethod::TaskList => "list_tasks"@,
        RpcMethod::TaskUpdate => "update_task"@,
        RpcMethod::TaskDelete => "delete_task"@,
    }
}

impl RpcMethod {
    /// The name of the handler of this operation.
    pub fn handler_name(&self) -> (res: String)
        ensures
            res@ == spec_handler_name(*self),
    {
        match self {
            RpcMethod::TaskCreate => String::from_str("create_task"),
            RpcMethod::TaskList => String::from_str("list_tasks"),
            RpcMethod::TaskUpdate => String::from_str("update_task"),
            RpcMethod::TaskDelete => String::from_str("delete_task"),
        }
    }

    /// The error for parameters that do not read as this operation's
    /// parameters.
    pub fn json_params_error(&self) -> (res: RpcError)
        ensures
            res matches RpcError::RpcFailJsonParams { rpc_method } && rpc_method@ == spec_handler_name(*self),
    {
        RpcError::RpcFailJsonParams { rpc_method: self.handler_name() }
    }
}

/// The operation that a request calls: an unknown method is
/// `RpcMethodUnknown` with the method; a known one without parameters is
/// `RpcMissingParams` with its handler's name.
pub fn resolve_rpc(method: String, has_params: bool) -> (res: Result<RpcMethod, RpcError>)
    ensures
        match spec_rpc_method(method@) {
            None => (res matches Err(RpcError::RpcMethodUnknown(m)) && m@ == method@),
            Some(k) => if has_params {
                res == Ok::<RpcMethod, RpcError>(k)
            } else {
                res matches Err(RpcError::RpcMissingParams { rpc_method }) && rpc_method@ == spec_handler_name(k)
            },
        },
{
    let kind = if method == String::from_str("task.create") {
        RpcMethod::TaskCreate
    } else if method == String::from_str("task.list") {
        RpcMethod::TaskList
    } else if method == String::from_str("task.update") {
        RpcMethod::TaskUpdate
    } else if method == String::from_str("task.delete") {
        RpcMethod::TaskDelete
    } else {
        return Err(RpcError::RpcMethodUnknown(method));
    };
    if has_params {
        Ok(kind)
    } else {
        Err(RpcError::RpcMissingParams { rpc_method: kind.handler_name() })
    }
}

} // verus!
