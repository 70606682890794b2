use vstd::prelude::*;

verus! {

/// Errors of the request context.
#[derive(Debug, Clone, Copy, PartialEq, Eq, Structural)]
pub enum CtxError {
    CtxCannotNewRootCtx,
}

/// The request context: the id of the user on whose behalf a request runs.
/// The id 0 is reserved for the system (root) context.
#[derive(Clone, Copy, Debug)]
pub struct Ctx {
    user_id: i64,
}

impl View for Ctx {
    type V = i64;

    closed spec fn view(&self) -> i64 {
        self.user_id
    }
}

impl Ctx {
    /// The root context, which runs as the system user 0.
    pub fn root_ctx() -> (res: Self)
        ensures
            res@ == 0,
    {
        Ctx { user_id: 0 }
    }

    /// A context for `user_id`; the root user 0 cannot be named here.
    pub fn new(user_id: i64) -> (res: Result<Self, CtxError>)
        ensures
            user_id == 0 <==> res is Err,
            res matches Ok(c) ==> c@ == user_id,
            res matches Err(e) ==> e == CtxError::CtxCannotNewRootCtx,
    {
        if user_id == 0 {
            Err(CtxError::CtxCannotNewRootCtx)
        } else {
            Ok(Self { user_id })
        }
    }

    /// The id of the user of this context.
    pub fn user_id(&self) -> (res: i64)
        ensures
            res == self@,
    {
        self.user_id
    }
}

} // verus!
