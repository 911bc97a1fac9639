use vstd::prelude::*;

verus! {

/// Errors of context construction.
#[derive(Debug, Clone, Copy, PartialEq, Eq, Structural)]
pub enum Error {
    CtxCannotNewRootCtx,
}

/// The resolved identity of a request: the authenticated user.  Built only
/// by successful token resolution or by the explicit root bootstrap value;
/// never from untrusted input directly.
#[derive(Debug, Clone, Copy, PartialEq, Eq, Structural)]
pub struct Ctx {
    user_id: u64,
}

impl Ctx {
    /// The identifier this context carries.
    pub closed spec fn spec_user_id(&self) -> u64 {
        self.user_id
    }

    /// The root bootstrap context, for system-internal calls only.
    pub fn root_ctx() -> (c: Ctx)
        ensures
            c.spec_user_id() == 0,
    {
        Ctx { user_id: 0 }
    }

    /// Builds a context for a real user.  The root identifier is reserved
    /// for the bootstrap value and is refused.
    pub fn new(user_id: u64) -> (r: Result<Ctx, Error>)
        ensures
            user_id == 0 ==> r == Err::<Ctx, Error>(Error::CtxCannotNewRootCtx),
            user_id != 0 ==> r is Ok && r->Ok_0.spec_user_id() == user_id,
    {
        if user_id == 0 {
            Err(Error::CtxCannotNewRootCtx)
        } else {
            Ok(Ctx { user_id })
        }
    }

    pub fn user_id(&self) -> (r: u64)
        ensures
            r == self.spec_user_id(),
    {
        self.user_id
    }
}

} // verus!
