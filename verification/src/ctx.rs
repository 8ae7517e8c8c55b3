use vstd::prelude::*;

verus! {

/// The caller identity that every store operation receives; its user id is
/// stamped into the audit columns on create and update.
pub struct Ctx {
    pub user_id: i64,
}

impl Ctx {
    /// The system context, with the reserved root user id 0.
    pub fn root_ctx() -> (c: Ctx)
        ensures
            c.user_id == 0,
    {
        Ctx { user_id: 0 }
    }

    /// A context for the given caller.
    pub fn new(user_id: i64) -> (c: Ctx)
        ensures
            c.user_id == user_id,
    {
        Ctx { user_id }
    }

    pub fn user_id(&self) -> (r: i64)
        ensures
            r == self.user_id,
    {
        self.user_id
    }
}

} // verus!
