//! Request context: the identity of the authenticated caller.

use vstd::prelude::*;

verus! {

/// Identity of the authenticated caller for one request.
///
/// A `Ctx` is constructed only by the context resolver, from a
/// successfully validated auth token, and is immutable thereafter.
#[derive(Clone, Copy, Debug, PartialEq, Eq)]
pub struct Ctx {
    user_id: u64,
}

impl Ctx {
    /// The user id this context was resolved to.
    pub closed spec fn spec_user_id(&self) -> u64 {
        self.user_id
    }

    pub fn new(user_id: u64) -> (r: Self)
        ensures
            r.spec_user_id() == user_id,
    {
        Ctx { user_id }
    }

    pub fn user_id(&self) -> (r: u64)
        ensures
            r == self.spec_user_id(),
    {
        self.user_id
    }
}

} // verus!
