use vstd::prelude::*;

use crate::ident::ThreadId;

verus! {

/// Proof of a guarded hold on a [`ThreadCell`](crate::ThreadCell), handed
/// out only by a successful guarded acquisition. While the cell is
/// guard-owned, handing a guard back to
/// [`release_guard`](crate::ThreadCell::release_guard) is the one way to
/// release it; an explicit release or a steal refuses a guarded cell. Use
/// this variant for read access and [`GuardMut`] where the value is to be
/// written.
pub struct Guard {
    me: ThreadId,
}

impl Guard {
    /// The identity of the thread that acquired this guard.
    pub closed spec fn holder(self) -> u64 {
        self.me@
    }

    pub(crate) fn new(me: ThreadId) -> (g: Guard)
        ensures
            g.holder() == me@,
    {
        Guard { me }
    }
}

/// Proof of a guarded hold on a [`ThreadCell`](crate::ThreadCell) taken for
/// writing, handed out only by a successful guarded acquisition and handed
/// back to [`release_guard_mut`](crate::ThreadCell::release_guard_mut) to
/// release the cell.
pub struct GuardMut {
    me: ThreadId,
}

impl GuardMut {
    /// The identity of the thread that acquired this guard.
    pub closed spec fn holder(self) -> u64 {
        self.me@
    }

    pub(crate) fn new(me: ThreadId) -> (g: GuardMut)
        ensures
            g.holder() == me@,
    {
        GuardMut { me }
    }
}

} // verus!
