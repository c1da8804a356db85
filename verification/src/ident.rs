use vstd::prelude::*;

verus! {

/// Top bit of a cell's owner word. It is set while a scope guard holds the
/// cell and clear while the cell is raw-owned, so one `u64` word can encode
/// "disowned" (`0`), "raw-owned by `id`" (`id`) and "guard-owned by `id`"
/// (`GUARD_BIT + id`).
pub const GUARD_BIT: u64 = 0x8000_0000_0000_0000;

/// Process-wide identity of one thread: a positive integer strictly below
/// [`GUARD_BIT`], so that it fits in an owner word with the top bit clear.
/// `0` is never a thread identity; it is the "disowned" sentinel.
#[derive(Clone, Copy)]
pub struct ThreadId {
    id: u64,
}

impl View for ThreadId {
    type V = u64;

    closed spec fn view(&self) -> u64 {
        self.id
    }
}

impl ThreadId {
    /// Every `ThreadId` is positive and leaves the guard bit clear.
    #[verifier::type_invariant]
    spec fn inv(self) -> bool {
        1 <= self.id < GUARD_BIT
    }

    /// Wraps a raw identity, refusing `0` (reserved for "disowned") and
    /// values that would collide with the guard bit.
    pub fn from_raw(raw: u64) -> (r: Option<ThreadId>)
        ensures
            r is Some <==> 1 <= raw < GUARD_BIT,
            r matches Some(id) ==> id@ == raw,
    {
        if 1 <= raw && raw < GUARD_BIT {
            Some(ThreadId { id: raw })
        } else {
            None
        }
    }

    /// The raw value of this identity.
    pub fn as_u64(&self) -> (r: u64)
        ensures
            r == self@,
            1 <= self@ < GUARD_BIT,
    {
        proof {
            use_type_invariant(self);
        }
        self.id
    }
}

/// Hands out thread identities from a monotonically increasing counter, so
/// that no two calls ever return the same identity. The counter starts at
/// `1`: `0` stays reserved for the disowned state.
pub struct IdProvider {
    next: u64,
}

impl IdProvider {
    /// The counter never leaves `1 ..= GUARD_BIT`; once it reaches
    /// `GUARD_BIT` the identity space is exhausted.
    #[verifier::type_invariant]
    spec fn inv(self) -> bool {
        1 <= self.next <= GUARD_BIT
    }

    /// The identity the next call of [`IdProvider::fresh`] will return.
    pub closed spec fn spec_next(self) -> u64 {
        self.next
    }

    /// A provider that has issued no identity yet.
    pub fn new() -> (r: IdProvider)
        ensures
            r.spec_next() == 1,
    {
        IdProvider { next: 1 }
    }

    /// Issues the next identity. Identities come out strictly increasing,
    /// hence no identity is ever issued twice. Exhaustion of the identity
    /// space is a fatal condition, excluded here rather than handled:
    /// wrapping around would hand the same identity to two threads.
    pub fn fresh(&mut self) -> (r: ThreadId)
        requires
            old(self).spec_next() < GUARD_BIT,
        ensures
            r@ == old(self).spec_next(),
            final(self).spec_next() == old(self).spec_next() + 1,
    {
        proof {
            use_type_invariant(&*self);
        }
        let id = self.next;
        self.next = id + 1;
        ThreadId { id }
    }
}

} // verus!
