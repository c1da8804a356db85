use vstd::prelude::*;

use crate::cell::Owner;
use crate::cell::ThreadCell;

verus! {

/// A cell records at most one owner: whenever two thread identities both
/// own a cell, in whatever mode, they are the same identity. In a race of
/// many threads for one cell, at most one of them can therefore hold it
/// afterwards.
pub proof fn lemma_at_most_one_owner<T>(c: ThreadCell<T>, a: u64, b: u64)
    requires
        c.owned_by(a),
        c.owned_by(b),
    ensures
        a == b,
{
}

/// Racing raw acquisitions have exactly one winner: after a thread has
/// taken a disowned cell, that thread is the recorded owner, and a raw
/// acquisition by any other thread fails.
pub proof fn lemma_acquire_race<T>(pre: ThreadCell<T>, post: ThreadCell<T>, a: u64, b: u64)
    requires
        pre.acquire_step(post, a),
        a != b,
    ensures
        post.owned_by(a),
        !post.may_raw_acquire(b),
        !post.may_guard_acquire(),
{
}

/// A disowned cell turns nobody away: any thread's raw or guarded
/// acquisition succeeds on it. In particular, once a guard has been handed
/// back — which always leaves the cell disowned — any other thread can
/// take the cell over.
pub proof fn lemma_disowned_acquirable<T>(c: ThreadCell<T>)
    requires
        c.owner() is Disowned,
    ensures
        forall|id: u64| c.may_raw_acquire(id),
        forall|id: u64| c.may_release(id) == false,
        c.may_guard_acquire(),
{
}

/// While a guard holds a cell, the guarded mode excludes everything else:
/// no raw acquisition, no explicit release and no further guarded
/// acquisition can succeed — not even for the thread that holds the
/// guard. Handing the guard back is the only exit.
pub proof fn lemma_guard_excludes<T>(c: ThreadCell<T>, holder: u64, id: u64)
    requires
        c.owner() == Owner::Guarded(holder),
    ensures
        !c.may_raw_acquire(id),
        !c.may_release(id),
        !c.may_guard_acquire(),
        c.owned_by(id) ==> id == holder,
{
}

/// While a cell is raw-owned, the raw mode excludes the guarded one: a
/// guarded acquisition fails, whoever asks — including the raw owner
/// itself. Only the owner's release succeeds.
pub proof fn lemma_raw_excludes_guard<T>(c: ThreadCell<T>, owner: u64, id: u64)
    requires
        c.owner() == Owner::Raw(owner),
    ensures
        !c.may_guard_acquire(),
        c.may_raw_acquire(id) == (id == owner),
        c.may_release(id) == (id == owner),
{
}

/// A value put into a cell survives the hand-over: when the owning thread
/// releases the cell and any thread — the same or another — acquires it
/// again, the new owner reads exactly the value the previous owner left.
pub proof fn lemma_value_round_trip<T>(
    c1: ThreadCell<T>,
    c2: ThreadCell<T>,
    c3: ThreadCell<T>,
    a: u64,
    b: u64,
    x: T,
)
    requires
        c1.value() == x,
        c1.release_step(c2, a),
        c2.acquire_step(c3, b),
    ensures
        c3.value() == x,
        c3.owned_by(b),
{
}

} // verus!
