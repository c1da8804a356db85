use vstd::prelude::*;

use crate::guard::Guard;
use crate::guard::GuardMut;
use crate::ident::GUARD_BIT;
use crate::ident::ThreadId;

verus! {

/// The ownership state of a [`ThreadCell`], as recorded in its owner word.
/// The three states are mutually exclusive: a cell is disowned, raw-owned
/// by exactly one thread, or guard-owned by exactly one thread.
pub enum Owner {
    /// No thread owns the cell; nobody may touch the value.
    Disowned,
    /// The thread with this identity owns the cell and releases it by an
    /// explicit call.
    Raw(u64),
    /// The thread with this identity owns the cell through a scope guard;
    /// only handing the guard back releases the cell.
    Guarded(u64),
}

/// The ownership state a raw owner word encodes: `0` is disowned, a value
/// with the top bit clear is a raw owner's identity, and a value with the
/// top bit set carries a guard holder's identity in its lower bits.
pub open spec fn word_owner(w: u64) -> Owner {
    if w == 0 {
        Owner::Disowned
    } else if w < GUARD_BIT {
        Owner::Raw(w)
    } else {
        Owner::Guarded((w - GUARD_BIT) as u64)
    }
}

/// A cell holding one value that at any moment at most one thread may read
/// or write. Ownership is taken and given up through the acquire/release
/// operations or through scope guards; every access to the value checks the
/// caller's [`ThreadId`] against the recorded owner.
pub struct ThreadCell<T> {
    data: T,
    state: u64,
}

impl<T> ThreadCell<T> {
    /// The ownership state of this cell.
    pub closed spec fn owner(self) -> Owner {
        word_owner(self.state)
    }

    /// The value the cell holds, whoever owns it.
    pub closed spec fn value(self) -> T {
        self.data
    }

    /// Well-formedness: whichever thread the owner word names holds a real
    /// thread identity, positive and below [`GUARD_BIT`]. Constructors
    /// establish this and every operation preserves it.
    pub closed spec fn wf(self) -> bool {
        match self.owner() {
            Owner::Disowned => true,
            Owner::Raw(id) => 1 <= id < GUARD_BIT,
            Owner::Guarded(id) => 1 <= id < GUARD_BIT,
        }
    }

    /// Whether the thread with identity `id` owns the cell, in either mode.
    /// Such a thread may read and write the value.
    pub open spec fn owned_by(self, id: u64) -> bool {
        self.owner() == Owner::Raw(id) || self.owner() == Owner::Guarded(id)
    }

    /// Whether a raw acquisition by the thread with identity `id` succeeds:
    /// the cell is disowned, or that thread already raw-owns it. A cell
    /// guard-owned by the very same thread refuses a raw acquisition.
    pub open spec fn may_raw_acquire(self, id: u64) -> bool {
        self.owner() is Disowned || self.owner() == Owner::Raw(id)
    }

    /// Whether a guarded acquisition succeeds: only on a disowned cell,
    /// whoever asks — holding the cell in both modes at once, or under two
    /// guards, is never possible.
    pub open spec fn may_guard_acquire(self) -> bool {
        self.owner() is Disowned
    }

    /// Whether the thread with identity `id` may release the cell by an
    /// explicit call: only the raw owner may; a guard-owned cell is
    /// released only through its guard.
    pub open spec fn may_release(self, id: u64) -> bool {
        self.owner() == Owner::Raw(id)
    }

    /// The transition a successful raw acquisition performs: disowned
    /// before, raw-owned by the acquiring thread after, value untouched.
    pub open spec fn acquire_step(self, post: ThreadCell<T>, id: u64) -> bool {
        &&& self.owner() is Disowned
        &&& post.owner() == Owner::Raw(id)
        &&& post.value() == self.value()
    }

    /// The transition a release performs: raw-owned by the releasing
    /// thread before, disowned after, value untouched.
    pub open spec fn release_step(self, post: ThreadCell<T>, id: u64) -> bool {
        &&& self.owner() == Owner::Raw(id)
        &&& post.owner() is Disowned
        &&& post.value() == self.value()
    }

    /// Creates a cell that no thread owns. Before the value can be read or
    /// written, some thread has to acquire the cell.
    pub fn new_disowned(data: T) -> (c: ThreadCell<T>)
        ensures
            c.wf(),
            c.owner() is Disowned,
            c.value() == data,
    {
        ThreadCell { data, state: 0 }
    }

    /// Creates a cell already raw-owned by the calling thread, which passes
    /// its own identity as `me`.
    pub fn new_owned(data: T, me: ThreadId) -> (c: ThreadCell<T>)
        ensures
            c.wf(),
            c.owner() == Owner::Raw(me@),
            c.value() == data,
    {
        let id = me.as_u64();
        ThreadCell { data, state: id }
    }

    /// Takes raw ownership of a disowned cell for the calling thread. A
    /// cell owned by anyone — another thread, or the caller itself in
    /// either mode — refuses the acquisition fatally, which the
    /// precondition rules out; [`ThreadCell::try_acquire`] is the
    /// non-fatal way to ask.
    pub fn acquire(&mut self, me: ThreadId)
        requires
            old(self).wf(),
            old(self).owner() is Disowned,
        ensures
            final(self).wf(),
            old(self).acquire_step(*final(self), me@),
    {
        let id = me.as_u64();
        self.state = id;
    }

    /// Tries to take raw ownership for the calling thread. Returns true
    /// when the cell was disowned or the caller already raw-owned it — the
    /// caller raw-owns the cell afterwards — and false, leaving the cell
    /// untouched, when another thread owns it or a guard holds it.
    pub fn try_acquire(&mut self, me: ThreadId) -> (r: bool)
        requires
            old(self).wf(),
        ensures
            final(self).wf(),
            final(self).value() == old(self).value(),
            r == old(self).may_raw_acquire(me@),
            r ==> final(self).owner() == Owner::Raw(me@),
            !r ==> final(self).owner() == old(self).owner(),
    {
        let id = me.as_u64();
        if self.state == 0 || self.state == id {
            self.state = id;
            true
        } else {
            false
        }
    }

    /// Tries to take raw ownership, succeeding only on a disowned cell.
    /// Unlike [`ThreadCell::try_acquire`] this returns false when the
    /// caller already owns the cell: it strictly requires the transition
    /// from disowned to owned.
    pub fn try_acquire_once(&mut self, me: ThreadId) -> (r: bool)
        requires
            old(self).wf(),
        ensures
            final(self).wf(),
            final(self).value() == old(self).value(),
            r == old(self).may_guard_acquire(),
            r ==> old(self).acquire_step(*final(self), me@),
            !r ==> final(self).owner() == old(self).owner(),
    {
        let id = me.as_u64();
        if self.state == 0 {
            self.state = id;
            true
        } else {
            false
        }
    }

    /// Releases a cell the calling thread raw-owns, leaving it disowned.
    /// Releasing a cell one does not raw-own — a disowned cell, another
    /// thread's cell, or a guard-owned cell, even one's own — is a fatal
    /// contract violation, which the precondition rules out;
    /// [`ThreadCell::try_release`] is the non-fatal way to ask.
    pub fn release(&mut self, me: ThreadId)
        requires
            old(self).wf(),
            old(self).may_release(me@),
        ensures
            final(self).wf(),
            old(self).release_step(*final(self), me@),
    {
        self.state = 0;
    }

    /// Tries to release a cell the calling thread raw-owns. Returns true
    /// and leaves the cell disowned exactly when the caller was the raw
    /// owner; otherwise returns false and changes nothing.
    pub fn try_release(&mut self, me: ThreadId) -> (r: bool)
        requires
            old(self).wf(),
        ensures
            final(self).wf(),
            final(self).value() == old(self).value(),
            r == old(self).may_release(me@),
            r ==> final(self).owner() is Disowned,
            !r ==> final(self).owner() == old(self).owner(),
    {
        let id = me.as_u64();
        if self.state == id {
            self.state = 0;
            true
        } else {
            false
        }
    }

    /// Forces the owner word to the calling thread's identity, taking raw
    /// ownership away from whichever thread holds it. This is the escape
    /// hatch for recovering a cell abandoned by a thread that ended without
    /// releasing; the usual hand-over protocol is bypassed, so the value
    /// may be in whatever state the previous owner left it. A cell under a
    /// guard — anyone's, including the caller's own — must not be stolen:
    /// that live guard assumes it is the only path to a release. Stealing
    /// one is fatal, which the precondition rules out.
    pub fn steal(&mut self, me: ThreadId)
        requires
            old(self).wf(),
            !(old(self).owner() is Guarded),
        ensures
            final(self).wf(),
            final(self).owner() == Owner::Raw(me@),
            final(self).value() == old(self).value(),
    {
        let id = me.as_u64();
        if self.state != id {
            self.state = id;
        }
    }

    /// True when the calling thread owns this cell, raw or through a guard,
    /// and thus may read and write the value.
    pub fn is_owned(&self, me: ThreadId) -> (r: bool)
        ensures
            r == self.owned_by(me@),
    {
        let id = me.as_u64();
        self.state == id || self.state == GUARD_BIT + id
    }

    /// True when no thread owns this cell. Where other threads share the
    /// cell, a momentary answer of this kind is advisory at best: any of
    /// them may take the cell over right after the question is asked.
    pub fn is_disowned(&self) -> (r: bool)
        ensures
            r == (self.owner() is Disowned),
    {
        self.state == 0
    }

    /// True when the calling thread raw-owns this cell, that is, owns it by
    /// an acquire call rather than through a guard.
    pub fn is_acquired(&self, me: ThreadId) -> (r: bool)
        ensures
            r == (self.owner() == Owner::Raw(me@)),
    {
        let id = me.as_u64();
        self.state == id
    }

    /// True when the calling thread holds this cell through a guard.
    pub fn is_guarded(&self, me: ThreadId) -> (r: bool)
        ensures
            r == (self.owner() == Owner::Guarded(me@)),
    {
        let id = me.as_u64();
        self.state == GUARD_BIT + id
    }

    /// A reference to the value, for the thread that owns the cell in
    /// either mode. Access by any other thread is a fatal contract
    /// violation, which the precondition rules out;
    /// [`ThreadCell::try_get`] is the non-fatal way to ask.
    pub fn get(&self, me: ThreadId) -> (r: &T)
        requires
            self.owned_by(me@),
        ensures
            *r == self.value(),
    {
        &self.data
    }

    /// A mutable reference to the value, for the thread that owns the cell
    /// in either mode. Access by any other thread is a fatal contract
    /// violation, which the precondition rules out;
    /// [`ThreadCell::try_get_mut`] is the non-fatal way to ask.
    pub fn get_mut(&mut self, me: ThreadId) -> (r: &mut T)
        requires
            old(self).wf(),
            old(self).owned_by(me@),
        ensures
            *r == old(self).value(),
            final(self).value() == *final(r),
            final(self).owner() == old(self).owner(),
            final(self).wf(),
    {
        &mut self.data
    }

    /// A reference to the value when the calling thread owns the cell, and
    /// `None` otherwise.
    pub fn try_get(&self, me: ThreadId) -> (r: Option<&T>)
        ensures
            r is Some <==> self.owned_by(me@),
            r matches Some(v) ==> *v == self.value(),
    {
        if self.is_owned(me) {
            Some(&self.data)
        } else {
            None
        }
    }

    /// A mutable reference to the value when the calling thread owns the
    /// cell, and `None` otherwise.
    pub fn try_get_mut(&mut self, me: ThreadId) -> (r: Option<&mut T>)
        requires
            old(self).wf(),
        ensures
            final(self).wf(),
            final(self).owner() == old(self).owner(),
            r is Some <==> old(self).owned_by(me@),
            r matches Some(v) ==> *v == old(self).value() && final(self).value() == *final(v),
            r is None ==> final(self).value() == old(self).value(),
    {
        if self.is_owned(me) {
            Some(&mut self.data)
        } else {
            None
        }
    }

    /// A reference to the value with no ownership check at all. In the
    /// presence of other threads the caller is responsible for holding the
    /// cell, or for the value bearing concurrent reads; nothing here
    /// checks either.
    pub fn get_unchecked(&self) -> (r: &T)
        ensures
            *r == self.value(),
    {
        &self.data
    }

    /// A mutable reference to the value with no ownership check at all.
    /// The caller is responsible for being the thread that holds the cell;
    /// nothing here checks it.
    pub fn get_mut_unchecked(&mut self) -> (r: &mut T)
        requires
            old(self).wf(),
        ensures
            *r == old(self).value(),
            final(self).value() == *final(r),
            final(self).owner() == old(self).owner(),
            final(self).wf(),
    {
        &mut self.data
    }

    /// Consumes a cell the calling thread raw-owns and hands the value
    /// out. Consuming a cell owned by another thread, owned by nobody, or
    /// held by a guard is a fatal contract violation, which the
    /// precondition rules out.
    pub fn into_inner(self, me: ThreadId) -> (r: T)
        requires
            self.owner() == Owner::Raw(me@),
        ensures
            r == self.value(),
    {
        self.data
    }

    /// Takes raw ownership if the calling thread does not own the cell yet,
    /// then hands out a reference to the value. Fatal — ruled out by the
    /// precondition — when another thread owns the cell.
    pub fn acquire_get(&mut self, me: ThreadId) -> (r: &T)
        requires
            old(self).wf(),
            old(self).owner() is Disowned || old(self).owned_by(me@),
        ensures
            final(self).wf(),
            *r == old(self).value(),
            final(self).value() == old(self).value(),
            final(self).owner() == (if old(self).owner() is Disowned {
                Owner::Raw(me@)
            } else {
                old(self).owner()
            }),
    {
        if !self.is_owned(me) {
            self.acquire(me);
        }
        &self.data
    }

    /// Tries to take raw ownership as [`ThreadCell::try_acquire`] does and
    /// hands out a reference to the value on success. `None` — with the
    /// cell untouched — when a guard holds the cell or another thread owns
    /// it.
    pub fn try_acquire_get(&mut self, me: ThreadId) -> (r: Option<&T>)
        requires
            old(self).wf(),
        ensures
            final(self).wf(),
            final(self).value() == old(self).value(),
            r is Some <==> old(self).may_raw_acquire(me@),
            r matches Some(v) ==> *v == old(self).value() && final(self).owner() == Owner::Raw(
                me@,
            ),
            r is None ==> final(self).owner() == old(self).owner(),
    {
        if self.try_acquire(me) {
            Some(&self.data)
        } else {
            None
        }
    }

    /// Takes raw ownership if the calling thread does not own the cell yet,
    /// then hands out a mutable reference to the value. Fatal — ruled out
    /// by the precondition — when another thread owns the cell.
    pub fn acquire_get_mut(&mut self, me: ThreadId) -> (r: &mut T)
        requires
            old(self).wf(),
            old(self).owner() is Disowned || old(self).owned_by(me@),
        ensures
            final(self).wf(),
            *r == old(self).value(),
            final(self).value() == *final(r),
            final(self).owner() == (if old(self).owner() is Disowned {
                Owner::Raw(me@)
            } else {
                old(self).owner()
            }),
    {
        if !self.is_owned(me) {
            self.acquire(me);
        }
        &mut self.data
    }

    /// Tries to take raw ownership as [`ThreadCell::try_acquire`] does and
    /// hands out a mutable reference to the value on success. `None` —
    /// with the cell untouched — when a guard holds the cell or another
    /// thread owns it.
    pub fn try_acquire_get_mut(&mut self, me: ThreadId) -> (r: Option<&mut T>)
        requires
            old(self).wf(),
        ensures
            final(self).wf(),
            r is Some <==> old(self).may_raw_acquire(me@),
            r matches Some(v) ==> *v == old(self).value() && final(self).value() == *final(v)
                && final(self).owner() == Owner::Raw(me@),
            r is None ==> final(self).value() == old(self).value() && final(self).owner() == old(
                self,
            ).owner(),
    {
        if self.try_acquire(me) {
            Some(&mut self.data)
        } else {
            None
        }
    }

    /// Takes guarded ownership of a disowned cell for the calling thread
    /// and hands out the [`Guard`] that releases it. A cell owned by
    /// anyone — even raw-owned by the caller itself — refuses the guarded
    /// acquisition fatally, which the precondition rules out;
    /// [`ThreadCell::try_acquire_guard`] is the non-fatal way to ask.
    pub fn acquire_guard(&mut self, me: ThreadId) -> (g: Guard)
        requires
            old(self).wf(),
            old(self).may_guard_acquire(),
        ensures
            final(self).wf(),
            final(self).owner() == Owner::Guarded(me@),
            final(self).value() == old(self).value(),
            g.holder() == me@,
    {
        let id = me.as_u64();
        self.state = GUARD_BIT + id;
        Guard::new(me)
    }

    /// Tries to take guarded ownership of the cell. Hands out a [`Guard`]
    /// exactly when the cell was disowned; in every owned state — another
    /// thread's, or any hold of the caller's own, raw or guarded — the
    /// answer is `None` and the cell is untouched.
    pub fn try_acquire_guard(&mut self, me: ThreadId) -> (r: Option<Guard>)
        requires
            old(self).wf(),
        ensures
            final(self).wf(),
            final(self).value() == old(self).value(),
            r is Some <==> old(self).may_guard_acquire(),
            r matches Some(g) ==> g.holder() == me@ && final(self).owner() == Owner::Guarded(me@),
            r is None ==> final(self).owner() == old(self).owner(),
    {
        if self.is_disowned() {
            Some(self.acquire_guard(me))
        } else {
            None
        }
    }

    /// Takes guarded ownership of a disowned cell for writing and hands
    /// out the [`GuardMut`] that releases it. Fatal — ruled out by the
    /// precondition — in every owned state, as for
    /// [`ThreadCell::acquire_guard`].
    pub fn acquire_guard_mut(&mut self, me: ThreadId) -> (g: GuardMut)
        requires
            old(self).wf(),
            old(self).may_guard_acquire(),
        ensures
            final(self).wf(),
            final(self).owner() == Owner::Guarded(me@),
            final(self).value() == old(self).value(),
            g.holder() == me@,
    {
        let id = me.as_u64();
        self.state = GUARD_BIT + id;
        GuardMut::new(me)
    }

    /// Tries to take guarded ownership for writing. Hands out a
    /// [`GuardMut`] exactly when the cell was disowned, and otherwise
    /// answers `None` and leaves the cell untouched.
    pub fn try_acquire_guard_mut(&mut self, me: ThreadId) -> (r: Option<GuardMut>)
        requires
            old(self).wf(),
        ensures
            final(self).wf(),
            final(self).value() == old(self).value(),
            r is Some <==> old(self).may_guard_acquire(),
            r matches Some(g) ==> g.holder() == me@ && final(self).owner() == Owner::Guarded(me@),
            r is None ==> final(self).owner() == old(self).owner(),
    {
        if self.is_disowned() {
            Some(self.acquire_guard_mut(me))
        } else {
            None
        }
    }

    /// Acquires a guard, runs `f` on a reference to the value, and hands
    /// the guard back, forwarding what `f` returned. As with
    /// [`ThreadCell::acquire_guard`], a cell owned by anyone refuses the
    /// acquisition fatally, which the precondition rules out;
    /// [`ThreadCell::try_with`] is the non-fatal way to ask.
    pub fn with<R, F: FnOnce(&T) -> R>(&mut self, me: ThreadId, f: F) -> (r: R)
        requires
            old(self).wf(),
            old(self).may_guard_acquire(),
            call_requires(f, (&old(self).value(),)),
        ensures
            final(self).wf(),
            final(self).owner() is Disowned,
            final(self).value() == old(self).value(),
            call_ensures(f, (&old(self).value(),), r),
    {
        let g = self.acquire_guard(me);
        let r = f(self.get(me));
        self.release_guard(g);
        r
    }

    /// Acquires a guard, lets `f` turn the held value into a new one plus
    /// a result, stores the new value, and hands the guard back,
    /// forwarding the result. Fatal — ruled out by the precondition —
    /// when anyone owns the cell; [`ThreadCell::try_with_mut`] is the
    /// non-fatal way to ask.
    pub fn with_mut<R, F: FnOnce(&T) -> (T, R)>(&mut self, me: ThreadId, f: F) -> (r: R)
        requires
            old(self).wf(),
            old(self).may_guard_acquire(),
            call_requires(f, (&old(self).value(),)),
        ensures
            final(self).wf(),
            final(self).owner() is Disowned,
            call_ensures(f, (&old(self).value(),), (final(self).value(), r)),
    {
        let g = self.acquire_guard_mut(me);
        let (data, r) = f(self.get(me));
        *self.get_mut(me) = data;
        self.release_guard_mut(g);
        r
    }

    /// Tries what [`ThreadCell::with`] does: on a disowned cell, runs `f`
    /// under a guard and returns its result in `Some`; on a cell owned by
    /// anyone, leaves the cell untouched, never calls `f`, and returns
    /// `None`.
    pub fn try_with<R, F: FnOnce(&T) -> R>(&mut self, me: ThreadId, f: F) -> (r: Option<R>)
        requires
            old(self).wf(),
            old(self).may_guard_acquire() ==> call_requires(f, (&old(self).value(),)),
        ensures
            final(self).wf(),
            final(self).value() == old(self).value(),
            r is Some <==> old(self).may_guard_acquire(),
            r matches Some(v) ==> final(self).owner() is Disowned && call_ensures(
                f,
                (&old(self).value(),),
                v,
            ),
            r is None ==> final(self).owner() == old(self).owner(),
    {
        if self.is_disowned() {
            Some(self.with(me, f))
        } else {
            None
        }
    }

    /// Tries what [`ThreadCell::with_mut`] does: on a disowned cell, lets
    /// `f` replace the value under a guard and returns `f`'s result in
    /// `Some`; on a cell owned by anyone, leaves the cell untouched, never
    /// calls `f`, and returns `None`.
    pub fn try_with_mut<R, F: FnOnce(&T) -> (T, R)>(&mut self, me: ThreadId, f: F) -> (r: Option<
        R,
    >)
        requires
            old(self).wf(),
            old(self).may_guard_acquire() ==> call_requires(f, (&old(self).value(),)),
        ensures
            final(self).wf(),
            r is Some <==> old(self).may_guard_acquire(),
            r matches Some(v) ==> final(self).owner() is Disowned && call_ensures(
                f,
                (&old(self).value(),),
                (final(self).value(), v),
            ),
            r is None ==> final(self).owner() == old(self).owner() && final(self).value() == old(
                self,
            ).value(),
    {
        if self.is_disowned() {
            Some(self.with_mut(me, f))
        } else {
            None
        }
    }

    /// Hands a [`Guard`] back, leaving the cell disowned. This is the end
    /// of every guarded hold and it cannot fail: the guard proves that its
    /// holder guard-owns the cell, so the owner word is simply cleared.
    pub fn release_guard(&mut self, g: Guard)
        requires
            old(self).wf(),
            old(self).owner() == Owner::Guarded(g.holder()),
        ensures
            final(self).wf(),
            final(self).owner() is Disowned,
            final(self).value() == old(self).value(),
    {
        self.state = 0;
    }

    /// Hands a [`GuardMut`] back, leaving the cell disowned, as
    /// [`ThreadCell::release_guard`] does.
    pub fn release_guard_mut(&mut self, g: GuardMut)
        requires
            old(self).wf(),
            old(self).owner() == Owner::Guarded(g.holder()),
        ensures
            final(self).wf(),
            final(self).owner() is Disowned,
            final(self).value() == old(self).value(),
    {
        self.state = 0;
    }
}

} // verus!
