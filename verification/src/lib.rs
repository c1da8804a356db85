//! A cell that is owned by a single thread or by none at all.
//!
//! A [`ThreadCell`] wraps one value together with an owner word that records
//! which thread, if any, may touch the value. Ownership is taken and given
//! up explicitly (`acquire` / `release`), or held by a scope guard that is
//! handed back to the cell when the borrow ends. The owner word encodes
//! three mutually exclusive states: disowned, raw-owned by a thread, and
//! guard-owned by a thread; the two owned modes are never mixed for the
//! same hold, and every access to the value is checked against the caller's
//! [`ThreadId`].

mod cell;
mod guard;
mod ident;
pub mod laws;

pub use cell::Owner;
pub use cell::ThreadCell;
pub use guard::Guard;
pub use guard::GuardMut;
pub use ident::GUARD_BIT;
pub use ident::IdProvider;
pub use ident::ThreadId;
