//! A single-slot cell whose value is given at construction or produced
//! later by a one-shot initializer, so that at most one initializer runs at a
//! time and at most one value lives in the slot.
//!
//! - `slot` is the storage: nothing, a pending initializer, or a value.
//! - `cell` is `SpinCell`, the cell in the hands of one owner: construction,
//!   conditional and unconditional initialization, reading, teardown.
//! - `protocol` is the synchronisation of calls that share a cell: which
//!   atomic action a call performs next, with which memory ordering, and how
//!   it goes on from what the action observed.
//! - `memory` is the lock, the flag and the cell together, with the effect
//!   of each action on them.
//! - `flags` is the lock and the flag as atomics, for threads to share.
//! - `model` interleaves any number of calls on one memory and proves what
//!   holds of every schedule: the lock is exclusive, a set flag covers a
//!   written value, and conditional initialization invokes exactly once.
pub mod slot;
pub mod cell;
pub mod protocol;
pub mod memory;
pub mod flags;
pub mod model;

pub use crate::cell::SpinCell;
pub use crate::slot::Slot;
