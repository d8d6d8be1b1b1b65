//! The lock and the publication flag as atomics that threads share.
//!
//! What an atomic holds is for other threads to change at any moment, so
//! nothing is claimed of the values that come back; `crate::protocol` says
//! how a call goes on for each of them. What is fixed here is which atomic
//! operation stands for each action, and with which ordering.
use vstd::prelude::*;
use std::sync::atomic::AtomicBool;
use std::sync::atomic::Ordering;
use crate::protocol::{Action, MemoryOrder, Observation, Phase};

verus! {

/// `core::hint::spin_loop` tells the processor that the thread is
/// busy-waiting. It takes and returns nothing, so nothing is claimed of it.
pub assume_specification[ core::hint::spin_loop ]();

/// The lock and the publication flag of one cell.
pub struct Flags {
    lock: AtomicBool,
    is_initialized: AtomicBool,
}

/// The ordering of a load: acquire unless relaxed is asked for.
fn load_ordering(order: MemoryOrder) -> (ordering: Ordering)
    requires
        order != MemoryOrder::Release,
    ensures
        ordering == (match order {
            MemoryOrder::Relaxed => Ordering::Relaxed,
            _ => Ordering::Acquire,
        }),
{
    match order {
        MemoryOrder::Relaxed => Ordering::Relaxed,
        _ => Ordering::Acquire,
    }
}

/// The ordering of a store: release unless relaxed is asked for.
fn store_ordering(order: MemoryOrder) -> (ordering: Ordering)
    requires
        order != MemoryOrder::Acquire,
    ensures
        ordering == (match order {
            MemoryOrder::Relaxed => Ordering::Relaxed,
            _ => Ordering::Release,
        }),
{
    match order {
        MemoryOrder::Relaxed => Ordering::Relaxed,
        _ => Ordering::Release,
    }
}

impl Flags {
    /// Flags with a free lock. `initialized` tells whether the cell holds a
    /// value from the start.
    pub fn new(initialized: bool) -> (flags: Self) {
        Flags { lock: AtomicBool::new(false), is_initialized: AtomicBool::new(initialized) }
    }

    /// Performs the action of `phase` on the atomics and reports what it
    /// saw, which answers that action. The payload transition and the
    /// return to the caller are not actions on the flags: for them nothing
    /// is done here.
    pub fn perform(&self, phase: Phase) -> (seen: Observation)
        ensures
            seen.answers(phase.action()),
    {
        match phase.action() {
            Action::LoadInitialized { order } => {
                Observation::Flag(self.is_initialized.load(load_ordering(order)))
            },
            Action::CompareExchangeLock { success, failure } => {
                let exchanged = self.lock.compare_exchange(
                    false,
                    true,
                    load_ordering(success),
                    load_ordering(failure),
                );
                Observation::Exchange(exchanged.is_ok())
            },
            Action::SpinHint => {
                core::hint::spin_loop();
                Observation::Nothing
            },
            Action::StoreInitialized { order } => {
                self.is_initialized.store(true, store_ordering(order));
                Observation::Nothing
            },
            Action::StoreLock { order } => {
                self.lock.store(false, store_ordering(order));
                Observation::Nothing
            },
            Action::Perform => Observation::Nothing,
            Action::Finish(_) => Observation::Nothing,
        }
    }
}

} // verus!
