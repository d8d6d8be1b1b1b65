//! The synchronisation protocol of the cell, as the decisions of one call.
//!
//! A call never touches the shared flags itself. It is a small machine: in
//! each phase it names the one atomic action to perform next, and what that
//! action observed decides the following phase. Whoever performs the actions
//! (on real atomics, or on the memory of the model in `crate::model`)
//! follows the same decisions.
use vstd::prelude::*;

verus! {

/// The memory orderings that the protocol asks for.
#[derive(Clone, Copy, Debug, PartialEq, Eq, Structural)]
pub enum MemoryOrder {
    Relaxed,
    Acquire,
    Release,
}

/// The calls that the protocol governs.
#[derive(Clone, Copy, Debug, PartialEq, Eq, Structural)]
pub enum Operation {
    /// Initialize the cell unless it is initialized already.
    TryInitialize,
    /// Replace whatever the cell holds.
    ForceInitialize,
    /// Borrow the value without taking the lock.
    Read,
}

/// How a call ended.
#[derive(Clone, Copy, Debug, PartialEq, Eq, Structural)]
pub enum Outcome {
    /// This call produced and published a value.
    Performed,
    /// The cell was initialized already; nothing was invoked.
    AlreadyInitialized,
    /// The flag was seen set: the value may be borrowed.
    Available,
    /// The flag was seen clear: there is no value to borrow.
    NotInitialized,
}

/// Where a call stands.
#[derive(Clone, Copy, Debug, PartialEq, Eq, Structural)]
pub enum Phase {
    /// About to look at the flag without the lock.
    Check,
    /// About to try the lock.
    Acquire,
    /// The lock was busy: about to hint the processor, then try again.
    Backoff,
    /// Holds the lock; about to look at the flag once more.
    Recheck,
    /// Holds the lock; about to run the payload transition.
    Perform,
    /// Holds the lock; the value is written, about to set the flag.
    Publish,
    /// Holds the lock; about to give it back and end with the outcome.
    Release(Outcome),
    /// Finished.
    Done(Outcome),
}

/// The one thing a call does next.
#[derive(Clone, Copy, Debug, PartialEq, Eq, Structural)]
pub enum Action {
    /// Load the flag.
    LoadInitialized { order: MemoryOrder },
    /// Compare-and-exchange the lock from `false` to `true`.
    CompareExchangeLock { success: MemoryOrder, failure: MemoryOrder },
    /// Issue the spin hint.
    SpinHint,
    /// Run the payload transition on the slot.
    Perform,
    /// Store `true` to the flag.
    StoreInitialized { order: MemoryOrder },
    /// Store `false` to the lock.
    StoreLock { order: MemoryOrder },
    /// Return to the caller.
    Finish(Outcome),
}

/// What an action reported back.
#[derive(Clone, Copy, Debug, PartialEq, Eq, Structural)]
pub enum Observation {
    /// The flag's value, from `LoadInitialized`.
    Flag(bool),
    /// Whether the exchange took the lock, from `CompareExchangeLock`.
    Exchange(bool),
    /// The action reports nothing.
    Nothing,
}

impl Observation {
    /// Whether this is an observation that `action` can report: a load
    /// reports the flag, an exchange reports whether it took the lock, and
    /// every other action reports nothing.
    pub open spec fn answers(self, action: Action) -> bool {
        match action {
            Action::LoadInitialized { .. } => self is Flag,
            Action::CompareExchangeLock { .. } => self is Exchange,
            _ => self is Nothing,
        }
    }
}

impl Operation {
    /// The phase in which a call of this operation begins.
    pub open spec fn spec_start(self) -> Phase {
        match self {
            Operation::TryInitialize => Phase::Check,
            Operation::ForceInitialize => Phase::Acquire,
            Operation::Read => Phase::Check,
        }
    }

    /// The phase in which a call of this operation begins: an unconditional
    /// replacement goes for the lock at once, the others look at the flag
    /// first.
    #[verifier::when_used_as_spec(spec_start)]
    pub fn start(self) -> (phase: Phase)
        ensures
            phase == self.spec_start(),
    {
        match self {
            Operation::TryInitialize => Phase::Check,
            Operation::ForceInitialize => Phase::Acquire,
            Operation::Read => Phase::Check,
        }
    }
}

impl Phase {
    /// Whether a call in this phase owns the lock.
    pub open spec fn spec_holds_lock(self) -> bool {
        self is Recheck || self is Perform || self is Publish || self is Release
    }

    /// Whether a call in this phase owns the lock.
    #[verifier::when_used_as_spec(spec_holds_lock)]
    pub fn holds_lock(self) -> (held: bool)
        ensures
            held == self.spec_holds_lock(),
    {
        match self {
            Phase::Recheck | Phase::Perform | Phase::Publish | Phase::Release(_) => true,
            _ => false,
        }
    }

    /// How far a call in this phase is from its end, at most, in actions
    /// that succeed. Only a busy lock sends a call back.
    pub open spec fn distance(self) -> nat {
        match self {
            Phase::Check => 7,
            Phase::Backoff => 7,
            Phase::Acquire => 6,
            Phase::Recheck => 5,
            Phase::Perform => 4,
            Phase::Publish => 3,
            Phase::Release(_) => 2,
            Phase::Done(_) => 0,
        }
    }

    /// Whether a call in this phase has run its payload transition.
    pub open spec fn has_performed(self) -> bool {
        self is Publish || self == Phase::Release(Outcome::Performed) || self == Phase::Done(
            Outcome::Performed,
        )
    }

    /// Whether a call in this phase knows the flag to be set, having seen it
    /// set or set it itself.
    pub open spec fn knows_flag_set(self) -> bool {
        self == Phase::Release(Outcome::AlreadyInitialized) || self == Phase::Done(
            Outcome::AlreadyInitialized,
        ) || self == Phase::Done(Outcome::Available) || self == Phase::Release(Outcome::Performed)
            || self == Phase::Done(Outcome::Performed)
    }

    /// Whether a call of `op` can be in this phase.
    pub open spec fn fits(self, op: Operation) -> bool {
        match op {
            Operation::Read => self is Check || self == Phase::Done(Outcome::Available) || self
                == Phase::Done(Outcome::NotInitialized),
            Operation::TryInitialize => match self {
                Phase::Release(outcome) | Phase::Done(outcome) => outcome == Outcome::Performed
                    || outcome == Outcome::AlreadyInitialized,
                _ => true,
            },
            Operation::ForceInitialize => match self {
                Phase::Release(outcome) | Phase::Done(outcome) => outcome == Outcome::Performed,
                Phase::Check | Phase::Recheck => false,
                _ => true,
            },
        }
    }

    /// The action that a call in this phase performs next.
    pub open spec fn spec_action(self) -> Action {
        match self {
            Phase::Check => Action::LoadInitialized { order: MemoryOrder::Acquire },
            Phase::Acquire => Action::CompareExchangeLock {
                success: MemoryOrder::Acquire,
                failure: MemoryOrder::Relaxed,
            },
            Phase::Backoff => Action::SpinHint,
            Phase::Recheck => Action::LoadInitialized { order: MemoryOrder::Acquire },
            Phase::Perform => Action::Perform,
            Phase::Publish => Action::StoreInitialized { order: MemoryOrder::Release },
            Phase::Release(_) => Action::StoreLock { order: MemoryOrder::Release },
            Phase::Done(outcome) => Action::Finish(outcome),
        }
    }

    /// The action that a call in this phase performs next. The flag is
    /// loaded with acquire ordering and stored with release ordering; the
    /// lock is taken by an exchange that is acquire on success and relaxed on
    /// failure, and given back by a release store.
    #[verifier::when_used_as_spec(spec_action)]
    pub fn action(self) -> (next: Action)
        ensures
            next == self.spec_action(),
    {
        match self {
            Phase::Check => Action::LoadInitialized { order: MemoryOrder::Acquire },
            Phase::Acquire => Action::CompareExchangeLock {
                success: MemoryOrder::Acquire,
                failure: MemoryOrder::Relaxed,
            },
            Phase::Backoff => Action::SpinHint,
            Phase::Recheck => Action::LoadInitialized { order: MemoryOrder::Acquire },
            Phase::Perform => Action::Perform,
            Phase::Publish => Action::StoreInitialized { order: MemoryOrder::Release },
            Phase::Release(outcome) => Action::StoreLock { order: MemoryOrder::Release },
            Phase::Done(outcome) => Action::Finish(outcome),
        }
    }

    /// The phase that follows this one in a call of `op`, once this phase's
    /// action has reported `seen`. An observation that does not answer the
    /// action leaves the phase as it is.
    pub open spec fn spec_advance(self, op: Operation, seen: Observation) -> Phase {
        match (self, seen) {
            (Phase::Check, Observation::Flag(set)) => match op {
                Operation::Read => if set {
                    Phase::Done(Outcome::Available)
                } else {
                    Phase::Done(Outcome::NotInitialized)
                },
                _ => if set {
                    Phase::Done(Outcome::AlreadyInitialized)
                } else {
                    Phase::Acquire
                },
            },
            (Phase::Acquire, Observation::Exchange(taken)) => if !taken {
                Phase::Backoff
            } else if op == Operation::ForceInitialize {
                Phase::Perform
            } else {
                Phase::Recheck
            },
            (Phase::Backoff, Observation::Nothing) => Phase::Acquire,
            (Phase::Recheck, Observation::Flag(set)) => if set {
                Phase::Release(Outcome::AlreadyInitialized)
            } else {
                Phase::Perform
            },
            (Phase::Perform, Observation::Nothing) => Phase::Publish,
            (Phase::Publish, Observation::Nothing) => Phase::Release(Outcome::Performed),
            (Phase::Release(outcome), Observation::Nothing) => Phase::Done(outcome),
            _ => self,
        }
    }

    /// The phase that follows this one in a call of `op`, once this phase's
    /// action has reported `seen`.
    #[verifier::when_used_as_spec(spec_advance)]
    pub fn advance(self, op: Operation, seen: Observation) -> (next: Phase)
        ensures
            next == self.spec_advance(op, seen),
    {
        match (self, seen) {
            (Phase::Check, Observation::Flag(set)) => match op {
                Operation::Read => if set {
                    Phase::Done(Outcome::Available)
                } else {
                    Phase::Done(Outcome::NotInitialized)
                },
                _ => if set {
                    Phase::Done(Outcome::AlreadyInitialized)
                } else {
                    Phase::Acquire
                },
            },
            (Phase::Acquire, Observation::Exchange(taken)) => if !taken {
                Phase::Backoff
            } else {
                match op {
                    Operation::ForceInitialize => Phase::Perform,
                    _ => Phase::Recheck,
                }
            },
            (Phase::Backoff, Observation::Nothing) => Phase::Acquire,
            (Phase::Recheck, Observation::Flag(set)) => if set {
                Phase::Release(Outcome::AlreadyInitialized)
            } else {
                Phase::Perform
            },
            (Phase::Perform, Observation::Nothing) => Phase::Publish,
            (Phase::Publish, Observation::Nothing) => Phase::Release(Outcome::Performed),
            (Phase::Release(outcome), Observation::Nothing) => Phase::Done(outcome),
            _ => self,
        }
    }
}

/// A call runs its payload transition at most once: the phase that runs it
/// is left for good, and no later phase leads back to it or to the lock.
pub proof fn perform_is_not_repeated(phase: Phase, op: Operation, seen: Observation)
    requires
        phase.has_performed() || phase is Done,
    ensures
        phase.advance(op, seen).has_performed() || phase.advance(op, seen) is Done,
        !(phase.advance(op, seen) is Perform),
        !(phase.advance(op, seen) is Acquire),
{
}

/// A call gives the lock back before it returns: the only phase that leads
/// to the end from under the lock is the one whose action frees the lock.
pub proof fn lock_is_released_before_return(phase: Phase, op: Operation, seen: Observation)
    requires
        phase.holds_lock(),
        phase.advance(op, seen) is Done,
    ensures
        phase is Release,
        phase.action() == (Action::StoreLock { order: MemoryOrder::Release }),
{
}

/// Progress: a call that has not returned moves to another phase whenever
/// its action is answered, whatever the answer is.
pub proof fn answered_action_moves_the_call(phase: Phase, op: Operation, seen: Observation)
    requires
        !(phase is Done),
        seen.answers(phase.action()),
    ensures
        phase.advance(op, seen) != phase,
{
}

} // verus!
