//! The memory that the calls on one cell share: the lock, the flag and the
//! storage, with the effect of each action of the protocol on them.
//!
//! `Memory` keeps all three in one hand. Its owner plays the calls itself,
//! one action at a time and in any order it likes, which is how an
//! interleaving is run without threads.
use vstd::prelude::*;
use crate::cell::SpinCell;
use crate::protocol::{Action, Observation, Operation, Outcome, Phase};
use crate::slot::Slot;

verus! {

/// What the shared memory holds at one instant.
pub struct State<T, G> {
    /// The lock: set while a transition is in progress.
    pub locked: bool,
    /// The publication flag: set once a value is in the slot.
    pub initialized: bool,
    /// The storage.
    pub slot: Slot<T, G>,
}

impl<T, G> State<T, G> {
    /// What `action` reports when it is performed on this memory.
    pub open spec fn observation(self, action: Action) -> Observation {
        match action {
            Action::LoadInitialized { .. } => Observation::Flag(self.initialized),
            Action::CompareExchangeLock { .. } => Observation::Exchange(!self.locked),
            _ => Observation::Nothing,
        }
    }

    /// Whether the payload transition of a call of `op` finds nothing to
    /// do: the slot holds a value, and the call either initializes
    /// conditionally or brought nothing (`supplied` is false) to replace the
    /// value with.
    pub open spec fn skips(self, op: Operation, supplied: bool) -> bool {
        self.slot.skips(op, supplied)
    }

    /// The memory after a call of `op` performed `action`, where `supplied`
    /// says whether the call brought a supplier and `value` is what the
    /// invocation returned if the action made one.
    pub open spec fn after(self, op: Operation, supplied: bool, action: Action, value: T) -> Self {
        match action {
            Action::CompareExchangeLock { .. } => State { locked: true, ..self },
            Action::Perform => if self.skips(op, supplied) {
                self
            } else {
                State { slot: Slot::Ready(value), ..self }
            },
            Action::StoreInitialized { .. } => State { initialized: true, ..self },
            Action::StoreLock { .. } => State { locked: false, ..self },
            _ => self,
        }
    }
}

impl<T, G: FnOnce() -> T> State<T, G> {
    /// A memory on which no call is under way: the lock is free and the
    /// flag tells whether the slot holds a value.
    pub open spec fn at_rest(self) -> bool {
        !self.locked && self.initialized == (self.slot is Ready)
    }

    /// Whether a call of `op` that runs alone on this memory goes for the
    /// lock: a replacement always does, a conditional initialization does
    /// on a clear flag, a read never does.
    pub open spec fn takes_lock(self, op: Operation) -> bool {
        op == Operation::ForceInitialize || (op == Operation::TryInitialize && !self.initialized)
    }

    /// Whether a call of `op` that runs alone on this memory invokes the
    /// initializer or a supplier.
    pub open spec fn will_invoke(self, op: Operation, supplied: bool) -> bool {
        self.takes_lock(op) && !self.skips(op, supplied)
    }

    /// The outcome of a call of `op` that runs alone on this memory.
    pub open spec fn outcome(self, op: Operation) -> Outcome {
        match op {
            Operation::ForceInitialize => Outcome::Performed,
            Operation::TryInitialize => if self.initialized {
                Outcome::AlreadyInitialized
            } else {
                Outcome::Performed
            },
            Operation::Read => if self.initialized {
                Outcome::Available
            } else {
                Outcome::NotInitialized
            },
        }
    }

    /// Whether `after` is what a call of `op` that brought `supplier`, and
    /// ran alone from this memory at rest, can leave behind: the memory
    /// as it was if nothing was invoked, and otherwise a memory at rest
    /// whose slot holds the value that was produced.
    pub open spec fn completes<F: FnOnce() -> T>(
        self,
        op: Operation,
        supplier: Option<F>,
        after: Self,
    ) -> bool {
        if self.will_invoke(op, supplier is Some) {
            after.at_rest() && self.slot.replaced_by(supplier, after.slot)
        } else {
            after == self
        }
    }

    /// Whether a call of `op` that brought `supplier`, begun alone on the
    /// memory `origin` at rest, can stand in `phase` with this memory.
    pub open spec fn underway<F: FnOnce() -> T>(
        self,
        origin: Self,
        op: Operation,
        supplier: Option<F>,
        phase: Phase,
    ) -> bool {
        let taken = State { locked: true, ..origin };
        let written = if origin.will_invoke(op, supplier is Some) {
            self.locked && origin.slot.replaced_by(supplier, self.slot)
        } else {
            self.locked && self.slot == origin.slot
        };
        match phase {
            Phase::Check => self == origin && op != Operation::ForceInitialize,
            Phase::Acquire => self == origin && origin.takes_lock(op),
            Phase::Backoff => false,
            Phase::Recheck => self == taken && origin.takes_lock(op) && !origin.initialized,
            Phase::Perform => self == taken && origin.takes_lock(op),
            Phase::Publish => {
                &&& origin.takes_lock(op)
                &&& written
                &&& self.initialized == origin.initialized
            },
            Phase::Release(outcome) => {
                &&& origin.takes_lock(op)
                &&& written
                &&& self.initialized
                &&& outcome == Outcome::Performed
            },
            Phase::Done(outcome) => outcome == origin.outcome(op) && origin.completes(
                op,
                supplier,
                self,
            ),
        }
    }
}

/// A call that runs alone leaves the slot as the cell's own transition
/// does under exclusive access: a conditional initialization as
/// `SpinCell::try_initialize_with`, with the outcome telling whether the cell
/// was initialized before, and a replacement that brought a supplier as
/// `SpinCell::force_initialize_with`; and the flag is set afterwards.
pub proof fn lone_call_is_the_cell_transition<T, G: FnOnce() -> T, F: FnOnce() -> T>(
    before: State<T, G>,
    op: Operation,
    supplier: Option<F>,
    after: State<T, G>,
)
    requires
        before.at_rest(),
        before.completes(op, supplier, after),
    ensures
        after.at_rest(),
        op == Operation::TryInitialize ==> before.slot.initialized_by(supplier, after.slot),
        op == Operation::TryInitialize ==> after.initialized,
        op == Operation::TryInitialize ==> (before.outcome(op) == Outcome::AlreadyInitialized
            <==> before.slot is Ready),
        op == Operation::ForceInitialize && supplier is Some ==> before.slot.replaced_by(
            supplier,
            after.slot,
        ),
        op == Operation::Read ==> after == before,
{
}

/// The lock, the flag and the cell of one shared slot, in one hand.
pub struct Memory<T, G> {
    locked: bool,
    initialized: bool,
    cell: SpinCell<T, G>,
}

impl<T, G: FnOnce() -> T> Memory<T, G> {
    /// What the memory holds.
    pub closed spec fn view(&self) -> State<T, G> {
        State { locked: self.locked, initialized: self.initialized, slot: self.cell@ }
    }

    /// The memory of `cell` at rest: the lock is free and the flag tells
    /// whether the cell holds a value.
    pub fn new(cell: SpinCell<T, G>) -> (memory: Self)
        ensures
            memory@ == (State { locked: false, initialized: cell@ is Ready, slot: cell@ }),
    {
        let initialized = cell.is_initialized();
        Memory { locked: false, initialized, cell }
    }

    /// Whether the lock is taken.
    pub fn is_locked(&self) -> (locked: bool)
        ensures
            locked == self@.locked,
    {
        self.locked
    }

    /// Whether the flag is set.
    pub fn is_initialized(&self) -> (initialized: bool)
        ensures
            initialized == self@.initialized,
    {
        self.initialized
    }

    /// The value in the slot, if there is one, whatever the flag says.
    pub fn value(&self) -> (found: Option<&T>)
        ensures
            found == (match self@.slot {
                Slot::Ready(v) => Some(&v),
                _ => None,
            }),
    {
        self.cell.get()
    }

    /// Gives the cell back.
    pub fn into_cell(self) -> (cell: SpinCell<T, G>)
        ensures
            cell@ == self@.slot,
    {
        self.cell
    }

    /// Performs, for a call of `op` that stands in `phase`, the action of
    /// that phase on this memory, and returns the phase that follows
    /// together with the supplier if it was not consumed.
    ///
    /// A payload transition that has something to do consumes the supplier,
    /// and needs one where no initializer is pending.
    pub fn perform<F: FnOnce() -> T>(
        &mut self,
        op: Operation,
        phase: Phase,
        supplier: Option<F>,
    ) -> (moved: (Phase, Option<F>))
        requires
            phase is Perform && !old(self)@.skips(op, supplier is Some)
                ==> old(self)@.slot.can_produce(supplier),
        ensures
            moved.0 == phase.advance(op, old(self)@.observation(phase.action())),
            moved.1 == (if phase is Perform && !old(self)@.skips(op, supplier is Some) {
                None
            } else {
                supplier
            }),
            phase is Perform && !old(self)@.skips(op, supplier is Some) ==> old(self)@.slot.admits(
                supplier,
                final(self)@.slot->Ready_0,
            ),
            final(self)@ == old(self)@.after(
                op,
                supplier is Some,
                phase.action(),
                final(self)@.slot->Ready_0,
            ),
    {
        match phase.action() {
            Action::LoadInitialized { .. } => {
                (phase.advance(op, Observation::Flag(self.initialized)), supplier)
            },
            Action::CompareExchangeLock { .. } => {
                let taken = !self.locked;
                self.locked = true;
                (phase.advance(op, Observation::Exchange(taken)), supplier)
            },
            Action::Perform => {
                let rest = self.cell.perform(op, supplier);
                (phase.advance(op, Observation::Nothing), rest)
            },
            Action::StoreInitialized { .. } => {
                self.initialized = true;
                (phase.advance(op, Observation::Nothing), supplier)
            },
            Action::StoreLock { .. } => {
                self.locked = false;
                (phase.advance(op, Observation::Nothing), supplier)
            },
            Action::SpinHint => (phase.advance(op, Observation::Nothing), supplier),
            Action::Finish(_) => (phase.advance(op, Observation::Nothing), supplier),
        }
    }

    /// Runs one call of `op` from its first action to its return, with no
    /// other call under way: the lock is taken at the first attempt, the
    /// payload transition runs if the operation asks for it, the flag is set
    /// after the value is written, and the lock is free again at the end.
    /// Returns the outcome, and the supplier if it was not consumed.
    pub fn call<F: FnOnce() -> T>(&mut self, op: Operation, supplier: Option<F>) -> (ended: (
        Outcome,
        Option<F>,
    ))
        requires
            old(self)@.at_rest(),
            old(self)@.will_invoke(op, supplier is Some) ==> old(self)@.slot.can_produce(supplier),
        ensures
            ended.0 == old(self)@.outcome(op),
            old(self)@.completes(op, supplier, final(self)@),
            ended.1 == (if old(self)@.will_invoke(op, supplier is Some) {
                None
            } else {
                supplier
            }),
    {
        let mut phase = op.start();
        let mut rest = supplier;
        loop
            invariant
                old(self)@.at_rest(),
                self@.underway(old(self)@, op, supplier, phase),
                rest == (if old(self)@.will_invoke(op, supplier is Some) && phase.distance() < 4 {
                    None
                } else {
                    supplier
                }),
                old(self)@.will_invoke(op, supplier is Some) ==> old(self)@.slot.can_produce(
                    supplier,
                ),
            decreases phase.distance(),
        {
            match phase {
                Phase::Done(outcome) => {
                    return (outcome, rest);
                },
                _ => {},
            }
            let moved = self.perform(op, phase, rest);
            phase = moved.0;
            rest = moved.1;
        }
    }
}

} // verus!
