//! Many calls on one cell, interleaved action by action.
//!
//! The model holds the shared memory of a cell (the lock, the flag, the
//! slot) and the calls in flight. A step lets one call perform the action
//! that `crate::protocol` names for its phase, on that memory, and move on as
//! the protocol decides. What the cell promises under concurrency is proved
//! here of every state that any schedule of such steps can reach.
use vstd::prelude::*;
use crate::memory::State;
use crate::protocol::{Action, Operation, Outcome, Phase};
use crate::slot::Slot;

verus! {

/// One call in flight: its operation, where it stands, and the supplier
/// that it brought, if any.
pub struct Call<F> {
    pub op: Operation,
    pub phase: Phase,
    pub supplier: Option<F>,
}

/// The shared memory of one cell and the calls on it.
pub struct System<T, G, F> {
    /// The lock, the flag and the storage.
    pub state: State<T, G>,
    /// The calls, each known by its index.
    pub calls: Seq<Call<F>>,
    /// Bookkeeping: the call that owns the lock.
    pub holder: Option<int>,
    /// Bookkeeping: each invocation of an initializer or supplier so far, as
    /// the invoking call and the value that came back, in order.
    pub invocations: Seq<(int, T)>,
    /// Bookkeeping: the values torn down so far, in order.
    pub retired: Seq<T>,
}

impl<T, G: FnOnce() -> T, F: FnOnce() -> T> System<T, G, F> {
    /// A cell at rest with calls that have not begun: the lock is free, the
    /// flag tells whether the slot holds a value, nothing was invoked or torn
    /// down.
    pub open spec fn initial(self) -> bool {
        &&& !self.state.locked
        &&& self.state.initialized == (self.state.slot is Ready)
        &&& self.holder is None
        &&& self.invocations.len() == 0
        &&& self.retired.len() == 0
        &&& forall|i: int|
            0 <= i < self.calls.len() ==> (#[trigger] self.calls[i]).phase
                == self.calls[i].op.start()
    }

    /// Whether call `i` can take a step in which an invocation, should the
    /// step make one, returns `value`.
    pub open spec fn enabled(self, i: int, value: T) -> bool {
        &&& 0 <= i < self.calls.len()
        &&& !(self.calls[i].phase is Done)
        &&& self.invokes(i) ==> self.state.slot.admits(self.calls[i].supplier, value)
    }

    /// Whether the step of call `i` is a payload transition that invokes
    /// the initializer or the supplier.
    pub open spec fn invokes(self, i: int) -> bool {
        self.calls[i].phase is Perform && !self.state.skips(
            self.calls[i].op,
            self.calls[i].supplier is Some,
        )
    }

    /// The system after call `i` performed its action.
    pub open spec fn step(self, i: int, value: T) -> Self {
        let call = self.calls[i];
        let action = call.phase.action();
        let moved = Call {
            op: call.op,
            phase: call.phase.advance(call.op, self.state.observation(action)),
            supplier: if self.invokes(i) {
                None
            } else {
                call.supplier
            },
        };
        System {
            state: self.state.after(call.op, call.supplier is Some, action, value),
            calls: self.calls.update(i, moved),
            holder: match action {
                Action::CompareExchangeLock { .. } => if self.state.locked {
                    self.holder
                } else {
                    Some(i)
                },
                Action::StoreLock { .. } => None,
                _ => self.holder,
            },
            invocations: if self.invokes(i) {
                self.invocations.push((i, value))
            } else {
                self.invocations
            },
            retired: match self.state.slot {
                Slot::Ready(previous) if self.invokes(i) => self.retired.push(previous),
                _ => self.retired,
            },
        }
    }

    /// Whether the calls can take the steps of `schedule`, one after the
    /// other, from this system on.
    pub open spec fn admits(self, schedule: Seq<(int, T)>) -> bool
        decreases schedule.len(),
    {
        schedule.len() > 0 ==> {
            let last = schedule.last();
            &&& self.admits(schedule.drop_last())
            &&& self.run(schedule.drop_last()).enabled(last.0, last.1)
        }
    }

    /// The system after the steps of `schedule`.
    pub open spec fn run(self, schedule: Seq<(int, T)>) -> Self
        decreases schedule.len(),
    {
        if schedule.len() == 0 {
            self
        } else {
            let last = schedule.last();
            self.run(schedule.drop_last()).step(last.0, last.1)
        }
    }

    /// The lock's account is in order, and the flag is set only over a value.
    pub open spec fn coherent(self) -> bool {
        &&& self.state.locked <==> self.holder is Some
        &&& self.holder matches Some(h) ==> 0 <= h < self.calls.len()
        &&& forall|i: int|
            0 <= i < self.calls.len() ==> ((#[trigger] self.calls[i]).phase.holds_lock()
                <==> self.holder == Some(i))
        &&& self.state.initialized ==> self.state.slot is Ready
        &&& forall|i: int|
            0 <= i < self.calls.len() && (#[trigger] self.calls[i]).phase is Publish
                ==> self.state.slot is Ready
        &&& self.invocations.len() > 0 ==> self.state.slot == Slot::<T, G>::Ready(
            self.invocations.last().1,
        )
    }

    /// A step keeps the system coherent.
    pub proof fn lemma_step_coherent(self, i: int, value: T)
        requires
            self.coherent(),
            self.enabled(i, value),
        ensures
            self.step(i, value).coherent(),
    {
        let next = self.step(i, value);
        assert(next.calls.len() == self.calls.len());
        assert forall|j: int| 0 <= j < next.calls.len() implies (
        (#[trigger] next.calls[j]).phase.holds_lock() <==> next.holder == Some(j)) by {
            assert(self.calls[j].phase.holds_lock() <==> self.holder == Some(j));
            assert(self.calls[i].phase.holds_lock() <==> self.holder == Some(i));
        }
        assert forall|j: int|
            0 <= j < next.calls.len() && (#[trigger] next.calls[j]).phase is Publish
            implies next.state.slot is Ready by {
            assert(self.calls[j].phase is Publish ==> self.state.slot is Ready);
        }
    }

    /// No call replaces the value: each initializes conditionally or reads.
    pub open spec fn quiet(self) -> bool {
        forall|i: int|
            0 <= i < self.calls.len() ==> (#[trigger] self.calls[i]).op
                != Operation::ForceInitialize
    }

    /// Whether the lock is owned by a call that has written the value and is
    /// about to set the flag.
    pub open spec fn publishing(self) -> bool {
        self.holder matches Some(h) && self.calls[h].phase is Publish
    }

    /// What holds of a quiet system besides coherence: a call runs its
    /// payload transition only on an unset flag, whoever invoked is known by
    /// its phase, and an outcome tells the truth about the flag.
    pub open spec fn orderly(self) -> bool {
        &&& self.quiet()
        &&& forall|i: int|
            0 <= i < self.calls.len() && (#[trigger] self.calls[i]).phase is Perform
                ==> !self.state.initialized
        &&& self.state.slot is Ready && !self.state.initialized ==> self.publishing()
        &&& self.invocations.len() <= 1
        &&& self.invocations.len() == 1 ==> 0 <= self.invocations[0].0 < self.calls.len()
        &&& self.invocations.len() == 1 ==> self.state.initialized || self.publishing()
        &&& forall|i: int|
            0 <= i < self.calls.len() ==> ((#[trigger] self.calls[i]).phase.has_performed() <==> (
            self.invocations.len() == 1 && self.invocations[0].0 == i))
        &&& forall|i: int|
            0 <= i < self.calls.len() && (#[trigger] self.calls[i]).phase.knows_flag_set()
                ==> self.state.initialized
        &&& forall|i: int|
            0 <= i < self.calls.len() ==> (#[trigger] self.calls[i]).phase.fits(self.calls[i].op)
    }

    /// Every value that the flag covers came from an invocation.
    pub open spec fn fresh(self) -> bool {
        self.state.initialized ==> self.invocations.len() >= 1
    }

    /// A step keeps a quiet system orderly.
    pub proof fn lemma_step_orderly(self, i: int, value: T)
        requires
            self.coherent(),
            self.orderly(),
            self.enabled(i, value),
        ensures
            self.step(i, value).orderly(),
            self.fresh() ==> self.step(i, value).fresh(),
    {
        let next = self.step(i, value);
        self.lemma_step_coherent(i, value);
        assert(next.calls.len() == self.calls.len());
        assert(self.calls[i].phase.fits(self.calls[i].op));
        assert(self.calls[i].phase.holds_lock() <==> self.holder == Some(i));
        assert(self.calls[i].phase.has_performed() <==> (self.invocations.len() == 1
            && self.invocations[0].0 == i));
        assert forall|j: int| 0 <= j < next.calls.len() implies (#[trigger] next.calls[j]).op
            != Operation::ForceInitialize by {
            assert(self.calls[j].op != Operation::ForceInitialize);
        }
        assert forall|j: int|
            0 <= j < next.calls.len() && (#[trigger] next.calls[j]).phase is Perform
            implies !next.state.initialized by {
            assert(self.calls[j].phase is Perform ==> !self.state.initialized);
            assert(self.calls[j].phase.holds_lock() <==> self.holder == Some(j));
        }
        assert forall|j: int| 0 <= j < next.calls.len() implies (
        (#[trigger] next.calls[j]).phase.has_performed() <==> (next.invocations.len() == 1
            && next.invocations[0].0 == j)) by {
            assert(self.calls[j].phase.has_performed() <==> (self.invocations.len() == 1
                && self.invocations[0].0 == j));
            assert(self.calls[j].phase.holds_lock() <==> self.holder == Some(j));
        }
        assert forall|j: int|
            0 <= j < next.calls.len() && (#[trigger] next.calls[j]).phase.knows_flag_set()
            implies next.state.initialized by {
            assert(self.calls[j].phase.knows_flag_set() ==> self.state.initialized);
        }
        assert forall|j: int| 0 <= j < next.calls.len() implies (
        #[trigger] next.calls[j]).phase.fits(next.calls[j].op) by {
            assert(self.calls[j].phase.fits(self.calls[j].op));
        }
    }

    /// A system that has not begun is coherent, and orderly if it is quiet.
    pub proof fn lemma_initial(self)
        requires
            self.initial(),
        ensures
            self.coherent(),
            self.quiet() ==> self.orderly(),
            !self.state.initialized ==> self.fresh(),
    {
        assert forall|i: int| 0 <= i < self.calls.len() implies {
            let phase = (#[trigger] self.calls[i]).phase;
            &&& !phase.holds_lock()
            &&& !phase.has_performed()
            &&& !phase.knows_flag_set()
            &&& phase.fits(self.calls[i].op)
        } by {
            assert(self.calls[i].phase == self.calls[i].op.start());
        }
    }

    /// A schedule neither adds a call nor changes what a call is.
    pub proof fn lemma_run_keeps_calls(self, schedule: Seq<(int, T)>)
        requires
            self.admits(schedule),
        ensures
            self.run(schedule).calls.len() == self.calls.len(),
            forall|i: int|
                0 <= i < self.calls.len() ==> (#[trigger] self.run(schedule).calls[i]).op
                    == self.calls[i].op,
        decreases schedule.len(),
    {
        if schedule.len() > 0 {
            self.lemma_run_keeps_calls(schedule.drop_last());
        }
    }

    /// Every schedule keeps the system coherent.
    pub proof fn lemma_run_coherent(self, schedule: Seq<(int, T)>)
        requires
            self.coherent(),
            self.admits(schedule),
        ensures
            self.run(schedule).coherent(),
        decreases schedule.len(),
    {
        if schedule.len() > 0 {
            let last = schedule.last();
            self.lemma_run_coherent(schedule.drop_last());
            self.run(schedule.drop_last()).lemma_step_coherent(last.0, last.1);
        }
    }

    /// Every schedule keeps a quiet system orderly.
    pub proof fn lemma_run_orderly(self, schedule: Seq<(int, T)>)
        requires
            self.coherent(),
            self.orderly(),
            self.admits(schedule),
        ensures
            self.run(schedule).coherent(),
            self.run(schedule).orderly(),
            self.fresh() ==> self.run(schedule).fresh(),
        decreases schedule.len(),
    {
        if schedule.len() > 0 {
            let last = schedule.last();
            self.lemma_run_orderly(schedule.drop_last());
            self.run(schedule.drop_last()).lemma_step_orderly(last.0, last.1);
        }
    }

    /// Whether call `w` has returned having performed, and every other call
    /// has returned reporting that the cell was initialized already.
    pub open spec fn only_performer(self, w: int) -> bool {
        &&& self.calls[w].phase == Phase::Done(Outcome::Performed)
        &&& forall|j: int|
            0 <= j < self.calls.len() && j != w ==> (#[trigger] self.calls[j]).phase
                == Phase::Done(Outcome::AlreadyInitialized)
    }

    /// Exclusivity: whatever the schedule, two calls never own the lock at
    /// the same time, so at most one runs a payload transition.
    pub proof fn lock_is_exclusive(self, schedule: Seq<(int, T)>, i: int, j: int)
        requires
            self.initial(),
            self.admits(schedule),
            0 <= i < self.calls.len(),
            0 <= j < self.calls.len(),
            self.run(schedule).calls[i].phase.holds_lock(),
            self.run(schedule).calls[j].phase.holds_lock(),
        ensures
            i == j,
            self.run(schedule).state.locked,
    {
        self.lemma_initial();
        self.lemma_run_coherent(schedule);
        self.lemma_run_keeps_calls(schedule);
    }

    /// Scoped release: once every call has returned, the lock is free.
    pub proof fn lock_is_returned(self, schedule: Seq<(int, T)>)
        requires
            self.initial(),
            self.admits(schedule),
            forall|i: int|
                0 <= i < self.calls.len() ==> (#[trigger] self.run(
                    schedule,
                ).calls[i]).phase is Done,
        ensures
            !self.run(schedule).state.locked,
    {
        self.lemma_initial();
        self.lemma_run_coherent(schedule);
        self.lemma_run_keeps_calls(schedule);
        let end = self.run(schedule);
        if end.holder is Some {
            let h = end.holder->Some_0;
            assert(end.calls[h].phase.holds_lock());
        }
    }

    /// Publish before read: whatever the schedule, a set flag covers a
    /// fully written value, the latest one that was produced if any was.
    pub proof fn flag_covers_value(self, schedule: Seq<(int, T)>)
        requires
            self.initial(),
            self.admits(schedule),
            self.run(schedule).state.initialized,
        ensures
            self.run(schedule).state.slot is Ready,
            self.run(schedule).invocations.len() > 0 ==> self.run(schedule).state.slot
                == Slot::<T, G>::Ready(self.run(schedule).invocations.last().1),
    {
        self.lemma_initial();
        self.lemma_run_coherent(schedule);
    }

    /// At most once: however many calls initialize conditionally, and
    /// however they are scheduled, no more than one invocation is made; and
    /// none at all on a cell that held a value from the start, which keeps
    /// that value.
    pub proof fn invoked_at_most_once(self, schedule: Seq<(int, T)>)
        requires
            self.initial(),
            self.quiet(),
            self.admits(schedule),
        ensures
            self.run(schedule).invocations.len() <= 1,
            self.state.initialized ==> self.run(schedule).invocations.len() == 0,
            self.state.initialized ==> self.run(schedule).state.slot == self.state.slot,
    {
        self.lemma_initial();
        self.lemma_run_orderly(schedule);
        if self.state.initialized {
            self.lemma_run_initialized_is_final(schedule);
        }
    }

    /// Exactly once: when calls that initialize conditionally have all
    /// returned from a cell that began without a value, one invocation was
    /// made, by the one call that reports having performed; every other
    /// call reports that the cell was initialized already.
    pub proof fn invoked_exactly_once(self, schedule: Seq<(int, T)>)
        requires
            self.initial(),
            !self.state.initialized,
            self.calls.len() >= 1,
            forall|i: int|
                0 <= i < self.calls.len() ==> (#[trigger] self.calls[i]).op
                    == Operation::TryInitialize,
            self.admits(schedule),
            forall|i: int|
                0 <= i < self.calls.len() ==> (#[trigger] self.run(
                    schedule,
                ).calls[i]).phase is Done,
        ensures
            self.run(schedule).invocations.len() == 1,
            exists|w: int|
                0 <= w < self.calls.len() && self.run(schedule).only_performer(w),
    {
        self.lemma_initial();
        self.lemma_run_orderly(schedule);
        self.lemma_run_keeps_calls(schedule);
        let end = self.run(schedule);
        assert(end.calls[0].phase is Done);
        assert(end.calls[0].phase.fits(end.calls[0].op));
        assert(end.calls[0].phase.has_performed() || end.calls[0].phase.knows_flag_set());
        assert(end.invocations.len() == 1);
        let w = end.invocations[0].0;
        assert(end.calls[w].phase.has_performed());
        assert(end.calls[w].phase is Done);
        assert forall|j: int| 0 <= j < end.calls.len() && j != w implies (
        #[trigger] end.calls[j]).phase == Phase::Done(Outcome::AlreadyInitialized) by {
            assert(end.calls[j].phase is Done);
            assert(end.calls[j].phase.fits(end.calls[j].op));
            assert(!end.calls[j].phase.has_performed());
        }
        assert(end.only_performer(w));
    }

    /// Publication: in a quiet system on a cell that began without a value,
    /// a call that has seen the flag set, or has set it, finds in the slot
    /// exactly the value that the one invocation produced.
    pub proof fn observed_value_is_the_produced_one(self, schedule: Seq<(int, T)>, i: int)
        requires
            self.initial(),
            self.quiet(),
            !self.state.initialized,
            self.admits(schedule),
            0 <= i < self.calls.len(),
            self.run(schedule).calls[i].phase.knows_flag_set(),
        ensures
            self.run(schedule).invocations.len() == 1,
            self.run(schedule).state.slot == Slot::<T, G>::Ready(
                self.run(schedule).invocations[0].1,
            ),
    {
        self.lemma_initial();
        self.lemma_run_orderly(schedule);
        self.lemma_run_keeps_calls(schedule);
    }

    /// In a quiet system a set flag stays set, and from then on the slot
    /// and the record of invocations stay as they are.
    pub proof fn lemma_step_initialized_is_final(self, i: int, value: T)
        requires
            self.coherent(),
            self.orderly(),
            self.state.initialized,
            self.enabled(i, value),
        ensures
            self.step(i, value).state.initialized,
            self.step(i, value).state.slot == self.state.slot,
            self.step(i, value).invocations == self.invocations,
            self.step(i, value).retired == self.retired,
    {
        assert(self.calls[i].phase is Perform ==> !self.state.initialized);
    }

    /// In a quiet system whose flag is set, no schedule changes the flag,
    /// the slot or the record of invocations.
    pub proof fn lemma_run_initialized_is_final(self, schedule: Seq<(int, T)>)
        requires
            self.coherent(),
            self.orderly(),
            self.state.initialized,
            self.admits(schedule),
        ensures
            self.run(schedule).state.initialized,
            self.run(schedule).state.slot == self.state.slot,
            self.run(schedule).invocations == self.invocations,
            self.run(schedule).retired == self.retired,
        decreases schedule.len(),
    {
        if schedule.len() > 0 {
            let last = schedule.last();
            self.lemma_run_initialized_is_final(schedule.drop_last());
            self.lemma_run_orderly(schedule.drop_last());
            self.run(schedule.drop_last()).lemma_step_initialized_is_final(last.0, last.1);
        }
    }

    /// The payload transition of a step is the one that the cell makes
    /// under exclusive access: where there is nothing to do the slot stays
    /// as it is, and otherwise it is left as `SpinCell::force_initialize_with`
    /// leaves it. For a call that initializes conditionally that is what
    /// `SpinCell::try_initialize_with` does.
    pub proof fn perform_is_the_cell_transition(self, i: int, value: T)
        requires
            self.enabled(i, value),
            self.calls[i].phase is Perform,
        ensures
            self.invokes(i) ==> self.state.slot.replaced_by(
                self.calls[i].supplier,
                self.step(i, value).state.slot,
            ),
            !self.invokes(i) ==> self.step(i, value).state.slot == self.state.slot,
            self.calls[i].op != Operation::ForceInitialize ==> self.state.slot.initialized_by(
                self.calls[i].supplier,
                self.step(i, value).state.slot,
            ),
            self.step(i, value).calls[i].phase is Publish,
    {
    }

    /// Idempotence: once the flag is set in a quiet system, a call that
    /// begins to initialize conditionally returns at its first action,
    /// reporting that the cell was initialized already; it invokes nothing
    /// and leaves the slot alone, whatever was scheduled before it.
    pub proof fn later_call_finds_it_initialized(self, schedule: Seq<(int, T)>, i: int, value: T)
        requires
            self.initial(),
            self.quiet(),
            self.admits(schedule),
            self.run(schedule).state.initialized,
            0 <= i < self.calls.len(),
            self.run(schedule).calls[i].phase is Check,
            self.run(schedule).calls[i].op == Operation::TryInitialize,
        ensures
            self.run(schedule).enabled(i, value),
            self.run(schedule).step(i, value).calls[i].phase == Phase::Done(
                Outcome::AlreadyInitialized,
            ),
            self.run(schedule).step(i, value).state.slot == self.run(schedule).state.slot,
            self.run(schedule).step(i, value).invocations == self.run(schedule).invocations,
    {
        self.lemma_initial();
        self.lemma_run_orderly(schedule);
        self.lemma_run_keeps_calls(schedule);
    }

    /// Replacement: when a call that replaces the value runs its payload
    /// transition on an initialized cell, the previous value is torn down,
    /// once, and the slot holds the value that the invocation returned.
    pub proof fn replacement_retires_the_previous_value(self, i: int, value: T)
        requires
            self.enabled(i, value),
            self.calls[i].phase is Perform,
            self.calls[i].op == Operation::ForceInitialize,
            self.calls[i].supplier is Some,
            self.state.slot is Ready,
        ensures
            self.step(i, value).state.slot == Slot::<T, G>::Ready(value),
            self.step(i, value).retired == self.retired.push(self.state.slot->Ready_0),
            self.step(i, value).invocations == self.invocations.push((i, value)),
    {
    }

    /// A schedule that the calls can take can be followed by any step that
    /// is enabled after it.
    pub proof fn lemma_extend(self, schedule: Seq<(int, T)>, i: int, value: T)
        requires
            self.admits(schedule),
            self.run(schedule).enabled(i, value),
        ensures
            self.admits(schedule.push((i, value))),
            self.run(schedule.push((i, value))) == self.run(schedule).step(i, value),
    {
        assert(schedule.push((i, value)).drop_last() == schedule);
    }

    /// The calls can come to an end: a call that is alone on a cell without
    /// a value, and has something to invoke, returns after six actions and
    /// has performed.
    pub proof fn lone_call_can_finish(self, value: T) -> (schedule: Seq<(int, T)>)
        requires
            self.initial(),
            !self.state.initialized,
            self.calls.len() == 1,
            self.calls[0].op == Operation::TryInitialize,
            self.state.slot.admits(self.calls[0].supplier, value),
        ensures
            schedule.len() == 6,
            self.admits(schedule),
            self.run(schedule).calls[0].phase == Phase::Done(Outcome::Performed),
            self.run(schedule).state.slot == Slot::<T, G>::Ready(value),
    {
        let step = (0int, value);
        let s0 = Seq::<(int, T)>::empty();
        assert(self.calls[0].phase == self.calls[0].op.start());
        assert(self.run(s0).calls[0].phase is Check);
        self.lemma_extend(s0, 0, value);
        let s1 = s0.push(step);
        assert(self.run(s1).calls[0].phase is Acquire);
        self.lemma_extend(s1, 0, value);
        let s2 = s1.push(step);
        assert(self.run(s2).calls[0].phase is Recheck);
        self.lemma_extend(s2, 0, value);
        let s3 = s2.push(step);
        assert(self.run(s3).calls[0].phase is Perform);
        assert(self.run(s3).state.slot == self.state.slot);
        self.lemma_extend(s3, 0, value);
        let s4 = s3.push(step);
        assert(self.run(s4).calls[0].phase is Publish);
        self.lemma_extend(s4, 0, value);
        let s5 = s4.push(step);
        assert(self.run(s5).calls[0].phase == Phase::Release(Outcome::Performed));
        self.lemma_extend(s5, 0, value);
        s5.push(step)
    }
}

} // verus!
