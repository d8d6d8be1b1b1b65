//! The cell as the one who holds it exclusively drives it.
//!
//! Every transition of the payload happens under exclusive access. Here the
//! exclusive borrow is that access; between threads the lock of
//! `crate::protocol` grants it to one call at a time.
use vstd::prelude::*;
use crate::protocol::Operation;
use crate::slot::Slot;

verus! {

/// A single slot for a `T` that is given at construction or produced later
/// by an initializer of type `G`, which runs at most once.
pub struct SpinCell<T, G = fn() -> T> {
    slot: Slot<T, G>,
}

impl<T, G: FnOnce() -> T> SpinCell<T, G> {
    /// What the cell holds.
    pub closed spec fn view(&self) -> Slot<T, G> {
        self.slot
    }

    /// A cell that holds `init_func`, not yet invoked, and no value.
    pub fn new(init_func: G) -> (cell: Self)
        ensures
            cell@ == Slot::<T, G>::Pending(init_func),
    {
        SpinCell { slot: Slot::Pending(init_func) }
    }

    /// A cell that is initialized with `value` from the start.
    pub fn from_value(value: T) -> (cell: Self)
        ensures
            cell@ == Slot::<T, G>::Ready(value),
    {
        SpinCell { slot: Slot::Ready(value) }
    }

    /// A cell with neither a value nor an initializer. It stays unreadable
    /// until a call that brings a supplier initializes it.
    pub fn empty() -> (cell: Self)
        ensures
            cell@ == Slot::<T, G>::Empty,
    {
        SpinCell { slot: Slot::Empty }
    }

    /// Whether the cell holds a value.
    pub fn is_initialized(&self) -> (initialized: bool)
        ensures
            initialized == (self@ is Ready),
    {
        self.slot.is_ready()
    }

    /// Whether the cell holds an initializer that has not run.
    pub fn is_pending(&self) -> (pending: bool)
        ensures
            pending == (self@ is Pending),
    {
        match &self.slot {
            Slot::Pending(_) => true,
            _ => false,
        }
    }

    /// The value, if the cell is initialized. Never initializes.
    pub fn get(&self) -> (found: Option<&T>)
        ensures
            found == (match self@ {
                Slot::Ready(v) => Some(&v),
                _ => None,
            }),
    {
        self.slot.value()
    }

    /// Replaces whatever the cell holds by a fresh value. The previous value,
    /// if any, is torn down first; then the stored initializer is consumed
    /// and invoked if one is pending, and `supplier` is invoked otherwise.
    ///
    /// As this takes the cell exclusively, no borrow of the previous value
    /// can be alive when it is torn down.
    pub fn force_initialize_with<F: FnOnce() -> T>(&mut self, supplier: F)
        requires
            old(self)@.can_produce(Some(supplier)),
        ensures
            old(self)@.replaced_by(Some(supplier), final(self)@),
    {
        let _ = self.slot.take_value();
        let value = match self.slot.take_initializer() {
            Some(init_func) => init_func(),
            None => supplier(),
        };
        self.slot = Slot::Ready(value);
    }

    /// Initializes the cell from its stored initializer. With no initializer
    /// left to invoke, an initialized cell keeps its value.
    pub fn force_initialize(&mut self)
        requires
            old(self)@ is Ready || old(self)@.can_produce(None::<G>),
        ensures
            old(self)@.initialized_by(None::<G>, final(self)@),
    {
        match self.slot.take_initializer() {
            Some(init_func) => {
                let value = init_func();
                self.slot = Slot::Ready(value);
            },
            None => {},
        }
    }

    /// Initializes the cell unless it is initialized already: `Err` says that
    /// it was, and then nothing was invoked and nothing changed. Otherwise
    /// the stored initializer is consumed and invoked, and its result is the
    /// cell's value.
    pub fn try_initialize(me: &mut SpinCell<T, G>) -> (outcome: Result<(), ()>)
        requires
            old(me)@ is Ready || old(me)@.can_produce(None::<G>),
        ensures
            outcome is Err <==> old(me)@ is Ready,
            old(me)@.initialized_by(None::<G>, final(me)@),
    {
        if me.slot.is_ready() {
            return Err(());
        }
        me.force_initialize();
        Ok(())
    }

    /// Initializes the cell unless it is initialized already. On an
    /// initialized cell nothing changes and `supplier` comes back, not
    /// invoked, as the error. Otherwise the stored initializer is consumed
    /// and invoked if one is pending, and `supplier` is invoked if none is.
    pub fn try_initialize_with<F: FnOnce() -> T>(me: &mut SpinCell<T, G>, supplier: F) -> (outcome:
        Result<(), F>)
        requires
            old(me)@ is Ready || old(me)@.can_produce(Some(supplier)),
        ensures
            outcome == (if old(me)@ is Ready {
                Err::<(), F>(supplier)
            } else {
                Ok::<(), F>(())
            }),
            old(me)@.initialized_by(Some(supplier), final(me)@),
    {
        if me.slot.is_ready() {
            return Err(supplier);
        }
        me.force_initialize_with(supplier);
        Ok(())
    }

    /// Borrows the value, initializing the cell first from its stored
    /// initializer if it is not initialized yet.
    pub fn read(&mut self) -> (value: &T)
        requires
            old(self)@ is Ready || old(self)@.can_produce(None::<G>),
        ensures
            final(self)@ == Slot::<T, G>::Ready(*value),
            old(self)@.initialized_by(None::<G>, final(self)@),
    {
        let _ = Self::try_initialize(self);
        match &self.slot {
            Slot::Ready(value) => value,
            _ => vstd::pervasive::unreached(),
        }
    }

    /// Whether the payload transition of a call of `op` has what it needs
    /// on this cell: nothing to do, or an initializer or a supplier
    /// (`supplied`) to invoke.
    pub fn can_perform(&self, op: Operation, supplied: bool) -> (ready: bool)
        ensures
            ready == (self@.skips(op, supplied) || self@ is Pending || supplied),
    {
        match &self.slot {
            Slot::Empty => supplied,
            _ => true,
        }
    }

    /// The payload transition of a call of `op` that brought `supplier`:
    /// what the call does to the cell while it has it to itself. A
    /// conditional initialization leaves a value alone, and so does a
    /// replacement that has nothing to replace it with; then the supplier
    /// comes back. Otherwise the value is replaced and the supplier is gone.
    pub fn perform<F: FnOnce() -> T>(&mut self, op: Operation, supplier: Option<F>) -> (rest:
        Option<F>)
        requires
            !old(self)@.skips(op, supplier is Some) ==> old(self)@.can_produce(supplier),
        ensures
            old(self)@.skips(op, supplier is Some) ==> final(self)@ == old(self)@ && rest
                == supplier,
            !old(self)@.skips(op, supplier is Some) ==> old(self)@.replaced_by(
                supplier,
                final(self)@,
            ) && rest is None,
    {
        let replaces = match op {
            Operation::ForceInitialize => supplier.is_some(),
            _ => false,
        };
        if !replaces && self.slot.is_ready() {
            return supplier;
        }
        match supplier {
            Some(supplier) => self.force_initialize_with(supplier),
            None => self.force_initialize(),
        }
        None
    }

    /// Ends the cell and hands out the one payload that was live in it: the
    /// value of an initialized cell, or the initializer that never ran.
    pub fn into_payload(self) -> (payload: Slot<T, G>)
        ensures
            payload == self@,
    {
        self.slot
    }
}

} // verus!
