//! The payload of a cell: nothing, an initializer that has not run, or a value.
use vstd::prelude::*;
use crate::protocol::Operation;

verus! {

/// What the storage of a cell holds. Exactly one variant is live at a time,
/// so an initializer and a value never coexist.
pub enum Slot<T, G> {
    /// Neither a value nor an initializer.
    Empty,
    /// An initializer that has not been invoked.
    Pending(G),
    /// A fully constructed value.
    Ready(T),
}

impl<T, G> Slot<T, G> {
    /// The slot after its initializer, if any, was taken out of it.
    pub open spec fn without_initializer(self) -> Self {
        match self {
            Slot::Pending(_) => Slot::Empty,
            other => other,
        }
    }

    /// The slot after its value, if any, was torn down.
    pub open spec fn without_value(self) -> Self {
        match self {
            Slot::Ready(_) => Slot::Empty,
            other => other,
        }
    }

    /// Whether the slot holds a value.
    pub fn is_ready(&self) -> (ready: bool)
        ensures
            ready == (*self is Ready),
    {
        match self {
            Slot::Ready(_) => true,
            _ => false,
        }
    }

    /// Whether the payload transition of a call of `op` finds nothing to do
    /// on this slot: it holds a value, and the call either initializes
    /// conditionally or brought nothing (`supplied` is false) to replace the
    /// value with.
    pub open spec fn skips(self, op: Operation, supplied: bool) -> bool {
        self is Ready && (op != Operation::ForceInitialize || !supplied)
    }

    /// Takes the pending initializer out, leaving nothing behind. A slot
    /// without one is left as it is.
    pub fn take_initializer(&mut self) -> (taken: Option<G>)
        ensures
            *final(self) == old(self).without_initializer(),
            taken == (match *old(self) {
                Slot::Pending(g) => Some(g),
                _ => None,
            }),
    {
        let mut held = Slot::Empty;
        core::mem::swap(self, &mut held);
        match held {
            Slot::Pending(g) => Some(g),
            other => {
                *self = other;
                None
            },
        }
    }

    /// Takes the value out so that the caller tears it down, leaving nothing
    /// behind. A slot without a value is left as it is.
    pub fn take_value(&mut self) -> (taken: Option<T>)
        ensures
            *final(self) == old(self).without_value(),
            taken == (match *old(self) {
                Slot::Ready(v) => Some(v),
                _ => None,
            }),
    {
        let mut held = Slot::Empty;
        core::mem::swap(self, &mut held);
        match held {
            Slot::Ready(v) => Some(v),
            other => {
                *self = other;
                None
            },
        }
    }

    /// The value, if the slot holds one.
    pub fn value(&self) -> (found: Option<&T>)
        ensures
            found == (match *self {
                Slot::Ready(v) => Some(&v),
                _ => None,
            }),
    {
        match self {
            Slot::Ready(v) => Some(v),
            _ => None,
        }
    }
}

impl<T, G: FnOnce() -> T> Slot<T, G> {
    /// Whether a transition on this slot that brings `supplier` has
    /// something to invoke, and may invoke it: the pending initializer, or
    /// the supplier where no initializer is pending.
    pub open spec fn can_produce<F: FnOnce() -> T>(self, supplier: Option<F>) -> bool {
        match self {
            Slot::Pending(g) => call_requires(g, ()),
            _ => supplier matches Some(f) && call_requires(f, ()),
        }
    }

    /// Whether a transition on this slot that brings `supplier` may store
    /// `value`: the pending initializer goes first, and the supplier is
    /// invoked only where none is pending.
    pub open spec fn admits<F: FnOnce() -> T>(self, supplier: Option<F>, value: T) -> bool {
        match self {
            Slot::Pending(g) => call_ensures(g, (), value),
            _ => supplier matches Some(f) && call_ensures(f, (), value),
        }
    }

    /// Whether `after` is this slot once a transition that brought
    /// `supplier` has replaced whatever it held: `after` holds a value that
    /// the transition may store.
    pub open spec fn replaced_by<F: FnOnce() -> T>(self, supplier: Option<F>, after: Self) -> bool {
        after is Ready && self.admits(supplier, after->Ready_0)
    }

    /// Whether `after` is this slot once a transition that brought
    /// `supplier` has initialized it if it was not: a value stays as it is,
    /// anything else is replaced.
    pub open spec fn initialized_by<F: FnOnce() -> T>(
        self,
        supplier: Option<F>,
        after: Self,
    ) -> bool {
        if self is Ready {
            after == self
        } else {
            self.replaced_by(supplier, after)
        }
    }
}

/// Idempotence: once a conditional initialization has gone through, the
/// slot holds a value, and every later conditional initialization leaves the
/// slot exactly as it found it, whatever supplier it brings.
pub proof fn conditional_initialization_is_idempotent<
    T,
    G: FnOnce() -> T,
    F1: FnOnce() -> T,
    F2: FnOnce() -> T,
>(before: Slot<T, G>, first: Option<F1>, after: Slot<T, G>, second: Option<F2>, again: Slot<T, G>)
    requires
        before.initialized_by(first, after),
        after.initialized_by(second, again),
    ensures
        after is Ready,
        again == after,
{
}

/// Replacement: after an initialized slot was replaced with `supplier`, the
/// slot holds a result of `supplier`, and a conditional initialization or a
/// read that follows finds that very value.
pub proof fn replacement_is_what_is_read<T, G: FnOnce() -> T, F: FnOnce() -> T>(
    before: Slot<T, G>,
    supplier: F,
    after: Slot<T, G>,
    read: Slot<T, G>,
)
    requires
        before is Ready,
        before.replaced_by(Some(supplier), after),
        after.initialized_by(None::<G>, read),
    ensures
        read == after,
        read is Ready,
        call_ensures(supplier, (), read->Ready_0),
{
}

} // verus!
