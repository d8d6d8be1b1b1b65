use core::sync::atomic::{AtomicUsize, Ordering};
use std::cell::Cell;
use std::rc::Rc;

use spincell::protocol::Operation;
use spincell::{Slot, SpinCell};

#[test]
fn test_one_plus_one() {
    let mut one = SpinCell::new(|| 1u8);
    assert_eq!(1, *one.read());
    let two = one.read().wrapping_add(1);
    assert_eq!(two, 2);
}

static COUNTER: AtomicUsize = AtomicUsize::new(0);

struct DropTest {
    my_data: usize,
}

impl Drop for DropTest {
    fn drop(&mut self) {
        COUNTER.store(1, Ordering::Release);
    }
}

#[test]
fn test_drop() {
    assert_eq!(COUNTER.load(Ordering::Acquire), 0);
    {
        let mut data = SpinCell::new(|| DropTest { my_data: 123 });
        assert_eq!(data.read().my_data, 123);
    }
    assert_eq!(COUNTER.load(Ordering::Acquire), 1);
}

/// A value that counts its own teardown.
struct Counted {
    value: u32,
    drops: Rc<Cell<u32>>,
}

impl Drop for Counted {
    fn drop(&mut self) {
        self.drops.set(self.drops.get() + 1);
    }
}

/// An initializer that counts its own teardown, invoked or not.
struct Token {
    drops: Rc<Cell<u32>>,
}

impl Drop for Token {
    fn drop(&mut self) {
        self.drops.set(self.drops.get() + 1);
    }
}

#[test]
fn pending_cell_reads_its_initializer_result_and_stays_initialized() {
    let mut cell = SpinCell::new(|| 1u32);
    assert!(!cell.is_initialized());
    assert_eq!(*cell.read(), 1);
    assert!(cell.is_initialized());
    assert_eq!(SpinCell::try_initialize(&mut cell), Err(()));
    assert!(SpinCell::try_initialize_with(&mut cell, || 5u32).is_err());
    assert_eq!(*cell.read(), 1);
    assert_eq!(cell.get(), Some(&1));
}

#[test]
fn empty_cell_is_replaced_and_the_old_value_is_torn_down_once() {
    let drops_of_seven = Rc::new(Cell::new(0u32));
    let drops_of_nine = Rc::new(Cell::new(0u32));
    let mut cell: SpinCell<Counted> = SpinCell::empty();
    assert!(cell.get().is_none());

    let d7 = drops_of_seven.clone();
    cell.force_initialize_with(move || Counted { value: 7, drops: d7 });
    assert_eq!(cell.read().value, 7);
    assert_eq!(drops_of_seven.get(), 0);

    let d9 = drops_of_nine.clone();
    let seen_by_supplier = drops_of_seven.clone();
    let torn_down_before_supplier_ran = Rc::new(Cell::new(0u32));
    let record = torn_down_before_supplier_ran.clone();
    cell.force_initialize_with(move || {
        record.set(seen_by_supplier.get());
        Counted { value: 9, drops: d9 }
    });
    assert_eq!(cell.read().value, 9);
    assert_eq!(drops_of_seven.get(), 1);
    assert_eq!(torn_down_before_supplier_ran.get(), 1);
    assert_eq!(drops_of_nine.get(), 0);
    drop(cell);
    assert_eq!(drops_of_seven.get(), 1);
    assert_eq!(drops_of_nine.get(), 1);
}

#[test]
fn first_success_is_final_for_conditional_initialization() {
    let calls = Rc::new(Cell::new(0u32));
    let mut cell: SpinCell<u32> = SpinCell::empty();
    let c = calls.clone();
    let first = SpinCell::try_initialize_with(&mut cell, move || {
        c.set(c.get() + 1);
        40 + c.get()
    });
    assert!(first.is_ok());
    assert_eq!(calls.get(), 1);
    for _ in 0..5 {
        let c = calls.clone();
        let again = SpinCell::try_initialize_with(&mut cell, move || {
            c.set(c.get() + 1);
            0
        });
        assert!(again.is_err());
    }
    assert_eq!(calls.get(), 1);
    assert_eq!(cell.get(), Some(&41));
}

#[test]
fn refused_supplier_comes_back_uninvoked() {
    let mut cell: SpinCell<u32> = SpinCell::from_value(3);
    let back = SpinCell::try_initialize_with(&mut cell, || 8u32);
    match back {
        Err(supplier) => assert_eq!(supplier(), 8),
        Ok(()) => panic!("an initialized cell was initialized again"),
    }
    assert_eq!(cell.get(), Some(&3));
}

#[test]
fn stored_initializer_goes_before_the_supplier() {
    let mut cell = SpinCell::new(|| 1u32);
    assert!(SpinCell::try_initialize_with(&mut cell, || 2u32).is_ok());
    assert_eq!(cell.get(), Some(&1));

    let mut other = SpinCell::new(|| 10u32);
    other.force_initialize_with(|| 20u32);
    assert_eq!(other.get(), Some(&10));
    other.force_initialize_with(|| 30u32);
    assert_eq!(other.get(), Some(&30));
}

#[test]
fn force_initialize_runs_the_stored_initializer_once() {
    let calls = Rc::new(Cell::new(0u32));
    let c = calls.clone();
    let mut cell = SpinCell::new(move || {
        c.set(c.get() + 1);
        5u32
    });
    cell.force_initialize();
    assert_eq!(cell.get(), Some(&5));
    cell.force_initialize();
    assert_eq!(cell.get(), Some(&5));
    assert_eq!(calls.get(), 1);
}

#[test]
fn from_value_is_initialized_at_once() {
    let mut cell: SpinCell<u32> = SpinCell::from_value(11);
    assert!(cell.is_initialized());
    assert_eq!(cell.get(), Some(&11));
    assert_eq!(SpinCell::try_initialize(&mut cell), Err(()));
    assert_eq!(*cell.read(), 11);
}

#[test]
fn get_never_initializes() {
    let cell = SpinCell::new(|| 1u32);
    assert_eq!(cell.get(), None);
    assert!(!cell.is_initialized());
    assert!(matches!(cell.into_payload(), Slot::Pending(_)));
}

#[test]
fn teardown_of_a_pending_cell_drops_the_initializer_and_builds_nothing() {
    let initializer_drops = Rc::new(Cell::new(0u32));
    let built = Rc::new(Cell::new(0u32));
    {
        let token = Token { drops: initializer_drops.clone() };
        let b = built.clone();
        let cell = SpinCell::new(move || {
            let _held = &token;
            b.set(b.get() + 1);
            1u32
        });
        assert!(!cell.is_initialized());
    }
    assert_eq!(initializer_drops.get(), 1);
    assert_eq!(built.get(), 0);
}

#[test]
fn teardown_of_an_initialized_cell_drops_the_value_once() {
    let value_drops = Rc::new(Cell::new(0u32));
    let initializer_drops = Rc::new(Cell::new(0u32));
    {
        let token = Token { drops: initializer_drops.clone() };
        let d = value_drops.clone();
        let mut cell = SpinCell::new(move || {
            let _held = &token;
            Counted { value: 2, drops: d }
        });
        assert_eq!(cell.read().value, 2);
        // The initializer was consumed by the call that invoked it.
        assert_eq!(initializer_drops.get(), 1);
        assert_eq!(value_drops.get(), 0);
    }
    assert_eq!(value_drops.get(), 1);
    assert_eq!(initializer_drops.get(), 1);
}

#[test]
fn into_payload_hands_out_what_was_live() {
    let empty: SpinCell<u32> = SpinCell::empty();
    assert!(matches!(empty.into_payload(), Slot::Empty));
    let ready: SpinCell<u32> = SpinCell::from_value(4);
    assert!(matches!(ready.into_payload(), Slot::Ready(4)));
    let pending = SpinCell::new(|| 6u32);
    match pending.into_payload() {
        Slot::Pending(init_func) => assert_eq!(init_func(), 6),
        _ => panic!("the initializer was not handed out"),
    }
}

#[test]
fn slot_gives_up_one_payload_at_a_time() {
    let mut slot: Slot<u32, fn() -> u32> = Slot::Ready(3);
    assert!(slot.is_ready());
    assert!(slot.take_initializer().is_none());
    assert_eq!(slot.value(), Some(&3));
    assert_eq!(slot.take_value(), Some(3));
    assert!(matches!(slot, Slot::Empty));
    assert_eq!(slot.take_value(), None);

    fn nine() -> u32 {
        9
    }
    let mut pending: Slot<u32, fn() -> u32> = Slot::Pending(nine);
    assert!(!pending.is_ready());
    assert_eq!(pending.value(), None);
    assert_eq!(pending.take_value(), None);
    assert!(matches!(pending, Slot::Pending(_)));
    let taken = pending.take_initializer();
    assert_eq!(taken.map(|f| f()), Some(9));
    assert!(matches!(pending, Slot::Empty));
}

#[test]
fn payload_transition_follows_the_operation() {
    let mut cell: SpinCell<u32> = SpinCell::empty();
    assert!(!cell.can_perform(Operation::TryInitialize, false));
    assert!(!cell.can_perform(Operation::ForceInitialize, false));
    assert!(cell.can_perform(Operation::TryInitialize, true));

    let rest = cell.perform(Operation::TryInitialize, Some(|| 1u32));
    assert!(rest.is_none());
    assert_eq!(cell.get(), Some(&1));

    // A conditional initialization leaves the value and keeps its supplier.
    assert!(cell.can_perform(Operation::TryInitialize, false));
    let rest = cell.perform(Operation::TryInitialize, Some(|| 2u32));
    assert_eq!(rest.map(|f| f()), Some(2));
    assert_eq!(cell.get(), Some(&1));

    // A replacement with nothing to invoke leaves the value too.
    assert!(cell.can_perform(Operation::ForceInitialize, false));
    let rest = cell.perform(Operation::ForceInitialize, None::<fn() -> u32>);
    assert!(rest.is_none());
    assert_eq!(cell.get(), Some(&1));

    // A replacement with a supplier replaces.
    let rest = cell.perform(Operation::ForceInitialize, Some(|| 3u32));
    assert!(rest.is_none());
    assert_eq!(cell.get(), Some(&3));

    let mut pending = SpinCell::new(|| 10u32);
    assert!(pending.is_pending());
    assert!(pending.can_perform(Operation::TryInitialize, false));
    let rest = pending.perform(Operation::TryInitialize, None::<fn() -> u32>);
    assert!(rest.is_none());
    assert!(!pending.is_pending());
    assert_eq!(pending.get(), Some(&10));
}
