use spincell::protocol::{Action, MemoryOrder, Observation, Operation, Outcome, Phase};

#[test]
fn calls_begin_where_their_operation_says() {
    assert_eq!(Operation::TryInitialize.start(), Phase::Check);
    assert_eq!(Operation::Read.start(), Phase::Check);
    assert_eq!(Operation::ForceInitialize.start(), Phase::Acquire);
}

#[test]
fn each_phase_names_its_action_and_orderings() {
    let load = Action::LoadInitialized { order: MemoryOrder::Acquire };
    assert_eq!(Phase::Check.action(), load);
    assert_eq!(Phase::Recheck.action(), load);
    assert_eq!(
        Phase::Acquire.action(),
        Action::CompareExchangeLock { success: MemoryOrder::Acquire, failure: MemoryOrder::Relaxed }
    );
    assert_eq!(Phase::Backoff.action(), Action::SpinHint);
    assert_eq!(Phase::Perform.action(), Action::Perform);
    assert_eq!(Phase::Publish.action(), Action::StoreInitialized { order: MemoryOrder::Release });
    assert_eq!(
        Phase::Release(Outcome::Performed).action(),
        Action::StoreLock { order: MemoryOrder::Release }
    );
    assert_eq!(
        Phase::Done(Outcome::AlreadyInitialized).action(),
        Action::Finish(Outcome::AlreadyInitialized)
    );
}

#[test]
fn only_phases_between_the_exchange_and_the_release_hold_the_lock() {
    assert!(!Phase::Check.holds_lock());
    assert!(!Phase::Acquire.holds_lock());
    assert!(!Phase::Backoff.holds_lock());
    assert!(Phase::Recheck.holds_lock());
    assert!(Phase::Perform.holds_lock());
    assert!(Phase::Publish.holds_lock());
    assert!(Phase::Release(Outcome::Performed).holds_lock());
    assert!(!Phase::Done(Outcome::Performed).holds_lock());
}

#[test]
fn fast_path_returns_without_the_lock() {
    let op = Operation::TryInitialize;
    assert_eq!(
        Phase::Check.advance(op, Observation::Flag(true)),
        Phase::Done(Outcome::AlreadyInitialized)
    );
    assert_eq!(Phase::Check.advance(op, Observation::Flag(false)), Phase::Acquire);
}

#[test]
fn read_never_goes_for_the_lock() {
    let op = Operation::Read;
    assert_eq!(Phase::Check.advance(op, Observation::Flag(true)), Phase::Done(Outcome::Available));
    assert_eq!(
        Phase::Check.advance(op, Observation::Flag(false)),
        Phase::Done(Outcome::NotInitialized)
    );
}

#[test]
fn busy_lock_is_retried_after_a_hint() {
    for op in [Operation::TryInitialize, Operation::ForceInitialize] {
        assert_eq!(Phase::Acquire.advance(op, Observation::Exchange(false)), Phase::Backoff);
        assert_eq!(Phase::Backoff.advance(op, Observation::Nothing), Phase::Acquire);
    }
}

#[test]
fn conditional_initialization_checks_again_under_the_lock() {
    let op = Operation::TryInitialize;
    assert_eq!(Phase::Acquire.advance(op, Observation::Exchange(true)), Phase::Recheck);
    assert_eq!(
        Phase::Recheck.advance(op, Observation::Flag(true)),
        Phase::Release(Outcome::AlreadyInitialized)
    );
    assert_eq!(Phase::Recheck.advance(op, Observation::Flag(false)), Phase::Perform);
    assert_eq!(
        Phase::Release(Outcome::AlreadyInitialized).advance(op, Observation::Nothing),
        Phase::Done(Outcome::AlreadyInitialized)
    );
}

#[test]
fn replacement_performs_as_soon_as_it_has_the_lock() {
    let op = Operation::ForceInitialize;
    assert_eq!(Phase::Acquire.advance(op, Observation::Exchange(true)), Phase::Perform);
    assert_eq!(Phase::Perform.advance(op, Observation::Nothing), Phase::Publish);
    assert_eq!(
        Phase::Publish.advance(op, Observation::Nothing),
        Phase::Release(Outcome::Performed)
    );
    assert_eq!(
        Phase::Release(Outcome::Performed).advance(op, Observation::Nothing),
        Phase::Done(Outcome::Performed)
    );
}

#[test]
fn observation_that_answers_nothing_changes_nothing() {
    let op = Operation::TryInitialize;
    assert_eq!(Phase::Check.advance(op, Observation::Nothing), Phase::Check);
    assert_eq!(Phase::Check.advance(op, Observation::Exchange(true)), Phase::Check);
    assert_eq!(Phase::Acquire.advance(op, Observation::Flag(true)), Phase::Acquire);
    assert_eq!(Phase::Perform.advance(op, Observation::Flag(true)), Phase::Perform);
    assert_eq!(
        Phase::Done(Outcome::Performed).advance(op, Observation::Nothing),
        Phase::Done(Outcome::Performed)
    );
}
