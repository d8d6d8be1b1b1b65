use spincell::flags::Flags;
use spincell::protocol::{Observation, Outcome, Phase};

#[test]
fn flags_begin_with_a_free_lock() {
    let flags = Flags::new(false);
    assert_eq!(flags.perform(Phase::Check), Observation::Flag(false));
    assert_eq!(flags.perform(Phase::Acquire), Observation::Exchange(true));
    let set = Flags::new(true);
    assert_eq!(set.perform(Phase::Check), Observation::Flag(true));
    assert_eq!(set.perform(Phase::Recheck), Observation::Flag(true));
}

#[test]
fn lock_is_taken_once_until_it_is_released() {
    let flags = Flags::new(false);
    assert_eq!(flags.perform(Phase::Acquire), Observation::Exchange(true));
    assert_eq!(flags.perform(Phase::Acquire), Observation::Exchange(false));
    assert_eq!(flags.perform(Phase::Backoff), Observation::Nothing);
    assert_eq!(flags.perform(Phase::Acquire), Observation::Exchange(false));
    assert_eq!(flags.perform(Phase::Release(Outcome::Performed)), Observation::Nothing);
    assert_eq!(flags.perform(Phase::Acquire), Observation::Exchange(true));
}

#[test]
fn publishing_sets_the_flag_for_good() {
    let flags = Flags::new(false);
    assert_eq!(flags.perform(Phase::Recheck), Observation::Flag(false));
    assert_eq!(flags.perform(Phase::Publish), Observation::Nothing);
    assert_eq!(flags.perform(Phase::Check), Observation::Flag(true));
    assert_eq!(flags.perform(Phase::Release(Outcome::Performed)), Observation::Nothing);
    assert_eq!(flags.perform(Phase::Check), Observation::Flag(true));
}

#[test]
fn payload_and_return_do_not_touch_the_flags() {
    let flags = Flags::new(false);
    assert_eq!(flags.perform(Phase::Perform), Observation::Nothing);
    assert_eq!(flags.perform(Phase::Done(Outcome::Performed)), Observation::Nothing);
    assert_eq!(flags.perform(Phase::Check), Observation::Flag(false));
    assert_eq!(flags.perform(Phase::Acquire), Observation::Exchange(true));
}

#[test]
fn call_driven_over_the_flags_runs_to_its_end() {
    let flags = Flags::new(false);
    let op = spincell::protocol::Operation::TryInitialize;
    let mut phase = op.start();
    let mut actions = 0;
    while !matches!(phase, Phase::Done(_)) {
        let seen = flags.perform(phase);
        phase = phase.advance(op, seen);
        actions += 1;
        assert!(actions <= 7);
    }
    assert_eq!(phase, Phase::Done(Outcome::Performed));
    assert_eq!(flags.perform(Phase::Check), Observation::Flag(true));
    assert_eq!(flags.perform(Phase::Acquire), Observation::Exchange(true));
}
