use arkadas_desktop::arbiter::{
    arbitrate, ArbiterAction, ArbiterEvent, ArbiterState, Directive, MarkerProbe, Outcome,
    EXIT_DEFERRED, EXIT_FATAL,
};

#[test]
fn free_marker_makes_a_primary() {
    assert_eq!(arbitrate(MarkerProbe::Acquired), Outcome::Primary);
}

#[test]
fn held_marker_makes_a_secondary() {
    assert_eq!(arbitrate(MarkerProbe::HeldByOther), Outcome::Secondary);
}

#[test]
fn broken_mechanism_is_an_error_and_no_role() {
    assert_eq!(arbitrate(MarkerProbe::Broken), Outcome::AcquisitionError);
}

#[test]
fn each_outcome_has_its_directive() {
    assert_eq!(Outcome::Primary.directive(), Directive::RegisterAndStart);
    assert_eq!(Outcome::Secondary.directive(), Directive::ForwardAndExit);
    assert_eq!(Outcome::AcquisitionError.directive(), Directive::Abort);
}

#[test]
fn secondary_exits_with_status_zero() {
    assert_eq!(Directive::ForwardAndExit.exit_status(), Some(0));
    assert_eq!(EXIT_DEFERRED, 0);
}

#[test]
fn failed_startup_exits_with_a_failure_status() {
    assert_eq!(Directive::Abort.exit_status(), Some(1));
    assert_eq!(EXIT_FATAL, 1);
    assert_ne!(EXIT_FATAL, 0);
}

#[test]
fn primary_keeps_running() {
    assert_eq!(Directive::RegisterAndStart.exit_status(), None);
}

#[test]
fn unarbitrated_process_takes_its_role_from_the_probe() {
    let start = ArbiterState::Unarbitrated;
    assert_eq!(
        start.step(ArbiterEvent::Probed(MarkerProbe::Acquired)),
        (ArbiterState::Primary, ArbiterAction::Follow(Directive::RegisterAndStart))
    );
    assert_eq!(
        start.step(ArbiterEvent::Probed(MarkerProbe::HeldByOther)),
        (ArbiterState::Secondary, ArbiterAction::Follow(Directive::ForwardAndExit))
    );
    assert_eq!(
        start.step(ArbiterEvent::Probed(MarkerProbe::Broken)),
        (ArbiterState::Unarbitrated, ArbiterAction::Follow(Directive::Abort))
    );
}

#[test]
fn unarbitrated_process_ignores_secondary_launches() {
    assert_eq!(
        ArbiterState::Unarbitrated.step(ArbiterEvent::SecondaryLaunch),
        (ArbiterState::Unarbitrated, ArbiterAction::Nothing)
    );
}

#[test]
fn primary_refocuses_and_stays_primary() {
    let mut state = ArbiterState::Primary;
    for _ in 0..5 {
        let (next, action) = state.step(ArbiterEvent::SecondaryLaunch);
        assert_eq!(next, ArbiterState::Primary);
        assert_eq!(action, ArbiterAction::Refocus);
        state = next;
    }
}

#[test]
fn decided_role_is_never_left() {
    let events = [
        ArbiterEvent::Probed(MarkerProbe::Acquired),
        ArbiterEvent::Probed(MarkerProbe::HeldByOther),
        ArbiterEvent::Probed(MarkerProbe::Broken),
        ArbiterEvent::SecondaryLaunch,
    ];
    for role in [ArbiterState::Primary, ArbiterState::Secondary] {
        for event in events {
            assert_eq!(role.step(event).0, role);
        }
    }
    for event in events {
        assert_eq!(
            ArbiterState::Secondary.step(event),
            (ArbiterState::Secondary, ArbiterAction::Nothing)
        );
    }
    assert_eq!(
        ArbiterState::Primary.step(ArbiterEvent::Probed(MarkerProbe::Acquired)),
        (ArbiterState::Primary, ArbiterAction::Nothing)
    );
}

#[test]
fn role_is_decided_at_most_once() {
    let events = [
        ArbiterEvent::SecondaryLaunch,
        ArbiterEvent::Probed(MarkerProbe::Broken),
        ArbiterEvent::Probed(MarkerProbe::HeldByOther),
        ArbiterEvent::Probed(MarkerProbe::Acquired),
        ArbiterEvent::SecondaryLaunch,
    ];
    let mut state = ArbiterState::Unarbitrated;
    let mut changes = 0;
    for event in events {
        let (next, _) = state.step(event);
        if next != state {
            changes += 1;
        }
        state = next;
    }
    assert_eq!(changes, 1);
    assert_eq!(state, ArbiterState::Secondary);
}
