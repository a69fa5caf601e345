//! The decisions of one process about its role: what it makes of the
//! platform's answer when it asks for the instance marker, what it has to do
//! next, and how its state moves.

use vstd::prelude::*;

verus! {

/// What the platform answered when a process asked for the system-wide
/// instance marker.
#[derive(Clone, Copy, Debug, PartialEq, Eq, Structural)]
pub enum MarkerProbe {
    /// The marker was free and now belongs to the asking process.
    Acquired,
    /// Another running instance holds the marker.
    HeldByOther,
    /// The marker mechanism itself failed; who holds the marker is unknown.
    Broken,
}

/// The typed result of an attempt to become the primary instance.
#[derive(Clone, Copy, Debug, PartialEq, Eq, Structural)]
pub enum Outcome {
    /// The process holds the marker and owns the visible UI.
    Primary,
    /// Another instance holds the marker; this process defers to it.
    Secondary,
    /// The marker could not be asked for; mutual exclusion is not
    /// guaranteed, so the process may not start.
    AcquisitionError,
}

/// What a process has to do once its role is decided.
#[derive(Clone, Copy, Debug, PartialEq, Eq, Structural)]
pub enum Directive {
    /// Register the secondary-launch callback and go on with startup.
    RegisterAndStart,
    /// Forward the launch arguments to the primary and exit successfully.
    ForwardAndExit,
    /// Give up startup with a diagnostic and a failure status.
    Abort,
}

/// Where a process stands in the arbitration.
#[derive(Clone, Copy, Debug, PartialEq, Eq, Structural)]
pub enum ArbiterState {
    Unarbitrated,
    Primary,
    Secondary,
}

/// What can happen to a process as far as the arbiter is concerned.
#[derive(Clone, Copy, Debug, PartialEq, Eq, Structural)]
pub enum ArbiterEvent {
    /// The platform answered the request for the marker.
    Probed(MarkerProbe),
    /// Another process was launched and forwarded its launch to this one.
    SecondaryLaunch,
}

/// What the process does in answer to an event.
#[derive(Clone, Copy, Debug, PartialEq, Eq, Structural)]
pub enum ArbiterAction {
    /// Follow the directive of the role just decided.
    Follow(Directive),
    /// Bring the primary window to the foreground.
    Refocus,
    /// Nothing at all.
    Nothing,
}

/// The exit status of a process that deferred to the primary.
pub const EXIT_DEFERRED: i32 = 0;

/// The exit status of a process whose startup failed.
pub const EXIT_FATAL: i32 = 1;

/// The role that follows from the platform's answer. A process is secondary
/// only if another instance truly holds the marker; a failure of the
/// mechanism is an error of its own and never read as either role.
pub open spec fn outcome_of(probe: MarkerProbe) -> Outcome {
    match probe {
        MarkerProbe::Acquired => Outcome::Primary,
        MarkerProbe::HeldByOther => Outcome::Secondary,
        MarkerProbe::Broken => Outcome::AcquisitionError,
    }
}

/// What each outcome obliges the process to do.
pub open spec fn directive_of(outcome: Outcome) -> Directive {
    match outcome {
        Outcome::Primary => Directive::RegisterAndStart,
        Outcome::Secondary => Directive::ForwardAndExit,
        Outcome::AcquisitionError => Directive::Abort,
    }
}

/// The status with which a directive ends the process, if it ends it.
pub open spec fn exit_status_of(directive: Directive) -> Option<i32> {
    match directive {
        Directive::RegisterAndStart => None,
        Directive::ForwardAndExit => Some(EXIT_DEFERRED),
        Directive::Abort => Some(EXIT_FATAL),
    }
}

/// The state and the action that follow an event. The one transition out of
/// `Unarbitrated` is taken when the marker was acquired or is held by
/// another instance; a broken mechanism aborts startup and decides no role.
/// `Primary` and `Secondary` are never left: a primary answers each
/// secondary launch by refocusing and stays primary, and every other event
/// is ignored.
pub open spec fn step_of(state: ArbiterState, event: ArbiterEvent) -> (ArbiterState, ArbiterAction) {
    match (state, event) {
        (ArbiterState::Unarbitrated, ArbiterEvent::Probed(probe)) => {
            let outcome = outcome_of(probe);
            let next = match outcome {
                Outcome::Primary => ArbiterState::Primary,
                Outcome::Secondary => ArbiterState::Secondary,
                Outcome::AcquisitionError => ArbiterState::Unarbitrated,
            };
            (next, ArbiterAction::Follow(directive_of(outcome)))
        },
        (ArbiterState::Primary, ArbiterEvent::SecondaryLaunch) => (
            ArbiterState::Primary,
            ArbiterAction::Refocus,
        ),
        _ => (state, ArbiterAction::Nothing),
    }
}

/// The state after a sequence of events, oldest first.
pub open spec fn state_after(state: ArbiterState, events: Seq<ArbiterEvent>) -> ArbiterState
    decreases events.len(),
{
    if events.len() == 0 {
        state
    } else {
        step_of(state_after(state, events.drop_last()), events.last()).0
    }
}

/// Decides the role of a process from the platform's answer to its request
/// for the marker.
pub fn arbitrate(probe: MarkerProbe) -> (outcome: Outcome)
    ensures
        outcome == outcome_of(probe),
{
    match probe {
        MarkerProbe::Acquired => Outcome::Primary,
        MarkerProbe::HeldByOther => Outcome::Secondary,
        MarkerProbe::Broken => Outcome::AcquisitionError,
    }
}

impl Outcome {
    /// What the process has to do next.
    pub fn directive(self) -> (directive: Directive)
        ensures
            directive == directive_of(self),
    {
        match self {
            Outcome::Primary => Directive::RegisterAndStart,
            Outcome::Secondary => Directive::ForwardAndExit,
            Outcome::AcquisitionError => Directive::Abort,
        }
    }
}

impl Directive {
    /// The status with which the process exits, or `None` if it keeps
    /// running.
    pub fn exit_status(self) -> (status: Option<i32>)
        ensures
            status == exit_status_of(self),
    {
        match self {
            Directive::RegisterAndStart => None,
            Directive::ForwardAndExit => Some(EXIT_DEFERRED),
            Directive::Abort => Some(EXIT_FATAL),
        }
    }
}

impl ArbiterState {
    /// Takes one event and says what to do about it.
    pub fn step(self, event: ArbiterEvent) -> (next: (ArbiterState, ArbiterAction))
        ensures
            next == step_of(self, event),
    {
        match self {
            ArbiterState::Unarbitrated => match event {
                ArbiterEvent::Probed(probe) => {
                    let outcome = arbitrate(probe);
                    let state = match outcome {
                        Outcome::Primary => ArbiterState::Primary,
                        Outcome::Secondary => ArbiterState::Secondary,
                        Outcome::AcquisitionError => ArbiterState::Unarbitrated,
                    };
                    (state, ArbiterAction::Follow(outcome.directive()))
                },
                ArbiterEvent::SecondaryLaunch => (self, ArbiterAction::Nothing),
            },
            ArbiterState::Primary => match event {
                ArbiterEvent::SecondaryLaunch => (ArbiterState::Primary, ArbiterAction::Refocus),
                ArbiterEvent::Probed(_) => (self, ArbiterAction::Nothing),
            },
            ArbiterState::Secondary => (self, ArbiterAction::Nothing),
        }
    }
}

/// A decided role is final: once a process is primary or secondary, no
/// sequence of events moves it to another state.
pub proof fn lemma_role_is_final(state: ArbiterState, events: Seq<ArbiterEvent>)
    requires
        state != ArbiterState::Unarbitrated,
    ensures
        state_after(state, events) == state,
    decreases events.len(),
{
    if events.len() > 0 {
        lemma_role_is_final(state, events.drop_last());
    }
}

/// The state of a process changes at most once: whatever has happened so
/// far, a state other than `Unarbitrated` survives every further event.
pub proof fn lemma_arbitrated_at_most_once(
    earlier: Seq<ArbiterEvent>,
    later: Seq<ArbiterEvent>,
)
    ensures
        ({
            let reached = state_after(ArbiterState::Unarbitrated, earlier);
            reached != ArbiterState::Unarbitrated ==> state_after(
                ArbiterState::Unarbitrated,
                earlier + later,
            ) == reached
        }),
    decreases later.len(),
{
    let reached = state_after(ArbiterState::Unarbitrated, earlier);
    if later.len() == 0 {
        assert(earlier + later == earlier);
    } else {
        lemma_arbitrated_at_most_once(earlier, later.drop_last());
        assert((earlier + later).drop_last() == earlier + later.drop_last());
        assert((earlier + later).last() == later.last());
    }
}

/// A process that defers to the primary exits successfully, one whose
/// startup failed exits with a failure status, and a primary keeps running.
pub proof fn lemma_exit_statuses(probe: MarkerProbe)
    ensures
        ({
            let status = exit_status_of(directive_of(outcome_of(probe)));
            &&& probe == MarkerProbe::Acquired ==> status is None
            &&& probe == MarkerProbe::HeldByOther ==> status == Some(0i32)
            &&& probe == MarkerProbe::Broken ==> status is Some && status->0 != 0
        }),
{
}

} // verus!
