//! Event dispatch: the state machine at the heart of the tray controller.
//!
//! The loop that owns the tray consumes one `ApplicationEvent` at a time, in
//! arrival order, on a single thread. Each event is first turned into a
//! `Directive` by `TrayState::dispatch`; the driver then performs what the
//! directive asks for (release the tray, start or stop the service) and,
//! when the directive asks for a resync, re-reads the process inspector and
//! hands the observation back through `TrayState::resync`. The displayed
//! checkbox is thus a cache that is explicitly recomputed from ground truth,
//! never incrementally updated.

use vstd::prelude::*;
use crate::service::ServiceCommand;
use crate::service::toggle_service;

verus! {

/// An abstract application event, produced by the tray presentation layer
/// and consumed exactly once by the dispatch loop. The toggle event carries
/// no direction: at consumption time the click asks for the opposite of the
/// state the checkbox displayed, which avoids acting on a stale direction
/// embedded in the event.
#[derive(PartialEq, Eq, Structural, Clone, Copy, Debug)]
pub enum ApplicationEvent {
    /// The quit menu entry was activated.
    Quit,
    /// The service checkbox menu entry was activated.
    ServiceToggleRequested,
    /// The tray icon itself was clicked.
    IconActivated,
}

/// Whether the dispatch loop is still consuming events. `Terminated` is
/// terminal: the loop has exited and processes nothing further.
#[derive(PartialEq, Eq, Structural, Clone, Copy, Debug)]
pub enum Phase {
    /// The loop is consuming events.
    Running,
    /// The loop has exited.
    Terminated,
}

/// The dispatch loop's own state: its phase and the checkbox state it
/// displays for the service.
#[derive(PartialEq, Eq, Structural, Clone, Copy, Debug)]
pub struct TrayState {
    /// Whether the loop still consumes events.
    pub phase: Phase,
    /// The displayed checked-state of the service menu entry.
    pub checkbox: bool,
}

/// What the driver must do after a dispatch step: release the tray icon
/// resource, run a service lifecycle command, and/or re-read the process
/// inspector and hand the observation back through `resync`.
#[derive(PartialEq, Eq, Structural, Clone, Copy, Debug)]
pub struct Directive {
    /// Release the tray icon resource; issued exactly on the transition to
    /// `Terminated`.
    pub release_icon: bool,
    /// The service lifecycle operation to perform.
    pub command: ServiceCommand,
    /// Re-query the process inspector and call `resync` with the result.
    pub resync: bool,
}

/// The directive that asks for nothing.
pub open spec fn no_directive() -> Directive {
    Directive { release_icon: false, command: ServiceCommand::DoNothing, resync: false }
}

/// The transition table of the dispatch loop, one event at a time:
///
/// - `Running` + `Quit`: release the tray icon, become `Terminated`.
/// - `Running` + `IconActivated`: keep the state, resync the checkbox.
/// - `Running` + `ServiceToggleRequested`: the user's click asks for the
///   opposite of what the box displayed, so stop the service when the
///   checkbox showed checked and start it when it showed unchecked, then
///   resync the checkbox.
/// - `Terminated` + anything: the loop has exited; nothing happens.
pub open spec fn dispatch_spec(s: TrayState, e: ApplicationEvent) -> (TrayState, Directive) {
    if s.phase == Phase::Terminated {
        (s, no_directive())
    } else {
        match e {
            ApplicationEvent::Quit => (
                TrayState { phase: Phase::Terminated, checkbox: s.checkbox },
                Directive {
                    release_icon: true,
                    command: ServiceCommand::DoNothing,
                    resync: false,
                },
            ),
            ApplicationEvent::IconActivated => (
                s,
                Directive {
                    release_icon: false,
                    command: ServiceCommand::DoNothing,
                    resync: true,
                },
            ),
            ApplicationEvent::ServiceToggleRequested => (
                s,
                Directive {
                    release_icon: false,
                    command: if s.checkbox {
                        ServiceCommand::Stop
                    } else {
                        ServiceCommand::Start
                    },
                    resync: true,
                },
            ),
        }
    }
}

/// The state after the checkbox has been set to the observed liveness.
pub open spec fn resync_spec(s: TrayState, observed: bool) -> TrayState {
    TrayState { phase: s.phase, checkbox: observed }
}

impl TrayState {
    /// The state the loop starts in: consuming events, with the service
    /// entry initially displayed as checked (as the menu is built), to be
    /// resynced on the first refresh event.
    pub fn new() -> (s: Self)
        ensures
            s.phase == Phase::Running,
            s.checkbox == true,
    {
        TrayState { phase: Phase::Running, checkbox: true }
    }

    /// Applies one event, following the transition table `dispatch_spec`,
    /// and returns what the driver must do.
    pub fn dispatch(&mut self, e: ApplicationEvent) -> (d: Directive)
        ensures
            *final(self) == dispatch_spec(*old(self), e).0,
            d == dispatch_spec(*old(self), e).1,
    {
        match self.phase {
            Phase::Terminated => Directive {
                release_icon: false,
                command: ServiceCommand::DoNothing,
                resync: false,
            },
            Phase::Running => match e {
                ApplicationEvent::Quit => {
                    self.phase = Phase::Terminated;
                    Directive {
                        release_icon: true,
                        command: ServiceCommand::DoNothing,
                        resync: false,
                    }
                },
                ApplicationEvent::IconActivated => Directive {
                    release_icon: false,
                    command: ServiceCommand::DoNothing,
                    resync: true,
                },
                ApplicationEvent::ServiceToggleRequested => Directive {
                    release_icon: false,
                    // The click asks for the opposite of the displayed state.
                    command: toggle_service(!self.checkbox),
                    resync: true,
                },
            },
        }
    }

    /// Sets the displayed checkbox to the liveness just observed by the
    /// process inspector.
    pub fn resync(&mut self, observed: bool)
        ensures
            *final(self) == resync_spec(*old(self), observed),
    {
        self.checkbox = observed;
    }
}

/// Effect of a lifecycle command on the liveness of the service, under the
/// harness assumption that a spawn or kill completes before the next
/// inspector query: starting leaves the server running, stopping leaves no
/// server process behind.
pub open spec fn service_effect(c: ServiceCommand, running: bool) -> bool {
    match c {
        ServiceCommand::Start => true,
        ServiceCommand::Stop => false,
        ServiceCommand::DoNothing => running,
    }
}

/// One full turn of the closed loop on one event: dispatch, apply the
/// commanded lifecycle operation to the service, and resync the checkbox
/// from the resulting liveness when the directive asks for it.
pub open spec fn sim_step(s: TrayState, running: bool, e: ApplicationEvent) -> (TrayState, bool) {
    let step = dispatch_spec(s, e);
    let now_running = service_effect(step.1.command, running);
    if step.1.resync {
        (resync_spec(step.0, now_running), now_running)
    } else {
        (step.0, now_running)
    }
}

/// The closed loop run over a whole sequence of events, strictly in arrival
/// order.
pub open spec fn sim_run(s: TrayState, running: bool, events: Seq<ApplicationEvent>) -> (
    TrayState,
    bool,
)
    decreases events.len(),
{
    if events.len() == 0 {
        (s, running)
    } else {
        let step = sim_step(s, running, events.first());
        sim_run(step.0, step.1, events.drop_first())
    }
}

/// After any refresh event (an icon activation or a toggle) processed while
/// the loop is running, the displayed checkbox equals the observed liveness
/// of the service, and the loop keeps running.
pub proof fn lemma_refresh_event_syncs(s: TrayState, running: bool, e: ApplicationEvent)
    requires
        s.phase == Phase::Running,
        e != ApplicationEvent::Quit,
    ensures
        sim_step(s, running, e).0.checkbox == sim_step(s, running, e).1,
        sim_step(s, running, e).0.phase == Phase::Running,
{
}

/// Pull-consistency: after processing any non-empty sequence of toggle
/// events, the displayed checkbox equals the observed liveness of the
/// service, under the harness assumption encoded in `service_effect`.
pub proof fn lemma_toggle_pull_consistency(
    s: TrayState,
    running: bool,
    events: Seq<ApplicationEvent>,
)
    requires
        s.phase == Phase::Running,
        events.len() > 0,
        forall|i: int|
            0 <= i < events.len() ==> events[i] == ApplicationEvent::ServiceToggleRequested,
    ensures
        sim_run(s, running, events).0.checkbox == sim_run(s, running, events).1,
        sim_run(s, running, events).0.phase == Phase::Running,
    decreases events.len(),
{
    assert(events[0] == ApplicationEvent::ServiceToggleRequested);
    lemma_refresh_event_syncs(s, running, events.first());
    let step = sim_step(s, running, events.first());
    if events.len() == 1 {
        assert(sim_run(step.0, step.1, events.drop_first()) == (step.0, step.1));
    } else {
        assert(forall|i: int|
            0 <= i < events.drop_first().len() ==> events.drop_first()[i]
                == ApplicationEvent::ServiceToggleRequested);
        lemma_toggle_pull_consistency(step.0, step.1, events.drop_first());
    }
}

/// A quit event while the loop is running releases the tray icon and makes
/// the loop terminal; in the terminal state no further event releases it
/// again or changes the state, so the icon is released exactly once.
pub proof fn lemma_quit_releases_exactly_once(s: TrayState)
    requires
        s.phase == Phase::Running,
    ensures
        dispatch_spec(s, ApplicationEvent::Quit).1.release_icon,
        dispatch_spec(s, ApplicationEvent::Quit).0.phase == Phase::Terminated,
        forall|e: ApplicationEvent|
            !dispatch_spec(dispatch_spec(s, ApplicationEvent::Quit).0, e).1.release_icon,
        forall|e: ApplicationEvent|
            dispatch_spec(dispatch_spec(s, ApplicationEvent::Quit).0, e).0 == dispatch_spec(
                s,
                ApplicationEvent::Quit,
            ).0,
{
}

/// The terminal phase absorbs every event: nothing is done and nothing
/// changes.
pub proof fn lemma_terminated_absorbs(s: TrayState, e: ApplicationEvent)
    requires
        s.phase == Phase::Terminated,
    ensures
        dispatch_spec(s, e).0 == s,
        dispatch_spec(s, e).1 == no_directive(),
{
}

/// How often the tray icon is released over a run of the closed loop.
pub open spec fn release_count(s: TrayState, running: bool, events: Seq<ApplicationEvent>) -> nat
    decreases events.len(),
{
    if events.len() == 0 {
        0
    } else {
        let d = dispatch_spec(s, events.first()).1;
        let step = sim_step(s, running, events.first());
        (if d.release_icon {
            1nat
        } else {
            0nat
        }) + release_count(step.0, step.1, events.drop_first())
    }
}

/// Once the loop is terminal, no run of further events ever releases the
/// tray icon.
pub proof fn lemma_terminated_releases_nothing(
    s: TrayState,
    running: bool,
    events: Seq<ApplicationEvent>,
)
    requires
        s.phase == Phase::Terminated,
    ensures
        release_count(s, running, events) == 0,
    decreases events.len(),
{
    if events.len() > 0 {
        let step = sim_step(s, running, events.first());
        lemma_terminated_releases_nothing(step.0, step.1, events.drop_first());
    }
}

/// Over any run of the closed loop that starts with the loop running, the
/// tray icon is released at most once, and exactly once when some quit
/// event is processed.
pub proof fn lemma_release_exactly_once(
    s: TrayState,
    running: bool,
    events: Seq<ApplicationEvent>,
)
    requires
        s.phase == Phase::Running,
    ensures
        release_count(s, running, events) <= 1,
        events.contains(ApplicationEvent::Quit) ==> release_count(s, running, events) == 1,
    decreases events.len(),
{
    if events.len() > 0 {
        let step = sim_step(s, running, events.first());
        if events.first() == ApplicationEvent::Quit {
            lemma_terminated_releases_nothing(step.0, step.1, events.drop_first());
        } else {
            lemma_release_exactly_once(step.0, step.1, events.drop_first());
            if events.contains(ApplicationEvent::Quit) {
                let j = choose|j: int|
                    0 <= j < events.len() && events[j] == ApplicationEvent::Quit;
                assert(events.drop_first()[j - 1] == ApplicationEvent::Quit);
                assert(events.drop_first().contains(ApplicationEvent::Quit));
            }
        }
    }
}

} // verus!
