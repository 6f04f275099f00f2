use rime_tray::dispatch::{ApplicationEvent, Directive, Phase, TrayState};
use rime_tray::inspector::{is_running_in, kill_all_in};
use rime_tray::service::ServiceCommand;

const SERVER: &str = "WeaselServer.exe";

/// Drives one turn of the closed loop: dispatch, apply the commanded
/// operation to a simulated process table (spawn and kill complete before
/// the next inspector query), then resync when asked to.
fn run_event(
    state: &mut TrayState,
    table: &mut Vec<String>,
    e: ApplicationEvent,
) -> Directive {
    let d = state.dispatch(e);
    match d.command {
        ServiceCommand::Start => table.push(SERVER.to_string()),
        ServiceCommand::Stop => {
            let _ = kill_all_in(table, SERVER);
        }
        ServiceCommand::DoNothing => {}
    }
    if d.resync {
        let observed = is_running_in(table, SERVER);
        state.resync(observed);
    }
    d
}

#[test]
fn toggles_keep_checkbox_equal_to_liveness() {
    let mut state = TrayState::new();
    let mut table: Vec<String> = vec!["other".to_string()];
    state.resync(is_running_in(&table, SERVER));
    for i in 0..6 {
        run_event(&mut state, &mut table, ApplicationEvent::ServiceToggleRequested);
        assert_eq!(state.checkbox, is_running_in(&table, SERVER));
        assert_eq!(state.phase, Phase::Running);
        // Each toggle flips the actual liveness: stopped, started, stopped...
        assert_eq!(is_running_in(&table, SERVER), i % 2 == 0);
    }
}

#[test]
fn toggle_when_displayed_checked_stops_and_syncs() {
    let mut state = TrayState::new();
    assert!(state.checkbox);
    let mut table: Vec<String> = vec![SERVER.to_string(), SERVER.to_string()];
    let d = run_event(&mut state, &mut table, ApplicationEvent::ServiceToggleRequested);
    assert_eq!(d.command, ServiceCommand::Stop);
    assert!(d.resync);
    assert!(!d.release_icon);
    assert!(!is_running_in(&table, SERVER));
    assert!(!state.checkbox);
}

#[test]
fn toggle_when_displayed_unchecked_starts_and_syncs() {
    let mut state = TrayState::new();
    state.resync(false);
    let mut table: Vec<String> = vec![];
    let d = run_event(&mut state, &mut table, ApplicationEvent::ServiceToggleRequested);
    assert_eq!(d.command, ServiceCommand::Start);
    assert!(is_running_in(&table, SERVER));
    assert!(state.checkbox);
}

#[test]
fn icon_activation_with_zero_matches_unchecks() {
    let mut state = TrayState::new();
    let mut table: Vec<String> = vec!["other".to_string()];
    let d = run_event(&mut state, &mut table, ApplicationEvent::IconActivated);
    assert_eq!(d.command, ServiceCommand::DoNothing);
    assert!(!state.checkbox);
}

#[test]
fn icon_activation_with_one_match_checks() {
    let mut state = TrayState::new();
    state.resync(false);
    let mut table: Vec<String> = vec![SERVER.to_string()];
    run_event(&mut state, &mut table, ApplicationEvent::IconActivated);
    assert!(state.checkbox);
}

#[test]
fn quit_terminates_and_releases_the_icon_exactly_once() {
    let mut state = TrayState::new();
    let mut table: Vec<String> = vec![];
    let d = run_event(&mut state, &mut table, ApplicationEvent::Quit);
    assert!(d.release_icon);
    assert_eq!(state.phase, Phase::Terminated);
    // Further quit events are not processed: no second release.
    let d2 = run_event(&mut state, &mut table, ApplicationEvent::Quit);
    assert!(!d2.release_icon);
    assert_eq!(state.phase, Phase::Terminated);
}

#[test]
fn terminated_loop_ignores_every_event() {
    let mut state = TrayState::new();
    let mut table: Vec<String> = vec![SERVER.to_string()];
    run_event(&mut state, &mut table, ApplicationEvent::Quit);
    let before_checkbox = state.checkbox;
    for e in [
        ApplicationEvent::Quit,
        ApplicationEvent::ServiceToggleRequested,
        ApplicationEvent::IconActivated,
    ] {
        let d = run_event(&mut state, &mut table, e);
        assert!(!d.release_icon);
        assert!(!d.resync);
        assert_eq!(d.command, ServiceCommand::DoNothing);
        assert_eq!(state.phase, Phase::Terminated);
        assert_eq!(state.checkbox, before_checkbox);
    }
    // The simulated service was left untouched.
    assert!(is_running_in(&table, SERVER));
}
