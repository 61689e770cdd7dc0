use overseer::{
    events_equal, monitor_step, relevant, DebounceState, EventKind, FileEvent, MonitorStep,
    DEBOUNCE_MS,
};

fn modify(path: &str) -> FileEvent {
    FileEvent { kind: EventKind::Modify, paths: vec![path.to_string()] }
}

#[test]
fn debounce_window_is_half_a_second() {
    assert_eq!(DEBOUNCE_MS, 500);
}

#[test]
fn identical_event_within_window_is_dropped() {
    let mut state = DebounceState::new();
    assert!(state.handle_event(modify("/tmp/f"), 1_000));
    assert!(!state.handle_event(modify("/tmp/f"), 1_200));
}

#[test]
fn identical_event_past_window_is_forwarded() {
    let mut state = DebounceState::new();
    assert!(state.handle_event(modify("/tmp/f"), 1_000));
    assert!(state.handle_event(modify("/tmp/f"), 1_600));
}

#[test]
fn different_event_within_window_is_forwarded() {
    let mut state = DebounceState::new();
    assert!(state.handle_event(modify("/tmp/f"), 1_000));
    assert!(state.handle_event(modify("/tmp/other"), 1_050));
    let changed_kind = FileEvent { kind: EventKind::Create, paths: vec!["/tmp/f".to_string()] };
    let mut state2 = DebounceState::new();
    assert!(state2.handle_event(modify("/tmp/f"), 1_000));
    assert!(state2.handle_event(changed_kind, 1_050));
}

#[test]
fn dropped_event_does_not_move_the_window() {
    let mut state = DebounceState::new();
    assert!(state.handle_event(modify("/tmp/f"), 1_000));
    assert!(!state.handle_event(modify("/tmp/f"), 1_300));
    // The window is anchored at the forwarding time, not at the dropped
    // event, so 1_600 is past it.
    assert!(state.handle_event(modify("/tmp/f"), 1_600));
}

#[test]
fn irrelevant_events_are_ignored_entirely() {
    let mut state = DebounceState::new();
    let access = FileEvent { kind: EventKind::Access, paths: vec!["/tmp/f".to_string()] };
    assert!(!state.handle_event(access, 1_000));
    // The access left no memory behind: the next relevant event forwards.
    assert!(state.handle_event(modify("/tmp/f"), 1_001));
}

#[test]
fn relevance_filter_keeps_create_modify_remove() {
    assert!(relevant(EventKind::Create));
    assert!(relevant(EventKind::Modify));
    assert!(relevant(EventKind::Remove));
    assert!(!relevant(EventKind::Access));
    assert!(!relevant(EventKind::Other));
}

#[test]
fn event_identity_is_structural() {
    assert!(events_equal(&modify("/tmp/f"), &modify("/tmp/f")));
    assert!(!events_equal(&modify("/tmp/f"), &modify("/tmp/g")));
    let create = FileEvent { kind: EventKind::Create, paths: vec!["/tmp/f".to_string()] };
    assert!(!events_equal(&modify("/tmp/f"), &create));
}

#[test]
fn monitor_runs_only_while_owned_and_fed() {
    assert_eq!(monitor_step(true, true), MonitorStep::RunTask);
    assert_eq!(monitor_step(true, false), MonitorStep::Exit);
    assert_eq!(monitor_step(false, true), MonitorStep::Exit);
    assert_eq!(monitor_step(false, false), MonitorStep::Exit);
}
