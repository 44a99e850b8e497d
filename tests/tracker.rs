use chunks::{parse_line, signals_for, EventTracker, LineEvent};

fn lines(items: &[&str]) -> Vec<String> {
    items.iter().map(|s| s.to_string()).collect()
}

#[test]
fn scenario_workspace_round_trip_restores_fullscreen() {
    let out = signals_for(&lines(&["workspace>>1", "fullscreen>>1", "workspace>>2", "workspace>>1"]));
    assert_eq!(out, vec![false, true, false, true]);
}

#[test]
fn final_state_is_last_recorded_value() {
    let mut t = EventTracker::new();
    let out = t.process_lines(&lines(&[
        "workspace>>a",
        "fullscreen>>1",
        "fullscreen>>0",
        "fullscreen>>1",
        "workspace>>b",
        "fullscreen>>1",
        "fullscreen>>0",
    ]));
    assert_eq!(out, vec![false, true, false, true, false, true, false]);
    assert!(t.is_fullscreen("a"));
    assert!(!t.is_fullscreen("b"));
    assert!(!t.is_fullscreen("never-seen"));
    assert_eq!(t.current_workspace(), "b");
}

#[test]
fn switching_emits_target_value_not_previous() {
    let mut t = EventTracker::new();
    assert_eq!(t.process_line("workspace>>2"), Some(false));
    assert_eq!(t.process_line("fullscreen>>1"), Some(true));
    assert_eq!(t.process_line("workspace>>3"), Some(false));
    assert_eq!(t.process_line("workspacev2>>2"), Some(true));
    assert_eq!(t.current_workspace(), "2");
}

#[test]
fn unrecognized_lines_change_nothing() {
    let mut t = EventTracker::new();
    t.process_line("workspace>>5");
    t.process_line("fullscreen>>1");
    for l in ["openwindow>>abc,5,kitty,kitty", "", "activewindow>>x", "fullscreen>>2", " workspace>>6"] {
        assert_eq!(t.process_line(l), None);
    }
    assert_eq!(t.current_workspace(), "5");
    assert!(t.is_fullscreen("5"));
    assert!(!t.is_fullscreen("6"));
}

#[test]
fn fullscreen_before_any_workspace_is_recorded_for_empty_name() {
    let out = signals_for(&lines(&["fullscreen>>1", "workspace>>1", "workspace>>"]));
    assert_eq!(out, vec![true, false, true]);
}

#[test]
fn no_lines_no_signals() {
    assert_eq!(signals_for(&Vec::new()), Vec::<bool>::new());
}

#[test]
fn parse_rules_in_order() {
    assert!(matches!(parse_line("fullscreen>>1"), LineEvent::FullscreenOn));
    assert!(matches!(parse_line("xx fullscreen>>0 yy"), LineEvent::FullscreenOff));
    assert!(matches!(parse_line("workspace>>fullscreen>>1"), LineEvent::FullscreenOn));
    assert!(matches!(parse_line("fullscreen>>0fullscreen>>1"), LineEvent::FullscreenOn));
    match parse_line("workspacev2>>4,dev") {
        LineEvent::Workspace(w) => assert_eq!(w, "4,dev"),
        _ => panic!("expected a workspace line"),
    }
    match parse_line("workspace>>3>>x") {
        LineEvent::Workspace(w) => assert_eq!(w, "3>>x"),
        _ => panic!("expected a workspace line"),
    }
    match parse_line("workspace>>\u{e9}t\u{e9}") {
        LineEvent::Workspace(w) => assert_eq!(w, "\u{e9}t\u{e9}"),
        _ => panic!("expected a workspace line"),
    }
    assert!(matches!(parse_line("workspacev3>>1"), LineEvent::Unrecognized));
    assert!(matches!(parse_line("createworkspace>>1"), LineEvent::Unrecognized));
}
