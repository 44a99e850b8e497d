use chunks::{poll_tick, IgnoreRegistry, WindowAction, WindowProbe};

fn live(title: &str) -> WindowProbe {
    WindowProbe::Live(Some(title.to_string()))
}

#[test]
fn scenario_registered_greeter_stays_visible() {
    let mut r = IgnoreRegistry::new();
    r.register("Greeter");
    assert_eq!(poll_tick(Some(true), &live("Greeter"), &r), WindowAction::Leave);
}

#[test]
fn registering_twice_does_not_grow() {
    let mut r = IgnoreRegistry::new();
    assert_eq!(r.len(), 0);
    r.register("Greeter");
    r.register("Greeter");
    assert_eq!(r.len(), 1);
    r.register("Popup");
    assert_eq!(r.len(), 2);
    assert!(r.is_ignored("Greeter"));
    assert!(r.is_ignored("Popup"));
    assert!(!r.is_ignored("greeter"));
}

#[test]
fn ignored_title_is_left_for_every_signal_and_later_registrations() {
    let mut r = IgnoreRegistry::new();
    r.register("Slab");
    r.register("Other");
    for signal in [Some(true), Some(false), None] {
        assert_eq!(poll_tick(signal, &live("Slab"), &r), WindowAction::Leave);
    }
}

#[test]
fn tick_hides_and_shows_other_windows() {
    let mut r = IgnoreRegistry::new();
    r.register("Greeter");
    assert_eq!(poll_tick(Some(true), &live("Bar"), &r), WindowAction::Hide);
    assert_eq!(poll_tick(Some(false), &live("Bar"), &r), WindowAction::Show);
    assert_eq!(poll_tick(None, &live("Bar"), &r), WindowAction::Leave);
    assert_eq!(poll_tick(Some(true), &WindowProbe::Live(None), &r), WindowAction::Hide);
}

#[test]
fn tick_on_destroyed_window_does_nothing() {
    let r = IgnoreRegistry::new();
    for signal in [Some(true), Some(false), None] {
        assert_eq!(poll_tick(signal, &WindowProbe::Destroyed, &r), WindowAction::Leave);
    }
}

#[test]
fn should_show_follows_registry() {
    let mut r = IgnoreRegistry::new();
    r.register("A");
    assert!(!r.should_show(Some("A")));
    assert!(r.should_show(Some("B")));
    assert!(r.should_show(None));
}
