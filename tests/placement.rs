use chunks::edge::{Edge, EdgeConfig};
use chunks::x11::{PropertyMode, SizeHints, WmState};
use chunks::X11;

#[test]
fn x11_geometry() {
    let w = X11::new(10, 20, 300, 40, true, true);
    assert_eq!(w.move_resize(), (10, 20, 300, 40));
    assert_eq!(
        w.size_hints(),
        SizeHints {
            x: 10,
            y: 20,
            width: 300,
            height: 40,
            min_width: 300,
            min_height: 40,
            max_width: 300,
            max_height: 40,
        }
    );
    assert_eq!(
        w.state_requests(),
        vec![(WmState::Above, PropertyMode::Replace), (WmState::Sticky, PropertyMode::Append)]
    );
}

#[test]
fn x11_optional_states() {
    assert_eq!(X11::new(0, 0, 1, 1, false, false).state_requests(), vec![]);
    assert_eq!(
        X11::new(0, 0, 1, 1, false, true).state_requests(),
        vec![(WmState::Sticky, PropertyMode::Append)]
    );
    assert_eq!(X11::new(0, 0, -1, 2, false, false).move_resize(), (0, 0, u32::MAX, 2));
}

#[test]
fn edge_configs() {
    assert_eq!(
        EdgeConfig::top_right().to_vec(),
        vec![(Edge::Left, false), (Edge::Right, true), (Edge::Top, true), (Edge::Bottom, false)]
    );
    assert_eq!(
        EdgeConfig::bottom_left().to_vec(),
        vec![(Edge::Left, true), (Edge::Right, false), (Edge::Top, false), (Edge::Bottom, true)]
    );
    assert!(EdgeConfig::center().to_vec().iter().all(|(_, on)| !on));
    assert_eq!(EdgeConfig::top_center().to_vec()[2], (Edge::Top, true));
    assert_eq!(EdgeConfig::bottom_center().to_vec()[3], (Edge::Bottom, true));
    assert_eq!(EdgeConfig::top_left().to_vec()[0], (Edge::Left, true));
    assert_eq!(EdgeConfig::bottom_right().to_vec()[1], (Edge::Right, true));
}
