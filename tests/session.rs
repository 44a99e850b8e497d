use chunks::{socket_path, subscribe_command, wayland_session};

#[test]
fn scenario_x11_session_is_not_wayland() {
    assert!(!wayland_session("x11", ""));
}

#[test]
fn scenario_display_without_session_type_is_wayland() {
    assert!(wayland_session("", ":0"));
}

#[test]
fn wayland_detection_other_cases() {
    assert!(wayland_session("wayland", ""));
    assert!(wayland_session("wayland", ":0"));
    assert!(!wayland_session("x11", "wayland-1"));
    assert!(!wayland_session("", ""));
    assert!(wayland_session("tty", "wayland-1"));
}

#[test]
fn socket_path_and_command() {
    assert_eq!(socket_path("abc_123"), "/run/user/1000/hypr/abc_123/.socket2.sock");
    assert_eq!(socket_path(""), "/run/user/1000/hypr//.socket2.sock");
    assert_eq!(subscribe_command(), "subscribewindow\n");
}
