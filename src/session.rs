//! Session detection and the compositor's event-socket conventions.

use vstd::prelude::*;

use crate::text::{chars_of, contains_chars, has_substring};

verus! {

/// Whether the session is taken to be a Wayland one: the session type names
/// Wayland, or a Wayland display is set and the session type does not name X11.
pub open spec fn is_wayland_session(session_type: Seq<char>, wayland_display: Seq<char>) -> bool {
    has_substring(session_type, "wayland"@) || (wayland_display.len() > 0 && !has_substring(
        session_type,
        "x11"@,
    ))
}

/// Decides from the session type and the Wayland display (each empty when
/// unset) whether the Wayland-specific setup runs.
pub fn wayland_session(session_type: &str, wayland_display: &str) -> (r: bool)
    ensures
        r == is_wayland_session(session_type@, wayland_display@),
{
    let kind = chars_of(session_type);
    if contains_chars(&kind, &chars_of("wayland")) {
        return true;
    }
    let display = chars_of(wayland_display);
    display.len() > 0 && !contains_chars(&kind, &chars_of("x11"))
}

/// The path of the compositor's event socket for an instance signature.
pub open spec fn event_socket_path(signature: Seq<char>) -> Seq<char> {
    "/run/user/1000/hypr/"@ + signature + "/.socket2.sock"@
}

/// Builds the event socket's path from the compositor's instance signature.
pub fn socket_path(instance_signature: &str) -> (r: String)
    ensures
        r@ == event_socket_path(instance_signature@),
{
    let base = String::from_str("/run/user/1000/hypr/");
    base.concat(instance_signature).concat("/.socket2.sock")
}

/// The command written once to the socket right after connecting.
pub fn subscribe_command() -> (r: &'static str)
    ensures
        r@ == "subscribewindow\n"@,
{
    "subscribewindow\n"
}

} // verus!
