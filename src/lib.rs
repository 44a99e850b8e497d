//! Compositor-aware visibility tracking for layer-shell widget windows.
//!
//! The event tracker reads the compositor's event lines and decides, for each,
//! whether the active workspace is fullscreen; the poller turns those signals
//! into show and hide decisions for a window, skipping the titles held in the
//! ignore registry.

pub mod builder;
pub mod edge;
pub mod internal;
pub mod poller;
pub mod registry;
pub mod session;
pub mod table;
pub mod text;
pub mod tracker;
pub mod x11;

pub use builder::Builder;
pub use edge::{Edge, EdgeConfig};
pub use internal::Internal;
pub use poller::{poll_tick, WindowAction, WindowProbe};
pub use registry::IgnoreRegistry;
pub use session::{socket_path, subscribe_command, wayland_session};
pub use tracker::{parse_line, signals_for, EventTracker, LineEvent};
pub use x11::X11;
