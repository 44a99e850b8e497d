//! Placement of a window under X11: where it goes, how large it is, and which
//! window-manager states it asks for.

use vstd::prelude::*;

verus! {

/// A window-manager state that an X11 window can ask for.
#[derive(PartialEq, Eq, Structural, Debug, Clone, Copy)]
pub enum WmState {
    /// Kept above other windows (`_NET_WM_STATE_ABOVE`).
    Above,
    /// Shown on every desktop (`_NET_WM_STATE_STICKY`).
    Sticky,
}

/// How a state is written into the window's state property.
#[derive(PartialEq, Eq, Structural, Debug, Clone, Copy)]
pub enum PropertyMode {
    Replace,
    Append,
}

/// The size hints given to the window manager: position, size, and a minimum
/// and maximum size that both equal the size, so the window cannot be resized.
#[derive(PartialEq, Eq, Structural, Debug, Clone, Copy)]
pub struct SizeHints {
    pub x: i32,
    pub y: i32,
    pub width: i32,
    pub height: i32,
    pub min_width: i32,
    pub min_height: i32,
    pub max_width: i32,
    pub max_height: i32,
}

/// Geometry and stacking options of a window placed under X11.
pub struct X11 {
    x: i32,
    y: i32,
    width: i32,
    height: i32,
    always_on_top: bool,
    stick: bool,
}

impl View for X11 {
    /// Position, size, whether it stays on top, and whether it sticks to every desktop.
    type V = (i32, i32, i32, i32, bool, bool);

    closed spec fn view(&self) -> (i32, i32, i32, i32, bool, bool) {
        (self.x, self.y, self.width, self.height, self.always_on_top, self.stick)
    }
}

/// The state requests of a window, in the order they are written.
pub open spec fn state_requests(always_on_top: bool, stick: bool) -> Seq<(WmState, PropertyMode)> {
    let above = if always_on_top {
        seq![(WmState::Above, PropertyMode::Replace)]
    } else {
        Seq::empty()
    };
    if stick {
        above.push((WmState::Sticky, PropertyMode::Append))
    } else {
        above
    }
}

impl X11 {
    /// Options for a window at (`x`, `y`) of the given size.
    pub fn new(x: i32, y: i32, width: i32, height: i32, always_on_top: bool, stick: bool) -> (r:
        X11)
        ensures
            r@ == (x, y, width, height, always_on_top, stick),
    {
        X11 { x, y, width, height, always_on_top, stick }
    }

    /// The rectangle that the window is moved and resized to: position, then
    /// size as the unsigned values that the X server takes.
    pub fn move_resize(&self) -> (r: (i32, i32, u32, u32))
        ensures
            r == (self@.0, self@.1, self@.2 as u32, self@.3 as u32),
    {
        (self.x, self.y, self.width as u32, self.height as u32)
    }

    /// The window-manager states to set: above others first, replacing the
    /// property, then sticky, appended to it.
    pub fn state_requests(&self) -> (r: Vec<(WmState, PropertyMode)>)
        ensures
            r@ == state_requests(self@.4, self@.5),
    {
        let mut r: Vec<(WmState, PropertyMode)> = Vec::new();
        if self.always_on_top {
            r.push((WmState::Above, PropertyMode::Replace));
        }
        if self.stick {
            r.push((WmState::Sticky, PropertyMode::Append));
        }
        assert(r@ =~= state_requests(self@.4, self@.5));
        r
    }

    /// The size hints that pin the window to its position and size.
    pub fn size_hints(&self) -> (r: SizeHints)
        ensures
            r == (SizeHints {
                x: self@.0,
                y: self@.1,
                width: self@.2,
                height: self@.3,
                min_width: self@.2,
                min_height: self@.3,
                max_width: self@.2,
                max_height: self@.3,
            }),
    {
        SizeHints {
            x: self.x,
            y: self.y,
            width: self.width,
            height: self.height,
            min_width: self.width,
            min_height: self.height,
            max_width: self.width,
            max_height: self.height,
        }
    }
}

} // verus!
