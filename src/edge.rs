//! Screen-edge anchoring for layer-shell windows.

use vstd::prelude::*;

verus! {

/// A screen edge that a layer-shell window can be anchored to.
#[derive(PartialEq, Eq, Structural, Debug, Clone, Copy)]
pub enum Edge {
    Left,
    Right,
    Top,
    Bottom,
}

/// Which of the four screen edges a window is anchored to.
#[derive(Debug, Clone, Copy)]
pub struct EdgeConfig {
    left: bool,
    right: bool,
    top: bool,
    bottom: bool,
}

impl View for EdgeConfig {
    /// Anchoring at the left, right, top and bottom edges, in that order.
    type V = (bool, bool, bool, bool);

    closed spec fn view(&self) -> (bool, bool, bool, bool) {
        (self.left, self.right, self.top, self.bottom)
    }
}

impl EdgeConfig {
    /// Anchored to the top and right edges.
    pub fn top_right() -> (r: EdgeConfig)
        ensures
            r@ == (false, true, true, false),
    {
        EdgeConfig { left: false, right: true, top: true, bottom: false }
    }

    /// Anchored to the bottom and right edges.
    pub fn bottom_right() -> (r: EdgeConfig)
        ensures
            r@ == (false, true, false, true),
    {
        EdgeConfig { left: false, right: true, top: false, bottom: true }
    }

    /// Anchored to the top and left edges.
    pub fn top_left() -> (r: EdgeConfig)
        ensures
            r@ == (true, false, true, false),
    {
        EdgeConfig { left: true, right: false, top: true, bottom: false }
    }

    /// Anchored to the bottom and left edges.
    pub fn bottom_left() -> (r: EdgeConfig)
        ensures
            r@ == (true, false, false, true),
    {
        EdgeConfig { left: true, right: false, top: false, bottom: true }
    }

    /// Anchored to no edge, which centres the window.
    pub fn center() -> (r: EdgeConfig)
        ensures
            r@ == (false, false, false, false),
    {
        EdgeConfig { left: false, right: false, top: false, bottom: false }
    }

    /// Anchored to the top edge only.
    pub fn top_center() -> (r: EdgeConfig)
        ensures
            r@ == (false, false, true, false),
    {
        EdgeConfig { left: false, right: false, top: true, bottom: false }
    }

    /// Anchored to the bottom edge only.
    pub fn bottom_center() -> (r: EdgeConfig)
        ensures
            r@ == (false, false, false, true),
    {
        EdgeConfig { left: false, right: false, top: false, bottom: true }
    }

    /// The anchors as (edge, anchored) pairs: left, right, top, bottom.
    pub fn to_vec(&self) -> (r: Vec<(Edge, bool)>)
        ensures
            r@ == seq![
                (Edge::Left, self@.0),
                (Edge::Right, self@.1),
                (Edge::Top, self@.2),
                (Edge::Bottom, self@.3),
            ],
    {
        let r = vec![
            (Edge::Left, self.left),
            (Edge::Right, self.right),
            (Edge::Top, self.top),
            (Edge::Bottom, self.bottom),
        ];
        assert(r@ =~= seq![
            (Edge::Left, self@.0),
            (Edge::Right, self@.1),
            (Edge::Top, self@.2),
            (Edge::Bottom, self@.3),
        ]);
        r
    }
}

} // verus!
