//! The common interface of the window kinds.

use vstd::prelude::*;

verus! {

/// A window description that can be turned into a window on screen.
pub trait Builder {
    /// Builds the window and shows it, consuming the description.
    fn build(self);
}

} // verus!
