//! The rendering style that the options select.

use vstd::prelude::*;

verus! {

/// How the canvas renders the points it is given.
#[derive(Clone, Copy, Debug, PartialEq, Eq, Structural)]
pub enum Mode {
    /// One mark for each cell that holds a point.
    Dot,
    /// The number of points in each cell.
    Count,
}

} // verus!
