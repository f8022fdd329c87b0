//! Vertexes: the points that lines run between.

use vstd::prelude::*;

use crate::point::Point;

verus! {

/// A vertex of the level.
#[derive(Clone, Copy, Debug, Default, PartialEq, Eq, Structural, PartialOrd)]
pub struct Vertex {
    pub position: Point<i16>,
}

} // verus!
