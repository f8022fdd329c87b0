//! Sides: the faces of a line, each looking into one sector.

use vstd::prelude::*;

use crate::map::arena::SectorKey;
use crate::point::Point;
use crate::string8::String8;

verus! {

/// A side as the level file holds it: the sector is named by its position.
#[derive(Clone, Copy, Debug, Default, PartialEq, Eq)]
pub struct RawSideDef {
    pub sector_idx: u16,
    pub offset: Point<i16>,
    pub upper_texture: String8,
    pub middle_texture: String8,
    pub lower_texture: String8,
}

/// A side of the level graph.
#[derive(Clone, Copy, Debug, Default, PartialEq, Eq)]
pub struct SideDef {
    pub sector: SectorKey,
    pub offset: Point<i16>,
    pub upper_texture: String8,
    pub middle_texture: String8,
    pub lower_texture: String8,
}

} // verus!
