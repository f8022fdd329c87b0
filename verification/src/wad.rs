//! The container that a level is one part of.

use vstd::prelude::*;

verus! {

struct ACSLibrary;

/// A container of level data. It holds nothing yet.
pub struct Wad {
    acs_libraries: Vec<ACSLibrary>,
}

} // verus!
