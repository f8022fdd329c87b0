//! Things: what stands in the level, from monsters to player starts.

use vstd::prelude::*;

use crate::point::Point;

verus! {

/// The flags of a thing. A thing appears at every skill and in every game mode unless the
/// level says otherwise; the other flags are not set unless the level says so.
#[derive(Clone, Copy, Debug, PartialEq, Eq, Structural)]
pub struct Flags {
    pub skill1: bool,
    pub skill2: bool,
    pub skill3: bool,
    pub skill4: bool,
    pub skill5: bool,
    pub ambush: bool,
    pub single: bool,
    pub dm: bool,
    pub coop: bool,
    pub mbf_friend: bool,
    pub dormant: bool,
    pub class1: bool,
    pub class2: bool,
    pub class3: bool,
    pub npc: bool,
    pub strife_ally: bool,
    pub translucent: bool,
    pub invisible: bool,
}

impl Flags {
    /// The flags of a thing of which the level says nothing.
    pub open spec fn defaults() -> Flags {
        Flags {
            skill1: true,
            skill2: true,
            skill3: true,
            skill4: true,
            skill5: true,
            ambush: true,
            single: true,
            dm: true,
            coop: true,
            mbf_friend: false,
            dormant: false,
            class1: false,
            class2: false,
            class3: false,
            npc: false,
            strife_ally: false,
            translucent: false,
            invisible: false,
        }
    }

    /// The flags of a thing of which the level says nothing.
    pub fn new() -> (r: Self)
        ensures
            r == Flags::defaults(),
    {
        Flags {
            skill1: true,
            skill2: true,
            skill3: true,
            skill4: true,
            skill5: true,
            ambush: true,
            single: true,
            dm: true,
            coop: true,
            mbf_friend: false,
            dormant: false,
            class1: false,
            class2: false,
            class3: false,
            npc: false,
            strife_ally: false,
            translucent: false,
            invisible: false,
        }
    }
}

impl Default for Flags {
    fn default() -> (r: Self)
        ensures
            r == Flags::defaults(),
    {
        Flags::new()
    }
}

/// The special behaviour of a thing.
#[derive(Clone, Copy, Debug, PartialEq, Eq, Structural, Hash)]
pub enum Special {
    /// The thing does nothing of its own.
    Nothing,
}

impl Default for Special {
    fn default() -> (r: Self)
        ensures
            r == Special::Nothing,
    {
        Special::Nothing
    }
}

/// A thing of the level.
#[derive(Clone, Copy, Debug, PartialEq, Eq, Structural)]
pub struct Thing {
    pub position: Point<i16>,
    pub height: i16,
    pub angle: i16,
    pub type_: i16,
    pub flags: Flags,
    pub special: Special,
}

} // verus!
