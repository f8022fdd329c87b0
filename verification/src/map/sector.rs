//! Sectors: the areas of the level, each with a floor and a ceiling.

use vstd::prelude::*;
use vstd::std_specs::convert::{FromSpecImpl, TryFromSpecImpl};

use crate::string8::String8;

verus! {

/// A sector of the level.
#[derive(Clone, Copy, Debug, Default, PartialEq, Eq)]
pub struct Sector {
    pub floor_height: i16,
    pub ceiling_height: i16,
    pub floor_flat: String8,
    pub ceiling_flat: String8,
    pub light_level: u8,
    pub special: Special,
    pub tag: i16,
}

/// The special behaviour of a sector.
#[derive(Clone, Copy, Debug, PartialEq, Eq, Structural)]
pub enum Special {
    /// The sector does nothing of its own.
    Nothing,
}

impl Special {
    /// The code of the special in a level file.
    pub open spec fn code_spec(self) -> i16 {
        match self {
            Special::Nothing => 0,
        }
    }

    /// The code of the special in a level file.
    pub fn code(self) -> (n: i16)
        ensures
            n == self.code_spec(),
    {
        match self {
            Special::Nothing => 0,
        }
    }

    /// The special that `n` is the code of, if it is the code of one.
    pub open spec fn from_code_spec(n: i16) -> Option<Special> {
        if n == 0 {
            Some(Special::Nothing)
        } else {
            None
        }
    }

    /// The special that `n` is the code of; `n` itself where it is the code of none.
    pub fn from_code(n: i16) -> (r: Result<Self, i16>)
        ensures
            r == match Special::from_code_spec(n) {
                Some(special) => Ok::<Special, i16>(special),
                None => Err::<Special, i16>(n),
            },
    {
        match n {
            0 => Ok(Special::Nothing),
            _ => Err(n),
        }
    }
}

impl Default for Special {
    fn default() -> (r: Self)
        ensures
            r == Special::Nothing,
    {
        Special::Nothing
    }
}

impl From<Special> for i16 {
    fn from(special: Special) -> (n: i16) {
        special.code()
    }
}

impl FromSpecImpl<Special> for i16 {
    open spec fn obeys_from_spec() -> bool {
        true
    }

    open spec fn from_spec(special: Special) -> i16 {
        special.code_spec()
    }
}

impl TryFrom<i16> for Special {
    type Error = i16;

    fn try_from(n: i16) -> (r: Result<Self, i16>) {
        Special::from_code(n)
    }
}

impl TryFromSpecImpl<i16> for Special {
    open spec fn obeys_try_from_spec() -> bool {
        true
    }

    open spec fn try_from_spec(n: i16) -> Result<Self, i16> {
        match Special::from_code_spec(n) {
            Some(special) => Ok(special),
            None => Err(n),
        }
    }
}

} // verus!
