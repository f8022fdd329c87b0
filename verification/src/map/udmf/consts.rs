//! The vocabulary of the text format: the kinds of block, and for each kind the fields that
//! a block may assign, with the kind of value that each takes.

use vstd::prelude::*;

verus! {

/// The one name that a level may assign at its top.
pub const NAMESPACE: &'static str = "namespace";

/// The names that a level may assign at its top.
pub const GLOBAL_ASSIGNMENTS: [&'static str; 1] = ["namespace"];

/// The names of the kinds of block, in the order of [`BlockKind`].
pub const BLOCKS: [&'static str; 5] = ["vertex", "linedef", "sector", "sidedef", "thing"];

/// The fields of a `vertex` block.
pub const VERTEX_FIELDS: [&'static str; 2] = ["x", "y"];

/// The fields of a `linedef` block.
pub const LINE_DEF_FIELDS: [&'static str; 29] = [
    "v1",
    "v2",
    "sidefront",
    "sideback",
    "blocking",
    "blockmonsters",
    "twosided",
    "dontpegtop",
    "dontpegbottom",
    "secret",
    "blocksound",
    "dontdraw",
    "mapped",
    "special",
    "arg0",
    "arg1",
    "arg2",
    "arg3",
    "arg4",
    "playercross",
    "playeruse",
    "monstercross",
    "monsteruse",
    "impact",
    "playerpush",
    "monsterpush",
    "missilecross",
    "repeatspecial",
    "monsteractivate",
];

/// The fields of a `sidedef` block.
pub const SIDE_DEF_FIELDS: [&'static str; 6] = [
    "offsetx",
    "offsety",
    "sector",
    "texturetop",
    "texturemiddle",
    "texturebottom",
];

/// The fields of a `sector` block.
pub const SECTOR_FIELDS: [&'static str; 7] = [
    "heightfloor",
    "heightceiling",
    "texturefloor",
    "textureceiling",
    "lightlevel",
    "id",
    "special",
];

/// The fields of a `thing` block.
pub const THING_FIELDS: [&'static str; 24] = [
    "x",
    "y",
    "height",
    "angle",
    "type",
    "skill1",
    "skill2",
    "skill3",
    "skill4",
    "skill5",
    "ambush",
    "single",
    "dm",
    "coop",
    "friend",
    "class1",
    "class2",
    "class3",
    "dormant",
    "invisible",
    "standing",
    "translucent",
    "strifeally",
    "special",
];

/// The texture of a side that names none.
pub const DEFAULT_TEXTURE: &'static str = "-";

/// The light level of a sector that names none.
pub const DEFAULT_LIGHT_LEVEL: u8 = 160;

/// The kinds of block.
#[derive(Clone, Copy, Debug, PartialEq, Eq, Structural)]
pub enum BlockKind {
    Vertex,
    LineDef,
    Sector,
    SideDef,
    Thing,
}

/// What a field takes.
#[derive(Clone, Copy, Debug, PartialEq, Eq, Structural)]
pub enum FieldType {
    /// A whole number from 0 to 65535.
    U16,
    /// A whole number from -32768 to 32767.
    I16,
    /// A whole number from 0 to 255.
    U8,
    /// `true` or `false`.
    Bool,
    /// A name of at most eight bytes, as a string.
    Str8,
    /// A coordinate: a whole number from -32768 to 32767, which may be written as a
    /// fraction without a fractional part.
    Coord,
}

impl BlockKind {
    /// The names of the fields of a block of this kind.
    pub open spec fn names(self) -> Seq<&'static str> {
        match self {
            BlockKind::Vertex => VERTEX_FIELDS@,
            BlockKind::LineDef => LINE_DEF_FIELDS@,
            BlockKind::Sector => SECTOR_FIELDS@,
            BlockKind::SideDef => SIDE_DEF_FIELDS@,
            BlockKind::Thing => THING_FIELDS@,
        }
    }

    /// The number of fields of a block of this kind.
    pub open spec fn count_spec(self) -> nat {
        match self {
            BlockKind::Vertex => 2,
            BlockKind::LineDef => 29,
            BlockKind::Sector => 7,
            BlockKind::SideDef => 6,
            BlockKind::Thing => 24,
        }
    }

    /// What the field at `index` takes.
    pub open spec fn field_type_spec(self, index: int) -> FieldType {
        match self {
            BlockKind::Vertex => FieldType::Coord,
            BlockKind::LineDef => if index < 4 {
                FieldType::U16
            } else if 13 <= index < 19 {
                FieldType::I16
            } else {
                FieldType::Bool
            },
            BlockKind::Sector => if index == 2 || index == 3 {
                FieldType::Str8
            } else if index == 4 {
                FieldType::U8
            } else {
                FieldType::I16
            },
            BlockKind::SideDef => if index < 2 {
                FieldType::I16
            } else if index == 2 {
                FieldType::U16
            } else {
                FieldType::Str8
            },
            BlockKind::Thing => if index < 2 {
                FieldType::Coord
            } else if index < 5 || index == 23 {
                FieldType::I16
            } else {
                FieldType::Bool
            },
        }
    }

    /// Whether a block must assign the field at `index`.
    pub open spec fn required_spec(self, index: int) -> bool {
        match self {
            BlockKind::Vertex => true,
            BlockKind::LineDef => index < 3,
            BlockKind::Sector => index == 2 || index == 3,
            BlockKind::SideDef => index == 2,
            BlockKind::Thing => index < 2 || index == 4,
        }
    }

    /// The number of fields of a block of this kind.
    pub fn count(self) -> (n: usize)
        ensures
            n == self.count_spec(),
            n == self.names().len(),
    {
        match self {
            BlockKind::Vertex => 2,
            BlockKind::LineDef => 29,
            BlockKind::Sector => 7,
            BlockKind::SideDef => 6,
            BlockKind::Thing => 24,
        }
    }

    /// The name of the field at `index`.
    pub fn name(self, index: usize) -> (name: &'static str)
        requires
            index < self.count_spec(),
        ensures
            name == self.names()[index as int],
    {
        match self {
            BlockKind::Vertex => VERTEX_FIELDS[index],
            BlockKind::LineDef => LINE_DEF_FIELDS[index],
            BlockKind::Sector => SECTOR_FIELDS[index],
            BlockKind::SideDef => SIDE_DEF_FIELDS[index],
            BlockKind::Thing => THING_FIELDS[index],
        }
    }

    /// What the field at `index` takes.
    pub fn field_type(self, index: usize) -> (ty: FieldType)
        ensures
            ty == self.field_type_spec(index as int),
    {
        match self {
            BlockKind::Vertex => FieldType::Coord,
            BlockKind::LineDef => if index < 4 {
                FieldType::U16
            } else if 13 <= index && index < 19 {
                FieldType::I16
            } else {
                FieldType::Bool
            },
            BlockKind::Sector => if index == 2 || index == 3 {
                FieldType::Str8
            } else if index == 4 {
                FieldType::U8
            } else {
                FieldType::I16
            },
            BlockKind::SideDef => if index < 2 {
                FieldType::I16
            } else if index == 2 {
                FieldType::U16
            } else {
                FieldType::Str8
            },
            BlockKind::Thing => if index < 2 {
                FieldType::Coord
            } else if index < 5 || index == 23 {
                FieldType::I16
            } else {
                FieldType::Bool
            },
        }
    }

    /// Whether a block must assign the field at `index`.
    pub fn required(self, index: usize) -> (r: bool)
        ensures
            r == self.required_spec(index as int),
    {
        match self {
            BlockKind::Vertex => true,
            BlockKind::LineDef => index < 3,
            BlockKind::Sector => index == 2 || index == 3,
            BlockKind::SideDef => index == 2,
            BlockKind::Thing => index < 2 || index == 4,
        }
    }
}

} // verus!
