//! The action table: how the special actions are spelled in the text format and in the
//! binary level format.
//!
//! The text format spells an action as a code and five argument slots. [`WIDE_CODES`] gives
//! the code of each variant of [`Special`]. The binary format spells it as another code,
//! which [`LEGACY_TABLE`] maps to a code of the text format, to what goes into the slots
//! and to the trigger flags that the code stands for.

use vstd::prelude::*;
use vstd::std_specs::convert::{FromSpecImpl, TryFromSpecImpl};

use crate::map::line_def::{DoomSpecial, TriggerFlags, UdmfSpecial};
use crate::map::special::{Special, ARG_COUNTS, SPECIAL_COUNT};

verus! {

/// The code of each variant of [`Special`] in the text format, by the variant's index.
pub const WIDE_CODES: [i16; 259] = [
    0, 1, 2, 3, 4, 5, 6, 7, 8, 9, 10, 11, 12, 13, 14, 15,
    16, 17, 18, 19, 20, 21, 22, 23, 24, 25, 26, 27, 28, 29, 30, 31,
    32, 33, 34, 35, 36, 37, 38, 39, 40, 41, 42, 43, 44, 45, 46, 47,
    48, 49, 50, 51, 52, 53, 54, 55, 56, 57, 58, 59, 60, 61, 62, 63,
    64, 65, 66, 67, 68, 69, 70, 71, 72, 73, 74, 75, 76, 77, 78, 79,
    80, 81, 82, 83, 84, 85, 86, 87, 88, 89, 90, 91, 92, 93, 94, 95,
    96, 97, 98, 99, 100, 101, 102, 103, 104, 105, 106, 107, 109, 110, 111, 112,
    113, 114, 115, 116, 117, 118, 119, 120, 121, 125, 127, 128, 129, 130, 131, 132,
    133, 134, 135, 136, 137, 138, 139, 140, 145, 152, 153, 154, 156, 157, 158, 159,
    160, 161, 168, 169, 170, 171, 172, 173, 174, 175, 176, 177, 178, 179, 180, 181,
    182, 183, 184, 185, 186, 187, 188, 189, 190, 191, 192, 193, 194, 195, 196, 197,
    198, 199, 200, 201, 202, 203, 204, 205, 206, 207, 208, 209, 210, 211, 212, 213,
    214, 215, 216, 217, 218, 219, 220, 221, 222, 223, 224, 225, 226, 227, 228, 229,
    230, 231, 232, 233, 234, 235, 236, 237, 238, 239, 240, 241, 242, 243, 244, 245,
    246, 247, 248, 249, 250, 251, 252, 253, 254, 255, 256, 257, 258, 259, 260, 261,
    262, 263, 264, 265, 266, 267, 268, 269, 270, 271, 272, 273, 274, 275, 276, 277,
    278, 279, 280,
];

/// In a row of [`LEGACY_TABLE`]: the slot takes the tag of the line.
pub const TAG: i32 = 0x1_0000;

/// In a row of [`LEGACY_TABLE`]: the flag `player_cross` is set.
pub const PLAYER_CROSS: u16 = 0x001;

/// In a row of [`LEGACY_TABLE`]: the flag `player_use` is set.
pub const PLAYER_USE: u16 = 0x002;

/// In a row of [`LEGACY_TABLE`]: the flag `monster_cross` is set.
pub const MONSTER_CROSS: u16 = 0x004;

/// In a row of [`LEGACY_TABLE`]: the flag `monster_use` is set.
pub const MONSTER_USE: u16 = 0x008;

/// In a row of [`LEGACY_TABLE`]: the flag `impact` is set.
pub const IMPACT: u16 = 0x010;

/// In a row of [`LEGACY_TABLE`]: the flag `player_push` is set.
pub const PLAYER_PUSH: u16 = 0x020;

/// In a row of [`LEGACY_TABLE`]: the flag `monster_push` is set.
pub const MONSTER_PUSH: u16 = 0x040;

/// In a row of [`LEGACY_TABLE`]: the flag `missile_cross` is set.
pub const MISSILE_CROSS: u16 = 0x080;

/// In a row of [`LEGACY_TABLE`]: the flag `repeats` is set.
pub const REPEATS: u16 = 0x100;

/// In a row of [`LEGACY_TABLE`]: the flag `monsters_activate` is set.
pub const MONSTERS_ACTIVATE: u16 = 0x200;

/// The number of rows of [`LEGACY_TABLE`].
pub const LEGACY_COUNT: usize = 134;

/// The codes of the binary level format, in rising order. A row holds the code, the code
/// of the text format that it stands for, what goes into each of the five argument slots
/// (a number, or [`TAG`] for the tag of the line) and the trigger flags that are set.
pub const LEGACY_TABLE: [(i16, i16, [i32; 5], u16); 134] = [
    (0, 0, [0, 0, 0, 0, 0], 0),
    (1, 12, [0, 16, 150, TAG, 0], PLAYER_USE | MONSTERS_ACTIVATE | REPEATS),
    (2, 11, [TAG, 16, 0, 0, 0], PLAYER_CROSS),
    (3, 10, [TAG, 16, 0, 0, 0], PLAYER_CROSS),
    (4, 12, [TAG, 16, 150, 0, 0], PLAYER_CROSS | MONSTERS_ACTIVATE),
    (5, 238, [TAG, 8, 0, 0, 0], PLAYER_CROSS),
    (7, 217, [TAG, 2, 8, 0, 0], PLAYER_USE),
    (8, 217, [TAG, 2, 8, 0, 0], PLAYER_CROSS),
    (9, 250, [TAG, 4, 4, 0, 0], PLAYER_USE),
    (10, 206, [TAG, 32, 105, 0, 0], PLAYER_CROSS | MONSTERS_ACTIVATE),
    (11, 243, [0, 0, 0, 0, 0], PLAYER_USE),
    (12, 234, [TAG, 0, 0, 0, 0], PLAYER_CROSS),
    (13, 112, [TAG, 255, 0, 0, 0], PLAYER_CROSS),
    (14, 230, [TAG, 4, 4, 0, 0], PLAYER_USE),
    (15, 230, [TAG, 4, 3, 0, 0], PLAYER_USE),
    (16, 249, [TAG, 16, 240, 0, 0], PLAYER_CROSS),
    (17, 232, [TAG, 5, 35, 0, 0], PLAYER_CROSS),
    (18, 25, [TAG, 8, 0, 0, 0], PLAYER_USE),
    (19, 242, [TAG, 8, 128, 0, 0], PLAYER_CROSS),
    (20, 228, [TAG, 4, 0, 0, 0], PLAYER_USE),
    (21, 206, [TAG, 32, 105, 0, 0], PLAYER_USE),
    (22, 228, [TAG, 4, 0, 0, 0], PLAYER_CROSS),
    (23, 21, [TAG, 8, 0, 0, 0], PLAYER_USE),
    (24, 238, [TAG, 8, 0, 0, 0], IMPACT | MISSILE_CROSS),
    (26, 13, [0, 16, 150, 130, TAG], PLAYER_USE | REPEATS),
    (27, 13, [0, 16, 150, 131, TAG], PLAYER_USE | REPEATS),
    (28, 13, [0, 16, 150, 129, TAG], PLAYER_USE | REPEATS),
    (29, 12, [TAG, 16, 150, 0, 0], PLAYER_USE),
    (30, 240, [TAG, 8, 0, 0, 0], PLAYER_CROSS),
    (31, 11, [0, 16, TAG, 0, 0], PLAYER_USE),
    (32, 13, [0, 16, 0, 130, TAG], PLAYER_USE | MONSTERS_ACTIVATE),
    (33, 13, [0, 16, 0, 129, TAG], PLAYER_USE | MONSTERS_ACTIVATE),
    (34, 13, [0, 16, 0, 131, TAG], PLAYER_USE | MONSTERS_ACTIVATE),
    (35, 112, [TAG, 35, 0, 0, 0], PLAYER_CROSS),
    (36, 242, [TAG, 32, 136, 0, 0], PLAYER_CROSS),
    (37, 241, [TAG, 8, 0, 0, 0], PLAYER_CROSS),
    (38, 21, [TAG, 8, 0, 0, 0], PLAYER_CROSS),
    (39, 70, [0, TAG, 0, 0, 0], PLAYER_CROSS | MONSTERS_ACTIVATE),
    (41, 254, [TAG, 8, 0, 0, 0], PLAYER_USE),
    (42, 10, [TAG, 16, 0, 0, 0], PLAYER_USE | REPEATS),
    (43, 254, [TAG, 8, 0, 0, 0], PLAYER_USE | REPEATS),
    (44, 43, [TAG, 8, 0, 2, 0], PLAYER_CROSS),
    (45, 242, [TAG, 8, 128, 0, 0], PLAYER_USE | REPEATS),
    (46, 11, [TAG, 16, 0, 0, 0], IMPACT | MISSILE_CROSS | MONSTERS_ACTIVATE | REPEATS),
    (47, 228, [TAG, 4, 0, 0, 0], IMPACT | MISSILE_CROSS),
    (48, 100, [64, 0, 0, 0, 0], 0),
    (50, 10, [TAG, 16, 0, 0, 0], PLAYER_USE),
    (51, 244, [0, 0, 0, 0, 0], PLAYER_USE),
    (52, 243, [0, 0, 0, 0, 0], PLAYER_CROSS),
    (53, 207, [TAG, 8, 105, 0, 0], PLAYER_CROSS),
    (54, 61, [TAG, 0, 0, 0, 0], PLAYER_CROSS),
    (55, 99, [TAG, 8, 10, 2, 0], PLAYER_USE),
    (56, 99, [TAG, 8, 10, 2, 0], PLAYER_CROSS),
    (57, 44, [TAG, 0, 0, 0, 0], PLAYER_CROSS),
    (58, 23, [TAG, 8, 24, 0, 0], PLAYER_CROSS),
    (59, 239, [TAG, 8, 24, 0, 0], PLAYER_CROSS),
    (60, 21, [TAG, 8, 0, 0, 0], PLAYER_USE | REPEATS),
    (61, 11, [TAG, 16, 0, 0, 0], PLAYER_USE | REPEATS),
    (62, 206, [TAG, 32, 105, 0, 0], PLAYER_USE | REPEATS),
    (63, 12, [TAG, 16, 150, 0, 0], PLAYER_USE | REPEATS),
    (64, 238, [TAG, 8, 0, 0, 0], PLAYER_USE | REPEATS),
    (65, 99, [TAG, 8, 10, 2, 0], PLAYER_USE | REPEATS),
    (66, 230, [TAG, 4, 3, 0, 0], PLAYER_USE | REPEATS),
    (67, 230, [TAG, 4, 4, 0, 0], PLAYER_USE | REPEATS),
    (68, 228, [TAG, 4, 0, 0, 0], PLAYER_USE | REPEATS),
    (69, 25, [TAG, 8, 0, 0, 0], PLAYER_USE | REPEATS),
    (70, 242, [TAG, 32, 136, 0, 0], PLAYER_USE | REPEATS),
    (71, 242, [TAG, 32, 136, 0, 0], PLAYER_USE),
    (72, 43, [TAG, 8, 0, 2, 0], PLAYER_CROSS | REPEATS),
    (74, 44, [TAG, 0, 0, 0, 0], PLAYER_CROSS | REPEATS),
    (75, 10, [TAG, 16, 0, 0, 0], PLAYER_CROSS | REPEATS),
    (76, 249, [TAG, 16, 240, 0, 0], PLAYER_CROSS | REPEATS),
    (79, 112, [TAG, 35, 0, 0, 0], PLAYER_CROSS | REPEATS),
    (80, 234, [TAG, 0, 0, 0, 0], PLAYER_CROSS | REPEATS),
    (81, 112, [TAG, 255, 0, 0, 0], PLAYER_CROSS | REPEATS),
    (82, 21, [TAG, 8, 0, 0, 0], PLAYER_CROSS | REPEATS),
    (83, 242, [TAG, 8, 128, 0, 0], PLAYER_CROSS | REPEATS),
    (84, 241, [TAG, 8, 0, 0, 0], PLAYER_CROSS | REPEATS),
    (86, 11, [TAG, 16, 0, 0, 0], PLAYER_CROSS | REPEATS),
    (87, 207, [TAG, 8, 105, 0, 0], PLAYER_CROSS | REPEATS),
    (88, 206, [TAG, 32, 105, 0, 0], PLAYER_CROSS | REPEATS | MONSTERS_ACTIVATE),
    (89, 61, [TAG, 0, 0, 0, 0], PLAYER_CROSS | REPEATS),
    (90, 12, [TAG, 16, 150, 0, 0], PLAYER_CROSS | REPEATS),
    (91, 238, [TAG, 8, 0, 0, 0], PLAYER_CROSS | REPEATS),
    (92, 23, [TAG, 8, 24, 0, 0], PLAYER_CROSS | REPEATS),
    (93, 239, [TAG, 8, 24, 0, 0], PLAYER_CROSS | REPEATS),
    (94, 99, [TAG, 8, 10, 2, 0], PLAYER_CROSS | REPEATS),
    (95, 228, [TAG, 4, 0, 0, 0], PLAYER_CROSS | REPEATS),
    (96, 240, [TAG, 8, 0, 0, 0], PLAYER_CROSS | REPEATS),
    (97, 70, [0, TAG, 0, 0, 0], PLAYER_CROSS | REPEATS | MONSTERS_ACTIVATE),
    (98, 242, [TAG, 32, 136, 0, 0], PLAYER_CROSS | REPEATS),
    (99, 13, [TAG, 64, 0, 130, 0], PLAYER_USE | REPEATS),
    (100, 273, [TAG, 32, 16, 0, 0], PLAYER_CROSS),
    (101, 238, [TAG, 8, 0, 0, 0], PLAYER_USE),
    (102, 242, [TAG, 8, 128, 0, 0], PLAYER_USE),
    (103, 11, [TAG, 16, 0, 0, 0], PLAYER_USE),
    (104, 233, [TAG, 0, 0, 0, 0], PLAYER_CROSS),
    (105, 12, [TAG, 64, 150, 0, 0], PLAYER_CROSS | REPEATS),
    (106, 11, [TAG, 64, 0, 0, 0], PLAYER_CROSS | REPEATS),
    (107, 10, [TAG, 64, 0, 0, 0], PLAYER_CROSS | REPEATS),
    (108, 12, [TAG, 64, 150, 0, 0], PLAYER_CROSS),
    (109, 11, [TAG, 64, 0, 0, 0], PLAYER_CROSS),
    (110, 10, [TAG, 64, 0, 0, 0], PLAYER_CROSS),
    (111, 12, [TAG, 64, 150, 0, 0], PLAYER_USE),
    (112, 11, [TAG, 64, 0, 0, 0], PLAYER_USE),
    (113, 10, [TAG, 64, 0, 0, 0], PLAYER_USE),
    (114, 12, [TAG, 64, 150, 0, 0], PLAYER_USE | REPEATS),
    (115, 11, [TAG, 64, 0, 0, 0], PLAYER_USE | REPEATS),
    (116, 10, [TAG, 64, 0, 0, 0], PLAYER_USE | REPEATS),
    (117, 12, [0, 64, 150, TAG, 0], PLAYER_USE | REPEATS),
    (118, 11, [0, 64, TAG, 0, 0], PLAYER_USE),
    (119, 25, [TAG, 8, 0, 0, 0], PLAYER_CROSS),
    (120, 206, [TAG, 64, 105, 0, 0], PLAYER_CROSS | REPEATS),
    (121, 206, [TAG, 64, 105, 0, 0], PLAYER_CROSS),
    (122, 206, [TAG, 64, 105, 0, 0], PLAYER_USE),
    (123, 206, [TAG, 64, 105, 0, 0], PLAYER_USE | REPEATS),
    (124, 244, [0, 0, 0, 0, 0], PLAYER_CROSS),
    (125, 70, [0, TAG, 0, 0, 0], MONSTER_CROSS),
    (126, 70, [0, TAG, 0, 0, 0], MONSTER_CROSS | REPEATS),
    (127, 273, [TAG, 32, 16, 0, 0], PLAYER_USE),
    (128, 25, [TAG, 8, 0, 0, 0], PLAYER_CROSS | REPEATS),
    (129, 25, [TAG, 32, 0, 0, 0], PLAYER_CROSS | REPEATS),
    (130, 25, [TAG, 32, 0, 0, 0], PLAYER_CROSS),
    (131, 25, [TAG, 32, 0, 0, 0], PLAYER_USE),
    (132, 25, [TAG, 32, 0, 0, 0], PLAYER_USE | REPEATS),
    (133, 13, [TAG, 64, 0, 130, 0], PLAYER_USE),
    (134, 13, [TAG, 64, 0, 129, 0], PLAYER_USE | REPEATS),
    (135, 13, [TAG, 64, 0, 129, 0], PLAYER_USE),
    (136, 13, [TAG, 64, 0, 131, 0], PLAYER_USE | REPEATS),
    (137, 13, [TAG, 64, 0, 131, 0], PLAYER_USE),
    (138, 112, [TAG, 255, 0, 0, 0], PLAYER_USE | REPEATS),
    (139, 112, [TAG, 35, 0, 0, 0], PLAYER_USE | REPEATS),
    (140, 35, [TAG, 8, 64, 0, 0], PLAYER_USE),
    (141, 104, [TAG, 8, 8, 10, 0], PLAYER_CROSS),
];

/// Whether the first `n` entries of `t` rise strictly.
pub open spec fn rising(t: Seq<i16>, n: nat) -> bool
    decreases n,
{
    n <= 1 || (t[n - 2] < t[n - 1] && rising(t, (n - 1) as nat))
}

/// In a table that rises strictly, an earlier entry is less than a later one.
pub proof fn lemma_rising_orders(t: Seq<i16>, n: nat, i: int, j: int)
    requires
        rising(t, n),
        0 <= i < j < n,
    ensures
        t[i] < t[j],
    decreases n,
{
    if j < n - 1 {
        lemma_rising_orders(t, (n - 1) as nat, i, j);
    } else if i < j - 1 {
        lemma_rising_orders(t, (n - 1) as nat, i, j - 1);
    }
}

/// The rows of [`LEGACY_TABLE`].
#[verifier::opaque]
pub open spec fn legacy_rows() -> Seq<(i16, i16, [i32; 5], u16)> {
    LEGACY_TABLE@
}

/// The codes of the binary level format that [`LEGACY_TABLE`] lists, in its order.
pub open spec fn legacy_codes() -> Seq<i16> {
    Seq::new(LEGACY_COUNT as nat, |i: int| legacy_rows()[i].0)
}

/// [`WIDE_CODES`] rises strictly.
pub proof fn lemma_wide_codes_rising()
    ensures
        WIDE_CODES@.len() == SPECIAL_COUNT,
        rising(WIDE_CODES@, SPECIAL_COUNT as nat),
{
    reveal_with_fuel(rising, 33);
    assert(rising(WIDE_CODES@, 32));
    assert(rising(WIDE_CODES@, 64));
    assert(rising(WIDE_CODES@, 96));
    assert(rising(WIDE_CODES@, 128));
    assert(rising(WIDE_CODES@, 160));
    assert(rising(WIDE_CODES@, 192));
    assert(rising(WIDE_CODES@, 224));
    assert(rising(WIDE_CODES@, 256));
}

/// The codes of [`LEGACY_TABLE`] rise strictly.
pub proof fn lemma_legacy_codes_rising()
    ensures
        legacy_rows().len() == LEGACY_COUNT,
        rising(legacy_codes(), LEGACY_COUNT as nat),
{
    reveal(legacy_rows);
    reveal_with_fuel(rising, 33);
    assert(rising(legacy_codes(), 32));
    assert(rising(legacy_codes(), 64));
    assert(rising(legacy_codes(), 96));
    assert(rising(legacy_codes(), 128));
}

/// No two variants of [`Special`] share a code of the text format.
pub proof fn lemma_wide_codes_unique(i: int, j: int)
    requires
        0 <= i < SPECIAL_COUNT,
        0 <= j < SPECIAL_COUNT,
        i != j,
    ensures
        WIDE_CODES@[i] != WIDE_CODES@[j],
{
    lemma_wide_codes_rising();
    if i < j {
        lemma_rising_orders(WIDE_CODES@, SPECIAL_COUNT as nat, i, j);
    } else {
        lemma_rising_orders(WIDE_CODES@, SPECIAL_COUNT as nat, j, i);
    }
}

/// No two rows of [`LEGACY_TABLE`] share a code of the binary level format.
pub proof fn lemma_legacy_codes_unique(i: int, j: int)
    requires
        0 <= i < LEGACY_COUNT,
        0 <= j < LEGACY_COUNT,
        i != j,
    ensures
        legacy_rows()[i].0 != legacy_rows()[j].0,
{
    lemma_legacy_codes_rising();
    if i < j {
        lemma_rising_orders(legacy_codes(), LEGACY_COUNT as nat, i, j);
    } else {
        lemma_rising_orders(legacy_codes(), LEGACY_COUNT as nat, j, i);
    }
}

/// The index of the variant with the code `code`, if there is one.
pub fn wide_index(code: i16) -> (r: Option<usize>)
    ensures
        match r {
            Some(i) => i < SPECIAL_COUNT && WIDE_CODES@[i as int] == code,
            None => forall|i: int| 0 <= i < SPECIAL_COUNT ==> WIDE_CODES@[i] != code,
        },
{
    proof {
        lemma_wide_codes_rising();
    }
    let mut low: usize = 0;
    let mut high: usize = SPECIAL_COUNT;
    while low < high
        invariant
            0 <= low <= high <= SPECIAL_COUNT,
            WIDE_CODES@.len() == SPECIAL_COUNT,
            rising(WIDE_CODES@, SPECIAL_COUNT as nat),
            forall|i: int| 0 <= i < low ==> WIDE_CODES@[i] < code,
            forall|i: int| high <= i < SPECIAL_COUNT ==> WIDE_CODES@[i] > code,
        decreases high - low,
    {
        let mid = low + (high - low) / 2;
        let found = WIDE_CODES[mid];
        if found == code {
            return Some(mid);
        } else if found < code {
            assert forall|i: int| 0 <= i < mid + 1 implies WIDE_CODES@[i] < code by {
                if i < mid {
                    lemma_rising_orders(WIDE_CODES@, SPECIAL_COUNT as nat, i, mid as int);
                }
            }
            low = mid + 1;
        } else {
            assert forall|i: int| mid <= i < SPECIAL_COUNT implies WIDE_CODES@[i] > code by {
                if mid < i {
                    lemma_rising_orders(WIDE_CODES@, SPECIAL_COUNT as nat, mid as int, i);
                }
            }
            high = mid;
        }
    }
    None
}

/// The row of [`LEGACY_TABLE`] with the code `code`, if there is one.
pub fn legacy_index(code: i16) -> (r: Option<usize>)
    ensures
        match r {
            Some(i) => i < LEGACY_COUNT && legacy_rows()[i as int].0 == code,
            None => forall|i: int| !row_holds(i, code),
        },
{
    proof {
        lemma_legacy_codes_rising();
    }
    let mut low: usize = 0;
    let mut high: usize = LEGACY_COUNT;
    while low < high
        invariant
            0 <= low <= high <= LEGACY_COUNT,
            legacy_rows().len() == LEGACY_COUNT,
            rising(legacy_codes(), LEGACY_COUNT as nat),
            forall|i: int| 0 <= i < low ==> legacy_rows()[i].0 < code,
            forall|i: int| high <= i < LEGACY_COUNT ==> legacy_rows()[i].0 > code,
        decreases high - low,
    {
        let mid = low + (high - low) / 2;
        let found = legacy_row(mid).0;
        if found == code {
            return Some(mid);
        } else if found < code {
            assert forall|i: int| 0 <= i < mid + 1 implies legacy_rows()[i].0 < code by {
                if i < mid {
                    lemma_rising_orders(legacy_codes(), LEGACY_COUNT as nat, i, mid as int);
                }
            }
            low = mid + 1;
        } else {
            assert forall|i: int| mid <= i < LEGACY_COUNT implies legacy_rows()[i].0 > code by {
                if mid < i {
                    lemma_rising_orders(legacy_codes(), LEGACY_COUNT as nat, mid as int, i);
                }
            }
            high = mid;
        }
    }
    None
}

/// What a slot of a row of [`LEGACY_TABLE`] puts into an argument slot for a line with
/// the tag `tag`.
pub open spec fn bound_slot(slot: i32, tag: i16) -> i16 {
    if slot == TAG {
        tag
    } else if i16::MIN <= slot <= i16::MAX {
        slot as i16
    } else {
        0
    }
}

/// The five argument slots that a row of [`LEGACY_TABLE`] gives for a line with the tag
/// `tag`.
pub open spec fn bound_args(slots: [i32; 5], tag: i16) -> Seq<i16> {
    Seq::new(5, |k: int| bound_slot(slots@[k], tag))
}

/// What a slot of a row puts into an argument slot for a line with the tag `tag`.
fn bind_slot(slot: i32, tag: i16) -> (r: i16)
    ensures
        r == bound_slot(slot, tag),
{
    if slot == TAG {
        tag
    } else if -0x8000 <= slot && slot <= 0x7fff {
        slot as i16
    } else {
        0
    }
}

impl TriggerFlags {
    /// The trigger flags that the bits of a row of [`LEGACY_TABLE`] stand for.
    pub open spec fn from_bits_spec(bits: u16) -> TriggerFlags {
        TriggerFlags {
            player_cross: bits & PLAYER_CROSS != 0,
            player_use: bits & PLAYER_USE != 0,
            monster_cross: bits & MONSTER_CROSS != 0,
            monster_use: bits & MONSTER_USE != 0,
            impact: bits & IMPACT != 0,
            player_push: bits & PLAYER_PUSH != 0,
            monster_push: bits & MONSTER_PUSH != 0,
            missile_cross: bits & MISSILE_CROSS != 0,
            repeats: bits & REPEATS != 0,
            monsters_activate: bits & MONSTERS_ACTIVATE != 0,
        }
    }

    /// The trigger flags that the bits of a row of [`LEGACY_TABLE`] stand for.
    pub fn from_bits(bits: u16) -> (r: TriggerFlags)
        ensures
            r == TriggerFlags::from_bits_spec(bits),
    {
        TriggerFlags {
            player_cross: bits & PLAYER_CROSS != 0,
            player_use: bits & PLAYER_USE != 0,
            monster_cross: bits & MONSTER_CROSS != 0,
            monster_use: bits & MONSTER_USE != 0,
            impact: bits & IMPACT != 0,
            player_push: bits & PLAYER_PUSH != 0,
            monster_push: bits & MONSTER_PUSH != 0,
            missile_cross: bits & MISSILE_CROSS != 0,
            repeats: bits & REPEATS != 0,
            monsters_activate: bits & MONSTERS_ACTIVATE != 0,
        }
    }
}

/// The row of [`LEGACY_TABLE`] at `index`.
fn legacy_row(index: usize) -> (row: (i16, i16, [i32; 5], u16))
    requires
        index < LEGACY_COUNT,
    ensures
        row == legacy_rows()[index as int],
{
    reveal(legacy_rows);
    LEGACY_TABLE[index]
}

/// Whether the row of [`LEGACY_TABLE`] at `index` holds the code `value`.
pub open spec fn row_holds(index: int, value: i16) -> bool {
    0 <= index < LEGACY_COUNT && legacy_rows()[index].0 == value
}

/// The place of the row of [`LEGACY_TABLE`] that holds the code `value`, if one does.
pub open spec fn legacy_row_of(value: i16) -> Option<int> {
    if exists|i: int| row_holds(i, value) {
        Some(choose|i: int| row_holds(i, value))
    } else {
        None
    }
}

/// The row that holds a code is the only one that holds it.
pub proof fn lemma_legacy_row_found(value: i16, index: int)
    requires
        0 <= index < LEGACY_COUNT,
        legacy_rows()[index].0 == value,
    ensures
        legacy_row_of(value) == Some(index),
{
    assert(row_holds(index, value));
    let i = choose|i: int| row_holds(i, value);
    if i != index {
        lemma_legacy_codes_unique(i, index);
    }
}

/// The place in [`WIDE_CODES`] at which `code` stands between `low` and `high`, found by
/// halving.
pub open spec fn wide_search(code: i16, low: int, high: int) -> Option<int>
    decreases high - low,
{
    if low >= high {
        None
    } else {
        let mid = low + (high - low) / 2;
        if WIDE_CODES@[mid] == code {
            Some(mid)
        } else if WIDE_CODES@[mid] < code {
            wide_search(code, mid + 1, high)
        } else {
            wide_search(code, low, mid)
        }
    }
}

/// What halving finds is a place at which the code stands.
pub proof fn lemma_wide_search(code: i16, low: int, high: int)
    requires
        0 <= low <= high <= SPECIAL_COUNT,
    ensures
        wide_search(code, low, high) matches Some(index) ==> low <= index < high
            && WIDE_CODES@[index] == code,
    decreases high - low,
{
    if low < high {
        let mid = low + (high - low) / 2;
        if WIDE_CODES@[mid] != code {
            if WIDE_CODES@[mid] < code {
                lemma_wide_search(code, mid + 1, high);
            } else {
                lemma_wide_search(code, low, mid);
            }
        }
    }
}

/// Whether the row of [`LEGACY_TABLE`] at `i` names a code of the text format and fills
/// no more slots than the action with that code has arguments.
pub open spec fn row_fits(i: int) -> bool {
    match wide_search(legacy_rows()[i].1, 0, SPECIAL_COUNT as int) {
        Some(index) => {
            let count = ARG_COUNTS@[index];
            let slots = legacy_rows()[i].2@;
            &&& count > 0 || slots[0] == 0
            &&& count > 1 || slots[1] == 0
            &&& count > 2 || slots[2] == 0
            &&& count > 3 || slots[3] == 0
            &&& count > 4 || slots[4] == 0
        },
        None => false,
    }
}

/// Whether the first `n` rows of [`LEGACY_TABLE`] fit.
pub open spec fn rows_fit(n: nat) -> bool
    decreases n,
{
    n == 0 || (row_fits(n - 1) && rows_fit((n - 1) as nat))
}

/// Every row of [`LEGACY_TABLE`] fits.
#[verifier::rlimit(100)]
#[verifier::spinoff_prover]
pub proof fn lemma_rows_fit()
    ensures
        rows_fit(LEGACY_COUNT as nat),
{
    reveal(legacy_rows);
    reveal_with_fuel(rows_fit, 7);
    reveal_with_fuel(wide_search, 10);
    assert(rows_fit(6));
    assert(rows_fit(12));
    assert(rows_fit(18));
    assert(rows_fit(24));
    assert(rows_fit(30));
    assert(rows_fit(36));
    assert(rows_fit(42));
    assert(rows_fit(48));
    assert(rows_fit(54));
    assert(rows_fit(60));
    assert(rows_fit(66));
    assert(rows_fit(72));
    assert(rows_fit(78));
    assert(rows_fit(84));
    assert(rows_fit(90));
    assert(rows_fit(96));
    assert(rows_fit(102));
    assert(rows_fit(108));
    assert(rows_fit(114));
    assert(rows_fit(120));
    assert(rows_fit(126));
    assert(rows_fit(132));
}

/// Where the first rows fit, each of them fits.
proof fn lemma_row_fits(i: int, n: nat)
    requires
        rows_fit(n),
        0 <= i < n,
    ensures
        row_fits(i),
    decreases n,
{
    if i < n - 1 {
        lemma_row_fits(i, (n - 1) as nat);
    }
}

/// Every row of [`LEGACY_TABLE`] spells an action, whatever the tag of the line.
pub proof fn lemma_legacy_rows_spell(i: int, tag: i16)
    requires
        0 <= i < LEGACY_COUNT,
    ensures
        Special::wide_decoded(legacy_rows()[i].1, bound_args(legacy_rows()[i].2, tag)) is Some,
{
    lemma_rows_fit();
    lemma_row_fits(i, LEGACY_COUNT as nat);
    let row = legacy_rows()[i];
    let index = wide_search(row.1, 0, SPECIAL_COUNT as int)->Some_0;
    lemma_wide_search(row.1, 0, SPECIAL_COUNT as int);
    let args = bound_args(row.2, tag);
    Special::lemma_of_parts(index, args);
    assert(Special::of_parts(index, args).spelled(row.1, args));
}

impl Special {
    /// The code of the action in the text format.
    pub open spec fn wide_code(self) -> i16 {
        WIDE_CODES@[self.index_spec() as int]
    }

    /// Whether the text format spells the action `self` as the code `value` with the
    /// argument slots `args`.
    pub open spec fn spelled(self, value: i16, args: Seq<i16>) -> bool {
        self.wide_code() == value && self.args_spec() == args
    }

    /// The action that the text format spells as the code `value` with the argument slots
    /// `args`, if there is one. [`Special::lemma_spelling_unique`] shows that there is at
    /// most one.
    pub open spec fn wide_decoded(value: i16, args: Seq<i16>) -> Option<Special> {
        if exists|s: Special| s.spelled(value, args) {
            Some(choose|s: Special| s.spelled(value, args))
        } else {
            None
        }
    }

    /// The action that the binary level format spells as the code `value` on a line with
    /// the tag `tag`, with the trigger flags that the code stands for, if the code is
    /// listed.
    pub open spec fn legacy_decoded(value: i16, tag: i16) -> Option<(Special, TriggerFlags)> {
        match legacy_row_of(value) {
            Some(i) => {
                let row = legacy_rows()[i];
                match Special::wide_decoded(row.1, bound_args(row.2, tag)) {
                    Some(s) => Some((s, TriggerFlags::from_bits_spec(row.3))),
                    None => None,
                }
            },
            None => None,
        }
    }

    /// Two actions that the text format spells alike are the same action.
    pub proof fn lemma_spelling_unique(self, other: Special)
        requires
            self.wide_code() == other.wide_code(),
            self.args_spec() == other.args_spec(),
        ensures
            self == other,
    {
        self.lemma_args_shape();
        other.lemma_args_shape();
        if self.index_spec() != other.index_spec() {
            lemma_wide_codes_unique(self.index_spec() as int, other.index_spec() as int);
        }
        self.lemma_parts_injective(other);
    }

    /// A code and five argument slots spell an action where a variant has the code and
    /// every slot behind the arguments of that variant holds zero, and only there.
    pub proof fn lemma_wide_decoded_when(value: i16, args: Seq<i16>)
        requires
            args.len() == 5,
        ensures
            Special::wide_decoded(value, args) is Some <==> exists|index: int|
                0 <= index < SPECIAL_COUNT && #[trigger] WIDE_CODES@[index] == value && forall|
                    k: int,
                | ARG_COUNTS@[index] <= k < 5 ==> args[k] == 0,
    {
        if Special::wide_decoded(value, args) is Some {
            let s = choose|s: Special| s.spelled(value, args);
            s.lemma_args_shape();
            assert(WIDE_CODES@[s.index_spec() as int] == value);
        }
        if exists|index: int|
            0 <= index < SPECIAL_COUNT && #[trigger] WIDE_CODES@[index] == value && forall|k: int|
                ARG_COUNTS@[index] <= k < 5 ==> args[k] == 0 {
            let index = choose|index: int|
                0 <= index < SPECIAL_COUNT && #[trigger] WIDE_CODES@[index] == value && forall|
                    k: int,
                | ARG_COUNTS@[index] <= k < 5 ==> args[k] == 0;
            Special::lemma_of_parts(index, args);
            assert(Special::of_parts(index, args).spelled(value, args));
        }
    }

    /// Spelling an action in the text format and reading the spelling gives the action
    /// back.
    pub proof fn lemma_wide_round_trip(self)
        ensures
            Special::wide_decoded(self.wide_code(), self.args_spec()) == Some(self),
    {
        assert(self.spelled(self.wide_code(), self.args_spec()));
        let found = choose|s: Special| s.spelled(self.wide_code(), self.args_spec());
        found.lemma_spelling_unique(self);
    }

    /// The action as the text format spells it: its code, and its arguments in the leading
    /// slots with zeros behind them.
    pub fn wide_encode(&self) -> (udmf: UdmfSpecial)
        ensures
            self.spelled(udmf.value, udmf.args@),
    {
        proof {
            lemma_wide_codes_rising();
        }
        UdmfSpecial { value: WIDE_CODES[self.index()], args: self.args() }
    }

    /// The action that the text format spells as `udmf`; `udmf` itself where it spells
    /// none, which is so where no variant has the code or where a slot behind the
    /// arguments of the variant is not zero.
    pub fn wide_decode(udmf: UdmfSpecial) -> (r: Result<Special, UdmfSpecial>)
        ensures
            r == match Special::wide_decoded(udmf.value, udmf.args@) {
                Some(s) => Ok::<Special, UdmfSpecial>(s),
                None => Err::<Special, UdmfSpecial>(udmf),
            },
    {
        proof {
            lemma_wide_codes_rising();
            assert forall|s: Special| s.spelled(udmf.value, udmf.args@) implies s.index_spec()
                < SPECIAL_COUNT by {
                s.lemma_args_shape();
            }
        }
        match wide_index(udmf.value) {
            None => {
                assert(Special::wide_decoded(udmf.value, udmf.args@) is None);
                Err(udmf)
            },
            Some(index) => {
                let count = ARG_COUNTS[index] as usize;
                let mut k: usize = count;
                while k < 5
                    invariant
                        count <= k,
                        index < SPECIAL_COUNT,
                        count == ARG_COUNTS@[index as int],
                        WIDE_CODES@[index as int] == udmf.value,
                        forall|j: int| count <= j < k && j < 5 ==> udmf.args@[j] == 0,
                    decreases 5 - k,
                {
                    if udmf.args[k] != 0 {
                        proof {
                            assert forall|s: Special| !s.spelled(udmf.value, udmf.args@) by {
                                if s.spelled(udmf.value, udmf.args@) {
                                    s.lemma_args_shape();
                                    if s.index_spec() != index {
                                        lemma_wide_codes_unique(s.index_spec() as int, index as int);
                                    }
                                    assert(s.args_spec()[k as int] == 0);
                                }
                            }
                        }
                        return Err(udmf);
                    }
                    k += 1;
                }
                let s = Special::from_parts(index, &udmf.args);
                proof {
                    assert(s.spelled(udmf.value, udmf.args@));
                    let found = choose|s: Special| s.spelled(udmf.value, udmf.args@);
                    found.lemma_spelling_unique(s);
                }
                Ok(s)
            },
        }
    }

    /// The action that the binary level format spells as `doom`, with the trigger flags
    /// that the code stands for; `doom` itself where the code is not listed.
    pub fn legacy_decode(doom: DoomSpecial) -> (r: Result<(Special, TriggerFlags), DoomSpecial>)
        ensures
            r == match Special::legacy_decoded(doom.value, doom.tag) {
                Some(found) => Ok::<(Special, TriggerFlags), DoomSpecial>(found),
                None => Err::<(Special, TriggerFlags), DoomSpecial>(doom),
            },
            r is Ok <==> legacy_row_of(doom.value) is Some,
    {
        match legacy_index(doom.value) {
            None => Err(doom),
            Some(index) => {
                proof {
                    lemma_legacy_row_found(doom.value, index as int);
                    lemma_legacy_rows_spell(index as int, doom.tag);
                }
                let row = legacy_row(index);
                let slots = row.2;
                let args = [
                    bind_slot(slots[0], doom.tag),
                    bind_slot(slots[1], doom.tag),
                    bind_slot(slots[2], doom.tag),
                    bind_slot(slots[3], doom.tag),
                    bind_slot(slots[4], doom.tag),
                ];
                assert(args@ =~= bound_args(row.2, doom.tag));
                match Special::wide_decode(UdmfSpecial { value: row.1, args }) {
                    Ok(s) => Ok((s, TriggerFlags::from_bits(row.3))),
                    Err(_) => Err(doom),
                }
            },
        }
    }
}

impl TryFrom<UdmfSpecial> for Special {
    type Error = UdmfSpecial;

    fn try_from(udmf: UdmfSpecial) -> (r: Result<Self, UdmfSpecial>) {
        Special::wide_decode(udmf)
    }
}

impl TryFromSpecImpl<UdmfSpecial> for Special {
    open spec fn obeys_try_from_spec() -> bool {
        true
    }

    open spec fn try_from_spec(udmf: UdmfSpecial) -> Result<Self, UdmfSpecial> {
        match Special::wide_decoded(udmf.value, udmf.args@) {
            Some(s) => Ok(s),
            None => Err(udmf),
        }
    }
}

impl TryFrom<DoomSpecial> for (Special, TriggerFlags) {
    type Error = DoomSpecial;

    fn try_from(doom: DoomSpecial) -> (r: Result<Self, DoomSpecial>) {
        Special::legacy_decode(doom)
    }
}

impl TryFromSpecImpl<DoomSpecial> for (Special, TriggerFlags) {
    open spec fn obeys_try_from_spec() -> bool {
        true
    }

    open spec fn try_from_spec(doom: DoomSpecial) -> Result<Self, DoomSpecial> {
        match Special::legacy_decoded(doom.value, doom.tag) {
            Some(found) => Ok(found),
            None => Err(doom),
        }
    }
}

impl UdmfSpecial {
    /// The spelling with the code `value` and the argument slots `args`.
    pub open spec fn of_parts(value: i16, args: Seq<i16>) -> UdmfSpecial {
        choose|udmf: UdmfSpecial| udmf.value == value && udmf.args@ == args
    }

    /// A spelling is known by its code and its argument slots.
    pub proof fn lemma_of_parts(self)
        ensures
            self == UdmfSpecial::of_parts(self.value, self.args@),
    {
        broadcast use vstd::array::group_array_axioms;

        let other = UdmfSpecial::of_parts(self.value, self.args@);
        assert(other.value == self.value && other.args@ == self.args@);
        assert(other.args =~= self.args);
    }
}

impl From<Special> for UdmfSpecial {
    fn from(special: Special) -> (r: UdmfSpecial) {
        let r = special.wide_encode();
        proof {
            r.lemma_of_parts();
        }
        r
    }
}

impl FromSpecImpl<Special> for UdmfSpecial {
    open spec fn obeys_from_spec() -> bool {
        true
    }

    open spec fn from_spec(special: Special) -> UdmfSpecial {
        UdmfSpecial::of_parts(special.wide_code(), special.args_spec())
    }
}

} // verus!
