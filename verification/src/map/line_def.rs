//! Lines between two vertexes, their flags and the encodings of their special actions.

use vstd::prelude::*;
use vstd::std_specs::convert::FromSpecImpl;

use crate::map::arena::{SideDefKey, VertexKey};
use crate::map::special::Special;

verus! {

/// A line of the level graph, from one vertex to another, with a side on its left and
/// possibly one on its right.
#[derive(Clone, Copy, Debug, PartialEq, Eq)]
pub struct LineDef {
    pub from: VertexKey,
    pub to: VertexKey,
    pub left_side: SideDefKey,
    pub right_side: Option<SideDefKey>,
    pub flags: Flags,
    pub special: Special,
    pub trigger_flags: TriggerFlags,
}

/// A line as the level file holds it: the vertexes and sides are named by their positions.
#[derive(Clone, Copy, Debug, PartialEq, Eq, Structural)]
pub struct RawLineDef {
    pub from_idx: u16,
    pub to_idx: u16,
    pub left_side_idx: u16,
    pub right_side_idx: Option<u16>,
    pub flags: Flags,
    pub special: Special,
    pub trigger_flags: TriggerFlags,
}

/// The flags of a line. None is set unless the level says so.
#[derive(Clone, Copy, Debug, PartialEq, Eq, Structural, Hash)]
pub struct Flags {
    pub impassable: bool,
    pub blocks_monsters: bool,
    pub two_sided: bool,
    pub upper_unpegged: bool,
    pub lower_unpegged: bool,
    pub secret: bool,
    pub blocks_sound: bool,
    pub not_on_map: bool,
    pub already_on_map: bool,
}

/// Bit `index` of `bits`, counted from the least significant.
pub open spec fn bit_of(bits: u16, index: nat) -> bool {
    (bits >> (index as u16)) & 1 == 1
}

/// `bits` with bit `index` made `value`.
pub open spec fn with_bit(bits: u16, index: nat, value: bool) -> u16 {
    if value {
        bits | (1u16 << (index as u16))
    } else {
        bits & !(1u16 << (index as u16))
    }
}

/// Nine flags packed into the low bits of a word, the first being the lowest.
pub open spec fn pack9(
    a: bool,
    b: bool,
    c: bool,
    d: bool,
    e: bool,
    f: bool,
    g: bool,
    h: bool,
    i: bool,
) -> u16 {
    with_bit(
        with_bit(
            with_bit(
                with_bit(
                    with_bit(with_bit(with_bit(with_bit(with_bit(0, 0, a), 1, b), 2, c), 3, d), 4, e),
                    5,
                    f,
                ),
                6,
                g,
            ),
            7,
            h,
        ),
        8,
        i,
    )
}

/// `bitfield::Bit::bit` on a `u16`: whether the bit at `index`, counted from the least
/// significant, is set. The outside function shifts by `15 - index`, so `index` stays
/// below 16.
#[verifier::external_body]
fn get_bit(bits: u16, index: usize) -> (r: bool)
    requires
        index < 16,
    ensures
        r == bit_of(bits, index as nat),
{
    bitfield::Bit::bit(&bits, index)
}

/// `bitfield::Bit::set_bit` on a `u16`: the bit at `index` becomes `value` and the other
/// bits stay. The outside function shifts by `15 - index`, so `index` stays below 16.
#[verifier::external_body]
fn set_bit(bits: &mut u16, index: usize, value: bool)
    requires
        index < 16,
    ensures
        *final(bits) == with_bit(*old(bits), index as nat, value),
{
    bitfield::Bit::set_bit(bits, index, value)
}

impl Flags {
    /// No flag set: what a line has where the level says nothing.
    pub open spec fn none() -> Flags {
        Flags {
            impassable: false,
            blocks_monsters: false,
            two_sided: false,
            upper_unpegged: false,
            lower_unpegged: false,
            secret: false,
            blocks_sound: false,
            not_on_map: false,
            already_on_map: false,
        }
    }

    /// The flags that the low nine bits of `bits` spell, `impassable` being the lowest.
    pub open spec fn from_bits_spec(bits: u16) -> Flags {
        Flags {
            impassable: bit_of(bits, 0),
            blocks_monsters: bit_of(bits, 1),
            two_sided: bit_of(bits, 2),
            upper_unpegged: bit_of(bits, 3),
            lower_unpegged: bit_of(bits, 4),
            secret: bit_of(bits, 5),
            blocks_sound: bit_of(bits, 6),
            not_on_map: bit_of(bits, 7),
            already_on_map: bit_of(bits, 8),
        }
    }

    /// The bits that spell these flags, `impassable` being the lowest; the others are zero.
    pub open spec fn bits_spec(self) -> u16 {
        pack9(
            self.impassable,
            self.blocks_monsters,
            self.two_sided,
            self.upper_unpegged,
            self.lower_unpegged,
            self.secret,
            self.blocks_sound,
            self.not_on_map,
            self.already_on_map,
        )
    }

    /// The flags as the binary level format packs them into sixteen bits.
    pub fn from_bits(flags: i16) -> (r: Flags)
        ensures
            r == Flags::from_bits_spec(flags as u16),
    {
        let flags_bits: u16 = flags as u16;
        Flags {
            impassable: get_bit(flags_bits, 0),
            blocks_monsters: get_bit(flags_bits, 1),
            two_sided: get_bit(flags_bits, 2),
            upper_unpegged: get_bit(flags_bits, 3),
            lower_unpegged: get_bit(flags_bits, 4),
            secret: get_bit(flags_bits, 5),
            blocks_sound: get_bit(flags_bits, 6),
            not_on_map: get_bit(flags_bits, 7),
            already_on_map: get_bit(flags_bits, 8),
        }
    }

    /// The sixteen bits into which the binary level format packs the flags.
    pub fn to_bits(&self) -> (r: i16)
        ensures
            r == self.bits_spec() as i16,
    {
        let mut flags_bits: u16 = 0;
        set_bit(&mut flags_bits, 0, self.impassable);
        set_bit(&mut flags_bits, 1, self.blocks_monsters);
        set_bit(&mut flags_bits, 2, self.two_sided);
        set_bit(&mut flags_bits, 3, self.upper_unpegged);
        set_bit(&mut flags_bits, 4, self.lower_unpegged);
        set_bit(&mut flags_bits, 5, self.secret);
        set_bit(&mut flags_bits, 6, self.blocks_sound);
        set_bit(&mut flags_bits, 7, self.not_on_map);
        set_bit(&mut flags_bits, 8, self.already_on_map);
        flags_bits as i16
    }

    /// Packing flags and unpacking them gives the flags back.
    pub proof fn lemma_bits_round_trip(self)
        ensures
            Flags::from_bits_spec(self.bits_spec()) == self,
    {
        lemma_pack9(
            self.impassable,
            self.blocks_monsters,
            self.two_sided,
            self.upper_unpegged,
            self.lower_unpegged,
            self.secret,
            self.blocks_sound,
            self.not_on_map,
            self.already_on_map,
        );
    }
}

/// A bit that was set reads as it was set, and the other bits read as before.
proof fn lemma_set_then_get(bits: u16, index: u16, value: bool)
    requires
        index < 16,
    ensures
        bit_of(with_bit(bits, index as nat, value), index as nat) == value,
        forall|other: u16|
            other < 16 && other != index ==> #[trigger] bit_of(
                with_bit(bits, index as nat, value),
                other as nat,
            ) == bit_of(bits, other as nat),
{
    assert(((bits | (1u16 << index)) >> index) & 1 == 1) by (bit_vector)
        requires
            index < 16,
    ;
    assert(((bits & !(1u16 << index)) >> index) & 1 == 0) by (bit_vector)
        requires
            index < 16,
    ;
    assert forall|other: u16| other < 16 && other != index implies #[trigger] bit_of(
        with_bit(bits, index as nat, value),
        other as nat,
    ) == bit_of(bits, other as nat) by {
        assert(((bits | (1u16 << index)) >> other) & 1 == (bits >> other) & 1) by (bit_vector)
            requires
                index < 16,
                other < 16,
                other != index,
        ;
        assert(((bits & !(1u16 << index)) >> other) & 1 == (bits >> other) & 1) by (bit_vector)
            requires
                index < 16,
                other < 16,
                other != index,
        ;
    }
}

/// Each of nine flags that were packed reads as it was packed.
proof fn lemma_pack9(a: bool, b: bool, c: bool, d: bool, e: bool, f: bool, g: bool, h: bool, i: bool)
    ensures
        bit_of(pack9(a, b, c, d, e, f, g, h, i), 0) == a,
        bit_of(pack9(a, b, c, d, e, f, g, h, i), 1) == b,
        bit_of(pack9(a, b, c, d, e, f, g, h, i), 2) == c,
        bit_of(pack9(a, b, c, d, e, f, g, h, i), 3) == d,
        bit_of(pack9(a, b, c, d, e, f, g, h, i), 4) == e,
        bit_of(pack9(a, b, c, d, e, f, g, h, i), 5) == f,
        bit_of(pack9(a, b, c, d, e, f, g, h, i), 6) == g,
        bit_of(pack9(a, b, c, d, e, f, g, h, i), 7) == h,
        bit_of(pack9(a, b, c, d, e, f, g, h, i), 8) == i,
{
    let w0 = with_bit(0, 0, a);
    let w1 = with_bit(w0, 1, b);
    let w2 = with_bit(w1, 2, c);
    let w3 = with_bit(w2, 3, d);
    let w4 = with_bit(w3, 4, e);
    let w5 = with_bit(w4, 5, f);
    let w6 = with_bit(w5, 6, g);
    let w7 = with_bit(w6, 7, h);
    let w8 = with_bit(w7, 8, i);
    lemma_set_then_get(0, 0, a);
    lemma_set_then_get(w0, 1, b);
    lemma_set_then_get(w1, 2, c);
    lemma_set_then_get(w2, 3, d);
    lemma_set_then_get(w3, 4, e);
    lemma_set_then_get(w4, 5, f);
    lemma_set_then_get(w5, 6, g);
    lemma_set_then_get(w6, 7, h);
    lemma_set_then_get(w7, 8, i);
    assert(bit_of(w8, 0u16 as nat) == bit_of(w0, 0u16 as nat));
    assert(bit_of(w8, 1u16 as nat) == bit_of(w1, 1u16 as nat));
    assert(bit_of(w8, 2u16 as nat) == bit_of(w2, 2u16 as nat));
    assert(bit_of(w8, 3u16 as nat) == bit_of(w3, 3u16 as nat));
    assert(bit_of(w8, 4u16 as nat) == bit_of(w4, 4u16 as nat));
    assert(bit_of(w8, 5u16 as nat) == bit_of(w5, 5u16 as nat));
    assert(bit_of(w8, 6u16 as nat) == bit_of(w6, 6u16 as nat));
    assert(bit_of(w8, 7u16 as nat) == bit_of(w7, 7u16 as nat));
}

impl Default for Flags {
    fn default() -> (r: Self)
        ensures
            r == Flags::none(),
    {
        Flags {
            impassable: false,
            blocks_monsters: false,
            two_sided: false,
            upper_unpegged: false,
            lower_unpegged: false,
            secret: false,
            blocks_sound: false,
            not_on_map: false,
            already_on_map: false,
        }
    }
}

/// The ways in which the special action of a line is set off.
#[derive(Clone, Copy, Debug, PartialEq, Eq, Structural, Hash)]
pub struct TriggerFlags {
    pub player_cross: bool,
    pub player_use: bool,
    pub monster_cross: bool,
    pub monster_use: bool,
    pub impact: bool,
    pub player_push: bool,
    pub monster_push: bool,
    pub missile_cross: bool,
    pub repeats: bool,
    /// Monsters set the action off as a player would.
    pub monsters_activate: bool,
}

impl TriggerFlags {
    /// No flag set: what a line has where the level says nothing.
    pub open spec fn none() -> TriggerFlags {
        TriggerFlags {
            player_cross: false,
            player_use: false,
            monster_cross: false,
            monster_use: false,
            impact: false,
            player_push: false,
            monster_push: false,
            missile_cross: false,
            repeats: false,
            monsters_activate: false,
        }
    }
}

impl Default for TriggerFlags {
    fn default() -> (r: Self)
        ensures
            r == TriggerFlags::none(),
    {
        TriggerFlags {
            player_cross: false,
            player_use: false,
            monster_cross: false,
            monster_use: false,
            impact: false,
            player_push: false,
            monster_push: false,
            missile_cross: false,
            repeats: false,
            monsters_activate: false,
        }
    }
}

/// A special action as the text format spells it: a code and five argument slots.
#[derive(Clone, Copy, Debug, PartialEq, Eq)]
pub struct UdmfSpecial {
    pub value: i16,
    pub args: [i16; 5],
}

impl UdmfSpecial {
    pub fn new(value: i16, args: [i16; 5]) -> (r: Self)
        ensures
            r.value == value,
            r.args == args,
    {
        Self { value, args }
    }
}

/// A special action as the binary level format spells it: a code and the tag of the line.
#[derive(Clone, Copy, Debug, PartialEq, Eq, Structural)]
pub struct DoomSpecial {
    pub value: i16,
    pub tag: i16,
}

impl DoomSpecial {
    pub fn new(value: i16, tag: i16) -> (r: Self)
        ensures
            r.value == value,
            r.tag == tag,
    {
        Self { value, tag }
    }
}

impl From<i16> for Flags {
    fn from(flags: i16) -> (r: Flags) {
        Flags::from_bits(flags)
    }
}

impl FromSpecImpl<i16> for Flags {
    open spec fn obeys_from_spec() -> bool {
        true
    }

    open spec fn from_spec(flags: i16) -> Flags {
        Flags::from_bits_spec(flags as u16)
    }
}

impl From<Flags> for i16 {
    fn from(flags: Flags) -> (r: i16) {
        flags.to_bits()
    }
}

impl FromSpecImpl<Flags> for i16 {
    open spec fn obeys_from_spec() -> bool {
        true
    }

    open spec fn from_spec(flags: Flags) -> i16 {
        flags.bits_spec() as i16
    }
}

} // verus!
