//! The five kinds of block: each is compiled to its entity, and each entity is written
//! as its block.
//!
//! A field that a block does not assign takes its default: zero for a number, `false` for
//! a flag of a line, the flags of [`thing::Flags::defaults`] for a thing, `-` for a texture
//! and 160 for a light level.

use std::ops::Range;
use vstd::prelude::*;
use vstd::string::StringSliceAdditionalSpecFns;
use vstd::utf8::{decode_utf8, valid_utf8};

use crate::map::line_def::{Flags, RawLineDef, TriggerFlags, UdmfSpecial};
use crate::map::sector;
use crate::map::sector::Sector;
use crate::map::side_def::RawSideDef;
use crate::map::special::Special;
use crate::map::thing;
use crate::map::thing::Thing;
use crate::map::udmf::ast::{Block, BlockView};
use crate::map::udmf::compile::{collect, collect_spec, outcome, same_text, FieldValue, Slot};
use crate::map::udmf::consts::{
    BlockKind,
    BLOCKS,
    DEFAULT_LIGHT_LEVEL,
    DEFAULT_TEXTURE,
    LINE_DEF_FIELDS,
    SECTOR_FIELDS,
    SIDE_DEF_FIELDS,
    THING_FIELDS,
    VERTEX_FIELDS,
};
use crate::map::udmf::write::{block_text, fields_view, write_block, UdmfWriter};
use crate::map::udmf::{CompileError, CompileErrorView, Value, ValueView, WriteError};
use crate::map::vertex::Vertex;
use crate::point::Point;
use crate::string8::{padded, String8};

verus! {

/// What the field at `index` holds, where it holds a number from 0 to 65535.
pub open spec fn u16_at(slots: Seq<Option<Slot>>, index: int) -> Option<u16> {
    match slots[index] {
        Some(slot) => match slot.value {
            FieldValue::U16(v) => Some(v),
            _ => None,
        },
        None => None,
    }
}

/// What the field at `index` holds, where it holds a number from -32768 to 32767.
pub open spec fn i16_at(slots: Seq<Option<Slot>>, index: int) -> Option<i16> {
    match slots[index] {
        Some(slot) => match slot.value {
            FieldValue::I16(v) => Some(v),
            _ => None,
        },
        None => None,
    }
}

/// What the field at `index` holds, where it holds a number from 0 to 255.
pub open spec fn u8_at(slots: Seq<Option<Slot>>, index: int) -> Option<u8> {
    match slots[index] {
        Some(slot) => match slot.value {
            FieldValue::U8(v) => Some(v),
            _ => None,
        },
        None => None,
    }
}

/// What the field at `index` holds, where it holds a truth value.
pub open spec fn bool_at(slots: Seq<Option<Slot>>, index: int) -> Option<bool> {
    match slots[index] {
        Some(slot) => match slot.value {
            FieldValue::Bool(v) => Some(v),
            _ => None,
        },
        None => None,
    }
}

/// What the field at `index` holds, where it holds a name.
pub open spec fn name_at(slots: Seq<Option<Slot>>, index: int) -> Option<String8> {
    match slots[index] {
        Some(slot) => match slot.value {
            FieldValue::Name(v) => Some(v),
            _ => None,
        },
        None => None,
    }
}

/// The range of the assignment of the field at `index`, as a pair.
pub open spec fn span_at(slots: Seq<Option<Slot>>, index: int) -> Option<(usize, usize)> {
    match slots[index] {
        Some(slot) => Some((slot.start, slot.end)),
        None => None,
    }
}

/// `found`, or `default` where nothing was found.
pub open spec fn or<T>(found: Option<T>, default: T) -> T {
    match found {
        Some(v) => v,
        None => default,
    }
}

fn get_u16(slots: &Vec<Option<Slot>>, index: usize) -> (r: Option<u16>)
    requires
        index < slots@.len(),
    ensures
        r == u16_at(slots@, index as int),
{
    match slots[index] {
        Some(slot) => match slot.value {
            FieldValue::U16(v) => Some(v),
            _ => None,
        },
        None => None,
    }
}

fn get_i16(slots: &Vec<Option<Slot>>, index: usize) -> (r: Option<i16>)
    requires
        index < slots@.len(),
    ensures
        r == i16_at(slots@, index as int),
{
    match slots[index] {
        Some(slot) => match slot.value {
            FieldValue::I16(v) => Some(v),
            _ => None,
        },
        None => None,
    }
}

fn get_u8(slots: &Vec<Option<Slot>>, index: usize) -> (r: Option<u8>)
    requires
        index < slots@.len(),
    ensures
        r == u8_at(slots@, index as int),
{
    match slots[index] {
        Some(slot) => match slot.value {
            FieldValue::U8(v) => Some(v),
            _ => None,
        },
        None => None,
    }
}

fn get_bool(slots: &Vec<Option<Slot>>, index: usize) -> (r: Option<bool>)
    requires
        index < slots@.len(),
    ensures
        r == bool_at(slots@, index as int),
{
    match slots[index] {
        Some(slot) => match slot.value {
            FieldValue::Bool(v) => Some(v),
            _ => None,
        },
        None => None,
    }
}

fn get_name(slots: &Vec<Option<Slot>>, index: usize) -> (r: Option<String8>)
    requires
        index < slots@.len(),
    ensures
        r == name_at(slots@, index as int),
{
    match slots[index] {
        Some(slot) => match slot.value {
            FieldValue::Name(v) => Some(v),
            _ => None,
        },
        None => None,
    }
}

fn get_span(slots: &Vec<Option<Slot>>, index: usize) -> (r: Option<(usize, usize)>)
    requires
        index < slots@.len(),
    ensures
        r == span_at(slots@, index as int),
{
    match slots[index] {
        Some(slot) => Some((slot.start, slot.end)),
        None => None,
    }
}

fn value_or<T>(found: Option<T>, default: T) -> (r: T)
    ensures
        r == or(found, default),
{
    match found {
        Some(v) => v,
        None => default,
    }
}

/// The texture of a side that names none: `-`.
pub open spec fn default_texture_spec() -> String8 {
    String8::of_bytes(seq![0x2du8])
}

/// The texture of a side that names none: `-`.
pub fn default_texture() -> (name: String8)
    ensures
        name == default_texture_spec(),
{
    let name = String8::from_raw_parts([0x2d, 0, 0, 0, 0, 0, 0, 0]);
    proof {
        assert(name.bytes() =~= padded(seq![0x2du8]));
        name.lemma_of_bytes(seq![0x2du8]);
    }
    name
}

/// An entity that a block of the text format spells.
pub trait UdmfBlock: Sized {
    /// The entity that the block spells, or why it spells none.
    spec fn compiled(block: BlockView) -> Result<Self, CompileErrorView>;

    /// The entity that the block spells, or why it spells none.
    fn compile(block: &Block) -> (r: Result<Self, Box<CompileError>>)
        ensures
            outcome(r) == Self::compiled(block@),
    ;

    /// The name of the blocks that spell entities of this kind.
    spec fn block_name() -> Seq<char>;

    /// The assignments that the entity is written as: the fields that a block must assign,
    /// and of the others those that differ from their default. There are none where a
    /// texture or flat name is not UTF-8.
    spec fn fields(&self) -> Option<Seq<(Seq<char>, ValueView)>>;

    /// Writes the entity as a block. Nothing is written where a texture or flat name is
    /// not UTF-8.
    fn write<W: UdmfWriter>(&self, writer: &mut W) -> (r: Result<(), WriteError>)
        ensures
            final(writer).depth() == old(writer).depth(),
            match self.fields() {
                Some(fields) => r is Ok && final(writer).text() == old(writer).text() + block_text(
                    old(writer).depth(),
                    Self::block_name(),
                    fields,
                ),
                None => r matches Err(WriteError::String8Utf8(_)) && final(writer).text() == old(writer).text(),
            },
    ;
}

/// `items` where `condition` holds, else nothing.
pub open spec fn when<T>(condition: bool, items: Seq<T>) -> Seq<T> {
    if condition {
        items
    } else {
        Seq::empty()
    }
}

/// The assignment of the whole number `n` to `key`.
pub open spec fn int_field(key: &'static str, n: int) -> Seq<(Seq<char>, ValueView)> {
    seq![(key@, ValueView::Int(n as i32))]
}

/// The assignment of the truth value `b` to `key`.
pub open spec fn bool_field(key: &'static str, b: bool) -> Seq<(Seq<char>, ValueView)> {
    seq![(key@, ValueView::Bool(b))]
}

/// The assignment of the string `text` to `key`.
pub open spec fn str_field(key: &'static str, text: Seq<char>) -> Seq<(Seq<char>, ValueView)> {
    seq![(key@, ValueView::Str(text))]
}

/// The name as text, where it is UTF-8.
pub open spec fn name_text(name: String8) -> Option<Seq<char>> {
    if valid_utf8(name.content()) {
        Some(decode_utf8(name.content()))
    } else {
        None
    }
}

/// The name as text, where it is UTF-8.
fn name_to_text(name: &String8) -> (r: Result<String, WriteError>)
    ensures
        match name_text(*name) {
            Some(text) => r matches Ok(found) && found@ == text,
            None => r matches Err(WriteError::String8Utf8(_)),
        },
{
    match name.try_as_str() {
        Ok(text) => {
            proof {
                vstd::utf8::encode_utf8_decode_utf8(text@);
            }
            Ok(text.to_owned())
        },
        Err(e) => Err(WriteError::String8Utf8(e)),
    }
}

fn push_int(fields: &mut Vec<(&'static str, Value)>, key: &'static str, n: i32)
    ensures
        fields_view(final(fields)@) == fields_view(old(fields)@) + int_field(key, n as int),
{
    fields.push((key, Value::Int(n)));
    assert(fields_view(fields@) =~= fields_view(old(fields)@) + int_field(key, n as int));
}

fn push_int_unless(fields: &mut Vec<(&'static str, Value)>, key: &'static str, n: i32, default: i32)
    ensures
        fields_view(final(fields)@) == fields_view(old(fields)@) + when(
            n != default,
            int_field(key, n as int),
        ),
{
    if n != default {
        push_int(fields, key, n);
    } else {
        assert(fields_view(fields@) =~= fields_view(old(fields)@) + Seq::empty());
    }
}

fn push_bool_unless(
    fields: &mut Vec<(&'static str, Value)>,
    key: &'static str,
    b: bool,
    default: bool,
)
    ensures
        fields_view(final(fields)@) == fields_view(old(fields)@) + when(
            b != default,
            bool_field(key, b),
        ),
{
    if b != default {
        fields.push((key, Value::Bool(b)));
        assert(fields_view(fields@) =~= fields_view(old(fields)@) + bool_field(key, b));
    } else {
        assert(fields_view(fields@) =~= fields_view(old(fields)@) + Seq::empty());
    }
}

fn push_str(fields: &mut Vec<(&'static str, Value)>, key: &'static str, text: String)
    ensures
        fields_view(final(fields)@) == fields_view(old(fields)@) + str_field(key, text@),
{
    fields.push((key, Value::Str(text)));
    assert(fields_view(fields@) =~= fields_view(old(fields)@) + str_field(key, text@));
}

fn push_texture(fields: &mut Vec<(&'static str, Value)>, key: &'static str, text: String)
    ensures
        fields_view(final(fields)@) == fields_view(old(fields)@) + when(
            text@ != DEFAULT_TEXTURE@,
            str_field(key, text@),
        ),
{
    if !same_text(text.as_str(), DEFAULT_TEXTURE) {
        push_str(fields, key, text);
    } else {
        assert(fields_view(fields@) =~= fields_view(old(fields)@) + Seq::empty());
    }
}

fn no_fields() -> (fields: Vec<(&'static str, Value)>)
    ensures
        fields_view(fields@) == Seq::<(Seq<char>, ValueView)>::empty(),
{
    let fields: Vec<(&'static str, Value)> = Vec::new();
    assert(fields_view(fields@) =~= Seq::<(Seq<char>, ValueView)>::empty());
    fields
}

/// Adds the assignments `more` to `fields`.
fn append_fields(fields: &mut Vec<(&'static str, Value)>, more: Vec<(&'static str, Value)>)
    ensures
        fields_view(final(fields)@) == fields_view(old(fields)@) + fields_view(more@),
{
    let mut more = more;
    let ghost added = fields_view(more@);
    fields.append(&mut more);
    assert(fields_view(fields@) =~= fields_view(old(fields)@) + added);
}

/// The assignments of the flags of a thing that say where it appears, as far as they differ from their defaults.
pub open spec fn thing_presence_spec(flags: thing::Flags) -> Seq<(Seq<char>, ValueView)> {
    Seq::<(Seq<char>, ValueView)>::empty() + when(
        flags.skill1 != true,
        bool_field(THING_FIELDS@[5], flags.skill1),
    ) + when(
        flags.skill2 != true,
        bool_field(THING_FIELDS@[6], flags.skill2),
    ) + when(
        flags.skill3 != true,
        bool_field(THING_FIELDS@[7], flags.skill3),
    ) + when(
        flags.skill4 != true,
        bool_field(THING_FIELDS@[8], flags.skill4),
    ) + when(
        flags.skill5 != true,
        bool_field(THING_FIELDS@[9], flags.skill5),
    ) + when(
        flags.ambush != true,
        bool_field(THING_FIELDS@[10], flags.ambush),
    ) + when(
        flags.single != true,
        bool_field(THING_FIELDS@[11], flags.single),
    ) + when(
        flags.dm != true,
        bool_field(THING_FIELDS@[12], flags.dm),
    ) + when(
        flags.coop != true,
        bool_field(THING_FIELDS@[13], flags.coop),
    )
}

fn push_thing_presence(fields: &mut Vec<(&'static str, Value)>, flags: &thing::Flags)
    ensures
        fields_view(final(fields)@) == fields_view(old(fields)@) + thing_presence_spec(*flags),
{
    let ghost before = fields_view(fields@);
    let mut group = no_fields();
    push_bool_unless(&mut group, THING_FIELDS[5], flags.skill1, true);
    push_bool_unless(&mut group, THING_FIELDS[6], flags.skill2, true);
    push_bool_unless(&mut group, THING_FIELDS[7], flags.skill3, true);
    push_bool_unless(&mut group, THING_FIELDS[8], flags.skill4, true);
    push_bool_unless(&mut group, THING_FIELDS[9], flags.skill5, true);
    push_bool_unless(&mut group, THING_FIELDS[10], flags.ambush, true);
    push_bool_unless(&mut group, THING_FIELDS[11], flags.single, true);
    push_bool_unless(&mut group, THING_FIELDS[12], flags.dm, true);
    push_bool_unless(&mut group, THING_FIELDS[13], flags.coop, true);
    append_fields(fields, group);
}

/// The assignments of the other flags of a thing, as far as they are set.
pub open spec fn thing_traits_spec(flags: thing::Flags) -> Seq<(Seq<char>, ValueView)> {
    Seq::<(Seq<char>, ValueView)>::empty() + when(
        flags.mbf_friend != false,
        bool_field(THING_FIELDS@[14], flags.mbf_friend),
    ) + when(
        flags.class1 != false,
        bool_field(THING_FIELDS@[15], flags.class1),
    ) + when(
        flags.class2 != false,
        bool_field(THING_FIELDS@[16], flags.class2),
    ) + when(
        flags.class3 != false,
        bool_field(THING_FIELDS@[17], flags.class3),
    ) + when(
        flags.dormant != false,
        bool_field(THING_FIELDS@[18], flags.dormant),
    ) + when(
        flags.invisible != false,
        bool_field(THING_FIELDS@[19], flags.invisible),
    ) + when(
        flags.npc != false,
        bool_field(THING_FIELDS@[20], flags.npc),
    ) + when(
        flags.translucent != false,
        bool_field(THING_FIELDS@[21], flags.translucent),
    ) + when(
        flags.strife_ally != false,
        bool_field(THING_FIELDS@[22], flags.strife_ally),
    )
}

fn push_thing_traits(fields: &mut Vec<(&'static str, Value)>, flags: &thing::Flags)
    ensures
        fields_view(final(fields)@) == fields_view(old(fields)@) + thing_traits_spec(*flags),
{
    let ghost before = fields_view(fields@);
    let mut group = no_fields();
    push_bool_unless(&mut group, THING_FIELDS[14], flags.mbf_friend, false);
    push_bool_unless(&mut group, THING_FIELDS[15], flags.class1, false);
    push_bool_unless(&mut group, THING_FIELDS[16], flags.class2, false);
    push_bool_unless(&mut group, THING_FIELDS[17], flags.class3, false);
    push_bool_unless(&mut group, THING_FIELDS[18], flags.dormant, false);
    push_bool_unless(&mut group, THING_FIELDS[19], flags.invisible, false);
    push_bool_unless(&mut group, THING_FIELDS[20], flags.npc, false);
    push_bool_unless(&mut group, THING_FIELDS[21], flags.translucent, false);
    push_bool_unless(&mut group, THING_FIELDS[22], flags.strife_ally, false);
    append_fields(fields, group);
}

/// The assignments of the flags of a line, as far as they are set.
pub open spec fn line_flags_spec(flags: Flags) -> Seq<(Seq<char>, ValueView)> {
    Seq::<(Seq<char>, ValueView)>::empty() + when(
        flags.impassable != false,
        bool_field(LINE_DEF_FIELDS@[4], flags.impassable),
    ) + when(
        flags.blocks_monsters != false,
        bool_field(LINE_DEF_FIELDS@[5], flags.blocks_monsters),
    ) + when(
        flags.two_sided != false,
        bool_field(LINE_DEF_FIELDS@[6], flags.two_sided),
    ) + when(
        flags.upper_unpegged != false,
        bool_field(LINE_DEF_FIELDS@[7], flags.upper_unpegged),
    ) + when(
        flags.lower_unpegged != false,
        bool_field(LINE_DEF_FIELDS@[8], flags.lower_unpegged),
    ) + when(
        flags.secret != false,
        bool_field(LINE_DEF_FIELDS@[9], flags.secret),
    ) + when(
        flags.blocks_sound != false,
        bool_field(LINE_DEF_FIELDS@[10], flags.blocks_sound),
    ) + when(
        flags.not_on_map != false,
        bool_field(LINE_DEF_FIELDS@[11], flags.not_on_map),
    ) + when(
        flags.already_on_map != false,
        bool_field(LINE_DEF_FIELDS@[12], flags.already_on_map),
    )
}

fn push_line_flags(fields: &mut Vec<(&'static str, Value)>, flags: &Flags)
    ensures
        fields_view(final(fields)@) == fields_view(old(fields)@) + line_flags_spec(*flags),
{
    let ghost before = fields_view(fields@);
    let mut group = no_fields();
    push_bool_unless(&mut group, LINE_DEF_FIELDS[4], flags.impassable, false);
    push_bool_unless(&mut group, LINE_DEF_FIELDS[5], flags.blocks_monsters, false);
    push_bool_unless(&mut group, LINE_DEF_FIELDS[6], flags.two_sided, false);
    push_bool_unless(&mut group, LINE_DEF_FIELDS[7], flags.upper_unpegged, false);
    push_bool_unless(&mut group, LINE_DEF_FIELDS[8], flags.lower_unpegged, false);
    push_bool_unless(&mut group, LINE_DEF_FIELDS[9], flags.secret, false);
    push_bool_unless(&mut group, LINE_DEF_FIELDS[10], flags.blocks_sound, false);
    push_bool_unless(&mut group, LINE_DEF_FIELDS[11], flags.not_on_map, false);
    push_bool_unless(&mut group, LINE_DEF_FIELDS[12], flags.already_on_map, false);
    append_fields(fields, group);
}

/// The assignments of the trigger flags of a line, as far as they are set.
pub open spec fn line_triggers_spec(flags: TriggerFlags) -> Seq<(Seq<char>, ValueView)> {
    Seq::<(Seq<char>, ValueView)>::empty() + when(
        flags.player_cross != false,
        bool_field(LINE_DEF_FIELDS@[19], flags.player_cross),
    ) + when(
        flags.player_use != false,
        bool_field(LINE_DEF_FIELDS@[20], flags.player_use),
    ) + when(
        flags.monster_cross != false,
        bool_field(LINE_DEF_FIELDS@[21], flags.monster_cross),
    ) + when(
        flags.monster_use != false,
        bool_field(LINE_DEF_FIELDS@[22], flags.monster_use),
    ) + when(
        flags.impact != false,
        bool_field(LINE_DEF_FIELDS@[23], flags.impact),
    ) + when(
        flags.player_push != false,
        bool_field(LINE_DEF_FIELDS@[24], flags.player_push),
    ) + when(
        flags.monster_push != false,
        bool_field(LINE_DEF_FIELDS@[25], flags.monster_push),
    ) + when(
        flags.missile_cross != false,
        bool_field(LINE_DEF_FIELDS@[26], flags.missile_cross),
    ) + when(
        flags.repeats != false,
        bool_field(LINE_DEF_FIELDS@[27], flags.repeats),
    ) + when(
        flags.monsters_activate != false,
        bool_field(LINE_DEF_FIELDS@[28], flags.monsters_activate),
    )
}

fn push_line_triggers(fields: &mut Vec<(&'static str, Value)>, flags: &TriggerFlags)
    ensures
        fields_view(final(fields)@) == fields_view(old(fields)@) + line_triggers_spec(*flags),
{
    let ghost before = fields_view(fields@);
    let mut group = no_fields();
    push_bool_unless(&mut group, LINE_DEF_FIELDS[19], flags.player_cross, false);
    push_bool_unless(&mut group, LINE_DEF_FIELDS[20], flags.player_use, false);
    push_bool_unless(&mut group, LINE_DEF_FIELDS[21], flags.monster_cross, false);
    push_bool_unless(&mut group, LINE_DEF_FIELDS[22], flags.monster_use, false);
    push_bool_unless(&mut group, LINE_DEF_FIELDS[23], flags.impact, false);
    push_bool_unless(&mut group, LINE_DEF_FIELDS[24], flags.player_push, false);
    push_bool_unless(&mut group, LINE_DEF_FIELDS[25], flags.monster_push, false);
    push_bool_unless(&mut group, LINE_DEF_FIELDS[26], flags.missile_cross, false);
    push_bool_unless(&mut group, LINE_DEF_FIELDS[27], flags.repeats, false);
    push_bool_unless(&mut group, LINE_DEF_FIELDS[28], flags.monsters_activate, false);
    append_fields(fields, group);
}

/// The assignments of the special action of a line: its code and its arguments, as far
/// as they are not zero.
pub open spec fn line_special_spec(special: Special) -> Seq<(Seq<char>, ValueView)> {
    Seq::<(Seq<char>, ValueView)>::empty() + when(
        special.wide_code() != 0,
        int_field(LINE_DEF_FIELDS@[13], special.wide_code() as int),
    ) + when(
        special.args_spec()[0] != 0,
        int_field(LINE_DEF_FIELDS@[14], special.args_spec()[0] as int),
    ) + when(
        special.args_spec()[1] != 0,
        int_field(LINE_DEF_FIELDS@[15], special.args_spec()[1] as int),
    ) + when(
        special.args_spec()[2] != 0,
        int_field(LINE_DEF_FIELDS@[16], special.args_spec()[2] as int),
    ) + when(
        special.args_spec()[3] != 0,
        int_field(LINE_DEF_FIELDS@[17], special.args_spec()[3] as int),
    ) + when(
        special.args_spec()[4] != 0,
        int_field(LINE_DEF_FIELDS@[18], special.args_spec()[4] as int),
    )
}

fn push_line_special(fields: &mut Vec<(&'static str, Value)>, special: &Special)
    ensures
        fields_view(final(fields)@) == fields_view(old(fields)@) + line_special_spec(*special),
{
    let udmf = special.wide_encode();
    proof {
        special.lemma_args_shape();
    }
    let mut group = no_fields();
    push_int_unless(&mut group, LINE_DEF_FIELDS[13], udmf.value as i32, 0);
    push_int_unless(&mut group, LINE_DEF_FIELDS[14], udmf.args[0] as i32, 0);
    push_int_unless(&mut group, LINE_DEF_FIELDS[15], udmf.args[1] as i32, 0);
    push_int_unless(&mut group, LINE_DEF_FIELDS[16], udmf.args[2] as i32, 0);
    push_int_unless(&mut group, LINE_DEF_FIELDS[17], udmf.args[3] as i32, 0);
    push_int_unless(&mut group, LINE_DEF_FIELDS[18], udmf.args[4] as i32, 0);
    append_fields(fields, group);
}


/// The vertex that the fields of a `vertex` block make.
pub open spec fn vertex_of(slots: Seq<Option<Slot>>) -> Vertex {
    Vertex { position: Point { x: or(i16_at(slots, 0), 0), y: or(i16_at(slots, 1), 0) } }
}

impl UdmfBlock for Vertex {
    open spec fn compiled(block: BlockView) -> Result<Self, CompileErrorView> {
        match collect_spec(BlockKind::Vertex, block) {
            Ok(slots) => Ok(vertex_of(slots)),
            Err(e) => Err(e),
        }
    }

    fn compile(block: &Block) -> (r: Result<Self, Box<CompileError>>) {
        let slots = match collect(BlockKind::Vertex, block) {
            Ok(slots) => slots,
            Err(e) => {
                return Err(e);
            },
        };
        Ok(
            Vertex {
                position: Point {
                    x: value_or(get_i16(&slots, 0), 0),
                    y: value_or(get_i16(&slots, 1), 0),
                },
            },
        )
    }

    open spec fn block_name() -> Seq<char> {
        BLOCKS@[0]@
    }

    open spec fn fields(&self) -> Option<Seq<(Seq<char>, ValueView)>> {
        Some(
            Seq::<(Seq<char>, ValueView)>::empty() + int_field(VERTEX_FIELDS@[0], self.position.x as int) + int_field(
                VERTEX_FIELDS@[1],
                self.position.y as int,
            ),
        )
    }

    fn write<W: UdmfWriter>(&self, writer: &mut W) -> (r: Result<(), WriteError>) {
        let mut fields = no_fields();
        push_int(&mut fields, VERTEX_FIELDS[0], self.position.x as i32);
        push_int(&mut fields, VERTEX_FIELDS[1], self.position.y as i32);
        write_block(writer, BLOCKS[0], &fields);
        Ok(())
    }
}

/// The side that the fields of a `sidedef` block make.
pub open spec fn side_def_of(slots: Seq<Option<Slot>>) -> RawSideDef {
    RawSideDef {
        sector_idx: or(u16_at(slots, 2), 0),
        offset: Point { x: or(i16_at(slots, 0), 0), y: or(i16_at(slots, 1), 0) },
        upper_texture: or(name_at(slots, 3), default_texture_spec()),
        middle_texture: or(name_at(slots, 4), default_texture_spec()),
        lower_texture: or(name_at(slots, 5), default_texture_spec()),
    }
}

impl UdmfBlock for RawSideDef {
    open spec fn compiled(block: BlockView) -> Result<Self, CompileErrorView> {
        match collect_spec(BlockKind::SideDef, block) {
            Ok(slots) => Ok(side_def_of(slots)),
            Err(e) => Err(e),
        }
    }

    fn compile(block: &Block) -> (r: Result<Self, Box<CompileError>>) {
        let slots = match collect(BlockKind::SideDef, block) {
            Ok(slots) => slots,
            Err(e) => {
                return Err(e);
            },
        };
        Ok(
            RawSideDef {
                sector_idx: value_or(get_u16(&slots, 2), 0),
                offset: Point {
                    x: value_or(get_i16(&slots, 0), 0),
                    y: value_or(get_i16(&slots, 1), 0),
                },
                upper_texture: value_or(get_name(&slots, 3), default_texture()),
                middle_texture: value_or(get_name(&slots, 4), default_texture()),
                lower_texture: value_or(get_name(&slots, 5), default_texture()),
            },
        )
    }

    open spec fn block_name() -> Seq<char> {
        BLOCKS@[3]@
    }

    open spec fn fields(&self) -> Option<Seq<(Seq<char>, ValueView)>> {
        match (
            name_text(self.upper_texture),
            name_text(self.middle_texture),
            name_text(self.lower_texture),
        ) {
            (Some(upper), Some(middle), Some(lower)) => Some(
                Seq::<(Seq<char>, ValueView)>::empty() + when(self.offset.x != 0, int_field(SIDE_DEF_FIELDS@[0], self.offset.x as int))
                    + when(self.offset.y != 0, int_field(SIDE_DEF_FIELDS@[1], self.offset.y as int))
                    + int_field(SIDE_DEF_FIELDS@[2], self.sector_idx as int) + when(
                    upper != DEFAULT_TEXTURE@,
                    str_field(SIDE_DEF_FIELDS@[3], upper),
                ) + when(middle != DEFAULT_TEXTURE@, str_field(SIDE_DEF_FIELDS@[4], middle)) + when(
                    lower != DEFAULT_TEXTURE@,
                    str_field(SIDE_DEF_FIELDS@[5], lower),
                ),
            ),
            _ => None,
        }
    }

    fn write<W: UdmfWriter>(&self, writer: &mut W) -> (r: Result<(), WriteError>) {
        let upper = match name_to_text(&self.upper_texture) {
            Ok(text) => text,
            Err(e) => {
                return Err(e);
            },
        };
        let middle = match name_to_text(&self.middle_texture) {
            Ok(text) => text,
            Err(e) => {
                return Err(e);
            },
        };
        let lower = match name_to_text(&self.lower_texture) {
            Ok(text) => text,
            Err(e) => {
                return Err(e);
            },
        };
        let mut fields = no_fields();
        push_int_unless(&mut fields, SIDE_DEF_FIELDS[0], self.offset.x as i32, 0);
        push_int_unless(&mut fields, SIDE_DEF_FIELDS[1], self.offset.y as i32, 0);
        push_int(&mut fields, SIDE_DEF_FIELDS[2], self.sector_idx as i32);
        push_texture(&mut fields, SIDE_DEF_FIELDS[3], upper);
        push_texture(&mut fields, SIDE_DEF_FIELDS[4], middle);
        push_texture(&mut fields, SIDE_DEF_FIELDS[5], lower);
        write_block(writer, BLOCKS[3], &fields);
        Ok(())
    }
}

/// The special of the sector that the fields of a `sector` block make.
pub open spec fn sector_special_of(slots: Seq<Option<Slot>>) -> Result<
    sector::Special,
    CompileErrorView,
> {
    match i16_at(slots, 6) {
        None => Ok(sector::Special::Nothing),
        Some(value) => match sector::Special::from_code_spec(value) {
            Some(special) => Ok(special),
            None => Err(CompileErrorView::SectorSpecial { value, span: slots[6]->Some_0.span() }),
        },
    }
}

/// The sector that the fields of a `sector` block make.
pub open spec fn sector_of(slots: Seq<Option<Slot>>) -> Result<Sector, CompileErrorView> {
    match sector_special_of(slots) {
        Err(e) => Err(e),
        Ok(special) => Ok(
            Sector {
                floor_height: or(i16_at(slots, 0), 0),
                ceiling_height: or(i16_at(slots, 1), 0),
                floor_flat: or(name_at(slots, 2), String8::of_bytes(Seq::empty())),
                ceiling_flat: or(name_at(slots, 3), String8::of_bytes(Seq::empty())),
                light_level: or(u8_at(slots, 4), DEFAULT_LIGHT_LEVEL),
                special,
                tag: or(i16_at(slots, 5), 0),
            },
        ),
    }
}

/// The name without a byte.
fn empty_name() -> (name: String8)
    ensures
        name == String8::of_bytes(Seq::empty()),
{
    let name = String8::from_raw_parts([0, 0, 0, 0, 0, 0, 0, 0]);
    proof {
        assert(name.bytes() =~= padded(Seq::empty()));
        name.lemma_of_bytes(Seq::empty());
    }
    name
}

impl UdmfBlock for Sector {
    open spec fn compiled(block: BlockView) -> Result<Self, CompileErrorView> {
        match collect_spec(BlockKind::Sector, block) {
            Ok(slots) => sector_of(slots),
            Err(e) => Err(e),
        }
    }

    fn compile(block: &Block) -> (r: Result<Self, Box<CompileError>>) {
        let slots = match collect(BlockKind::Sector, block) {
            Ok(slots) => slots,
            Err(e) => {
                return Err(e);
            },
        };
        let special = match get_i16(&slots, 6) {
            None => sector::Special::Nothing,
            Some(value) => match sector::Special::from_code(value) {
                Ok(special) => special,
                Err(_) => {
                    let span = match slots[6] {
                        Some(slot) => Range { start: slot.start, end: slot.end },
                        None => Range { start: 0, end: 0 },
                    };
                    return Err(Box::new(CompileError::SectorSpecial { value, span }));
                },
            },
        };
        Ok(
            Sector {
                floor_height: value_or(get_i16(&slots, 0), 0),
                ceiling_height: value_or(get_i16(&slots, 1), 0),
                floor_flat: value_or(get_name(&slots, 2), empty_name()),
                ceiling_flat: value_or(get_name(&slots, 3), empty_name()),
                light_level: value_or(get_u8(&slots, 4), DEFAULT_LIGHT_LEVEL),
                special,
                tag: value_or(get_i16(&slots, 5), 0),
            },
        )
    }

    open spec fn block_name() -> Seq<char> {
        BLOCKS@[2]@
    }

    open spec fn fields(&self) -> Option<Seq<(Seq<char>, ValueView)>> {
        match (name_text(self.floor_flat), name_text(self.ceiling_flat)) {
            (Some(floor), Some(ceiling)) => Some(
                Seq::<(Seq<char>, ValueView)>::empty() + when(
                    self.floor_height != 0,
                    int_field(SECTOR_FIELDS@[0], self.floor_height as int),
                ) + when(
                    self.ceiling_height != 0,
                    int_field(SECTOR_FIELDS@[1], self.ceiling_height as int),
                ) + str_field(SECTOR_FIELDS@[2], floor) + str_field(SECTOR_FIELDS@[3], ceiling)
                    + when(
                    self.light_level != DEFAULT_LIGHT_LEVEL,
                    int_field(SECTOR_FIELDS@[4], self.light_level as int),
                ) + when(
                    self.special.code_spec() != 0,
                    int_field(SECTOR_FIELDS@[6], self.special.code_spec() as int),
                ) + when(self.tag != 0, int_field(SECTOR_FIELDS@[5], self.tag as int)),
            ),
            _ => None,
        }
    }

    fn write<W: UdmfWriter>(&self, writer: &mut W) -> (r: Result<(), WriteError>) {
        let floor = match name_to_text(&self.floor_flat) {
            Ok(text) => text,
            Err(e) => {
                return Err(e);
            },
        };
        let ceiling = match name_to_text(&self.ceiling_flat) {
            Ok(text) => text,
            Err(e) => {
                return Err(e);
            },
        };
        let mut fields = no_fields();
        push_int_unless(&mut fields, SECTOR_FIELDS[0], self.floor_height as i32, 0);
        push_int_unless(&mut fields, SECTOR_FIELDS[1], self.ceiling_height as i32, 0);
        push_str(&mut fields, SECTOR_FIELDS[2], floor);
        push_str(&mut fields, SECTOR_FIELDS[3], ceiling);
        push_int_unless(
            &mut fields,
            SECTOR_FIELDS[4],
            self.light_level as i32,
            DEFAULT_LIGHT_LEVEL as i32,
        );
        push_int_unless(&mut fields, SECTOR_FIELDS[6], self.special.code() as i32, 0);
        push_int_unless(&mut fields, SECTOR_FIELDS[5], self.tag as i32, 0);
        write_block(writer, BLOCKS[2], &fields);
        Ok(())
    }
}

/// The flags of the thing that the fields of a `thing` block make.
pub open spec fn thing_flags_of(slots: Seq<Option<Slot>>) -> thing::Flags {
    thing::Flags {
        skill1: or(bool_at(slots, 5), true),
        skill2: or(bool_at(slots, 6), true),
        skill3: or(bool_at(slots, 7), true),
        skill4: or(bool_at(slots, 8), true),
        skill5: or(bool_at(slots, 9), true),
        ambush: or(bool_at(slots, 10), true),
        single: or(bool_at(slots, 11), true),
        dm: or(bool_at(slots, 12), true),
        coop: or(bool_at(slots, 13), true),
        mbf_friend: or(bool_at(slots, 14), false),
        class1: or(bool_at(slots, 15), false),
        class2: or(bool_at(slots, 16), false),
        class3: or(bool_at(slots, 17), false),
        dormant: or(bool_at(slots, 18), false),
        invisible: or(bool_at(slots, 19), false),
        npc: or(bool_at(slots, 20), false),
        translucent: or(bool_at(slots, 21), false),
        strife_ally: or(bool_at(slots, 22), false),
    }
}

/// The thing that the fields of a `thing` block make. A thing has no special action of
/// its own yet, so the only special that a block may name is zero.
pub open spec fn thing_of(slots: Seq<Option<Slot>>) -> Result<Thing, CompileErrorView> {
    match i16_at(slots, 23) {
        Some(value) if value != 0 => Err(
            CompileErrorView::LineDefSpecial {
                value,
                special_span: slots[23]->Some_0.span(),
                arg0_span: None,
                arg1_span: None,
                arg2_span: None,
                arg3_span: None,
                arg4_span: None,
            },
        ),
        _ => Ok(
            Thing {
                position: Point { x: or(i16_at(slots, 0), 0), y: or(i16_at(slots, 1), 0) },
                height: or(i16_at(slots, 2), 0),
                angle: or(i16_at(slots, 3), 0),
                type_: or(i16_at(slots, 4), 0),
                flags: thing_flags_of(slots),
                special: thing::Special::Nothing,
            },
        ),
    }
}

impl UdmfBlock for Thing {
    open spec fn compiled(block: BlockView) -> Result<Self, CompileErrorView> {
        match collect_spec(BlockKind::Thing, block) {
            Ok(slots) => thing_of(slots),
            Err(e) => Err(e),
        }
    }

    fn compile(block: &Block) -> (r: Result<Self, Box<CompileError>>) {
        let slots = match collect(BlockKind::Thing, block) {
            Ok(slots) => slots,
            Err(e) => {
                return Err(e);
            },
        };
        match get_i16(&slots, 23) {
            Some(value) => {
                if value != 0 {
                    let special_span = match slots[23] {
                        Some(slot) => Range { start: slot.start, end: slot.end },
                        None => Range { start: 0, end: 0 },
                    };
                    return Err(
                        Box::new(
                            CompileError::LineDefSpecial {
                                value,
                                special_span,
                                arg0_span: None,
                                arg1_span: None,
                                arg2_span: None,
                                arg3_span: None,
                                arg4_span: None,
                            },
                        ),
                    );
                }
            },
            None => {},
        }
        Ok(
            Thing {
                position: Point {
                    x: value_or(get_i16(&slots, 0), 0),
                    y: value_or(get_i16(&slots, 1), 0),
                },
                height: value_or(get_i16(&slots, 2), 0),
                angle: value_or(get_i16(&slots, 3), 0),
                type_: value_or(get_i16(&slots, 4), 0),
                flags: thing::Flags {
                    skill1: value_or(get_bool(&slots, 5), true),
                    skill2: value_or(get_bool(&slots, 6), true),
                    skill3: value_or(get_bool(&slots, 7), true),
                    skill4: value_or(get_bool(&slots, 8), true),
                    skill5: value_or(get_bool(&slots, 9), true),
                    ambush: value_or(get_bool(&slots, 10), true),
                    single: value_or(get_bool(&slots, 11), true),
                    dm: value_or(get_bool(&slots, 12), true),
                    coop: value_or(get_bool(&slots, 13), true),
                    mbf_friend: value_or(get_bool(&slots, 14), false),
                    class1: value_or(get_bool(&slots, 15), false),
                    class2: value_or(get_bool(&slots, 16), false),
                    class3: value_or(get_bool(&slots, 17), false),
                    dormant: value_or(get_bool(&slots, 18), false),
                    invisible: value_or(get_bool(&slots, 19), false),
                    npc: value_or(get_bool(&slots, 20), false),
                    translucent: value_or(get_bool(&slots, 21), false),
                    strife_ally: value_or(get_bool(&slots, 22), false),
                },
                special: thing::Special::Nothing,
            },
        )
    }

    open spec fn block_name() -> Seq<char> {
        BLOCKS@[4]@
    }

    open spec fn fields(&self) -> Option<Seq<(Seq<char>, ValueView)>> {
        Some(
            Seq::<(Seq<char>, ValueView)>::empty() + int_field(THING_FIELDS@[0], self.position.x as int) + int_field(
                THING_FIELDS@[1],
                self.position.y as int,
            ) + when(self.height != 0, int_field(THING_FIELDS@[2], self.height as int)) + when(
                self.angle != 0,
                int_field(THING_FIELDS@[3], self.angle as int),
            ) + int_field(THING_FIELDS@[4], self.type_ as int) + thing_presence_spec(self.flags)
                + thing_traits_spec(self.flags),
        )
    }

    fn write<W: UdmfWriter>(&self, writer: &mut W) -> (r: Result<(), WriteError>) {
        let mut fields = no_fields();
        push_int(&mut fields, THING_FIELDS[0], self.position.x as i32);
        push_int(&mut fields, THING_FIELDS[1], self.position.y as i32);
        push_int_unless(&mut fields, THING_FIELDS[2], self.height as i32, 0);
        push_int_unless(&mut fields, THING_FIELDS[3], self.angle as i32, 0);
        push_int(&mut fields, THING_FIELDS[4], self.type_ as i32);
        push_thing_presence(&mut fields, &self.flags);
        push_thing_traits(&mut fields, &self.flags);
        write_block(writer, BLOCKS[4], &fields);
        Ok(())
    }
}

/// The five argument slots that the fields of a `linedef` block give: what the block
/// assigns to `arg0` to `arg4`, and zero for each that it does not assign.
pub open spec fn line_args_of(slots: Seq<Option<Slot>>) -> Seq<i16> {
    seq![
        or(i16_at(slots, 14), 0),
        or(i16_at(slots, 15), 0),
        or(i16_at(slots, 16), 0),
        or(i16_at(slots, 17), 0),
        or(i16_at(slots, 18), 0),
    ]
}

/// The special action of the line that the fields of a `linedef` block make: none where
/// the block names none, else the action that its code and the argument slots spell.
pub open spec fn line_special_of(slots: Seq<Option<Slot>>) -> Result<Special, CompileErrorView> {
    match i16_at(slots, 13) {
        None => Ok(Special::Nothing),
        Some(value) => match Special::wide_decoded(value, line_args_of(slots)) {
            Some(special) => Ok(special),
            None => Err(
                CompileErrorView::LineDefSpecial {
                    value,
                    special_span: slots[13]->Some_0.span(),
                    arg0_span: span_at(slots, 14),
                    arg1_span: span_at(slots, 15),
                    arg2_span: span_at(slots, 16),
                    arg3_span: span_at(slots, 17),
                    arg4_span: span_at(slots, 18),
                },
            ),
        },
    }
}

/// The flags of the line that the fields of a `linedef` block make.
pub open spec fn line_flags_of(slots: Seq<Option<Slot>>) -> Flags {
    Flags {
        impassable: or(bool_at(slots, 4), false),
        blocks_monsters: or(bool_at(slots, 5), false),
        two_sided: or(bool_at(slots, 6), false),
        upper_unpegged: or(bool_at(slots, 7), false),
        lower_unpegged: or(bool_at(slots, 8), false),
        secret: or(bool_at(slots, 9), false),
        blocks_sound: or(bool_at(slots, 10), false),
        not_on_map: or(bool_at(slots, 11), false),
        already_on_map: or(bool_at(slots, 12), false),
    }
}

/// The trigger flags of the line that the fields of a `linedef` block make.
pub open spec fn line_triggers_of(slots: Seq<Option<Slot>>) -> TriggerFlags {
    TriggerFlags {
        player_cross: or(bool_at(slots, 19), false),
        player_use: or(bool_at(slots, 20), false),
        monster_cross: or(bool_at(slots, 21), false),
        monster_use: or(bool_at(slots, 22), false),
        impact: or(bool_at(slots, 23), false),
        player_push: or(bool_at(slots, 24), false),
        monster_push: or(bool_at(slots, 25), false),
        missile_cross: or(bool_at(slots, 26), false),
        repeats: or(bool_at(slots, 27), false),
        monsters_activate: or(bool_at(slots, 28), false),
    }
}

/// The line that the fields of a `linedef` block make.
pub open spec fn line_def_of(slots: Seq<Option<Slot>>) -> Result<RawLineDef, CompileErrorView> {
    match line_special_of(slots) {
        Err(e) => Err(e),
        Ok(special) => Ok(
            RawLineDef {
                from_idx: or(u16_at(slots, 0), 0),
                to_idx: or(u16_at(slots, 1), 0),
                left_side_idx: or(u16_at(slots, 2), 0),
                right_side_idx: u16_at(slots, 3),
                flags: line_flags_of(slots),
                special,
                trigger_flags: line_triggers_of(slots),
            },
        ),
    }
}

/// The special action of the line that the fields of a `linedef` block make.
fn line_special(slots: &Vec<Option<Slot>>) -> (r: Result<Special, Box<CompileError>>)
    requires
        slots@.len() == 29,
    ensures
        outcome(r) == line_special_of(slots@),
{
    let value = match get_i16(slots, 13) {
        None => {
            return Ok(Special::Nothing);
        },
        Some(value) => value,
    };
    let args = [
        value_or(get_i16(slots, 14), 0),
        value_or(get_i16(slots, 15), 0),
        value_or(get_i16(slots, 16), 0),
        value_or(get_i16(slots, 17), 0),
        value_or(get_i16(slots, 18), 0),
    ];
    assert(args@ =~= line_args_of(slots@));
    match Special::wide_decode(UdmfSpecial { value, args }) {
        Ok(special) => Ok(special),
        Err(_) => {
            let special_span = match slots[13] {
                Some(slot) => Range { start: slot.start, end: slot.end },
                None => Range { start: 0, end: 0 },
            };
            Err(
                Box::new(
                    CompileError::LineDefSpecial {
                        value,
                        special_span,
                        arg0_span: get_span(slots, 14),
                        arg1_span: get_span(slots, 15),
                        arg2_span: get_span(slots, 16),
                        arg3_span: get_span(slots, 17),
                        arg4_span: get_span(slots, 18),
                    },
                ),
            )
        },
    }
}

impl UdmfBlock for RawLineDef {
    open spec fn compiled(block: BlockView) -> Result<Self, CompileErrorView> {
        match collect_spec(BlockKind::LineDef, block) {
            Ok(slots) => line_def_of(slots),
            Err(e) => Err(e),
        }
    }

    fn compile(block: &Block) -> (r: Result<Self, Box<CompileError>>) {
        let slots = match collect(BlockKind::LineDef, block) {
            Ok(slots) => slots,
            Err(e) => {
                return Err(e);
            },
        };
        let special = match line_special(&slots) {
            Ok(special) => special,
            Err(e) => {
                return Err(e);
            },
        };
        Ok(
            RawLineDef {
                from_idx: value_or(get_u16(&slots, 0), 0),
                to_idx: value_or(get_u16(&slots, 1), 0),
                left_side_idx: value_or(get_u16(&slots, 2), 0),
                right_side_idx: get_u16(&slots, 3),
                flags: Flags {
                    impassable: value_or(get_bool(&slots, 4), false),
                    blocks_monsters: value_or(get_bool(&slots, 5), false),
                    two_sided: value_or(get_bool(&slots, 6), false),
                    upper_unpegged: value_or(get_bool(&slots, 7), false),
                    lower_unpegged: value_or(get_bool(&slots, 8), false),
                    secret: value_or(get_bool(&slots, 9), false),
                    blocks_sound: value_or(get_bool(&slots, 10), false),
                    not_on_map: value_or(get_bool(&slots, 11), false),
                    already_on_map: value_or(get_bool(&slots, 12), false),
                },
                special,
                trigger_flags: TriggerFlags {
                    player_cross: value_or(get_bool(&slots, 19), false),
                    player_use: value_or(get_bool(&slots, 20), false),
                    monster_cross: value_or(get_bool(&slots, 21), false),
                    monster_use: value_or(get_bool(&slots, 22), false),
                    impact: value_or(get_bool(&slots, 23), false),
                    player_push: value_or(get_bool(&slots, 24), false),
                    monster_push: value_or(get_bool(&slots, 25), false),
                    missile_cross: value_or(get_bool(&slots, 26), false),
                    repeats: value_or(get_bool(&slots, 27), false),
                    monsters_activate: value_or(get_bool(&slots, 28), false),
                },
            },
        )
    }

    open spec fn block_name() -> Seq<char> {
        BLOCKS@[1]@
    }

    open spec fn fields(&self) -> Option<Seq<(Seq<char>, ValueView)>> {
        Some(
            Seq::<(Seq<char>, ValueView)>::empty() + int_field(LINE_DEF_FIELDS@[0], self.from_idx as int) + int_field(
                LINE_DEF_FIELDS@[1],
                self.to_idx as int,
            ) + int_field(LINE_DEF_FIELDS@[2], self.left_side_idx as int) + when(
                self.right_side_idx is Some,
                int_field(LINE_DEF_FIELDS@[3], self.right_side_idx->Some_0 as int),
            ) + line_flags_spec(self.flags) + line_special_spec(self.special) + line_triggers_spec(
                self.trigger_flags,
            ),
        )
    }

    fn write<W: UdmfWriter>(&self, writer: &mut W) -> (r: Result<(), WriteError>) {
        let mut fields = no_fields();
        push_int(&mut fields, LINE_DEF_FIELDS[0], self.from_idx as i32);
        push_int(&mut fields, LINE_DEF_FIELDS[1], self.to_idx as i32);
        push_int(&mut fields, LINE_DEF_FIELDS[2], self.left_side_idx as i32);
        match self.right_side_idx {
            Some(right) => {
                push_int(&mut fields, LINE_DEF_FIELDS[3], right as i32);
            },
            None => {
                assert(fields_view(fields@) =~= fields_view(fields@) + Seq::empty());
            },
        }
        push_line_flags(&mut fields, &self.flags);
        push_line_special(&mut fields, &self.special);
        push_line_triggers(&mut fields, &self.trigger_flags);
        write_block(writer, BLOCKS[1], &fields);
        Ok(())
    }
}

} // verus!
