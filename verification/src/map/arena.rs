//! The storage of the level graph: one slot map for each kind of entity, and the keys
//! that name the entries.
//!
//! The slot maps are those of the `slotmap` crate. Verus does not look inside them: what a
//! map holds is named by a specification function, and each call into the crate is a small
//! function whose contract says over those names what the crate's code does. Those
//! contracts are believed, not proved.

use slotmap::{DefaultKey, SecondaryMap, SlotMap};
use vstd::prelude::*;

use crate::map::line_def::LineDef;
use crate::map::sector::Sector;
use crate::map::side_def::SideDef;
use crate::map::thing::Thing;
use crate::map::vertex::Vertex;

verus! {

/// `slotmap::DefaultKey`, the key type of the slot maps. Nothing is said of what a key
/// holds: a key is known by its number only.
#[verifier::external_type_specification]
#[verifier::external_body]
pub struct ExDefaultKey(DefaultKey);

/// The number that `slotmap::KeyData::as_ffi` gives for a key: two keys are the same key
/// where their numbers are equal. The low 32 bits are the index of the key's slot.
pub uninterp spec fn slot_key_id(k: DefaultKey) -> u64;

/// The index of the slot that the key with this number names.
pub open spec fn slot_of(id: u64) -> u64 {
    id & 0xffff_ffff
}

/// The slot index that no key of an entry has: that of the null key.
pub const NULL_SLOT: u64 = 0xffff_ffff;

/// The most entries that a slot map takes.
pub const SLOT_LIMIT: usize = 0xffff_fffe;

/// What holds of the keys of the entries of any one slot map: each names a slot of its
/// own, and none is the null key.
pub open spec fn well_keyed(ids: Seq<u64>) -> bool {
    &&& forall|i: int| 0 <= i < ids.len() ==> slot_of(#[trigger] ids[i]) != NULL_SLOT
    &&& forall|i: int, j: int|
        0 <= i < j < ids.len() ==> slot_of(#[trigger] ids[i]) != slot_of(#[trigger] ids[j])
}

/// `slotmap::KeyData::as_ffi` on the data of a key: the number that stands for the key.
#[verifier::external_body]
fn key_id(k: DefaultKey) -> (id: u64)
    ensures
        id == slot_key_id(k),
{
    slotmap::Key::data(&k).as_ffi()
}

/// The key of a vertex in a level graph.
#[derive(Clone, Copy, Debug, Default, PartialEq, Eq, Hash)]
pub struct VertexKey {
    pub key: DefaultKey,
}

impl View for VertexKey {
    type V = u64;

    /// The number that stands for the key.
    open spec fn view(&self) -> u64 {
        slot_key_id(self.key)
    }
}

impl VertexKey {
    /// The number that stands for the key.
    pub fn id(&self) -> (id: u64)
        ensures
            id == self@,
    {
        key_id(self.key)
    }
}

/// The key of a line in a level graph.
#[derive(Clone, Copy, Debug, Default, PartialEq, Eq, Hash)]
pub struct LineDefKey {
    pub key: DefaultKey,
}

impl View for LineDefKey {
    type V = u64;

    /// The number that stands for the key.
    open spec fn view(&self) -> u64 {
        slot_key_id(self.key)
    }
}

impl LineDefKey {
    /// The number that stands for the key.
    pub fn id(&self) -> (id: u64)
        ensures
            id == self@,
    {
        key_id(self.key)
    }
}

/// The key of a sector in a level graph.
#[derive(Clone, Copy, Debug, Default, PartialEq, Eq, Hash)]
pub struct SectorKey {
    pub key: DefaultKey,
}

impl View for SectorKey {
    type V = u64;

    /// The number that stands for the key.
    open spec fn view(&self) -> u64 {
        slot_key_id(self.key)
    }
}

impl SectorKey {
    /// The number that stands for the key.
    pub fn id(&self) -> (id: u64)
        ensures
            id == self@,
    {
        key_id(self.key)
    }
}

/// The key of a side in a level graph.
#[derive(Clone, Copy, Debug, Default, PartialEq, Eq, Hash)]
pub struct SideDefKey {
    pub key: DefaultKey,
}

impl View for SideDefKey {
    type V = u64;

    /// The number that stands for the key.
    open spec fn view(&self) -> u64 {
        slot_key_id(self.key)
    }
}

impl SideDefKey {
    /// The number that stands for the key.
    pub fn id(&self) -> (id: u64)
        ensures
            id == self@,
    {
        key_id(self.key)
    }
}

/// The key of a thing in a level graph.
#[derive(Clone, Copy, Debug, Default, PartialEq, Eq, Hash)]
pub struct ThingKey {
    pub key: DefaultKey,
}

impl View for ThingKey {
    type V = u64;

    /// The number that stands for the key.
    open spec fn view(&self) -> u64 {
        slot_key_id(self.key)
    }
}

impl ThingKey {
    /// The number that stands for the key.
    pub fn id(&self) -> (id: u64)
        ensures
            id == self@,
    {
        key_id(self.key)
    }
}

/// The vertexes of a level graph, each under a key, in the order of their slots.
#[verifier::external_body]
#[derive(Debug)]
pub struct VertexMap {
    slots: SlotMap<DefaultKey, Vertex>,
}

/// The entries of the map in the order in which it is walked, each key as its number.
pub uninterp spec fn vertex_map_entries(m: VertexMap) -> Seq<(u64, Vertex)>;

/// The number of slots of the map that were filled once and are empty now.
pub uninterp spec fn vertex_map_vacant(m: VertexMap) -> nat;

impl View for VertexMap {
    type V = Seq<(u64, Vertex)>;

    open spec fn view(&self) -> Seq<(u64, Vertex)> {
        vertex_map_entries(*self)
    }
}

impl VertexMap {
    /// The numbers of the keys of the entries, in the order in which the map is walked.
    pub open spec fn ids(self) -> Seq<u64> {
        Seq::new(self@.len(), |i: int| self@[i].0)
    }

    /// Whether every slot that was ever filled is still filled.
    pub open spec fn dense(self) -> bool {
        vertex_map_vacant(self) == 0
    }

    /// `SlotMap::with_key`: a map without entries, none of whose slots was ever filled.
    #[verifier::external_body]
    pub(crate) fn new() -> (m: Self)
        ensures
            vertex_map_entries(m) == Seq::<(u64, Vertex)>::empty(),
            vertex_map_vacant(m) == 0,
    {
        VertexMap { slots: SlotMap::with_key() }
    }

    /// `SlotMap::len`: the number of entries.
    #[verifier::external_body]
    pub(crate) fn len(&self) -> (n: usize)
        ensures
            n == vertex_map_entries(*self).len(),
    {
        self.slots.len()
    }

    /// `SlotMap::insert` on a map without an empty slot: the value goes into a new slot
    /// behind all others, so it is walked last, and the index of that slot is the number
    /// of entries before the call plus one. The outside function panics once a map has
    /// `u32::MAX - 1` slots.
    #[verifier::external_body]
    pub(crate) fn insert(&mut self, value: Vertex) -> (k: VertexKey)
        requires
            old(self).dense(),
            old(self)@.len() < SLOT_LIMIT,
        ensures
            vertex_map_entries(*final(self)) == vertex_map_entries(*old(self)).push((k@, value)),
            vertex_map_vacant(*final(self)) == 0,
            slot_of(k@) == vertex_map_entries(*old(self)).len() + 1,
    {
        VertexKey { key: self.slots.insert(value) }
    }

    /// `SlotMap::iter`, each entry copied out: the entries in the order of their slots.
    /// Every key that the walk yields names the slot it was found in, and no slot has
    /// the index of the null key.
    #[verifier::external_body]
    pub(crate) fn entries(&self) -> (r: Vec<(VertexKey, Vertex)>)
        ensures
            r@.len() == vertex_map_entries(*self).len(),
            forall|i: int|
                0 <= i < r@.len() ==> (#[trigger] r@[i]).0@ == vertex_map_entries(*self)[i].0
                    && r@[i].1 == vertex_map_entries(*self)[i].1,
            well_keyed(Seq::new(r@.len(), |i: int| r@[i].0@)),
    {
        self.slots.iter().map(|(key, value)| (VertexKey { key }, *value)).collect()
    }
}

/// The lines of a level graph, each under a key, in the order of their slots.
#[verifier::external_body]
#[derive(Debug)]
pub struct LineDefMap {
    slots: SlotMap<DefaultKey, LineDef>,
}

/// The entries of the map in the order in which it is walked, each key as its number.
pub uninterp spec fn line_def_map_entries(m: LineDefMap) -> Seq<(u64, LineDef)>;

/// The number of slots of the map that were filled once and are empty now.
pub uninterp spec fn line_def_map_vacant(m: LineDefMap) -> nat;

impl View for LineDefMap {
    type V = Seq<(u64, LineDef)>;

    open spec fn view(&self) -> Seq<(u64, LineDef)> {
        line_def_map_entries(*self)
    }
}

impl LineDefMap {
    /// The numbers of the keys of the entries, in the order in which the map is walked.
    pub open spec fn ids(self) -> Seq<u64> {
        Seq::new(self@.len(), |i: int| self@[i].0)
    }

    /// Whether every slot that was ever filled is still filled.
    pub open spec fn dense(self) -> bool {
        line_def_map_vacant(self) == 0
    }

    /// `SlotMap::with_key`: a map without entries, none of whose slots was ever filled.
    #[verifier::external_body]
    pub(crate) fn new() -> (m: Self)
        ensures
            line_def_map_entries(m) == Seq::<(u64, LineDef)>::empty(),
            line_def_map_vacant(m) == 0,
    {
        LineDefMap { slots: SlotMap::with_key() }
    }

    /// `SlotMap::len`: the number of entries.
    #[verifier::external_body]
    pub(crate) fn len(&self) -> (n: usize)
        ensures
            n == line_def_map_entries(*self).len(),
    {
        self.slots.len()
    }

    /// `SlotMap::insert` on a map without an empty slot: the value goes into a new slot
    /// behind all others, so it is walked last, and the index of that slot is the number
    /// of entries before the call plus one. The outside function panics once a map has
    /// `u32::MAX - 1` slots.
    #[verifier::external_body]
    pub(crate) fn insert(&mut self, value: LineDef) -> (k: LineDefKey)
        requires
            old(self).dense(),
            old(self)@.len() < SLOT_LIMIT,
        ensures
            line_def_map_entries(*final(self)) == line_def_map_entries(*old(self)).push((k@, value)),
            line_def_map_vacant(*final(self)) == 0,
            slot_of(k@) == line_def_map_entries(*old(self)).len() + 1,
    {
        LineDefKey { key: self.slots.insert(value) }
    }

    /// `SlotMap::iter`, each entry copied out: the entries in the order of their slots.
    /// Every key that the walk yields names the slot it was found in, and no slot has
    /// the index of the null key.
    #[verifier::external_body]
    pub(crate) fn entries(&self) -> (r: Vec<(LineDefKey, LineDef)>)
        ensures
            r@.len() == line_def_map_entries(*self).len(),
            forall|i: int|
                0 <= i < r@.len() ==> (#[trigger] r@[i]).0@ == line_def_map_entries(*self)[i].0
                    && r@[i].1 == line_def_map_entries(*self)[i].1,
            well_keyed(Seq::new(r@.len(), |i: int| r@[i].0@)),
    {
        self.slots.iter().map(|(key, value)| (LineDefKey { key }, *value)).collect()
    }
}

/// The sectors of a level graph, each under a key, in the order of their slots.
#[verifier::external_body]
#[derive(Debug)]
pub struct SectorMap {
    slots: SlotMap<DefaultKey, Sector>,
}

/// The entries of the map in the order in which it is walked, each key as its number.
pub uninterp spec fn sector_map_entries(m: SectorMap) -> Seq<(u64, Sector)>;

/// The number of slots of the map that were filled once and are empty now.
pub uninterp spec fn sector_map_vacant(m: SectorMap) -> nat;

impl View for SectorMap {
    type V = Seq<(u64, Sector)>;

    open spec fn view(&self) -> Seq<(u64, Sector)> {
        sector_map_entries(*self)
    }
}

impl SectorMap {
    /// The numbers of the keys of the entries, in the order in which the map is walked.
    pub open spec fn ids(self) -> Seq<u64> {
        Seq::new(self@.len(), |i: int| self@[i].0)
    }

    /// Whether every slot that was ever filled is still filled.
    pub open spec fn dense(self) -> bool {
        sector_map_vacant(self) == 0
    }

    /// `SlotMap::with_key`: a map without entries, none of whose slots was ever filled.
    #[verifier::external_body]
    pub(crate) fn new() -> (m: Self)
        ensures
            sector_map_entries(m) == Seq::<(u64, Sector)>::empty(),
            sector_map_vacant(m) == 0,
    {
        SectorMap { slots: SlotMap::with_key() }
    }

    /// `SlotMap::len`: the number of entries.
    #[verifier::external_body]
    pub(crate) fn len(&self) -> (n: usize)
        ensures
            n == sector_map_entries(*self).len(),
    {
        self.slots.len()
    }

    /// `SlotMap::insert` on a map without an empty slot: the value goes into a new slot
    /// behind all others, so it is walked last, and the index of that slot is the number
    /// of entries before the call plus one. The outside function panics once a map has
    /// `u32::MAX - 1` slots.
    #[verifier::external_body]
    pub(crate) fn insert(&mut self, value: Sector) -> (k: SectorKey)
        requires
            old(self).dense(),
            old(self)@.len() < SLOT_LIMIT,
        ensures
            sector_map_entries(*final(self)) == sector_map_entries(*old(self)).push((k@, value)),
            sector_map_vacant(*final(self)) == 0,
            slot_of(k@) == sector_map_entries(*old(self)).len() + 1,
    {
        SectorKey { key: self.slots.insert(value) }
    }

    /// `SlotMap::iter`, each entry copied out: the entries in the order of their slots.
    /// Every key that the walk yields names the slot it was found in, and no slot has
    /// the index of the null key.
    #[verifier::external_body]
    pub(crate) fn entries(&self) -> (r: Vec<(SectorKey, Sector)>)
        ensures
            r@.len() == sector_map_entries(*self).len(),
            forall|i: int|
                0 <= i < r@.len() ==> (#[trigger] r@[i]).0@ == sector_map_entries(*self)[i].0
                    && r@[i].1 == sector_map_entries(*self)[i].1,
            well_keyed(Seq::new(r@.len(), |i: int| r@[i].0@)),
    {
        self.slots.iter().map(|(key, value)| (SectorKey { key }, *value)).collect()
    }
}

/// The sides of a level graph, each under a key, in the order of their slots.
#[verifier::external_body]
#[derive(Debug)]
pub struct SideDefMap {
    slots: SlotMap<DefaultKey, SideDef>,
}

/// The entries of the map in the order in which it is walked, each key as its number.
pub uninterp spec fn side_def_map_entries(m: SideDefMap) -> Seq<(u64, SideDef)>;

/// The number of slots of the map that were filled once and are empty now.
pub uninterp spec fn side_def_map_vacant(m: SideDefMap) -> nat;

impl View for SideDefMap {
    type V = Seq<(u64, SideDef)>;

    open spec fn view(&self) -> Seq<(u64, SideDef)> {
        side_def_map_entries(*self)
    }
}

impl SideDefMap {
    /// The numbers of the keys of the entries, in the order in which the map is walked.
    pub open spec fn ids(self) -> Seq<u64> {
        Seq::new(self@.len(), |i: int| self@[i].0)
    }

    /// Whether every slot that was ever filled is still filled.
    pub open spec fn dense(self) -> bool {
        side_def_map_vacant(self) == 0
    }

    /// `SlotMap::with_key`: a map without entries, none of whose slots was ever filled.
    #[verifier::external_body]
    pub(crate) fn new() -> (m: Self)
        ensures
            side_def_map_entries(m) == Seq::<(u64, SideDef)>::empty(),
            side_def_map_vacant(m) == 0,
    {
        SideDefMap { slots: SlotMap::with_key() }
    }

    /// `SlotMap::len`: the number of entries.
    #[verifier::external_body]
    pub(crate) fn len(&self) -> (n: usize)
        ensures
            n == side_def_map_entries(*self).len(),
    {
        self.slots.len()
    }

    /// `SlotMap::insert` on a map without an empty slot: the value goes into a new slot
    /// behind all others, so it is walked last, and the index of that slot is the number
    /// of entries before the call plus one. The outside function panics once a map has
    /// `u32::MAX - 1` slots.
    #[verifier::external_body]
    pub(crate) fn insert(&mut self, value: SideDef) -> (k: SideDefKey)
        requires
            old(self).dense(),
            old(self)@.len() < SLOT_LIMIT,
        ensures
            side_def_map_entries(*final(self)) == side_def_map_entries(*old(self)).push((k@, value)),
            side_def_map_vacant(*final(self)) == 0,
            slot_of(k@) == side_def_map_entries(*old(self)).len() + 1,
    {
        SideDefKey { key: self.slots.insert(value) }
    }

    /// `SlotMap::iter`, each entry copied out: the entries in the order of their slots.
    /// Every key that the walk yields names the slot it was found in, and no slot has
    /// the index of the null key.
    #[verifier::external_body]
    pub(crate) fn entries(&self) -> (r: Vec<(SideDefKey, SideDef)>)
        ensures
            r@.len() == side_def_map_entries(*self).len(),
            forall|i: int|
                0 <= i < r@.len() ==> (#[trigger] r@[i]).0@ == side_def_map_entries(*self)[i].0
                    && r@[i].1 == side_def_map_entries(*self)[i].1,
            well_keyed(Seq::new(r@.len(), |i: int| r@[i].0@)),
    {
        self.slots.iter().map(|(key, value)| (SideDefKey { key }, *value)).collect()
    }
}

/// The things of a level graph, each under a key, in the order of their slots.
#[verifier::external_body]
#[derive(Debug)]
pub struct ThingMap {
    slots: SlotMap<DefaultKey, Thing>,
}

/// The entries of the map in the order in which it is walked, each key as its number.
pub uninterp spec fn thing_map_entries(m: ThingMap) -> Seq<(u64, Thing)>;

/// The number of slots of the map that were filled once and are empty now.
pub uninterp spec fn thing_map_vacant(m: ThingMap) -> nat;

impl View for ThingMap {
    type V = Seq<(u64, Thing)>;

    open spec fn view(&self) -> Seq<(u64, Thing)> {
        thing_map_entries(*self)
    }
}

impl ThingMap {
    /// The numbers of the keys of the entries, in the order in which the map is walked.
    pub open spec fn ids(self) -> Seq<u64> {
        Seq::new(self@.len(), |i: int| self@[i].0)
    }

    /// Whether every slot that was ever filled is still filled.
    pub open spec fn dense(self) -> bool {
        thing_map_vacant(self) == 0
    }

    /// `SlotMap::with_key`: a map without entries, none of whose slots was ever filled.
    #[verifier::external_body]
    pub(crate) fn new() -> (m: Self)
        ensures
            thing_map_entries(m) == Seq::<(u64, Thing)>::empty(),
            thing_map_vacant(m) == 0,
    {
        ThingMap { slots: SlotMap::with_key() }
    }

    /// `SlotMap::len`: the number of entries.
    #[verifier::external_body]
    pub(crate) fn len(&self) -> (n: usize)
        ensures
            n == thing_map_entries(*self).len(),
    {
        self.slots.len()
    }

    /// `SlotMap::insert` on a map without an empty slot: the value goes into a new slot
    /// behind all others, so it is walked last, and the index of that slot is the number
    /// of entries before the call plus one. The outside function panics once a map has
    /// `u32::MAX - 1` slots.
    #[verifier::external_body]
    pub(crate) fn insert(&mut self, value: Thing) -> (k: ThingKey)
        requires
            old(self).dense(),
            old(self)@.len() < SLOT_LIMIT,
        ensures
            thing_map_entries(*final(self)) == thing_map_entries(*old(self)).push((k@, value)),
            thing_map_vacant(*final(self)) == 0,
            slot_of(k@) == thing_map_entries(*old(self)).len() + 1,
    {
        ThingKey { key: self.slots.insert(value) }
    }

    /// `SlotMap::iter`, each entry copied out: the entries in the order of their slots.
    /// Every key that the walk yields names the slot it was found in, and no slot has
    /// the index of the null key.
    #[verifier::external_body]
    pub(crate) fn entries(&self) -> (r: Vec<(ThingKey, Thing)>)
        ensures
            r@.len() == thing_map_entries(*self).len(),
            forall|i: int|
                0 <= i < r@.len() ==> (#[trigger] r@[i]).0@ == thing_map_entries(*self)[i].0
                    && r@[i].1 == thing_map_entries(*self)[i].1,
            well_keyed(Seq::new(r@.len(), |i: int| r@[i].0@)),
    {
        self.slots.iter().map(|(key, value)| (ThingKey { key }, *value)).collect()
    }
}

/// Positions by key: the table through which a graph is turned back into a level file.
#[verifier::external_body]
#[derive(Debug)]
pub struct IndexTable {
    slots: SecondaryMap<DefaultKey, u16>,
}

/// The position that the table holds for each key, the key as its number.
pub uninterp spec fn index_table_entries(t: IndexTable) -> Map<u64, u16>;

impl View for IndexTable {
    type V = Map<u64, u16>;

    open spec fn view(&self) -> Map<u64, u16> {
        index_table_entries(*self)
    }
}

impl IndexTable {
    /// `SecondaryMap::with_capacity`: a table without entries. The outside function
    /// allocates one slot more than `capacity`.
    #[verifier::external_body]
    pub(crate) fn with_capacity(capacity: usize) -> (t: Self)
        requires
            capacity <= u16::MAX,
        ensures
            forall|id: u64| !(#[trigger] index_table_entries(t).contains_key(id)),
    {
        IndexTable { slots: SecondaryMap::with_capacity(capacity) }
    }

    /// `SecondaryMap::insert` for a key that is not the null key, into a table that holds
    /// no other key of the same slot: the table then holds `value` for the key, and what it
    /// held for other keys stays. (For a null key the outside function does nothing, and
    /// between two keys of one slot it keeps the newer.)
    #[verifier::external_body]
    pub(crate) fn insert(&mut self, key: DefaultKey, value: u16)
        requires
            slot_of(slot_key_id(key)) != NULL_SLOT,
            forall|id: u64| #[trigger]
                old(self)@.contains_key(id) && slot_of(id) == slot_of(slot_key_id(key)) ==> id
                    == slot_key_id(key),
        ensures
            index_table_entries(*final(self)) == index_table_entries(*old(self)).insert(
                slot_key_id(key),
                value,
            ),
    {
        self.slots.insert(key, value);
    }

    /// `SecondaryMap::get`, the value copied out: what the table holds for the key, if
    /// anything.
    #[verifier::external_body]
    pub(crate) fn get(&self, key: DefaultKey) -> (r: Option<u16>)
        ensures
            r == if index_table_entries(*self).contains_key(slot_key_id(key)) {
                Some(index_table_entries(*self)[slot_key_id(key)])
            } else {
                None
            },
    {
        self.slots.get(key).copied()
    }
}

} // verus!
