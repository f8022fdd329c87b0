//! The two forms of a level and the way from one to the other.
//!
//! [`RawMap::link`] checks every position by which an entity of a level file names
//! another and turns the lists into a graph; [`LinkedMap::unlink`] turns a graph back into
//! lists.

use vstd::prelude::*;

use crate::map::arena;
use crate::map::arena::{
    well_keyed,
    IndexTable,
    LineDefKey,
    LineDefMap,
    SectorKey,
    SectorMap,
    SideDefKey,
    SideDefMap,
    ThingKey,
    ThingMap,
    VertexKey,
    VertexMap,
    SLOT_LIMIT,
};
use crate::map::line_def::{LineDef, RawLineDef};
use crate::map::sector::Sector;
use crate::map::side_def::{RawSideDef, SideDef};
use crate::map::thing::Thing;
use crate::map::vertex::Vertex;
use crate::string8::String8;

verus! {

/// The kinds of entity that a level is made of.
#[derive(Clone, Copy, Debug, PartialEq, Eq, Structural)]
pub enum EntityKind {
    Vertex,
    LineDef,
    Sector,
    SideDef,
    Thing,
}

/// The field of a side that names its sector.
pub const FIELD_SECTOR: &'static str = "sector";

/// The field of a line that names the vertex it starts at.
pub const FIELD_FROM: &'static str = "from";

/// The field of a line that names the vertex it ends at.
pub const FIELD_TO: &'static str = "to";

/// The field of a line that names its left side.
pub const FIELD_LEFT_SIDE: &'static str = "left_side";

/// The field of a line that names its right side.
pub const FIELD_RIGHT_SIDE: &'static str = "right_side";

/// The most entities of one kind that a level file holds.
pub const INDEX_LIMIT: usize = 0xffff;

/// Why a level file does not make a level graph.
#[derive(Clone, Copy, Debug, PartialEq, Eq)]
pub enum LinkError {
    /// An entity names another by a position at which there is none.
    IndexOutOfRange {
        referrer: EntityKind,
        referrer_index: usize,
        field: &'static str,
        referee: EntityKind,
        referee_index: u16,
    },
}

/// Why a level graph does not make a level file.
#[derive(Clone, Copy, Debug, PartialEq, Eq)]
pub enum UnlinkError {
    /// An entity names another by a key under which the graph holds none.
    InvalidKey { referrer: EntityKind, referrer_index: usize, field: &'static str, referee: EntityKind },
    /// The graph holds more entities of a kind than a position of sixteen bits can tell
    /// apart.
    IndexTooLarge { entity_kind: EntityKind },
}

/// A level as a level file holds it: a list for each kind of entity, in which an entity
/// names another by its position.
#[derive(Clone, Debug, PartialEq, Eq)]
pub struct RawMap {
    pub name: String8,
    pub vertexes: Vec<Vertex>,
    pub line_defs: Vec<RawLineDef>,
    pub sectors: Vec<Sector>,
    pub side_defs: Vec<RawSideDef>,
    pub things: Vec<Thing>,
}

/// What a [`RawMap`] holds.
pub struct RawMapView {
    pub name: String8,
    pub vertexes: Seq<Vertex>,
    pub line_defs: Seq<RawLineDef>,
    pub sectors: Seq<Sector>,
    pub side_defs: Seq<RawSideDef>,
    pub things: Seq<Thing>,
}

impl View for RawMap {
    type V = RawMapView;

    open spec fn view(&self) -> RawMapView {
        RawMapView {
            name: self.name,
            vertexes: self.vertexes@,
            line_defs: self.line_defs@,
            sectors: self.sectors@,
            side_defs: self.side_defs@,
            things: self.things@,
        }
    }
}

/// A level as a graph: the entities of each kind under keys, in the order in which they
/// are walked.
#[derive(Debug)]
pub struct LinkedMap {
    name: String8,
    vertexes: VertexMap,
    line_defs: LineDefMap,
    sectors: SectorMap,
    side_defs: SideDefMap,
    things: ThingMap,
}

/// What a [`LinkedMap`] holds: for each kind the entities in the order in which they are
/// walked, each with the number of its key.
pub struct MapView {
    pub name: String8,
    pub vertexes: Seq<(u64, Vertex)>,
    pub line_defs: Seq<(u64, LineDef)>,
    pub sectors: Seq<(u64, Sector)>,
    pub side_defs: Seq<(u64, SideDef)>,
    pub things: Seq<(u64, Thing)>,
}

/// The numbers of the keys of `entries`, in order.
pub open spec fn ids_of<V>(entries: Seq<(u64, V)>) -> Seq<u64> {
    Seq::new(entries.len(), |i: int| entries[i].0)
}

/// Whether no number stands twice in `ids`.
pub open spec fn distinct(ids: Seq<u64>) -> bool {
    forall|i: int, j: int| 0 <= i < j < ids.len() ==> ids[i] != ids[j]
}

/// Whether `id` stands at `index` in `ids`.
pub open spec fn stands_at(ids: Seq<u64>, id: u64, index: int) -> bool {
    0 <= index < ids.len() && ids[index] == id
}

/// The place of `id` in `ids`, if it stands there.
pub open spec fn key_position(ids: Seq<u64>, id: u64) -> Option<int> {
    if exists|i: int| stands_at(ids, id, i) {
        Some(choose|i: int| stands_at(ids, id, i))
    } else {
        None
    }
}

/// Where no number stands twice, the place of a number is the place it stands at.
pub proof fn lemma_key_position(ids: Seq<u64>, id: u64, index: int)
    requires
        distinct(ids),
        stands_at(ids, id, index),
    ensures
        key_position(ids, id) == Some(index),
{
    let chosen = choose|i: int| stands_at(ids, id, i);
    assert(stands_at(ids, id, chosen));
}

/// A number that stands nowhere has no place.
pub proof fn lemma_key_absent(ids: Seq<u64>, id: u64)
    requires
        forall|i: int| 0 <= i < ids.len() ==> ids[i] != id,
    ensures
        key_position(ids, id) is None,
{
}

/// Keys that name slots of their own are no key twice.
pub proof fn lemma_well_keyed_distinct(ids: Seq<u64>)
    requires
        well_keyed(ids),
    ensures
        distinct(ids),
{
}

/// The error for the side at `index`, where it names a sector that is not among the
/// `sectors` sectors of the level.
pub open spec fn side_error(side: RawSideDef, index: int, sectors: nat) -> Option<LinkError> {
    if side.sector_idx >= sectors {
        Some(
            LinkError::IndexOutOfRange {
                referrer: EntityKind::SideDef,
                referrer_index: index as usize,
                field: FIELD_SECTOR,
                referee: EntityKind::Sector,
                referee_index: side.sector_idx,
            },
        )
    } else {
        None
    }
}

/// The error for a line at `index` whose field `field` names the entity at `referee_index`
/// of the kind `referee`.
pub open spec fn line_reference_error(
    index: int,
    field: &'static str,
    referee: EntityKind,
    referee_index: u16,
) -> LinkError {
    LinkError::IndexOutOfRange {
        referrer: EntityKind::LineDef,
        referrer_index: index as usize,
        field,
        referee,
        referee_index,
    }
}

/// The error for the line at `index`, where it names a vertex or a side that is not among
/// those of the level: that of the first such field, in the order from, to, left side,
/// right side.
pub open spec fn line_error(line: RawLineDef, index: int, vertexes: nat, sides: nat) -> Option<
    LinkError,
> {
    if line.from_idx >= vertexes {
        Some(line_reference_error(index, FIELD_FROM, EntityKind::Vertex, line.from_idx))
    } else if line.to_idx >= vertexes {
        Some(line_reference_error(index, FIELD_TO, EntityKind::Vertex, line.to_idx))
    } else if line.left_side_idx >= sides {
        Some(line_reference_error(index, FIELD_LEFT_SIDE, EntityKind::SideDef, line.left_side_idx))
    } else {
        match line.right_side_idx {
            Some(right) if right >= sides => Some(
                line_reference_error(index, FIELD_RIGHT_SIDE, EntityKind::SideDef, right),
            ),
            _ => None,
        }
    }
}

/// The error of the first of the first `n` sides that has one.
pub open spec fn first_side_error(sides: Seq<RawSideDef>, sectors: nat, n: nat) -> Option<LinkError>
    decreases n,
{
    if n == 0 {
        None
    } else {
        match first_side_error(sides, sectors, (n - 1) as nat) {
            Some(e) => Some(e),
            None => side_error(sides[n - 1], n - 1, sectors),
        }
    }
}

/// The error of the first of the first `n` lines that has one.
pub open spec fn first_line_error(lines: Seq<RawLineDef>, vertexes: nat, sides: nat, n: nat) -> Option<
    LinkError,
>
    decreases n,
{
    if n == 0 {
        None
    } else {
        match first_line_error(lines, vertexes, sides, (n - 1) as nat) {
            Some(e) => Some(e),
            None => line_error(lines[n - 1], n - 1, vertexes, sides),
        }
    }
}

impl RawMapView {
    /// Why the level makes no graph, if it makes none: the error of the first side that
    /// names a sector that is not there, or else that of the first line that names a vertex
    /// or a side that is not there.
    pub open spec fn link_error(self) -> Option<LinkError> {
        match first_side_error(self.side_defs, self.sectors.len(), self.side_defs.len()) {
            Some(e) => Some(e),
            None => first_line_error(
                self.line_defs,
                self.vertexes.len(),
                self.side_defs.len(),
                self.line_defs.len(),
            ),
        }
    }

    /// Whether the level holds no more entities of any kind than a level file can.
    pub open spec fn fits(self) -> bool {
        &&& self.vertexes.len() <= INDEX_LIMIT
        &&& self.line_defs.len() <= INDEX_LIMIT
        &&& self.sectors.len() <= INDEX_LIMIT
        &&& self.side_defs.len() <= INDEX_LIMIT
        &&& self.things.len() <= INDEX_LIMIT
    }
}

/// Whether `entries` are the entities `raw`, in their order.
pub open spec fn holds<V>(entries: Seq<(u64, V)>, raw: Seq<V>) -> bool {
    &&& entries.len() == raw.len()
    &&& forall|i: int| 0 <= i < raw.len() ==> (#[trigger] entries[i]).1 == raw[i]
}

/// Whether `side` is `raw` with the sector named by its key.
pub open spec fn side_linked(raw: RawSideDef, side: SideDef, sector_ids: Seq<u64>) -> bool {
    &&& raw.sector_idx < sector_ids.len()
    &&& side.sector@ == sector_ids[raw.sector_idx as int]
    &&& side.offset == raw.offset
    &&& side.upper_texture == raw.upper_texture
    &&& side.middle_texture == raw.middle_texture
    &&& side.lower_texture == raw.lower_texture
}

/// Whether `line` is `raw` with the vertexes and sides named by their keys.
pub open spec fn line_linked(
    raw: RawLineDef,
    line: LineDef,
    vertex_ids: Seq<u64>,
    side_ids: Seq<u64>,
) -> bool {
    &&& raw.from_idx < vertex_ids.len()
    &&& raw.to_idx < vertex_ids.len()
    &&& raw.left_side_idx < side_ids.len()
    &&& line.from@ == vertex_ids[raw.from_idx as int]
    &&& line.to@ == vertex_ids[raw.to_idx as int]
    &&& line.left_side@ == side_ids[raw.left_side_idx as int]
    &&& match raw.right_side_idx {
        Some(right) => right < side_ids.len() && match line.right_side {
            Some(key) => key@ == side_ids[right as int],
            None => false,
        },
        None => line.right_side is None,
    }
    &&& line.flags == raw.flags
    &&& line.special == raw.special
    &&& line.trigger_flags == raw.trigger_flags
}

/// Whether `sides` are the sides `raw`, in their order, each with its sector named by its
/// key.
pub open spec fn sides_linked(
    sides: Seq<(u64, SideDef)>,
    raw: Seq<RawSideDef>,
    sector_ids: Seq<u64>,
) -> bool {
    &&& sides.len() == raw.len()
    &&& forall|i: int| 0 <= i < raw.len() ==> side_linked(raw[i], (#[trigger] sides[i]).1, sector_ids)
}

/// Whether `lines` are the lines `raw`, in their order, each with its vertexes and sides
/// named by their keys.
pub open spec fn lines_linked(
    lines: Seq<(u64, LineDef)>,
    raw: Seq<RawLineDef>,
    vertex_ids: Seq<u64>,
    side_ids: Seq<u64>,
) -> bool {
    &&& lines.len() == raw.len()
    &&& forall|i: int|
        0 <= i < raw.len() ==> line_linked(raw[i], (#[trigger] lines[i]).1, vertex_ids, side_ids)
}

impl MapView {
    /// Whether the graph holds the level `raw`: the entities of each kind in the order of
    /// the level, every position replaced by the key of the entity at that position, and
    /// no key given twice.
    pub open spec fn links(self, raw: RawMapView) -> bool {
        &&& self.name == raw.name
        &&& holds(self.vertexes, raw.vertexes)
        &&& holds(self.sectors, raw.sectors)
        &&& holds(self.things, raw.things)
        &&& sides_linked(self.side_defs, raw.side_defs, ids_of(self.sectors))
        &&& lines_linked(self.line_defs, raw.line_defs, ids_of(self.vertexes), ids_of(self.side_defs))
        &&& distinct(ids_of(self.vertexes))
        &&& distinct(ids_of(self.sectors))
        &&& distinct(ids_of(self.side_defs))
    }

    /// The kind of which the graph holds more entities than a level file can: the first
    /// such kind, in the order vertex, line, sector, side, thing.
    pub open spec fn too_large(self) -> Option<EntityKind> {
        if self.vertexes.len() > INDEX_LIMIT {
            Some(EntityKind::Vertex)
        } else if self.line_defs.len() > INDEX_LIMIT {
            Some(EntityKind::LineDef)
        } else if self.sectors.len() > INDEX_LIMIT {
            Some(EntityKind::Sector)
        } else if self.side_defs.len() > INDEX_LIMIT {
            Some(EntityKind::SideDef)
        } else if self.things.len() > INDEX_LIMIT {
            Some(EntityKind::Thing)
        } else {
            None
        }
    }
}

/// The kinds of key, as far as linking goes: a key has a number.
pub trait EntityKey: Copy {
    spec fn number(self) -> u64;
}

impl EntityKey for VertexKey {
    open spec fn number(self) -> u64 {
        self@
    }
}

impl EntityKey for SectorKey {
    open spec fn number(self) -> u64 {
        self@
    }
}

impl EntityKey for SideDefKey {
    open spec fn number(self) -> u64 {
        self@
    }
}

/// Whether `keys` are the keys of `entries`, in order.
pub open spec fn keys_of<K: EntityKey, V>(keys: Seq<K>, entries: Seq<(u64, V)>) -> bool {
    &&& keys.len() == entries.len()
    &&& forall|i: int| 0 <= i < keys.len() ==> (#[trigger] keys[i]).number() == entries[i].0
}

/// Whether the key at each place of `entries` names the slot after as many slots.
pub open spec fn in_slot_order<V>(entries: Seq<(u64, V)>) -> bool {
    forall|i: int| 0 <= i < entries.len() ==> arena::slot_of((#[trigger] entries[i]).0) == i + 1
}

/// Keys that name one slot after the other are no key twice.
proof fn lemma_slot_order_distinct<V>(entries: Seq<(u64, V)>)
    requires
        in_slot_order(entries),
    ensures
        distinct(ids_of(entries)),
{
    assert forall|i: int, j: int| 0 <= i < j < entries.len() implies ids_of(entries)[i] != ids_of(
        entries,
    )[j] by {
        assert(arena::slot_of(entries[i].0) == i + 1);
        assert(arena::slot_of(entries[j].0) == j + 1);
    }
}

/// A map that holds `raw` in order, with the key of each entry.
fn link_vertexes(raw: &Vec<Vertex>) -> (r: (VertexMap, Vec<VertexKey>))
    requires
        raw@.len() < SLOT_LIMIT,
    ensures
        holds(r.0@, raw@),
        keys_of(r.1@, r.0@),
        in_slot_order(r.0@),
        r.0.dense(),
{
    let mut map = VertexMap::new();
    let mut keys: Vec<VertexKey> = Vec::new();
    let mut i: usize = 0;
    while i < raw.len()
        invariant
            i <= raw.len(),
            raw@.len() < SLOT_LIMIT,
            holds(map@, raw@.subrange(0, i as int)),
            keys_of(keys@, map@),
            in_slot_order(map@),
            map.dense(),
        decreases raw.len() - i,
    {
        let key = map.insert(raw[i]);
        keys.push(key);
        i += 1;
    }
    assert(raw@.subrange(0, i as int) =~= raw@);
    (map, keys)
}

/// A map that holds `raw` in order, with the key of each entry.
fn link_sectors(raw: &Vec<Sector>) -> (r: (SectorMap, Vec<SectorKey>))
    requires
        raw@.len() < SLOT_LIMIT,
    ensures
        holds(r.0@, raw@),
        keys_of(r.1@, r.0@),
        in_slot_order(r.0@),
        r.0.dense(),
{
    let mut map = SectorMap::new();
    let mut keys: Vec<SectorKey> = Vec::new();
    let mut i: usize = 0;
    while i < raw.len()
        invariant
            i <= raw.len(),
            raw@.len() < SLOT_LIMIT,
            holds(map@, raw@.subrange(0, i as int)),
            keys_of(keys@, map@),
            in_slot_order(map@),
            map.dense(),
        decreases raw.len() - i,
    {
        let key = map.insert(raw[i]);
        keys.push(key);
        i += 1;
    }
    assert(raw@.subrange(0, i as int) =~= raw@);
    (map, keys)
}

/// A map that holds `raw` in order.
fn link_things(raw: &Vec<Thing>) -> (map: ThingMap)
    requires
        raw@.len() < SLOT_LIMIT,
    ensures
        holds(map@, raw@),
        in_slot_order(map@),
        map.dense(),
{
    let mut map = ThingMap::new();
    let mut i: usize = 0;
    while i < raw.len()
        invariant
            i <= raw.len(),
            raw@.len() < SLOT_LIMIT,
            holds(map@, raw@.subrange(0, i as int)),
            in_slot_order(map@),
            map.dense(),
        decreases raw.len() - i,
    {
        let _key = map.insert(raw[i]);
        i += 1;
    }
    assert(raw@.subrange(0, i as int) =~= raw@);
    map
}

/// A map that holds the sides `raw` in order, each with the key of its sector, and the key
/// of each entry; the error of the first side that names a sector that is not there.
fn link_side_defs(raw: &Vec<RawSideDef>, sector_keys: &Vec<SectorKey>, sector_ids: Ghost<Seq<u64>>) -> (r:
    Result<(SideDefMap, Vec<SideDefKey>), LinkError>)
    requires
        raw@.len() < SLOT_LIMIT,
        sector_keys@.len() == sector_ids@.len(),
        forall|i: int| 0 <= i < sector_keys@.len() ==> (#[trigger] sector_keys@[i])@ == sector_ids@[i],
    ensures
        match first_side_error(raw@, sector_keys@.len(), raw@.len()) {
            Some(e) => r == Err::<(SideDefMap, Vec<SideDefKey>), LinkError>(e),
            None => r matches Ok(found) && sides_linked(found.0@, raw@, sector_ids@) && keys_of(
                found.1@,
                found.0@,
            ) && in_slot_order(found.0@) && found.0.dense(),
        },
{
    let mut map = SideDefMap::new();
    let mut keys: Vec<SideDefKey> = Vec::new();
    let mut i: usize = 0;
    while i < raw.len()
        invariant
            i <= raw.len(),
            raw@.len() < SLOT_LIMIT,
            sector_keys@.len() == sector_ids@.len(),
            forall|j: int|
                0 <= j < sector_keys@.len() ==> (#[trigger] sector_keys@[j])@ == sector_ids@[j],
            first_side_error(raw@, sector_keys@.len(), i as nat) is None,
            sides_linked(map@, raw@.subrange(0, i as int), sector_ids@),
            keys_of(keys@, map@),
            in_slot_order(map@),
            map.dense(),
        decreases raw.len() - i,
    {
        let side = raw[i];
        let index = side.sector_idx as usize;
        if index >= sector_keys.len() {
            proof {
                lemma_first_side_error(raw@, sector_keys@.len(), i as nat + 1, raw@.len());
            }
            return Err(
                LinkError::IndexOutOfRange {
                    referrer: EntityKind::SideDef,
                    referrer_index: i,
                    field: FIELD_SECTOR,
                    referee: EntityKind::Sector,
                    referee_index: side.sector_idx,
                },
            );
        }
        let key = map.insert(
            SideDef {
                sector: sector_keys[index],
                offset: side.offset,
                upper_texture: side.upper_texture,
                middle_texture: side.middle_texture,
                lower_texture: side.lower_texture,
            },
        );
        keys.push(key);
        i += 1;
    }
    assert(raw@.subrange(0, i as int) =~= raw@);
    Ok((map, keys))
}

/// Once the first `n` sides hold an error, that error is the error of all.
proof fn lemma_first_side_error(sides: Seq<RawSideDef>, sectors: nat, n: nat, all: nat)
    requires
        n <= all,
        first_side_error(sides, sectors, n) is Some,
    ensures
        first_side_error(sides, sectors, all) == first_side_error(sides, sectors, n),
    decreases all - n,
{
    if n < all {
        lemma_first_side_error(sides, sectors, n + 1, all);
    }
}

/// Once the first `n` lines hold an error, that error is the error of all.
proof fn lemma_first_line_error(lines: Seq<RawLineDef>, vertexes: nat, sides: nat, n: nat, all: nat)
    requires
        n <= all,
        first_line_error(lines, vertexes, sides, n) is Some,
    ensures
        first_line_error(lines, vertexes, sides, all) == first_line_error(lines, vertexes, sides, n),
    decreases all - n,
{
    if n < all {
        lemma_first_line_error(lines, vertexes, sides, n + 1, all);
    }
}

/// The line `line` with its vertexes and sides named by their keys; the error of the first
/// field that names what is not there.
fn link_line_def(
    line: &RawLineDef,
    index: usize,
    vertex_keys: &Vec<VertexKey>,
    side_keys: &Vec<SideDefKey>,
    vertex_ids: Ghost<Seq<u64>>,
    side_ids: Ghost<Seq<u64>>,
) -> (r: Result<LineDef, LinkError>)
    requires
        vertex_keys@.len() == vertex_ids@.len(),
        forall|i: int| 0 <= i < vertex_keys@.len() ==> (#[trigger] vertex_keys@[i])@ == vertex_ids@[i],
        side_keys@.len() == side_ids@.len(),
        forall|i: int| 0 <= i < side_keys@.len() ==> (#[trigger] side_keys@[i])@ == side_ids@[i],
    ensures
        match line_error(*line, index as int, vertex_keys@.len(), side_keys@.len()) {
            Some(e) => r == Err::<LineDef, LinkError>(e),
            None => r matches Ok(linked) && line_linked(*line, linked, vertex_ids@, side_ids@),
        },
{
    let from = line.from_idx as usize;
    if from >= vertex_keys.len() {
        return Err(
            LinkError::IndexOutOfRange {
                referrer: EntityKind::LineDef,
                referrer_index: index,
                field: FIELD_FROM,
                referee: EntityKind::Vertex,
                referee_index: line.from_idx,
            },
        );
    }
    let to = line.to_idx as usize;
    if to >= vertex_keys.len() {
        return Err(
            LinkError::IndexOutOfRange {
                referrer: EntityKind::LineDef,
                referrer_index: index,
                field: FIELD_TO,
                referee: EntityKind::Vertex,
                referee_index: line.to_idx,
            },
        );
    }
    let left = line.left_side_idx as usize;
    if left >= side_keys.len() {
        return Err(
            LinkError::IndexOutOfRange {
                referrer: EntityKind::LineDef,
                referrer_index: index,
                field: FIELD_LEFT_SIDE,
                referee: EntityKind::SideDef,
                referee_index: line.left_side_idx,
            },
        );
    }
    let right_side = match line.right_side_idx {
        None => None,
        Some(right_idx) => {
            let right = right_idx as usize;
            if right >= side_keys.len() {
                return Err(
                    LinkError::IndexOutOfRange {
                        referrer: EntityKind::LineDef,
                        referrer_index: index,
                        field: FIELD_RIGHT_SIDE,
                        referee: EntityKind::SideDef,
                        referee_index: right_idx,
                    },
                );
            }
            Some(side_keys[right])
        },
    };
    Ok(
        LineDef {
            from: vertex_keys[from],
            to: vertex_keys[to],
            left_side: side_keys[left],
            right_side,
            flags: line.flags,
            special: line.special,
            trigger_flags: line.trigger_flags,
        },
    )
}

/// A map that holds the lines `raw` in order, each with the keys of its vertexes and
/// sides; the error of the first line that names what is not there.
fn link_line_defs(
    raw: &Vec<RawLineDef>,
    vertex_keys: &Vec<VertexKey>,
    side_keys: &Vec<SideDefKey>,
    vertex_ids: Ghost<Seq<u64>>,
    side_ids: Ghost<Seq<u64>>,
) -> (r: Result<LineDefMap, LinkError>)
    requires
        raw@.len() < SLOT_LIMIT,
        vertex_keys@.len() == vertex_ids@.len(),
        forall|i: int| 0 <= i < vertex_keys@.len() ==> (#[trigger] vertex_keys@[i])@ == vertex_ids@[i],
        side_keys@.len() == side_ids@.len(),
        forall|i: int| 0 <= i < side_keys@.len() ==> (#[trigger] side_keys@[i])@ == side_ids@[i],
    ensures
        match first_line_error(raw@, vertex_keys@.len(), side_keys@.len(), raw@.len()) {
            Some(e) => r == Err::<LineDefMap, LinkError>(e),
            None => r matches Ok(map) && lines_linked(map@, raw@, vertex_ids@, side_ids@)
                && in_slot_order(map@) && map.dense(),
        },
{
    let mut map = LineDefMap::new();
    let mut i: usize = 0;
    while i < raw.len()
        invariant
            i <= raw.len(),
            raw@.len() < SLOT_LIMIT,
            vertex_keys@.len() == vertex_ids@.len(),
            forall|j: int|
                0 <= j < vertex_keys@.len() ==> (#[trigger] vertex_keys@[j])@ == vertex_ids@[j],
            side_keys@.len() == side_ids@.len(),
            forall|j: int| 0 <= j < side_keys@.len() ==> (#[trigger] side_keys@[j])@ == side_ids@[j],
            first_line_error(raw@, vertex_keys@.len(), side_keys@.len(), i as nat) is None,
            lines_linked(map@, raw@.subrange(0, i as int), vertex_ids@, side_ids@),
            in_slot_order(map@),
            map.dense(),
        decreases raw.len() - i,
    {
        match link_line_def(&raw[i], i, vertex_keys, side_keys, vertex_ids, side_ids) {
            Err(e) => {
                proof {
                    lemma_first_line_error(
                        raw@,
                        vertex_keys@.len(),
                        side_keys@.len(),
                        i as nat + 1,
                        raw@.len(),
                    );
                }
                return Err(e);
            },
            Ok(line) => {
                let _key = map.insert(line);
            },
        }
        i += 1;
    }
    assert(raw@.subrange(0, i as int) =~= raw@);
    Ok(map)
}

impl RawMap {
    /// Whether the level holds few enough entities of each kind for a graph to hold them.
    pub open spec fn linkable(&self) -> bool {
        &&& self.vertexes@.len() < SLOT_LIMIT
        &&& self.line_defs@.len() < SLOT_LIMIT
        &&& self.sectors@.len() < SLOT_LIMIT
        &&& self.side_defs@.len() < SLOT_LIMIT
        &&& self.things@.len() < SLOT_LIMIT
    }

    /// The level as a graph, where every position at which a side or a line names another
    /// entity is one at which there is an entity; else the error of the first reference
    /// that is not, the sides being looked at before the lines.
    pub fn link(&self) -> (r: Result<LinkedMap, LinkError>)
        requires
            self.linkable(),
        ensures
            match self@.link_error() {
                Some(e) => r == Err::<LinkedMap, LinkError>(e),
                None => r matches Ok(graph) && graph@.links(self@) && graph.well_formed(),
            },
    {
        let (vertexes, vertex_keys) = link_vertexes(&self.vertexes);
        let (sectors, sector_keys) = link_sectors(&self.sectors);
        let ghost vertex_ids = ids_of(vertexes@);
        let ghost sector_ids = ids_of(sectors@);
        let (side_defs, side_keys) = match link_side_defs(
            &self.side_defs,
            &sector_keys,
            Ghost(sector_ids),
        ) {
            Ok(found) => found,
            Err(e) => {
                return Err(e);
            },
        };
        let ghost side_ids = ids_of(side_defs@);
        let line_defs = match link_line_defs(
            &self.line_defs,
            &vertex_keys,
            &side_keys,
            Ghost(vertex_ids),
            Ghost(side_ids),
        ) {
            Ok(found) => found,
            Err(e) => {
                return Err(e);
            },
        };
        let things = link_things(&self.things);
        proof {
            lemma_slot_order_distinct(vertexes@);
            lemma_slot_order_distinct(sectors@);
            lemma_slot_order_distinct(side_defs@);
        }
        Ok(LinkedMap { name: self.name, vertexes, line_defs, sectors, side_defs, things })
    }
}

impl View for LinkedMap {
    type V = MapView;

    closed spec fn view(&self) -> MapView {
        MapView {
            name: self.name,
            vertexes: self.vertexes@,
            line_defs: self.line_defs@,
            sectors: self.sectors@,
            side_defs: self.side_defs@,
            things: self.things@,
        }
    }
}

impl LinkedMap {
    /// Whether no entity was ever taken out of the graph, so that the entities of each
    /// kind fill the slots of their map one after the other: what holds of every graph
    /// that this library makes.
    pub closed spec fn well_formed(&self) -> bool {
        &&& self.vertexes.dense() && in_slot_order(self.vertexes@)
        &&& self.line_defs.dense() && in_slot_order(self.line_defs@)
        &&& self.sectors.dense() && in_slot_order(self.sectors@)
        &&& self.side_defs.dense() && in_slot_order(self.side_defs@)
        &&& self.things.dense() && in_slot_order(self.things@)
    }

    /// In a graph from which no entity was ever taken out, no key is given twice.
    pub proof fn lemma_keys_distinct(&self)
        requires
            self.well_formed(),
        ensures
            distinct(ids_of(self@.vertexes)),
            distinct(ids_of(self@.line_defs)),
            distinct(ids_of(self@.sectors)),
            distinct(ids_of(self@.side_defs)),
            distinct(ids_of(self@.things)),
    {
        lemma_slot_order_distinct(self.vertexes@);
        lemma_slot_order_distinct(self.line_defs@);
        lemma_slot_order_distinct(self.sectors@);
        lemma_slot_order_distinct(self.side_defs@);
        lemma_slot_order_distinct(self.things@);
    }

    /// The name of the level.
    pub fn name(&self) -> (name: String8)
        ensures
            name == self@.name,
    {
        self.name
    }

    /// The vertexes of the graph with their keys, in the order in which they are walked.
    pub fn vertexes(&self) -> (r: Vec<(VertexKey, Vertex)>)
        ensures
            r@.len() == self@.vertexes.len(),
            forall|i: int|
                0 <= i < r@.len() ==> (#[trigger] r@[i]).0@ == self@.vertexes[i].0 && r@[i].1
                    == self@.vertexes[i].1,
    {
        self.vertexes.entries()
    }

    /// Puts one more vertex into the graph, behind those that it holds, and gives its key.
    pub fn add_vertex(&mut self, vertex: Vertex) -> (key: VertexKey)
        requires
            old(self).well_formed(),
            old(self)@.vertexes.len() < SLOT_LIMIT,
        ensures
            final(self).well_formed(),
            final(self)@.vertexes == old(self)@.vertexes.push((key@, vertex)),
            final(self)@.name == old(self)@.name,
            final(self)@.line_defs == old(self)@.line_defs,
            final(self)@.sectors == old(self)@.sectors,
            final(self)@.side_defs == old(self)@.side_defs,
            final(self)@.things == old(self)@.things,
    {
        self.vertexes.insert(vertex)
    }

    /// The lines of the graph with their keys, in the order in which they are walked.
    pub fn line_defs(&self) -> (r: Vec<(LineDefKey, LineDef)>)
        ensures
            r@.len() == self@.line_defs.len(),
            forall|i: int|
                0 <= i < r@.len() ==> (#[trigger] r@[i]).0@ == self@.line_defs[i].0 && r@[i].1
                    == self@.line_defs[i].1,
    {
        self.line_defs.entries()
    }

    /// Puts one more line into the graph, behind those that it holds, and gives its key.
    pub fn add_line_def(&mut self, line_def: LineDef) -> (key: LineDefKey)
        requires
            old(self).well_formed(),
            old(self)@.line_defs.len() < SLOT_LIMIT,
        ensures
            final(self).well_formed(),
            final(self)@.line_defs == old(self)@.line_defs.push((key@, line_def)),
            final(self)@.name == old(self)@.name,
            final(self)@.vertexes == old(self)@.vertexes,
            final(self)@.sectors == old(self)@.sectors,
            final(self)@.side_defs == old(self)@.side_defs,
            final(self)@.things == old(self)@.things,
    {
        self.line_defs.insert(line_def)
    }

    /// The sectors of the graph with their keys, in the order in which they are walked.
    pub fn sectors(&self) -> (r: Vec<(SectorKey, Sector)>)
        ensures
            r@.len() == self@.sectors.len(),
            forall|i: int|
                0 <= i < r@.len() ==> (#[trigger] r@[i]).0@ == self@.sectors[i].0 && r@[i].1
                    == self@.sectors[i].1,
    {
        self.sectors.entries()
    }

    /// Puts one more sector into the graph, behind those that it holds, and gives its key.
    pub fn add_sector(&mut self, sector: Sector) -> (key: SectorKey)
        requires
            old(self).well_formed(),
            old(self)@.sectors.len() < SLOT_LIMIT,
        ensures
            final(self).well_formed(),
            final(self)@.sectors == old(self)@.sectors.push((key@, sector)),
            final(self)@.name == old(self)@.name,
            final(self)@.vertexes == old(self)@.vertexes,
            final(self)@.line_defs == old(self)@.line_defs,
            final(self)@.side_defs == old(self)@.side_defs,
            final(self)@.things == old(self)@.things,
    {
        self.sectors.insert(sector)
    }

    /// The sides of the graph with their keys, in the order in which they are walked.
    pub fn side_defs(&self) -> (r: Vec<(SideDefKey, SideDef)>)
        ensures
            r@.len() == self@.side_defs.len(),
            forall|i: int|
                0 <= i < r@.len() ==> (#[trigger] r@[i]).0@ == self@.side_defs[i].0 && r@[i].1
                    == self@.side_defs[i].1,
    {
        self.side_defs.entries()
    }

    /// Puts one more side into the graph, behind those that it holds, and gives its key.
    pub fn add_side_def(&mut self, side_def: SideDef) -> (key: SideDefKey)
        requires
            old(self).well_formed(),
            old(self)@.side_defs.len() < SLOT_LIMIT,
        ensures
            final(self).well_formed(),
            final(self)@.side_defs == old(self)@.side_defs.push((key@, side_def)),
            final(self)@.name == old(self)@.name,
            final(self)@.vertexes == old(self)@.vertexes,
            final(self)@.line_defs == old(self)@.line_defs,
            final(self)@.sectors == old(self)@.sectors,
            final(self)@.things == old(self)@.things,
    {
        self.side_defs.insert(side_def)
    }

    /// The things of the graph with their keys, in the order in which they are walked.
    pub fn things(&self) -> (r: Vec<(ThingKey, Thing)>)
        ensures
            r@.len() == self@.things.len(),
            forall|i: int|
                0 <= i < r@.len() ==> (#[trigger] r@[i]).0@ == self@.things[i].0 && r@[i].1
                    == self@.things[i].1,
    {
        self.things.entries()
    }

    /// Puts one more thing into the graph, behind those that it holds, and gives its key.
    pub fn add_thing(&mut self, thing: Thing) -> (key: ThingKey)
        requires
            old(self).well_formed(),
            old(self)@.things.len() < SLOT_LIMIT,
        ensures
            final(self).well_formed(),
            final(self)@.things == old(self)@.things.push((key@, thing)),
            final(self)@.name == old(self)@.name,
            final(self)@.vertexes == old(self)@.vertexes,
            final(self)@.line_defs == old(self)@.line_defs,
            final(self)@.sectors == old(self)@.sectors,
            final(self)@.side_defs == old(self)@.side_defs,
    {
        self.things.insert(thing)
    }

    /// A graph without entities.
    pub fn new(name: String8) -> (graph: Self)
        ensures
            graph.well_formed(),
            graph@ == (MapView {
                name,
                vertexes: Seq::empty(),
                line_defs: Seq::empty(),
                sectors: Seq::empty(),
                side_defs: Seq::empty(),
                things: Seq::empty(),
            }),
    {
        LinkedMap {
            name,
            vertexes: VertexMap::new(),
            line_defs: LineDefMap::new(),
            sectors: SectorMap::new(),
            side_defs: SideDefMap::new(),
            things: ThingMap::new(),
        }
    }
}

/// The side `side` with its sector named by its position among `sector_ids`; the error
/// for the side at `index` where its sector is not among them.
pub open spec fn side_unlinked(side: SideDef, index: int, sector_ids: Seq<u64>) -> Result<
    RawSideDef,
    UnlinkError,
> {
    match key_position(sector_ids, side.sector@) {
        Some(position) => Ok(
            RawSideDef {
                sector_idx: position as u16,
                offset: side.offset,
                upper_texture: side.upper_texture,
                middle_texture: side.middle_texture,
                lower_texture: side.lower_texture,
            },
        ),
        None => Err(
            UnlinkError::InvalidKey {
                referrer: EntityKind::SideDef,
                referrer_index: index as usize,
                field: FIELD_SECTOR,
                referee: EntityKind::Sector,
            },
        ),
    }
}

/// The error for a line at `index` whose field `field` names an entity of the kind
/// `referee` that is not there.
pub open spec fn line_key_error(index: int, field: &'static str, referee: EntityKind) -> UnlinkError {
    UnlinkError::InvalidKey {
        referrer: EntityKind::LineDef,
        referrer_index: index as usize,
        field,
        referee,
    }
}

/// The line `line` with its vertexes and sides named by their positions among
/// `vertex_ids` and `side_ids`; the error of the first field that names what is not among
/// them, in the order from, to, left side, right side.
pub open spec fn line_unlinked(
    line: LineDef,
    index: int,
    vertex_ids: Seq<u64>,
    side_ids: Seq<u64>,
) -> Result<RawLineDef, UnlinkError> {
    match key_position(vertex_ids, line.from@) {
        None => Err(line_key_error(index, FIELD_FROM, EntityKind::Vertex)),
        Some(from) => match key_position(vertex_ids, line.to@) {
            None => Err(line_key_error(index, FIELD_TO, EntityKind::Vertex)),
            Some(to) => match key_position(side_ids, line.left_side@) {
                None => Err(line_key_error(index, FIELD_LEFT_SIDE, EntityKind::SideDef)),
                Some(left) => match line.right_side {
                    None => Ok(
                        RawLineDef {
                            from_idx: from as u16,
                            to_idx: to as u16,
                            left_side_idx: left as u16,
                            right_side_idx: None,
                            flags: line.flags,
                            special: line.special,
                            trigger_flags: line.trigger_flags,
                        },
                    ),
                    Some(key) => match key_position(side_ids, key@) {
                        None => Err(line_key_error(index, FIELD_RIGHT_SIDE, EntityKind::SideDef)),
                        Some(right) => Ok(
                            RawLineDef {
                                from_idx: from as u16,
                                to_idx: to as u16,
                                left_side_idx: left as u16,
                                right_side_idx: Some(right as u16),
                                flags: line.flags,
                                special: line.special,
                                trigger_flags: line.trigger_flags,
                            },
                        ),
                    },
                },
            },
        },
    }
}

/// The first `n` sides, each with its sector named by its position; the error of the
/// first of them that has one.
pub open spec fn sides_unlinked(sides: Seq<(u64, SideDef)>, sector_ids: Seq<u64>, n: nat) -> Result<
    Seq<RawSideDef>,
    UnlinkError,
>
    decreases n,
{
    if n == 0 {
        Ok(Seq::empty())
    } else {
        match sides_unlinked(sides, sector_ids, (n - 1) as nat) {
            Err(e) => Err(e),
            Ok(before) => match side_unlinked(sides[n - 1].1, n - 1, sector_ids) {
                Err(e) => Err(e),
                Ok(side) => Ok(before.push(side)),
            },
        }
    }
}

/// The first `n` lines, each with its vertexes and sides named by their positions; the
/// error of the first of them that has one.
pub open spec fn lines_unlinked(
    lines: Seq<(u64, LineDef)>,
    vertex_ids: Seq<u64>,
    side_ids: Seq<u64>,
    n: nat,
) -> Result<Seq<RawLineDef>, UnlinkError>
    decreases n,
{
    if n == 0 {
        Ok(Seq::empty())
    } else {
        match lines_unlinked(lines, vertex_ids, side_ids, (n - 1) as nat) {
            Err(e) => Err(e),
            Ok(before) => match line_unlinked(lines[n - 1].1, n - 1, vertex_ids, side_ids) {
                Err(e) => Err(e),
                Ok(line) => Ok(before.push(line)),
            },
        }
    }
}

/// The entities of `entries`, in order, without their keys.
pub open spec fn values_of<V>(entries: Seq<(u64, V)>) -> Seq<V> {
    Seq::new(entries.len(), |i: int| entries[i].1)
}

impl MapView {
    /// The graph as a level file holds it, every key replaced by the position of the
    /// entity that it names. There is none where the graph holds too many entities of a
    /// kind ([`MapView::too_large`]), or else where a side or a line names an entity that
    /// is not in the graph: the error is then that of the first such side, or else of the
    /// first such line.
    pub open spec fn unlinked(self) -> Result<RawMapView, UnlinkError> {
        match self.too_large() {
            Some(entity_kind) => Err(UnlinkError::IndexTooLarge { entity_kind }),
            None => match sides_unlinked(
                self.side_defs,
                ids_of(self.sectors),
                self.side_defs.len(),
            ) {
                Err(e) => Err(e),
                Ok(side_defs) => match lines_unlinked(
                    self.line_defs,
                    ids_of(self.vertexes),
                    ids_of(self.side_defs),
                    self.line_defs.len(),
                ) {
                    Err(e) => Err(e),
                    Ok(line_defs) => Ok(
                        RawMapView {
                            name: self.name,
                            vertexes: values_of(self.vertexes),
                            line_defs,
                            sectors: values_of(self.sectors),
                            side_defs,
                            things: values_of(self.things),
                        },
                    ),
                },
            },
        }
    }
}

/// Whether `table` holds for each of `ids` its place, and nothing else.
pub open spec fn tabulates(table: Map<u64, u16>, ids: Seq<u64>) -> bool {
    &&& forall|id: u64| #[trigger] table.contains_key(id) ==> exists|i: int| stands_at(ids, id, i)
    &&& forall|i: int|
        0 <= i < ids.len() ==> table.contains_key(#[trigger] ids[i]) && table[ids[i]] == i
}

/// The place of the key in the list that the table was made of.
fn lookup(table: &IndexTable, key: slotmap::DefaultKey, ids: Ghost<Seq<u64>>) -> (r: Option<u16>)
    requires
        tabulates(table@, ids@),
        distinct(ids@),
        ids@.len() <= INDEX_LIMIT,
    ensures
        r == match key_position(ids@, arena::slot_key_id(key)) {
            Some(position) => Some(position as u16),
            None => None,
        },
        r is Some ==> key_position(ids@, arena::slot_key_id(key)) == Some(r->Some_0 as int),
{
    let found = table.get(key);
    proof {
        let id = arena::slot_key_id(key);
        if table@.contains_key(id) {
            let i = choose|i: int| stands_at(ids@, id, i);
            lemma_key_position(ids@, id, i);
        } else {
            lemma_key_absent(ids@, id);
        }
    }
    found
}

/// The key at `index` names a slot that no key before it names.
proof fn lemma_slot_free(table: Map<u64, u16>, ids: Seq<u64>, index: int)
    requires
        well_keyed(ids),
        0 <= index < ids.len(),
        tabulates(table, ids.subrange(0, index)),
    ensures
        arena::slot_of(ids[index]) != arena::NULL_SLOT,
        forall|id: u64| #[trigger]
            table.contains_key(id) && arena::slot_of(id) == arena::slot_of(ids[index]) ==> id
                == ids[index],
{
    assert forall|id: u64| #[trigger]
        table.contains_key(id) && arena::slot_of(id) == arena::slot_of(ids[index]) implies id
        == ids[index] by {
        let j = choose|j: int| stands_at(ids.subrange(0, index), id, j);
        assert(stands_at(ids.subrange(0, index), id, j));
        assert(ids[j] == id);
        assert(arena::slot_of(ids[j]) != arena::slot_of(ids[index]));
    }
}

/// A table of the first keys, with the next key put in at its place, is a table of the
/// first keys and the next.
proof fn lemma_tabulates_push(table: Map<u64, u16>, ids: Seq<u64>, index: int)
    requires
        well_keyed(ids),
        0 <= index < ids.len(),
        index <= INDEX_LIMIT,
        tabulates(table, ids.subrange(0, index)),
    ensures
        tabulates(table.insert(ids[index], index as u16), ids.subrange(0, index + 1)),
{
    let before = ids.subrange(0, index);
    let after = ids.subrange(0, index + 1);
    let grown = table.insert(ids[index], index as u16);
    lemma_well_keyed_distinct(ids);
    assert forall|id: u64| #[trigger] grown.contains_key(id) implies exists|i: int|
        stands_at(after, id, i) by {
        if id == ids[index] {
            assert(stands_at(after, id, index));
        } else {
            assert(table.contains_key(id));
            let j = choose|j: int| stands_at(before, id, j);
            assert(stands_at(before, id, j));
            assert(stands_at(after, id, j));
        }
    }
    assert forall|i: int| 0 <= i < after.len() implies grown.contains_key(#[trigger] after[i])
        && grown[after[i]] == i by {
        if i < index {
            assert(before[i] == ids[i]);
            assert(ids[i] != ids[index]);
            assert(table.contains_key(before[i]) && table[before[i]] == i);
        }
    }
}

/// The vertexes of the map in order, and the table of their places.
fn unlink_vertexes(map: &VertexMap) -> (r: (IndexTable, Vec<Vertex>))
    requires
        map@.len() <= INDEX_LIMIT,
    ensures
        tabulates(r.0@, ids_of(map@)),
        distinct(ids_of(map@)),
        r.1@ == values_of(map@),
{
    let entries = map.entries();
    let ghost ids = ids_of(map@);
    assert(Seq::new(entries@.len(), |j: int| entries@[j].0@) =~= ids);
    let mut table = IndexTable::with_capacity(entries.len());
    let mut values: Vec<Vertex> = Vec::new();
    let mut i: usize = 0;
    while i < entries.len()
        invariant
            i <= entries.len(),
            entries@.len() == map@.len(),
            entries@.len() <= INDEX_LIMIT,
            ids == ids_of(map@),
            forall|j: int|
                0 <= j < entries@.len() ==> (#[trigger] entries@[j]).0@ == map@[j].0 && entries@[j].1
                    == map@[j].1,
            well_keyed(ids),
            tabulates(table@, ids.subrange(0, i as int)),
            values@ == values_of(map@).subrange(0, i as int),
        decreases entries.len() - i,
    {
        let (key, value) = entries[i];
        proof {
            lemma_slot_free(table@, ids, i as int);
            lemma_tabulates_push(table@, ids, i as int);
        }
        table.insert(key.key, i as u16);
        values.push(value);
        assert(values@ =~= values_of(map@).subrange(0, i as int + 1));
        i += 1;
    }
    proof {
        assert(ids.subrange(0, i as int) =~= ids);
        assert(values_of(map@).subrange(0, i as int) =~= values_of(map@));
        lemma_well_keyed_distinct(ids);
    }
    (table, values)
}

/// The sectors of the map in order, and the table of their places.
fn unlink_sectors(map: &SectorMap) -> (r: (IndexTable, Vec<Sector>))
    requires
        map@.len() <= INDEX_LIMIT,
    ensures
        tabulates(r.0@, ids_of(map@)),
        distinct(ids_of(map@)),
        r.1@ == values_of(map@),
{
    let entries = map.entries();
    let ghost ids = ids_of(map@);
    assert(Seq::new(entries@.len(), |j: int| entries@[j].0@) =~= ids);
    let mut table = IndexTable::with_capacity(entries.len());
    let mut values: Vec<Sector> = Vec::new();
    let mut i: usize = 0;
    while i < entries.len()
        invariant
            i <= entries.len(),
            entries@.len() == map@.len(),
            entries@.len() <= INDEX_LIMIT,
            ids == ids_of(map@),
            forall|j: int|
                0 <= j < entries@.len() ==> (#[trigger] entries@[j]).0@ == map@[j].0 && entries@[j].1
                    == map@[j].1,
            well_keyed(ids),
            tabulates(table@, ids.subrange(0, i as int)),
            values@ == values_of(map@).subrange(0, i as int),
        decreases entries.len() - i,
    {
        let (key, value) = entries[i];
        proof {
            lemma_slot_free(table@, ids, i as int);
            lemma_tabulates_push(table@, ids, i as int);
        }
        table.insert(key.key, i as u16);
        values.push(value);
        assert(values@ =~= values_of(map@).subrange(0, i as int + 1));
        i += 1;
    }
    proof {
        assert(ids.subrange(0, i as int) =~= ids);
        assert(values_of(map@).subrange(0, i as int) =~= values_of(map@));
        lemma_well_keyed_distinct(ids);
    }
    (table, values)
}

/// The sides of the map in order, each with its sector named by its position, and the
/// table of their places; the error of the first side whose sector is not in the graph.
fn unlink_side_defs(map: &SideDefMap, sectors: &IndexTable, sector_ids: Ghost<Seq<u64>>) -> (r: Result<
    (IndexTable, Vec<RawSideDef>),
    UnlinkError,
>)
    requires
        map@.len() <= INDEX_LIMIT,
        tabulates(sectors@, sector_ids@),
        distinct(sector_ids@),
        sector_ids@.len() <= INDEX_LIMIT,
    ensures
        distinct(ids_of(map@)),
        match sides_unlinked(map@, sector_ids@, map@.len()) {
            Ok(sides) => r matches Ok(found) && found.1@ == sides && tabulates(
                found.0@,
                ids_of(map@),
            ),
            Err(e) => r == Err::<(IndexTable, Vec<RawSideDef>), UnlinkError>(e),
        },
{
    let entries = map.entries();
    let ghost ids = ids_of(map@);
    assert(Seq::new(entries@.len(), |j: int| entries@[j].0@) =~= ids);
    proof {
        lemma_well_keyed_distinct(ids);
    }
    let mut table = IndexTable::with_capacity(entries.len());
    let mut values: Vec<RawSideDef> = Vec::new();
    let mut i: usize = 0;
    while i < entries.len()
        invariant
            i <= entries.len(),
            entries@.len() == map@.len(),
            entries@.len() <= INDEX_LIMIT,
            ids == ids_of(map@),
            forall|j: int|
                0 <= j < entries@.len() ==> (#[trigger] entries@[j]).0@ == map@[j].0 && entries@[j].1
                    == map@[j].1,
            well_keyed(ids),
            tabulates(table@, ids.subrange(0, i as int)),
            tabulates(sectors@, sector_ids@),
            distinct(sector_ids@),
            sector_ids@.len() <= INDEX_LIMIT,
            sides_unlinked(map@, sector_ids@, i as nat) == Ok::<Seq<RawSideDef>, UnlinkError>(
                values@,
            ),
        decreases entries.len() - i,
    {
        let (key, side) = entries[i];
        proof {
            lemma_slot_free(table@, ids, i as int);
            lemma_tabulates_push(table@, ids, i as int);
        }
        table.insert(key.key, i as u16);
        let sector_idx = match lookup(sectors, side.sector.key, sector_ids) {
            Some(position) => position,
            None => {
                proof {
                    lemma_sides_fault(map@, sector_ids@, i as nat + 1, map@.len());
                }
                return Err(
                    UnlinkError::InvalidKey {
                        referrer: EntityKind::SideDef,
                        referrer_index: i,
                        field: FIELD_SECTOR,
                        referee: EntityKind::Sector,
                    },
                );
            },
        };
        values.push(
            RawSideDef {
                sector_idx,
                offset: side.offset,
                upper_texture: side.upper_texture,
                middle_texture: side.middle_texture,
                lower_texture: side.lower_texture,
            },
        );
        i += 1;
    }
    proof {
        assert(ids.subrange(0, i as int) =~= ids);
    }
    Ok((table, values))
}

/// Once the first `n` sides hold an error, that error is the error of all.
proof fn lemma_sides_fault(sides: Seq<(u64, SideDef)>, sector_ids: Seq<u64>, n: nat, all: nat)
    requires
        n <= all,
        sides_unlinked(sides, sector_ids, n) is Err,
    ensures
        sides_unlinked(sides, sector_ids, all) == sides_unlinked(sides, sector_ids, n),
    decreases all - n,
{
    if n < all {
        lemma_sides_fault(sides, sector_ids, n + 1, all);
    }
}

/// Once the first `n` lines hold an error, that error is the error of all.
proof fn lemma_lines_fault(
    lines: Seq<(u64, LineDef)>,
    vertex_ids: Seq<u64>,
    side_ids: Seq<u64>,
    n: nat,
    all: nat,
)
    requires
        n <= all,
        lines_unlinked(lines, vertex_ids, side_ids, n) is Err,
    ensures
        lines_unlinked(lines, vertex_ids, side_ids, all) == lines_unlinked(
            lines,
            vertex_ids,
            side_ids,
            n,
        ),
    decreases all - n,
{
    if n < all {
        lemma_lines_fault(lines, vertex_ids, side_ids, n + 1, all);
    }
}

/// The line with its vertexes and sides named by their positions; the error of the first
/// field that names what is not in the graph.
fn unlink_line_def(
    line: &LineDef,
    index: usize,
    vertexes: &IndexTable,
    sides: &IndexTable,
    vertex_ids: Ghost<Seq<u64>>,
    side_ids: Ghost<Seq<u64>>,
) -> (r: Result<RawLineDef, UnlinkError>)
    requires
        tabulates(vertexes@, vertex_ids@),
        distinct(vertex_ids@),
        vertex_ids@.len() <= INDEX_LIMIT,
        tabulates(sides@, side_ids@),
        distinct(side_ids@),
        side_ids@.len() <= INDEX_LIMIT,
    ensures
        r == line_unlinked(*line, index as int, vertex_ids@, side_ids@),
{
    let from_idx = match lookup(vertexes, line.from.key, vertex_ids) {
        Some(position) => position,
        None => {
            return Err(
                UnlinkError::InvalidKey {
                    referrer: EntityKind::LineDef,
                    referrer_index: index,
                    field: FIELD_FROM,
                    referee: EntityKind::Vertex,
                },
            );
        },
    };
    let to_idx = match lookup(vertexes, line.to.key, vertex_ids) {
        Some(position) => position,
        None => {
            return Err(
                UnlinkError::InvalidKey {
                    referrer: EntityKind::LineDef,
                    referrer_index: index,
                    field: FIELD_TO,
                    referee: EntityKind::Vertex,
                },
            );
        },
    };
    let left_side_idx = match lookup(sides, line.left_side.key, side_ids) {
        Some(position) => position,
        None => {
            return Err(
                UnlinkError::InvalidKey {
                    referrer: EntityKind::LineDef,
                    referrer_index: index,
                    field: FIELD_LEFT_SIDE,
                    referee: EntityKind::SideDef,
                },
            );
        },
    };
    let right_side_idx = match line.right_side {
        None => None,
        Some(key) => match lookup(sides, key.key, side_ids) {
            Some(position) => Some(position),
            None => {
                return Err(
                    UnlinkError::InvalidKey {
                        referrer: EntityKind::LineDef,
                        referrer_index: index,
                        field: FIELD_RIGHT_SIDE,
                        referee: EntityKind::SideDef,
                    },
                );
            },
        },
    };
    Ok(
        RawLineDef {
            from_idx,
            to_idx,
            left_side_idx,
            right_side_idx,
            flags: line.flags,
            special: line.special,
            trigger_flags: line.trigger_flags,
        },
    )
}

/// The lines of the map in order, each with its vertexes and sides named by their
/// positions; the error of the first line that names what is not in the graph.
fn unlink_line_defs(
    map: &LineDefMap,
    vertexes: &IndexTable,
    sides: &IndexTable,
    vertex_ids: Ghost<Seq<u64>>,
    side_ids: Ghost<Seq<u64>>,
) -> (r: Result<Vec<RawLineDef>, UnlinkError>)
    requires
        tabulates(vertexes@, vertex_ids@),
        distinct(vertex_ids@),
        vertex_ids@.len() <= INDEX_LIMIT,
        tabulates(sides@, side_ids@),
        distinct(side_ids@),
        side_ids@.len() <= INDEX_LIMIT,
    ensures
        match lines_unlinked(map@, vertex_ids@, side_ids@, map@.len()) {
            Ok(lines) => r matches Ok(found) && found@ == lines,
            Err(e) => r == Err::<Vec<RawLineDef>, UnlinkError>(e),
        },
{
    let entries = map.entries();
    let mut values: Vec<RawLineDef> = Vec::new();
    let mut i: usize = 0;
    while i < entries.len()
        invariant
            i <= entries.len(),
            entries@.len() == map@.len(),
            forall|j: int|
                0 <= j < entries@.len() ==> (#[trigger] entries@[j]).0@ == map@[j].0 && entries@[j].1
                    == map@[j].1,
            tabulates(vertexes@, vertex_ids@),
            distinct(vertex_ids@),
            vertex_ids@.len() <= INDEX_LIMIT,
            tabulates(sides@, side_ids@),
            distinct(side_ids@),
            side_ids@.len() <= INDEX_LIMIT,
            lines_unlinked(map@, vertex_ids@, side_ids@, i as nat) == Ok::<
                Seq<RawLineDef>,
                UnlinkError,
            >(values@),
        decreases entries.len() - i,
    {
        let (_key, line) = entries[i];
        match unlink_line_def(&line, i, vertexes, sides, vertex_ids, side_ids) {
            Ok(raw) => {
                values.push(raw);
            },
            Err(e) => {
                proof {
                    lemma_lines_fault(map@, vertex_ids@, side_ids@, i as nat + 1, map@.len());
                }
                return Err(e);
            },
        }
        i += 1;
    }
    Ok(values)
}

/// The things of the map in order.
fn unlink_things(map: &ThingMap) -> (values: Vec<Thing>)
    ensures
        values@ == values_of(map@),
{
    let entries = map.entries();
    let mut values: Vec<Thing> = Vec::new();
    let mut i: usize = 0;
    while i < entries.len()
        invariant
            i <= entries.len(),
            entries@.len() == map@.len(),
            forall|j: int|
                0 <= j < entries@.len() ==> (#[trigger] entries@[j]).0@ == map@[j].0 && entries@[j].1
                    == map@[j].1,
            values@ == values_of(map@).subrange(0, i as int),
        decreases entries.len() - i,
    {
        let (_key, thing) = entries[i];
        values.push(thing);
        assert(values@ =~= values_of(map@).subrange(0, i as int + 1));
        i += 1;
    }
    assert(values_of(map@).subrange(0, i as int) =~= values_of(map@));
    values
}

impl LinkedMap {
    /// The graph as a level file holds it: the entities of each kind in the order in which
    /// the graph is walked, every key replaced by the position of the entity that it names.
    /// First of all the graph must hold no more than 65535 entities of any kind; then
    /// every sector that a side names, and every vertex and side that a line names, must
    /// be in the graph.
    pub fn unlink(&self) -> (r: Result<RawMap, UnlinkError>)
        ensures
            match self@.unlinked() {
                Ok(raw) => r matches Ok(found) && found@ == raw,
                Err(e) => r == Err::<RawMap, UnlinkError>(e),
            },
    {
        if self.vertexes.len() > INDEX_LIMIT {
            return Err(UnlinkError::IndexTooLarge { entity_kind: EntityKind::Vertex });
        }
        if self.line_defs.len() > INDEX_LIMIT {
            return Err(UnlinkError::IndexTooLarge { entity_kind: EntityKind::LineDef });
        }
        if self.sectors.len() > INDEX_LIMIT {
            return Err(UnlinkError::IndexTooLarge { entity_kind: EntityKind::Sector });
        }
        if self.side_defs.len() > INDEX_LIMIT {
            return Err(UnlinkError::IndexTooLarge { entity_kind: EntityKind::SideDef });
        }
        if self.things.len() > INDEX_LIMIT {
            return Err(UnlinkError::IndexTooLarge { entity_kind: EntityKind::Thing });
        }
        let (vertex_table, vertexes) = unlink_vertexes(&self.vertexes);
        let (sector_table, sectors) = unlink_sectors(&self.sectors);
        let (side_table, side_defs) = match unlink_side_defs(
            &self.side_defs,
            &sector_table,
            Ghost(ids_of(self.sectors@)),
        ) {
            Ok(found) => found,
            Err(e) => {
                return Err(e);
            },
        };
        let line_defs = match unlink_line_defs(
            &self.line_defs,
            &vertex_table,
            &side_table,
            Ghost(ids_of(self.vertexes@)),
            Ghost(ids_of(self.side_defs@)),
        ) {
            Ok(found) => found,
            Err(e) => {
                return Err(e);
            },
        };
        let things = unlink_things(&self.things);
        Ok(RawMap { name: self.name, vertexes, line_defs, sectors, side_defs, things })
    }
}

/// Linked sides unlink to the sides they were made of.
proof fn lemma_sides_round_trip(
    sides: Seq<(u64, SideDef)>,
    raw: Seq<RawSideDef>,
    sector_ids: Seq<u64>,
    n: nat,
)
    requires
        sides_linked(sides, raw, sector_ids),
        distinct(sector_ids),
        n <= raw.len(),
    ensures
        sides_unlinked(sides, sector_ids, n) == Ok::<Seq<RawSideDef>, UnlinkError>(
            raw.subrange(0, n as int),
        ),
    decreases n,
{
    if n == 0 {
        assert(raw.subrange(0, 0) =~= Seq::<RawSideDef>::empty());
    } else {
        lemma_sides_round_trip(sides, raw, sector_ids, (n - 1) as nat);
        let side = sides[n - 1].1;
        let was = raw[n - 1];
        assert(side_linked(was, side, sector_ids));
        lemma_key_position(sector_ids, side.sector@, was.sector_idx as int);
        assert(raw.subrange(0, n - 1).push(was) =~= raw.subrange(0, n as int));
    }
}

/// Linked lines unlink to the lines they were made of.
proof fn lemma_lines_round_trip(
    lines: Seq<(u64, LineDef)>,
    raw: Seq<RawLineDef>,
    vertex_ids: Seq<u64>,
    side_ids: Seq<u64>,
    n: nat,
)
    requires
        lines_linked(lines, raw, vertex_ids, side_ids),
        distinct(vertex_ids),
        distinct(side_ids),
        n <= raw.len(),
    ensures
        lines_unlinked(lines, vertex_ids, side_ids, n) == Ok::<Seq<RawLineDef>, UnlinkError>(
            raw.subrange(0, n as int),
        ),
    decreases n,
{
    if n == 0 {
        assert(raw.subrange(0, 0) =~= Seq::<RawLineDef>::empty());
    } else {
        lemma_lines_round_trip(lines, raw, vertex_ids, side_ids, (n - 1) as nat);
        let line = lines[n - 1].1;
        let was = raw[n - 1];
        assert(line_linked(was, line, vertex_ids, side_ids));
        lemma_key_position(vertex_ids, line.from@, was.from_idx as int);
        lemma_key_position(vertex_ids, line.to@, was.to_idx as int);
        lemma_key_position(side_ids, line.left_side@, was.left_side_idx as int);
        match was.right_side_idx {
            Some(right) => {
                lemma_key_position(side_ids, line.right_side->Some_0@, right as int);
            },
            None => {},
        }
        assert(line_unlinked(line, n - 1, vertex_ids, side_ids) == Ok::<RawLineDef, UnlinkError>(
            was,
        ));
        assert(raw.subrange(0, n - 1).push(was) =~= raw.subrange(0, n as int));
    }
}

/// A level that is linked and unlinked again is the level it was, entity for entity and in
/// the same order, where it holds no more than 65535 entities of any kind.
pub proof fn lemma_link_unlink(raw: RawMapView, graph: MapView)
    requires
        raw.fits(),
        graph.links(raw),
    ensures
        raw.link_error() is None,
        graph.unlinked() == Ok::<RawMapView, UnlinkError>(raw),
{
    lemma_sides_round_trip(
        graph.side_defs,
        raw.side_defs,
        ids_of(graph.sectors),
        raw.side_defs.len(),
    );
    lemma_lines_round_trip(
        graph.line_defs,
        raw.line_defs,
        ids_of(graph.vertexes),
        ids_of(graph.side_defs),
        raw.line_defs.len(),
    );
    assert(raw.side_defs.subrange(0, raw.side_defs.len() as int) =~= raw.side_defs);
    assert(raw.line_defs.subrange(0, raw.line_defs.len() as int) =~= raw.line_defs);
    assert(values_of(graph.vertexes) =~= raw.vertexes);
    assert(values_of(graph.sectors) =~= raw.sectors);
    assert(values_of(graph.things) =~= raw.things);
    assert forall|i: int| 0 <= i < raw.side_defs.len() implies (#[trigger] raw.side_defs[i]).sector_idx
        < raw.sectors.len() by {
        assert(side_linked(raw.side_defs[i], graph.side_defs[i].1, ids_of(graph.sectors)));
    }
    assert forall|i: int| 0 <= i < raw.line_defs.len() implies line_error(
        #[trigger] raw.line_defs[i],
        i,
        raw.vertexes.len(),
        raw.side_defs.len(),
    ) is None by {
        assert(line_linked(
            raw.line_defs[i],
            graph.line_defs[i].1,
            ids_of(graph.vertexes),
            ids_of(graph.side_defs),
        ));
    }
    lemma_no_side_error(raw.side_defs, raw.sectors.len(), raw.side_defs.len());
    lemma_no_line_error(
        raw.line_defs,
        raw.vertexes.len(),
        raw.side_defs.len(),
        raw.line_defs.len(),
    );
}

/// Sides that name sectors that are there have no error.
proof fn lemma_no_side_error(sides: Seq<RawSideDef>, sectors: nat, n: nat)
    requires
        n <= sides.len(),
        forall|i: int| 0 <= i < sides.len() ==> (#[trigger] sides[i]).sector_idx < sectors,
    ensures
        first_side_error(sides, sectors, n) is None,
    decreases n,
{
    if n > 0 {
        lemma_no_side_error(sides, sectors, (n - 1) as nat);
    }
}

/// Lines that name vertexes and sides that are there have no error.
proof fn lemma_no_line_error(lines: Seq<RawLineDef>, vertexes: nat, sides: nat, n: nat)
    requires
        n <= lines.len(),
        forall|i: int| 0 <= i < lines.len() ==> line_error(#[trigger] lines[i], i, vertexes, sides) is None,
    ensures
        first_line_error(lines, vertexes, sides, n) is None,
    decreases n,
{
    if n > 0 {
        lemma_no_line_error(lines, vertexes, sides, (n - 1) as nat);
    }
}

} // verus!
