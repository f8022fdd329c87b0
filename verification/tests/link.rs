use waddle::map::arena::{SideDefKey, VertexKey};
use waddle::map::line_def::{Flags, LineDef, RawLineDef, TriggerFlags};
use waddle::map::sector::Sector;
use waddle::map::side_def::{RawSideDef, SideDef};
use waddle::map::special::Special;
use waddle::map::thing::Thing;
use waddle::map::vertex::Vertex;
use waddle::map::{sector, thing, EntityKind, LinkError, LinkedMap, RawMap, UnlinkError};
use waddle::{Point, String8};

fn name(text: &str) -> String8 {
    String8::new(text).unwrap()
}

fn vertex(x: i16, y: i16) -> Vertex {
    Vertex { position: Point::new(x, y) }
}

fn a_sector(tag: i16) -> Sector {
    Sector {
        floor_height: 0,
        ceiling_height: 64,
        floor_flat: name("FLOOR"),
        ceiling_flat: name("CEIL"),
        light_level: 200,
        special: sector::Special::Nothing,
        tag,
    }
}

fn side(sector_idx: u16) -> RawSideDef {
    RawSideDef {
        sector_idx,
        offset: Point::new(1, 2),
        upper_texture: name("UP"),
        middle_texture: name("MID"),
        lower_texture: name("LOW"),
    }
}

fn line(from_idx: u16, to_idx: u16, left_side_idx: u16, right_side_idx: Option<u16>) -> RawLineDef {
    RawLineDef {
        from_idx,
        to_idx,
        left_side_idx,
        right_side_idx,
        flags: Flags { two_sided: right_side_idx.is_some(), ..Flags::default() },
        special: Special::DoorOpen { tag: 1, speed: 16, light_tag: 0 },
        trigger_flags: TriggerFlags { player_use: true, ..TriggerFlags::default() },
    }
}

fn a_thing(type_: i16) -> Thing {
    Thing {
        position: Point::new(5, 6),
        height: 0,
        angle: 90,
        type_,
        flags: thing::Flags::new(),
        special: thing::Special::Nothing,
    }
}

fn level() -> RawMap {
    RawMap {
        name: name("MAP01"),
        vertexes: vec![vertex(0, 0), vertex(64, 0), vertex(64, 64)],
        line_defs: vec![line(0, 1, 0, None), line(1, 2, 1, Some(2)), line(2, 0, 2, Some(0))],
        sectors: vec![a_sector(1), a_sector(2)],
        side_defs: vec![side(0), side(1), side(1)],
        things: vec![a_thing(1), a_thing(3004)],
    }
}

fn out_of_range(
    referrer: EntityKind,
    referrer_index: usize,
    field: &'static str,
    referee: EntityKind,
    referee_index: u16,
) -> LinkError {
    LinkError::IndexOutOfRange { referrer, referrer_index, field, referee, referee_index }
}

#[test]
fn link_unlink_fidelity() {
    let raw = level();
    let graph = raw.link().unwrap();
    assert_eq!(graph.unlink().unwrap(), raw);
    let empty = RawMap {
        name: name("EMPTY"),
        vertexes: vec![],
        line_defs: vec![],
        sectors: vec![],
        side_defs: vec![],
        things: vec![],
    };
    assert_eq!(empty.link().unwrap().unlink().unwrap(), empty);
}

#[test]
fn linking_keeps_the_order_and_names_by_key() {
    let graph = level().link().unwrap();
    let vertexes = graph.vertexes();
    let sectors = graph.sectors();
    let sides = graph.side_defs();
    let lines = graph.line_defs();
    let things = graph.things();
    assert_eq!(vertexes.iter().map(|(_, v)| *v).collect::<Vec<_>>(), level().vertexes);
    assert_eq!(sectors.iter().map(|(_, s)| *s).collect::<Vec<_>>(), level().sectors);
    assert_eq!(things.iter().map(|(_, t)| *t).collect::<Vec<_>>(), level().things);
    assert_eq!(
        sides[2].1,
        SideDef {
            sector: sectors[1].0,
            offset: Point::new(1, 2),
            upper_texture: name("UP"),
            middle_texture: name("MID"),
            lower_texture: name("LOW"),
        }
    );
    assert_eq!(sides[0].1.sector, sectors[0].0);
    assert_eq!(
        lines[1].1,
        LineDef {
            from: vertexes[1].0,
            to: vertexes[2].0,
            left_side: sides[1].0,
            right_side: Some(sides[2].0),
            flags: Flags { two_sided: true, ..Flags::default() },
            special: Special::DoorOpen { tag: 1, speed: 16, light_tag: 0 },
            trigger_flags: TriggerFlags { player_use: true, ..TriggerFlags::default() },
        }
    );
    assert_eq!(lines[0].1.right_side, None);
    assert_ne!(vertexes[0].0, vertexes[1].0);
    assert_ne!(vertexes[0].0.id(), vertexes[2].0.id());
}

#[test]
fn dangling_reference_detection() {
    let mut raw = level();
    raw.side_defs.push(side(7));
    assert_eq!(
        raw.link().unwrap_err(),
        out_of_range(EntityKind::SideDef, 3, "sector", EntityKind::Sector, 7)
    );
}

#[test]
fn each_reference_of_a_line_is_checked() {
    let mut raw = level();
    raw.line_defs[1].from_idx = 3;
    assert_eq!(
        raw.link().unwrap_err(),
        out_of_range(EntityKind::LineDef, 1, "from", EntityKind::Vertex, 3)
    );
    let mut raw = level();
    raw.line_defs[2].to_idx = 9;
    assert_eq!(
        raw.link().unwrap_err(),
        out_of_range(EntityKind::LineDef, 2, "to", EntityKind::Vertex, 9)
    );
    let mut raw = level();
    raw.line_defs[0].left_side_idx = 3;
    assert_eq!(
        raw.link().unwrap_err(),
        out_of_range(EntityKind::LineDef, 0, "left_side", EntityKind::SideDef, 3)
    );
    let mut raw = level();
    raw.line_defs[0].right_side_idx = Some(65535);
    assert_eq!(
        raw.link().unwrap_err(),
        out_of_range(EntityKind::LineDef, 0, "right_side", EntityKind::SideDef, 65535)
    );
}

#[test]
fn the_first_dangling_reference_is_reported() {
    let mut raw = level();
    raw.line_defs[0].from_idx = 8;
    raw.line_defs[0].to_idx = 9;
    raw.line_defs[1].left_side_idx = 10;
    assert_eq!(
        raw.link().unwrap_err(),
        out_of_range(EntityKind::LineDef, 0, "from", EntityKind::Vertex, 8)
    );
    raw.side_defs[2].sector_idx = 2;
    raw.side_defs[1].sector_idx = 5;
    assert_eq!(
        raw.link().unwrap_err(),
        out_of_range(EntityKind::SideDef, 1, "sector", EntityKind::Sector, 5)
    );
}

#[test]
fn the_last_position_is_in_bounds() {
    let mut raw = level();
    raw.side_defs[0].sector_idx = 1;
    raw.line_defs[0].to_idx = 2;
    raw.line_defs[0].right_side_idx = Some(2);
    assert!(raw.link().is_ok());
}

#[test]
fn a_graph_grows_entity_by_entity() {
    let mut graph = LinkedMap::new(name("GROWN"));
    assert_eq!(graph.name(), name("GROWN"));
    assert!(graph.vertexes().is_empty());
    let a = graph.add_vertex(vertex(1, 1));
    let b = graph.add_vertex(vertex(2, 2));
    let sector = graph.add_sector(a_sector(0));
    let front = graph.add_side_def(SideDef {
        sector,
        offset: Point::new(0, 0),
        upper_texture: name("-"),
        middle_texture: name("WALL"),
        lower_texture: name("-"),
    });
    let line_key = graph.add_line_def(LineDef {
        from: a,
        to: b,
        left_side: front,
        right_side: None,
        flags: Flags::default(),
        special: Special::Nothing,
        trigger_flags: TriggerFlags::default(),
    });
    let thing_key = graph.add_thing(a_thing(2));
    assert_eq!(graph.vertexes(), vec![(a, vertex(1, 1)), (b, vertex(2, 2))]);
    assert_eq!(graph.line_defs()[0].0, line_key);
    assert_eq!(graph.things(), vec![(thing_key, a_thing(2))]);
    let raw = graph.unlink().unwrap();
    assert_eq!(raw.name, name("GROWN"));
    assert_eq!(raw.vertexes, vec![vertex(1, 1), vertex(2, 2)]);
    assert_eq!(raw.side_defs[0].sector_idx, 0);
    assert_eq!(
        raw.line_defs,
        vec![RawLineDef {
            from_idx: 0,
            to_idx: 1,
            left_side_idx: 0,
            right_side_idx: None,
            flags: Flags::default(),
            special: Special::Nothing,
            trigger_flags: TriggerFlags::default(),
        }]
    );
}

fn keys_of_a_larger_graph() -> LinkedMap {
    RawMap {
        name: name("OTHER"),
        vertexes: vec![vertex(0, 0), vertex(1, 1), vertex(2, 2)],
        line_defs: vec![],
        sectors: vec![a_sector(0), a_sector(1), a_sector(2)],
        side_defs: vec![side(0), side(1), side(2)],
        things: vec![],
    }
    .link()
    .unwrap()
}

fn invalid_key(
    referrer: EntityKind,
    referrer_index: usize,
    field: &'static str,
    referee: EntityKind,
) -> UnlinkError {
    UnlinkError::InvalidKey { referrer, referrer_index, field, referee }
}

#[test]
fn a_key_of_no_entity_is_reported() {
    let other = keys_of_a_larger_graph();
    let stray_sector = other.sectors()[2].0;
    let stray_vertex = other.vertexes()[2].0;
    let stray_side = other.side_defs()[2].0;

    let mut graph = LinkedMap::new(name("SMALL"));
    let sector = graph.add_sector(a_sector(0));
    let good_side = graph.add_side_def(SideDef {
        sector,
        offset: Point::new(0, 0),
        upper_texture: name("-"),
        middle_texture: name("-"),
        lower_texture: name("-"),
    });
    graph.add_side_def(SideDef {
        sector: stray_sector,
        offset: Point::new(0, 0),
        upper_texture: name("-"),
        middle_texture: name("-"),
        lower_texture: name("-"),
    });
    assert_eq!(
        graph.unlink().unwrap_err(),
        invalid_key(EntityKind::SideDef, 1, "sector", EntityKind::Sector)
    );

    let build = |from: Option<VertexKey>,
                 to: Option<VertexKey>,
                 left_side: Option<SideDefKey>,
                 right_side: Option<SideDefKey>| {
        let mut graph = LinkedMap::new(name("SMALL"));
        let a = graph.add_vertex(vertex(0, 0));
        let sector = graph.add_sector(a_sector(0));
        let side = graph.add_side_def(SideDef {
            sector,
            offset: Point::new(0, 0),
            upper_texture: name("-"),
            middle_texture: name("-"),
            lower_texture: name("-"),
        });
        assert_eq!(side, good_side);
        graph.add_line_def(LineDef {
            from: a,
            to: a,
            left_side: side,
            right_side: None,
            flags: Flags::default(),
            special: Special::Nothing,
            trigger_flags: TriggerFlags::default(),
        });
        graph.add_line_def(LineDef {
            from: from.unwrap_or(a),
            to: to.unwrap_or(a),
            left_side: left_side.unwrap_or(side),
            right_side,
            flags: Flags::default(),
            special: Special::Nothing,
            trigger_flags: TriggerFlags::default(),
        });
        graph.unlink()
    };
    assert!(build(None, None, None, None).is_ok());
    assert_eq!(
        build(Some(stray_vertex), Some(stray_vertex), None, None).unwrap_err(),
        invalid_key(EntityKind::LineDef, 1, "from", EntityKind::Vertex)
    );
    assert_eq!(
        build(None, Some(stray_vertex), Some(stray_side), None).unwrap_err(),
        invalid_key(EntityKind::LineDef, 1, "to", EntityKind::Vertex)
    );
    assert_eq!(
        build(None, None, Some(stray_side), Some(stray_side)).unwrap_err(),
        invalid_key(EntityKind::LineDef, 1, "left_side", EntityKind::SideDef)
    );
    assert_eq!(
        build(None, None, None, Some(stray_side)).unwrap_err(),
        invalid_key(EntityKind::LineDef, 1, "right_side", EntityKind::SideDef)
    );
}

#[test]
fn too_many_entities_do_not_unlink() {
    let mut graph = LinkedMap::new(name("HUGE"));
    for _ in 0..65535 {
        graph.add_thing(a_thing(1));
    }
    assert_eq!(graph.unlink().unwrap().things.len(), 65535);
    graph.add_thing(a_thing(1));
    assert_eq!(
        graph.unlink().unwrap_err(),
        UnlinkError::IndexTooLarge { entity_kind: EntityKind::Thing }
    );
    for _ in 0..65536 {
        graph.add_vertex(vertex(0, 0));
    }
    assert_eq!(
        graph.unlink().unwrap_err(),
        UnlinkError::IndexTooLarge { entity_kind: EntityKind::Vertex }
    );
}

#[test]
fn a_level_of_the_largest_size_links_and_unlinks() {
    let raw = RawMap {
        name: name("FULL"),
        vertexes: (0..65535).map(|i| vertex((i % 1000) as i16, 0)).collect(),
        line_defs: vec![line(65534, 0, 0, None)],
        sectors: vec![a_sector(0)],
        side_defs: vec![side(0)],
        things: vec![],
    };
    assert_eq!(raw.link().unwrap().unlink().unwrap(), raw);
}

#[test]
fn kinds_read_as_text() {
    assert_eq!(EntityKind::Vertex.to_text(), "vertex");
    assert_eq!(EntityKind::LineDef.to_text(), "line_def");
    assert_eq!(EntityKind::Sector.to_text(), "sector");
    assert_eq!(EntityKind::SideDef.to_text(), "side_def");
    assert_eq!(EntityKind::Thing.to_text(), "thing");
}
