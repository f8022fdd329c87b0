use waddle::map::line_def::{Flags, RawLineDef, TriggerFlags};
use waddle::map::sector::Sector;
use waddle::map::side_def::RawSideDef;
use waddle::map::special::Special;
use waddle::map::udmf::parse::parse_translation_unit;
use waddle::map::udmf::LoadError;
use waddle::map::vertex::Vertex;
use waddle::map::{sector, EntityKind, LinkError, LinkedMap, RawMap};
use waddle::{Point, String8};

const ROOM: &str = r#"// A square room
namespace="zdoom";

vertex { x=-96; y=32; }
vertex { x=64; y=-64; }
vertex { x=128.0; y=64.0; }
vertex { x=-64; y=96; }

linedef { v1=1; v2=0; sidefront=0; blocking=true; }
linedef { v1=2; v2=1; sidefront=3; blocking=true; }
linedef { v1=3; v2=2; sidefront=2; blocking=true; }
linedef { v1=0; v2=3; sidefront=1; blocking=true; }

sidedef { sector=0; texturemiddle="STONE2"; }
sidedef { sector=0; texturemiddle="STONE2"; }
sidedef { sector=0; texturemiddle="STONE2"; }
sidedef { sector=0; texturemiddle="STONE2"; }

sector
{
    /* the only one */
    texturefloor="MFLR8_1";
    textureceiling="MFLR8_1";
    heightceiling=128;
}
"#;

fn name(text: &str) -> String8 {
    String8::new(text).unwrap()
}

fn wall(from_idx: u16, to_idx: u16, left_side_idx: u16) -> RawLineDef {
    RawLineDef {
        from_idx,
        to_idx,
        left_side_idx,
        right_side_idx: None,
        flags: Flags {
            impassable: true,
            ..Flags::default()
        },
        special: Special::default(),
        trigger_flags: TriggerFlags::default(),
    }
}

fn room() -> RawMap {
    let side = RawSideDef {
        sector_idx: 0,
        offset: Point::new(0, 0),
        upper_texture: name("-"),
        middle_texture: name("STONE2"),
        lower_texture: name("-"),
    };
    RawMap {
        name: name("foo"),
        vertexes: vec![
            Vertex { position: Point::new(-96, 32) },
            Vertex { position: Point::new(64, -64) },
            Vertex { position: Point::new(128, 64) },
            Vertex { position: Point::new(-64, 96) },
        ],
        line_defs: vec![wall(1, 0, 0), wall(2, 1, 3), wall(3, 2, 2), wall(0, 3, 1)],
        sectors: vec![Sector {
            floor_height: 0,
            ceiling_height: 128,
            floor_flat: name("MFLR8_1"),
            ceiling_flat: name("MFLR8_1"),
            light_level: 160,
            special: sector::Special::default(),
            tag: 0,
        }],
        side_defs: vec![side, side, side, side],
        things: vec![],
    }
}

#[test]
fn udmf_parsing() {
    let unit = parse_translation_unit(ROOM).unwrap();
    let result = unit.compile(name("foo")).unwrap();
    assert_eq!(result, room());
}

#[test]
fn room_compiles_and_links() {
    let graph = LinkedMap::load_udmf_textmap(name("foo"), ROOM).unwrap();
    assert_eq!(graph.name(), name("foo"));
    assert_eq!(graph.vertexes().len(), 4);
    assert_eq!(graph.sectors().len(), 1);
    assert_eq!(graph.side_defs().len(), 4);
    assert_eq!(graph.line_defs().len(), 4);
    assert_eq!(graph.things().len(), 0);
    let (_, sector) = graph.sectors()[0];
    assert_eq!(sector.floor_height, 0);
    assert_eq!(sector.ceiling_height, 128);
    assert_eq!(sector.light_level, 160);
    for (_, line) in graph.line_defs() {
        assert!(!line.flags.two_sided);
        assert!(line.flags.impassable);
        assert_eq!(line.right_side, None);
    }
    let sector_key = graph.sectors()[0].0;
    for (_, side) in graph.side_defs() {
        assert_eq!(side.sector, sector_key);
    }
}

#[test]
fn linked_lines_name_their_vertexes_by_key() {
    let graph = room().link().unwrap();
    let vertexes = graph.vertexes();
    let sides = graph.side_defs();
    let lines = graph.line_defs();
    assert_eq!(lines[0].1.from, vertexes[1].0);
    assert_eq!(lines[0].1.to, vertexes[0].0);
    assert_eq!(lines[1].1.left_side, sides[3].0);
    assert_eq!(lines[3].1.from, vertexes[0].0);
    assert_eq!(vertexes[2].1, Vertex { position: Point::new(128, 64) });
    let mut ids: Vec<u64> = vertexes.iter().map(|(key, _)| key.id()).collect();
    ids.dedup();
    assert_eq!(ids.len(), 4);
}

#[test]
fn link_then_unlink_gives_the_level_back() {
    let level = room();
    let graph = level.link().unwrap();
    assert_eq!(graph.unlink().unwrap(), level);
}

#[test]
fn written_level_reads_back() {
    let graph = room().link().unwrap();
    let text = graph.to_udmf_textmap().unwrap();
    let again = LinkedMap::load_udmf_textmap(name("foo"), &text).unwrap();
    assert_eq!(again.unlink().unwrap(), room());
}

#[test]
fn dangling_sector_is_reported() {
    let text = r#"
sector { texturefloor="A"; textureceiling="B"; }
sector { texturefloor="A"; textureceiling="B"; }
sidedef { sector=7; texturemiddle="STONE2"; }
"#;
    let error = LinkedMap::load_udmf_textmap(name("foo"), text).unwrap_err();
    assert_eq!(
        error,
        LoadError::Link(LinkError::IndexOutOfRange {
            referrer: EntityKind::SideDef,
            referrer_index: 0,
            field: "sector",
            referee: EntityKind::Sector,
            referee_index: 7,
        })
    );
}

#[test]
fn syntax_error_carries_the_offset() {
    let error = LinkedMap::load_udmf_textmap(name("foo"), "vertex { x=1; y=2 }").unwrap_err();
    match error {
        LoadError::Parse(e) => assert_eq!(e.offset, 18),
        other => panic!("{:?}", other),
    }
}
