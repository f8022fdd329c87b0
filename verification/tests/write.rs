use waddle::map::line_def::{Flags, RawLineDef, TriggerFlags};
use waddle::map::sector::Sector;
use waddle::map::side_def::RawSideDef;
use waddle::map::special::Special;
use waddle::map::thing::Thing;
use waddle::map::udmf::entities::UdmfBlock;
use waddle::map::udmf::write::{
    int_to_text, nat_to_text, write_assignment, write_blank_line, write_block, write_comment,
    UdmfBlockWriter, UdmfWriter,
};
use waddle::map::udmf::{
    MissingAssignments, ValidIdentifiers, ValidValueTypes, Value, ValueType, WriteError,
};
use waddle::map::vertex::Vertex;
use waddle::map::{sector, thing, EntityKind, LinkedMap, RawMap, UnlinkError};
use waddle::{Decimal, Point, String8};

fn name(text: &str) -> String8 {
    String8::new(text).unwrap()
}

fn written<E: UdmfBlock>(entity: &E) -> String {
    let mut text = String::new();
    entity.write(&mut text).unwrap();
    text
}

#[test]
fn values_read_as_the_format_takes_them() {
    assert_eq!(Value::Int(0).to_text(), "0");
    assert_eq!(Value::Int(-40).to_text(), "-40");
    assert_eq!(Value::Int(i32::MAX).to_text(), "2147483647");
    assert_eq!(Value::Int(i32::MIN).to_text(), "-2147483648");
    assert_eq!(Value::Bool(true).to_text(), "true");
    assert_eq!(Value::Bool(false).to_text(), "false");
    assert_eq!(Value::Str("STONE2".to_string()).to_text(), "\"STONE2\"");
    assert_eq!(Value::Str(String::new()).to_text(), "\"\"");
    assert_eq!(
        Value::Float(Decimal { negative: true, mantissa: 125, exponent: -2 }).to_text(),
        "-125e-2"
    );
    assert_eq!(
        Value::Float(Decimal { negative: false, mantissa: 0, exponent: 0 }).to_text(),
        "0e0"
    );
    assert_eq!(nat_to_text(u64::MAX), "18446744073709551615");
    assert_eq!(nat_to_text(10), "10");
    assert_eq!(int_to_text(-9), "-9");
    assert_eq!(Value::Int(7).value_type(), ValueType::Int);
    assert_eq!(Value::Bool(true).value_type(), ValueType::Bool);
}

#[test]
fn lines_are_written() {
    let mut text = String::new();
    assert_eq!(text.indent(), 0);
    write_comment(&mut text, "Vertexes");
    write_assignment(&mut text, "namespace", &Value::Str("zdoom".to_string()));
    write_blank_line(&mut text);
    write_assignment(&mut text, "x", &Value::Int(-3));
    assert_eq!(text, "//Vertexes\nnamespace=\"zdoom\";\n\nx=-3;\n");
}

#[test]
fn a_block_indents_its_assignments() {
    let mut text = String::new();
    {
        let mut block = UdmfBlockWriter(&mut text);
        assert_eq!(block.indent(), 2);
        block.start("vertex");
        write_assignment(&mut block, "x", &Value::Int(1));
        write_comment(&mut block, "inside");
        {
            let mut inner = UdmfBlockWriter(&mut block);
            assert_eq!(inner.indent(), 4);
            write_assignment(&mut inner, "deep", &Value::Bool(true));
        }
        block.end();
    }
    assert_eq!(text, "vertex {\n  x=1;\n  //inside\n    deep=true;\n}\n");

    let mut text = String::from("// before\n");
    write_block(
        &mut text,
        "thing",
        &vec![("x", Value::Int(1)), ("name", Value::Str("a".to_string()))],
    );
    write_block(&mut text, "empty", &vec![]);
    assert_eq!(text, "// before\nthing {\n  x=1;\n  name=\"a\";\n}\nempty {\n}\n");
}

#[test]
fn a_vertex_is_written() {
    assert_eq!(
        written(&Vertex { position: Point::new(-96, 32) }),
        "vertex {\n  x=-96;\n  y=32;\n}\n"
    );
}

#[test]
fn a_side_is_written_without_its_defaults() {
    let plain = RawSideDef {
        sector_idx: 3,
        offset: Point::new(0, 0),
        upper_texture: name("-"),
        middle_texture: name("-"),
        lower_texture: name("-"),
    };
    assert_eq!(written(&plain), "sidedef {\n  sector=3;\n}\n");
    let full = RawSideDef {
        sector_idx: 0,
        offset: Point::new(-8, 16),
        upper_texture: name("UP"),
        middle_texture: name("-"),
        lower_texture: name("LOW"),
    };
    assert_eq!(
        written(&full),
        "sidedef {\n  offsetx=-8;\n  offsety=16;\n  sector=0;\n  texturetop=\"UP\";\n  texturebottom=\"LOW\";\n}\n"
    );
}

#[test]
fn a_sector_is_written_without_its_defaults() {
    let plain = Sector {
        floor_height: 0,
        ceiling_height: 0,
        floor_flat: name("MFLR8_1"),
        ceiling_flat: name("-"),
        light_level: 160,
        special: sector::Special::Nothing,
        tag: 0,
    };
    assert_eq!(
        written(&plain),
        "sector {\n  texturefloor=\"MFLR8_1\";\n  textureceiling=\"-\";\n}\n"
    );
    let full = Sector {
        floor_height: -16,
        ceiling_height: 128,
        floor_flat: name("A"),
        ceiling_flat: name("B"),
        light_level: 0,
        special: sector::Special::Nothing,
        tag: 5,
    };
    assert_eq!(
        written(&full),
        "sector {\n  heightfloor=-16;\n  heightceiling=128;\n  texturefloor=\"A\";\n  textureceiling=\"B\";\n  lightlevel=0;\n  id=5;\n}\n"
    );
    assert_eq!(sector::Special::Nothing.code(), 0);
    assert_eq!(sector::Special::from_code(0), Ok(sector::Special::Nothing));
    assert_eq!(sector::Special::from_code(9), Err(9));
    assert_eq!(sector::Special::default(), sector::Special::Nothing);
}

#[test]
fn a_thing_is_written_without_its_defaults() {
    let plain = Thing {
        position: Point::new(1, -2),
        height: 0,
        angle: 0,
        type_: 3004,
        flags: thing::Flags::new(),
        special: thing::Special::Nothing,
    };
    assert_eq!(written(&plain), "thing {\n  x=1;\n  y=-2;\n  type=3004;\n}\n");
    let full = Thing {
        position: Point::new(0, 0),
        height: 8,
        angle: 270,
        type_: 1,
        flags: thing::Flags {
            skill2: false,
            dm: false,
            mbf_friend: true,
            class3: true,
            invisible: true,
            npc: true,
            translucent: true,
            strife_ally: true,
            ..thing::Flags::new()
        },
        special: thing::Special::default(),
    };
    assert_eq!(
        written(&full),
        "thing {\n  x=0;\n  y=0;\n  height=8;\n  angle=270;\n  type=1;\n  skill2=false;\n  dm=false;\n  friend=true;\n  class3=true;\n  invisible=true;\n  standing=true;\n  translucent=true;\n  strifeally=true;\n}\n"
    );
}

#[test]
fn a_line_is_written_without_its_defaults() {
    let plain = RawLineDef {
        from_idx: 1,
        to_idx: 0,
        left_side_idx: 2,
        right_side_idx: None,
        flags: Flags::default(),
        special: Special::Nothing,
        trigger_flags: TriggerFlags::default(),
    };
    assert_eq!(written(&plain), "linedef {\n  v1=1;\n  v2=0;\n  sidefront=2;\n}\n");
    let full = RawLineDef {
        from_idx: 65535,
        to_idx: 0,
        left_side_idx: 2,
        right_side_idx: Some(3),
        flags: Flags { impassable: true, two_sided: true, secret: true, ..Flags::default() },
        special: Special::DoorRaise { tag: 4, speed: 16, delay: 0, light_tag: -1 },
        trigger_flags: TriggerFlags { player_cross: true, repeats: true, ..TriggerFlags::default() },
    };
    assert_eq!(
        written(&full),
        "linedef {\n  v1=65535;\n  v2=0;\n  sidefront=2;\n  sideback=3;\n  blocking=true;\n  twosided=true;\n  secret=true;\n  special=12;\n  arg0=4;\n  arg1=16;\n  arg3=-1;\n  playercross=true;\n  repeatspecial=true;\n}\n"
    );
}

fn small_level() -> RawMap {
    RawMap {
        name: name("MAP01"),
        vertexes: vec![Vertex { position: Point::new(1, 2) }, Vertex { position: Point::new(3, 4) }],
        line_defs: vec![RawLineDef {
            from_idx: 0,
            to_idx: 1,
            left_side_idx: 0,
            right_side_idx: None,
            flags: Flags { impassable: true, ..Flags::default() },
            special: Special::Nothing,
            trigger_flags: TriggerFlags::default(),
        }],
        sectors: vec![Sector {
            floor_height: 0,
            ceiling_height: 128,
            floor_flat: name("F"),
            ceiling_flat: name("C"),
            light_level: 160,
            special: sector::Special::Nothing,
            tag: 0,
        }],
        side_defs: vec![RawSideDef {
            sector_idx: 0,
            offset: Point::new(0, 0),
            upper_texture: name("-"),
            middle_texture: name("STONE2"),
            lower_texture: name("-"),
        }],
        things: vec![],
    }
}

const SMALL_LEVEL: &str = "//Written by waddle v0.1.0
namespace=\"zdoom\";
//Vertexes
//#0
vertex {
  x=1;
  y=2;
}

//#1
vertex {
  x=3;
  y=4;
}

//Line Defs
//#0
linedef {
  v1=0;
  v2=1;
  sidefront=0;
  blocking=true;
}

//Sectors
//#0
sector {
  heightceiling=128;
  texturefloor=\"F\";
  textureceiling=\"C\";
}

//Side Defs
//#0
sidedef {
  sector=0;
  texturemiddle=\"STONE2\";
}

//Things
";

#[test]
fn a_level_is_written_kind_by_kind() {
    assert_eq!(small_level().to_udmf_textmap().unwrap(), SMALL_LEVEL);
    let graph = small_level().link().unwrap();
    assert_eq!(graph.to_udmf_textmap().unwrap(), SMALL_LEVEL);
    let mut text = String::from("// head\n");
    graph.write_udmf_textmap(&mut text).unwrap();
    assert_eq!(text, format!("// head\n{}", SMALL_LEVEL));
}

#[test]
fn names_that_are_not_utf8_are_not_written() {
    let mut level = small_level();
    level.sectors[0].floor_flat = String8::from_bytes(&[0xff]).unwrap();
    assert!(matches!(level.to_udmf_textmap(), Err(WriteError::String8Utf8(_))));
    let graph = level.link().unwrap();
    let mut text = String::from("kept");
    assert!(matches!(graph.write_udmf_textmap(&mut text), Err(WriteError::String8Utf8(_))));
    assert_eq!(text, "kept");
    let mut block = String::new();
    assert!(matches!(level.sectors[0].write(&mut block), Err(WriteError::String8Utf8(_))));
    assert_eq!(block, "");
}

#[test]
fn a_graph_that_does_not_unlink_is_not_written() {
    let mut graph = LinkedMap::new(name("HUGE"));
    for _ in 0..65536 {
        graph.add_vertex(Vertex { position: Point::new(0, 0) });
    }
    assert_eq!(
        graph.to_udmf_textmap(),
        Err(WriteError::Unlink(UnlinkError::IndexTooLarge { entity_kind: EntityKind::Vertex }))
    );
}

#[test]
fn lists_read_as_text() {
    assert_eq!(ValidIdentifiers(vec![]).to_text(), "<none>");
    assert_eq!(ValidIdentifiers(vec!["x"]).to_text(), "x");
    assert_eq!(ValidIdentifiers(vec!["x", "y", "z"]).to_text(), "x, y, z");
    assert_eq!(MissingAssignments(vec![]).to_text(), "none???");
    assert_eq!(MissingAssignments(vec!["v1"]).to_text(), "v1 were not assigned");
    assert_eq!(MissingAssignments(vec!["v1", "v2"]).to_text(), "v1, v2 were not assigned");
    assert_eq!(ValidValueTypes(vec![]).to_text(), "none???");
    assert_eq!(ValidValueTypes(vec![ValueType::Int]).to_text(), "integer");
    assert_eq!(
        ValidValueTypes(vec![ValueType::Int, ValueType::Float]).to_text(),
        "one of integer or float"
    );
    assert_eq!(
        ValidValueTypes(vec![ValueType::Int, ValueType::Float, ValueType::Str, ValueType::Bool])
            .to_text(),
        "one of integer, float, string or boolean"
    );
    assert_eq!(ValueType::Str.to_text(), "string");
    assert_eq!(ValueType::Bool.name(), "boolean");
}
