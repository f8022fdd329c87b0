use waddle::map::line_def::{Flags, RawLineDef, TriggerFlags};
use waddle::map::sector::Sector;
use waddle::map::side_def::RawSideDef;
use waddle::map::special::Special;
use waddle::map::thing::Thing;
use waddle::map::udmf::ast::{AssignmentExpr, Block, GlobalExpr, Spanned, TranslationUnit};
use waddle::map::udmf::compile::{
    expect_bool_value, expect_i16_value, expect_int_value, expect_str8_value, expect_str_value,
    expect_u16_value, expect_u8_value,
};
use waddle::map::udmf::entities::UdmfBlock;
use waddle::map::udmf::parse::parse_translation_unit;
use waddle::map::udmf::{
    CompileError, Identifier, MissingAssignments, ValidIdentifiers, ValidValueTypes, Value,
    ValueType,
};
use waddle::map::vertex::Vertex;
use waddle::map::{sector, thing, RawMap};
use waddle::{Decimal, IntoString8Error, Point, String8};

fn name(text: &str) -> String8 {
    String8::new(text).unwrap()
}

fn compile(source: &str) -> Result<RawMap, CompileError> {
    parse_translation_unit(source)
        .unwrap()
        .compile(name("MAP01"))
        .map_err(|e| *e)
}

fn assign(key: &str, value: Value) -> Spanned<AssignmentExpr> {
    Spanned::wrap((
        AssignmentExpr {
            identifier: Spanned::wrap((Identifier::new(key), 10..12)),
            value: Spanned::wrap((value, 13..15)),
        },
        10..16,
    ))
}

fn type_error(key: &str, value: Value, expected: Vec<ValueType>) -> Box<CompileError> {
    Box::new(CompileError::InvalidAssignmentType {
        identifier: Identifier::new(key),
        value,
        expected: ValidValueTypes(expected),
        identifier_span: 10..12,
        value_span: 13..15,
    })
}

#[test]
fn numeric_coercion() {
    let whole = compile("vertex { x=5; y=0; }").unwrap();
    let fraction = compile("vertex { x=5.0; y=0; }").unwrap();
    assert_eq!(whole.vertexes, vec![Vertex { position: Point::new(5, 0) }]);
    assert_eq!(fraction.vertexes, whole.vertexes);
    assert_eq!(compile("vertex { x=0.5e1; y=50e-1; }").unwrap().vertexes[0].position, Point::new(5, 5));
    assert_eq!(
        compile("vertex { x=5.5; y=0; }"),
        Err(CompileError::InvalidAssignmentType {
            identifier: Identifier::new("x"),
            value: Value::Float(Decimal { negative: false, mantissa: 55, exponent: -1 }),
            expected: ValidValueTypes(vec![ValueType::Int, ValueType::Float]),
            identifier_span: 9..10,
            value_span: 11..14,
        })
    );
}

#[test]
fn coordinates_must_fit_sixteen_bits() {
    assert_eq!(compile("vertex { x=32767; y=-32768; }").unwrap().vertexes[0].position, Point::new(32767, -32768));
    for text in ["32768", "-32769", "32768.0", "1e10", "4e9", "-1e300"] {
        let source = format!("vertex {{ x={}; y=0; }}", text);
        assert_eq!(
            compile(&source),
            Err(CompileError::OutOfRange {
                identifier: Identifier::new("x"),
                range: -32768..=32767,
                span: 11..11 + text.len(),
            }),
            "{}",
            text
        );
    }
    assert!(matches!(
        compile("vertex { x=\"1\"; y=0; }"),
        Err(CompileError::InvalidAssignmentType { .. })
    ));
}

#[test]
fn missing_field_detection() {
    assert_eq!(
        compile("linedef { v2=1; sidefront=0; }"),
        Err(CompileError::MissingAssignments {
            missing: MissingAssignments(vec!["v1"]),
            span: 0..7,
        })
    );
}

#[test]
fn every_missing_field_is_named_in_order() {
    assert_eq!(
        compile("  linedef { blocking=true; }"),
        Err(CompileError::MissingAssignments {
            missing: MissingAssignments(vec!["v1", "v2", "sidefront"]),
            span: 2..9,
        })
    );
    assert_eq!(
        compile("vertex { }"),
        Err(CompileError::MissingAssignments { missing: MissingAssignments(vec!["x", "y"]), span: 0..6 })
    );
    assert_eq!(
        compile("sector { textureceiling=\"A\"; }"),
        Err(CompileError::MissingAssignments {
            missing: MissingAssignments(vec!["texturefloor"]),
            span: 0..6,
        })
    );
    assert_eq!(
        compile("sidedef { }"),
        Err(CompileError::MissingAssignments { missing: MissingAssignments(vec!["sector"]), span: 0..7 })
    );
    assert_eq!(
        compile("thing { y=1; }"),
        Err(CompileError::MissingAssignments { missing: MissingAssignments(vec!["x", "type"]), span: 0..5 })
    );
}

#[test]
fn duplicate_assignment_detection() {
    assert_eq!(
        compile("sector { id=1; id=2; }"),
        Err(CompileError::MultipleAssignment {
            identifier: Identifier::new("id"),
            previous_span: 9..14,
            span: 15..20,
        })
    );
}

#[test]
fn the_kind_of_value_is_checked_before_the_duplicate() {
    assert!(matches!(
        compile("sector { id=1; id=\"x\"; }"),
        Err(CompileError::InvalidAssignmentType { .. })
    ));
    assert!(matches!(
        compile("sector { id=1; id=40000; }"),
        Err(CompileError::OutOfRange { .. })
    ));
    assert!(matches!(
        compile("sector { id=1; nope=1; id=2; }"),
        Err(CompileError::InvalidAssignment { .. })
    ));
}

#[test]
fn unknown_fields_are_refused() {
    assert_eq!(
        compile("vertex { x=1; z=2; y=3; }"),
        Err(CompileError::InvalidAssignment {
            identifier: Identifier::new("z"),
            valid: ValidIdentifiers(vec!["x", "y"]),
            span: 14..18,
        })
    );
    match compile("sidedef { sector=0; v1=3; }") {
        Err(CompileError::InvalidAssignment { valid, .. }) => assert_eq!(
            valid,
            ValidIdentifiers(vec![
                "offsetx",
                "offsety",
                "sector",
                "texturetop",
                "texturemiddle",
                "texturebottom"
            ])
        ),
        other => panic!("{:?}", other),
    }
    assert!(matches!(
        compile("vertex { X=1; y=2; }"),
        Err(CompileError::InvalidAssignment { .. })
    ));
}

#[test]
fn unknown_blocks_are_refused() {
    assert_eq!(
        compile("vertex { x=1; y=2; } wall { }"),
        Err(CompileError::InvalidBlock {
            identifier: Identifier::new("wall"),
            valid: ValidIdentifiers(vec!["vertex", "linedef", "sector", "sidedef", "thing"]),
            span: 21..25,
        })
    );
}

#[test]
fn only_the_namespace_is_assigned_at_the_top() {
    assert!(compile("namespace=\"zdoom\";").is_ok());
    assert_eq!(
        compile("version=1;"),
        Err(CompileError::InvalidBlock {
            identifier: Identifier::new("version"),
            valid: ValidIdentifiers(vec!["vertex", "linedef", "sector", "sidedef", "thing"]),
            span: 0..7,
        })
    );
    assert_eq!(
        compile("vertex=1;"),
        Err(CompileError::InvalidAssignment {
            identifier: Identifier::new("vertex"),
            valid: ValidIdentifiers(vec!["namespace"]),
            span: 0..9,
        })
    );
    assert!(matches!(compile("namespace { }"), Err(CompileError::InvalidBlock { .. })));
    assert_eq!(
        compile("namespace=1;"),
        Err(CompileError::InvalidAssignmentType {
            identifier: Identifier::new("namespace"),
            value: Value::Int(1),
            expected: ValidValueTypes(vec![ValueType::Str]),
            identifier_span: 0..9,
            value_span: 10..11,
        })
    );
    assert_eq!(
        compile("namespace=\"a\"; vertex { x=1; y=1; } namespace=\"b\";"),
        Err(CompileError::MultipleAssignment {
            identifier: Identifier::new("namespace"),
            previous_span: 0..14,
            span: 36..50,
        })
    );
}

#[test]
fn numbers_must_fit_their_fields() {
    assert_eq!(
        compile("sector { texturefloor=\"A\"; textureceiling=\"B\"; lightlevel=256; }"),
        Err(CompileError::OutOfRange {
            identifier: Identifier::new("lightlevel"),
            range: 0..=255,
            span: 58..61,
        })
    );
    assert_eq!(
        compile("linedef { v1=-1; }"),
        Err(CompileError::OutOfRange { identifier: Identifier::new("v1"), range: 0..=65535, span: 13..15 })
    );
    assert_eq!(
        compile("linedef { v1=65536; }"),
        Err(CompileError::OutOfRange { identifier: Identifier::new("v1"), range: 0..=65535, span: 13..18 })
    );
    assert_eq!(
        compile("sector { heightfloor=-32769; }"),
        Err(CompileError::OutOfRange {
            identifier: Identifier::new("heightfloor"),
            range: -32768..=32767,
            span: 21..27,
        })
    );
    let edge = compile(
        "sector { texturefloor=\"A\"; textureceiling=\"B\"; lightlevel=255; heightfloor=-32768; heightceiling=32767; id=7; }",
    )
    .unwrap();
    assert_eq!(
        edge.sectors,
        vec![Sector {
            floor_height: -32768,
            ceiling_height: 32767,
            floor_flat: name("A"),
            ceiling_flat: name("B"),
            light_level: 255,
            special: sector::Special::Nothing,
            tag: 7,
        }]
    );
    assert_eq!(compile("linedef { v1=65535; v2=0; sidefront=0; }").unwrap().line_defs[0].from_idx, 65535);
}

#[test]
fn whole_number_fields_take_no_fraction() {
    assert_eq!(
        compile("sector { heightfloor=1.0; }"),
        Err(CompileError::InvalidAssignmentType {
            identifier: Identifier::new("heightfloor"),
            value: Value::Float(Decimal { negative: false, mantissa: 10, exponent: -1 }),
            expected: ValidValueTypes(vec![ValueType::Int]),
            identifier_span: 9..20,
            value_span: 21..24,
        })
    );
    assert!(matches!(
        compile("linedef { blocking=1; }"),
        Err(CompileError::InvalidAssignmentType { .. })
    ));
}

#[test]
fn texture_names_must_be_names_of_eight_bytes() {
    assert_eq!(
        compile("sidedef { sector=0; texturetop=\"TOOLONG99\"; }"),
        Err(CompileError::String8Invalid { error: IntoString8Error::TooLong { length: 9 }, span: 31..42 })
    );
    assert_eq!(
        compile("sidedef { sector=0; texturetop=7; }"),
        Err(CompileError::InvalidAssignmentType {
            identifier: Identifier::new("texturetop"),
            value: Value::Int(7),
            expected: ValidValueTypes(vec![ValueType::Str]),
            identifier_span: 20..30,
            value_span: 31..32,
        })
    );
}

#[test]
fn sides_take_their_defaults() {
    let level = compile("sidedef { sector=3; } sidedef { sector=4; offsetx=-1; offsety=2; texturetop=\"A\"; texturemiddle=\"B\"; texturebottom=\"C\"; }").unwrap();
    assert_eq!(
        level.side_defs,
        vec![
            RawSideDef {
                sector_idx: 3,
                offset: Point::new(0, 0),
                upper_texture: name("-"),
                middle_texture: name("-"),
                lower_texture: name("-"),
            },
            RawSideDef {
                sector_idx: 4,
                offset: Point::new(-1, 2),
                upper_texture: name("A"),
                middle_texture: name("B"),
                lower_texture: name("C"),
            },
        ]
    );
}

#[test]
fn sectors_take_their_defaults() {
    let level = compile("sector { texturefloor=\"F\"; textureceiling=\"C\"; special=0; }").unwrap();
    assert_eq!(
        level.sectors,
        vec![Sector {
            floor_height: 0,
            ceiling_height: 0,
            floor_flat: name("F"),
            ceiling_flat: name("C"),
            light_level: 160,
            special: sector::Special::Nothing,
            tag: 0,
        }]
    );
}

#[test]
fn sector_specials_must_be_known() {
    assert_eq!(
        compile("sector { texturefloor=\"F\"; textureceiling=\"C\"; special=9; }"),
        Err(CompileError::SectorSpecial { value: 9, span: 47..57 })
    );
}

#[test]
fn things_take_their_defaults() {
    let level = compile("thing { x=1; y=-2.0; type=3004; }").unwrap();
    assert_eq!(
        level.things,
        vec![Thing {
            position: Point::new(1, -2),
            height: 0,
            angle: 0,
            type_: 3004,
            flags: thing::Flags::new(),
            special: thing::Special::Nothing,
        }]
    );
    assert_eq!(thing::Flags::new(), thing::Flags::default());
    assert!(thing::Flags::new().skill1 && thing::Flags::new().coop && !thing::Flags::new().dormant);
}

#[test]
fn things_take_what_is_assigned() {
    let level = compile(
        "thing { x=1; y=2; type=1; height=8; angle=90; skill1=false; ambush=false; friend=true; standing=true; strifeally=true; special=0; }",
    )
    .unwrap();
    let thing = level.things[0];
    assert_eq!((thing.height, thing.angle), (8, 90));
    assert_eq!(
        thing.flags,
        thing::Flags {
            skill1: false,
            ambush: false,
            mbf_friend: true,
            npc: true,
            strife_ally: true,
            ..thing::Flags::new()
        }
    );
    assert_eq!(
        compile("thing { x=1; y=2; type=1; special=80; }"),
        Err(CompileError::LineDefSpecial {
            value: 80,
            special_span: 26..37,
            arg0_span: None,
            arg1_span: None,
            arg2_span: None,
            arg3_span: None,
            arg4_span: None,
        })
    );
}

#[test]
fn lines_take_their_defaults() {
    let level = compile("linedef { v1=1; v2=2; sidefront=3; }").unwrap();
    assert_eq!(
        level.line_defs,
        vec![RawLineDef {
            from_idx: 1,
            to_idx: 2,
            left_side_idx: 3,
            right_side_idx: None,
            flags: Flags::default(),
            special: Special::Nothing,
            trigger_flags: TriggerFlags::default(),
        }]
    );
}

#[test]
fn lines_take_what_is_assigned() {
    let level = compile(
        "linedef { sideback=4; v1=1; v2=2; sidefront=3; twosided=true; dontpegtop=true; mapped=true; blocking=false; special=10; arg0=7; arg1=16; playeruse=true; repeatspecial=true; monsteractivate=true; }",
    )
    .unwrap();
    assert_eq!(
        level.line_defs,
        vec![RawLineDef {
            from_idx: 1,
            to_idx: 2,
            left_side_idx: 3,
            right_side_idx: Some(4),
            flags: Flags {
                two_sided: true,
                upper_unpegged: true,
                already_on_map: true,
                ..Flags::default()
            },
            special: Special::DoorClose { tag: 7, speed: 16, light_tag: 0 },
            trigger_flags: TriggerFlags {
                player_use: true,
                repeats: true,
                monsters_activate: true,
                ..TriggerFlags::default()
            },
        }]
    );
}

#[test]
fn line_specials_must_spell_an_action() {
    assert_eq!(
        compile("linedef { v1=1; v2=2; sidefront=3; special=10; arg3=1; arg0=5; }"),
        Err(CompileError::LineDefSpecial {
            value: 10,
            special_span: 35..46,
            arg0_span: Some((55, 62)),
            arg1_span: None,
            arg2_span: None,
            arg3_span: Some((47, 54)),
            arg4_span: None,
        })
    );
    assert!(matches!(
        compile("linedef { v1=1; v2=2; sidefront=3; special=281; }"),
        Err(CompileError::LineDefSpecial { value: 281, .. })
    ));
    let ignored = compile("linedef { v1=1; v2=2; sidefront=3; arg0=5; }").unwrap();
    assert_eq!(ignored.line_defs[0].special, Special::Nothing);
}

#[test]
fn the_first_error_ends_the_compilation() {
    assert!(matches!(
        compile("vertex { x=1; } sector { nope=1; }"),
        Err(CompileError::MissingAssignments { .. })
    ));
    assert!(matches!(
        compile("sector { nope=1; } vertex { x=1; }"),
        Err(CompileError::InvalidAssignment { .. })
    ));
    assert!(matches!(
        compile("linedef { special=281; }"),
        Err(CompileError::MissingAssignments { .. })
    ));
}

#[test]
fn entities_keep_the_order_of_their_blocks() {
    let level = compile("vertex { x=1; y=1; } thing { x=0; y=0; type=1; } vertex { x=2; y=2; } vertex { x=3; y=3; }").unwrap();
    assert_eq!(level.name, name("MAP01"));
    assert_eq!(
        level.vertexes.iter().map(|v| v.position.x).collect::<Vec<_>>(),
        vec![1, 2, 3]
    );
    assert_eq!(level.things.len(), 1);
    assert!(level.line_defs.is_empty() && level.sectors.is_empty() && level.side_defs.is_empty());
}

#[test]
fn values_are_expected_by_kind() {
    assert_eq!(expect_int_value(&assign("k", Value::Int(-9))), Ok(-9));
    assert_eq!(
        expect_int_value(&assign("k", Value::Bool(true))),
        Err(type_error("k", Value::Bool(true), vec![ValueType::Int]))
    );
    assert_eq!(expect_u16_value(&assign("k", Value::Int(65535))), Ok(65535));
    assert_eq!(expect_i16_value(&assign("k", Value::Int(-32768))), Ok(-32768));
    assert_eq!(expect_u8_value(&assign("k", Value::Int(255))), Ok(255));
    assert_eq!(
        expect_u8_value(&assign("k", Value::Int(-1))),
        Err(Box::new(CompileError::OutOfRange {
            identifier: Identifier::new("k"),
            range: 0..=255,
            span: 13..15,
        }))
    );
    assert_eq!(expect_bool_value(&assign("k", Value::Bool(false))), Ok(false));
    assert_eq!(
        expect_bool_value(&assign("k", Value::Int(0))),
        Err(type_error("k", Value::Int(0), vec![ValueType::Bool]))
    );
    assert_eq!(expect_str_value(&assign("k", Value::Str("zdoom".to_string()))), Ok("zdoom".to_string()));
    assert_eq!(
        expect_str_value(&assign("k", Value::Int(0))),
        Err(type_error("k", Value::Int(0), vec![ValueType::Str]))
    );
    assert_eq!(expect_str8_value(&assign("k", Value::Str("FLAT1".to_string()))), Ok(name("FLAT1")));
    assert_eq!(
        expect_str8_value(&assign("k", Value::Str("a\0b".to_string()))),
        Err(Box::new(CompileError::String8Invalid {
            error: IntoString8Error::InteriorNul { position: 1 },
            span: 13..15,
        }))
    );
}

#[test]
fn a_block_compiles_to_its_entity() {
    let block = Block {
        identifier: Spanned::wrap((Identifier::new("vertex"), 0..6)),
        assignments: vec![assign("y", Value::Int(4)), assign("x", Value::Int(3))],
    };
    assert_eq!(Vertex::compile(&block), Ok(Vertex { position: Point::new(3, 4) }));
    let unit = TranslationUnit { expressions: vec![GlobalExpr::Block(Spanned::wrap((block, 0..30)))] };
    assert_eq!(unit.compile(name("E1M1")).unwrap().vertexes.len(), 1);
}
