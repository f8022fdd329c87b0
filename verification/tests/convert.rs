use std::convert::TryFrom;

use waddle::map::line_def::{DoomSpecial, Flags, TriggerFlags, UdmfSpecial};
use waddle::map::sector;
use waddle::map::special::Special;
use waddle::map::udmf::ast::{AssignmentExpr, Block, GlobalExpr, Spanned, TranslationUnit};
use waddle::map::udmf::parse::parse_translation_unit;
use waddle::map::udmf::{CompileError, Identifier, LoadError, MissingAssignments, Value};
use waddle::map::LinkedMap;
use waddle::{Decimal, IntoString8Error, Number, String8};

#[test]
fn names_convert_from_text_and_bytes() {
    assert_eq!(String8::try_from("STONE2"), String8::new("STONE2"));
    assert_eq!(String8::try_from(&b"STONE2"[..]), String8::from_bytes(b"STONE2"));
    assert_eq!(String8::try_from("TOO LONG!"), Err(IntoString8Error::TooLong { length: 9 }));
    assert_eq!(String8::try_from(&b"a\0b"[..]), Err(IntoString8Error::InteriorNul { position: 1 }));
}

#[test]
fn flags_convert_from_and_to_bits() {
    let flags = Flags::from(0b0_0010_0001i16);
    assert_eq!(flags, Flags { impassable: true, secret: true, ..Flags::default() });
    assert_eq!(i16::from(flags), 0b0_0010_0001);
    assert_eq!(i16::from(Flags { already_on_map: true, ..Flags::default() }), 256);
    assert_eq!(i16::from(Flags::default()), 0);
}

#[test]
fn sector_specials_convert_from_and_to_codes() {
    assert_eq!(i16::from(sector::Special::Nothing), 0);
    assert_eq!(sector::Special::try_from(0), Ok(sector::Special::Nothing));
    assert_eq!(sector::Special::try_from(-4), Err(-4));
}

#[test]
fn specials_convert_from_and_to_their_spellings() {
    let special = Special::DoorClose { tag: 7, speed: 16, light_tag: 3 };
    assert_eq!(UdmfSpecial::from(special), UdmfSpecial::new(10, [7, 16, 3, 0, 0]));
    assert_eq!(Special::try_from(UdmfSpecial::new(10, [7, 16, 3, 0, 0])), Ok(special));
    let wrong = UdmfSpecial::new(10, [0, 0, 0, 0, 9]);
    assert_eq!(Special::try_from(wrong), Err(wrong));
    assert_eq!(
        <(Special, TriggerFlags)>::try_from(DoomSpecial::new(3, 7)),
        Ok((
            Special::DoorClose { tag: 7, speed: 16, light_tag: 0 },
            TriggerFlags { player_cross: true, ..TriggerFlags::default() }
        ))
    );
    let unlisted = DoomSpecial::new(999, 7);
    assert_eq!(<(Special, TriggerFlags)>::try_from(unlisted), Err(unlisted));
}

#[test]
fn values_convert_from_numbers() {
    assert_eq!(Value::from(Number::Int(4)), Value::Int(4));
    let half = Decimal { negative: false, mantissa: 5, exponent: -1 };
    assert_eq!(Value::from(Number::Float(half)), Value::Float(half));
    assert_eq!(Value::from_number(Number::Int(-1)), Value::Int(-1));
}

#[test]
fn syntax_trees_are_cloned_whole() {
    let unit = parse_translation_unit("namespace=\"zdoom\"; vertex { x=1; y=2.5; }").unwrap();
    assert_eq!(unit.clone(), unit);
    let copy: TranslationUnit = unit.clone();
    match (&copy.expressions[1], &unit.expressions[1]) {
        (GlobalExpr::Block(a), GlobalExpr::Block(b)) => {
            let block: Block = b.item.clone();
            assert_eq!(a.item, block);
            let first: Spanned<AssignmentExpr> = block.assignments[0].clone();
            assert_eq!(first, b.item.assignments[0]);
            let name: Identifier = first.item.identifier.item.clone();
            assert_eq!(name.as_str(), "x");
        }
        other => panic!("{:?}", other),
    }
}

#[test]
fn loading_reports_what_does_not_compile() {
    assert_eq!(
        LinkedMap::load_udmf_textmap(String8::new("MAP01").unwrap(), "vertex { x=1; }").unwrap_err(),
        LoadError::Compile(Box::new(CompileError::MissingAssignments {
            missing: MissingAssignments(vec!["y"]),
            span: 0..6,
        }))
    );
}
