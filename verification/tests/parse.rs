use waddle::map::udmf::ast::{AssignmentExpr, Block, GlobalExpr, Spanned, TranslationUnit};
use waddle::map::udmf::parse::{parse_translation_unit, SyntaxError};
use waddle::map::udmf::{Identifier, Value};
use waddle::Decimal;

fn value_of(text: &str) -> Value {
    let source = format!("k={};", text);
    let unit = parse_translation_unit(&source).unwrap();
    assert_eq!(unit.expressions.len(), 1);
    match unit.expressions.into_iter().next().unwrap() {
        GlobalExpr::AssignmentExpr(a) => {
            assert_eq!(a.item.value.span, 2..2 + text.len());
            a.item.value.item
        }
        other => panic!("{:?}", other),
    }
}

fn offset_of(source: &str) -> usize {
    parse_translation_unit(source).unwrap_err().offset
}

fn float(negative: bool, mantissa: u64, exponent: i32) -> Value {
    Value::Float(Decimal { negative, mantissa, exponent })
}

fn assignment(
    name: &str,
    name_span: std::ops::Range<usize>,
    value: Value,
    value_span: std::ops::Range<usize>,
    span: std::ops::Range<usize>,
) -> Spanned<AssignmentExpr> {
    Spanned::wrap((
        AssignmentExpr {
            identifier: Spanned::wrap((Identifier::new(name), name_span)),
            value: Spanned::wrap((value, value_span)),
        },
        span,
    ))
}

#[test]
fn whole_numbers_are_read() {
    assert_eq!(value_of("0"), Value::Int(0));
    assert_eq!(value_of("5"), Value::Int(5));
    assert_eq!(value_of("-5"), Value::Int(-5));
    assert_eq!(value_of("+5"), Value::Int(5));
    assert_eq!(value_of("007"), Value::Int(7));
    assert_eq!(value_of("-0"), Value::Int(0));
    assert_eq!(value_of("2147483647"), Value::Int(i32::MAX));
    assert_eq!(value_of("-2147483648"), Value::Int(i32::MIN));
}

#[test]
fn whole_numbers_without_room_are_fractions() {
    assert_eq!(value_of("2147483648"), float(false, 2147483648, 0));
    assert_eq!(value_of("-2147483649"), float(true, 2147483649, 0));
    assert_eq!(value_of("18446744073709551615"), float(false, u64::MAX, 0));
    assert_eq!(offset_of("k=18446744073709551616;"), 2);
}

#[test]
fn hexadecimal_numbers_are_read() {
    assert_eq!(value_of("0x0"), Value::Int(0));
    assert_eq!(value_of("0x1F"), Value::Int(31));
    assert_eq!(value_of("0xff"), Value::Int(255));
    assert_eq!(value_of("0x7fffffff"), Value::Int(i32::MAX));
    assert_eq!(value_of("0x0000000000000000000010"), Value::Int(16));
    assert_eq!(offset_of("k=0x80000000;"), 2);
    assert_eq!(offset_of("k=0xffffffffffffffffffff;"), 2);
    assert_eq!(offset_of("k=0x;"), 4);
    assert_eq!(offset_of("k=0xg;"), 4);
}

#[test]
fn fractions_are_read_exactly() {
    assert_eq!(value_of("5.0"), float(false, 50, -1));
    assert_eq!(value_of("5.5"), float(false, 55, -1));
    assert_eq!(value_of("-0.25"), float(true, 25, -2));
    assert_eq!(value_of("5."), float(false, 5, 0));
    assert_eq!(value_of("1e3"), float(false, 1, 3));
    assert_eq!(value_of("1E3"), float(false, 1, 3));
    assert_eq!(value_of("12.5e-3"), float(false, 125, -4));
    assert_eq!(value_of("12.5e+3"), float(false, 125, 2));
    assert_eq!(value_of("+1.50"), float(false, 150, -2));
    assert_eq!(value_of("0.000"), float(false, 0, -3));
    assert_eq!(value_of("1e2147483647"), float(false, 1, i32::MAX));
    assert_eq!(value_of("1e-2147483647"), float(false, 1, -i32::MAX));
    assert_eq!(value_of("1.5e-2147483647"), float(false, 15, i32::MIN));
}

#[test]
fn fractions_without_room_are_refused() {
    assert_eq!(offset_of("k=1844674407370955161.6;"), 2);
    assert_eq!(offset_of("k=1e2147483648;"), 2);
    assert_eq!(offset_of("k=1e-2147483648;"), 2);
    assert_eq!(offset_of("k=1.55e-2147483647;"), 2);
    assert_eq!(offset_of("k=1e99999999999999999999999;"), 2);
}

#[test]
fn numbers_need_their_digits() {
    assert_eq!(offset_of("k=-;"), 3);
    assert_eq!(offset_of("k=+x;"), 3);
    assert_eq!(offset_of("k=.5;"), 2);
    assert_eq!(offset_of("k=1e;"), 4);
    assert_eq!(offset_of("k=1e+;"), 5);
    assert_eq!(offset_of("k=1.5.2;"), 5);
    assert_eq!(offset_of("k=12abc;"), 4);
}

#[test]
fn strings_are_read() {
    assert_eq!(value_of(r#""""#), Value::Str(String::new()));
    assert_eq!(value_of(r#""STONE2""#), Value::Str("STONE2".to_string()));
    assert_eq!(value_of(r#""a b // c""#), Value::Str("a b // c".to_string()));
    assert_eq!(value_of(r#""a\\b""#), Value::Str("a\\b".to_string()));
    assert_eq!(value_of(r#""say \"hi\"""#), Value::Str("say \"hi\"".to_string()));
    assert_eq!(value_of(r#""one\ntwo""#), Value::Str("one\ntwo".to_string()));
    assert_eq!(value_of("\"caf\u{e9} \u{1f600}\""), Value::Str("caf\u{e9} \u{1f600}".to_string()));
    assert_eq!(value_of("\"line\nbreak\""), Value::Str("line\nbreak".to_string()));
}

#[test]
fn strings_must_be_closed_and_escaped_well() {
    assert_eq!(offset_of(r#"k="abc"#), 6);
    assert_eq!(offset_of(r#"k="abc;"#), 7);
    assert_eq!(offset_of(r#"k="a\tb";"#), 4);
    assert_eq!(offset_of(r#"k="a\"#), 4);
    assert_eq!(offset_of(r#"k="a\\"#), 6);
}

#[test]
fn truth_values_are_read_in_any_case() {
    for text in ["true", "TRUE", "True", "tRuE"] {
        assert_eq!(value_of(text), Value::Bool(true));
    }
    for text in ["false", "FALSE", "False", "fAlSe"] {
        assert_eq!(value_of(text), Value::Bool(false));
    }
    assert_eq!(offset_of("k=yes;"), 2);
    assert_eq!(offset_of("k=truely;"), 2);
    assert_eq!(offset_of("k=true1;"), 2);
    assert_eq!(offset_of("k=tru;"), 2);
    assert_eq!(offset_of("k=_;"), 2);
}

#[test]
fn empty_text_is_an_empty_level() {
    assert_eq!(parse_translation_unit(""), Ok(TranslationUnit { expressions: vec![] }));
    assert_eq!(
        parse_translation_unit(" \t\r\n// nothing\n/* at\nall */ "),
        Ok(TranslationUnit { expressions: vec![] })
    );
    assert_eq!(
        parse_translation_unit("// no end of line"),
        Ok(TranslationUnit { expressions: vec![] })
    );
}

#[test]
fn nodes_carry_their_ranges() {
    let unit = parse_translation_unit("a = 1 ;\nvertex { x=2; /* c */ y = -3.5; }").unwrap();
    let expected = TranslationUnit {
        expressions: vec![
            GlobalExpr::AssignmentExpr(assignment("a", 0..1, Value::Int(1), 4..5, 0..7)),
            GlobalExpr::Block(Spanned::wrap((
                Block {
                    identifier: Spanned::wrap((Identifier::new("vertex"), 8..14)),
                    assignments: vec![
                        assignment("x", 17..18, Value::Int(2), 19..20, 17..21),
                        assignment("y", 30..31, float(true, 35, -1), 34..38, 30..39),
                    ],
                },
                8..41,
            ))),
        ],
    };
    assert_eq!(unit, expected);
}

#[test]
fn comments_stand_between_any_two_tokens() {
    let plain = parse_translation_unit("vertex{x=1;y=2;}").unwrap();
    let noisy = parse_translation_unit(
        "/*a*/vertex//b\n{/*c*/x/*d*/=/*e*/1/*f*/;//g\ny/**/=2;/* * / */}//end",
    )
    .unwrap();
    let names = |unit: &TranslationUnit| match &unit.expressions[0] {
        GlobalExpr::Block(b) => b
            .item
            .assignments
            .iter()
            .map(|a| (a.item.identifier.item.as_str().to_string(), a.item.value.item.clone()))
            .collect::<Vec<_>>(),
        other => panic!("{:?}", other),
    };
    assert_eq!(names(&plain), names(&noisy));
    assert_eq!(names(&plain).len(), 2);
}

#[test]
fn names_are_letters_digits_and_underscores() {
    let unit = parse_translation_unit("_a1_B2=1;").unwrap();
    match &unit.expressions[0] {
        GlobalExpr::AssignmentExpr(a) => {
            assert_eq!(a.item.identifier.item, Identifier::new("_a1_B2"));
            assert_eq!(a.item.identifier.item.to_text(), "_a1_B2");
            assert_eq!(a.item.identifier.span, 0..6);
        }
        other => panic!("{:?}", other),
    }
    assert_eq!(offset_of("1a=1;"), 0);
    assert_eq!(offset_of("a-b=1;"), 1);
    assert_eq!(offset_of("caf\u{e9}=1;"), 3);
}

#[test]
fn syntax_errors_carry_their_offset() {
    assert_eq!(parse_translation_unit("x"), Err(SyntaxError { offset: 1 }));
    assert_eq!(parse_translation_unit("x="), Err(SyntaxError { offset: 2 }));
    assert_eq!(parse_translation_unit("x=1"), Err(SyntaxError { offset: 3 }));
    assert_eq!(parse_translation_unit("x=1 y=2;"), Err(SyntaxError { offset: 4 }));
    assert_eq!(parse_translation_unit("x 1;"), Err(SyntaxError { offset: 2 }));
    assert_eq!(parse_translation_unit("; x=1;"), Err(SyntaxError { offset: 0 }));
    assert_eq!(parse_translation_unit("vertex {"), Err(SyntaxError { offset: 8 }));
    assert_eq!(parse_translation_unit("vertex { x=1; "), Err(SyntaxError { offset: 14 }));
    assert_eq!(parse_translation_unit("vertex { x=1; } }"), Err(SyntaxError { offset: 16 }));
    assert_eq!(parse_translation_unit("vertex { vertex { } }"), Err(SyntaxError { offset: 16 }));
    assert_eq!(parse_translation_unit("vertex { 5; }"), Err(SyntaxError { offset: 9 }));
    assert_eq!(parse_translation_unit("x=1; /* open"), Err(SyntaxError { offset: 5 }));
    assert_eq!(parse_translation_unit("x=1; /*/"), Err(SyntaxError { offset: 5 }));
    assert_eq!(parse_translation_unit("x=1; / y=2;"), Err(SyntaxError { offset: 5 }));
}
