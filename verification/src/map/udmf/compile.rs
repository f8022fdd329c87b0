//! From the syntax tree to the entities of a level: every assignment of a block is held
//! against the fields of the block's kind.
//!
//! An assignment is checked in four steps, and the first that fails ends the compilation:
//! the name is a field of the kind; the value is of a kind that the field takes; a number
//! is one that the field has room for; the block has not assigned the field before.

use std::ops::{Range, RangeInclusive};
use vstd::prelude::*;
use vstd::string::StringSliceAdditionalSpecFns;

use crate::map::udmf::ast::{AssignmentExpr, AssignmentView, Block, BlockView, Spanned};
use crate::map::udmf::consts::{BlockKind, FieldType};
use crate::map::udmf::{
    copy_span,
    names_view,
    CompileError,
    CompileErrorView,
    MissingAssignments,
    ValidIdentifiers,
    ValidValueTypes,
    Value,
    ValueType,
    ValueView,
};
use crate::number::Number;
use crate::string8::String8;

verus! {

/// What was asked of the compiler, with the error as what it holds.
pub open spec fn outcome<T>(r: Result<T, Box<CompileError>>) -> Result<T, CompileErrorView> {
    match r {
        Ok(v) => Ok(v),
        Err(e) => Err(e@),
    }
}

/// Whether two texts are the same.
pub fn same_text(a: &str, b: &str) -> (r: bool)
    ensures
        r == (a@ == b@),
{
    let x = a.as_bytes();
    let y = b.as_bytes();
    proof {
        vstd::utf8::encode_utf8_decode_utf8(a@);
        vstd::utf8::encode_utf8_decode_utf8(b@);
    }
    if x.len() != y.len() {
        return false;
    }
    let mut i: usize = 0;
    while i < x.len()
        invariant
            i <= x.len(),
            x.len() == y.len(),
            forall|j: int| 0 <= j < i ==> x@[j] == y@[j],
            x@ == a.spec_bytes(),
            y@ == b.spec_bytes(),
            vstd::utf8::decode_utf8(a.spec_bytes()) == a@,
            vstd::utf8::decode_utf8(b.spec_bytes()) == b@,
        decreases x.len() - i,
    {
        if x[i] != y[i] {
            return false;
        }
        i += 1;
    }
    assert(x@ =~= y@);
    true
}

/// Whether `index` is the first place in `names` at which `name` stands.
pub open spec fn first_at(names: Seq<&'static str>, name: Seq<char>, index: int) -> bool {
    &&& 0 <= index < names.len()
    &&& names[index]@ == name
    &&& forall|j: int| 0 <= j < index ==> names[j]@ != name
}

/// The first place in `names` at which `name` stands, if it stands there at all.
pub open spec fn position(names: Seq<&'static str>, name: Seq<char>) -> Option<int> {
    if exists|i: int| first_at(names, name, i) {
        Some(choose|i: int| first_at(names, name, i))
    } else {
        None
    }
}

/// The first place at which a name stands is its position.
pub proof fn lemma_position_found(names: Seq<&'static str>, name: Seq<char>, index: int)
    requires
        first_at(names, name, index),
    ensures
        position(names, name) == Some(index),
{
    let chosen = choose|i: int| first_at(names, name, i);
    assert(first_at(names, name, chosen));
    if chosen < index {
        assert(names[chosen]@ != name);
    }
}

/// A name that stands nowhere has no position.
pub proof fn lemma_position_absent(names: Seq<&'static str>, name: Seq<char>)
    requires
        forall|j: int| 0 <= j < names.len() ==> names[j]@ != name,
    ensures
        position(names, name) is None,
{
}

/// The place of the field `name` among the fields of a block of the kind `kind`.
pub fn field_index(kind: BlockKind, name: &str) -> (r: Option<usize>)
    ensures
        match position(kind.names(), name@) {
            Some(i) => r == Some(i as usize) && i < kind.count_spec(),
            None => r is None,
        },
{
    let count = kind.count();
    let mut i: usize = 0;
    while i < count
        invariant
            i <= count,
            count == kind.count_spec(),
            count == kind.names().len(),
            forall|j: int| 0 <= j < i ==> kind.names()[j]@ != name@,
        decreases count - i,
    {
        if same_text(kind.name(i), name) {
            proof {
                lemma_position_found(kind.names(), name@, i as int);
            }
            return Some(i);
        }
        i += 1;
    }
    proof {
        lemma_position_absent(kind.names(), name@);
    }
    None
}

/// The names of the fields of a block of the kind `kind`.
pub fn field_names(kind: BlockKind) -> (names: Vec<&'static str>)
    ensures
        names@ == kind.names(),
{
    let count = kind.count();
    let mut names: Vec<&'static str> = Vec::new();
    let mut i: usize = 0;
    while i < count
        invariant
            i <= count,
            count == kind.names().len(),
            names@ == kind.names().subrange(0, i as int),
        decreases count - i,
    {
        names.push(kind.name(i));
        assert(names@ =~= kind.names().subrange(0, i as int + 1));
        i += 1;
    }
    assert(names@ =~= kind.names());
    names
}

/// The error for a value of a kind that a field does not take.
pub open spec fn type_error(expected: Seq<ValueType>, a: AssignmentView) -> CompileErrorView {
    CompileErrorView::InvalidAssignmentType {
        identifier: a.name,
        value: a.value,
        expected,
        identifier_span: a.name_span,
        value_span: a.value_span,
    }
}

/// The error for a number outside the numbers from `min` to `max`.
pub open spec fn range_error(min: i32, max: i32, a: AssignmentView) -> CompileErrorView {
    CompileErrorView::OutOfRange { identifier: a.name, min, max, span: a.value_span }
}

/// `n` where it is one of the numbers from `min` to `max`.
pub open spec fn within(min: i32, max: i32, n: int, a: AssignmentView) -> Result<
    int,
    CompileErrorView,
> {
    if min <= n <= max {
        Ok(n)
    } else {
        Err(range_error(min, max, a))
    }
}

/// The whole number that `a` assigns.
pub open spec fn expect_int_spec(a: AssignmentView) -> Result<i32, CompileErrorView> {
    match a.value {
        ValueView::Int(n) => Ok(n),
        _ => Err(type_error(seq![ValueType::Int], a)),
    }
}

/// The whole number that `a` assigns, where it is one from 0 to 65535.
pub open spec fn expect_u16_spec(a: AssignmentView) -> Result<u16, CompileErrorView> {
    match expect_int_spec(a) {
        Ok(n) => match within(0, 0xffff, n as int, a) {
            Ok(n) => Ok(n as u16),
            Err(e) => Err(e),
        },
        Err(e) => Err(e),
    }
}

/// The whole number that `a` assigns, where it is one from -32768 to 32767.
pub open spec fn expect_i16_spec(a: AssignmentView) -> Result<i16, CompileErrorView> {
    match expect_int_spec(a) {
        Ok(n) => match within(-0x8000i32, 0x7fff, n as int, a) {
            Ok(n) => Ok(n as i16),
            Err(e) => Err(e),
        },
        Err(e) => Err(e),
    }
}

/// The whole number that `a` assigns, where it is one from 0 to 255.
pub open spec fn expect_u8_spec(a: AssignmentView) -> Result<u8, CompileErrorView> {
    match expect_int_spec(a) {
        Ok(n) => match within(0, 0xff, n as int, a) {
            Ok(n) => Ok(n as u8),
            Err(e) => Err(e),
        },
        Err(e) => Err(e),
    }
}

/// The truth value that `a` assigns.
pub open spec fn expect_bool_spec(a: AssignmentView) -> Result<bool, CompileErrorView> {
    match a.value {
        ValueView::Bool(b) => Ok(b),
        _ => Err(type_error(seq![ValueType::Bool], a)),
    }
}

/// The string that `a` assigns.
pub open spec fn expect_str_spec(a: AssignmentView) -> Result<Seq<char>, CompileErrorView> {
    match a.value {
        ValueView::Str(s) => Ok(s),
        _ => Err(type_error(seq![ValueType::Str], a)),
    }
}

/// The name of eight bytes that the string that `a` assigns spells.
pub open spec fn expect_str8_spec(a: AssignmentView) -> Result<String8, CompileErrorView> {
    match a.value {
        ValueView::Str(s) => match String8::rejection(vstd::utf8::encode_utf8(s)) {
            Some(error) => Err(CompileErrorView::String8Invalid { error, span: a.value_span }),
            None => Ok(String8::of_bytes(vstd::utf8::encode_utf8(s))),
        },
        _ => Err(type_error(seq![ValueType::Str], a)),
    }
}

/// The number that `a` assigns, whole or not.
pub open spec fn expect_number_spec(a: AssignmentView) -> Result<Number, CompileErrorView> {
    match a.value {
        ValueView::Int(n) => Ok(Number::Int(n)),
        ValueView::Float(f) => Ok(Number::Float(f)),
        _ => Err(type_error(seq![ValueType::Int, ValueType::Float], a)),
    }
}

/// A coordinate: a number without a fractional part that sixteen bits hold.
pub open spec fn expect_coord_spec(a: AssignmentView) -> Result<i16, CompileErrorView> {
    match expect_number_spec(a) {
        Ok(n) => if !n.is_integral_spec() {
            Err(type_error(seq![ValueType::Int, ValueType::Float], a))
        } else {
            match within(-0x8000i32, 0x7fff, n.int_value(), a) {
                Ok(n) => Ok(n as i16),
                Err(e) => Err(e),
            }
        },
        Err(e) => Err(e),
    }
}

/// The error for a value of a kind that the field does not take.
fn make_type_error(assignment: &Spanned<AssignmentExpr>, expected: Vec<ValueType>) -> (e: Box<
    CompileError,
>)
    ensures
        e@ == type_error(expected@, assignment@),
{
    Box::new(
        CompileError::InvalidAssignmentType {
            identifier: assignment.item.identifier.item.clone(),
            value: assignment.item.value.item.clone(),
            expected: ValidValueTypes(expected),
            identifier_span: copy_span(&assignment.item.identifier.span),
            value_span: copy_span(&assignment.item.value.span),
        },
    )
}

/// The error for a number outside the numbers from `min` to `max`.
fn make_range_error(assignment: &Spanned<AssignmentExpr>, min: i32, max: i32) -> (e: Box<
    CompileError,
>)
    ensures
        e@ == range_error(min, max, assignment@),
{
    Box::new(
        CompileError::OutOfRange {
            identifier: assignment.item.identifier.item.clone(),
            range: RangeInclusive::new(min, max),
            span: copy_span(&assignment.item.value.span),
        },
    )
}

/// The whole number that is assigned.
pub fn expect_int_value(assignment: &Spanned<AssignmentExpr>) -> (r: Result<i32, Box<CompileError>>)
    ensures
        outcome(r) == expect_int_spec(assignment@),
{
    if let Value::Int(value) = &assignment.item.value.item {
        Ok(*value)
    } else {
        let expected = vec![ValueType::Int];
        assert(expected@ =~= seq![ValueType::Int]);
        Err(make_type_error(assignment, expected))
    }
}

/// The whole number that is assigned, where it is one from 0 to 65535.
pub fn expect_u16_value(assignment: &Spanned<AssignmentExpr>) -> (r: Result<u16, Box<CompileError>>)
    ensures
        outcome(r) == expect_u16_spec(assignment@),
{
    match expect_int_value(assignment) {
        Err(e) => Err(e),
        Ok(n) => if 0 <= n && n <= 0xffff {
            Ok(n as u16)
        } else {
            Err(make_range_error(assignment, 0, 0xffff))
        },
    }
}

/// The whole number that is assigned, where it is one from -32768 to 32767.
pub fn expect_i16_value(assignment: &Spanned<AssignmentExpr>) -> (r: Result<i16, Box<CompileError>>)
    ensures
        outcome(r) == expect_i16_spec(assignment@),
{
    match expect_int_value(assignment) {
        Err(e) => Err(e),
        Ok(n) => if -0x8000 <= n && n <= 0x7fff {
            Ok(n as i16)
        } else {
            Err(make_range_error(assignment, -0x8000, 0x7fff))
        },
    }
}

/// The whole number that is assigned, where it is one from 0 to 255.
pub fn expect_u8_value(assignment: &Spanned<AssignmentExpr>) -> (r: Result<u8, Box<CompileError>>)
    ensures
        outcome(r) == expect_u8_spec(assignment@),
{
    match expect_int_value(assignment) {
        Err(e) => Err(e),
        Ok(n) => if 0 <= n && n <= 0xff {
            Ok(n as u8)
        } else {
            Err(make_range_error(assignment, 0, 0xff))
        },
    }
}

/// The truth value that is assigned.
pub fn expect_bool_value(assignment: &Spanned<AssignmentExpr>) -> (r: Result<
    bool,
    Box<CompileError>,
>)
    ensures
        outcome(r) == expect_bool_spec(assignment@),
{
    if let Value::Bool(value) = &assignment.item.value.item {
        Ok(*value)
    } else {
        let expected = vec![ValueType::Bool];
        assert(expected@ =~= seq![ValueType::Bool]);
        Err(make_type_error(assignment, expected))
    }
}

/// The string that is assigned.
pub fn expect_str_value(assignment: &Spanned<AssignmentExpr>) -> (r: Result<
    String,
    Box<CompileError>,
>)
    ensures
        match expect_str_spec(assignment@) {
            Ok(s) => r matches Ok(text) && text@ == s,
            Err(e) => r matches Err(error) && error@ == e,
        },
{
    if let Value::Str(value) = &assignment.item.value.item {
        Ok(value.clone())
    } else {
        let expected = vec![ValueType::Str];
        assert(expected@ =~= seq![ValueType::Str]);
        Err(make_type_error(assignment, expected))
    }
}

/// The name of eight bytes that the assigned string spells.
pub fn expect_str8_value(assignment: &Spanned<AssignmentExpr>) -> (r: Result<
    String8,
    Box<CompileError>,
>)
    ensures
        outcome(r) == expect_str8_spec(assignment@),
{
    if let Value::Str(value) = &assignment.item.value.item {
        match String8::new(value.as_str()) {
            Ok(name) => {
                proof {
                    name.lemma_of_bytes(vstd::utf8::encode_utf8(value@));
                }
                Ok(name)
            },
            Err(error) => Err(
                Box::new(
                    CompileError::String8Invalid {
                        error,
                        span: copy_span(&assignment.item.value.span),
                    },
                ),
            ),
        }
    } else {
        let expected = vec![ValueType::Str];
        assert(expected@ =~= seq![ValueType::Str]);
        Err(make_type_error(assignment, expected))
    }
}

/// The number that is assigned, whole or not.
pub fn expect_number_value(assignment: &Spanned<AssignmentExpr>) -> (r: Result<
    Number,
    Box<CompileError>,
>)
    ensures
        outcome(r) == expect_number_spec(assignment@),
{
    match &assignment.item.value.item {
        Value::Int(i) => Ok(Number::Int(*i)),
        Value::Float(f) => Ok(Number::Float(*f)),
        _ => {
            let expected = vec![ValueType::Int, ValueType::Float];
            assert(expected@ =~= seq![ValueType::Int, ValueType::Float]);
            Err(make_type_error(assignment, expected))
        },
    }
}

/// The coordinate that is assigned: a number without a fractional part, written as a whole
/// number or as a fraction, from -32768 to 32767.
pub fn expect_coord_value(assignment: &Spanned<AssignmentExpr>) -> (r: Result<
    i16,
    Box<CompileError>,
>)
    ensures
        outcome(r) == expect_coord_spec(assignment@),
{
    match expect_number_value(assignment) {
        Err(e) => Err(e),
        Ok(number) => {
            if !number.is_integral() {
                let expected = vec![ValueType::Int, ValueType::Float];
                assert(expected@ =~= seq![ValueType::Int, ValueType::Float]);
                Err(make_type_error(assignment, expected))
            } else {
                let n = number.into_int();
                if -0x8000 <= n && n <= 0x7fff {
                    Ok(n as i16)
                } else {
                    Err(make_range_error(assignment, -0x8000, 0x7fff))
                }
            }
        },
    }
}

/// What a field holds once it is assigned.
#[derive(Clone, Copy, Debug)]
pub enum FieldValue {
    U16(u16),
    I16(i16),
    U8(u8),
    Bool(bool),
    Name(String8),
}

/// A field that was assigned: what it holds, and the range of the assignment.
#[derive(Clone, Copy, Debug)]
pub struct Slot {
    pub value: FieldValue,
    pub start: usize,
    pub end: usize,
}

impl Slot {
    /// The range of the assignment.
    pub open spec fn span(self) -> Range<usize> {
        Range { start: self.start, end: self.end }
    }
}

/// What the assignment `a` gives to a field of the type `ty`.
pub open spec fn read_field_spec(ty: FieldType, a: AssignmentView) -> Result<
    FieldValue,
    CompileErrorView,
> {
    match ty {
        FieldType::U16 => match expect_u16_spec(a) {
            Ok(v) => Ok(FieldValue::U16(v)),
            Err(e) => Err(e),
        },
        FieldType::I16 => match expect_i16_spec(a) {
            Ok(v) => Ok(FieldValue::I16(v)),
            Err(e) => Err(e),
        },
        FieldType::U8 => match expect_u8_spec(a) {
            Ok(v) => Ok(FieldValue::U8(v)),
            Err(e) => Err(e),
        },
        FieldType::Bool => match expect_bool_spec(a) {
            Ok(v) => Ok(FieldValue::Bool(v)),
            Err(e) => Err(e),
        },
        FieldType::Str8 => match expect_str8_spec(a) {
            Ok(v) => Ok(FieldValue::Name(v)),
            Err(e) => Err(e),
        },
        FieldType::Coord => match expect_coord_spec(a) {
            Ok(v) => Ok(FieldValue::I16(v)),
            Err(e) => Err(e),
        },
    }
}

/// What the assignment gives to a field of the type `ty`.
pub fn read_field(ty: FieldType, assignment: &Spanned<AssignmentExpr>) -> (r: Result<
    FieldValue,
    Box<CompileError>,
>)
    ensures
        outcome(r) == read_field_spec(ty, assignment@),
{
    match ty {
        FieldType::U16 => match expect_u16_value(assignment) {
            Ok(v) => Ok(FieldValue::U16(v)),
            Err(e) => Err(e),
        },
        FieldType::I16 => match expect_i16_value(assignment) {
            Ok(v) => Ok(FieldValue::I16(v)),
            Err(e) => Err(e),
        },
        FieldType::U8 => match expect_u8_value(assignment) {
            Ok(v) => Ok(FieldValue::U8(v)),
            Err(e) => Err(e),
        },
        FieldType::Bool => match expect_bool_value(assignment) {
            Ok(v) => Ok(FieldValue::Bool(v)),
            Err(e) => Err(e),
        },
        FieldType::Str8 => match expect_str8_value(assignment) {
            Ok(v) => Ok(FieldValue::Name(v)),
            Err(e) => Err(e),
        },
        FieldType::Coord => match expect_coord_value(assignment) {
            Ok(v) => Ok(FieldValue::I16(v)),
            Err(e) => Err(e),
        },
    }
}

/// The fields of a block of the kind `kind` after the assignment `a`, where `slots` are
/// the fields before it.
pub open spec fn assign_spec(kind: BlockKind, slots: Seq<Option<Slot>>, a: AssignmentView) -> Result<
    Seq<Option<Slot>>,
    CompileErrorView,
> {
    match position(kind.names(), a.name) {
        None => Err(
            CompileErrorView::InvalidAssignment {
                identifier: a.name,
                valid: names_view(kind.names()),
                span: a.span,
            },
        ),
        Some(index) => match read_field_spec(kind.field_type_spec(index), a) {
            Err(e) => Err(e),
            Ok(value) => match slots[index] {
                Some(previous) => Err(
                    CompileErrorView::MultipleAssignment {
                        identifier: a.name,
                        previous_span: previous.span(),
                        span: a.span,
                    },
                ),
                None => Ok(
                    slots.update(
                        index,
                        Some(Slot { value, start: a.span.start, end: a.span.end }),
                    ),
                ),
            },
        },
    }
}

/// The fields of a block of the kind `kind` after the assignments `assignments`, made in
/// order; the error of the first that fails.
pub open spec fn assign_all(kind: BlockKind, assignments: Seq<AssignmentView>) -> Result<
    Seq<Option<Slot>>,
    CompileErrorView,
>
    decreases assignments.len(),
{
    if assignments.len() == 0 {
        Ok(Seq::new(kind.count_spec(), |i: int| None))
    } else {
        match assign_all(kind, assignments.drop_last()) {
            Err(e) => Err(e),
            Ok(slots) => assign_spec(kind, slots, assignments.last()),
        }
    }
}

/// Makes one assignment of a block of the kind `kind`: after the four checks, the field
/// holds the value and the range of the assignment.
pub fn assign_once(
    kind: BlockKind,
    slots: &mut Vec<Option<Slot>>,
    assignment: &Spanned<AssignmentExpr>,
) -> (r: Result<(), Box<CompileError>>)
    requires
        old(slots)@.len() == kind.count_spec(),
    ensures
        match assign_spec(kind, old(slots)@, assignment@) {
            Ok(after) => r is Ok && final(slots)@ == after,
            Err(e) => r matches Err(error) && error@ == e && final(slots)@ == old(slots)@,
        },
{
    let index = match field_index(kind, assignment.item.identifier.item.as_str()) {
        Some(index) => index,
        None => {
            return Err(
                Box::new(
                    CompileError::InvalidAssignment {
                        identifier: assignment.item.identifier.item.clone(),
                        valid: ValidIdentifiers(field_names(kind)),
                        span: copy_span(&assignment.span),
                    },
                ),
            );
        },
    };
    let value = match read_field(kind.field_type(index), assignment) {
        Ok(value) => value,
        Err(e) => {
            return Err(e);
        },
    };
    match slots[index] {
        Some(previous) => Err(
            Box::new(
                CompileError::MultipleAssignment {
                    identifier: assignment.item.identifier.item.clone(),
                    previous_span: Range { start: previous.start, end: previous.end },
                    span: copy_span(&assignment.span),
                },
            ),
        ),
        None => {
            slots[index] = Some(
                Slot { value, start: assignment.span.start, end: assignment.span.end },
            );
            Ok(())
        },
    }
}

/// Among the first `n` fields of the kind `kind`, the names of those that a block must
/// assign and that `slots` does not hold, in the order of the fields.
pub open spec fn missing_below(kind: BlockKind, slots: Seq<Option<Slot>>, n: nat) -> Seq<
    &'static str,
>
    decreases n,
{
    if n == 0 {
        Seq::empty()
    } else {
        let before = missing_below(kind, slots, (n - 1) as nat);
        if kind.required_spec(n - 1) && slots[n - 1] is None {
            before.push(kind.names()[n - 1])
        } else {
            before
        }
    }
}

/// The fields of the block `block` of the kind `kind`, each as the block assigns it: the
/// error of the first assignment that fails, or else that of the fields that the block must
/// assign and does not.
pub open spec fn collect_spec(kind: BlockKind, block: BlockView) -> Result<
    Seq<Option<Slot>>,
    CompileErrorView,
> {
    match assign_all(kind, block.assignments) {
        Err(e) => Err(e),
        Ok(slots) => {
            let missing = missing_below(kind, slots, kind.count_spec());
            if missing.len() > 0 {
                Err(
                    CompileErrorView::MissingAssignments {
                        missing: names_view(missing),
                        span: block.name_span,
                    },
                )
            } else {
                Ok(slots)
            }
        },
    }
}

/// The fields of the block, each as the block assigns it.
pub fn collect(kind: BlockKind, block: &Block) -> (r: Result<Vec<Option<Slot>>, Box<CompileError>>)
    ensures
        match collect_spec(kind, block@) {
            Ok(slots) => r matches Ok(found) && found@ == slots && slots.len()
                == kind.count_spec(),
            Err(e) => r matches Err(error) && error@ == e,
        },
{
    let count = kind.count();
    let mut slots: Vec<Option<Slot>> = Vec::new();
    let mut i: usize = 0;
    while i < count
        invariant
            i <= count,
            slots@ == Seq::new(i as nat, |j: int| None::<Slot>),
        decreases count - i,
    {
        slots.push(None);
        assert(slots@ =~= Seq::new((i + 1) as nat, |j: int| None::<Slot>));
        i += 1;
    }
    let ghost all = block@.assignments;
    let mut done: usize = 0;
    assert(all.subrange(0, 0) =~= Seq::<AssignmentView>::empty());
    while done < block.assignments.len()
        invariant
            done <= block.assignments.len(),
            all == block@.assignments,
            all.len() == block.assignments.len(),
            slots@.len() == kind.count_spec(),
            assign_all(kind, all.subrange(0, done as int)) == Ok::<
                Seq<Option<Slot>>,
                CompileErrorView,
            >(slots@),
        decreases block.assignments.len() - done,
    {
        let ghost before = slots@;
        let ghost prefix = all.subrange(0, done as int + 1);
        assert(prefix.drop_last() =~= all.subrange(0, done as int));
        assert(prefix.last() == block.assignments@[done as int]@);
        match assign_once(kind, &mut slots, &block.assignments[done]) {
            Ok(()) => {},
            Err(e) => {
                proof {
                    lemma_first_failure(kind, all, done as int + 1);
                }
                return Err(e);
            },
        }
        done += 1;
    }
    assert(all.subrange(0, done as int) =~= all);
    let mut missing: Vec<&'static str> = Vec::new();
    let mut n: usize = 0;
    while n < count
        invariant
            n <= count,
            count == kind.count_spec(),
            count == kind.names().len(),
            slots@.len() == count,
            missing@ == missing_below(kind, slots@, n as nat),
        decreases count - n,
    {
        if kind.required(n) && slots[n].is_none() {
            missing.push(kind.name(n));
        }
        n += 1;
    }
    if missing.len() > 0 {
        Err(
            Box::new(
                CompileError::MissingAssignments {
                    missing: MissingAssignments(missing),
                    span: copy_span(&block.identifier.span),
                },
            ),
        )
    } else {
        Ok(slots)
    }
}

/// Once the assignments up to some place fail, all of them fail in the same way.
pub proof fn lemma_first_failure(kind: BlockKind, all: Seq<AssignmentView>, n: int)
    requires
        0 <= n <= all.len(),
        assign_all(kind, all.subrange(0, n)) is Err,
    ensures
        assign_all(kind, all) == assign_all(kind, all.subrange(0, n)),
    decreases all.len() - n,
{
    if n < all.len() {
        let longer = all.subrange(0, n + 1);
        assert(longer.drop_last() =~= all.subrange(0, n));
        lemma_first_failure(kind, all, n + 1);
    } else {
        assert(all.subrange(0, n) =~= all);
    }
}

} // verus!
