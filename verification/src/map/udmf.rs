//! The text format: its values, its syntax tree and what can go wrong with a level
//! written in it.

use std::ops::{Range, RangeInclusive};
use std::str::Utf8Error;
use vstd::prelude::*;
use vstd::std_specs::convert::FromSpecImpl;

use crate::map::{LinkError, UnlinkError};
use crate::number::{Decimal, Number};
use crate::string8::IntoString8Error;

pub mod ast;
pub mod compile;
pub mod consts;
pub mod entities;
pub mod level;
pub mod parse;
pub mod text;
pub mod unit;
pub mod write;

verus! {

/// A name of the text format: that of a block or of a field.
#[derive(Debug, PartialEq, Eq)]
pub struct Identifier(pub String);

impl View for Identifier {
    type V = Seq<char>;

    open spec fn view(&self) -> Seq<char> {
        self.0@
    }
}

impl Clone for Identifier {
    fn clone(&self) -> (r: Self)
        ensures
            r@ == self@,
    {
        Identifier(self.0.clone())
    }
}

impl Identifier {
    pub fn new(name: &str) -> (r: Self)
        ensures
            r@ == name@,
    {
        Identifier(name.to_owned())
    }

    /// The name as text.
    pub fn as_str(&self) -> (r: &str)
        ensures
            r@ == self@,
    {
        self.0.as_str()
    }
}

/// The kinds of value that the text format has.
#[derive(Clone, Copy, Debug, PartialEq, Eq, Structural)]
pub enum ValueType {
    Int,
    Float,
    Str,
    Bool,
}

/// A value of the text format.
#[derive(Debug, PartialEq, Eq)]
pub enum Value {
    Int(i32),
    Float(Decimal),
    Str(String),
    Bool(bool),
}

/// What a [`Value`] holds.
pub enum ValueView {
    Int(i32),
    Float(Decimal),
    Str(Seq<char>),
    Bool(bool),
}

impl View for Value {
    type V = ValueView;

    open spec fn view(&self) -> ValueView {
        match self {
            Value::Int(i) => ValueView::Int(*i),
            Value::Float(f) => ValueView::Float(*f),
            Value::Str(s) => ValueView::Str(s@),
            Value::Bool(b) => ValueView::Bool(*b),
        }
    }
}

impl Clone for Value {
    fn clone(&self) -> (r: Self)
        ensures
            r@ == self@,
    {
        match self {
            Value::Int(i) => Value::Int(*i),
            Value::Float(f) => Value::Float(*f),
            Value::Str(s) => Value::Str(s.clone()),
            Value::Bool(b) => Value::Bool(*b),
        }
    }
}

impl ValueView {
    /// The kind of the value.
    pub open spec fn value_type(self) -> ValueType {
        match self {
            ValueView::Int(_) => ValueType::Int,
            ValueView::Float(_) => ValueType::Float,
            ValueView::Str(_) => ValueType::Str,
            ValueView::Bool(_) => ValueType::Bool,
        }
    }
}

impl Value {
    /// The kind of the value.
    pub fn value_type(&self) -> (r: ValueType)
        ensures
            r == self@.value_type(),
    {
        match self {
            Value::Int(_) => ValueType::Int,
            Value::Float(_) => ValueType::Float,
            Value::Str(_) => ValueType::Str,
            Value::Bool(_) => ValueType::Bool,
        }
    }

    /// The value that spells `n`.
    pub fn from_number(n: Number) -> (r: Self)
        ensures
            r == match n {
                Number::Int(i) => Value::Int(i),
                Number::Float(f) => Value::Float(f),
            },
    {
        match n {
            Number::Int(i) => Value::Int(i),
            Number::Float(f) => Value::Float(f),
        }
    }
}

impl From<Number> for Value {
    fn from(n: Number) -> (r: Value) {
        Value::from_number(n)
    }
}

impl FromSpecImpl<Number> for Value {
    open spec fn obeys_from_spec() -> bool {
        true
    }

    open spec fn from_spec(n: Number) -> Value {
        match n {
            Number::Int(i) => Value::Int(i),
            Number::Float(f) => Value::Float(f),
        }
    }
}

/// The names of a list, each as its characters.
pub open spec fn names_view(names: Seq<&'static str>) -> Seq<Seq<char>> {
    Seq::new(names.len(), |i: int| names[i]@)
}

/// The names that are in order at some place of a level.
#[derive(Debug, PartialEq, Eq)]
pub struct ValidIdentifiers(pub Vec<&'static str>);

impl View for ValidIdentifiers {
    type V = Seq<Seq<char>>;

    open spec fn view(&self) -> Seq<Seq<char>> {
        names_view(self.0@)
    }
}

/// The names of the fields that a block must assign and did not.
#[derive(Debug, PartialEq, Eq)]
pub struct MissingAssignments(pub Vec<&'static str>);

impl View for MissingAssignments {
    type V = Seq<Seq<char>>;

    open spec fn view(&self) -> Seq<Seq<char>> {
        names_view(self.0@)
    }
}

/// The kinds of value that a field takes.
#[derive(Debug, PartialEq, Eq)]
pub struct ValidValueTypes(pub Vec<ValueType>);

impl View for ValidValueTypes {
    type V = Seq<ValueType>;

    open spec fn view(&self) -> Seq<ValueType> {
        self.0@
    }
}

/// Why a syntax tree is not a level. Each error names the places in the source text that
/// it is about, as ranges of bytes.
#[derive(Debug, PartialEq, Eq)]
#[allow(inconsistent_fields)]
pub enum CompileError {
    /// A texture or flat name is not a valid name of eight bytes.
    String8Invalid { error: IntoString8Error, span: Range<usize> },
    /// A block assigns a field twice.
    MultipleAssignment { identifier: Identifier, previous_span: Range<usize>, span: Range<usize> },
    /// A field is assigned a value of a kind that it does not take.
    InvalidAssignmentType {
        identifier: Identifier,
        value: Value,
        expected: ValidValueTypes,
        identifier_span: Range<usize>,
        value_span: Range<usize>,
    },
    /// A field is assigned a number that it has no room for.
    OutOfRange { identifier: Identifier, range: RangeInclusive<i32>, span: Range<usize> },
    /// A block assigns a field that its kind does not have, or the level assigns at its
    /// top the name of a kind of block.
    InvalidAssignment { identifier: Identifier, valid: ValidIdentifiers, span: Range<usize> },
    /// A name at the top of the level is neither the name of a kind of block nor
    /// `namespace`, or a block is named `namespace`.
    InvalidBlock { identifier: Identifier, valid: ValidIdentifiers, span: Range<usize> },
    /// A block does not assign all the fields that it must.
    MissingAssignments { missing: MissingAssignments, span: Range<usize> },
    /// The special of a line or a thing, with the arguments given, is no known action.
    LineDefSpecial {
        value: i16,
        special_span: Range<usize>,
        arg0_span: Option<(usize, usize)>,
        arg1_span: Option<(usize, usize)>,
        arg2_span: Option<(usize, usize)>,
        arg3_span: Option<(usize, usize)>,
        arg4_span: Option<(usize, usize)>,
    },
    /// The special of a sector is not known.
    SectorSpecial { value: i16, span: Range<usize> },
}

/// What a [`CompileError`] holds.
#[allow(inconsistent_fields)]
pub enum CompileErrorView {
    String8Invalid { error: IntoString8Error, span: Range<usize> },
    MultipleAssignment { identifier: Seq<char>, previous_span: Range<usize>, span: Range<usize> },
    InvalidAssignmentType {
        identifier: Seq<char>,
        value: ValueView,
        expected: Seq<ValueType>,
        identifier_span: Range<usize>,
        value_span: Range<usize>,
    },
    OutOfRange { identifier: Seq<char>, min: i32, max: i32, span: Range<usize> },
    InvalidAssignment { identifier: Seq<char>, valid: Seq<Seq<char>>, span: Range<usize> },
    InvalidBlock { identifier: Seq<char>, valid: Seq<Seq<char>>, span: Range<usize> },
    MissingAssignments { missing: Seq<Seq<char>>, span: Range<usize> },
    LineDefSpecial {
        value: i16,
        special_span: Range<usize>,
        arg0_span: Option<(usize, usize)>,
        arg1_span: Option<(usize, usize)>,
        arg2_span: Option<(usize, usize)>,
        arg3_span: Option<(usize, usize)>,
        arg4_span: Option<(usize, usize)>,
    },
    SectorSpecial { value: i16, span: Range<usize> },
}

impl View for CompileError {
    type V = CompileErrorView;

    open spec fn view(&self) -> CompileErrorView {
        match self {
            CompileError::String8Invalid { error, span } => CompileErrorView::String8Invalid {
                error: *error,
                span: *span,
            },
            CompileError::MultipleAssignment {
                identifier,
                previous_span,
                span,
            } => CompileErrorView::MultipleAssignment {
                identifier: identifier@,
                previous_span: *previous_span,
                span: *span,
            },
            CompileError::InvalidAssignmentType {
                identifier,
                value,
                expected,
                identifier_span,
                value_span,
            } => CompileErrorView::InvalidAssignmentType {
                identifier: identifier@,
                value: value@,
                expected: expected@,
                identifier_span: *identifier_span,
                value_span: *value_span,
            },
            CompileError::OutOfRange { identifier, range, span } => CompileErrorView::OutOfRange {
                identifier: identifier@,
                min: range@.start,
                max: range@.end,
                span: *span,
            },
            CompileError::InvalidAssignment {
                identifier,
                valid,
                span,
            } => CompileErrorView::InvalidAssignment {
                identifier: identifier@,
                valid: valid@,
                span: *span,
            },
            CompileError::InvalidBlock { identifier, valid, span } => CompileErrorView::InvalidBlock {
                identifier: identifier@,
                valid: valid@,
                span: *span,
            },
            CompileError::MissingAssignments {
                missing,
                span,
            } => CompileErrorView::MissingAssignments { missing: missing@, span: *span },
            CompileError::LineDefSpecial {
                value,
                special_span,
                arg0_span,
                arg1_span,
                arg2_span,
                arg3_span,
                arg4_span,
            } => CompileErrorView::LineDefSpecial {
                value: *value,
                special_span: *special_span,
                arg0_span: *arg0_span,
                arg1_span: *arg1_span,
                arg2_span: *arg2_span,
                arg3_span: *arg3_span,
                arg4_span: *arg4_span,
            },
            CompileError::SectorSpecial { value, span } => CompileErrorView::SectorSpecial {
                value: *value,
                span: *span,
            },
        }
    }
}

/// Why a level graph is not written as text.
#[derive(Debug, PartialEq, Eq)]
pub enum WriteError {
    /// The graph does not make a level file.
    Unlink(UnlinkError),
    /// A texture or flat name is not UTF-8.
    String8Utf8(Utf8Error),
}

/// Why source text does not make a level graph.
#[derive(Debug, PartialEq, Eq)]
pub enum LoadError {
    /// The text is not in the syntax of the text format.
    Parse(parse::SyntaxError),
    /// The text does not spell a level.
    Compile(Box<CompileError>),
    /// The level names entities that it does not hold.
    Link(LinkError),
}

/// A copy of a range of bytes.
pub fn copy_span(span: &Range<usize>) -> (r: Range<usize>)
    ensures
        r == *span,
{
    Range { start: span.start, end: span.end }
}

} // verus!
