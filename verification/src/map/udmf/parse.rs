//! From source text to the syntax tree.
//!
//! A level is a run of assignments (`name = value;`) and blocks (`name { assignments }`).
//! White space and comments (`// to the end of the line` and `/* between these */`) may
//! stand between any two tokens. A name is a letter or `_` and then letters, digits and
//! `_`. A value is a number, a string between double quotes (with `\\`, `\"` and `\n`) or
//! `true` or `false` in any case of letters. A number is a whole number in decimal with
//! an optional sign, a whole number in hexadecimal behind `0x`, or a decimal fraction with
//! an optional exponent; a whole decimal number that an `i32` has no room for is read as a
//! fraction.
//!
//! The grammar is stated by the specification functions of this file, over the bytes of the
//! source text, and [`parse_translation_unit`] is proved to read exactly what they state.

use std::ops::Range;
use vstd::prelude::*;
use vstd::string::StringSliceAdditionalSpecFns;
use vstd::utf8::{decode_utf8, valid_utf8};

use crate::map::udmf::ast::{
    AssignmentExpr,
    AssignmentView,
    Block,
    BlockView,
    GlobalExpr,
    GlobalView,
    Spanned,
    TranslationUnit,
};
use crate::map::udmf::{Identifier, Value, ValueView};
use crate::number::Decimal;

verus! {

/// Where the source text stops being a level: the offset of the byte at which reading
/// failed.
#[derive(Clone, Copy, Debug, PartialEq, Eq, Structural)]
pub struct SyntaxError {
    pub offset: usize,
}

pub open spec fn is_space(b: u8) -> bool {
    b == 0x20 || (0x09 <= b <= 0x0d)
}

pub open spec fn is_digit(b: u8) -> bool {
    0x30 <= b <= 0x39
}

pub open spec fn is_hex_digit(b: u8) -> bool {
    is_digit(b) || (0x41 <= b <= 0x46) || (0x61 <= b <= 0x66)
}

pub open spec fn is_name_start(b: u8) -> bool {
    (0x41 <= b <= 0x5a) || (0x61 <= b <= 0x7a) || b == 0x5f
}

pub open spec fn is_name_part(b: u8) -> bool {
    is_name_start(b) || is_digit(b)
}

/// The number that a hexadecimal digit stands for.
pub open spec fn hex_digit_value(b: u8) -> nat {
    if is_digit(b) {
        (b - 0x30) as nat
    } else if 0x41 <= b <= 0x46 {
        (b - 0x41 + 10) as nat
    } else {
        (b - 0x61 + 10) as nat
    }
}

/// The letter in lower case.
pub open spec fn lower(b: u8) -> u8 {
    if 0x41 <= b <= 0x5a {
        (b + 0x20) as u8
    } else {
        b
    }
}

/// What the reader is in the middle of, between two tokens.
pub enum Trivia {
    /// Nothing: the next byte may start a token.
    Outside,
    /// A comment that ends with the line.
    Line,
    /// A comment that began with the `/*` at `start`.
    Block { start: int },
}

/// The offset of the next token at or after `i`, or the length of the text where there is
/// none; the offset of a `/*` that is never closed.
pub open spec fn skip(s: Seq<u8>, i: int, mode: Trivia) -> Result<int, int>
    decreases s.len() - i,
{
    if i < 0 {
        Err(0)
    } else {
        match mode {
            Trivia::Outside => if i >= s.len() {
                Ok(i)
            } else if is_space(s[i]) {
                skip(s, i + 1, Trivia::Outside)
            } else if s[i] == 0x2f && i + 1 < s.len() && s[i + 1] == 0x2f {
                skip(s, i + 2, Trivia::Line)
            } else if s[i] == 0x2f && i + 1 < s.len() && s[i + 1] == 0x2a {
                skip(s, i + 2, Trivia::Block { start: i })
            } else {
                Ok(i)
            },
            Trivia::Line => if i >= s.len() {
                Ok(i)
            } else if s[i] == 0x0a {
                skip(s, i + 1, Trivia::Outside)
            } else {
                skip(s, i + 1, Trivia::Line)
            },
            Trivia::Block { start } => if i + 1 >= s.len() {
                Err(start)
            } else if s[i] == 0x2a && s[i + 1] == 0x2f {
                skip(s, i + 2, Trivia::Outside)
            } else {
                skip(s, i + 1, Trivia::Block { start })
            },
        }
    }
}

/// The offset of the next token at or after `i`.
pub open spec fn skip_trivia(s: Seq<u8>, i: int) -> Result<int, int> {
    skip(s, i, Trivia::Outside)
}

/// The offset behind the bytes of a name that stand at and after `i`.
pub open spec fn name_end(s: Seq<u8>, i: int) -> int
    decreases s.len() - i,
{
    if 0 <= i < s.len() && is_name_part(s[i]) {
        name_end(s, i + 1)
    } else {
        i
    }
}

/// The offset behind the digits that stand at and after `i`.
pub open spec fn digits_end(s: Seq<u8>, i: int) -> int
    decreases s.len() - i,
{
    if 0 <= i < s.len() && is_digit(s[i]) {
        digits_end(s, i + 1)
    } else {
        i
    }
}

/// The offset behind the hexadecimal digits that stand at and after `i`.
pub open spec fn hex_end(s: Seq<u8>, i: int) -> int
    decreases s.len() - i,
{
    if 0 <= i < s.len() && is_hex_digit(s[i]) {
        hex_end(s, i + 1)
    } else {
        i
    }
}

/// The number that `before` and then the decimal digits from `from` up to `to` spell.
pub open spec fn append_digits(before: nat, s: Seq<u8>, from: int, to: int) -> nat
    decreases to - from,
{
    if to <= from {
        before
    } else {
        append_digits(before, s, from, to - 1) * 10 + (s[to - 1] - 0x30) as nat
    }
}

/// The number that the hexadecimal digits from `from` up to `to` spell.
pub open spec fn hex_value(s: Seq<u8>, from: int, to: int) -> nat
    decreases to - from,
{
    if to <= from {
        0
    } else {
        hex_value(s, from, to - 1) * 16 + hex_digit_value(s[to - 1])
    }
}

/// The bytes from `from` up to `to`, each as a character.
pub open spec fn text(s: Seq<u8>, from: int, to: int) -> Seq<char> {
    Seq::new((to - from) as nat, |k: int| s[from + k] as char)
}

/// A range of bytes.
pub open spec fn span(from: int, to: int) -> Range<usize> {
    Range { start: from as usize, end: to as usize }
}

/// The bytes that a string spells, added to `so_far`, and the offset behind its closing
/// quote, for a string whose bytes from `i` on are still to be read; the offset of a `\`
/// that no `\`, `"` or `n` follows, or the length of the text where the string is never
/// closed.
pub open spec fn string_body(s: Seq<u8>, i: int, so_far: Seq<u8>) -> Result<(Seq<u8>, int), int>
    decreases s.len() - i,
{
    if i < 0 || i >= s.len() {
        Err(s.len() as int)
    } else if s[i] == 0x22 {
        Ok((so_far, i + 1))
    } else if s[i] == 0x5c {
        if i + 1 < s.len() && s[i + 1] == 0x5c {
            string_body(s, i + 2, so_far.push(0x5c))
        } else if i + 1 < s.len() && s[i + 1] == 0x22 {
            string_body(s, i + 2, so_far.push(0x22))
        } else if i + 1 < s.len() && s[i + 1] == 0x6e {
            string_body(s, i + 2, so_far.push(0x0a))
        } else {
            Err(i)
        }
    } else {
        string_body(s, i + 1, so_far.push(s[i]))
    }
}

/// The string whose opening quote stands at `p`, and the offset behind it.
pub open spec fn string_value(s: Seq<u8>, p: int) -> Result<(ValueView, int), int> {
    match string_body(s, p + 1, Seq::empty()) {
        Err(offset) => Err(offset),
        Ok((bytes, end)) => if valid_utf8(bytes) {
            Ok((ValueView::Str(decode_utf8(bytes)), end))
        } else {
            Err(p)
        },
    }
}

/// Whether the bytes from `from` up to `to` spell `true`, in any case of letters.
pub open spec fn spells_true(s: Seq<u8>, from: int, to: int) -> bool {
    &&& to - from == 4
    &&& lower(s[from]) == 0x74
    &&& lower(s[from + 1]) == 0x72
    &&& lower(s[from + 2]) == 0x75
    &&& lower(s[from + 3]) == 0x65
}

/// Whether the bytes from `from` up to `to` spell `false`, in any case of letters.
pub open spec fn spells_false(s: Seq<u8>, from: int, to: int) -> bool {
    &&& to - from == 5
    &&& lower(s[from]) == 0x66
    &&& lower(s[from + 1]) == 0x61
    &&& lower(s[from + 2]) == 0x6c
    &&& lower(s[from + 3]) == 0x73
    &&& lower(s[from + 4]) == 0x65
}

/// The truth value whose word starts at `p`, and the offset behind it.
pub open spec fn keyword_value(s: Seq<u8>, p: int) -> Result<(ValueView, int), int> {
    let end = name_end(s, p);
    if spells_true(s, p, end) {
        Ok((ValueView::Bool(true), end))
    } else if spells_false(s, p, end) {
        Ok((ValueView::Bool(false), end))
    } else {
        Err(p)
    }
}

/// The hexadecimal number whose `0x` stands at `p`, and the offset behind it. It has at
/// least one digit and is at most `i32::MAX`.
pub open spec fn hex_number(s: Seq<u8>, p: int) -> Result<(ValueView, int), int> {
    let end = hex_end(s, p + 2);
    if end == p + 2 {
        Err(p + 2)
    } else if hex_value(s, p + 2, end) > i32::MAX {
        Err(p)
    } else {
        Ok((ValueView::Int(hex_value(s, p + 2, end) as i32), end))
    }
}

/// The most that an exponent, or the number of the digits of a fraction, can be.
pub const EXPONENT_LIMIT: u64 = 0x7fff_ffff;

/// The parts of a decimal number that starts at `p`.
pub struct DecimalShape {
    pub negative: bool,
    /// Where the digits before the point start and end.
    pub whole: (int, int),
    /// Where the digits behind the point start and end, if there is a point.
    pub fraction: Option<(int, int)>,
    /// Whether the exponent is negative and where its digits start and end, if there is
    /// an exponent.
    pub exponent: Option<(bool, int, int)>,
    /// The offset behind the number.
    pub end: int,
}

/// Whether a sign stands at `i`.
pub open spec fn sign_at(s: Seq<u8>, i: int) -> bool {
    0 <= i < s.len() && (s[i] == 0x2b || s[i] == 0x2d)
}

/// The parts of the decimal number that starts at `p`: an optional sign, digits, then
/// optionally a point and digits, then optionally `e` or `E`, an optional sign and
/// digits. The offset at which a digit is missing where there is no number.
pub open spec fn decimal_shape(s: Seq<u8>, p: int) -> Result<DecimalShape, int> {
    let negative = sign_at(s, p) && s[p] == 0x2d;
    let whole_start = if sign_at(s, p) {
        p + 1
    } else {
        p
    };
    let whole_end = digits_end(s, whole_start);
    if whole_end == whole_start {
        Err(whole_start)
    } else {
        let fraction = if whole_end < s.len() && s[whole_end] == 0x2e {
            Some((whole_end + 1, digits_end(s, whole_end + 1)))
        } else {
            None
        };
        let mantissa_end = match fraction {
            Some((_, end)) => end,
            None => whole_end,
        };
        if mantissa_end < s.len() && (s[mantissa_end] == 0x65 || s[mantissa_end] == 0x45) {
            let exponent_negative = sign_at(s, mantissa_end + 1) && s[mantissa_end + 1] == 0x2d;
            let exponent_start = if sign_at(s, mantissa_end + 1) {
                mantissa_end + 2
            } else {
                mantissa_end + 1
            };
            let exponent_end = digits_end(s, exponent_start);
            if exponent_end == exponent_start {
                Err(exponent_start)
            } else {
                Ok(
                    DecimalShape {
                        negative,
                        whole: (whole_start, whole_end),
                        fraction,
                        exponent: Some((exponent_negative, exponent_start, exponent_end)),
                        end: exponent_end,
                    },
                )
            }
        } else {
            Ok(
                DecimalShape {
                    negative,
                    whole: (whole_start, whole_end),
                    fraction,
                    exponent: None,
                    end: mantissa_end,
                },
            )
        }
    }
}

impl DecimalShape {
    /// The digits of the number as one whole number, the point left out.
    pub open spec fn mantissa(self, s: Seq<u8>) -> nat {
        let whole = append_digits(0, s, self.whole.0, self.whole.1);
        match self.fraction {
            Some((from, to)) => append_digits(whole, s, from, to),
            None => whole,
        }
    }

    /// The number of digits behind the point.
    pub open spec fn places(self) -> int {
        match self.fraction {
            Some((from, to)) => to - from,
            None => 0,
        }
    }

    /// The exponent as it is written.
    pub open spec fn written_exponent(self, s: Seq<u8>) -> int {
        match self.exponent {
            Some((negative, from, to)) => if negative {
                -(append_digits(0, s, from, to) as int)
            } else {
                append_digits(0, s, from, to) as int
            },
            None => 0,
        }
    }

    /// Whether the number is written as a whole number.
    pub open spec fn is_whole(self) -> bool {
        self.fraction is None && self.exponent is None
    }

    /// The whole number that is written, with its sign.
    pub open spec fn whole_value(self, s: Seq<u8>) -> int {
        if self.negative {
            -(self.mantissa(s) as int)
        } else {
            self.mantissa(s) as int
        }
    }

    /// The value that the number spells: a whole number where it is written as one and an
    /// `i32` holds it, else a fraction, which is kept exactly. There is none where the
    /// digits as one number exceed `u64::MAX`, where the written exponent or the number
    /// of digits behind the point exceeds [`EXPONENT_LIMIT`], or where the exponent less
    /// the number of digits behind the point is less than `i32::MIN`.
    pub open spec fn value(self, s: Seq<u8>) -> Option<ValueView> {
        if self.is_whole() && i32::MIN <= self.whole_value(s) <= i32::MAX {
            Some(ValueView::Int(self.whole_value(s) as i32))
        } else if self.mantissa(s) > u64::MAX || self.places() > EXPONENT_LIMIT
            || self.written_exponent(s) > EXPONENT_LIMIT || self.written_exponent(s)
            < -(EXPONENT_LIMIT as int) || self.written_exponent(s) - self.places() < i32::MIN {
            None
        } else {
            Some(
                ValueView::Float(
                    Decimal {
                        negative: self.negative,
                        mantissa: self.mantissa(s) as u64,
                        exponent: (self.written_exponent(s) - self.places()) as i32,
                    },
                ),
            )
        }
    }
}

/// The decimal number that starts at `p`, and the offset behind it; `p` where the number
/// is one that no value stands for.
pub open spec fn decimal_number(s: Seq<u8>, p: int) -> Result<(ValueView, int), int> {
    match decimal_shape(s, p) {
        Err(offset) => Err(offset),
        Ok(shape) => match shape.value(s) {
            Some(value) => Ok((value, shape.end)),
            None => Err(p),
        },
    }
}

/// The value that starts at `p`, and the offset behind it.
pub open spec fn value_at(s: Seq<u8>, p: int) -> Result<(ValueView, int), int> {
    if p < 0 || p >= s.len() {
        Err(p)
    } else if s[p] == 0x22 {
        string_value(s, p)
    } else if s[p] == 0x30 && p + 1 < s.len() && s[p + 1] == 0x78 {
        hex_number(s, p)
    } else if is_digit(s[p]) || s[p] == 0x2b || s[p] == 0x2d {
        decimal_number(s, p)
    } else if is_name_start(s[p]) {
        keyword_value(s, p)
    } else {
        Err(p)
    }
}

/// The assignment whose name starts at `p`, and the offset behind its `;`.
pub open spec fn assignment_at(s: Seq<u8>, p: int) -> Result<(AssignmentView, int), int> {
    let name_stop = name_end(s, p);
    match skip_trivia(s, name_stop) {
        Err(offset) => Err(offset),
        Ok(equals) => if equals >= s.len() || s[equals] != 0x3d {
            Err(equals)
        } else {
            match skip_trivia(s, equals + 1) {
                Err(offset) => Err(offset),
                Ok(value_start) => match value_at(s, value_start) {
                    Err(offset) => Err(offset),
                    Ok((value, value_stop)) => match skip_trivia(s, value_stop) {
                        Err(offset) => Err(offset),
                        Ok(semicolon) => if semicolon >= s.len() || s[semicolon] != 0x3b {
                            Err(semicolon)
                        } else {
                            Ok(
                                (
                                    AssignmentView {
                                        name: text(s, p, name_stop),
                                        name_span: span(p, name_stop),
                                        value,
                                        value_span: span(value_start, value_stop),
                                        span: span(p, semicolon + 1),
                                    },
                                    semicolon + 1,
                                ),
                            )
                        },
                    },
                },
            }
        },
    }
}

/// The assignments of a block, added to `so_far`, and the offset behind its `}`, for a
/// block whose bytes from `i` on are still to be read.
pub open spec fn block_body(s: Seq<u8>, i: int, so_far: Seq<AssignmentView>) -> Result<
    (Seq<AssignmentView>, int),
    int,
>
    decreases s.len() - i,
{
    match skip_trivia(s, i) {
        Err(offset) => Err(offset),
        Ok(p) => if p < i || p >= s.len() {
            Err(p)
        } else if s[p] == 0x7d {
            Ok((so_far, p + 1))
        } else if is_name_start(s[p]) {
            match assignment_at(s, p) {
                Err(offset) => Err(offset),
                Ok((assignment, next)) => if next <= p {
                    Err(p)
                } else {
                    block_body(s, next, so_far.push(assignment))
                },
            }
        } else {
            Err(p)
        },
    }
}

/// The assignment or block whose name starts at `p`, and the offset behind it.
pub open spec fn global_at(s: Seq<u8>, p: int) -> Result<(GlobalView, int), int> {
    let name_stop = name_end(s, p);
    match skip_trivia(s, name_stop) {
        Err(offset) => Err(offset),
        Ok(q) => if 0 <= q < s.len() && s[q] == 0x7b {
            match block_body(s, q + 1, Seq::empty()) {
                Err(offset) => Err(offset),
                Ok((assignments, next)) => Ok(
                    (
                        GlobalView::Block {
                            block: BlockView {
                                name: text(s, p, name_stop),
                                name_span: span(p, name_stop),
                                assignments,
                            },
                            span: span(p, next),
                        },
                        next,
                    ),
                ),
            }
        } else {
            match assignment_at(s, p) {
                Err(offset) => Err(offset),
                Ok((assignment, next)) => Ok((GlobalView::Assignment(assignment), next)),
            }
        },
    }
}

/// What stands at the top of a level from `i` on, added to `so_far`.
pub open spec fn globals(s: Seq<u8>, i: int, so_far: Seq<GlobalView>) -> Result<
    Seq<GlobalView>,
    int,
>
    decreases s.len() - i,
{
    match skip_trivia(s, i) {
        Err(offset) => Err(offset),
        Ok(p) => if p < i {
            Err(p)
        } else if p >= s.len() {
            Ok(so_far)
        } else if !is_name_start(s[p]) {
            Err(p)
        } else {
            match global_at(s, p) {
                Err(offset) => Err(offset),
                Ok((global, next)) => if next <= p || next > s.len() {
                    Err(p)
                } else {
                    globals(s, next, so_far.push(global))
                },
            }
        },
    }
}

/// The syntax tree that the source text `s` spells, or the offset at which it stops
/// being a level.
pub open spec fn parsed(s: Seq<u8>) -> Result<Seq<GlobalView>, int> {
    globals(s, 0, Seq::empty())
}

/// `String::push`: the character is added at the end of the text.
pub assume_specification[ String::push ](text: &mut String, c: char)
    ensures
        final(text)@ == old(text)@.push(c),
;

/// `String::from_utf8`, without the error: the text that the bytes spell, where they are
/// UTF-8.
#[verifier::external_body]
fn string_from_utf8(bytes: Vec<u8>) -> (r: Option<String>)
    ensures
        r is Some <==> valid_utf8(bytes@),
        r matches Some(text) ==> text@ == decode_utf8(bytes@),
{
    String::from_utf8(bytes).ok()
}

/// The error at the offset `offset`.
pub open spec fn fail(offset: int) -> SyntaxError {
    SyntaxError { offset: offset as usize }
}

fn space(b: u8) -> (r: bool)
    ensures
        r == is_space(b),
{
    b == 0x20 || (0x09 <= b && b <= 0x0d)
}

fn digit(b: u8) -> (r: bool)
    ensures
        r == is_digit(b),
{
    0x30 <= b && b <= 0x39
}

fn hex_digit(b: u8) -> (r: Option<u8>)
    ensures
        r is Some <==> is_hex_digit(b),
        r matches Some(v) ==> v == hex_digit_value(b) && v < 16,
{
    if 0x30 <= b && b <= 0x39 {
        Some(b - 0x30)
    } else if 0x41 <= b && b <= 0x46 {
        Some(b - 0x41 + 10)
    } else if 0x61 <= b && b <= 0x66 {
        Some(b - 0x61 + 10)
    } else {
        None
    }
}

fn name_start(b: u8) -> (r: bool)
    ensures
        r == is_name_start(b),
{
    (0x41 <= b && b <= 0x5a) || (0x61 <= b && b <= 0x7a) || b == 0x5f
}

fn name_part(b: u8) -> (r: bool)
    ensures
        r == is_name_part(b),
{
    name_start(b) || digit(b)
}

fn to_lower(b: u8) -> (r: u8)
    ensures
        r == lower(b),
{
    if 0x41 <= b && b <= 0x5a {
        b + 0x20
    } else {
        b
    }
}

/// What the reader is in the middle of, between two tokens.
enum Mode {
    Outside,
    Line,
    Block(usize),
}

impl View for Mode {
    type V = Trivia;

    closed spec fn view(&self) -> Trivia {
        match self {
            Mode::Outside => Trivia::Outside,
            Mode::Line => Trivia::Line,
            Mode::Block(start) => Trivia::Block { start: *start as int },
        }
    }
}

/// The offset of the next token at or after `start`.
fn skip_trivia_from(bytes: &[u8], start: usize) -> (r: Result<usize, SyntaxError>)
    requires
        start <= bytes@.len(),
    ensures
        match skip_trivia(bytes@, start as int) {
            Ok(p) => r == Ok::<usize, SyntaxError>(p as usize) && start <= p <= bytes@.len(),
            Err(offset) => r == Err::<usize, SyntaxError>(fail(offset)),
        },
{
    let mut i: usize = start;
    let mut mode = Mode::Outside;
    while i < bytes.len()
        invariant
            start <= i <= bytes@.len(),
            skip_trivia(bytes@, start as int) == skip(bytes@, i as int, mode@),
        decreases bytes@.len() - i,
    {
        let b = bytes[i];
        match mode {
            Mode::Outside => {
                if space(b) {
                    i += 1;
                } else if b == 0x2f && i + 1 < bytes.len() && bytes[i + 1] == 0x2f {
                    i += 2;
                    mode = Mode::Line;
                } else if b == 0x2f && i + 1 < bytes.len() && bytes[i + 1] == 0x2a {
                    mode = Mode::Block(i);
                    i += 2;
                } else {
                    return Ok(i);
                }
            },
            Mode::Line => {
                if b == 0x0a {
                    mode = Mode::Outside;
                }
                i += 1;
            },
            Mode::Block(opened) => {
                if i + 1 >= bytes.len() {
                    return Err(SyntaxError { offset: opened });
                }
                if b == 0x2a && bytes[i + 1] == 0x2f {
                    i += 2;
                    mode = Mode::Outside;
                } else {
                    i += 1;
                }
            },
        }
    }
    match mode {
        Mode::Block(opened) => Err(SyntaxError { offset: opened }),
        _ => Ok(i),
    }
}

/// The offset behind the bytes of a name that stand at and after `start`.
fn name_stop(bytes: &[u8], start: usize) -> (end: usize)
    requires
        start <= bytes@.len(),
    ensures
        end == name_end(bytes@, start as int),
        start <= end <= bytes@.len(),
{
    let mut i: usize = start;
    while i < bytes.len() && name_part(bytes[i])
        invariant
            start <= i <= bytes@.len(),
            name_end(bytes@, start as int) == name_end(bytes@, i as int),
        decreases bytes@.len() - i,
    {
        i += 1;
    }
    i
}

/// The bytes from `from` up to `to`, each as a character.
fn text_between(bytes: &[u8], from: usize, to: usize) -> (r: String)
    requires
        from <= to <= bytes@.len(),
    ensures
        r@ == text(bytes@, from as int, to as int),
{
    let mut r = String::new();
    let mut i: usize = from;
    while i < to
        invariant
            from <= i <= to <= bytes@.len(),
            r@ == text(bytes@, from as int, i as int),
        decreases to - i,
    {
        r.push(bytes[i] as char);
        assert(r@ =~= text(bytes@, from as int, i as int + 1));
        i += 1;
    }
    r
}

/// The string whose opening quote stands at `p`, and the offset behind it.
fn parse_quoted_string(bytes: &[u8], p: usize) -> (r: Result<(Value, usize), SyntaxError>)
    requires
        p < bytes@.len(),
    ensures
        match string_value(bytes@, p as int) {
            Ok((value, end)) => r matches Ok(found) && found.0@ == value && found.1 == end && p
                < end <= bytes@.len(),
            Err(offset) => r == Err::<(Value, usize), SyntaxError>(fail(offset)),
        },
{
    let length = bytes.len();
    let mut i: usize = p + 1;
    let mut buffer: Vec<u8> = Vec::new();
    while i < bytes.len() && bytes[i] != 0x22
        invariant
            p < i <= bytes@.len(),
            string_body(bytes@, p as int + 1, Seq::empty()) == string_body(
                bytes@,
                i as int,
                buffer@,
            ),
        decreases bytes@.len() - i,
    {
        let b = bytes[i];
        if b == 0x5c {
            if i + 1 >= bytes.len() {
                return Err(SyntaxError { offset: i });
            }
            let escaped = bytes[i + 1];
            if escaped == 0x5c {
                buffer.push(0x5c);
            } else if escaped == 0x22 {
                buffer.push(0x22);
            } else if escaped == 0x6e {
                buffer.push(0x0a);
            } else {
                return Err(SyntaxError { offset: i });
            }
            i += 2;
        } else {
            buffer.push(b);
            i += 1;
        }
    }
    if i >= bytes.len() {
        return Err(SyntaxError { offset: bytes.len() });
    }
    match string_from_utf8(buffer) {
        Some(text) => Ok((Value::Str(text), i + 1)),
        None => Err(SyntaxError { offset: p }),
    }
}

/// The truth value whose word starts at `p`, and the offset behind it.
fn parse_bool(bytes: &[u8], p: usize) -> (r: Result<(Value, usize), SyntaxError>)
    requires
        p < bytes@.len(),
        is_name_start(bytes@[p as int]),
    ensures
        match keyword_value(bytes@, p as int) {
            Ok((value, end)) => r matches Ok(found) && found.0@ == value && found.1 == end && p
                < end <= bytes@.len(),
            Err(offset) => r == Err::<(Value, usize), SyntaxError>(fail(offset)),
        },
{
    let end = name_stop(bytes, p);
    if end - p == 4 && to_lower(bytes[p]) == 0x74 && to_lower(bytes[p + 1]) == 0x72 && to_lower(
        bytes[p + 2],
    ) == 0x75 && to_lower(bytes[p + 3]) == 0x65 {
        Ok((Value::Bool(true), end))
    } else if end - p == 5 && to_lower(bytes[p]) == 0x66 && to_lower(bytes[p + 1]) == 0x61
        && to_lower(bytes[p + 2]) == 0x6c && to_lower(bytes[p + 3]) == 0x73 && to_lower(
        bytes[p + 4],
    ) == 0x65 {
        Ok((Value::Bool(false), end))
    } else {
        Err(SyntaxError { offset: p })
    }
}

/// `n` where a `u64` holds it.
pub open spec fn capped(n: nat) -> Option<u64> {
    if n <= u64::MAX {
        Some(n as u64)
    } else {
        None
    }
}

/// More digits never make a number less.
pub proof fn lemma_append_grows(before: nat, s: Seq<u8>, from: int, to: int)
    ensures
        append_digits(before, s, from, to) >= before,
    decreases to - from,
{
    if to > from {
        lemma_append_grows(before, s, from, to - 1);
    }
}

/// Every byte before the end of a run of digits is a digit.
pub proof fn lemma_digits_run(s: Seq<u8>, from: int)
    requires
        0 <= from <= s.len(),
    ensures
        from <= digits_end(s, from) <= s.len(),
        forall|i: int| from <= i < digits_end(s, from) ==> is_digit(#[trigger] s[i]),
    decreases s.len() - from,
{
    if from < s.len() && is_digit(s[from]) {
        lemma_digits_run(s, from + 1);
    }
}

/// The number that `before` and then the digits at and after `from` spell, where a `u64`
/// holds it, and the offset behind the digits.
fn read_digits(bytes: &[u8], from: usize, before: Option<u64>) -> (r: (usize, Option<u64>))
    requires
        from <= bytes@.len(),
    ensures
        r.0 == digits_end(bytes@, from as int),
        from <= r.0 <= bytes@.len(),
        before matches Some(b) ==> r.1 == capped(
            append_digits(b as nat, bytes@, from as int, r.0 as int),
        ),
        before is None ==> r.1 is None,
{
    let mut i: usize = from;
    let mut value = before;
    while i < bytes.len() && digit(bytes[i])
        invariant
            from <= i <= bytes@.len(),
            digits_end(bytes@, from as int) == digits_end(bytes@, i as int),
            before matches Some(b) ==> value == capped(
                append_digits(b as nat, bytes@, from as int, i as int),
            ),
            before is None ==> value is None,
        decreases bytes@.len() - i,
    {
        let d = (bytes[i] - 0x30) as u64;
        value = match value {
            Some(v) => if v > (u64::MAX - d) / 10 {
                None
            } else {
                Some(v * 10 + d)
            },
            None => None,
        };
        i += 1;
    }
    (i, value)
}

/// The number that the hexadecimal digits at and after `from` spell, where a `u64` holds
/// it, and the offset behind the digits.
fn read_hex_digits(bytes: &[u8], from: usize) -> (r: (usize, Option<u64>))
    requires
        from <= bytes@.len(),
    ensures
        r.0 == hex_end(bytes@, from as int),
        from <= r.0 <= bytes@.len(),
        r.1 == capped(hex_value(bytes@, from as int, r.0 as int)),
{
    let mut i: usize = from;
    let mut value: Option<u64> = Some(0);
    while i < bytes.len()
        invariant
            from <= i <= bytes@.len(),
            hex_end(bytes@, from as int) == hex_end(bytes@, i as int),
            value == capped(hex_value(bytes@, from as int, i as int)),
        decreases bytes@.len() - i,
    {
        let d = match hex_digit(bytes[i]) {
            Some(d) => d as u64,
            None => {
                return (i, value);
            },
        };
        value = match value {
            Some(v) => if v > (u64::MAX - d) / 16 {
                None
            } else {
                Some(v * 16 + d)
            },
            None => None,
        };
        i += 1;
    }
    (i, value)
}

/// The hexadecimal number whose `0x` stands at `p`, and the offset behind it.
fn parse_hex(bytes: &[u8], p: usize) -> (r: Result<(Value, usize), SyntaxError>)
    requires
        p + 1 < bytes@.len(),
    ensures
        match hex_number(bytes@, p as int) {
            Ok((value, end)) => r matches Ok(found) && found.0@ == value && found.1 == end && p
                < end <= bytes@.len(),
            Err(offset) => r == Err::<(Value, usize), SyntaxError>(fail(offset)),
        },
{
    let length = bytes.len();
    let (end, value) = read_hex_digits(bytes, p + 2);
    if end == p + 2 {
        return Err(SyntaxError { offset: p + 2 });
    }
    match value {
        Some(v) => if v > 0x7fff_ffff {
            Err(SyntaxError { offset: p })
        } else {
            Ok((Value::Int(v as i32), end))
        },
        None => Err(SyntaxError { offset: p }),
    }
}

/// The decimal number that starts at `p`, and the offset behind it.
fn parse_decimal(bytes: &[u8], p: usize) -> (r: Result<(Value, usize), SyntaxError>)
    requires
        p < bytes@.len(),
    ensures
        match decimal_number(bytes@, p as int) {
            Ok((value, end)) => r matches Ok(found) && found.0@ == value && found.1 == end && p
                < end <= bytes@.len(),
            Err(offset) => r == Err::<(Value, usize), SyntaxError>(fail(offset)),
        },
{
    let signed = bytes[p] == 0x2b || bytes[p] == 0x2d;
    let negative = bytes[p] == 0x2d;
    let whole_start = if signed {
        p + 1
    } else {
        p
    };
    let (whole_end, whole) = read_digits(bytes, whole_start, Some(0));
    if whole_end == whole_start {
        return Err(SyntaxError { offset: whole_start });
    }
    proof {
        lemma_digits_run(bytes@, whole_start as int);
    }
    let mut mantissa = whole;
    let mut mantissa_end = whole_end;
    let mut places: usize = 0;
    let mut whole_number = true;
    if whole_end < bytes.len() && bytes[whole_end] == 0x2e {
        let (fraction_end, with_fraction) = read_digits(bytes, whole_end + 1, whole);
        proof {
            lemma_digits_run(bytes@, whole_end as int + 1);
            lemma_append_grows(
                append_digits(0, bytes@, whole_start as int, whole_end as int),
                bytes@,
                whole_end as int + 1,
                fraction_end as int,
            );
        }
        mantissa = with_fraction;
        mantissa_end = fraction_end;
        places = fraction_end - (whole_end + 1);
        whole_number = false;
    }
    let mut end = mantissa_end;
    let mut exponent: Option<u64> = Some(0);
    let mut exponent_negative = false;
    if mantissa_end < bytes.len() && (bytes[mantissa_end] == 0x65 || bytes[mantissa_end] == 0x45) {
        let exponent_signed = mantissa_end + 1 < bytes.len() && (bytes[mantissa_end + 1] == 0x2b
            || bytes[mantissa_end + 1] == 0x2d);
        exponent_negative = exponent_signed && bytes[mantissa_end + 1] == 0x2d;
        let exponent_start = if exponent_signed {
            mantissa_end + 2
        } else {
            mantissa_end + 1
        };
        let (exponent_end, written) = read_digits(bytes, exponent_start, Some(0));
        if exponent_end == exponent_start {
            return Err(SyntaxError { offset: exponent_start });
        }
        exponent = written;
        end = exponent_end;
        whole_number = false;
    }
    let ghost shape = decimal_shape(bytes@, p as int)->Ok_0;
    assert(decimal_shape(bytes@, p as int) is Ok);
    assert(shape.end == end);
    assert(mantissa == capped(shape.mantissa(bytes@)));
    assert(shape.places() == places);
    assert(shape.is_whole() == whole_number);
    if whole_number {
        match mantissa {
            Some(m) => {
                if negative && m <= 0x8000_0000 {
                    return Ok((Value::Int((-(m as i64)) as i32), end));
                }
                if !negative && m <= 0x7fff_ffff {
                    return Ok((Value::Int(m as i32), end));
                }
            },
            None => {},
        }
    }
    let m = match mantissa {
        Some(m) => m,
        None => {
            return Err(SyntaxError { offset: p });
        },
    };
    let e = match exponent {
        Some(e) => e,
        None => {
            return Err(SyntaxError { offset: p });
        },
    };
    if e > EXPONENT_LIMIT || places > EXPONENT_LIMIT as usize {
        return Err(SyntaxError { offset: p });
    }
    let written: i64 = if exponent_negative {
        -(e as i64)
    } else {
        e as i64
    };
    let scale: i64 = written - (places as i64);
    if scale < -0x8000_0000 {
        return Err(SyntaxError { offset: p });
    }
    Ok((Value::Float(Decimal { negative, mantissa: m, exponent: scale as i32 }), end))
}

/// The value that starts at `p`, and the offset behind it.
fn parse_value(bytes: &[u8], p: usize) -> (r: Result<(Value, usize), SyntaxError>)
    requires
        p <= bytes@.len(),
    ensures
        match value_at(bytes@, p as int) {
            Ok((value, end)) => r matches Ok(found) && found.0@ == value && found.1 == end && p
                < end <= bytes@.len(),
            Err(offset) => r == Err::<(Value, usize), SyntaxError>(fail(offset)),
        },
{
    if p >= bytes.len() {
        return Err(SyntaxError { offset: p });
    }
    let b = bytes[p];
    if b == 0x22 {
        parse_quoted_string(bytes, p)
    } else if b == 0x30 && p + 1 < bytes.len() && bytes[p + 1] == 0x78 {
        parse_hex(bytes, p)
    } else if digit(b) || b == 0x2b || b == 0x2d {
        parse_decimal(bytes, p)
    } else if name_start(b) {
        parse_bool(bytes, p)
    } else {
        Err(SyntaxError { offset: p })
    }
}

/// The assignment whose name starts at `p`, and the offset behind its `;`.
fn parse_assignment_expr(bytes: &[u8], p: usize) -> (r: Result<
    (Spanned<AssignmentExpr>, usize),
    SyntaxError,
>)
    requires
        p < bytes@.len(),
        is_name_start(bytes@[p as int]),
    ensures
        match assignment_at(bytes@, p as int) {
            Ok((assignment, end)) => r matches Ok(found) && found.0@ == assignment && found.1
                == end && p < end <= bytes@.len(),
            Err(offset) => r == Err::<(Spanned<AssignmentExpr>, usize), SyntaxError>(
                fail(offset),
            ),
        },
{
    let name_stop = name_stop(bytes, p);
    let equals = match skip_trivia_from(bytes, name_stop) {
        Ok(q) => q,
        Err(e) => {
            return Err(e);
        },
    };
    if equals >= bytes.len() || bytes[equals] != 0x3d {
        return Err(SyntaxError { offset: equals });
    }
    let value_start = match skip_trivia_from(bytes, equals + 1) {
        Ok(q) => q,
        Err(e) => {
            return Err(e);
        },
    };
    let (value, value_stop) = match parse_value(bytes, value_start) {
        Ok(found) => found,
        Err(e) => {
            return Err(e);
        },
    };
    let semicolon = match skip_trivia_from(bytes, value_stop) {
        Ok(q) => q,
        Err(e) => {
            return Err(e);
        },
    };
    if semicolon >= bytes.len() || bytes[semicolon] != 0x3b {
        return Err(SyntaxError { offset: semicolon });
    }
    let assignment = Spanned {
        item: AssignmentExpr {
            identifier: Spanned {
                item: Identifier(text_between(bytes, p, name_stop)),
                span: Range { start: p, end: name_stop },
            },
            value: Spanned { item: value, span: Range { start: value_start, end: value_stop } },
        },
        span: Range { start: p, end: semicolon + 1 },
    };
    Ok((assignment, semicolon + 1))
}

/// The assignments of the block whose `{` stands before `start`, and the offset behind
/// its `}`.
fn parse_block_body(bytes: &[u8], start: usize) -> (r: Result<
    (Vec<Spanned<AssignmentExpr>>, usize),
    SyntaxError,
>)
    requires
        start <= bytes@.len(),
    ensures
        match block_body(bytes@, start as int, Seq::empty()) {
            Ok((assignments, end)) => r matches Ok(found) && crate::map::udmf::ast::assignments_view(
                found.0@,
            ) == assignments && found.1 == end && start < end <= bytes@.len(),
            Err(offset) => r == Err::<(Vec<Spanned<AssignmentExpr>>, usize), SyntaxError>(
                fail(offset),
            ),
        },
{
    let mut assignments: Vec<Spanned<AssignmentExpr>> = Vec::new();
    let mut i: usize = start;
    assert(crate::map::udmf::ast::assignments_view(assignments@) =~= Seq::<AssignmentView>::empty());
    loop
        invariant
            start <= i <= bytes@.len(),
            block_body(bytes@, start as int, Seq::empty()) == block_body(
                bytes@,
                i as int,
                crate::map::udmf::ast::assignments_view(assignments@),
            ),
        decreases bytes@.len() - i,
    {
        let p = match skip_trivia_from(bytes, i) {
            Ok(p) => p,
            Err(e) => {
                return Err(e);
            },
        };
        if p >= bytes.len() {
            return Err(SyntaxError { offset: p });
        }
        if bytes[p] == 0x7d {
            return Ok((assignments, p + 1));
        }
        if !name_start(bytes[p]) {
            return Err(SyntaxError { offset: p });
        }
        let (assignment, next) = match parse_assignment_expr(bytes, p) {
            Ok(found) => found,
            Err(e) => {
                return Err(e);
            },
        };
        let ghost before = crate::map::udmf::ast::assignments_view(assignments@);
        assignments.push(assignment);
        assert(crate::map::udmf::ast::assignments_view(assignments@) =~= before.push(
            assignment@,
        ));
        i = next;
    }
}

/// The assignment or block whose name starts at `p`, and the offset behind it.
fn parse_global(bytes: &[u8], p: usize) -> (r: Result<(GlobalExpr, usize), SyntaxError>)
    requires
        p < bytes@.len(),
        is_name_start(bytes@[p as int]),
    ensures
        match global_at(bytes@, p as int) {
            Ok((global, end)) => r matches Ok(found) && found.0@ == global && found.1 == end && p
                < end <= bytes@.len(),
            Err(offset) => r == Err::<(GlobalExpr, usize), SyntaxError>(fail(offset)),
        },
{
    let name_stop = name_stop(bytes, p);
    let q = match skip_trivia_from(bytes, name_stop) {
        Ok(q) => q,
        Err(e) => {
            return Err(e);
        },
    };
    if q < bytes.len() && bytes[q] == 0x7b {
        let (assignments, next) = match parse_block_body(bytes, q + 1) {
            Ok(found) => found,
            Err(e) => {
                return Err(e);
            },
        };
        let block = Spanned {
            item: Block {
                identifier: Spanned {
                    item: Identifier(text_between(bytes, p, name_stop)),
                    span: Range { start: p, end: name_stop },
                },
                assignments,
            },
            span: Range { start: p, end: next },
        };
        Ok((GlobalExpr::Block(block), next))
    } else {
        match parse_assignment_expr(bytes, p) {
            Ok((assignment, next)) => Ok((GlobalExpr::AssignmentExpr(assignment), next)),
            Err(e) => Err(e),
        }
    }
}

/// The syntax tree that the source text spells, or the offset at which the text stops
/// being a level.
pub fn parse_translation_unit(source: &str) -> (r: Result<TranslationUnit, SyntaxError>)
    ensures
        match parsed(source.spec_bytes()) {
            Ok(tree) => r matches Ok(unit) && unit@ == tree,
            Err(offset) => r == Err::<TranslationUnit, SyntaxError>(fail(offset)),
        },
{
    let bytes = source.as_bytes();
    let mut expressions: Vec<GlobalExpr> = Vec::new();
    let mut i: usize = 0;
    let ghost mut tree: Seq<GlobalView> = Seq::empty();
    loop
        invariant
            i <= bytes@.len(),
            bytes@ == source.spec_bytes(),
            parsed(bytes@) == globals(bytes@, i as int, tree),
            tree == Seq::new(expressions@.len(), |k: int| expressions@[k]@),
        decreases bytes@.len() - i,
    {
        let p = match skip_trivia_from(bytes, i) {
            Ok(p) => p,
            Err(e) => {
                return Err(e);
            },
        };
        if p >= bytes.len() {
            return Ok(TranslationUnit { expressions });
        }
        if !name_start(bytes[p]) {
            return Err(SyntaxError { offset: p });
        }
        let (global, next) = match parse_global(bytes, p) {
            Ok(found) => found,
            Err(e) => {
                return Err(e);
            },
        };
        proof {
            tree = tree.push(global@);
        }
        expressions.push(global);
        assert(tree =~= Seq::new(expressions@.len(), |k: int| expressions@[k]@));
        i = next;
    }
}

} // verus!
