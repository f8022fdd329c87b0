//! From values to text: the lines that a level is written as.
//!
//! A writer takes text and knows how far its lines are indented. A level is written as
//! comments (`//text`), assignments (`name=value;`) and blocks, whose assignments are
//! indented by two more spaces than the block itself.

use vstd::prelude::*;
use vstd::string::StringExecFns;

use crate::map::udmf::{Value, ValueView};
use crate::number::Decimal;

verus! {

/// Something that collects the text of a level.
pub trait UdmfWriter: Sized {
    /// The text collected so far.
    spec fn text(&self) -> Seq<char>;

    /// The number of spaces that a line starts with.
    spec fn depth(&self) -> nat;

    /// The number of spaces that a line starts with.
    fn indent(&self) -> (n: usize)
        ensures
            n == self.depth(),
    ;

    /// Adds `s` to the text.
    fn put(&mut self, s: &str)
        ensures
            final(self).text() == old(self).text() + s@,
            final(self).depth() == old(self).depth(),
    ;
}

impl UdmfWriter for String {
    open spec fn text(&self) -> Seq<char> {
        self@
    }

    open spec fn depth(&self) -> nat {
        0
    }

    fn indent(&self) -> (n: usize) {
        0
    }

    fn put(&mut self, s: &str) {
        self.append(s);
    }
}

/// A writer for the inside of a block: what it takes goes to the writer of the block, and
/// its lines are indented by two more spaces.
pub struct UdmfBlockWriter<'w, W>(pub &'w mut W);

impl<'w, W: UdmfWriter> UdmfWriter for UdmfBlockWriter<'w, W> {
    open spec fn text(&self) -> Seq<char> {
        self.0.text()
    }

    open spec fn depth(&self) -> nat {
        if self.0.depth() + 2 <= usize::MAX {
            self.0.depth() + 2
        } else {
            usize::MAX as nat
        }
    }

    fn indent(&self) -> (n: usize) {
        let outer = self.0.indent();
        if outer <= usize::MAX - 2 {
            outer + 2
        } else {
            usize::MAX
        }
    }

    fn put(&mut self, s: &str) {
        self.0.put(s);
    }
}

/// `n` spaces.
pub open spec fn spaces(n: nat) -> Seq<char> {
    Seq::new(n, |i: int| ' ')
}

/// The character of the decimal digit `d`.
pub open spec fn digit_char(d: nat) -> char {
    ((0x30 + d) as u8) as char
}

/// The decimal digits of `n`.
pub open spec fn nat_text(n: nat) -> Seq<char>
    decreases n,
{
    if n < 10 {
        seq![digit_char(n)]
    } else {
        nat_text(n / 10).push(digit_char(n % 10))
    }
}

/// `n` in decimal, with `-` before it where it is negative.
pub open spec fn int_text(n: int) -> Seq<char> {
    if n < 0 {
        seq!['-'] + nat_text((-n) as nat)
    } else {
        nat_text(n as nat)
    }
}

/// A fraction as the text format takes it: the sign, the digits, `e` and the exponent.
pub open spec fn decimal_text(d: Decimal) -> Seq<char> {
    (if d.negative {
        seq!['-']
    } else {
        Seq::<char>::empty()
    }) + nat_text(d.mantissa as nat) + seq!['e'] + int_text(d.exponent as int)
}

/// A value as the text format takes it. A string is put between double quotes as it is.
pub open spec fn value_text(value: ValueView) -> Seq<char> {
    match value {
        ValueView::Int(n) => int_text(n as int),
        ValueView::Float(d) => decimal_text(d),
        ValueView::Str(s) => seq!['"'] + s + seq!['"'],
        ValueView::Bool(b) => if b {
            seq!['t', 'r', 'u', 'e']
        } else {
            seq!['f', 'a', 'l', 's', 'e']
        },
    }
}

/// The line of a comment.
pub open spec fn comment_line(depth: nat, text: Seq<char>) -> Seq<char> {
    spaces(depth) + seq!['/', '/'] + text + seq!['\n']
}

/// The line of an assignment.
pub open spec fn assignment_line(depth: nat, key: Seq<char>, value: ValueView) -> Seq<char> {
    spaces(depth) + key + seq!['='] + value_text(value) + seq![';', '\n']
}

/// The line that opens a block.
pub open spec fn block_start_line(depth: nat, key: Seq<char>) -> Seq<char> {
    spaces(depth) + key + seq![' ', '{', '\n']
}

/// The line that closes a block.
pub open spec fn block_end_line(depth: nat) -> Seq<char> {
    spaces(depth) + seq!['}', '\n']
}

/// The decimal digits of `n`.
pub fn nat_to_text(n: u64) -> (r: String)
    ensures
        r@ == nat_text(n as nat),
    decreases n,
{
    if n < 10 {
        let mut r = String::new();
        r.push((0x30 + n as u8) as char);
        assert(r@ =~= nat_text(n as nat));
        r
    } else {
        let mut r = nat_to_text(n / 10);
        r.push((0x30 + (n % 10) as u8) as char);
        r
    }
}

/// `n` in decimal, with `-` before it where it is negative.
pub fn int_to_text(n: i64) -> (r: String)
    ensures
        r@ == int_text(n as int),
{
    if n < 0 {
        let mut r = String::new();
        r.push('-');
        let digits = nat_to_text((-(n as i128)) as u64);
        r.append(digits.as_str());
        assert(r@ =~= int_text(n as int));
        r
    } else {
        nat_to_text(n as u64)
    }
}

impl Value {
    /// The value as the text format takes it.
    pub fn to_text(&self) -> (r: String)
        ensures
            r@ == value_text(self@),
    {
        match self {
            Value::Int(n) => int_to_text(*n as i64),
            Value::Float(d) => {
                let mut r = String::new();
                if d.negative {
                    r.push('-');
                }
                let digits = nat_to_text(d.mantissa);
                r.append(digits.as_str());
                r.push('e');
                let exponent = int_to_text(d.exponent as i64);
                r.append(exponent.as_str());
                assert(r@ =~= decimal_text(*d));
                r
            },
            Value::Str(s) => {
                let mut r = String::new();
                r.push('"');
                r.append(s.as_str());
                r.push('"');
                assert(r@ =~= value_text(self@));
                r
            },
            Value::Bool(b) => {
                let mut r = String::new();
                if *b {
                    r.push('t');
                    r.push('r');
                    r.push('u');
                    r.push('e');
                } else {
                    r.push('f');
                    r.push('a');
                    r.push('l');
                    r.push('s');
                    r.push('e');
                }
                assert(r@ =~= value_text(self@));
                r
            },
        }
    }
}

/// `n` spaces.
fn indentation(n: usize) -> (r: String)
    ensures
        r@ == spaces(n as nat),
{
    let mut r = String::new();
    let mut i: usize = 0;
    while i < n
        invariant
            i <= n,
            r@ == spaces(i as nat),
        decreases n - i,
    {
        r.push(' ');
        assert(r@ =~= spaces((i + 1) as nat));
        i += 1;
    }
    r
}

/// Writes a comment in a line of its own.
pub fn write_comment<W: UdmfWriter>(writer: &mut W, text: &str)
    ensures
        final(writer).text() == old(writer).text() + comment_line(old(writer).depth(), text@),
        final(writer).depth() == old(writer).depth(),
{
    let mut line = indentation(writer.indent());
    line.push('/');
    line.push('/');
    line.append(text);
    line.push('\n');
    assert(line@ =~= comment_line(writer.depth(), text@));
    writer.put(line.as_str());
}

/// Writes an empty line.
pub fn write_blank_line<W: UdmfWriter>(writer: &mut W)
    ensures
        final(writer).text() == old(writer).text() + seq!['\n'],
        final(writer).depth() == old(writer).depth(),
{
    let mut line = String::new();
    line.push('\n');
    assert(line@ =~= seq!['\n']);
    writer.put(line.as_str());
}

/// Writes an assignment in a line of its own.
pub fn write_assignment<W: UdmfWriter>(writer: &mut W, key: &str, value: &Value)
    ensures
        final(writer).text() == old(writer).text() + assignment_line(
            old(writer).depth(),
            key@,
            value@,
        ),
        final(writer).depth() == old(writer).depth(),
{
    let line = assignment_to_text(writer.indent(), key, value);
    writer.put(line.as_str());
}

impl<'w, W: UdmfWriter> UdmfBlockWriter<'w, W> {
    /// Opens a block: writes its name and `{`.
    pub fn start(&mut self, key: &str)
        ensures
            final(self).text() == old(self).text() + block_start_line(old(self).0.depth(), key@),
            final(self).0.depth() == old(self).0.depth(),
    {
        let mut line = indentation(self.0.indent());
        line.append(key);
        line.push(' ');
        line.push('{');
        line.push('\n');
        assert(line@ =~= block_start_line(self.0.depth(), key@));
        self.0.put(line.as_str());
    }

    /// Closes the block: writes `}`.
    pub fn end(&mut self)
        ensures
            final(self).text() == old(self).text() + block_end_line(old(self).0.depth()),
            final(self).0.depth() == old(self).0.depth(),
    {
        let mut line = indentation(self.0.indent());
        line.push('}');
        line.push('\n');
        assert(line@ =~= block_end_line(self.0.depth()));
        self.0.put(line.as_str());
    }
}

/// What a list of assignments holds: each name, and what its value holds.
pub open spec fn fields_view(fields: Seq<(&'static str, Value)>) -> Seq<(Seq<char>, ValueView)> {
    Seq::new(fields.len(), |i: int| (fields[i].0@, fields[i].1@))
}

/// The lines of the assignments `fields`, in order.
pub open spec fn lines(depth: nat, fields: Seq<(Seq<char>, ValueView)>) -> Seq<char>
    decreases fields.len(),
{
    if fields.len() == 0 {
        Seq::empty()
    } else {
        lines(depth, fields.drop_last()) + assignment_line(depth, fields.last().0, fields.last().1)
    }
}

/// How far the assignments of a block are indented whose own lines are indented by
/// `depth`.
pub open spec fn inner_depth(depth: nat) -> nat {
    if depth + 2 <= usize::MAX {
        depth + 2
    } else {
        usize::MAX as nat
    }
}

/// The lines of the block named `key` with the assignments `fields`.
pub open spec fn block_text(depth: nat, key: Seq<char>, fields: Seq<(Seq<char>, ValueView)>) -> Seq<
    char,
> {
    block_start_line(depth, key) + lines(inner_depth(depth), fields) + block_end_line(depth)
}

/// The line of an assignment.
fn assignment_to_text(depth: usize, key: &str, value: &Value) -> (line: String)
    ensures
        line@ == assignment_line(depth as nat, key@, value@),
{
    let mut line = indentation(depth);
    line.append(key);
    line.push('=');
    let text = value.to_text();
    line.append(text.as_str());
    line.push(';');
    line.push('\n');
    assert(line@ =~= assignment_line(depth as nat, key@, value@));
    line
}

/// Writes the block named `key` with the assignments `fields`.
pub fn write_block<W: UdmfWriter>(writer: &mut W, key: &str, fields: &Vec<(&'static str, Value)>)
    ensures
        final(writer).text() == old(writer).text() + block_text(
            old(writer).depth(),
            key@,
            fields_view(fields@),
        ),
        final(writer).depth() == old(writer).depth(),
{
    let depth = writer.indent();
    let inner = if depth <= usize::MAX - 2 {
        depth + 2
    } else {
        usize::MAX
    };
    let mut block = indentation(depth);
    block.append(key);
    block.push(' ');
    block.push('{');
    block.push('\n');
    assert(block@ =~= block_start_line(depth as nat, key@));
    let mut i: usize = 0;
    assert(fields_view(fields@).subrange(0, 0) =~= Seq::<(Seq<char>, ValueView)>::empty());
    while i < fields.len()
        invariant
            i <= fields.len(),
            inner == inner_depth(depth as nat),
            block@ == block_start_line(depth as nat, key@) + lines(
                inner as nat,
                fields_view(fields@).subrange(0, i as int),
            ),
        decreases fields.len() - i,
    {
        let ghost done = fields_view(fields@).subrange(0, i as int);
        let ghost next = fields_view(fields@).subrange(0, i as int + 1);
        assert(next.drop_last() =~= done);
        assert(next.last() == (fields@[i as int].0@, fields@[i as int].1@));
        let line = assignment_to_text(inner, fields[i].0, &fields[i].1);
        block.append(line.as_str());
        assert(block@ =~= block_start_line(depth as nat, key@) + lines(inner as nat, next));
        i += 1;
    }
    assert(fields_view(fields@).subrange(0, i as int) =~= fields_view(fields@));
    let close = indentation(depth);
    block.append(close.as_str());
    block.push('}');
    block.push('\n');
    assert(block@ =~= block_text(depth as nat, key@, fields_view(fields@)));
    writer.put(block.as_str());
}

} // verus!
