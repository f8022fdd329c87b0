//! The syntax tree of the text format: assignments and blocks, each with the range of
//! bytes of the source text that it was read from.

use std::ops::Range;
use vstd::prelude::*;

use crate::map::udmf::{Identifier, Value, ValueView};

verus! {

/// Something read from the source text, with the range of bytes it was read from.
#[derive(Debug, PartialEq, Eq)]
pub struct Spanned<T> {
    pub item: T,
    pub span: Range<usize>,
}

impl<T: Clone> Clone for Spanned<T> {
    fn clone(&self) -> (r: Self)
        ensures
            cloned::<T>(self.item, r.item),
            r.span == self.span,
    {
        Spanned { item: self.item.clone(), span: Range { start: self.span.start, end: self.span.end } }
    }
}

impl<T> Spanned<T> {
    pub fn wrap(pair: (T, Range<usize>)) -> (r: Self)
        ensures
            r.item == pair.0,
            r.span == pair.1,
    {
        Self { item: pair.0, span: pair.1 }
    }
}

/// An assignment: `name = value;`.
#[derive(Debug, PartialEq, Eq)]
pub struct AssignmentExpr {
    pub identifier: Spanned<Identifier>,
    pub value: Spanned<Value>,
}

impl Clone for AssignmentExpr {
    fn clone(&self) -> (r: Self)
        ensures
            r.identifier.item@ == self.identifier.item@,
            r.identifier.span == self.identifier.span,
            r.value.item@ == self.value.item@,
            r.value.span == self.value.span,
    {
        AssignmentExpr { identifier: self.identifier.clone(), value: self.value.clone() }
    }
}

/// A block: `name { assignments }`.
#[derive(Debug, PartialEq, Eq)]
pub struct Block {
    pub identifier: Spanned<Identifier>,
    pub assignments: Vec<Spanned<AssignmentExpr>>,
}

/// What stands at the top of a level: an assignment or a block.
#[derive(Debug, PartialEq, Eq)]
pub enum GlobalExpr {
    AssignmentExpr(Spanned<AssignmentExpr>),
    Block(Spanned<Block>),
}

/// A level as it was read: what stands at its top, in order.
#[derive(Debug, PartialEq, Eq)]
pub struct TranslationUnit {
    pub expressions: Vec<GlobalExpr>,
}

/// What an assignment holds.
pub struct AssignmentView {
    pub name: Seq<char>,
    pub name_span: Range<usize>,
    pub value: ValueView,
    pub value_span: Range<usize>,
    /// The range of the whole assignment.
    pub span: Range<usize>,
}

/// What a block holds.
pub struct BlockView {
    pub name: Seq<char>,
    pub name_span: Range<usize>,
    pub assignments: Seq<AssignmentView>,
}

/// What stands at the top of a level.
pub enum GlobalView {
    Assignment(AssignmentView),
    /// A block, and the range of the whole of it.
    Block { block: BlockView, span: Range<usize> },
}

impl View for Spanned<AssignmentExpr> {
    type V = AssignmentView;

    open spec fn view(&self) -> AssignmentView {
        AssignmentView {
            name: self.item.identifier.item@,
            name_span: self.item.identifier.span,
            value: self.item.value.item@,
            value_span: self.item.value.span,
            span: self.span,
        }
    }
}

/// What a list of assignments holds.
pub open spec fn assignments_view(assignments: Seq<Spanned<AssignmentExpr>>) -> Seq<AssignmentView> {
    Seq::new(assignments.len(), |i: int| assignments[i]@)
}

impl View for Block {
    type V = BlockView;

    open spec fn view(&self) -> BlockView {
        BlockView {
            name: self.identifier.item@,
            name_span: self.identifier.span,
            assignments: assignments_view(self.assignments@),
        }
    }
}

impl View for GlobalExpr {
    type V = GlobalView;

    open spec fn view(&self) -> GlobalView {
        match self {
            GlobalExpr::AssignmentExpr(a) => GlobalView::Assignment(a@),
            GlobalExpr::Block(b) => GlobalView::Block { block: b.item@, span: b.span },
        }
    }
}

impl View for TranslationUnit {
    type V = Seq<GlobalView>;

    open spec fn view(&self) -> Seq<GlobalView> {
        Seq::new(self.expressions@.len(), |i: int| self.expressions@[i]@)
    }
}

impl Clone for Block {
    fn clone(&self) -> (r: Self)
        ensures
            r@ == self@,
    {
        let mut assignments: Vec<Spanned<AssignmentExpr>> = Vec::new();
        let mut i: usize = 0;
        while i < self.assignments.len()
            invariant
                i <= self.assignments@.len(),
                assignments@.len() == i,
                forall|k: int| 0 <= k < i ==> (#[trigger] assignments@[k])@ == self.assignments@[k]@,
            decreases self.assignments@.len() - i,
        {
            assignments.push(self.assignments[i].clone());
            i += 1;
        }
        assert(assignments_view(assignments@) =~= assignments_view(self.assignments@));
        Block { identifier: self.identifier.clone(), assignments }
    }
}

impl Clone for GlobalExpr {
    fn clone(&self) -> (r: Self)
        ensures
            r@ == self@,
    {
        match self {
            GlobalExpr::AssignmentExpr(a) => GlobalExpr::AssignmentExpr(a.clone()),
            GlobalExpr::Block(b) => GlobalExpr::Block(b.clone()),
        }
    }
}

impl Clone for TranslationUnit {
    fn clone(&self) -> (r: Self)
        ensures
            r@ == self@,
    {
        let mut expressions: Vec<GlobalExpr> = Vec::new();
        let mut i: usize = 0;
        while i < self.expressions.len()
            invariant
                i <= self.expressions@.len(),
                expressions@.len() == i,
                forall|k: int| 0 <= k < i ==> (#[trigger] expressions@[k])@ == self.expressions@[k]@,
            decreases self.expressions@.len() - i,
        {
            expressions.push(self.expressions[i].clone());
            i += 1;
        }
        let r = TranslationUnit { expressions };
        assert(r@ =~= self@);
        r
    }
}

} // verus!
