//! A whole level: what stands at the top of the syntax tree, compiled into the lists of a
//! level file.

use std::ops::Range;
use vstd::prelude::*;

use crate::map::graph::{RawMap, RawMapView};
use crate::map::line_def::RawLineDef;
use crate::map::sector::Sector;
use crate::map::side_def::RawSideDef;
use crate::map::thing::Thing;
use crate::map::udmf::ast::{
    AssignmentExpr,
    AssignmentView,
    GlobalExpr,
    GlobalView,
    Spanned,
    TranslationUnit,
};
use crate::map::udmf::compile::{
    expect_str_spec,
    expect_str_value,
    lemma_position_absent,
    lemma_position_found,
    position,
    same_text,
};
use crate::map::udmf::consts::{BlockKind, BLOCKS, GLOBAL_ASSIGNMENTS};
use crate::map::udmf::entities::UdmfBlock;
use crate::map::udmf::{copy_span, names_view, CompileError, CompileErrorView, ValidIdentifiers};
use crate::map::vertex::Vertex;
use crate::string8::String8;

verus! {

/// The kind of block that the name at `index` of [`BLOCKS`] stands for.
pub open spec fn kind_at(index: int) -> BlockKind {
    if index == 0 {
        BlockKind::Vertex
    } else if index == 1 {
        BlockKind::LineDef
    } else if index == 2 {
        BlockKind::Sector
    } else if index == 3 {
        BlockKind::SideDef
    } else {
        BlockKind::Thing
    }
}

/// The kind of block that `name` names, if it names one.
pub open spec fn block_kind_spec(name: Seq<char>) -> Option<BlockKind> {
    match position(BLOCKS@, name) {
        Some(index) => Some(kind_at(index)),
        None => None,
    }
}

/// The kind of block that `name` names, if it names one.
pub fn block_kind(name: &str) -> (r: Option<BlockKind>)
    ensures
        r == block_kind_spec(name@),
{
    let mut i: usize = 0;
    while i < 5
        invariant
            i <= 5,
            BLOCKS@.len() == 5,
            forall|j: int| 0 <= j < i ==> BLOCKS@[j]@ != name@,
        decreases 5 - i,
    {
        if same_text(BLOCKS[i], name) {
            proof {
                lemma_position_found(BLOCKS@, name@, i as int);
            }
            return Some(
                if i == 0 {
                    BlockKind::Vertex
                } else if i == 1 {
                    BlockKind::LineDef
                } else if i == 2 {
                    BlockKind::Sector
                } else if i == 3 {
                    BlockKind::SideDef
                } else {
                    BlockKind::Thing
                },
            );
        }
        i += 1;
    }
    proof {
        lemma_position_absent(BLOCKS@, name@);
    }
    None
}

/// What the compiler holds while it goes through a level: the range of the assignment of
/// the namespace, once it is made, and the entities so far.
pub struct Compiled {
    pub namespace: Option<Range<usize>>,
    pub vertexes: Seq<Vertex>,
    pub line_defs: Seq<RawLineDef>,
    pub sectors: Seq<Sector>,
    pub side_defs: Seq<RawSideDef>,
    pub things: Seq<Thing>,
}

/// What the compiler holds after an assignment at the top of a level: the level may
/// assign its namespace, a string, and only once. A name that is neither `namespace` nor
/// that of a kind of block is no valid block; the name of a kind of block is no valid
/// assignment.
pub open spec fn compile_global_assignment(state: Compiled, a: AssignmentView) -> Result<
    Compiled,
    CompileErrorView,
> {
    if position(GLOBAL_ASSIGNMENTS@, a.name) is None {
        if block_kind_spec(a.name) is None {
            Err(
                CompileErrorView::InvalidBlock {
                    identifier: a.name,
                    valid: names_view(BLOCKS@),
                    span: a.name_span,
                },
            )
        } else {
            Err(
                CompileErrorView::InvalidAssignment {
                    identifier: a.name,
                    valid: names_view(GLOBAL_ASSIGNMENTS@),
                    span: a.span,
                },
            )
        }
    } else {
        match expect_str_spec(a) {
            Err(e) => Err(e),
            Ok(_) => match state.namespace {
                Some(previous_span) => Err(
                    CompileErrorView::MultipleAssignment {
                        identifier: a.name,
                        previous_span,
                        span: a.span,
                    },
                ),
                None => Ok(Compiled { namespace: Some(a.span), ..state }),
            },
        }
    }
}

/// What the compiler holds after one more thing at the top of a level: an assignment, or
/// a block, whose entity goes to the end of the list of its kind.
pub open spec fn compile_global(state: Compiled, expr: GlobalView) -> Result<
    Compiled,
    CompileErrorView,
> {
    match expr {
        GlobalView::Assignment(a) => compile_global_assignment(state, a),
        GlobalView::Block { block, span } => match block_kind_spec(block.name) {
            None => Err(
                CompileErrorView::InvalidBlock {
                    identifier: block.name,
                    valid: names_view(BLOCKS@),
                    span: block.name_span,
                },
            ),
            Some(BlockKind::Vertex) => match Vertex::compiled(block) {
                Ok(vertex) => Ok(Compiled { vertexes: state.vertexes.push(vertex), ..state }),
                Err(e) => Err(e),
            },
            Some(BlockKind::LineDef) => match RawLineDef::compiled(block) {
                Ok(line) => Ok(Compiled { line_defs: state.line_defs.push(line), ..state }),
                Err(e) => Err(e),
            },
            Some(BlockKind::Sector) => match Sector::compiled(block) {
                Ok(sector) => Ok(Compiled { sectors: state.sectors.push(sector), ..state }),
                Err(e) => Err(e),
            },
            Some(BlockKind::SideDef) => match RawSideDef::compiled(block) {
                Ok(side) => Ok(Compiled { side_defs: state.side_defs.push(side), ..state }),
                Err(e) => Err(e),
            },
            Some(BlockKind::Thing) => match Thing::compiled(block) {
                Ok(thing) => Ok(Compiled { things: state.things.push(thing), ..state }),
                Err(e) => Err(e),
            },
        },
    }
}

/// What the compiler holds after all of `exprs`, taken in order; the error of the first
/// that fails.
pub open spec fn compile_globals(exprs: Seq<GlobalView>) -> Result<Compiled, CompileErrorView>
    decreases exprs.len(),
{
    if exprs.len() == 0 {
        Ok(
            Compiled {
                namespace: None,
                vertexes: Seq::empty(),
                line_defs: Seq::empty(),
                sectors: Seq::empty(),
                side_defs: Seq::empty(),
                things: Seq::empty(),
            },
        )
    } else {
        match compile_globals(exprs.drop_last()) {
            Err(e) => Err(e),
            Ok(state) => compile_global(state, exprs.last()),
        }
    }
}

/// The level named `name` that the syntax tree `exprs` spells: the entities of its blocks,
/// each kind in the order of the blocks; the error of the first assignment or block that
/// fails.
pub open spec fn compile_unit_spec(exprs: Seq<GlobalView>, name: String8) -> Result<
    RawMapView,
    CompileErrorView,
> {
    match compile_globals(exprs) {
        Err(e) => Err(e),
        Ok(state) => Ok(
            RawMapView {
                name,
                vertexes: state.vertexes,
                line_defs: state.line_defs,
                sectors: state.sectors,
                side_defs: state.side_defs,
                things: state.things,
            },
        ),
    }
}

/// Once the first `n` fail, all fail in the same way.
pub proof fn lemma_globals_failure(exprs: Seq<GlobalView>, n: int)
    requires
        0 <= n <= exprs.len(),
        compile_globals(exprs.subrange(0, n)) is Err,
    ensures
        compile_globals(exprs) == compile_globals(exprs.subrange(0, n)),
    decreases exprs.len() - n,
{
    if n < exprs.len() {
        let longer = exprs.subrange(0, n + 1);
        assert(longer.drop_last() =~= exprs.subrange(0, n));
        lemma_globals_failure(exprs, n + 1);
    } else {
        assert(exprs.subrange(0, n) =~= exprs);
    }
}

/// The names that a level may assign at its top.
fn global_names() -> (names: Vec<&'static str>)
    ensures
        names@ == GLOBAL_ASSIGNMENTS@,
{
    let names = vec![GLOBAL_ASSIGNMENTS[0]];
    assert(names@ =~= GLOBAL_ASSIGNMENTS@);
    names
}

/// The names of the kinds of block.
fn block_names() -> (names: Vec<&'static str>)
    ensures
        names@ == BLOCKS@,
{
    let names = vec![BLOCKS[0], BLOCKS[1], BLOCKS[2], BLOCKS[3], BLOCKS[4]];
    assert(names@ =~= BLOCKS@);
    names
}

/// Checks an assignment at the top of a level; `namespace` is the range of the assignment
/// of the namespace, once it is made.
fn compile_global_assignment_exec(
    namespace: &mut Option<Range<usize>>,
    assignment: &Spanned<AssignmentExpr>,
) -> (r: Result<(), Box<CompileError>>)
    ensures
        match r {
            Ok(()) => *final(namespace) == Some(assignment@.span),
            Err(_) => *final(namespace) == *old(namespace),
        },
        forall|state: Compiled|
            state.namespace == *old(namespace) ==> match compile_global_assignment(
                state,
                assignment@,
            ) {
                Ok(after) => r is Ok && after == (Compiled {
                    namespace: Some(assignment@.span),
                    ..state
                }),
                Err(e) => r matches Err(error) && error@ == e,
            },
{
    if !same_text(GLOBAL_ASSIGNMENTS[0], assignment.item.identifier.item.as_str()) {
        proof {
            lemma_position_absent(GLOBAL_ASSIGNMENTS@, assignment@.name);
        }
        if block_kind(assignment.item.identifier.item.as_str()).is_none() {
            return Err(
                Box::new(
                    CompileError::InvalidBlock {
                        identifier: assignment.item.identifier.item.clone(),
                        valid: ValidIdentifiers(block_names()),
                        span: copy_span(&assignment.item.identifier.span),
                    },
                ),
            );
        }
        return Err(
            Box::new(
                CompileError::InvalidAssignment {
                    identifier: assignment.item.identifier.item.clone(),
                    valid: ValidIdentifiers(global_names()),
                    span: copy_span(&assignment.span),
                },
            ),
        );
    }
    proof {
        lemma_position_found(GLOBAL_ASSIGNMENTS@, assignment@.name, 0);
    }
    match expect_str_value(assignment) {
        Err(e) => {
            return Err(e);
        },
        Ok(_) => {},
    }
    match namespace {
        Some(previous) => Err(
            Box::new(
                CompileError::MultipleAssignment {
                    identifier: assignment.item.identifier.item.clone(),
                    previous_span: copy_span(previous),
                    span: copy_span(&assignment.span),
                },
            ),
        ),
        None => {
            *namespace = Some(copy_span(&assignment.span));
            Ok(())
        },
    }
}

/// The level named `name` that the syntax tree spells.
pub fn compile_udmf_translation_unit(translation_unit: &TranslationUnit, name: String8) -> (r:
    Result<RawMap, Box<CompileError>>)
    ensures
        match compile_unit_spec(translation_unit@, name) {
            Ok(level) => r matches Ok(found) && found@ == level,
            Err(e) => r matches Err(error) && error@ == e,
        },
{
    let mut namespace: Option<Range<usize>> = None;
    let mut vertexes: Vec<Vertex> = Vec::new();
    let mut line_defs: Vec<RawLineDef> = Vec::new();
    let mut side_defs: Vec<RawSideDef> = Vec::new();
    let mut sectors: Vec<Sector> = Vec::new();
    let mut things: Vec<Thing> = Vec::new();
    let ghost all = translation_unit@;
    let mut done: usize = 0;
    assert(all.subrange(0, 0) =~= Seq::<GlobalView>::empty());
    while done < translation_unit.expressions.len()
        invariant
            done <= translation_unit.expressions.len(),
            all == translation_unit@,
            all.len() == translation_unit.expressions.len(),
            compile_globals(all.subrange(0, done as int)) == Ok::<Compiled, CompileErrorView>(
                Compiled {
                    namespace,
                    vertexes: vertexes@,
                    line_defs: line_defs@,
                    sectors: sectors@,
                    side_defs: side_defs@,
                    things: things@,
                },
            ),
        decreases translation_unit.expressions.len() - done,
    {
        let ghost state = Compiled {
            namespace,
            vertexes: vertexes@,
            line_defs: line_defs@,
            sectors: sectors@,
            side_defs: side_defs@,
            things: things@,
        };
        let ghost prefix = all.subrange(0, done as int + 1);
        assert(prefix.drop_last() =~= all.subrange(0, done as int));
        assert(prefix.last() == translation_unit.expressions@[done as int]@);
        let failed: Option<Box<CompileError>> = match &translation_unit.expressions[done] {
            GlobalExpr::AssignmentExpr(assignment) => {
                match compile_global_assignment_exec(&mut namespace, assignment) {
                    Ok(()) => None,
                    Err(e) => Some(e),
                }
            },
            GlobalExpr::Block(block) => {
                match block_kind(block.item.identifier.item.as_str()) {
                    None => Some(
                        Box::new(
                            CompileError::InvalidBlock {
                                identifier: block.item.identifier.item.clone(),
                                valid: ValidIdentifiers(block_names()),
                                span: copy_span(&block.item.identifier.span),
                            },
                        ),
                    ),
                    Some(BlockKind::Vertex) => match Vertex::compile(&block.item) {
                        Ok(vertex) => {
                            vertexes.push(vertex);
                            None
                        },
                        Err(e) => Some(e),
                    },
                    Some(BlockKind::LineDef) => match RawLineDef::compile(&block.item) {
                        Ok(line) => {
                            line_defs.push(line);
                            None
                        },
                        Err(e) => Some(e),
                    },
                    Some(BlockKind::Sector) => match Sector::compile(&block.item) {
                        Ok(sector) => {
                            sectors.push(sector);
                            None
                        },
                        Err(e) => Some(e),
                    },
                    Some(BlockKind::SideDef) => match RawSideDef::compile(&block.item) {
                        Ok(side) => {
                            side_defs.push(side);
                            None
                        },
                        Err(e) => Some(e),
                    },
                    Some(BlockKind::Thing) => match Thing::compile(&block.item) {
                        Ok(thing) => {
                            things.push(thing);
                            None
                        },
                        Err(e) => Some(e),
                    },
                }
            },
        };
        match failed {
            Some(e) => {
                proof {
                    assert(compile_global(state, prefix.last()) == Err::<Compiled, CompileErrorView>(
                        e@,
                    ));
                    lemma_globals_failure(all, done as int + 1);
                }
                return Err(e);
            },
            None => {},
        }
        done += 1;
    }
    assert(all.subrange(0, done as int) =~= all);
    Ok(RawMap { name, vertexes, line_defs, sectors, side_defs, things })
}

impl TranslationUnit {
    /// The level named `name` that the syntax tree spells.
    pub fn compile(&self, name: String8) -> (r: Result<RawMap, Box<CompileError>>)
        ensures
            match compile_unit_spec(self@, name) {
                Ok(level) => r matches Ok(found) && found@ == level,
                Err(e) => r matches Err(error) && error@ == e,
            },
    {
        compile_udmf_translation_unit(self, name)
    }
}

} // verus!
