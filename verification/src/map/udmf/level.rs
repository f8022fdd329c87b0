//! Whole levels: from source text to a level graph, and from a level graph to text.

use vstd::prelude::*;
use vstd::string::{StringExecFns, StringSliceAdditionalSpecFns};

use crate::map::arena::SLOT_LIMIT;
use crate::map::graph::{LinkedMap, RawMap, RawMapView};
use crate::map::udmf::ast::GlobalView;
use crate::map::udmf::consts::NAMESPACE;
use crate::map::udmf::entities::UdmfBlock;
use crate::map::udmf::parse::{fail, globals, parse_translation_unit, parsed};
use crate::map::udmf::unit::{compile_globals, compile_udmf_translation_unit, compile_unit_spec};
use crate::map::udmf::write::{
    assignment_line,
    block_text,
    comment_line,
    nat_text,
    nat_to_text,
    write_assignment,
    write_blank_line,
    write_comment,
    UdmfWriter,
};
use crate::map::udmf::{CompileErrorView, LoadError, Value, ValueView, WriteError};
use crate::string8::String8;

verus! {

/// The comment that a written level starts with.
pub const WRITTEN_BY: &'static str = "Written by waddle v0.1.0";

/// The namespace that a written level declares.
pub const WRITTEN_NAMESPACE: &'static str = "zdoom";

pub const TITLE_VERTEXES: &'static str = "Vertexes";

pub const TITLE_LINE_DEFS: &'static str = "Line Defs";

pub const TITLE_SECTORS: &'static str = "Sectors";

pub const TITLE_SIDE_DEFS: &'static str = "Side Defs";

pub const TITLE_THINGS: &'static str = "Things";

/// The entity at `index` of its list as it is written: a comment with the index, the
/// block and an empty line.
pub open spec fn entity_text<E: UdmfBlock>(entity: E, index: nat) -> Option<Seq<char>> {
    match entity.fields() {
        Some(fields) => Some(
            comment_line(0, seq!['#'] + nat_text(index)) + block_text(0, E::block_name(), fields)
                + seq!['\n'],
        ),
        None => None,
    }
}

/// The first `n` of `entities` as they are written, in order.
pub open spec fn entities_text<E: UdmfBlock>(entities: Seq<E>, n: nat) -> Option<Seq<char>>
    decreases n,
{
    if n == 0 {
        Some(Seq::empty())
    } else {
        match entities_text(entities, (n - 1) as nat) {
            Some(before) => match entity_text(entities[n - 1], (n - 1) as nat) {
                Some(entity) => Some(before + entity),
                None => None,
            },
            None => None,
        }
    }
}

/// A list of entities as it is written: a comment with its title, then the entities.
pub open spec fn section_text<E: UdmfBlock>(title: Seq<char>, entities: Seq<E>) -> Option<Seq<char>> {
    match entities_text(entities, entities.len()) {
        Some(text) => Some(comment_line(0, title) + text),
        None => None,
    }
}

/// What a written level starts with.
pub open spec fn header_text() -> Seq<char> {
    comment_line(0, WRITTEN_BY@) + assignment_line(
        0,
        NAMESPACE@,
        ValueView::Str(WRITTEN_NAMESPACE@),
    )
}

/// The level as text: the header, then the vertexes, the lines, the sectors, the sides and
/// the things. There is none where a texture or flat name is not UTF-8.
pub open spec fn level_text(level: RawMapView) -> Option<Seq<char>> {
    match (
        section_text(TITLE_VERTEXES@, level.vertexes),
        section_text(TITLE_LINE_DEFS@, level.line_defs),
        section_text(TITLE_SECTORS@, level.sectors),
        section_text(TITLE_SIDE_DEFS@, level.side_defs),
        section_text(TITLE_THINGS@, level.things),
    ) {
        (Some(vertexes), Some(line_defs), Some(sectors), Some(side_defs), Some(things)) => Some(
            header_text() + vertexes + line_defs + sectors + side_defs + things,
        ),
        _ => None,
    }
}

/// Once the first `n` entities cannot be written, none of the lists that start with them
/// can.
proof fn lemma_entities_text_fails<E: UdmfBlock>(entities: Seq<E>, n: nat, all: nat)
    requires
        n <= all,
        entities_text(entities, n) is None,
    ensures
        entities_text(entities, all) is None,
    decreases all - n,
{
    if n < all {
        lemma_entities_text_fails(entities, n + 1, all);
    }
}

/// Writes a list of entities behind `text`: a comment with the title, then each entity
/// with its index.
fn write_section<E: UdmfBlock>(text: &mut String, title: &str, entities: &Vec<E>) -> (r: Result<
    (),
    WriteError,
>)
    ensures
        match section_text(title@, entities@) {
            Some(section) => r is Ok && final(text)@ == old(text)@ + section,
            None => r matches Err(WriteError::String8Utf8(_)),
        },
{
    let ghost before = text@;
    write_comment(text, title);
    let mut i: usize = 0;
    while i < entities.len()
        invariant
            i <= entities.len(),
            entities_text(entities@, i as nat) matches Some(done) && text@ == before
                + comment_line(0, title@) + done,
        decreases entities.len() - i,
    {
        let ghost done = entities_text(entities@, i as nat)->Some_0;
        let mut label = String::new();
        label.push('#');
        let number = nat_to_text(i as u64);
        label.append(number.as_str());
        assert(label@ =~= seq!['#'] + nat_text(i as nat));
        let ghost at_start = text@;
        write_comment(text, label.as_str());
        match entities[i].write(text) {
            Ok(()) => {},
            Err(e) => {
                proof {
                    lemma_entities_text_fails(entities@, i as nat + 1, entities@.len());
                }
                return Err(e);
            },
        }
        write_blank_line(text);
        proof {
            let entity = entity_text(entities@[i as int], i as nat)->Some_0;
            assert(text@ =~= at_start + entity);
            assert(text@ =~= before + comment_line(0, title@) + (done + entity));
        }
        i += 1;
    }
    proof {
        let done = entities_text(entities@, entities@.len())->Some_0;
        assert(text@ =~= before + (comment_line(0, title@) + done));
    }
    Ok(())
}

impl RawMap {
    /// The level as text.
    pub fn to_udmf_textmap(&self) -> (r: Result<String, WriteError>)
        ensures
            match level_text(self@) {
                Some(text) => r matches Ok(found) && found@ == text,
                None => r matches Err(WriteError::String8Utf8(_)),
            },
    {
        let mut text = String::new();
        write_comment(&mut text, WRITTEN_BY);
        write_assignment(&mut text, NAMESPACE, &Value::Str(WRITTEN_NAMESPACE.to_owned()));
        assert(text@ =~= header_text());
        match write_section(&mut text, TITLE_VERTEXES, &self.vertexes) {
            Ok(()) => {},
            Err(e) => {
                return Err(e);
            },
        }
        match write_section(&mut text, TITLE_LINE_DEFS, &self.line_defs) {
            Ok(()) => {},
            Err(e) => {
                return Err(e);
            },
        }
        match write_section(&mut text, TITLE_SECTORS, &self.sectors) {
            Ok(()) => {},
            Err(e) => {
                return Err(e);
            },
        }
        match write_section(&mut text, TITLE_SIDE_DEFS, &self.side_defs) {
            Ok(()) => {},
            Err(e) => {
                return Err(e);
            },
        }
        match write_section(&mut text, TITLE_THINGS, &self.things) {
            Ok(()) => {},
            Err(e) => {
                return Err(e);
            },
        }
        Ok(text)
    }
}

/// The text that a graph is written as: that of the level file that it makes.
pub open spec fn graph_text(graph: crate::map::graph::MapView) -> Result<Seq<char>, Option<
    crate::map::graph::UnlinkError,
>> {
    match graph.unlinked() {
        Err(e) => Err(Some(e)),
        Ok(level) => match level_text(level) {
            Some(text) => Ok(text),
            None => Err(None),
        },
    }
}

impl LinkedMap {
    /// The graph as text: it is unlinked, and the level file that it makes is written.
    pub fn to_udmf_textmap(&self) -> (r: Result<String, WriteError>)
        ensures
            match graph_text(self@) {
                Ok(text) => r matches Ok(found) && found@ == text,
                Err(Some(e)) => r matches Err(WriteError::Unlink(error)) && error == e,
                Err(None) => r matches Err(WriteError::String8Utf8(_)),
            },
    {
        match self.unlink() {
            Err(e) => Err(WriteError::Unlink(e)),
            Ok(level) => level.to_udmf_textmap(),
        }
    }

    /// Writes the graph as text. Nothing is written where the graph makes no level file or
    /// where a texture or flat name is not UTF-8.
    pub fn write_udmf_textmap<W: UdmfWriter>(&self, writer: &mut W) -> (r: Result<(), WriteError>)
        ensures
            final(writer).depth() == old(writer).depth(),
            match graph_text(self@) {
                Ok(text) => r is Ok && final(writer).text() == old(writer).text() + text,
                Err(Some(e)) => r matches Err(WriteError::Unlink(error)) && error == e && final(writer).text() == old(writer).text(),
                Err(None) => r matches Err(WriteError::String8Utf8(_)) && final(writer).text()
                    == old(writer).text(),
            },
    {
        match self.to_udmf_textmap() {
            Ok(text) => {
                writer.put(text.as_str());
                Ok(())
            },
            Err(e) => Err(e),
        }
    }
}

/// What the source text `source` makes of a level named `name`, step by step: the syntax
/// tree, the level file, the graph.
pub open spec fn loaded(source: Seq<u8>, name: String8) -> Result<RawMapView, LoadFailure> {
    match parsed(source) {
        Err(offset) => Err(LoadFailure::Parse(fail(offset))),
        Ok(tree) => match compile_unit_spec(tree, name) {
            Err(e) => Err(LoadFailure::Compile(e)),
            Ok(level) => match level.link_error() {
                Some(e) => Err(LoadFailure::Link(e)),
                None => Ok(level),
            },
        },
    }
}

/// What a [`LoadError`] holds.
pub enum LoadFailure {
    Parse(crate::map::udmf::parse::SyntaxError),
    Compile(CompileErrorView),
    Link(crate::map::graph::LinkError),
}

impl View for LoadError {
    type V = LoadFailure;

    open spec fn view(&self) -> LoadFailure {
        match self {
            LoadError::Parse(e) => LoadFailure::Parse(*e),
            LoadError::Compile(e) => LoadFailure::Compile(e@),
            LoadError::Link(e) => LoadFailure::Link(*e),
        }
    }
}

/// A level has no more entities than its source text has bytes.
proof fn lemma_globals_count(s: Seq<u8>, i: int, so_far: Seq<GlobalView>)
    requires
        0 <= i <= s.len(),
    ensures
        globals(s, i, so_far) matches Ok(tree) ==> tree.len() <= so_far.len() + s.len() - i,
    decreases s.len() - i,
{
    match crate::map::udmf::parse::skip_trivia(s, i) {
        Ok(p) => {
            if i <= p < s.len() && crate::map::udmf::parse::is_name_start(s[p]) {
                match crate::map::udmf::parse::global_at(s, p) {
                    Ok((global, next)) => {
                        if p < next <= s.len() {
                            lemma_globals_count(s, next, so_far.push(global));
                        }
                    },
                    Err(_) => {},
                }
            }
        },
        Err(_) => {},
    }
}

/// A level file has no more entities of any kind than its syntax tree has assignments and
/// blocks.
proof fn lemma_compiled_count(exprs: Seq<GlobalView>)
    ensures
        compile_globals(exprs) matches Ok(state) ==> state.vertexes.len() <= exprs.len()
            && state.line_defs.len() <= exprs.len() && state.sectors.len() <= exprs.len()
            && state.side_defs.len() <= exprs.len() && state.things.len() <= exprs.len(),
    decreases exprs.len(),
{
    if exprs.len() > 0 {
        lemma_compiled_count(exprs.drop_last());
    }
}

impl LinkedMap {
    /// The level graph named `name` that the source text spells: the text is parsed, the
    /// syntax tree is compiled and the level is linked. The error is that of the first of
    /// these steps that fails. The text has fewer bytes than a slot map takes entries.
    pub fn load_udmf_textmap(name: String8, contents: &str) -> (r: Result<LinkedMap, LoadError>)
        requires
            contents.spec_bytes().len() < SLOT_LIMIT,
        ensures
            match loaded(contents.spec_bytes(), name) {
                Ok(level) => r matches Ok(graph) && graph@.links(level) && graph.well_formed(),
                Err(e) => r matches Err(error) && error@ == e,
            },
    {
        let translation_unit = match parse_translation_unit(contents) {
            Ok(unit) => unit,
            Err(e) => {
                return Err(LoadError::Parse(e));
            },
        };
        let raw_map = match compile_udmf_translation_unit(&translation_unit, name) {
            Ok(level) => level,
            Err(e) => {
                return Err(LoadError::Compile(e));
            },
        };
        proof {
            lemma_globals_count(contents.spec_bytes(), 0, Seq::empty());
            lemma_compiled_count(translation_unit@);
        }
        match raw_map.link() {
            Ok(graph) => Ok(graph),
            Err(e) => Err(LoadError::Link(e)),
        }
    }
}

} // verus!
