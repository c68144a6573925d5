//! The document decoder: the top-level state machine that drives the field
//! decoders across one document and assembles its suites.

use vstd::prelude::*;

use crate::cursor::{
    expect_spec, fail_at, fail_here, read_document_end, read_document_start, read_mapping_start,
    read_scalar, read_stream_end, read_stream_start, scalar_spec, stream_start_spec, EventCursor,
};
use crate::error::{DecodeError, Expected};
use crate::event::{DocEvent, EventKind};
use crate::fields::{flags_spec, lemma_tests_advance, parse_flags, parse_tests, tests_spec};
use crate::model::{
    suites_view, Schema, SuiteView, TableReference, TableView, TestMode, TestSuite,
};
use crate::table::{copy_table, copy_text, lemma_table_advances, parse_schema_table, schema_table_spec};
use crate::text::text_is;

verus! {

/// A key of the document's top-level mapping.
#[derive(Debug, Clone, Copy, PartialEq, Eq, Structural)]
pub enum TopKey {
    Display,
    Table,
    Flags,
    Tests,
}

pub open spec fn top_key_named(s: Seq<char>) -> Option<TopKey> {
    if s == "display"@ {
        Some(TopKey::Display)
    } else if s == "table"@ {
        Some(TopKey::Table)
    } else if s == "flags"@ {
        Some(TopKey::Flags)
    } else if s == "tests"@ {
        Some(TopKey::Tests)
    } else {
        None
    }
}

/// Looks up the top-level key that `s` names.
pub fn top_key(s: &str) -> (r: Option<TopKey>)
    ensures
        r == top_key_named(s@),
{
    if text_is(s, "display") {
        Some(TopKey::Display)
    } else if text_is(s, "table") {
        Some(TopKey::Table)
    } else if text_is(s, "flags") {
        Some(TopKey::Flags)
    } else if text_is(s, "tests") {
        Some(TopKey::Tests)
    } else {
        None
    }
}

/// The suite-level fields seen so far, and the suites already complete.
pub struct DocState {
    pub display: Option<String>,
    pub table: Option<TableView>,
    pub mode: TestMode,
    pub suites: Seq<SuiteView>,
}

/// The state before the first key.
pub open spec fn initial_state() -> DocState {
    DocState { display: None, table: None, mode: TestMode::Forward, suites: Seq::empty() }
}

pub proof fn lemma_flags_advance(evs: Seq<DocEvent>, pos: int)
    ensures
        flags_spec(evs, pos) matches Ok((_, p)) ==> pos < p <= evs.len(),
{
}

/// The value of top-level key `key` at `pos`, applied to state `st`: the
/// new state and the position after the value. A `tests` key closes one
/// suite with the display, table and mode set so far.
pub open spec fn key_value_spec(schema: Schema, key: TopKey, evs: Seq<DocEvent>, pos: int, st: DocState) -> Result<
    (DocState, int),
    DecodeError,
> {
    match key {
        TopKey::Display => match scalar_spec(evs, pos) {
            Ok((v, p)) => Ok((DocState { display: Some(v), ..st }, p)),
            Err(e) => Err(e),
        },
        TopKey::Table => match schema_table_spec(schema, evs, pos) {
            Ok((t, p)) => Ok((DocState { table: Some(t), ..st }, p)),
            Err(e) => Err(e),
        },
        TopKey::Flags => match flags_spec(evs, pos) {
            Ok((m, p)) => Ok((DocState { mode: m, ..st }, p)),
            Err(e) => Err(e),
        },
        TopKey::Tests => match st.table {
            None => Err(DecodeError::MissingTable),
            Some(t) => match tests_spec(evs, pos) {
                Ok((ts, p)) => {
                    let suite = SuiteView {
                        display_table: st.display,
                        table: t,
                        mode: st.mode,
                        tests: ts,
                    };
                    Ok((DocState { suites: st.suites.push(suite), ..st }, p))
                },
                Err(e) => Err(e),
            },
        },
    }
}

pub proof fn lemma_key_value_advances(schema: Schema, key: TopKey, evs: Seq<DocEvent>, pos: int, st: DocState)
    ensures
        key_value_spec(schema, key, evs, pos, st) matches Ok((_, p)) ==> pos < p <= evs.len(),
{
    lemma_table_advances(schema, evs, pos);
    lemma_flags_advance(evs, pos);
    lemma_tests_advance(evs, pos);
}

/// The keys of the top-level mapping from `pos` on, in state `st`: the
/// suites of the document and the position after the mapping's end.
pub open spec fn keys_spec(schema: Schema, evs: Seq<DocEvent>, pos: int, st: DocState) -> Result<
    (Seq<SuiteView>, int),
    DecodeError,
>
    decreases evs.len() - pos,
{
    if 0 <= pos < evs.len() {
        match evs[pos] {
            DocEvent::Scalar { value: key, .. } => match top_key_named(key@) {
                None => Err(DecodeError::UnknownField { name: key }),
                Some(k) => match key_value_spec(schema, k, evs, pos + 1, st) {
                    Ok((next, p)) => {
                        proof {
                            lemma_key_value_advances(schema, k, evs, pos + 1, st);
                        }
                        keys_spec(schema, evs, p, next)
                    },
                    Err(e) => Err(e),
                },
            },
            DocEvent::MappingEnd => Ok((st.suites, pos + 1)),
            _ => Err(fail_at(evs, pos, Expected::KeyOrMappingEnd)),
        }
    } else {
        Err(fail_at(evs, pos, Expected::KeyOrMappingEnd))
    }
}

/// The suites of a whole stream: the start of a UTF-8 stream, the start of
/// a document, its top-level mapping, the end of the document and the end
/// of the stream.
pub open spec fn document_spec(schema: Schema, evs: Seq<DocEvent>) -> Result<Seq<SuiteView>, DecodeError> {
    match stream_start_spec(evs, 0) {
        Err(e) => Err(e),
        Ok(p1) => match expect_spec(evs, p1, EventKind::DocumentStart) {
            Err(e) => Err(e),
            Ok(p2) => match expect_spec(evs, p2, EventKind::MappingStart) {
                Err(e) => Err(e),
                Ok(p3) => match keys_spec(schema, evs, p3, initial_state()) {
                    Err(e) => Err(e),
                    Ok((suites, p4)) => match expect_spec(evs, p4, EventKind::DocumentEnd) {
                        Err(e) => Err(e),
                        Ok(p5) => match expect_spec(evs, p5, EventKind::StreamEnd) {
                            Err(e) => Err(e),
                            Ok(_) => Ok(suites),
                        },
                    },
                },
            },
        },
    }
}

/// Every suite's table is well formed.
pub open spec fn suites_wf(suites: Seq<TestSuite>) -> bool {
    forall|i: int| 0 <= i < suites.len() ==> (#[trigger] suites[i]).table.wf()
}

pub open spec fn table_view_of(t: Option<TableReference>) -> Option<TableView> {
    match t {
        Some(x) => Some(x@),
        None => None,
    }
}

/// The suite-level fields read so far and the suites already closed.
pub struct SuiteBuilder {
    pub display: Option<String>,
    pub table: Option<TableReference>,
    pub mode: TestMode,
    pub suites: Vec<TestSuite>,
}

impl SuiteBuilder {
    pub open spec fn wf(&self) -> bool {
        &&& (self.table matches Some(t) ==> t.wf())
        &&& suites_wf(self.suites@)
    }

    /// What the builder holds.
    pub open spec fn state(&self) -> DocState {
        DocState {
            display: self.display,
            table: table_view_of(self.table),
            mode: self.mode,
            suites: suites_view(self.suites@),
        }
    }

    /// The builder before the first key: no display, no table, forward mode.
    pub fn new() -> (r: SuiteBuilder)
        ensures
            r.wf(),
            r.state() == initial_state(),
    {
        let r = SuiteBuilder { display: None, table: None, mode: TestMode::Forward, suites: Vec::new() };
        assert(suites_view(r.suites@) =~= Seq::empty());
        r
    }
}

/// Reads the value of top-level key `key` and returns the builder with it
/// applied.
pub fn apply_key(schema: Schema, key: TopKey, c: &mut EventCursor, b: SuiteBuilder) -> (r: Result<
    SuiteBuilder,
    DecodeError,
>)
    requires
        old(c).wf(),
        b.wf(),
    ensures
        final(c).events@ == old(c).events@,
        final(c).wf(),
        match key_value_spec(schema, key, old(c).events@, old(c).pos as int, b.state()) {
            Ok((st, p)) => r matches Ok(x) && x.wf() && x.state() == st && final(c).pos == p,
            Err(e) => r == Err::<SuiteBuilder, DecodeError>(e),
        },
{
    let SuiteBuilder { display, table, mode, mut suites } = b;
    match key {
        TopKey::Display => match read_scalar(c) {
            Ok(v) => Ok(SuiteBuilder { display: Some(v), table, mode, suites }),
            Err(e) => Err(e),
        },
        TopKey::Table => match parse_schema_table(schema, c) {
            Ok(t) => Ok(SuiteBuilder { display, table: Some(t), mode, suites }),
            Err(e) => Err(e),
        },
        TopKey::Flags => match parse_flags(c) {
            Ok(m) => Ok(SuiteBuilder { display, table, mode: m, suites }),
            Err(e) => Err(e),
        },
        TopKey::Tests => {
            let t = match &table {
                Some(t) => copy_table(t),
                None => {
                    return Err(DecodeError::MissingTable);
                },
            };
            let tests = match parse_tests(c) {
                Ok(ts) => ts,
                Err(e) => {
                    return Err(e);
                },
            };
            let suite = TestSuite { display_table: copy_text(&display), table: t, mode, tests };
            let ghost before = suites@;
            suites.push(suite);
            assert(suites_view(suites@) =~= suites_view(before).push(suite@));
            Ok(SuiteBuilder { display, table, mode, suites })
        },
    }
}

/// Reads the keys of the top-level mapping, whose start has been read, and
/// returns the suites that its `tests` keys close.
pub fn decode_keys(schema: Schema, c: &mut EventCursor) -> (r: Result<Vec<TestSuite>, DecodeError>)
    requires
        old(c).wf(),
    ensures
        final(c).events@ == old(c).events@,
        final(c).wf(),
        match keys_spec(schema, old(c).events@, old(c).pos as int, initial_state()) {
            Ok((s, p)) => r matches Ok(x) && suites_view(x@) == s && suites_wf(x@) && final(c).pos == p,
            Err(e) => r == Err::<Vec<TestSuite>, DecodeError>(e),
        },
{
    let ghost evs = c.events@;
    let ghost start = c.pos as int;
    let mut b = SuiteBuilder::new();
    loop
        invariant
            c.wf(),
            c.events@ == evs,
            evs == old(c).events@,
            start == old(c).pos,
            b.wf(),
            keys_spec(schema, evs, c.pos as int, b.state()) == keys_spec(schema, evs, start, initial_state()),
        decreases c.events.len() - c.pos,
    {
        let key = match c.peek() {
            Some(DocEvent::Scalar { value, .. }) => match top_key(value.as_str()) {
                Some(k) => k,
                None => {
                    return Err(DecodeError::UnknownField { name: value.clone() });
                },
            },
            Some(DocEvent::MappingEnd) => {
                c.advance();
                return Ok(b.suites);
            },
            _ => {
                return Err(fail_here(c, Expected::KeyOrMappingEnd));
            },
        };
        c.advance();
        proof {
            lemma_key_value_advances(schema, key, evs, c.pos as int, b.state());
        }
        b = match apply_key(schema, key, c, b) {
            Ok(next) => next,
            Err(e) => {
                return Err(e);
            },
        };
    }
}

/// Decodes a whole stream of events into its test suites.
pub fn decode_document(schema: Schema, events: Vec<DocEvent>) -> (r: Result<Vec<TestSuite>, DecodeError>)
    ensures
        match document_spec(schema, events@) {
            Ok(s) => r matches Ok(x) && suites_view(x@) == s && suites_wf(x@),
            Err(e) => r == Err::<Vec<TestSuite>, DecodeError>(e),
        },
{
    let mut c = EventCursor::new(events);
    match read_stream_start(&mut c) {
        Ok(()) => {},
        Err(e) => {
            return Err(e);
        },
    }
    match read_document_start(&mut c) {
        Ok(()) => {},
        Err(e) => {
            return Err(e);
        },
    }
    match read_mapping_start(&mut c) {
        Ok(()) => {},
        Err(e) => {
            return Err(e);
        },
    }
    let suites = match decode_keys(schema, &mut c) {
        Ok(s) => s,
        Err(e) => {
            return Err(e);
        },
    };
    match read_document_end(&mut c) {
        Ok(()) => {},
        Err(e) => {
            return Err(e);
        },
    }
    match read_stream_end(&mut c) {
        Ok(()) => Ok(suites),
        Err(e) => Err(e),
    }
}

} // verus!
