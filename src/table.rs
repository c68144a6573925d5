//! The table decoder: resolves every historical shape of `table` into one
//! [`TableReference`].

use vstd::prelude::*;

use crate::cursor::{
    expect_spec, fail_at, fail_here, read_mapping_start, read_scalar, scalar_spec, EventCursor,
};
use crate::error::{DecodeError, Expected};
use crate::event::{DocEvent, EventKind, RenderStyle};
use crate::model::{keys_unique, pairs_map, LegacyTable, Schema, TableReference, TableView};
use crate::text::{grade_value, parse_grade, text_is};

verus! {

/// The entries of a metadata mapping from `pos` on, after its start;
/// `acc` holds the entries read so far.
pub open spec fn metadata_spec(evs: Seq<DocEvent>, pos: int, acc: Map<Seq<char>, Seq<char>>) -> Result<
    (TableView, int),
    DecodeError,
>
    decreases evs.len() - pos,
{
    if 0 <= pos < evs.len() {
        match evs[pos] {
            DocEvent::Scalar { value: key, .. } => match scalar_spec(evs, pos + 1) {
                Ok((value, p)) => metadata_spec(evs, p, acc.insert(key@, value@)),
                Err(e) => Err(e),
            },
            DocEvent::MappingEnd => Ok((TableView::MetadataMap(acc), pos + 1)),
            _ => Err(fail_at(evs, pos, Expected::KeyOrMappingEnd)),
        }
    } else {
        Err(fail_at(evs, pos, Expected::KeyOrMappingEnd))
    }
}

/// The paths of a file list from `pos` on, after its start; `acc` holds the
/// paths read so far.
pub open spec fn files_spec(evs: Seq<DocEvent>, pos: int, acc: Seq<String>) -> Result<
    (TableView, int),
    DecodeError,
>
    decreases evs.len() - pos,
{
    if 0 <= pos < evs.len() {
        match evs[pos] {
            DocEvent::Scalar { value, .. } => files_spec(evs, pos + 1, acc.push(value)),
            DocEvent::SequenceEnd => Ok((TableView::FileList(acc), pos + 1)),
            _ => Err(fail_at(evs, pos, Expected::PathOrSequenceEnd)),
        }
    } else {
        Err(fail_at(evs, pos, Expected::PathOrSequenceEnd))
    }
}

/// The table at `pos`, chosen by its shape: a mapping gives metadata, a
/// plain scalar a single file, a literal block an inline table, and a
/// sequence a file list.
pub open spec fn table_spec(evs: Seq<DocEvent>, pos: int) -> Result<(TableView, int), DecodeError> {
    if 0 <= pos < evs.len() {
        match evs[pos] {
            DocEvent::MappingStart => metadata_spec(evs, pos + 1, Map::empty()),
            DocEvent::Scalar { value, style } => match style {
                Some(RenderStyle::Plain) => Ok((TableView::SingleFile(value), pos + 1)),
                Some(RenderStyle::Literal) => Ok((TableView::InlineDefinition(value), pos + 1)),
                _ => Err(DecodeError::UnsupportedTableShape { found: EventKind::Scalar }),
            },
            DocEvent::SequenceStart => files_spec(evs, pos + 1, Seq::empty()),
            _ => Err(DecodeError::UnsupportedTableShape { found: evs[pos].spec_kind() }),
        }
    } else {
        Err(DecodeError::UnexpectedEndOfInput { expected: Expected::Table })
    }
}

/// A key of the older schema's table.
#[derive(Debug, Clone, Copy, PartialEq, Eq, Structural)]
pub enum LegacyKey {
    Language,
    Grade,
    System,
    AssertMatch,
}

pub open spec fn legacy_key_named(s: Seq<char>) -> Option<LegacyKey> {
    if s == "language"@ {
        Some(LegacyKey::Language)
    } else if s == "grade"@ {
        Some(LegacyKey::Grade)
    } else if s == "system"@ {
        Some(LegacyKey::System)
    } else if s == "__assert-match"@ {
        Some(LegacyKey::AssertMatch)
    } else {
        None
    }
}

/// Looks up the key of the older schema's table that `s` names.
pub fn legacy_key(s: &str) -> (r: Option<LegacyKey>)
    ensures
        r == legacy_key_named(s@),
{
    if text_is(s, "language") {
        Some(LegacyKey::Language)
    } else if text_is(s, "grade") {
        Some(LegacyKey::Grade)
    } else if text_is(s, "system") {
        Some(LegacyKey::System)
    } else if text_is(s, "__assert-match") {
        Some(LegacyKey::AssertMatch)
    } else {
        None
    }
}

/// The older table with no key set.
pub open spec fn empty_legacy() -> LegacyTable {
    LegacyTable { language: None, grade: None, system: None, assert_match: None }
}

/// The entries of an older-schema table from `pos` on, after its start.
pub open spec fn legacy_entries_spec(evs: Seq<DocEvent>, pos: int, acc: LegacyTable) -> Result<
    (TableView, int),
    DecodeError,
>
    decreases evs.len() - pos,
{
    if 0 <= pos < evs.len() {
        match evs[pos] {
            DocEvent::Scalar { value: key, .. } => match legacy_key_named(key@) {
                None => Err(DecodeError::UnknownField { name: key }),
                Some(k) => match scalar_spec(evs, pos + 1) {
                    Err(e) => Err(e),
                    Ok((v, p)) => match k {
                        LegacyKey::Language => legacy_entries_spec(
                            evs,
                            p,
                            LegacyTable { language: Some(v), ..acc },
                        ),
                        LegacyKey::Grade => match grade_value(v@) {
                            Some(g) => legacy_entries_spec(
                                evs,
                                p,
                                LegacyTable { grade: Some(g), ..acc },
                            ),
                            None => Err(DecodeError::InvalidGrade { value: v }),
                        },
                        LegacyKey::System => legacy_entries_spec(
                            evs,
                            p,
                            LegacyTable { system: Some(v), ..acc },
                        ),
                        LegacyKey::AssertMatch => legacy_entries_spec(
                            evs,
                            p,
                            LegacyTable { assert_match: Some(v), ..acc },
                        ),
                    },
                },
            },
            DocEvent::MappingEnd => Ok((TableView::Legacy(acc), pos + 1)),
            _ => Err(fail_at(evs, pos, Expected::KeyOrMappingEnd)),
        }
    } else {
        Err(fail_at(evs, pos, Expected::KeyOrMappingEnd))
    }
}

/// The older schema's table at `pos`: always a mapping.
pub open spec fn legacy_table_spec(evs: Seq<DocEvent>, pos: int) -> Result<(TableView, int), DecodeError> {
    match expect_spec(evs, pos, EventKind::MappingStart) {
        Ok(p) => legacy_entries_spec(evs, p, empty_legacy()),
        Err(e) => Err(e),
    }
}

pub proof fn lemma_metadata_advances(evs: Seq<DocEvent>, pos: int, acc: Map<Seq<char>, Seq<char>>)
    ensures
        metadata_spec(evs, pos, acc) matches Ok((_, p)) ==> pos < p <= evs.len(),
    decreases evs.len() - pos,
{
    if 0 <= pos < evs.len() {
        match scalar_spec(evs, pos + 1) {
            Ok((value, p)) => {
                if let DocEvent::Scalar { value: key, .. } = evs[pos] {
                    lemma_metadata_advances(evs, p, acc.insert(key@, value@));
                }
            },
            Err(_) => {},
        }
    }
}

pub proof fn lemma_files_advance(evs: Seq<DocEvent>, pos: int, acc: Seq<String>)
    ensures
        files_spec(evs, pos, acc) matches Ok((_, p)) ==> pos < p <= evs.len(),
    decreases evs.len() - pos,
{
    if 0 <= pos < evs.len() {
        if let DocEvent::Scalar { value, .. } = evs[pos] {
            lemma_files_advance(evs, pos + 1, acc.push(value));
        }
    }
}

pub proof fn lemma_legacy_entries_advance(evs: Seq<DocEvent>, pos: int, acc: LegacyTable)
    ensures
        legacy_entries_spec(evs, pos, acc) matches Ok((_, p)) ==> pos < p <= evs.len(),
    decreases evs.len() - pos,
{
    if 0 <= pos < evs.len() {
        match scalar_spec(evs, pos + 1) {
            Ok((v, p)) => {
                lemma_legacy_entries_advance(evs, p, LegacyTable { language: Some(v), ..acc });
                lemma_legacy_entries_advance(evs, p, LegacyTable { system: Some(v), ..acc });
                lemma_legacy_entries_advance(evs, p, LegacyTable { assert_match: Some(v), ..acc });
                if let Some(g) = grade_value(v@) {
                    lemma_legacy_entries_advance(evs, p, LegacyTable { grade: Some(g), ..acc });
                }
            },
            Err(_) => {},
        }
    }
}

/// The table at `pos` as the given schema reads it.
pub open spec fn schema_table_spec(schema: Schema, evs: Seq<DocEvent>, pos: int) -> Result<
    (TableView, int),
    DecodeError,
> {
    match schema {
        Schema::Current => table_spec(evs, pos),
        Schema::Legacy => legacy_table_spec(evs, pos),
    }
}

pub proof fn lemma_table_advances(schema: Schema, evs: Seq<DocEvent>, pos: int)
    ensures
        schema_table_spec(schema, evs, pos) matches Ok((_, p)) ==> pos < p <= evs.len(),
{
    lemma_metadata_advances(evs, pos + 1, Map::empty());
    lemma_files_advance(evs, pos + 1, Seq::empty());
    lemma_legacy_entries_advance(evs, pos + 1, empty_legacy());
}

/// The cursor `c1` results from `c0` by a table decoder whose outcome is
/// `s`, and `r` reports it.
pub open spec fn table_decoded(
    c0: EventCursor,
    c1: EventCursor,
    s: Result<(TableView, int), DecodeError>,
    r: Result<TableReference, DecodeError>,
) -> bool {
    &&& c1.events@ == c0.events@
    &&& c1.wf()
    &&& match s {
        Ok((t, p)) => r matches Ok(x) && x@ == t && x.wf() && c1.pos == p,
        Err(e) => r == Err::<TableReference, DecodeError>(e),
    }
}

proof fn lemma_pairs_map_update(s: Seq<(String, String)>, i: int, k: String, v: String)
    requires
        keys_unique(s),
        0 <= i < s.len(),
        s[i].0@ == k@,
    ensures
        pairs_map(s.update(i, (k, v))) == pairs_map(s).insert(k@, v@),
        keys_unique(s.update(i, (k, v))),
    decreases s.len(),
{
    let t = s.update(i, (k, v));
    if i == s.len() - 1 {
        assert(t.drop_last() =~= s.drop_last());
        assert(pairs_map(t) =~= pairs_map(s).insert(k@, v@));
    } else {
        let d = s.drop_last();
        assert(t.drop_last() =~= d.update(i, (k, v)));
        assert(keys_unique(d)) by {
            assert forall|a: int, b: int| 0 <= a < b < d.len() implies d[a].0@ != d[b].0@ by {
                assert(d[a] == s[a] && d[b] == s[b]);
            }
        }
        assert(d[i] == s[i]);
        lemma_pairs_map_update(d, i, k, v);
        assert(s[i].0@ != s[s.len() - 1].0@);
        assert(t.last() == s.last());
        assert(pairs_map(t) =~= pairs_map(s).insert(k@, v@));
    }
    assert forall|a: int, b: int| 0 <= a < b < t.len() implies t[a].0@ != t[b].0@ by {
        if a == i {
            assert(s[a].0@ != s[b].0@);
        } else if b == i {
            assert(s[a].0@ != s[b].0@);
        }
    }
}

/// Sets `key` to `value`, replacing the value of an equal key if there is one.
fn insert_pair(pairs: &mut Vec<(String, String)>, key: String, value: String)
    requires
        keys_unique(old(pairs)@),
    ensures
        keys_unique(final(pairs)@),
        pairs_map(final(pairs)@) == pairs_map(old(pairs)@).insert(key@, value@),
{
    let mut i: usize = 0;
    while i < pairs.len()
        invariant
            pairs@ == old(pairs)@,
            keys_unique(pairs@),
            i <= pairs.len(),
            forall|j: int| 0 <= j < i ==> pairs@[j].0@ != key@,
        decreases pairs.len() - i,
    {
        if pairs[i].0 == key {
            proof {
                lemma_pairs_map_update(pairs@, i as int, key, value);
            }
            pairs.set(i, (key, value));
            return;
        }
        i = i + 1;
    }
    let ghost s = pairs@;
    pairs.push((key, value));
    assert(pairs@.drop_last() =~= s);
    assert forall|a: int, b: int| 0 <= a < b < pairs@.len() implies pairs@[a].0@ != pairs@[b].0@ by {
        if b == s.len() {
            assert(s[a].0@ != key@);
        } else {
            assert(s[a].0@ != s[b].0@);
        }
    }
}

/// Reads the entries of a metadata mapping whose start has been read; a
/// later entry overrides an earlier one with the same key.
pub fn read_table_metadata(c: &mut EventCursor) -> (r: Result<TableReference, DecodeError>)
    requires
        old(c).wf(),
    ensures
        table_decoded(*old(c), *final(c), metadata_spec(old(c).events@, old(c).pos as int, Map::empty()), r),
{
    let ghost evs = c.events@;
    let ghost start = c.pos as int;
    let mut pairs: Vec<(String, String)> = Vec::new();
    assert(pairs_map(pairs@) =~= Map::empty());
    loop
        invariant
            c.wf(),
            c.events@ == evs,
            evs == old(c).events@,
            start == old(c).pos,
            keys_unique(pairs@),
            metadata_spec(evs, c.pos as int, pairs_map(pairs@)) == metadata_spec(evs, start, Map::empty()),
        decreases c.events.len() - c.pos,
    {
        let key = match c.peek() {
            Some(DocEvent::Scalar { value, .. }) => value.clone(),
            Some(DocEvent::MappingEnd) => {
                c.advance();
                return Ok(TableReference::MetadataMap(pairs));
            },
            _ => {
                return Err(fail_here(c, Expected::KeyOrMappingEnd));
            },
        };
        c.advance();
        let value = match read_scalar(c) {
            Ok(v) => v,
            Err(e) => {
                return Err(e);
            },
        };
        insert_pair(&mut pairs, key, value);
    }
}

/// Reads the paths of a file list whose start has been read.
pub fn read_table_files(c: &mut EventCursor) -> (r: Result<TableReference, DecodeError>)
    requires
        old(c).wf(),
    ensures
        table_decoded(*old(c), *final(c), files_spec(old(c).events@, old(c).pos as int, Seq::empty()), r),
{
    let ghost evs = c.events@;
    let ghost start = c.pos as int;
    let mut files: Vec<String> = Vec::new();
    loop
        invariant
            c.wf(),
            c.events@ == evs,
            evs == old(c).events@,
            start == old(c).pos,
            files_spec(evs, c.pos as int, files@) == files_spec(evs, start, Seq::empty()),
        decreases c.events.len() - c.pos,
    {
        let path = match c.peek() {
            Some(DocEvent::Scalar { value, .. }) => value.clone(),
            Some(DocEvent::SequenceEnd) => {
                c.advance();
                return Ok(TableReference::FileList(files));
            },
            _ => {
                return Err(fail_here(c, Expected::PathOrSequenceEnd));
            },
        };
        c.advance();
        files.push(path);
    }
}

/// Reads a table in any of the current schema's shapes.
pub fn parse_table(c: &mut EventCursor) -> (r: Result<TableReference, DecodeError>)
    requires
        old(c).wf(),
    ensures
        table_decoded(*old(c), *final(c), table_spec(old(c).events@, old(c).pos as int), r),
{
    let r = match c.peek() {
        Some(DocEvent::MappingStart) => None,
        Some(DocEvent::SequenceStart) => None,
        Some(DocEvent::Scalar { value, style }) => match style {
            Some(RenderStyle::Plain) => Some(Ok(TableReference::SingleFile(value.clone()))),
            Some(RenderStyle::Literal) => Some(Ok(TableReference::InlineDefinition(value.clone()))),
            _ => {
                return Err(DecodeError::UnsupportedTableShape { found: EventKind::Scalar });
            },
        },
        Some(ev) => {
            return Err(DecodeError::UnsupportedTableShape { found: ev.kind() });
        },
        None => {
            return Err(DecodeError::UnexpectedEndOfInput { expected: Expected::Table });
        },
    };
    let mapping = match c.peek() {
        Some(DocEvent::MappingStart) => true,
        _ => false,
    };
    c.advance();
    match r {
        Some(t) => t,
        None => if mapping {
            read_table_metadata(c)
        } else {
            read_table_files(c)
        },
    }
}

/// Reads a table of the older schema: a mapping whose keys are `language`,
/// `grade`, `system` and `__assert-match`, the grade a decimal number.
pub fn parse_legacy_table(c: &mut EventCursor) -> (r: Result<TableReference, DecodeError>)
    requires
        old(c).wf(),
    ensures
        table_decoded(*old(c), *final(c), legacy_table_spec(old(c).events@, old(c).pos as int), r),
{
    match read_mapping_start(c) {
        Ok(()) => {},
        Err(e) => {
            return Err(e);
        },
    }
    let ghost evs = c.events@;
    let ghost start = c.pos as int;
    let mut table = LegacyTable { language: None, grade: None, system: None, assert_match: None };
    loop
        invariant
            c.wf(),
            c.events@ == evs,
            evs == old(c).events@,
            start == old(c).pos + 1,
            expect_spec(evs, old(c).pos as int, EventKind::MappingStart) == Ok::<int, DecodeError>(start),
            legacy_entries_spec(evs, c.pos as int, table) == legacy_entries_spec(
                evs,
                start,
                empty_legacy(),
            ),
        decreases c.events.len() - c.pos,
    {
        let key = match c.peek() {
            Some(DocEvent::Scalar { value, .. }) => match legacy_key(value.as_str()) {
                Some(k) => k,
                None => {
                    return Err(DecodeError::UnknownField { name: value.clone() });
                },
            },
            Some(DocEvent::MappingEnd) => {
                c.advance();
                return Ok(TableReference::Legacy(table));
            },
            _ => {
                return Err(fail_here(c, Expected::KeyOrMappingEnd));
            },
        };
        c.advance();
        let value = match read_scalar(c) {
            Ok(v) => v,
            Err(e) => {
                return Err(e);
            },
        };
        match key {
            LegacyKey::Language => table.language = Some(value),
            LegacyKey::Grade => match parse_grade(value.as_str()) {
                Some(g) => table.grade = Some(g),
                None => {
                    return Err(DecodeError::InvalidGrade { value });
                },
            },
            LegacyKey::System => table.system = Some(value),
            LegacyKey::AssertMatch => table.assert_match = Some(value),
        }
    }
}

/// Reads a table as the given schema has it.
pub fn parse_schema_table(schema: Schema, c: &mut EventCursor) -> (r: Result<TableReference, DecodeError>)
    requires
        old(c).wf(),
    ensures
        table_decoded(*old(c), *final(c), schema_table_spec(schema, old(c).events@, old(c).pos as int), r),
{
    match schema {
        Schema::Current => parse_table(c),
        Schema::Legacy => parse_legacy_table(c),
    }
}

/// A copy of `t`.
pub fn copy_table(t: &TableReference) -> (r: TableReference)
    requires
        t.wf(),
    ensures
        r@ == t@,
        r.wf(),
{
    match t {
        TableReference::SingleFile(p) => TableReference::SingleFile(p.clone()),
        TableReference::InlineDefinition(s) => TableReference::InlineDefinition(s.clone()),
        TableReference::Legacy(l) => TableReference::Legacy(
            LegacyTable {
                language: copy_text(&l.language),
                grade: l.grade,
                system: copy_text(&l.system),
                assert_match: copy_text(&l.assert_match),
            },
        ),
        TableReference::FileList(ps) => {
            let mut out: Vec<String> = Vec::new();
            let mut i: usize = 0;
            while i < ps.len()
                invariant
                    i <= ps.len(),
                    out@ == ps@.subrange(0, i as int),
                decreases ps.len() - i,
            {
                out.push(ps[i].clone());
                i = i + 1;
                assert(out@ =~= ps@.subrange(0, i as int));
            }
            assert(out@ =~= ps@);
            TableReference::FileList(out)
        },
        TableReference::MetadataMap(pairs) => {
            let mut out: Vec<(String, String)> = Vec::new();
            let mut i: usize = 0;
            while i < pairs.len()
                invariant
                    i <= pairs.len(),
                    out@ == pairs@.subrange(0, i as int),
                decreases pairs.len() - i,
            {
                let k = pairs[i].0.clone();
                let v = pairs[i].1.clone();
                out.push((k, v));
                i = i + 1;
                assert(out@ =~= pairs@.subrange(0, i as int));
            }
            assert(out@ =~= pairs@);
            TableReference::MetadataMap(out)
        },
    }
}

/// A copy of an optional text.
pub fn copy_text(s: &Option<String>) -> (r: Option<String>)
    ensures
        r == *s,
{
    match s {
        Some(v) => Some(v.clone()),
        None => None,
    }
}

} // verus!
