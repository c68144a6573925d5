//! Laws of the decoders, stated over their specifications and proved.

use vstd::prelude::*;

use crate::document::{document_spec, keys_spec, top_key_named, DocState};
use crate::error::{DecodeError, Expected};
use crate::event::{DocEvent, RenderStyle, StreamEncoding};
use crate::fields::{directions_spec, flags_spec, test_spec, xfail_spec};
use crate::model::{
    pairs_map, test_mode_named, truthy, Schema, SuiteView, TableView, TestMode, TestView, Xfail,
};
use crate::table::{files_spec, metadata_spec, table_spec};

verus! {

/// `e` is a scalar event whose text is `v`, in any style.
pub open spec fn is_scalar_of(e: DocEvent, v: String) -> bool {
    e matches DocEvent::Scalar { value, .. } && value == v
}

/// From `start` on, the events are scalars holding `values`, in order.
pub open spec fn scalars_at(evs: Seq<DocEvent>, start: int, values: Seq<String>) -> bool {
    forall|i: int| 0 <= i < values.len() ==> is_scalar_of(#[trigger] evs[start + i], values[i])
}

/// From `start` on, the events are scalar keys and values holding
/// `entries`, in order.
pub open spec fn entries_at(evs: Seq<DocEvent>, start: int, entries: Seq<(String, String)>) -> bool {
    forall|i: int|
        0 <= i < entries.len() ==> is_scalar_of(#[trigger] evs[start + 2 * i], entries[i].0)
            && is_scalar_of(evs[start + 2 * i + 1], entries[i].1)
}

/// A plain scalar as the table gives a single file with exactly that path.
pub proof fn law_plain_scalar_table(evs: Seq<DocEvent>, pos: int, value: String)
    requires
        0 <= pos < evs.len(),
        evs[pos] == (DocEvent::Scalar { value, style: Some(RenderStyle::Plain) }),
    ensures
        table_spec(evs, pos) == Ok::<(TableView, int), DecodeError>(
            (TableView::SingleFile(value), pos + 1),
        ),
{
}

/// A literal-block scalar as the table gives an inline table with exactly
/// that text.
pub proof fn law_literal_scalar_table(evs: Seq<DocEvent>, pos: int, value: String)
    requires
        0 <= pos < evs.len(),
        evs[pos] == (DocEvent::Scalar { value, style: Some(RenderStyle::Literal) }),
    ensures
        table_spec(evs, pos) == Ok::<(TableView, int), DecodeError>(
            (TableView::InlineDefinition(value), pos + 1),
        ),
{
}

proof fn lemma_files_from(evs: Seq<DocEvent>, pos: int, paths: Seq<String>, k: int)
    requires
        0 <= pos,
        0 <= k <= paths.len(),
        pos + paths.len() + 1 < evs.len(),
        scalars_at(evs, pos + 1, paths),
        evs[pos + 1 + paths.len()] == DocEvent::SequenceEnd,
    ensures
        files_spec(evs, pos + 1 + k, paths.take(k)) == Ok::<(TableView, int), DecodeError>(
            (TableView::FileList(paths), pos + paths.len() + 2),
        ),
    decreases paths.len() - k,
{
    if k < paths.len() {
        assert(is_scalar_of(evs[pos + 1 + k], paths[k]));
        assert(paths.take(k).push(paths[k]) =~= paths.take(k + 1));
        lemma_files_from(evs, pos, paths, k + 1);
    } else {
        assert(paths.take(k) =~= paths);
    }
}

/// A sequence of scalars as the table gives a file list with exactly those
/// paths, in order.
pub proof fn law_sequence_table(evs: Seq<DocEvent>, pos: int, paths: Seq<String>)
    requires
        0 <= pos,
        pos + paths.len() + 1 < evs.len(),
        evs[pos] == DocEvent::SequenceStart,
        scalars_at(evs, pos + 1, paths),
        evs[pos + 1 + paths.len()] == DocEvent::SequenceEnd,
    ensures
        table_spec(evs, pos) == Ok::<(TableView, int), DecodeError>(
            (TableView::FileList(paths), pos + paths.len() + 2),
        ),
{
    lemma_files_from(evs, pos, paths, 0);
    assert(paths.take(0) =~= Seq::<String>::empty());
}

proof fn lemma_metadata_from(evs: Seq<DocEvent>, pos: int, entries: Seq<(String, String)>, k: int)
    requires
        0 <= pos,
        0 <= k <= entries.len(),
        pos + 2 * entries.len() + 1 < evs.len(),
        entries_at(evs, pos + 1, entries),
        evs[pos + 1 + 2 * entries.len()] == DocEvent::MappingEnd,
    ensures
        metadata_spec(evs, pos + 1 + 2 * k, pairs_map(entries.take(k))) == Ok::<
            (TableView, int),
            DecodeError,
        >((TableView::MetadataMap(pairs_map(entries)), pos + 2 * entries.len() + 2)),
    decreases entries.len() - k,
{
    if k < entries.len() {
        assert(is_scalar_of(evs[pos + 1 + 2 * k], entries[k].0));
        assert(is_scalar_of(evs[pos + 1 + 2 * k + 1], entries[k].1));
        assert(entries.take(k + 1).drop_last() =~= entries.take(k));
        assert(pos + 1 + 2 * (k + 1) == pos + 1 + 2 * k + 2);
        lemma_metadata_from(evs, pos, entries, k + 1);
    } else {
        assert(entries.take(k) =~= entries);
    }
}

/// A mapping of scalar keys to scalar values as the table gives metadata
/// holding exactly those entries, a later one overriding an earlier one
/// with the same key.
pub proof fn law_mapping_table(evs: Seq<DocEvent>, pos: int, entries: Seq<(String, String)>)
    requires
        0 <= pos,
        pos + 2 * entries.len() + 1 < evs.len(),
        evs[pos] == DocEvent::MappingStart,
        entries_at(evs, pos + 1, entries),
        evs[pos + 1 + 2 * entries.len()] == DocEvent::MappingEnd,
    ensures
        table_spec(evs, pos) == Ok::<(TableView, int), DecodeError>(
            (TableView::MetadataMap(pairs_map(entries)), pos + 2 * entries.len() + 2),
        ),
{
    lemma_metadata_from(evs, pos, entries, 0);
    assert(entries.take(0) =~= Seq::<(String, String)>::empty());
}

/// A bare scalar as the marker: `off` and `false` give `Flag(false)`, `on`
/// and `true` give `Flag(true)`, and any other text is a reason.
pub proof fn law_xfail_scalar(evs: Seq<DocEvent>, pos: int, value: String)
    requires
        0 <= pos < evs.len(),
        is_scalar_of(evs[pos], value),
    ensures
        xfail_spec(evs, pos) == Ok::<(Xfail, int), DecodeError>(
            (
                if value@ == "off"@ || value@ == "false"@ {
                    Xfail::Flag(false)
                } else if value@ == "on"@ || value@ == "true"@ {
                    Xfail::Flag(true)
                } else {
                    Xfail::Reason(value)
                },
                pos + 1,
            ),
        ),
{
}

/// A mapping `{forward: f, backward: b}` as the marker gives the directional
/// marker whose flags are the truth of `f` and of `b`.
pub proof fn law_xfail_directions(
    evs: Seq<DocEvent>,
    pos: int,
    fkey: String,
    f: String,
    bkey: String,
    b: String,
)
    requires
        0 <= pos,
        pos + 6 <= evs.len(),
        evs[pos] == DocEvent::MappingStart,
        is_scalar_of(evs[pos + 1], fkey),
        fkey@ == "forward"@,
        is_scalar_of(evs[pos + 2], f),
        is_scalar_of(evs[pos + 3], bkey),
        bkey@ == "backward"@,
        is_scalar_of(evs[pos + 4], b),
        evs[pos + 5] == DocEvent::MappingEnd,
    ensures
        xfail_spec(evs, pos) == Ok::<(Xfail, int), DecodeError>(
            (Xfail::Directional { forward: truthy(f@), backward: truthy(b@) }, pos + 6),
        ),
{
    reveal_strlit("forward");
    reveal_strlit("backward");
    assert("backward"@.len() == 8);
    assert("forward"@.len() == 7);
    assert(bkey@ != "forward"@);
    assert(directions_spec(evs, pos + 5, truthy(f@), truthy(b@)) == Ok::<(Xfail, int), DecodeError>(
        (Xfail::Directional { forward: truthy(f@), backward: truthy(b@) }, pos + 6),
    ));
    assert(directions_spec(evs, pos + 3, truthy(f@), false) == directions_spec(evs, pos + 5, truthy(f@), truthy(b@)));
    assert(directions_spec(evs, pos + 1, false, false) == directions_spec(evs, pos + 3, truthy(f@), false));
}

/// An unrecognized key of the top-level mapping fails the document with
/// `UnknownField` naming it, wherever it stands among the keys.
pub proof fn law_unknown_key(schema: Schema, evs: Seq<DocEvent>, pos: int, st: DocState, key: String)
    requires
        0 <= pos < evs.len(),
        is_scalar_of(evs[pos], key),
        top_key_named(key@) is None,
    ensures
        keys_spec(schema, evs, pos, st) == Err::<(Seq<SuiteView>, int), DecodeError>(
            DecodeError::UnknownField { name: key },
        ),
{
}

/// A document whose first key is unrecognized fails with `UnknownField`
/// naming it, and yields no suite.
pub proof fn law_unknown_first_key(schema: Schema, evs: Seq<DocEvent>, key: String)
    requires
        evs.len() >= 4,
        evs[0] == (DocEvent::StreamStart { encoding: Some(StreamEncoding::Utf8) }),
        evs[1] == DocEvent::DocumentStart,
        evs[2] == DocEvent::MappingStart,
        is_scalar_of(evs[3], key),
        top_key_named(key@) is None,
    ensures
        document_spec(schema, evs) == Err::<Seq<SuiteView>, DecodeError>(DecodeError::UnknownField { name: key }),
{
}

/// A test mode outside the six spellings fails the flags with
/// `UnsupportedTestMode`.
pub proof fn law_unsupported_test_mode(evs: Seq<DocEvent>, pos: int, key: String, value: String)
    requires
        0 <= pos,
        pos + 3 <= evs.len(),
        evs[pos] == DocEvent::MappingStart,
        is_scalar_of(evs[pos + 1], key),
        key@ == "testmode"@,
        is_scalar_of(evs[pos + 2], value),
        test_mode_named(value@) is None,
    ensures
        flags_spec(evs, pos) == Err::<(TestMode, int), DecodeError>(DecodeError::UnsupportedTestMode { value }),
{
}

/// After its input and expected output, a test case that continues with
/// anything but an attribute mapping or its end fails with a structural
/// mismatch.
pub proof fn law_test_trailing_element(evs: Seq<DocEvent>, pos: int, input: String, expected: String)
    requires
        0 <= pos,
        pos + 3 <= evs.len(),
        is_scalar_of(evs[pos], input),
        is_scalar_of(evs[pos + 1], expected),
        evs[pos + 2] != DocEvent::MappingStart,
        evs[pos + 2] != DocEvent::SequenceEnd,
    ensures
        test_spec(evs, pos) == Err::<(TestView, int), DecodeError>(
            DecodeError::StructuralMismatch {
                expected: Expected::AttributesOrSequenceEnd,
                found: evs[pos + 2].spec_kind(),
            },
        ),
{
}

} // verus!
