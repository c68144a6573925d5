use yaml_normalizer::cursor::{read_mapping_start, read_scalar, read_stream_start, EventCursor};
use yaml_normalizer::document::decode_document;
use yaml_normalizer::error::{DecodeError, Expected};
use yaml_normalizer::event::{DocEvent, EventKind, RenderStyle, StreamEncoding};
use yaml_normalizer::fields::{parse_flags, parse_test, parse_tests, parse_xfail_value};
use yaml_normalizer::model::{read_xfail_value, Schema, TableReference, TestMode, Xfail};
use yaml_normalizer::table::{parse_legacy_table, parse_table};

fn plain(s: &str) -> DocEvent {
    DocEvent::Scalar { value: s.to_string(), style: Some(RenderStyle::Plain) }
}

fn styled(s: &str, style: RenderStyle) -> DocEvent {
    DocEvent::Scalar { value: s.to_string(), style: Some(style) }
}

fn cursor(events: Vec<DocEvent>) -> EventCursor {
    EventCursor::new(events)
}

/// Wraps the entries of a top-level mapping into a whole stream.
fn document(body: Vec<DocEvent>) -> Vec<DocEvent> {
    let mut evs = vec![
        DocEvent::StreamStart { encoding: Some(StreamEncoding::Utf8) },
        DocEvent::DocumentStart,
        DocEvent::MappingStart,
    ];
    evs.extend(body);
    evs.push(DocEvent::MappingEnd);
    evs.push(DocEvent::DocumentEnd);
    evs.push(DocEvent::StreamEnd);
    evs
}

fn one_test(input: &str, expected: &str) -> Vec<DocEvent> {
    vec![
        DocEvent::SequenceStart,
        DocEvent::SequenceStart,
        plain(input),
        plain(expected),
        DocEvent::SequenceEnd,
        DocEvent::SequenceEnd,
    ]
}

#[test]
fn table_plain_scalar_is_single_file() {
    let mut c = cursor(vec![plain("mytable.ctb")]);
    assert_eq!(parse_table(&mut c), Ok(TableReference::SingleFile("mytable.ctb".to_string())));
    assert_eq!(c.pos, 1);
}

#[test]
fn table_literal_block_is_inline_definition() {
    let mut c = cursor(vec![styled("include a.ctb\n", RenderStyle::Literal)]);
    assert_eq!(
        parse_table(&mut c),
        Ok(TableReference::InlineDefinition("include a.ctb\n".to_string()))
    );
}

#[test]
fn table_sequence_is_file_list() {
    let mut c = cursor(vec![
        DocEvent::SequenceStart,
        plain("a.ctb"),
        styled("b.ctb", RenderStyle::DoubleQuoted),
        DocEvent::SequenceEnd,
    ]);
    assert_eq!(
        parse_table(&mut c),
        Ok(TableReference::FileList(vec!["a.ctb".to_string(), "b.ctb".to_string()]))
    );
    assert_eq!(c.pos, 4);
}

#[test]
fn table_mapping_is_metadata_and_later_keys_win() {
    let mut c = cursor(vec![
        DocEvent::MappingStart,
        plain("language"),
        plain("en"),
        plain("grade"),
        plain("1"),
        plain("language"),
        plain("de"),
        DocEvent::MappingEnd,
    ]);
    assert_eq!(
        parse_table(&mut c),
        Ok(TableReference::MetadataMap(vec![
            ("language".to_string(), "de".to_string()),
            ("grade".to_string(), "1".to_string()),
        ]))
    );
    assert_eq!(c.pos, 8);
}

#[test]
fn table_quoted_scalar_is_unsupported() {
    let mut c = cursor(vec![styled("x.ctb", RenderStyle::SingleQuoted)]);
    assert_eq!(
        parse_table(&mut c),
        Err(DecodeError::UnsupportedTableShape { found: EventKind::Scalar })
    );
}

#[test]
fn table_at_end_of_input() {
    let mut c = cursor(vec![]);
    assert_eq!(
        parse_table(&mut c),
        Err(DecodeError::UnexpectedEndOfInput { expected: Expected::Table })
    );
}

#[test]
fn table_list_with_nested_mapping_is_mismatch() {
    let mut c = cursor(vec![DocEvent::SequenceStart, DocEvent::MappingStart]);
    assert_eq!(
        parse_table(&mut c),
        Err(DecodeError::StructuralMismatch {
            expected: Expected::PathOrSequenceEnd,
            found: EventKind::MappingStart,
        })
    );
}

#[test]
fn legacy_table_reads_fixed_keys() {
    let mut c = cursor(vec![
        DocEvent::MappingStart,
        plain("language"),
        plain("en"),
        plain("grade"),
        plain("2"),
        plain("system"),
        plain("ueb"),
        plain("__assert-match"),
        plain("en-ueb-g2.ctb"),
        DocEvent::MappingEnd,
    ]);
    match parse_legacy_table(&mut c) {
        Ok(TableReference::Legacy(t)) => {
            assert_eq!(t.language, Some("en".to_string()));
            assert_eq!(t.grade, Some(2));
            assert_eq!(t.system, Some("ueb".to_string()));
            assert_eq!(t.assert_match, Some("en-ueb-g2.ctb".to_string()));
        }
        other => panic!("unexpected {:?}", other),
    }
}

#[test]
fn legacy_table_rejects_bad_grade() {
    let mut c = cursor(vec![DocEvent::MappingStart, plain("grade"), plain("two"), DocEvent::MappingEnd]);
    assert_eq!(
        parse_legacy_table(&mut c),
        Err(DecodeError::InvalidGrade { value: "two".to_string() })
    );
    let mut c = cursor(vec![DocEvent::MappingStart, plain("grade"), plain("256"), DocEvent::MappingEnd]);
    assert_eq!(
        parse_legacy_table(&mut c),
        Err(DecodeError::InvalidGrade { value: "256".to_string() })
    );
}

#[test]
fn legacy_table_rejects_other_keys() {
    let mut c = cursor(vec![DocEvent::MappingStart, plain("locale"), plain("en"), DocEvent::MappingEnd]);
    assert_eq!(
        parse_legacy_table(&mut c),
        Err(DecodeError::UnknownField { name: "locale".to_string() })
    );
}

#[test]
fn legacy_schema_reads_table_as_fixed_mapping() {
    let mut body = vec![plain("table"), DocEvent::MappingStart, plain("grade"), plain("1"), DocEvent::MappingEnd];
    body.push(plain("tests"));
    body.extend(one_test("a", "b"));
    let suites = decode_document(Schema::Legacy, document(body.clone())).unwrap();
    match &suites[0].table {
        TableReference::Legacy(t) => assert_eq!(t.grade, Some(1)),
        other => panic!("unexpected {:?}", other),
    }
    // The current schema reads the same mapping as descriptive metadata.
    let suites = decode_document(Schema::Current, document(body)).unwrap();
    assert_eq!(
        suites[0].table,
        TableReference::MetadataMap(vec![("grade".to_string(), "1".to_string())])
    );
}

#[test]
fn xfail_bare_scalars() {
    assert_eq!(read_xfail_value("off".to_string()), Xfail::Flag(false));
    assert_eq!(read_xfail_value("false".to_string()), Xfail::Flag(false));
    assert_eq!(read_xfail_value("on".to_string()), Xfail::Flag(true));
    assert_eq!(read_xfail_value("true".to_string()), Xfail::Flag(true));
    assert_eq!(
        read_xfail_value("known limitation".to_string()),
        Xfail::Reason("known limitation".to_string())
    );
}

#[test]
fn xfail_directional_mapping() {
    let mut c = cursor(vec![
        DocEvent::MappingStart,
        plain("forward"),
        plain("true"),
        plain("backward"),
        plain("off"),
        DocEvent::MappingEnd,
    ]);
    assert_eq!(
        parse_xfail_value(&mut c),
        Ok(Xfail::Directional { forward: true, backward: false })
    );
    assert_eq!(c.pos, 6);
}

#[test]
fn xfail_directional_missing_key_is_false() {
    let mut c = cursor(vec![DocEvent::MappingStart, plain("backward"), plain("yes"), DocEvent::MappingEnd]);
    assert_eq!(
        parse_xfail_value(&mut c),
        Ok(Xfail::Directional { forward: false, backward: true })
    );
}

#[test]
fn xfail_unknown_direction_key() {
    let mut c = cursor(vec![DocEvent::MappingStart, plain("sideways"), plain("on"), DocEvent::MappingEnd]);
    assert_eq!(
        parse_xfail_value(&mut c),
        Err(DecodeError::UnsupportedXfailKey { key: "sideways".to_string() })
    );
}

#[test]
fn xfail_sequence_is_unsupported() {
    let mut c = cursor(vec![DocEvent::SequenceStart, plain("x"), DocEvent::SequenceEnd]);
    assert_eq!(
        parse_xfail_value(&mut c),
        Err(DecodeError::UnsupportedXfailShape { found: EventKind::SequenceStart })
    );
}

#[test]
fn xfail_is_false_decides_omission() {
    assert!(Xfail::Flag(false).is_false());
    assert!(!Xfail::Flag(true).is_false());
    assert!(!Xfail::Reason("slow".to_string()).is_false());
    assert!(Xfail::Directional { forward: false, backward: false }.is_false());
    assert!(!Xfail::Directional { forward: false, backward: true }.is_false());
    assert_eq!(Xfail::default(), Xfail::Flag(false));
}

#[test]
fn flags_read_each_spelling() {
    let spellings = [
        ("forward", TestMode::Forward),
        ("backward", TestMode::Backward),
        ("bothDirections", TestMode::BothDirections),
        ("display", TestMode::Display),
        ("hyphenate", TestMode::Hyphenate),
        ("hyphenateBraille", TestMode::HyphenateBraille),
    ];
    for (text, mode) in spellings {
        let mut c = cursor(vec![DocEvent::MappingStart, plain("testmode"), plain(text), DocEvent::MappingEnd]);
        assert_eq!(parse_flags(&mut c), Ok(mode));
        assert_eq!(c.pos, 4);
    }
}

#[test]
fn flags_unsupported_test_mode() {
    let mut c = cursor(vec![DocEvent::MappingStart, plain("testmode"), plain("sideways"), DocEvent::MappingEnd]);
    assert_eq!(
        parse_flags(&mut c),
        Err(DecodeError::UnsupportedTestMode { value: "sideways".to_string() })
    );
    let mut c = cursor(vec![DocEvent::MappingStart, plain("testmode"), plain("both-directions"), DocEvent::MappingEnd]);
    assert_eq!(
        parse_flags(&mut c),
        Err(DecodeError::UnsupportedTestMode { value: "both-directions".to_string() })
    );
}

#[test]
fn flags_other_key_is_unknown() {
    let mut c = cursor(vec![DocEvent::MappingStart, plain("mode"), plain("forward"), DocEvent::MappingEnd]);
    assert_eq!(parse_flags(&mut c), Err(DecodeError::UnknownField { name: "mode".to_string() }));
}

#[test]
fn flags_must_close_after_testmode() {
    let mut c = cursor(vec![
        DocEvent::MappingStart,
        plain("testmode"),
        plain("forward"),
        plain("extra"),
    ]);
    assert_eq!(
        parse_flags(&mut c),
        Err(DecodeError::StructuralMismatch {
            expected: Expected::Kind(EventKind::MappingEnd),
            found: EventKind::Scalar,
        })
    );
}

#[test]
fn test_case_without_attributes() {
    let mut c = cursor(vec![plain("abc"), plain("⠁⠃⠉"), DocEvent::SequenceEnd]);
    let t = parse_test(&mut c).unwrap();
    assert_eq!(t.input, "abc");
    assert_eq!(t.expected, "⠁⠃⠉");
    assert_eq!(t.xfail, Xfail::Flag(false));
    assert!(t.input_pos.is_empty() && t.output_pos.is_empty() && t.mode.is_empty());
    assert_eq!(t.cursor_pos, None);
    assert_eq!(t.max_output_length, None);
}

#[test]
fn test_case_with_xfail_reason() {
    let mut c = cursor(vec![
        plain("a"),
        plain("b"),
        DocEvent::MappingStart,
        plain("xfail"),
        plain("known limitation"),
        DocEvent::MappingEnd,
        DocEvent::SequenceEnd,
    ]);
    let t = parse_test(&mut c).unwrap();
    assert_eq!(t.xfail, Xfail::Reason("known limitation".to_string()));
    assert_eq!(c.pos, 7);
}

#[test]
fn test_case_trailing_sequence_is_mismatch() {
    // [ "a", "b", [1, 2, 3] ]
    let mut c = cursor(vec![
        plain("a"),
        plain("b"),
        DocEvent::SequenceStart,
        plain("1"),
        plain("2"),
        plain("3"),
        DocEvent::SequenceEnd,
        DocEvent::SequenceEnd,
    ]);
    assert_eq!(
        parse_test(&mut c),
        Err(DecodeError::StructuralMismatch {
            expected: Expected::AttributesOrSequenceEnd,
            found: EventKind::SequenceStart,
        })
    );
}

#[test]
fn test_case_unknown_attribute() {
    let mut c = cursor(vec![
        plain("a"),
        plain("b"),
        DocEvent::MappingStart,
        plain("typeform"),
        plain("x"),
        DocEvent::MappingEnd,
        DocEvent::SequenceEnd,
    ]);
    assert_eq!(
        parse_test(&mut c),
        Err(DecodeError::UnknownTestAttribute { name: "typeform".to_string() })
    );
}

#[test]
fn test_case_must_close_after_attributes() {
    let mut c = cursor(vec![
        plain("a"),
        plain("b"),
        DocEvent::MappingStart,
        DocEvent::MappingEnd,
        plain("c"),
    ]);
    assert_eq!(
        parse_test(&mut c),
        Err(DecodeError::StructuralMismatch {
            expected: Expected::Kind(EventKind::SequenceEnd),
            found: EventKind::Scalar,
        })
    );
}

#[test]
fn test_list_reads_every_case() {
    let mut evs = vec![DocEvent::SequenceStart];
    for (i, e) in [("a", "1"), ("b", "2"), ("c", "3")] {
        evs.push(DocEvent::SequenceStart);
        evs.push(plain(i));
        evs.push(plain(e));
        evs.push(DocEvent::SequenceEnd);
    }
    evs.push(DocEvent::SequenceEnd);
    let mut c = cursor(evs);
    let tests = parse_tests(&mut c).unwrap();
    assert_eq!(tests.len(), 3);
    assert_eq!(tests[2].input, "c");
    assert_eq!(tests[2].expected, "3");
    assert_eq!(c.pos, 14);
}

#[test]
fn test_list_empty() {
    let mut c = cursor(vec![DocEvent::SequenceStart, DocEvent::SequenceEnd]);
    assert_eq!(parse_tests(&mut c), Ok(vec![]));
}

#[test]
fn test_list_element_must_be_sequence() {
    let mut c = cursor(vec![DocEvent::SequenceStart, plain("a"), DocEvent::SequenceEnd]);
    assert_eq!(
        parse_tests(&mut c),
        Err(DecodeError::StructuralMismatch {
            expected: Expected::TestOrSequenceEnd,
            found: EventKind::Scalar,
        })
    );
}

#[test]
fn document_unknown_top_level_key() {
    let body = vec![plain("bogus"), plain("1")];
    assert_eq!(
        decode_document(Schema::Current, document(body)),
        Err(DecodeError::UnknownField { name: "bogus".to_string() })
    );
}

#[test]
fn document_tests_before_table() {
    let mut body = vec![plain("tests")];
    body.extend(one_test("a", "b"));
    assert_eq!(decode_document(Schema::Current, document(body)), Err(DecodeError::MissingTable));
}

#[test]
fn document_other_encoding() {
    let mut evs = document(vec![]);
    evs[0] = DocEvent::StreamStart { encoding: Some(StreamEncoding::Utf16Le) };
    assert_eq!(
        decode_document(Schema::Current, evs),
        Err(DecodeError::UnexpectedEncoding { encoding: Some(StreamEncoding::Utf16Le) })
    );
}

#[test]
fn document_truncated() {
    let mut evs = document(vec![plain("display")]);
    evs.truncate(4);
    assert_eq!(
        decode_document(Schema::Current, evs),
        Err(DecodeError::UnexpectedEndOfInput { expected: Expected::Kind(EventKind::Scalar) })
    );
}

#[test]
fn document_without_keys_has_no_suites() {
    assert_eq!(decode_document(Schema::Current, document(vec![])), Ok(vec![]));
}

#[test]
fn document_two_suites_carry_display_and_mode() {
    let mut body = vec![plain("display"), plain("unicode.dis"), plain("table"), plain("one.ctb")];
    body.extend(vec![plain("flags"), DocEvent::MappingStart, plain("testmode"), plain("backward"), DocEvent::MappingEnd]);
    body.push(plain("tests"));
    body.extend(one_test("a", "b"));
    body.extend(vec![plain("table"), plain("two.ctb"), plain("tests")]);
    body.extend(one_test("c", "d"));
    let suites = decode_document(Schema::Current, document(body)).unwrap();
    assert_eq!(suites.len(), 2);
    for s in &suites {
        assert_eq!(s.display_table, Some("unicode.dis".to_string()));
        assert_eq!(s.mode, TestMode::Backward);
        assert_eq!(s.tests.len(), 1);
    }
    assert_eq!(suites[0].table, TableReference::SingleFile("one.ctb".to_string()));
    assert_eq!(suites[1].table, TableReference::SingleFile("two.ctb".to_string()));
    assert_eq!(suites[1].tests[0].input, "c");
}

#[test]
fn document_default_mode_is_forward() {
    let mut body = vec![plain("table"), plain("t.ctb"), plain("tests")];
    body.extend(one_test("a", "b"));
    let suites = decode_document(Schema::Current, document(body)).unwrap();
    assert_eq!(suites[0].mode, TestMode::Forward);
    assert_eq!(suites[0].display_table, None);
}

#[test]
fn document_second_document_is_mismatch() {
    let mut evs = document(vec![]);
    evs.pop();
    evs.push(DocEvent::DocumentStart);
    assert_eq!(
        decode_document(Schema::Current, evs),
        Err(DecodeError::StructuralMismatch {
            expected: Expected::Kind(EventKind::StreamEnd),
            found: EventKind::DocumentStart,
        })
    );
}

#[test]
fn failed_read_steps_past_the_event() {
    let mut c = cursor(vec![plain("x"), DocEvent::MappingEnd]);
    assert_eq!(
        read_mapping_start(&mut c),
        Err(DecodeError::StructuralMismatch {
            expected: Expected::Kind(EventKind::MappingStart),
            found: EventKind::Scalar,
        })
    );
    assert_eq!(c.pos, 1);
    assert_eq!(
        read_scalar(&mut c),
        Err(DecodeError::StructuralMismatch {
            expected: Expected::Kind(EventKind::Scalar),
            found: EventKind::MappingEnd,
        })
    );
    assert_eq!(c.pos, 2);
    assert_eq!(
        read_scalar(&mut c),
        Err(DecodeError::UnexpectedEndOfInput { expected: Expected::Kind(EventKind::Scalar) })
    );
    assert_eq!(c.pos, 2);
    let mut c = cursor(vec![DocEvent::StreamStart { encoding: None }]);
    assert_eq!(read_stream_start(&mut c), Err(DecodeError::UnexpectedEncoding { encoding: None }));
    assert_eq!(c.pos, 1);
}
