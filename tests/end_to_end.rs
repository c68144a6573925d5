use yaml_normalizer::error::DecodeError;
use yaml_normalizer::event::{DocEvent, RenderStyle, StreamEncoding};
use yaml_normalizer::model::{Schema, TableReference, TestMode, Xfail};
use yaml_normalizer::source::{normalize, read_events};

#[test]
fn normalizes_single_file_backward_suite() {
    let text = "table: mytable.ctb\nflags: {testmode: backward}\ntests:\n  - [ \"abc\", \"⠁⠃⠉\" ]\n";
    let suites = normalize(Schema::Current, text.as_bytes()).unwrap();
    assert_eq!(suites.len(), 1);
    let s = &suites[0];
    assert_eq!(s.table, TableReference::SingleFile("mytable.ctb".to_string()));
    assert_eq!(s.mode, TestMode::Backward);
    assert_eq!(s.display_table, None);
    assert_eq!(s.tests.len(), 1);
    assert_eq!(s.tests[0].input, "abc");
    assert_eq!(s.tests[0].expected, "⠁⠃⠉");
    assert!(s.tests[0].xfail.is_false());
}

#[test]
fn reads_events_of_text() {
    let evs = read_events("a: |\n  x\n".as_bytes()).unwrap();
    assert_eq!(
        evs,
        vec![
            DocEvent::StreamStart { encoding: Some(StreamEncoding::Utf8) },
            DocEvent::DocumentStart,
            DocEvent::MappingStart,
            DocEvent::Scalar { value: "a".to_string(), style: Some(RenderStyle::Plain) },
            DocEvent::Scalar { value: "x\n".to_string(), style: Some(RenderStyle::Literal) },
            DocEvent::MappingEnd,
            DocEvent::DocumentEnd,
            DocEvent::StreamEnd,
        ]
    );
}

#[test]
fn normalizes_every_table_shape_from_text() {
    let text = "table: |\n  include x.ctb\ntests:\n  - [a, b]\n\
                table: [one.ctb, two.ctb]\ntests:\n  - [c, d]\n\
                table: {language: en, grade: '2'}\ntests:\n  - [e, f]\n";
    let suites = normalize(Schema::Current, text.as_bytes()).unwrap();
    assert_eq!(suites.len(), 3);
    assert_eq!(suites[0].table, TableReference::InlineDefinition("include x.ctb\n".to_string()));
    assert_eq!(
        suites[1].table,
        TableReference::FileList(vec!["one.ctb".to_string(), "two.ctb".to_string()])
    );
    assert_eq!(
        suites[2].table,
        TableReference::MetadataMap(vec![
            ("language".to_string(), "en".to_string()),
            ("grade".to_string(), "2".to_string()),
        ])
    );
}

#[test]
fn normalizes_xfail_forms_from_text() {
    let text = "table: t.ctb\ntests:\n  - [a, b, {xfail: off}]\n  - [a, b, {xfail: true}]\n  \
                - [a, b, {xfail: known limitation}]\n  - [a, b, {xfail: {forward: true, backward: off}}]\n";
    let suites = normalize(Schema::Current, text.as_bytes()).unwrap();
    let xs: Vec<Xfail> = suites[0].tests.iter().map(|t| t.xfail.clone()).collect();
    assert_eq!(
        xs,
        vec![
            Xfail::Flag(false),
            Xfail::Flag(true),
            Xfail::Reason("known limitation".to_string()),
            Xfail::Directional { forward: true, backward: false },
        ]
    );
    assert!(xs[0].is_false());
    assert!(!xs[1].is_false());
}

#[test]
fn unknown_key_from_text() {
    assert_eq!(
        normalize(Schema::Current, "bogus: 1\n".as_bytes()),
        Err(DecodeError::UnknownField { name: "bogus".to_string() })
    );
}

#[test]
fn unsupported_test_mode_from_text() {
    let text = "table: t.ctb\nflags: {testmode: upside-down}\n";
    assert_eq!(
        normalize(Schema::Current, text.as_bytes()),
        Err(DecodeError::UnsupportedTestMode { value: "upside-down".to_string() })
    );
}

#[test]
fn malformed_text_is_syntax_error() {
    assert_eq!(normalize(Schema::Current, "tests: [a, b\n".as_bytes()), Err(DecodeError::Syntax));
    assert_eq!(read_events("a: [".as_bytes()), Err(DecodeError::Syntax));
}
