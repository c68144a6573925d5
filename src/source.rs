//! The event source: a YAML text read into events by libyaml, and the
//! whole path from text to test suites.

use vstd::prelude::*;

use crate::document::{decode_document, document_spec, suites_wf};
use crate::error::DecodeError;
use crate::event::{StreamEncoding, DocEvent, RenderStyle};
use crate::model::{suites_view, Schema, TestSuite};
use libyaml::Event as Y;

verus! {

#[verifier::external_type_specification]
#[verifier::external_body]
pub struct ExYamlEvent(libyaml::Event);

#[verifier::external_type_specification]
#[verifier::external_body]
pub struct ExYamlEncoding(libyaml::Encoding);

#[verifier::external_type_specification]
#[verifier::external_body]
pub struct ExYamlScalarStyle(libyaml::ScalarStyle);

/// The events that libyaml gives for a text, each kept as by
/// `event_from_yaml`; `None` where libyaml rejects the text. Parsing a byte
/// slice reads nothing else, so the events depend on the bytes alone.
pub uninterp spec fn yaml_events_of(text: Seq<u8>) -> Option<Seq<DocEvent>>;

/// Relies on `libyaml::Parser::new` and the parser's event iterator
/// (`ParserIter`, fused after the end of the stream or the first error):
/// the events of `text` in order through the end of the stream, or `None`
/// at the first parse error.
#[verifier::external_body]
fn yaml_doc_events(text: &[u8]) -> (r: Option<Vec<DocEvent>>)
    ensures
        match yaml_events_of(text@) {
            None => r is None,
            Some(evs) => r matches Some(v) && v@ == evs,
        },
{
    let parser = libyaml::Parser::new(text).ok()?;
    let events: Result<Vec<Y>, libyaml::ParserError> = parser.into_iter().collect();
    Some(events.ok()?.iter().map(event_from_yaml).collect())
}

/// Relies on the variants of `libyaml::Encoding`: one for one.
#[verifier::external_body]
fn encoding_from_yaml(e: &libyaml::Encoding) -> (r: StreamEncoding) {
    match e {
        libyaml::Encoding::Utf8 => StreamEncoding::Utf8,
        libyaml::Encoding::Utf16Le => StreamEncoding::Utf16Le,
        libyaml::Encoding::Utf16Be => StreamEncoding::Utf16Be,
    }
}

/// Relies on the variants of `libyaml::ScalarStyle`: one for one.
#[verifier::external_body]
fn style_from_yaml(s: &libyaml::ScalarStyle) -> (r: RenderStyle) {
    match s {
        libyaml::ScalarStyle::Plain => RenderStyle::Plain,
        libyaml::ScalarStyle::SingleQuoted => RenderStyle::SingleQuoted,
        libyaml::ScalarStyle::DoubleQuoted => RenderStyle::DoubleQuoted,
        libyaml::ScalarStyle::Literal => RenderStyle::Literal,
        libyaml::ScalarStyle::Folded => RenderStyle::Folded,
    }
}

/// Relies on the variants of `libyaml::Event`: the same variant, with the
/// stream's encoding, an alias's anchor and a scalar's text and style.
#[verifier::external_body]
fn event_from_yaml(e: &libyaml::Event) -> (r: DocEvent) {
    match e {
        Y::StreamStart { encoding } => DocEvent::StreamStart { encoding: encoding.as_ref().map(encoding_from_yaml) },
        Y::StreamEnd => DocEvent::StreamEnd,
        Y::DocumentStart { .. } => DocEvent::DocumentStart,
        Y::DocumentEnd { .. } => DocEvent::DocumentEnd,
        Y::Alias { anchor } => DocEvent::Alias { anchor: anchor.clone() },
        Y::Scalar { value, style, .. } => DocEvent::Scalar { value: value.clone(), style: style.as_ref().map(style_from_yaml) },
        Y::SequenceStart { .. } => DocEvent::SequenceStart,
        Y::SequenceEnd => DocEvent::SequenceEnd,
        Y::MappingStart { .. } => DocEvent::MappingStart,
        Y::MappingEnd => DocEvent::MappingEnd,
    }
}

/// Reads a YAML text into its events: exactly the events that libyaml
/// gives for it, or [`DecodeError::Syntax`] where libyaml rejects the text.
pub fn read_events(text: &[u8]) -> (r: Result<Vec<DocEvent>, DecodeError>)
    ensures
        match yaml_events_of(text@) {
            None => r == Err::<Vec<DocEvent>, DecodeError>(DecodeError::Syntax),
            Some(evs) => r matches Ok(v) && v@ == evs,
        },
{
    match yaml_doc_events(text) {
        Some(events) => Ok(events),
        None => Err(DecodeError::Syntax),
    }
}

/// Reads a YAML text and decodes its test suites: what [`decode_document`]
/// makes of the text's events, or [`DecodeError::Syntax`] where the text is
/// not YAML.
pub fn normalize(schema: Schema, text: &[u8]) -> (r: Result<Vec<TestSuite>, DecodeError>)
    ensures
        match yaml_events_of(text@) {
            None => r == Err::<Vec<TestSuite>, DecodeError>(DecodeError::Syntax),
            Some(evs) => match document_spec(schema, evs) {
                Ok(s) => r matches Ok(x) && suites_view(x@) == s && suites_wf(x@),
                Err(e) => r == Err::<Vec<TestSuite>, DecodeError>(e),
            },
        },
{
    let events = match read_events(text) {
        Ok(evs) => evs,
        Err(e) => {
            return Err(e);
        },
    };
    decode_document(schema, events)
}

} // verus!
