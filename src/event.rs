//! Structural events: the input alphabet of every decoder.

use vstd::prelude::*;

verus! {

/// The character encoding that a stream declares.
#[derive(Debug, Clone, Copy, PartialEq, Eq, Structural)]
pub enum StreamEncoding {
    Utf8,
    Utf16Le,
    Utf16Be,
}

/// How a scalar was written in the source text.
#[derive(Debug, Clone, Copy, PartialEq, Eq, Structural)]
pub enum RenderStyle {
    Plain,
    SingleQuoted,
    DoubleQuoted,
    Literal,
    Folded,
}

/// The kind of an event, without its payload.
#[derive(Debug, Clone, Copy, PartialEq, Eq, Structural)]
pub enum EventKind {
    StreamStart,
    StreamEnd,
    DocumentStart,
    DocumentEnd,
    Alias,
    Scalar,
    SequenceStart,
    SequenceEnd,
    MappingStart,
    MappingEnd,
}

/// One structural event of a YAML stream.
#[derive(Debug, Clone, PartialEq, Eq)]
pub enum DocEvent {
    StreamStart { encoding: Option<StreamEncoding> },
    StreamEnd,
    DocumentStart,
    DocumentEnd,
    Alias { anchor: String },
    Scalar { value: String, style: Option<RenderStyle> },
    SequenceStart,
    SequenceEnd,
    MappingStart,
    MappingEnd,
}

impl DocEvent {
    pub open spec fn spec_kind(&self) -> EventKind {
        match self {
            DocEvent::StreamStart { .. } => EventKind::StreamStart,
            DocEvent::StreamEnd => EventKind::StreamEnd,
            DocEvent::DocumentStart => EventKind::DocumentStart,
            DocEvent::DocumentEnd => EventKind::DocumentEnd,
            DocEvent::Alias { .. } => EventKind::Alias,
            DocEvent::Scalar { .. } => EventKind::Scalar,
            DocEvent::SequenceStart => EventKind::SequenceStart,
            DocEvent::SequenceEnd => EventKind::SequenceEnd,
            DocEvent::MappingStart => EventKind::MappingStart,
            DocEvent::MappingEnd => EventKind::MappingEnd,
        }
    }

    /// The kind of this event.
    #[verifier::when_used_as_spec(spec_kind)]
    pub fn kind(&self) -> (r: EventKind)
        ensures
            r == self.spec_kind(),
    {
        match self {
            DocEvent::StreamStart { .. } => EventKind::StreamStart,
            DocEvent::StreamEnd => EventKind::StreamEnd,
            DocEvent::DocumentStart => EventKind::DocumentStart,
            DocEvent::DocumentEnd => EventKind::DocumentEnd,
            DocEvent::Alias { .. } => EventKind::Alias,
            DocEvent::Scalar { .. } => EventKind::Scalar,
            DocEvent::SequenceStart => EventKind::SequenceStart,
            DocEvent::SequenceEnd => EventKind::SequenceEnd,
            DocEvent::MappingStart => EventKind::MappingStart,
            DocEvent::MappingEnd => EventKind::MappingEnd,
        }
    }
}

} // verus!
