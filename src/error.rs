//! The ways in which decoding a document can fail.

use vstd::prelude::*;

use crate::event::{StreamEncoding, EventKind};

verus! {

/// What a decoder was looking for when it met another event.
#[derive(Debug, Clone, Copy, PartialEq, Eq, Structural)]
pub enum Expected {
    /// One event of the given kind.
    Kind(EventKind),
    /// A scalar key or the end of the enclosing mapping.
    KeyOrMappingEnd,
    /// A scalar file path or the end of the file list.
    PathOrSequenceEnd,
    /// The start of a test case or the end of the test list.
    TestOrSequenceEnd,
    /// The attribute mapping of a test case or the end of the test case.
    AttributesOrSequenceEnd,
    /// A table reference.
    Table,
    /// An expected-failure marker.
    Xfail,
}

/// A decoding failure. Every failure is fatal: no partial result is kept.
#[derive(Debug, Clone, PartialEq, Eq)]
pub enum DecodeError {
    /// The text is not well-formed YAML.
    Syntax,
    /// An event of the wrong kind was met.
    StructuralMismatch { expected: Expected, found: EventKind },
    /// The events ended before the document was complete.
    UnexpectedEndOfInput { expected: Expected },
    /// The stream declares an encoding other than UTF-8.
    UnexpectedEncoding { encoding: Option<StreamEncoding> },
    /// The table reference has none of the known shapes.
    UnsupportedTableShape { found: EventKind },
    /// The test mode is not one of the known spellings.
    UnsupportedTestMode { value: String },
    /// The expected-failure marker has none of the known shapes.
    UnsupportedXfailShape { found: EventKind },
    /// The expected-failure mapping holds a key other than a direction.
    UnsupportedXfailKey { key: String },
    /// A key outside the recognized schema.
    UnknownField { name: String },
    /// A test attribute outside the recognized set.
    UnknownTestAttribute { name: String },
    /// A grade that is not a decimal number from 0 to 255.
    InvalidGrade { value: String },
    /// A test list came before any table was declared.
    MissingTable,
}

} // verus!
