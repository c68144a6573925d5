//! A forward-only cursor over a sequence of events, and the primitive
//! readers that each consume one event of an expected kind.

use vstd::prelude::*;

use crate::error::{DecodeError, Expected};
use crate::event::{StreamEncoding, DocEvent, EventKind};

verus! {

/// The events of one stream and the position of the next one to be read.
pub struct EventCursor {
    pub events: Vec<DocEvent>,
    pub pos: usize,
}

impl EventCursor {
    pub open spec fn wf(&self) -> bool {
        self.pos <= self.events.len()
    }

    /// A cursor at the first of `events`.
    pub fn new(events: Vec<DocEvent>) -> (r: EventCursor)
        ensures
            r.events@ == events@,
            r.pos == 0,
    {
        EventCursor { events, pos: 0 }
    }

    /// The next event, if the events are not exhausted.
    pub fn peek(&self) -> (r: Option<&DocEvent>)
        requires
            self.wf(),
        ensures
            self.pos < self.events.len() ==> r == Some(&self.events@[self.pos as int]),
            self.pos == self.events.len() ==> r is None,
    {
        if self.pos < self.events.len() {
            Some(&self.events[self.pos])
        } else {
            None
        }
    }

    /// Steps over the next event.
    pub fn advance(&mut self)
        requires
            old(self).pos < old(self).events.len(),
        ensures
            final(self).events == old(self).events,
            final(self).pos == old(self).pos + 1,
    {
        self.pos = self.pos + 1;
    }
}

/// The error for meeting, at `pos`, something other than `expected`.
pub open spec fn fail_at(evs: Seq<DocEvent>, pos: int, expected: Expected) -> DecodeError {
    if 0 <= pos < evs.len() {
        DecodeError::StructuralMismatch { expected, found: evs[pos].spec_kind() }
    } else {
        DecodeError::UnexpectedEndOfInput { expected }
    }
}

/// Reading one event of `kind` at `pos`: the position after it.
pub open spec fn expect_spec(evs: Seq<DocEvent>, pos: int, kind: EventKind) -> Result<int, DecodeError> {
    if 0 <= pos < evs.len() && evs[pos].spec_kind() == kind {
        Ok(pos + 1)
    } else {
        Err(fail_at(evs, pos, Expected::Kind(kind)))
    }
}

/// Reading the start of a UTF-8 stream at `pos`.
pub open spec fn stream_start_spec(evs: Seq<DocEvent>, pos: int) -> Result<int, DecodeError> {
    if 0 <= pos < evs.len() {
        match evs[pos] {
            DocEvent::StreamStart { encoding } => if encoding == Some(StreamEncoding::Utf8) {
                Ok(pos + 1)
            } else {
                Err(DecodeError::UnexpectedEncoding { encoding })
            },
            _ => Err(fail_at(evs, pos, Expected::Kind(EventKind::StreamStart))),
        }
    } else {
        Err(fail_at(evs, pos, Expected::Kind(EventKind::StreamStart)))
    }
}

/// Reading a scalar at `pos`: its text and the position after it.
pub open spec fn scalar_spec(evs: Seq<DocEvent>, pos: int) -> Result<(String, int), DecodeError> {
    if 0 <= pos < evs.len() {
        match evs[pos] {
            DocEvent::Scalar { value, .. } => Ok((value, pos + 1)),
            _ => Err(fail_at(evs, pos, Expected::Kind(EventKind::Scalar))),
        }
    } else {
        Err(fail_at(evs, pos, Expected::Kind(EventKind::Scalar)))
    }
}

/// The position after a reader at `c`: one event further, whether or not
/// the event was the one expected, unless the events are exhausted.
pub open spec fn pos_after_read(c: EventCursor) -> int {
    if c.pos < c.events.len() {
        c.pos + 1
    } else {
        c.pos as int
    }
}

/// The cursor `c1` results from `c0` by a reader whose outcome is `s`, and
/// `r` reports that outcome. A reader never puts an event back.
pub open spec fn stepped(
    c0: EventCursor,
    c1: EventCursor,
    s: Result<int, DecodeError>,
    r: Result<(), DecodeError>,
) -> bool {
    &&& c1.events@ == c0.events@
    &&& c1.wf()
    &&& c1.pos == pos_after_read(c0)
    &&& match s {
        Ok(p) => r is Ok && c1.pos == p,
        Err(e) => r == Err::<(), DecodeError>(e),
    }
}

/// The error for meeting the cursor's next event, or its end, where
/// `expected` was due.
pub fn fail_here(c: &EventCursor, expected: Expected) -> (r: DecodeError)
    requires
        c.wf(),
    ensures
        r == fail_at(c.events@, c.pos as int, expected),
{
    match c.peek() {
        Some(ev) => DecodeError::StructuralMismatch { expected, found: ev.kind() },
        None => DecodeError::UnexpectedEndOfInput { expected },
    }
}

/// Reads one event of `kind`.
pub fn expect(c: &mut EventCursor, kind: EventKind) -> (r: Result<(), DecodeError>)
    requires
        old(c).wf(),
    ensures
        stepped(*old(c), *final(c), expect_spec(old(c).events@, old(c).pos as int, kind), r),
{
    let found = match c.peek() {
        Some(ev) => ev.kind(),
        None => {
            return Err(DecodeError::UnexpectedEndOfInput { expected: Expected::Kind(kind) });
        },
    };
    c.advance();
    if found == kind {
        Ok(())
    } else {
        Err(DecodeError::StructuralMismatch { expected: Expected::Kind(kind), found })
    }
}

/// Reads the start of the stream, which must declare UTF-8.
pub fn read_stream_start(c: &mut EventCursor) -> (r: Result<(), DecodeError>)
    requires
        old(c).wf(),
    ensures
        stepped(*old(c), *final(c), stream_start_spec(old(c).events@, old(c).pos as int), r),
{
    let encoding = match c.peek() {
        Some(DocEvent::StreamStart { encoding }) => *encoding,
        _ => {
            let e = fail_here(c, Expected::Kind(EventKind::StreamStart));
            if c.pos < c.events.len() {
                c.advance();
            }
            return Err(e);
        },
    };
    c.advance();
    match encoding {
        Some(StreamEncoding::Utf8) => Ok(()),
        _ => Err(DecodeError::UnexpectedEncoding { encoding }),
    }
}

/// Reads the end of the stream.
pub fn read_stream_end(c: &mut EventCursor) -> (r: Result<(), DecodeError>)
    requires
        old(c).wf(),
    ensures
        stepped(*old(c), *final(c), expect_spec(old(c).events@, old(c).pos as int, EventKind::StreamEnd), r),
{
    expect(c, EventKind::StreamEnd)
}

/// Reads the start of a document.
pub fn read_document_start(c: &mut EventCursor) -> (r: Result<(), DecodeError>)
    requires
        old(c).wf(),
    ensures
        stepped(*old(c), *final(c), expect_spec(old(c).events@, old(c).pos as int, EventKind::DocumentStart), r),
{
    expect(c, EventKind::DocumentStart)
}

/// Reads the end of a document.
pub fn read_document_end(c: &mut EventCursor) -> (r: Result<(), DecodeError>)
    requires
        old(c).wf(),
    ensures
        stepped(*old(c), *final(c), expect_spec(old(c).events@, old(c).pos as int, EventKind::DocumentEnd), r),
{
    expect(c, EventKind::DocumentEnd)
}

/// Reads the start of a mapping.
pub fn read_mapping_start(c: &mut EventCursor) -> (r: Result<(), DecodeError>)
    requires
        old(c).wf(),
    ensures
        stepped(*old(c), *final(c), expect_spec(old(c).events@, old(c).pos as int, EventKind::MappingStart), r),
{
    expect(c, EventKind::MappingStart)
}

/// Reads the end of a mapping.
pub fn read_mapping_end(c: &mut EventCursor) -> (r: Result<(), DecodeError>)
    requires
        old(c).wf(),
    ensures
        stepped(*old(c), *final(c), expect_spec(old(c).events@, old(c).pos as int, EventKind::MappingEnd), r),
{
    expect(c, EventKind::MappingEnd)
}

/// Reads the start of a sequence.
pub fn read_sequence_start(c: &mut EventCursor) -> (r: Result<(), DecodeError>)
    requires
        old(c).wf(),
    ensures
        stepped(*old(c), *final(c), expect_spec(old(c).events@, old(c).pos as int, EventKind::SequenceStart), r),
{
    expect(c, EventKind::SequenceStart)
}

/// Reads the end of a sequence.
pub fn read_sequence_end(c: &mut EventCursor) -> (r: Result<(), DecodeError>)
    requires
        old(c).wf(),
    ensures
        stepped(*old(c), *final(c), expect_spec(old(c).events@, old(c).pos as int, EventKind::SequenceEnd), r),
{
    expect(c, EventKind::SequenceEnd)
}

/// Reads a scalar and returns its text.
pub fn read_scalar(c: &mut EventCursor) -> (r: Result<String, DecodeError>)
    requires
        old(c).wf(),
    ensures
        final(c).events@ == old(c).events@,
        final(c).wf(),
        final(c).pos == pos_after_read(*old(c)),
        match scalar_spec(old(c).events@, old(c).pos as int) {
            Ok((v, p)) => r == Ok::<String, DecodeError>(v) && final(c).pos == p,
            Err(e) => r == Err::<String, DecodeError>(e),
        },
{
    let value = match c.peek() {
        Some(DocEvent::Scalar { value, .. }) => value.clone(),
        _ => {
            let e = fail_here(c, Expected::Kind(EventKind::Scalar));
            if c.pos < c.events.len() {
                c.advance();
            }
            return Err(e);
        },
    };
    c.advance();
    Ok(value)
}

} // verus!
