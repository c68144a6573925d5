//! Decoders for the flags, the expected-failure marker and the test cases.

use vstd::prelude::*;

use crate::cursor::{
    expect_spec, fail_at, fail_here, read_mapping_end, read_mapping_start, read_scalar,
    read_sequence_end, read_sequence_start, scalar_spec, EventCursor,
};
use crate::error::{DecodeError, Expected};
use crate::event::{DocEvent, EventKind};
use crate::model::{
    is_truthy, plain_test, read_xfail_value, test_mode_from, test_mode_named, tests_view, truthy,
    xfail_of, Test, TestMode, TestView, Xfail,
};
use crate::text::text_is;

verus! {

/// The flags mapping at `pos`: exactly one key, `testmode`, whose value
/// names a test mode.
pub open spec fn flags_spec(evs: Seq<DocEvent>, pos: int) -> Result<(TestMode, int), DecodeError> {
    match expect_spec(evs, pos, EventKind::MappingStart) {
        Err(e) => Err(e),
        Ok(p) => match scalar_spec(evs, p) {
            Err(e) => Err(e),
            Ok((key, p1)) => if key@ != "testmode"@ {
                Err(DecodeError::UnknownField { name: key })
            } else {
                match scalar_spec(evs, p1) {
                    Err(e) => Err(e),
                    Ok((value, p2)) => match test_mode_named(value@) {
                        None => Err(DecodeError::UnsupportedTestMode { value }),
                        Some(m) => match expect_spec(evs, p2, EventKind::MappingEnd) {
                            Ok(p3) => Ok((m, p3)),
                            Err(e) => Err(e),
                        },
                    },
                }
            },
        },
    }
}

/// The entries of a directional marker from `pos` on, after its start; a
/// missing direction stays false.
pub open spec fn directions_spec(evs: Seq<DocEvent>, pos: int, forward: bool, backward: bool) -> Result<
    (Xfail, int),
    DecodeError,
>
    decreases evs.len() - pos,
{
    if 0 <= pos < evs.len() {
        match evs[pos] {
            DocEvent::Scalar { value: key, .. } => if key@ == "forward"@ {
                match scalar_spec(evs, pos + 1) {
                    Ok((v, p)) => directions_spec(evs, p, truthy(v@), backward),
                    Err(e) => Err(e),
                }
            } else if key@ == "backward"@ {
                match scalar_spec(evs, pos + 1) {
                    Ok((v, p)) => directions_spec(evs, p, forward, truthy(v@)),
                    Err(e) => Err(e),
                }
            } else {
                Err(DecodeError::UnsupportedXfailKey { key })
            },
            DocEvent::MappingEnd => Ok((Xfail::Directional { forward, backward }, pos + 1)),
            _ => Err(fail_at(evs, pos, Expected::KeyOrMappingEnd)),
        }
    } else {
        Err(fail_at(evs, pos, Expected::KeyOrMappingEnd))
    }
}

/// The expected-failure marker at `pos`: a bare scalar, or a mapping of
/// directions.
pub open spec fn xfail_spec(evs: Seq<DocEvent>, pos: int) -> Result<(Xfail, int), DecodeError> {
    if 0 <= pos < evs.len() {
        match evs[pos] {
            DocEvent::Scalar { value, .. } => Ok((xfail_of(value), pos + 1)),
            DocEvent::MappingStart => directions_spec(evs, pos + 1, false, false),
            _ => Err(DecodeError::UnsupportedXfailShape { found: evs[pos].spec_kind() }),
        }
    } else {
        Err(DecodeError::UnexpectedEndOfInput { expected: Expected::Xfail })
    }
}

pub proof fn lemma_directions_advance(evs: Seq<DocEvent>, pos: int, forward: bool, backward: bool)
    ensures
        directions_spec(evs, pos, forward, backward) matches Ok((_, p)) ==> pos < p <= evs.len(),
    decreases evs.len() - pos,
{
    if 0 <= pos < evs.len() {
        match evs[pos] {
            DocEvent::Scalar { value: key, .. } => {
                if pos + 2 <= evs.len() {
                    lemma_directions_advance(evs, pos + 2, true, backward);
                    lemma_directions_advance(evs, pos + 2, false, backward);
                    lemma_directions_advance(evs, pos + 2, forward, true);
                    lemma_directions_advance(evs, pos + 2, forward, false);
                }
            },
            _ => {},
        }
    }
}

pub proof fn lemma_xfail_advances(evs: Seq<DocEvent>, pos: int)
    ensures
        xfail_spec(evs, pos) matches Ok((_, p)) ==> pos < p <= evs.len(),
{
    lemma_directions_advance(evs, pos + 1, false, false);
}

/// The attributes of a test case from `pos` on, after the start of their
/// mapping; `xfail` is the marker read so far.
pub open spec fn attributes_spec(evs: Seq<DocEvent>, pos: int, xfail: Xfail) -> Result<
    (Xfail, int),
    DecodeError,
>
    decreases evs.len() - pos,
{
    if 0 <= pos < evs.len() {
        match evs[pos] {
            DocEvent::Scalar { value: key, .. } => if key@ == "xfail"@ {
                match xfail_spec(evs, pos + 1) {
                    Ok((x, p)) => {
                        proof {
                            lemma_xfail_advances(evs, pos + 1);
                        }
                        attributes_spec(evs, p, x)
                    },
                    Err(e) => Err(e),
                }
            } else {
                Err(DecodeError::UnknownTestAttribute { name: key })
            },
            DocEvent::MappingEnd => Ok((xfail, pos + 1)),
            _ => Err(fail_at(evs, pos, Expected::KeyOrMappingEnd)),
        }
    } else {
        Err(fail_at(evs, pos, Expected::KeyOrMappingEnd))
    }
}

pub proof fn lemma_attributes_advance(evs: Seq<DocEvent>, pos: int, xfail: Xfail)
    ensures
        attributes_spec(evs, pos, xfail) matches Ok((_, p)) ==> pos < p <= evs.len(),
    decreases evs.len() - pos,
{
    if 0 <= pos < evs.len() {
        lemma_xfail_advances(evs, pos + 1);
        match xfail_spec(evs, pos + 1) {
            Ok((x, p)) => {
                lemma_attributes_advance(evs, p, x);
            },
            Err(_) => {},
        }
    }
}

/// The test case from `pos` on, after the start of its sequence: an input
/// and an expected output, then the end of the case or a mapping of
/// attributes followed by the end of the case.
pub open spec fn test_spec(evs: Seq<DocEvent>, pos: int) -> Result<(TestView, int), DecodeError> {
    match scalar_spec(evs, pos) {
        Err(e) => Err(e),
        Ok((input, p1)) => match scalar_spec(evs, p1) {
            Err(e) => Err(e),
            Ok((expected, p2)) => if 0 <= p2 < evs.len() {
                match evs[p2] {
                    DocEvent::SequenceEnd => Ok((plain_test(input, expected, Xfail::Flag(false)), p2 + 1)),
                    DocEvent::MappingStart => match attributes_spec(evs, p2 + 1, Xfail::Flag(false)) {
                        Err(e) => Err(e),
                        Ok((x, p3)) => match expect_spec(evs, p3, EventKind::SequenceEnd) {
                            Ok(p4) => Ok((plain_test(input, expected, x), p4)),
                            Err(e) => Err(e),
                        },
                    },
                    _ => Err(fail_at(evs, p2, Expected::AttributesOrSequenceEnd)),
                }
            } else {
                Err(fail_at(evs, p2, Expected::AttributesOrSequenceEnd))
            },
        },
    }
}

pub proof fn lemma_test_advances(evs: Seq<DocEvent>, pos: int)
    ensures
        test_spec(evs, pos) matches Ok((_, p)) ==> pos < p <= evs.len(),
{
    lemma_attributes_advance(evs, pos + 3, Xfail::Flag(false));
}

/// The test cases from `pos` on, after the start of the list; `acc` holds
/// the cases read so far.
pub open spec fn test_items_spec(evs: Seq<DocEvent>, pos: int, acc: Seq<TestView>) -> Result<
    (Seq<TestView>, int),
    DecodeError,
>
    decreases evs.len() - pos,
{
    if 0 <= pos < evs.len() {
        match evs[pos] {
            DocEvent::SequenceEnd => Ok((acc, pos + 1)),
            DocEvent::SequenceStart => match test_spec(evs, pos + 1) {
                Ok((t, p)) => {
                    proof {
                        lemma_test_advances(evs, pos + 1);
                    }
                    test_items_spec(evs, p, acc.push(t))
                },
                Err(e) => Err(e),
            },
            _ => Err(fail_at(evs, pos, Expected::TestOrSequenceEnd)),
        }
    } else {
        Err(fail_at(evs, pos, Expected::TestOrSequenceEnd))
    }
}

/// The test list at `pos`.
pub open spec fn tests_spec(evs: Seq<DocEvent>, pos: int) -> Result<(Seq<TestView>, int), DecodeError> {
    match expect_spec(evs, pos, EventKind::SequenceStart) {
        Ok(p) => test_items_spec(evs, p, Seq::empty()),
        Err(e) => Err(e),
    }
}

pub proof fn lemma_test_items_advance(evs: Seq<DocEvent>, pos: int, acc: Seq<TestView>)
    ensures
        test_items_spec(evs, pos, acc) matches Ok((_, p)) ==> pos < p <= evs.len(),
    decreases evs.len() - pos,
{
    if 0 <= pos < evs.len() {
        lemma_test_advances(evs, pos + 1);
        match test_spec(evs, pos + 1) {
            Ok((t, p)) => {
                lemma_test_items_advance(evs, p, acc.push(t));
            },
            Err(_) => {},
        }
    }
}

pub proof fn lemma_tests_advance(evs: Seq<DocEvent>, pos: int)
    ensures
        tests_spec(evs, pos) matches Ok((_, p)) ==> pos < p <= evs.len(),
{
    lemma_test_items_advance(evs, pos + 1, Seq::empty());
}

/// Reads the flags mapping and returns its test mode.
pub fn parse_flags(c: &mut EventCursor) -> (r: Result<TestMode, DecodeError>)
    requires
        old(c).wf(),
    ensures
        final(c).events@ == old(c).events@,
        final(c).wf(),
        match flags_spec(old(c).events@, old(c).pos as int) {
            Ok((m, p)) => r == Ok::<TestMode, DecodeError>(m) && final(c).pos == p,
            Err(e) => r == Err::<TestMode, DecodeError>(e),
        },
{
    match read_mapping_start(c) {
        Ok(()) => {},
        Err(e) => {
            return Err(e);
        },
    }
    let key = match read_scalar(c) {
        Ok(k) => k,
        Err(e) => {
            return Err(e);
        },
    };
    if !text_is(key.as_str(), "testmode") {
        return Err(DecodeError::UnknownField { name: key });
    }
    let value = match read_scalar(c) {
        Ok(v) => v,
        Err(e) => {
            return Err(e);
        },
    };
    let mode = match test_mode_from(value.as_str()) {
        Some(m) => m,
        None => {
            return Err(DecodeError::UnsupportedTestMode { value });
        },
    };
    match read_mapping_end(c) {
        Ok(()) => Ok(mode),
        Err(e) => Err(e),
    }
}

/// Reads an expected-failure marker: a bare scalar (see
/// [`read_xfail_value`]) or a mapping with `forward` and `backward` keys.
pub fn parse_xfail_value(c: &mut EventCursor) -> (r: Result<Xfail, DecodeError>)
    requires
        old(c).wf(),
    ensures
        final(c).events@ == old(c).events@,
        final(c).wf(),
        match xfail_spec(old(c).events@, old(c).pos as int) {
            Ok((x, p)) => r == Ok::<Xfail, DecodeError>(x) && final(c).pos == p,
            Err(e) => r == Err::<Xfail, DecodeError>(e),
        },
{
    match c.peek() {
        Some(DocEvent::Scalar { value, .. }) => {
            let x = read_xfail_value(value.clone());
            c.advance();
            return Ok(x);
        },
        Some(DocEvent::MappingStart) => {},
        Some(ev) => {
            return Err(DecodeError::UnsupportedXfailShape { found: ev.kind() });
        },
        None => {
            return Err(DecodeError::UnexpectedEndOfInput { expected: Expected::Xfail });
        },
    }
    c.advance();
    let ghost evs = c.events@;
    let ghost start = c.pos as int;
    let mut forward = false;
    let mut backward = false;
    loop
        invariant
            c.wf(),
            c.events@ == evs,
            evs == old(c).events@,
            start == old(c).pos + 1,
            old(c).pos < evs.len(),
            evs[old(c).pos as int] == DocEvent::MappingStart,
            directions_spec(evs, c.pos as int, forward, backward) == directions_spec(
                evs,
                start,
                false,
                false,
            ),
        decreases c.events.len() - c.pos,
    {
        let is_forward = match c.peek() {
            Some(DocEvent::Scalar { value, .. }) => {
                if text_is(value.as_str(), "forward") {
                    true
                } else if text_is(value.as_str(), "backward") {
                    false
                } else {
                    return Err(DecodeError::UnsupportedXfailKey { key: value.clone() });
                }
            },
            Some(DocEvent::MappingEnd) => {
                c.advance();
                return Ok(Xfail::Directional { forward, backward });
            },
            _ => {
                return Err(fail_here(c, Expected::KeyOrMappingEnd));
            },
        };
        c.advance();
        let value = match read_scalar(c) {
            Ok(v) => v,
            Err(e) => {
                return Err(e);
            },
        };
        if is_forward {
            forward = is_truthy(value.as_str());
        } else {
            backward = is_truthy(value.as_str());
        }
    }
}

/// Reads one test case whose sequence start has been read.
pub fn parse_test(c: &mut EventCursor) -> (r: Result<Test, DecodeError>)
    requires
        old(c).wf(),
    ensures
        final(c).events@ == old(c).events@,
        final(c).wf(),
        match test_spec(old(c).events@, old(c).pos as int) {
            Ok((t, p)) => r matches Ok(x) && x@ == t && final(c).pos == p,
            Err(e) => r == Err::<Test, DecodeError>(e),
        },
{
    let ghost evs = c.events@;
    let input = match read_scalar(c) {
        Ok(v) => v,
        Err(e) => {
            return Err(e);
        },
    };
    let expected = match read_scalar(c) {
        Ok(v) => v,
        Err(e) => {
            return Err(e);
        },
    };
    match c.peek() {
        Some(DocEvent::SequenceEnd) => {
            c.advance();
            return Ok(Test::new(input, expected, Xfail::Flag(false)));
        },
        Some(DocEvent::MappingStart) => {},
        _ => {
            return Err(fail_here(c, Expected::AttributesOrSequenceEnd));
        },
    }
    c.advance();
    let ghost start = c.pos as int;
    let mut xfail = Xfail::Flag(false);
    loop
        invariant
            c.wf(),
            c.events@ == evs,
            evs == old(c).events@,
            start == old(c).pos + 3,
            scalar_spec(evs, old(c).pos as int) == Ok::<(String, int), DecodeError>(
                (input, old(c).pos + 1),
            ),
            scalar_spec(evs, old(c).pos + 1) == Ok::<(String, int), DecodeError>(
                (expected, old(c).pos + 2),
            ),
            old(c).pos + 2 < evs.len(),
            evs[old(c).pos + 2] == DocEvent::MappingStart,
            attributes_spec(evs, c.pos as int, xfail) == attributes_spec(
                evs,
                start,
                Xfail::Flag(false),
            ),
        decreases c.events.len() - c.pos,
    {
        match c.peek() {
            Some(DocEvent::Scalar { value, .. }) => {
                if !text_is(value.as_str(), "xfail") {
                    return Err(DecodeError::UnknownTestAttribute { name: value.clone() });
                }
            },
            Some(DocEvent::MappingEnd) => {
                c.advance();
                return match read_sequence_end(c) {
                    Ok(()) => Ok(Test::new(input, expected, xfail)),
                    Err(e) => Err(e),
                };
            },
            _ => {
                return Err(fail_here(c, Expected::KeyOrMappingEnd));
            },
        }
        c.advance();
        proof {
            lemma_xfail_advances(evs, c.pos as int);
        }
        xfail = match parse_xfail_value(c) {
            Ok(x) => x,
            Err(e) => {
                return Err(e);
            },
        };
    }
}

/// Reads a test list: a sequence of test cases.
pub fn parse_tests(c: &mut EventCursor) -> (r: Result<Vec<Test>, DecodeError>)
    requires
        old(c).wf(),
    ensures
        final(c).events@ == old(c).events@,
        final(c).wf(),
        match tests_spec(old(c).events@, old(c).pos as int) {
            Ok((ts, p)) => r matches Ok(x) && tests_view(x@) == ts && final(c).pos == p,
            Err(e) => r == Err::<Vec<Test>, DecodeError>(e),
        },
{
    match read_sequence_start(c) {
        Ok(()) => {},
        Err(e) => {
            return Err(e);
        },
    }
    let ghost evs = c.events@;
    let ghost start = c.pos as int;
    let mut tests: Vec<Test> = Vec::new();
    assert(tests_view(tests@) =~= Seq::empty());
    loop
        invariant
            c.wf(),
            c.events@ == evs,
            evs == old(c).events@,
            start == old(c).pos + 1,
            expect_spec(evs, old(c).pos as int, EventKind::SequenceStart) == Ok::<int, DecodeError>(start),
            test_items_spec(evs, c.pos as int, tests_view(tests@)) == test_items_spec(
                evs,
                start,
                Seq::empty(),
            ),
        decreases c.events.len() - c.pos,
    {
        match c.peek() {
            Some(DocEvent::SequenceEnd) => {
                c.advance();
                return Ok(tests);
            },
            Some(DocEvent::SequenceStart) => {},
            _ => {
                return Err(fail_here(c, Expected::TestOrSequenceEnd));
            },
        }
        c.advance();
        proof {
            lemma_test_advances(evs, c.pos as int);
        }
        let t = match parse_test(c) {
            Ok(t) => t,
            Err(e) => {
                return Err(e);
            },
        };
        let ghost before = tests@;
        tests.push(t);
        assert(tests_view(tests@) =~= tests_view(before).push(t@));
    }
}

} // verus!
