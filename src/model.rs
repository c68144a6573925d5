//! The canonical model that every historical document shape is decoded into.

use vstd::prelude::*;

use crate::text::text_is;

verus! {

/// The translation direction(s) that a suite tests.
#[derive(Debug, Clone, Copy, PartialEq, Eq, Structural)]
pub enum TestMode {
    Forward,
    Backward,
    BothDirections,
    Display,
    Hyphenate,
    HyphenateBraille,
}

/// The test mode that a spelling names, if any.
pub open spec fn test_mode_named(s: Seq<char>) -> Option<TestMode> {
    if s == "forward"@ {
        Some(TestMode::Forward)
    } else if s == "backward"@ {
        Some(TestMode::Backward)
    } else if s == "bothDirections"@ {
        Some(TestMode::BothDirections)
    } else if s == "display"@ {
        Some(TestMode::Display)
    } else if s == "hyphenate"@ {
        Some(TestMode::Hyphenate)
    } else if s == "hyphenateBraille"@ {
        Some(TestMode::HyphenateBraille)
    } else {
        None
    }
}

/// Looks up the test mode that `s` spells.
pub fn test_mode_from(s: &str) -> (r: Option<TestMode>)
    ensures
        r == test_mode_named(s@),
{
    if text_is(s, "forward") {
        Some(TestMode::Forward)
    } else if text_is(s, "backward") {
        Some(TestMode::Backward)
    } else if text_is(s, "bothDirections") {
        Some(TestMode::BothDirections)
    } else if text_is(s, "display") {
        Some(TestMode::Display)
    } else if text_is(s, "hyphenate") {
        Some(TestMode::Hyphenate)
    } else if text_is(s, "hyphenateBraille") {
        Some(TestMode::HyphenateBraille)
    } else {
        None
    }
}

/// A translation-mode toggle of a single test case.
#[derive(Debug, Clone, Copy, PartialEq, Eq, Hash, Structural)]
pub enum Mode {
    NoContractions,
    CompbrlAtCursor,
    DotsIo,
    CompbrlLeftCursor,
    UcBrl,
    NoUndefined,
    PartialTrans,
}

/// Whether a test case is expected to fail.
#[derive(Debug, Clone, PartialEq, Eq)]
pub enum Xfail {
    /// Expected to fail in every direction, or in none.
    Flag(bool),
    /// Expected to fail, for the reason given.
    Reason(String),
    /// Expected to fail in the directions that are set.
    Directional { forward: bool, backward: bool },
}

/// Whether a scalar counts as true: everything but `off` and `false` does.
pub open spec fn truthy(s: Seq<char>) -> bool {
    !(s == "off"@ || s == "false"@)
}

/// The marker that a bare scalar denotes.
pub open spec fn xfail_of(value: String) -> Xfail {
    if value@ == "off"@ || value@ == "false"@ {
        Xfail::Flag(false)
    } else if value@ == "on"@ || value@ == "true"@ {
        Xfail::Flag(true)
    } else {
        Xfail::Reason(value)
    }
}

impl Xfail {
    pub open spec fn spec_is_false(&self) -> bool {
        match self {
            Xfail::Flag(b) => !*b,
            Xfail::Reason(_) => false,
            Xfail::Directional { forward, backward } => !(*forward || *backward),
        }
    }

    /// Whether the marker says that the case is not expected to fail at all;
    /// such a marker is left out of the canonical form.
    #[verifier::when_used_as_spec(spec_is_false)]
    pub fn is_false(&self) -> (r: bool)
        ensures
            r == self.spec_is_false(),
    {
        match self {
            Xfail::Flag(b) => !*b,
            Xfail::Reason(_) => false,
            Xfail::Directional { forward, backward } => !(*forward || *backward),
        }
    }
}

impl Default for Xfail {
    fn default() -> (r: Self)
        ensures
            r == Xfail::Flag(false),
    {
        Xfail::Flag(false)
    }
}

/// Decides whether a scalar counts as true (see [`truthy`]).
pub fn is_truthy(s: &str) -> (r: bool)
    ensures
        r == truthy(s@),
{
    !(text_is(s, "off") || text_is(s, "false"))
}

/// Interprets a bare scalar as an expected-failure marker: `off` and `false`
/// give `Flag(false)`, `on` and `true` give `Flag(true)`, and any other text
/// is a reason.
pub fn read_xfail_value(value: String) -> (r: Xfail)
    ensures
        r == xfail_of(value),
{
    if text_is(value.as_str(), "off") || text_is(value.as_str(), "false") {
        Xfail::Flag(false)
    } else if text_is(value.as_str(), "on") || text_is(value.as_str(), "true") {
        Xfail::Flag(true)
    } else {
        Xfail::Reason(value)
    }
}

/// The table of the older schema: fixed descriptive keys, the grade a number.
#[derive(Debug, Clone, PartialEq, Eq)]
pub struct LegacyTable {
    pub language: Option<String>,
    pub grade: Option<u8>,
    pub system: Option<String>,
    pub assert_match: Option<String>,
}

/// How the translation table of a suite is supplied.
#[derive(Debug, Clone, PartialEq, Eq)]
pub enum TableReference {
    /// One table file.
    SingleFile(String),
    /// Several table files, applied in order.
    FileList(Vec<String>),
    /// The table body itself.
    InlineDefinition(String),
    /// Descriptive attributes that select a table; keys are unique.
    MetadataMap(Vec<(String, String)>),
    /// The fixed-key table of the older schema.
    Legacy(LegacyTable),
}

/// What a [`TableReference`] denotes.
pub enum TableView {
    SingleFile(String),
    FileList(Seq<String>),
    InlineDefinition(String),
    MetadataMap(Map<Seq<char>, Seq<char>>),
    Legacy(LegacyTable),
}

/// The mapping that a list of pairs denotes; a later pair overrides an
/// earlier one with the same key.
pub open spec fn pairs_map(s: Seq<(String, String)>) -> Map<Seq<char>, Seq<char>>
    decreases s.len(),
{
    if s.len() == 0 {
        Map::empty()
    } else {
        pairs_map(s.drop_last()).insert(s.last().0@, s.last().1@)
    }
}

/// No two pairs share a key.
pub open spec fn keys_unique(s: Seq<(String, String)>) -> bool {
    forall|i: int, j: int| 0 <= i < j < s.len() ==> s[i].0@ != s[j].0@
}

impl TableReference {
    pub open spec fn wf(&self) -> bool {
        match self {
            TableReference::MetadataMap(pairs) => keys_unique(pairs@),
            _ => true,
        }
    }
}

impl View for TableReference {
    type V = TableView;

    open spec fn view(&self) -> TableView {
        match self {
            TableReference::SingleFile(p) => TableView::SingleFile(*p),
            TableReference::FileList(ps) => TableView::FileList(ps@),
            TableReference::InlineDefinition(t) => TableView::InlineDefinition(*t),
            TableReference::MetadataMap(pairs) => TableView::MetadataMap(pairs_map(pairs@)),
            TableReference::Legacy(l) => TableView::Legacy(*l),
        }
    }
}

/// One test case: an input, its expected output, and optional attributes.
#[derive(Debug, Clone, PartialEq, Eq)]
pub struct Test {
    pub input: String,
    pub expected: String,
    pub xfail: Xfail,
    pub input_pos: Vec<u16>,
    pub output_pos: Vec<u16>,
    pub cursor_pos: Option<u16>,
    /// Its view is a set: the order and repetition of the list carry no meaning.
    pub mode: Vec<Mode>,
    pub max_output_length: Option<u16>,
}

/// What a [`Test`] denotes.
pub struct TestView {
    pub input: String,
    pub expected: String,
    pub xfail: Xfail,
    pub input_pos: Seq<u16>,
    pub output_pos: Seq<u16>,
    pub cursor_pos: Option<u16>,
    pub mode: Set<Mode>,
    pub max_output_length: Option<u16>,
}

/// A test case with the given marker and every other attribute absent.
pub open spec fn plain_test(input: String, expected: String, xfail: Xfail) -> TestView {
    TestView {
        input,
        expected,
        xfail,
        input_pos: Seq::empty(),
        output_pos: Seq::empty(),
        cursor_pos: None,
        mode: Set::empty(),
        max_output_length: None,
    }
}

impl View for Test {
    type V = TestView;

    open spec fn view(&self) -> TestView {
        TestView {
            input: self.input,
            expected: self.expected,
            xfail: self.xfail,
            input_pos: self.input_pos@,
            output_pos: self.output_pos@,
            cursor_pos: self.cursor_pos,
            mode: self.mode@.to_set(),
            max_output_length: self.max_output_length,
        }
    }
}

impl Test {
    /// A test case with the given marker and every other attribute absent.
    pub fn new(input: String, expected: String, xfail: Xfail) -> (r: Test)
        ensures
            r@ == plain_test(input, expected, xfail),
    {
        let r = Test {
            input,
            expected,
            xfail,
            input_pos: Vec::new(),
            output_pos: Vec::new(),
            cursor_pos: None,
            mode: Vec::new(),
            max_output_length: None,
        };
        assert(r.mode@.to_set() =~= Set::empty());
        r
    }
}

/// One test suite: the tables, the direction and the cases.
#[derive(Debug, Clone, PartialEq, Eq)]
pub struct TestSuite {
    pub display_table: Option<String>,
    pub table: TableReference,
    pub mode: TestMode,
    pub tests: Vec<Test>,
}

/// What a [`TestSuite`] denotes.
pub struct SuiteView {
    pub display_table: Option<String>,
    pub table: TableView,
    pub mode: TestMode,
    pub tests: Seq<TestView>,
}

/// The views of a list of test cases.
pub open spec fn tests_view(tests: Seq<Test>) -> Seq<TestView> {
    tests.map_values(|t: Test| t@)
}

impl View for TestSuite {
    type V = SuiteView;

    open spec fn view(&self) -> SuiteView {
        SuiteView {
            display_table: self.display_table,
            table: self.table@,
            mode: self.mode,
            tests: tests_view(self.tests@),
        }
    }
}

/// The views of a list of suites.
pub open spec fn suites_view(suites: Seq<TestSuite>) -> Seq<SuiteView> {
    suites.map_values(|s: TestSuite| s@)
}

/// Which revision of the schema a document is read by. The revisions differ
/// in the shape of `table`.
#[derive(Debug, Clone, Copy, PartialEq, Eq, Structural)]
pub enum Schema {
    /// `table` is a file, a list of files, an inline table or a mapping of
    /// descriptive attributes.
    Current,
    /// `table` is a mapping with the fixed keys `language`, `grade`,
    /// `system` and `__assert-match`.
    Legacy,
}

} // verus!
