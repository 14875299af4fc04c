//! What can be run in a file: tests, benchmarks and programs.

use vstd::prelude::*;

verus! {

/// How a test is named on the command line.
#[derive(Debug, PartialEq, Eq)]
pub enum TestId {
    /// By the name of its function alone.
    Name(String),
    /// By the path of modules that leads to its function.
    Path(String),
}

impl TestId {
    /// The text that names the test.
    pub open spec fn text(&self) -> Seq<char> {
        match self {
            TestId::Name(name) => name@,
            TestId::Path(path) => path@,
        }
    }

    /// The text that names the test.
    pub fn as_str(&self) -> (r: &str)
        ensures
            r@ == self.text(),
    {
        match self {
            TestId::Name(name) => name.as_str(),
            TestId::Path(path) => path.as_str(),
        }
    }
}

/// What kind of thing can be run.
#[derive(Debug, PartialEq, Eq)]
pub enum RunnableKind {
    Test { test_id: TestId },
    TestMod { path: String },
    Bench { test_id: TestId },
    Bin,
}

} // verus!
