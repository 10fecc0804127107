//! The sink a test writes its results into.

use vstd::prelude::*;

verus! {

/// An append-only record of what a test reported.
pub struct TestReport {
    lines: Vec<String>,
}

impl TestReport {
    /// What has been reported so far, oldest first.
    pub closed spec fn entries(&self) -> Seq<String> {
        self.lines@
    }

    /// An empty report.
    pub fn new() -> (r: TestReport)
        ensures
            r.entries().len() == 0,
    {
        TestReport { lines: Vec::new() }
    }

    /// Appends one line of text; nothing already reported changes.
    pub fn report_text(&mut self, text: String)
        ensures
            final(self).entries() == old(self).entries().push(text),
    {
        self.lines.push(text);
    }

    /// The lines reported so far, oldest first.
    pub fn lines(&self) -> (r: &Vec<String>)
        ensures
            r@ == self.entries(),
    {
        &self.lines
    }
}

} // verus!
