use vstd::prelude::*;

use crate::HarnessError;

pub use self::test_case_result::TestCaseResult;
pub use self::test_case_result::TestCaseResultView;

mod test_case_result;

verus! {

/// The abstract value of a [`TestCaseResults`]: the suite's identity together
/// with the ordered sequence of per-case result values.
pub struct TestCaseResultsView {
    pub suite_title: Seq<char>,
    pub suite_description: Seq<char>,
    pub results: Seq<TestCaseResultView>,
}

/// Every individual result in the sequence carries a true pass flag.
pub open spec fn all_passed(results: Seq<TestCaseResultView>) -> bool {
    forall|i: int| 0 <= i < results.len() ==> #[trigger] results[i].did_pass
}

/// The results of all of the test cases in the test suite that was run.
pub struct TestCaseResults {
    suite_title: String,
    suite_description: String,
    results: Vec<TestCaseResult>,
}

impl View for TestCaseResults {
    type V = TestCaseResultsView;

    closed spec fn view(&self) -> TestCaseResultsView {
        TestCaseResultsView {
            suite_title: self.suite_title@,
            suite_description: self.suite_description@,
            results: self.results@.map_values(|t: TestCaseResult| t@),
        }
    }
}

impl TestCaseResults {
    /// A well-formed collection always holds at least one result.
    pub open spec fn wf(self) -> bool {
        self@.results.len() > 0
    }

    /// Gather the results of a suite run. Rejects an empty result list in
    /// order to catch cases where one accidentally filters out all tests:
    /// an empty list yields [`HarnessError::EmptySuite`], never a value that
    /// would later be reported as all green.
    pub fn new(suite_title: String, suite_description: String, results: Vec<TestCaseResult>) -> (r:
        Result<Self, HarnessError>)
        ensures
            results@.len() > 0 <==> r is Ok,
            r matches Ok(rs) ==> rs.wf() && rs@ == (TestCaseResultsView {
                suite_title: suite_title@,
                suite_description: suite_description@,
                results: results@.map_values(|t: TestCaseResult| t@),
            }),
            r matches Err(e) ==> e == HarnessError::EmptySuite,
    {
        if results.len() == 0 {
            Err(HarnessError::EmptySuite)
        } else {
            Ok(TestCaseResults { suite_title, suite_description, results })
        }
    }

    /// The test suite's title.
    pub fn suite_title(&self) -> (r: &String)
        ensures
            r@ == self@.suite_title,
    {
        &self.suite_title
    }

    /// The test suite's description.
    pub fn suite_description(&self) -> (r: &String)
        ensures
            r@ == self@.suite_description,
    {
        &self.suite_description
    }

    /// The results of running all of the test cases, in execution order.
    pub fn results(&self) -> (r: &Vec<TestCaseResult>)
        ensures
            r@.map_values(|t: TestCaseResult| t@) == self@.results,
    {
        &self.results
    }

    /// Whether the whole suite passed: true exactly when every individual
    /// result carries a true pass flag.
    pub fn did_pass(&self) -> (r: bool)
        ensures
            r == all_passed(self@.results),
    {
        let results_len = self.results.len();
        let mut i: usize = 0;
        while i < results_len
            invariant
                results_len == self.results@.len(),
                0 <= i <= results_len,
                forall|j: int| 0 <= j < i ==> #[trigger] self@.results[j].did_pass,
            decreases results_len - i,
        {
            if !self.results[i].did_pass() {
                assert(!self@.results[i as int].did_pass);
                return false;
            }
            i += 1;
        }
        true
    }
}

} // verus!
