//! A simple framework for authoring conformance test suites: a suite of test
//! cases is run against freshly constructed instances of a type under test,
//! the per-case outcomes are collected into an ordered result set, and the
//! result set is rendered through interchangeable views.

use vstd::prelude::*;

pub use test_case_results::TestCaseResult;
pub use test_case_results::TestCaseResultView;
pub use test_case_results::TestCaseResults;
pub use test_case_results::TestCaseResultsView;
pub use test_case_results::all_passed;
pub use test_suite::TestSuite;
pub use visualizer::ViewHtml;
pub use visualizer::ViewSimpleText;
pub use visualizer::all_have_html_visual;
pub use visualizer::case_block;
pub use visualizer::case_blocks;
pub use visualizer::case_line;
pub use visualizer::case_lines;
pub use visualizer::count_failed;
pub use visualizer::count_passed;
pub use visualizer::dec_digit;
pub use visualizer::dec_rep;
pub use visualizer::description_color;
pub use visualizer::has_html_visual;
pub use visualizer::html_report;
pub use visualizer::html_visual_key;
pub use visualizer::lemma_all_passed_iff_none_failed;
pub use visualizer::lemma_count_passed_bounds;
pub use visualizer::lemma_html_view_deterministic;
pub use visualizer::lemma_pluralization;
pub use visualizer::lemma_text_view_deterministic;
pub use visualizer::result_word;
pub use visualizer::status_color;
pub use visualizer::status_label;
pub use visualizer::status_word;
pub use visualizer::text_report;

mod test_case_results;
mod test_suite;
mod visualizer;

verus! {

/// Used to indicate a type that can be used to create test cases to test some
/// aspect of a type under test.
pub trait TestCase<TypeToTest> {
    /// Which result values the case can report. A verified implementation may
    /// refine this to let callers of the runner reason about each case's
    /// outcome; by default any outcome is admissible.
    open spec fn admits(&self, result: TestCaseResultView) -> bool {
        true
    }

    /// Execute the case against the given instance and report its outcome.
    fn run(&self, type_to_test: TypeToTest) -> (r: TestCaseResult)
        ensures
            self.admits(r@),
    ;
}

/// Run a test suite: construct one fresh instance of the type under test per
/// case through the given factory, hand it to the case, and collect the
/// outcomes in declaration order. A suite with no cases yields
/// [`HarnessError::EmptySuite`] and no result set.
pub fn run_test_suite<TypeToTest, TypeToTestCreator>(
    type_to_test_creator: TypeToTestCreator,
    suite: TestSuite<TypeToTest>,
) -> (r: Result<TestCaseResults, HarnessError>) where
    TypeToTestCreator: Fn(&Box<dyn TestCase<TypeToTest>>) -> TypeToTest,

    requires
        forall|i: int|
            0 <= i < suite.test_cases@.len() ==> call_requires(
                type_to_test_creator,
                (&suite.test_cases@[i],),
            ),
    ensures
        suite.test_cases@.len() > 0 <==> r is Ok,
        r matches Ok(rs) ==> rs.wf() && rs@.suite_title == suite.title@ && rs@.suite_description
            == suite.description@ && rs@.results.len() == suite.test_cases@.len(),
        r matches Ok(rs) ==> forall|i: int|
            0 <= i < suite.test_cases@.len() ==> suite.test_cases@[i].admits(#[trigger] rs@.results[i]),
        r matches Err(e) ==> e == HarnessError::EmptySuite,
{
    let mut results: Vec<TestCaseResult> = Vec::new();
    let suite_len = suite.test_cases.len();
    let mut i: usize = 0;
    while i < suite_len
        invariant
            suite_len == suite.test_cases@.len(),
            0 <= i <= suite_len,
            results@.len() == i,
            forall|j: int|
                0 <= j < i ==> suite.test_cases@[j].admits(#[trigger] results@[j]@),
            forall|j: int|
                0 <= j < suite.test_cases@.len() ==> call_requires(
                    type_to_test_creator,
                    (&suite.test_cases@[j],),
                ),
        decreases suite_len - i,
    {
        let test_case = &suite.test_cases[i];
        let type_to_test = type_to_test_creator(test_case);
        let test_case_result = test_case.run(type_to_test);
        results.push(test_case_result);
        i += 1;
    }
    TestCaseResults::new(suite.title, suite.description, results)
}

/// The usage errors of the harness. Both are mistakes in suite construction
/// or case authoring, reported immediately rather than degraded into a
/// misleading report.
#[derive(Clone, Copy, Debug, PartialEq, Eq, Structural)]
pub enum HarnessError {
    /// A suite held no test cases, so no result set can be formed.
    EmptySuite,
    /// A result lacked the reserved metadata key that the HTML view requires.
    MissingHtmlVisual,
}

} // verus!
