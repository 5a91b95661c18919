use vstd::prelude::*;
use vstd::string::StringExecFns;

use crate::HarnessError;
use crate::test_case_results::TestCaseResultView;
use crate::test_case_results::TestCaseResults;
use crate::test_case_results::TestCaseResultsView;

verus! {

/// The reserved metadata key under which a case stores the HTML fragment
/// that visualizes its outcome.
pub open spec fn html_visual_key() -> Seq<char> {
    "html-visual"@
}

/// The HTML status label of a case: green text for a pass, red for a failure.
pub open spec fn status_label(did_pass: bool) -> Seq<char> {
    if did_pass {
        "(ok)"@
    } else {
        "(FAILED)"@
    }
}

/// The fixed color of the status label: bright green on a pass, red on a
/// failure.
pub open spec fn status_color(did_pass: bool) -> Seq<char> {
    if did_pass {
        "rgb(50, 205, 50)"@
    } else {
        "rgb(255, 0, 0)"@
    }
}

/// The fixed color of the case description: black on a pass, red on a
/// failure.
pub open spec fn description_color(did_pass: bool) -> Seq<char> {
    if did_pass {
        "rgb(0, 0, 0)"@
    } else {
        "rgb(255, 0, 0)"@
    }
}

/// The result carries the reserved visualization fragment.
pub open spec fn has_html_visual(result: TestCaseResultView) -> bool {
    result.metadata.contains_key(html_visual_key())
}

/// Every result carries the reserved visualization fragment.
pub open spec fn all_have_html_visual(results: Seq<TestCaseResultView>) -> bool {
    forall|i: int| 0 <= i < results.len() ==> #[trigger] has_html_visual(results[i])
}

/// The HTML block of a single case: its title, the colored status label, the
/// colored description, and the case's own visualization fragment verbatim.
pub open spec fn case_block(result: TestCaseResultView) -> Seq<char> {
    "\n\n    <div style=\"margin-bottom: 20px;\">\n      <div style=\"font-size: 24px; font-weight: bold;\">\n        "@
        + result.title + "\n        <label style=\"color: "@ + status_color(result.did_pass)
        + ";\"> "@ + status_label(result.did_pass)
        + "</label>\n        <p style=\"color: "@ + description_color(result.did_pass)
        + "; font-size: 14px; margin: 0px;\">"@ + result.description
        + "</p>\n      </div>\n      "@ + result.metadata[html_visual_key()] + "\n    </div>"@
}

/// The per-case blocks of the HTML report, in result order.
pub open spec fn case_blocks(results: Seq<TestCaseResultView>) -> Seq<char>
    decreases results.len(),
{
    if results.len() == 0 {
        Seq::empty()
    } else {
        case_blocks(results.drop_last()) + case_block(results.last())
    }
}

/// The whole HTML report: a document with the suite title as its heading,
/// the suite description as a paragraph, and one block per case in order.
pub open spec fn html_report(rs: TestCaseResultsView) -> Seq<char> {
    "<html>\n  <body>\n    <h1>"@ + rs.suite_title + "</h1>\n    <p>"@ + rs.suite_description
        + "</p>"@ + case_blocks(rs.results) + "\n  </body>\n</html>"@
}

/// Splitting off the last result splits the block sequence.
proof fn lemma_case_blocks_take_step(results: Seq<TestCaseResultView>, i: int)
    requires
        0 <= i < results.len(),
    ensures
        case_blocks(results.take(i + 1)) == case_blocks(results.take(i)) + case_block(results[i]),
{
    assert(results.take(i + 1).drop_last() =~= results.take(i));
    assert(results.take(i + 1).last() == results[i]);
}

/// Rendering is deterministic: any two HTML renderings of the same result
/// set are byte-identical, since each equals the one value of
/// [`html_report`].
pub proof fn lemma_html_view_deterministic(
    rs: TestCaseResultsView,
    first: Seq<char>,
    second: Seq<char>,
)
    requires
        first == html_report(rs),
        second == html_report(rs),
    ensures
        first == second,
{
}

/// Constructs an HTML visualization of a test suite.
pub struct ViewHtml {}

impl ViewHtml {
    /// Create the HTML view; it carries no state.
    pub fn new() -> (r: Self) {
        ViewHtml {  }
    }

    /// Construct an HTML visualization of a test suite. The output is a pure
    /// function of the result set, so rendering the same results twice yields
    /// identical strings. A case whose result lacks the reserved
    /// visualization fragment is a mistake of the case's author: the view
    /// reports [`HarnessError::MissingHtmlVisual`] rather than render an
    /// incomplete document.
    #[verifier::rlimit(50)]
    pub fn process_test_results(&self, test_results: &TestCaseResults) -> (r: Result<
        String,
        HarnessError,
    >)
        ensures
            all_have_html_visual(test_results@.results) <==> r is Ok,
            r matches Ok(s) ==> s@ == html_report(test_results@),
            r matches Err(e) ==> e == HarnessError::MissingHtmlVisual,
    {
        let ghost views = test_results@.results;

        let mut output = String::from_str("<html>\n  <body>\n    <h1>");
        output.append(test_results.suite_title().as_str());
        output.append("</h1>\n    <p>");
        output.append(test_results.suite_description().as_str());
        output.append("</p>");

        let ghost prefix = output@;
        assert(case_blocks(views.take(0)) =~= Seq::<char>::empty());

        let results = test_results.results();
        let result_count = results.len();
        let mut i: usize = 0;
        while i < result_count
            invariant
                result_count == results@.len(),
                views == test_results@.results,
                views == results@.map_values(|t: crate::test_case_results::TestCaseResult| t@),
                0 <= i <= result_count,
                forall|j: int| 0 <= j < i ==> #[trigger] has_html_visual(views[j]),
                output@ == prefix + case_blocks(views.take(i as int)),
            decreases result_count - i,
        {
            proof {
                lemma_case_blocks_take_step(views, i as int);
                assert(views[i as int] == results@[i as int]@);
            }
            let result = &results[i];
            let html_visual = match result.metadata("html-visual") {
                Some(v) => v,
                None => {
                    proof {
                        assert(!has_html_visual(views[i as int]));
                        assert(!all_have_html_visual(test_results@.results));
                    }
                    return Err(HarnessError::MissingHtmlVisual);
                },
            };
            output.append(
                "\n\n    <div style=\"margin-bottom: 20px;\">\n      <div style=\"font-size: 24px; font-weight: bold;\">\n        ",
            );
            output.append(result.title());
            output.append("\n        <label style=\"color: ");
            let did_pass = result.did_pass();
            if did_pass {
                output.append("rgb(50, 205, 50)");
            } else {
                output.append("rgb(255, 0, 0)");
            }
            output.append(";\"> ");
            if did_pass {
                output.append("(ok)");
            } else {
                output.append("(FAILED)");
            }
            output.append("</label>\n        <p style=\"color: ");
            if did_pass {
                output.append("rgb(0, 0, 0)");
            } else {
                output.append("rgb(255, 0, 0)");
            }
            output.append("; font-size: 14px; margin: 0px;\">");
            output.append(result.description());
            output.append("</p>\n      </div>\n      ");
            output.append(html_visual.as_str());
            output.append("\n    </div>");
            proof {
                assert(output@ =~= prefix + case_blocks(views.take(i + 1 as int)));
            }
            i += 1;
        }
        proof {
            assert(views.take(result_count as int) =~= views);
        }

        output.append("\n  </body>\n</html>");
        proof {
            assert(output@ =~= html_report(test_results@));
        }
        Ok(output)
    }
}

} // verus!
