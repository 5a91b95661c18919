use vstd::prelude::*;
use vstd::string::StringExecFns;

use crate::test_case_results::TestCaseResultView;
use crate::test_case_results::TestCaseResults;
use crate::test_case_results::TestCaseResultsView;
use crate::test_case_results::all_passed;

verus! {

/// The character for a single decimal digit.
pub open spec fn dec_digit(d: nat) -> char {
    if d == 0 {
        '0'
    } else if d == 1 {
        '1'
    } else if d == 2 {
        '2'
    } else if d == 3 {
        '3'
    } else if d == 4 {
        '4'
    } else if d == 5 {
        '5'
    } else if d == 6 {
        '6'
    } else if d == 7 {
        '7'
    } else if d == 8 {
        '8'
    } else {
        '9'
    }
}

/// The usual decimal rendering of a number: no sign, no leading zeros
/// (a single zero stands for itself).
pub open spec fn dec_rep(n: nat) -> Seq<char>
    decreases n,
{
    if n < 10 {
        seq![dec_digit(n)]
    } else {
        dec_rep(n / 10) + seq![dec_digit(n % 10)]
    }
}

/// The per-case status marker of the text report.
pub open spec fn status_word(did_pass: bool) -> Seq<char> {
    if did_pass {
        "ok"@
    } else {
        "FAILED"@
    }
}

/// The noun of the report's count line: singular for exactly one result.
pub open spec fn result_word(result_count: int) -> Seq<char> {
    if result_count == 1 {
        "result"@
    } else {
        "results"@
    }
}

/// How many of the results carry a true pass flag.
pub open spec fn count_passed(results: Seq<TestCaseResultView>) -> int
    decreases results.len(),
{
    if results.len() == 0 {
        0
    } else {
        count_passed(results.drop_last()) + if results.last().did_pass {
            1int
        } else {
            0int
        }
    }
}

/// How many of the results carry a false pass flag.
pub open spec fn count_failed(results: Seq<TestCaseResultView>) -> int {
    results.len() - count_passed(results)
}

/// One line of the text report: the case's title and whether it passed.
pub open spec fn case_line(result: TestCaseResultView) -> Seq<char> {
    result.title + " ... "@ + status_word(result.did_pass) + "\n"@
}

/// The per-case lines of the text report, in result order.
pub open spec fn case_lines(results: Seq<TestCaseResultView>) -> Seq<char>
    decreases results.len(),
{
    if results.len() == 0 {
        Seq::empty()
    } else {
        case_lines(results.drop_last()) + case_line(results.last())
    }
}

/// The whole text report: suite title and description, the result count with
/// its correctly pluralized noun, one line per case, and the aggregate line
/// with the pass and fail totals.
pub open spec fn text_report(rs: TestCaseResultsView) -> Seq<char> {
    rs.suite_title + "\n"@ + rs.suite_description + "\n\n"@ + dec_rep(rs.results.len() as nat)
        + " test "@ + result_word(rs.results.len() as int) + "\n"@ + case_lines(rs.results) + "\n"@
        + "test result: "@ + status_word(count_failed(rs.results) == 0) + ". "@ + dec_rep(
        count_passed(rs.results) as nat,
    ) + " passed; "@ + dec_rep(count_failed(rs.results) as nat) + " failed"@
}

/// The count of passing results never leaves the range `[0, len]`.
pub proof fn lemma_count_passed_bounds(results: Seq<TestCaseResultView>)
    ensures
        0 <= count_passed(results) <= results.len(),
    decreases results.len(),
{
    if results.len() > 0 {
        lemma_count_passed_bounds(results.drop_last());
    }
}

/// Splitting off the last result splits the pass count.
proof fn lemma_count_passed_take_step(results: Seq<TestCaseResultView>, i: int)
    requires
        0 <= i < results.len(),
    ensures
        count_passed(results.take(i + 1)) == count_passed(results.take(i)) + if results[i].did_pass {
            1int
        } else {
            0int
        },
        case_lines(results.take(i + 1)) == case_lines(results.take(i)) + case_line(results[i]),
{
    assert(results.take(i + 1).drop_last() =~= results.take(i));
    assert(results.take(i + 1).last() == results[i]);
}

/// The whole suite passed exactly when the text report's fail total is zero.
pub proof fn lemma_all_passed_iff_none_failed(results: Seq<TestCaseResultView>)
    ensures
        all_passed(results) <==> count_failed(results) == 0,
    decreases results.len(),
{
    lemma_count_passed_bounds(results);
    if results.len() > 0 {
        lemma_all_passed_iff_none_failed(results.drop_last());
        lemma_count_passed_bounds(results.drop_last());
        assert(all_passed(results) ==> all_passed(results.drop_last())) by {
            if all_passed(results) {
                assert forall|i: int| 0 <= i < results.drop_last().len() implies #[trigger] results.drop_last()[i].did_pass by {
                    assert(results[i].did_pass);
                }
            }
        }
        if all_passed(results.drop_last()) && results.last().did_pass {
            assert forall|i: int| 0 <= i < results.len() implies #[trigger] results[i].did_pass by {
                if i < results.len() - 1 {
                    assert(results.drop_last()[i].did_pass);
                }
            }
        }
    }
}

/// Rendering is deterministic: any two text renderings of the same result
/// set are byte-identical, since each equals the one value of
/// [`text_report`].
pub proof fn lemma_text_view_deterministic(
    rs: TestCaseResultsView,
    first: Seq<char>,
    second: Seq<char>,
)
    requires
        first == text_report(rs),
        second == text_report(rs),
    ensures
        first == second,
{
}

/// Pluralization: the count line of the text report reads "1 test result"
/// for exactly one result, and "<N> test results" otherwise.
pub proof fn lemma_pluralization(result_count: int)
    ensures
        dec_rep(1) + " test "@ + result_word(1) == "1 test result"@,
        result_count != 1 ==> dec_rep(result_count as nat) + " test "@ + result_word(result_count)
            == dec_rep(result_count as nat) + " test results"@,
{
    reveal_strlit("1 test result");
    reveal_strlit(" test ");
    reveal_strlit("result");
    reveal_strlit("results");
    reveal_strlit(" test results");
    assert(dec_rep(1) + " test "@ + result_word(1) =~= "1 test result"@);
    if result_count != 1 {
        assert(dec_rep(result_count as nat) + " test "@ + result_word(result_count) =~= dec_rep(
            result_count as nat,
        ) + " test results"@);
    }
}

/// The marker of a single decimal digit as a string slice.
fn digit_str(d: usize) -> (r: &'static str)
    requires
        d < 10,
    ensures
        r@ == seq![dec_digit(d as nat)],
{
    let r = if d == 0 {
        "0"
    } else if d == 1 {
        "1"
    } else if d == 2 {
        "2"
    } else if d == 3 {
        "3"
    } else if d == 4 {
        "4"
    } else if d == 5 {
        "5"
    } else if d == 6 {
        "6"
    } else if d == 7 {
        "7"
    } else if d == 8 {
        "8"
    } else {
        "9"
    };
    proof {
        reveal_strlit("0");
        reveal_strlit("1");
        reveal_strlit("2");
        reveal_strlit("3");
        reveal_strlit("4");
        reveal_strlit("5");
        reveal_strlit("6");
        reveal_strlit("7");
        reveal_strlit("8");
        reveal_strlit("9");
    }
    r
}

/// Render a number in decimal.
fn usize_to_string(n: usize) -> (r: String)
    ensures
        r@ == dec_rep(n as nat),
    decreases n,
{
    if n < 10 {
        let r = digit_str(n).to_owned();
        assert(r@ =~= dec_rep(n as nat));
        r
    } else {
        let mut r = usize_to_string(n / 10);
        r.append(digit_str(n % 10));
        assert(r@ =~= dec_rep(n as nat));
        r
    }
}

/// A basic list of passing and failing tests, useful for visualizing in a
/// terminal.
pub struct ViewSimpleText {}

impl ViewSimpleText {
    /// Create the text view; it carries no state.
    pub fn new() -> (r: Self) {
        ViewSimpleText {  }
    }

    /// Render the titles and outcomes of the tests that passed and failed.
    /// The output is a pure function of the result set, so rendering the same
    /// results twice yields identical strings.
    pub fn process_test_results(&self, test_results: &TestCaseResults) -> (r: String)
        ensures
            r@ == text_report(test_results@),
    {
        let ghost views = test_results@.results;

        let mut output = test_results.suite_title().clone();
        output.append("\n");
        output.append(test_results.suite_description().as_str());
        output.append("\n\n");

        let results = test_results.results();
        let result_count = results.len();
        let count_str = usize_to_string(result_count);
        output.append(count_str.as_str());
        output.append(" test ");
        if result_count == 1 {
            output.append("result");
        } else {
            output.append("results");
        }
        output.append("\n");

        assert(case_lines(views.take(0)) =~= Seq::<char>::empty());
        let ghost prefix = output@;

        let mut pass_count: usize = 0;
        let mut fail_count: usize = 0;
        let mut i: usize = 0;
        while i < result_count
            invariant
                result_count == results@.len(),
                views == results@.map_values(|t: crate::test_case_results::TestCaseResult| t@),
                0 <= i <= result_count,
                pass_count == count_passed(views.take(i as int)),
                pass_count + fail_count == i,
                output@ == prefix + case_lines(views.take(i as int)),
            decreases result_count - i,
        {
            proof {
                lemma_count_passed_take_step(views, i as int);
            }
            let result = &results[i];
            output.append(result.title());
            output.append(" ... ");
            if result.did_pass() {
                pass_count += 1;
                output.append("ok");
            } else {
                fail_count += 1;
                output.append("FAILED");
            }
            output.append("\n");
            proof {
                assert(views[i as int] == results@[i as int]@);
                assert(output@ =~= prefix + case_lines(views.take(i + 1 as int)));
            }
            i += 1;
        }
        proof {
            assert(views.take(result_count as int) =~= views);
            lemma_count_passed_bounds(views);
        }

        output.append("\n");
        output.append("test result: ");
        if fail_count == 0 {
            output.append("ok");
        } else {
            output.append("FAILED");
        }
        output.append(". ");
        let pass_str = usize_to_string(pass_count);
        output.append(pass_str.as_str());
        output.append(" passed; ");
        let fail_str = usize_to_string(fail_count);
        output.append(fail_str.as_str());
        output.append(" failed");

        proof {
            assert(output@ =~= text_report(test_results@));
        }
        output
    }
}

} // verus!
