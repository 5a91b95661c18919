use std::cell::RefCell;
use std::rc::Rc;

use conformance::HarnessError;
use conformance::TestCase;
use conformance::TestCaseResult;
use conformance::TestCaseResults;
use conformance::TestSuite;
use conformance::ViewHtml;
use conformance::ViewSimpleText;
use conformance::run_test_suite;

/// A stand-in for a type under test: a canvas with fixed dimensions.
struct Canvas {
    width: u32,
    height: u32,
}

/// A test case that checks the area of the canvas it is handed, and logs
/// every invocation of its `run` method.
struct AreaCase {
    title: String,
    expected_area: u64,
    log: Rc<RefCell<Vec<String>>>,
}

impl TestCase<Canvas> for AreaCase {
    fn run(&self, canvas: Canvas) -> TestCaseResult {
        self.log.borrow_mut().push(format!("run {}", self.title));
        let passed = (canvas.width as u64) * (canvas.height as u64) == self.expected_area;
        let mut result = TestCaseResult::new(
            self.title.clone(),
            "checks the canvas area".to_string(),
            passed,
        );
        result.insert_metadata("html-visual".to_string(), "<p>area</p>".to_string());
        result
    }
}

fn area_suite(log: &Rc<RefCell<Vec<String>>>, expected_areas: &[u64]) -> TestSuite<Canvas> {
    let mut cases: Vec<Box<dyn TestCase<Canvas>>> = Vec::new();
    for (index, expected_area) in expected_areas.iter().enumerate() {
        cases.push(Box::new(AreaCase {
            title: format!("case {}", index + 1),
            expected_area: *expected_area,
            log: Rc::clone(log),
        }));
    }
    TestSuite::new(
        "Canvas suite".to_string(),
        "Checks canvas areas.".to_string(),
        cases,
    )
}

fn logging_factory(
    log: Rc<RefCell<Vec<String>>>,
) -> impl Fn(&Box<dyn TestCase<Canvas>>) -> Canvas {
    move |_case: &Box<dyn TestCase<Canvas>>| {
        log.borrow_mut().push("factory".to_string());
        Canvas {
            width: 4,
            height: 3,
        }
    }
}

#[test]
fn runner_produces_one_result_per_case_in_order() {
    let log = Rc::new(RefCell::new(Vec::new()));
    let suite = area_suite(&log, &[12, 999, 12]);
    let results = run_test_suite(logging_factory(Rc::clone(&log)), suite).unwrap();

    assert_eq!(results.suite_title(), "Canvas suite");
    assert_eq!(results.suite_description(), "Checks canvas areas.");
    assert_eq!(results.results().len(), 3);
    assert_eq!(results.results()[0].title(), "case 1");
    assert_eq!(results.results()[1].title(), "case 2");
    assert_eq!(results.results()[2].title(), "case 3");
    assert!(results.results()[0].did_pass());
    assert!(!results.results()[1].did_pass());
    assert!(results.results()[2].did_pass());
    assert!(!results.did_pass());
}

#[test]
fn runner_invokes_factory_once_per_case_before_its_run() {
    let log = Rc::new(RefCell::new(Vec::new()));
    let suite = area_suite(&log, &[12, 12]);
    run_test_suite(logging_factory(Rc::clone(&log)), suite).unwrap();

    let events = log.borrow().clone();
    assert_eq!(
        events,
        vec![
            "factory".to_string(),
            "run case 1".to_string(),
            "factory".to_string(),
            "run case 2".to_string(),
        ]
    );
}

#[test]
fn runner_rejects_empty_suite() {
    let log = Rc::new(RefCell::new(Vec::new()));
    let suite = area_suite(&log, &[]);
    let outcome = run_test_suite(logging_factory(Rc::clone(&log)), suite);

    assert!(matches!(outcome, Err(HarnessError::EmptySuite)));
    assert_eq!(log.borrow().len(), 0);
}

#[test]
fn results_constructor_rejects_empty_list() {
    let outcome = TestCaseResults::new("t".to_string(), "d".to_string(), Vec::new());
    assert!(matches!(outcome, Err(HarnessError::EmptySuite)));
}

#[test]
fn did_pass_is_true_only_when_every_result_passed() {
    let all_green = TestCaseResults::new(
        "t".to_string(),
        "d".to_string(),
        vec![
            TestCaseResult::new("a".to_string(), "".to_string(), true),
            TestCaseResult::new("b".to_string(), "".to_string(), true),
        ],
    )
    .unwrap();
    assert!(all_green.did_pass());

    let one_red = TestCaseResults::new(
        "t".to_string(),
        "d".to_string(),
        vec![
            TestCaseResult::new("a".to_string(), "".to_string(), true),
            TestCaseResult::new("b".to_string(), "".to_string(), false),
        ],
    )
    .unwrap();
    assert!(!one_red.did_pass());
}

#[test]
fn result_records_identity_and_outcome() {
    let result = TestCaseResult::new("a title".to_string(), "a description".to_string(), false);
    assert_eq!(result.title(), "a title");
    assert_eq!(result.description(), "a description");
    assert!(!result.did_pass());
}

#[test]
fn insert_metadata_returns_the_previous_value() {
    let mut result = TestCaseResult::new("t".to_string(), "d".to_string(), true);
    assert_eq!(
        result.insert_metadata("key".to_string(), "first".to_string()),
        None
    );
    assert_eq!(
        result.insert_metadata("key".to_string(), "second".to_string()),
        Some("first".to_string())
    );
    assert_eq!(result.metadata("key"), Some(&"second".to_string()));
    assert_eq!(result.metadata("other"), None);
}

#[test]
fn views_are_deterministic() {
    let mut result = TestCaseResult::new("t".to_string(), "d".to_string(), true);
    result.insert_metadata("html-visual".to_string(), "<p>v</p>".to_string());
    let results = TestCaseResults::new("suite".to_string(), "desc".to_string(), vec![result])
        .unwrap();

    let text_first = ViewSimpleText::new().process_test_results(&results);
    let text_second = ViewSimpleText::new().process_test_results(&results);
    assert_eq!(text_first, text_second);

    let html_first = ViewHtml::new().process_test_results(&results).unwrap();
    let html_second = ViewHtml::new().process_test_results(&results).unwrap();
    assert_eq!(html_first, html_second);
}

#[test]
fn html_view_reports_a_missing_visual_fragment() {
    let with_visual = {
        let mut result = TestCaseResult::new("t".to_string(), "d".to_string(), true);
        result.insert_metadata("html-visual".to_string(), "<p>v</p>".to_string());
        result
    };
    let without_visual = TestCaseResult::new("u".to_string(), "e".to_string(), true);
    let results = TestCaseResults::new(
        "suite".to_string(),
        "desc".to_string(),
        vec![with_visual, without_visual],
    )
    .unwrap();

    let outcome = ViewHtml::new().process_test_results(&results);
    assert!(matches!(outcome, Err(HarnessError::MissingHtmlVisual)));
}

#[test]
fn html_view_embeds_the_visual_fragment_verbatim() {
    let mut result = TestCaseResult::new("t".to_string(), "d".to_string(), true);
    let fragment = "<div data-x=\"1\"><em>swatch</em></div>";
    result.insert_metadata("html-visual".to_string(), fragment.to_string());
    let results = TestCaseResults::new("suite".to_string(), "desc".to_string(), vec![result])
        .unwrap();

    let rendered = ViewHtml::new().process_test_results(&results).unwrap();
    assert!(rendered.contains(fragment));
}

#[test]
fn text_view_renders_two_digit_counts() {
    let mut results = Vec::new();
    for index in 0..12 {
        results.push(TestCaseResult::new(
            "c".to_string(),
            "".to_string(),
            index < 7,
        ));
    }
    let results = TestCaseResults::new("T".to_string(), "D".to_string(), results).unwrap();
    let rendered = ViewSimpleText::new().process_test_results(&results);

    let mut expected = String::from("T\nD\n\n12 test results\n");
    for index in 0..12 {
        if index < 7 {
            expected.push_str("c ... ok\n");
        } else {
            expected.push_str("c ... FAILED\n");
        }
    }
    expected.push_str("\ntest result: FAILED. 7 passed; 5 failed");
    assert_eq!(rendered, expected);
}

#[test]
fn suite_keeps_its_title_description_and_cases() {
    let log = Rc::new(RefCell::new(Vec::new()));
    let suite = area_suite(&log, &[1, 2]);
    assert_eq!(suite.title, "Canvas suite");
    assert_eq!(suite.description, "Checks canvas areas.");
    assert_eq!(suite.test_cases.len(), 2);
}
