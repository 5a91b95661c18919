use vstd::prelude::*;

use crate::TestCase;

verus! {

/// A test suite to run: a named, described, ordered collection of test cases.
#[verifier::reject_recursive_types(TypeToTest)]
pub struct TestSuite<TypeToTest> {
    /// The test suite's title.
    pub title: String,
    /// The test suite's description.
    pub description: String,
    /// The test cases, in the order they will be run.
    pub test_cases: Vec<Box<dyn TestCase<TypeToTest>>>,
}

impl<TypeToTest> TestSuite<TypeToTest> {
    /// Create a new test suite.
    pub fn new(
        title: String,
        description: String,
        test_cases: Vec<Box<dyn TestCase<TypeToTest>>>,
    ) -> (r: Self)
        ensures
            r.title@ == title@,
            r.description@ == description@,
            r.test_cases == test_cases,
    {
        TestSuite { title, description, test_cases }
    }
}

} // verus!
