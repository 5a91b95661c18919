use vstd::prelude::*;
use vstd::hash_map::StringHashMap;

verus! {

/// The abstract value of a [`TestCaseResult`]: the case's identity, its
/// pass/fail flag, and its metadata as a mathematical map from key to value.
pub struct TestCaseResultView {
    pub title: Seq<char>,
    pub description: Seq<char>,
    pub did_pass: bool,
    pub metadata: Map<Seq<char>, Seq<char>>,
}

/// Whether or not the test case passed, along with metadata that a results
/// renderer can make use of when rendering out the results of the conformance
/// test.
pub struct TestCaseResult {
    title: String,
    description: String,
    did_pass: bool,
    metadata: StringHashMap<String>,
}

impl View for TestCaseResult {
    type V = TestCaseResultView;

    closed spec fn view(&self) -> TestCaseResultView {
        TestCaseResultView {
            title: self.title@,
            description: self.description@,
            did_pass: self.did_pass,
            metadata: self.metadata@.map_values(|v: String| v@),
        }
    }
}

impl TestCaseResult {
    /// Create a result for a single test case; the pass/fail flag is fixed at
    /// construction and the metadata map starts out empty.
    pub fn new(title: String, description: String, did_pass: bool) -> (r: Self)
        ensures
            r@ == (TestCaseResultView {
                title: title@,
                description: description@,
                did_pass: did_pass,
                metadata: Map::<Seq<char>, Seq<char>>::empty(),
            }),
    {
        let r = TestCaseResult { title, description, did_pass, metadata: StringHashMap::new() };
        proof {
            assert(r@.metadata =~= Map::<Seq<char>, Seq<char>>::empty());
        }
        r
    }

    /// The test case's title.
    pub fn title(&self) -> (r: &str)
        ensures
            r@ == self@.title,
    {
        self.title.as_str()
    }

    /// The test case's description.
    pub fn description(&self) -> (r: &str)
        ensures
            r@ == self@.description,
    {
        self.description.as_str()
    }

    /// Insert metadata for the test case result. Returns the value previously
    /// stored under the key, if any.
    pub fn insert_metadata(&mut self, key: String, value: String) -> (prev: Option<String>)
        ensures
            final(self)@.title == old(self)@.title,
            final(self)@.description == old(self)@.description,
            final(self)@.did_pass == old(self)@.did_pass,
            final(self)@.metadata == old(self)@.metadata.insert(key@, value@),
            match prev {
                Some(p) => old(self)@.metadata.contains_key(key@) && p@ == old(self)@.metadata[key@],
                None => !old(self)@.metadata.contains_key(key@),
            },
    {
        let prev = match self.metadata.get(key.as_str()) {
            Some(v) => Some(v.clone()),
            None => None,
        };
        self.metadata.insert(key, value);
        proof {
            assert(self@.metadata =~= old(self)@.metadata.insert(key@, value@));
        }
        prev
    }

    /// Describes whether the test passed or failed.
    pub fn did_pass(&self) -> (r: bool)
        ensures
            r == self@.did_pass,
    {
        self.did_pass
    }

    /// Look up a single piece of metadata stored about the test case.
    /// Used by result views when deciding what to do with the test results.
    pub fn metadata(&self, key: &str) -> (r: Option<&String>)
        ensures
            match r {
                Some(v) => self@.metadata.contains_key(key@) && v@ == self@.metadata[key@],
                None => !self@.metadata.contains_key(key@),
            },
    {
        self.metadata.get(key)
    }
}

} // verus!
