//! Domain data model: the stable, client-facing record types of the service
//! and the error taxonomy of the core.
//!
//! Every type carries a mathematical view (`View`/`DeepView`) over which all
//! contracts in this crate are stated, and the types that serve as cache keys
//! implement structural equality by hand so that verified code can reason
//! about `==`.

use vstd::prelude::*;
use vstd::laws_eq::obeys_view_eq;

verus! {

// ---------------------------------------------------------------------------
// Runtime
// ---------------------------------------------------------------------------

/// One (language, version) pair installed on the execution engine, together
/// with the aliases the language may be queried under.  Snapshots are
/// immutable; the catalog is replaced wholesale on refresh.
#[derive(Debug)]
pub struct Runtime {
    pub language: String,
    pub version: String,
    pub aliases: Vec<String>,
}

/// Mathematical model of a `Runtime`.
pub ghost struct RuntimeView {
    pub language: Seq<char>,
    pub version: Seq<char>,
    pub aliases: Seq<Seq<char>>,
}

impl View for Runtime {
    type V = RuntimeView;

    open spec fn view(&self) -> RuntimeView {
        RuntimeView {
            language: self.language@,
            version: self.version@,
            aliases: self.aliases.deep_view(),
        }
    }
}

impl DeepView for Runtime {
    type V = RuntimeView;

    open spec fn deep_view(&self) -> RuntimeView {
        self.view()
    }
}

impl Clone for Runtime {
    fn clone(&self) -> (r: Self)
        ensures
            r@ == self@,
    {
        let r = Runtime {
            language: self.language.clone(),
            version: self.version.clone(),
            aliases: clone_string_vec(&self.aliases),
        };
        r
    }
}

// ---------------------------------------------------------------------------
// ExecuteCodeRequest
// ---------------------------------------------------------------------------

/// A caller's request to run one program once.  The value is used verbatim as
/// a cache key: equality is structural over all four fields.
#[derive(Debug)]
pub struct ExecuteCodeRequest {
    pub code: String,
    pub language: String,
    pub version: Option<String>,
    pub input: Option<String>,
}

/// Mathematical model of an `ExecuteCodeRequest`.
pub ghost struct ExecuteCodeRequestView {
    pub code: Seq<char>,
    pub language: Seq<char>,
    pub version: Option<Seq<char>>,
    pub input: Option<Seq<char>>,
}

impl View for ExecuteCodeRequest {
    type V = ExecuteCodeRequestView;

    open spec fn view(&self) -> ExecuteCodeRequestView {
        ExecuteCodeRequestView {
            code: self.code@,
            language: self.language@,
            version: self.version.deep_view(),
            input: self.input.deep_view(),
        }
    }
}

impl DeepView for ExecuteCodeRequest {
    type V = ExecuteCodeRequestView;

    open spec fn deep_view(&self) -> ExecuteCodeRequestView {
        self.view()
    }
}

impl Clone for ExecuteCodeRequest {
    fn clone(&self) -> (r: Self)
        ensures
            r@ == self@,
    {
        ExecuteCodeRequest {
            code: self.code.clone(),
            language: self.language.clone(),
            version: clone_opt_string(&self.version),
            input: clone_opt_string(&self.input),
        }
    }
}

impl PartialEq for ExecuteCodeRequest {
    fn eq(&self, other: &Self) -> (r: bool) {
        self.code == other.code && self.language == other.language
            && opt_string_eq(&self.version, &other.version)
            && opt_string_eq(&self.input, &other.input)
    }
}

impl vstd::std_specs::cmp::PartialEqSpecImpl for ExecuteCodeRequest {
    open spec fn obeys_eq_spec() -> bool {
        true
    }

    open spec fn eq_spec(&self, other: &Self) -> bool {
        self@ == other@
    }
}

// ---------------------------------------------------------------------------
// Execution
// ---------------------------------------------------------------------------

/// The stable record produced for one successful engine run, after
/// normalization of the raw engine response.
#[derive(Debug)]
pub struct Execution {
    pub stdout: String,
    pub stderr: Option<String>,
    pub time: i64,
    pub time_limit_exceeded: bool,
    pub did_not_crash: bool,
}

/// Mathematical model of an `Execution`.
pub ghost struct ExecutionView {
    pub stdout: Seq<char>,
    pub stderr: Option<Seq<char>>,
    pub time: i64,
    pub time_limit_exceeded: bool,
    pub did_not_crash: bool,
}

impl View for Execution {
    type V = ExecutionView;

    open spec fn view(&self) -> ExecutionView {
        ExecutionView {
            stdout: self.stdout@,
            stderr: self.stderr.deep_view(),
            time: self.time,
            time_limit_exceeded: self.time_limit_exceeded,
            did_not_crash: self.did_not_crash,
        }
    }
}

impl DeepView for Execution {
    type V = ExecutionView;

    open spec fn deep_view(&self) -> ExecutionView {
        self.view()
    }
}

impl Clone for Execution {
    fn clone(&self) -> (r: Self)
        ensures
            r@ == self@,
    {
        Execution {
            stdout: self.stdout.clone(),
            stderr: clone_opt_string(&self.stderr),
            time: self.time,
            time_limit_exceeded: self.time_limit_exceeded,
            did_not_crash: self.did_not_crash,
        }
    }
}

// ---------------------------------------------------------------------------
// Test, RunTests
// ---------------------------------------------------------------------------

/// One test case: an input for the program and the output expected of it.
#[derive(Debug)]
pub struct Test {
    pub input: String,
    pub expected_output: String,
}

/// Mathematical model of a `Test`.
pub ghost struct TestView {
    pub input: Seq<char>,
    pub expected_output: Seq<char>,
}

impl View for Test {
    type V = TestView;

    open spec fn view(&self) -> TestView {
        TestView { input: self.input@, expected_output: self.expected_output@ }
    }
}

impl DeepView for Test {
    type V = TestView;

    open spec fn deep_view(&self) -> TestView {
        self.view()
    }
}

impl Clone for Test {
    fn clone(&self) -> (r: Self)
        ensures
            r@ == self@,
    {
        Test { input: self.input.clone(), expected_output: self.expected_output.clone() }
    }
}

impl PartialEq for Test {
    fn eq(&self, other: &Self) -> (r: bool) {
        self.input == other.input && self.expected_output == other.expected_output
    }
}

impl vstd::std_specs::cmp::PartialEqSpecImpl for Test {
    open spec fn obeys_eq_spec() -> bool {
        true
    }

    open spec fn eq_spec(&self, other: &Self) -> bool {
        self@ == other@
    }
}

/// A caller's request to run one program against an ordered battery of test
/// cases.  Also a cache key; equality is structural over all fields.
#[derive(Debug)]
pub struct RunTests {
    pub code: String,
    pub language: String,
    pub version: Option<String>,
    pub tests: Vec<Test>,
}

/// Mathematical model of a `RunTests`.
pub ghost struct RunTestsView {
    pub code: Seq<char>,
    pub language: Seq<char>,
    pub version: Option<Seq<char>>,
    pub tests: Seq<TestView>,
}

impl View for RunTests {
    type V = RunTestsView;

    open spec fn view(&self) -> RunTestsView {
        RunTestsView {
            code: self.code@,
            language: self.language@,
            version: self.version.deep_view(),
            tests: self.tests.deep_view(),
        }
    }
}

impl DeepView for RunTests {
    type V = RunTestsView;

    open spec fn deep_view(&self) -> RunTestsView {
        self.view()
    }
}

impl Clone for RunTests {
    fn clone(&self) -> (r: Self)
        ensures
            r@ == self@,
    {
        let mut tests: Vec<Test> = Vec::new();
        let mut i: usize = 0;
        while i < self.tests.len()
            invariant
                0 <= i <= self.tests.len(),
                tests@.len() == i,
                forall|j: int| 0 <= j < i ==> tests@[j]@ == self.tests@[j]@,
            decreases self.tests.len() - i,
        {
            let t = self.tests[i].clone();
            tests.push(t);
            i = i + 1;
        }
        proof {
            assert(tests.deep_view() =~= self.tests.deep_view());
        }
        RunTests {
            code: self.code.clone(),
            language: self.language.clone(),
            version: clone_opt_string(&self.version),
            tests,
        }
    }
}

impl PartialEq for RunTests {
    fn eq(&self, other: &Self) -> (r: bool) {
        if !(self.code == other.code && self.language == other.language
            && opt_string_eq(&self.version, &other.version)) {
            return false;
        }
        if self.tests.len() != other.tests.len() {
            proof {
                assert(self@.tests.len() != other@.tests.len());
            }
            return false;
        }
        let mut i: usize = 0;
        while i < self.tests.len()
            invariant
                0 <= i <= self.tests.len(),
                self.tests@.len() == other.tests@.len(),
                self@.code == other@.code,
                self@.language == other@.language,
                self@.version == other@.version,
                forall|j: int| 0 <= j < i ==> self.tests@[j]@ == other.tests@[j]@,
            decreases self.tests.len() - i,
        {
            let same = self.tests[i] == other.tests[i];
            if !same {
                proof {
                    assert(self@.tests[i as int] != other@.tests[i as int]);
                }
                return false;
            }
            i = i + 1;
        }
        proof {
            assert(self@.tests =~= other@.tests);
        }
        true
    }
}

impl vstd::std_specs::cmp::PartialEqSpecImpl for RunTests {
    open spec fn obeys_eq_spec() -> bool {
        true
    }

    open spec fn eq_spec(&self, other: &Self) -> bool {
        self@ == other@
    }
}

// ---------------------------------------------------------------------------
// ExecutionWithTest, ExecuteWithTests
// ---------------------------------------------------------------------------

/// One `Execution` joined with the test case that produced it.
#[derive(Debug)]
pub struct ExecutionWithTest {
    pub input: String,
    pub expected_output: String,
    pub actual_output: String,
    pub stderr: Option<String>,
    pub time: i64,
    pub time_limit_exceeded: bool,
    pub did_not_crash: bool,
}

/// Mathematical model of an `ExecutionWithTest`.
pub ghost struct ExecutionWithTestView {
    pub input: Seq<char>,
    pub expected_output: Seq<char>,
    pub actual_output: Seq<char>,
    pub stderr: Option<Seq<char>>,
    pub time: i64,
    pub time_limit_exceeded: bool,
    pub did_not_crash: bool,
}

impl View for ExecutionWithTest {
    type V = ExecutionWithTestView;

    open spec fn view(&self) -> ExecutionWithTestView {
        ExecutionWithTestView {
            input: self.input@,
            expected_output: self.expected_output@,
            actual_output: self.actual_output@,
            stderr: self.stderr.deep_view(),
            time: self.time,
            time_limit_exceeded: self.time_limit_exceeded,
            did_not_crash: self.did_not_crash,
        }
    }
}

impl DeepView for ExecutionWithTest {
    type V = ExecutionWithTestView;

    open spec fn deep_view(&self) -> ExecutionWithTestView {
        self.view()
    }
}

impl Clone for ExecutionWithTest {
    fn clone(&self) -> (r: Self)
        ensures
            r@ == self@,
    {
        ExecutionWithTest {
            input: self.input.clone(),
            expected_output: self.expected_output.clone(),
            actual_output: self.actual_output.clone(),
            stderr: clone_opt_string(&self.stderr),
            time: self.time,
            time_limit_exceeded: self.time_limit_exceeded,
            did_not_crash: self.did_not_crash,
        }
    }
}

/// The aggregate outcome of a full harness run: one record per test case, in
/// order, and the number of test cases that passed.
#[derive(Debug)]
pub struct ExecuteWithTests {
    pub executions: Vec<ExecutionWithTest>,
    pub tests_passed: i64,
}

impl Clone for ExecuteWithTests {
    fn clone(&self) -> (r: Self)
        ensures
            r@ == self@,
    {
        let mut executions: Vec<ExecutionWithTest> = Vec::new();
        let mut i: usize = 0;
        while i < self.executions.len()
            invariant
                0 <= i <= self.executions.len(),
                executions@.len() == i,
                forall|j: int| 0 <= j < i ==> executions@[j]@ == self.executions@[j]@,
            decreases self.executions.len() - i,
        {
            let e = self.executions[i].clone();
            executions.push(e);
            i = i + 1;
        }
        proof {
            assert(executions.deep_view() =~= self.executions.deep_view());
        }
        ExecuteWithTests { executions, tests_passed: self.tests_passed }
    }
}

/// Mathematical model of an `ExecuteWithTests`.
pub ghost struct ExecuteWithTestsView {
    pub executions: Seq<ExecutionWithTestView>,
    pub tests_passed: i64,
}

impl View for ExecuteWithTests {
    type V = ExecuteWithTestsView;

    open spec fn view(&self) -> ExecuteWithTestsView {
        ExecuteWithTestsView {
            executions: self.executions.deep_view(),
            tests_passed: self.tests_passed,
        }
    }
}

impl DeepView for ExecuteWithTests {
    type V = ExecuteWithTestsView;

    open spec fn deep_view(&self) -> ExecuteWithTestsView {
        self.view()
    }
}

// ---------------------------------------------------------------------------
// Error taxonomy
// ---------------------------------------------------------------------------

/// Every way a core operation can fail.  The core only distinguishes kinds;
/// mapping kinds to transport status codes is the caller's business.
#[derive(Debug)]
pub enum RunnerError {
    /// A caller-supplied run timeout lies outside the accepted range, or the
    /// active profile does not expose the option at all.
    ValidationError { run_timeout: i64 },
    /// No catalog entry matches the requested language (and version, when one
    /// was given).  The fields name exactly what was asked for.
    RuntimeNotFound { language: String, version: Option<String> },
    /// The engine could not be reached at the transport level.
    EngineUnreachable { cause: String },
    /// The engine answered, but its response matches neither the success nor
    /// the error schema; carries the decode failure description.
    EngineProtocolError { detail: String },
    /// The engine answered with its error schema; carries its message.
    EngineReportedError { message: String },
}

/// Mathematical model of a `RunnerError`.
pub ghost enum RunnerErrorView {
    ValidationError { run_timeout: i64 },
    RuntimeNotFound { language: Seq<char>, version: Option<Seq<char>> },
    EngineUnreachable { cause: Seq<char> },
    EngineProtocolError { detail: Seq<char> },
    EngineReportedError { message: Seq<char> },
}

impl View for RunnerError {
    type V = RunnerErrorView;

    open spec fn view(&self) -> RunnerErrorView {
        match self {
            RunnerError::ValidationError { run_timeout } => RunnerErrorView::ValidationError {
                run_timeout: *run_timeout,
            },
            RunnerError::RuntimeNotFound { language, version } => RunnerErrorView::RuntimeNotFound {
                language: language@,
                version: version.deep_view(),
            },
            RunnerError::EngineUnreachable { cause } => RunnerErrorView::EngineUnreachable {
                cause: cause@,
            },
            RunnerError::EngineProtocolError { detail } => RunnerErrorView::EngineProtocolError {
                detail: detail@,
            },
            RunnerError::EngineReportedError { message } => RunnerErrorView::EngineReportedError {
                message: message@,
            },
        }
    }
}

impl DeepView for RunnerError {
    type V = RunnerErrorView;

    open spec fn deep_view(&self) -> RunnerErrorView {
        self.view()
    }
}

impl Clone for RunnerError {
    fn clone(&self) -> (r: Self)
        ensures
            r@ == self@,
    {
        match self {
            RunnerError::ValidationError { run_timeout } => RunnerError::ValidationError {
                run_timeout: *run_timeout,
            },
            RunnerError::RuntimeNotFound { language, version } => RunnerError::RuntimeNotFound {
                language: language.clone(),
                version: clone_opt_string(version),
            },
            RunnerError::EngineUnreachable { cause } => RunnerError::EngineUnreachable {
                cause: cause.clone(),
            },
            RunnerError::EngineProtocolError { detail } => RunnerError::EngineProtocolError {
                detail: detail.clone(),
            },
            RunnerError::EngineReportedError { message } => RunnerError::EngineReportedError {
                message: message.clone(),
            },
        }
    }
}

// ---------------------------------------------------------------------------
// Cache keys
// ---------------------------------------------------------------------------

/// The sole key of the runtime-listing cache: that call takes no arguments,
/// so all its invocations share one key.
#[derive(Debug)]
pub struct RuntimesKey;

impl View for RuntimesKey {
    type V = ();

    open spec fn view(&self) -> () {
        ()
    }
}

impl Clone for RuntimesKey {
    fn clone(&self) -> (r: Self)
        ensures
            r@ == self@,
    {
        RuntimesKey
    }
}

impl PartialEq for RuntimesKey {
    fn eq(&self, other: &Self) -> (r: bool) {
        true
    }
}

impl vstd::std_specs::cmp::PartialEqSpecImpl for RuntimesKey {
    open spec fn obeys_eq_spec() -> bool {
        true
    }

    open spec fn eq_spec(&self, other: &Self) -> bool {
        self@ == other@
    }
}

/// Equality of `ExecuteCodeRequest` values is exactly equality of their
/// models, as the memoization cache's contracts require of a key.
pub proof fn lemma_execute_request_is_cache_key()
    ensures
        obeys_view_eq::<ExecuteCodeRequest>(),
{
    reveal(obeys_view_eq);
}

/// Equality of `RunTests` values is exactly equality of their models.
pub proof fn lemma_run_tests_is_cache_key()
    ensures
        obeys_view_eq::<RunTests>(),
{
    reveal(obeys_view_eq);
}

/// Equality of `RuntimesKey` values is exactly equality of their models.
pub proof fn lemma_runtimes_key_is_cache_key()
    ensures
        obeys_view_eq::<RuntimesKey>(),
{
    reveal(obeys_view_eq);
}

// ---------------------------------------------------------------------------
// Small helpers
// ---------------------------------------------------------------------------

/// Turns the empty string into `None` and keeps any other string as `Some`,
/// unchanged.
pub fn empty_to_none(s: String) -> (r: Option<String>)
    ensures
        s@.len() == 0 ==> r is None,
        s@.len() > 0 ==> (r matches Some(v) && v@ == s@),
{
    if s.as_str().is_empty() {
        None
    } else {
        Some(s)
    }
}

/// Clones an optional string, preserving its model.
pub(crate) fn clone_opt_string(o: &Option<String>) -> (r: Option<String>)
    ensures
        r.deep_view() == o.deep_view(),
{
    match o {
        Some(s) => Some(s.clone()),
        None => None,
    }
}

/// Structural equality of two optional strings, decided over their models.
pub(crate) fn opt_string_eq(a: &Option<String>, b: &Option<String>) -> (r: bool)
    ensures
        r == (a.deep_view() == b.deep_view()),
{
    match (a, b) {
        (Some(x), Some(y)) => *x == *y,
        (None, None) => true,
        _ => false,
    }
}

/// Clones a vector of strings, preserving its model.
pub(crate) fn clone_string_vec(v: &Vec<String>) -> (r: Vec<String>)
    ensures
        r.deep_view() == v.deep_view(),
{
    let mut r: Vec<String> = Vec::new();
    let mut i: usize = 0;
    while i < v.len()
        invariant
            0 <= i <= v.len(),
            r@.len() == i,
            forall|j: int| 0 <= j < i ==> r.deep_view()[j] == v.deep_view()[j],
        decreases v.len() - i,
    {
        r.push(v[i].clone());
        i = i + 1;
    }
    proof {
        assert(r.deep_view() =~= v.deep_view());
    }
    r
}

} // verus!
