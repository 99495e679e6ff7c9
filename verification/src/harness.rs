//! Test harness: drives one dispatch per test case, in order, joining each
//! successful execution with its test case and counting passes.
//!
//! The harness is fail-fast: the first dispatch failure aborts the whole
//! run and no partial aggregate is produced.  The caller performs the
//! dispatches (they end in a network call) and feeds each outcome back in;
//! every decision — which request to issue next, what to record, when the
//! aggregate may be read — is made and proved here.

use vstd::prelude::*;

use crate::domain::{
    clone_opt_string, ExecuteCodeRequest, ExecuteCodeRequestView, ExecuteWithTests,
    ExecuteWithTestsView, Execution, ExecutionView, ExecutionWithTest, ExecutionWithTestView,
    RunTests, RunTestsView, RunnerError, RunnerErrorView, TestView,
};

verus! {

/// The dispatch request the harness issues for test case `t` of `req`: the
/// same code, language and version, with the test's input as the program
/// input.
pub open spec fn spec_test_request(req: RunTestsView, t: TestView) -> ExecuteCodeRequestView {
    ExecuteCodeRequestView {
        code: req.code,
        language: req.language,
        version: req.version,
        input: Some(t.input),
    }
}

/// Whether one test passed: the normalized output equals the expected
/// output exactly, and the run did not crash.
pub open spec fn spec_test_passed(t: TestView, e: ExecutionView) -> bool {
    e.stdout == t.expected_output && e.did_not_crash
}

/// The per-test record the harness appends for test `t` and execution `e`.
pub open spec fn spec_joined(t: TestView, e: ExecutionView) -> ExecutionWithTestView {
    ExecutionWithTestView {
        input: t.input,
        expected_output: t.expected_output,
        actual_output: e.stdout,
        stderr: e.stderr,
        time: e.time,
        time_limit_exceeded: e.time_limit_exceeded,
        did_not_crash: e.did_not_crash,
    }
}

/// How many of the first `n` test cases passed.
pub open spec fn spec_passed_count(tests: Seq<TestView>, execs: Seq<ExecutionView>, n: int) -> int
    decreases n,
{
    if n <= 0 {
        0
    } else {
        spec_passed_count(tests, execs, n - 1) + if spec_test_passed(
            tests[n - 1],
            execs[n - 1],
        ) {
            1int
        } else {
            0int
        }
    }
}

/// The pass count is never negative and never exceeds the number of test
/// cases counted.
pub proof fn lemma_passed_count_bounds(tests: Seq<TestView>, execs: Seq<ExecutionView>, n: int)
    requires
        n >= 0,
    ensures
        0 <= spec_passed_count(tests, execs, n) <= n,
    decreases n,
{
    if n > 0 {
        lemma_passed_count_bounds(tests, execs, n - 1);
    }
}

/// The pass count over the first `n` positions reads nothing past them: two
/// outcome sequences that agree there are counted alike.
pub proof fn lemma_passed_count_prefix(
    tests: Seq<TestView>,
    e1: Seq<ExecutionView>,
    e2: Seq<ExecutionView>,
    n: int,
)
    requires
        forall|k: int| 0 <= k < n ==> e1[k] == e2[k],
    ensures
        spec_passed_count(tests, e1, n) == spec_passed_count(tests, e2, n),
    decreases n,
{
    if n > 0 {
        lemma_passed_count_prefix(tests, e1, e2, n - 1);
    }
}

/// The in-progress state of one harness run over a `RunTests` request.
pub struct TestHarness {
    pub request: RunTests,
    pub executions: Vec<ExecutionWithTest>,
    pub tests_passed: i64,
    pub next_test: usize,
    pub executed: Ghost<Seq<ExecutionView>>,
}

impl TestHarness {
    /// Everything the harness maintains between steps: one record per
    /// dispatched test, joined exactly from that test and its execution, and
    /// a pass count that counts exactly the dispatched tests that passed.
    pub open spec fn wf(&self) -> bool {
        &&& self.next_test <= self.request@.tests.len()
        &&& self.request@.tests.len() <= i64::MAX
        &&& self.executed@.len() == self.next_test
        &&& self.executions@.len() == self.next_test
        &&& forall|i: int|
            0 <= i < self.next_test ==> self.executions.deep_view()[i] == spec_joined(
                self.request@.tests[i],
                self.executed@[i],
            )
        &&& self.tests_passed == spec_passed_count(
            self.request@.tests,
            self.executed@,
            self.next_test as int,
        )
    }

    /// Starts a harness run: nothing dispatched, nothing recorded.
    pub fn start(request: RunTests) -> (h: TestHarness)
        requires
            request@.tests.len() <= i64::MAX,
        ensures
            h.wf(),
            h.request@ == request@,
            h.next_test == 0,
    {
        TestHarness {
            request,
            executions: Vec::new(),
            tests_passed: 0,
            next_test: 0,
            executed: Ghost(Seq::empty()),
        }
    }

    /// The next request to dispatch, or `None` once every test case has been
    /// dispatched and recorded.
    pub fn next_request(&self) -> (r: Option<ExecuteCodeRequest>)
        requires
            self.wf(),
        ensures
            match r {
                Some(q) => self.next_test < self.request@.tests.len() && q@ == spec_test_request(
                    self.request@,
                    self.request@.tests[self.next_test as int],
                ),
                None => self.next_test == self.request@.tests.len(),
            },
    {
        if self.next_test < self.request.tests.len() {
            let t = &self.request.tests[self.next_test];
            Some(
                ExecuteCodeRequest {
                    code: self.request.code.clone(),
                    language: self.request.language.clone(),
                    version: clone_opt_string(&self.request.version),
                    input: Some(t.input.clone()),
                },
            )
        } else {
            None
        }
    }

    /// Records one successful execution for the current test case: appends
    /// the joined record and counts the test iff its output matches exactly
    /// and the run did not crash.
    pub fn record(&mut self, execution: Execution)
        requires
            old(self).wf(),
            old(self).next_test < old(self).request@.tests.len(),
        ensures
            final(self).wf(),
            final(self).request@ == old(self).request@,
            final(self).next_test == old(self).next_test + 1,
            final(self).executed@ == old(self).executed@.push(execution@),
            final(self).executions.deep_view() == old(self).executions.deep_view().push(
                spec_joined(
                    old(self).request@.tests[old(self).next_test as int],
                    execution@,
                ),
            ),
            final(self).tests_passed == old(self).tests_passed + if spec_test_passed(
                old(self).request@.tests[old(self).next_test as int],
                execution@,
            ) {
                1int
            } else {
                0int
            },
    {
        let ghost executed_before = self.executed@;
        let ghost execution_view = execution@;
        let total = self.request.tests.len();
        let input = self.request.tests[self.next_test].input.clone();
        let expected_output = self.request.tests[self.next_test].expected_output.clone();
        let passed = execution.stdout == expected_output && execution.did_not_crash;
        let record = ExecutionWithTest {
            input,
            expected_output,
            actual_output: execution.stdout,
            stderr: execution.stderr,
            time: execution.time,
            time_limit_exceeded: execution.time_limit_exceeded,
            did_not_crash: execution.did_not_crash,
        };
        proof {
            lemma_passed_count_bounds(
                self.request@.tests,
                self.executed@,
                self.next_test as int,
            );
            assert(self.next_test < total);
        }
        self.executions.push(record);
        if passed {
            self.tests_passed = self.tests_passed + 1;
        }
        self.next_test = self.next_test + 1;
        proof {
            self.executed@ = executed_before.push(execution_view);
            assert(self.executed@.len() == self.next_test);
            lemma_passed_count_prefix(
                self.request@.tests,
                executed_before,
                self.executed@,
                executed_before.len() as int,
            );
            assert(spec_passed_count(
                self.request@.tests,
                self.executed@,
                self.next_test as int,
            ) == spec_passed_count(
                self.request@.tests,
                self.executed@,
                executed_before.len() as int,
            ) + if spec_test_passed(
                self.request@.tests[executed_before.len() as int],
                execution_view,
            ) {
                1int
            } else {
                0int
            });
            assert(final(self).executions.deep_view() =~= old(self).executions.deep_view().push(
                spec_joined(
                    old(self).request@.tests[old(self).next_test as int],
                    execution_view,
                ),
            ));
        }
    }

    /// Reads the aggregate result.  Only a complete run has one: the
    /// fail-fast contract is that an aborted harness never yields a partial
    /// `ExecuteWithTests`.
    pub fn into_result(self) -> (r: ExecuteWithTests)
        requires
            self.wf(),
            self.next_test == self.request@.tests.len(),
        ensures
            r@.executions.len() == self.request@.tests.len(),
            forall|i: int|
                0 <= i < self.request@.tests.len() ==> r@.executions[i] == spec_joined(
                    self.request@.tests[i],
                    self.executed@[i],
                ),
            r@.tests_passed == spec_passed_count(
                self.request@.tests,
                self.executed@,
                self.request@.tests.len() as int,
            ),
            0 <= r@.tests_passed <= r@.executions.len(),
    {
        proof {
            lemma_passed_count_bounds(
                self.request@.tests,
                self.executed@,
                self.next_test as int,
            );
        }
        ExecuteWithTests { executions: self.executions, tests_passed: self.tests_passed }
    }
}

/// The dispatch outcomes of a harness run, as mathematical values.
pub open spec fn spec_outcome_views(outcomes: Seq<Result<Execution, RunnerError>>) -> Seq<
    Result<ExecutionView, RunnerErrorView>,
> {
    Seq::new(
        outcomes.len(),
        |i: int|
            match outcomes[i] {
                Ok(e) => Ok(e@),
                Err(e) => Err(e@),
            },
    )
}

/// The aggregate a fully successful harness run produces, given the
/// execution each test's dispatch returned.
pub open spec fn spec_harness_success(req: RunTestsView, execs: Seq<ExecutionView>) -> ExecuteWithTestsView {
    ExecuteWithTestsView {
        executions: Seq::new(req.tests.len(), |i: int| spec_joined(req.tests[i], execs[i])),
        tests_passed: spec_passed_count(req.tests, execs, req.tests.len() as int) as i64,
    }
}

/// Runs the whole harness given the dispatcher's outcome for each test case,
/// in order.  Fail-fast: the result is the error of the first failing
/// dispatch, with every earlier success discarded and every later outcome
/// ignored; only when every dispatch succeeded is the aggregate produced.
pub fn run_harness(request: RunTests, outcomes: Vec<Result<Execution, RunnerError>>) -> (r:
    Result<ExecuteWithTests, RunnerError>)
    requires
        outcomes@.len() == request@.tests.len(),
        request@.tests.len() <= i64::MAX,
    ensures
        match r {
            Ok(res) => {
                &&& forall|i: int|
                    0 <= i < outcomes@.len() ==> spec_outcome_views(outcomes@)[i] is Ok
                &&& res@ == spec_harness_success(
                    request@,
                    Seq::new(
                        outcomes@.len(),
                        |i: int| spec_outcome_views(outcomes@)[i]->Ok_0,
                    ),
                )
            },
            Err(e) => exists|i: int|
                {
                    &&& 0 <= i < outcomes@.len()
                    &&& spec_outcome_views(outcomes@)[i] == Err::<ExecutionView,
                        RunnerErrorView,
                    >(e@)
                    &&& forall|j: int| 0 <= j < i ==> spec_outcome_views(outcomes@)[j] is Ok
                },
        },
{
    let n = outcomes.len();
    let mut h = TestHarness::start(request.clone());
    let mut i: usize = 0;
    while i < n
        invariant
            h.wf(),
            h.request@ == request@,
            h.next_test == i,
            i <= n,
            n == request@.tests.len(),
            n == outcomes@.len(),
            forall|j: int| 0 <= j < i ==> spec_outcome_views(outcomes@)[j] is Ok,
            forall|j: int|
                0 <= j < i ==> h.executed@[j] == spec_outcome_views(outcomes@)[j]->Ok_0,
        decreases n - i,
    {
        match &outcomes[i] {
            Ok(execution) => {
                proof {
                    assert(spec_outcome_views(outcomes@)[i as int] == Ok::<ExecutionView,
                        RunnerErrorView,
                    >(execution@));
                }
                h.record(execution.clone());
                i = i + 1;
            },
            Err(e) => {
                let failure = e.clone();
                proof {
                    assert(spec_outcome_views(outcomes@)[i as int] == Err::<ExecutionView,
                        RunnerErrorView,
                    >(failure@));
                }
                return Err(failure);
            },
        }
    }
    let ghost executed = h.executed@;
    let result = h.into_result();
    proof {
        let execs = Seq::new(
            outcomes@.len(),
            |k: int| spec_outcome_views(outcomes@)[k]->Ok_0,
        );
        assert(executed =~= execs);
        assert(result@.executions =~= spec_harness_success(request@, execs).executions);
        assert(result@ == spec_harness_success(request@, execs));
    }
    Ok(result)
}

} // verus!
