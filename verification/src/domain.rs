//! Core data types of the judging engine: submissions, test cases, per-test
//! verdicts, and the persisted task record.

use vstd::prelude::*;
use vstd::string::*;

verus! {

/// Verdict of one test case: `Passed` / `Failed` when the program ran to a
/// successful exit, `Error` when the sandboxed run itself failed.
#[derive(Debug, Clone, Copy, PartialEq, Eq, Structural)]
pub enum TestCaseStatus {
    Error,
    Passed,
    Failed,
}

/// Terminal state of a synchronous test run. `Initial` is the pre-run
/// default; the other three are terminal.
#[derive(Debug, Clone, Copy, PartialEq, Eq, Structural)]
pub enum TestRunStatus {
    Initial,
    CompilerError,
    RuntimeError,
    Executed,
}

/// Lifecycle state of a persisted task record: inserted as `Pending`,
/// updated at most once to `Completed`.
#[derive(Debug, Clone, Copy, PartialEq, Eq, Structural)]
pub enum LifecycleState {
    Pending,
    Completed,
}

/// Outcome of one test case as recorded in the task record.
#[derive(Debug, Clone)]
pub struct TestCaseResult {
    pub srno: i32,
    pub status: TestCaseStatus,
    pub stdout: String,
    pub stderr: String,
}

/// One captured output line-item, keyed by test-case serial number.
#[derive(Debug, Clone)]
pub struct StdoutEntry {
    pub srno: i32,
    pub stdout: String,
}

/// One captured error line-item, keyed by test-case serial number.
#[derive(Debug, Clone)]
pub struct StderrEntry {
    pub srno: i32,
    pub stderr: String,
}

/// One test case: caller-assigned serial number (used only for correlation),
/// the text fed to the program, and the expected output.
#[derive(Debug, Clone)]
pub struct TestCase {
    pub srno: i32,
    pub input: String,
    pub expected_output: String,
}

/// A full submission: language identifier, source text, and the ordered
/// test cases.
#[derive(Debug, Clone)]
pub struct TaskRequest {
    pub lang: String,
    pub source_code: String,
    pub test_cases: Vec<TestCase>,
}

/// Request for a synchronous test run: one program, one stdin, no test cases
/// and no persistence.
#[derive(Debug, Clone)]
pub struct TestRunRequest {
    pub lang: String,
    pub source_code: String,
    pub stdin: String,
}

/// Response of a synchronous test run.
#[derive(Debug, Clone)]
pub struct TestRunResponse {
    pub lang: String,
    pub compiler_err: String,
    pub stdout: String,
    pub stderr: String,
    pub status: TestRunStatus,
}

/// The persisted record of one task, keyed by its task id. Inserted once
/// with state `Pending`, updated at most once to `Completed`; no other state
/// is ever persisted.
#[derive(Debug, Clone)]
pub struct TaskStatusRecord {
    pub task_id: String,
    pub compiler_error_msg: String,
    pub state: LifecycleState,
    pub test_case_results: Vec<TestCaseResult>,
}

/// The mathematical view of one recorded test-case row.
#[verifier::ext_equal]
pub ghost struct RowView {
    pub srno: i32,
    pub status: TestCaseStatus,
    pub stdout: Seq<char>,
    pub stderr: Seq<char>,
}

/// The mathematical view of one test case.
#[verifier::ext_equal]
pub ghost struct CaseView {
    pub srno: i32,
    pub input: Seq<char>,
    pub expected: Seq<char>,
}

/// The mathematical view of a persisted task record.
#[verifier::ext_equal]
pub ghost struct RecordView {
    pub task_id: Seq<char>,
    pub compiler_error_msg: Seq<char>,
    pub state: LifecycleState,
    pub rows: Seq<RowView>,
}

impl View for TestCaseResult {
    type V = RowView;

    open spec fn view(&self) -> RowView {
        RowView { srno: self.srno, status: self.status, stdout: self.stdout@, stderr: self.stderr@ }
    }
}

impl View for TestCase {
    type V = CaseView;

    open spec fn view(&self) -> CaseView {
        CaseView { srno: self.srno, input: self.input@, expected: self.expected_output@ }
    }
}

impl View for TaskStatusRecord {
    type V = RecordView;

    open spec fn view(&self) -> RecordView {
        RecordView {
            task_id: self.task_id@,
            compiler_error_msg: self.compiler_error_msg@,
            state: self.state,
            rows: self.test_case_results@.map_values(|r: TestCaseResult| r@),
        }
    }
}

/// The display name of a verdict, as stored in the result store.
pub open spec fn status_name(status: TestCaseStatus) -> Seq<char> {
    match status {
        TestCaseStatus::Error => "Error"@,
        TestCaseStatus::Passed => "Passed"@,
        TestCaseStatus::Failed => "Failed"@,
    }
}

/// Renders a verdict as the exact string stored in the result store.
pub fn get_test_case_run_status(status: TestCaseStatus) -> (r: String)
    ensures
        r@ == status_name(status),
{
    match status {
        TestCaseStatus::Error => String::from_str("Error"),
        TestCaseStatus::Passed => String::from_str("Passed"),
        TestCaseStatus::Failed => String::from_str("Failed"),
    }
}

} // verus!
