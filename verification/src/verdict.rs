//! Per-test-case verdicts: a run's output is graded against the expected
//! output after trimming, and each sandbox result becomes one recorded row.

use vstd::prelude::*;
use vstd::string::*;

use crate::domain::{TestCase, TestCaseResult, TestCaseStatus};
use crate::text::{trim_of, trim_string};

verus! {

/// The verdict for a run that exited successfully: `Passed` exactly when
/// the trimmed actual output equals the trimmed expected output, `Failed`
/// otherwise.
pub open spec fn verdict_of(actual: Seq<char>, expected: Seq<char>) -> TestCaseStatus {
    if trim_of(actual) == trim_of(expected) {
        TestCaseStatus::Passed
    } else {
        TestCaseStatus::Failed
    }
}

/// A successful run is graded `Passed` iff its trimmed output equals the
/// trimmed expected output; otherwise it is graded `Failed`, never `Error`.
pub proof fn lemma_passed_iff_trimmed_equal(actual: Seq<char>, expected: Seq<char>)
    ensures
        verdict_of(actual, expected) == TestCaseStatus::Passed <==> trim_of(actual) == trim_of(
            expected,
        ),
        verdict_of(actual, expected) == TestCaseStatus::Passed || verdict_of(actual, expected)
            == TestCaseStatus::Failed,
{
}

/// Grades one run output against the expected output.
pub fn grade_output(actual: &str, expected: &str) -> (v: TestCaseStatus)
    ensures
        v == verdict_of(actual@, expected@),
{
    let a = trim_string(actual);
    let e = trim_string(expected);
    if a == e {
        TestCaseStatus::Passed
    } else {
        TestCaseStatus::Failed
    }
}

/// Builds the recorded row for one test case from the sandbox result:
/// `Passed`/`Failed` carry the output and an empty error text, `Error`
/// carries an empty output and the failure text.
pub fn test_case_result_of(tc: &TestCase, outcome: &Result<String, String>) -> (r: TestCaseResult)
    ensures
        r.srno == tc.srno,
        outcome matches Ok(out) ==> {
            &&& r.status == verdict_of(out@, tc.expected_output@)
            &&& r.stdout@ == out@
            &&& r.stderr@ == Seq::<char>::empty()
        },
        outcome matches Err(e) ==> {
            &&& r.status == TestCaseStatus::Error
            &&& r.stdout@ == Seq::<char>::empty()
            &&& r.stderr@ == e@
        },
{
    match outcome {
        Ok(out) => {
            let status = grade_output(out.as_str(), tc.expected_output.as_str());
            TestCaseResult {
                srno: tc.srno,
                status,
                stdout: out.clone(),
                stderr: String::new(),
            }
        },
        Err(e) => TestCaseResult {
            srno: tc.srno,
            status: TestCaseStatus::Error,
            stdout: String::new(),
            stderr: e.clone(),
        },
    }
}

} // verus!
