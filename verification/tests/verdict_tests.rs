use code_engine::domain::{get_test_case_run_status, TestCase, TestCaseStatus};
use code_engine::verdict::{grade_output, test_case_result_of};

fn case(srno: i32, input: &str, expected: &str) -> TestCase {
    TestCase {
        srno,
        input: input.to_string(),
        expected_output: expected.to_string(),
    }
}

#[test]
fn equal_after_trimming_passes() {
    assert_eq!(grade_output("  5  \n", "5"), TestCaseStatus::Passed);
}

#[test]
fn equal_verbatim_passes() {
    assert_eq!(grade_output("30", "30"), TestCaseStatus::Passed);
}

#[test]
fn different_output_fails() {
    assert_eq!(grade_output("6", "5"), TestCaseStatus::Failed);
}

#[test]
fn inner_whitespace_is_not_trimmed() {
    assert_eq!(grade_output("1 2", "12"), TestCaseStatus::Failed);
}

#[test]
fn successful_run_row_carries_stdout_and_empty_stderr() {
    let tc = case(1, "2 3", "5");
    let row = test_case_result_of(&tc, &Ok("5\n".to_string()));
    assert_eq!(row.srno, 1);
    assert_eq!(row.status, TestCaseStatus::Passed);
    assert_eq!(row.stdout, "5\n");
    assert_eq!(row.stderr, "");
}

#[test]
fn wrong_output_row_is_failed_not_error() {
    let tc = case(2, "2 3", "6");
    let row = test_case_result_of(&tc, &Ok("5".to_string()));
    assert_eq!(row.status, TestCaseStatus::Failed);
    assert_eq!(row.stdout, "5");
    assert_eq!(row.stderr, "");
}

#[test]
fn failed_run_row_carries_stderr_and_empty_stdout() {
    let tc = case(3, "1 0", "0");
    let row = test_case_result_of(
        &tc,
        &Err("Program terminated with signal: SIGFPE".to_string()),
    );
    assert_eq!(row.status, TestCaseStatus::Error);
    assert_eq!(row.stdout, "");
    assert_eq!(row.stderr, "Program terminated with signal: SIGFPE");
}

#[test]
fn verdict_names_match_the_store() {
    assert_eq!(get_test_case_run_status(TestCaseStatus::Error), "Error");
    assert_eq!(get_test_case_run_status(TestCaseStatus::Passed), "Passed");
    assert_eq!(get_test_case_run_status(TestCaseStatus::Failed), "Failed");
}

#[test]
fn stream_entries_correlate_by_serial_number() {
    let out = code_engine::domain::StdoutEntry { srno: 1, stdout: "5".to_string() };
    let err = code_engine::domain::StderrEntry { srno: 1, stderr: "boom".to_string() };
    assert_eq!(out.srno, err.srno);
    assert_eq!(out.stdout, "5");
    assert_eq!(err.stderr, "boom");
}
