use code_engine::domain::{TestRunRequest, TestRunStatus};
use code_engine::testrun::{initial_test_run_response, test_run_response};

fn req() -> TestRunRequest {
    TestRunRequest {
        lang: "cpp".to_string(),
        source_code: "int main() {}".to_string(),
        stdin: "".to_string(),
    }
}

#[test]
fn initial_response_is_empty() {
    let r = initial_test_run_response(&req());
    assert_eq!(r.lang, "cpp");
    assert_eq!(r.compiler_err, "");
    assert_eq!(r.stdout, "");
    assert_eq!(r.stderr, "");
    assert_eq!(r.status, TestRunStatus::Initial);
}

#[test]
fn compile_failure_is_terminal() {
    let r = test_run_response(
        &req(),
        &Err("error: expected expression".to_string()),
        &None,
    );
    assert_eq!(r.status, TestRunStatus::CompilerError);
    assert_eq!(r.compiler_err, "error: expected expression");
    assert_eq!(r.stdout, "");
    assert_eq!(r.stderr, "");
}

#[test]
fn successful_execution_carries_stdout() {
    let r = test_run_response(
        &req(),
        &Ok("Compilation successful".to_string()),
        &Some(Ok("hello\n".to_string())),
    );
    assert_eq!(r.status, TestRunStatus::Executed);
    assert_eq!(r.stdout, "hello\n");
    assert_eq!(r.compiler_err, "");
    assert_eq!(r.stderr, "");
}

#[test]
fn runtime_error_carries_stderr() {
    let r = test_run_response(
        &req(),
        &Ok("Compilation successful".to_string()),
        &Some(Err("Process timed out and killed".to_string())),
    );
    assert_eq!(r.status, TestRunStatus::RuntimeError);
    assert_eq!(r.stderr, "Process timed out and killed");
    assert_eq!(r.stdout, "");
    assert_eq!(r.compiler_err, "");
}
