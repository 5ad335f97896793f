use code_engine::classifier::{classify_execution, classify_outcome, RawOutcome, Termination};

fn outcome(termination: Termination, stdout: &[u8], stderr: &[u8]) -> RawOutcome {
    RawOutcome { termination, stdout: stdout.to_vec(), stderr: stderr.to_vec() }
}

#[test]
fn stderr_text_takes_precedence_over_signal() {
    let o = outcome(Termination::Signaled(11), b"", b"boom");
    let r = classify_outcome(&o);
    assert_eq!(r, Err("boom".to_string()));
}

#[test]
fn sigfpe_is_named_when_stderr_is_empty() {
    let o = outcome(Termination::Signaled(8), b"", b"");
    let r = classify_outcome(&o);
    assert_eq!(r, Err("Program terminated with signal: SIGFPE".to_string()));
}

#[test]
fn sigsegv_is_named_when_stderr_is_empty() {
    let o = outcome(Termination::Signaled(11), b"", b"");
    let r = classify_outcome(&o);
    assert_eq!(r, Err("Program terminated with signal: SIGSEGV".to_string()));
}

#[test]
fn unrecognized_signal_reports_unknown() {
    let o = outcome(Termination::Signaled(9), b"", b"");
    let r = classify_outcome(&o);
    assert_eq!(r, Err("Program terminated with signal: Unknown Signal".to_string()));
}

#[test]
fn exit_code_is_reported_when_streams_are_empty() {
    let o = outcome(Termination::Exited(42), b"", b"");
    let r = classify_outcome(&o);
    assert_eq!(r, Err("Program terminated with code: 42".to_string()));
}

#[test]
fn negative_exit_code_is_reported() {
    let o = outcome(Termination::Exited(-7), b"", b"");
    let r = classify_outcome(&o);
    assert_eq!(r, Err("Program terminated with code: -7".to_string()));
}

#[test]
fn successful_exit_returns_stdout() {
    let o = outcome(Termination::Exited(0), b"5\n", b"");
    let r = classify_outcome(&o);
    assert_eq!(r, Ok("5\n".to_string()));
}

#[test]
fn successful_exit_with_invalid_stdout_falls_through() {
    let o = outcome(Termination::Exited(0), &[0xff, 0xfe], b"");
    let r = classify_outcome(&o);
    assert_eq!(r, Err("Program terminated with code: 0".to_string()));
}

#[test]
fn stderr_text_takes_precedence_over_exit_code() {
    let o = outcome(Termination::Exited(3), b"", b"oops");
    let r = classify_outcome(&o);
    assert_eq!(r, Err("oops".to_string()));
}

#[test]
fn timed_out_run_is_reported_killed() {
    let r = classify_execution(None);
    assert_eq!(r, Err("Process timed out and killed".to_string()));
}

#[test]
fn finished_run_is_classified() {
    let o = outcome(Termination::Exited(0), b"ok", b"");
    let r = classify_execution(Some(o));
    assert_eq!(r, Ok("ok".to_string()));
}
