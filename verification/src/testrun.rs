//! The synchronous test-run variant: one program, one stdin, no queuing and
//! no persistence. Its terminal state is decided by the compile result and,
//! when compilation succeeded, the execution result.

use vstd::prelude::*;
use vstd::string::*;

use crate::domain::{TestRunRequest, TestRunResponse, TestRunStatus};

verus! {

/// The pre-run response: empty streams and the `Initial` state.
pub fn initial_test_run_response(req: &TestRunRequest) -> (r: TestRunResponse)
    ensures
        r.lang@ == req.lang@,
        r.compiler_err@ == Seq::<char>::empty(),
        r.stdout@ == Seq::<char>::empty(),
        r.stderr@ == Seq::<char>::empty(),
        r.status == TestRunStatus::Initial,
{
    TestRunResponse {
        lang: req.lang.clone(),
        compiler_err: String::new(),
        stdout: String::new(),
        stderr: String::new(),
        status: TestRunStatus::Initial,
    }
}

/// Resolves a synchronous test run. A failed compilation is terminal with
/// the compiler's error text; otherwise the single execution decides between
/// the terminal success state and the terminal runtime-error state.
pub fn test_run_response(
    req: &TestRunRequest,
    compile: &Result<String, String>,
    execution: &Option<Result<String, String>>,
) -> (r: TestRunResponse)
    requires
        compile is Ok <==> execution is Some,
    ensures
        r.lang@ == req.lang@,
        compile matches Err(e) ==> {
            &&& r.status == TestRunStatus::CompilerError
            &&& r.compiler_err@ == e@
            &&& r.stdout@ == Seq::<char>::empty()
            &&& r.stderr@ == Seq::<char>::empty()
        },
        execution matches Some(outcome) ==> match outcome {
            Ok(out) => {
                &&& r.status == TestRunStatus::Executed
                &&& r.stdout@ == out@
                &&& r.compiler_err@ == Seq::<char>::empty()
                &&& r.stderr@ == Seq::<char>::empty()
            },
            Err(e) => {
                &&& r.status == TestRunStatus::RuntimeError
                &&& r.stderr@ == e@
                &&& r.compiler_err@ == Seq::<char>::empty()
                &&& r.stdout@ == Seq::<char>::empty()
            },
        },
{
    match compile {
        Err(e) => TestRunResponse {
            lang: req.lang.clone(),
            compiler_err: e.clone(),
            stdout: String::new(),
            stderr: String::new(),
            status: TestRunStatus::CompilerError,
        },
        Ok(_) => match execution {
            Some(Ok(out)) => TestRunResponse {
                lang: req.lang.clone(),
                compiler_err: String::new(),
                stdout: out.clone(),
                stderr: String::new(),
                status: TestRunStatus::Executed,
            },
            Some(Err(e)) => TestRunResponse {
                lang: req.lang.clone(),
                compiler_err: String::new(),
                stdout: String::new(),
                stderr: e.clone(),
                status: TestRunStatus::RuntimeError,
            },
            None => TestRunResponse {
                lang: req.lang.clone(),
                compiler_err: String::new(),
                stdout: String::new(),
                stderr: String::new(),
                status: TestRunStatus::Initial,
            },
        },
    }
}

} // verus!
