//! Process-outcome classifier: the deterministic mapping from a finished
//! child process's exit status, signal, and captured streams to a typed
//! result, with diagnostic text always preferred over signal or exit-code
//! inference.

use vstd::prelude::*;
use vstd::string::*;
use vstd::utf8::{decode_utf8, valid_utf8};

use crate::text::{
    bytes_to_text, bytes_to_text_lossy, dec_rep, i32_dec, int_rep, lossy_text_of,
};

verus! {

/// Fault-signal numbers as delivered on Linux.
pub const SIGILL: i32 = 4;

pub const SIGABRT: i32 = 6;

pub const SIGBUS: i32 = 7;

pub const SIGFPE: i32 = 8;

pub const SIGSEGV: i32 = 11;

/// How a finished child process terminated: a normal exit with a code, or
/// termination by a signal.
#[derive(Debug, Clone, Copy, PartialEq, Eq, Structural)]
pub enum Termination {
    Exited(i32),
    Signaled(i32),
}

/// The raw outcome of a finished child process: its termination and the two
/// captured byte streams.
#[derive(Debug, Clone)]
pub struct RawOutcome {
    pub termination: Termination,
    pub stdout: Vec<u8>,
    pub stderr: Vec<u8>,
}

/// Whether the termination counts as a successful exit.
pub open spec fn is_success(t: Termination) -> bool {
    t == Termination::Exited(0i32)
}

/// The name under which a fault signal is reported; every other signal is
/// reported as unknown.
pub open spec fn signal_name(sig: int) -> Seq<char> {
    if sig == SIGFPE {
        "SIGFPE"@
    } else if sig == SIGSEGV {
        "SIGSEGV"@
    } else if sig == SIGILL {
        "SIGILL"@
    } else if sig == SIGABRT {
        "SIGABRT"@
    } else if sig == SIGBUS {
        "SIGBUS"@
    } else {
        "Unknown Signal"@
    }
}

/// The diagnostic for a termination by a signal.
pub open spec fn signal_msg(sig: int) -> Seq<char> {
    "Program terminated with signal: "@ + signal_name(sig)
}

/// The diagnostic for a normal exit whose code is reported.
pub open spec fn code_msg(code: int) -> Seq<char> {
    "Program terminated with code: "@ + int_rep(code)
}

/// The diagnostic for a run that was killed on timeout.
pub open spec fn timeout_msg() -> Seq<char> {
    "Process timed out and killed"@
}

/// The classification of a finished outcome, in its fixed precedence:
/// a successful exit whose output decodes as text wins; otherwise non-empty
/// error-stream text; otherwise a signal diagnostic; otherwise the exit code.
pub open spec fn classified(t: Termination, out: Seq<u8>, err: Seq<u8>) -> Result<
    Seq<char>,
    Seq<char>,
> {
    if is_success(t) && valid_utf8(out) {
        Ok(decode_utf8(out))
    } else if err.len() > 0 {
        Err(lossy_text_of(err))
    } else {
        match t {
            Termination::Signaled(sig) => Err(signal_msg(sig as int)),
            Termination::Exited(code) => Err(code_msg(code as int)),
        }
    }
}

/// Renders the diagnostic for a termination by a signal.
fn signal_message(sig: i32) -> (r: String)
    ensures
        r@ == signal_msg(sig as int),
{
    let mut s = String::from_str("Program terminated with signal: ");
    if sig == SIGFPE {
        s.append("SIGFPE");
    } else if sig == SIGSEGV {
        s.append("SIGSEGV");
    } else if sig == SIGILL {
        s.append("SIGILL");
    } else if sig == SIGABRT {
        s.append("SIGABRT");
    } else if sig == SIGBUS {
        s.append("SIGBUS");
    } else {
        s.append("Unknown Signal");
    }
    proof {
        assert(s@ =~= signal_msg(sig as int));
    }
    s
}

/// Renders the diagnostic for a normal exit with the given code.
fn code_message(code: i32) -> (r: String)
    ensures
        r@ == code_msg(code as int),
{
    let mut s = String::from_str("Program terminated with code: ");
    let digits = i32_dec(code);
    s.append(digits.as_str());
    proof {
        assert(s@ =~= code_msg(code as int));
    }
    s
}

/// Classifies a finished outcome exactly as `classified` says, and every
/// error it reports is non-empty.
pub fn classify_outcome(o: &RawOutcome) -> (r: Result<String, String>)
    ensures
        r is Ok <==> classified(o.termination, o.stdout@, o.stderr@) is Ok,
        r matches Ok(s) ==> classified(o.termination, o.stdout@, o.stderr@) == Ok::<Seq<char>,
            Seq<char>,
        >(s@),
        r matches Err(e) ==> classified(o.termination, o.stdout@, o.stderr@) == Err::<Seq<char>,
            Seq<char>,
        >(e@),
        r matches Err(e) ==> e@.len() > 0,
{
    let success = match o.termination {
        Termination::Exited(code) => code == 0,
        Termination::Signaled(_) => false,
    };
    if success {
        if let Some(out) = bytes_to_text(&o.stdout) {
            return Ok(out);
        }
    }
    if o.stderr.len() > 0 {
        let err = bytes_to_text_lossy(&o.stderr);
        return Err(err);
    }
    match o.termination {
        Termination::Signaled(sig) => {
            let msg = signal_message(sig);
            proof {
                reveal_strlit("Program terminated with signal: ");
            }
            Err(msg)
        },
        Termination::Exited(code) => {
            let msg = code_message(code);
            proof {
                reveal_strlit("Program terminated with code: ");
                let m: nat = if code < 0 {
                    (-(code as int)) as nat
                } else {
                    code as nat
                };
                crate::text::lemma_dec_rep_nonempty(m);
            }
            Err(msg)
        },
    }
}

/// The result of one sandboxed run: the classified outcome when the child
/// finished, the timeout diagnostic when it had to be killed.
pub fn classify_execution(finished: Option<RawOutcome>) -> (r: Result<String, String>)
    ensures
        finished is None ==> (r matches Err(e) && e@ == timeout_msg()),
        finished matches Some(o) ==> {
            &&& r is Ok <==> classified(o.termination, o.stdout@, o.stderr@) is Ok
            &&& (r matches Ok(s) ==> classified(o.termination, o.stdout@, o.stderr@) == Ok::<
                Seq<char>,
                Seq<char>,
            >(s@))
            &&& (r matches Err(e) ==> classified(o.termination, o.stdout@, o.stderr@) == Err::<
                Seq<char>,
                Seq<char>,
            >(e@))
        },
        r matches Err(e) ==> e@.len() > 0,
{
    match finished {
        None => {
            let msg = String::from_str("Process timed out and killed");
            proof {
                reveal_strlit("Process timed out and killed");
            }
            Err(msg)
        },
        Some(o) => classify_outcome(&o),
    }
}

} // verus!
