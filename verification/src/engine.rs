//! The task orchestrator as a verified state machine. One engine drives one
//! dequeued task: insert the pending record, build the runner, initialize
//! and compile, run every test case in the caller-supplied order, write the
//! completed record, clean the artifacts up. The engine only decides; an
//! unverified driver performs each emitted action and hands the outcome
//! back as the next event.

use vstd::prelude::*;
use vstd::string::*;

use crate::domain::{
    CaseView, LifecycleState, RecordView, RowView, TaskRequest, TaskStatusRecord, TestCase,
    TestCaseResult, TestCaseStatus,
};
use crate::runner::{is_supported_lang, supported_lang};
use crate::verdict::{test_case_result_of, verdict_of};

verus! {

/// Where one task stands in its lifecycle. Every name but `Created` and
/// `Finished` is the action currently out with the driver.
#[derive(Debug, Clone, Copy, PartialEq, Eq, Structural)]
pub enum Phase {
    Created,
    Inserting,
    Initializing,
    Compiling,
    Running,
    Writing,
    CleaningUp,
    Finished,
}

/// What the driver is asked to do next.
#[derive(Debug, Clone, Copy, PartialEq, Eq, Structural)]
pub enum EngineAction {
    /// Persist the pending record.
    InsertPending,
    /// Write the source artifact.
    Initialize,
    /// Compile the source artifact.
    Compile,
    /// Run the test case with this index under the sandbox.
    Execute(usize),
    /// Persist the completed record.
    WriteCompleted,
    /// Delete both artifacts.
    Cleanup,
    /// The task failed before its normal end; the record stays as it is.
    Abort,
    /// Nothing is left to do.
    Idle,
}

/// What the driver reports back: the outcome of the action it performed.
#[derive(Debug)]
pub enum EngineEvent {
    Start,
    Inserted { ok: bool },
    Initialized { ok: bool },
    Compiled { result: Result<String, String> },
    Executed { result: Result<String, String> },
    Wrote { ok: bool },
    Cleaned { ok: bool },
}

/// The mathematical state of one engine.
#[verifier::ext_equal]
pub ghost struct EngineState {
    pub task_id: Seq<char>,
    pub lang: Seq<char>,
    pub cases: Seq<CaseView>,
    pub phase: Phase,
    pub next_case: nat,
    pub rows: Seq<RowView>,
    pub compiler_error_msg: Seq<char>,
    pub compile_failed: bool,
    pub aborted: bool,
    pub inserted: bool,
    pub write_issued: bool,
    pub cleanup_issued: bool,
}

/// The view of a sandbox or compile result.
pub open spec fn res_view(r: Result<String, String>) -> Result<Seq<char>, Seq<char>> {
    match r {
        Ok(s) => Ok(s@),
        Err(e) => Err(e@),
    }
}

/// The row recorded for one test case given the sandbox result.
pub open spec fn spec_row(tc: CaseView, outcome: Result<Seq<char>, Seq<char>>) -> RowView {
    match outcome {
        Ok(out) => RowView {
            srno: tc.srno,
            status: verdict_of(out, tc.expected),
            stdout: out,
            stderr: Seq::<char>::empty(),
        },
        Err(e) => RowView {
            srno: tc.srno,
            status: TestCaseStatus::Error,
            stdout: Seq::<char>::empty(),
            stderr: e,
        },
    }
}

impl EngineState {
    /// The engine's invariant: the rows recorded so far match the test
    /// cases already run, a failed compilation leaves no rows, and the
    /// lifecycle flags agree with the phase. In particular a run that
    /// finishes without aborting has inserted the pending record, written
    /// the completed record and issued the cleanup.
    pub open spec fn wf(self) -> bool {
        &&& self.next_case <= self.cases.len()
        &&& self.rows.len() == self.next_case
        &&& (forall|i: int|
            0 <= i < self.rows.len() ==> #[trigger] self.rows[i].srno == self.cases[i].srno)
        &&& (self.compile_failed ==> self.rows.len() == 0)
        &&& (!self.compile_failed ==> self.compiler_error_msg.len() == 0)
        &&& (self.phase == Phase::Created ==> !self.inserted && !self.aborted
            && !self.compile_failed && self.next_case == 0)
        &&& ((self.phase == Phase::Inserting || self.phase == Phase::Initializing || self.phase
            == Phase::Compiling) ==> self.inserted && !self.aborted && !self.compile_failed
            && self.next_case == 0)
        &&& (self.phase == Phase::Running ==> self.inserted && !self.aborted
            && !self.compile_failed && self.next_case < self.cases.len())
        &&& ((self.phase == Phase::Created || self.phase == Phase::Inserting || self.phase
            == Phase::Initializing || self.phase == Phase::Compiling || self.phase
            == Phase::Running) ==> !self.write_issued && !self.cleanup_issued)
        &&& (self.phase == Phase::Writing ==> self.inserted && self.write_issued
            && !self.cleanup_issued && !self.aborted && (!self.compile_failed ==> self.next_case
            == self.cases.len()) && (self.compile_failed ==> self.next_case == 0))
        &&& (self.phase == Phase::CleaningUp ==> self.inserted && self.write_issued
            && self.cleanup_issued && !self.aborted)
        &&& (self.aborted ==> self.phase == Phase::Finished)
        &&& (self.phase == Phase::Finished && !self.aborted ==> self.inserted
            && self.write_issued && self.cleanup_issued)
    }
}

/// One decision of the orchestrator: from the current state and the
/// reported event to the next state and the next action. An event that does
/// not answer the phase's outstanding action changes nothing.
pub open spec fn spec_step(s: EngineState, e: EngineEvent) -> (EngineState, EngineAction) {
    match (s.phase, e) {
        (Phase::Created, EngineEvent::Start) => (
            EngineState { phase: Phase::Inserting, inserted: true, ..s },
            EngineAction::InsertPending,
        ),
        (Phase::Inserting, EngineEvent::Inserted { ok }) => {
            if ok && supported_lang(s.lang) {
                (EngineState { phase: Phase::Initializing, ..s }, EngineAction::Initialize)
            } else {
                (EngineState { phase: Phase::Finished, aborted: true, ..s }, EngineAction::Abort)
            }
        },
        (Phase::Initializing, EngineEvent::Initialized { ok }) => {
            if ok {
                (EngineState { phase: Phase::Compiling, ..s }, EngineAction::Compile)
            } else {
                (EngineState { phase: Phase::Finished, aborted: true, ..s }, EngineAction::Abort)
            }
        },
        (Phase::Compiling, EngineEvent::Compiled { result }) => match result {
            Ok(_) => {
                if s.cases.len() == 0 {
                    (
                        EngineState { phase: Phase::Writing, write_issued: true, ..s },
                        EngineAction::WriteCompleted,
                    )
                } else {
                    (EngineState { phase: Phase::Running, ..s }, EngineAction::Execute(0))
                }
            },
            Err(err) => (
                EngineState {
                    phase: Phase::Writing,
                    compile_failed: true,
                    compiler_error_msg: err@,
                    write_issued: true,
                    ..s
                },
                EngineAction::WriteCompleted,
            ),
        },
        (Phase::Running, EngineEvent::Executed { result }) => {
            let rows2 = s.rows.push(spec_row(s.cases[s.next_case as int], res_view(result)));
            let nc = (s.next_case + 1) as nat;
            if nc < s.cases.len() {
                (
                    EngineState { next_case: nc, rows: rows2, ..s },
                    EngineAction::Execute(nc as usize),
                )
            } else {
                (
                    EngineState {
                        phase: Phase::Writing,
                        next_case: nc,
                        rows: rows2,
                        write_issued: true,
                        ..s
                    },
                    EngineAction::WriteCompleted,
                )
            }
        },
        (Phase::Writing, EngineEvent::Wrote { ok }) => {
            if ok {
                (
                    EngineState { phase: Phase::CleaningUp, cleanup_issued: true, ..s },
                    EngineAction::Cleanup,
                )
            } else {
                (EngineState { phase: Phase::Finished, aborted: true, ..s }, EngineAction::Abort)
            }
        },
        (Phase::CleaningUp, EngineEvent::Cleaned { ok }) => (
            EngineState { phase: Phase::Finished, aborted: !ok, ..s },
            EngineAction::Idle,
        ),
        _ => (s, EngineAction::Idle),
    }
}

/// One engine, driving one dequeued task.
#[derive(Debug)]
pub struct TaskEngine {
    pub task_id: String,
    pub request: TaskRequest,
    pub phase: Phase,
    pub next_case: usize,
    pub results: Vec<TestCaseResult>,
    pub compiler_error_msg: String,
    pub compile_failed: bool,
    pub aborted: bool,
    pub inserted: bool,
    pub write_issued: bool,
    pub cleanup_issued: bool,
}

impl View for TaskEngine {
    type V = EngineState;

    open spec fn view(&self) -> EngineState {
        EngineState {
            task_id: self.task_id@,
            lang: self.request.lang@,
            cases: self.request.test_cases@.map_values(|tc: TestCase| tc@),
            phase: self.phase,
            next_case: self.next_case as nat,
            rows: self.results@.map_values(|r: TestCaseResult| r@),
            compiler_error_msg: self.compiler_error_msg@,
            compile_failed: self.compile_failed,
            aborted: self.aborted,
            inserted: self.inserted,
            write_issued: self.write_issued,
            cleanup_issued: self.cleanup_issued,
        }
    }
}

/// The pending record an engine's task starts with.
pub open spec fn spec_pending_record(s: EngineState) -> RecordView {
    RecordView {
        task_id: s.task_id,
        compiler_error_msg: Seq::<char>::empty(),
        state: LifecycleState::Pending,
        rows: Seq::<RowView>::empty(),
    }
}

/// The completed record an engine's task ends with: the compiler error text
/// (empty unless compilation failed) and the rows recorded so far.
pub open spec fn spec_completed_record(s: EngineState) -> RecordView {
    RecordView {
        task_id: s.task_id,
        compiler_error_msg: s.compiler_error_msg,
        state: LifecycleState::Completed,
        rows: s.rows,
    }
}

impl TaskEngine {
    /// Builds the engine for one dequeued task, before anything has been
    /// done for it.
    pub fn new(task_id: String, request: TaskRequest) -> (e: TaskEngine)
        ensures
            e@.task_id == task_id@,
            e@.lang == request.lang@,
            e@.cases == request.test_cases@.map_values(|tc: TestCase| tc@),
            e@.phase == Phase::Created,
            e@.next_case == 0,
            e@.rows == Seq::<RowView>::empty(),
            e@.compiler_error_msg == Seq::<char>::empty(),
            !e@.compile_failed,
            !e@.aborted,
            !e@.inserted,
            !e@.write_issued,
            !e@.cleanup_issued,
            e@.wf(),
    {
        let e = TaskEngine {
            task_id,
            request,
            phase: Phase::Created,
            next_case: 0,
            results: Vec::new(),
            compiler_error_msg: String::new(),
            compile_failed: false,
            aborted: false,
            inserted: false,
            write_issued: false,
            cleanup_issued: false,
        };
        proof {
            assert(e@.rows =~= Seq::<RowView>::empty());
        }
        e
    }

    /// Makes one decision: consumes the reported event, moves to the next
    /// state, and returns the next action, exactly as `spec_step` says.
    pub fn step(&mut self, event: EngineEvent) -> (a: EngineAction)
        requires
            old(self)@.wf(),
        ensures
            final(self)@ == spec_step(old(self)@, event).0,
            a == spec_step(old(self)@, event).1,
            final(self)@.wf(),
    {
        match (self.phase, event) {
            (Phase::Created, EngineEvent::Start) => {
                self.phase = Phase::Inserting;
                self.inserted = true;
                proof {
                    assert(self@ =~= spec_step(old(self)@, event).0);
                }
                EngineAction::InsertPending
            },
            (Phase::Inserting, EngineEvent::Inserted { ok }) => {
                if ok && is_supported_lang(self.request.lang.as_str()) {
                    self.phase = Phase::Initializing;
                    proof {
                        assert(self@ =~= spec_step(old(self)@, event).0);
                    }
                    EngineAction::Initialize
                } else {
                    self.phase = Phase::Finished;
                    self.aborted = true;
                    proof {
                        assert(self@ =~= spec_step(old(self)@, event).0);
                    }
                    EngineAction::Abort
                }
            },
            (Phase::Initializing, EngineEvent::Initialized { ok }) => {
                if ok {
                    self.phase = Phase::Compiling;
                    proof {
                        assert(self@ =~= spec_step(old(self)@, event).0);
                    }
                    EngineAction::Compile
                } else {
                    self.phase = Phase::Finished;
                    self.aborted = true;
                    proof {
                        assert(self@ =~= spec_step(old(self)@, event).0);
                    }
                    EngineAction::Abort
                }
            },
            (Phase::Compiling, EngineEvent::Compiled { result }) => match result {
                Ok(note) => {
                    if self.request.test_cases.len() == 0 {
                        self.phase = Phase::Writing;
                        self.write_issued = true;
                        proof {
                            assert(self@ =~= spec_step(old(self)@, event).0);
                        }
                        EngineAction::WriteCompleted
                    } else {
                        self.phase = Phase::Running;
                        proof {
                            assert(self@ =~= spec_step(old(self)@, event).0);
                        }
                        EngineAction::Execute(0)
                    }
                },
                Err(err) => {
                    self.phase = Phase::Writing;
                    self.compile_failed = true;
                    self.compiler_error_msg = err;
                    self.write_issued = true;
                    proof {
                        assert(self@ =~= spec_step(old(self)@, event).0);
                    }
                    EngineAction::WriteCompleted
                },
            },
            (Phase::Running, EngineEvent::Executed { result }) => {
                let total = self.request.test_cases.len();
                let row = test_case_result_of(&self.request.test_cases[self.next_case], &result);
                proof {
                    assert(row@ =~= spec_row(
                        self@.cases[self@.next_case as int],
                        res_view(result),
                    ));
                }
                self.results.push(row);
                proof {
                    assert(self.next_case < total);
                }
                self.next_case = self.next_case + 1;
                proof {
                    assert(self@.rows =~= old(self)@.rows.push(
                        spec_row(old(self)@.cases[old(self)@.next_case as int], res_view(result)),
                    ));
                }
                if self.next_case < self.request.test_cases.len() {
                    proof {
                        assert(self@ =~= spec_step(old(self)@, event).0);
                    }
                    EngineAction::Execute(self.next_case)
                } else {
                    self.phase = Phase::Writing;
                    self.write_issued = true;
                    proof {
                        assert(self@ =~= spec_step(old(self)@, event).0);
                    }
                    EngineAction::WriteCompleted
                }
            },
            (Phase::Writing, EngineEvent::Wrote { ok }) => {
                if ok {
                    self.phase = Phase::CleaningUp;
                    self.cleanup_issued = true;
                    proof {
                        assert(self@ =~= spec_step(old(self)@, event).0);
                    }
                    EngineAction::Cleanup
                } else {
                    self.phase = Phase::Finished;
                    self.aborted = true;
                    proof {
                        assert(self@ =~= spec_step(old(self)@, event).0);
                    }
                    EngineAction::Abort
                }
            },
            (Phase::CleaningUp, EngineEvent::Cleaned { ok }) => {
                self.phase = Phase::Finished;
                self.aborted = !ok;
                proof {
                    assert(self@ =~= spec_step(old(self)@, event).0);
                }
                EngineAction::Idle
            },
            (_, _) => {
                proof {
                    assert(self@ =~= old(self)@);
                }
                EngineAction::Idle
            },
        }
    }

    /// Whether the task has finished without aborting: its record was
    /// completed and its artifacts were cleaned up.
    pub fn finished_clean(&self) -> (b: bool)
        ensures
            b == (self@.phase == Phase::Finished && !self@.aborted),
    {
        self.phase == Phase::Finished && !self.aborted
    }

    /// The record the task starts with: state `Pending`, no rows, no
    /// compiler message.
    pub fn pending_record(&self) -> (r: TaskStatusRecord)
        ensures
            r@ == spec_pending_record(self@),
    {
        let r = TaskStatusRecord {
            task_id: self.task_id.clone(),
            compiler_error_msg: String::new(),
            state: LifecycleState::Pending,
            test_case_results: Vec::new(),
        };
        proof {
            assert(r@ =~= spec_pending_record(self@));
        }
        r
    }

    /// The record the task ends with: state `Completed`, the compiler
    /// message (empty unless compilation failed), and the rows recorded so
    /// far.
    pub fn completed_record(&self) -> (r: TaskStatusRecord)
        ensures
            r@ == spec_completed_record(self@),
    {
        let mut rows: Vec<TestCaseResult> = Vec::new();
        let mut i: usize = 0;
        while i < self.results.len()
            invariant
                i <= self.results.len(),
                rows@.len() == i as int,
                forall|j: int| 0 <= j < i as int ==> rows@[j]@ == self.results@[j]@,
            decreases self.results.len() - i,
        {
            let x = &self.results[i];
            let copy = TestCaseResult {
                srno: x.srno,
                status: x.status,
                stdout: x.stdout.clone(),
                stderr: x.stderr.clone(),
            };
            proof {
                assert(copy@ =~= self.results@[i as int]@);
            }
            rows.push(copy);
            i = i + 1;
        }
        let r = TaskStatusRecord {
            task_id: self.task_id.clone(),
            compiler_error_msg: self.compiler_error_msg.clone(),
            state: LifecycleState::Completed,
            test_case_results: rows,
        };
        proof {
            assert(r@.rows =~= self@.rows);
            assert(r@ =~= spec_completed_record(self@));
        }
        r
    }
}

/// The state after a whole run: the events folded over `spec_step`.
pub open spec fn run_steps(s: EngineState, events: Seq<EngineEvent>) -> EngineState
    decreases events.len(),
{
    if events.len() == 0 {
        s
    } else {
        run_steps(spec_step(s, events[0]).0, events.drop_first())
    }
}

/// The actions a whole run emits, in order.
pub open spec fn run_actions(s: EngineState, events: Seq<EngineEvent>) -> Seq<EngineAction>
    decreases events.len(),
{
    if events.len() == 0 {
        Seq::<EngineAction>::empty()
    } else {
        seq![spec_step(s, events[0]).1] + run_actions(spec_step(s, events[0]).0, events.drop_first())
    }
}

/// How often an action occurs in an emitted sequence.
pub open spec fn count_actions(acts: Seq<EngineAction>, a: EngineAction) -> int
    decreases acts.len(),
{
    if acts.len() == 0 {
        0
    } else {
        (if acts[0] == a {
            1int
        } else {
            0int
        }) + count_actions(acts.drop_first(), a)
    }
}

/// One as an integer for true, zero for false.
pub open spec fn b2i(b: bool) -> int {
    if b {
        1
    } else {
        0
    }
}

/// Every decision preserves the engine's invariant.
pub proof fn lemma_step_preserves_wf(s: EngineState, e: EngineEvent)
    requires
        s.wf(),
    ensures
        spec_step(s, e).0.wf(),
{
}

/// A whole run preserves the engine's invariant.
pub proof fn lemma_run_preserves_wf(s: EngineState, events: Seq<EngineEvent>)
    requires
        s.wf(),
    ensures
        run_steps(s, events).wf(),
    decreases events.len(),
{
    if events.len() > 0 {
        lemma_step_preserves_wf(s, events[0]);
        lemma_run_preserves_wf(spec_step(s, events[0]).0, events.drop_first());
    }
}

/// Over a whole run, the number of pending-record inserts emitted is the
/// change of the `inserted` flag: the insert happens when and only when the
/// flag goes up, and the flag never goes down.
proof fn lemma_insert_count(s: EngineState, events: Seq<EngineEvent>)
    requires
        s.wf(),
    ensures
        count_actions(run_actions(s, events), EngineAction::InsertPending) == b2i(
            run_steps(s, events).inserted,
        ) - b2i(s.inserted),
    decreases events.len(),
{
    if events.len() > 0 {
        lemma_step_preserves_wf(s, events[0]);
        lemma_insert_count(spec_step(s, events[0]).0, events.drop_first());
        let a0 = spec_step(s, events[0]).1;
        let rest = run_actions(spec_step(s, events[0]).0, events.drop_first());
        assert(run_actions(s, events) == seq![a0] + rest);
        assert((seq![a0] + rest)[0] == a0);
        assert((seq![a0] + rest).drop_first() =~= rest);
    }
}

/// Over a whole run, the number of completed-record writes emitted is the
/// change of the `write_issued` flag.
proof fn lemma_write_count(s: EngineState, events: Seq<EngineEvent>)
    requires
        s.wf(),
    ensures
        count_actions(run_actions(s, events), EngineAction::WriteCompleted) == b2i(
            run_steps(s, events).write_issued,
        ) - b2i(s.write_issued),
    decreases events.len(),
{
    if events.len() > 0 {
        lemma_step_preserves_wf(s, events[0]);
        lemma_write_count(spec_step(s, events[0]).0, events.drop_first());
        let a0 = spec_step(s, events[0]).1;
        let rest = run_actions(spec_step(s, events[0]).0, events.drop_first());
        assert(run_actions(s, events) == seq![a0] + rest);
        assert((seq![a0] + rest)[0] == a0);
        assert((seq![a0] + rest).drop_first() =~= rest);
    }
}

/// Over a whole run, the number of cleanups emitted is the change of the
/// `cleanup_issued` flag.
proof fn lemma_cleanup_count(s: EngineState, events: Seq<EngineEvent>)
    requires
        s.wf(),
    ensures
        count_actions(run_actions(s, events), EngineAction::Cleanup) == b2i(
            run_steps(s, events).cleanup_issued,
        ) - b2i(s.cleanup_issued),
    decreases events.len(),
{
    if events.len() > 0 {
        lemma_step_preserves_wf(s, events[0]);
        lemma_cleanup_count(spec_step(s, events[0]).0, events.drop_first());
        let a0 = spec_step(s, events[0]).1;
        let rest = run_actions(spec_step(s, events[0]).0, events.drop_first());
        assert(run_actions(s, events) == seq![a0] + rest);
        assert((seq![a0] + rest)[0] == a0);
        assert((seq![a0] + rest).drop_first() =~= rest);
    }
}

/// A task's persisted record goes from pending to completed exactly once.
/// Whatever events a run from a fresh engine receives, it emits at most one
/// pending insert and at most one completed write; and a run that finishes
/// without aborting emits exactly one of each.
pub proof fn lemma_record_lifecycle_once(s: EngineState, events: Seq<EngineEvent>)
    requires
        s.wf(),
        !s.inserted,
        !s.write_issued,
    ensures
        0 <= count_actions(run_actions(s, events), EngineAction::InsertPending) <= 1,
        0 <= count_actions(run_actions(s, events), EngineAction::WriteCompleted) <= 1,
        run_steps(s, events).phase == Phase::Finished && !run_steps(s, events).aborted ==> {
            &&& count_actions(run_actions(s, events), EngineAction::InsertPending) == 1
            &&& count_actions(run_actions(s, events), EngineAction::WriteCompleted) == 1
        },
{
    lemma_run_preserves_wf(s, events);
    lemma_insert_count(s, events);
    lemma_write_count(s, events);
}

/// Cleanup runs after every task that reaches its normal end — whether
/// compilation succeeded, compilation failed, or test cases errored — and
/// never twice: a run from a fresh engine emits at most one cleanup, and a
/// run that finishes without aborting emits exactly one.
pub proof fn lemma_cleanup_on_every_exit(s: EngineState, events: Seq<EngineEvent>)
    requires
        s.wf(),
        !s.cleanup_issued,
    ensures
        0 <= count_actions(run_actions(s, events), EngineAction::Cleanup) <= 1,
        run_steps(s, events).phase == Phase::Finished && !run_steps(s, events).aborted
            ==> count_actions(run_actions(s, events), EngineAction::Cleanup) == 1,
{
    lemma_run_preserves_wf(s, events);
    lemma_cleanup_count(s, events);
}

/// A task whose compilation fails is completed at once with an empty result
/// list and the compiler's error text as its message; the message is
/// non-empty whenever that text is.
pub proof fn lemma_compile_failure_record(s: EngineState, err: String)
    requires
        s.wf(),
        s.phase == Phase::Compiling,
    ensures
        ({
            let s2 = spec_step(s, EngineEvent::Compiled { result: Err(err) }).0;
            &&& spec_step(s, EngineEvent::Compiled { result: Err(err) }).1
                == EngineAction::WriteCompleted
            &&& spec_completed_record(s2).state == LifecycleState::Completed
            &&& spec_completed_record(s2).rows.len() == 0
            &&& spec_completed_record(s2).compiler_error_msg == err@
            &&& err@.len() > 0 ==> spec_completed_record(s2).compiler_error_msg.len() > 0
        }),
{
}

/// A task whose compilation succeeds is completed with one row per test
/// case, in the caller-supplied order, and an empty compiler message: when
/// a run reaches its completed write without a compile failure, the record
/// holds exactly the rows of the test cases already run.
pub proof fn lemma_success_record_shape(s: EngineState)
    requires
        s.wf(),
        s.phase == Phase::Writing,
        !s.compile_failed,
    ensures
        spec_completed_record(s).rows.len() == s.cases.len(),
        forall|i: int|
            0 <= i < s.cases.len() ==> #[trigger] spec_completed_record(s).rows[i].srno
                == s.cases[i].srno,
        spec_completed_record(s).compiler_error_msg.len() == 0,
        spec_completed_record(s).state == LifecycleState::Completed,
{
}

} // verus!
