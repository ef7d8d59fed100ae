//! The state kept about the `bin/pipe` runner process: whether its stdin is
//! still open, the output it wrote, its exit code once known, and the id of
//! the request it is serving. The process itself is driven by the caller,
//! which reports here what it observed.

use vstd::prelude::*;
use vstd::string::*;

use crate::error::{Error, ErrorView};
use crate::message::{message_of, Elapsed, RunnerMessage, RunnerOutput, RunnerState};
use crate::text::{contains, has_infix};

verus! {

/// The exit code reported when the real one cannot be learned.
pub const UNKNOWN_EXIT: i32 = -99;

/// The line the runner writes to stdout once the algorithm is loaded.
pub const PIPE_INIT_COMPLETE: &'static str = "PIPE_INIT_COMPLETE";

/// What a wait on the runner process observed.
pub enum WaitOutcome {
    /// The wait itself failed.
    Failed,
    /// The process exited, with this code if it had one.
    Exited(Option<i32>),
    /// The process was still running when the wait gave up.
    Running,
}

/// State of the runner process.
pub struct LangRunnerProcess {
    stdin_open: bool,
    stdout_buf: String,
    stderr_buf: String,
    exit_status: Option<i32>,
    request_id: Option<String>,
}

/// The mathematical value of a [`LangRunnerProcess`].
pub struct RunnerView {
    pub stdin_open: bool,
    pub stdout: Seq<char>,
    pub stderr: Seq<char>,
    pub exit_status: Option<i32>,
    pub request_id: Option<Seq<char>>,
}

impl View for LangRunnerProcess {
    type V = RunnerView;

    closed spec fn view(&self) -> RunnerView {
        RunnerView {
            stdin_open: self.stdin_open,
            stdout: self.stdout_buf@,
            stderr: self.stderr_buf@,
            exit_status: self.exit_status,
            request_id: match self.request_id {
                Some(s) => Some(s@),
                None => None,
            },
        }
    }
}

/// The code of an exit, or [`UNKNOWN_EXIT`] for an exit without one.
pub open spec fn code_or_unknown(code: Option<i32>) -> i32 {
    match code {
        Some(c) => c,
        None => UNKNOWN_EXIT,
    }
}

/// What a short poll of a runner whose exit was not yet known tells.
pub open spec fn polled(outcome: WaitOutcome) -> Option<i32> {
    match outcome {
        WaitOutcome::Failed => Some(UNKNOWN_EXIT),
        WaitOutcome::Exited(code) => Some(code_or_unknown(code)),
        WaitOutcome::Running => None,
    }
}

/// What [`LangRunnerProcess::check_exited`] answers.
pub open spec fn check_result(v: RunnerView, outcome: WaitOutcome) -> Option<i32> {
    match v.exit_status {
        Some(code) => Some(code),
        None => polled(outcome),
    }
}

/// The state after [`LangRunnerProcess::check_exited`].
pub open spec fn after_check(v: RunnerView, outcome: WaitOutcome) -> RunnerView {
    RunnerView { exit_status: check_result(v, outcome), ..v }
}

/// The exit code of a runner that was stopped: a failed wait and a runner
/// that had to be killed give [`UNKNOWN_EXIT`].
pub open spec fn stopped(outcome: WaitOutcome) -> i32 {
    match outcome {
        WaitOutcome::Failed => UNKNOWN_EXIT,
        WaitOutcome::Exited(code) => code_or_unknown(code),
        WaitOutcome::Running => UNKNOWN_EXIT,
    }
}

/// What [`LangRunnerProcess::stop`] answers.
pub open spec fn stop_result(v: RunnerView, outcome: WaitOutcome) -> i32 {
    match v.exit_status {
        Some(code) => code,
        None => stopped(outcome),
    }
}

/// The state after [`LangRunnerProcess::stop`]: stdin is closed and the exit
/// code recorded, unless the exit was already known.
pub open spec fn after_stop(v: RunnerView, outcome: WaitOutcome) -> RunnerView {
    match v.exit_status {
        Some(_) => v,
        None => RunnerView { stdin_open: false, exit_status: Some(stopped(outcome)), ..v },
    }
}

/// The state after [`LangRunnerProcess::take_stdio`]: both buffers empty.
pub open spec fn after_take(v: RunnerView) -> RunnerView {
    RunnerView { stdout: Seq::empty(), stderr: Seq::empty(), ..v }
}

/// The state after a request was finished: output handed out, no request.
pub open spec fn after_finish(v: RunnerView) -> RunnerView {
    RunnerView { stdout: Seq::empty(), stderr: Seq::empty(), request_id: None, ..v }
}

/// The error for a runner whose answer stream ended without an answer.
pub fn end_of_output_error() -> (e: Error)
    ensures
        e@ == ErrorView::Unexpected("No more JSON to read from the stream"@),
{
    Error::Unexpected("No more JSON to read from the stream".to_owned())
}

/// A line read from stdout while the runner loads, without its last
/// character (the line break).
pub open spec fn startup_text(raw: Seq<char>) -> Seq<char> {
    raw.drop_last()
}

/// Whether a line read while loading announces that loading completed.
pub open spec fn announces_init(raw: Seq<char>) -> bool {
    has_infix(startup_text(raw), PIPE_INIT_COMPLETE@)
}

/// The state after a line read from stdout while the runner loads: output
/// other than the announcement is kept, one line per line.
pub open spec fn after_startup_line(v: RunnerView, raw: Seq<char>) -> RunnerView {
    if announces_init(raw) {
        v
    } else {
        RunnerView { stdout: v.stdout + startup_text(raw) + seq!['\n'], ..v }
    }
}

impl LangRunnerProcess {
    /// A runner that was just spawned: stdin open, nothing captured, exit
    /// unknown, no request.
    pub fn new() -> (p: LangRunnerProcess)
        ensures
            p@ == (RunnerView {
                stdin_open: true,
                stdout: Seq::empty(),
                stderr: Seq::empty(),
                exit_status: None,
                request_id: None,
            }),
    {
        LangRunnerProcess {
            stdin_open: true,
            stdout_buf: String::new(),
            stderr_buf: String::new(),
            exit_status: None,
            request_id: None,
        }
    }

    /// Handles a line (with its line break) read from stdout while the
    /// runner loads. Answers whether loading completed.
    pub fn startup_line(&mut self, raw: &str) -> (done: bool)
        requires
            raw@.len() > 0,
        ensures
            done == announces_init(raw@),
            final(self)@ == after_startup_line(old(self)@, raw@),
    {
        let n = raw.unicode_len();
        let line = raw.substring_char(0, n - 1);
        assert(line@ =~= startup_text(raw@));
        if contains(line, PIPE_INIT_COMPLETE) {
            true
        } else {
            let ghost before = self.stdout_buf@;
            self.stdout_buf.append(line);
            self.stdout_buf.push('\n');
            assert(self.stdout_buf@ =~= before + line@ + seq!['\n']);
            false
        }
    }

    /// The error for a runner whose stdout ended before it finished
    /// loading, given the exit code that waiting for its exit gave, if any:
    /// that code (or [`UNKNOWN_EXIT`]), with the output captured so far.
    pub fn startup_eof(&self, code: Option<i32>) -> (e: Error)
        ensures
            e@ == ErrorView::UnexpectedExit(code_or_unknown(code), self@.stdout, self@.stderr),
    {
        let code = match code {
            Some(c) => c,
            None => UNKNOWN_EXIT,
        };
        Error::UnexpectedExit(code, self.stdout_buf.clone(), self.stderr_buf.clone())
    }

    /// Keeps a line that the runner wrote to stderr.
    pub fn record_stderr_line(&mut self, line: &str)
        ensures
            final(self)@ == (RunnerView { stderr: old(self)@.stderr + line@ + seq!['\n'], ..old(self)@ }),
    {
        let ghost before = self.stderr_buf@;
        self.stderr_buf.append(line);
        self.stderr_buf.push('\n');
        assert(self.stderr_buf@ =~= before + line@ + seq!['\n']);
    }

    /// Keeps a line that the runner wrote to stdout once loaded. Such lines
    /// are kept without a line break between them.
    pub fn record_stdout_line(&mut self, line: &str)
        ensures
            final(self)@ == (RunnerView { stdout: old(self)@.stdout + line@, ..old(self)@ }),
    {
        self.stdout_buf.append(line);
    }

    /// Whether a request may be written to the runner's stdin: refused once
    /// stdin was closed.
    pub fn write(&self) -> (r: Result<(), Error>)
        ensures
            self@.stdin_open ==> r is Ok,
            !self@.stdin_open ==> (r matches Err(e) && e@ == ErrorView::Unexpected(
                "cannot write to closed runner stdin"@,
            )),
    {
        if self.stdin_open {
            Ok(())
        } else {
            Err(Error::Unexpected("cannot write to closed runner stdin".to_owned()))
        }
    }

    /// Hands out the captured stdout and stderr, emptying both buffers.
    pub fn take_stdio(&mut self) -> (out: (String, String))
        ensures
            out.0@ == old(self)@.stdout,
            out.1@ == old(self)@.stderr,
            final(self)@ == after_take(old(self)@),
    {
        let mut out = String::new();
        let mut err = String::new();
        std::mem::swap(&mut self.stdout_buf, &mut out);
        std::mem::swap(&mut self.stderr_buf, &mut err);
        (out, err)
    }

    /// The exit code, once known.
    pub fn exit_status(&self) -> (r: Option<i32>)
        ensures
            r == self@.exit_status,
    {
        self.exit_status
    }

    /// Whether the runner has exited. A code already recorded is answered
    /// as it is; otherwise `outcome`, what a short wait on the process
    /// observed, decides, and the code it gives is recorded.
    pub fn check_exited(&mut self, outcome: WaitOutcome) -> (r: Option<i32>)
        ensures
            r == check_result(old(self)@, outcome),
            final(self)@ == after_check(old(self)@, outcome),
    {
        if self.exit_status.is_some() {
            return self.exit_status;
        }
        let r = match outcome {
            WaitOutcome::Failed => Some(UNKNOWN_EXIT),
            WaitOutcome::Exited(Some(code)) => Some(code),
            WaitOutcome::Exited(None) => Some(UNKNOWN_EXIT),
            WaitOutcome::Running => None,
        };
        self.exit_status = r;
        r
    }

    /// Stops the runner. A code already recorded is answered as it is;
    /// otherwise stdin is closed and `outcome`, what the wait for the exit
    /// observed (`Running`: it had to be killed), gives the code, which is
    /// recorded.
    pub fn stop(&mut self, outcome: WaitOutcome) -> (code: i32)
        ensures
            code == stop_result(old(self)@, outcome),
            final(self)@ == after_stop(old(self)@, outcome),
    {
        if let Some(code) = self.exit_status {
            return code;
        }
        self.stdin_open = false;
        let code = match outcome {
            WaitOutcome::Failed => UNKNOWN_EXIT,
            WaitOutcome::Exited(Some(code)) => code,
            WaitOutcome::Exited(None) => UNKNOWN_EXIT,
            WaitOutcome::Running => UNKNOWN_EXIT,
        };
        self.exit_status = Some(code);
        code
    }

    /// The error that reports the runner's exit with `code`, carrying the
    /// output captured so far, which is handed out.
    pub fn exit_error(&mut self, code: i32) -> (e: Error)
        ensures
            e@ == ErrorView::UnexpectedExit(code, old(self)@.stdout, old(self)@.stderr),
            final(self)@ == after_take(old(self)@),
    {
        let (out, err) = self.take_stdio();
        Error::UnexpectedExit(code, out, err)
    }

    /// Ends the request being served, given what the wait for its answer
    /// received and how long it took: the answer is sent with the output
    /// captured meanwhile, which is handed out, and the request id is
    /// cleared.
    pub fn finish_request(&mut self, received: Result<RunnerOutput, Error>, duration: Elapsed) -> (m: RunnerMessage)
        ensures
            m@ == message_of(
                match received {
                    Ok(out) => RunnerState::Completed(out),
                    Err(e) => RunnerState::Exited(e),
                },
                duration,
                Some(old(self)@.stdout),
                Some(old(self)@.stderr),
            ),
            final(self)@ == after_finish(old(self)@),
    {
        let state = RunnerState::from_received(received);
        let (out, err) = self.take_stdio();
        let m = state.into_message(duration, Some(out), Some(err));
        self.request_id = None;
        m
    }

    /// Sets, or clears, the id of the request being served.
    pub fn set_request_id(&mut self, request_id: Option<String>)
        ensures
            final(self)@ == (RunnerView {
                request_id: match request_id {
                    Some(s) => Some(s@),
                    None => None,
                },
                ..old(self)@
            }),
    {
        self.request_id = request_id;
    }

    /// The id of the request being served, or `-` when there is none.
    pub fn request_label(&self) -> (s: String)
        ensures
            s@ == match self@.request_id {
                Some(id) => id,
                None => "-"@,
            },
    {
        match &self.request_id {
            Some(id) => id.clone(),
            None => "-".to_owned(),
        }
    }
}

/// Once the runner's exit code is known, checking again and stopping both
/// answer that same code, whatever a later wait observes, and change nothing.
pub proof fn exit_code_is_final(v: RunnerView, first: WaitOutcome, later: WaitOutcome)
    requires
        check_result(v, first) is Some,
    ensures
        check_result(after_check(v, first), later) == check_result(v, first),
        after_check(after_check(v, first), later) == after_check(v, first),
        Some(stop_result(after_check(v, first), later)) == check_result(v, first),
        after_stop(after_check(v, first), later) == after_check(v, first),
{
}

/// Every check made after the runner was stopped answers the code that
/// stopping it returned; stopping a runner whose exit was not known closes
/// its stdin, so that no request can be written to it any more.
pub proof fn stop_is_remembered(v: RunnerView, outcome: WaitOutcome, later: WaitOutcome)
    ensures
        check_result(after_stop(v, outcome), later) == Some(stop_result(v, outcome)),
        v.exit_status is None ==> !after_stop(v, outcome).stdin_open,
{
}

/// Taking the captured output empties it: a second take hands out nothing,
/// and nothing else of the state changes.
pub proof fn take_stdio_empties(v: RunnerView)
    ensures
        after_take(after_take(v)).stdout == Seq::<char>::empty(),
        after_take(after_take(v)).stderr == Seq::<char>::empty(),
        after_take(after_take(v)) == after_take(v),
        after_take(v).exit_status == v.exit_status,
        after_take(v).stdin_open == v.stdin_open,
        after_take(v).request_id == v.request_id,
{
}

/// Finishing a request leaves the runner ready for the next one: no output
/// is carried over and no request id remains, while the runner's stdin and
/// exit code are as they were.
pub proof fn finish_leaves_runner_clean(v: RunnerView)
    ensures
        after_finish(v).stdout == Seq::<char>::empty(),
        after_finish(v).stderr == Seq::<char>::empty(),
        after_finish(v).request_id is None,
        after_finish(v).stdin_open == v.stdin_open,
        after_finish(v).exit_status == v.exit_status,
{
}

/// The loading announcement is never kept as output, and every other line
/// read while loading is kept whole, followed by a line break.
pub proof fn startup_output_kept(v: RunnerView, raw: Seq<char>)
    ensures
        announces_init(raw) ==> after_startup_line(v, raw).stdout == v.stdout,
        !announces_init(raw) ==> after_startup_line(v, raw).stdout == v.stdout + startup_text(raw) + seq!['\n'],
        after_startup_line(v, raw).stderr == v.stderr,
        after_startup_line(v, raw).exit_status == v.exit_status,
{
}

/// Stopping, or checking on, a runner whose exit was not yet known answers
/// the code it exited with, and records it; only a failed wait, a runner
/// that had to be killed, or an exit without a code gives [`UNKNOWN_EXIT`],
/// and a check that finds it running answers nothing.
pub proof fn exit_code_is_reported(v: RunnerView, code: i32)
    requires
        v.exit_status is None,
    ensures
        stop_result(v, WaitOutcome::Exited(Some(code))) == code,
        after_stop(v, WaitOutcome::Exited(Some(code))).exit_status == Some(code),
        check_result(v, WaitOutcome::Exited(Some(code))) == Some(code),
        after_check(v, WaitOutcome::Exited(Some(code))).exit_status == Some(code),
        stop_result(v, WaitOutcome::Exited(None)) == UNKNOWN_EXIT,
        stop_result(v, WaitOutcome::Failed) == UNKNOWN_EXIT,
        stop_result(v, WaitOutcome::Running) == UNKNOWN_EXIT,
        check_result(v, WaitOutcome::Exited(None)) == Some(UNKNOWN_EXIT),
        check_result(v, WaitOutcome::Failed) == Some(UNKNOWN_EXIT),
        check_result(v, WaitOutcome::Running) is None,
{
}

} // verus!
