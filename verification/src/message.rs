//! What the runner hands back, and the messages the server sends on.

use vstd::prelude::*;

use crate::text::same;
use crate::error::{Error, ErrorMessage, ErrorMessageView, ErrorView, SYSTEM_EXIT};

verus! {

/// A span of time: whole seconds and the nanoseconds past them.
pub struct Elapsed {
    pub secs: u64,
    pub nanos: u32,
}

impl Elapsed {
    /// No time at all.
    pub fn zero() -> (e: Elapsed)
        ensures
            e.secs == 0 && e.nanos == 0,
    {
        Elapsed { secs: 0, nanos: 0 }
    }
}

/// Optional text, by its view.
pub open spec fn opt_view(o: Option<String>) -> Option<Seq<char>> {
    match o {
        Some(s) => Some(s@),
        None => None,
    }
}

/// The metadata that the runner reports with a successful result.
pub struct RunnerMetadata {
    pub content_type: String,
}

/// One answer read from the runner. A result is held as its JSON text.
pub enum RunnerOutput {
    Success { result: String, metadata: RunnerMetadata },
    Failure { error: ErrorMessage },
}

/// How waiting on the runner ended: with an answer, or with the runner gone.
pub enum RunnerState {
    Completed(RunnerOutput),
    Exited(Error),
}

/// Timing, captured output and content type sent with every answer.
pub struct Metadata {
    pub duration: Elapsed,
    pub stdout: Option<String>,
    pub stderr: Option<String>,
    pub content_type: Option<String>,
}

/// The mathematical value of a [`Metadata`].
pub struct MetadataView {
    pub secs: u64,
    pub nanos: u32,
    pub stdout: Option<Seq<char>>,
    pub stderr: Option<Seq<char>>,
    pub content_type: Option<Seq<char>>,
}

impl View for Metadata {
    type V = MetadataView;

    open spec fn view(&self) -> MetadataView {
        MetadataView {
            secs: self.duration.secs,
            nanos: self.duration.nanos,
            stdout: opt_view(self.stdout),
            stderr: opt_view(self.stderr),
            content_type: opt_view(self.content_type),
        }
    }
}

/// The answer sent back for a request. A result is held as its JSON text.
pub enum RunnerMessage {
    Success { result: String, metadata: Metadata },
    Failure { error: ErrorMessage, metadata: Metadata },
}

/// The mathematical value of a [`RunnerMessage`].
pub enum RunnerMessageView {
    Success { result: Seq<char>, metadata: MetadataView },
    Failure { error: ErrorMessageView, metadata: MetadataView },
}

impl View for RunnerMessage {
    type V = RunnerMessageView;

    open spec fn view(&self) -> RunnerMessageView {
        match self {
            RunnerMessage::Success { result, metadata } => RunnerMessageView::Success {
                result: result@,
                metadata: metadata@,
            },
            RunnerMessage::Failure { error, metadata } => RunnerMessageView::Failure {
                error: error@,
                metadata: metadata@,
            },
        }
    }
}

/// Whether the server came up, or why it did not.
pub enum HealthStatus {
    Success,
    Failure(Error),
}

/// A report on the server's health, sent to a status listener.
pub struct StatusMessage {
    pub slot_id: Option<String>,
    pub status: String,
    pub metadata: Metadata,
    pub error: Option<ErrorMessage>,
}

/// The metadata for `duration`, output and content type, as given.
pub open spec fn metadata_of(
    duration: Elapsed,
    content_type: Option<Seq<char>>,
    stdout: Option<Seq<char>>,
    stderr: Option<Seq<char>>,
) -> MetadataView {
    MetadataView {
        secs: duration.secs,
        nanos: duration.nanos,
        stdout: stdout,
        stderr: stderr,
        content_type: content_type,
    }
}

impl Metadata {
    /// Metadata holding the given duration, content type and output.
    pub fn new(
        duration: Elapsed,
        content_type: Option<String>,
        stdout: Option<String>,
        stderr: Option<String>,
    ) -> (m: Metadata)
        ensures
            m@ == metadata_of(duration, opt_view(content_type), opt_view(stdout), opt_view(stderr)),
    {
        Metadata { duration, content_type, stdout, stderr }
    }
}

/// The answer made of a runner state, the time waited and the output
/// captured meanwhile.
pub open spec fn message_of(
    state: RunnerState,
    duration: Elapsed,
    stdout: Option<Seq<char>>,
    stderr: Option<Seq<char>>,
) -> RunnerMessageView {
    match state {
        RunnerState::Completed(RunnerOutput::Success { result, metadata }) => RunnerMessageView::Success {
            result: result@,
            metadata: metadata_of(duration, Some(metadata.content_type@), stdout, stderr),
        },
        RunnerState::Completed(RunnerOutput::Failure { error }) => RunnerMessageView::Failure {
            error: error@,
            metadata: metadata_of(duration, None, stdout, stderr),
        },
        RunnerState::Exited(err) => RunnerMessageView::Failure {
            error: ErrorMessageView { message: err@.text(), error_type: SYSTEM_EXIT@, stacktrace: None },
            metadata: match err@ {
                ErrorView::UnexpectedExit(_, out, errout) => metadata_of(duration, None, Some(out), Some(errout)),
                _ => metadata_of(duration, None, stdout, stderr),
            },
        },
    }
}

impl RunnerState {
    /// The state that a wait on the runner ends in: the answer it received,
    /// or the error that ended the wait.
    pub fn from_received(received: Result<RunnerOutput, Error>) -> (s: RunnerState)
        ensures
            match received {
                Ok(out) => s == RunnerState::Completed(out),
                Err(e) => s == RunnerState::Exited(e),
            },
    {
        match received {
            Ok(out) => RunnerState::Completed(out),
            Err(e) => RunnerState::Exited(e),
        }
    }

    /// The answer to send for this state. A runner that exited reports the
    /// output carried by its exit in place of the output given.
    pub fn into_message(self, duration: Elapsed, stdout: Option<String>, stderr: Option<String>) -> (m: RunnerMessage)
        ensures
            m@ == message_of(self, duration, opt_view(stdout), opt_view(stderr)),
    {
        match self {
            RunnerState::Completed(RunnerOutput::Success { result, metadata }) => RunnerMessage::Success {
                result,
                metadata: Metadata::new(duration, Some(metadata.content_type), stdout, stderr),
            },
            RunnerState::Completed(RunnerOutput::Failure { error }) => RunnerMessage::Failure {
                error,
                metadata: Metadata::new(duration, None, stdout, stderr),
            },
            RunnerState::Exited(err) => {
                let (err, out, errout) = match err {
                    Error::UnexpectedExit(code, out, errout) => {
                        let o = out.clone();
                        let e = errout.clone();
                        (Error::UnexpectedExit(code, out, errout), Some(o), Some(e))
                    },
                    other => (other, stdout, stderr),
                };
                RunnerMessage::Failure { error: ErrorMessage::exit(err), metadata: Metadata::new(duration, None, out, errout) }
            },
        }
    }
}

/// Whether an answer reports that the runner went away.
pub open spec fn is_exit_report(m: RunnerMessageView) -> bool {
    match m {
        RunnerMessageView::Failure { error, .. } => error.error_type == SYSTEM_EXIT@,
        RunnerMessageView::Success { .. } => false,
    }
}

impl RunnerMessage {
    /// True when this answer is a failure typed `SystemExit`.
    pub fn exited_early(&self) -> (b: bool)
        ensures
            b == is_exit_report(self@),
    {
        match self {
            RunnerMessage::Failure { error, .. } => same(error.error_type.as_str(), SYSTEM_EXIT),
            RunnerMessage::Success { .. } => false,
        }
    }
}

/// An answer reports the runner's exit exactly when the runner exited, or
/// when the runner itself answered with a failure typed `SystemExit`.
pub proof fn exit_reports_match_exits(
    state: RunnerState,
    duration: Elapsed,
    stdout: Option<Seq<char>>,
    stderr: Option<Seq<char>>,
)
    ensures
        is_exit_report(message_of(state, duration, stdout, stderr)) == match state {
            RunnerState::Exited(_) => true,
            RunnerState::Completed(RunnerOutput::Success { .. }) => false,
            RunnerState::Completed(RunnerOutput::Failure { error }) => error@.error_type == SYSTEM_EXIT@,
        },
{
}

/// The metadata sent with an answer.
pub open spec fn metadata_sent(m: RunnerMessageView) -> MetadataView {
    match m {
        RunnerMessageView::Success { metadata, .. } => metadata,
        RunnerMessageView::Failure { metadata, .. } => metadata,
    }
}

/// Every answer carries the time waited and the output given to it, a
/// result and an algorithm's failure alike; only a runner that exited
/// unexpectedly reports the output its exit carries instead. A result keeps
/// its value and content type, an algorithm's failure its error, and a
/// runner's exit is reported by its text, typed `SystemExit`, both with no
/// content type.
pub proof fn answers_carry_output(
    state: RunnerState,
    duration: Elapsed,
    stdout: Option<Seq<char>>,
    stderr: Option<Seq<char>>,
)
    ensures
        ({
            let m = message_of(state, duration, stdout, stderr);
            let md = metadata_sent(m);
            &&& md.secs == duration.secs
            &&& md.nanos == duration.nanos
            &&& match state {
                RunnerState::Exited(err) => match err@ {
                    ErrorView::UnexpectedExit(_, out, errout) => md.stdout == Some(out) && md.stderr == Some(errout),
                    _ => md.stdout == stdout && md.stderr == stderr,
                },
                _ => md.stdout == stdout && md.stderr == stderr,
            }
            &&& match state {
                RunnerState::Completed(RunnerOutput::Success { result, metadata }) => m matches RunnerMessageView::Success {
                    result: r,
                    ..
                } && r == result@ && md.content_type == Some(metadata.content_type@),
                RunnerState::Completed(RunnerOutput::Failure { error }) => m matches RunnerMessageView::Failure {
                    error: e,
                    ..
                } && e == error@ && md.content_type is None,
                RunnerState::Exited(err) => m matches RunnerMessageView::Failure { error: e, .. } && e.message
                    == err@.text() && e.error_type == SYSTEM_EXIT@ && md.content_type is None,
            }
        }),
{
}

/// The mathematical value of a [`StatusMessage`].
pub struct StatusMessageView {
    pub slot_id: Option<Seq<char>>,
    pub status: Seq<char>,
    pub metadata: MetadataView,
    pub error: Option<ErrorMessageView>,
}

impl View for StatusMessage {
    type V = StatusMessageView;

    open spec fn view(&self) -> StatusMessageView {
        StatusMessageView {
            slot_id: opt_view(self.slot_id),
            status: self.status@,
            metadata: self.metadata@,
            error: match self.error {
                Some(e) => Some(e@),
                None => None,
            },
        }
    }
}

/// The report for a health status, the time it took, the output captured
/// and the slot the server runs in.
pub open spec fn status_of(
    health: HealthStatus,
    load_time: Elapsed,
    stdout: Option<Seq<char>>,
    stderr: Option<Seq<char>>,
    slot_id: Option<Seq<char>>,
) -> StatusMessageView {
    StatusMessageView {
        slot_id: slot_id,
        status: match health {
            HealthStatus::Success => "Successful"@,
            HealthStatus::Failure(_) => "Failed"@,
        },
        metadata: metadata_of(load_time, None, stdout, stderr),
        error: match health {
            HealthStatus::Success => None,
            HealthStatus::Failure(err) => Some(
                ErrorMessageView { message: err@.text(), error_type: SYSTEM_EXIT@, stacktrace: None },
            ),
        },
    }
}

impl StatusMessage {
    /// The report for `health_status`; `slot_id` names the slot the server
    /// runs in, where one is set.
    pub fn new(
        health_status: HealthStatus,
        load_time: Elapsed,
        stdout: Option<String>,
        stderr: Option<String>,
        slot_id: Option<String>,
    ) -> (m: StatusMessage)
        ensures
            m@ == status_of(health_status, load_time, opt_view(stdout), opt_view(stderr), opt_view(slot_id)),
    {
        let (status, error) = match health_status {
            HealthStatus::Success => ("Successful".to_owned(), None),
            HealthStatus::Failure(err) => ("Failed".to_owned(), Some(ErrorMessage::exit(err))),
        };
        StatusMessage { slot_id, status, error, metadata: Metadata::new(load_time, None, stdout, stderr) }
    }

    /// The report of how loading went: a success, or the failure with its
    /// error.
    pub fn of_load(
        result: Result<(), Error>,
        duration: Elapsed,
        slot_id: Option<String>,
    ) -> (m: StatusMessage)
        ensures
            m@ == status_of(
                match result {
                    Ok(()) => HealthStatus::Success,
                    Err(e) => HealthStatus::Failure(e),
                },
                duration,
                None,
                None,
                opt_view(slot_id),
            ),
    {
        match result {
            Ok(()) => StatusMessage::success(duration, None, None, slot_id),
            Err(e) => StatusMessage::failure(e, duration, None, None, slot_id),
        }
    }

    /// The report of a server that came up.
    pub fn success(
        duration: Elapsed,
        stdout: Option<String>,
        stderr: Option<String>,
        slot_id: Option<String>,
    ) -> (m: StatusMessage)
        ensures
            m@ == status_of(HealthStatus::Success, duration, opt_view(stdout), opt_view(stderr), opt_view(slot_id)),
    {
        StatusMessage::new(HealthStatus::Success, duration, stdout, stderr, slot_id)
    }

    /// The report of a server that failed with `err`.
    pub fn failure(
        err: Error,
        duration: Elapsed,
        stdout: Option<String>,
        stderr: Option<String>,
        slot_id: Option<String>,
    ) -> (m: StatusMessage)
        ensures
            m@ == status_of(HealthStatus::Failure(err), duration, opt_view(stdout), opt_view(stderr), opt_view(slot_id)),
    {
        StatusMessage::new(HealthStatus::Failure(err), duration, stdout, stderr, slot_id)
    }
}

/// A health report names the slot it was given, whether the server came up
/// or failed, and carries the load time and output given to it; it is
/// `Successful` without an error, or `Failed` with one.
pub proof fn status_names_its_slot(
    health: HealthStatus,
    load_time: Elapsed,
    stdout: Option<Seq<char>>,
    stderr: Option<Seq<char>>,
    slot_id: Option<Seq<char>>,
)
    ensures
        ({
            let s = status_of(health, load_time, stdout, stderr, slot_id);
            &&& s.slot_id == slot_id
            &&& s.metadata.secs == load_time.secs && s.metadata.nanos == load_time.nanos
            &&& s.metadata.stdout == stdout && s.metadata.stderr == stderr
            &&& s.metadata.content_type is None
            &&& (health is Success ==> s.status == "Successful"@ && s.error is None)
            &&& (health is Failure ==> s.status == "Failed"@ && s.error is Some)
        }),
{
}

} // verus!
