//! The server's error kinds, their messages, and the error record that is
//! reported to callers.

use vstd::prelude::*;
use vstd::string::*;

use crate::text::{decimal, i32_to_decimal, signed_decimal, u64_to_decimal};

verus! {

/// Error type reported for failures of the server itself.
pub const SYSTEM_ERROR: &'static str = "SystemError";

/// Error type reported when the runner process went away.
pub const SYSTEM_EXIT: &'static str = "SystemExit";

/// Everything that can go wrong while serving a request. Each variant keeps,
/// as text, what its message needs of the failure that caused it.
#[derive(Debug)]
pub enum Error {
    /// A failure of the HTTP client or server; holds that failure's message.
    HttpError(String),
    /// A failure reading an environment variable; holds its message.
    EnvVarError(String),
    /// A failure encoding or decoding JSON; holds its message.
    SerdeError(String),
    /// An I/O failure; holds its message.
    IoError(String),
    /// A URL that could not be parsed; holds the parser's description.
    UrlParseError(String),
    /// A notification answered with a status that is not a success: the
    /// status code and its reason phrase.
    NotificationError(u16, String),
    /// A request that cannot be served as it stands.
    BadRequest(String),
    /// The runner process exited: its exit code, and the output it had
    /// written to stdout and stderr.
    UnexpectedExit(i32, String, String),
    /// Any other failure, described by a fixed message.
    Unexpected(String),
}

/// The mathematical value of an [`Error`].
pub enum ErrorView {
    HttpError(Seq<char>),
    EnvVarError(Seq<char>),
    SerdeError(Seq<char>),
    IoError(Seq<char>),
    UrlParseError(Seq<char>),
    NotificationError(u16, Seq<char>),
    BadRequest(Seq<char>),
    UnexpectedExit(i32, Seq<char>, Seq<char>),
    Unexpected(Seq<char>),
}

impl View for Error {
    type V = ErrorView;

    open spec fn view(&self) -> ErrorView {
        match self {
            Error::HttpError(m) => ErrorView::HttpError(m@),
            Error::EnvVarError(m) => ErrorView::EnvVarError(m@),
            Error::SerdeError(m) => ErrorView::SerdeError(m@),
            Error::IoError(m) => ErrorView::IoError(m@),
            Error::UrlParseError(m) => ErrorView::UrlParseError(m@),
            Error::NotificationError(code, reason) => ErrorView::NotificationError(*code, reason@),
            Error::BadRequest(m) => ErrorView::BadRequest(m@),
            Error::UnexpectedExit(code, out, err) => ErrorView::UnexpectedExit(*code, out@, err@),
            Error::Unexpected(m) => ErrorView::Unexpected(m@),
        }
    }
}

impl ErrorView {
    /// The message shown for the error.
    pub open spec fn text(self) -> Seq<char> {
        match self {
            ErrorView::HttpError(m) => "HTTP error - "@ + m,
            ErrorView::EnvVarError(m) => "environment var error - "@ + m,
            ErrorView::SerdeError(m) => "JSON error - "@ + m,
            ErrorView::IoError(m) => "IO error - "@ + m,
            ErrorView::UrlParseError(m) => m,
            ErrorView::NotificationError(code, reason) => decimal(code as nat) + " "@ + reason,
            ErrorView::BadRequest(m) => "bad request: "@ + m,
            ErrorView::UnexpectedExit(code, _, _) => "exited with code "@ + signed_decimal(code as int),
            ErrorView::Unexpected(m) => m,
        }
    }
}

fn prefixed(prefix: &str, rest: &String) -> (s: String)
    ensures
        s@ == prefix@ + rest@,
{
    let mut s = prefix.to_owned();
    s.append(rest.as_str());
    s
}

impl Error {
    /// The message shown for this error.
    pub fn message(&self) -> (s: String)
        ensures
            s@ == self@.text(),
    {
        match self {
            Error::HttpError(m) => prefixed("HTTP error - ", m),
            Error::EnvVarError(m) => prefixed("environment var error - ", m),
            Error::SerdeError(m) => prefixed("JSON error - ", m),
            Error::IoError(m) => prefixed("IO error - ", m),
            Error::UrlParseError(m) => m.clone(),
            Error::NotificationError(code, reason) => {
                let mut s = u64_to_decimal(*code as u64);
                s.append(" ");
                s.append(reason.as_str());
                s
            },
            Error::BadRequest(m) => prefixed("bad request: ", m),
            Error::UnexpectedExit(code, _, _) => {
                let digits = i32_to_decimal(*code);
                prefixed("exited with code ", &digits)
            },
            Error::Unexpected(m) => m.clone(),
        }
    }
}

/// An error as it is reported: its message, its type, and an optional
/// stack trace.
#[derive(Debug)]
pub struct ErrorMessage {
    pub message: String,
    pub error_type: String,
    pub stacktrace: Option<String>,
}

/// The mathematical value of an [`ErrorMessage`].
pub struct ErrorMessageView {
    pub message: Seq<char>,
    pub error_type: Seq<char>,
    pub stacktrace: Option<Seq<char>>,
}

impl View for ErrorMessage {
    type V = ErrorMessageView;

    open spec fn view(&self) -> ErrorMessageView {
        ErrorMessageView {
            message: self.message@,
            error_type: self.error_type@,
            stacktrace: match self.stacktrace {
                Some(s) => Some(s@),
                None => None,
            },
        }
    }
}

/// The error type given to a reported error that names none.
pub fn default_error_type() -> (s: String)
    ensures
        s@ == "AlgorithmError"@,
{
    "AlgorithmError".to_owned()
}

impl ErrorMessage {
    /// The report of an error that ended the runner: the error's message,
    /// typed `SystemExit`, with no stack trace.
    pub fn exit(error: Error) -> (m: ErrorMessage)
        ensures
            m@ == (ErrorMessageView {
                message: error@.text(),
                error_type: SYSTEM_EXIT@,
                stacktrace: None,
            }),
    {
        ErrorMessage { message: error.message(), error_type: SYSTEM_EXIT.to_owned(), stacktrace: None }
    }
}

} // verus!
