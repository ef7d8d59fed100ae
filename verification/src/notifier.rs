//! Where notifications are sent, and the rules for delivering them.

use vstd::prelude::*;

use crate::error::{Error, ErrorView};

verus! {

/// What `url::Url::parse` gives for `text`: the parsed URL's serialization
/// (what `Url::as_str` returns), or the parser's description of the failure.
pub uninterp spec fn url_parsing(text: Seq<char>) -> Result<Seq<char>, Seq<char>>;

/// Calls `url::Url::parse` and hands out the parsed URL as its
/// serialization (`Url::as_str`). The contract claims that the outcome, the
/// serialization or the description of a failure, depends on the text alone.
#[verifier::external_body]
fn parse_url(text: &str) -> (res: Result<String, String>)
    ensures
        match res {
            Ok(u) => url_parsing(text@) == Ok::<Seq<char>, Seq<char>>(u@),
            Err(m) => url_parsing(text@) == Err::<Seq<char>, Seq<char>>(m@),
        },
{
    match url::Url::parse(text) {
        Ok(parsed) => Ok(parsed.as_str().to_owned()),
        Err(e) => Err(e.to_string()),
    }
}

/// How many times a notification is tried before giving up.
pub const NOTIFY_ATTEMPTS: u32 = 3;

/// What to do after one attempt to deliver a notification.
pub enum NotifyStep {
    /// It was delivered.
    Delivered,
    /// Try again; the number of the next attempt.
    Retry(u32),
    /// Give up with the last attempt's error.
    GiveUp(Error),
}

/// A destination for notifications: a parsed URL, held as its
/// serialization.
#[derive(Clone)]
pub struct Notifier {
    address: String,
}

impl View for Notifier {
    type V = Seq<char>;

    /// The parsed URL's serialization.
    closed spec fn view(&self) -> Seq<char> {
        self.address@
    }
}

/// Whether a failed attempt number `attempt` is followed by another one.
pub open spec fn retries_after_failure(attempt: u32) -> bool {
    attempt < NOTIFY_ATTEMPTS
}

/// A notification is tried at most [`NOTIFY_ATTEMPTS`] times: attempts are
/// counted from 1, and a failure is retried only while the next attempt's
/// number stays within the limit.
pub proof fn notify_attempts_bounded(attempt: u32)
    requires
        retries_after_failure(attempt),
    ensures
        attempt + 1 <= NOTIFY_ATTEMPTS,
        !retries_after_failure(NOTIFY_ATTEMPTS),
{
}

/// Whether an HTTP status code is a success (in `200..=299`).
pub open spec fn is_success_status(status: u16) -> bool {
    200 <= status <= 299
}

impl Notifier {
    /// Parses `address` into a notifier for the parsed URL; a URL that does
    /// not parse is an `UrlParseError` holding the parser's description.
    pub fn parse(address: &str) -> (res: Result<Notifier, Error>)
        ensures
            match url_parsing(address@) {
                Ok(u) => res matches Ok(n) && n@ == u,
                Err(m) => res matches Err(e) && e@ == ErrorView::UrlParseError(m),
            },
    {
        match parse_url(address) {
            Ok(parsed) => Ok(Notifier { address: parsed }),
            Err(m) => Err(Error::UrlParseError(m)),
        }
    }

    /// The destination: the parsed URL's serialization.
    pub fn destination(&self) -> (d: &str)
        ensures
            d@ == self@,
    {
        self.address.as_str()
    }

    /// The outcome of one attempt answered with HTTP `status` and its
    /// reason phrase: a success status delivers, any other is a
    /// `NotificationError`.
    pub fn response_outcome(status: u16, reason: String) -> (res: Result<(), Error>)
        ensures
            is_success_status(status) ==> res is Ok,
            !is_success_status(status) ==> (res matches Err(e) && e@ == ErrorView::NotificationError(
                status,
                reason@,
            )),
    {
        if 200 <= status && status <= 299 {
            Ok(())
        } else {
            Err(Error::NotificationError(status, reason))
        }
    }

    /// What follows attempt number `attempt` (counted from 1) that ended in
    /// `outcome`: delivered, another attempt, or giving up once the last of
    /// [`NOTIFY_ATTEMPTS`] attempts failed.
    pub fn after_attempt(attempt: u32, outcome: Result<(), Error>) -> (step: NotifyStep)
        ensures
            match outcome {
                Ok(()) => step is Delivered,
                Err(e) => if !retries_after_failure(attempt) {
                    step matches NotifyStep::GiveUp(g) && g@ == e@
                } else {
                    step == NotifyStep::Retry((attempt + 1) as u32)
                },
            },
    {
        match outcome {
            Ok(()) => NotifyStep::Delivered,
            Err(e) => if attempt >= NOTIFY_ATTEMPTS {
                NotifyStep::GiveUp(e)
            } else {
                NotifyStep::Retry(attempt + 1)
            },
        }
    }
}


} // verus!
