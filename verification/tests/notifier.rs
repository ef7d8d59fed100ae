use langserver::error::Error;
use langserver::notifier::{Notifier, NotifyStep, NOTIFY_ATTEMPTS};

#[test]
fn parse_valid_url() {
    let n = Notifier::parse("http://localhost:8080/status").unwrap();
    assert_eq!(n.destination(), "http://localhost:8080/status");
    let copy = n.clone();
    assert_eq!(copy.destination(), "http://localhost:8080/status");
    let normalized = Notifier::parse("HTTP://Example.COM").unwrap();
    assert_eq!(normalized.destination(), "http://example.com/");
}

#[test]
fn parse_invalid_url() {
    match Notifier::parse("not a url") {
        Err(Error::UrlParseError(m)) => assert_eq!(m, "relative URL without a base"),
        _ => panic!("expected a parse error"),
    }
    match Notifier::parse("http://") {
        Err(e) => assert_eq!(e.message(), "empty host"),
        Ok(_) => panic!("expected a parse error"),
    }
}

#[test]
fn response_status_outcome() {
    assert!(Notifier::response_outcome(200, "OK".to_string()).is_ok());
    assert!(Notifier::response_outcome(204, "No Content".to_string()).is_ok());
    assert!(Notifier::response_outcome(299, String::new()).is_ok());
    match Notifier::response_outcome(404, "Not Found".to_string()) {
        Err(e) => assert_eq!(e.message(), "404 Not Found"),
        Ok(()) => panic!("expected failure"),
    }
    assert!(Notifier::response_outcome(302, "Found".to_string()).is_err());
    assert!(Notifier::response_outcome(199, String::new()).is_err());
}

#[test]
fn retries_until_third_attempt() {
    assert_eq!(NOTIFY_ATTEMPTS, 3);
    assert!(matches!(Notifier::after_attempt(1, Ok(())), NotifyStep::Delivered));
    let fail = || Err(Error::HttpError("refused".to_string()));
    assert!(matches!(Notifier::after_attempt(1, fail()), NotifyStep::Retry(2)));
    assert!(matches!(Notifier::after_attempt(2, fail()), NotifyStep::Retry(3)));
    match Notifier::after_attempt(3, fail()) {
        NotifyStep::GiveUp(e) => assert_eq!(e.message(), "HTTP error - refused"),
        _ => panic!("expected to give up"),
    }
    assert!(matches!(Notifier::after_attempt(3, Ok(())), NotifyStep::Delivered));
}
