use langserver::error::{default_error_type, Error, ErrorMessage, SYSTEM_ERROR, SYSTEM_EXIT};
use langserver::text::{contains, i32_to_decimal, joined, same, starts_with, u64_to_decimal};

#[test]
fn error_messages() {
    assert_eq!(Error::HttpError("connection refused".to_string()).message(), "HTTP error - connection refused");
    assert_eq!(Error::EnvVarError("not unicode".to_string()).message(), "environment var error - not unicode");
    assert_eq!(Error::SerdeError("EOF while parsing".to_string()).message(), "JSON error - EOF while parsing");
    assert_eq!(Error::IoError("broken pipe".to_string()).message(), "IO error - broken pipe");
    assert_eq!(Error::UrlParseError("empty host".to_string()).message(), "empty host");
    assert_eq!(
        Error::NotificationError(500, "Internal Server Error".to_string()).message(),
        "500 Internal Server Error"
    );
    assert_eq!(Error::BadRequest("Missing ContentType".to_string()).message(), "bad request: Missing ContentType");
    assert_eq!(
        Error::UnexpectedExit(1, "out".to_string(), "err".to_string()).message(),
        "exited with code 1"
    );
    assert_eq!(
        Error::UnexpectedExit(-99, String::new(), String::new()).message(),
        "exited with code -99"
    );
    assert_eq!(Error::Unexpected("cannot write to closed runner stdin".to_string()).message(),
        "cannot write to closed runner stdin");
}

#[test]
fn exit_report_of_an_error() {
    let m = ErrorMessage::exit(Error::UnexpectedExit(137, String::new(), String::new()));
    assert_eq!(m.message, "exited with code 137");
    assert_eq!(m.error_type, SYSTEM_EXIT);
    assert_eq!(m.error_type, "SystemExit");
    assert!(m.stacktrace.is_none());
    assert_eq!(SYSTEM_ERROR, "SystemError");
    assert_eq!(default_error_type(), "AlgorithmError");
}

#[test]
fn decimal_rendering() {
    assert_eq!(u64_to_decimal(0), "0");
    assert_eq!(u64_to_decimal(9), "9");
    assert_eq!(u64_to_decimal(10), "10");
    assert_eq!(u64_to_decimal(18446744073709551615), "18446744073709551615");
    assert_eq!(i32_to_decimal(0), "0");
    assert_eq!(i32_to_decimal(-1), "-1");
    assert_eq!(i32_to_decimal(2147483647), "2147483647");
    assert_eq!(i32_to_decimal(-2147483648), "-2147483648");
}

#[test]
fn text_tests() {
    assert!(starts_with("X-Request-Id", "X-"));
    assert!(!starts_with("Content-Type", "X-"));
    assert!(!starts_with("X", "X-"));
    assert!(starts_with("", ""));
    assert!(contains("ab PIPE_INIT_COMPLETE cd", "PIPE_INIT_COMPLETE"));
    assert!(contains("PIPE_INIT_COMPLETE", "PIPE_INIT_COMPLETE"));
    assert!(!contains("PIPE_INIT_COMPLET", "PIPE_INIT_COMPLETE"));
    assert!(contains("anything", ""));
    assert!(contains("", ""));
    assert!(contains("héllo wörld", "ö"));
    assert!(same("base64", "base64"));
    assert!(!same("base64", "base65"));
    assert!(!same("base64", "base6"));
    assert_eq!(joined("a", "bc"), "abc");
}
