use langserver::error::Error;
use langserver::message::{Elapsed, RunnerMessage, RunnerMetadata, RunnerOutput};
use langserver::runner::{end_of_output_error, LangRunnerProcess, WaitOutcome, UNKNOWN_EXIT};

#[test]
fn startup_keeps_output_until_announcement() {
    let mut p = LangRunnerProcess::new();
    assert!(!p.startup_line("loading model\n"));
    assert!(!p.startup_line("still loading\n"));
    assert!(p.startup_line("PIPE_INIT_COMPLETE\n"));
    let (out, err) = p.take_stdio();
    assert_eq!(out, "loading model\nstill loading\n");
    assert_eq!(err, "");
}

#[test]
fn startup_line_drops_last_character() {
    let mut p = LangRunnerProcess::new();
    assert!(!p.startup_line("abc"));
    assert!(p.startup_line(">> PIPE_INIT_COMPLETE <<\n"));
    assert!(!p.startup_line("PIPE_INIT_COMPLETE"));
    assert_eq!(p.take_stdio().0, "ab\nPIPE_INIT_COMPLET\n");
}

#[test]
fn startup_eof_reports_captured_output() {
    let mut p = LangRunnerProcess::new();
    p.startup_line("hello\n");
    p.record_stderr_line("ImportError");
    match p.startup_eof(Some(1)) {
        Error::UnexpectedExit(code, out, err) => {
            assert_eq!(code, 1);
            assert_eq!(out, "hello\n");
            assert_eq!(err, "ImportError\n");
        }
        _ => panic!("expected exit"),
    }
    match p.startup_eof(None) {
        Error::UnexpectedExit(code, _, _) => assert_eq!(code, UNKNOWN_EXIT),
        _ => panic!("expected exit"),
    }
    assert_eq!(p.take_stdio().0, "hello\n");
}

#[test]
fn take_stdio_empties_buffers() {
    let mut p = LangRunnerProcess::new();
    p.record_stdout_line("a");
    p.record_stdout_line("b");
    p.record_stderr_line("x");
    let (out, err) = p.take_stdio();
    assert_eq!(out, "ab");
    assert_eq!(err, "x\n");
    let (out, err) = p.take_stdio();
    assert_eq!(out, "");
    assert_eq!(err, "");
}

#[test]
fn check_exited_records_first_code() {
    let mut p = LangRunnerProcess::new();
    assert_eq!(p.check_exited(WaitOutcome::Running), None);
    assert_eq!(p.exit_status(), None);
    assert_eq!(p.check_exited(WaitOutcome::Exited(Some(2))), Some(2));
    assert_eq!(p.check_exited(WaitOutcome::Exited(Some(5))), Some(2));
    assert_eq!(p.check_exited(WaitOutcome::Failed), Some(2));
    assert_eq!(p.stop(WaitOutcome::Exited(Some(7))), 2);
    assert!(p.write().is_ok());
}

#[test]
fn check_exited_unknown_codes() {
    let mut p = LangRunnerProcess::new();
    assert_eq!(p.check_exited(WaitOutcome::Failed), Some(UNKNOWN_EXIT));
    let mut q = LangRunnerProcess::new();
    assert_eq!(q.check_exited(WaitOutcome::Exited(None)), Some(-99));
}

#[test]
fn stop_closes_stdin_and_records_code() {
    let mut p = LangRunnerProcess::new();
    assert!(p.write().is_ok());
    assert_eq!(p.stop(WaitOutcome::Exited(Some(0))), 0);
    match p.write() {
        Err(Error::Unexpected(m)) => assert_eq!(m, "cannot write to closed runner stdin"),
        _ => panic!("expected refusal"),
    }
    assert_eq!(p.check_exited(WaitOutcome::Running), Some(0));
    let mut killed = LangRunnerProcess::new();
    assert_eq!(killed.stop(WaitOutcome::Running), UNKNOWN_EXIT);
    let mut failed = LangRunnerProcess::new();
    assert_eq!(failed.stop(WaitOutcome::Failed), -99);
}

#[test]
fn request_ids() {
    let mut p = LangRunnerProcess::new();
    assert_eq!(p.request_label(), "-");
    p.set_request_id(Some("req-1".to_string()));
    assert_eq!(p.request_label(), "req-1");
    p.set_request_id(None);
    assert_eq!(p.request_label(), "-");
}

#[test]
fn finish_request_sends_output_and_clears() {
    let mut p = LangRunnerProcess::new();
    p.set_request_id(Some("r".to_string()));
    p.record_stdout_line("printed");
    let out = RunnerOutput::Success {
        result: "{\"a\":1}".to_string(),
        metadata: RunnerMetadata { content_type: "json".to_string() },
    };
    let m = p.finish_request(Ok(out), Elapsed { secs: 1, nanos: 0 });
    match m {
        RunnerMessage::Success { result, metadata } => {
            assert_eq!(result, "{\"a\":1}");
            assert_eq!(metadata.stdout.unwrap(), "printed");
            assert_eq!(metadata.stderr.unwrap(), "");
            assert_eq!(metadata.content_type.unwrap(), "json");
        }
        RunnerMessage::Failure { .. } => panic!("expected success"),
    }
    assert_eq!(p.request_label(), "-");
    assert_eq!(p.take_stdio().0, "");
}

#[test]
fn exit_error_and_end_of_output() {
    let mut p = LangRunnerProcess::new();
    p.record_stderr_line("Segmentation fault");
    let e = p.exit_error(139);
    assert_eq!(e.message(), "exited with code 139");
    match e {
        Error::UnexpectedExit(_, _, err) => assert_eq!(err, "Segmentation fault\n"),
        _ => panic!("expected exit"),
    }
    assert_eq!(p.take_stdio().1, "");
    let m = p.finish_request(Err(end_of_output_error()), Elapsed::zero());
    assert!(m.exited_early());
    match m {
        RunnerMessage::Failure { error, .. } => assert_eq!(error.message, "No more JSON to read from the stream"),
        _ => panic!("expected failure"),
    }
}
