use langserver::error::Error;
use langserver::message::{Elapsed, RunnerMessage, RunnerState};
use langserver::notifier::Notifier;
use langserver::server::{
    async_reply, input_failure_reply, jsonerr, jsonres, request_id, stop_after_delivery, sync_reply,
    terminate_reply, write_failure_reply, AlgoRequest, Header, InputData, InputStep, LangServer, LangServerMode,
    MediaType, Method, MimeSub, MimeTop, MonitorAction, Route, WriteStep,
};

fn json_type() -> Option<MediaType> {
    Some(MediaType { top: MimeTop::Application, sub: MimeSub::Json })
}

fn text_type() -> Option<MediaType> {
    Some(MediaType { top: MimeTop::Text, sub: MimeSub::Plain })
}

fn binary_type() -> Option<MediaType> {
    Some(MediaType { top: MimeTop::Application, sub: MimeSub::Ext })
}

fn build(enc: Option<Vec<String>>, ct: Option<MediaType>, body: &[u8]) -> Result<AlgoRequest, Error> {
    LangServer::start(LangServerMode::Sync).build_input(&enc, &ct, body)
}

#[test]
fn json_body_is_reencoded() {
    let r = build(None, json_type(), b" { \"a\" : [1, 2] } ").unwrap();
    assert_eq!(r.content_type, "json");
    match r.data {
        InputData::Json(t) => assert_eq!(t, "{\"a\":[1,2]}"),
        InputData::Text(_) => panic!("expected JSON"),
    }
}

#[test]
fn invalid_json_body_is_serde_error() {
    match build(None, json_type(), b"{") {
        Err(Error::SerdeError(m)) => assert_eq!(m, "EOF while parsing an object at line 1 column 1"),
        _ => panic!("expected a JSON error"),
    }
}

#[test]
fn text_body() {
    let r = build(None, text_type(), "héllo".as_bytes()).unwrap();
    assert_eq!(r.content_type, "text");
    match r.data {
        InputData::Text(t) => assert_eq!(t, "héllo"),
        InputData::Json(_) => panic!("expected text"),
    }
    match build(None, text_type(), &[0xff, 0xfe]) {
        Err(e) => assert_eq!(e.message(), "IO error - stream did not contain valid UTF-8"),
        Ok(_) => panic!("expected an I/O error"),
    }
}

#[test]
fn binary_body_is_base64_encoded() {
    let r = build(None, binary_type(), b"hi").unwrap();
    assert_eq!(r.content_type, "binary");
    match r.data {
        InputData::Text(t) => assert_eq!(t, "aGk="),
        InputData::Json(_) => panic!("expected text"),
    }
    let r = build(Some(vec!["base64".to_string()]), binary_type(), b"aGk=").unwrap();
    match r.data {
        InputData::Text(t) => assert_eq!(t, "aGk="),
        InputData::Json(_) => panic!("expected text"),
    }
}

#[test]
fn encodings_and_missing_types() {
    match build(Some(vec!["gzip".to_string()]), binary_type(), b"x") {
        Err(e) => assert_eq!(e.message(), "bad request: Unexpected ContentEncoding gzip"),
        Ok(_) => panic!("expected refusal"),
    }
    match build(Some(vec!["base64".to_string(), "gzip".to_string()]), binary_type(), b"x") {
        Err(e) => assert_eq!(e.message(), "bad request: Too many ContentEncoding headers Error"),
        Ok(_) => panic!("expected refusal"),
    }
    match build(Some(vec![]), text_type(), b"x") {
        Err(Error::BadRequest(m)) => assert_eq!(m, "Too many ContentEncoding headers Error"),
        _ => panic!("expected refusal"),
    }
    match build(None, None, b"x") {
        Err(e) => assert_eq!(e.message(), "bad request: Missing ContentType"),
        Ok(_) => panic!("expected refusal"),
    }
    let octet = Some(MediaType { top: MimeTop::Application, sub: MimeSub::Other });
    assert!(build(None, octet, b"x").is_err());
    let html = Some(MediaType { top: MimeTop::Text, sub: MimeSub::Other });
    assert!(build(None, html, b"x").is_err());
    let other_json = Some(MediaType { top: MimeTop::Other, sub: MimeSub::Json });
    assert!(build(None, other_json, b"1").is_err());
}

#[test]
fn checked_input_refuses_non_utf8_base64() {
    let server = LangServer::start(LangServerMode::Sync);
    let enc = Some(vec!["base64".to_string()]);
    assert!(server.build_input_checked(&enc, &binary_type(), &[0xff]).is_none());
    assert!(server.build_input_checked(&enc, &binary_type(), b"AA==").is_some());
    assert!(server.build_input_checked(&None, &binary_type(), &[0xff]).is_some());
    assert!(server.build_input_checked(&enc, &text_type(), &[0xff]).unwrap().is_err());
}

#[test]
fn proxied_headers() {
    let server = LangServer::start(LangServerMode::Sync);
    let h = |n: &str, v: &str| Header { name: n.to_string(), value: v.to_string() };
    let headers = vec![
        h("X-Request-Id", "abc"),
        h("Content-Type", "text/plain"),
        h("X-Forwarded-For", "1.2.3.4"),
        h("x-lower", "no"),
    ];
    let out = server.get_proxied_headers(&headers);
    assert_eq!(out.len(), 2);
    assert_eq!(out[0].name, "X-Request-Id");
    assert_eq!(out[0].value, "abc");
    assert_eq!(out[1].name, "X-Forwarded-For");
    assert!(server.get_proxied_headers(&vec![]).is_empty());
}

#[test]
fn routing() {
    let mut server = LangServer::start(LangServerMode::Sync);
    match server.route(Method::Get) {
        Route::Respond(r) => {
            assert_eq!(r.status, 200);
            assert_eq!(r.body, "{\"result\":\"LangServer alive.\"}");
            assert!(!r.terminate);
        }
        _ => panic!("expected a reply"),
    }
    match server.route(Method::Other) {
        Route::Respond(r) => {
            assert_eq!(r.status, 405);
            assert_eq!(r.body, "{\"error\":{\"type\":\"SystemError\",\"message\":\"Method not allowed\"}}");
        }
        _ => panic!("expected a reply"),
    }
    assert!(matches!(server.route(Method::Post), Route::RunAlgorithm));
    assert!(!server.delete_signalled());
    assert!(matches!(server.route(Method::Delete), Route::Terminate));
    assert!(server.delete_signalled());
}

#[test]
fn monitoring() {
    let mut server = LangServer::start(LangServerMode::Sync);
    assert!(matches!(server.monitor_step(None), MonitorAction::Continue));
    assert!(matches!(
        server.monitor_step(Some(3)),
        MonitorAction::ReportExit { code: 3, exit_process: true }
    ));
    server.route(Method::Delete);
    assert!(matches!(server.monitor_step(Some(3)), MonitorAction::Quit));
    assert!(matches!(server.monitor_step(None), MonitorAction::Quit));

    let notifier = Notifier::parse("http://localhost/done").unwrap();
    let server = LangServer::start(LangServerMode::Async(notifier));
    assert!(matches!(server.mode(), LangServerMode::Async(_)));
    assert!(matches!(
        server.monitor_step(Some(-99)),
        MonitorAction::ReportExit { code: -99, exit_process: false }
    ));
}

#[test]
fn replies() {
    assert_eq!(jsonres("ok"), "{\"result\":\"ok\"}");
    assert_eq!(jsonerr("bad"), "{\"error\":{\"type\":\"SystemError\",\"message\":\"bad\"}}");
    let r = input_failure_reply(&Error::BadRequest("Missing ContentType".to_string()));
    assert_eq!(r.status, 400);
    assert_eq!(
        r.body,
        "{\"error\":{\"type\":\"SystemError\",\"message\":\"Failed to build algorithm input from request: bad request: Missing ContentType\"}}"
    );
    assert!(!r.terminate);
    let w = write_failure_reply(&Error::IoError("Broken pipe".to_string()));
    assert_eq!(w.status, 400);
    assert_eq!(
        w.body,
        "{\"error\":{\"type\":\"SystemError\",\"message\":\"Failed to write to runner stdin: IO error - Broken pipe\"}}"
    );
    let a = async_reply();
    assert_eq!(a.status, 202);
    assert_eq!(a.body, "{\"result\":\"Algorithm started.\"}");
    assert!(!a.terminate);
    let t = terminate_reply(-99);
    assert_eq!(t.status, 200);
    assert_eq!(t.body, "{\"result\":\"Runner exited: -99\"}");
    assert!(t.terminate);
    assert_eq!(request_id(None), "-");
    assert_eq!(request_id(Some("id-1".to_string())), "id-1");
    assert!(stop_after_delivery(&Err(Error::HttpError("x".to_string()))));
    assert!(!stop_after_delivery(&Ok(())));
}

#[test]
fn sync_replies() {
    let exited: RunnerMessage =
        RunnerState::Exited(Error::UnexpectedExit(1, String::new(), String::new())).into_message(Elapsed::zero(), None, None);
    let r = sync_reply(&exited, Ok("{\"error\":{}}".to_string()));
    assert_eq!(r.status, 200);
    assert_eq!(r.body, "{\"error\":{}}");
    assert!(r.terminate);
    let e = sync_reply(&exited, Err("key must be a string".to_string()));
    assert_eq!(e.status, 500);
    assert_eq!(
        e.body,
        "{\"error\":{\"type\":\"SystemError\",\"message\":\"Failed to encode RunnerState: key must be a string\"}}"
    );
    assert!(e.terminate);
}

#[test]
fn request_steps() {
    let sync = LangServer::start(LangServerMode::Sync);
    match sync.after_input("id-1".to_string(), Err(Error::BadRequest("Missing ContentType".to_string()))) {
        InputStep::Reply(r) => {
            assert_eq!(r.status, 400);
            assert!(!r.terminate);
        }
        InputStep::Send { .. } => panic!("nothing is sent for a bad input"),
    }
    let req = AlgoRequest { content_type: "text".to_string(), data: InputData::Text("Jane".to_string()) };
    match sync.after_input("id-2".to_string(), Ok(req)) {
        InputStep::Send { request_id, input } => {
            assert_eq!(request_id, "id-2");
            assert_eq!(input.content_type, "text");
        }
        InputStep::Reply(_) => panic!("expected to send"),
    }
    assert!(matches!(sync.after_write(Ok(())), WriteStep::AwaitAnswer));
    match sync.after_write(Err(Error::IoError("Broken pipe".to_string()))) {
        WriteStep::Reply(r) => assert_eq!(r.status, 400),
        _ => panic!("expected a reply"),
    }
    let notifier = Notifier::parse("http://localhost/done").unwrap();
    let asynchronous = LangServer::start(LangServerMode::Async(notifier));
    match asynchronous.after_write(Ok(())) {
        WriteStep::Accepted(r) => {
            assert_eq!(r.status, 202);
            assert_eq!(r.body, "{\"result\":\"Algorithm started.\"}");
        }
        _ => panic!("expected to accept"),
    }
    match asynchronous.mode() {
        LangServerMode::Async(n) => assert_eq!(n.destination(), "http://localhost/done"),
        LangServerMode::Sync => panic!("expected the asynchronous mode"),
    }
}

#[test]
fn header_refusals_before_body() {
    let server = LangServer::start(LangServerMode::Sync);
    match server.input_error_before_body(&None, &None) {
        Some(e) => assert_eq!(e.message(), "bad request: Missing ContentType"),
        None => panic!("expected refusal"),
    }
    match server.input_error_before_body(&Some(vec!["gzip".to_string()]), &text_type()) {
        Some(e) => assert_eq!(e.message(), "bad request: Unexpected ContentEncoding gzip"),
        None => panic!("expected refusal"),
    }
    assert!(server.input_error_before_body(&None, &json_type()).is_none());
    assert_eq!(
        server.body_read_failure(&json_type(), "connection reset".to_string()).message(),
        "JSON error - connection reset"
    );
    assert_eq!(
        server.body_read_failure(&binary_type(), "connection reset".to_string()).message(),
        "IO error - connection reset"
    );
}
