use langserver::pipe::{AlgoInput, AlgoOutput, JsonData};
use langserver::codec::nesting_depth;
use langserver::rustc_pipe::{call_algorithm_input, decode_request, serialize_output};

#[test]
fn rustc_pipe_inputs() {
    match decode_request("text", JsonData::Str("Jane".to_string())) {
        Ok(AlgoInput::Text(t)) => assert_eq!(t, "Jane"),
        _ => panic!("expected text"),
    }
    match decode_request("binary", JsonData::Str("aGk=".to_string())) {
        Ok(AlgoInput::Binary(b)) => assert_eq!(b, b"hi".to_vec()),
        _ => panic!("expected bytes"),
    }
    match decode_request("binary", JsonData::Str("a".to_string())) {
        Err(m) => assert_eq!(m, "Invalid length"),
        _ => panic!("expected a decoding error"),
    }
    match decode_request("json", JsonData::Other("[true]".to_string())) {
        Ok(AlgoInput::Json(JsonData::Other(t))) => assert_eq!(t, "[true]"),
        _ => panic!("expected JSON"),
    }
}

#[test]
fn rustc_pipe_outputs() {
    assert_eq!(
        serialize_output(Ok(AlgoOutput::Text("Hello Jane".to_string()))),
        "{\"result\":\"Hello Jane\",\"content_type\":\"text\"}"
    );
    assert_eq!(
        serialize_output(Ok(AlgoOutput::Binary(b"hi".to_vec()))),
        "{\"result\":\"aGk=\",\"content_type\":\"binary\"}"
    );
    assert_eq!(
        serialize_output(Ok(AlgoOutput::Json(JsonData::Other("{\"a\":[1]}".to_string())))),
        "{\"result\":{\"a\":[1]},\"content_type\":\"json\"}"
    );
    assert_eq!(
        serialize_output(Err("tab\there \u{1}".to_string())),
        "{\"message\":\"tab\\there \\u0001\",\"error_type\":\"AlgorithmError\"}"
    );
}

#[test]
fn rustc_pipe_request_lines() {
    match call_algorithm_input("{\"content_type\":\"text\",\"data\":\"Jane\"}") {
        Some(Ok(AlgoInput::Text(t))) => assert_eq!(t, "Jane"),
        _ => panic!("expected text"),
    }
    match call_algorithm_input("{\"content_type\":\"json\",\"data\":{\"a\":[1, 2]}}") {
        Some(Ok(AlgoInput::Json(JsonData::Other(t)))) => assert_eq!(t, "{\"a\":[1,2]}"),
        _ => panic!("expected JSON"),
    }
    match call_algorithm_input("{\"content_type\":\"binary\",\"data\":\"aGk=\"}") {
        Some(Ok(AlgoInput::Binary(b))) => assert_eq!(b, b"hi".to_vec()),
        _ => panic!("expected bytes"),
    }
    assert!(call_algorithm_input("not json").is_none());
    assert!(call_algorithm_input("{\"content_type\":\"text\"}").is_none());
    assert!(call_algorithm_input("{\"content_type\":1,\"data\":\"x\"}").is_none());
    assert!(call_algorithm_input("{\"content_type\":\"xml\",\"data\":\"x\"}").is_none());
    assert!(call_algorithm_input("{\"content_type\":\"text\",\"data\":3}").is_none());
}

#[test]
fn rustc_pipe_nesting_limit() {
    assert_eq!(nesting_depth("{\"a\":[1,{\"b\":\"[[[\"}]}"), 3);
    assert_eq!(nesting_depth("\"\\\"[\""), 0);
    assert_eq!(nesting_depth("]]["), 1);
    let deep = format!("{{\"content_type\":\"json\",\"data\":{}1{}}}", "[".repeat(511), "]".repeat(511));
    assert_eq!(nesting_depth(&deep), 512);
    match call_algorithm_input(&deep) {
        Some(Ok(AlgoInput::Json(JsonData::Other(t)))) => assert_eq!(t.len(), 1 + 2 * 511),
        _ => panic!("expected JSON"),
    }
    let deeper = format!("{{\"content_type\":\"json\",\"data\":{}1{}}}", "[".repeat(512), "]".repeat(512));
    assert_eq!(nesting_depth(&deeper), 513);
    assert!(call_algorithm_input(&deeper).is_none());
    let huge = "[".repeat(200_000);
    assert!(call_algorithm_input(&huge).is_none());
}

#[test]
fn rustc_pipe_escapes_del() {
    assert_eq!(
        serialize_output(Ok(AlgoOutput::Text("\u{7f}\u{b}\"".to_string()))),
        "{\"result\":\"\\u007f\\u000b\\\"\",\"content_type\":\"text\"}"
    );
}
