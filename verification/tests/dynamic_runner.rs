use langserver::dynamic_runner::{call_algorithm_input, dl_apply_input, BodyPart, DynCall, DynError, DynInput};

fn part(content_type: &str, data: &str) -> BodyPart {
    BodyPart {
        name: "input".to_string(),
        filename: None,
        data: data.to_string(),
        content_type: content_type.to_string(),
    }
}

#[test]
fn single_parts() {
    match call_algorithm_input(&vec![part("text", "Jane")]) {
        Ok(DynInput::Text(t)) => assert_eq!(t, "Jane"),
        _ => panic!("expected text"),
    }
    match call_algorithm_input(&vec![part("binary", "aGk=")]) {
        Ok(DynInput::Binary(b)) => assert_eq!(b, b"hi".to_vec()),
        _ => panic!("expected bytes"),
    }
    match call_algorithm_input(&vec![part("json", "{\"a\":1}")]) {
        Ok(DynInput::Json(j)) => assert_eq!(j, "{\"a\":1}"),
        _ => panic!("expected JSON"),
    }
}

#[test]
fn refused_requests() {
    match call_algorithm_input(&vec![]) {
        Err(DynError::Api(m)) => assert_eq!(m, "Empty Request"),
        _ => panic!("expected refusal"),
    }
    match call_algorithm_input(&vec![part("text", "a"), part("text", "b")]) {
        Err(DynError::Api(m)) => assert_eq!(m, "Rust algorithms don't currently support multipart"),
        _ => panic!("expected refusal"),
    }
    match call_algorithm_input(&vec![part("xml", "<a/>")]) {
        Err(DynError::Api(m)) => assert_eq!(m, "Unsupported content_type: xml"),
        _ => panic!("expected refusal"),
    }
    match call_algorithm_input(&vec![part("binary", "a")]) {
        Err(DynError::Base64(m)) => assert_eq!(m, "Invalid length"),
        _ => panic!("expected a decoding error"),
    }
}

#[test]
fn dynamic_call_arguments() {
    match dl_apply_input(DynInput::Text("Jane".to_string())) {
        Ok(DynCall::Text(t)) => assert_eq!(t, "Jane"),
        _ => panic!("expected text"),
    }
    match dl_apply_input(DynInput::Binary(vec![1, 2])) {
        Ok(DynCall::Binary(b)) => assert_eq!(b, vec![1, 2]),
        _ => panic!("expected bytes"),
    }
    match dl_apply_input(DynInput::Json("{}".to_string())) {
        Err(DynError::Api(m)) => assert_eq!(m, "JSON input is not yet supported... more serialization work to go."),
        _ => panic!("expected refusal"),
    }
}
