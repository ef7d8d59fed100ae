//! The runner that loads an algorithm built as a dynamic library: how a
//! request made of body parts selects the algorithm's input.

use vstd::prelude::*;
use vstd::string::*;

use crate::codec::{rustc_base64_decode, rustc_base64_decoding};
use crate::text::same;

verus! {

/// One part of a request body.
pub struct BodyPart {
    pub name: String,
    pub filename: Option<String>,
    pub data: String,
    pub content_type: String,
}

/// The algorithm's input: text, bytes, or JSON text.
pub enum DynInput {
    Text(String),
    Binary(Vec<u8>),
    Json(String),
}

/// The mathematical value of a [`DynInput`].
pub enum DynInputView {
    Text(Seq<char>),
    Binary(Seq<u8>),
    Json(Seq<char>),
}

impl View for DynInput {
    type V = DynInputView;

    open spec fn view(&self) -> DynInputView {
        match self {
            DynInput::Text(t) => DynInputView::Text(t@),
            DynInput::Binary(b) => DynInputView::Binary(b@),
            DynInput::Json(j) => DynInputView::Json(j@),
        }
    }
}

/// Why a request gives no input: an error reported to the caller with this
/// message, or binary data that is not base64 (the decoder's message).
pub enum DynError {
    Api(String),
    Base64(String),
}

/// The mathematical value of a [`DynError`].
pub enum DynErrorView {
    Api(Seq<char>),
    Base64(Seq<char>),
}

impl View for DynError {
    type V = DynErrorView;

    open spec fn view(&self) -> DynErrorView {
        match self {
            DynError::Api(m) => DynErrorView::Api(m@),
            DynError::Base64(m) => DynErrorView::Base64(m@),
        }
    }
}

/// The input of a request with one body part, by its content type.
pub open spec fn part_input(content_type: Seq<char>, data: Seq<char>) -> Result<DynInputView, DynErrorView> {
    if content_type == "text"@ {
        Ok(DynInputView::Text(data))
    } else if content_type == "binary"@ {
        match rustc_base64_decoding(data) {
            Ok(bytes) => Ok(DynInputView::Binary(bytes)),
            Err(m) => Err(DynErrorView::Base64(m)),
        }
    } else if content_type == "json"@ {
        Ok(DynInputView::Json(data))
    } else {
        Err(DynErrorView::Api("Unsupported content_type: "@ + content_type))
    }
}

/// The input of a request: it must have exactly one body part.
pub open spec fn request_input(parts: Seq<BodyPart>) -> Result<DynInputView, DynErrorView> {
    if parts.len() == 0 {
        Err(DynErrorView::Api("Empty Request"@))
    } else if parts.len() == 1 {
        part_input(parts[0].content_type@, parts[0].data@)
    } else {
        Err(DynErrorView::Api("Rust algorithms don't currently support multipart"@))
    }
}

/// Selects the algorithm's input from a request's body parts.
pub fn call_algorithm_input(body: &Vec<BodyPart>) -> (r: Result<DynInput, DynError>)
    ensures
        match r {
            Ok(input) => request_input(body@) == Ok::<DynInputView, DynErrorView>(input@),
            Err(e) => request_input(body@) == Err::<DynInputView, DynErrorView>(e@),
        },
{
    if body.len() == 0 {
        return Err(DynError::Api("Empty Request".to_owned()));
    }
    if body.len() > 1 {
        return Err(DynError::Api("Rust algorithms don't currently support multipart".to_owned()));
    }
    let part = &body[0];
    let ct = part.content_type.as_str();
    if same(ct, "text") {
        Ok(DynInput::Text(part.data.clone()))
    } else if same(ct, "binary") {
        match rustc_base64_decode(part.data.as_str()) {
            Ok(bytes) => Ok(DynInput::Binary(bytes)),
            Err(m) => Err(DynError::Base64(m)),
        }
    } else if same(ct, "json") {
        Ok(DynInput::Json(part.data.clone()))
    } else {
        let mut m = "Unsupported content_type: ".to_owned();
        m.append(ct);
        Err(DynError::Api(m))
    }
}

/// The argument that the algorithm's `apply` symbol is called with.
pub enum DynCall {
    Text(String),
    Binary(Vec<u8>),
}

/// What the loaded algorithm is called with for an input: text and bytes
/// as they are; JSON input is refused.
pub fn dl_apply_input(input: DynInput) -> (r: Result<DynCall, DynError>)
    ensures
        match input {
            DynInput::Text(t) => r matches Ok(DynCall::Text(a)) && a@ == t@,
            DynInput::Binary(b) => r matches Ok(DynCall::Binary(a)) && a@ == b@,
            DynInput::Json(_) => r matches Err(e) && e@ == DynErrorView::Api(
                "JSON input is not yet supported... more serialization work to go."@,
            ),
        },
{
    match input {
        DynInput::Text(t) => Ok(DynCall::Text(t)),
        DynInput::Binary(b) => Ok(DynCall::Binary(b)),
        DynInput::Json(_) => Err(DynError::Api("JSON input is not yet supported... more serialization work to go.".to_owned())),
    }
}

} // verus!
