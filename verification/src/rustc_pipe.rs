//! The earlier pipe of Rust algorithms, written with `rustc-serialize`:
//! how a request's content type and data become the algorithm's input, and
//! how the output or error is written back.

use vstd::prelude::*;
use vstd::string::*;

use vstd::utf8::encode_utf8;

use crate::codec::{
    json_nesting,
    nesting_depth,
    rustc_json_member,
    rustc_json_member_of,
    MAX_JSON_NESTING,
    rustc_base64_decode,
    rustc_base64_decoding,
    rustc_base64_encode,
    rustc_base64_encoding,
    rustc_json_quote,
    rustc_json_string_encoding,
};
use crate::pipe::{AlgoInput, AlgoInputView, AlgoOutput, JsonData, JsonDataView};
use crate::text::same;

verus! {

/// The requests this pipe takes: `text` and `binary` with a string, and
/// `json` with any value. It stops on any other.
pub open spec fn supported(content_type: Seq<char>, data: JsonDataView) -> bool {
    ((content_type == "text"@ || content_type == "binary"@) && data is Str) || content_type == "json"@
}

/// The input for a supported request, or the base64 decoder's message.
pub open spec fn input_for(content_type: Seq<char>, data: JsonDataView) -> Result<AlgoInputView, Seq<char>> {
    if content_type == "text"@ && data is Str {
        Ok(AlgoInputView::Text(data->Str_0))
    } else if content_type == "binary"@ && data is Str {
        match rustc_base64_decoding(data->Str_0) {
            Ok(bytes) => Ok(AlgoInputView::Binary(bytes)),
            Err(m) => Err(m),
        }
    } else {
        Ok(AlgoInputView::Json(data))
    }
}

/// The algorithm's input for a supported request.
pub fn decode_request(content_type: &str, data: JsonData) -> (r: Result<AlgoInput, String>)
    requires
        data@.is_canonical(),
        supported(content_type@, data@),
    ensures
        match r {
            Ok(input) => input_for(content_type@, data@) == Ok::<AlgoInputView, Seq<char>>(input@),
            Err(m) => input_for(content_type@, data@) == Err::<AlgoInputView, Seq<char>>(m@),
        },
{
    match data {
        JsonData::Str(s) => {
            if same(content_type, "text") {
                Ok(AlgoInput::Text(s))
            } else if same(content_type, "binary") {
                match rustc_base64_decode(s.as_str()) {
                    Ok(bytes) => Ok(AlgoInput::Binary(bytes)),
                    Err(m) => Err(m),
                }
            } else {
                Ok(AlgoInput::Json(JsonData::Str(s)))
            }
        },
        JsonData::Other(t) => Ok(AlgoInput::Json(JsonData::Other(t))),
    }
}

/// The input for a request line, or `None` where the pipe stops: a line
/// that nests arrays and objects deeper than `rustc_serialize` is given,
/// that is not JSON, that lacks `data` or a string `content_type`, or that
/// names a content type it does not take.
pub open spec fn line_input(line: Seq<char>) -> Option<Result<AlgoInputView, Seq<char>>> {
    if json_nesting(encode_utf8(line)) > MAX_JSON_NESTING {
        None
    } else {
        match (rustc_json_member_of(line, "data"@), rustc_json_member_of(line, "content_type"@)) {
            (Some(Some(data)), Some(Some(JsonDataView::Str(content_type)))) => if supported(content_type, data) {
                Some(input_for(content_type, data))
            } else {
                None
            },
            _ => None,
        }
    }
}

/// Reads a request line and gives the algorithm's input, or the base64
/// decoder's message; `None` for a line on which the pipe stops.
pub fn call_algorithm_input(line: &str) -> (r: Option<Result<AlgoInput, String>>)
    ensures
        match line_input(line@) {
            None => r is None,
            Some(Ok(input)) => r matches Some(Ok(got)) && got@ == input,
            Some(Err(m)) => r matches Some(Err(got)) && got@ == m,
        },
{
    if nesting_depth(line) > MAX_JSON_NESTING {
        return None;
    }
    let data = match rustc_json_member(line, "data") {
        Some(Some(data)) => data,
        _ => return None,
    };
    let content_type = match rustc_json_member(line, "content_type") {
        Some(Some(JsonData::Str(content_type))) => content_type,
        _ => return None,
    };
    let ct = content_type.as_str();
    let supported_here = match &data {
        JsonData::Str(_) => same(ct, "text") || same(ct, "binary") || same(ct, "json"),
        JsonData::Other(_) => same(ct, "json"),
    };
    if !supported_here {
        return None;
    }
    Some(decode_request(ct, data))
}

/// The JSON text of a value, strings written as `rustc-serialize` writes
/// them.
pub open spec fn value_text(v: JsonDataView) -> Seq<char> {
    match v {
        JsonDataView::Str(s) => rustc_json_string_encoding(s),
        JsonDataView::Other(t) => t,
    }
}

/// `{"result":<value>,"content_type":"<type>"}`.
pub open spec fn success_text(result: JsonDataView, content_type: Seq<char>) -> Seq<char> {
    "{\"result\":"@ + value_text(result) + ",\"content_type\":"@ + rustc_json_string_encoding(content_type) + "}"@
}

/// `{"message":"<message>","error_type":"<type>"}`.
pub open spec fn failure_text(message: Seq<char>, error_type: Seq<char>) -> Seq<char> {
    "{\"message\":"@ + rustc_json_string_encoding(message) + ",\"error_type\":"@ + rustc_json_string_encoding(
        error_type,
    ) + "}"@
}

fn success_json(result: &JsonData, content_type: &str) -> (t: String)
    ensures
        t@ == success_text(result@, content_type@),
{
    let mut t = "{\"result\":".to_owned();
    match result {
        JsonData::Str(s) => {
            let q = rustc_json_quote(s.as_str());
            t.append(q.as_str());
        },
        JsonData::Other(v) => t.append(v.as_str()),
    }
    t.append(",\"content_type\":");
    let q = rustc_json_quote(content_type);
    t.append(q.as_str());
    t.append("}");
    t
}

/// The line written back for the algorithm's output, or for its error given
/// by the error's description: text as a string typed `text`, a JSON value
/// as it is typed `json`, bytes as base64 typed `binary`, and an error typed
/// `AlgorithmError`.
pub fn serialize_output(output: Result<AlgoOutput, String>) -> (line: String)
    ensures
        match output {
            Ok(AlgoOutput::Text(t)) => line@ == success_text(JsonDataView::Str(t@), "text"@),
            Ok(AlgoOutput::Json(j)) => line@ == success_text(j@, "json"@),
            Ok(AlgoOutput::Binary(b)) => line@ == success_text(JsonDataView::Str(rustc_base64_encoding(b@)), "binary"@),
            Err(description) => line@ == failure_text(description@, "AlgorithmError"@),
        },
{
    match output {
        Ok(AlgoOutput::Text(text)) => success_json(&JsonData::Str(text), "text"),
        Ok(AlgoOutput::Json(value)) => success_json(&value, "json"),
        Ok(AlgoOutput::Binary(bytes)) => {
            let encoded = rustc_base64_encode(bytes.as_slice());
            success_json(&JsonData::Str(encoded), "binary")
        },
        Err(description) => {
            let mut t = "{\"message\":".to_owned();
            let q = rustc_json_quote(description.as_str());
            t.append(q.as_str());
            t.append(",\"error_type\":");
            let q = rustc_json_quote("AlgorithmError");
            t.append(q.as_str());
            t.append("}");
            t
        },
    }
}

/// A `json` request hands the algorithm its data as JSON, a string as much
/// as any other value; only a `text` request gives text input, and only a
/// `binary` one bytes. A request line that nests within the limit, with
/// string `content_type` `json` and some `data`, gives that data as JSON.
pub proof fn json_requests_keep_their_value(content_type: Seq<char>, data: JsonDataView, line: Seq<char>)
    ensures
        supported("json"@, data),
        input_for("json"@, data) == Ok::<AlgoInputView, Seq<char>>(AlgoInputView::Json(data)),
        data is Str ==> input_for("text"@, data) == Ok::<AlgoInputView, Seq<char>>(AlgoInputView::Text(data->Str_0)),
        input_for(content_type, data) matches Ok(AlgoInputView::Text(_)) ==> content_type == "text"@,
        input_for(content_type, data) matches Ok(AlgoInputView::Binary(_)) ==> content_type == "binary"@,
        json_nesting(encode_utf8(line)) <= MAX_JSON_NESTING && rustc_json_member_of(line, "data"@) == Some(Some(data))
            && rustc_json_member_of(line, "content_type"@) == Some(Some(JsonDataView::Str("json"@)))
            ==> line_input(line) == Some(Ok::<AlgoInputView, Seq<char>>(AlgoInputView::Json(data))),
{
    reveal_strlit("json");
    reveal_strlit("text");
    reveal_strlit("binary");
    assert("json"@.len() == 4 && "text"@.len() == 4 && "binary"@.len() == 6);
    assert("json"@[0] == 'j' && "text"@[0] == 't');
    assert("json"@ != "text"@ && "json"@ != "binary"@);
}

} // verus!
