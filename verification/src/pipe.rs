//! The algorithm side of the protocol (`bin/pipe`): how a request line's
//! content type and data become the algorithm's input, and how the
//! algorithm's output or error is written back as one line of JSON.

use vstd::prelude::*;
use vstd::string::*;

use crate::codec::{
    base64_decode,
    base64_decoding,
    base64_encode,
    base64_encoding,
    json_quote,
    json_string_encoding,
};
use crate::server::{input_of, MediaType, MimeSub, MimeTop};
use crate::text::same;

verus! {

/// A JSON value of a request or a result: a string, or any other value as
/// its compact JSON text.
pub enum JsonData {
    Str(String),
    Other(String),
}

/// The mathematical value of a [`JsonData`].
pub enum JsonDataView {
    Str(Seq<char>),
    Other(Seq<char>),
}

impl JsonDataView {
    /// A string value is held as `Str`: the JSON text held by `Other` is
    /// not a string literal (the compact text of a string value, and only
    /// of one, begins with `"`).
    pub open spec fn is_canonical(self) -> bool {
        match self {
            JsonDataView::Str(_) => true,
            JsonDataView::Other(t) => !(t.len() > 0 && t[0] == '"'),
        }
    }
}

impl View for JsonData {
    type V = JsonDataView;

    open spec fn view(&self) -> JsonDataView {
        match self {
            JsonData::Str(s) => JsonDataView::Str(s@),
            JsonData::Other(t) => JsonDataView::Other(t@),
        }
    }
}

/// The algorithm's input.
pub enum AlgoInput {
    Text(String),
    Binary(Vec<u8>),
    Json(JsonData),
}

/// The mathematical value of an [`AlgoInput`].
pub enum AlgoInputView {
    Text(Seq<char>),
    Binary(Seq<u8>),
    Json(JsonDataView),
}

impl View for AlgoInput {
    type V = AlgoInputView;

    open spec fn view(&self) -> AlgoInputView {
        match self {
            AlgoInput::Text(s) => AlgoInputView::Text(s@),
            AlgoInput::Binary(b) => AlgoInputView::Binary(b@),
            AlgoInput::Json(j) => AlgoInputView::Json(j@),
        }
    }
}

/// The algorithm's output.
pub enum AlgoOutput {
    Text(String),
    Json(JsonData),
    Binary(Vec<u8>),
}

/// Why a request line gives no input: it is not a request (what was being
/// decoded, `request`, and the parser's message), its binary data is not
/// base64 (`request input` and the decoder's message), or its content type
/// is not one of `text`, `binary` and `json` for its data.
pub enum RequestError {
    DecodeJson { context: String, cause: String },
    DecodeBase64 { context: String, cause: String },
    InvalidContentType(String),
}

/// The mathematical value of a [`RequestError`].
pub enum RequestErrorView {
    DecodeJson { context: Seq<char>, cause: Seq<char> },
    DecodeBase64 { context: Seq<char>, cause: Seq<char> },
    InvalidContentType(Seq<char>),
}

impl View for RequestError {
    type V = RequestErrorView;

    open spec fn view(&self) -> RequestErrorView {
        match self {
            RequestError::DecodeJson { context, cause } => RequestErrorView::DecodeJson {
                context: context@,
                cause: cause@,
            },
            RequestError::DecodeBase64 { context, cause } => RequestErrorView::DecodeBase64 {
                context: context@,
                cause: cause@,
            },
            RequestError::InvalidContentType(c) => RequestErrorView::InvalidContentType(c@),
        }
    }
}

/// The input given by a request's content type and data: `text` takes a
/// string as it is, `binary` a string of base64, `json` any value.
pub open spec fn input_for(content_type: Seq<char>, data: JsonDataView) -> Result<AlgoInputView, RequestErrorView> {
    if content_type == "text"@ && data is Str {
        Ok(AlgoInputView::Text(data->Str_0))
    } else if content_type == "binary"@ && data is Str {
        match base64_decoding(data->Str_0) {
            Ok(bytes) => Ok(AlgoInputView::Binary(bytes)),
            Err(m) => Err(RequestErrorView::DecodeBase64 { context: "request input"@, cause: m }),
        }
    } else if content_type == "json"@ {
        Ok(AlgoInputView::Json(data))
    } else {
        Err(RequestErrorView::InvalidContentType(content_type))
    }
}

/// The algorithm's input for a request with `content_type` and `data`.
pub fn decode_request(content_type: &str, data: JsonData) -> (r: Result<AlgoInput, RequestError>)
    requires
        data@.is_canonical(),
    ensures
        match r {
            Ok(input) => input_for(content_type@, data@) == Ok::<AlgoInputView, RequestErrorView>(input@),
            Err(e) => input_for(content_type@, data@) == Err::<AlgoInputView, RequestErrorView>(e@),
        },
{
    let ghost data_view = data@;
    match data {
        JsonData::Str(s) => {
            if same(content_type, "text") {
                return Ok(AlgoInput::Text(s));
            }
            if same(content_type, "binary") {
                return match base64_decode(s.as_str()) {
                    Ok(bytes) => Ok(AlgoInput::Binary(bytes)),
                    Err(m) => Err(RequestError::DecodeBase64 { context: "request input".to_owned(), cause: m }),
                };
            }
            if same(content_type, "json") {
                return Ok(AlgoInput::Json(JsonData::Str(s)));
            }
        },
        JsonData::Other(t) => {
            if same(content_type, "json") {
                return Ok(AlgoInput::Json(JsonData::Other(t)));
            }
        },
    }
    Err(RequestError::InvalidContentType(content_type.to_owned()))
}

/// The views of what parsing a request line gave: its content type and data,
/// or the parser's message.
pub open spec fn parsed_view(parsed: Result<(String, JsonData), String>) -> Result<(Seq<char>, JsonDataView), Seq<char>> {
    match parsed {
        Ok((content_type, data)) => Ok((content_type@, data@)),
        Err(m) => Err(m@),
    }
}

/// The input for a request line, given what parsing it as a request gave:
/// a line that is not a request fails to decode as the `request`.
pub open spec fn request_input(parsed: Result<(Seq<char>, JsonDataView), Seq<char>>) -> Result<AlgoInputView, RequestErrorView> {
    match parsed {
        Ok((content_type, data)) => input_for(content_type, data),
        Err(m) => Err(RequestErrorView::DecodeJson { context: "request"@, cause: m }),
    }
}

/// The algorithm's input for a request line, given what parsing the line as
/// a request (a string `content_type` and any `data`) gave: the content type
/// and data, or the parser's message.
pub fn call_algorithm_input(parsed: Result<(String, JsonData), String>) -> (r: Result<AlgoInput, RequestError>)
    requires
        parsed matches Ok((_, data)) ==> data@.is_canonical(),
    ensures
        match r {
            Ok(input) => request_input(parsed_view(parsed)) == Ok::<AlgoInputView, RequestErrorView>(input@),
            Err(e) => request_input(parsed_view(parsed)) == Err::<AlgoInputView, RequestErrorView>(e@),
        },
{
    match parsed {
        Ok((content_type, data)) => decode_request(content_type.as_str(), data),
        Err(cause) => Err(RequestError::DecodeJson { context: "request".to_owned(), cause }),
    }
}

/// A successful result: the value and its content type.
pub struct AlgoSuccess {
    pub result: JsonData,
    pub content_type: String,
}

/// A failure written back: its message and type.
pub struct AlgoFailure {
    pub message: String,
    pub error_type: String,
}

impl AlgoSuccess {
    /// A result with its content type.
    pub fn new(result: JsonData, content_type: String) -> (s: AlgoSuccess)
        ensures
            s.result@ == result@,
            s.content_type@ == content_type@,
    {
        AlgoSuccess { result, content_type }
    }

    /// The result written for an output: text as a string typed `text`, a
    /// JSON value as it is typed `json`, and bytes as a string of base64
    /// typed `binary`.
    pub fn from(output: AlgoOutput) -> (s: AlgoSuccess)
        ensures
            match output {
                AlgoOutput::Text(t) => s.result@ == JsonDataView::Str(t@) && s.content_type@ == "text"@,
                AlgoOutput::Json(j) => s.result@ == j@ && s.content_type@ == "json"@,
                AlgoOutput::Binary(b) => s.result@ == JsonDataView::Str(base64_encoding(b@))
                    && s.content_type@ == "binary"@,
            },
    {
        match output {
            AlgoOutput::Text(text) => AlgoSuccess::new(JsonData::Str(text), "text".to_owned()),
            AlgoOutput::Json(value) => AlgoSuccess::new(value, "json".to_owned()),
            AlgoOutput::Binary(bytes) => {
                let encoded = base64_encode(bytes.as_slice());
                AlgoSuccess::new(JsonData::Str(encoded), "binary".to_owned())
            },
        }
    }
}

/// The messages of an error and of its causes, in order, each after the
/// one before and `"\ncaused by: "`.
pub open spec fn cause_chain(messages: Seq<Seq<char>>) -> Seq<char>
    decreases messages.len(),
{
    if messages.len() == 0 {
        Seq::empty()
    } else if messages.len() == 1 {
        messages[0]
    } else {
        cause_chain(messages.drop_last()) + "\ncaused by: "@ + messages.last()
    }
}

/// The views of a list of strings.
pub open spec fn strings_view(v: Seq<String>) -> Seq<Seq<char>> {
    v.map_values(|s: String| s@)
}

/// Joins the messages of an error and of its causes (the error's own first)
/// into one message.
pub fn error_cause_chain(messages: &Vec<String>) -> (chain: String)
    ensures
        chain@ == cause_chain(strings_view(messages@)),
{
    let mut chain = String::new();
    let n = messages.len();
    for i in 0..n
        invariant
            n == messages@.len(),
            chain@ == cause_chain(strings_view(messages@.take(i as int))),
    {
        assert(strings_view(messages@.take(i + 1)).drop_last() =~= strings_view(messages@.take(i as int)));
        assert(strings_view(messages@.take(i + 1)).last() == messages@[i as int]@);
        if i == 0 {
            assert(strings_view(messages@.take(0)) =~= Seq::<Seq<char>>::empty());
            chain.append(messages[i].as_str());
            assert(chain@ =~= messages@[0]@);
        } else {
            chain.append("\ncaused by: ");
            chain.append(messages[i].as_str());
        }
    }
    assert(messages@.take(n as int) =~= messages@);
    chain
}

impl AlgoFailure {
    /// The failure of the algorithm: its error's cause chain, typed
    /// `AlgorithmError`.
    pub fn new(messages: &Vec<String>) -> (f: AlgoFailure)
        ensures
            f.message@ == cause_chain(strings_view(messages@)),
            f.error_type@ == "AlgorithmError"@,
    {
        AlgoFailure { message: error_cause_chain(messages), error_type: "AlgorithmError".to_owned() }
    }

    /// A failure of the pipe itself: the error's cause chain, typed
    /// `SystemError`.
    pub fn system(messages: &Vec<String>) -> (f: AlgoFailure)
        ensures
            f.message@ == cause_chain(strings_view(messages@)),
            f.error_type@ == "SystemError"@,
    {
        AlgoFailure { message: error_cause_chain(messages), error_type: "SystemError".to_owned() }
    }
}

/// The JSON text of a value.
pub open spec fn value_text(v: JsonDataView) -> Seq<char> {
    match v {
        JsonDataView::Str(s) => json_string_encoding(s),
        JsonDataView::Other(t) => t,
    }
}

/// `{"result":<value>,"content_type":"<type>"}`.
pub open spec fn success_text(result: JsonDataView, content_type: Seq<char>) -> Seq<char> {
    "{\"result\":"@ + value_text(result) + ",\"content_type\":"@ + json_string_encoding(content_type) + "}"@
}

/// `{"message":"<message>","error_type":"<type>"}`.
pub open spec fn failure_text(message: Seq<char>, error_type: Seq<char>) -> Seq<char> {
    "{\"message\":"@ + json_string_encoding(message) + ",\"error_type\":"@ + json_string_encoding(error_type)
        + "}"@
}

impl AlgoSuccess {
    /// The JSON line body for this result.
    pub fn to_json(&self) -> (t: String)
        ensures
            t@ == success_text(self.result@, self.content_type@),
    {
        let mut t = "{\"result\":".to_owned();
        match &self.result {
            JsonData::Str(s) => {
                let q = json_quote(s.as_str());
                t.append(q.as_str());
            },
            JsonData::Other(v) => t.append(v.as_str()),
        }
        t.append(",\"content_type\":");
        let q = json_quote(self.content_type.as_str());
        t.append(q.as_str());
        t.append("}");
        t
    }
}

impl AlgoFailure {
    /// The JSON line body for this failure.
    pub fn to_json(&self) -> (t: String)
        ensures
            t@ == failure_text(self.message@, self.error_type@),
    {
        let mut t = "{\"message\":".to_owned();
        let q = json_quote(self.message.as_str());
        t.append(q.as_str());
        t.append(",\"error_type\":");
        let q = json_quote(self.error_type.as_str());
        t.append(q.as_str());
        t.append("}");
        t
    }
}

/// The line written back for the algorithm's output, or for its error given
/// by the messages of the error and of its causes.
pub fn serialize_output(output: Result<AlgoOutput, Vec<String>>) -> (line: String)
    ensures
        match output {
            Ok(AlgoOutput::Text(t)) => line@ == success_text(JsonDataView::Str(t@), "text"@),
            Ok(AlgoOutput::Json(j)) => line@ == success_text(j@, "json"@),
            Ok(AlgoOutput::Binary(b)) => line@ == success_text(JsonDataView::Str(base64_encoding(b@)), "binary"@),
            Err(messages) => line@ == failure_text(cause_chain(strings_view(messages@)), "AlgorithmError"@),
        },
{
    match output {
        Ok(out) => AlgoSuccess::from(out).to_json(),
        Err(messages) => AlgoFailure::new(&messages).to_json(),
    }
}

/// A `json` request hands the algorithm its data as JSON, a string as much
/// as any other value; only a `text` request gives text input and only a
/// `binary` one bytes, and a request refused for its content type names
/// that content type. A line that is not a request fails as the `request`,
/// with the parser's message; data that is not base64 fails as the
/// `request input`.
pub proof fn json_requests_keep_their_value(
    content_type: Seq<char>,
    data: JsonDataView,
    parse_error: Seq<char>,
)
    ensures
        input_for("json"@, data) == Ok::<AlgoInputView, RequestErrorView>(AlgoInputView::Json(data)),
        data is Str ==> input_for("text"@, data) == Ok::<AlgoInputView, RequestErrorView>(
            AlgoInputView::Text(data->Str_0),
        ),
        input_for(content_type, data) matches Ok(AlgoInputView::Text(_)) ==> content_type == "text"@,
        input_for(content_type, data) matches Ok(AlgoInputView::Binary(_)) ==> content_type == "binary"@,
        input_for(content_type, data) matches Err(RequestErrorView::InvalidContentType(c)) ==> c == content_type
            && content_type != "json"@,
        input_for(content_type, data) matches Err(RequestErrorView::DecodeBase64 { context, .. })
            ==> context == "request input"@ && content_type == "binary"@,
        input_for(content_type, data) !is Err || !(input_for(content_type, data)->Err_0 is DecodeJson),
        request_input(Err(parse_error)) == Err::<AlgoInputView, RequestErrorView>(
            RequestErrorView::DecodeJson { context: "request"@, cause: parse_error },
        ),
        request_input(Ok((content_type, data))) == input_for(content_type, data),
{
    reveal_strlit("json");
    reveal_strlit("text");
    reveal_strlit("binary");
    assert("json"@.len() == 4 && "text"@.len() == 4 && "binary"@.len() == 6);
    assert("json"@[0] == 'j' && "text"@[0] == 't');
    assert("json"@ != "text"@ && "json"@ != "binary"@);
}

/// What the server makes of a text request body, the pipe hands to the
/// algorithm unchanged. (For binary bodies, see the `ensures` of
/// `LangServer::build_input`: the pipe decodes them back to the same bytes.)
pub proof fn text_data_round_trip(body: Seq<u8>)
    ensures
        ({
            let sent = input_of(None, Some(MediaType { top: MimeTop::Text, sub: MimeSub::Plain }), body);
            sent matches Ok(req) ==> req.data is Text && input_for(req.content_type, JsonDataView::Str(req.data->Text_0))
                == Ok::<AlgoInputView, RequestErrorView>(AlgoInputView::Text(req.data->Text_0))
        }),
{
    reveal_strlit("text");
}

} // verus!
