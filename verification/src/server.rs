//! The server's decisions: how a request is routed, how its body becomes the
//! runner's input, which headers are passed on, what is answered, and what
//! the watch on the runner does when the runner exits.

use vstd::prelude::*;
use vstd::string::*;
use vstd::utf8::{decode_utf8, valid_utf8};

use crate::codec::{base64_encode, base64_encoding, json_reencode, json_reencoding, utf8_decode};
use crate::error::{Error, ErrorView};
use crate::message::{is_exit_report, RunnerMessage};
use crate::notifier::Notifier;
use crate::pipe::{input_for, AlgoInputView, JsonDataView, RequestErrorView};
use crate::text::{has_prefix, same, signed_decimal, starts_with, i32_to_decimal};

verus! {

/// How a request waits for the algorithm: until it completes (`Sync`), or
/// not at all, the result being sent to a notifier when it is ready
/// (`Async`).
pub enum LangServerMode {
    Sync,
    Async(Notifier),
}

/// The server's own state: its mode, and whether a DELETE asked it to stop.
pub struct LangServer {
    mode: LangServerMode,
    delete_signalled: bool,
}

/// The mathematical value of a [`LangServer`].
pub struct ServerView {
    /// Where results are posted: the notifier's URL in asynchronous mode,
    /// none in synchronous mode.
    pub destination: Option<Seq<char>>,
    pub delete_signalled: bool,
}

impl View for LangServer {
    type V = ServerView;

    closed spec fn view(&self) -> ServerView {
        ServerView { destination: destination_of(self.mode), delete_signalled: self.delete_signalled }
    }
}

/// Where a mode posts results: the notifier's URL, or none.
pub open spec fn destination_of(mode: LangServerMode) -> Option<Seq<char>> {
    match mode {
        LangServerMode::Async(n) => Some(n@),
        LangServerMode::Sync => None,
    }
}

impl ServerView {
    /// Whether results are posted rather than answered.
    pub open spec fn asynchronous(self) -> bool {
        self.destination is Some
    }
}

/// The HTTP method of a request.
pub enum Method {
    Get,
    Post,
    Delete,
    Other,
}

/// The top level of a media type, as far as the routing tells them apart.
pub enum MimeTop {
    Application,
    Text,
    Other,
}

/// The sub level of a media type: `json`, `plain`, one that the media type
/// parser does not know (`Ext`), or another that it knows.
pub enum MimeSub {
    Json,
    Plain,
    Ext,
    Other,
}

/// A request's `Content-Type`.
pub struct MediaType {
    pub top: MimeTop,
    pub sub: MimeSub,
}

/// The data of the runner's input: the compact text of a JSON value (any
/// value, strings included), or a string.
pub enum InputData {
    Json(String),
    Text(String),
}

/// One request for the runner: the kind of its data (`json`, `text` or
/// `binary`, binary data being given as base64 text) and the data.
pub struct AlgoRequest {
    pub content_type: String,
    pub data: InputData,
}

/// The mathematical value of an [`InputData`].
pub enum InputDataView {
    Json(Seq<char>),
    Text(Seq<char>),
}

/// The mathematical value of an [`AlgoRequest`].
pub struct AlgoRequestView {
    pub content_type: Seq<char>,
    pub data: InputDataView,
}

impl View for AlgoRequest {
    type V = AlgoRequestView;

    open spec fn view(&self) -> AlgoRequestView {
        AlgoRequestView {
            content_type: self.content_type@,
            data: match self.data {
                InputData::Json(t) => InputDataView::Json(t@),
                InputData::Text(t) => InputDataView::Text(t@),
            },
        }
    }
}

/// An HTTP header: its name and value.
pub struct Header {
    pub name: String,
    pub value: String,
}

/// The mathematical value of a [`Header`].
pub struct HeaderView {
    pub name: Seq<char>,
    pub value: Seq<char>,
}

impl View for Header {
    type V = HeaderView;

    open spec fn view(&self) -> HeaderView {
        HeaderView { name: self.name@, value: self.value@ }
    }
}

/// The answer to a request: its status code, its JSON body, and whether the
/// server ends once it was sent.
pub struct Reply {
    pub status: u16,
    pub body: String,
    pub terminate: bool,
}

/// The mathematical value of a [`Reply`].
pub struct ReplyView {
    pub status: u16,
    pub body: Seq<char>,
    pub terminate: bool,
}

impl View for Reply {
    type V = ReplyView;

    open spec fn view(&self) -> ReplyView {
        ReplyView { status: self.status, body: self.body@, terminate: self.terminate }
    }
}

/// What to do with a request.
pub enum Route {
    /// Answer it at once.
    Respond(Reply),
    /// Run the algorithm on it.
    RunAlgorithm,
    /// Stop the runner, answer with its exit code, and end.
    Terminate,
}

/// What to do with a request once its input was built, or could not be.
pub enum InputStep {
    /// Answer at once; nothing is sent to the runner.
    Reply(Reply),
    /// Set the runner's request id to `request_id`, then write `input` to
    /// the runner.
    Send { request_id: String, input: AlgoRequest },
}

/// What to do with a request once its input was written to the runner, or
/// could not be.
pub enum WriteStep {
    /// Answer at once.
    Reply(Reply),
    /// Wait for the runner's answer and reply with it (see [`sync_reply`]).
    AwaitAnswer,
    /// Answer at once, and meanwhile wait for the runner's answer and post it
    /// to the mode's notifier.
    Accepted(Reply),
}

/// What the watch on the runner does after one look at it.
pub enum MonitorAction {
    /// Look again later.
    Continue,
    /// Stop watching, without a report.
    Quit,
    /// The runner exited with `code`: report it to the status listener,
    /// then end the whole server (`exit_process`) or only the watch.
    ReportExit { code: i32, exit_process: bool },
}

/// The message of the I/O error for a text body that is not UTF-8.
pub const INVALID_UTF8_MESSAGE: &'static str = "stream did not contain valid UTF-8";

/// `{"result":"<message>"}`; the message is inserted as it is.
pub open spec fn result_body(message: Seq<char>) -> Seq<char> {
    "{\"result\":\""@ + message + "\"}"@
}

/// `{"error":{"type":"SystemError","message":"<message>"}}`; the message is
/// inserted as it is.
pub open spec fn error_body(message: Seq<char>) -> Seq<char> {
    "{\"error\":{\"type\":\"SystemError\",\"message\":\""@ + message + "\"}}"@
}

/// The body `{"result":"<message>"}`.
pub fn jsonres(message: &str) -> (body: String)
    ensures
        body@ == result_body(message@),
{
    let mut body = "{\"result\":\"".to_owned();
    body.append(message);
    body.append("\"}");
    body
}

/// The body `{"error":{"type":"SystemError","message":"<message>"}}`.
pub fn jsonerr(message: &str) -> (body: String)
    ensures
        body@ == error_body(message@),
{
    let mut body = "{\"error\":{\"type\":\"SystemError\",\"message\":\"".to_owned();
    body.append(message);
    body.append("\"}}");
    body
}

/// The reply given at once to a request with this method, if any.
pub open spec fn route_of(method: Method) -> Option<ReplyView> {
    match method {
        Method::Get => Some(ReplyView { status: 200, body: result_body("LangServer alive."@), terminate: false }),
        Method::Other => Some(ReplyView { status: 405, body: error_body("Method not allowed"@), terminate: false }),
        _ => None,
    }
}

/// The server's state after routing a request with `method`: a DELETE
/// records that the server was asked to stop.
pub open spec fn after_route(v: ServerView, method: Method) -> ServerView {
    ServerView { destination: v.destination, delete_signalled: v.delete_signalled || method is Delete }
}

/// What the watch on the runner does on seeing `status`.
pub open spec fn monitor_decision(v: ServerView, status: Option<i32>) -> MonitorAction {
    if v.delete_signalled {
        MonitorAction::Quit
    } else {
        match status {
            None => MonitorAction::Continue,
            Some(code) => MonitorAction::ReportExit { code, exit_process: !v.asynchronous() },
        }
    }
}

/// Once a DELETE was routed, the watch on the runner stops without
/// reporting, whatever it then sees of the runner; before that, a runner's
/// exit is always reported, and ends the server only when results are
/// answered synchronously.
pub proof fn delete_silences_monitor(v: ServerView, later: Method, status: Option<i32>)
    ensures
        monitor_decision(after_route(after_route(v, Method::Delete), later), status) is Quit,
        !v.delete_signalled ==> match status {
            Some(code) => monitor_decision(v, status) == MonitorAction::ReportExit {
                code,
                exit_process: !v.asynchronous(),
            },
            None => monitor_decision(v, status) is Continue,
        },
{
}

/// Only a DELETE is answered by ending the server among the answers given
/// at once: GET and unknown methods never end it, and routing them changes
/// nothing of the server's state.
pub proof fn immediate_replies_keep_serving(v: ServerView, method: Method)
    ensures
        route_of(method) matches Some(reply) ==> !reply.terminate && after_route(v, method) == v,
        method is Delete ==> route_of(method) is None && after_route(v, method).delete_signalled,
{
}

/// Routing never changes where results go: the mode and its notifier stay
/// as they were for every method, POST included, so an asynchronous server
/// stays asynchronous; only a DELETE changes anything, by recording that the
/// server was asked to stop.
pub proof fn routing_keeps_destination(v: ServerView, method: Method)
    ensures
        after_route(v, method).destination == v.destination,
        after_route(v, method).asynchronous() == v.asynchronous(),
        after_route(v, method).delete_signalled == (v.delete_signalled || method is Delete),
        !(method is Delete) ==> after_route(v, method) == v,
{
}

/// The headers passed on all begin with `X-`, each of them is one of the
/// headers given, and none that begins with `X-` is left out.
pub proof fn proxied_headers_are_exactly_x(headers: Seq<HeaderView>)
    ensures
        proxied(headers).len() <= headers.len(),
        forall|i: int| 0 <= i < proxied(headers).len() ==> has_prefix(#[trigger] proxied(headers)[i].name, "X-"@)
            && headers.contains(proxied(headers)[i]),
        forall|j: int| 0 <= j < headers.len() && has_prefix(#[trigger] headers[j].name, "X-"@) ==> proxied(headers).contains(headers[j]),
    decreases headers.len(),
{
    if headers.len() > 0 {
        let init = headers.drop_last();
        proxied_headers_are_exactly_x(init);
        assert forall|i: int| 0 <= i < proxied(headers).len() implies has_prefix(#[trigger] proxied(headers)[i].name, "X-"@)
            && headers.contains(proxied(headers)[i]) by {
            if i < proxied(init).len() {
                assert(proxied(headers)[i] == proxied(init)[i]);
                assert(has_prefix(proxied(init)[i].name, "X-"@));
                assert(init.contains(proxied(init)[i]));
                let k = choose|k: int| 0 <= k < init.len() && init[k] == proxied(init)[i];
                assert(headers[k] == proxied(headers)[i]);
            } else {
                assert(headers[headers.len() - 1] == proxied(headers)[i]);
            }
        }
        assert forall|j: int| 0 <= j < headers.len() && has_prefix(#[trigger] headers[j].name, "X-"@) implies proxied(headers).contains(headers[j]) by {
            if j < headers.len() - 1 {
                assert(init[j] == headers[j]);
                assert(proxied(init).contains(init[j]));
                let k = choose|k: int| 0 <= k < proxied(init).len() && proxied(init)[k] == init[j];
                assert(proxied(headers)[k] == proxied(init)[k]);
                assert(proxied(headers)[k] == headers[j]);
            } else {
                assert(proxied(headers)[proxied(headers).len() - 1] == headers[j]);
            }
        }
    }
}

/// The kinds of request body, told by `Content-Type`.
pub enum BodyKind {
    Json,
    Text,
    Binary,
    Missing,
}

/// `application/json` is JSON, `text/plain` is text, and `application/*`
/// with a sub level that the media type parser does not know is binary;
/// anything else, or no `Content-Type` at all, is missing.
pub open spec fn body_kind(content_type: Option<MediaType>) -> BodyKind {
    match content_type {
        Some(MediaType { top: MimeTop::Application, sub: MimeSub::Json }) => BodyKind::Json,
        Some(MediaType { top: MimeTop::Text, sub: MimeSub::Plain }) => BodyKind::Text,
        Some(MediaType { top: MimeTop::Application, sub: MimeSub::Ext }) => BodyKind::Binary,
        _ => BodyKind::Missing,
    }
}

/// The encodings given by `Content-Encoding`, if the header is there.
pub open spec fn encodings_view(encodings: Option<Vec<String>>) -> Option<Seq<Seq<char>>> {
    match encodings {
        Some(v) => Some(v@.map_values(|s: String| s@)),
        None => None,
    }
}

/// What `Content-Encoding` says: whether the body is base64 text already,
/// or why the request is refused. The header must name exactly one
/// encoding, and that one must be `base64`.
pub open spec fn encoding_check(encodings: Option<Seq<Seq<char>>>) -> Result<bool, ErrorView> {
    match encodings {
        None => Ok(false),
        Some(list) => if list.len() != 1 {
            Err(ErrorView::BadRequest("Too many ContentEncoding headers Error"@))
        } else if list[0] == "base64"@ {
            Ok(true)
        } else {
            Err(ErrorView::BadRequest("Unexpected ContentEncoding "@ + list[0]))
        },
    }
}

/// The request read as binary data already in base64 that is not UTF-8:
/// the one input on which the body cannot be turned into a string.
pub open spec fn input_panics(
    encodings: Option<Seq<Seq<char>>>,
    content_type: Option<MediaType>,
    body: Seq<u8>,
) -> bool {
    encoding_check(encodings) == Ok::<bool, ErrorView>(true) && body_kind(content_type) is Binary
        && !valid_utf8(body)
}

/// The runner's input made of a request's headers and body, or why there is
/// none.
pub open spec fn input_of(
    encodings: Option<Seq<Seq<char>>>,
    content_type: Option<MediaType>,
    body: Seq<u8>,
) -> Result<AlgoRequestView, ErrorView> {
    match encoding_check(encodings) {
        Err(e) => Err(e),
        Ok(base64_already) => match body_kind(content_type) {
            BodyKind::Json => match json_reencoding(body) {
                Ok(t) => Ok(AlgoRequestView { content_type: "json"@, data: InputDataView::Json(t) }),
                Err(m) => Err(ErrorView::SerdeError(m)),
            },
            BodyKind::Text => if valid_utf8(body) {
                Ok(AlgoRequestView { content_type: "text"@, data: InputDataView::Text(decode_utf8(body)) })
            } else {
                Err(ErrorView::IoError(INVALID_UTF8_MESSAGE@))
            },
            BodyKind::Binary => Ok(
                AlgoRequestView {
                    content_type: "binary"@,
                    data: InputDataView::Text(
                        if base64_already {
                            decode_utf8(body)
                        } else {
                            base64_encoding(body)
                        },
                    ),
                },
            ),
            BodyKind::Missing => Err(ErrorView::BadRequest("Missing ContentType"@)),
        },
    }
}

/// An input or an error, by its view.
pub open spec fn input_result_view(r: Result<AlgoRequest, Error>) -> Result<AlgoRequestView, ErrorView> {
    match r {
        Ok(req) => Ok(req@),
        Err(e) => Err(e@),
    }
}

/// The headers passed on to a notification: those whose name begins with
/// `X-`, in their order.
pub open spec fn proxied(headers: Seq<HeaderView>) -> Seq<HeaderView>
    decreases headers.len(),
{
    if headers.len() == 0 {
        Seq::empty()
    } else {
        let rest = proxied(headers.drop_last());
        if has_prefix(headers.last().name, "X-"@) {
            rest.push(headers.last())
        } else {
            rest
        }
    }
}

/// The views of a list of headers.
pub open spec fn headers_view(headers: Seq<Header>) -> Seq<HeaderView> {
    headers.map_values(|h: Header| h@)
}

/// The reply for a request whose body could not be made into input.
pub open spec fn input_failure(err: ErrorView) -> ReplyView {
    ReplyView {
        status: 400,
        body: error_body("Failed to build algorithm input from request: "@ + err.text()),
        terminate: false,
    }
}

/// The reply for a request that could not be written to the runner.
pub open spec fn write_failure(err: ErrorView) -> ReplyView {
    ReplyView { status: 400, body: error_body("Failed to write to runner stdin: "@ + err.text()), terminate: false }
}

fn check_encoding(encodings: &Option<Vec<String>>) -> (r: Result<bool, Error>)
    ensures
        match r {
            Ok(b) => encoding_check(encodings_view(*encodings)) == Ok::<bool, ErrorView>(b),
            Err(e) => encoding_check(encodings_view(*encodings)) == Err::<bool, ErrorView>(e@),
        },
{
    match encodings {
        None => Ok(false),
        Some(list) => {
            let ghost views = list@.map_values(|s: String| s@);
            if list.len() != 1 {
                Err(Error::BadRequest("Too many ContentEncoding headers Error".to_owned()))
            } else if same(list[0].as_str(), "base64") {
                Ok(true)
            } else {
                assert(views[0] == list@[0]@);
                let mut m = "Unexpected ContentEncoding ".to_owned();
                m.append(list[0].as_str());
                Err(Error::BadRequest(m))
            }
        },
    }
}

fn kind(content_type: &Option<MediaType>) -> (k: BodyKind)
    ensures
        k == body_kind(*content_type),
{
    match content_type {
        Some(MediaType { top: MimeTop::Application, sub: MimeSub::Json }) => BodyKind::Json,
        Some(MediaType { top: MimeTop::Text, sub: MimeSub::Plain }) => BodyKind::Text,
        Some(MediaType { top: MimeTop::Application, sub: MimeSub::Ext }) => BodyKind::Binary,
        _ => BodyKind::Missing,
    }
}

impl LangServer {
    /// A server in `mode`, not asked to stop; in asynchronous mode its
    /// results are posted to the URL of the mode's notifier.
    pub fn start(mode: LangServerMode) -> (s: LangServer)
        ensures
            s@ == (ServerView { destination: destination_of(mode), delete_signalled: false }),
    {
        LangServer { mode, delete_signalled: false }
    }

    /// The server's mode, with the notifier its results are posted to.
    pub fn mode(&self) -> (m: &LangServerMode)
        ensures
            destination_of(*m) == self@.destination,
    {
        &self.mode
    }

    /// Whether a DELETE asked the server to stop.
    pub fn delete_signalled(&self) -> (b: bool)
        ensures
            b == self@.delete_signalled,
    {
        self.delete_signalled
    }

    /// Routes a request by its method. GET answers that the server is alive,
    /// POST runs the algorithm, DELETE records that the server was asked to
    /// stop and terminates, and any other method is not allowed.
    pub fn route(&mut self, method: Method) -> (r: Route)
        ensures
            match route_of(method) {
                Some(reply) => r matches Route::Respond(rep) && rep@ == reply,
                None => match method {
                    Method::Post => r is RunAlgorithm,
                    _ => r is Terminate,
                },
            },
            final(self)@ == after_route(old(self)@, method),
    {
        match method {
            Method::Get => Route::Respond(Reply { status: 200, body: jsonres("LangServer alive."), terminate: false }),
            Method::Post => Route::RunAlgorithm,
            Method::Delete => {
                self.delete_signalled = true;
                Route::Terminate
            },
            Method::Other => Route::Respond(
                Reply { status: 405, body: jsonerr("Method not allowed"), terminate: false },
            ),
        }
    }

    /// Makes the runner's input of a request's `Content-Encoding` encodings,
    /// `Content-Type` and body. A binary body sent without
    /// `Content-Encoding` becomes base64 text that the pipe decodes back
    /// into the body's bytes.
    pub fn build_input(
        &self,
        content_encoding: &Option<Vec<String>>,
        content_type: &Option<MediaType>,
        body: &[u8],
    ) -> (r: Result<AlgoRequest, Error>)
        requires
            !input_panics(encodings_view(*content_encoding), *content_type, body@),
        ensures
            input_result_view(r) == input_of(encodings_view(*content_encoding), *content_type, body@),
            content_encoding.is_none() ==> (r matches Ok(req) ==> (req.data matches InputData::Text(t) ==> (
            req.content_type@ == "binary"@ ==> input_for(req.content_type@, JsonDataView::Str(t@))
                == Ok::<AlgoInputView, RequestErrorView>(AlgoInputView::Binary(body@))))),
    {
        proof {
            reveal_strlit("binary");
            reveal_strlit("text");
            reveal_strlit("json");
        }
        assert("binary"@.len() == 6 && "text"@.len() == 4 && "json"@.len() == 4);
        let base64_already = match check_encoding(content_encoding) {
            Ok(b) => b,
            Err(e) => return Err(e),
        };
        match kind(content_type) {
            BodyKind::Json => match json_reencode(body) {
                Ok(t) => Ok(AlgoRequest { content_type: "json".to_owned(), data: InputData::Json(t) }),
                Err(m) => Err(Error::SerdeError(m)),
            },
            BodyKind::Text => match utf8_decode(body) {
                Some(t) => Ok(AlgoRequest { content_type: "text".to_owned(), data: InputData::Text(t) }),
                None => Err(Error::IoError(INVALID_UTF8_MESSAGE.to_owned())),
            },
            BodyKind::Binary => {
                let data = if base64_already {
                    match utf8_decode(body) {
                        Some(t) => t,
                        None => {
                            assert(false);
                            String::new()
                        },
                    }
                } else {
                    base64_encode(body)
                };
                Ok(AlgoRequest { content_type: "binary".to_owned(), data: InputData::Text(data) })
            },
            BodyKind::Missing => Err(Error::BadRequest("Missing ContentType".to_owned())),
        }
    }

    /// The step after building a request's input: a request whose input
    /// could not be built is answered with the error and never reaches the
    /// runner; otherwise its request id is set and its input written.
    pub fn after_input(&self, request_id: String, built: Result<AlgoRequest, Error>) -> (step: InputStep)
        ensures
            match built {
                Err(e) => step matches InputStep::Reply(rep) && rep@ == input_failure(e@),
                Ok(req) => step matches InputStep::Send { request_id: id, input } && id@ == request_id@
                    && input@ == req@,
            },
    {
        match built {
            Err(e) => InputStep::Reply(input_failure_reply(&e)),
            Ok(input) => InputStep::Send { request_id, input },
        }
    }

    /// The step after writing a request's input to the runner: a failed
    /// write is answered with the error; otherwise a synchronous server waits
    /// for the answer, and an asynchronous one answers `202` at once.
    pub fn after_write(&self, written: Result<(), Error>) -> (step: WriteStep)
        ensures
            match written {
                Err(e) => step matches WriteStep::Reply(rep) && rep@ == write_failure(e@),
                Ok(()) => if self@.asynchronous() {
                    step matches WriteStep::Accepted(rep) && rep@ == (ReplyView {
                        status: 202,
                        body: result_body("Algorithm started."@),
                        terminate: false,
                    })
                } else {
                    step is AwaitAnswer
                },
            },
    {
        match written {
            Err(e) => WriteStep::Reply(write_failure_reply(&e)),
            Ok(()) => match self.mode {
                LangServerMode::Async(_) => WriteStep::Accepted(async_reply()),
                LangServerMode::Sync => WriteStep::AwaitAnswer,
            },
        }
    }

    /// The refusal that a request's headers alone decide, before its body is
    /// read: a bad `Content-Encoding`, or a `Content-Type` that gives no
    /// input. `None` when the body is needed.
    pub fn input_error_before_body(
        &self,
        content_encoding: &Option<Vec<String>>,
        content_type: &Option<MediaType>,
    ) -> (r: Option<Error>)
        ensures
            r == None::<Error> <==> (encoding_check(encodings_view(*content_encoding)) is Ok && !(body_kind(
                *content_type,
            ) is Missing)),
            r matches Some(e) ==> forall|body: Seq<u8>|
                input_of(encodings_view(*content_encoding), *content_type, body) == Err::<AlgoRequestView, ErrorView>(
                    e@,
                ),
    {
        match check_encoding(content_encoding) {
            Err(e) => Some(e),
            Ok(_) => match kind(content_type) {
                BodyKind::Missing => Some(Error::BadRequest("Missing ContentType".to_owned())),
                _ => None,
            },
        }
    }

    /// The error for a body that could not be read, given the reader's
    /// message: a JSON body is read by the JSON parser, which reports it as a
    /// JSON error; any other as an I/O error.
    pub fn body_read_failure(&self, content_type: &Option<MediaType>, message: String) -> (e: Error)
        ensures
            body_kind(*content_type) is Json ==> e@ == ErrorView::SerdeError(message@),
            !(body_kind(*content_type) is Json) ==> e@ == ErrorView::IoError(message@),
    {
        match kind(content_type) {
            BodyKind::Json => Error::SerdeError(message),
            _ => Error::IoError(message),
        }
    }

    /// [`LangServer::build_input`] for any request: `None` for the one
    /// input it cannot take, binary data said to be in base64 already whose
    /// bytes are not UTF-8.
    pub fn build_input_checked(
        &self,
        content_encoding: &Option<Vec<String>>,
        content_type: &Option<MediaType>,
        body: &[u8],
    ) -> (r: Option<Result<AlgoRequest, Error>>)
        ensures
            r is None <==> input_panics(encodings_view(*content_encoding), *content_type, body@),
            r matches Some(inner) ==> input_result_view(inner) == input_of(
                encodings_view(*content_encoding),
                *content_type,
                body@,
            ),
    {
        let panics = match check_encoding(content_encoding) {
            Ok(true) => match kind(content_type) {
                BodyKind::Binary => utf8_decode(body).is_none(),
                _ => false,
            },
            _ => false,
        };
        if panics {
            None
        } else {
            Some(self.build_input(content_encoding, content_type, body))
        }
    }

    /// The headers to pass on with an asynchronous result: those whose name
    /// begins with `X-`, in their order.
    pub fn get_proxied_headers(&self, headers: &Vec<Header>) -> (out: Vec<Header>)
        ensures
            headers_view(out@) == proxied(headers_view(headers@)),
    {
        let mut out: Vec<Header> = Vec::new();
        let n = headers.len();
        for i in 0..n
            invariant
                n == headers@.len(),
                headers_view(out@) == proxied(headers_view(headers@.take(i as int))),
        {
            let h = &headers[i];
            assert(headers_view(headers@.take(i + 1)).drop_last() =~= headers_view(headers@.take(i as int)));
            assert(headers_view(headers@.take(i + 1)).last() == h@);
            if starts_with(h.name.as_str(), "X-") {
                let ghost before = headers_view(out@);
                out.push(Header { name: h.name.clone(), value: h.value.clone() });
                assert(headers_view(out@) =~= before.push(h@));
            }
        }
        assert(headers@.take(n as int) =~= headers@);
        out
    }

    /// What the watch on the runner does on seeing `status`, the runner's
    /// exit code if it exited: nothing more once a DELETE asked the server to
    /// stop; on an exit, report it and end the server, or only the watch
    /// when results are sent asynchronously.
    pub fn monitor_step(&self, status: Option<i32>) -> (a: MonitorAction)
        ensures
            a == monitor_decision(self@, status),
    {
        if self.delete_signalled {
            return MonitorAction::Quit;
        }
        match status {
            None => MonitorAction::Continue,
            Some(code) => {
                let asynchronous = match self.mode {
                    LangServerMode::Async(_) => true,
                    LangServerMode::Sync => false,
                };
                MonitorAction::ReportExit { code, exit_process: !asynchronous }
            },
        }
    }
}

/// The id of a request: its `X-Request-Id` header, or `-` without one.
pub fn request_id(header: Option<String>) -> (id: String)
    ensures
        id@ == match header {
            Some(h) => h@,
            None => "-"@,
        },
{
    match header {
        Some(h) => h,
        None => "-".to_owned(),
    }
}

fn error_reply(status: u16, context: &str, err: &Error) -> (r: Reply)
    ensures
        r@ == (ReplyView { status, body: error_body(context@ + err@.text()), terminate: false }),
{
    let mut m = context.to_owned();
    let text = err.message();
    m.append(text.as_str());
    Reply { status, body: jsonerr(m.as_str()), terminate: false }
}

/// The reply for a request whose body could not be made into input:
/// `400`, with the error's message.
pub fn input_failure_reply(err: &Error) -> (r: Reply)
    ensures
        r@ == input_failure(err@),
{
    error_reply(400, "Failed to build algorithm input from request: ", err)
}

/// The reply for a request that could not be written to the runner: `400`,
/// with the error's message.
pub fn write_failure_reply(err: &Error) -> (r: Reply)
    ensures
        r@ == write_failure(err@),
{
    error_reply(400, "Failed to write to runner stdin: ", err)
}

/// The reply for a request served synchronously, given the answer and its
/// JSON encoding (or the encoder's error message). An answer that reports
/// the runner's exit ends the server; one that cannot be encoded is a
/// `500` and ends it too.
pub fn sync_reply(message: &RunnerMessage, encoded: Result<String, String>) -> (r: Reply)
    ensures
        match encoded {
            Ok(body) => r@ == (ReplyView { status: 200, body: body@, terminate: is_exit_report(message@) }),
            Err(m) => r@ == (ReplyView {
                status: 500,
                body: error_body("Failed to encode RunnerState: "@ + m@),
                terminate: true,
            }),
        },
{
    match encoded {
        Ok(body) => Reply { status: 200, body, terminate: message.exited_early() },
        Err(m) => {
            let mut text = "Failed to encode RunnerState: ".to_owned();
            text.append(m.as_str());
            Reply { status: 500, body: jsonerr(text.as_str()), terminate: true }
        },
    }
}

/// The reply for a request served asynchronously: `202`, the algorithm
/// having started.
pub fn async_reply() -> (r: Reply)
    ensures
        r@ == (ReplyView { status: 202, body: result_body("Algorithm started."@), terminate: false }),
{
    Reply { status: 202, body: jsonres("Algorithm started."), terminate: false }
}

/// Whether the runner is stopped, and the server ended, after the result of
/// an asynchronous request was to be delivered: only when the delivery
/// failed.
pub fn stop_after_delivery(delivery: &Result<(), Error>) -> (stop: bool)
    ensures
        stop == delivery is Err,
{
    delivery.is_err()
}

/// The reply to a DELETE once the runner stopped with `code`: `200`, the
/// code, and the server ends.
pub fn terminate_reply(code: i32) -> (r: Reply)
    ensures
        r@ == (ReplyView {
            status: 200,
            body: result_body("Runner exited: "@ + signed_decimal(code as int)),
            terminate: true,
        }),
{
    let digits = i32_to_decimal(code);
    let mut m = "Runner exited: ".to_owned();
    m.append(digits.as_str());
    Reply { status: 200, body: jsonres(m.as_str()), terminate: true }
}

} // verus!
