//! The reverse proxy on the stable port, as decisions on plain values.
//!
//! The proxy is a function of the pair `(backend_port, ready)` that the
//! supervisor publishes: it answers the readiness path itself, answers
//! "starting" while no backend is ready, and otherwise says where a request
//! is to be forwarded and with which headers. Sending and receiving are left
//! to the caller, who brings back what the backend answered.

use crate::text::{decimal, decimal_string, eq_ignore_ascii_case, eq_ignoring_ascii_case, str_eq};
use vstd::prelude::*;
use vstd::string::*;

verus! {

/// The path that the proxy answers itself.
pub const READY_PATH: &'static str = "/ready";

/// Status code of a proxy that has a ready backend.
pub const STATUS_OK: u16 = 200;

/// Status code of a proxy whose backend is not ready.
pub const STATUS_SERVICE_UNAVAILABLE: u16 = 503;

/// The bound on one forwarded request, in milliseconds.
pub const FORWARD_TIMEOUT_MS: u64 = 30_000;

/// What the proxy reads of the supervisor's state at one request.
#[derive(Debug, Clone, Copy, PartialEq, Eq, Structural)]
pub struct ProxyState {
    pub backend_port: u16,
    pub ready: bool,
}

impl ProxyState {
    pub fn new(backend_port: u16, ready: bool) -> (state: ProxyState)
        ensures
            state == (ProxyState { backend_port, ready }),
    {
        ProxyState { backend_port, ready }
    }
}

/// One header line: a name and the bytes of its value.
#[derive(Debug, Clone)]
pub struct Header {
    pub name: String,
    pub value: Vec<u8>,
}

impl View for Header {
    type V = (Seq<char>, Seq<u8>);

    open spec fn view(&self) -> (Seq<char>, Seq<u8>) {
        (self.name@, self.value@)
    }
}

/// The lines of a header list, each as name and value.
pub open spec fn header_lines(headers: Seq<Header>) -> Seq<(Seq<char>, Seq<u8>)> {
    headers.map_values(|h: Header| h@)
}

/// A response of the proxy.
#[derive(Debug, Clone)]
pub struct ProxyResponse {
    pub status: u16,
    pub headers: Vec<Header>,
    pub body: Vec<u8>,
}

/// A response as mathematics.
pub struct ResponseView {
    pub status: u16,
    pub headers: Seq<(Seq<char>, Seq<u8>)>,
    pub body: Seq<u8>,
}

impl View for ProxyResponse {
    type V = ResponseView;

    open spec fn view(&self) -> ResponseView {
        ResponseView {
            status: self.status,
            headers: header_lines(self.headers@),
            body: self.body@,
        }
    }
}

/// What the backend answered to a forwarded request.
#[derive(Debug, Clone)]
pub struct UpstreamResponse {
    pub status: u16,
    pub headers: Vec<Header>,
    pub body: Vec<u8>,
}

/// A request to forward: the address on the backend and the headers to
/// send. Method and body go through as they came.
#[derive(Debug, Clone)]
pub struct ForwardRequest {
    pub url: String,
    pub headers: Vec<Header>,
}

/// What the proxy does with a request.
#[derive(Debug, Clone)]
pub enum ProxyDecision {
    /// Answer at once; nothing is sent to any backend.
    Respond(ProxyResponse),
    /// Forward to the backend.
    Forward(ForwardRequest),
}

/// A decision as mathematics.
pub enum DecisionView {
    Respond(ResponseView),
    Forward { url: Seq<char>, headers: Seq<(Seq<char>, Seq<u8>)> },
}

impl View for ProxyDecision {
    type V = DecisionView;

    open spec fn view(&self) -> DecisionView {
        match self {
            ProxyDecision::Respond(response) => DecisionView::Respond(response@),
            ProxyDecision::Forward(request) => DecisionView::Forward {
                url: request.url@,
                headers: header_lines(request.headers@),
            },
        }
    }
}

/// The text of a JSON object whose members are the given strings and
/// numbers, by name, as `serde_json` writes it.
pub uninterp spec fn json_object_text(
    texts: Seq<(Seq<char>, Seq<char>)>,
    numbers: Seq<(Seq<char>, u64)>,
) -> Seq<char>;

/// Whether a text goes into a JSON string as it is: it holds no quotation
/// mark, no backslash and no control character.
pub open spec fn json_plain(text: Seq<char>) -> bool {
    forall|i: int|
        0 <= i < text.len() ==> ' ' <= #[trigger] text[i] && text[i] != '"' && text[i] != '\\'
}

/// A member of a JSON object whose value is a plain string: name and
/// value in quotation marks, a colon between them.
pub open spec fn json_text_member(name: Seq<char>, value: Seq<char>) -> Seq<char> {
    seq!['"'] + name + seq!['"', ':', '"'] + value + seq!['"']
}

/// A member of a JSON object whose value is a number: the name in
/// quotation marks, a colon, the number in decimal.
pub open spec fn json_number_member(name: Seq<char>, value: u64) -> Seq<char> {
    seq!['"'] + name + seq!['"', ':'] + decimal(value as nat)
}

/// A JSON object around its members.
pub open spec fn json_object_of(members: Seq<char>) -> Seq<char> {
    seq!['{'] + members + seq!['}']
}

/// Builds a `serde_json::Map` with one `Value::String` for each pair of
/// `texts` and one number (`Value::from`) for each pair of `numbers`,
/// inserted in this order, and renders `Value::Object` of it with
/// `to_string`. The text is the compact JSON that `serde_json` writes for
/// that object, and it is named. Two cases are spelled out, for names and
/// values that need no escaping: an object of one string member is that
/// member between braces; an object of one string member and one number
/// member of another name holds both, a comma between them, in the order
/// in which the map hands them out, which the contract leaves open.
#[verifier::external_body]
fn json_object_string(texts: &Vec<(String, String)>, numbers: &Vec<(String, u64)>) -> (text: String)
    ensures
        text@ == json_object_text(texts.deep_view(), numbers.deep_view()),
        texts.len() == 1 && numbers.len() == 0 && json_plain(texts@[0].0@) && json_plain(
            texts@[0].1@,
        ) ==> text@ == json_object_of(json_text_member(texts@[0].0@, texts@[0].1@)),
        texts.len() == 1 && numbers.len() == 1 && json_plain(texts@[0].0@) && json_plain(
            texts@[0].1@,
        ) && json_plain(numbers@[0].0@) && texts@[0].0@ != numbers@[0].0@ ==> text@
            == json_object_of(
            json_text_member(texts@[0].0@, texts@[0].1@) + seq![','] + json_number_member(
                numbers@[0].0@,
                numbers@[0].1,
            ),
        ) || text@ == json_object_of(
            json_number_member(numbers@[0].0@, numbers@[0].1) + seq![','] + json_text_member(
                texts@[0].0@,
                texts@[0].1@,
            ),
        ),
{
    let mut object = serde_json::Map::new();
    for (name, value) in texts.iter() {
        object.insert(name.clone(), serde_json::Value::String(value.clone()));
    }
    for (name, value) in numbers.iter() {
        object.insert(name.clone(), serde_json::Value::from(*value));
    }
    serde_json::Value::Object(object).to_string()
}

/// The body of the "starting" answer.
pub const STARTING_BODY: &'static str = "{\"status\":\"starting\"}";

/// The body of the "ready" answer with the port before the status.
pub open spec fn ready_text_port_first(backend_port: u16) -> Seq<char> {
    json_object_of(
        json_number_member("backend_port"@, backend_port as u64) + seq![','] + json_text_member(
            "status"@,
            "ready"@,
        ),
    )
}

/// The body of the "ready" answer with the status before the port.
pub open spec fn ready_text_status_first(backend_port: u16) -> Seq<char> {
    json_object_of(
        json_text_member("status"@, "ready"@) + seq![','] + json_number_member(
            "backend_port"@,
            backend_port as u64,
        ),
    )
}

/// The body of a readiness answer: while starting, the object with the
/// status "starting" alone; once ready, the object with the status "ready"
/// and the backend's port, as `serde_json` writes it.
pub open spec fn ready_body_text(ready: bool, backend_port: u16) -> Seq<char> {
    if ready {
        json_object_text(seq![("status"@, "ready"@)], seq![("backend_port"@, backend_port as u64)])
    } else {
        STARTING_BODY@
    }
}

proof fn lemma_names_are_plain()
    ensures
        json_plain("status"@),
        json_plain("starting"@),
        json_plain("ready"@),
        json_plain("backend_port"@),
        "status"@ != "backend_port"@,
        json_object_of(json_text_member("status"@, "starting"@)) == STARTING_BODY@,
{
    reveal_strlit("status");
    reveal_strlit("starting");
    reveal_strlit("ready");
    reveal_strlit("backend_port");
    reveal_strlit("{\"status\":\"starting\"}");
    assert("status"@.len() != "backend_port"@.len());
    assert(json_object_of(json_text_member("status"@, "starting"@)) =~= STARTING_BODY@);
}

/// The readiness answer: success with the backend's port when ready,
/// service-unavailable with the "starting" payload otherwise, as JSON.
pub open spec fn ready_answer(ready: bool, backend_port: u16) -> ResponseView {
    ResponseView {
        status: if ready {
            STATUS_OK
        } else {
            STATUS_SERVICE_UNAVAILABLE
        },
        headers: seq![("content-type"@, "application/json".spec_bytes())],
        body: vstd::utf8::encode_utf8(ready_body_text(ready, backend_port)),
    }
}

/// Renders the body of a readiness answer. While starting it is
/// `{"status":"starting"}`. Once ready it holds the status "ready" and the
/// backend's port, in the order in which `serde_json` writes the two.
pub fn ready_body(ready: bool, backend_port: u16) -> (text: String)
    ensures
        text@ == ready_body_text(ready, backend_port),
        ready ==> text@ == ready_text_port_first(backend_port) || text@ == ready_text_status_first(
            backend_port,
        ),
{
    let mut texts: Vec<(String, String)> = Vec::new();
    let mut numbers: Vec<(String, u64)> = Vec::new();
    proof {
        lemma_names_are_plain();
    }
    if ready {
        texts.push((String::from_str("status"), String::from_str("ready")));
        numbers.push((String::from_str("backend_port"), backend_port as u64));
        assert(texts.deep_view() =~= seq![("status"@, "ready"@)]);
        assert(numbers.deep_view() =~= seq![("backend_port"@, backend_port as u64)]);
    } else {
        texts.push((String::from_str("status"), String::from_str("starting")));
        assert(texts.deep_view() =~= seq![("status"@, "starting"@)]);
        assert(numbers.deep_view() =~= Seq::<(Seq<char>, u64)>::empty());
    }
    json_object_string(&texts, &numbers)
}

/// The answer to the readiness path, and to everything else while the
/// backend is not ready.
pub fn ready_response(ready: bool, backend_port: u16) -> (response: ProxyResponse)
    ensures
        response@ == ready_answer(ready, backend_port),
        ready ==> response.body@ == vstd::utf8::encode_utf8(ready_text_port_first(backend_port))
            || response.body@ == vstd::utf8::encode_utf8(ready_text_status_first(backend_port)),
{
    let text = ready_body(ready, backend_port);
    let mut headers: Vec<Header> = Vec::new();
    headers.push(
        Header {
            name: String::from_str("content-type"),
            value: "application/json".as_bytes_vec(),
        },
    );
    let response = ProxyResponse {
        status: if ready {
            STATUS_OK
        } else {
            STATUS_SERVICE_UNAVAILABLE
        },
        headers,
        body: text.as_str().as_bytes_vec(),
    };
    assert(response@.headers =~= ready_answer(ready, backend_port).headers);
    response
}

/// Whether a request header stays behind: `host`, `content-length` and
/// `connection`, in any case of letters.
pub open spec fn skips_request_header(name: Seq<char>) -> bool {
    ||| eq_ignoring_ascii_case(name, "host"@)
    ||| eq_ignoring_ascii_case(name, "content-length"@)
    ||| eq_ignoring_ascii_case(name, "connection"@)
}

/// Whether a response header stays behind: `content-length`,
/// `transfer-encoding`, `content-encoding` and `connection`, in any case of letters.
pub open spec fn skips_response_header(name: Seq<char>) -> bool {
    ||| eq_ignoring_ascii_case(name, "content-length"@)
    ||| eq_ignoring_ascii_case(name, "transfer-encoding"@)
    ||| eq_ignoring_ascii_case(name, "content-encoding"@)
    ||| eq_ignoring_ascii_case(name, "connection"@)
}

/// Whether a header of the incoming request is left out of the forwarded one.
pub fn should_skip_request_header(name: &str) -> (skip: bool)
    ensures
        skip == skips_request_header(name@),
{
    eq_ignore_ascii_case(name, "host") || eq_ignore_ascii_case(name, "content-length")
        || eq_ignore_ascii_case(name, "connection")
}

/// Whether a header of the backend's response is left out of the relayed one.
pub fn should_skip_response_header(name: &str) -> (skip: bool)
    ensures
        skip == skips_response_header(name@),
{
    eq_ignore_ascii_case(name, "content-length") || eq_ignore_ascii_case(name, "transfer-encoding")
        || eq_ignore_ascii_case(name, "content-encoding") || eq_ignore_ascii_case(
        name,
        "connection",
    )
}

/// Whether a header stays behind, on the way to the backend or on the way back.
pub open spec fn skips_header(from_backend: bool, name: Seq<char>) -> bool {
    if from_backend {
        skips_response_header(name)
    } else {
        skips_request_header(name)
    }
}

/// The header lines that pass the proxy, in their order: all but those that
/// stay behind.
pub open spec fn passing_lines(from_backend: bool, lines: Seq<(Seq<char>, Seq<u8>)>) -> Seq<
    (Seq<char>, Seq<u8>),
> {
    lines.filter(|line: (Seq<char>, Seq<u8>)| !skips_header(from_backend, line.0))
}

fn copy_bytes(bytes: &Vec<u8>) -> (copy: Vec<u8>)
    ensures
        copy@ == bytes@,
{
    let mut copy: Vec<u8> = Vec::new();
    let mut i: usize = 0;
    while i < bytes.len()
        invariant
            i <= bytes.len(),
            copy@ == bytes@.take(i as int),
        decreases bytes.len() - i,
    {
        copy.push(bytes[i]);
        assert(copy@ =~= bytes@.take(i + 1));
        i += 1;
    }
    assert(bytes@.take(bytes.len() as int) =~= bytes@);
    copy
}

fn passing_headers(from_backend: bool, headers: &Vec<Header>) -> (kept: Vec<Header>)
    ensures
        header_lines(kept@) == passing_lines(from_backend, header_lines(headers@)),
{
    let ghost lines = header_lines(headers@);
    let ghost keep = |line: (Seq<char>, Seq<u8>)| !skips_header(from_backend, line.0);
    let mut kept: Vec<Header> = Vec::new();
    let mut i: usize = 0;
    proof {
        reveal(Seq::filter);
        assert(lines.take(0).filter(keep) =~= header_lines(kept@));
    }
    while i < headers.len()
        invariant
            i <= headers.len(),
            lines == header_lines(headers@),
            keep == |line: (Seq<char>, Seq<u8>)| !skips_header(from_backend, line.0),
            header_lines(kept@) == lines.take(i as int).filter(keep),
        decreases headers.len() - i,
    {
        let header = &headers[i];
        let skip = if from_backend {
            should_skip_response_header(header.name.as_str())
        } else {
            should_skip_request_header(header.name.as_str())
        };
        proof {
            assert(lines.take(i + 1) =~= lines.take(i as int).push(lines[i as int]));
            Seq::lemma_filter_push(lines.take(i as int), lines[i as int], keep);
            assert(lines[i as int] == header@);
        }
        if !skip {
            let ghost before = header_lines(kept@);
            let copy = Header { name: header.name.clone(), value: copy_bytes(&header.value) };
            kept.push(copy);
            assert(header_lines(kept@) =~= before.push(header@));
        }
        i += 1;
    }
    assert(lines.take(headers.len() as int) =~= lines);
    kept
}

/// The address of a request on the backend: the loopback address, the
/// backend's port, then path and query as they came, or `/` where the
/// request has none.
pub open spec fn forward_url(backend_port: u16, path_and_query: Option<Seq<char>>) -> Seq<char> {
    "http://127.0.0.1:"@ + decimal(backend_port as nat) + (match path_and_query {
        Some(rest) => rest,
        None => "/"@,
    })
}

/// What the proxy does with a request, given the state it reads: the
/// readiness path is answered from the state; without a ready backend every
/// other request gets the "starting" answer; with one, the request is
/// forwarded to the backend's port, without the headers that stay behind.
pub open spec fn proxy_decision(
    state: ProxyState,
    path: Seq<char>,
    path_and_query: Option<Seq<char>>,
    lines: Seq<(Seq<char>, Seq<u8>)>,
) -> DecisionView {
    if path == READY_PATH@ {
        DecisionView::Respond(ready_answer(state.ready, state.backend_port))
    } else if state.backend_port == 0 || !state.ready {
        DecisionView::Respond(ready_answer(false, state.backend_port))
    } else {
        DecisionView::Forward {
            url: forward_url(state.backend_port, path_and_query),
            headers: passing_lines(false, lines),
        }
    }
}

/// Decides on one incoming request. `path` is the path of the request
/// alone, `path_and_query` the path with the query, where the request has one.
pub fn proxy_handler(
    state: &ProxyState,
    path: &str,
    path_and_query: Option<&str>,
    headers: &Vec<Header>,
) -> (decision: ProxyDecision)
    ensures
        decision@ == proxy_decision(
            *state,
            path@,
            crate::config::text_of(path_and_query),
            header_lines(headers@),
        ),
        path@ == READY_PATH@ && state.ready ==> (decision matches ProxyDecision::Respond(answer)
            && (answer.body@ == vstd::utf8::encode_utf8(ready_text_port_first(state.backend_port))
            || answer.body@ == vstd::utf8::encode_utf8(
            ready_text_status_first(state.backend_port),
        ))),
{
    if str_eq(path, READY_PATH) {
        return ProxyDecision::Respond(ready_response(state.ready, state.backend_port));
    }
    if state.backend_port == 0 || !state.ready {
        return ProxyDecision::Respond(ready_response(false, state.backend_port));
    }
    let mut url = String::from_str("http://127.0.0.1:");
    let digits = decimal_string(state.backend_port as u64);
    url.append(digits.as_str());
    match path_and_query {
        Some(rest) => url.append(rest),
        None => url.append("/"),
    }
    ProxyDecision::Forward(ForwardRequest { url, headers: passing_headers(false, headers) })
}

/// The answer that goes back to the client after a forward. A backend that
/// answered is relayed: its status, its headers without those that stay
/// behind, a content length computed anew, and its body. A forward that
/// failed is answered with "starting".
pub open spec fn relayed_answer(backend_port: u16, upstream: Option<UpstreamResponse>) -> ResponseView {
    match upstream {
        Some(answer) => ResponseView {
            status: answer.status,
            headers: passing_lines(true, header_lines(answer.headers@)).push(
                ("content-length"@, vstd::utf8::encode_utf8(decimal(answer.body@.len()))),
            ),
            body: answer.body@,
        },
        None => ready_answer(false, backend_port),
    }
}

/// Builds the answer to the client from what the forward brought back;
/// `None` stands for any failure on the way to the backend or back.
pub fn relay_response(backend_port: u16, upstream: Option<UpstreamResponse>) -> (response:
    ProxyResponse)
    ensures
        response@ == relayed_answer(backend_port, upstream),
{
    match upstream {
        None => ready_response(false, backend_port),
        Some(answer) => {
            let mut headers = passing_headers(true, &answer.headers);
            let ghost passed = header_lines(headers@);
            let length = decimal_string(answer.body.len() as u64);
            headers.push(
                Header {
                    name: String::from_str("content-length"),
                    value: length.as_str().as_bytes_vec(),
                },
            );
            assert(header_lines(headers@) =~= passed.push(
                ("content-length"@, vstd::utf8::encode_utf8(decimal(answer.body@.len()))),
            ));
            ProxyResponse { status: answer.status, headers, body: answer.body }
        },
    }
}

/// While the backend is not ready, no request but the readiness path's is
/// decided otherwise than by the "starting" answer, and none is forwarded.
pub proof fn lemma_nothing_forwarded_unless_ready(
    state: ProxyState,
    path: Seq<char>,
    path_and_query: Option<Seq<char>>,
    lines: Seq<(Seq<char>, Seq<u8>)>,
)
    requires
        !state.ready || state.backend_port == 0,
    ensures
        proxy_decision(state, path, path_and_query, lines) is Respond,
        path != READY_PATH@ ==> proxy_decision(state, path, path_and_query, lines)
            == DecisionView::Respond(ready_answer(false, state.backend_port)),
        !state.ready ==> proxy_decision(state, path, path_and_query, lines)->Respond_0.status
            == STATUS_SERVICE_UNAVAILABLE,
{
}

} // verus!
