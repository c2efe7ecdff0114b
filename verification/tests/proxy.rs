use free_todo::backend_proxy::{
    proxy_handler, ready_body, ready_response, relay_response, should_skip_request_header,
    should_skip_response_header, Header, ProxyDecision, ProxyState, UpstreamResponse, READY_PATH,
    STARTING_BODY, STATUS_OK, STATUS_SERVICE_UNAVAILABLE,
};

fn header(name: &str, value: &str) -> Header {
    Header { name: name.to_string(), value: value.as_bytes().to_vec() }
}

fn lines(headers: &[Header]) -> Vec<(String, String)> {
    headers
        .iter()
        .map(|h| (h.name.clone(), String::from_utf8(h.value.clone()).unwrap()))
        .collect()
}

fn pair(name: &str, value: &str) -> (String, String) {
    (name.to_string(), value.to_string())
}

#[test]
fn scenario_request_while_starting_is_not_forwarded() {
    let state = ProxyState::new(0, false);
    let headers = vec![header("accept", "*/*")];
    match proxy_handler(&state, "/tasks", Some("/tasks"), &headers) {
        ProxyDecision::Respond(response) => {
            assert_eq!(response.status, 503);
            assert_eq!(response.body, b"{\"status\":\"starting\"}".to_vec());
            assert_eq!(lines(&response.headers), vec![pair("content-type", "application/json")]);
        }
        ProxyDecision::Forward(_) => panic!("nothing is forwarded while the backend starts"),
    }
}

#[test]
fn known_port_without_readiness_is_not_forwarded() {
    let state = ProxyState::new(8042, false);
    match proxy_handler(&state, "/tasks", Some("/tasks?x=1"), &Vec::new()) {
        ProxyDecision::Respond(response) => {
            assert_eq!(response.status, STATUS_SERVICE_UNAVAILABLE);
            assert_eq!(response.body, b"{\"status\":\"starting\"}".to_vec());
        }
        ProxyDecision::Forward(_) => panic!("nothing is forwarded while the backend is not ready"),
    }
}

#[test]
fn readiness_without_a_port_is_not_forwarded() {
    let state = ProxyState::new(0, true);
    match proxy_handler(&state, "/tasks", Some("/tasks"), &Vec::new()) {
        ProxyDecision::Respond(response) => {
            assert_eq!(response.status, 503);
            assert_eq!(response.body, b"{\"status\":\"starting\"}".to_vec());
        }
        ProxyDecision::Forward(_) => panic!("there is no port to forward to"),
    }
}

#[test]
fn readiness_path_reports_the_state() {
    assert_eq!(READY_PATH, "/ready");
    let ready = ProxyState::new(8042, true);
    match proxy_handler(&ready, "/ready", Some("/ready?probe=1"), &vec![header("host", "x")]) {
        ProxyDecision::Respond(response) => {
            assert_eq!(response.status, 200);
            let body: serde_json::Value = serde_json::from_slice(&response.body).unwrap();
            assert_eq!(body.get("status").and_then(|v| v.as_str()), Some("ready"));
            assert_eq!(body.get("backend_port").and_then(|v| v.as_u64()), Some(8042));
            assert_eq!(body.as_object().unwrap().len(), 2);
        }
        ProxyDecision::Forward(_) => panic!("the readiness path is never forwarded"),
    }
    let starting = ProxyState::new(8042, false);
    match proxy_handler(&starting, "/ready", None, &Vec::new()) {
        ProxyDecision::Respond(response) => {
            assert_eq!(response.status, 503);
            assert_eq!(response.body, b"{\"status\":\"starting\"}".to_vec());
        }
        ProxyDecision::Forward(_) => panic!("the readiness path is never forwarded"),
    }
}

#[test]
fn readiness_path_is_matched_exactly() {
    let ready = ProxyState::new(8042, true);
    for path in ["/ready/", "/Ready", "/readyz", "/", "/api/ready"] {
        match proxy_handler(&ready, path, Some(path), &Vec::new()) {
            ProxyDecision::Forward(request) => {
                assert_eq!(request.url, format!("http://127.0.0.1:8042{}", path));
            }
            ProxyDecision::Respond(_) => panic!("{} is forwarded", path),
        }
    }
}

#[test]
fn ready_request_is_forwarded_without_hop_headers() {
    let state = ProxyState::new(8042, true);
    let headers = vec![
        header("host", "127.0.0.1:8001"),
        header("accept", "application/json"),
        header("Content-Length", "12"),
        header("x-trace", "a"),
        header("CONNECTION", "keep-alive"),
        header("x-trace", "b"),
        header("content-type", "text/plain"),
    ];
    match proxy_handler(&state, "/api/todos", Some("/api/todos?done=false&q=a%20b"), &headers) {
        ProxyDecision::Forward(request) => {
            assert_eq!(request.url, "http://127.0.0.1:8042/api/todos?done=false&q=a%20b");
            assert_eq!(
                lines(&request.headers),
                vec![
                    pair("accept", "application/json"),
                    pair("x-trace", "a"),
                    pair("x-trace", "b"),
                    pair("content-type", "text/plain"),
                ]
            );
        }
        ProxyDecision::Respond(_) => panic!("a ready backend gets the request"),
    }
}

#[test]
fn request_without_path_and_query_goes_to_the_root() {
    let state = ProxyState::new(65535, true);
    match proxy_handler(&state, "", None, &Vec::new()) {
        ProxyDecision::Forward(request) => {
            assert_eq!(request.url, "http://127.0.0.1:65535/");
            assert!(request.headers.is_empty());
        }
        ProxyDecision::Respond(_) => panic!("a ready backend gets the request"),
    }
}

#[test]
fn header_value_bytes_pass_unchanged() {
    let state = ProxyState::new(8042, true);
    let raw = Header { name: "x-raw".to_string(), value: vec![0xff, 0x00, 0x80] };
    match proxy_handler(&state, "/a", Some("/a"), &vec![raw]) {
        ProxyDecision::Forward(request) => {
            assert_eq!(request.headers.len(), 1);
            assert_eq!(request.headers[0].name, "x-raw");
            assert_eq!(request.headers[0].value, vec![0xff, 0x00, 0x80]);
        }
        ProxyDecision::Respond(_) => panic!("a ready backend gets the request"),
    }
}

#[test]
fn request_headers_that_stay_behind() {
    for name in ["host", "Host", "HOST", "content-length", "Content-Length", "connection"] {
        assert!(should_skip_request_header(name), "{}", name);
    }
    for name in ["", "hos", "hosts", "content-type", "transfer-encoding", "content-encoding", "ho\u{17f}t"] {
        assert!(!should_skip_request_header(name), "{}", name);
    }
}

#[test]
fn response_headers_that_stay_behind() {
    for name in [
        "content-length",
        "transfer-encoding",
        "Transfer-Encoding",
        "content-encoding",
        "CONTENT-ENCODING",
        "connection",
    ] {
        assert!(should_skip_response_header(name), "{}", name);
    }
    for name in ["", "host", "content-type", "etag", "connection2", "content_length"] {
        assert!(!should_skip_response_header(name), "{}", name);
    }
}

#[test]
fn backend_answer_is_relayed() {
    let upstream = UpstreamResponse {
        status: 201,
        headers: vec![
            header("content-type", "application/json"),
            header("content-length", "999"),
            header("transfer-encoding", "chunked"),
            header("set-cookie", "a=1"),
            header("content-encoding", "gzip"),
            header("connection", "close"),
            header("set-cookie", "b=2"),
        ],
        body: b"{\"id\":7}".to_vec(),
    };
    let response = relay_response(8042, Some(upstream));
    assert_eq!(response.status, 201);
    assert_eq!(response.body, b"{\"id\":7}".to_vec());
    assert_eq!(
        lines(&response.headers),
        vec![
            pair("content-type", "application/json"),
            pair("set-cookie", "a=1"),
            pair("set-cookie", "b=2"),
            pair("content-length", "8"),
        ]
    );
}

#[test]
fn empty_backend_answer_has_length_zero() {
    let upstream = UpstreamResponse { status: 404, headers: Vec::new(), body: Vec::new() };
    let response = relay_response(8042, Some(upstream));
    assert_eq!(response.status, 404);
    assert!(response.body.is_empty());
    assert_eq!(lines(&response.headers), vec![pair("content-length", "0")]);
}

#[test]
fn long_backend_answer_has_its_length() {
    let upstream = UpstreamResponse { status: 200, headers: Vec::new(), body: vec![7u8; 123_456] };
    let response = relay_response(8042, Some(upstream));
    assert_eq!(response.body.len(), 123_456);
    assert_eq!(lines(&response.headers), vec![pair("content-length", "123456")]);
}

#[test]
fn failed_forward_is_answered_with_starting() {
    let response = relay_response(8042, None);
    assert_eq!(response.status, 503);
    assert_eq!(response.body, b"{\"status\":\"starting\"}".to_vec());
    assert_eq!(lines(&response.headers), vec![pair("content-type", "application/json")]);
}

#[test]
fn readiness_answers() {
    let ready = ready_response(true, 8001);
    assert_eq!(ready.status, STATUS_OK);
    assert_eq!(ready.body, b"{\"backend_port\":8001,\"status\":\"ready\"}".to_vec());
    assert_eq!(lines(&ready.headers), vec![pair("content-type", "application/json")]);
    let starting = ready_response(false, 8001);
    assert_eq!(starting.status, STATUS_SERVICE_UNAVAILABLE);
    assert_eq!(starting.body, b"{\"status\":\"starting\"}".to_vec());
    assert_eq!(lines(&starting.headers), vec![pair("content-type", "application/json")]);
}

#[test]
fn readiness_body_is_json() {
    assert_eq!(STARTING_BODY, "{\"status\":\"starting\"}");
    assert_eq!(ready_body(false, 0), STARTING_BODY);
    assert_eq!(ready_body(false, 0), "{\"status\":\"starting\"}");
    assert_eq!(ready_body(false, 8001), "{\"status\":\"starting\"}");
    assert_eq!(ready_body(true, 0), "{\"backend_port\":0,\"status\":\"ready\"}");
    assert_eq!(ready_body(true, 65535), "{\"backend_port\":65535,\"status\":\"ready\"}");
    let parsed: serde_json::Value = serde_json::from_str(&ready_body(true, 8100)).unwrap();
    assert_eq!(parsed.get("backend_port").and_then(|v| v.as_u64()), Some(8100));
    assert_eq!(parsed.get("status").and_then(|v| v.as_str()), Some("ready"));
}
