use mock_server::mocks::gateway::{
    classify, sniff, CaptureFile, UpstreamCall, UpstreamReply, UPSTREAM_TIMEOUT_SECS,
};
use mock_server::mocks::{Gateway, ReplayMock, RunMock};
use mock_server::models::{DynamicBody, Method, Replay, Request};
use serde_json::Value;

fn document(text: &str) -> Value {
    serde_json::from_str(text).expect("valid JSON in a test")
}

fn get(path: &str) -> Request {
    Request { path: path.to_string(), queries: None, method: Method::Get, body: None }
}

fn answer(status: u16, payload: &[u8]) -> UpstreamReply {
    UpstreamReply::Response { status, payload: payload.to_vec() }
}

#[test]
fn the_upstream_address_drops_the_prefix_and_keeps_the_queries() {
    let gateway = Gateway::new("/api", "https://example.org");
    let mut request = get("/api/todos/1");
    request.queries = Some("a=1&b=2".to_string());
    let call = gateway.upstream_call(&request).expect("a call");
    assert_eq!(
        call,
        UpstreamCall {
            method: Method::Get,
            uri: "https://example.org/todos/1?a=1&b=2".to_string(),
            content_type: None,
            body: None,
            timeout_secs: 300,
        }
    );
    assert_eq!(UPSTREAM_TIMEOUT_SECS, 300);
}

#[test]
fn an_empty_prefix_takes_every_path() {
    let gateway = Gateway::new("", "https://jsonplaceholder.typicode.com");
    let call = gateway.upstream_call(&get("/todos/1")).expect("a call");
    assert_eq!(call.uri, "https://jsonplaceholder.typicode.com/todos/1");
    let call = gateway.upstream_call(&get("")).expect("a call");
    assert_eq!(call.uri, "https://jsonplaceholder.typicode.com");
}

#[test]
fn an_empty_query_string_still_gets_its_question_mark() {
    let gateway = Gateway::new("", "http://up");
    let mut request = get("/a");
    request.queries = Some(String::new());
    assert_eq!(gateway.upstream_call(&request).expect("a call").uri, "http://up/a?");
}

#[test]
fn a_path_outside_the_prefix_is_declined() {
    let gateway = Gateway::new("/api", "https://example.org");
    assert_eq!(gateway.upstream_call(&get("/other/api")), None);
    assert_eq!(gateway.upstream_call(&get("/ap")), None);
    assert_eq!(gateway.upstream_call(&get("")), None);
    assert!(gateway.upstream_call(&get("/api")).is_some());
    assert!(gateway.upstream_call(&get("/apiary")).is_some());
}

#[test]
fn the_six_forwarded_methods_are_called() {
    let gateway = Gateway::new("", "http://up");
    let methods =
        [Method::Post, Method::Put, Method::Get, Method::Delete, Method::Head, Method::Patch];
    for method in methods {
        let mut request = get("/a");
        request.method = method;
        assert_eq!(gateway.upstream_call(&request).expect("a call").method, method);
    }
}

#[test]
fn unsupported_methods_fall_through_without_a_call() {
    let mut gateway = Gateway::new("", "http://up");
    for method in [Method::Trace, Method::Connect, Method::Options, Method::Other] {
        let mut request = get("/a");
        request.method = method;
        assert_eq!(gateway.upstream_call(&request), None);
        let answer = gateway.run_mock(&request, |_call| -> UpstreamReply {
            panic!("no call is to be made")
        });
        assert_eq!(answer, None);
    }
    assert_eq!(gateway.flush(), None);
}

#[test]
fn the_body_goes_upstream_as_it_is() {
    let gateway = Gateway::new("", "http://up");
    let mut request = get("/a");
    request.method = Method::Post;
    request.body = Some(DynamicBody::Json(document("{\"a\":1}")));
    let call = gateway.upstream_call(&request).expect("a call");
    assert_eq!(call.content_type, Some("application/json".to_string()));
    assert_eq!(call.body, Some(DynamicBody::Json(document("{\"a\":1}"))));
    request.body = Some(DynamicBody::Text("hello".to_string()));
    let call = gateway.upstream_call(&request).expect("a call");
    assert_eq!(call.content_type, None);
    assert_eq!(call.body, Some(DynamicBody::Text("hello".to_string())));
    request.body = Some(DynamicBody::Bytes(vec![1, 2]));
    let call = gateway.upstream_call(&request).expect("a call");
    assert_eq!(call.content_type, None);
    assert_eq!(call.body, Some(DynamicBody::Bytes(vec![1, 2])));
}

#[test]
fn payloads_are_sniffed_as_json_then_text_then_bytes() {
    assert_eq!(sniff(b"{\"a\": 1}".to_vec()), DynamicBody::Json(document("{\"a\":1}")));
    assert_eq!(sniff(b"17".to_vec()), DynamicBody::Json(document("17")));
    assert_eq!(sniff(b"null".to_vec()), DynamicBody::Json(Value::Null));
    assert_eq!(sniff(b"<html></html>".to_vec()), DynamicBody::Text("<html></html>".to_string()));
    assert_eq!(sniff("gr\u{fc}\u{df}e".as_bytes().to_vec()), DynamicBody::Text("gr\u{fc}\u{df}e".to_string()));
    assert_eq!(sniff(vec![]), DynamicBody::Text(String::new()));
    assert_eq!(sniff(vec![255, 216, 255, 224]), DynamicBody::Bytes(vec![255, 216, 255, 224]));
    assert_eq!(sniff(vec![b'a', 0xc3]), DynamicBody::Bytes(vec![b'a', 0xc3]));
}

#[test]
fn a_read_document_wins_over_the_payload() {
    assert_eq!(
        classify(Some(document("[1]")), b"not the same".to_vec()),
        DynamicBody::Json(document("[1]"))
    );
    assert_eq!(classify(None, b"[1]".to_vec()), DynamicBody::Text("[1]".to_string()));
    assert_eq!(classify(None, vec![0x80]), DynamicBody::Bytes(vec![0x80]));
}

#[test]
fn a_success_is_captured_and_returned() {
    let mut gateway = Gateway::new_replay("", "http://up", "out.json");
    let request = get("/todos/1");
    let body = gateway.settle(&request, answer(200, b"{\"id\":1}"));
    assert_eq!(body, Some(DynamicBody::Json(document("{\"id\":1}"))));
    let capture = gateway.flush().expect("something to write");
    assert_eq!(
        capture,
        CaptureFile {
            path: "out.json".to_string(),
            replays: vec![Replay {
                when: get("/todos/1"),
                then: DynamicBody::Json(document("{\"id\":1}")),
            }],
        }
    );
}

#[test]
fn every_status_of_success_counts() {
    let mut gateway = Gateway::new("", "http://up");
    assert!(gateway.settle(&get("/"), answer(200, b"a")).is_some());
    assert!(gateway.settle(&get("/"), answer(201, b"a")).is_some());
    assert!(gateway.settle(&get("/"), answer(204, b"")).is_some());
    assert!(gateway.settle(&get("/"), answer(299, b"a")).is_some());
}

#[test]
fn failures_are_declined_and_leave_no_trace() {
    let mut gateway = Gateway::new_replay("", "http://up", "out.json");
    assert_eq!(gateway.settle(&get("/"), UpstreamReply::Failed), None);
    for status in [0, 100, 199, 300, 301, 404, 500, 65535] {
        assert_eq!(gateway.settle(&get("/"), answer(status, b"{\"error\":true}")), None);
    }
    assert_eq!(gateway.flush(), None);
}

#[test]
fn captures_keep_the_order_of_completion() {
    let mut gateway = Gateway::new_replay("", "http://up", "out.json");
    gateway.settle(&get("/b"), answer(200, b"second asked, first done"));
    gateway.settle(&get("/c"), answer(503, b"never recorded"));
    gateway.settle(&get("/a"), answer(200, b"first asked, second done"));
    gateway.settle(&get("/b"), answer(200, b"again"));
    let CaptureFile { replays, .. } = gateway.flush().expect("something to write");
    let paths: Vec<String> = replays.iter().map(|replay| replay.when.path.clone()).collect();
    assert_eq!(paths, vec!["/b".to_string(), "/a".to_string(), "/b".to_string()]);
}

#[test]
fn an_untouched_gateway_writes_nothing() {
    assert_eq!(Gateway::new_replay("", "http://up", "out.json").flush(), None);
    assert_eq!(Gateway::new("", "http://up").flush(), None);
}

#[test]
fn a_gateway_without_an_output_writes_nothing() {
    let mut gateway = Gateway::new("", "http://up");
    assert!(gateway.settle(&get("/"), answer(200, b"kept in memory only")).is_some());
    assert_eq!(gateway.flush(), None);
}

#[test]
fn flushing_twice_gives_the_same() {
    let mut gateway = Gateway::new_replay("", "http://up", "out.json");
    gateway.settle(&get("/"), answer(200, b"once"));
    assert_eq!(gateway.flush(), gateway.flush());
    assert!(gateway.flush().is_some());
}

#[test]
fn the_upstream_is_called_once_with_the_planned_call() {
    let mut gateway = Gateway::new_replay("/api", "http://up", "out.json");
    let mut request = get("/api/x");
    request.queries = Some("q=1".to_string());
    let mut seen: Vec<UpstreamCall> = vec![];
    let answer = gateway.run_mock(&request, |call| {
        seen.push(call);
        UpstreamReply::Response { status: 200, payload: b"fine".to_vec() }
    });
    assert_eq!(answer, Some(DynamicBody::Text("fine".to_string())));
    assert_eq!(seen.len(), 1);
    assert_eq!(seen[0].uri, "http://up/x?q=1");
    assert_eq!(gateway.flush().expect("something to write").replays.len(), 1);
}

#[test]
fn capture_and_replay() {
    let file_path = "testingTemp/test.json";
    let request = get("/todos/1");
    let (body_one, capture) = {
        let mut gateway =
            Gateway::new_replay("", "https://jsonplaceholder.typicode.com", file_path);
        let body = gateway
            .run_mock(&request, |call| {
                assert_eq!(call.uri, "https://jsonplaceholder.typicode.com/todos/1");
                UpstreamReply::Response {
                    status: 200,
                    payload: b"{\"userId\":1,\"id\":1,\"title\":\"delectus\",\"completed\":false}"
                        .to_vec(),
                }
            })
            .expect("Valid get");
        (body, gateway.flush().expect("a capture"))
    };
    assert_ne!(body_one, DynamicBody::Json(Value::Null));
    assert_eq!(capture.path, file_path);

    let body_two = ReplayMock::new(capture.replays).run_mock(&request).expect("Valid get");
    assert_eq!(body_one, body_two);
}

#[test]
fn capture_and_replay_image() {
    let file_path = "testingTemp/test_image.json";
    let request = get("/3903/15218475961_963a4c116e_n.jpg");
    let image: Vec<u8> = vec![0xff, 0xd8, 0xff, 0xe0, 0x00, 0x10, b'J', b'F', b'I', b'F'];
    let (body_one, capture) = {
        let mut gateway = Gateway::new_replay("", "https://live.staticflickr.com", file_path);
        let body = gateway
            .run_mock(&request, |_call| UpstreamReply::Response {
                status: 200,
                payload: image.clone(),
            })
            .expect("Valid get");
        (body, gateway.flush().expect("a capture"))
    };
    assert_ne!(body_one, DynamicBody::Bytes(vec![]));
    assert_eq!(body_one, DynamicBody::Bytes(image));

    let body_two = ReplayMock::new(capture.replays).run_mock(&request).expect("Valid get");
    assert_eq!(body_one, body_two);
}

#[test]
fn capture_and_replay_text_body() {
    let file_path = "testingTemp/testText.json";
    let request = get("/wiki/Game_replay");
    let (body_one, capture) = {
        let mut gateway = Gateway::new_replay("", "https://en.wikipedia.org", file_path);
        let body = gateway
            .run_mock(&request, |_call| UpstreamReply::Response {
                status: 200,
                payload: b"<!DOCTYPE html><title>Game replay</title>".to_vec(),
            })
            .expect("Valid get");
        (body, gateway.flush().expect("a capture"))
    };
    assert_ne!(body_one, DynamicBody::Text(String::new()));

    let body_two = ReplayMock::new(capture.replays).run_mock(&request).expect("Valid get");
    assert_eq!(body_one, body_two);
}

#[test]
fn an_earlier_capture_of_the_same_request_is_replayed_first() {
    let mut gateway = Gateway::new_replay("", "http://up", "out.json");
    gateway.settle(&get("/clock"), answer(200, b"noon"));
    gateway.settle(&get("/clock"), answer(200, b"one"));
    let capture = gateway.flush().expect("a capture");
    let replayed = ReplayMock::new(capture.replays).run_mock(&get("/clock"));
    assert_eq!(replayed, Some(DynamicBody::Text("noon".to_string())));
}
