use mock_server::mocks::{ReplayMock, RunMock};
use mock_server::models::{DynamicBody, Method, Replay, Request};
use serde_json::Value;

fn document(text: &str) -> Value {
    serde_json::from_str(text).expect("valid JSON in a test")
}

fn request(method: Method, path: &str, body: Option<DynamicBody>) -> Request {
    Request { path: path.to_string(), queries: None, method, body }
}

fn text(text: &str) -> DynamicBody {
    DynamicBody::Text(text.to_string())
}

#[test]
fn an_empty_store_answers_nothing() {
    let mock = ReplayMock::new(vec![]);
    assert_eq!(mock.run_mock(&request(Method::Get, "/", None)), None);
}

#[test]
fn the_first_matching_replay_answers() {
    let mock = ReplayMock::new(vec![
        Replay { when: request(Method::Get, "/other", None), then: text("other") },
        Replay { when: request(Method::Get, "/here", None), then: text("first") },
        Replay { when: request(Method::Get, "/here", None), then: text("second") },
    ]);
    assert_eq!(mock.run_mock(&request(Method::Get, "/here", None)), Some(text("first")));
    assert_eq!(mock.run_mock(&request(Method::Get, "/other", None)), Some(text("other")));
    assert_eq!(mock.run_mock(&request(Method::Get, "/nowhere", None)), None);
    assert_eq!(mock.run_mock(&request(Method::Post, "/here", None)), None);
}

#[test]
fn a_replay_is_not_used_up() {
    let mock = ReplayMock::new(vec![
        Replay { when: request(Method::Get, "/here", None), then: text("again") },
    ]);
    assert_eq!(mock.run_mock(&request(Method::Get, "/here", None)), Some(text("again")));
    assert_eq!(mock.run_mock(&request(Method::Get, "/here", None)), Some(text("again")));
}

#[test]
fn the_order_of_the_store_decides_between_overlapping_patterns() {
    let loose = Replay {
        when: request(Method::Post, "/items", Some(DynamicBody::Json(document("{\"a\":1}")))),
        then: text("loose"),
    };
    let tight = Replay {
        when: request(
            Method::Post,
            "/items",
            Some(DynamicBody::Json(document("{\"a\":1,\"b\":2}"))),
        ),
        then: text("tight"),
    };
    let live = request(
        Method::Post,
        "/items",
        Some(DynamicBody::Json(document("{\"a\":1,\"b\":2,\"at\":\"now\"}"))),
    );
    let loose_first = ReplayMock::new(vec![loose.clone(), tight.clone()]);
    assert_eq!(loose_first.run_mock(&live), Some(text("loose")));
    let tight_first = ReplayMock::new(vec![tight, loose]);
    assert_eq!(tight_first.run_mock(&live), Some(text("tight")));
    let partial = request(Method::Post, "/items", Some(DynamicBody::Json(document("{\"a\":1}"))));
    assert_eq!(tight_first.run_mock(&partial), Some(text("loose")));
}

#[test]
fn replays_answer_with_every_kind_of_body() {
    let mock = ReplayMock::new(vec![
        Replay { when: request(Method::Get, "/text", None), then: text("plain") },
        Replay {
            when: request(Method::Get, "/bytes", None),
            then: DynamicBody::Bytes(vec![255, 216, 255]),
        },
        Replay {
            when: request(Method::Get, "/json", None),
            then: DynamicBody::Json(document("{\"id\":1}")),
        },
    ]);
    assert_eq!(mock.run_mock(&request(Method::Get, "/text", None)), Some(text("plain")));
    assert_eq!(
        mock.run_mock(&request(Method::Get, "/bytes", None)),
        Some(DynamicBody::Bytes(vec![255, 216, 255]))
    );
    assert_eq!(
        mock.run_mock(&request(Method::Get, "/json", None)),
        Some(DynamicBody::Json(document("{\"id\":1}")))
    );
}
