use mock_server::mocks::{ClosureMock, RunMock};
use mock_server::models::{DynamicBody, Method, Request};
use mock_server::{MockServer, ResultType};

fn get(path: &str) -> Request {
    Request { path: path.to_string(), queries: None, method: Method::Get, body: None }
}

#[test]
fn url_joins_address_and_path() {
    let server: MockServer<u8> = MockServer::new("127.0.0.1:4040".to_string());
    assert_eq!(server.url("todos/1"), "http://127.0.0.1:4040/todos/1");
    assert_eq!(server.url(""), "http://127.0.0.1:4040/");
    assert_eq!(server.url("/x"), "http://127.0.0.1:4040//x");
    assert_eq!(server.address(), "127.0.0.1:4040");
}

#[test]
fn responders_keep_the_order_of_registration() {
    let server = MockServer::new("h:1".to_string()).with_mock(3).with_mock(1).with_mock(2);
    assert_eq!(server.registered(), &vec![3, 1, 2]);
    let server = server.with_mock(0);
    assert_eq!(server.registered(), &vec![3, 1, 2, 0]);
}

#[test]
fn a_new_server_has_no_responders() {
    let server: MockServer<u8> = MockServer::new("h:1".to_string());
    assert!(server.registered().is_empty());
}

#[test]
fn filtering_keeps_what_is_accepted_in_its_order() {
    let server = MockServer::new("h:1".to_string())
        .with_mock(5)
        .with_mock(2)
        .with_mock(8)
        .with_mock(1)
        .with_mock(9);
    let server = server.filter_remove_mock(|mock: &i32| *mock >= 5);
    assert_eq!(server.registered(), &vec![5, 8, 9]);
    assert_eq!(server.address(), "h:1");
    let server = server.filter_remove_mock(|_mock: &i32| true);
    assert_eq!(server.registered(), &vec![5, 8, 9]);
    let server = server.filter_remove_mock(|_mock: &i32| false);
    assert!(server.registered().is_empty());
    let server = server.filter_remove_mock(|_mock: &i32| true);
    assert!(server.registered().is_empty());
}

#[test]
fn a_snapshot_is_not_changed_by_a_later_registration() {
    let server = MockServer::new("h:1".to_string()).with_mock(1);
    let snapshot = server.snapshot();
    let server = server.with_mock(2);
    assert_eq!(snapshot, vec![1]);
    assert_eq!(server.snapshot(), vec![1, 2]);
    assert_eq!(server.registered(), &vec![1, 2]);
}

#[test]
fn a_removed_responder_is_no_longer_asked() {
    let one: Box<dyn RunMock> = ClosureMock::new(|_request: Request| Some("one"));
    let two: Box<dyn RunMock> = ClosureMock::new(|_request: Request| Some("two"));
    let server = MockServer::new("h:1".to_string()).with_mock((1u8, one)).with_mock((2u8, two));
    let server = server.filter_remove_mock(|mock: &(u8, Box<dyn RunMock>)| mock.0 != 1);
    let answers: Vec<Option<DynamicBody>> =
        server.registered().iter().map(|mock| mock.1.run_mock(&get("/"))).collect();
    assert_eq!(answers, vec![Some(DynamicBody::Text("two".to_string()))]);
}

#[test]
fn dispatch_on_an_empty_server_is_not_found() {
    let server: MockServer<Box<dyn RunMock>> = MockServer::new("h:1".to_string());
    assert_eq!(server.dispatch(&get("/")), ResultType::NotFound);
}
