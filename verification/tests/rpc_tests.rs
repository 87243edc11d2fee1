use zenobuf::messages::{AddRequest, AddResponse};
use zenobuf::transport::MockTransport;
use zenobuf::{Error, Node};

#[test]
fn test_retry_exhausts_attempts_on_failing_handler() {
    // A handler that always fails the request: the call makes exactly three
    // attempts, sleeps the exact exponential backoffs between them, and the
    // caller receives the last cause.
    let transport = MockTransport::new();
    let mut node = Node::with_transport("retry_node", transport).unwrap();

    let _service = node
        .create_service("always_fails", |_req: AddRequest| -> Result<AddResponse, Error> {
            Err(Error::other("handler failure"))
        })
        .unwrap();

    let mut client = node.create_client::<AddRequest, AddResponse>("always_fails").unwrap();
    let result = client.call(&AddRequest { a: 1, b: 2 });

    match result {
        Err(Error::ServiceCallFailed { service, reason }) => {
            assert_eq!(service, "always_fails");
            assert_eq!(reason, "Error: handler failure");
        },
        _ => panic!("expected the last cause of the failed call"),
    }
    assert_eq!(client.query_count(), 3);
    assert_eq!(client.sleep_log(), &vec![200u64, 400u64]);
}

#[test]
fn test_retry_exhausts_attempts_on_missing_responder() {
    // With no responder at all, every attempt times out and the call fails
    // after the full backoff schedule.
    let transport = MockTransport::new();
    let mut node = Node::with_transport("retry_node", transport).unwrap();

    let mut client = node.create_client::<AddRequest, AddResponse>("nobody_home").unwrap();
    let result = client.call(&AddRequest { a: 1, b: 2 });

    assert!(matches!(result, Err(Error::ServiceCallFailed { .. })));
    assert_eq!(client.query_count(), 3);
    assert_eq!(client.sleep_log(), &vec![200u64, 400u64]);
}

#[test]
fn test_first_attempt_success_sleeps_no_backoff() {
    // A handler that succeeds on the first attempt returns immediately,
    // without incurring any backoff delay.
    let transport = MockTransport::new();
    let mut node = Node::with_transport("prompt_node", transport).unwrap();

    let _service = node
        .create_service("add", |req: AddRequest| -> Result<AddResponse, Error> {
            Ok(AddResponse { sum: req.a + req.b })
        })
        .unwrap();

    let mut client = node.create_client::<AddRequest, AddResponse>("add").unwrap();
    let response = client.call(&AddRequest { a: 20, b: 22 }).unwrap();

    assert_eq!(response.sum, 42);
    assert_eq!(client.query_count(), 1);
    assert!(client.sleep_log().is_empty());
}

#[test]
fn test_add_service_scenario() {
    // Register service "add" with handler (a, b) -> a + b; the client call
    // {a: 40, b: 2} returns {sum: 42}.
    let transport = MockTransport::new();
    let mut node = Node::with_transport("add_node", transport).unwrap();

    let _service = node
        .create_service("add", |req: AddRequest| -> Result<AddResponse, Error> {
            Ok(AddResponse { sum: req.a + req.b })
        })
        .unwrap();

    let mut client = node.create_client::<AddRequest, AddResponse>("add").unwrap();
    let response = client.call(&AddRequest { a: 40, b: 2 }).unwrap();
    assert_eq!(response.sum, 42);

    // A second call through the same client works the same way.
    let response = client.call(&AddRequest { a: -2, b: 44 }).unwrap();
    assert_eq!(response.sum, 42);
}

#[test]
fn test_handler_error_carries_reason() {
    // A negative reply carries the handler's error description.
    let transport = MockTransport::new();
    let mut node = Node::with_transport("reason_node", transport).unwrap();

    let _service = node
        .create_service("picky", |req: AddRequest| -> Result<AddResponse, Error> {
            if req.a >= 0 {
                Ok(AddResponse { sum: req.a + req.b })
            } else {
                Err(Error::configuration("negative input"))
            }
        })
        .unwrap();

    let mut client = node.create_client::<AddRequest, AddResponse>("picky").unwrap();

    let ok = client.call(&AddRequest { a: 1, b: 1 }).unwrap();
    assert_eq!(ok.sum, 2);

    let err = client.call(&AddRequest { a: -1, b: 1 });
    match err {
        Err(Error::ServiceCallFailed { reason, .. }) => {
            assert_eq!(reason, "Configuration error: negative input");
        },
        _ => panic!("expected the handler's error description"),
    }
}
