use std::sync::atomic::{AtomicBool, AtomicUsize, Ordering};
use std::sync::{Arc, Mutex};

use zenobuf::messages::{AddRequest, AddResponse, TextMessage};
use zenobuf::node::{Cleanup, DropGuard};
use zenobuf::transport::MockTransport;
use zenobuf::{Error, Node, QosPreset};

struct FlagCleanup {
    flag: Arc<AtomicBool>,
}

impl Cleanup for FlagCleanup {
    fn run(&mut self) {
        self.flag.store(true, Ordering::SeqCst);
    }
}

struct CountCleanup {
    counter: Arc<AtomicUsize>,
}

impl Cleanup for CountCleanup {
    fn run(&mut self) {
        self.counter.fetch_add(1, Ordering::SeqCst);
    }
}

#[test]
fn test_drop_guard() {
    let cleanup_called = Arc::new(AtomicBool::new(false));

    {
        let _guard = DropGuard::new(Box::new(FlagCleanup { flag: cleanup_called.clone() }));

        // Guard is still alive, cleanup should not have been called
        assert!(!cleanup_called.load(Ordering::SeqCst));
    }

    // Guard is dropped, cleanup should have been called
    assert!(cleanup_called.load(Ordering::SeqCst));
}

#[test]
fn test_drop_guard_runs_each_action_exactly_once() {
    // Dropping a handle invokes its cleanup exactly once, also when other
    // unrelated guards are dropped around it.
    let counter = Arc::new(AtomicUsize::new(0));
    let other = Arc::new(AtomicUsize::new(0));

    {
        let _first = DropGuard::new(Box::new(CountCleanup { counter: counter.clone() }));
        {
            let _second = DropGuard::new(Box::new(CountCleanup { counter: other.clone() }));
        }
        assert_eq!(other.load(Ordering::SeqCst), 1);
        assert_eq!(counter.load(Ordering::SeqCst), 0);
    }

    assert_eq!(counter.load(Ordering::SeqCst), 1);
    assert_eq!(other.load(Ordering::SeqCst), 1);
}

#[test]
fn test_publisher_handle_automatic_cleanup() {
    let transport = MockTransport::new();
    let mut node = Node::with_transport("test_node", transport).unwrap();

    // Create a publisher handle
    let publisher_handle = node.publisher::<TextMessage>("test_topic").build(&mut node).unwrap();

    // Test that we can publish messages
    let message = TextMessage { value: 42, text: b"Hello, World!".to_vec() };

    publisher_handle.publish(&message).unwrap();
    assert_eq!(publisher_handle.topic(), "test_topic");

    // When the handle is dropped, cleanup happens automatically
    drop(publisher_handle);
}

#[test]
fn test_subscriber_handle_automatic_cleanup() {
    let transport = MockTransport::new();
    let mut node = Node::with_transport("test_node", transport).unwrap();

    let received: Arc<Mutex<Option<TextMessage>>> = Arc::new(Mutex::new(None));
    let received_clone = received.clone();

    // Create a subscriber handle
    let subscriber_handle = node
        .subscriber::<TextMessage>("test_topic")
        .build(&mut node, move |msg: TextMessage| {
            let mut received = received_clone.lock().unwrap();
            *received = Some(msg);
        })
        .unwrap();

    // Test that the subscriber is created
    let _ = subscriber_handle.subscriber();

    // When the handle is dropped, cleanup happens automatically
    drop(subscriber_handle);
}

#[test]
fn test_service_handle_automatic_cleanup() {
    let transport = MockTransport::new();
    let mut node = Node::with_transport("test_node", transport).unwrap();

    // Create a service handle
    let service_handle = node
        .service::<AddRequest, AddResponse>("add_service")
        .build(&mut node, |req: AddRequest| -> Result<AddResponse, Error> {
            Ok(AddResponse { sum: req.a + req.b })
        })
        .unwrap();

    // Test that the service is created
    let _ = service_handle.service();

    // When the handle is dropped, cleanup happens automatically
    drop(service_handle);
}

#[test]
fn test_client_handle_automatic_cleanup() {
    let transport = MockTransport::new();
    let mut node = Node::with_transport("test_node", transport).unwrap();

    // Create a client handle
    let client_handle = node.client::<AddRequest, AddResponse>("add_service").build(&mut node).unwrap();

    // Test that the client is created
    let _ = client_handle.client();

    // When the handle is dropped, cleanup happens automatically
    drop(client_handle);
}

#[test]
fn test_publisher_builder_api() {
    let transport = MockTransport::new();
    let mut node = Node::with_transport("test_node", transport).unwrap();

    // Basic builder pattern
    let publisher = node.publisher::<TextMessage>("test_topic").build(&mut node).unwrap();
    assert_eq!(publisher.topic(), "test_topic");

    // Builder with a QoS preset
    let publisher2 = node
        .publisher::<TextMessage>("test_topic2")
        .with_qos_preset(QosPreset::SensorData)
        .build(&mut node)
        .unwrap();
    assert_eq!(publisher2.topic(), "test_topic2");

    // Builder with custom QoS
    let publisher3 = node
        .publisher::<TextMessage>("test_topic3")
        .reliable()
        .with_depth(50)
        .build(&mut node)
        .unwrap();
    assert_eq!(publisher3.topic(), "test_topic3");
}

#[test]
fn test_subscriber_builder_api() {
    let transport = MockTransport::new();
    let mut node = Node::with_transport("test_node", transport).unwrap();

    let received: Arc<Mutex<Option<TextMessage>>> = Arc::new(Mutex::new(None));
    let received_clone = received.clone();

    // Basic builder pattern
    let _subscriber = node
        .subscriber::<TextMessage>("test_topic")
        .build(&mut node, move |msg: TextMessage| {
            let mut received = received_clone.lock().unwrap();
            *received = Some(msg);
        })
        .unwrap();

    // Builder with a QoS preset
    let received2: Arc<Mutex<Option<TextMessage>>> = Arc::new(Mutex::new(None));
    let received2_clone = received2.clone();

    let _subscriber2 = node
        .subscriber::<TextMessage>("test_topic2")
        .with_qos_preset(QosPreset::HighThroughput)
        .build(&mut node, move |msg: TextMessage| {
            let mut received = received2_clone.lock().unwrap();
            *received = Some(msg);
        })
        .unwrap();
}

#[test]
fn test_service_builder_api() {
    let transport = MockTransport::new();
    let mut node = Node::with_transport("test_node", transport).unwrap();

    // Basic service builder
    let _service = node
        .service::<AddRequest, AddResponse>("add_service")
        .build(&mut node, |req: AddRequest| -> Result<AddResponse, Error> {
            Ok(AddResponse { sum: req.a + req.b })
        })
        .unwrap();
}

#[test]
fn test_client_builder_api() {
    let transport = MockTransport::new();
    let mut node = Node::with_transport("test_node", transport).unwrap();

    // Basic client builder
    let _client = node.client::<AddRequest, AddResponse>("add_service").build(&mut node).unwrap();
}
