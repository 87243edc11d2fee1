use std::sync::{Arc, Mutex};

use zenobuf::messages::{AddRequest, AddResponse, TextMessage};
use zenobuf::parameter::{ParamKind, ParamValue};
use zenobuf::transport::MockTransport;
use zenobuf::{Error, Node, QosProfile};

#[test]
fn test_node_creation() {
    let transport = MockTransport::new();
    let node = Node::with_transport("test_node", transport).unwrap();

    assert_eq!(node.name(), "test_node");
}

#[test]
fn test_node_parameter() {
    let transport = MockTransport::new();
    let mut node = Node::with_transport("test_node", transport).unwrap();

    // Set a parameter
    node.set_parameter("test_param", ParamValue::Int(42)).unwrap();

    // Get the parameter
    let value = node.get_parameter("test_param", ParamKind::Int).unwrap();
    assert_eq!(value, ParamValue::Int(42));

    // Set the parameter to a new value
    node.set_parameter("test_param", ParamValue::Int(43)).unwrap();
    let value = node.get_parameter("test_param", ParamKind::Int).unwrap();
    assert_eq!(value, ParamValue::Int(43));

    // Try to get a non-existent parameter
    let result = node.get_parameter("nonexistent", ParamKind::Int);
    assert!(result.is_err());
}

#[test]
fn test_node_spin_once() {
    let transport = MockTransport::new();
    let node = Node::with_transport("test_node", transport).unwrap();

    // Spin once should not fail
    node.spin_once().unwrap();
}

#[test]
fn test_parameter_basic() {
    let transport = MockTransport::new();
    let mut node = Node::with_transport("parameter_node", transport).unwrap();

    // Set parameters of different kinds
    node.set_parameter("string_param", ParamValue::Str("hello".to_string())).unwrap();
    node.set_parameter("int_param", ParamValue::Int(42)).unwrap();
    node.set_parameter("float_param", ParamValue::Float(std::f64::consts::PI.to_bits())).unwrap();
    node.set_parameter("bool_param", ParamValue::Bool(true)).unwrap();
    node.set_parameter("array_param", ParamValue::IntArray(vec![1, 2, 3])).unwrap();

    // Get parameters
    let string_param = node.get_parameter("string_param", ParamKind::Str).unwrap();
    let int_param = node.get_parameter("int_param", ParamKind::Int).unwrap();
    let float_param = node.get_parameter("float_param", ParamKind::Float).unwrap();
    let bool_param = node.get_parameter("bool_param", ParamKind::Bool).unwrap();
    let array_param = node.get_parameter("array_param", ParamKind::IntArray).unwrap();

    // Check parameters
    assert_eq!(string_param, ParamValue::Str("hello".to_string()));
    assert_eq!(int_param, ParamValue::Int(42));
    assert_eq!(float_param, ParamValue::Float(std::f64::consts::PI.to_bits()));
    assert_eq!(bool_param, ParamValue::Bool(true));
    assert_eq!(array_param, ParamValue::IntArray(vec![1, 2, 3]));

    // Try to get a non-existent parameter
    let result = node.get_parameter("nonexistent", ParamKind::Int);
    assert!(result.is_err());
}

#[test]
fn test_service_client_basic() {
    // Create a transport
    let transport = MockTransport::new();

    // Create a node
    let mut node = Node::with_transport("service_client_node", transport).unwrap();

    // Create a service
    let _service = node
        .create_service("add_service", |req: AddRequest| -> Result<AddResponse, Error> {
            Ok(AddResponse { sum: req.a + req.b })
        })
        .unwrap();

    // Create a client
    let mut client = node.create_client::<AddRequest, AddResponse>("add_service").unwrap();

    // Create a request
    let request = AddRequest { a: 40, b: 2 };

    // Call the service
    let response = client.call(&request).unwrap();

    // Check the response
    assert_eq!(response.sum, 42);
}

#[test]
fn test_pub_sub_basic() {
    // Create a transport
    let transport = MockTransport::new();

    // Create a node
    let mut node = Node::with_transport("pub_sub_node", transport).unwrap();

    // Create a variable to store the received message
    let received: Arc<Mutex<Option<TextMessage>>> = Arc::new(Mutex::new(None));
    let received_clone = received.clone();

    // Create a subscriber
    let _subscriber = node
        .create_subscriber("test_topic", QosProfile::default(), move |msg: TextMessage| {
            let mut received = received_clone.lock().unwrap();
            *received = Some(msg);
        })
        .unwrap();

    // Create a publisher
    let publisher = node
        .create_publisher::<TextMessage>("test_topic", QosProfile::default())
        .unwrap();

    // Create a message to publish
    let message = TextMessage { value: 42, text: b"Hello, world!".to_vec() };

    // Publish the message
    publisher.publish(&message).unwrap();

    // Spin once to process callbacks
    node.spin_once().unwrap();

    // Check that the message was received
    let received_msg = received.lock().unwrap();
    assert!(received_msg.is_some());
    assert_eq!(received_msg.as_ref().unwrap().value, 42);
    assert_eq!(received_msg.as_ref().unwrap().text, b"Hello, world!".to_vec());
}

#[test]
fn test_complex_workflow() {
    // Create a transport
    let transport = MockTransport::new();

    // Create a node
    let mut node = Node::with_transport("complex_node", transport).unwrap();

    // Set a parameter
    node.set_parameter("count", ParamValue::Int(0)).unwrap();

    // Create a publisher
    let publisher = node
        .create_publisher::<TextMessage>("test_topic", QosProfile::default())
        .unwrap();

    // Create a service
    let _service = node
        .create_service("add_service", |req: AddRequest| -> Result<AddResponse, Error> {
            Ok(AddResponse { sum: req.a + req.b })
        })
        .unwrap();

    // Create a client
    let mut client = node.create_client::<AddRequest, AddResponse>("add_service").unwrap();

    // Create a variable to store the received message
    let received: Arc<Mutex<Option<TextMessage>>> = Arc::new(Mutex::new(None));
    let received_clone = received.clone();

    // Create a subscriber
    let _subscriber = node
        .create_subscriber("test_topic", QosProfile::default(), move |msg: TextMessage| {
            let mut received = received_clone.lock().unwrap();
            *received = Some(msg);
        })
        .unwrap();

    // Publish a message
    let message = TextMessage { value: 42, text: b"Hello, world!".to_vec() };
    publisher.publish(&message).unwrap();

    // Call the service
    let request = AddRequest { a: 40, b: 2 };
    let response = client.call(&request).unwrap();

    // Check the response
    assert_eq!(response.sum, 42);

    // Spin once to process callbacks
    node.spin_once().unwrap();

    // Check that the message was received
    {
        let received_msg = received.lock().unwrap();
        assert!(received_msg.is_some());
        assert_eq!(received_msg.as_ref().unwrap().value, 42);
        assert_eq!(received_msg.as_ref().unwrap().text, b"Hello, world!".to_vec());
    }

    // Update the parameter
    node.set_parameter("count", ParamValue::Int(1)).unwrap();

    // Check the parameter
    let count = node.get_parameter("count", ParamKind::Int).unwrap();
    assert_eq!(count, ParamValue::Int(1));
}

#[test]
fn test_duplicate_publisher_rejected() {
    // Creating a second resource of the same kind under the same name fails
    // with the already-exists error, and the first stays usable.
    let transport = MockTransport::new();
    let mut node = Node::with_transport("collision_node", transport).unwrap();

    let first = node
        .create_publisher::<TextMessage>("shared_topic", QosProfile::default())
        .unwrap();
    let second = node.create_publisher::<TextMessage>("shared_topic", QosProfile::default());
    match second {
        Err(Error::TopicAlreadyExists { topic, node }) => {
            assert_eq!(topic, "shared_topic");
            assert_eq!(node, "collision_node");
        },
        _ => panic!("expected a topic collision"),
    }

    // The first publisher still works after the rejected attempt.
    let message = TextMessage { value: 7, text: b"still here".to_vec() };
    first.publish(&message).unwrap();
}

#[test]
fn test_duplicate_names_per_kind() {
    let transport = MockTransport::new();
    let mut node = Node::with_transport("collision_node", transport).unwrap();

    let _subscriber = node
        .create_subscriber("t", QosProfile::default(), |_msg: TextMessage| {})
        .unwrap();
    assert!(node.create_subscriber("t", QosProfile::default(), |_msg: TextMessage| {}).is_err());

    let _service = node
        .create_service("s", |req: AddRequest| -> Result<AddResponse, Error> {
            Ok(AddResponse { sum: req.a + req.b })
        })
        .unwrap();
    let second = node.create_service("s", |req: AddRequest| -> Result<AddResponse, Error> {
        Ok(AddResponse { sum: req.a + req.b })
    });
    assert!(matches!(second, Err(Error::ServiceAlreadyExists { .. })));

    let _client = node.create_client::<AddRequest, AddResponse>("s").unwrap();
    assert!(node.create_client::<AddRequest, AddResponse>("s").is_err());

    // A name may be reused across kinds: a topic and a service may share one.
    let _publisher = node.create_publisher::<TextMessage>("s", QosProfile::default()).unwrap();
}

#[test]
fn test_simplified_convenience_methods() {
    let transport = MockTransport::new();
    let mut node = Node::with_transport("test_node", transport).unwrap();

    // Simplified publish method
    let publisher = node.publish::<TextMessage>("simple_topic").unwrap();
    assert_eq!(publisher.topic(), "simple_topic");

    // Simplified subscribe method
    let received: Arc<Mutex<Option<TextMessage>>> = Arc::new(Mutex::new(None));
    let received_clone = received.clone();

    let _subscriber = node
        .subscribe("simple_topic", move |msg: TextMessage| {
            let mut received = received_clone.lock().unwrap();
            *received = Some(msg);
        })
        .unwrap();
}
