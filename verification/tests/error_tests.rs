use zenobuf::error::{Error, ErrorContext};

#[test]
fn test_error_display() {
    let error = Error::Serialization("failed to serialize".to_string());
    assert_eq!(error.message(), "Serialization error: failed to serialize");

    let error = Error::node_already_exists("test_node");
    assert_eq!(error.message(), "Node 'test_node' already exists");

    let error = Error::topic_already_exists("test_topic", "test_node");
    assert_eq!(error.message(), "Topic 'test_topic' already exists on node 'test_node'");

    let error = Error::service_already_exists("test_service", "test_node");
    assert_eq!(error.message(), "Service 'test_service' already exists on node 'test_node'");

    let error = Error::service_call_timeout("test_service", 5000);
    assert_eq!(error.message(), "Service call to 'test_service' timed out after 5000ms");

    let error = Error::service_call_failed("test_service", "connection failed");
    assert_eq!(error.message(), "Service call to 'test_service' failed: connection failed");

    let error = Error::parameter("test_param", "failed to set parameter");
    assert_eq!(error.message(), "Parameter 'test_param' error: failed to set parameter");

    let error = Error::node("test_node", "failed to create node");
    assert_eq!(error.message(), "Node 'test_node' error: failed to create node");

    let error = Error::publisher("test_topic", "failed to create publisher");
    assert_eq!(error.message(), "Publisher for topic 'test_topic' error: failed to create publisher");

    let error = Error::subscriber("test_topic", "failed to create subscriber");
    assert_eq!(
        error.message(),
        "Subscriber for topic 'test_topic' error: failed to create subscriber"
    );

    let error = Error::service("test_service", "failed to create service");
    assert_eq!(error.message(), "Service 'test_service' error: failed to create service");

    let error = Error::client("test_service", "failed to create client");
    assert_eq!(
        error.message(),
        "Client for service 'test_service' error: failed to create client"
    );

    let error = Error::configuration("invalid configuration");
    assert_eq!(error.message(), "Configuration error: invalid configuration");

    let error = Error::network("connection timeout");
    assert_eq!(error.message(), "Network error: connection timeout");

    let error = Error::other("other error");
    assert_eq!(error.message(), "Error: other error");
}

#[test]
fn test_error_debug() {
    let error = Error::other("other error");
    let debug_str = format!("{error:?}");
    assert!(debug_str.contains("Other"));
}

#[test]
fn test_error_context() {
    let base: Result<(), Error> = Err(Error::transport("base error", "unknown"));
    let with = base.with_context("additional context");
    match with {
        Err(Error::Transport { cause, context }) => {
            assert_eq!(cause, "base error");
            assert_eq!(context, "additional context");
        },
        _ => panic!("expected a transport error"),
    }

    // Every other error passes through unchanged.
    let other: Result<(), Error> = Err(Error::other("base error"));
    match other.with_context("additional context") {
        Err(Error::Other { reason }) => assert_eq!(reason, "base error"),
        _ => panic!("expected the error unchanged"),
    }

    let ok: Result<i32, Error> = Ok(7);
    assert_eq!(ok.with_context("additional context").unwrap(), 7);
}

#[test]
fn test_error_deserialization_variant() {
    let error = Error::message_deserialization("bad bytes", "TestMessage");
    assert_eq!(error.message(), "Message deserialization failed for type TestMessage");

    let error = Error::message_serialization("bad value", "TestMessage");
    assert_eq!(error.message(), "Message serialization failed for type TestMessage");

    let error = Error::transport("link down", "test_service");
    assert_eq!(error.message(), "Transport error in test_service");

    let error = Error::Decoding("buffer too short".to_string());
    assert_eq!(error.message(), "Decoding error: buffer too short");

    let error = Error::Encoding("buffer full".to_string());
    assert_eq!(error.message(), "Encoding error: buffer full");
}
