use zenobuf::message::{decode_message, encode_message, message_type_name, Message};
use zenobuf::messages::{AddRequest, AddResponse, TestMessage, TextMessage};

#[test]
fn test_message_encode_decode() {
    let message = TestMessage { value: 42 };

    // Encode the message
    let bytes = encode_message(&message);

    // Decode the message
    let decoded = decode_message::<TestMessage>(&bytes).unwrap();

    // Check that the decoded message matches the original
    assert_eq!(decoded.value, message.value);
}

#[test]
fn test_message_type_name() {
    assert_eq!(TestMessage::message_type_name(), "TestMessage");
    assert_eq!(message_type_name::<AddRequest>(), "AddRequest");
}

#[test]
fn test_message_decode_error() {
    // Create an invalid byte array
    let bytes = vec![1, 2, 3]; // Too short

    // Try to decode the message
    let result = decode_message::<TestMessage>(&bytes);

    // Check that decoding failed
    assert!(result.is_err());
}

#[test]
fn test_message_default() {
    let message = TestMessage::default();
    assert_eq!(message.value, 0);
}

#[test]
fn test_message_clear() {
    let mut message = TestMessage { value: 42 };

    message.clear();

    assert_eq!(message.value, 0);
}

#[test]
fn test_message_encoded_len() {
    let message = TestMessage { value: 42 };

    assert_eq!(message.encoded_len(), 4); // 4 bytes for value
}

#[test]
fn test_message_round_trip_negative_value() {
    let message = TestMessage { value: -123456789 };
    let bytes = encode_message(&message);
    let decoded = decode_message::<TestMessage>(&bytes).unwrap();
    assert_eq!(decoded.value, -123456789);
}

#[test]
fn test_add_messages_round_trip() {
    let request = AddRequest { a: 40, b: 2 };
    let bytes = encode_message(&request);
    assert_eq!(bytes.len(), 8);
    let decoded = decode_message::<AddRequest>(&bytes).unwrap();
    assert_eq!(decoded, request);

    let response = AddResponse { sum: 42 };
    let bytes = encode_message(&response);
    let decoded = decode_message::<AddResponse>(&bytes).unwrap();
    assert_eq!(decoded.sum, 42);
}

#[test]
fn test_text_message_round_trip() {
    let message = TextMessage { value: 42, text: b"Hello, world!".to_vec() };
    let bytes = encode_message(&message);
    assert_eq!(bytes.len(), message.encoded_len());
    let decoded = decode_message::<TextMessage>(&bytes).unwrap();
    assert_eq!(decoded.value, 42);
    assert_eq!(decoded.text, b"Hello, world!".to_vec());
}

#[test]
fn test_text_message_truncated_fails() {
    let message = TextMessage { value: 7, text: b"abc".to_vec() };
    let mut bytes = encode_message(&message);
    bytes.pop();
    assert!(decode_message::<TextMessage>(&bytes).is_err());
    assert!(decode_message::<TextMessage>(&bytes[..4]).is_err());
    assert!(decode_message::<TextMessage>(&[]).is_err());
}
