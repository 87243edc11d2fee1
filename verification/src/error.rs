//! Errors surfaced to callers.
//!
//! Local, deterministic failures (encoding, name collisions, parameter type
//! mismatches) are never retried; transient transport failures are retried
//! by the RPC client engine and surfaced with the last cause attached.

use vstd::prelude::*;

use crate::digits::{spec_dec_digits, u64_to_string};

verus! {

/// Error type for all operations of this crate.
#[derive(Debug, Clone)]
pub enum Error {
    /// Error from the transport layer.
    Transport { cause: String, context: String },
    /// Error during message serialization.
    MessageSerialization { cause: String, message_type: String },
    /// Error during message deserialization.
    MessageDeserialization { cause: String, message_type: String },
    /// Error during serialization or deserialization.
    Serialization(String),
    /// Error during message encoding.
    Encoding(String),
    /// Error during message decoding.
    Decoding(String),
    /// A node with the same name already exists.
    NodeAlreadyExists { name: String },
    /// A topic with the same name already exists.
    TopicAlreadyExists { topic: String, node: String },
    /// A service with the same name already exists.
    ServiceAlreadyExists { service: String, node: String },
    /// A service call timed out.
    ServiceCallTimeout { service: String, timeout_ms: u64 },
    /// A service call failed.
    ServiceCallFailed { service: String, reason: String },
    /// A parameter operation failed.
    Parameter { name: String, reason: String },
    /// A node operation failed.
    Node { node: String, reason: String },
    /// A publisher operation failed.
    Publisher { topic: String, reason: String },
    /// A subscriber operation failed.
    Subscriber { topic: String, reason: String },
    /// A service operation failed.
    Service { service: String, reason: String },
    /// A client operation failed.
    Client { service: String, reason: String },
    /// An operation is not supported.
    NotSupported { operation: String, reason: String },
    /// An operation is not implemented.
    NotImplemented { operation: String, reason: String },
    /// Configuration error.
    Configuration { reason: String },
    /// Network error.
    Network { reason: String },
    /// Other errors.
    Other { reason: String },
}

/// The one-line description of an error, shaped as
/// `message` renders it.
pub open spec fn spec_message(e: Error) -> Seq<char> {
    match e {
        Error::Transport { cause: _, context } => "Transport error in "@ + context@,
        Error::MessageSerialization { cause: _, message_type } => "Message serialization failed for type "@
            + message_type@,
        Error::MessageDeserialization { cause: _, message_type } => "Message deserialization failed for type "@
            + message_type@,
        Error::Serialization(reason) => "Serialization error: "@ + reason@,
        Error::Encoding(reason) => "Encoding error: "@ + reason@,
        Error::Decoding(reason) => "Decoding error: "@ + reason@,
        Error::NodeAlreadyExists { name } => "Node '"@ + name@ + "' already exists"@,
        Error::TopicAlreadyExists { topic, node } => "Topic '"@ + topic@
            + "' already exists on node '"@ + node@ + "'"@,
        Error::ServiceAlreadyExists { service, node } => "Service '"@ + service@
            + "' already exists on node '"@ + node@ + "'"@,
        Error::ServiceCallTimeout { service, timeout_ms } => "Service call to '"@ + service@
            + "' timed out after "@ + spec_dec_digits(timeout_ms as int) + "ms"@,
        Error::ServiceCallFailed { service, reason } => "Service call to '"@ + service@
            + "' failed: "@ + reason@,
        Error::Parameter { name, reason } => "Parameter '"@ + name@ + "' error: "@ + reason@,
        Error::Node { node, reason } => "Node '"@ + node@ + "' error: "@ + reason@,
        Error::Publisher { topic, reason } => "Publisher for topic '"@ + topic@ + "' error: "@
            + reason@,
        Error::Subscriber { topic, reason } => "Subscriber for topic '"@ + topic@ + "' error: "@
            + reason@,
        Error::Service { service, reason } => "Service '"@ + service@ + "' error: "@ + reason@,
        Error::Client { service, reason } => "Client for service '"@ + service@ + "' error: "@
            + reason@,
        Error::NotSupported { operation, reason } => "Operation '"@ + operation@
            + "' not supported: "@ + reason@,
        Error::NotImplemented { operation, reason } => "Operation '"@ + operation@
            + "' not implemented: "@ + reason@,
        Error::Configuration { reason } => "Configuration error: "@ + reason@,
        Error::Network { reason } => "Network error: "@ + reason@,
        Error::Other { reason } => "Error: "@ + reason@,
    }
}

/// Concatenates a literal, a value, and a literal.
fn compose3(l1: &str, v1: &str, l2: &str) -> (s: String)
    ensures
        s@ == l1@ + v1@ + l2@,
{
    let mut s = l1.to_owned();
    s.append(v1);
    s.append(l2);
    proof {
        assert(s@ =~= l1@ + v1@ + l2@);
    }
    s
}

/// Concatenates alternating literals and values.
fn compose5(l1: &str, v1: &str, l2: &str, v2: &str, l3: &str) -> (s: String)
    ensures
        s@ == l1@ + v1@ + l2@ + v2@ + l3@,
{
    let mut s = l1.to_owned();
    s.append(v1);
    s.append(l2);
    s.append(v2);
    s.append(l3);
    proof {
        assert(s@ =~= l1@ + v1@ + l2@ + v2@ + l3@);
    }
    s
}

impl Error {
    /// The one-line description of the error.
    pub fn message(&self) -> (s: String)
        ensures
            s@ == spec_message(*self),
    {
        let s = match self {
            Error::Transport { cause: _, context } => compose3(
                "Transport error in ",
                context.as_str(),
                "",
            ),
            Error::MessageSerialization { cause: _, message_type } => compose3(
                "Message serialization failed for type ",
                message_type.as_str(),
                "",
            ),
            Error::MessageDeserialization { cause: _, message_type } => compose3(
                "Message deserialization failed for type ",
                message_type.as_str(),
                "",
            ),
            Error::Serialization(reason) => compose3("Serialization error: ", reason.as_str(), ""),
            Error::Encoding(reason) => compose3("Encoding error: ", reason.as_str(), ""),
            Error::Decoding(reason) => compose3("Decoding error: ", reason.as_str(), ""),
            Error::NodeAlreadyExists { name } => compose3(
                "Node '",
                name.as_str(),
                "' already exists",
            ),
            Error::TopicAlreadyExists { topic, node } => compose5(
                "Topic '",
                topic.as_str(),
                "' already exists on node '",
                node.as_str(),
                "'",
            ),
            Error::ServiceAlreadyExists { service, node } => compose5(
                "Service '",
                service.as_str(),
                "' already exists on node '",
                node.as_str(),
                "'",
            ),
            Error::ServiceCallTimeout { service, timeout_ms } => {
                let digits = u64_to_string(*timeout_ms);
                compose5(
                    "Service call to '",
                    service.as_str(),
                    "' timed out after ",
                    digits.as_str(),
                    "ms",
                )
            },
            Error::ServiceCallFailed { service, reason } => compose5(
                "Service call to '",
                service.as_str(),
                "' failed: ",
                reason.as_str(),
                "",
            ),
            Error::Parameter { name, reason } => compose5(
                "Parameter '",
                name.as_str(),
                "' error: ",
                reason.as_str(),
                "",
            ),
            Error::Node { node, reason } => compose5(
                "Node '",
                node.as_str(),
                "' error: ",
                reason.as_str(),
                "",
            ),
            Error::Publisher { topic, reason } => compose5(
                "Publisher for topic '",
                topic.as_str(),
                "' error: ",
                reason.as_str(),
                "",
            ),
            Error::Subscriber { topic, reason } => compose5(
                "Subscriber for topic '",
                topic.as_str(),
                "' error: ",
                reason.as_str(),
                "",
            ),
            Error::Service { service, reason } => compose5(
                "Service '",
                service.as_str(),
                "' error: ",
                reason.as_str(),
                "",
            ),
            Error::Client { service, reason } => compose5(
                "Client for service '",
                service.as_str(),
                "' error: ",
                reason.as_str(),
                "",
            ),
            Error::NotSupported { operation, reason } => compose5(
                "Operation '",
                operation.as_str(),
                "' not supported: ",
                reason.as_str(),
                "",
            ),
            Error::NotImplemented { operation, reason } => compose5(
                "Operation '",
                operation.as_str(),
                "' not implemented: ",
                reason.as_str(),
                "",
            ),
            Error::Configuration { reason } => compose3(
                "Configuration error: ",
                reason.as_str(),
                "",
            ),
            Error::Network { reason } => compose3("Network error: ", reason.as_str(), ""),
            Error::Other { reason } => compose3("Error: ", reason.as_str(), ""),
        };
        proof {
            reveal_strlit("");
            assert(("")@.len() == 0);
            assert(s@ =~= spec_message(*self));
        }
        s
    }

    /// Builds a transport error with its cause and context.
    pub fn transport(cause: &str, context: &str) -> (r: Error)
        ensures
            r matches Error::Transport { cause: c, context: x } && c@ == cause@ && x@ == context@,
    {
        Error::Transport { cause: cause.to_owned(), context: context.to_owned() }
    }

    /// Builds a message serialization error.
    pub fn message_serialization(cause: &str, message_type: &str) -> (r: Error)
        ensures
            r matches Error::MessageSerialization { cause: c, message_type: t } && c@ == cause@ && t@
                == message_type@,
    {
        Error::MessageSerialization { cause: cause.to_owned(), message_type: message_type.to_owned() }
    }

    /// Builds a message deserialization error.
    pub fn message_deserialization(cause: &str, message_type: &str) -> (r: Error)
        ensures
            r matches Error::MessageDeserialization { cause: c, message_type: t } && c@ == cause@ && t@
                == message_type@,
    {
        Error::MessageDeserialization { cause: cause.to_owned(), message_type: message_type.to_owned() }
    }

    /// Builds a node-already-exists error.
    pub fn node_already_exists(name: &str) -> (r: Error)
        ensures
            r matches Error::NodeAlreadyExists { name: n } && n@ == name@,
    {
        Error::NodeAlreadyExists { name: name.to_owned() }
    }

    /// Builds a topic-already-exists error.
    pub fn topic_already_exists(topic: &str, node: &str) -> (r: Error)
        ensures
            r matches Error::TopicAlreadyExists { topic: t, node: n } && t@ == topic@ && n@
                == node@,
    {
        Error::TopicAlreadyExists { topic: topic.to_owned(), node: node.to_owned() }
    }

    /// Builds a service-already-exists error.
    pub fn service_already_exists(service: &str, node: &str) -> (r: Error)
        ensures
            r matches Error::ServiceAlreadyExists { service: s, node: n } && s@ == service@ && n@
                == node@,
    {
        Error::ServiceAlreadyExists { service: service.to_owned(), node: node.to_owned() }
    }

    /// Builds a service-call-timeout error.
    pub fn service_call_timeout(service: &str, timeout_ms: u64) -> (r: Error)
        ensures
            r matches Error::ServiceCallTimeout { service: s, timeout_ms: t } && s@ == service@ && t
                == timeout_ms,
    {
        Error::ServiceCallTimeout { service: service.to_owned(), timeout_ms }
    }

    /// Builds a service-call-failed error.
    pub fn service_call_failed(service: &str, reason: &str) -> (r: Error)
        ensures
            r matches Error::ServiceCallFailed { service: s, reason: x } && s@ == service@ && x@
                == reason@,
    {
        Error::ServiceCallFailed { service: service.to_owned(), reason: reason.to_owned() }
    }

    /// Builds a parameter error.
    pub fn parameter(name: &str, reason: &str) -> (r: Error)
        ensures
            r matches Error::Parameter { name: n, reason: x } && n@ == name@ && x@ == reason@,
    {
        Error::Parameter { name: name.to_owned(), reason: reason.to_owned() }
    }

    /// Builds a node error.
    pub fn node(node: &str, reason: &str) -> (r: Error)
        ensures
            r matches Error::Node { node: n, reason: x } && n@ == node@ && x@ == reason@,
    {
        Error::Node { node: node.to_owned(), reason: reason.to_owned() }
    }

    /// Builds a publisher error.
    pub fn publisher(topic: &str, reason: &str) -> (r: Error)
        ensures
            r matches Error::Publisher { topic: t, reason: x } && t@ == topic@ && x@ == reason@,
    {
        Error::Publisher { topic: topic.to_owned(), reason: reason.to_owned() }
    }

    /// Builds a subscriber error.
    pub fn subscriber(topic: &str, reason: &str) -> (r: Error)
        ensures
            r matches Error::Subscriber { topic: t, reason: x } && t@ == topic@ && x@ == reason@,
    {
        Error::Subscriber { topic: topic.to_owned(), reason: reason.to_owned() }
    }

    /// Builds a service error.
    pub fn service(service: &str, reason: &str) -> (r: Error)
        ensures
            r matches Error::Service { service: s, reason: x } && s@ == service@ && x@ == reason@,
    {
        Error::Service { service: service.to_owned(), reason: reason.to_owned() }
    }

    /// Builds a client error.
    pub fn client(service: &str, reason: &str) -> (r: Error)
        ensures
            r matches Error::Client { service: s, reason: x } && s@ == service@ && x@ == reason@,
    {
        Error::Client { service: service.to_owned(), reason: reason.to_owned() }
    }

    /// Builds a configuration error.
    pub fn configuration(reason: &str) -> (r: Error)
        ensures
            r matches Error::Configuration { reason: x } && x@ == reason@,
    {
        Error::Configuration { reason: reason.to_owned() }
    }

    /// Builds a network error.
    pub fn network(reason: &str) -> (r: Error)
        ensures
            r matches Error::Network { reason: x } && x@ == reason@,
    {
        Error::Network { reason: reason.to_owned() }
    }

    /// Builds an other error.
    pub fn other(reason: &str) -> (r: Error)
        ensures
            r matches Error::Other { reason: x } && x@ == reason@,
    {
        Error::Other { reason: reason.to_owned() }
    }
}

/// Attaching context to a failed operation: a transport error takes the new
/// context, every other outcome passes through unchanged.
pub trait ErrorContext<T>: Sized {
    /// Replaces the context of a transport error; leaves everything else.
    fn with_context(self, context: &str) -> Result<T, Error>;

    /// Replaces the context of a transport error with a lazily built one;
    /// leaves everything else.
    fn with_context_f<F: FnOnce() -> String>(self, f: F) -> Result<T, Error> where
        Self: Sized,

        requires
            call_requires(f, ()),
    ;
}

impl<T> ErrorContext<T> for Result<T, Error> {
    fn with_context(self, context: &str) -> (r: Result<T, Error>)
        ensures
            match self {
                Ok(_) => r == self,
                Err(e) => match e {
                    Error::Transport { cause, context: _ } => r matches Err(
                        Error::Transport { cause: c, context: x },
                    ) && c == cause && x@ == context@,
                    _ => r == Err::<T, Error>(e),
                },
            },
    {
        match self {
            Ok(v) => Ok(v),
            Err(e) => match e {
                Error::Transport { cause, context: _ } => Err(
                    Error::Transport { cause, context: context.to_owned() },
                ),
                other => Err(other),
            },
        }
    }

    fn with_context_f<F: FnOnce() -> String>(self, f: F) -> (r: Result<T, Error>)
        ensures
            match self {
                Ok(_) => r == self,
                Err(e) => match e {
                    Error::Transport { cause, context: _ } => exists|c: String|
                        #[trigger] call_ensures(f, (), c) && (r matches Err(
                            Error::Transport { cause: c2, context: x },
                        ) && c2 == cause && x == c),
                    _ => r == Err::<T, Error>(e),
                },
            },
    {
        match self {
            Ok(v) => Ok(v),
            Err(e) => match e {
                Error::Transport { cause, context: _ } => {
                    let context = f();
                    Err(Error::Transport { cause, context })
                },
                other => Err(other),
            },
        }
    }
}

} // verus!
