//! A node-centric messaging and RPC library: named topics (publish/subscribe),
//! named services (request/response) with a retrying RPC client, and a typed
//! per-node parameter store, all layered over a narrow byte-level transport
//! port with an in-memory adapter.

pub mod client;
pub mod digits;
pub mod error;
pub mod message;
pub mod messages;
pub mod node;
pub mod parameter;
pub mod publisher;
pub mod qos;
pub mod rpc;
pub mod service;
pub mod subscriber;
pub mod time;
pub mod transport;
pub mod util;
pub mod wire;

pub use client::Client;
pub use error::{Error, ErrorContext};
pub use message::Message;
pub use node::{ClientHandle, DropGuard, Node, PublisherHandle, ServiceHandle, SubscriberHandle};
pub use parameter::{ParamKind, ParamValue, Parameter};
pub use publisher::Publisher;
pub use qos::{Durability, History, QosPreset, QosProfile, Reliability};
pub use service::Service;
pub use subscriber::Subscriber;
pub use time::{Duration, Time, ZenobufDuration};
pub use transport::MockTransport;
