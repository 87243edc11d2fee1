//! The typed publisher: one topic, one message type.

use vstd::prelude::*;

use crate::error::Error;
use crate::message::Message;
use crate::transport::MockPublisher;

verus! {

/// A publisher of messages of type `M` on one topic.
pub struct Publisher<M: Message> {
    topic: String,
    inner: MockPublisher<M>,
}

impl<M: Message> Publisher<M> {
    /// The topic published on.
    pub closed spec fn spec_topic(&self) -> Seq<char> {
        self.topic@
    }

    /// Wraps the transport-level publisher under its topic name.
    pub(crate) fn new(topic: String, inner: MockPublisher<M>) -> (r: Publisher<M>)
        ensures
            r.spec_topic() == topic@,
    {
        Publisher { topic, inner }
    }

    /// The topic published on.
    pub fn topic(&self) -> (r: &str)
        ensures
            r@ == self.spec_topic(),
    {
        self.topic.as_str()
    }

    /// Encodes the message and publishes the bytes on the topic.
    pub fn publish(&self, message: &M) -> (r: Result<(), Error>)
        requires
            message.wf(),
        ensures
            r is Ok,
    {
        self.inner.publish(message)
    }
}

} // verus!
