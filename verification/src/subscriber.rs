//! The typed subscriber: one topic, delivering through a callback.

use vstd::prelude::*;

use crate::error::Error;
use crate::transport::MockSubscriber;

verus! {

/// A subscription on one topic; messages arrive through the callback the
/// subscription was created with.
pub struct Subscriber {
    topic: String,
    inner: MockSubscriber,
}

impl Subscriber {
    /// The topic subscribed to.
    pub closed spec fn spec_topic(&self) -> Seq<char> {
        self.topic@
    }

    /// Wraps the transport-level subscriber under its topic name.
    pub(crate) fn new(topic: String, inner: MockSubscriber) -> (r: Subscriber)
        ensures
            r.spec_topic() == topic@,
    {
        Subscriber { topic, inner }
    }

    /// The topic subscribed to.
    pub fn topic(&self) -> (r: &str)
        ensures
            r@ == self.spec_topic(),
    {
        self.topic.as_str()
    }

    /// Closes the subscriber.
    pub fn close(&self) -> (r: Result<(), Error>)
        ensures
            r is Ok,
    {
        self.inner.close()
    }
}

} // verus!
