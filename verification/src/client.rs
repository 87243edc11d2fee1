//! The typed client: request/response calls against one service, driven by
//! the RPC client engine with its retry, backoff and timeout policy.

use vstd::prelude::*;

use crate::error::Error;
use crate::message::Message;
use crate::rpc::{call_with_retry, spec_backoff_ms, QueryPort, RetryPolicy};
use crate::transport::MockClient;

verus! {

/// A client of one service, sending `Req` and receiving `Res`.
///
/// Every call runs the retry engine: up to `max_attempts` query attempts
/// with exponential backoff between failed attempts. The queries issued and
/// the backoff delays slept are observable through `query_count` and
/// `sleep_log`.
pub struct Client<Req: Message, Res: Message> {
    name: String,
    port: MockClient<Req, Res>,
    policy: RetryPolicy,
}

impl<Req: Message, Res: Message> Client<Req, Res> {
    /// The retry policy's bounds hold, so the backoff arithmetic cannot
    /// overflow; every constructor establishes this.
    pub closed spec fn wf(&self) -> bool {
        self.policy.wf()
    }

    /// The name of the service called.
    pub closed spec fn spec_name(&self) -> Seq<char> {
        self.name@
    }

    /// The retry policy of the client.
    pub closed spec fn spec_policy(&self) -> RetryPolicy {
        self.policy
    }

    /// How many query attempts this client has made.
    pub closed spec fn attempts(&self) -> nat {
        self.port.queries()
    }

    /// The backoff delays this client has slept, in order.
    pub closed spec fn backoffs(&self) -> Seq<u64> {
        self.port.sleeps()
    }

    /// Wraps the transport-level client under the standard retry policy.
    pub(crate) fn new(name: String, port: MockClient<Req, Res>) -> (r: Client<Req, Res>)
        ensures
            r.wf(),
            r.spec_name() == name@,
            r.spec_policy() == (RetryPolicy {
                max_attempts: 3,
                base_delay_ms: 100,
                attempt_timeout_ms: 10_000,
            }),
            r.attempts() == port.queries(),
            r.backoffs() == port.sleeps(),
    {
        Client { name, port, policy: RetryPolicy::standard() }
    }

    /// The name of the service called.
    pub fn name(&self) -> (r: &str)
        ensures
            r@ == self.spec_name(),
    {
        self.name.as_str()
    }

    /// The backoff delays slept so far, in order.
    pub fn sleep_log(&self) -> (r: &Vec<u64>)
        ensures
            r@ == self.backoffs(),
    {
        self.port.sleep_log()
    }

    /// How many query attempts have been made so far.
    pub fn query_count(&self) -> (r: usize)
        ensures
            r == self.attempts(),
    {
        self.port.query_count()
    }

    /// Calls the service: encodes the request once, then queries with
    /// retry and exponential backoff until a reply decodes or the attempt
    /// cap is reached, returning the last cause.
    ///
    /// The contract pins the retry accounting: between one and
    /// `max_attempts` attempts were made; one exact backoff was slept after
    /// every failed attempt but the last; an error comes back exactly when
    /// every attempt failed, and a call that succeeds on its first attempt
    /// sleeps no backoff.
    pub fn call(&mut self, request: &Req) -> (r: Result<Res, Error>)
        requires
            old(self).wf(),
            request.wf(),
        ensures
            final(self).wf(),
            final(self).spec_name() == old(self).spec_name(),
            final(self).spec_policy() == old(self).spec_policy(),
            ({
                let n = final(self).attempts() - old(self).attempts();
                &&& 1 <= n <= old(self).spec_policy().max_attempts
                &&& final(self).backoffs().len() == old(self).backoffs().len() + n - 1
                &&& (forall|j: int|
                    0 <= j < old(self).backoffs().len() ==> #[trigger] final(self).backoffs()[j]
                        == old(self).backoffs()[j])
                &&& (forall|j: int|
                    0 <= j < n - 1 ==> #[trigger] final(self).backoffs()[old(
                        self,
                    ).backoffs().len() + j] as int == spec_backoff_ms(old(self).spec_policy(), j + 1))
                &&& (r is Err ==> n == old(self).spec_policy().max_attempts)
            }),
            r matches Ok(res) ==> res.wf(),
            r matches Err(e) ==> (e matches Error::ServiceCallFailed { .. }
                || e matches Error::Transport { .. } || e matches Error::Decoding(_)),
    {
        let service = self.name.clone();
        call_with_retry::<MockClient<Req, Res>, Req, Res>(
            &mut self.port,
            service.as_str(),
            request,
            &self.policy,
        )
    }
}

} // verus!
