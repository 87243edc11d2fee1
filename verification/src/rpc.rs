//! The RPC client engine: retry, backoff and timeout policy layered over a
//! transport's query primitive.
//!
//! One call encodes the request once, then makes up to `max_attempts`
//! attempts. Each attempt issues one query with a fixed per-attempt timeout
//! and awaits one reply; a failed attempt is followed by an exponential
//! backoff sleep (`base_delay_ms * 2^attempt`), except after the last
//! attempt, whose cause is returned to the caller. In the worst case a call
//! takes `max_attempts` per-attempt timeouts plus all backoff delays.
//! Replies that report an application-level error are retried like
//! transport failures; this mirrors the uniform policy of the engine's
//! design.

use vstd::prelude::*;

use crate::error::Error;
use crate::message::{encode_message, Message};
use crate::wire::{parse_frame, Reply};

verus! {

/// The retry, backoff and timeout parameters of one client.
#[derive(Debug, Clone, Copy, PartialEq, Eq, Structural)]
pub struct RetryPolicy {
    /// How many attempts a call makes before giving up.
    pub max_attempts: u32,
    /// The base of the exponential backoff.
    pub base_delay_ms: u64,
    /// How long one attempt waits for a reply.
    pub attempt_timeout_ms: u64,
}

impl RetryPolicy {
    /// The bounds under which the backoff arithmetic cannot overflow.
    pub open spec fn wf(&self) -> bool {
        1 <= self.max_attempts <= 16 && 1 <= self.base_delay_ms <= 1_000_000
    }

    /// The standard policy: three attempts, 100 ms backoff base, ten
    /// seconds per attempt.
    pub fn standard() -> (r: RetryPolicy)
        ensures
            r == (RetryPolicy { max_attempts: 3, base_delay_ms: 100, attempt_timeout_ms: 10_000 }),
            r.wf(),
    {
        RetryPolicy { max_attempts: 3, base_delay_ms: 100, attempt_timeout_ms: 10_000 }
    }
}

/// Two to the power `k`.
pub open spec fn spec_pow2(k: nat) -> int
    decreases k,
{
    if k == 0 {
        1
    } else {
        2 * spec_pow2((k - 1) as nat)
    }
}

/// The backoff delay slept after the `attempt`-th failed attempt.
pub open spec fn spec_backoff_ms(policy: RetryPolicy, attempt: int) -> int {
    policy.base_delay_ms * spec_pow2(attempt as nat)
}

/// Powers of two are positive.
proof fn lemma_pow2_pos(k: nat)
    ensures
        spec_pow2(k) >= 1,
    decreases k,
{
    if k > 0 {
        lemma_pow2_pos((k - 1) as nat);
    }
}

/// Powers of two grow with the exponent.
proof fn lemma_pow2_mono(a: nat, b: nat)
    requires
        a <= b,
    ensures
        spec_pow2(a) <= spec_pow2(b),
    decreases b,
{
    if a < b {
        lemma_pow2_mono(a, (b - 1) as nat);
        lemma_pow2_pos((b - 1) as nat);
    }
}

/// Powers of two stay small for the attempt counts a policy admits.
proof fn lemma_pow2_bound(k: nat)
    requires
        k <= 16,
    ensures
        1 <= spec_pow2(k) <= 65536,
{
    lemma_pow2_pos(k);
    lemma_pow2_mono(k, 16);
    assert(spec_pow2(16) == 65536) by {
        reveal_with_fuel(spec_pow2, 17);
    }
}

/// The backoff delay after the `attempt`-th failed attempt.
pub fn backoff_delay_ms(policy: &RetryPolicy, attempt: u32) -> (r: u64)
    requires
        policy.wf(),
        1 <= attempt <= policy.max_attempts,
    ensures
        r == spec_backoff_ms(*policy, attempt as int),
        r <= 0x1_0000_0000_0000,
{
    proof {
        lemma_pow2_bound(attempt as nat);
    }
    let mut delay: u64 = policy.base_delay_ms;
    let mut k: u32 = 0;
    while k < attempt
        invariant
            0 <= k <= attempt <= 16,
            policy.wf(),
            delay == policy.base_delay_ms * spec_pow2(k as nat),
            delay <= 1_000_000 * 65536,
        decreases attempt - k,
    {
        proof {
            lemma_pow2_bound((k + 1) as nat);
            assert(spec_pow2((k + 1) as nat) == 2 * spec_pow2(k as nat));
            assert(policy.base_delay_ms * spec_pow2((k + 1) as nat) == 2 * (policy.base_delay_ms
                * spec_pow2(k as nat))) by (nonlinear_arith)
                requires
                    spec_pow2((k + 1) as nat) == 2 * spec_pow2(k as nat),
            ;
            assert(policy.base_delay_ms * spec_pow2((k + 1) as nat) <= 1_000_000 * 65536)
                by (nonlinear_arith)
                requires
                    1 <= spec_pow2((k + 1) as nat) <= 65536,
                    1 <= policy.base_delay_ms <= 1_000_000,
            ;
        }
        delay = delay * 2;
        k = k + 1;
    }
    delay
}

/// What one query attempt yielded at the transport level.
pub enum QueryOutcome {
    /// A reply arrived; the bytes are the framed reply.
    Reply(Vec<u8>),
    /// No reply arrived before the timeout, or no responder exists.
    NoResponder,
    /// The transport failed to issue the query.
    TransportFailure(String),
}

/// The query primitive the engine drives, together with a model of the
/// queries issued and the backoff sleeps performed through it.
pub trait QueryPort: Sized {
    /// How many queries have been issued through this port.
    spec fn queries(&self) -> nat;

    /// The backoff delays slept through this port, in order.
    spec fn sleeps(&self) -> Seq<u64>;

    /// Issues one query carrying `payload` and awaits at most one reply
    /// for at most `timeout_ms` milliseconds.
    fn query(&mut self, service: &str, payload: &Vec<u8>, timeout_ms: u64) -> (r: QueryOutcome)
        ensures
            final(self).queries() == old(self).queries() + 1,
            final(self).sleeps() == old(self).sleeps(),
    ;

    /// Sleeps for `ms` milliseconds between attempts.
    fn sleep_ms(&mut self, ms: u64)
        ensures
            final(self).sleeps() == old(self).sleeps().push(ms),
            final(self).queries() == old(self).queries(),
    ;
}

/// The characters that `String::from_utf8_lossy` reads from a byte
/// sequence.
pub uninterp spec fn utf8_lossy(bytes: Seq<u8>) -> Seq<char>;

/// Relies on `String::from_utf8_lossy`: the result is a function of the
/// bytes alone.
#[verifier::external_body]
fn bytes_to_text(bytes: &Vec<u8>) -> (r: String)
    ensures
        r@ == utf8_lossy(bytes@),
{
    String::from_utf8_lossy(bytes).into_owned()
}

/// Turns the outcome of one query attempt into the outcome of the call:
/// a well-framed successful reply is decoded into the response; everything
/// else becomes the error named after its cause.
pub fn interpret_reply<Res: Message>(outcome: QueryOutcome, service: &str) -> (r: Result<
    Res,
    Error,
>)
    ensures
        match outcome {
            QueryOutcome::Reply(bytes) => {
                if bytes@.len() >= 1 && bytes@[0] == 1u8 {
                    match r {
                        Ok(res) => Res::parse(bytes@.skip(1)) == Some(res@) && res.wf(),
                        Err(e) => Res::parse(bytes@.skip(1)) is None && e matches Error::Decoding(
                            _,
                        ),
                    }
                } else if bytes@.len() >= 1 && bytes@[0] == 0u8 {
                    r matches Err(Error::ServiceCallFailed { service: s, reason }) && s@ == service@
                        && reason@ == utf8_lossy(bytes@.skip(1))
                } else {
                    r matches Err(Error::Decoding(_))
                }
            },
            QueryOutcome::NoResponder => r matches Err(
                Error::ServiceCallFailed { service: s, reason: _ },
            ) && s@ == service@,
            QueryOutcome::TransportFailure(cause) => r matches Err(
                Error::Transport { cause: c, context },
            ) && c == cause && context@ == service@,
        },
{
    match outcome {
        QueryOutcome::Reply(bytes) => match parse_frame(bytes.as_slice()) {
            Some(Reply::Payload(payload)) => match Res::decode_from_slice(payload.as_slice()) {
                Ok(res) => Ok(res),
                Err(e) => Err(e),
            },
            Some(Reply::Negative(text)) => {
                let reason = bytes_to_text(&text);
                Err(Error::ServiceCallFailed { service: service.to_owned(), reason })
            },
            None => Err(Error::Decoding("malformed reply frame".to_owned())),
        },
        QueryOutcome::NoResponder => Err(
            Error::service_call_failed(service, "no reply before the timeout"),
        ),
        QueryOutcome::TransportFailure(cause) => Err(
            Error::Transport { cause, context: service.to_owned() },
        ),
    }
}

/// One call in progress: the policy and the number of failed attempts.
pub struct RpcCall {
    /// The retry, backoff and timeout parameters of the call.
    pub policy: RetryPolicy,
    /// How many attempts have failed so far.
    pub attempt: u32,
}

impl RpcCall {
    /// The attempt counter stays within the policy's cap.
    pub open spec fn wf(&self) -> bool {
        self.policy.wf() && self.attempt < self.policy.max_attempts
    }

    /// Starts a call under the given policy.
    pub fn start(policy: RetryPolicy) -> (r: RpcCall)
        requires
            policy.wf(),
        ensures
            r.wf(),
            r.policy == policy,
            r.attempt == 0,
    {
        RpcCall { policy, attempt: 0 }
    }

    /// The per-attempt timeout of the call.
    pub fn attempt_timeout_ms(&self) -> (r: u64)
        ensures
            r == self.policy.attempt_timeout_ms,
    {
        self.policy.attempt_timeout_ms
    }

    /// Records one failed attempt and decides what follows it: sleep for
    /// the returned backoff delay and retry, or give up when the attempt
    /// cap is reached.
    pub fn on_failure(&mut self) -> (r: Option<u64>)
        requires
            old(self).wf(),
        ensures
            final(self).policy == old(self).policy,
            final(self).attempt == old(self).attempt + 1,
            if old(self).attempt + 1 < old(self).policy.max_attempts {
                r matches Some(delay) && delay == spec_backoff_ms(
                    old(self).policy,
                    old(self).attempt + 1,
                ) && final(self).wf()
            } else {
                r is None
            },
    {
        self.attempt = self.attempt + 1;
        if self.attempt < self.policy.max_attempts {
            Some(backoff_delay_ms(&self.policy, self.attempt))
        } else {
            None
        }
    }
}

/// Calls a service through a query port: encodes the request once, then
/// queries with retry and exponential backoff until a reply decodes or the
/// attempt cap is reached, returning the last cause.
///
/// The contract pins the attempt accounting: some number `n` of attempts
/// between one and the cap was made; a backoff was slept after every failed
/// attempt but the last one, with the exact exponential delays; an error
/// is returned exactly when all `max_attempts` attempts failed, and a call
/// that succeeds on its first attempt sleeps no backoff at all.
pub fn call_with_retry<P: QueryPort, Req: Message, Res: Message>(
    port: &mut P,
    service: &str,
    request: &Req,
    policy: &RetryPolicy,
) -> (r: Result<Res, Error>)
    requires
        policy.wf(),
        request.wf(),
    ensures
        ({
            let n = final(port).queries() - old(port).queries();
            &&& 1 <= n <= policy.max_attempts
            &&& final(port).sleeps().len() == old(port).sleeps().len() + n - 1
            &&& (forall|j: int|
                0 <= j < old(port).sleeps().len() ==> #[trigger] final(port).sleeps()[j] == old(
                    port,
                ).sleeps()[j])
            &&& (forall|j: int|
                0 <= j < n - 1 ==> #[trigger] final(port).sleeps()[old(port).sleeps().len() + j]
                    as int == spec_backoff_ms(*policy, j + 1))
            &&& (r is Err ==> n == policy.max_attempts)
        }),
        r matches Ok(res) ==> res.wf(),
        r matches Err(e) ==> (e matches Error::ServiceCallFailed { .. } || e matches Error::Transport {
            ..
        } || e matches Error::Decoding(_)),
{
    let payload = encode_message(request);
    let mut call = RpcCall::start(*policy);
    loop
        invariant
            policy.wf(),
            call.policy == *policy,
            call.wf(),
            port.queries() == old(port).queries() + call.attempt,
            port.sleeps().len() == old(port).sleeps().len() + call.attempt,
            forall|j: int|
                0 <= j < old(port).sleeps().len() ==> #[trigger] port.sleeps()[j] == old(
                    port,
                ).sleeps()[j],
            forall|j: int|
                0 <= j < call.attempt ==> #[trigger] port.sleeps()[old(port).sleeps().len() + j]
                    as int == spec_backoff_ms(*policy, j + 1),
        decreases policy.max_attempts - call.attempt,
    {
        let outcome = port.query(service, &payload, call.attempt_timeout_ms());
        match interpret_reply::<Res>(outcome, service) {
            Ok(res) => {
                return Ok(res);
            },
            Err(e) => {
                match call.on_failure() {
                    Some(delay) => {
                        port.sleep_ms(delay);
                    },
                    None => {
                        return Err(e);
                    },
                }
            },
        }
    }
}

} // verus!
