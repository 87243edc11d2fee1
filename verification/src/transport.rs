//! The transport port and its in-memory adapter.
//!
//! The underlying pub/sub-and-query substrate is an opaque collaborator: the
//! node only needs publish-bytes-on-a-key, subscribe-with-a-callback,
//! register-a-query-handler and query-with-reply. `InMemoryBus` provides
//! that substrate inside the process, for deterministic use without any
//! network; everything layered on top of it — decoding, dispatch, framing,
//! the key naming convention — is verified.

use vstd::prelude::*;
use vstd::string::StrSliceExecFns;
use vstd::string::StringSliceAdditionalSpecFns;
use vstd::utf8::encode_utf8;

use std::collections::HashMap;
use std::marker::PhantomData;
use std::sync::{Arc, Mutex};

use crate::error::{spec_message, Error};
use crate::message::{decode_message, encode_message, Message};
use crate::rpc::{interpret_reply, QueryOutcome, QueryPort};
use crate::wire::{frame_err, frame_ok, spec_frame_err, spec_frame_ok};

verus! {

/// The fixed key prefix of every topic on the live substrate.
pub const TOPIC_PREFIX: &'static str = "zenobuf/topic/";

/// The fixed key prefix of every service on the live substrate.
pub const SERVICE_PREFIX: &'static str = "zenobuf/service/";

/// The fixed key prefix of every parameter on the live substrate.
pub const PARAM_PREFIX: &'static str = "zenobuf/param/";

/// Prepends a prefix to a name; the naming convention is this string
/// concatenation and nothing more.
fn prefixed_key(prefix: &str, name: &str) -> (r: String)
    ensures
        r@ == prefix@ + name@,
{
    let mut key = prefix.to_owned();
    key.append(name);
    key
}

/// The substrate key of a topic.
pub fn topic_key(topic: &str) -> (r: String)
    ensures
        r@ == TOPIC_PREFIX@ + topic@,
{
    prefixed_key(TOPIC_PREFIX, topic)
}

/// The substrate key of a service.
pub fn service_key(service: &str) -> (r: String)
    ensures
        r@ == SERVICE_PREFIX@ + service@,
{
    prefixed_key(SERVICE_PREFIX, service)
}

/// The substrate key of a parameter.
pub fn param_key(name: &str) -> (r: String)
    ensures
        r@ == PARAM_PREFIX@ + name@,
{
    prefixed_key(PARAM_PREFIX, name)
}

/// Strips a prefix from a key: the name under the prefix when the key
/// carries it, nothing otherwise.
pub fn strip_key_prefix(prefix: &str, key: &str) -> (r: Option<String>)
    ensures
        match r {
            Some(rest) => key@.len() >= prefix@.len() && key@.take(prefix@.len() as int)
                == prefix@ && rest@ == key@.skip(prefix@.len() as int),
            None => key@.len() < prefix@.len() || key@.take(prefix@.len() as int) != prefix@,
        },
{
    let plen = prefix.unicode_len();
    let klen = key.unicode_len();
    if klen < plen {
        return None;
    }
    let mut i: usize = 0;
    while i < plen
        invariant
            0 <= i <= plen <= klen,
            plen == prefix@.len(),
            klen == key@.len(),
            forall|j: int| 0 <= j < i ==> key@[j] == prefix@[j],
        decreases plen - i,
    {
        let kc = key.get_char(i);
        let pc = prefix.get_char(i);
        if kc as u32 != pc as u32 {
            proof {
                vstd::utf8::char_u32_cast(kc, kc as u32);
                vstd::utf8::char_u32_cast(pc, pc as u32);
                assert(key@.take(plen as int)[i as int] != prefix@[i as int]);
            }
            return None;
        }
        proof {
            vstd::utf8::char_u32_cast(kc, kc as u32);
            vstd::utf8::char_u32_cast(pc, pc as u32);
        }
        i = i + 1;
    }
    let rest = key.substring_char(plen, klen);
    proof {
        assert(key@.take(plen as int) =~= prefix@);
        assert(rest@ =~= key@.skip(plen as int));
    }
    Some(rest.to_owned())
}

/// The parameter name a substrate key stands for, if it is a parameter key.
pub fn param_name_of_key(key: &str) -> (r: Option<String>)
    ensures
        match r {
            Some(rest) => key@.len() >= PARAM_PREFIX@.len() && key@.take(PARAM_PREFIX@.len() as int)
                == PARAM_PREFIX@ && rest@ == key@.skip(PARAM_PREFIX@.len() as int),
            None => key@.len() < PARAM_PREFIX@.len() || key@.take(PARAM_PREFIX@.len() as int)
                != PARAM_PREFIX@,
        },
{
    strip_key_prefix(PARAM_PREFIX, key)
}

/// A consumer of published payloads: one subscription on one topic.
pub trait ByteSink {
    /// Accepts one published payload.
    fn accept(&self, payload: Vec<u8>);
}

/// A responder to queries: one service registration.
pub trait ByteHandler {
    /// Answers one query payload with one reply payload.
    fn handle(&self, payload: Vec<u8>) -> Vec<u8>;
}

/// The in-process pub/sub-and-query substrate: named byte logs with
/// subscriber sinks, and named byte-to-byte query handlers. It stands in
/// for the wire-level collaborator, so nothing is claimed about it beyond
/// its shape; what the node layers on top of it is verified.
#[verifier::external_body]
pub struct InMemoryBus {
    topics: Arc<Mutex<HashMap<String, Vec<Vec<u8>>>>>,
    subscribers: Arc<Mutex<HashMap<String, Vec<Box<dyn ByteSink>>>>>,
    services: Arc<Mutex<HashMap<String, Box<dyn ByteHandler>>>>,
}

impl InMemoryBus {
    /// Relies on std's `HashMap`, `Mutex` and `Arc`: an empty substrate.
    #[verifier::external_body]
    pub fn new() -> (r: InMemoryBus) {
        InMemoryBus {
            topics: Arc::new(Mutex::new(HashMap::new())),
            subscribers: Arc::new(Mutex::new(HashMap::new())),
            services: Arc::new(Mutex::new(HashMap::new())),
        }
    }

    /// Relies on `Arc::clone`: another handle onto the same substrate.
    #[verifier::external_body]
    pub fn share(&self) -> (r: InMemoryBus) {
        InMemoryBus {
            topics: Arc::clone(&self.topics),
            subscribers: Arc::clone(&self.subscribers),
            services: Arc::clone(&self.services),
        }
    }

    /// Relies on `HashMap::entry`: makes the named topic log exist.
    #[verifier::external_body]
    pub fn ensure_topic(&self, topic: &str) {
        let mut topics = self.topics.lock().unwrap();
        topics.entry(topic.to_owned()).or_insert_with(Vec::new);
    }

    /// Relies on std's `HashMap` and `Mutex`: appends the payload to the
    /// topic log and hands one copy to each sink subscribed to the topic.
    #[verifier::external_body]
    pub fn publish(&self, topic: &str, payload: &Vec<u8>) {
        let mut topics = self.topics.lock().unwrap();
        topics.entry(topic.to_owned()).or_insert_with(Vec::new).push(payload.clone());
        drop(topics);
        let subscribers = self.subscribers.lock().unwrap();
        if let Some(sinks) = subscribers.get(topic) {
            for sink in sinks.iter() {
                sink.accept(payload.clone());
            }
        }
    }

    /// Relies on std's `HashMap` and `Mutex`: hands each payload already in
    /// the topic log to the sink, then registers the sink for every later
    /// publish on the topic.
    #[verifier::external_body]
    pub fn subscribe(&self, topic: &str, sink: Box<dyn ByteSink>) {
        let topics = self.topics.lock().unwrap();
        if let Some(log) = topics.get(topic) {
            for payload in log.iter() {
                sink.accept(payload.clone());
            }
        }
        drop(topics);
        let mut subscribers = self.subscribers.lock().unwrap();
        subscribers.entry(topic.to_owned()).or_insert_with(Vec::new).push(sink);
    }

    /// Relies on std's `HashMap` and `Mutex`: registers the handler as the
    /// responder of the named service, replacing any earlier one.
    #[verifier::external_body]
    pub fn register_service(&self, service: &str, handler: Box<dyn ByteHandler>) {
        let mut services = self.services.lock().unwrap();
        services.insert(service.to_owned(), handler);
    }

    /// Relies on std's `HashMap` and `Mutex`: hands the payload to the
    /// responder of the named service and returns its reply, or `None` when
    /// no responder is registered. Nothing is claimed about the reply
    /// bytes: callers must handle every byte sequence.
    #[verifier::external_body]
    pub fn query(&self, service: &str, payload: &Vec<u8>) -> (r: Option<Vec<u8>>) {
        let services = self.services.lock().unwrap();
        services.get(service).map(|handler| handler.handle(payload.clone()))
    }
}

/// Serves one inbound query: decodes the payload (on failure the reply is
/// negative, never silently dropped), invokes the handler, and frames
/// either the encoded response or the failure text.
pub fn dispatch_query<Req: Message, Res: Message, F: Fn(Req) -> Result<Res, Error>>(
    handler: &F,
    payload: &Vec<u8>,
) -> (r: Vec<u8>)
    requires
        forall|req: Req| call_requires(*handler, (req,)),
        forall|req: Req, out: Result<Res, Error>|
            call_ensures(*handler, (req,), out) ==> (out matches Ok(res) ==> res.wf()),
    ensures
        Req::parse(payload@) is None ==> r@ == spec_frame_err(
            ("failed to decode request").spec_bytes(),
        ),
        Req::parse(payload@) is Some ==> exists|m: Req, out: Result<Res, Error>|
            {
                &&& Req::parse(payload@) == Some(m@)
                &&& #[trigger] call_ensures(*handler, (m,), out)
                &&& match out {
                    Ok(res) => r@ == spec_frame_ok(res.wire()),
                    Err(e) => r@ == spec_frame_err(encode_utf8(spec_message(e))),
                }
            },
{
    match decode_message::<Req>(payload.as_slice()) {
        Ok(request) => {
            let ghost request_ghost = request;
            let out = (*handler)(request);
            match out {
                Ok(response) => {
                    let framed = frame_ok(encode_message(&response));
                    proof {
                        assert(call_ensures(*handler, (request_ghost,), Ok::<Res, Error>(
                            response,
                        )));
                    }
                    framed
                },
                Err(e) => {
                    let text = e.message();
                    let framed = frame_err(text.as_str().as_bytes_vec());
                    proof {
                        assert(call_ensures(*handler, (request_ghost,), Err::<Res, Error>(e)));
                    }
                    framed
                },
            }
        },
        Err(_) => frame_err("failed to decode request".as_bytes_vec()),
    }
}

/// Hands one inbound sample to a subscriber's callback: decodes the payload
/// and, when it decodes, invokes the callback once; a payload that does not
/// decode is dropped.
fn dispatch_sample<M: Message, F: Fn(M)>(callback: &F, payload: &Vec<u8>)
    requires
        forall|m: M| call_requires(*callback, (m,)),
{
    match decode_message::<M>(payload.as_slice()) {
        Ok(message) => {
            (*callback)(message);
        },
        Err(_) => {},
    }
}

/// One subscription: a typed callback behind the byte-level sink interface.
/// Its invariant keeps the callback callable on every message.
#[verifier::reject_recursive_types(M)]
pub struct SampleSink<M: Message, F: Fn(M)> {
    callback: F,
    _message: PhantomData<M>,
}

impl<M: Message, F: Fn(M)> SampleSink<M, F> {
    /// The callback accepts every message.
    #[verifier::type_invariant]
    spec fn inv(&self) -> bool {
        forall|m: M| call_requires(self.callback, (m,))
    }

    /// Wraps a callback that accepts every message.
    fn new(callback: F) -> (r: SampleSink<M, F>)
        requires
            forall|m: M| call_requires(callback, (m,)),
    {
        SampleSink { callback, _message: PhantomData }
    }
}

impl<M: Message, F: Fn(M)> ByteSink for SampleSink<M, F> {
    fn accept(&self, payload: Vec<u8>) {
        proof {
            use_type_invariant(self);
        }
        dispatch_sample::<M, F>(&self.callback, &payload);
    }
}

/// One service registration: a typed handler behind the byte-level handler
/// interface. Its invariant keeps the handler callable on every request and
/// its successful results encodable.
#[verifier::reject_recursive_types(Req)]
#[verifier::reject_recursive_types(Res)]
pub struct ServiceResponder<Req: Message, Res: Message, F: Fn(Req) -> Result<Res, Error>> {
    handler: F,
    _messages: PhantomData<(Req, Res)>,
}

impl<Req: Message, Res: Message, F: Fn(Req) -> Result<Res, Error>> ServiceResponder<Req, Res, F> {
    /// The handler accepts every request, and what it returns successfully
    /// is encodable.
    #[verifier::type_invariant]
    spec fn inv(&self) -> bool {
        &&& forall|req: Req| call_requires(self.handler, (req,))
        &&& forall|req: Req, out: Result<Res, Error>|
            call_ensures(self.handler, (req,), out) ==> (out matches Ok(res) ==> res.wf())
    }

    /// Wraps a handler that accepts every request.
    fn new(handler: F) -> (r: ServiceResponder<Req, Res, F>)
        requires
            forall|req: Req| call_requires(handler, (req,)),
            forall|req: Req, out: Result<Res, Error>|
                call_ensures(handler, (req,), out) ==> (out matches Ok(res) ==> res.wf()),
    {
        ServiceResponder { handler, _messages: PhantomData }
    }
}

impl<Req: Message, Res: Message, F: Fn(Req) -> Result<Res, Error>> ByteHandler for ServiceResponder<
    Req,
    Res,
    F,
> {
    fn handle(&self, payload: Vec<u8>) -> Vec<u8> {
        proof {
            use_type_invariant(self);
        }
        dispatch_query::<Req, Res, F>(&self.handler, &payload)
    }
}

/// The in-memory transport adapter: materializes publishers, subscribers,
/// services and clients over the in-process substrate.
pub struct MockTransport {
    /// The substrate all resources of this transport share.
    bus: InMemoryBus,
}

impl MockTransport {
    /// A transport over a fresh, empty substrate.
    pub fn new() -> (r: MockTransport) {
        MockTransport { bus: InMemoryBus::new() }
    }

    /// Creates a publisher for the given topic.
    pub fn create_publisher<M: Message>(&self, topic: &str) -> (r: Result<MockPublisher<M>, Error>)
        ensures
            r matches Ok(p) && p.spec_topic() == topic@,
    {
        self.bus.ensure_topic(topic);
        Ok(MockPublisher { topic: topic.to_owned(), bus: self.bus.share(), _message: PhantomData })
    }

    /// Creates a subscriber for the given topic: the callback receives
    /// every payload already published on the topic and every later one,
    /// decoded, in publish order.
    pub fn create_subscriber<M: Message, F: Fn(M) + 'static>(
        &self,
        topic: &str,
        callback: F,
    ) -> (r: Result<MockSubscriber, Error>)
        requires
            forall|m: M| call_requires(callback, (m,)),
        ensures
            r matches Ok(s) && s.topic@ == topic@,
    {
        self.bus.ensure_topic(topic);
        self.bus.subscribe(topic, Box::new(SampleSink::new(callback)));
        Ok(MockSubscriber { topic: topic.to_owned() })
    }

    /// Creates a service under the given name: each inbound query is
    /// decoded and dispatched to the handler, and the reply carries the
    /// encoded response or the failure text.
    pub fn create_service<
        Req: Message,
        Res: Message,
        F: Fn(Req) -> Result<Res, Error> + 'static,
    >(&self, service_name: &str, handler: F) -> (r: Result<MockService, Error>)
        requires
            forall|req: Req| call_requires(handler, (req,)),
            forall|req: Req, out: Result<Res, Error>|
                call_ensures(handler, (req,), out) ==> (out matches Ok(res) ==> res.wf()),
        ensures
            r matches Ok(s) && s.name@ == service_name@,
    {
        self.bus.register_service(service_name, Box::new(ServiceResponder::new(handler)));
        Ok(MockService { name: service_name.to_owned() })
    }

    /// Creates a client for the given service name.
    pub fn create_client<Req: Message, Res: Message>(&self, service_name: &str) -> (r: Result<
        MockClient<Req, Res>,
        Error,
    >)
        ensures
            r matches Ok(c) && c.spec_service_name() == service_name@ && c.queries() == 0
                && c.sleeps() == Seq::<u64>::empty(),
    {
        let client = MockClient {
            service_name: service_name.to_owned(),
            bus: self.bus.share(),
            slept: Vec::new(),
            queried: Vec::new(),
            _messages: PhantomData,
        };
        proof {
            assert(client.sleeps() =~= Seq::<u64>::empty());
        }
        Ok(client)
    }
}

/// A publisher over the in-memory substrate.
pub struct MockPublisher<M: Message> {
    topic: String,
    bus: InMemoryBus,
    _message: PhantomData<M>,
}

impl<M: Message> MockPublisher<M> {
    /// The topic published on.
    pub closed spec fn spec_topic(&self) -> Seq<char> {
        self.topic@
    }

    /// The topic published on.
    pub fn topic(&self) -> (r: &str)
        ensures
            r@ == self.spec_topic(),
    {
        self.topic.as_str()
    }

    /// Encodes the message and hands the bytes to the substrate under the
    /// topic's name.
    pub fn publish(&self, message: &M) -> (r: Result<(), Error>)
        requires
            message.wf(),
        ensures
            r is Ok,
    {
        let payload = encode_message(message);
        self.bus.publish(self.topic.as_str(), &payload);
        Ok(())
    }
}

/// A subscriber over the in-memory substrate; dropping it leaves the
/// registered callback with the substrate.
pub struct MockSubscriber {
    /// The topic subscribed to.
    pub topic: String,
}

impl MockSubscriber {
    /// Closes the subscriber; the in-memory substrate holds no per-
    /// subscriber state to release.
    pub fn close(&self) -> (r: Result<(), Error>)
        ensures
            r is Ok,
    {
        Ok(())
    }
}

/// A service over the in-memory substrate.
pub struct MockService {
    /// The name the service answers under.
    pub name: String,
}

impl MockService {
    /// Closes the service; the in-memory substrate holds no per-service
    /// state to release.
    pub fn close(&self) -> (r: Result<(), Error>)
        ensures
            r is Ok,
    {
        Ok(())
    }
}

/// A client over the in-memory substrate. Every query issued and every
/// backoff slept through this client is recorded, so retry behaviour is
/// observable; the recorded sleeps stand in for real delays.
pub struct MockClient<Req: Message, Res: Message> {
    service_name: String,
    bus: InMemoryBus,
    slept: Vec<u64>,
    queried: Vec<u64>,
    _messages: PhantomData<(Req, Res)>,
}

impl<Req: Message, Res: Message> QueryPort for MockClient<Req, Res> {
    closed spec fn queries(&self) -> nat {
        self.queried@.len()
    }

    closed spec fn sleeps(&self) -> Seq<u64> {
        self.slept@
    }

    fn query(&mut self, service: &str, payload: &Vec<u8>, timeout_ms: u64) -> (r: QueryOutcome) {
        self.queried.push(timeout_ms);
        match self.bus.query(service, payload) {
            Some(bytes) => QueryOutcome::Reply(bytes),
            None => QueryOutcome::NoResponder,
        }
    }

    fn sleep_ms(&mut self, ms: u64) {
        self.slept.push(ms);
    }
}

impl<Req: Message, Res: Message> MockClient<Req, Res> {
    /// The name of the service this client calls.
    pub closed spec fn spec_service_name(&self) -> Seq<char> {
        self.service_name@
    }

    /// The name of the service this client calls.
    pub fn service_name(&self) -> (r: &str)
        ensures
            r@ == self.spec_service_name(),
    {
        self.service_name.as_str()
    }

    /// The backoff delays slept so far, in order.
    pub fn sleep_log(&self) -> (r: &Vec<u64>)
        ensures
            r@ == self.sleeps(),
    {
        &self.slept
    }

    /// How many queries have been issued so far.
    pub fn query_count(&self) -> (r: usize)
        ensures
            r == self.queries(),
    {
        self.queried.len()
    }

    /// Makes one query attempt carrying the already encoded request and
    /// hands back what the substrate yielded.
    pub fn query_once(&mut self, payload: &Vec<u8>, timeout_ms: u64) -> (r: QueryOutcome)
        ensures
            final(self).queries() == old(self).queries() + 1,
            final(self).sleeps() == old(self).sleeps(),
            final(self).spec_service_name() == old(self).spec_service_name(),
    {
        self.queried.push(timeout_ms);
        match self.bus.query(self.service_name.as_str(), payload) {
            Some(bytes) => QueryOutcome::Reply(bytes),
            None => QueryOutcome::NoResponder,
        }
    }

    /// Calls the service with one single attempt: encodes the request,
    /// issues one query, and interprets the reply.
    pub fn call(&mut self, request: &Req) -> (r: Result<Res, Error>)
        requires
            request.wf(),
        ensures
            r matches Ok(res) ==> res.wf(),
            final(self).queries() == old(self).queries() + 1,
            final(self).sleeps() == old(self).sleeps(),
    {
        let service = self.service_name.clone();
        let payload = encode_message(request);
        let outcome = self.query(service.as_str(), &payload, 10_000);
        interpret_reply::<Res>(outcome, service.as_str())
    }
}

} // verus!
