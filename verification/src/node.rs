//! The node: per-kind registries of named resources, the parameter store,
//! scoped handles with a cleanup guard, and fluent builders.
//!
//! A node owns four independent name registries (publishers, subscribers,
//! services, clients) and one parameter map. Names are unique within a
//! kind and may be reused across kinds. Creating a resource is an explicit
//! two-phase step: the name is checked against the registry, the transport
//! materializes the underlying object, and only then is the name committed;
//! a name collision fails with the already-exists error and changes
//! nothing.

use vstd::prelude::*;

use std::marker::PhantomData;

use crate::client::Client;
use crate::error::Error;
use crate::message::Message;
use crate::parameter::{ParamKind, ParamModel, Parameter, ParamValue};
use crate::publisher::Publisher;
use crate::qos::{QosPreset, QosProfile, Reliability};
use crate::service::Service;
use crate::subscriber::Subscriber;
use crate::transport::MockTransport;

verus! {

/// A cleanup action run when a guard is released.
pub trait Cleanup {
    /// Runs the action; the guard calls this at most once.
    fn run(&mut self);
}

/// A guard that runs a cleanup action exactly once, when it is dropped.
#[verifier::external_body]
pub struct DropGuard {
    action: Option<Box<dyn Cleanup>>,
}

impl DropGuard {
    /// Relies on `Option`: wraps the action; it has not run yet.
    #[verifier::external_body]
    pub fn new(action: Box<dyn Cleanup>) -> (r: DropGuard) {
        DropGuard { action: Some(action) }
    }
}

impl Drop for DropGuard {
    /// Relies on `Option::take` and Rust's ownership: the action is taken
    /// out of the guard and run on the one and only drop of the guard, on
    /// every exit path.
    #[verifier::external_body]
    fn drop(&mut self)
        opens_invariants none
        no_unwind
    {
        if let Some(mut action) = self.action.take() {
            action.run();
        }
    }
}

/// The cleanup of a plain resource handle: the wrapped resource releases
/// its transport object by being dropped, so nothing is left to do.
struct NoCleanup {}

impl Cleanup for NoCleanup {
    fn run(&mut self) {
    }
}

/// Whether a registry holds a name.
pub open spec fn spec_has_name(names: Seq<Seq<char>>, name: Seq<char>) -> bool {
    exists|i: int| 0 <= i < names.len() && names[i] == name
}

/// Whether a registry (as stored) holds a name.
fn contains_name(names: &Vec<String>, name: &str) -> (r: bool)
    ensures
        r == spec_has_name(names@.map_values(|s: String| s@), name@),
{
    let ghost views = names@.map_values(|s: String| s@);
    let mut i: usize = 0;
    let n = names.len();
    while i < n
        invariant
            0 <= i <= n,
            n == names@.len(),
            views == names@.map_values(|s: String| s@),
            forall|j: int| 0 <= j < i ==> views[j] != name@,
        decreases n - i,
    {
        let entry = names[i].clone();
        proof {
            assert(views[i as int] == names@[i as int]@);
        }
        if entry == name.to_owned() {
            proof {
                assert(views[i as int] == name@);
            }
            return true;
        }
        i = i + 1;
    }
    false
}

/// The first stored parameter with the given name, if any.
pub open spec fn spec_lookup(params: Seq<Parameter>, name: Seq<char>) -> Option<ParamModel>
    decreases params.len(),
{
    if params.len() == 0 {
        None
    } else if params[0].spec_name() == name {
        Some(params[0].spec_value())
    } else {
        spec_lookup(params.skip(1), name)
    }
}

/// Looking a name up in joined registries reads the left part first.
proof fn lemma_lookup_concat(a: Seq<Parameter>, b: Seq<Parameter>, name: Seq<char>)
    ensures
        spec_lookup(a + b, name) == (match spec_lookup(a, name) {
            Some(v) => Some(v),
            None => spec_lookup(b, name),
        }),
    decreases a.len(),
{
    if a.len() == 0 {
        assert(a + b =~= b);
    } else {
        assert((a + b).skip(1) =~= a.skip(1) + b);
        lemma_lookup_concat(a.skip(1), b, name);
    }
}

/// A name matching no stored parameter looks up to nothing.
proof fn lemma_lookup_absent(params: Seq<Parameter>, name: Seq<char>)
    requires
        forall|i: int| 0 <= i < params.len() ==> (#[trigger] params[i]).spec_name() != name,
    ensures
        spec_lookup(params, name) is None,
    decreases params.len(),
{
    if params.len() > 0 {
        lemma_lookup_absent(params.skip(1), name);
    }
}

/// A node: a named owner of publishers, subscribers, services, clients and
/// parameters over one transport.
pub struct Node {
    name: String,
    transport: MockTransport,
    publishers: Vec<String>,
    subscribers: Vec<String>,
    services: Vec<String>,
    clients: Vec<String>,
    parameters: Vec<Parameter>,
}

impl Node {
    /// Parameters are unique by name and each canonical text renders its
    /// value.
    pub closed spec fn wf(&self) -> bool {
        &&& forall|i: int|
            0 <= i < self.parameters@.len() ==> (#[trigger] self.parameters@[i]).wf()
        &&& forall|i: int, j: int|
            0 <= i < j < self.parameters@.len() ==> (#[trigger] self.parameters@[i]).spec_name()
                != (#[trigger] self.parameters@[j]).spec_name()
    }

    /// The name of the node.
    pub closed spec fn spec_name(&self) -> Seq<char> {
        self.name@
    }

    /// The registered publisher topics, in creation order.
    pub closed spec fn spec_publishers(&self) -> Seq<Seq<char>> {
        self.publishers@.map_values(|s: String| s@)
    }

    /// The registered subscriber topics, in creation order.
    pub closed spec fn spec_subscribers(&self) -> Seq<Seq<char>> {
        self.subscribers@.map_values(|s: String| s@)
    }

    /// The registered service names, in creation order.
    pub closed spec fn spec_services(&self) -> Seq<Seq<char>> {
        self.services@.map_values(|s: String| s@)
    }

    /// The registered client names, in creation order.
    pub closed spec fn spec_clients(&self) -> Seq<Seq<char>> {
        self.clients@.map_values(|s: String| s@)
    }

    /// The parameter stored under a name, if any.
    pub closed spec fn spec_param(&self, name: Seq<char>) -> Option<ParamModel> {
        spec_lookup(self.parameters@, name)
    }

    /// Creates a node with the given name over the given transport, with
    /// empty registries and no parameters.
    pub fn with_transport(name: &str, transport: MockTransport) -> (r: Result<Node, Error>)
        ensures
            r matches Ok(n) && n.wf() && n.spec_name() == name@ && n.spec_publishers()
                == Seq::<Seq<char>>::empty() && n.spec_subscribers() == Seq::<Seq<char>>::empty()
                && n.spec_services() == Seq::<Seq<char>>::empty() && n.spec_clients()
                == Seq::<Seq<char>>::empty() && (forall|p: Seq<char>| n.spec_param(p) is None),
    {
        let node = Node {
            name: name.to_owned(),
            transport,
            publishers: Vec::new(),
            subscribers: Vec::new(),
            services: Vec::new(),
            clients: Vec::new(),
            parameters: Vec::new(),
        };
        proof {
            assert(node.spec_publishers() =~= Seq::<Seq<char>>::empty());
            assert(node.spec_subscribers() =~= Seq::<Seq<char>>::empty());
            assert(node.spec_services() =~= Seq::<Seq<char>>::empty());
            assert(node.spec_clients() =~= Seq::<Seq<char>>::empty());
        }
        Ok(node)
    }

    /// The name of the node.
    pub fn name(&self) -> (r: &str)
        ensures
            r@ == self.spec_name(),
    {
        self.name.as_str()
    }

    /// Creates a publisher for the given topic. A second publisher under a
    /// topic already registered on this node fails with the already-exists
    /// error and changes nothing.
    pub fn create_publisher<M: Message>(&mut self, topic: &str, qos: QosProfile) -> (r: Result<
        Publisher<M>,
        Error,
    >)
        requires
            old(self).wf(),
        ensures
            final(self).wf(),
            final(self).spec_name() == old(self).spec_name(),
            final(self).spec_subscribers() == old(self).spec_subscribers(),
            final(self).spec_services() == old(self).spec_services(),
            final(self).spec_clients() == old(self).spec_clients(),
            forall|p: Seq<char>| final(self).spec_param(p) == old(self).spec_param(p),
            if spec_has_name(old(self).spec_publishers(), topic@) {
                &&& r matches Err(Error::TopicAlreadyExists { topic: t, node: n }) && t@ == topic@
                    && n@ == old(self).spec_name()
                &&& final(self).spec_publishers() == old(self).spec_publishers()
            } else {
                &&& r matches Ok(p) && p.spec_topic() == topic@
                &&& final(self).spec_publishers() == old(self).spec_publishers().push(topic@)
            },
    {
        let _ = qos;
        if contains_name(&self.publishers, topic) {
            return Err(Error::topic_already_exists(topic, self.name.as_str()));
        }
        let inner = match self.transport.create_publisher::<M>(topic) {
            Ok(inner) => inner,
            Err(e) => {
                return Err(e);
            },
        };
        self.publishers.push(topic.to_owned());
        proof {
            assert(self.spec_publishers() =~= old(self).spec_publishers().push(topic@));
        }
        Ok(Publisher::new(topic.to_owned(), inner))
    }

    /// Creates a subscriber for the given topic with a callback. A second
    /// subscriber under a topic already registered on this node fails with
    /// the already-exists error and changes nothing.
    pub fn create_subscriber<M: Message, F: Fn(M) + 'static>(
        &mut self,
        topic: &str,
        qos: QosProfile,
        callback: F,
    ) -> (r: Result<Subscriber, Error>)
        requires
            old(self).wf(),
            forall|m: M| call_requires(callback, (m,)),
        ensures
            final(self).wf(),
            final(self).spec_name() == old(self).spec_name(),
            final(self).spec_publishers() == old(self).spec_publishers(),
            final(self).spec_services() == old(self).spec_services(),
            final(self).spec_clients() == old(self).spec_clients(),
            forall|p: Seq<char>| final(self).spec_param(p) == old(self).spec_param(p),
            if spec_has_name(old(self).spec_subscribers(), topic@) {
                &&& r matches Err(Error::TopicAlreadyExists { topic: t, node: n }) && t@ == topic@
                    && n@ == old(self).spec_name()
                &&& final(self).spec_subscribers() == old(self).spec_subscribers()
            } else {
                &&& r matches Ok(s) && s.spec_topic() == topic@
                &&& final(self).spec_subscribers() == old(self).spec_subscribers().push(topic@)
            },
    {
        let _ = qos;
        if contains_name(&self.subscribers, topic) {
            return Err(Error::topic_already_exists(topic, self.name.as_str()));
        }
        let inner = match self.transport.create_subscriber::<M, F>(topic, callback) {
            Ok(inner) => inner,
            Err(e) => {
                return Err(e);
            },
        };
        self.subscribers.push(topic.to_owned());
        proof {
            assert(self.spec_subscribers() =~= old(self).spec_subscribers().push(topic@));
        }
        Ok(Subscriber::new(topic.to_owned(), inner))
    }

    /// Creates a service under the given name with a handler. A second
    /// service under a name already registered on this node fails with the
    /// already-exists error and changes nothing.
    pub fn create_service<
        Req: Message,
        Res: Message,
        F: Fn(Req) -> Result<Res, Error> + 'static,
    >(&mut self, service_name: &str, handler: F) -> (r: Result<Service, Error>)
        requires
            old(self).wf(),
            forall|req: Req| call_requires(handler, (req,)),
            forall|req: Req, out: Result<Res, Error>|
                call_ensures(handler, (req,), out) ==> (out matches Ok(res) ==> res.wf()),
        ensures
            final(self).wf(),
            final(self).spec_name() == old(self).spec_name(),
            final(self).spec_publishers() == old(self).spec_publishers(),
            final(self).spec_subscribers() == old(self).spec_subscribers(),
            final(self).spec_clients() == old(self).spec_clients(),
            forall|p: Seq<char>| final(self).spec_param(p) == old(self).spec_param(p),
            if spec_has_name(old(self).spec_services(), service_name@) {
                &&& r matches Err(Error::ServiceAlreadyExists { service: s, node: n }) && s@
                    == service_name@ && n@ == old(self).spec_name()
                &&& final(self).spec_services() == old(self).spec_services()
            } else {
                &&& r matches Ok(s) && s.spec_name() == service_name@
                &&& final(self).spec_services() == old(self).spec_services().push(service_name@)
            },
    {
        if contains_name(&self.services, service_name) {
            return Err(Error::service_already_exists(service_name, self.name.as_str()));
        }
        let inner = match self.transport.create_service::<Req, Res, F>(service_name, handler) {
            Ok(inner) => inner,
            Err(e) => {
                return Err(e);
            },
        };
        self.services.push(service_name.to_owned());
        proof {
            assert(self.spec_services() =~= old(self).spec_services().push(service_name@));
        }
        Ok(Service::new(service_name.to_owned(), inner))
    }

    /// Creates a client for the given service name. A second client under a
    /// name already registered on this node fails with the already-exists
    /// error and changes nothing.
    pub fn create_client<Req: Message, Res: Message>(&mut self, service_name: &str) -> (r: Result<
        Client<Req, Res>,
        Error,
    >)
        requires
            old(self).wf(),
        ensures
            final(self).wf(),
            final(self).spec_name() == old(self).spec_name(),
            final(self).spec_publishers() == old(self).spec_publishers(),
            final(self).spec_subscribers() == old(self).spec_subscribers(),
            final(self).spec_services() == old(self).spec_services(),
            forall|p: Seq<char>| final(self).spec_param(p) == old(self).spec_param(p),
            if spec_has_name(old(self).spec_clients(), service_name@) {
                &&& r matches Err(Error::ServiceAlreadyExists { service: s, node: n }) && s@
                    == service_name@ && n@ == old(self).spec_name()
                &&& final(self).spec_clients() == old(self).spec_clients()
            } else {
                &&& r matches Ok(c) && c.spec_name() == service_name@ && c.wf()
                &&& final(self).spec_clients() == old(self).spec_clients().push(service_name@)
            },
    {
        if contains_name(&self.clients, service_name) {
            return Err(Error::service_already_exists(service_name, self.name.as_str()));
        }
        let port = match self.transport.create_client::<Req, Res>(service_name) {
            Ok(port) => port,
            Err(e) => {
                return Err(e);
            },
        };
        self.clients.push(service_name.to_owned());
        proof {
            assert(self.spec_clients() =~= old(self).spec_clients().push(service_name@));
        }
        Ok(Client::new(service_name.to_owned(), port))
    }

    /// Sets a parameter: created on the first set, replaced on every later
    /// set with the same name, both the value and its canonical text
    /// together.
    pub fn set_parameter(&mut self, name: &str, value: ParamValue) -> (r: Result<(), Error>)
        requires
            old(self).wf(),
        ensures
            r is Ok,
            final(self).wf(),
            final(self).spec_name() == old(self).spec_name(),
            final(self).spec_publishers() == old(self).spec_publishers(),
            final(self).spec_subscribers() == old(self).spec_subscribers(),
            final(self).spec_services() == old(self).spec_services(),
            final(self).spec_clients() == old(self).spec_clients(),
            final(self).spec_param(name@) == Some(value@),
            forall|p: Seq<char>|
                p != name@ ==> #[trigger] final(self).spec_param(p) == old(self).spec_param(p),
    {
        match self.find_param(name) {
            Some(i) => {
                let ghost before = self.parameters@;
                let mut entry = self.parameters.remove(i);
                let _ = entry.set_value(value);
                self.parameters.insert(i, entry);
                proof {
                    let after = self.parameters@;
                    assert(after =~= before.update(i as int, after[i as int]));
                    lemma_lookup_update(before, after, i as int, name@);
                }
                Ok(())
            },
            None => {
                let entry = match Parameter::new(name, value) {
                    Ok(entry) => entry,
                    Err(e) => {
                        return Err(e);
                    },
                };
                let ghost before = self.parameters@;
                self.parameters.push(entry);
                proof {
                    let after = self.parameters@;
                    let single = seq![after.last()];
                    assert(after =~= before + single);
                    assert(single.skip(1) =~= Seq::<Parameter>::empty());
                    assert(after.last().spec_name() == name@);
                    assert(spec_lookup(single, name@) == Some(after.last().spec_value()));
                    lemma_lookup_concat(before, single, name@);
                    lemma_lookup_absent(before, name@);
                    assert forall|p: Seq<char>| p != name@ implies #[trigger] spec_lookup(after, p)
                        == spec_lookup(before, p) by {
                        lemma_lookup_concat(before, single, p);
                        assert(single.skip(1) =~= Seq::<Parameter>::empty());
                        assert(single[0].spec_name() == name@);
                        assert(spec_lookup(Seq::<Parameter>::empty(), p) is None);
                        assert(spec_lookup(single, p) is None);
                    }
                }
                Ok(())
            },
        }
    }

    /// The position of the parameter with the given name, if one is stored.
    fn find_param(&self, name: &str) -> (r: Option<usize>)
        ensures
            match r {
                Some(i) => i < self.parameters@.len() && (#[trigger] self.parameters@[i as int]).spec_name()
                    == name@ && forall|j: int|
                    0 <= j < i ==> (#[trigger] self.parameters@[j]).spec_name() != name@,
                None => forall|j: int|
                    0 <= j < self.parameters@.len() ==> (#[trigger] self.parameters@[j]).spec_name()
                        != name@,
            },
    {
        let n = self.parameters.len();
        let mut i: usize = 0;
        while i < n
            invariant
                0 <= i <= n,
                n == self.parameters@.len(),
                forall|j: int|
                    0 <= j < i ==> (#[trigger] self.parameters@[j]).spec_name() != name@,
            decreases n - i,
        {
            let entry_name = self.parameters[i].name().to_owned();
            if entry_name == name.to_owned() {
                return Some(i);
            }
            i = i + 1;
        }
        None
    }

    /// Gets a parameter at the requested kind. A missing name fails with a
    /// `Parameter` error; a name stored at another kind fails with a
    /// `Parameter` error after the canonical fallback read rejects it.
    pub fn get_parameter(&self, name: &str, kind: ParamKind) -> (r: Result<ParamValue, Error>)
        requires
            self.wf(),
        ensures
            match r {
                Ok(v) => self.spec_param(name@) == Some(v@) && crate::parameter::spec_kind_of(v@)
                    == kind,
                Err(e) => (e matches Error::Parameter { name: n, reason: _ } && n@ == name@)
                    && match self.spec_param(name@) {
                    Some(m) => crate::parameter::spec_kind_of(m) != kind,
                    None => true,
                },
            },
    {
        match self.find_param(name) {
            Some(i) => {
                proof {
                    lemma_lookup_found(self.parameters@, i as int, name@);
                }
                self.parameters[i].get_value(kind)
            },
            None => {
                proof {
                    lemma_lookup_absent(self.parameters@, name@);
                }
                Err(Error::parameter(name, "Parameter not found"))
            },
        }
    }

    /// Processes pending work once; the in-memory transport delivers
    /// synchronously, so there is never anything pending.
    pub fn spin_once(&self) -> (r: Result<(), Error>)
        ensures
            r is Ok,
    {
        Ok(())
    }

    /// Starts building a publisher for the given topic.
    pub fn publisher<M: Message>(&self, topic: &str) -> (r: PublisherBuilder<M>)
        ensures
            r.spec_topic() == topic@,
            r.spec_qos() == crate::qos::spec_default_profile(),
    {
        PublisherBuilder { topic: topic.to_owned(), qos: QosProfile::default(), _message: PhantomData }
    }

    /// Starts building a subscriber for the given topic.
    pub fn subscriber<M: Message>(&self, topic: &str) -> (r: SubscriberBuilder<M>)
        ensures
            r.spec_topic() == topic@,
            r.spec_qos() == crate::qos::spec_default_profile(),
    {
        SubscriberBuilder { topic: topic.to_owned(), qos: QosProfile::default(), _message: PhantomData }
    }

    /// Starts building a service under the given name.
    pub fn service<Req: Message, Res: Message>(&self, name: &str) -> (r: ServiceBuilder<Req, Res>)
        ensures
            r.spec_name() == name@,
    {
        ServiceBuilder { name: name.to_owned(), _messages: PhantomData }
    }

    /// Starts building a client for the given service name.
    pub fn client<Req: Message, Res: Message>(&self, name: &str) -> (r: ClientBuilder<Req, Res>)
        ensures
            r.spec_name() == name@,
    {
        ClientBuilder { name: name.to_owned(), _messages: PhantomData }
    }

    /// Creates a publisher with the default QoS profile.
    pub fn publish<M: Message>(&mut self, topic: &str) -> (r: Result<Publisher<M>, Error>)
        requires
            old(self).wf(),
        ensures
            final(self).wf(),
            r matches Ok(p) ==> p.spec_topic() == topic@,
    {
        self.create_publisher::<M>(topic, QosProfile::default())
    }

    /// Creates a subscriber with the default QoS profile and a callback.
    pub fn subscribe<M: Message, F: Fn(M) + 'static>(&mut self, topic: &str, callback: F) -> (r:
        Result<Subscriber, Error>)
        requires
            old(self).wf(),
            forall|m: M| call_requires(callback, (m,)),
        ensures
            final(self).wf(),
            r matches Ok(s) ==> s.spec_topic() == topic@,
    {
        self.create_subscriber::<M, F>(topic, QosProfile::default(), callback)
    }
}

/// Updating one entry in place changes what its name reads and nothing
/// else, provided the name is first found there.
proof fn lemma_lookup_update(before: Seq<Parameter>, after: Seq<Parameter>, i: int, name: Seq<char>)
    requires
        0 <= i < before.len(),
        after.len() == before.len(),
        after == before.update(i, after[i]),
        forall|j: int| 0 <= j < i ==> (#[trigger] before[j]).spec_name() != name,
        before[i].spec_name() == name,
        after[i].spec_name() == name,
    ensures
        spec_lookup(after, name) == Some(after[i].spec_value()),
        forall|p: Seq<char>|
            p != name ==> #[trigger] spec_lookup(after, p) == spec_lookup(before, p),
    decreases i,
{
    if i == 0 {
        assert(after.skip(1) =~= before.skip(1));
        assert(spec_lookup(after, name) == Some(after[0].spec_value()));
        assert forall|p: Seq<char>| p != name implies #[trigger] spec_lookup(after, p)
            == spec_lookup(before, p) by {
            assert(spec_lookup(after, p) == spec_lookup(after.skip(1), p));
            assert(spec_lookup(before, p) == spec_lookup(before.skip(1), p));
        }
    } else {
        assert(after.skip(1) =~= before.skip(1).update(i - 1, after[i]));
        assert(after.skip(1)[i - 1] == after[i]);
        lemma_lookup_update(before.skip(1), after.skip(1), i - 1, name);
        assert(after[0] == before[0]);
        assert(after[0].spec_name() != name);
        assert(spec_lookup(after, name) == spec_lookup(after.skip(1), name));
        assert forall|p: Seq<char>| p != name implies #[trigger] spec_lookup(after, p)
            == spec_lookup(before, p) by {
            if after[0].spec_name() == p {
            } else {
                assert(spec_lookup(after, p) == spec_lookup(after.skip(1), p));
                assert(spec_lookup(before, p) == spec_lookup(before.skip(1), p));
            }
        }
    }
}

/// A name found at `i` after not matching anywhere earlier looks up to the
/// value stored at `i`.
proof fn lemma_lookup_found(params: Seq<Parameter>, i: int, name: Seq<char>)
    requires
        0 <= i < params.len(),
        forall|j: int| 0 <= j < i ==> (#[trigger] params[j]).spec_name() != name,
        params[i].spec_name() == name,
    ensures
        spec_lookup(params, name) == Some(params[i].spec_value()),
    decreases i,
{
    if i > 0 {
        lemma_lookup_found(params.skip(1), i - 1, name);
    }
}

/// A handle that owns a publisher and a scoped cleanup guard.
pub struct PublisherHandle<M: Message> {
    publisher: Publisher<M>,
    _cleanup: DropGuard,
}

impl<M: Message> PublisherHandle<M> {
    /// The topic published on.
    pub closed spec fn spec_topic(&self) -> Seq<char> {
        self.publisher.spec_topic()
    }

    fn new(publisher: Publisher<M>) -> (r: PublisherHandle<M>)
        ensures
            r.spec_topic() == publisher.spec_topic(),
    {
        PublisherHandle { publisher, _cleanup: DropGuard::new(Box::new(NoCleanup {})) }
    }

    /// The underlying publisher.
    pub fn publisher(&self) -> (r: &Publisher<M>)
        ensures
            r.spec_topic() == self.spec_topic(),
    {
        &self.publisher
    }

    /// Publishes a message.
    pub fn publish(&self, message: &M) -> (r: Result<(), Error>)
        requires
            message.wf(),
        ensures
            r is Ok,
    {
        self.publisher.publish(message)
    }

    /// The topic published on.
    pub fn topic(&self) -> (r: &str)
        ensures
            r@ == self.spec_topic(),
    {
        self.publisher.topic()
    }
}

/// A handle that owns a subscriber and a scoped cleanup guard.
pub struct SubscriberHandle {
    subscriber: Subscriber,
    _cleanup: DropGuard,
}

impl SubscriberHandle {
    /// The topic subscribed to.
    pub closed spec fn spec_topic(&self) -> Seq<char> {
        self.subscriber.spec_topic()
    }

    fn new(subscriber: Subscriber) -> (r: SubscriberHandle)
        ensures
            r.spec_topic() == subscriber.spec_topic(),
    {
        SubscriberHandle { subscriber, _cleanup: DropGuard::new(Box::new(NoCleanup {})) }
    }

    /// The underlying subscriber.
    pub fn subscriber(&self) -> (r: &Subscriber)
        ensures
            r.spec_topic() == self.spec_topic(),
    {
        &self.subscriber
    }
}

/// A handle that owns a service and a scoped cleanup guard.
pub struct ServiceHandle {
    service: Service,
    _cleanup: DropGuard,
}

impl ServiceHandle {
    /// The name the service answers under.
    pub closed spec fn spec_name(&self) -> Seq<char> {
        self.service.spec_name()
    }

    fn new(service: Service) -> (r: ServiceHandle)
        ensures
            r.spec_name() == service.spec_name(),
    {
        ServiceHandle { service, _cleanup: DropGuard::new(Box::new(NoCleanup {})) }
    }

    /// The underlying service.
    pub fn service(&self) -> (r: &Service)
        ensures
            r.spec_name() == self.spec_name(),
    {
        &self.service
    }
}

/// A handle that owns a client and a scoped cleanup guard.
pub struct ClientHandle<Req: Message, Res: Message> {
    client: Client<Req, Res>,
    _cleanup: DropGuard,
}

impl<Req: Message, Res: Message> ClientHandle<Req, Res> {
    /// The name of the service called.
    pub closed spec fn spec_name(&self) -> Seq<char> {
        self.client.spec_name()
    }

    /// The client's retry arithmetic stays in bounds.
    pub closed spec fn wf(&self) -> bool {
        self.client.wf()
    }

    fn new(client: Client<Req, Res>) -> (r: ClientHandle<Req, Res>)
        requires
            client.wf(),
        ensures
            r.spec_name() == client.spec_name(),
            r.wf(),
    {
        ClientHandle { client, _cleanup: DropGuard::new(Box::new(NoCleanup {})) }
    }

    /// The underlying client.
    pub fn client(&self) -> (r: &Client<Req, Res>)
        ensures
            r.spec_name() == self.spec_name(),
    {
        &self.client
    }

    /// Calls the service through the retry engine.
    pub fn call(&mut self, request: &Req) -> (r: Result<Res, Error>)
        requires
            old(self).wf(),
            request.wf(),
        ensures
            final(self).wf(),
            r matches Ok(res) ==> res.wf(),
    {
        self.client.call(request)
    }
}

/// A builder of publishers: the topic and the QoS profile to create with.
pub struct PublisherBuilder<M: Message> {
    topic: String,
    qos: QosProfile,
    _message: PhantomData<M>,
}

impl<M: Message> PublisherBuilder<M> {
    /// The topic to publish on.
    pub closed spec fn spec_topic(&self) -> Seq<char> {
        self.topic@
    }

    /// The profile the publisher will be created with.
    pub closed spec fn spec_qos(&self) -> QosProfile {
        self.qos
    }

    /// Sets the QoS profile.
    pub fn with_qos(self, qos: QosProfile) -> (r: PublisherBuilder<M>)
        ensures
            r.spec_topic() == self.spec_topic(),
            r.spec_qos() == qos,
    {
        PublisherBuilder { qos, ..self }
    }

    /// Sets the QoS profile from a preset.
    pub fn with_qos_preset(self, preset: QosPreset) -> (r: PublisherBuilder<M>)
        ensures
            r.spec_topic() == self.spec_topic(),
            r.spec_qos() == crate::qos::spec_preset_profile(preset),
    {
        PublisherBuilder { qos: QosProfile::from(preset), ..self }
    }

    /// Sets reliable delivery.
    pub fn reliable(self) -> (r: PublisherBuilder<M>)
        ensures
            r.spec_topic() == self.spec_topic(),
            r.spec_qos() == (QosProfile { reliability: Reliability::Reliable, ..self.spec_qos() }),
    {
        PublisherBuilder {
            qos: QosProfile { reliability: Reliability::Reliable, ..self.qos },
            ..self
        }
    }

    /// Sets best-effort delivery.
    pub fn best_effort(self) -> (r: PublisherBuilder<M>)
        ensures
            r.spec_topic() == self.spec_topic(),
            r.spec_qos() == (QosProfile { reliability: Reliability::BestEffort, ..self.spec_qos() }),
    {
        PublisherBuilder {
            qos: QosProfile { reliability: Reliability::BestEffort, ..self.qos },
            ..self
        }
    }

    /// Sets the history depth.
    pub fn with_depth(self, depth: usize) -> (r: PublisherBuilder<M>)
        ensures
            r.spec_topic() == self.spec_topic(),
            r.spec_qos() == (QosProfile { depth, ..self.spec_qos() }),
    {
        PublisherBuilder { qos: QosProfile { depth, ..self.qos }, ..self }
    }

    /// Creates the publisher on the node and wraps it in a handle.
    pub fn build(self, node: &mut Node) -> (r: Result<PublisherHandle<M>, Error>)
        requires
            old(node).wf(),
        ensures
            final(node).wf(),
            r matches Ok(h) ==> h.spec_topic() == self.spec_topic(),
    {
        let topic = self.topic;
        let publisher = match node.create_publisher::<M>(topic.as_str(), self.qos) {
            Ok(publisher) => publisher,
            Err(e) => {
                return Err(e);
            },
        };
        Ok(PublisherHandle::new(publisher))
    }
}

/// A builder of subscribers: the topic and the QoS profile to create with.
pub struct SubscriberBuilder<M: Message> {
    topic: String,
    qos: QosProfile,
    _message: PhantomData<M>,
}

impl<M: Message> SubscriberBuilder<M> {
    /// The topic to subscribe to.
    pub closed spec fn spec_topic(&self) -> Seq<char> {
        self.topic@
    }

    /// The profile the subscriber will be created with.
    pub closed spec fn spec_qos(&self) -> QosProfile {
        self.qos
    }

    /// Sets the QoS profile.
    pub fn with_qos(self, qos: QosProfile) -> (r: SubscriberBuilder<M>)
        ensures
            r.spec_topic() == self.spec_topic(),
            r.spec_qos() == qos,
    {
        SubscriberBuilder { qos, ..self }
    }

    /// Sets the QoS profile from a preset.
    pub fn with_qos_preset(self, preset: QosPreset) -> (r: SubscriberBuilder<M>)
        ensures
            r.spec_topic() == self.spec_topic(),
            r.spec_qos() == crate::qos::spec_preset_profile(preset),
    {
        SubscriberBuilder { qos: QosProfile::from(preset), ..self }
    }

    /// Sets reliable delivery.
    pub fn reliable(self) -> (r: SubscriberBuilder<M>)
        ensures
            r.spec_topic() == self.spec_topic(),
            r.spec_qos() == (QosProfile { reliability: Reliability::Reliable, ..self.spec_qos() }),
    {
        SubscriberBuilder {
            qos: QosProfile { reliability: Reliability::Reliable, ..self.qos },
            ..self
        }
    }

    /// Sets best-effort delivery.
    pub fn best_effort(self) -> (r: SubscriberBuilder<M>)
        ensures
            r.spec_topic() == self.spec_topic(),
            r.spec_qos() == (QosProfile { reliability: Reliability::BestEffort, ..self.spec_qos() }),
    {
        SubscriberBuilder {
            qos: QosProfile { reliability: Reliability::BestEffort, ..self.qos },
            ..self
        }
    }

    /// Sets the history depth.
    pub fn with_depth(self, depth: usize) -> (r: SubscriberBuilder<M>)
        ensures
            r.spec_topic() == self.spec_topic(),
            r.spec_qos() == (QosProfile { depth, ..self.spec_qos() }),
    {
        SubscriberBuilder { qos: QosProfile { depth, ..self.qos }, ..self }
    }

    /// Creates the subscriber on the node with the callback and wraps it in
    /// a handle.
    pub fn build<F: Fn(M) + 'static>(self, node: &mut Node, callback: F) -> (r: Result<
        SubscriberHandle,
        Error,
    >)
        requires
            old(node).wf(),
            forall|m: M| call_requires(callback, (m,)),
        ensures
            final(node).wf(),
            r matches Ok(h) ==> h.spec_topic() == self.spec_topic(),
    {
        let topic = self.topic;
        let subscriber = match node.create_subscriber::<M, F>(topic.as_str(), self.qos, callback) {
            Ok(subscriber) => subscriber,
            Err(e) => {
                return Err(e);
            },
        };
        Ok(SubscriberHandle::new(subscriber))
    }
}

/// A builder of services: the name to answer under.
pub struct ServiceBuilder<Req: Message, Res: Message> {
    name: String,
    _messages: PhantomData<(Req, Res)>,
}

impl<Req: Message, Res: Message> ServiceBuilder<Req, Res> {
    /// The name the service will answer under.
    pub closed spec fn spec_name(&self) -> Seq<char> {
        self.name@
    }

    /// Creates the service on the node with the handler and wraps it in a
    /// handle.
    pub fn build<F: Fn(Req) -> Result<Res, Error> + 'static>(self, node: &mut Node, handler: F) -> (r:
        Result<ServiceHandle, Error>)
        requires
            old(node).wf(),
            forall|req: Req| call_requires(handler, (req,)),
            forall|req: Req, out: Result<Res, Error>|
                call_ensures(handler, (req,), out) ==> (out matches Ok(res) ==> res.wf()),
        ensures
            final(node).wf(),
            r matches Ok(h) ==> h.spec_name() == self.spec_name(),
    {
        let name = self.name;
        let service = match node.create_service::<Req, Res, F>(name.as_str(), handler) {
            Ok(service) => service,
            Err(e) => {
                return Err(e);
            },
        };
        Ok(ServiceHandle::new(service))
    }
}

/// A builder of clients: the service name to call.
pub struct ClientBuilder<Req: Message, Res: Message> {
    name: String,
    _messages: PhantomData<(Req, Res)>,
}

impl<Req: Message, Res: Message> ClientBuilder<Req, Res> {
    /// The name of the service the client will call.
    pub closed spec fn spec_name(&self) -> Seq<char> {
        self.name@
    }

    /// Creates the client on the node and wraps it in a handle.
    pub fn build(self, node: &mut Node) -> (r: Result<ClientHandle<Req, Res>, Error>)
        requires
            old(node).wf(),
        ensures
            final(node).wf(),
            r matches Ok(h) ==> h.spec_name() == self.spec_name() && h.wf(),
    {
        let name = self.name;
        let client = match node.create_client::<Req, Res>(name.as_str()) {
            Ok(client) => client,
            Err(e) => {
                return Err(e);
            },
        };
        Ok(ClientHandle::new(client))
    }
}

} // verus!
