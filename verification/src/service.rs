//! The typed service handle: one name, answering through its handler.

use vstd::prelude::*;

use crate::error::Error;
use crate::transport::MockService;

verus! {

/// A service registered under one name; requests are answered by the
/// handler the service was created with.
pub struct Service {
    name: String,
    inner: MockService,
}

impl Service {
    /// The name the service answers under.
    pub closed spec fn spec_name(&self) -> Seq<char> {
        self.name@
    }

    /// Wraps the transport-level service under its name.
    pub(crate) fn new(name: String, inner: MockService) -> (r: Service)
        ensures
            r.spec_name() == name@,
    {
        Service { name, inner }
    }

    /// The name the service answers under.
    pub fn name(&self) -> (r: &str)
        ensures
            r@ == self.spec_name(),
    {
        self.name.as_str()
    }

    /// Closes the service.
    pub fn close(&self) -> (r: Result<(), Error>)
        ensures
            r is Ok,
    {
        self.inner.close()
    }
}

} // verus!
