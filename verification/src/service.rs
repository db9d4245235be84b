//! Service plumbing: wiring public API endpoints and creating service
//! instances for the node builder.

use vstd::prelude::*;

verus! {

/// Unique service ID.
pub const TEST_SERVICE_ID: u16 = 127;

/// One scope of wired endpoints, identified by their names.
#[derive(Debug)]
pub struct ApiScope {
    /// The names of the wired endpoints, in wiring order.
    pub endpoints: Vec<String>,
}

impl ApiScope {
    /// A scope with nothing wired.
    pub fn new() -> (r: Self)
        ensures
            r.endpoints@.len() == 0,
    {
        ApiScope { endpoints: Vec::new() }
    }

    /// Wires one endpoint under the given name.
    pub fn endpoint(&mut self, name: &str)
        ensures
            final(self).endpoints@.len() == old(self).endpoints@.len() + 1,
            final(self).endpoints@[old(self).endpoints@.len() as int]@ == name@,
            forall|i: int| 0 <= i < old(self).endpoints@.len()
                ==> final(self).endpoints@[i] == old(self).endpoints@[i],
    {
        self.endpoints.push(name.to_owned());
    }
}

/// Builder of the service's HTTP API: collects the endpoints a service
/// exposes.
#[derive(Debug)]
pub struct ServiceApiBuilder {
    /// Endpoints available to outside users.
    pub public_scope: ApiScope,
}

impl ServiceApiBuilder {
    /// A builder with nothing wired yet.
    pub fn new() -> (r: Self)
        ensures
            r.public_scope.endpoints@.len() == 0,
    {
        ServiceApiBuilder { public_scope: ApiScope::new() }
    }
}

/// Public service API description.
#[derive(Debug, Clone, Copy)]
pub struct PublicApi;

impl PublicApi {
    /// Wires the wallet-information endpoint to the public scope of the
    /// given builder.
    pub fn wire(builder: &mut ServiceApiBuilder)
        ensures
            final(builder).public_scope.endpoints@.len() == old(
                builder,
            ).public_scope.endpoints@.len() + 1,
            final(builder).public_scope.endpoints@[old(builder).public_scope.endpoints@.len()
                as int]@ == "v1/wallets/test"@,
            forall|i: int| 0 <= i < old(builder).public_scope.endpoints@.len()
                ==> final(builder).public_scope.endpoints@[i] == old(
                builder,
            ).public_scope.endpoints@[i],
    {
        builder.public_scope.endpoint("v1/wallets/test");
    }
}

/// The service implementation.
#[derive(Default, Debug)]
pub struct Service;

impl Service {
    /// The unique numeric identifier of the service.
    pub fn service_id(&self) -> (r: u16)
        ensures
            r == TEST_SERVICE_ID,
    {
        TEST_SERVICE_ID
    }

    /// The unique name of the service.
    pub fn service_name(&self) -> (r: &'static str)
        ensures
            r@ == "test"@,
    {
        "test"
    }

    /// Wires the service's endpoints into the given builder.
    pub fn wire_api(&self, builder: &mut ServiceApiBuilder)
        ensures
            final(builder).public_scope.endpoints@.len() == old(
                builder,
            ).public_scope.endpoints@.len() + 1,
            final(builder).public_scope.endpoints@[old(builder).public_scope.endpoints@.len()
                as int]@ == "v1/wallets/test"@,
    {
        PublicApi::wire(builder);
    }
}

/// A service creator for the node builder.
#[derive(Debug)]
pub struct ServiceFactory;

impl ServiceFactory {
    /// The unique name of the created service.
    pub fn service_name(&self) -> (r: &'static str)
        ensures
            r@ == "test"@,
    {
        "test"
    }

    /// Creates a fresh service instance.
    pub fn make_service(&mut self) -> (r: Service) {
        Service
    }
}

} // verus!
