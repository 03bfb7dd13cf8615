//! The subnet connection pool: resolves a subnet's identity against the
//! current configuration snapshot and constructs a fresh facade on demand.

use vstd::prelude::*;

use std::sync::Arc;

use crate::client::LotusJsonRPCClient;
use crate::config::Config;
use crate::config::ReloadableConfig;
use crate::config::Subnet;
use crate::config::find_subnet;
use crate::config::subnet_config_eq;
use crate::config::clone_subnet;
use crate::ids::SubnetID;
use crate::jsonrpc::JsonRpcClient;

verus! {

/// An immutable pairing of one subnet's configuration with one freshly
/// constructed facade bound to that configuration's endpoint. It lives for
/// the single request that asked for it and is not cached.
pub struct Connection<T: JsonRpcClient> {
    subnet: Subnet,
    manager: LotusJsonRPCClient<T>,
}

impl<T: JsonRpcClient> Connection<T> {
    /// The subnet configuration this connection serves.
    pub closed spec fn subnet_view(&self) -> Subnet {
        self.subnet
    }

    /// The subnet configuration this connection serves.
    pub fn subnet(&self) -> (r: &Subnet)
        ensures
            *r == self.subnet_view(),
    {
        &self.subnet
    }

    /// The facade this connection carries.
    pub closed spec fn manager_view(&self) -> LotusJsonRPCClient<T> {
        self.manager
    }

    /// The facade bound to this subnet's endpoint.
    pub fn manager(&self) -> (r: &LotusJsonRPCClient<T>)
        ensures
            *r == self.manager_view(),
    {
        &self.manager
    }
}

/// The connection pool shared by every subnet operation. It holds the
/// reloadable configuration; each lookup reads the then-current snapshot, so
/// no reader ever observes a partially reloaded registry.
pub struct SubnetManagerPool {
    config: Arc<ReloadableConfig>,
}

impl SubnetManagerPool {
    /// The current configuration snapshot.
    pub closed spec fn snapshot(&self) -> Config {
        self.config.snapshot()
    }

    /// Wraps the reloadable configuration.
    pub fn from_reload_config(reload_config: Arc<ReloadableConfig>) -> (r: SubnetManagerPool)
        ensures
            r.snapshot() == reload_config.snapshot(),
    {
        SubnetManagerPool { config: reload_config }
    }

    /// Resolves a subnet to a connection. The result is a pure function of
    /// the snapshot read and the identifier: `None` exactly when the
    /// identifier is absent from that snapshot, and otherwise a connection
    /// whose configuration is the registered entry, with a fresh facade bound
    /// to it.
    pub fn get<T: JsonRpcClient>(&self, subnet: &SubnetID) -> (r: Option<Connection<T>>)
        ensures
            r is Some <==> find_subnet(self.snapshot().subnets@, subnet@) is Some,
            r matches Some(conn) ==> (find_subnet(self.snapshot().subnets@, subnet@) matches Some(
                entry,
            ) && subnet_config_eq(conn.subnet_view(), entry)),
    {
        let config = self.config.get_config();
        match config.get_subnet(subnet) {
            Some(entry) => {
                let manager = LotusJsonRPCClient::<T>::from_subnet(entry);
                Some(Connection { manager, subnet: clone_subnet(entry) })
            },
            None => None,
        }
    }
}

} // verus!
