//! Topology configuration: the registry of known subnets, read as one
//! consistent snapshot per operation. Reloading installs a whole new
//! snapshot; no reader ever observes a partially updated registry.

use vstd::prelude::*;

use crate::ids::Address;
use crate::ids::SubnetID;

verus! {

/// A subnet declaration in the topology registry.
#[derive(Debug, Clone)]
pub struct Subnet {
    pub id: SubnetID,
    pub gateway_addr: Address,
    pub network_name: String,
    pub jsonrpc_api_http: String,
    pub jsonrpc_api_ws: Option<String>,
    pub auth_token: Option<String>,
    pub accounts: Vec<Address>,
}

/// Two subnet declarations carry the same configuration, field for field.
pub open spec fn subnet_config_eq(a: Subnet, b: Subnet) -> bool {
    &&& a.id@ == b.id@
    &&& a.gateway_addr@ == b.gateway_addr@
    &&& a.network_name@ == b.network_name@
    &&& a.jsonrpc_api_http@ == b.jsonrpc_api_http@
    &&& opt_text_eq(a.jsonrpc_api_ws, b.jsonrpc_api_ws)
    &&& opt_text_eq(a.auth_token, b.auth_token)
    &&& a.accounts.deep_view() == b.accounts.deep_view()
}

/// Two optional texts are both absent or carry the same characters.
pub open spec fn opt_text_eq(a: Option<String>, b: Option<String>) -> bool {
    match (a, b) {
        (Option::None, Option::None) => true,
        (Option::Some(x), Option::Some(y)) => x@ == y@,
        _ => false,
    }
}

/// A field-for-field copy of a subnet declaration.
pub fn clone_subnet(s: &Subnet) -> (r: Subnet)
    ensures
        subnet_config_eq(r, *s),
{
    let jsonrpc_api_ws = match &s.jsonrpc_api_ws {
        Some(w) => Some(w.clone()),
        None => None,
    };
    let auth_token = match &s.auth_token {
        Some(t) => Some(t.clone()),
        None => None,
    };
    let mut accounts: Vec<Address> = Vec::new();
    let mut i: usize = 0;
    while i < s.accounts.len()
        invariant
            i <= s.accounts@.len(),
            accounts.deep_view() == s.accounts.deep_view().take(i as int),
        decreases s.accounts@.len() - i,
    {
        let ghost old_deep = accounts.deep_view();
        accounts.push(Address::new(s.accounts[i].as_text().to_owned()));
        proof {
            assert(accounts.deep_view() =~= old_deep.push(s.accounts.deep_view()[i as int]));
            assert(accounts.deep_view() =~= s.accounts.deep_view().take(i as int + 1));
        }
        i = i + 1;
    }
    proof {
        assert(accounts.deep_view().take(s.accounts@.len() as int) =~= accounts.deep_view());
        assert(s.accounts.deep_view().take(s.accounts@.len() as int) =~= s.accounts.deep_view());
    }
    Subnet {
        id: s.id.duplicate(),
        gateway_addr: Address::new(s.gateway_addr.as_text().to_owned()),
        network_name: s.network_name.clone(),
        jsonrpc_api_http: s.jsonrpc_api_http.clone(),
        jsonrpc_api_ws,
        auth_token,
        accounts,
    }
}

/// The first registry entry carrying the given identifier, if any.
pub open spec fn find_subnet(entries: Seq<Subnet>, id: Seq<Seq<char>>) -> Option<Subnet>
    decreases entries.len(),
{
    if entries.len() == 0 {
        None
    } else if entries[0].id@ == id {
        Some(entries[0])
    } else {
        find_subnet(entries.drop_first(), id)
    }
}

/// One configuration snapshot: the registry of known subnets, one entry per
/// subnet.
#[derive(Debug, Clone)]
pub struct Config {
    pub subnets: Vec<Subnet>,
}

/// Every identifier appears at most once: the identifier is the registry key.
pub open spec fn unique_ids(entries: Seq<Subnet>) -> bool {
    forall|i: int, j: int|
        0 <= i < j < entries.len() ==> (#[trigger] entries[i].id@) != (#[trigger] entries[j].id@)
}

/// Law: in a registry whose identifiers are unique, the lookup finds exactly
/// the entry that carries the identifier, wherever it stands.
pub proof fn lemma_unique_registry_lookup(entries: Seq<Subnet>, id: Seq<Seq<char>>, j: int)
    requires
        unique_ids(entries),
        0 <= j < entries.len(),
        entries[j].id@ == id,
    ensures
        find_subnet(entries, id) == Some(entries[j]),
    decreases j,
{
    if entries[0].id@ == id {
        assert(j == 0);
    } else {
        assert(j > 0);
        assert forall|a: int, b: int|
            0 <= a < b < entries.drop_first().len() implies (#[trigger] entries.drop_first()[a].id@)
            != (#[trigger] entries.drop_first()[b].id@) by {
            assert(entries[a + 1].id@ != entries[b + 1].id@);
        }
        lemma_unique_registry_lookup(entries.drop_first(), id, j - 1);
        assert(entries.drop_first()[j - 1] == entries[j]);
    }
}

impl Config {
    /// Every identifier appears at most once: the identifier is the registry
    /// key.
    pub open spec fn well_formed(&self) -> bool {
        unique_ids(self.subnets@)
    }

    /// Looks up a subnet by exact identifier match; `None` exactly when the
    /// identifier is absent from this snapshot.
    pub fn get_subnet(&self, id: &SubnetID) -> (r: Option<&Subnet>)
        ensures
            match r {
                Some(s) => find_subnet(self.subnets@, id@) == Some(*s),
                None => find_subnet(self.subnets@, id@) is None,
            },
    {
        let mut i: usize = 0;
        proof {
            assert(self.subnets@.skip(0) =~= self.subnets@);
        }
        while i < self.subnets.len()
            invariant
                i <= self.subnets@.len(),
                find_subnet(self.subnets@, id@) == find_subnet(
                    self.subnets@.skip(i as int),
                    id@,
                ),
            decreases self.subnets@.len() - i,
        {
            proof {
                assert(self.subnets@.skip(i as int).drop_first() =~= self.subnets@.skip(
                    i as int + 1,
                ));
                assert(self.subnets@.skip(i as int)[0] == self.subnets@[i as int]);
            }
            if self.subnets[i].id.same_id(id) {
                return Some(&self.subnets[i]);
            }
            i = i + 1;
        }
        proof {
            assert(self.subnets@.skip(self.subnets@.len() as int) =~= Seq::<Subnet>::empty());
        }
        None
    }
}

/// The holder of the current configuration snapshot. A reader takes one
/// immutable snapshot for the duration of its operation; a reload publishes a
/// whole new snapshot in its place through `set_config`. How the holder is
/// shared so that a reloader and concurrent readers meet is the runtime's
/// concern; this type states only the read contract: every read sees one
/// complete snapshot.
#[derive(Debug)]
pub struct ReloadableConfig {
    config: Config,
}

impl ReloadableConfig {
    /// The current snapshot.
    pub closed spec fn snapshot(&self) -> Config {
        self.config
    }

    /// Starts from an initial snapshot.
    pub fn new(config: Config) -> (r: ReloadableConfig)
        ensures
            r.snapshot() == config,
    {
        ReloadableConfig { config }
    }

    /// Reads the current snapshot.
    pub fn get_config(&self) -> (r: &Config)
        ensures
            *r == self.snapshot(),
    {
        &self.config
    }

    /// Publishes a new snapshot in place of the old one.
    pub fn set_config(&mut self, config: Config)
        ensures
            final (self).snapshot() == config,
    {
        self.config = config;
    }
}

} // verus!
