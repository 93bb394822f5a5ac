//! A configuration of which any part may be missing.
//!
//! A partial configuration records what a document says and nothing else: a
//! setting that the document leaves out is absent here, which is not the
//! same as holding the default.  A section that the document leaves out is
//! a section in which every setting is absent, and a list that it leaves out
//! is the empty list.
use crate::address::{copy_addresses, NetworkAddress};
use crate::duration::Duration;
use crate::environment::Environment;
use crate::path::FilePath;
use vstd::prelude::*;

verus! {

/// The settings of a node, each of them present or absent.
#[derive(Debug, Eq)]
pub struct Config {
    /// The environment in which the node runs.
    pub environment: Option<Environment>,
    /// The settings of the node's connections.
    pub connections: Connections,
    /// The settings of the node's storage.
    pub storage: Storage,
    /// The settings of the node's JSON-RPC interface.
    pub jsonrpc: JsonRPC,
}

/// The settings of the connections, each of them present or absent.
#[derive(Debug, Eq)]
pub struct Connections {
    /// The address at which the node listens.
    pub server_addr: Option<NetworkAddress>,
    /// The most inbound connections that the node keeps.
    pub inbound_limit: Option<u16>,
    /// The peers that the node knows from the start, in the order given.
    pub known_peers: Vec<NetworkAddress>,
    /// The time between two attempts to find peers.
    pub bootstrap_peers_period: Option<Duration>,
    /// The time between two writes of the known peers to storage.
    pub storage_peers_period: Option<Duration>,
    /// The time after which a handshake is given up.
    pub handshake_timeout: Option<Duration>,
}

/// The settings of the storage, each of them present or absent.
#[derive(Debug, Eq)]
pub struct Storage {
    /// The path of the database.
    pub db_path: Option<FilePath>,
}

/// The settings of the JSON-RPC interface, each of them present or absent.
#[derive(Debug, Clone, Copy, Eq)]
pub struct JsonRPC {
    /// Whether the interface is served.
    pub enabled: Option<bool>,
    /// The address at which the interface is served.
    pub server_address: Option<NetworkAddress>,
}

/// What a [`Config`] holds.
pub struct ConfigView {
    pub environment: Option<Environment>,
    pub connections: ConnectionsView,
    pub storage: StorageView,
    pub jsonrpc: JsonRPC,
}

/// What a [`Connections`] holds.
pub struct ConnectionsView {
    pub server_addr: Option<NetworkAddress>,
    pub inbound_limit: Option<u16>,
    pub known_peers: Seq<NetworkAddress>,
    pub bootstrap_peers_period: Option<Duration>,
    pub storage_peers_period: Option<Duration>,
    pub handshake_timeout: Option<Duration>,
}

/// What a [`Storage`] holds.
pub struct StorageView {
    pub db_path: Option<Seq<char>>,
}

impl View for Connections {
    type V = ConnectionsView;

    open spec fn view(&self) -> ConnectionsView {
        ConnectionsView {
            server_addr: self.server_addr,
            inbound_limit: self.inbound_limit,
            known_peers: self.known_peers@,
            bootstrap_peers_period: self.bootstrap_peers_period,
            storage_peers_period: self.storage_peers_period,
            handshake_timeout: self.handshake_timeout,
        }
    }
}

impl View for Storage {
    type V = StorageView;

    open spec fn view(&self) -> StorageView {
        StorageView {
            db_path: match self.db_path {
                Some(path) => Some(path@),
                None => None,
            },
        }
    }
}

impl View for Config {
    type V = ConfigView;

    open spec fn view(&self) -> ConfigView {
        ConfigView {
            environment: self.environment,
            connections: self.connections@,
            storage: self.storage@,
            jsonrpc: self.jsonrpc,
        }
    }
}

impl ConnectionsView {
    /// The connections of which nothing is set.
    pub open spec fn empty() -> ConnectionsView {
        ConnectionsView {
            server_addr: None,
            inbound_limit: None,
            known_peers: Seq::empty(),
            bootstrap_peers_period: None,
            storage_peers_period: None,
            handshake_timeout: None,
        }
    }
}

impl StorageView {
    /// The storage of which nothing is set.
    pub open spec fn empty() -> StorageView {
        StorageView { db_path: None }
    }
}

impl JsonRPC {
    /// The interface of which nothing is set.
    pub open spec fn empty() -> JsonRPC {
        JsonRPC { enabled: None, server_address: None }
    }
}

impl ConfigView {
    /// The configuration of which nothing is set.
    pub open spec fn empty() -> ConfigView {
        ConfigView {
            environment: None,
            connections: ConnectionsView::empty(),
            storage: StorageView::empty(),
            jsonrpc: JsonRPC::empty(),
        }
    }
}

impl Clone for Connections {
    fn clone(&self) -> (res: Connections)
        ensures
            res@ == self@,
    {
        Connections {
            server_addr: self.server_addr,
            inbound_limit: self.inbound_limit,
            known_peers: copy_addresses(&self.known_peers),
            bootstrap_peers_period: self.bootstrap_peers_period,
            storage_peers_period: self.storage_peers_period,
            handshake_timeout: self.handshake_timeout,
        }
    }
}

impl Clone for Storage {
    fn clone(&self) -> (res: Storage)
        ensures
            res@ == self@,
    {
        Storage {
            db_path: match &self.db_path {
                Some(path) => Some(path.clone()),
                None => None,
            },
        }
    }
}

impl Clone for Config {
    fn clone(&self) -> (res: Config)
        ensures
            res@ == self@,
    {
        Config {
            environment: self.environment,
            connections: self.connections.clone(),
            storage: self.storage.clone(),
            jsonrpc: self.jsonrpc,
        }
    }
}

impl PartialEq for Connections {
    /// Whether the two hold the same: each setting absent in both, or
    /// present in both with one value, and the same peers in the same order.
    fn eq(&self, other: &Connections) -> (res: bool) {
        let same = self.server_addr == other.server_addr && self.inbound_limit
            == other.inbound_limit && self.known_peers == other.known_peers
            && self.bootstrap_peers_period == other.bootstrap_peers_period
            && self.storage_peers_period == other.storage_peers_period && self.handshake_timeout
            == other.handshake_timeout;
        proof {
            if same {
                assert(self.known_peers@ =~= other.known_peers@);
            }
        }
        same
    }
}

impl vstd::std_specs::cmp::PartialEqSpecImpl for Connections {
    open spec fn obeys_eq_spec() -> bool {
        true
    }

    open spec fn eq_spec(&self, other: &Connections) -> bool {
        self@ == other@
    }
}

impl PartialEq for Storage {
    /// Whether the two hold the same: the path absent in both, or present in
    /// both with one text.
    fn eq(&self, other: &Storage) -> (res: bool) {
        self.db_path == other.db_path
    }
}

impl vstd::std_specs::cmp::PartialEqSpecImpl for Storage {
    open spec fn obeys_eq_spec() -> bool {
        true
    }

    open spec fn eq_spec(&self, other: &Storage) -> bool {
        self@ == other@
    }
}

impl PartialEq for JsonRPC {
    /// Whether the two hold the same: each setting absent in both, or
    /// present in both with one value.
    fn eq(&self, other: &JsonRPC) -> (res: bool) {
        self.enabled == other.enabled && self.server_address == other.server_address
    }
}

impl vstd::std_specs::cmp::PartialEqSpecImpl for JsonRPC {
    open spec fn obeys_eq_spec() -> bool {
        true
    }

    open spec fn eq_spec(&self, other: &JsonRPC) -> bool {
        *self == *other
    }
}

impl PartialEq for Config {
    /// Whether the two hold the same: every setting absent in both, or
    /// present in both with one value.
    fn eq(&self, other: &Config) -> (res: bool) {
        self.environment == other.environment && self.connections == other.connections
            && self.storage == other.storage && self.jsonrpc == other.jsonrpc
    }
}

impl vstd::std_specs::cmp::PartialEqSpecImpl for Config {
    open spec fn obeys_eq_spec() -> bool {
        true
    }

    open spec fn eq_spec(&self, other: &Config) -> bool {
        self@ == other@
    }
}

impl Default for Connections {
    /// The connections of which nothing is set.
    fn default() -> (res: Connections)
        ensures
            res@ == ConnectionsView::empty(),
    {
        Connections {
            server_addr: None,
            inbound_limit: None,
            known_peers: Vec::new(),
            bootstrap_peers_period: None,
            storage_peers_period: None,
            handshake_timeout: None,
        }
    }
}

impl Default for Storage {
    /// The storage of which nothing is set.
    fn default() -> (res: Storage)
        ensures
            res@ == StorageView::empty(),
    {
        Storage { db_path: None }
    }
}

impl Default for JsonRPC {
    /// The interface of which nothing is set.
    fn default() -> (res: JsonRPC)
        ensures
            res == JsonRPC::empty(),
    {
        JsonRPC { enabled: None, server_address: None }
    }
}

impl Default for Config {
    /// The configuration of which nothing is set.
    fn default() -> (res: Config)
        ensures
            res@ == ConfigView::empty(),
    {
        Config {
            environment: None,
            connections: Connections::default(),
            storage: Storage::default(),
            jsonrpc: JsonRPC::default(),
        }
    }
}

} // verus!
