//! The default of every setting.
//!
//! [`config`] is the one table of the defaults.  The functions beside it
//! hand out its entries one by one.
use crate::address::NetworkAddress;
use crate::config::{ConfigView, ConnectionsView, JsonRPC, StorageView};
use crate::duration::Duration;
use crate::environment::Environment;
use crate::path::FilePath;
use vstd::prelude::*;
use vstd::string::*;

verus! {

/// The port at which a node listens.
pub const CONNECTIONS_SERVER_PORT: u16 = 21337;

/// The most inbound connections that a node keeps.
pub const CONNECTIONS_INBOUND_LIMIT: u16 = 128;

/// The seconds between two attempts to find peers.
pub const CONNECTIONS_BOOTSTRAP_PEERS_PERIOD: u64 = 5;

/// The seconds between two writes of the known peers to storage.
pub const CONNECTIONS_STORAGE_PEERS_PERIOD: u64 = 30;

/// The seconds after which a handshake is given up.
pub const CONNECTIONS_HANDSHAKE_TIMEOUT: u64 = 10;

/// The port at which the JSON-RPC interface is served.
pub const JSONRPC_SERVER_PORT: u16 = 21338;

/// The host `127.0.0.1` at the port `port`.
pub open spec fn loopback(port: u16) -> NetworkAddress {
    NetworkAddress { host: [127u8, 0u8, 0u8, 1u8], port }
}

/// The configuration in which every setting has its default.
pub open spec fn config() -> ConfigView {
    ConfigView {
        environment: Environment::Mainnet,
        connections: ConnectionsView {
            server_addr: loopback(CONNECTIONS_SERVER_PORT),
            inbound_limit: CONNECTIONS_INBOUND_LIMIT,
            known_peers: Seq::empty(),
            bootstrap_peers_period: Duration { secs: CONNECTIONS_BOOTSTRAP_PEERS_PERIOD },
            storage_peers_period: Duration { secs: CONNECTIONS_STORAGE_PEERS_PERIOD },
            handshake_timeout: Duration { secs: CONNECTIONS_HANDSHAKE_TIMEOUT },
        },
        storage: StorageView { db_path: ".wit"@ },
        jsonrpc: JsonRPC { enabled: true, server_address: loopback(JSONRPC_SERVER_PORT) },
    }
}

/// The host `127.0.0.1` at the port `port`.
fn loopback_at(port: u16) -> (res: NetworkAddress)
    ensures
        res == loopback(port),
{
    NetworkAddress { host: [127u8, 0u8, 0u8, 1u8], port }
}

/// The default environment: the main network.
pub fn environment() -> (res: Environment)
    ensures
        res == config().environment,
{
    Environment::Mainnet
}

/// The default address at which a node listens.
pub fn connections_server_addr() -> (res: NetworkAddress)
    ensures
        res == config().connections.server_addr,
{
    loopback_at(CONNECTIONS_SERVER_PORT)
}

/// The default limit of inbound connections.
pub fn connections_inbound_limit() -> (res: u16)
    ensures
        res == config().connections.inbound_limit,
{
    CONNECTIONS_INBOUND_LIMIT
}

/// The default list of known peers: the empty list.
pub fn connections_known_peers() -> (res: Vec<NetworkAddress>)
    ensures
        res@ == config().connections.known_peers,
{
    Vec::new()
}

/// The default time between two attempts to find peers.
pub fn connections_bootstrap_peers_period() -> (res: Duration)
    ensures
        res == config().connections.bootstrap_peers_period,
{
    Duration::from_secs(CONNECTIONS_BOOTSTRAP_PEERS_PERIOD)
}

/// The default time between two writes of the known peers to storage.
pub fn connections_storage_peers_period() -> (res: Duration)
    ensures
        res == config().connections.storage_peers_period,
{
    Duration::from_secs(CONNECTIONS_STORAGE_PEERS_PERIOD)
}

/// The default time after which a handshake is given up.
pub fn connections_handshake_timeout() -> (res: Duration)
    ensures
        res == config().connections.handshake_timeout,
{
    Duration::from_secs(CONNECTIONS_HANDSHAKE_TIMEOUT)
}

/// The default path of the database.
pub fn storage_db_path() -> (res: FilePath)
    ensures
        res@ == config().storage.db_path,
{
    FilePath { text: String::from_str(".wit") }
}

/// Whether the JSON-RPC interface is served by default: it is.
pub fn jsonrpc_enabled() -> (res: bool)
    ensures
        res == config().jsonrpc.enabled,
{
    true
}

/// The default address at which the JSON-RPC interface is served.
pub fn jsonrpc_server_address() -> (res: NetworkAddress)
    ensures
        res == config().jsonrpc.server_address,
{
    loopback_at(JSONRPC_SERVER_PORT)
}

/// The default periods and the default timeout are three different spans,
/// none of them zero, and the default limit of inbound connections is not
/// zero either.
pub proof fn lemma_defaults_are_positive()
    ensures
        config().connections.inbound_limit > 0,
        config().connections.bootstrap_peers_period.secs > 0,
        config().connections.storage_peers_period.secs > 0,
        config().connections.handshake_timeout.secs > 0,
        config().connections.bootstrap_peers_period != config().connections.storage_peers_period,
        config().connections.bootstrap_peers_period != config().connections.handshake_timeout,
        config().connections.storage_peers_period != config().connections.handshake_timeout,
{
}

} // verus!
