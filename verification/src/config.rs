//! The configuration that a node runs with, and how it is resolved from a
//! partial one.
use crate::address::{copy_addresses, NetworkAddress};
use crate::defaults;
use crate::duration::Duration;
use crate::encode::representable;
use crate::environment::Environment;
use crate::error::ParseErrorView;
use crate::loaders::toml::{loaded, Error};
use crate::path::FilePath;
use crate::render::rendered;
use vstd::prelude::*;

pub mod partial;

verus! {

/// The settings of a node.
#[derive(Debug, Eq)]
pub struct Config {
    /// The environment in which the node runs.
    pub environment: Environment,
    /// The settings of the node's connections.
    pub connections: Connections,
    /// The settings of the node's storage.
    pub storage: Storage,
    /// The settings of the node's JSON-RPC interface.
    pub jsonrpc: JsonRPC,
}

/// The settings of the connections.
#[derive(Debug, Eq)]
pub struct Connections {
    /// The address at which the node listens.
    pub server_addr: NetworkAddress,
    /// The most inbound connections that the node keeps.
    pub inbound_limit: u16,
    /// The peers that the node knows from the start, in the order given.
    pub known_peers: Vec<NetworkAddress>,
    /// The time between two attempts to find peers.
    pub bootstrap_peers_period: Duration,
    /// The time between two writes of the known peers to storage.
    pub storage_peers_period: Duration,
    /// The time after which a handshake is given up.
    pub handshake_timeout: Duration,
}

/// The settings of the storage.
#[derive(Debug, Eq)]
pub struct Storage {
    /// The path of the database.
    pub db_path: FilePath,
}

/// The settings of the JSON-RPC interface.
#[derive(Debug, Clone, Copy, Eq)]
pub struct JsonRPC {
    /// Whether the interface is served.
    pub enabled: bool,
    /// The address at which the interface is served.
    pub server_address: NetworkAddress,
}

/// What a [`Config`] holds.
pub struct ConfigView {
    pub environment: Environment,
    pub connections: ConnectionsView,
    pub storage: StorageView,
    pub jsonrpc: JsonRPC,
}

/// What a [`Connections`] holds.
pub struct ConnectionsView {
    pub server_addr: NetworkAddress,
    pub inbound_limit: u16,
    pub known_peers: Seq<NetworkAddress>,
    pub bootstrap_peers_period: Duration,
    pub storage_peers_period: Duration,
    pub handshake_timeout: Duration,
}

/// What a [`Storage`] holds.
pub struct StorageView {
    pub db_path: Seq<char>,
}

impl View for Connections {
    type V = ConnectionsView;

    open spec fn view(&self) -> ConnectionsView {
        ConnectionsView {
            server_addr: self.server_addr,
            inbound_limit: self.inbound_limit,
            known_peers: self.known_peers@,
            bootstrap_peers_period: self.bootstrap_peers_period,
            storage_peers_period: self.storage_peers_period,
            handshake_timeout: self.handshake_timeout,
        }
    }
}

impl View for Storage {
    type V = StorageView;

    open spec fn view(&self) -> StorageView {
        StorageView { db_path: self.db_path@ }
    }
}

impl View for Config {
    type V = ConfigView;

    open spec fn view(&self) -> ConfigView {
        ConfigView {
            environment: self.environment,
            connections: self.connections@,
            storage: self.storage@,
            jsonrpc: self.jsonrpc,
        }
    }
}

impl Clone for Connections {
    fn clone(&self) -> (res: Connections)
        ensures
            res@ == self@,
    {
        Connections {
            server_addr: self.server_addr,
            inbound_limit: self.inbound_limit,
            known_peers: copy_addresses(&self.known_peers),
            bootstrap_peers_period: self.bootstrap_peers_period,
            storage_peers_period: self.storage_peers_period,
            handshake_timeout: self.handshake_timeout,
        }
    }
}

impl Clone for Storage {
    fn clone(&self) -> (res: Storage)
        ensures
            res@ == self@,
    {
        Storage { db_path: self.db_path.clone() }
    }
}

impl Clone for Config {
    fn clone(&self) -> (res: Config)
        ensures
            res@ == self@,
    {
        Config {
            environment: self.environment,
            connections: self.connections.clone(),
            storage: self.storage.clone(),
            jsonrpc: self.jsonrpc,
        }
    }
}

impl PartialEq for Connections {
    /// Whether the two hold the same: every setting with one value, and the
    /// same peers in the same order.
    fn eq(&self, other: &Connections) -> (res: bool) {
        let same = self.server_addr == other.server_addr && self.inbound_limit
            == other.inbound_limit && self.known_peers == other.known_peers
            && self.bootstrap_peers_period == other.bootstrap_peers_period
            && self.storage_peers_period == other.storage_peers_period && self.handshake_timeout
            == other.handshake_timeout;
        proof {
            if same {
                assert(self.known_peers@ =~= other.known_peers@);
            }
        }
        same
    }
}

impl vstd::std_specs::cmp::PartialEqSpecImpl for Connections {
    open spec fn obeys_eq_spec() -> bool {
        true
    }

    open spec fn eq_spec(&self, other: &Connections) -> bool {
        self@ == other@
    }
}

impl PartialEq for Storage {
    /// Whether the two hold the same path.
    fn eq(&self, other: &Storage) -> (res: bool) {
        self.db_path == other.db_path
    }
}

impl vstd::std_specs::cmp::PartialEqSpecImpl for Storage {
    open spec fn obeys_eq_spec() -> bool {
        true
    }

    open spec fn eq_spec(&self, other: &Storage) -> bool {
        self@ == other@
    }
}

impl PartialEq for JsonRPC {
    /// Whether the two hold the same: every setting with one value.
    fn eq(&self, other: &JsonRPC) -> (res: bool) {
        self.enabled == other.enabled && self.server_address == other.server_address
    }
}

impl vstd::std_specs::cmp::PartialEqSpecImpl for JsonRPC {
    open spec fn obeys_eq_spec() -> bool {
        true
    }

    open spec fn eq_spec(&self, other: &JsonRPC) -> bool {
        *self == *other
    }
}

impl PartialEq for Config {
    /// Whether the two hold the same: every setting with one value.
    fn eq(&self, other: &Config) -> (res: bool) {
        self.environment == other.environment && self.connections == other.connections
            && self.storage == other.storage && self.jsonrpc == other.jsonrpc
    }
}

impl vstd::std_specs::cmp::PartialEqSpecImpl for Config {
    open spec fn obeys_eq_spec() -> bool {
        true
    }

    open spec fn eq_spec(&self, other: &Config) -> bool {
        self@ == other@
    }
}

/// The setting that is in force: the one given, or else the default.
pub open spec fn given_or<T>(given: Option<T>, default: T) -> T {
    match given {
        Some(value) => value,
        None => default,
    }
}

/// The connections that `partial` resolves to.
pub open spec fn resolved_connections(partial: partial::ConnectionsView) -> ConnectionsView {
    let default = defaults::config().connections;
    ConnectionsView {
        server_addr: given_or(partial.server_addr, default.server_addr),
        inbound_limit: given_or(partial.inbound_limit, default.inbound_limit),
        known_peers: partial.known_peers,
        bootstrap_peers_period: given_or(
            partial.bootstrap_peers_period,
            default.bootstrap_peers_period,
        ),
        storage_peers_period: given_or(partial.storage_peers_period, default.storage_peers_period),
        handshake_timeout: given_or(partial.handshake_timeout, default.handshake_timeout),
    }
}

/// The storage that `partial` resolves to.
pub open spec fn resolved_storage(partial: partial::StorageView) -> StorageView {
    StorageView { db_path: given_or(partial.db_path, defaults::config().storage.db_path) }
}

/// The JSON-RPC interface that `partial` resolves to.
pub open spec fn resolved_jsonrpc(partial: partial::JsonRPC) -> JsonRPC {
    let default = defaults::config().jsonrpc;
    JsonRPC {
        enabled: given_or(partial.enabled, default.enabled),
        server_address: given_or(partial.server_address, default.server_address),
    }
}

/// The configuration that `partial` resolves to: each setting as `partial`
/// gives it, and where it gives none, as the defaults have it.
pub open spec fn resolved(partial: partial::ConfigView) -> ConfigView {
    ConfigView {
        environment: given_or(partial.environment, defaults::config().environment),
        connections: resolved_connections(partial.connections),
        storage: resolved_storage(partial.storage),
        jsonrpc: resolved_jsonrpc(partial.jsonrpc),
    }
}

/// Resolves a partial configuration: every setting that it gives is kept,
/// and every setting that it leaves out takes its default.  No setting
/// bears on another, and nothing is refused.
pub fn resolve(partial: partial::Config) -> (res: Config)
    ensures
        res@ == resolved(partial@),
{
    let connections = partial.connections;
    let jsonrpc = partial.jsonrpc;
    Config {
        environment: match partial.environment {
            Some(environment) => environment,
            None => defaults::environment(),
        },
        connections: Connections {
            server_addr: match connections.server_addr {
                Some(address) => address,
                None => defaults::connections_server_addr(),
            },
            inbound_limit: match connections.inbound_limit {
                Some(limit) => limit,
                None => defaults::connections_inbound_limit(),
            },
            known_peers: connections.known_peers,
            bootstrap_peers_period: match connections.bootstrap_peers_period {
                Some(period) => period,
                None => defaults::connections_bootstrap_peers_period(),
            },
            storage_peers_period: match connections.storage_peers_period {
                Some(period) => period,
                None => defaults::connections_storage_peers_period(),
            },
            handshake_timeout: match connections.handshake_timeout {
                Some(timeout) => timeout,
                None => defaults::connections_handshake_timeout(),
            },
        },
        storage: Storage {
            db_path: match partial.storage.db_path {
                Some(path) => path,
                None => defaults::storage_db_path(),
            },
        },
        jsonrpc: JsonRPC {
            enabled: match jsonrpc.enabled {
                Some(enabled) => enabled,
                None => defaults::jsonrpc_enabled(),
            },
            server_address: match jsonrpc.server_address {
                Some(address) => address,
                None => defaults::jsonrpc_server_address(),
            },
        },
    }
}

/// The partial configuration in which every setting is present and has the
/// value that it has in `config`.
pub open spec fn settings_of(config: ConfigView) -> partial::ConfigView {
    partial::ConfigView {
        environment: Some(config.environment),
        connections: partial::ConnectionsView {
            server_addr: Some(config.connections.server_addr),
            inbound_limit: Some(config.connections.inbound_limit),
            known_peers: config.connections.known_peers,
            bootstrap_peers_period: Some(config.connections.bootstrap_peers_period),
            storage_peers_period: Some(config.connections.storage_peers_period),
            handshake_timeout: Some(config.connections.handshake_timeout),
        },
        storage: partial::StorageView { db_path: Some(config.storage.db_path) },
        jsonrpc: partial::JsonRPC {
            enabled: Some(config.jsonrpc.enabled),
            server_address: Some(config.jsonrpc.server_address),
        },
    }
}

/// The configuration of which nothing is set resolves to the defaults.
pub proof fn lemma_resolve_empty()
    ensures
        resolved(partial::ConfigView::empty()) == defaults::config(),
{
}

/// A period or a timeout that is left out resolves to a span that is not
/// zero.
pub proof fn lemma_absent_spans_resolve_positive(partial: partial::ConfigView)
    ensures
        partial.connections.bootstrap_peers_period is None ==> resolved(
            partial,
        ).connections.bootstrap_peers_period.secs > 0,
        partial.connections.storage_peers_period is None ==> resolved(
            partial,
        ).connections.storage_peers_period.secs > 0,
        partial.connections.handshake_timeout is None ==> resolved(
            partial,
        ).connections.handshake_timeout.secs > 0,
{
}

/// No setting bears on another: two partial configurations that agree on a
/// setting resolve to configurations that agree on it, whatever their other
/// settings are.
pub proof fn lemma_resolve_setting_by_setting(first: partial::ConfigView, second: partial::ConfigView)
    ensures
        first.environment == second.environment ==> resolved(first).environment == resolved(
            second,
        ).environment,
        first.connections.server_addr == second.connections.server_addr ==> resolved(
            first,
        ).connections.server_addr == resolved(second).connections.server_addr,
        first.connections.inbound_limit == second.connections.inbound_limit ==> resolved(
            first,
        ).connections.inbound_limit == resolved(second).connections.inbound_limit,
        first.connections.known_peers == second.connections.known_peers ==> resolved(
            first,
        ).connections.known_peers == resolved(second).connections.known_peers,
        first.connections.bootstrap_peers_period == second.connections.bootstrap_peers_period
            ==> resolved(first).connections.bootstrap_peers_period == resolved(
            second,
        ).connections.bootstrap_peers_period,
        first.connections.storage_peers_period == second.connections.storage_peers_period
            ==> resolved(first).connections.storage_peers_period == resolved(
            second,
        ).connections.storage_peers_period,
        first.connections.handshake_timeout == second.connections.handshake_timeout ==> resolved(
            first,
        ).connections.handshake_timeout == resolved(second).connections.handshake_timeout,
        first.storage.db_path == second.storage.db_path ==> resolved(first).storage.db_path
            == resolved(second).storage.db_path,
        first.jsonrpc.enabled == second.jsonrpc.enabled ==> resolved(first).jsonrpc.enabled
            == resolved(second).jsonrpc.enabled,
        first.jsonrpc.server_address == second.jsonrpc.server_address ==> resolved(
            first,
        ).jsonrpc.server_address == resolved(second).jsonrpc.server_address,
{
}

/// Two partial configurations that hold the same resolve to the same.
pub proof fn lemma_resolve_is_deterministic(first: partial::Config, second: partial::Config)
    requires
        first@ == second@,
    ensures
        resolved(first@) == resolved(second@),
{
}

/// A configuration in which every setting is given resolves to itself, so
/// resolving what was resolved changes nothing.
pub proof fn lemma_resolve_is_idempotent(partial: partial::ConfigView)
    ensures
        resolved(settings_of(resolved(partial))) == resolved(partial),
{
    lemma_resolve_settings(resolved(partial));
}

/// A configuration in which every setting is given resolves to those
/// settings: no default comes in.
pub proof fn lemma_resolve_settings(config: ConfigView)
    ensures
        resolved(settings_of(config)) == config,
{
}

/// Whether `res` is the configuration that `expected` resolves to, or a
/// [`Error::ParseError`] with the error that `expected` holds.
pub open spec fn is_resolved(
    res: Result<Config, Error>,
    expected: Result<partial::ConfigView, ParseErrorView>,
) -> bool {
    match expected {
        Ok(partial) => res matches Ok(found) && found@ == resolved(partial),
        Err(error) => res matches Err(Error::ParseError(found)) && found@ == error,
    }
}

impl Config {
    /// The partial configuration in which every setting is present and has
    /// the value that it has here.
    pub fn to_partial(&self) -> (res: partial::Config)
        ensures
            res@ == settings_of(self@),
    {
        partial::Config {
            environment: Some(self.environment),
            connections: partial::Connections {
                server_addr: Some(self.connections.server_addr),
                inbound_limit: Some(self.connections.inbound_limit),
                known_peers: copy_addresses(&self.connections.known_peers),
                bootstrap_peers_period: Some(self.connections.bootstrap_peers_period),
                storage_peers_period: Some(self.connections.storage_peers_period),
                handshake_timeout: Some(self.connections.handshake_timeout),
            },
            storage: partial::Storage { db_path: Some(self.storage.db_path.clone()) },
            jsonrpc: partial::JsonRPC {
                enabled: Some(self.jsonrpc.enabled),
                server_address: Some(self.jsonrpc.server_address),
            },
        }
    }

    /// Writes the configuration as TOML text, every setting with its value.
    ///
    /// TOML holds no integer above `i64::MAX`: where a span of time has more
    /// seconds than that, there is no text.
    pub fn render(&self) -> (res: Option<String>)
        ensures
            match res {
                Some(text) => representable(settings_of(self@)) && text@ == rendered(
                    settings_of(self@),
                ),
                None => !representable(settings_of(self@)),
            },
    {
        crate::render::render(&self.to_partial())
    }

    /// Loads a configuration from a string written in TOML: the string is
    /// loaded as a partial configuration, which is then resolved.
    pub fn from_text(text: &str) -> (res: Result<Config, Error>)
        ensures
            is_resolved(res, loaded(text@)),
    {
        match crate::loaders::toml::from_str(text) {
            Ok(partial) => Ok(resolve(partial)),
            Err(error) => Err(error),
        }
    }

    /// Loads a configuration from what reading a file gave: the error of
    /// reading as a [`Error::IOError`], or else what the contents of the
    /// file write, resolved.
    pub fn from_file(contents: Result<String, std::io::Error>) -> (res: Result<Config, Error>)
        ensures
            match contents {
                Ok(text) => is_resolved(res, loaded(text@)),
                Err(error) => res == Err::<Config, Error>(Error::IOError(error)),
            },
    {
        match crate::loaders::toml::from_file(contents) {
            Ok(partial) => Ok(resolve(partial)),
            Err(error) => Err(error),
        }
    }
}

impl Default for Config {
    /// The configuration in which every setting has its default.
    fn default() -> (res: Config)
        ensures
            res@ == defaults::config(),
            res@ == resolved(partial::ConfigView::empty()),
    {
        resolve(partial::Config::default())
    }
}

} // verus!
