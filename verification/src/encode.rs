//! Writing a partial configuration as a document.
//!
//! The document holds one entry for each setting that is present, the list
//! of known peers, and the table of each section.  Every table holds its
//! entries in the order of their keys, which is the order in which a parsed
//! document holds them.  Reading the document gives the configuration back.
use crate::address::{lemma_address_round_trip, NetworkAddress};
use crate::config::partial::{Config, ConfigView, ConnectionsView, JsonRPC, StorageView};
use crate::config::{lemma_resolve_settings, resolved, settings_of};
use crate::decode::{decoded, peers_of, with_root, with_section, with_setting};
use crate::document::{entries_view, items_view, Item, Node};
use crate::duration::Duration;
use crate::environment::{lemma_environment_round_trip, Environment};
use crate::error::ParseErrorView;
use crate::schema::{lemma_field_keys_differ, lemma_section_keys_differ, Field, Section};
use vstd::prelude::*;
use vstd::string::*;

verus! {

/// The entry that holds `node` under the key of `field`, or no entry where
/// there is no node.
pub open spec fn entry(field: Field, node: Option<Node>) -> Seq<(Seq<char>, Node)> {
    match node {
        Some(node) => seq![(field.key(), node)],
        None => Seq::empty(),
    }
}

/// The entry that holds the table of `section`.
pub open spec fn section_entry(section: Section, entries: Seq<(Seq<char>, Node)>) -> Seq<
    (Seq<char>, Node),
> {
    seq![(section.key(), Node::Table(entries))]
}

/// The node that writes an environment.
pub open spec fn environment_node(given: Option<Environment>) -> Option<Node> {
    match given {
        Some(environment) => Some(Node::Text(environment.token())),
        None => None,
    }
}

/// The node that writes an address.
pub open spec fn address_node(given: Option<NetworkAddress>) -> Option<Node> {
    match given {
        Some(address) => Some(Node::Text(address.text())),
        None => None,
    }
}

/// The node that writes a limit.
pub open spec fn limit_node(given: Option<u16>) -> Option<Node> {
    match given {
        Some(limit) => Some(Node::Integer(limit as int)),
        None => None,
    }
}

/// The node that writes a span of time, in seconds.
pub open spec fn seconds_node(given: Option<Duration>) -> Option<Node> {
    match given {
        Some(duration) => Some(Node::Integer(duration.secs as int)),
        None => None,
    }
}

/// The node that writes a boolean.
pub open spec fn flag_node(given: Option<bool>) -> Option<Node> {
    match given {
        Some(flag) => Some(Node::Boolean(flag)),
        None => None,
    }
}

/// The node that writes a path.
pub open spec fn path_node(given: Option<Seq<char>>) -> Option<Node> {
    match given {
        Some(path) => Some(Node::Text(path)),
        None => None,
    }
}

/// The nodes that write a list of peers, in order.
pub open spec fn peer_nodes(peers: Seq<NetworkAddress>) -> Seq<Node> {
    Seq::new(peers.len(), |i: int| Node::Text(peers[i].text()))
}

/// The entries of the table that writes `connections`.
pub open spec fn connections_entries(connections: ConnectionsView) -> Seq<(Seq<char>, Node)> {
    entry(Field::BootstrapPeersPeriod, seconds_node(connections.bootstrap_peers_period)) + entry(
        Field::HandshakeTimeout,
        seconds_node(connections.handshake_timeout),
    ) + entry(Field::InboundLimit, limit_node(connections.inbound_limit)) + entry(
        Field::KnownPeers,
        Some(Node::Array(peer_nodes(connections.known_peers))),
    ) + entry(Field::ServerAddr, address_node(connections.server_addr)) + entry(
        Field::StoragePeersPeriod,
        seconds_node(connections.storage_peers_period),
    )
}

/// The entries of the table that writes `storage`.
pub open spec fn storage_entries(storage: StorageView) -> Seq<(Seq<char>, Node)> {
    entry(Field::DbPath, path_node(storage.db_path))
}

/// The entries of the table that writes `jsonrpc`.
pub open spec fn jsonrpc_entries(jsonrpc: JsonRPC) -> Seq<(Seq<char>, Node)> {
    entry(Field::Enabled, flag_node(jsonrpc.enabled)) + entry(
        Field::ServerAddress,
        address_node(jsonrpc.server_address),
    )
}

/// The document that writes `config`.
pub open spec fn document_of(config: ConfigView) -> Node {
    Node::Table(
        section_entry(Section::Connections, connections_entries(config.connections)) + entry(
            Field::Environment,
            environment_node(config.environment),
        ) + section_entry(Section::JsonRPC, jsonrpc_entries(config.jsonrpc)) + section_entry(
            Section::Storage,
            storage_entries(config.storage),
        ),
    )
}

/// Whether a span of time can be written as an integer of a document.
pub open spec fn fits(given: Option<Duration>) -> bool {
    match given {
        Some(duration) => duration.secs <= i64::MAX,
        None => true,
    }
}

/// Whether a document can hold `config`: whether each of its spans of time
/// can be written as an integer of a document.
pub open spec fn representable(config: ConfigView) -> bool {
    &&& fits(config.connections.bootstrap_peers_period)
    &&& fits(config.connections.storage_peers_period)
    &&& fits(config.connections.handshake_timeout)
}

/// The entries of a section that stand behind others are taken after them,
/// if those did not fail.
pub proof fn lemma_section_append(
    config: ConfigView,
    section: Section,
    head: Seq<(Seq<char>, Node)>,
    tail: Seq<(Seq<char>, Node)>,
)
    ensures
        with_section(config, section, head + tail) == match with_section(config, section, head) {
            Ok(sofar) => with_section(sofar, section, tail),
            Err(error) => Err(error),
        },
    decreases tail.len(),
{
    if tail.len() == 0 {
        assert(head + tail =~= head);
    } else {
        assert((head + tail).drop_last() =~= head + tail.drop_last());
        assert((head + tail).last() == tail.last());
        lemma_section_append(config, section, head, tail.drop_last());
    }
}

/// The entries of the top level that stand behind others are taken after
/// them, if those did not fail.
pub proof fn lemma_root_append(
    config: ConfigView,
    head: Seq<(Seq<char>, Node)>,
    tail: Seq<(Seq<char>, Node)>,
)
    ensures
        with_root(config, head + tail) == match with_root(config, head) {
            Ok(sofar) => with_root(sofar, tail),
            Err(error) => Err(error),
        },
    decreases tail.len(),
{
    if tail.len() == 0 {
        assert(head + tail =~= head);
    } else {
        assert((head + tail).drop_last() =~= head + tail.drop_last());
        assert((head + tail).last() == tail.last());
        lemma_root_append(config, head, tail.drop_last());
    }
}

/// The entry of a setting, in the table of its section, sets that setting.
pub proof fn lemma_section_entry(config: ConfigView, field: Field, node: Option<Node>)
    ensures
        with_section(config, field.section(), entry(field, node)) == match node {
            Some(node) => with_setting(config, field, node),
            None => Ok(config),
        },
{
    lemma_field_keys_differ(field);
    let entries = entry(field, node);
    if node is Some {
        assert(entries.drop_last() =~= Seq::empty());
        assert(with_section(config, field.section(), entries.drop_last()) == Ok::<
            ConfigView,
            ParseErrorView,
        >(config));
    }
}

/// The entry of a setting of the top level, at the top level, sets that
/// setting.
pub proof fn lemma_root_setting(config: ConfigView, field: Field, node: Option<Node>)
    requires
        field.section() == Section::Root,
    ensures
        with_root(config, entry(field, node)) == match node {
            Some(node) => with_setting(config, field, node),
            None => Ok(config),
        },
{
    lemma_field_keys_differ(field);
    let entries = entry(field, node);
    if node is Some {
        assert(entries.drop_last() =~= Seq::empty());
        assert(with_root(config, entries.drop_last()) == Ok::<ConfigView, ParseErrorView>(config));
    }
}

/// The entry of a section, at the top level, sets what the entries of the
/// section set.
pub proof fn lemma_root_section(
    config: ConfigView,
    section: Section,
    entries: Seq<(Seq<char>, Node)>,
)
    requires
        section != Section::Root,
    ensures
        with_root(config, section_entry(section, entries)) == with_section(
            config,
            section,
            entries,
        ),
{
    lemma_section_keys_differ(section);
    let outer = section_entry(section, entries);
    assert(outer.drop_last() =~= Seq::empty());
    assert(with_root(config, outer.drop_last()) == Ok::<ConfigView, ParseErrorView>(config));
}

/// The nodes that were written for a list of peers are read as that list.
pub proof fn lemma_peers_round_trip(peers: Seq<NetworkAddress>)
    ensures
        peers_of(peer_nodes(peers)) == Ok::<Seq<NetworkAddress>, ParseErrorView>(peers),
    decreases peers.len(),
{
    let nodes = peer_nodes(peers);
    if peers.len() > 0 {
        lemma_peers_round_trip(peers.drop_last());
        assert(nodes.drop_last() =~= peer_nodes(peers.drop_last()));
        lemma_address_round_trip(peers.last());
        assert(peers.drop_last().push(peers.last()) =~= peers);
    } else {
        assert(peers =~= Seq::empty());
    }
}

/// The table that was written for the connections is read as those
/// connections, where none were set before.
pub proof fn lemma_connections_round_trip(config: ConfigView, connections: ConnectionsView)
    requires
        config.connections == ConnectionsView::empty(),
    ensures
        with_section(config, Section::Connections, connections_entries(connections)) == Ok::<
            ConfigView,
            ParseErrorView,
        >(ConfigView { connections, ..config }),
{
    let section = Section::Connections;
    let e1 = entry(Field::BootstrapPeersPeriod, seconds_node(connections.bootstrap_peers_period));
    let e2 = entry(Field::HandshakeTimeout, seconds_node(connections.handshake_timeout));
    let e3 = entry(Field::InboundLimit, limit_node(connections.inbound_limit));
    let e4 = entry(Field::KnownPeers, Some(Node::Array(peer_nodes(connections.known_peers))));
    let e5 = entry(Field::ServerAddr, address_node(connections.server_addr));
    let e6 = entry(Field::StoragePeersPeriod, seconds_node(connections.storage_peers_period));
    let c0 = config.connections;
    let c1 = ConnectionsView { bootstrap_peers_period: connections.bootstrap_peers_period, ..c0 };
    let c2 = ConnectionsView { handshake_timeout: connections.handshake_timeout, ..c1 };
    let c3 = ConnectionsView { inbound_limit: connections.inbound_limit, ..c2 };
    let c4 = ConnectionsView { known_peers: connections.known_peers, ..c3 };
    let c5 = ConnectionsView { server_addr: connections.server_addr, ..c4 };
    let c6 = ConnectionsView { storage_peers_period: connections.storage_peers_period, ..c5 };
    let k1 = ConfigView { connections: c1, ..config };
    let k2 = ConfigView { connections: c2, ..config };
    let k3 = ConfigView { connections: c3, ..config };
    let k4 = ConfigView { connections: c4, ..config };
    let k5 = ConfigView { connections: c5, ..config };
    let k6 = ConfigView { connections: c6, ..config };
    let ok = |k: ConfigView| Ok::<ConfigView, ParseErrorView>(k);
    assert(with_section(config, section, e1) == ok(k1)) by {
        lemma_section_entry(
            config,
            Field::BootstrapPeersPeriod,
            seconds_node(connections.bootstrap_peers_period),
        );
    }
    assert(with_section(k1, section, e2) == ok(k2)) by {
        lemma_section_entry(
            k1,
            Field::HandshakeTimeout,
            seconds_node(connections.handshake_timeout),
        );
    }
    assert(with_section(k2, section, e3) == ok(k3)) by {
        lemma_section_entry(k2, Field::InboundLimit, limit_node(connections.inbound_limit));
    }
    assert(with_section(k3, section, e4) == ok(k4)) by {
        lemma_peers_round_trip(connections.known_peers);
        lemma_section_entry(
            k3,
            Field::KnownPeers,
            Some(Node::Array(peer_nodes(connections.known_peers))),
        );
    }
    assert(with_section(k4, section, e5) == ok(k5)) by {
        if connections.server_addr is Some {
            lemma_address_round_trip(connections.server_addr->0);
        }
        lemma_section_entry(k4, Field::ServerAddr, address_node(connections.server_addr));
    }
    assert(with_section(k5, section, e6) == ok(k6)) by {
        lemma_section_entry(
            k5,
            Field::StoragePeersPeriod,
            seconds_node(connections.storage_peers_period),
        );
    }
    assert(with_section(config, section, e1 + e2) == ok(k2)) by {
        lemma_section_append(config, section, e1, e2);
    }
    assert(with_section(config, section, e1 + e2 + e3) == ok(k3)) by {
        lemma_section_append(config, section, e1 + e2, e3);
    }
    assert(with_section(config, section, e1 + e2 + e3 + e4) == ok(k4)) by {
        lemma_section_append(config, section, e1 + e2 + e3, e4);
    }
    assert(with_section(config, section, e1 + e2 + e3 + e4 + e5) == ok(k5)) by {
        lemma_section_append(config, section, e1 + e2 + e3 + e4, e5);
    }
    assert(with_section(config, section, e1 + e2 + e3 + e4 + e5 + e6) == ok(k6)) by {
        lemma_section_append(config, section, e1 + e2 + e3 + e4 + e5, e6);
    }
    assert(c6 == connections);
}

/// The table that was written for the storage is read as that storage,
/// where none was set before.
pub proof fn lemma_storage_round_trip(config: ConfigView, storage: StorageView)
    requires
        config.storage == StorageView::empty(),
    ensures
        with_section(config, Section::Storage, storage_entries(storage)) == Ok::<
            ConfigView,
            ParseErrorView,
        >(ConfigView { storage, ..config }),
{
    lemma_section_entry(config, Field::DbPath, path_node(storage.db_path));
}

/// The table that was written for the JSON-RPC interface is read as that
/// interface, where none was set before.
pub proof fn lemma_jsonrpc_round_trip(config: ConfigView, jsonrpc: JsonRPC)
    requires
        config.jsonrpc == JsonRPC::empty(),
    ensures
        with_section(config, Section::JsonRPC, jsonrpc_entries(jsonrpc)) == Ok::<
            ConfigView,
            ParseErrorView,
        >(ConfigView { jsonrpc, ..config }),
{
    let section = Section::JsonRPC;
    let e1 = entry(Field::Enabled, flag_node(jsonrpc.enabled));
    let e2 = entry(Field::ServerAddress, address_node(jsonrpc.server_address));
    let j1 = JsonRPC { enabled: jsonrpc.enabled, ..config.jsonrpc };
    let j2 = JsonRPC { server_address: jsonrpc.server_address, ..j1 };
    let k1 = ConfigView { jsonrpc: j1, ..config };
    let k2 = ConfigView { jsonrpc: j2, ..config };
    assert(with_section(config, section, e1) == Ok::<ConfigView, ParseErrorView>(k1)) by {
        lemma_section_entry(config, Field::Enabled, flag_node(jsonrpc.enabled));
    }
    assert(with_section(k1, section, e2) == Ok::<ConfigView, ParseErrorView>(k2)) by {
        if jsonrpc.server_address is Some {
            lemma_address_round_trip(jsonrpc.server_address->0);
        }
        lemma_section_entry(k1, Field::ServerAddress, address_node(jsonrpc.server_address));
    }
    lemma_section_append(config, section, e1, e2);
    assert(j2 == jsonrpc);
}

/// Reading the document that was written for a partial configuration gives
/// that configuration back: every setting that was present is present with
/// its value, and every setting that was absent is absent.
pub proof fn lemma_document_round_trip(config: ConfigView)
    ensures
        decoded(document_of(config)) == Ok::<ConfigView, ParseErrorView>(config),
{
    let start = ConfigView::empty();
    let e1 = section_entry(Section::Connections, connections_entries(config.connections));
    let e2 = entry(Field::Environment, environment_node(config.environment));
    let e3 = section_entry(Section::JsonRPC, jsonrpc_entries(config.jsonrpc));
    let e4 = section_entry(Section::Storage, storage_entries(config.storage));
    let k1 = ConfigView { connections: config.connections, ..start };
    let k2 = ConfigView { environment: config.environment, ..k1 };
    let k3 = ConfigView { jsonrpc: config.jsonrpc, ..k2 };
    let k4 = ConfigView { storage: config.storage, ..k3 };
    let ok = |k: ConfigView| Ok::<ConfigView, ParseErrorView>(k);
    assert(with_root(start, e1) == ok(k1)) by {
        lemma_root_section(start, Section::Connections, connections_entries(config.connections));
        lemma_connections_round_trip(start, config.connections);
    }
    assert(with_root(k1, e2) == ok(k2)) by {
        if config.environment is Some {
            lemma_environment_round_trip(config.environment->0);
        }
        lemma_root_setting(k1, Field::Environment, environment_node(config.environment));
    }
    assert(with_root(k2, e3) == ok(k3)) by {
        lemma_root_section(k2, Section::JsonRPC, jsonrpc_entries(config.jsonrpc));
        lemma_jsonrpc_round_trip(k2, config.jsonrpc);
    }
    assert(with_root(k3, e4) == ok(k4)) by {
        lemma_root_section(k3, Section::Storage, storage_entries(config.storage));
        lemma_storage_round_trip(k3, config.storage);
    }
    assert(with_root(start, e1 + e2) == ok(k2)) by {
        lemma_root_append(start, e1, e2);
    }
    assert(with_root(start, e1 + e2 + e3) == ok(k3)) by {
        lemma_root_append(start, e1 + e2, e3);
    }
    assert(with_root(start, e1 + e2 + e3 + e4) == ok(k4)) by {
        lemma_root_append(start, e1 + e2 + e3, e4);
    }
    assert(k4 == config);
}

/// Reading the document that was written for a configuration, and resolving
/// what was read, gives that configuration back.
pub proof fn lemma_configuration_round_trip(config: crate::config::ConfigView)
    ensures
        decoded(document_of(settings_of(config))) matches Ok(partial) && resolved(partial)
            == config,
{
    lemma_document_round_trip(settings_of(config));
    lemma_resolve_settings(config);
}

/// Appends the entry that holds `item` under the key of `field`.
fn push_entry(entries: &mut Vec<(String, Item)>, field: Field, item: Item)
    ensures
        entries_view(final(entries)@) == entries_view(old(entries)@) + entry(field, Some(item@)),
{
    entries.push((String::from_str(field.name()), item));
    proof {
        assert(entries_view(final(entries)@) =~= entries_view(old(entries)@) + entry(
            field,
            Some(item@),
        ));
    }
}

/// Appends the entry that holds the table of `section`.
fn push_section(entries: &mut Vec<(String, Item)>, section: Section, inner: Vec<(String, Item)>)
    ensures
        entries_view(final(entries)@) == entries_view(old(entries)@) + section_entry(
            section,
            entries_view(inner@),
        ),
{
    entries.push((String::from_str(section.name()), Item::Table(inner)));
    proof {
        assert(entries_view(final(entries)@) =~= entries_view(old(entries)@) + section_entry(
            section,
            entries_view(inner@),
        ));
    }
}

/// Appends the entry of an environment, if one is given.
fn push_environment(entries: &mut Vec<(String, Item)>, field: Field, given: Option<Environment>)
    ensures
        entries_view(final(entries)@) == entries_view(old(entries)@) + entry(
            field,
            environment_node(given),
        ),
{
    match given {
        Some(environment) => push_entry(entries, field, Item::Text(environment.render())),
        None => {
            proof {
                assert(entries_view(entries@) + Seq::empty() =~= entries_view(entries@));
            }
        },
    }
}

/// Appends the entry of an address, if one is given.
fn push_address(entries: &mut Vec<(String, Item)>, field: Field, given: Option<NetworkAddress>)
    ensures
        entries_view(final(entries)@) == entries_view(old(entries)@) + entry(
            field,
            address_node(given),
        ),
{
    match given {
        Some(address) => push_entry(entries, field, Item::Text(address.render())),
        None => {
            proof {
                assert(entries_view(entries@) + Seq::empty() =~= entries_view(entries@));
            }
        },
    }
}

/// Appends the entry of a limit, if one is given.
fn push_limit(entries: &mut Vec<(String, Item)>, field: Field, given: Option<u16>)
    ensures
        entries_view(final(entries)@) == entries_view(old(entries)@) + entry(
            field,
            limit_node(given),
        ),
{
    match given {
        Some(limit) => push_entry(entries, field, Item::Integer(limit as i64)),
        None => {
            proof {
                assert(entries_view(entries@) + Seq::empty() =~= entries_view(entries@));
            }
        },
    }
}

/// Appends the entry of a span of time, if one is given.
fn push_seconds(entries: &mut Vec<(String, Item)>, field: Field, given: Option<Duration>)
    requires
        fits(given),
    ensures
        entries_view(final(entries)@) == entries_view(old(entries)@) + entry(
            field,
            seconds_node(given),
        ),
{
    match given {
        Some(duration) => push_entry(entries, field, Item::Integer(duration.as_secs() as i64)),
        None => {
            proof {
                assert(entries_view(entries@) + Seq::empty() =~= entries_view(entries@));
            }
        },
    }
}

/// Appends the entry of a boolean, if one is given.
fn push_flag(entries: &mut Vec<(String, Item)>, field: Field, given: Option<bool>)
    ensures
        entries_view(final(entries)@) == entries_view(old(entries)@) + entry(
            field,
            flag_node(given),
        ),
{
    match given {
        Some(flag) => push_entry(entries, field, Item::Boolean(flag)),
        None => {
            proof {
                assert(entries_view(entries@) + Seq::empty() =~= entries_view(entries@));
            }
        },
    }
}

/// The array that writes a list of peers.
fn peers_item(peers: &Vec<NetworkAddress>) -> (res: Item)
    ensures
        res@ == Node::Array(peer_nodes(peers@)),
{
    let mut items: Vec<Item> = Vec::new();
    let mut at: usize = 0;
    while at < peers.len()
        invariant
            at <= peers.len(),
            items.len() == at,
            items_view(items@) =~= peer_nodes(peers@.take(at as int)),
        decreases peers.len() - at,
    {
        let ghost before = items@;
        let item = Item::Text(peers[at].render());
        assert(item@ == Node::Text(peers@[at as int].text()));
        items.push(item);
        proof {
            let now = items_view(items@);
            let goal = peer_nodes(peers@.take(at + 1));
            assert(now.len() == goal.len());
            assert forall|i: int| 0 <= i < now.len() implies now[i] == goal[i] by {
                if i < at {
                    assert(items@[i] == before[i]);
                    assert(items_view(before)[i] == peer_nodes(peers@.take(at as int))[i]);
                }
            }
        }
        at = at + 1;
    }
    proof {
        assert(peers@.take(at as int) =~= peers@);
    }
    Item::Array(items)
}

/// Whether a span of time can be written as an integer of a document.
pub(crate) fn can_hold(given: &Option<Duration>) -> (res: bool)
    ensures
        res == fits(*given),
{
    match given {
        Some(duration) => duration.as_secs() <= 0x7fff_ffff_ffff_ffff,
        None => true,
    }
}

/// Writes a partial configuration as a document, which [`decode`] reads
/// back as that configuration.
///
/// A document holds no integer above `i64::MAX`: where a span of time of
/// `config` has more seconds than that, there is no document.
///
/// [`decode`]: crate::decode::decode
pub fn encode(config: &Config) -> (res: Option<Item>)
    ensures
        match res {
            Some(document) => representable(config@) && document@ == document_of(config@),
            None => !representable(config@),
        },
{
    let connections = &config.connections;
    if !can_hold(&connections.bootstrap_peers_period) || !can_hold(
        &connections.storage_peers_period,
    ) || !can_hold(&connections.handshake_timeout) {
        return None;
    }
    let mut inner: Vec<(String, Item)> = Vec::new();
    proof {
        assert(entries_view(inner@) =~= Seq::empty());
    }
    push_seconds(&mut inner, Field::BootstrapPeersPeriod, connections.bootstrap_peers_period);
    proof {
        assert(entries_view(inner@) =~= entry(
            Field::BootstrapPeersPeriod,
            seconds_node(connections.bootstrap_peers_period),
        ));
    }
    push_seconds(&mut inner, Field::HandshakeTimeout, connections.handshake_timeout);
    push_limit(&mut inner, Field::InboundLimit, connections.inbound_limit);
    push_entry(&mut inner, Field::KnownPeers, peers_item(&connections.known_peers));
    push_address(&mut inner, Field::ServerAddr, connections.server_addr);
    push_seconds(&mut inner, Field::StoragePeersPeriod, connections.storage_peers_period);
    let mut entries: Vec<(String, Item)> = Vec::new();
    proof {
        assert(entries_view(entries@) =~= Seq::empty());
    }
    push_section(&mut entries, Section::Connections, inner);
    proof {
        assert(entries_view(entries@) =~= section_entry(
            Section::Connections,
            connections_entries(config@.connections),
        ));
    }
    push_environment(&mut entries, Field::Environment, config.environment);
    let mut inner: Vec<(String, Item)> = Vec::new();
    proof {
        assert(entries_view(inner@) =~= Seq::empty());
    }
    push_flag(&mut inner, Field::Enabled, config.jsonrpc.enabled);
    proof {
        assert(entries_view(inner@) =~= entry(Field::Enabled, flag_node(config.jsonrpc.enabled)));
    }
    push_address(&mut inner, Field::ServerAddress, config.jsonrpc.server_address);
    push_section(&mut entries, Section::JsonRPC, inner);
    let mut inner: Vec<(String, Item)> = Vec::new();
    match &config.storage.db_path {
        Some(path) => {
            push_entry(&mut inner, Field::DbPath, Item::Text(path.render()));
        },
        None => {},
    }
    proof {
        assert(entries_view(inner@) =~= storage_entries(config@.storage));
    }
    push_section(&mut entries, Section::Storage, inner);
    Some(Item::Table(entries))
}

} // verus!
