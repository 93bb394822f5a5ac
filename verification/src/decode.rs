//! Reading a partial configuration from a document.
//!
//! The entries of a table are taken in order.  Each must stand under a key
//! of the schema and hold a value of the setting's kind; the first that does
//! not is the error of the whole document.  Where a key stands twice, the
//! later entry decides.
use crate::address::NetworkAddress;
use crate::config::partial::{Config, ConfigView, ConnectionsView, StorageView};
use crate::config::partial::JsonRPC;
use crate::document::{entries_view, items_view, Item, Node};
use crate::duration::Duration;
use crate::environment::Environment;
use crate::error::{ParseError, ParseErrorView};
use crate::path::FilePath;
use crate::schema::{Field, Section};
use vstd::prelude::*;

verus! {

/// The environment that `node` names.
pub open spec fn environment_of(node: Node) -> Result<Environment, ParseErrorView> {
    match node {
        Node::Text(token) => match Environment::from_token(token) {
            Some(environment) => Ok(environment),
            None => Err(ParseErrorView::UnknownEnvironment),
        },
        _ => Err(ParseErrorView::WrongType(Field::Environment)),
    }
}

/// The address that `node` writes as the value of `field`.
pub open spec fn address_of(field: Field, node: Node) -> Result<NetworkAddress, ParseErrorView> {
    match node {
        Node::Text(text) => match NetworkAddress::from_text(text) {
            Some(address) => Ok(address),
            None => Err(ParseErrorView::InvalidAddress),
        },
        _ => Err(ParseErrorView::WrongType(field)),
    }
}

/// The limit that `node` gives as the value of `field`.
pub open spec fn limit_of(field: Field, node: Node) -> Result<u16, ParseErrorView> {
    match node {
        Node::Integer(limit) => if 0 <= limit <= u16::MAX {
            Ok(limit as u16)
        } else {
            Err(ParseErrorView::OutOfRange(field))
        },
        _ => Err(ParseErrorView::WrongType(field)),
    }
}

/// The span of time that `node` gives, in seconds, as the value of `field`.
pub open spec fn seconds_of(field: Field, node: Node) -> Result<Duration, ParseErrorView> {
    match node {
        Node::Integer(seconds) => match Duration::of_integer(seconds) {
            Some(duration) => Ok(duration),
            None => Err(ParseErrorView::OutOfRange(field)),
        },
        _ => Err(ParseErrorView::WrongType(field)),
    }
}

/// The boolean that `node` gives as the value of `field`.
pub open spec fn flag_of(field: Field, node: Node) -> Result<bool, ParseErrorView> {
    match node {
        Node::Boolean(flag) => Ok(flag),
        _ => Err(ParseErrorView::WrongType(field)),
    }
}

/// The path that `node` gives as the value of `field`.
pub open spec fn path_text_of(field: Field, node: Node) -> Result<Seq<char>, ParseErrorView> {
    match node {
        Node::Text(text) => Ok(text),
        _ => Err(ParseErrorView::WrongType(field)),
    }
}

/// The addresses that `items` write, in order.
pub open spec fn peers_of(items: Seq<Node>) -> Result<Seq<NetworkAddress>, ParseErrorView>
    decreases items.len(),
{
    if items.len() == 0 {
        Ok(Seq::empty())
    } else {
        match peers_of(items.drop_last()) {
            Ok(peers) => match address_of(Field::KnownPeers, items.last()) {
                Ok(address) => Ok(peers.push(address)),
                Err(error) => Err(error),
            },
            Err(error) => Err(error),
        }
    }
}

/// The list of peers that `node` gives.
pub open spec fn peer_list_of(node: Node) -> Result<Seq<NetworkAddress>, ParseErrorView> {
    match node {
        Node::Array(items) => peers_of(items),
        _ => Err(ParseErrorView::WrongType(Field::KnownPeers)),
    }
}

/// `config` with the setting `field` as `node` gives it.
pub open spec fn with_setting(config: ConfigView, field: Field, node: Node) -> Result<
    ConfigView,
    ParseErrorView,
> {
    match field {
        Field::Environment => match environment_of(node) {
            Ok(environment) => Ok(ConfigView { environment: Some(environment), ..config }),
            Err(error) => Err(error),
        },
        Field::ServerAddr => match address_of(field, node) {
            Ok(address) => Ok(
                ConfigView {
                    connections: ConnectionsView {
                        server_addr: Some(address),
                        ..config.connections
                    },
                    ..config
                },
            ),
            Err(error) => Err(error),
        },
        Field::InboundLimit => match limit_of(field, node) {
            Ok(limit) => Ok(
                ConfigView {
                    connections: ConnectionsView {
                        inbound_limit: Some(limit),
                        ..config.connections
                    },
                    ..config
                },
            ),
            Err(error) => Err(error),
        },
        Field::KnownPeers => match peer_list_of(node) {
            Ok(peers) => Ok(
                ConfigView {
                    connections: ConnectionsView { known_peers: peers, ..config.connections },
                    ..config
                },
            ),
            Err(error) => Err(error),
        },
        Field::BootstrapPeersPeriod => match seconds_of(field, node) {
            Ok(period) => Ok(
                ConfigView {
                    connections: ConnectionsView {
                        bootstrap_peers_period: Some(period),
                        ..config.connections
                    },
                    ..config
                },
            ),
            Err(error) => Err(error),
        },
        Field::StoragePeersPeriod => match seconds_of(field, node) {
            Ok(period) => Ok(
                ConfigView {
                    connections: ConnectionsView {
                        storage_peers_period: Some(period),
                        ..config.connections
                    },
                    ..config
                },
            ),
            Err(error) => Err(error),
        },
        Field::HandshakeTimeout => match seconds_of(field, node) {
            Ok(timeout) => Ok(
                ConfigView {
                    connections: ConnectionsView {
                        handshake_timeout: Some(timeout),
                        ..config.connections
                    },
                    ..config
                },
            ),
            Err(error) => Err(error),
        },
        Field::DbPath => match path_text_of(field, node) {
            Ok(path) => Ok(ConfigView { storage: StorageView { db_path: Some(path) }, ..config }),
            Err(error) => Err(error),
        },
        Field::Enabled => match flag_of(field, node) {
            Ok(flag) => Ok(
                ConfigView { jsonrpc: JsonRPC { enabled: Some(flag), ..config.jsonrpc }, ..config },
            ),
            Err(error) => Err(error),
        },
        Field::ServerAddress => match address_of(field, node) {
            Ok(address) => Ok(
                ConfigView {
                    jsonrpc: JsonRPC { server_address: Some(address), ..config.jsonrpc },
                    ..config
                },
            ),
            Err(error) => Err(error),
        },
    }
}

/// `config` with the entry of `section` that holds `node` under `key`.
pub open spec fn with_entry(config: ConfigView, section: Section, key: Seq<char>, node: Node)
    -> Result<ConfigView, ParseErrorView> {
    match Field::find(section, key) {
        Some(field) => with_setting(config, field, node),
        None => Err(ParseErrorView::UnknownField(section, key)),
    }
}

/// `config` with the entries of `section`, taken in order.
pub open spec fn with_section(
    config: ConfigView,
    section: Section,
    entries: Seq<(Seq<char>, Node)>,
) -> Result<ConfigView, ParseErrorView>
    decreases entries.len(),
{
    if entries.len() == 0 {
        Ok(config)
    } else {
        match with_section(config, section, entries.drop_last()) {
            Ok(sofar) => with_entry(sofar, section, entries.last().0, entries.last().1),
            Err(error) => Err(error),
        }
    }
}

/// `config` with the entry of the top level that holds `node` under `key`:
/// a setting of the top level, or the table of a section.
pub open spec fn with_root_entry(config: ConfigView, key: Seq<char>, node: Node) -> Result<
    ConfigView,
    ParseErrorView,
> {
    match Field::find(Section::Root, key) {
        Some(field) => with_setting(config, field, node),
        None => match Section::find(key) {
            Some(section) => match node {
                Node::Table(entries) => with_section(config, section, entries),
                _ => Err(ParseErrorView::NotATable(section)),
            },
            None => Err(ParseErrorView::UnknownField(Section::Root, key)),
        },
    }
}

/// `config` with the entries of the top level, taken in order.
pub open spec fn with_root(config: ConfigView, entries: Seq<(Seq<char>, Node)>) -> Result<
    ConfigView,
    ParseErrorView,
>
    decreases entries.len(),
{
    if entries.len() == 0 {
        Ok(config)
    } else {
        match with_root(config, entries.drop_last()) {
            Ok(sofar) => with_root_entry(sofar, entries.last().0, entries.last().1),
            Err(error) => Err(error),
        }
    }
}

/// The partial configuration that the document `document` writes, or the
/// first error in it.
pub open spec fn decoded(document: Node) -> Result<ConfigView, ParseErrorView> {
    match document {
        Node::Table(entries) => with_root(ConfigView::empty(), entries),
        _ => Err(ParseErrorView::NotATable(Section::Root)),
    }
}

/// The document that holds nothing writes the configuration of which
/// nothing is set.
pub proof fn lemma_empty_document()
    ensures
        decoded(Node::Table(Seq::empty())) == Ok::<ConfigView, ParseErrorView>(ConfigView::empty()),
{
}

/// Whether `res` is the plain value or the error that `expected` holds.
pub open spec fn is_outcome<T>(res: Result<T, ParseError>, expected: Result<T, ParseErrorView>)
    -> bool {
    match expected {
        Ok(value) => res matches Ok(found) && found == value,
        Err(error) => res matches Err(found) && found@ == error,
    }
}

/// Whether `res` is the configuration or the error that `expected` holds.
pub open spec fn is_config_outcome(
    res: Result<Config, ParseError>,
    expected: Result<ConfigView, ParseErrorView>,
) -> bool {
    match expected {
        Ok(config) => res matches Ok(found) && found@ == config,
        Err(error) => res matches Err(found) && found@ == error,
    }
}

/// Once an entry of a section has failed, the section has failed with its
/// error, whatever follows.
pub proof fn lemma_section_error_stays(
    config: ConfigView,
    section: Section,
    entries: Seq<(Seq<char>, Node)>,
    upto: int,
)
    requires
        0 <= upto <= entries.len(),
        with_section(config, section, entries.take(upto)) is Err,
    ensures
        with_section(config, section, entries) == with_section(
            config,
            section,
            entries.take(upto),
        ),
    decreases entries.len() - upto,
{
    if upto == entries.len() {
        assert(entries.take(upto) =~= entries);
    } else {
        assert(entries.take(upto + 1).drop_last() =~= entries.take(upto));
        lemma_section_error_stays(config, section, entries, upto + 1);
    }
}

/// Once an entry of the top level has failed, the document has failed with
/// its error, whatever follows.
pub proof fn lemma_root_error_stays(
    config: ConfigView,
    entries: Seq<(Seq<char>, Node)>,
    upto: int,
)
    requires
        0 <= upto <= entries.len(),
        with_root(config, entries.take(upto)) is Err,
    ensures
        with_root(config, entries) == with_root(config, entries.take(upto)),
    decreases entries.len() - upto,
{
    if upto == entries.len() {
        assert(entries.take(upto) =~= entries);
    } else {
        assert(entries.take(upto + 1).drop_last() =~= entries.take(upto));
        lemma_root_error_stays(config, entries, upto + 1);
    }
}

/// Once an item of a list of peers has failed, the list has failed with its
/// error, whatever follows.
pub proof fn lemma_peers_error_stays(items: Seq<Node>, upto: int)
    requires
        0 <= upto <= items.len(),
        peers_of(items.take(upto)) is Err,
    ensures
        peers_of(items) == peers_of(items.take(upto)),
    decreases items.len() - upto,
{
    if upto == items.len() {
        assert(items.take(upto) =~= items);
    } else {
        assert(items.take(upto + 1).drop_last() =~= items.take(upto));
        lemma_peers_error_stays(items, upto + 1);
    }
}

fn read_environment(item: &Item) -> (res: Result<Environment, ParseError>)
    ensures
        is_outcome(res, environment_of(item@)),
{
    match item {
        Item::Text(token) => Environment::parse(token.as_str()),
        _ => Err(ParseError::WrongType(Field::Environment)),
    }
}

fn read_address(field: Field, item: &Item) -> (res: Result<NetworkAddress, ParseError>)
    ensures
        is_outcome(res, address_of(field, item@)),
{
    match item {
        Item::Text(text) => NetworkAddress::parse(text.as_str()),
        _ => Err(ParseError::WrongType(field)),
    }
}

fn read_limit(field: Field, item: &Item) -> (res: Result<u16, ParseError>)
    ensures
        is_outcome(res, limit_of(field, item@)),
{
    match item {
        Item::Integer(limit) => {
            if 0 <= *limit && *limit <= 65535 {
                Ok(*limit as u16)
            } else {
                Err(ParseError::OutOfRange(field))
            }
        },
        _ => Err(ParseError::WrongType(field)),
    }
}

fn read_seconds(field: Field, item: &Item) -> (res: Result<Duration, ParseError>)
    ensures
        is_outcome(res, seconds_of(field, item@)),
{
    match item {
        Item::Integer(seconds) => match Duration::from_integer(*seconds) {
            Some(duration) => Ok(duration),
            None => Err(ParseError::OutOfRange(field)),
        },
        _ => Err(ParseError::WrongType(field)),
    }
}

fn read_flag(field: Field, item: &Item) -> (res: Result<bool, ParseError>)
    ensures
        is_outcome(res, flag_of(field, item@)),
{
    match item {
        Item::Boolean(flag) => Ok(*flag),
        _ => Err(ParseError::WrongType(field)),
    }
}

fn read_path(field: Field, item: &Item) -> (res: Result<FilePath, ParseError>)
    ensures
        match path_text_of(field, item@) {
            Ok(text) => res matches Ok(found) && found@ == text,
            Err(error) => res matches Err(found) && found@ == error,
        },
{
    match item {
        Item::Text(text) => FilePath::parse(text.as_str()),
        _ => Err(ParseError::WrongType(field)),
    }
}

fn read_peers(item: &Item) -> (res: Result<Vec<NetworkAddress>, ParseError>)
    ensures
        match peer_list_of(item@) {
            Ok(peers) => res matches Ok(found) && found@ == peers,
            Err(error) => res matches Err(found) && found@ == error,
        },
{
    match item {
        Item::Array(items) => {
            let ghost all = items_view(items@);
            let mut peers: Vec<NetworkAddress> = Vec::new();
            let mut at: usize = 0;
            while at < items.len()
                invariant
                    at <= items.len(),
                    all == items_view(items@),
                    item@ == Node::Array(all),
                    peers_of(all.take(at as int)) == Ok::<Seq<NetworkAddress>, ParseErrorView>(
                        peers@,
                    ),
                decreases items.len() - at,
            {
                proof {
                    assert(all.take(at + 1).drop_last() =~= all.take(at as int));
                    assert(all.take(at + 1).last() == items@[at as int]@);
                }
                match read_address(Field::KnownPeers, &items[at]) {
                    Ok(address) => {
                        peers.push(address);
                    },
                    Err(error) => {
                        proof {
                            lemma_peers_error_stays(all, at + 1);
                        }
                        return Err(error);
                    },
                }
                at = at + 1;
            }
            proof {
                assert(all.take(at as int) =~= all);
            }
            Ok(peers)
        },
        _ => Err(ParseError::WrongType(Field::KnownPeers)),
    }
}

/// Sets the setting `field` of `config` to what `item` gives.
fn apply_setting(config: Config, field: Field, item: &Item) -> (res: Result<Config, ParseError>)
    ensures
        is_config_outcome(res, with_setting(config@, field, item@)),
{
    let mut config = config;
    match field {
        Field::Environment => match read_environment(item) {
            Ok(environment) => {
                config.environment = Some(environment);
                Ok(config)
            },
            Err(error) => Err(error),
        },
        Field::ServerAddr => match read_address(field, item) {
            Ok(address) => {
                config.connections.server_addr = Some(address);
                Ok(config)
            },
            Err(error) => Err(error),
        },
        Field::InboundLimit => match read_limit(field, item) {
            Ok(limit) => {
                config.connections.inbound_limit = Some(limit);
                Ok(config)
            },
            Err(error) => Err(error),
        },
        Field::KnownPeers => match read_peers(item) {
            Ok(peers) => {
                config.connections.known_peers = peers;
                Ok(config)
            },
            Err(error) => Err(error),
        },
        Field::BootstrapPeersPeriod => match read_seconds(field, item) {
            Ok(period) => {
                config.connections.bootstrap_peers_period = Some(period);
                Ok(config)
            },
            Err(error) => Err(error),
        },
        Field::StoragePeersPeriod => match read_seconds(field, item) {
            Ok(period) => {
                config.connections.storage_peers_period = Some(period);
                Ok(config)
            },
            Err(error) => Err(error),
        },
        Field::HandshakeTimeout => match read_seconds(field, item) {
            Ok(timeout) => {
                config.connections.handshake_timeout = Some(timeout);
                Ok(config)
            },
            Err(error) => Err(error),
        },
        Field::DbPath => match read_path(field, item) {
            Ok(path) => {
                config.storage.db_path = Some(path);
                Ok(config)
            },
            Err(error) => Err(error),
        },
        Field::Enabled => match read_flag(field, item) {
            Ok(flag) => {
                config.jsonrpc.enabled = Some(flag);
                Ok(config)
            },
            Err(error) => Err(error),
        },
        Field::ServerAddress => match read_address(field, item) {
            Ok(address) => {
                config.jsonrpc.server_address = Some(address);
                Ok(config)
            },
            Err(error) => Err(error),
        },
    }
}

/// Sets in `config` what the entries of `section` give, in order.
fn apply_section(config: Config, section: Section, entries: &Vec<(String, Item)>) -> (res:
    Result<Config, ParseError>)
    ensures
        is_config_outcome(res, with_section(config@, section, entries_view(entries@))),
{
    let ghost start = config@;
    let ghost all = entries_view(entries@);
    let mut current = config;
    let mut at: usize = 0;
    while at < entries.len()
        invariant
            at <= entries.len(),
            all == entries_view(entries@),
            start == config@,
            with_section(start, section, all.take(at as int)) == Ok::<ConfigView, ParseErrorView>(
                current@,
            ),
        decreases entries.len() - at,
    {
        let entry = &entries[at];
        proof {
            assert(all.take(at + 1).drop_last() =~= all.take(at as int));
            assert(all.take(at + 1).last() == (entry.0@, entry.1@));
        }
        let applied = match Field::lookup(section, entry.0.as_str()) {
            Some(field) => apply_setting(current, field, &entry.1),
            None => Err(ParseError::UnknownField(section, entry.0.clone())),
        };
        match applied {
            Ok(next) => {
                current = next;
            },
            Err(error) => {
                proof {
                    lemma_section_error_stays(start, section, all, at + 1);
                }
                return Err(error);
            },
        }
        at = at + 1;
    }
    proof {
        assert(all.take(at as int) =~= all);
    }
    Ok(current)
}

/// Sets in `config` what the entry of the top level gives that holds `item`
/// under `key`.
fn apply_root_entry(config: Config, key: &String, item: &Item) -> (res: Result<
    Config,
    ParseError,
>)
    ensures
        is_config_outcome(res, with_root_entry(config@, key@, item@)),
{
    match Field::lookup(Section::Root, key.as_str()) {
        Some(field) => apply_setting(config, field, item),
        None => match Section::lookup(key.as_str()) {
            Some(section) => match item {
                Item::Table(entries) => apply_section(config, section, entries),
                _ => Err(ParseError::NotATable(section)),
            },
            None => Err(ParseError::UnknownField(Section::Root, key.clone())),
        },
    }
}

/// Reads a partial configuration from a document.
///
/// The document must be a table.  Each of its entries must be the setting
/// `environment` or the table of a section, and each entry of a section a
/// setting of that section; every value must be of its setting's kind, an
/// integer within its setting's range, an address a well-formed one.  The
/// first entry that breaks one of these is the error of the document.  What
/// the document leaves out is absent from the result.
pub fn decode(document: &Item) -> (res: Result<Config, ParseError>)
    ensures
        is_config_outcome(res, decoded(document@)),
{
    match document {
        Item::Table(entries) => {
            let ghost all = entries_view(entries@);
            let mut config = Config::default();
            let mut at: usize = 0;
            while at < entries.len()
                invariant
                    at <= entries.len(),
                    all == entries_view(entries@),
                    document@ == Node::Table(all),
                    with_root(ConfigView::empty(), all.take(at as int)) == Ok::<
                        ConfigView,
                        ParseErrorView,
                    >(config@),
                decreases entries.len() - at,
            {
                let entry = &entries[at];
                proof {
                    assert(all.take(at + 1).drop_last() =~= all.take(at as int));
                    assert(all.take(at + 1).last() == (entry.0@, entry.1@));
                }
                match apply_root_entry(config, &entry.0, &entry.1) {
                    Ok(next) => {
                        config = next;
                    },
                    Err(error) => {
                        proof {
                            lemma_root_error_stays(ConfigView::empty(), all, at + 1);
                        }
                        return Err(error);
                    },
                }
                at = at + 1;
            }
            proof {
                assert(all.take(at as int) =~= all);
            }
            Ok(config)
        },
        _ => Err(ParseError::NotATable(Section::Root)),
    }
}

} // verus!
