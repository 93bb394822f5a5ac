//! The schema of a configuration: its sections, the settings of each
//! section, and the key and the kind of value of each setting.
//!
//! The schema is strict: a key that is not listed here is an error wherever
//! it appears.
use vstd::prelude::*;

verus! {

/// A table of the configuration: the document itself, or one of the
/// sections under it.
#[derive(Clone, Copy, Debug, PartialEq, Eq, Hash, Structural)]
pub enum Section {
    /// The top level of the document.
    Root,
    /// `[connections]`
    Connections,
    /// `[storage]`
    Storage,
    /// `[jsonrpc]`
    JsonRPC,
}

/// A setting of the configuration.
#[derive(Clone, Copy, Debug, PartialEq, Eq, Hash, Structural)]
pub enum Field {
    /// `environment`, at the top level
    Environment,
    /// `connections.server_addr`
    ServerAddr,
    /// `connections.inbound_limit`
    InboundLimit,
    /// `connections.known_peers`
    KnownPeers,
    /// `connections.bootstrap_peers_period_seconds`
    BootstrapPeersPeriod,
    /// `connections.storage_peers_period_seconds`
    StoragePeersPeriod,
    /// `connections.handshake_timeout_seconds`
    HandshakeTimeout,
    /// `storage.db_path`
    DbPath,
    /// `jsonrpc.enabled`
    Enabled,
    /// `jsonrpc.server_address`
    ServerAddress,
}

/// The kind of value that a setting takes.
#[derive(Clone, Copy, Debug, PartialEq, Eq, Hash, Structural)]
pub enum Kind {
    /// A string.
    Text,
    /// An integer.
    Integer,
    /// `true` or `false`.
    Boolean,
    /// An array of strings.
    TextArray,
}

impl Section {
    /// The key under which the section stands at the top level; the top
    /// level itself has the empty key.
    pub open spec fn key(self) -> Seq<char> {
        match self {
            Section::Root => Seq::empty(),
            Section::Connections => "connections"@,
            Section::Storage => "storage"@,
            Section::JsonRPC => "jsonrpc"@,
        }
    }

    /// The section that stands under `key` at the top level, if any.
    pub open spec fn find(key: Seq<char>) -> Option<Section> {
        if key == Section::Connections.key() {
            Some(Section::Connections)
        } else if key == Section::Storage.key() {
            Some(Section::Storage)
        } else if key == Section::JsonRPC.key() {
            Some(Section::JsonRPC)
        } else {
            None
        }
    }

    /// The key of the section, as [`Section::key`] gives it.
    pub fn name(&self) -> (res: &'static str)
        ensures
            res@ == self.key(),
    {
        match self {
            Section::Root => {
                proof {
                    reveal_strlit("");
                    assert(""@ =~= Seq::<char>::empty());
                }
                ""
            },
            Section::Connections => "connections",
            Section::Storage => "storage",
            Section::JsonRPC => "jsonrpc",
        }
    }

    /// Finds the section that stands under `key` at the top level.
    pub fn lookup(key: &str) -> (res: Option<Section>)
        ensures
            res == Section::find(key@),
    {
        if key.eq("connections") {
            Some(Section::Connections)
        } else if key.eq("storage") {
            Some(Section::Storage)
        } else if key.eq("jsonrpc") {
            Some(Section::JsonRPC)
        } else {
            None
        }
    }
}

impl Field {
    /// The table in which the setting stands.
    pub open spec fn section(self) -> Section {
        match self {
            Field::Environment => Section::Root,
            Field::ServerAddr => Section::Connections,
            Field::InboundLimit => Section::Connections,
            Field::KnownPeers => Section::Connections,
            Field::BootstrapPeersPeriod => Section::Connections,
            Field::StoragePeersPeriod => Section::Connections,
            Field::HandshakeTimeout => Section::Connections,
            Field::DbPath => Section::Storage,
            Field::Enabled => Section::JsonRPC,
            Field::ServerAddress => Section::JsonRPC,
        }
    }

    /// The key of the setting within its table.
    pub open spec fn key(self) -> Seq<char> {
        match self {
            Field::Environment => "environment"@,
            Field::ServerAddr => "server_addr"@,
            Field::InboundLimit => "inbound_limit"@,
            Field::KnownPeers => "known_peers"@,
            Field::BootstrapPeersPeriod => "bootstrap_peers_period_seconds"@,
            Field::StoragePeersPeriod => "storage_peers_period_seconds"@,
            Field::HandshakeTimeout => "handshake_timeout_seconds"@,
            Field::DbPath => "db_path"@,
            Field::Enabled => "enabled"@,
            Field::ServerAddress => "server_address"@,
        }
    }

    /// The kind of value that the setting takes.
    pub open spec fn kind(self) -> Kind {
        match self {
            Field::Environment => Kind::Text,
            Field::ServerAddr => Kind::Text,
            Field::InboundLimit => Kind::Integer,
            Field::KnownPeers => Kind::TextArray,
            Field::BootstrapPeersPeriod => Kind::Integer,
            Field::StoragePeersPeriod => Kind::Integer,
            Field::HandshakeTimeout => Kind::Integer,
            Field::DbPath => Kind::Text,
            Field::Enabled => Kind::Boolean,
            Field::ServerAddress => Kind::Text,
        }
    }

    /// Whether `self` is the setting that `key` names in `section`.
    pub open spec fn is_at(self, section: Section, key: Seq<char>) -> bool {
        self.section() == section && self.key() == key
    }

    /// The setting that `key` names in `section`, if any.
    pub open spec fn find(section: Section, key: Seq<char>) -> Option<Field> {
        if Field::Environment.is_at(section, key) {
            Some(Field::Environment)
        } else if Field::ServerAddr.is_at(section, key) {
            Some(Field::ServerAddr)
        } else if Field::InboundLimit.is_at(section, key) {
            Some(Field::InboundLimit)
        } else if Field::KnownPeers.is_at(section, key) {
            Some(Field::KnownPeers)
        } else if Field::BootstrapPeersPeriod.is_at(section, key) {
            Some(Field::BootstrapPeersPeriod)
        } else if Field::StoragePeersPeriod.is_at(section, key) {
            Some(Field::StoragePeersPeriod)
        } else if Field::HandshakeTimeout.is_at(section, key) {
            Some(Field::HandshakeTimeout)
        } else if Field::DbPath.is_at(section, key) {
            Some(Field::DbPath)
        } else if Field::Enabled.is_at(section, key) {
            Some(Field::Enabled)
        } else if Field::ServerAddress.is_at(section, key) {
            Some(Field::ServerAddress)
        } else {
            None
        }
    }

    /// The table of the setting, as [`Field::section`] gives it.
    pub fn table(&self) -> (res: Section)
        ensures
            res == self.section(),
    {
        match self {
            Field::Environment => Section::Root,
            Field::ServerAddr
            | Field::InboundLimit
            | Field::KnownPeers
            | Field::BootstrapPeersPeriod
            | Field::StoragePeersPeriod
            | Field::HandshakeTimeout => Section::Connections,
            Field::DbPath => Section::Storage,
            Field::Enabled | Field::ServerAddress => Section::JsonRPC,
        }
    }

    /// The key of the setting, as [`Field::key`] gives it.
    pub fn name(&self) -> (res: &'static str)
        ensures
            res@ == self.key(),
    {
        match self {
            Field::Environment => "environment",
            Field::ServerAddr => "server_addr",
            Field::InboundLimit => "inbound_limit",
            Field::KnownPeers => "known_peers",
            Field::BootstrapPeersPeriod => "bootstrap_peers_period_seconds",
            Field::StoragePeersPeriod => "storage_peers_period_seconds",
            Field::HandshakeTimeout => "handshake_timeout_seconds",
            Field::DbPath => "db_path",
            Field::Enabled => "enabled",
            Field::ServerAddress => "server_address",
        }
    }

    /// The kind of value of the setting, as [`Field::kind`] gives it.
    pub fn value_kind(&self) -> (res: Kind)
        ensures
            res == self.kind(),
    {
        match self {
            Field::Environment | Field::ServerAddr | Field::DbPath | Field::ServerAddress => {
                Kind::Text
            },
            Field::InboundLimit
            | Field::BootstrapPeersPeriod
            | Field::StoragePeersPeriod
            | Field::HandshakeTimeout => Kind::Integer,
            Field::KnownPeers => Kind::TextArray,
            Field::Enabled => Kind::Boolean,
        }
    }

    /// Finds the setting that `key` names in `section`.
    pub fn lookup(section: Section, key: &str) -> (res: Option<Field>)
        ensures
            res == Field::find(section, key@),
    {
        match section {
            Section::Root => {
                if key.eq("environment") {
                    Some(Field::Environment)
                } else {
                    None
                }
            },
            Section::Connections => {
                if key.eq("server_addr") {
                    Some(Field::ServerAddr)
                } else if key.eq("inbound_limit") {
                    Some(Field::InboundLimit)
                } else if key.eq("known_peers") {
                    Some(Field::KnownPeers)
                } else if key.eq("bootstrap_peers_period_seconds") {
                    Some(Field::BootstrapPeersPeriod)
                } else if key.eq("storage_peers_period_seconds") {
                    Some(Field::StoragePeersPeriod)
                } else if key.eq("handshake_timeout_seconds") {
                    Some(Field::HandshakeTimeout)
                } else {
                    None
                }
            },
            Section::Storage => {
                if key.eq("db_path") {
                    Some(Field::DbPath)
                } else {
                    None
                }
            },
            Section::JsonRPC => {
                if key.eq("enabled") {
                    Some(Field::Enabled)
                } else if key.eq("server_address") {
                    Some(Field::ServerAddress)
                } else {
                    None
                }
            },
        }
    }
}

/// No two sections share a key, and no section has the key of the one
/// top-level setting.
pub proof fn lemma_section_keys_differ(s: Section)
    requires
        s != Section::Root,
    ensures
        Section::find(s.key()) == Some(s),
        Field::find(Section::Root, s.key()).is_none(),
{
    reveal_strlit("connections");
    reveal_strlit("storage");
    reveal_strlit("jsonrpc");
    reveal_strlit("environment");
    assert("connections"@.len() == 11);
    assert("storage"@.len() == 7);
    assert("jsonrpc"@[0] == 'j');
    assert("storage"@[0] == 's');
    assert("environment"@[0] == 'e');
    assert("connections"@[0] == 'c');
}

/// No two settings of one table share a key: looking up the key of a
/// setting in its table finds that setting, and finds no section.
pub proof fn lemma_field_keys_differ(f: Field)
    ensures
        Field::find(f.section(), f.key()) == Some(f),
        f.section() == Section::Root ==> Section::find(f.key()).is_none(),
{
    reveal_strlit("connections");
    reveal_strlit("storage");
    reveal_strlit("jsonrpc");
    reveal_strlit("environment");
    reveal_strlit("server_addr");
    reveal_strlit("inbound_limit");
    reveal_strlit("known_peers");
    reveal_strlit("bootstrap_peers_period_seconds");
    reveal_strlit("storage_peers_period_seconds");
    reveal_strlit("handshake_timeout_seconds");
    reveal_strlit("db_path");
    reveal_strlit("enabled");
    reveal_strlit("server_address");
    assert("environment"@.len() == 11 && "environment"@[0] == 'e');
    assert("connections"@[0] == 'c');
    assert("storage"@.len() == 7);
    assert("jsonrpc"@.len() == 7);
    assert("server_addr"@.len() == 11);
    assert("inbound_limit"@.len() == 13);
    assert("known_peers"@.len() == 11 && "known_peers"@[0] == 'k');
    assert("server_addr"@[0] == 's');
    assert("bootstrap_peers_period_seconds"@.len() == 30);
    assert("storage_peers_period_seconds"@.len() == 28);
    assert("handshake_timeout_seconds"@.len() == 25);
    assert("enabled"@.len() == 7);
    assert("server_address"@.len() == 14);
}

} // verus!
