//! Writing a partial configuration as TOML text.
//!
//! The text holds the environment first, where it is present, and then the
//! three sections, each under its header.  A setting that is absent has no
//! line.  Strings stand in double quotes, with the characters escaped that
//! may not stand there as they are.
use crate::address::NetworkAddress;
use crate::config::partial::{
    Config, ConfigView, Connections, ConnectionsView, JsonRPC, Storage, StorageView,
};
use crate::duration::Duration;
use crate::encode::{can_hold, representable};
use crate::environment::Environment;
use crate::schema::{Field, Section};
use crate::text::{decimal_text, digit_char, push_decimal};
use vstd::prelude::*;
use vstd::string::*;

verus! {

/// The hexadecimal digit that stands for `d`, for `d` below sixteen.
pub open spec fn hex_digit(d: nat) -> char {
    if d < 10 {
        digit_char(d)
    } else {
        ((87 + d) as u8) as char
    }
}

/// Whether `c` may not stand in a quoted string as it is: the quote, the
/// backslash, and the control characters.
pub open spec fn needs_escape(c: char) -> bool {
    c == '"' || c == '\\' || (c as u32) < 0x20 || c as u32 == 0x7f
}

/// What stands for `c` in a quoted string.
pub open spec fn escape(c: char) -> Seq<char> {
    if c == '"' {
        seq!['\\', '"']
    } else if c == '\\' {
        seq!['\\', '\\']
    } else if needs_escape(c) {
        seq!['\\', 'u', '0', '0', hex_digit((c as u32 / 16) as nat), hex_digit((c as u32 % 16) as nat)]
    } else {
        seq![c]
    }
}

/// What stands for the characters of `s` in a quoted string.
pub open spec fn escaped(s: Seq<char>) -> Seq<char>
    decreases s.len(),
{
    if s.len() == 0 {
        Seq::empty()
    } else {
        escaped(s.drop_last()) + escape(s.last())
    }
}

/// The quoted string that writes `s`.
pub open spec fn quoted(s: Seq<char>) -> Seq<char> {
    seq!['"'] + escaped(s) + seq!['"']
}

/// The line that gives `field` the value that `value` writes.
pub open spec fn setting_line(field: Field, value: Seq<char>) -> Seq<char> {
    field.key() + seq![' ', '=', ' '] + value + seq!['\n']
}

/// The line of `field`, or nothing where there is no value.
pub open spec fn optional_line(field: Field, value: Option<Seq<char>>) -> Seq<char> {
    match value {
        Some(value) => setting_line(field, value),
        None => Seq::empty(),
    }
}

/// The header under which the settings of `section` stand.
pub open spec fn header_line(section: Section) -> Seq<char> {
    seq!['['] + section.key() + seq![']', '\n']
}

/// What writes an environment.
pub open spec fn environment_text(given: Option<Environment>) -> Option<Seq<char>> {
    match given {
        Some(environment) => Some(quoted(environment.token())),
        None => None,
    }
}

/// What writes an address.
pub open spec fn address_text(given: Option<NetworkAddress>) -> Option<Seq<char>> {
    match given {
        Some(address) => Some(quoted(address.text())),
        None => None,
    }
}

/// What writes a limit.
pub open spec fn limit_text(given: Option<u16>) -> Option<Seq<char>> {
    match given {
        Some(limit) => Some(decimal_text(limit as nat)),
        None => None,
    }
}

/// What writes a span of time, in seconds.
pub open spec fn seconds_text(given: Option<Duration>) -> Option<Seq<char>> {
    match given {
        Some(duration) => Some(decimal_text(duration.secs as nat)),
        None => None,
    }
}

/// What writes a boolean.
pub open spec fn flag_text(given: Option<bool>) -> Option<Seq<char>> {
    match given {
        Some(flag) => Some(
            if flag {
                "true"@
            } else {
                "false"@
            },
        ),
        None => None,
    }
}

/// What writes a path.
pub open spec fn path_text(given: Option<Seq<char>>) -> Option<Seq<char>> {
    match given {
        Some(path) => Some(quoted(path)),
        None => None,
    }
}

/// The addresses of `peers`, each in quotes, with a comma and a space
/// between one and the next.
pub open spec fn peer_items_text(peers: Seq<NetworkAddress>) -> Seq<char>
    decreases peers.len(),
{
    if peers.len() == 0 {
        Seq::empty()
    } else if peers.len() == 1 {
        quoted(peers[0].text())
    } else {
        peer_items_text(peers.drop_last()) + seq![',', ' '] + quoted(peers.last().text())
    }
}

/// The array that writes a list of peers.
pub open spec fn peers_text(peers: Seq<NetworkAddress>) -> Seq<char> {
    seq!['['] + peer_items_text(peers) + seq![']']
}

/// The text of the section of the connections.
pub open spec fn connections_text(connections: ConnectionsView) -> Seq<char> {
    header_line(Section::Connections) + optional_line(
        Field::ServerAddr,
        address_text(connections.server_addr),
    ) + optional_line(Field::InboundLimit, limit_text(connections.inbound_limit)) + setting_line(
        Field::KnownPeers,
        peers_text(connections.known_peers),
    ) + optional_line(
        Field::BootstrapPeersPeriod,
        seconds_text(connections.bootstrap_peers_period),
    ) + optional_line(Field::StoragePeersPeriod, seconds_text(connections.storage_peers_period))
        + optional_line(Field::HandshakeTimeout, seconds_text(connections.handshake_timeout))
}

/// The text of the section of the storage.
pub open spec fn storage_text(storage: StorageView) -> Seq<char> {
    header_line(Section::Storage) + optional_line(Field::DbPath, path_text(storage.db_path))
}

/// The text of the section of the JSON-RPC interface.
pub open spec fn jsonrpc_text(jsonrpc: JsonRPC) -> Seq<char> {
    header_line(Section::JsonRPC) + optional_line(Field::Enabled, flag_text(jsonrpc.enabled))
        + optional_line(Field::ServerAddress, address_text(jsonrpc.server_address))
}

/// The TOML text that writes `config`.
pub open spec fn rendered(config: ConfigView) -> Seq<char> {
    optional_line(Field::Environment, environment_text(config.environment)) + connections_text(
        config.connections,
    ) + storage_text(config.storage) + jsonrpc_text(config.jsonrpc)
}

/// The hexadecimal digit of `d`.
fn hex_digit_of(d: u8) -> (res: char)
    requires
        d < 16,
    ensures
        res == hex_digit(d as nat),
{
    if d < 10 {
        (48u8 + d) as char
    } else {
        (87u8 + d) as char
    }
}

/// Appends what stands for `c` in a quoted string.
fn push_escape(out: &mut String, c: char)
    ensures
        final(out)@ == old(out)@ + escape(c),
{
    let code: u32 = c as u32;
    if c == '"' {
        out.push('\\');
        out.push('"');
    } else if c == '\\' {
        out.push('\\');
        out.push('\\');
    } else if code < 0x20 || code == 0x7f {
        out.push('\\');
        out.push('u');
        out.push('0');
        out.push('0');
        out.push(hex_digit_of((code / 16) as u8));
        out.push(hex_digit_of((code % 16) as u8));
    } else {
        out.push(c);
    }
    proof {
        assert(final(out)@ =~= old(out)@ + escape(c));
    }
}

/// Appends the quoted string that writes `text`.
fn push_quoted(out: &mut String, text: &str)
    ensures
        final(out)@ == old(out)@ + quoted(text@),
{
    let ghost start = out@;
    out.push('"');
    for c in it: text.chars()
        invariant
            it.seq() == text@,
            out@ == start + seq!['"'] + escaped(text@.take(it.index() as int)),
    {
        proof {
            let longer = text@.take(it.index() + 1);
            assert(longer.drop_last() =~= text@.take(it.index() as int));
            assert(longer.last() == c);
        }
        push_escape(out, c);
        proof {
            assert(out@ =~= start + seq!['"'] + escaped(text@.take(it.index() + 1)));
        }
    }
    proof {
        assert(text@.take(text@.len() as int) =~= text@);
    }
    out.push('"');
    proof {
        assert(out@ =~= start + quoted(text@));
    }
}

/// Appends the header of `section`.
fn push_header(out: &mut String, section: Section)
    ensures
        final(out)@ == old(out)@ + header_line(section),
{
    out.push('[');
    out.append(section.name());
    out.push(']');
    out.push('\n');
    proof {
        assert(final(out)@ =~= old(out)@ + header_line(section));
    }
}

/// Appends the key of `field` and the equals sign behind it.
fn push_key(out: &mut String, field: Field)
    ensures
        final(out)@ == old(out)@ + field.key() + seq![' ', '=', ' '],
{
    out.append(field.name());
    out.push(' ');
    out.push('=');
    out.push(' ');
    proof {
        assert(final(out)@ =~= old(out)@ + field.key() + seq![' ', '=', ' ']);
    }
}

/// Appends the line of a string, if one is given.
fn push_text_line(out: &mut String, field: Field, given: Option<&str>)
    ensures
        final(out)@ == old(out)@ + optional_line(
            field,
            match given {
                Some(text) => Some(quoted(text@)),
                None => None,
            },
        ),
{
    match given {
        Some(text) => {
            push_key(out, field);
            push_quoted(out, text);
            out.push('\n');
            proof {
                assert(final(out)@ =~= old(out)@ + setting_line(field, quoted(text@)));
            }
        },
        None => {
            proof {
                assert(out@ + Seq::empty() =~= out@);
            }
        },
    }
}

/// Appends the line of an address, if one is given.
fn push_address_line(out: &mut String, field: Field, given: Option<NetworkAddress>)
    ensures
        final(out)@ == old(out)@ + optional_line(field, address_text(given)),
{
    match given {
        Some(address) => {
            let text = address.render();
            push_text_line(out, field, Some(text.as_str()));
        },
        None => push_text_line(out, field, None),
    }
}

/// Appends the line of a number, if one is given.
fn push_number_line(out: &mut String, field: Field, given: Option<u64>)
    ensures
        final(out)@ == old(out)@ + optional_line(
            field,
            match given {
                Some(number) => Some(decimal_text(number as nat)),
                None => None,
            },
        ),
{
    match given {
        Some(number) => {
            push_key(out, field);
            push_decimal(out, number);
            out.push('\n');
            proof {
                assert(final(out)@ =~= old(out)@ + setting_line(
                    field,
                    decimal_text(number as nat),
                ));
            }
        },
        None => {
            proof {
                assert(out@ + Seq::empty() =~= out@);
            }
        },
    }
}

/// Appends the line of a span of time, if one is given.
fn push_seconds_line(out: &mut String, field: Field, given: Option<Duration>)
    ensures
        final(out)@ == old(out)@ + optional_line(field, seconds_text(given)),
{
    match given {
        Some(duration) => push_number_line(out, field, Some(duration.as_secs())),
        None => push_number_line(out, field, None),
    }
}

/// Appends the line of a limit, if one is given.
fn push_limit_line(out: &mut String, field: Field, given: Option<u16>)
    ensures
        final(out)@ == old(out)@ + optional_line(field, limit_text(given)),
{
    match given {
        Some(limit) => push_number_line(out, field, Some(limit as u64)),
        None => push_number_line(out, field, None),
    }
}

/// Appends the line of a boolean, if one is given.
fn push_flag_line(out: &mut String, field: Field, given: Option<bool>)
    ensures
        final(out)@ == old(out)@ + optional_line(field, flag_text(given)),
{
    match given {
        Some(flag) => {
            push_key(out, field);
            if flag {
                out.append("true");
            } else {
                out.append("false");
            }
            out.push('\n');
            proof {
                assert(final(out)@ =~= old(out)@ + optional_line(field, flag_text(given)));
            }
        },
        None => {
            proof {
                assert(out@ + Seq::empty() =~= out@);
            }
        },
    }
}

/// Appends the line of the list of peers.
fn push_peers_line(out: &mut String, peers: &Vec<NetworkAddress>)
    ensures
        final(out)@ == old(out)@ + setting_line(Field::KnownPeers, peers_text(peers@)),
{
    let ghost start = out@;
    push_key(out, Field::KnownPeers);
    out.push('[');
    let ghost head = out@;
    let mut at: usize = 0;
    while at < peers.len()
        invariant
            at <= peers.len(),
            head == start + Field::KnownPeers.key() + seq![' ', '=', ' '] + seq!['['],
            out@ == head + peer_items_text(peers@.take(at as int)),
        decreases peers.len() - at,
    {
        proof {
            let longer = peers@.take(at + 1);
            assert(longer.drop_last() =~= peers@.take(at as int));
            assert(longer.last() == peers@[at as int]);
            assert(longer[0] == peers@[0]);
        }
        if at > 0 {
            out.push(',');
            out.push(' ');
        }
        let text = peers[at].render();
        push_quoted(out, text.as_str());
        proof {
            assert(out@ =~= head + peer_items_text(peers@.take(at + 1)));
        }
        at = at + 1;
    }
    proof {
        assert(peers@.take(at as int) =~= peers@);
    }
    out.push(']');
    out.push('\n');
    proof {
        assert(out@ =~= start + setting_line(Field::KnownPeers, peers_text(peers@)));
    }
}

/// Appends the section of the connections.
fn push_connections(out: &mut String, connections: &Connections)
    ensures
        final(out)@ == old(out)@ + connections_text(connections@),
{
    let ghost start = out@;
    push_header(out, Section::Connections);
    push_address_line(out, Field::ServerAddr, connections.server_addr);
    push_limit_line(out, Field::InboundLimit, connections.inbound_limit);
    let ghost first = header_line(Section::Connections) + optional_line(
        Field::ServerAddr,
        address_text(connections.server_addr),
    ) + optional_line(Field::InboundLimit, limit_text(connections.inbound_limit));
    assert(out@ == start + first) by {
        assert(out@ =~= start + first);
    }
    push_peers_line(out, &connections.known_peers);
    push_seconds_line(out, Field::BootstrapPeersPeriod, connections.bootstrap_peers_period);
    let ghost second = first + setting_line(
        Field::KnownPeers,
        peers_text(connections.known_peers@),
    ) + optional_line(
        Field::BootstrapPeersPeriod,
        seconds_text(connections.bootstrap_peers_period),
    );
    assert(out@ == start + second) by {
        assert(out@ =~= start + second);
    }
    push_seconds_line(out, Field::StoragePeersPeriod, connections.storage_peers_period);
    push_seconds_line(out, Field::HandshakeTimeout, connections.handshake_timeout);
    assert(out@ == start + connections_text(connections@)) by {
        assert(out@ =~= start + (second + optional_line(
            Field::StoragePeersPeriod,
            seconds_text(connections.storage_peers_period),
        ) + optional_line(
            Field::HandshakeTimeout,
            seconds_text(connections.handshake_timeout),
        )));
    }
}

/// Appends the section of the storage.
fn push_storage(out: &mut String, storage: &Storage)
    ensures
        final(out)@ == old(out)@ + storage_text(storage@),
{
    push_header(out, Section::Storage);
    match &storage.db_path {
        Some(path) => push_text_line(out, Field::DbPath, Some(path.as_str())),
        None => push_text_line(out, Field::DbPath, None),
    }
    proof {
        assert(final(out)@ =~= old(out)@ + storage_text(storage@));
    }
}

/// Appends the section of the JSON-RPC interface.
fn push_jsonrpc(out: &mut String, jsonrpc: &JsonRPC)
    ensures
        final(out)@ == old(out)@ + jsonrpc_text(*jsonrpc),
{
    push_header(out, Section::JsonRPC);
    push_flag_line(out, Field::Enabled, jsonrpc.enabled);
    push_address_line(out, Field::ServerAddress, jsonrpc.server_address);
    proof {
        assert(final(out)@ =~= old(out)@ + jsonrpc_text(*jsonrpc));
    }
}

/// Writes a partial configuration as TOML text.
///
/// TOML holds no integer above `i64::MAX`: where a span of time of `config`
/// has more seconds than that, there is no text.
pub fn render(config: &Config) -> (res: Option<String>)
    ensures
        match res {
            Some(text) => representable(config@) && text@ == rendered(config@),
            None => !representable(config@),
        },
{
    let connections = &config.connections;
    if !can_hold(&connections.bootstrap_peers_period) || !can_hold(
        &connections.storage_peers_period,
    ) || !can_hold(&connections.handshake_timeout) {
        return None;
    }
    let mut out = String::new();
    match config.environment {
        Some(environment) => {
            let token = environment.render();
            push_text_line(&mut out, Field::Environment, Some(token.as_str()));
        },
        None => {},
    }
    let ghost first = optional_line(Field::Environment, environment_text(config.environment));
    assert(out@ == first) by {
        assert(out@ =~= first);
    }
    push_connections(&mut out, connections);
    push_storage(&mut out, &config.storage);
    push_jsonrpc(&mut out, &config.jsonrpc);
    Some(out)
}

} // verus!
