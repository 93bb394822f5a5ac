use std::io;
use witnet_config::address::NetworkAddress;
use witnet_config::config::{partial, resolve, Config, Connections, JsonRPC, Storage};
use witnet_config::defaults;
use witnet_config::duration::Duration;
use witnet_config::environment::Environment;
use witnet_config::error::ParseError;
use witnet_config::loaders::toml::{from_str, Error};
use witnet_config::path::FilePath;
use witnet_config::schema::{Field, Section};

fn loopback(port: u16) -> NetworkAddress {
    NetworkAddress { host: [127, 0, 0, 1], port }
}

fn all_defaults() -> Config {
    Config {
        environment: Environment::Mainnet,
        connections: Connections {
            server_addr: loopback(21337),
            inbound_limit: 128,
            known_peers: vec![],
            bootstrap_peers_period: Duration::from_secs(5),
            storage_peers_period: Duration::from_secs(30),
            handshake_timeout: Duration::from_secs(10),
        },
        storage: Storage { db_path: FilePath::from(".wit") },
        jsonrpc: JsonRPC { enabled: true, server_address: loopback(21338) },
    }
}

fn parse_error(result: Result<Config, Error>) -> ParseError {
    match result {
        Err(Error::ParseError(error)) => error,
        other => panic!("expected a ParseError, got {:?}", other),
    }
}

#[test]
fn the_defaults_are_as_documented() {
    assert_eq!(defaults::environment(), Environment::Mainnet);
    assert_eq!(defaults::connections_server_addr(), loopback(21337));
    assert_eq!(defaults::connections_inbound_limit(), 128);
    assert_eq!(defaults::connections_known_peers(), vec![]);
    assert_eq!(defaults::connections_bootstrap_peers_period(), Duration::from_secs(5));
    assert_eq!(defaults::connections_storage_peers_period(), Duration::from_secs(30));
    assert_eq!(defaults::connections_handshake_timeout(), Duration::from_secs(10));
    assert_eq!(defaults::storage_db_path(), FilePath::from(".wit"));
    assert!(defaults::jsonrpc_enabled());
    assert_eq!(defaults::jsonrpc_server_address(), loopback(21338));
    assert_eq!(Config::default(), all_defaults());
}

#[test]
fn the_empty_text_resolves_to_the_defaults() {
    let config = Config::from_text("").unwrap();
    assert_eq!(config, resolve(partial::Config::default()));
    assert_eq!(config, all_defaults());
}

#[test]
fn a_text_that_sets_only_the_environment_leaves_the_rest_at_the_defaults() {
    assert_eq!(Config::from_text("environment = \"mainnet\"").unwrap(), all_defaults());
    let mut expected = all_defaults();
    expected.environment = Environment::Testnet1;
    assert_eq!(Config::from_text("environment = \"testnet-1\"").unwrap(), expected);
}

#[test]
fn an_unknown_environment_is_a_parse_error() {
    let error = parse_error(Config::from_text("environment = \"wrong-token\""));
    assert_eq!(error, ParseError::UnknownEnvironment);
}

#[test]
fn connections_resolve_setting_by_setting() {
    let config = Config::from_text(
        "[connections]\nserver_addr = '127.0.0.1:1234'\nknown_peers = ['192.168.1.12:1234']\n",
    )
    .unwrap();
    let mut expected = all_defaults();
    expected.connections.server_addr = loopback(1234);
    expected.connections.known_peers = vec![NetworkAddress { host: [192, 168, 1, 12], port: 1234 }];
    assert_eq!(config, expected);
    assert_eq!(config.connections.known_peers.len(), 1);

    let empty = Config::from_text("[connections]").unwrap();
    assert_eq!(empty.connections.known_peers.len(), 0);
    assert_eq!(empty, all_defaults());
}

#[test]
fn peers_keep_their_order_and_their_repetitions() {
    let config = Config::from_text(
        "[connections]\nknown_peers = ['9.9.9.9:9', '1.1.1.1:1', '9.9.9.9:9']\n",
    )
    .unwrap();
    assert_eq!(
        config.connections.known_peers,
        vec![
            NetworkAddress { host: [9, 9, 9, 9], port: 9 },
            NetworkAddress { host: [1, 1, 1, 1], port: 1 },
            NetworkAddress { host: [9, 9, 9, 9], port: 9 },
        ]
    );
}

#[test]
fn durations_resolve_to_what_is_given_or_to_defaults_that_are_not_zero() {
    let config = Config::from_text(
        "[connections]\nbootstrap_peers_period_seconds = 11\nstorage_peers_period_seconds = 7\nhandshake_timeout_seconds = 21\n",
    )
    .unwrap();
    assert_eq!(config.connections.bootstrap_peers_period, Duration::from_secs(11));
    assert_eq!(config.connections.storage_peers_period, Duration::from_secs(7));
    assert_eq!(config.connections.handshake_timeout, Duration::from_secs(21));

    let config = Config::from_text("[connections]\nstorage_peers_period_seconds = 0\n").unwrap();
    assert_eq!(config.connections.storage_peers_period, Duration::from_secs(0));
    assert_eq!(config.connections.bootstrap_peers_period, Duration::from_secs(5));
    assert_eq!(config.connections.handshake_timeout, Duration::from_secs(10));
    assert_ne!(config.connections.bootstrap_peers_period, Duration::from_secs(0));
    assert_ne!(config.connections.handshake_timeout, Duration::from_secs(0));
}

#[test]
fn jsonrpc_is_enabled_unless_the_text_says_otherwise() {
    assert!(!Config::from_text("[jsonrpc]\nenabled = false\n").unwrap().jsonrpc.enabled);
    assert!(Config::from_text("[jsonrpc]\nenabled = true\n").unwrap().jsonrpc.enabled);
    assert!(Config::from_text("[jsonrpc]\n").unwrap().jsonrpc.enabled);
    assert!(Config::from_text("[storage]\n").unwrap().jsonrpc.enabled);
}

#[test]
fn no_setting_bears_on_another() {
    let config = Config::from_text(
        "[jsonrpc]\nenabled = false\nserver_address = '0.0.0.0:0'\n[connections]\ninbound_limit = 0\n",
    )
    .unwrap();
    let mut expected = all_defaults();
    expected.jsonrpc = JsonRPC {
        enabled: false,
        server_address: NetworkAddress { host: [0, 0, 0, 0], port: 0 },
    };
    expected.connections.inbound_limit = 0;
    assert_eq!(config, expected);
}

#[test]
fn resolving_twice_gives_the_same() {
    let partial = from_str("environment = 'testnet-1'\n[storage]\ndb_path = 'x'\n").unwrap();
    let first = resolve(partial.clone());
    let second = resolve(partial);
    assert_eq!(first, second);
    assert_eq!(resolve(first.to_partial()), first);
}

#[test]
fn a_configuration_that_was_written_loads_as_itself() {
    let mut overridden = all_defaults();
    overridden.environment = Environment::Testnet1;
    overridden.connections.inbound_limit = 999;
    overridden.connections.known_peers =
        vec![NetworkAddress { host: [192, 168, 1, 12], port: 1234 }, loopback(1)];
    overridden.connections.handshake_timeout = Duration::from_secs(21);
    overridden.storage.db_path = FilePath::from("data \"base\"\\dir\n");
    overridden.jsonrpc.enabled = false;
    for config in [all_defaults(), overridden] {
        let written = config.render().unwrap();
        assert_eq!(Config::from_text(&written).unwrap(), config);
    }
}

#[test]
fn a_configuration_with_a_span_beyond_toml_cannot_be_written() {
    let mut config = all_defaults();
    config.connections.bootstrap_peers_period = Duration::from_secs(9223372036854775808);
    assert_eq!(config.render(), None);
}

#[test]
fn strict_schema_refuses_what_it_does_not_know() {
    assert_eq!(
        parse_error(Config::from_text("[mempool]\nsize = 1\n")),
        ParseError::UnknownField(Section::Root, "mempool".to_string())
    );
    assert_eq!(
        parse_error(Config::from_text("[connections]\noutbound_limit = 8\n")),
        ParseError::UnknownField(Section::Connections, "outbound_limit".to_string())
    );
    assert_eq!(
        parse_error(Config::from_text("[connections.inner]\nx = 1\n")),
        ParseError::UnknownField(Section::Connections, "inner".to_string())
    );
}

#[test]
fn mismatched_values_are_parse_errors() {
    assert_eq!(
        parse_error(Config::from_text("[connections]\ninbound_limit = '999'\n")),
        ParseError::WrongType(Field::InboundLimit)
    );
    assert_eq!(
        parse_error(Config::from_text("[connections]\nhandshake_timeout_seconds = 1.5\n")),
        ParseError::WrongType(Field::HandshakeTimeout)
    );
    assert_eq!(
        parse_error(Config::from_text("[connections]\nhandshake_timeout_seconds = -1\n")),
        ParseError::OutOfRange(Field::HandshakeTimeout)
    );
    assert_eq!(
        parse_error(Config::from_text("[connections]\ninbound_limit = 65536\n")),
        ParseError::OutOfRange(Field::InboundLimit)
    );
    assert_eq!(
        parse_error(Config::from_text("[connections]\nserver_addr = 'nowhere'\n")),
        ParseError::InvalidAddress
    );
    assert_eq!(
        parse_error(Config::from_text("connections = 1\n")),
        ParseError::NotATable(Section::Connections)
    );
}

#[test]
fn malformed_text_is_a_syntax_error_in_the_parsers_words() {
    let error = parse_error(Config::from_text("environment = \n"));
    match &error {
        ParseError::Syntax(message) => assert!(!message.is_empty()),
        other => panic!("expected a syntax error, got {:?}", other),
    }
    let message = error.message();
    assert_eq!(ParseError::Syntax(message.clone()), error);
    assert_eq!(Error::ParseError(error).message(), message);
}

#[test]
fn an_unreadable_file_is_an_io_error_and_no_parse_error() {
    let failure = io::Error::new(io::ErrorKind::PermissionDenied, "permission denied");
    match Config::from_file(Err(failure)) {
        Err(Error::IOError(error)) => {
            assert_eq!(error.kind(), io::ErrorKind::PermissionDenied);
            assert_eq!(Error::IOError(error).message(), "permission denied");
        },
        other => panic!("expected an IOError, got {:?}", other),
    }
}

#[test]
fn a_file_that_was_read_loads_as_its_contents_do() {
    let contents = "environment = 'testnet-1'\n[connections]\ninbound_limit = 999\n";
    let config = Config::from_file(Ok(contents.to_string())).unwrap();
    assert_eq!(config, Config::from_text(contents).unwrap());
    assert_eq!(config.environment, Environment::Testnet1);
    assert_eq!(config.connections.inbound_limit, 999);
    assert_eq!(
        parse_error(Config::from_file(Ok("environment = 'wrong'".to_string()))),
        ParseError::UnknownEnvironment
    );
}
