use std::io;
use std::path::Path;
use witnet_config::config::partial::{Config, Connections, JsonRPC, Storage};
use witnet_config::duration::Duration;
use witnet_config::environment::Environment;
use witnet_config::loaders::toml::{from_file, from_str, Error};
use witnet_config::path::FilePath;

/// Stands for the reading of a file: whatever the file's name, it holds
/// `contents`.
fn read_file_contents(_filename: &Path, contents: &str) -> io::Result<String> {
    Ok(contents.to_string())
}

#[test]
fn test_load_empty_config() {
    let config = from_str("").unwrap();

    assert_eq!(config, Config::default());
}

#[test]
fn test_load_empty_config_from_file() {
    let filename = Path::new("config.toml");
    let config = from_file(read_file_contents(filename, "")).unwrap();

    assert_eq!(config, Config::default());
}

#[test]
fn test_load_config_from_file() {
    let filename = Path::new("config.toml");
    let config = from_file(read_file_contents(
        filename,
        r"
environment = 'testnet-1'
[connections]
inbound_limit = 999
",
    ))
    .unwrap();

    assert_eq!(config.environment, Some(Environment::Testnet1));
    assert_eq!(config.connections.inbound_limit, Some(999));
}

#[test]
fn test_configure_environment() {
    let config = from_str("environment = 'mainnet'").unwrap();
    let result = from_str("environment = 'wrong'");

    assert_eq!(config.environment, Some(Environment::Mainnet));
    assert!(result.is_err());
}

#[test]
fn test_configure_connections() {
    let empty_config = from_str("[connections]").unwrap();
    let config = from_str(
        r"
[connections]
server_addr = '127.0.0.1:1234'
known_peers = ['192.168.1.12:1234']
",
    )
    .unwrap();

    assert_eq!(empty_config.connections, Connections::default());
    assert_eq!(empty_config.connections.known_peers.len(), 0);
    assert_eq!(
        config.connections.server_addr,
        Some("127.0.0.1:1234".parse().unwrap())
    );
    assert_eq!(config.connections.known_peers.len(), 1);
}

#[test]
fn test_configure_storage() {
    let empty_config = from_str("[storage]").unwrap();
    let config = from_str(
        r"
[storage]
db_path = 'dbfiles'
",
    )
    .unwrap();

    assert_eq!(empty_config.storage, Storage::default());
    assert_eq!(config.storage.db_path, Some(FilePath::from("dbfiles")));
}

#[test]
fn test_load_durations() {
    let empty_config = from_str("[storage]").unwrap();
    let config = from_str(
        r"
[connections]
bootstrap_peers_period_seconds = 11
storage_peers_period_seconds = 7
handshake_timeout_seconds = 21
",
    )
    .unwrap();

    // Check default values in empty config
    assert_eq!(
        empty_config.connections.bootstrap_peers_period,
        Connections::default().bootstrap_peers_period
    );
    assert_eq!(
        empty_config.connections.storage_peers_period,
        Connections::default().storage_peers_period
    );
    assert_eq!(
        empty_config.connections.handshake_timeout,
        Connections::default().handshake_timeout
    );

    // Check values in initialized config
    assert_eq!(
        config.connections.bootstrap_peers_period,
        Some(Duration::from_secs(11))
    );
    assert_eq!(
        config.connections.storage_peers_period,
        Some(Duration::from_secs(7))
    );
    assert_eq!(
        config.connections.handshake_timeout,
        Some(Duration::from_secs(21))
    );
}

#[test]
fn test_configure_jsonrpc() {
    let empty_config = from_str("[jsonrpc]").unwrap();
    let config = from_str(
        r"
[jsonrpc]
server_address = '127.0.0.1:1234'
",
    )
    .unwrap();
    let config_disabled = from_str(
        r"
[jsonrpc]
enabled = false
",
    )
    .unwrap();

    assert_eq!(empty_config.jsonrpc, JsonRPC::default());
    assert_eq!(
        config.jsonrpc.server_address,
        Some("127.0.0.1:1234".parse().unwrap())
    );
    assert_eq!(config_disabled.jsonrpc.enabled, Some(false),);
}

#[test]
fn a_file_that_cannot_be_read_is_an_io_error() {
    let failure = io::Error::new(io::ErrorKind::NotFound, "no such file");
    let result = from_file(Err(failure));

    match result {
        Err(Error::IOError(error)) => assert_eq!(error.kind(), io::ErrorKind::NotFound),
        other => panic!("expected an IOError, got {:?}", other),
    }
}
