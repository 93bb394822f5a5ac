use witnet_config::address::NetworkAddress;
use witnet_config::config::partial::{Config, Connections, JsonRPC, Storage};
use witnet_config::decode::decode;
use witnet_config::document::{parse, Item};
use witnet_config::duration::Duration;
use witnet_config::encode::encode;
use witnet_config::environment::Environment;
use witnet_config::error::ParseError;
use witnet_config::path::FilePath;
use witnet_config::render::render;
use witnet_config::schema::{Field, Kind, Section};

fn text(s: &str) -> Item {
    Item::Text(s.to_string())
}

fn table(entries: Vec<(&str, Item)>) -> Item {
    Item::Table(entries.into_iter().map(|(key, item)| (key.to_string(), item)).collect())
}

fn full_config() -> Config {
    Config {
        environment: Some(Environment::Testnet1),
        connections: Connections {
            server_addr: Some(NetworkAddress { host: [10, 0, 0, 7], port: 4000 }),
            inbound_limit: Some(0),
            known_peers: vec![
                NetworkAddress { host: [192, 168, 1, 12], port: 1234 },
                NetworkAddress { host: [8, 8, 8, 8], port: 53 },
                NetworkAddress { host: [192, 168, 1, 12], port: 1234 },
            ],
            bootstrap_peers_period: Some(Duration::from_secs(11)),
            storage_peers_period: Some(Duration::from_secs(0)),
            handshake_timeout: Some(Duration::from_secs(9223372036854775807)),
        },
        storage: Storage { db_path: Some(FilePath::from("C:\\data\\\"wit\"\n\t\u{7f}\u{1}\u{e9}")) },
        jsonrpc: JsonRPC {
            enabled: Some(false),
            server_address: Some(NetworkAddress { host: [127, 0, 0, 1], port: 1 }),
        },
    }
}

#[test]
fn parse_reads_the_empty_text_as_the_empty_table() {
    assert_eq!(parse("").unwrap(), Item::Table(vec![]));
    assert_eq!(parse("  \n# nothing here\n").unwrap(), Item::Table(vec![]));
}

#[test]
fn parse_keeps_every_kind_of_value() {
    let document = parse(
        r#"
s = "a\"b"
i = -42
f = 1.5
b = true
d = 1979-05-27T07:32:00Z
a = [1, 2]
[t]
k = 'v'
"#,
    )
    .unwrap();
    assert_eq!(
        document,
        table(vec![
            ("a", Item::Array(vec![Item::Integer(1), Item::Integer(2)])),
            ("b", Item::Boolean(true)),
            ("d", Item::Datetime),
            ("f", Item::Float),
            ("i", Item::Integer(-42)),
            ("s", text("a\"b")),
            ("t", table(vec![("k", text("v"))])),
        ])
    );
}

#[test]
fn parse_keeps_nested_arrays_and_tables() {
    let document = parse("a = [[1], [\"x\", \"y\"]]\n[t.u]\nv = { w = false }\n").unwrap();
    assert_eq!(
        document,
        table(vec![
            (
                "a",
                Item::Array(vec![
                    Item::Array(vec![Item::Integer(1)]),
                    Item::Array(vec![text("x"), text("y")]),
                ]),
            ),
            ("t", table(vec![("u", table(vec![("v", table(vec![("w", Item::Boolean(false))]))]))])),
        ])
    );
}

#[test]
fn parse_hands_out_the_entries_in_the_order_of_their_keys() {
    let document = parse("z = 1\nm = 2\na = 3\n").unwrap();
    assert_eq!(
        document,
        table(vec![("a", Item::Integer(3)), ("m", Item::Integer(2)), ("z", Item::Integer(1))])
    );
}

#[test]
fn parse_refuses_what_is_no_toml() {
    for bad in ["a = ", "= 1", "[a", "a = 1\na = 2", "a = \"x", "a = [1, \"x\"]"] {
        match parse(bad) {
            Err(ParseError::Syntax(message)) => assert!(!message.is_empty(), "{:?}", bad),
            other => panic!("expected a syntax error for {:?}, got {:?}", bad, other),
        }
    }
    assert_eq!(
        parse("a = "),
        Err(ParseError::Syntax("unexpected eof encountered at line 1".to_string()))
    );
}

#[test]
fn decode_reads_the_empty_table_as_nothing_set() {
    assert_eq!(decode(&Item::Table(vec![])).unwrap(), Config::default());
}

#[test]
fn decode_reads_every_setting() {
    let document = table(vec![
        ("environment", text("testnet-1")),
        (
            "connections",
            table(vec![
                ("server_addr", text("10.0.0.7:4000")),
                ("inbound_limit", Item::Integer(65535)),
                ("known_peers", Item::Array(vec![text("1.2.3.4:5"), text("6.7.8.9:10")])),
                ("bootstrap_peers_period_seconds", Item::Integer(11)),
                ("storage_peers_period_seconds", Item::Integer(7)),
                ("handshake_timeout_seconds", Item::Integer(21)),
            ]),
        ),
        ("storage", table(vec![("db_path", text("dbfiles"))])),
        (
            "jsonrpc",
            table(vec![("enabled", Item::Boolean(false)), ("server_address", text("127.0.0.1:1"))]),
        ),
    ]);
    let expected = Config {
        environment: Some(Environment::Testnet1),
        connections: Connections {
            server_addr: Some(NetworkAddress { host: [10, 0, 0, 7], port: 4000 }),
            inbound_limit: Some(65535),
            known_peers: vec![
                NetworkAddress { host: [1, 2, 3, 4], port: 5 },
                NetworkAddress { host: [6, 7, 8, 9], port: 10 },
            ],
            bootstrap_peers_period: Some(Duration::from_secs(11)),
            storage_peers_period: Some(Duration::from_secs(7)),
            handshake_timeout: Some(Duration::from_secs(21)),
        },
        storage: Storage { db_path: Some(FilePath::from("dbfiles")) },
        jsonrpc: JsonRPC {
            enabled: Some(false),
            server_address: Some(NetworkAddress { host: [127, 0, 0, 1], port: 1 }),
        },
    };
    assert_eq!(decode(&document).unwrap(), expected);
}

#[test]
fn decode_lets_the_later_of_two_entries_decide() {
    let document = table(vec![
        ("environment", text("testnet-1")),
        ("jsonrpc", table(vec![("enabled", Item::Boolean(false))])),
        ("environment", text("mainnet")),
        (
            "jsonrpc",
            table(vec![("enabled", Item::Boolean(true)), ("enabled", Item::Boolean(false))]),
        ),
        ("jsonrpc", table(vec![("server_address", text("1.1.1.1:1"))])),
    ]);
    let config = decode(&document).unwrap();
    assert_eq!(config.environment, Some(Environment::Mainnet));
    assert_eq!(config.jsonrpc.enabled, Some(false));
    assert_eq!(config.jsonrpc.server_address, Some(NetworkAddress { host: [1, 1, 1, 1], port: 1 }));
}

#[test]
fn decode_refuses_a_document_that_is_no_table() {
    assert_eq!(decode(&Item::Integer(1)), Err(ParseError::NotATable(Section::Root)));
    assert_eq!(decode(&Item::Array(vec![])), Err(ParseError::NotATable(Section::Root)));
}

#[test]
fn decode_refuses_a_section_that_is_no_table() {
    assert_eq!(
        decode(&table(vec![("connections", Item::Integer(3))])),
        Err(ParseError::NotATable(Section::Connections))
    );
    assert_eq!(
        decode(&table(vec![("storage", text("dbfiles"))])),
        Err(ParseError::NotATable(Section::Storage))
    );
    assert_eq!(
        decode(&table(vec![("jsonrpc", Item::Array(vec![]))])),
        Err(ParseError::NotATable(Section::JsonRPC))
    );
}

#[test]
fn decode_refuses_unknown_keys() {
    assert_eq!(
        decode(&table(vec![("mempool", table(vec![]))])),
        Err(ParseError::UnknownField(Section::Root, "mempool".to_string()))
    );
    assert_eq!(
        decode(&table(vec![("connections", table(vec![("outbound_limit", Item::Integer(8))]))])),
        Err(ParseError::UnknownField(Section::Connections, "outbound_limit".to_string()))
    );
    assert_eq!(
        decode(&table(vec![("storage", table(vec![("enabled", Item::Boolean(true))]))])),
        Err(ParseError::UnknownField(Section::Storage, "enabled".to_string()))
    );
    assert_eq!(
        decode(&table(vec![("jsonrpc", table(vec![("environment", text("mainnet"))]))])),
        Err(ParseError::UnknownField(Section::JsonRPC, "environment".to_string()))
    );
    assert_eq!(
        decode(&table(vec![("server_addr", text("1.2.3.4:5"))])),
        Err(ParseError::UnknownField(Section::Root, "server_addr".to_string()))
    );
}

#[test]
fn decode_refuses_values_of_the_wrong_kind() {
    let cases = vec![
        (table(vec![("environment", Item::Integer(1))]), Field::Environment),
        (
            table(vec![("connections", table(vec![("server_addr", Item::Integer(1))]))]),
            Field::ServerAddr,
        ),
        (
            table(vec![("connections", table(vec![("inbound_limit", text("999"))]))]),
            Field::InboundLimit,
        ),
        (
            table(vec![("connections", table(vec![("inbound_limit", Item::Float)]))]),
            Field::InboundLimit,
        ),
        (
            table(vec![("connections", table(vec![("known_peers", text("1.2.3.4:5"))]))]),
            Field::KnownPeers,
        ),
        (
            table(vec![(
                "connections",
                table(vec![("known_peers", Item::Array(vec![text("1.2.3.4:5"), Item::Integer(6)]))]),
            )]),
            Field::KnownPeers,
        ),
        (
            table(vec![(
                "connections",
                table(vec![("bootstrap_peers_period_seconds", Item::Datetime)]),
            )]),
            Field::BootstrapPeersPeriod,
        ),
        (
            table(vec![(
                "connections",
                table(vec![("storage_peers_period_seconds", Item::Boolean(true))]),
            )]),
            Field::StoragePeersPeriod,
        ),
        (
            table(vec![("connections", table(vec![("handshake_timeout_seconds", text("21"))]))]),
            Field::HandshakeTimeout,
        ),
        (table(vec![("storage", table(vec![("db_path", Item::Integer(0))]))]), Field::DbPath),
        (table(vec![("jsonrpc", table(vec![("enabled", text("false"))]))]), Field::Enabled),
        (
            table(vec![("jsonrpc", table(vec![("server_address", table(vec![]))]))]),
            Field::ServerAddress,
        ),
    ];
    for (document, field) in cases {
        assert_eq!(decode(&document), Err(ParseError::WrongType(field)));
    }
}

#[test]
fn decode_refuses_integers_out_of_range() {
    let limit = |n: i64| table(vec![("connections", table(vec![("inbound_limit", Item::Integer(n))]))]);
    assert_eq!(decode(&limit(-1)), Err(ParseError::OutOfRange(Field::InboundLimit)));
    assert_eq!(decode(&limit(65536)), Err(ParseError::OutOfRange(Field::InboundLimit)));
    assert_eq!(decode(&limit(0)).unwrap().connections.inbound_limit, Some(0));
    assert_eq!(decode(&limit(65535)).unwrap().connections.inbound_limit, Some(65535));
    let timeout = |n: i64| {
        table(vec![("connections", table(vec![("handshake_timeout_seconds", Item::Integer(n))]))])
    };
    assert_eq!(decode(&timeout(-1)), Err(ParseError::OutOfRange(Field::HandshakeTimeout)));
    assert_eq!(
        decode(&timeout(0)).unwrap().connections.handshake_timeout,
        Some(Duration::from_secs(0))
    );
}

#[test]
fn decode_refuses_unknown_environments_and_malformed_addresses() {
    assert_eq!(
        decode(&table(vec![("environment", text("wrong-token"))])),
        Err(ParseError::UnknownEnvironment)
    );
    assert_eq!(
        decode(&table(vec![("jsonrpc", table(vec![("server_address", text("localhost:1"))]))])),
        Err(ParseError::InvalidAddress)
    );
    assert_eq!(
        decode(&table(vec![(
            "connections",
            table(vec![("known_peers", Item::Array(vec![text("1.2.3.4:5"), text("1.2.3.4")]))]),
        )])),
        Err(ParseError::InvalidAddress)
    );
}

#[test]
fn decode_reports_the_first_error() {
    let document = table(vec![
        ("environment", text("mainnet")),
        ("storage", table(vec![("db_path", text("x")), ("size", Item::Integer(1))])),
        ("environment", text("wrong")),
        ("unknown", Item::Integer(1)),
    ]);
    assert_eq!(
        decode(&document),
        Err(ParseError::UnknownField(Section::Storage, "size".to_string()))
    );
}

#[test]
fn errors_describe_themselves() {
    let cases = vec![
        (ParseError::TooDeep, "the text nests too deep"),
        (ParseError::Syntax("expected a value at line 1".to_string()), "expected a value at line 1"),
        (ParseError::NotATable(Section::Root), "the document is not a table"),
        (ParseError::NotATable(Section::JsonRPC), "jsonrpc: expected a table"),
        (ParseError::UnknownField(Section::Root, "mempool".to_string()), "mempool: unknown field"),
        (
            ParseError::UnknownField(Section::Connections, "x.y".to_string()),
            "connections.x.y: unknown field",
        ),
        (ParseError::WrongType(Field::Environment), "environment: expected a string"),
        (
            ParseError::WrongType(Field::InboundLimit),
            "connections.inbound_limit: expected an integer",
        ),
        (
            ParseError::WrongType(Field::KnownPeers),
            "connections.known_peers: expected an array of strings",
        ),
        (ParseError::WrongType(Field::Enabled), "jsonrpc.enabled: expected a boolean"),
        (ParseError::WrongType(Field::DbPath), "storage.db_path: expected a string"),
        (
            ParseError::OutOfRange(Field::HandshakeTimeout),
            "connections.handshake_timeout_seconds: integer out of range",
        ),
        (ParseError::UnknownEnvironment, "unknown environment"),
        (ParseError::InvalidAddress, "invalid address"),
        (ParseError::InvalidDuration, "invalid duration"),
    ];
    for (error, expected) in cases {
        assert_eq!(error.message(), expected);
    }
}

#[test]
fn the_schema_names_every_setting() {
    let fields = [
        (Field::Environment, Section::Root, "environment", Kind::Text),
        (Field::ServerAddr, Section::Connections, "server_addr", Kind::Text),
        (Field::InboundLimit, Section::Connections, "inbound_limit", Kind::Integer),
        (Field::KnownPeers, Section::Connections, "known_peers", Kind::TextArray),
        (
            Field::BootstrapPeersPeriod,
            Section::Connections,
            "bootstrap_peers_period_seconds",
            Kind::Integer,
        ),
        (
            Field::StoragePeersPeriod,
            Section::Connections,
            "storage_peers_period_seconds",
            Kind::Integer,
        ),
        (Field::HandshakeTimeout, Section::Connections, "handshake_timeout_seconds", Kind::Integer),
        (Field::DbPath, Section::Storage, "db_path", Kind::Text),
        (Field::Enabled, Section::JsonRPC, "enabled", Kind::Boolean),
        (Field::ServerAddress, Section::JsonRPC, "server_address", Kind::Text),
    ];
    for (field, section, key, kind) in fields {
        assert_eq!(field.table(), section);
        assert_eq!(field.name(), key);
        assert_eq!(field.value_kind(), kind);
        assert_eq!(Field::lookup(section, key), Some(field));
        for other in [Section::Root, Section::Connections, Section::Storage, Section::JsonRPC] {
            if other != section {
                assert_eq!(Field::lookup(other, key), None);
            }
        }
    }
    assert_eq!(Field::lookup(Section::Connections, "outbound_limit"), None);
    assert_eq!(Field::lookup(Section::Connections, ""), None);
}

#[test]
fn the_schema_names_every_section() {
    for (section, key) in [
        (Section::Connections, "connections"),
        (Section::Storage, "storage"),
        (Section::JsonRPC, "jsonrpc"),
    ] {
        assert_eq!(section.name(), key);
        assert_eq!(Section::lookup(key), Some(section));
    }
    assert_eq!(Section::Root.name(), "");
    assert_eq!(Section::lookup(""), None);
    assert_eq!(Section::lookup("environment"), None);
    assert_eq!(Section::lookup("Connections"), None);
}

#[test]
fn encode_writes_the_tables_in_the_order_of_their_keys() {
    let config = Config {
        environment: Some(Environment::Mainnet),
        connections: Connections {
            server_addr: Some(NetworkAddress { host: [1, 2, 3, 4], port: 5 }),
            inbound_limit: Some(9),
            known_peers: vec![NetworkAddress { host: [6, 7, 8, 9], port: 10 }],
            bootstrap_peers_period: None,
            storage_peers_period: Some(Duration::from_secs(30)),
            handshake_timeout: None,
        },
        storage: Storage { db_path: None },
        jsonrpc: JsonRPC { enabled: Some(true), server_address: None },
    };
    assert_eq!(
        encode(&config).unwrap(),
        table(vec![
            (
                "connections",
                table(vec![
                    ("inbound_limit", Item::Integer(9)),
                    ("known_peers", Item::Array(vec![text("6.7.8.9:10")])),
                    ("server_addr", text("1.2.3.4:5")),
                    ("storage_peers_period_seconds", Item::Integer(30)),
                ]),
            ),
            ("environment", text("mainnet")),
            ("jsonrpc", table(vec![("enabled", Item::Boolean(true))])),
            ("storage", table(vec![])),
        ])
    );
}

#[test]
fn a_document_that_was_written_reads_back() {
    for config in [Config::default(), full_config()] {
        let document = encode(&config).unwrap();
        assert_eq!(decode(&document).unwrap(), config);
    }
}

#[test]
fn render_writes_one_line_for_each_setting_that_is_present() {
    assert_eq!(
        render(&Config::default()).unwrap(),
        "[connections]\nknown_peers = []\n[storage]\n[jsonrpc]\n"
    );
    assert_eq!(
        render(&full_config()).unwrap(),
        concat_lines(&[
            "environment = \"testnet-1\"",
            "[connections]",
            "server_addr = \"10.0.0.7:4000\"",
            "inbound_limit = 0",
            "known_peers = [\"192.168.1.12:1234\", \"8.8.8.8:53\", \"192.168.1.12:1234\"]",
            "bootstrap_peers_period_seconds = 11",
            "storage_peers_period_seconds = 0",
            "handshake_timeout_seconds = 9223372036854775807",
            "[storage]",
            "db_path = \"C:\\\\data\\\\\\\"wit\\\"\\u000a\\u0009\\u007f\\u0001\u{e9}\"",
            "[jsonrpc]",
            "enabled = false",
            "server_address = \"127.0.0.1:1\"",
        ])
    );
}

fn concat_lines(lines: &[&str]) -> String {
    let mut out = String::new();
    for line in lines {
        out.push_str(line);
        out.push('\n');
    }
    out
}

#[test]
fn a_text_that_was_written_parses_as_the_document_that_was_written() {
    for config in [Config::default(), full_config()] {
        let written = render(&config).unwrap();
        assert_eq!(parse(&written).unwrap(), encode(&config).unwrap());
    }
}

#[test]
fn every_character_of_a_path_reads_back() {
    let mut every = String::new();
    for code in 0u32..0x300 {
        every.push(char::from_u32(code).unwrap());
    }
    every.push('\u{ffff}');
    every.push('\u{10ffff}');
    let mut config = Config::default();
    config.storage.db_path = Some(FilePath::from(every.as_str()));
    let written = render(&config).unwrap();
    assert_eq!(decode(&parse(&written).unwrap()).unwrap(), config);
}

#[test]
fn a_span_beyond_the_integers_of_a_document_cannot_be_written() {
    let mut config = full_config();
    config.connections.storage_peers_period = Some(Duration::from_secs(9223372036854775808));
    assert_eq!(encode(&config), None);
    assert_eq!(render(&config), None);
    config.connections.storage_peers_period = None;
    config.connections.bootstrap_peers_period = Some(Duration::from_secs(u64::MAX));
    assert_eq!(encode(&config), None);
    assert_eq!(render(&config), None);
    config.connections.bootstrap_peers_period = None;
    config.connections.handshake_timeout = Some(Duration::from_secs(u64::MAX));
    assert_eq!(encode(&config), None);
    assert_eq!(render(&config), None);
}
