use witnet_config::config::Config;
use witnet_config::document::{parse, Item};
use witnet_config::error::ParseError;
use witnet_config::loaders::toml::{from_str, Error};
use witnet_config::nesting::{nests_too_deep, MAX_NESTING};

fn arrays(depth: usize) -> String {
    let mut text = String::from("a = ");
    for _ in 0..depth {
        text.push('[');
    }
    for _ in 0..depth {
        text.push(']');
    }
    text
}

fn dotted(parts: usize) -> String {
    let mut text = String::from("a");
    for _ in 1..parts {
        text.push_str(".a");
    }
    text.push_str(" = 1\n");
    text
}

#[test]
fn the_limit_is_a_few_dozen() {
    assert_eq!(MAX_NESTING, 32);
}

#[test]
fn a_configuration_is_far_from_the_limit() {
    let text = "environment = 'mainnet'\n[connections]\nknown_peers = ['1.2.3.4:5']\n";
    assert!(!nests_too_deep(text));
    assert!(!nests_too_deep(""));
    assert!(!nests_too_deep("connections.known_peers = [\"1.2.3.4:5\"]\n"));
    assert!(!nests_too_deep("connections = { known_peers = ['1.2.3.4:5'] }\n"));
}

#[test]
fn arrays_within_arrays_count() {
    assert!(!nests_too_deep(&arrays(32)));
    assert!(nests_too_deep(&arrays(33)));
    assert!(nests_too_deep(&arrays(20000)));
    assert!(nests_too_deep("a = {{{{{{{{{{{{{{{{{[[[[[[[[[[[[[[[["));
    assert!(!nests_too_deep("a = {{{{{{{{{{{{{{{{[[[[[[[[[[[[[[[["));
}

#[test]
fn the_parts_of_a_dotted_key_count() {
    assert!(!nests_too_deep(&dotted(33)));
    assert!(nests_too_deep(&dotted(34)));
    assert!(nests_too_deep(&format!("[{}]", dotted(40).trim_end())));
}

#[test]
fn brackets_and_dots_count_together() {
    let mut text = dotted(17).trim_end().to_string();
    text.push_str("[[[[[[[[[[[[[[[[");
    assert!(!nests_too_deep(&text));
    text.push('[');
    assert!(nests_too_deep(&text));
}

#[test]
fn what_closes_and_what_ends_a_line_start_anew() {
    let mut text = String::new();
    for _ in 0..100 {
        text.push_str("[a.b.c]\nd.e = [[1.5, 2.5], [3.5]]\n");
    }
    assert!(!nests_too_deep(&text));
    assert!(!nests_too_deep("]]]]]]]]]]]]]]]]]]]]]]]]]]]]]]]]]]]]]]]]]]]]]]]]]]]]]]]]]]]]]]]]"));
    assert!(!nests_too_deep(&format!("]]]]]]]]{}", arrays(32))));
    assert!(nests_too_deep(&format!("]]]]]]]]{}", arrays(33))));
}

#[test]
fn strings_and_comments_do_not_count() {
    let deep = "[[[[[[[[[[[[[[[[[[[[[[[[[[[[[[[[[[[[[[[[[[[[[[[[[[[[[[[[[[[[[[[[";
    let dots = "................................................................";
    for inside in [deep, dots] {
        assert!(nests_too_deep(&format!("a = {}", inside)));
        assert!(!nests_too_deep(&format!("a = \"{}\"", inside)));
        assert!(!nests_too_deep(&format!("a = '{}'", inside)));
        assert!(!nests_too_deep(&format!("a = \"\"\"\n{}\n\" \"\" {}\"\"\"", inside, inside)));
        assert!(!nests_too_deep(&format!("a = '''\n{}\n' '' {}'''", inside, inside)));
        assert!(!nests_too_deep(&format!("a = 1 # {}\n", inside)));
        assert!(!nests_too_deep(&format!("a = \"\\\"{}\"", inside)));
        assert!(!nests_too_deep(&format!("a = \"\\\\\\\"{}\"", inside)));
        assert!(!nests_too_deep(&format!("a = \"\"\"\\\"\"\"{}\"\"\"", inside)));
        assert!(!nests_too_deep(&format!("\"{}\" = 1", inside)));

        assert!(nests_too_deep(&format!("a = \"\"{}", inside)));
        assert!(nests_too_deep(&format!("a = ''{}", inside)));
        assert!(nests_too_deep(&format!("a = \"\\\\\"{}", inside)));
        assert!(nests_too_deep(&format!("a = '\\'{}", inside)));
        assert!(nests_too_deep(&format!("a = \"x\"{}", inside)));
        assert!(nests_too_deep(&format!("a = \"\"\"x\"\"\"{}", inside)));
        assert!(nests_too_deep(&format!("a = '''x'''{}", inside)));
        assert!(nests_too_deep(&format!("a = \"\"\"\"\"\"{}", inside)));
        assert!(nests_too_deep(&format!("# c\n{}", inside)));
        assert!(nests_too_deep(&format!("a = \"x\n{}", inside)));
        assert!(nests_too_deep(&format!("a = 'x\n{}", inside)));
    }
}

#[test]
fn a_long_list_of_peers_is_not_deep() {
    let mut text = String::from("[connections]\nknown_peers = [");
    for i in 0..2000u32 {
        if i > 0 {
            text.push_str(", ");
        }
        text.push_str(&format!("'10.{}.{}.1:{}'", i / 250, i % 250, 1000 + i));
    }
    text.push_str("]\n");
    assert!(!nests_too_deep(&text));
    let config = Config::from_text(&text).unwrap();
    assert_eq!(config.connections.known_peers.len(), 2000);
}

#[test]
fn a_text_at_the_limit_is_parsed() {
    let mut expected = Item::Integer(1);
    let mut text = String::from("a = ");
    for _ in 0..32 {
        text.push('[');
        expected = Item::Array(vec![expected]);
    }
    text.push('1');
    for _ in 0..32 {
        text.push(']');
    }
    assert_eq!(parse(&text).unwrap(), Item::Table(vec![("a".to_string(), expected)]));

    let document = parse(&dotted(33)).unwrap();
    let mut depth = 0;
    let mut at = &document;
    while let Item::Table(entries) = at {
        assert_eq!(entries.len(), 1);
        assert_eq!(entries[0].0, "a");
        at = &entries[0].1;
        depth += 1;
    }
    assert_eq!(depth, 33);
    assert_eq!(at, &Item::Integer(1));
}

#[test]
fn a_text_beyond_the_limit_is_refused_before_it_is_parsed() {
    assert_eq!(parse(&arrays(33)), Err(ParseError::TooDeep));
    assert_eq!(parse(&arrays(100000)), Err(ParseError::TooDeep));
    assert_eq!(parse(&dotted(100000)), Err(ParseError::TooDeep));
    assert_eq!(parse(&format!("= = =\n{}", arrays(33))), Err(ParseError::TooDeep));
    match from_str(&arrays(5000)) {
        Err(Error::ParseError(ParseError::TooDeep)) => {},
        other => panic!("expected TooDeep, got {:?}", other),
    }
    match Config::from_text(&dotted(5000)) {
        Err(Error::ParseError(ParseError::TooDeep)) => {},
        other => panic!("expected TooDeep, got {:?}", other),
    }
    match Config::from_file(Ok(arrays(5000))) {
        Err(Error::ParseError(ParseError::TooDeep)) => {},
        other => panic!("expected TooDeep, got {:?}", other),
    }
}

#[test]
fn headers_keys_and_values_at_the_limit_together_are_parsed() {
    let mut text = String::new();
    text.push('[');
    text.push_str(dotted(32).trim_end().trim_end_matches(" = 1"));
    text.push_str("]\n");
    text.push_str(dotted(17).trim_end().trim_end_matches(" = 1"));
    text.push_str(" = ");
    for _ in 0..16 {
        text.push('[');
    }
    for _ in 0..16 {
        text.push(']');
    }
    text.push('\n');
    assert!(!nests_too_deep(&text));
    let document = parse(&text).unwrap();
    let mut depth = 0;
    let mut at = &document;
    loop {
        match at {
            Item::Table(entries) => at = &entries[0].1,
            Item::Array(items) if !items.is_empty() => at = &items[0],
            _ => break,
        }
        depth += 1;
    }
    assert_eq!(depth, 32 + 17 + 15);
}

#[test]
fn a_long_text_that_is_not_deep_is_parsed() {
    let mut text = String::new();
    for i in 0..1000u32 {
        text.push_str(&format!("k{} = [{}, {}]\n", i, i, i + 1));
    }
    for i in 0..1000u32 {
        text.push_str(&format!("[t{}]\nx.y = {{ z = 1.5 }}\n[[u{}]]\n[[u{}]]\n", i, i, i));
    }
    assert!(!nests_too_deep(&text));
    match parse(&text).unwrap() {
        Item::Table(entries) => assert_eq!(entries.len(), 3000),
        other => panic!("expected a table, got {:?}", other),
    }
}
