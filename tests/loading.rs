use std::collections::{BTreeMap, HashMap};

use rhodes::{load, string_pairs, Config, ConfigError, ErrorKind, ReadError};

fn as_map(data: Vec<(String, String)>) -> HashMap<String, String> {
    data.into_iter().collect()
}

fn expect_error(path: &str, contents: &str) -> ConfigError {
    Config::from_file(path, Ok(contents.to_string())).unwrap_err()
}

#[test]
fn yaml_scenario_loads_host_and_port() {
    let config = Config::from_file("a.yaml", Ok("host: localhost\nport: \"8080\"".to_string())).unwrap();
    let mut expected = HashMap::new();
    expected.insert("host".to_string(), "localhost".to_string());
    expected.insert("port".to_string(), "8080".to_string());
    assert_eq!(as_map(config.data), expected);
}

#[test]
fn json_scenario_loads_env() {
    let data = load("b.json", Ok("{\"env\": \"prod\"}".to_string())).unwrap();
    assert_eq!(data, vec![("env".to_string(), "prod".to_string())]);
}

#[test]
fn unsupported_extension_names_the_file() {
    let e = expect_error("c.cfg", "host: localhost");
    assert_eq!(e.kind, ErrorKind::Value);
    assert!(e.message.contains("c.cfg"));
    assert_eq!(e.message, "Unsupported configuration file format for file 'c.cfg'");
}

#[test]
fn txt_and_bare_names_are_rejected_whatever_they_hold() {
    for path in ["notes.txt", "config", "dir.json/config"] {
        for contents in ["a: b", "{\"a\": \"b\"}", ""] {
            assert_eq!(expect_error(path, contents).kind, ErrorKind::Value);
        }
    }
}

#[test]
fn missing_file_is_io_error() {
    let cause = "No such file or directory (os error 2)".to_string();
    let e = Config::from_file("missing.yaml", Err(ReadError::Open(cause))).unwrap_err();
    assert_eq!(e.kind, ErrorKind::Io);
    assert_eq!(e.message, "Failed to open file 'missing.yaml': No such file or directory (os error 2)");
}

#[test]
fn unreadable_file_is_io_error() {
    let cause = "stream did not contain valid UTF-8".to_string();
    let e = load("bin.json", Err(ReadError::Read(cause))).unwrap_err();
    assert_eq!(e.kind, ErrorKind::Io);
    assert_eq!(e.message, "Failed to read file 'bin.json': stream did not contain valid UTF-8");
}

#[test]
fn json_array_is_value_error() {
    let e = expect_error("list.json", "[\"a\", \"b\"]");
    assert_eq!(e.kind, ErrorKind::Value);
    assert!(e.message.starts_with("Failed to parse JSON file 'list.json': "));
    assert!(e.message.len() > "Failed to parse JSON file 'list.json': ".len());
}

#[test]
fn yaml_nested_mapping_is_value_error() {
    let e = expect_error("nested.yaml", "name: app\ndb:\n  host: localhost\n");
    assert_eq!(e.kind, ErrorKind::Value);
    assert_eq!(e.message, "Failed to parse YAML file 'nested.yaml': the value of key 'db' is not a string");
}

#[test]
fn json_non_string_values_are_value_errors() {
    for contents in ["{\"n\": 1}", "{\"b\": true}", "{\"o\": {}}", "{\"a\": [\"x\"]}"] {
        assert_eq!(expect_error("v.json", contents).kind, ErrorKind::Value);
    }
}

#[test]
fn json_non_string_value_message_names_the_key() {
    let e = expect_error("v.json", "{\"a\": \"x\", \"n\": 1}");
    assert_eq!(e.message, "Failed to parse JSON file 'v.json': the value of key 'n' is not a string");
}

#[test]
fn yaml_plain_scalars_that_are_not_strings_are_value_errors() {
    for contents in ["port: 8080", "on: true", "none: ~", "list:\n  - a\n", "ratio: 0.5"] {
        assert_eq!(expect_error("s.yaml", contents).kind, ErrorKind::Value);
    }
}

#[test]
fn yaml_quoted_and_plain_strings_load() {
    let config = Config::from_file("q.yaml", Ok("a: '8080'\nb: yes\nc: ''\n".to_string())).unwrap();
    let data = as_map(config.data);
    assert_eq!(data.len(), 3);
    assert_eq!(data["a"], "8080");
    assert_eq!(data["b"], "yes");
    assert_eq!(data["c"], "");
}

#[test]
fn yaml_list_document_is_value_error() {
    let e = expect_error("l.yaml", "- a\n- b\n");
    assert_eq!(e.kind, ErrorKind::Value);
    assert!(e.message.starts_with("Failed to parse YAML file 'l.yaml': "));
}

#[test]
fn string_pairs_keeps_all_string_entries() {
    let entries = vec![
        ("k1".to_string(), Some("v1".to_string())),
        ("k2".to_string(), Some(String::new())),
    ];
    let pairs = string_pairs(&entries).unwrap();
    assert_eq!(pairs, vec![("k1".to_string(), "v1".to_string()), ("k2".to_string(), String::new())]);
    assert_eq!(string_pairs(&Vec::new()).unwrap(), Vec::new());
}

#[test]
fn string_pairs_names_first_non_string_key() {
    let entries = vec![
        ("a".to_string(), Some("1".to_string())),
        ("b".to_string(), None),
        ("c".to_string(), None),
    ];
    assert_eq!(string_pairs(&entries).unwrap_err(), "b");
}

#[test]
fn malformed_json_is_value_error() {
    assert_eq!(expect_error("bad.json", "{\"env\": ").kind, ErrorKind::Value);
}

#[test]
fn yml_extension_reads_yaml() {
    let config = Config::from_file("conf.yml", Ok("mode: fast\n".to_string())).unwrap();
    assert_eq!(config.data, vec![("mode".to_string(), "fast".to_string())]);
}

#[test]
fn empty_json_object_loads_empty() {
    let data = load("empty.json", Ok("{}".to_string())).unwrap();
    assert!(data.is_empty());
}

#[test]
fn repeated_json_key_keeps_one_entry() {
    let data = load("dup.json", Ok("{\"a\": \"1\", \"a\": \"2\"}".to_string())).unwrap();
    assert_eq!(data, vec![("a".to_string(), "2".to_string())]);
}

#[test]
fn yaml_round_trip_of_a_flat_mapping() {
    let mut written = BTreeMap::new();
    written.insert("name".to_string(), "rhodes".to_string());
    written.insert("port".to_string(), "8080".to_string());
    written.insert("empty".to_string(), String::new());
    written.insert("quote".to_string(), "it's: \"here\"".to_string());
    let text = serde_yaml::to_string(&written).unwrap();
    let data = load("round.yaml", Ok(text)).unwrap();
    let loaded: BTreeMap<String, String> = data.into_iter().collect();
    assert_eq!(loaded, written);
}

#[test]
fn json_round_trip_of_a_flat_mapping() {
    let mut written = BTreeMap::new();
    written.insert("env".to_string(), "prod".to_string());
    written.insert("path".to_string(), "C:\\conf\n\"x\"".to_string());
    written.insert("unicode".to_string(), "caf\u{e9}".to_string());
    let text = serde_json::to_string(&written).unwrap();
    let data = load("round.json", Ok(text)).unwrap();
    let loaded: BTreeMap<String, String> = data.into_iter().collect();
    assert_eq!(loaded, written);
}
