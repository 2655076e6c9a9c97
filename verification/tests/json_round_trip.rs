use filler::document::Document;
use filler::json::parse_json_data;

fn doc(items: Vec<&str>) -> Document {
    Document { data: items.into_iter().map(String::from).collect() }
}

#[test]
fn exact_json_text() {
    assert_eq!(doc(vec![]).to_json_string(), "{\"data\":[]}");
    assert_eq!(doc(vec!["x"]).to_json_string(), "{\"data\":[\"x\"]}");
    assert_eq!(doc(vec!["a", "b"]).to_json_string(), "{\"data\":[\"a\",\"b\"]}");
}

#[test]
fn escapes_are_valid_json() {
    let d = doc(vec!["say \"hi\"", "back\\slash", "tab\tbell\u{7}", "del\u{7f}", "日本語"]);
    let text = d.to_json_string();
    let value: serde_json::Value = serde_json::from_str(&text).unwrap();
    let data = value.get("data").unwrap().as_array().unwrap();
    assert_eq!(data.len(), 5);
    assert_eq!(data[0].as_str().unwrap(), "say \"hi\"");
    assert_eq!(data[1].as_str().unwrap(), "back\\slash");
    assert_eq!(data[2].as_str().unwrap(), "tab\tbell\u{7}");
    assert_eq!(data[3].as_str().unwrap(), "del\u{7f}");
    assert_eq!(data[4].as_str().unwrap(), "日本語");
}

#[test]
fn delete_is_escaped_everywhere() {
    let d = doc(vec!["del\u{7f}end"]);
    assert_eq!(d.to_json_string(), "{\"data\":[\"del\\u007fend\"]}");
    // The same escape keeps the TOML output a well-formed basic string.
    let value: toml::Table = d.to_toml_string().parse().unwrap();
    let entry = value.get("data").unwrap().as_array().unwrap()[0].as_str().unwrap();
    assert_eq!(entry, "del\u{7f}end");
}

#[test]
fn round_trip_preserves_batch() {
    let items = vec!["plain", "say \"hi\"", "back\\slash", "ctrl\u{1}and\ttab", "", "del\u{7f}", "日本語"];
    let d = doc(items.clone());
    let text = d.to_json_string();
    let parsed = parse_json_data(&text).unwrap();
    assert_eq!(parsed.len(), items.len());
    for (got, expected) in parsed.iter().zip(items.iter()) {
        assert_eq!(got, expected);
    }
}

#[test]
fn round_trip_empty_batch() {
    let text = doc(vec![]).to_json_string();
    let parsed = parse_json_data(&text).unwrap();
    assert!(parsed.is_empty());
}

#[test]
fn parser_rejects_foreign_text() {
    assert!(parse_json_data("").is_none());
    assert!(parse_json_data("{\"data\":").is_none());
    assert!(parse_json_data("{\"other\":[]}").is_none());
    assert!(parse_json_data("{\"data\":[\"unterminated]}").is_none());
}

#[test]
fn exact_other_formats() {
    let d = doc(vec!["x", "y"]);
    assert_eq!(d.to_toml_string(), "data = [\"x\", \"y\"]\n");
    assert_eq!(d.to_plain_string(), "[\"x\", \"y\"]");
    assert_eq!(d.to_yaml_string(), "data:\n- \"x\"\n- \"y\"\n");
    assert_eq!(doc(vec![]).to_toml_string(), "data = []\n");
}
