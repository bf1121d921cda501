use feedhub::envelope::{valid_identifier, split, wrap};

#[test]
fn wrap_frames_payload_between_fixed_prefix_and_suffix() {
    assert_eq!(wrap("x", "1"), "{\"exchange\":\"x\",\"data\":1}");
    assert_eq!(wrap("bybit", "[]"), "{\"exchange\":\"bybit\",\"data\":[]}");
}

#[test]
fn wrap_preserves_numeric_strings_and_key_order() {
    let upstream = "{\"p\":\"0.10\",\"q\":\"1.000\"}";
    assert_eq!(
        wrap("binance", upstream),
        "{\"exchange\":\"binance\",\"data\":{\"p\":\"0.10\",\"q\":\"1.000\"}}"
    );
}

#[test]
fn wrap_does_not_validate_payload() {
    assert_eq!(wrap("x", "not json"), "{\"exchange\":\"x\",\"data\":not json}");
    assert_eq!(wrap("x", ""), "{\"exchange\":\"x\",\"data\":}");
}

#[test]
fn wrap_keeps_whitespace_and_non_ascii_payload() {
    let upstream = " {\"s\":\"\u{17e}lu\u{165}ou\u{10d}k\u{fd} \u{20ac}\"}\n";
    let frame = wrap("x", upstream);
    assert_eq!(frame, format!("{}{}{}", "{\"exchange\":\"x\",\"data\":", upstream, "}"));
}

#[test]
fn envelope_parses_as_object_with_exchange_and_data() {
    let frame = wrap("binance", "{\"p\":\"0.10\",\"q\":\"1.000\"}");
    let value: serde_json::Value = serde_json::from_str(&frame).unwrap();
    let object = value.as_object().unwrap();
    assert_eq!(object.len(), 2);
    assert_eq!(object.get("exchange").and_then(|v| v.as_str()), Some("binance"));
    let data = object.get("data").unwrap().as_object().unwrap();
    assert_eq!(data.get("p").and_then(|v| v.as_str()), Some("0.10"));
    assert_eq!(data.get("q").and_then(|v| v.as_str()), Some("1.000"));
}

#[test]
fn envelope_of_scalar_payloads_parses_as_object() {
    for payload in ["1", "-0.5e3", "true", "null", "\"text\"", "[1, 2]", " {} "] {
        let frame = wrap("x", payload);
        let value: serde_json::Value = serde_json::from_str(&frame).unwrap();
        let object = value.as_object().unwrap();
        assert_eq!(object.len(), 2);
        assert_eq!(object.get("exchange").and_then(|v| v.as_str()), Some("x"));
        let expected: serde_json::Value = serde_json::from_str(payload).unwrap();
        assert_eq!(object.get("data"), Some(&expected));
    }
}

#[test]
fn identifier_accepts_plain_names() {
    assert!(valid_identifier("binance"));
    assert!(valid_identifier("bybit"));
    assert!(valid_identifier("_gateway"));
    assert!(valid_identifier("b\u{f6}rse 2"));
}

#[test]
fn identifier_rejects_empty_and_escaped_characters() {
    assert!(!valid_identifier(""));
    assert!(!valid_identifier("a\"b"));
    assert!(!valid_identifier("a\\b"));
    assert!(!valid_identifier("a\nb"));
    assert!(!valid_identifier("\u{1f}"));
    assert!(!valid_identifier("tab\t"));
}

#[test]
fn split_gives_back_identifier_and_payload() {
    let upstream = "{\"p\":\"0.10\",\"q\":\"1.000\"}";
    let frame = wrap("binance", upstream);
    assert_eq!(split(&frame), Some(("binance".to_string(), upstream.to_string())));
}

#[test]
fn split_gives_back_any_payload_unchanged() {
    for payload in ["", "}", "\"", "not json", " 1 ", "\u{20ac}\u{1f600}", "\",\"data\":"] {
        let frame = wrap("x", payload);
        assert_eq!(split(&frame), Some(("x".to_string(), payload.to_string())));
    }
}

#[test]
fn split_handles_non_ascii_identifier() {
    let frame = wrap("b\u{f6}rse", "1");
    assert_eq!(split(&frame), Some(("b\u{f6}rse".to_string(), "1".to_string())));
}

#[test]
fn split_rejects_what_is_no_envelope() {
    assert_eq!(split(""), None);
    assert_eq!(split("{}"), None);
    assert_eq!(split("{\"exchange\":\"x\",\"data\":1"), None);
    assert_eq!(split("{\"exchange\":\"x\",\"data\":1]"), None);
    assert_eq!(split("{\"exchange\":\"x\";\"data\":1}"), None);
    assert_eq!(split("{\"Exchange\":\"x\",\"data\":1}"), None);
    assert_eq!(split("{\"exchange\":\"x\"}                "), None);
    assert_eq!(split("{\"exchange\":\"xxxxxxxxxxxxxxxxxxxxxxxxxxxxxxxxx"), None);
    assert_eq!(split(" {\"exchange\":\"x\",\"data\":1}"), None);
}

#[test]
fn split_reads_empty_identifier_structurally() {
    assert_eq!(
        split("{\"exchange\":\"\",\"data\":1}"),
        Some((String::new(), "1".to_string()))
    );
}
