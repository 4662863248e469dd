use learsim_glass::glassout::{build_view_url, encode_segment, setting_bool, setting_number, setting_str};
use learsim_glass::json::{JsonNumber, JsonValue, Settings};

fn text(s: &str) -> JsonValue {
    JsonValue::Text(s.to_string())
}

fn settings(entries: Vec<(&str, JsonValue)>) -> Settings {
    let mut s = Settings::new();
    for (k, v) in entries {
        s.insert(k.to_string(), v);
    }
    s
}

#[test]
fn builds_panel_url() {
    let s = settings(vec![
        ("engineUrl", text("http://192.168.1.42:8787/")),
        ("panelId", text("PFD_Captain")),
        ("fit", text("stretch")),
        ("targetFps", JsonValue::Number(JsonNumber::PosInt(60))),
        ("debug", JsonValue::Bool(true)),
    ]);
    assert_eq!(
        build_view_url(&s).unwrap(),
        "http://192.168.1.42:8787/panel/PFD_Captain?fps=60&fit=stretch&debug=1"
    );
}

#[test]
fn contain_is_omitted() {
    let s = settings(vec![
        ("engineUrl", text("http://host:8787")),
        ("panelId", text("MFD")),
        ("fit", text("contain")),
    ]);
    assert_eq!(build_view_url(&s).unwrap(), "http://host:8787/panel/MFD");
}

#[test]
fn path_override_wins() {
    let s = settings(vec![
        ("engineUrl", text("http://host:8787")),
        ("panelId", text("ignored")),
        ("path", text("/canvas?entries=abc")),
    ]);
    assert_eq!(build_view_url(&s).unwrap(), "http://host:8787/canvas?entries=abc");
}

#[test]
fn incomplete_returns_none() {
    let s = settings(vec![("engineUrl", text("http://host:8787"))]);
    assert!(build_view_url(&s).is_none());
}

#[test]
fn relative_path_gets_a_slash() {
    let s = settings(vec![
        ("engineUrl", text("  http://host:8787//  ")),
        ("path", text(" instance/3 ")),
    ]);
    assert_eq!(build_view_url(&s).unwrap(), "http://host:8787/instance/3");
}

#[test]
fn numeric_string_fps_and_string_debug() {
    let s = settings(vec![
        ("engineUrl", text("http://h")),
        ("panelId", text("G3000 GTC")),
        ("targetFps", text(" +30 ")),
        ("debug", text("true")),
        ("fit", text("native")),
    ]);
    assert_eq!(
        build_view_url(&s).unwrap(),
        "http://h/panel/G3000%20GTC?fps=30&fit=native&debug=1"
    );
}

#[test]
fn blank_values_count_as_missing() {
    let s = settings(vec![
        ("engineUrl", text("http://h")),
        ("panelId", text("   ")),
        ("path", text("")),
    ]);
    assert!(build_view_url(&s).is_none());
    let missing_engine = settings(vec![("panelId", text("PFD"))]);
    assert!(build_view_url(&missing_engine).is_none());
}

#[test]
fn unusable_fps_is_left_out() {
    let s = settings(vec![
        ("engineUrl", text("http://h")),
        ("panelId", text("P")),
        ("targetFps", text("-5")),
        ("debug", text("TRUE")),
    ]);
    assert_eq!(build_view_url(&s).unwrap(), "http://h/panel/P");
    let neg = settings(vec![
        ("engineUrl", text("http://h")),
        ("panelId", text("P")),
        ("targetFps", JsonValue::Number(JsonNumber::NegInt(-5))),
    ]);
    assert_eq!(build_view_url(&neg).unwrap(), "http://h/panel/P");
}

#[test]
fn encodes_reserved_and_non_ascii_bytes() {
    assert_eq!(encode_segment("PFD_Captain-1.~"), "PFD_Captain-1.~");
    assert_eq!(encode_segment("a b/c"), "a%20b%2Fc");
    assert_eq!(encode_segment("é"), "%C3%A9");
    assert_eq!(encode_segment(""), "");
}

#[test]
fn settings_readers() {
    let s = settings(vec![
        ("a", text("  hi\t")),
        ("n", JsonValue::Number(JsonNumber::PosInt(7))),
        ("big", text("18446744073709551616")),
        ("max", text("18446744073709551615")),
        ("t", JsonValue::Bool(true)),
        ("f", JsonValue::Bool(false)),
        ("st", text("true")),
        ("sp", text(" true")),
    ]);
    assert_eq!(setting_str(&s, "a").as_deref(), Some("hi"));
    assert_eq!(setting_str(&s, "n"), None);
    assert_eq!(setting_number(&s, "n"), Some(7));
    assert_eq!(setting_number(&s, "big"), None);
    assert_eq!(setting_number(&s, "max"), Some(u64::MAX));
    assert_eq!(setting_number(&s, "a"), None);
    assert!(setting_bool(&s, "t"));
    assert!(!setting_bool(&s, "f"));
    assert!(setting_bool(&s, "st"));
    assert!(!setting_bool(&s, "sp"));
    assert!(!setting_bool(&s, "missing"));
}

#[test]
fn insert_replaces_in_place() {
    let mut s = Settings::new();
    s.insert("k".to_string(), text("1"));
    s.insert("j".to_string(), text("2"));
    s.insert("k".to_string(), text("3"));
    assert_eq!(s.entries().len(), 2);
    assert_eq!(s.entries()[0].0, "k");
    assert_eq!(setting_str(&s, "k").as_deref(), Some("3"));
}

#[test]
fn encoded_segment_is_path_safe_and_decodes_back() {
    let raw = "PFD Captain/1?x#y é";
    let enc = encode_segment(raw);
    assert!(!enc.contains(' ') && !enc.contains('/') && !enc.contains('?') && !enc.contains('#'));
    let bytes = enc.as_bytes();
    let mut out = Vec::new();
    let mut i = 0;
    while i < bytes.len() {
        if bytes[i] == b'%' {
            out.push(u8::from_str_radix(&enc[i + 1..i + 3], 16).unwrap());
            i += 3;
        } else {
            out.push(bytes[i]);
            i += 1;
        }
    }
    assert_eq!(String::from_utf8(out).unwrap(), raw);
    assert_ne!(encode_segment("a b"), "a b");
    assert_eq!(encode_segment("PFD_Captain"), "PFD_Captain");
}

#[test]
fn integer_settings_are_read_by_value() {
    let s = settings(vec![
        ("neg", JsonValue::Number(JsonNumber::NegInt(-1))),
        ("zero", JsonValue::Number(JsonNumber::NegInt(0))),
        ("pos", JsonValue::Number(JsonNumber::NegInt(42))),
        ("float", JsonValue::Number(JsonNumber::Float(2.5f64.to_bits()))),
    ]);
    assert_eq!(setting_number(&s, "neg"), None);
    assert_eq!(setting_number(&s, "zero"), Some(0));
    assert_eq!(setting_number(&s, "pos"), Some(42));
    assert_eq!(setting_number(&s, "float"), None);
}
