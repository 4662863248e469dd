use learsim_glass::json::JsonValue;
use learsim_glass::native_views;
use learsim_glass::views::{field_bool, field_select, field_text, view_manifest, DEFAULT_VIEW_ID};
use learsim_glass::windows::{is_app_url, should_navigate, should_return_to_app, window_title};

#[test]
fn manifest_lists_views_in_order() {
    let m = view_manifest();
    let ids: Vec<&str> = m.iter().map(|d| d.id.as_str()).collect();
    assert_eq!(ids, vec!["standby", "clock", "testpattern", "glassout"]);
    assert_eq!(DEFAULT_VIEW_ID, "standby");
    let clock_keys: Vec<&str> = m[1].fields.iter().map(|f| f.key.as_str()).collect();
    assert_eq!(clock_keys, vec!["hourFormat", "showSeconds", "showDate", "utc"]);
    assert!(m[2].fields.is_empty());
    let glassout = &m[3];
    let keys: Vec<&str> = glassout.fields.iter().map(|f| f.key.as_str()).collect();
    assert_eq!(keys, vec!["engineUrl", "panelId", "fit", "targetFps", "clickDelay", "debug", "path"]);
    assert_eq!(glassout.fields[2].options.len(), 3);
    assert_eq!(glassout.fields[2].options[1].value, "stretch");
    assert!(matches!(&glassout.fields[0].default, JsonValue::Text(s) if s == "http://127.0.0.1:8787"));
    assert!(matches!(glassout.fields[5].default, JsonValue::Bool(false)));
}

#[test]
fn native_manifest_adds_test_pattern() {
    let m = native_views::view_manifest();
    let ids: Vec<&str> = m.iter().map(|d| d.id.as_str()).collect();
    assert_eq!(ids, vec!["standby", "clock", "testpattern", "glassout"]);
    assert_eq!(m[1].fields.len(), 4);
    assert_eq!(m[1].fields[3].key, "utc");
    assert!(m[2].fields.is_empty());
    assert_eq!(m[3].fields[4].key, "clickDelay");
}

#[test]
fn field_builders() {
    let t = field_text("k", "L", "d");
    assert_eq!((t.kind.as_str(), t.options.len()), ("text", 0));
    let b = field_bool("k", "L", true);
    assert!(matches!(b.default, JsonValue::Bool(true)));
    assert_eq!(b.kind, "boolean");
    let s = field_select("k", "L", &[("a", "A"), ("b", "B")], "a");
    assert_eq!(s.kind, "select");
    assert_eq!(s.options[1].label, "B");
    let n = native_views::select("k", "L", &[("x", "X")], "x");
    assert_eq!(n.options.len(), 1);
    assert_eq!(native_views::text("a", "b", "c").kind, "text");
    assert_eq!(native_views::boolean("a", "b", false).kind, "boolean");
}

#[test]
fn app_urls() {
    assert!(is_app_url("tauri", None));
    assert!(is_app_url("http", Some("localhost")));
    assert!(is_app_url("http", Some("127.0.0.1")));
    assert!(is_app_url("https", Some("tauri.localhost")));
    assert!(!is_app_url("http", Some("192.168.1.50")));
    assert!(!is_app_url("about", None));
}

#[test]
fn navigation_decisions() {
    assert!(!should_navigate(Some("http://e/panel/P"), "http://e/panel/P"));
    assert!(should_navigate(Some("http://e/panel/P"), "http://e/panel/Q"));
    assert!(should_navigate(None, "http://e"));
    assert!(!should_return_to_app(Some(true)));
    assert!(should_return_to_app(Some(false)));
    assert!(should_return_to_app(None));
    assert_eq!(window_title("Screen 1"), "learsim-glass · Screen 1");
}
