use learsim_glass::admin::{base_url, endpoint_url, probe_url, screen_url, snapshot_label};
use learsim_glass::devices::{store_path, DeviceStore, StoredDevice};
use learsim_glass::json::{JsonItems, JsonMembers, JsonValue};

fn store() -> DeviceStore {
    DeviceStore::new("/tmp/devices.json".to_string(), Vec::new())
}

#[test]
fn upsert_adds_then_updates_label() {
    let mut s = store();
    s.upsert("pi.local".to_string(), 8770, None);
    s.upsert("10.0.0.2".to_string(), 8770, Some("right".to_string()));
    assert_eq!(s.list().len(), 2);
    s.upsert("pi.local".to_string(), 8770, Some("left".to_string()));
    let list = s.list();
    assert_eq!(list.len(), 2);
    assert_eq!(list[0].label.as_deref(), Some("left"));
    s.upsert("pi.local".to_string(), 8770, None);
    assert_eq!(s.list()[0].label.as_deref(), Some("left"));
    s.upsert("pi.local".to_string(), 8771, None);
    assert_eq!(s.list().len(), 3);
}

#[test]
fn remove_drops_every_match() {
    let dup = StoredDevice { host: "h".to_string(), port: 1, label: None };
    let other = StoredDevice { host: "h".to_string(), port: 2, label: None };
    let mut s = DeviceStore::new("p".to_string(), vec![dup.clone(), other.clone(), dup.clone()]);
    s.remove("h", 1);
    assert_eq!(s.list(), vec![other]);
    s.remove("nothing", 9);
    assert_eq!(s.list().len(), 1);
}

#[test]
fn remove_undoes_upsert_of_new_device() {
    let mut s = store();
    s.upsert("a".to_string(), 1, Some("A".to_string()));
    let before = s.list();
    s.upsert("b".to_string(), 2, None);
    s.remove("b", 2);
    assert_eq!(s.list(), before);
}

#[test]
fn same_endpoint_needs_host_and_port() {
    let d = StoredDevice { host: "h".to_string(), port: 8770, label: None };
    assert!(d.same_endpoint("h", 8770));
    assert!(!d.same_endpoint("h", 8771));
    assert!(!d.same_endpoint("H", 8770));
}

#[test]
fn store_lives_in_config_dir() {
    assert_eq!(store_path("/home/pi/.config/app"), "/home/pi/.config/app/devices.json");
    assert_eq!(store().path(), "/tmp/devices.json");
}

#[test]
fn admin_urls() {
    assert_eq!(base_url("192.168.1.5", 8770), "http://192.168.1.5:8770");
    assert_eq!(endpoint_url("pi", 80, "/api/device"), "http://pi:80/api/device");
    assert_eq!(screen_url("pi", 8770, "screen-2"), "http://pi:8770/api/screens/screen-2");
    assert_eq!(probe_url("http://e:8787//"), "http://e:8787/status");
    assert_eq!(base_url("h", 0), "http://h:0");
    assert_eq!(base_url("h", 65535), "http://h:65535");
}

fn object(members: Vec<(&str, JsonValue)>) -> JsonValue {
    let mut list = JsonMembers::Empty;
    for (k, v) in members.into_iter().rev() {
        list = JsonMembers::Cons(k.to_string(), Box::new(v), Box::new(list));
    }
    JsonValue::Object(list)
}

#[test]
fn label_is_device_name() {
    let snap = object(vec![
        ("device", object(vec![("id", JsonValue::Text("x".into())), ("name", JsonValue::Text("cockpit".into()))])),
        ("screens", JsonValue::Array(JsonItems::Empty)),
    ]);
    assert_eq!(snapshot_label(&snap).as_deref(), Some("cockpit"));
    let no_name = object(vec![("device", object(vec![("name", JsonValue::Null)]))]);
    assert_eq!(snapshot_label(&no_name), None);
    assert_eq!(snapshot_label(&JsonValue::Null), None);
}
