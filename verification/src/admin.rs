//! The admin app's requests to glass devices and glassout engines: the
//! endpoint URLs, and the device name read back from a device snapshot.
use crate::json::{JsonModel, JsonValue, json_get};
use crate::text::{decimal, push_decimal, push_str, trim_end_char, trimmed_end_char};
use vstd::prelude::*;

verus! {

/// A device's control-server base URL, `http://<host>:<port>`.
pub open spec fn spec_base_url(host: Seq<char>, port: u16) -> Seq<char> {
    "http://"@ + host + ":"@ + decimal(port as nat)
}

/// A device's control-server base URL.
pub fn base_url(host: &str, port: u16) -> (r: String)
    ensures
        r@ == spec_base_url(host@, port),
{
    let mut s = String::new();
    push_str(&mut s, "http://");
    push_str(&mut s, host);
    push_str(&mut s, ":");
    push_decimal(&mut s, port as u64);
    s
}

/// The URL of `path` on the device at `host:port`.
pub fn endpoint_url(host: &str, port: u16, path: &str) -> (r: String)
    ensures
        r@ == spec_base_url(host@, port) + path@,
{
    let mut s = base_url(host, port);
    push_str(&mut s, path);
    s
}

/// The URL of screen `screen_id` on the device at `host:port`:
/// `<base>/api/screens/<id>`.
pub fn screen_url(host: &str, port: u16, screen_id: &str) -> (r: String)
    ensures
        r@ == spec_base_url(host@, port) + "/api/screens/"@ + screen_id@,
{
    let mut s = endpoint_url(host, port, "/api/screens/");
    push_str(&mut s, screen_id);
    s
}

/// The status URL of a glassout engine, as the admin probes it: the URL the
/// operator entered without trailing slashes, then `/status`.
pub fn probe_url(engine_url: &str) -> (r: String)
    ensures
        r@ == trim_end_char(engine_url@, '/') + "/status"@,
{
    let mut s = trimmed_end_char(engine_url, '/');
    push_str(&mut s, "/status");
    s
}

/// The device name in a device snapshot: its `device.name`, when that is
/// a string.
pub open spec fn spec_snapshot_label(snapshot: JsonModel) -> Option<Seq<char>> {
    match json_get(snapshot, "device"@) {
        Some(device) => match json_get(device, "name"@) {
            Some(JsonModel::Text(name)) => Some(name),
            _ => None,
        },
        None => None,
    }
}

/// The device name in a device snapshot (`GET /api/device`), cached as the
/// device's label.
pub fn snapshot_label(snapshot: &JsonValue) -> (r: Option<String>)
    ensures
        match r {
            Some(l) => spec_snapshot_label(snapshot@) == Some(l@),
            None => spec_snapshot_label(snapshot@) is None,
        },
{
    match snapshot.get("device") {
        Some(device) => match device.get("name") {
            Some(JsonValue::Text(name)) => Some(name.clone()),
            _ => None,
        },
        None => None,
    }
}

} // verus!
