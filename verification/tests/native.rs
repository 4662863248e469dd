use learsim_glass::config::{native_from_loaded, rendered_screen_id, AppConfig, DeviceInfo, ScreenConfig};
use learsim_glass::frames::{decode_jpeg, parse_frame, DecodedFrame, InputEvent};
use learsim_glass::json::{JsonNumber, JsonValue, Settings};
use learsim_glass::screen_view::{
    clock_label, clock_time_text, grid_lines, guide_lines, id_label, placeholder_text, read_screen_view, time_pattern, Line,
};
use learsim_glass::session::{
    build_ws_url, input_message, is_welcome, read_target, subscribe_message, supervisor_step, ws_url_for, Outcome,
    Session, SessionAction, SessionEvent, SupervisorStep, Target,
};

fn text_member(msg: &JsonValue, key: &str) -> Option<String> {
    match msg.get(key) {
        Some(JsonValue::Text(s)) => Some(s.clone()),
        _ => None,
    }
}

fn number_member(msg: &JsonValue, key: &str) -> Option<JsonNumber> {
    match msg.get(key) {
        Some(JsonValue::Number(n)) => Some(*n),
        _ => None,
    }
}

fn member_keys(msg: &JsonValue) -> Vec<String> {
    match msg {
        JsonValue::Object(members) => {
            let mut keys = Vec::new();
            let mut rest = members;
            while let learsim_glass::json::JsonMembers::Cons(k, _, tail) = rest {
                keys.push(k.clone());
                rest = &**tail;
            }
            keys
        }
        _ => panic!("not an object: {msg:?}"),
    }
}

fn frame(panel: &[u8], w: u16, h: u16, jpeg: &[u8]) -> Vec<u8> {
    let mut v = vec![panel.len() as u8];
    v.extend_from_slice(panel);
    v.extend_from_slice(&7u32.to_le_bytes());
    v.extend_from_slice(&w.to_le_bytes());
    v.extend_from_slice(&h.to_le_bytes());
    v.extend_from_slice(&123u64.to_le_bytes());
    v.extend_from_slice(jpeg);
    v
}

#[test]
fn parses_frame_header() {
    let buf = frame(b"PFD", 800, 600, &[0xFF, 0xD8, 1, 2]);
    let (w, h, jpeg) = parse_frame(&buf).unwrap();
    assert_eq!((w, h), (800, 600));
    assert_eq!(jpeg, &[0xFF, 0xD8, 1, 2]);
    let empty_body = frame(b"", 1, 2, &[]);
    assert_eq!(parse_frame(&empty_body), Some((1, 2, &[][..])));
}

#[test]
fn short_frames_are_rejected() {
    assert_eq!(parse_frame(&[]), None);
    let buf = frame(b"PFD", 800, 600, &[]);
    assert_eq!(parse_frame(&buf[..buf.len() - 1]), None);
}

#[test]
fn garbage_is_not_a_jpeg() {
    assert!(decode_jpeg(&[1, 2, 3]).is_none());
    assert!(decode_jpeg(&[]).is_none());
}

#[test]
fn frame_from_parts() {
    let f = DecodedFrame::from_decoded(vec![0; 12], 2, 2);
    assert_eq!((f.width, f.height, f.rgb.len()), (2, 2, 12));
}

fn cfg_with(screen: ScreenConfig) -> AppConfig {
    AppConfig {
        device: DeviceInfo { id: "i".into(), name: "pi".into() },
        port: 8770,
        screens: vec![screen],
    }
}

fn glassout(settings: Vec<(&str, JsonValue)>) -> ScreenConfig {
    let mut s = ScreenConfig::new("screen-1".into(), "Main".into(), Some(0));
    s.view_id = "glassout".into();
    let mut m = Settings::new();
    for (k, v) in settings {
        m.insert(k.to_string(), v);
    }
    s.settings = m;
    s
}

#[test]
fn target_clamps_fps() {
    let cfg = cfg_with(glassout(vec![
        ("engineUrl", JsonValue::Text(" http://e:8787 ".into())),
        ("panelId", JsonValue::Text("PFD".into())),
        ("targetFps", JsonValue::Number(JsonNumber::PosInt(500))),
        ("clickDelay", JsonValue::Text("250".into())),
    ]));
    match read_target(&cfg, "screen-1") {
        Target::Glassout { engine_url, panel_id, target_fps, click_delay } => {
            assert_eq!(engine_url, "http://e:8787");
            assert_eq!(panel_id, "PFD");
            assert_eq!(target_fps, 120);
            assert_eq!(click_delay, Some(250));
        }
        Target::Local => panic!("expected glassout"),
    }
    let slow = cfg_with(glassout(vec![
        ("engineUrl", JsonValue::Text("http://e".into())),
        ("panelId", JsonValue::Text("P".into())),
        ("targetFps", JsonValue::Text("3".into())),
    ]));
    assert!(matches!(read_target(&slow, "screen-1"), Target::Glassout { target_fps: 10, click_delay: None, .. }));
    let default = cfg_with(glassout(vec![
        ("engineUrl", JsonValue::Text("http://e".into())),
        ("panelId", JsonValue::Text("P".into())),
    ]));
    assert!(matches!(read_target(&default, "screen-1"), Target::Glassout { target_fps: 30, .. }));
}

#[test]
fn target_is_local_otherwise() {
    let incomplete = cfg_with(glassout(vec![("engineUrl", JsonValue::Text("http://e".into()))]));
    assert!(matches!(read_target(&incomplete, "screen-1"), Target::Local));
    assert!(matches!(read_target(&incomplete, "screen-9"), Target::Local));
    let clock = cfg_with(ScreenConfig::new("screen-1".into(), "x".into(), None));
    assert!(matches!(read_target(&clock, "screen-1"), Target::Local));
}

#[test]
fn websocket_url() {
    assert_eq!(
        build_ws_url("http://192.168.1.50:9000/x").as_deref(),
        Some("ws://192.168.1.50:9000/ws?name=learsim-glass&appKey=learsim-glass&connectionType=viewer")
    );
    assert_eq!(
        build_ws_url("http://sim-pc").as_deref(),
        Some("ws://sim-pc:8787/ws?name=learsim-glass&appKey=learsim-glass&connectionType=viewer")
    );
    assert_eq!(build_ws_url("not a url"), None);
    assert_eq!(
        ws_url_for("h", Some(1)),
        "ws://h:1/ws?name=learsim-glass&appKey=learsim-glass&connectionType=viewer"
    );
}

#[test]
fn welcome_detection() {
    assert!(is_welcome(r#"{"type":"welcome","v":1}"#));
    assert!(!is_welcome(r#"{"type":"panels"}"#));
    assert!(!is_welcome("welcome"));
    assert!(!is_welcome(r#"{"type":1}"#));
}

#[test]
fn session_subscribes_once_then_forwards_taps() {
    let mut s = Session::new("PFD_Captain".into(), 30, Some(300));
    let tap = InputEvent { x: 5, y: 6 };
    assert!(matches!(s.step(SessionEvent::Input(tap)), SessionAction::Wait));
    match s.step(SessionEvent::Text(r#"{"type":"welcome"}"#.into())) {
        SessionAction::SendSubscribe(msg) => {
            assert_eq!(member_keys(&msg), vec!["type", "panelId", "targetFps"]);
            assert_eq!(text_member(&msg, "type").as_deref(), Some("subscribe.panel"));
            assert_eq!(text_member(&msg, "panelId").as_deref(), Some("PFD_Captain"));
            assert_eq!(number_member(&msg, "targetFps"), Some(JsonNumber::PosInt(30)));
        }
        other => panic!("unexpected {other:?}"),
    }
    assert!(matches!(s.step(SessionEvent::SubscribeSent(true)), SessionAction::Wait));
    assert!(s.subscribed);
    assert!(matches!(s.step(SessionEvent::Text(r#"{"type":"welcome"}"#.into())), SessionAction::Wait));
    match s.step(SessionEvent::Input(tap)) {
        SessionAction::SendInput(msg) => {
            assert_eq!(member_keys(&msg), vec!["type", "panelId", "x", "y", "kind", "delayMs"]);
            assert_eq!(text_member(&msg, "type").as_deref(), Some("panel.input"));
            assert_eq!(text_member(&msg, "panelId").as_deref(), Some("PFD_Captain"));
            assert_eq!(number_member(&msg, "x"), Some(JsonNumber::PosInt(5)));
            assert_eq!(number_member(&msg, "y"), Some(JsonNumber::PosInt(6)));
            assert_eq!(text_member(&msg, "kind").as_deref(), Some("click"));
            assert_eq!(number_member(&msg, "delayMs"), Some(JsonNumber::PosInt(300)));
        }
        other => panic!("unexpected {other:?}"),
    }
    assert!(matches!(s.step(SessionEvent::Ping(vec![1])), SessionAction::SendPong(p) if p == vec![1]));
    assert!(matches!(s.step(SessionEvent::Binary(vec![0])), SessionAction::Wait));
    assert!(matches!(s.step(SessionEvent::Other), SessionAction::Wait));
    assert!(matches!(s.step(SessionEvent::ConfigChanged), SessionAction::Finish(Outcome::ConfigChanged)));
    assert!(matches!(s.step(SessionEvent::Closed), SessionAction::Finish(Outcome::Disconnected)));
    assert!(matches!(s.step(SessionEvent::ReadError), SessionAction::Finish(Outcome::Disconnected)));
}

#[test]
fn input_without_delay_leaves_the_engine_default() {
    let msg = input_message("MFD", 10, 20, None);
    assert_eq!(member_keys(&msg), vec!["type", "panelId", "x", "y", "kind"]);
    assert!(msg.get("delayMs").is_none());
    assert_eq!(number_member(&msg, "x"), Some(JsonNumber::PosInt(10)));
    assert_eq!(text_member(&msg, "panelId").as_deref(), Some("MFD"));
    let sub = subscribe_message("MFD", 15);
    assert_eq!(number_member(&sub, "targetFps"), Some(JsonNumber::PosInt(15)));
}

#[test]
fn session_without_delay_sends_none() {
    let mut s = Session::new("EICAS".into(), 10, None);
    let _ = s.step(SessionEvent::Text(r#"{"type":"welcome"}"#.into()));
    let _ = s.step(SessionEvent::SubscribeSent(true));
    match s.step(SessionEvent::Input(InputEvent { x: 1, y: 2 })) {
        SessionAction::SendInput(msg) => {
            assert!(msg.get("delayMs").is_none());
            assert_eq!(text_member(&msg, "panelId").as_deref(), Some("EICAS"));
        }
        other => panic!("unexpected {other:?}"),
    }
}

#[test]
fn failed_subscribe_disconnects() {
    let mut s = Session::new("PFD".into(), 30, None);
    assert!(matches!(s.step(SessionEvent::SubscribeSent(false)), SessionAction::Finish(Outcome::Disconnected)));
    assert!(!s.subscribed);
}

#[test]
fn screen_view_snapshot() {
    let mut screen = ScreenConfig::new("screen-1".into(), "Main".into(), None);
    screen.view_id = "clock".into();
    let mut m = Settings::new();
    m.insert("hourFormat".into(), JsonValue::Text("12h".into()));
    m.insert("showSeconds".into(), JsonValue::Bool(false));
    m.insert("showDate".into(), JsonValue::Text("false".into()));
    m.insert("utc".into(), JsonValue::Text("true".into()));
    screen.settings = m;
    let cfg = cfg_with(screen);
    let sv = read_screen_view(&cfg, "screen-1");
    assert_eq!(sv.view_id, "clock");
    assert!(sv.hour_12 && !sv.show_seconds && sv.show_date && sv.utc);
    assert_eq!(sv.fit, "contain");
    assert_eq!(sv.message, "Standby");
    assert_eq!(clock_label(&sv), "pi · Main · ZULU");
    assert_eq!(time_pattern(sv.hour_12, sv.show_seconds), "%I:%M %p");
    let missing = read_screen_view(&cfg, "screen-7");
    assert_eq!(missing.view_id, "standby");
    assert_eq!(missing.screen_name, "screen-7");
    assert_eq!(id_label(&missing), "pi · screen-7");
    assert_eq!(placeholder_text(&missing), "Glassout not configured");
    assert_eq!(time_pattern(false, true), "%H:%M:%S");
}

#[test]
fn placeholder_names_engine() {
    let cfg = cfg_with(glassout(vec![("engineUrl", JsonValue::Text("http://e".into()))]));
    let sv = read_screen_view(&cfg, "screen-1");
    assert_eq!(placeholder_text(&sv), "Connecting to http://e");
}

#[test]
fn native_first_run_has_one_screen() {
    let cfg = native_from_loaded(None);
    assert_eq!(cfg.screens.len(), 1);
    assert_eq!(cfg.screens[0].id, "screen-1");
    assert_eq!(rendered_screen_id(&cfg), "screen-1");
    let empty = AppConfig::for_host(None, "i".into());
    assert_eq!(rendered_screen_id(&empty), "screen-1");
}

/// A baseline 8x8 grayscale JPEG of flat mid-grey: one quantisation table,
/// one-code Huffman tables, and a single block coding DC 0 and end-of-block.
fn flat_grey_jpeg() -> Vec<u8> {
    let mut v = vec![0xFF, 0xD8];
    v.extend_from_slice(&[0xFF, 0xDB, 0x00, 0x43, 0x00]);
    v.extend_from_slice(&[1u8; 64]);
    v.extend_from_slice(&[0xFF, 0xC0, 0x00, 0x0B, 0x08, 0x00, 0x08, 0x00, 0x08, 0x01, 0x01, 0x11, 0x00]);
    for class in [0x00u8, 0x10] {
        v.extend_from_slice(&[0xFF, 0xC4, 0x00, 0x14, class, 0x01]);
        v.extend_from_slice(&[0u8; 15]);
        v.push(0x00);
    }
    v.extend_from_slice(&[0xFF, 0xDA, 0x00, 0x08, 0x01, 0x01, 0x00, 0x00, 0x3F, 0x00]);
    v.push(0x3F);
    v.extend_from_slice(&[0xFF, 0xD9]);
    v
}

#[test]
fn decodes_a_small_jpeg() {
    let frame = decode_jpeg(&flat_grey_jpeg()).unwrap();
    assert_eq!((frame.width, frame.height), (8, 8));
    // A grayscale image decodes to one byte per pixel.
    assert_eq!(frame.rgb.len(), 8 * 8);
    assert!(frame.rgb.iter().all(|&p| p == 128));
}

#[test]
fn frame_message_carries_a_decodable_jpeg() {
    let msg = frame(b"PFD_Captain", 8, 8, &flat_grey_jpeg());
    let mut s = Session::new("PFD_Captain".into(), 30, None);
    match s.step(SessionEvent::Binary(msg)) {
        SessionAction::ShowFrame(f) => assert_eq!((f.width, f.height, f.rgb.len()), (8, 8, 64)),
        other => panic!("unexpected {other:?}"),
    }
}

#[test]
fn test_pattern_geometry() {
    let g = grid_lines(250, 100);
    assert_eq!(g.len(), 3 + 2);
    assert_eq!(g[2], Line { x1: 200, y1: 0, x2: 200, y2: 100 });
    assert_eq!(g[4], Line { x1: 0, y1: 100, x2: 250, y2: 100 });
    let guides = guide_lines(1280, 720);
    assert_eq!(guides[0], Line { x1: 640, y1: 0, x2: 640, y2: 720 });
    assert_eq!(guides[3], Line { x1: 1280, y1: 0, x2: 0, y2: 720 });
}

#[test]
fn supervisor_steps() {
    assert_eq!(supervisor_step(None), SupervisorStep::ClearAndWait);
    assert_eq!(supervisor_step(Some(Outcome::ConfigChanged)), SupervisorStep::Reread);
    assert_eq!(supervisor_step(Some(Outcome::Disconnected)), SupervisorStep::ClearAndBackOff);
}

#[test]
fn utc_time_is_marked_zulu() {
    assert_eq!(clock_time_text("14:05".to_string(), true), "14:05Z");
    assert_eq!(clock_time_text("02:05 PM".to_string(), false), "02:05 PM");
}
