use learsim_glass::config::{from_loaded, AppConfig, DeviceInfo, ScreenConfig, ScreenState, DEFAULT_PORT};
use learsim_glass::control::{add_screen, delete_screen, get_screen_state, put_screen, NewScreen, UpdateScreen};
use learsim_glass::json::{JsonValue, Settings};
use learsim_glass::reconcile::{
    desired_engine_url, engine_status_url, ensure_first_screen, glassout_screens, probe_target,
    provision_monitors,
};

fn config(screens: Vec<ScreenConfig>) -> AppConfig {
    AppConfig {
        device: DeviceInfo { id: "dev-id".to_string(), name: "cockpit-pi".to_string() },
        port: DEFAULT_PORT,
        screens,
    }
}

fn glassout_screen(id: &str, engine: &str) -> ScreenConfig {
    let mut s = ScreenConfig::new(id.to_string(), id.to_string(), None);
    s.view_id = "glassout".to_string();
    let mut settings = Settings::new();
    settings.insert("engineUrl".to_string(), JsonValue::Text(engine.to_string()));
    settings.insert("panelId".to_string(), JsonValue::Text("PFD".to_string()));
    s.settings = settings;
    s
}

#[test]
fn new_screen_shows_standby() {
    let s = ScreenConfig::new("screen-1".to_string(), "Screen 1".to_string(), Some(0));
    assert_eq!(s.view_id, "standby");
    assert_eq!(s.monitor, Some(0));
    assert!(s.settings.entries().is_empty());
}

#[test]
fn add_numbers_screens_by_count() {
    let mut cfg = config(vec![]);
    let a = add_screen(&mut cfg, NewScreen { name: None, monitor: Some(1) });
    assert_eq!(a.id, "screen-1");
    assert_eq!(a.name, "Screen 1");
    assert_eq!(a.monitor, Some(1));
    let b = add_screen(&mut cfg, NewScreen { name: Some("Left".to_string()), monitor: None });
    assert_eq!(b.id, "screen-2");
    assert_eq!(b.name, "Left");
    assert_eq!(cfg.screens.len(), 2);
    assert_eq!(cfg.screen_index("screen-2"), Some(1));
}

#[test]
fn put_updates_only_given_fields() {
    let mut cfg = config(vec![
        ScreenConfig::new("screen-1".to_string(), "Screen 1".to_string(), Some(0)),
        ScreenConfig::new("screen-2".to_string(), "Screen 2".to_string(), Some(1)),
    ]);
    let mut settings = Settings::new();
    settings.insert("message".to_string(), JsonValue::Text("Hello".to_string()));
    let updated = put_screen(
        &mut cfg,
        "screen-2",
        UpdateScreen { view_id: Some("clock".to_string()), settings: Some(settings), name: None },
    )
    .unwrap();
    assert_eq!(updated.view_id, "clock");
    assert_eq!(updated.name, "Screen 2");
    assert_eq!(cfg.screens[1].view_id, "clock");
    assert_eq!(cfg.screens[1].settings.entries().len(), 1);
    assert_eq!(cfg.screens[0].view_id, "standby");
    let renamed = put_screen(
        &mut cfg,
        "screen-1",
        UpdateScreen { view_id: None, settings: None, name: Some("Main".to_string()) },
    )
    .unwrap();
    assert_eq!(renamed.name, "Main");
    assert_eq!(renamed.view_id, "standby");
}

#[test]
fn unknown_screen_is_not_found() {
    let mut cfg = config(vec![ScreenConfig::new("screen-1".to_string(), "S".to_string(), None)]);
    let err = put_screen(&mut cfg, "nope", UpdateScreen { view_id: None, settings: None, name: None })
        .unwrap_err();
    assert_eq!(err, "screen 'nope' not found");
    assert_eq!(delete_screen(&mut cfg, "nope").unwrap_err(), "screen 'nope' not found");
    assert_eq!(cfg.screens.len(), 1);
    assert_eq!(get_screen_state("nope", &cfg).unwrap_err(), "screen 'nope' not found");
}

#[test]
fn add_takes_the_smallest_free_number() {
    let mut cfg = config(vec![
        ScreenConfig::new("screen-1".to_string(), "Screen 1".to_string(), Some(0)),
        ScreenConfig::new("screen-2".to_string(), "Screen 2".to_string(), Some(1)),
    ]);
    delete_screen(&mut cfg, "screen-1").unwrap();
    let added = add_screen(&mut cfg, NewScreen { name: None, monitor: None });
    assert_eq!(added.id, "screen-1");
    assert_eq!(added.name, "Screen 1");
    let ids: Vec<&str> = cfg.screens.iter().map(|s| s.id.as_str()).collect();
    assert_eq!(ids, vec!["screen-2", "screen-1"]);
    let third = add_screen(&mut cfg, NewScreen { name: None, monitor: None });
    assert_eq!(third.id, "screen-3");

    let mut only_two = config(vec![ScreenConfig::new("screen-2".to_string(), "S".to_string(), None)]);
    assert_eq!(add_screen(&mut only_two, NewScreen { name: None, monitor: None }).id, "screen-1");

    let mut gap = config(vec![
        ScreenConfig::new("screen-1".to_string(), "A".to_string(), None),
        ScreenConfig::new("screen-3".to_string(), "C".to_string(), None),
    ]);
    assert_eq!(add_screen(&mut gap, NewScreen { name: None, monitor: None }).id, "screen-2");
}

#[test]
fn add_then_delete_restores() {
    let mut cfg = config(vec![ScreenConfig::new("screen-1".to_string(), "Screen 1".to_string(), Some(0))]);
    let added = add_screen(&mut cfg, NewScreen { name: None, monitor: None });
    delete_screen(&mut cfg, &added.id).unwrap();
    assert_eq!(cfg.screens.len(), 1);
    assert_eq!(cfg.screens[0].id, "screen-1");
}

#[test]
fn put_twice_is_put_once() {
    let mut cfg = config(vec![ScreenConfig::new("screen-1".to_string(), "Screen 1".to_string(), Some(0))]);
    let body = || UpdateScreen { view_id: Some("clock".to_string()), settings: None, name: Some("C".to_string()) };
    put_screen(&mut cfg, "screen-1", body()).unwrap();
    let again = put_screen(&mut cfg, "screen-1", body()).unwrap();
    assert_eq!(again.view_id, "clock");
    assert_eq!(again.name, "C");
    assert_eq!(cfg.screens.len(), 1);
}

#[test]
fn screen_state_carries_device_name() {
    let cfg = config(vec![glassout_screen("screen-1", "http://e:8787")]);
    let st: ScreenState = get_screen_state("screen-1", &cfg).unwrap();
    assert_eq!(st.device_name, "cockpit-pi");
    assert_eq!(st.view_id, "glassout");
    assert_eq!(st.settings.entries().len(), 2);
    let direct = ScreenState::from_screen(&cfg.screens[0], "x");
    assert_eq!(direct.device_name, "x");
    assert_eq!(direct.id, "screen-1");
}

#[test]
fn first_run_provisions_one_screen_per_monitor() {
    let mut cfg = config(vec![]);
    ensure_first_screen(&mut cfg);
    assert_eq!(cfg.screens.len(), 1);
    assert_eq!(cfg.screens[0].id, "screen-1");
    assert_eq!(cfg.screens[0].monitor, Some(0));
    provision_monitors(&mut cfg, 3);
    assert_eq!(cfg.screens.len(), 3);
    assert_eq!(cfg.screens[2].id, "screen-3");
    assert_eq!(cfg.screens[2].name, "Screen 3");
    assert_eq!(cfg.screens[2].monitor, Some(2));
    provision_monitors(&mut cfg, 1);
    assert_eq!(cfg.screens.len(), 3);
    ensure_first_screen(&mut cfg);
    assert_eq!(cfg.screens.len(), 3);
}

#[test]
fn glassout_screens_are_probed_and_healed() {
    let mut local = ScreenConfig::new("screen-1".to_string(), "S1".to_string(), None);
    local.view_id = "clock".to_string();
    let go = glassout_screen("screen-2", "http://engine:8787/");
    let cfg = config(vec![local, go]);
    let picked = glassout_screens(&cfg);
    assert_eq!(picked.len(), 1);
    assert_eq!(picked[0].id, "screen-2");
    assert_eq!(probe_target(&cfg.screens[0]), None);
    assert_eq!(probe_target(&cfg.screens[1]).as_deref(), Some("http://engine:8787/status"));
    assert_eq!(desired_engine_url(&cfg.screens[1], false), None);
    assert_eq!(
        desired_engine_url(&cfg.screens[1], true).as_deref(),
        Some("http://engine:8787/panel/PFD")
    );
    assert_eq!(desired_engine_url(&cfg.screens[0], true), None);
    assert_eq!(engine_status_url(&Settings::new()), None);
}

#[test]
fn loaded_or_default() {
    let (cfg, existed) = from_loaded(Some(config(vec![])));
    assert!(existed);
    assert_eq!(cfg.device.name, "cockpit-pi");
    let (fresh, existed) = from_loaded(None);
    assert!(!existed);
    assert_eq!(fresh.port, 8770);
    assert!(fresh.screens.is_empty());
    assert_eq!(fresh.device.id.len(), 36);
    assert_eq!(&fresh.device.id[14..15], "4");
}

#[test]
fn config_for_host_falls_back_to_app_name() {
    let named = AppConfig::for_host(Some("pi".to_string()), "id".to_string());
    assert_eq!(named.device.name, "pi");
    let unnamed = AppConfig::for_host(None, "id".to_string());
    assert_eq!(unnamed.device.name, "learsim-glass");
    assert_eq!(unnamed.device.id, "id");
    assert_eq!(unnamed.port, 8770);
}

#[test]
fn deleted_screen_is_gone() {
    let mut cfg = config(vec![
        ScreenConfig::new("screen-1".to_string(), "Screen 1".to_string(), Some(0)),
        ScreenConfig::new("screen-2".to_string(), "Screen 2".to_string(), Some(1)),
        ScreenConfig::new("screen-3".to_string(), "Screen 3".to_string(), Some(2)),
    ]);
    delete_screen(&mut cfg, "screen-2").unwrap();
    assert!(cfg.screen("screen-2").is_none());
    assert_eq!(cfg.screen_index("screen-3"), Some(1));
    assert!(get_screen_state("screen-2", &cfg).is_err());
}
