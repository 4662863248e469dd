//! What the native display draws for its screen: a per-frame snapshot of
//! the screen's view and settings, and the texts and clock pattern drawn
//! from it.
use crate::config::{AppConfig, ConfigModel, lemma_screen_pos, spec_screen};
use crate::glassout::{setting_bool, setting_str, spec_setting_bool, spec_setting_str, text_is};
use crate::json::{JsonModel, JsonValue, lookup};
use crate::text::{push_char, push_str, trim};
use vstd::prelude::*;

verus! {

/// Snapshot of the target screen's state for one frame.
#[derive(Debug)]
pub struct ScreenView {
    pub view_id: String,
    pub device_name: String,
    pub screen_name: String,
    pub fit: String,
    pub message: String,
    pub hour_12: bool,
    pub show_seconds: bool,
    pub show_date: bool,
    pub utc: bool,
    pub engine_url: String,
}

/// The model of a snapshot.
pub struct ScreenViewModel {
    pub view_id: Seq<char>,
    pub device_name: Seq<char>,
    pub screen_name: Seq<char>,
    pub fit: Seq<char>,
    pub message: Seq<char>,
    pub hour_12: bool,
    pub show_seconds: bool,
    pub show_date: bool,
    pub utc: bool,
    pub engine_url: Seq<char>,
}

impl View for ScreenView {
    type V = ScreenViewModel;

    open spec fn view(&self) -> ScreenViewModel {
        ScreenViewModel {
            view_id: self.view_id@,
            device_name: self.device_name@,
            screen_name: self.screen_name@,
            fit: self.fit@,
            message: self.message@,
            hour_12: self.hour_12,
            show_seconds: self.show_seconds,
            show_date: self.show_date,
            utc: self.utc,
            engine_url: self.engine_url@,
        }
    }
}

/// A setting's trimmed text, or `default` when it has none.
pub open spec fn str_or(settings: Seq<(Seq<char>, JsonModel)>, key: Seq<char>, default: Seq<char>) -> Seq<
    char,
> {
    match spec_setting_str(settings, key) {
        Some(s) => s,
        None => default,
    }
}

/// A flag that is on unless set to JSON `false`.
pub open spec fn on_unless_false(settings: Seq<(Seq<char>, JsonModel)>, key: Seq<char>) -> bool {
    lookup(settings, key) != Some(JsonModel::Bool(false))
}

/// The snapshot of screen `screen_id`; an unknown screen is drawn as a
/// standby screen named after its id.
pub open spec fn spec_read_screen_view(cfg: ConfigModel, screen_id: Seq<char>) -> ScreenViewModel {
    match spec_screen(cfg, screen_id) {
        Some(s) => ScreenViewModel {
            view_id: s.view_id,
            device_name: cfg.device_name,
            screen_name: s.name,
            fit: str_or(s.settings, "fit"@, "contain"@),
            message: str_or(s.settings, "message"@, "Standby"@),
            hour_12: spec_setting_str(s.settings, "hourFormat"@) == Some("12h"@),
            show_seconds: on_unless_false(s.settings, "showSeconds"@),
            show_date: on_unless_false(s.settings, "showDate"@),
            utc: spec_setting_bool(s.settings, "utc"@),
            engine_url: str_or(s.settings, "engineUrl"@, ""@),
        },
        None => ScreenViewModel {
            view_id: "standby"@,
            device_name: cfg.device_name,
            screen_name: screen_id,
            fit: "contain"@,
            message: "Standby"@,
            hour_12: false,
            show_seconds: true,
            show_date: true,
            utc: false,
            engine_url: ""@,
        },
    }
}

fn str_or_default(settings: &crate::json::Settings, key: &str, default: &str) -> (r: String)
    ensures
        r@ == str_or(settings@, key@, default@),
{
    match setting_str(settings, key) {
        Some(s) => s,
        None => default.to_owned(),
    }
}

fn flag_unless_false(settings: &crate::json::Settings, key: &str) -> (r: bool)
    ensures
        r == on_unless_false(settings@, key@),
{
    match settings.get(key) {
        Some(JsonValue::Bool(false)) => false,
        _ => true,
    }
}

/// The snapshot of screen `screen_id` for one frame.
pub fn read_screen_view(cfg: &AppConfig, screen_id: &str) -> (r: ScreenView)
    ensures
        r@ == spec_read_screen_view(cfg@, screen_id@),
{
    let device_name = cfg.device.name.clone();
    match cfg.screen(screen_id) {
        Some(s) => {
            let hour_12 = match s.setting_str("hourFormat") {
                Some(h) => text_is(&h, "12h"),
                None => false,
            };
            ScreenView {
                view_id: s.view_id.clone(),
                device_name,
                screen_name: s.name.clone(),
                fit: str_or_default(&s.settings, "fit", "contain"),
                message: str_or_default(&s.settings, "message", "Standby"),
                hour_12,
                show_seconds: flag_unless_false(&s.settings, "showSeconds"),
                show_date: flag_unless_false(&s.settings, "showDate"),
                utc: setting_bool(&s.settings, "utc"),
                engine_url: str_or_default(&s.settings, "engineUrl", ""),
            }
        },
        None => ScreenView {
            view_id: "standby".to_owned(),
            device_name,
            screen_name: screen_id.to_owned(),
            fit: "contain".to_owned(),
            message: "Standby".to_owned(),
            hour_12: false,
            show_seconds: true,
            show_date: true,
            utc: false,
            engine_url: "".to_owned(),
        },
    }
}

/// The device and screen label drawn at the bottom: `<device> · <screen>`.
pub fn id_label(sv: &ScreenView) -> (r: String)
    ensures
        r@ == sv@.device_name + " · "@ + sv@.screen_name,
{
    let mut s = String::new();
    push_str(&mut s, sv.device_name.as_str());
    push_str(&mut s, " · ");
    push_str(&mut s, sv.screen_name.as_str());
    s
}

/// The clock view's label: the id label, marked ` · ZULU` in UTC.
pub fn clock_label(sv: &ScreenView) -> (r: String)
    ensures
        r@ == (if sv.utc {
            sv@.device_name + " · "@ + sv@.screen_name + " · ZULU"@
        } else {
            sv@.device_name + " · "@ + sv@.screen_name
        }),
{
    let mut s = id_label(sv);
    if sv.utc {
        push_str(&mut s, " · ZULU");
    }
    s
}

/// The text a glassout screen shows while it has no frames.
pub fn placeholder_text(sv: &ScreenView) -> (r: String)
    ensures
        r@ == (if sv@.engine_url.len() == 0 {
            "Glassout not configured"@
        } else {
            "Connecting to "@ + sv@.engine_url
        }),
{
    if sv.engine_url.as_str().is_empty() {
        "Glassout not configured".to_owned()
    } else {
        let mut s = String::new();
        push_str(&mut s, "Connecting to ");
        push_str(&mut s, sv.engine_url.as_str());
        s
    }
}

/// The `strftime` pattern of the clock's time line.
pub open spec fn spec_time_pattern(hour_12: bool, show_seconds: bool) -> Seq<char> {
    if hour_12 {
        if show_seconds {
            "%I:%M:%S %p"@
        } else {
            "%I:%M %p"@
        }
    } else {
        if show_seconds {
            "%H:%M:%S"@
        } else {
            "%H:%M"@
        }
    }
}

/// The `strftime` pattern of the clock's time line: 12- or 24-hour, with
/// or without seconds.
pub fn time_pattern(hour_12: bool, show_seconds: bool) -> (r: &'static str)
    ensures
        r@ == spec_time_pattern(hour_12, show_seconds),
{
    if hour_12 {
        if show_seconds {
            "%I:%M:%S %p"
        } else {
            "%I:%M %p"
        }
    } else {
        if show_seconds {
            "%H:%M:%S"
        } else {
            "%H:%M"
        }
    }
}

/// The clock's time line from its formatted time: marked `Z` in UTC.
pub fn clock_time_text(formatted: String, utc: bool) -> (r: String)
    ensures
        r@ == (if utc {
            formatted@.push('Z')
        } else {
            formatted@
        }),
{
    let mut t = formatted;
    if utc {
        push_char(&mut t, 'Z');
    }
    t
}

/// A line segment on the output, in pixels.
#[derive(Debug, Clone, Copy, PartialEq, Eq, Structural)]
pub struct Line {
    pub x1: i32,
    pub y1: i32,
    pub x2: i32,
    pub y2: i32,
}

/// The test pattern's grid: a vertical line every 100 px from the left edge
/// while `x <= w`, then a horizontal one every 100 px while `y <= h`.
pub open spec fn spec_grid_lines(w: int, h: int) -> Seq<Line> {
    Seq::new(
        (w / 100 + 1) as nat,
        |k: int| Line { x1: (100 * k) as i32, y1: 0, x2: (100 * k) as i32, y2: h as i32 },
    ) + Seq::new(
        (h / 100 + 1) as nat,
        |k: int| Line { x1: 0, y1: (100 * k) as i32, x2: w as i32, y2: (100 * k) as i32 },
    )
}

/// The test pattern's centre cross and both diagonals.
pub open spec fn spec_guide_lines(w: int, h: int) -> Seq<Line> {
    seq![
        Line { x1: (w / 2) as i32, y1: 0, x2: (w / 2) as i32, y2: h as i32 },
        Line { x1: 0, y1: (h / 2) as i32, x2: w as i32, y2: (h / 2) as i32 },
        Line { x1: 0, y1: 0, x2: w as i32, y2: h as i32 },
        Line { x1: w as i32, y1: 0, x2: 0, y2: h as i32 },
    ]
}

/// The test pattern's alignment grid for a `w` x `h` output.
pub fn grid_lines(w: u32, h: u32) -> (r: Vec<Line>)
    requires
        w <= i32::MAX - 100,
        h <= i32::MAX - 100,
    ensures
        r@ == spec_grid_lines(w as int, h as int),
{
    let wi = w as i32;
    let hi = h as i32;
    let mut r: Vec<Line> = Vec::new();
    let mut x: i32 = 0;
    while x <= wi
        invariant
            wi == w,
            hi == h,
            w <= i32::MAX - 100,
            0 <= x <= wi + 100,
            x % 100 == 0,
            r@ == Seq::new(
                (x / 100) as nat,
                |k: int| Line { x1: (100 * k) as i32, y1: 0, x2: (100 * k) as i32, y2: hi },
            ),
        decreases wi + 100 - x,
    {
        r.push(Line { x1: x, y1: 0, x2: x, y2: hi });
        x = x + 100;
        assert(r@ =~= Seq::new(
            (x / 100) as nat,
            |k: int| Line { x1: (100 * k) as i32, y1: 0, x2: (100 * k) as i32, y2: hi },
        ));
    }
    let ghost verticals = r@;
    assert(x / 100 == w / 100 + 1);
    let mut y: i32 = 0;
    while y <= hi
        invariant
            wi == w,
            hi == h,
            h <= i32::MAX - 100,
            0 <= y <= hi + 100,
            y % 100 == 0,
            r@ == verticals + Seq::new(
                (y / 100) as nat,
                |k: int| Line { x1: 0, y1: (100 * k) as i32, x2: wi, y2: (100 * k) as i32 },
            ),
        decreases hi + 100 - y,
    {
        r.push(Line { x1: 0, y1: y, x2: wi, y2: y });
        y = y + 100;
        assert(r@ =~= verticals + Seq::new(
            (y / 100) as nat,
            |k: int| Line { x1: 0, y1: (100 * k) as i32, x2: wi, y2: (100 * k) as i32 },
        ));
    }
    assert(y / 100 == h / 100 + 1);
    assert(r@ =~= spec_grid_lines(w as int, h as int));
    r
}

/// The test pattern's centre cross and diagonals for a `w` x `h` output.
pub fn guide_lines(w: u32, h: u32) -> (r: Vec<Line>)
    requires
        w <= i32::MAX,
        h <= i32::MAX,
    ensures
        r@ == spec_guide_lines(w as int, h as int),
{
    let wi = w as i32;
    let hi = h as i32;
    let mut r: Vec<Line> = Vec::new();
    r.push(Line { x1: wi / 2, y1: 0, x2: wi / 2, y2: hi });
    r.push(Line { x1: 0, y1: hi / 2, x2: wi, y2: hi / 2 });
    r.push(Line { x1: 0, y1: 0, x2: wi, y2: hi });
    r.push(Line { x1: wi, y1: 0, x2: 0, y2: hi });
    assert(r@ =~= spec_guide_lines(w as int, h as int));
    r
}


/// The standby screen draws the screen's own `message` setting, trimmed,
/// whenever it is a string with something besides whitespace; "Standby"
/// is drawn only when there is no such setting. The snapshot carries the
/// screen's view as it is configured.
pub proof fn law_snapshot_message(cfg: ConfigModel, screen_id: Seq<char>)
    requires
        spec_screen(cfg, screen_id) is Some,
    ensures
        ({
            let screen = spec_screen(cfg, screen_id)->0;
            let sv = spec_read_screen_view(cfg, screen_id);
            &&& sv.view_id == screen.view_id
            &&& sv.screen_name == screen.name
            &&& match lookup(screen.settings, "message"@) {
                Some(JsonModel::Text(m)) => if trim(m).len() > 0 {
                    sv.message == trim(m)
                } else {
                    sv.message == "Standby"@
                },
                _ => sv.message == "Standby"@,
            }
        }),
{
}


/// The rest of the snapshot of a known screen: the fit and the engine URL
/// are their settings trimmed when those are non-blank strings (else
/// `contain` and nothing); the clock is 12-hour exactly when `hourFormat`
/// reads `12h`; seconds and date show unless set to JSON `false`; UTC is on
/// for JSON `true` or the string `"true"`; the device name is the
/// configuration's.
pub proof fn law_snapshot_options(cfg: ConfigModel, screen_id: Seq<char>)
    requires
        spec_screen(cfg, screen_id) is Some,
    ensures
        ({
            let st = spec_screen(cfg, screen_id)->0.settings;
            let sv = spec_read_screen_view(cfg, screen_id);
            &&& sv.device_name == cfg.device_name
            &&& match lookup(st, "fit"@) {
                Some(JsonModel::Text(f)) => sv.fit == (if trim(f).len() > 0 {
                    trim(f)
                } else {
                    "contain"@
                }),
                _ => sv.fit == "contain"@,
            }
            &&& match lookup(st, "engineUrl"@) {
                Some(JsonModel::Text(e)) => sv.engine_url == trim(e),
                _ => sv.engine_url == ""@,
            }
            &&& sv.hour_12 == (lookup(st, "hourFormat"@) matches Some(JsonModel::Text(h)) && trim(h) == "12h"@)
            &&& sv.show_seconds == (lookup(st, "showSeconds"@) != Some(JsonModel::Bool(false)))
            &&& sv.show_date == (lookup(st, "showDate"@) != Some(JsonModel::Bool(false)))
            &&& sv.utc == (lookup(st, "utc"@) == Some(JsonModel::Bool(true)) || lookup(st, "utc"@) == Some(
                JsonModel::Text("true"@),
            ))
        }),
{
    reveal_strlit("12h");
    reveal_strlit("");
    let st = spec_screen(cfg, screen_id)->0.settings;
    match lookup(st, "engineUrl"@) {
        Some(JsonModel::Text(e)) => {
            if trim(e).len() == 0 {
                assert(trim(e) =~= ""@);
            }
        },
        _ => {},
    }
}

/// An unknown screen is drawn as a standby screen named after its id, with
/// the default message and options.
pub proof fn law_unknown_screen_is_standby(cfg: ConfigModel, screen_id: Seq<char>)
    requires
        spec_screen(cfg, screen_id) is None,
    ensures
        ({
            let sv = spec_read_screen_view(cfg, screen_id);
            &&& sv.view_id == "standby"@
            &&& sv.screen_name == screen_id
            &&& sv.message == "Standby"@
            &&& sv.fit == "contain"@
            &&& !sv.hour_12 && sv.show_seconds && sv.show_date && !sv.utc
            &&& sv.engine_url.len() == 0
        }),
{
    reveal_strlit("");
}

} // verus!
