//! The native client's glassout session: what to stream for its screen, the
//! engine's WebSocket URL, and the decisions taken on each message, tap and
//! configuration change while connected.
use crate::config::{AppConfig, ConfigModel, ScreenConfig, lemma_screen_pos, spec_screen};
use crate::frames::{DecodedFrame, InputEvent, decode_jpeg, jpeg_rgb, parse_frame, spec_parse_frame};
use crate::glassout::{spec_setting_number, spec_setting_str, text_is};
use crate::json::{JsonModel, JsonNumber, JsonValue, json_object, member_models};
use crate::reconcile::is_glassout;
use crate::json::{json_get, lemma_lookup_absent, lemma_lookup_at, lookup};
use crate::text::{decimal, parse_u64, push_decimal, push_str, trim};
use vstd::prelude::*;

verus! {

/// What the supervisor should connect to for the target screen.
#[derive(Debug)]
pub enum Target {
    Glassout { engine_url: String, panel_id: String, target_fps: u64, click_delay: Option<u64> },
    Local,
}

/// The model of a target.
pub enum TargetModel {
    Glassout {
        engine_url: Seq<char>,
        panel_id: Seq<char>,
        target_fps: u64,
        click_delay: Option<u64>,
    },
    Local,
}

impl View for Target {
    type V = TargetModel;

    open spec fn view(&self) -> TargetModel {
        match self {
            Target::Glassout { engine_url, panel_id, target_fps, click_delay } => TargetModel::Glassout {
                engine_url: engine_url@,
                panel_id: panel_id@,
                target_fps: *target_fps,
                click_delay: *click_delay,
            },
            Target::Local => TargetModel::Local,
        }
    }
}

/// `x` clamped to `[lo, hi]`.
pub open spec fn clamp(x: u64, lo: u64, hi: u64) -> u64 {
    if x < lo {
        lo
    } else if x > hi {
        hi
    } else {
        x
    }
}

/// The panel to stream for screen `screen_id`: only a glassout screen with
/// both an engine URL and a panel id, at its target fps (default 30,
/// clamped to 10..=120) and with its click delay, if any.
pub open spec fn spec_read_target(cfg: ConfigModel, screen_id: Seq<char>) -> TargetModel {
    match spec_screen(cfg, screen_id) {
        None => TargetModel::Local,
        Some(screen) => if !is_glassout(screen) {
            TargetModel::Local
        } else {
            match (
                spec_setting_str(screen.settings, "engineUrl"@),
                spec_setting_str(screen.settings, "panelId"@),
            ) {
                (Some(engine), Some(panel)) => TargetModel::Glassout {
                    engine_url: engine,
                    panel_id: panel,
                    target_fps: clamp(
                        match spec_setting_number(screen.settings, "targetFps"@) {
                            Some(n) => n,
                            None => 30,
                        },
                        10,
                        120,
                    ),
                    click_delay: spec_setting_number(screen.settings, "clickDelay"@),
                },
                _ => TargetModel::Local,
            }
        },
    }
}

/// What the supervisor should stream for screen `screen_id`.
pub fn read_target(cfg: &AppConfig, screen_id: &str) -> (r: Target)
    ensures
        r@ == spec_read_target(cfg@, screen_id@),
{
    let screen: &ScreenConfig = match cfg.screen(screen_id) {
        Some(s) => s,
        None => return Target::Local,
    };
    if !text_is(&screen.view_id, "glassout") {
        return Target::Local;
    }
    match (screen.setting_str("engineUrl"), screen.setting_str("panelId")) {
        (Some(engine), Some(panel)) => {
            let fps = match screen.setting_u64("targetFps") {
                Some(n) => n,
                None => 30,
            };
            let target_fps = if fps < 10 {
                10
            } else if fps > 120 {
                120
            } else {
                fps
            };
            Target::Glassout {
                engine_url: engine,
                panel_id: panel,
                target_fps,
                click_delay: screen.setting_u64("clickDelay"),
            }
        },
        _ => Target::Local,
    }
}

/// What parsing `text` as an absolute URL gives: its host and explicit
/// port (`None` when it is the scheme's default), or `None` when the text
/// does not parse or has no host.
pub uninterp spec fn url_host_port(text: Seq<char>) -> Option<(Seq<char>, Option<u16>)>;

/// `url::Url::parse`, then `Url::host_str` and `Url::port`: the host and
/// explicit port of an absolute URL. The contract only names the result
/// `url_host_port`, a function of the text alone.
#[verifier::external_body]
fn parse_host_port(text: &str) -> (r: Option<(String, Option<u16>)>)
    ensures
        match r {
            Some((h, p)) => url_host_port(text@) == Some((h@, p)),
            None => url_host_port(text@) is None,
        },
{
    let u = url::Url::parse(text).ok()?;
    let host = u.host_str()?.to_string();
    Some((host, u.port()))
}

/// The engine's viewer WebSocket URL on `host`, at `port` or the engine's
/// default 8787.
pub open spec fn spec_ws_url(host: Seq<char>, port: Option<u16>) -> Seq<char> {
    "ws://"@ + host + ":"@ + decimal(
        match port {
            Some(p) => p as nat,
            None => 8787,
        },
    ) + "/ws?name=learsim-glass&appKey=learsim-glass&connectionType=viewer"@
}

/// The engine's viewer WebSocket URL on `host` at `port` (default 8787).
pub fn ws_url_for(host: &str, port: Option<u16>) -> (r: String)
    ensures
        r@ == spec_ws_url(host@, port),
{
    let p: u16 = match port {
        Some(p) => p,
        None => 8787,
    };
    let mut url = String::new();
    push_str(&mut url, "ws://");
    push_str(&mut url, host);
    push_str(&mut url, ":");
    push_decimal(&mut url, p as u64);
    push_str(&mut url, "/ws?name=learsim-glass&appKey=learsim-glass&connectionType=viewer");
    url
}

/// The viewer WebSocket URL for an engine base URL, or `None` when it has
/// no host.
pub fn build_ws_url(engine_url: &str) -> (r: Option<String>)
    ensures
        match url_host_port(engine_url@) {
            Some((h, p)) => r is Some && r->0@ == spec_ws_url(h, p),
            None => r is None,
        },
{
    match parse_host_port(engine_url) {
        Some((host, port)) => Some(ws_url_for(host.as_str(), port)),
        None => None,
    }
}

/// What reading `text` as a JSON object gives for its `type` member, when
/// that is a string.
pub uninterp spec fn json_type_field(text: Seq<char>) -> Option<Seq<char>>;

/// `serde_json::from_str::<Value>`, then `Value::get("type")` and
/// `Value::as_str`: the `type` member of a JSON object, when it is a string.
/// The contract only names the result `json_type_field`, a function of the
/// text alone.
#[verifier::external_body]
fn message_type(text: &str) -> (r: Option<String>)
    ensures
        match r {
            Some(t) => json_type_field(text@) == Some(t@),
            None => json_type_field(text@) is None,
        },
{
    serde_json::from_str::<serde_json::Value>(text).ok().and_then(
        |v| v.get("type").and_then(|t| t.as_str()).map(|s| s.to_string()),
    )
}

/// Whether a text message is the engine's welcome, after which the client
/// subscribes.
pub fn is_welcome(text: &str) -> (r: bool)
    ensures
        r == (json_type_field(text@) == Some("welcome"@)),
{
    match message_type(text) {
        Some(t) => text_is(&t, "welcome"),
        None => false,
    }
}

/// How a session ended.
#[derive(Debug, PartialEq, Eq, Structural, Clone, Copy)]
pub enum Outcome {
    ConfigChanged,
    Disconnected,
}

/// How long the supervisor waits before reconnecting after a dropped
/// session, unless the configuration changes first.
pub const RECONNECT_BACKOFF_MS: u64 = 2000;

/// What the supervisor does after a turn of its loop.
#[derive(Debug, PartialEq, Eq, Structural, Clone, Copy)]
pub enum SupervisorStep {
    /// Read the target again at once (the configuration changed).
    Reread,
    /// Clear the frame (the placeholder shows), then retry after the
    /// backoff or as soon as the configuration changes.
    ClearAndBackOff,
    /// Clear the frame and wait for the next configuration change; stop if
    /// the configuration can no longer change.
    ClearAndWait,
}

/// The supervisor's next step: `None` when the target was local (nothing
/// was streamed), else how the session ended.
pub fn supervisor_step(ended: Option<Outcome>) -> (r: SupervisorStep)
    ensures
        r == match ended {
            None => SupervisorStep::ClearAndWait,
            Some(Outcome::ConfigChanged) => SupervisorStep::Reread,
            Some(Outcome::Disconnected) => SupervisorStep::ClearAndBackOff,
        },
{
    match ended {
        None => SupervisorStep::ClearAndWait,
        Some(Outcome::ConfigChanged) => SupervisorStep::Reread,
        Some(Outcome::Disconnected) => SupervisorStep::ClearAndBackOff,
    }
}

/// The `subscribe.panel` message: the panel to stream and the frame rate
/// asked for.
pub open spec fn spec_subscribe(panel_id: Seq<char>, target_fps: u64) -> JsonModel {
    JsonModel::Object(
        seq![
            ("type"@, JsonModel::Text("subscribe.panel"@)),
            ("panelId"@, JsonModel::Text(panel_id)),
            ("targetFps"@, JsonModel::Number(JsonNumber::PosInt(target_fps))),
        ],
    )
}

/// The `panel.input` message for a click at (x, y) on the panel, with
/// `delayMs` exactly when a delay is set (else the engine's default holds).
pub open spec fn spec_input(panel_id: Seq<char>, x: u32, y: u32, delay_ms: Option<u64>) -> JsonModel {
    JsonModel::Object(
        seq![
            ("type"@, JsonModel::Text("panel.input"@)),
            ("panelId"@, JsonModel::Text(panel_id)),
            ("x"@, JsonModel::Number(JsonNumber::PosInt(x as u64))),
            ("y"@, JsonModel::Number(JsonNumber::PosInt(y as u64))),
            ("kind"@, JsonModel::Text("click"@)),
        ] + match delay_ms {
            Some(d) => seq![("delayMs"@, JsonModel::Number(JsonNumber::PosInt(d)))],
            None => seq![],
        },
    )
}

/// A member whose value is a string.
fn text_member(key: &str, value: &str) -> (r: (String, JsonValue))
    ensures
        r.0@ == key@,
        r.1@ == JsonModel::Text(value@),
{
    (key.to_owned(), JsonValue::Text(value.to_owned()))
}

/// A member whose value is a non-negative integer.
fn number_member(key: &str, value: u64) -> (r: (String, JsonValue))
    ensures
        r.0@ == key@,
        r.1@ == JsonModel::Number(JsonNumber::PosInt(value)),
{
    (key.to_owned(), JsonValue::Number(JsonNumber::PosInt(value)))
}

/// The message that subscribes to `panel_id` at `target_fps`.
pub fn subscribe_message(panel_id: &str, target_fps: u64) -> (r: JsonValue)
    ensures
        r@ == spec_subscribe(panel_id@, target_fps),
{
    let mut members: Vec<(String, JsonValue)> = Vec::new();
    members.push(text_member("type", "subscribe.panel"));
    members.push(text_member("panelId", panel_id));
    members.push(number_member("targetFps", target_fps));
    let r = json_object(members);
    proof {
        assert(member_models(members@) =~= seq![
            ("type"@, JsonModel::Text("subscribe.panel"@)),
            ("panelId"@, JsonModel::Text(panel_id@)),
            ("targetFps"@, JsonModel::Number(JsonNumber::PosInt(target_fps))),
        ]);
    }
    r
}

/// The message for a click at (x, y) on `panel_id`, with the engine's
/// click delay when one is set.
pub fn input_message(panel_id: &str, x: u32, y: u32, delay_ms: Option<u64>) -> (r: JsonValue)
    ensures
        r@ == spec_input(panel_id@, x, y, delay_ms),
{
    let mut members: Vec<(String, JsonValue)> = Vec::new();
    members.push(text_member("type", "panel.input"));
    members.push(text_member("panelId", panel_id));
    members.push(number_member("x", x as u64));
    members.push(number_member("y", y as u64));
    members.push(text_member("kind", "click"));
    match delay_ms {
        Some(d) => members.push(number_member("delayMs", d)),
        None => {},
    }
    proof {
        let tail: Seq<(Seq<char>, JsonModel)> = match delay_ms {
            Some(d) => seq![("delayMs"@, JsonModel::Number(JsonNumber::PosInt(d)))],
            None => seq![],
        };
        assert(member_models(members@) =~= seq![
            ("type"@, JsonModel::Text("panel.input"@)),
            ("panelId"@, JsonModel::Text(panel_id@)),
            ("x"@, JsonModel::Number(JsonNumber::PosInt(x as u64))),
            ("y"@, JsonModel::Number(JsonNumber::PosInt(y as u64))),
            ("kind"@, JsonModel::Text("click"@)),
        ] + tail);
    }
    json_object(members)
}

/// What happened while connected.
#[derive(Debug)]
pub enum SessionEvent {
    /// A binary (frame) message.
    Binary(Vec<u8>),
    /// A text message.
    Text(String),
    /// A ping, with its payload.
    Ping(Vec<u8>),
    /// The engine closed the connection, or the stream ended.
    Closed,
    /// Any other message.
    Other,
    /// Reading failed.
    ReadError,
    /// A tap on the panel.
    Input(InputEvent),
    /// The configuration changed.
    ConfigChanged,
    /// The subscribe message was sent (`true`) or could not be (`false`).
    SubscribeSent(bool),
}

/// What the session asks of the connection.
#[derive(Debug)]
pub enum SessionAction {
    /// Nothing to do.
    Wait,
    /// Replace the latest frame with this one.
    ShowFrame(DecodedFrame),
    /// Send this `subscribe.panel` message.
    SendSubscribe(JsonValue),
    /// Answer a ping with this payload.
    SendPong(Vec<u8>),
    /// Send this `panel.input` message.
    SendInput(JsonValue),
    /// End the session.
    Finish(Outcome),
}

/// The session's own state: the panel it streams, the frame rate it asks
/// for, whether it has subscribed, and the click delay it forwards with taps.
#[derive(Debug)]
pub struct Session {
    pub panel_id: String,
    pub target_fps: u64,
    pub subscribed: bool,
    pub click_delay: Option<u64>,
}

/// The model of an action; a frame action carries what was decoded.
pub enum ActionModel {
    Wait,
    ShowFrame { width: u32, height: u32, rgb: Seq<u8> },
    SendSubscribe(JsonModel),
    SendPong(Seq<u8>),
    SendInput(JsonModel),
    Finish(Outcome),
}

impl View for SessionAction {
    type V = ActionModel;

    open spec fn view(&self) -> ActionModel {
        match self {
            SessionAction::Wait => ActionModel::Wait,
            SessionAction::ShowFrame(f) => ActionModel::ShowFrame {
                width: f.width,
                height: f.height,
                rgb: f.rgb@,
            },
            SessionAction::SendSubscribe(m) => ActionModel::SendSubscribe(m@),
            SessionAction::SendPong(p) => ActionModel::SendPong(p@),
            SessionAction::SendInput(m) => ActionModel::SendInput(m@),
            SessionAction::Finish(o) => ActionModel::Finish(*o),
        }
    }
}

/// The frame a binary message shows, if it parses and decodes.
pub open spec fn frame_of(data: Seq<u8>) -> Option<(u32, u32, Seq<u8>)> {
    match spec_parse_frame(data) {
        Some((_, _, jpeg)) => match jpeg_rgb(jpeg) {
            Some((px, w, h)) => Some((w as u32, h as u32, px)),
            None => None,
        },
        None => None,
    }
}

/// The answer to `event` of the session that streams `panel_id` at
/// `target_fps`, has `subscribed` (or not) and forwards taps with
/// `click_delay`.
pub open spec fn spec_step_action(
    panel_id: Seq<char>,
    target_fps: u64,
    subscribed: bool,
    click_delay: Option<u64>,
    event: SessionEventModel,
) -> ActionModel {
    match event {
        SessionEventModel::Binary(data) => match frame_of(data) {
            Some((w, h, px)) => ActionModel::ShowFrame { width: w, height: h, rgb: px },
            None => ActionModel::Wait,
        },
        SessionEventModel::Text(t) => if !subscribed && json_type_field(t) == Some("welcome"@) {
            ActionModel::SendSubscribe(spec_subscribe(panel_id, target_fps))
        } else {
            ActionModel::Wait
        },
        SessionEventModel::Ping(p) => ActionModel::SendPong(p),
        SessionEventModel::Closed => ActionModel::Finish(Outcome::Disconnected),
        SessionEventModel::Other => ActionModel::Wait,
        SessionEventModel::ReadError => ActionModel::Finish(Outcome::Disconnected),
        SessionEventModel::Input(x, y) => if subscribed {
            ActionModel::SendInput(spec_input(panel_id, x, y, click_delay))
        } else {
            ActionModel::Wait
        },
        SessionEventModel::ConfigChanged => ActionModel::Finish(Outcome::ConfigChanged),
        SessionEventModel::SubscribeSent(ok) => if ok {
            ActionModel::Wait
        } else {
            ActionModel::Finish(Outcome::Disconnected)
        },
    }
}

/// The model of an event.
pub enum SessionEventModel {
    Binary(Seq<u8>),
    Text(Seq<char>),
    Ping(Seq<u8>),
    Closed,
    Other,
    ReadError,
    Input(u32, u32),
    ConfigChanged,
    SubscribeSent(bool),
}

impl View for SessionEvent {
    type V = SessionEventModel;

    open spec fn view(&self) -> SessionEventModel {
        match self {
            SessionEvent::Binary(d) => SessionEventModel::Binary(d@),
            SessionEvent::Text(t) => SessionEventModel::Text(t@),
            SessionEvent::Ping(p) => SessionEventModel::Ping(p@),
            SessionEvent::Closed => SessionEventModel::Closed,
            SessionEvent::Other => SessionEventModel::Other,
            SessionEvent::ReadError => SessionEventModel::ReadError,
            SessionEvent::Input(ev) => SessionEventModel::Input(ev.x, ev.y),
            SessionEvent::ConfigChanged => SessionEventModel::ConfigChanged,
            SessionEvent::SubscribeSent(ok) => SessionEventModel::SubscribeSent(*ok),
        }
    }
}

impl Session {
    /// A new, not yet subscribed session for `panel_id` at `target_fps`.
    pub fn new(panel_id: String, target_fps: u64, click_delay: Option<u64>) -> (r: Self)
        ensures
            r.panel_id@ == panel_id@,
            r.target_fps == target_fps,
            !r.subscribed,
            r.click_delay == click_delay,
    {
        Session { panel_id, target_fps, subscribed: false, click_delay }
    }

    /// Decides what to do on `event`: decode and show frames, subscribe
    /// once after the welcome, answer pings, forward taps once subscribed,
    /// and end on a close, a read error, a failed subscribe or a
    /// configuration change.
    pub fn step(&mut self, event: SessionEvent) -> (r: SessionAction)
        ensures
            r@ == spec_step_action(
                old(self).panel_id@,
                old(self).target_fps,
                old(self).subscribed,
                old(self).click_delay,
                event@,
            ),
            final(self).panel_id@ == old(self).panel_id@,
            final(self).target_fps == old(self).target_fps,
            final(self).click_delay == old(self).click_delay,
            final(self).subscribed == (old(self).subscribed || event@ == SessionEventModel::SubscribeSent(
                true,
            )),
    {
        match event {
            SessionEvent::Binary(data) => match parse_frame(data.as_slice()) {
                Some((_, _, jpeg)) => match decode_jpeg(jpeg) {
                    Some(frame) => SessionAction::ShowFrame(frame),
                    None => SessionAction::Wait,
                },
                None => SessionAction::Wait,
            },
            SessionEvent::Text(t) => {
                if !self.subscribed && is_welcome(t.as_str()) {
                    SessionAction::SendSubscribe(subscribe_message(self.panel_id.as_str(), self.target_fps))
                } else {
                    SessionAction::Wait
                }
            },
            SessionEvent::Ping(p) => SessionAction::SendPong(p),
            SessionEvent::Closed => SessionAction::Finish(Outcome::Disconnected),
            SessionEvent::Other => SessionAction::Wait,
            SessionEvent::ReadError => SessionAction::Finish(Outcome::Disconnected),
            SessionEvent::Input(ev) => {
                if self.subscribed {
                    SessionAction::SendInput(input_message(self.panel_id.as_str(), ev.x, ev.y, self.click_delay))
                } else {
                    SessionAction::Wait
                }
            },
            SessionEvent::ConfigChanged => SessionAction::Finish(Outcome::ConfigChanged),
            SessionEvent::SubscribeSent(ok) => {
                if ok {
                    self.subscribed = true;
                    SessionAction::Wait
                } else {
                    SessionAction::Finish(Outcome::Disconnected)
                }
            },
        }
    }
}


/// A session subscribes at most once: once subscribed no event asks for
/// another subscription, and before it no tap is sent. Every subscription
/// names the session's own panel and frame rate, and every tap its panel and
/// click delay.
pub proof fn law_subscribe_once_then_taps(
    panel_id: Seq<char>,
    target_fps: u64,
    subscribed: bool,
    click_delay: Option<u64>,
    event: SessionEventModel,
)
    ensures
        subscribed ==> !(spec_step_action(panel_id, target_fps, subscribed, click_delay, event) is SendSubscribe),
        !subscribed ==> !(spec_step_action(panel_id, target_fps, subscribed, click_delay, event) is SendInput),
        spec_step_action(panel_id, target_fps, subscribed, click_delay, event) is SendSubscribe
            ==> spec_step_action(panel_id, target_fps, subscribed, click_delay, event)
            == ActionModel::SendSubscribe(spec_subscribe(panel_id, target_fps)),
        match event {
            SessionEventModel::Input(x, y) => subscribed ==> spec_step_action(
                panel_id,
                target_fps,
                subscribed,
                click_delay,
                event,
            ) == ActionModel::SendInput(spec_input(panel_id, x, y, click_delay)),
            _ => true,
        },
{
}


/// A binary message shows exactly what its JPEG decodes to. The JPEG is what
/// follows the header (a length byte, that many bytes of panel id, then 16
/// bytes); the frame shown has the decoded width, height and pixels, as they
/// are. A message too short for its header, or whose JPEG does not decode,
/// changes nothing.
pub proof fn law_binary_shows_decoded_frame(
    panel_id: Seq<char>,
    target_fps: u64,
    subscribed: bool,
    click_delay: Option<u64>,
    data: Seq<u8>,
)
    ensures
        ({
            let action = spec_step_action(
                panel_id,
                target_fps,
                subscribed,
                click_delay,
                SessionEventModel::Binary(data),
            );
            if data.len() == 0 || data.len() < data[0] + 17 {
                action == ActionModel::Wait
            } else {
                match jpeg_rgb(data.subrange(data[0] + 17, data.len() as int)) {
                    Some((px, w, h)) => action == ActionModel::ShowFrame {
                        width: w as u32,
                        height: h as u32,
                        rgb: px,
                    },
                    None => action == ActionModel::Wait,
                }
            }
        }),
{
}


/// The frame rate a glassout target asks for is always within 10..=120. A
/// `targetFps` setting in that range (a JSON integer, or a string that
/// parses as one once trimmed) is used as it is; one below or above it is
/// raised to 10 or lowered to 120; 30 is used only when there is no
/// `targetFps` setting.
pub proof fn law_target_fps(cfg: ConfigModel, screen_id: Seq<char>)
    requires
        spec_read_target(cfg, screen_id) is Glassout,
    ensures
        ({
            let fps = spec_read_target(cfg, screen_id)->Glassout_target_fps;
            let settings = spec_screen(cfg, screen_id)->0.settings;
            let read: Option<u64> = match lookup(settings, "targetFps"@) {
                Some(JsonModel::Number(JsonNumber::PosInt(n))) => Some(n),
                Some(JsonModel::Text(t)) => parse_u64(trim(t)),
                _ => None,
            };
            &&& 10 <= fps <= 120
            &&& lookup(settings, "targetFps"@) is None ==> fps == 30
            &&& match read {
                Some(n) => {
                    &&& (10 <= n <= 120 ==> fps == n)
                    &&& (n < 10 ==> fps == 10)
                    &&& (n > 120 ==> fps == 120)
                },
                None => true,
            }
        }),
{
}


/// What the engine reads from the messages: a subscription names its type
/// `subscribe.panel`, the panel and the frame rate, and nothing else; a tap
/// names its type `panel.input`, the panel, the pixel, the kind `click`,
/// and a `delayMs` exactly when a click delay is set.
pub proof fn law_message_members(panel_id: Seq<char>, target_fps: u64, x: u32, y: u32, delay_ms: Option<u64>)
    ensures
        spec_subscribe(panel_id, target_fps) matches JsonModel::Object(m) && m.len() == 3,
        json_get(spec_subscribe(panel_id, target_fps), "type"@) == Some(JsonModel::Text("subscribe.panel"@)),
        json_get(spec_subscribe(panel_id, target_fps), "panelId"@) == Some(JsonModel::Text(panel_id)),
        json_get(spec_subscribe(panel_id, target_fps), "targetFps"@) == Some(
            JsonModel::Number(JsonNumber::PosInt(target_fps)),
        ),
        spec_input(panel_id, x, y, delay_ms) matches JsonModel::Object(m) && m.len() == (if delay_ms is Some {
            6int
        } else {
            5int
        }),
        json_get(spec_input(panel_id, x, y, delay_ms), "type"@) == Some(JsonModel::Text("panel.input"@)),
        json_get(spec_input(panel_id, x, y, delay_ms), "panelId"@) == Some(JsonModel::Text(panel_id)),
        json_get(spec_input(panel_id, x, y, delay_ms), "x"@) == Some(JsonModel::Number(JsonNumber::PosInt(x as u64))),
        json_get(spec_input(panel_id, x, y, delay_ms), "y"@) == Some(JsonModel::Number(JsonNumber::PosInt(y as u64))),
        json_get(spec_input(panel_id, x, y, delay_ms), "kind"@) == Some(JsonModel::Text("click"@)),
        json_get(spec_input(panel_id, x, y, delay_ms), "delayMs"@) == match delay_ms {
            Some(d) => Some(JsonModel::Number(JsonNumber::PosInt(d))),
            None => None::<JsonModel>,
        },
{
    reveal_strlit("type");
    reveal_strlit("panelId");
    reveal_strlit("targetFps");
    reveal_strlit("x");
    reveal_strlit("y");
    reveal_strlit("kind");
    reveal_strlit("delayMs");
    let sub = seq![
        ("type"@, JsonModel::Text("subscribe.panel"@)),
        ("panelId"@, JsonModel::Text(panel_id)),
        ("targetFps"@, JsonModel::Number(JsonNumber::PosInt(target_fps))),
    ];
    assert("type"@ != "panelId"@ && "type"@ != "targetFps"@ && "panelId"@ != "targetFps"@) by {
        assert("type"@.len() != "panelId"@.len());
        assert("type"@.len() != "targetFps"@.len());
        assert("panelId"@.len() != "targetFps"@.len());
    }
    lemma_lookup_at(sub, "type"@, 0);
    lemma_lookup_at(sub, "panelId"@, 1);
    lemma_lookup_at(sub, "targetFps"@, 2);
    let tail: Seq<(Seq<char>, JsonModel)> = match delay_ms {
        Some(d) => seq![("delayMs"@, JsonModel::Number(JsonNumber::PosInt(d)))],
        None => seq![],
    };
    let inp = seq![
        ("type"@, JsonModel::Text("panel.input"@)),
        ("panelId"@, JsonModel::Text(panel_id)),
        ("x"@, JsonModel::Number(JsonNumber::PosInt(x as u64))),
        ("y"@, JsonModel::Number(JsonNumber::PosInt(y as u64))),
        ("kind"@, JsonModel::Text("click"@)),
    ] + tail;
    let keys = seq!["type"@, "panelId"@, "x"@, "y"@, "kind"@, "delayMs"@];
    assert forall|i: int, j: int| 0 <= i < j < 6 implies keys[i] != keys[j] by {
        assert(keys[i].len() != keys[j].len() || keys[i][0] != keys[j][0]);
    }
    assert forall|i: int| 0 <= i < inp.len() implies #[trigger] inp[i].0 == keys[i] by {}
    lemma_lookup_at(inp, "type"@, 0);
    assert(inp[0].0 != "panelId"@);
    lemma_lookup_at(inp, "panelId"@, 1);
    assert(inp[0].0 != "x"@ && inp[1].0 != "x"@);
    lemma_lookup_at(inp, "x"@, 2);
    assert(inp[0].0 != "y"@ && inp[1].0 != "y"@ && inp[2].0 != "y"@);
    lemma_lookup_at(inp, "y"@, 3);
    assert(inp[0].0 != "kind"@ && inp[1].0 != "kind"@ && inp[2].0 != "kind"@ && inp[3].0 != "kind"@);
    lemma_lookup_at(inp, "kind"@, 4);
    assert forall|j: int| 0 <= j < 5 implies #[trigger] inp[j].0 != "delayMs"@ by {
        assert(keys[j] != keys[5]);
    }
    if delay_ms is Some {
        lemma_lookup_at(inp, "delayMs"@, 5);
    } else {
        lemma_lookup_absent(inp, "delayMs"@);
    }
}

/// How a session ends, and pings: a ping is answered with its own payload;
/// a close, a read error or a failed subscription end the session as
/// disconnected; a configuration change ends it as such; anything else that
/// is not a frame, a welcome or a tap asks for nothing.
pub proof fn law_session_endings(
    panel_id: Seq<char>,
    target_fps: u64,
    subscribed: bool,
    click_delay: Option<u64>,
    payload: Seq<u8>,
)
    ensures
        spec_step_action(panel_id, target_fps, subscribed, click_delay, SessionEventModel::Ping(payload))
            == ActionModel::SendPong(payload),
        spec_step_action(panel_id, target_fps, subscribed, click_delay, SessionEventModel::Closed)
            == ActionModel::Finish(Outcome::Disconnected),
        spec_step_action(panel_id, target_fps, subscribed, click_delay, SessionEventModel::ReadError)
            == ActionModel::Finish(Outcome::Disconnected),
        spec_step_action(panel_id, target_fps, subscribed, click_delay, SessionEventModel::SubscribeSent(false))
            == ActionModel::Finish(Outcome::Disconnected),
        spec_step_action(panel_id, target_fps, subscribed, click_delay, SessionEventModel::SubscribeSent(true))
            == ActionModel::Wait,
        spec_step_action(panel_id, target_fps, subscribed, click_delay, SessionEventModel::ConfigChanged)
            == ActionModel::Finish(Outcome::ConfigChanged),
        spec_step_action(panel_id, target_fps, subscribed, click_delay, SessionEventModel::Other)
            == ActionModel::Wait,
{
}

/// A welcome text is answered with the subscription exactly while the
/// session has not subscribed; no other text is answered.
pub proof fn law_welcome_subscribes(
    panel_id: Seq<char>,
    target_fps: u64,
    subscribed: bool,
    click_delay: Option<u64>,
    text: Seq<char>,
)
    ensures
        spec_step_action(panel_id, target_fps, subscribed, click_delay, SessionEventModel::Text(text)) == (if !subscribed
            && json_type_field(text) == Some("welcome"@) {
            ActionModel::SendSubscribe(spec_subscribe(panel_id, target_fps))
        } else {
            ActionModel::Wait
        }),
{
}


/// Whether a setting is a string with something besides whitespace.
pub open spec fn nonblank_text(v: Option<JsonModel>) -> bool {
    match v {
        Some(JsonModel::Text(t)) => trim(t).len() > 0,
        _ => false,
    }
}

/// The client streams only for a known screen whose view is `glassout` and
/// whose `engineUrl` and `panelId` settings are strings with something
/// besides whitespace; it then streams that engine and panel, trimmed. Any
/// other screen, or an unknown id, is drawn locally.
pub proof fn law_target_choice(cfg: ConfigModel, screen_id: Seq<char>)
    ensures
        ({
            let t = spec_read_target(cfg, screen_id);
            match spec_screen(cfg, screen_id) {
                None => t is Local,
                Some(screen) => {
                    let engine = lookup(screen.settings, "engineUrl"@);
                    let panel = lookup(screen.settings, "panelId"@);
                    if screen.view_id == "glassout"@ && nonblank_text(engine) && nonblank_text(panel) {
                        &&& t is Glassout
                        &&& t->Glassout_engine_url == trim(engine->0->Text_0)
                        &&& t->Glassout_panel_id == trim(panel->0->Text_0)
                    } else {
                        t is Local
                    }
                },
            }
        }),
{
}

} // verus!
