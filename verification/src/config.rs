//! Persistent configuration for a glass device.
//!
//! A *device* is one machine running a glass display. It has one or more
//! *screens*, normally one per physical monitor, and each screen shows
//! exactly one *view*, with its own free-form settings.
use crate::glassout::{
    setting_bool, setting_number, setting_str, spec_setting_bool, spec_setting_number,
    spec_setting_str,
};
use crate::json::{JsonModel, Settings};
use crate::views::DEFAULT_VIEW_ID;
use vstd::prelude::*;

verus! {

/// Default TCP port for the embedded control server. Deliberately not 8787,
/// which belongs to the glassout engine, so both can run on one machine.
pub const DEFAULT_PORT: u16 = 8770;

/// The device name used when the machine's host name cannot be read.
pub open spec fn fallback_device_name() -> Seq<char> {
    "learsim-glass"@
}

/// Identity of the device this instance runs on.
#[derive(Debug, Clone)]
pub struct DeviceInfo {
    /// Stable, randomly generated id (persists across restarts).
    pub id: String,
    /// Human-friendly name; defaults to the machine host name.
    pub name: String,
}

/// Configuration for a single screen (one physical monitor).
#[derive(Debug, Clone)]
pub struct ScreenConfig {
    /// Stable id; also the label of the screen's window.
    pub id: String,
    /// Human-friendly name shown in the admin app.
    pub name: String,
    /// Index into the device's monitor list this screen is pinned to.
    pub monitor: Option<usize>,
    /// Which view the screen displays.
    pub view_id: String,
    /// View-specific settings.
    pub settings: Settings,
}

/// The full configuration document.
#[derive(Debug, Clone)]
pub struct AppConfig {
    pub device: DeviceInfo,
    /// Port the control server listens on.
    pub port: u16,
    pub screens: Vec<ScreenConfig>,
}

/// A flattened view of a screen for the display and the admin, including
/// the owning device's name.
#[derive(Debug, Clone)]
pub struct ScreenState {
    pub id: String,
    pub name: String,
    pub device_name: String,
    pub view_id: String,
    pub settings: Settings,
}

/// The model of a screen.
pub struct ScreenModel {
    pub id: Seq<char>,
    pub name: Seq<char>,
    pub monitor: Option<usize>,
    pub view_id: Seq<char>,
    pub settings: Seq<(Seq<char>, JsonModel)>,
}

/// The model of a configuration document.
pub struct ConfigModel {
    pub device_id: Seq<char>,
    pub device_name: Seq<char>,
    pub port: u16,
    pub screens: Seq<ScreenModel>,
}

/// The model of a screen state.
pub struct ScreenStateModel {
    pub id: Seq<char>,
    pub name: Seq<char>,
    pub device_name: Seq<char>,
    pub view_id: Seq<char>,
    pub settings: Seq<(Seq<char>, JsonModel)>,
}

impl View for ScreenConfig {
    type V = ScreenModel;

    open spec fn view(&self) -> ScreenModel {
        ScreenModel {
            id: self.id@,
            name: self.name@,
            monitor: self.monitor,
            view_id: self.view_id@,
            settings: self.settings@,
        }
    }
}

/// The models of a list of screens.
pub open spec fn screen_models(screens: Seq<ScreenConfig>) -> Seq<ScreenModel> {
    screens.map_values(|s: ScreenConfig| s@)
}

impl View for AppConfig {
    type V = ConfigModel;

    open spec fn view(&self) -> ConfigModel {
        ConfigModel {
            device_id: self.device.id@,
            device_name: self.device.name@,
            port: self.port,
            screens: screen_models(self.screens@),
        }
    }
}

impl View for ScreenState {
    type V = ScreenStateModel;

    open spec fn view(&self) -> ScreenStateModel {
        ScreenStateModel {
            id: self.id@,
            name: self.name@,
            device_name: self.device_name@,
            view_id: self.view_id@,
            settings: self.settings@,
        }
    }
}

/// The position of the first screen with id `id`.
pub open spec fn screen_pos(screens: Seq<ScreenModel>, id: Seq<char>) -> Option<int>
    decreases screens.len(),
{
    if screens.len() == 0 {
        None
    } else if screens[0].id == id {
        Some(0)
    } else {
        match screen_pos(screens.drop_first(), id) {
            Some(i) => Some(i + 1),
            None => None,
        }
    }
}

/// `screen_pos` is the first index holding `id`, or `None` when no screen
/// has that id.
pub proof fn lemma_screen_pos(screens: Seq<ScreenModel>, id: Seq<char>)
    ensures
        match screen_pos(screens, id) {
            Some(i) => 0 <= i < screens.len() && screens[i].id == id && forall|j: int|
                0 <= j < i ==> #[trigger] screens[j].id != id,
            None => forall|j: int| 0 <= j < screens.len() ==> #[trigger] screens[j].id != id,
        },
    decreases screens.len(),
{
    if screens.len() > 0 {
        lemma_screen_pos(screens.drop_first(), id);
        if screens[0].id != id {
            match screen_pos(screens.drop_first(), id) {
                Some(i) => {
                    assert forall|j: int| 0 <= j < i + 1 implies #[trigger] screens[j].id != id by {
                        if j > 0 {
                            assert(screens[j] == screens.drop_first()[j - 1]);
                        }
                    }
                },
                None => {
                    assert forall|j: int| 0 <= j < screens.len() implies #[trigger] screens[j].id
                        != id by {
                        if j > 0 {
                            assert(screens[j] == screens.drop_first()[j - 1]);
                        }
                    }
                },
            }
        }
    }
}

/// The first index holding `id` is `screen_pos`.
pub proof fn lemma_screen_pos_at(screens: Seq<ScreenModel>, id: Seq<char>, i: int)
    requires
        0 <= i < screens.len(),
        screens[i].id == id,
        forall|j: int| 0 <= j < i ==> #[trigger] screens[j].id != id,
    ensures
        screen_pos(screens, id) == Some(i),
{
    lemma_screen_pos(screens, id);
    match screen_pos(screens, id) {
        Some(k) => {
            if k < i {
                assert(screens[k].id != id);
            } else if k > i {
                assert(screens[i].id != id);
            }
        },
        None => {
            assert(screens[i].id != id);
        },
    }
}

/// The screen with id `id` (the first, should there be several).
pub open spec fn spec_screen(cfg: ConfigModel, id: Seq<char>) -> Option<ScreenModel> {
    match screen_pos(cfg.screens, id) {
        Some(i) => Some(cfg.screens[i]),
        None => None,
    }
}

/// The configuration a fresh device starts from, given its host name (if
/// readable) and a new device id.
pub open spec fn spec_config_for(host_name: Option<Seq<char>>, device_id: Seq<char>) -> ConfigModel {
    ConfigModel {
        device_id: device_id,
        device_name: match host_name {
            Some(h) => h,
            None => fallback_device_name(),
        },
        port: DEFAULT_PORT,
        screens: seq![],
    }
}

/// The screen a device starts with: `screen-1` (`Screen 1`) on monitor 0,
/// showing the default view.
pub open spec fn first_screen_model() -> ScreenModel {
    ScreenModel {
        id: "screen-1"@,
        name: "Screen 1"@,
        monitor: Some(0),
        view_id: DEFAULT_VIEW_ID@,
        settings: seq![],
    }
}

/// Whether `s` is the hyphenated lower-case text form of a random
/// (version 4, RFC 4122 variant) UUID.
pub open spec fn is_uuid_v4_text(s: Seq<char>) -> bool {
    &&& s.len() == 36
    &&& forall|i: int|
        0 <= i < 36 ==> (if i == 8 || i == 13 || i == 18 || i == 23 {
            #[trigger] s[i] == '-'
        } else {
            ('0' <= s[i] && s[i] <= '9') || ('a' <= s[i] && s[i] <= 'f')
        })
    &&& s[14] == '4'
    &&& (s[19] == '8' || s[19] == '9' || s[19] == 'a' || s[19] == 'b')
}

/// `hostname::get`, kept only when the name is valid Unicode
/// (`OsString::into_string`). The answer depends on the machine, so the
/// contract states nothing of it.
#[verifier::external_body]
fn read_host_name() -> Option<String> {
    hostname::get().ok().and_then(|h| h.into_string().ok())
}

/// `uuid::Uuid::new_v4` in its `Display` form. The value is random; the
/// crate's formatter writes 36 characters, lower-case hex digits in groups
/// of 8-4-4-4-12 separated by hyphens, with the version digit `4` and the
/// variant bits `10`.
#[verifier::external_body]
fn new_device_id() -> (r: String)
    ensures
        is_uuid_v4_text(r@),
{
    uuid::Uuid::new_v4().to_string()
}

impl DeviceInfo {
    /// A copy with the same id and name.
    pub fn deep_clone(&self) -> (r: Self)
        ensures
            r.id@ == self.id@,
            r.name@ == self.name@,
    {
        DeviceInfo { id: self.id.clone(), name: self.name.clone() }
    }
}

impl ScreenConfig {
    /// A new screen showing the default view, with no settings.
    pub fn new(id: String, name: String, monitor: Option<usize>) -> (r: Self)
        ensures
            r@ == (ScreenModel {
                id: id@,
                name: name@,
                monitor: monitor,
                view_id: DEFAULT_VIEW_ID@,
                settings: seq![],
            }),
    {
        ScreenConfig {
            id,
            name,
            monitor,
            view_id: DEFAULT_VIEW_ID.to_owned(),
            settings: Settings::new(),
        }
    }

    /// A copy with the same model.
    pub fn deep_clone(&self) -> (r: Self)
        ensures
            r@ == self@,
    {
        ScreenConfig {
            id: self.id.clone(),
            name: self.name.clone(),
            monitor: self.monitor,
            view_id: self.view_id.clone(),
            settings: self.settings.deep_clone(),
        }
    }

    /// A settings value as a trimmed, non-empty string.
    pub fn setting_str(&self, key: &str) -> (r: Option<String>)
        ensures
            match r {
                Some(s) => spec_setting_str(self.settings@, key@) == Some(s@),
                None => spec_setting_str(self.settings@, key@) is None,
            },
    {
        setting_str(&self.settings, key)
    }

    /// A settings value as a number (JSON number or numeric string).
    pub fn setting_u64(&self, key: &str) -> (r: Option<u64>)
        ensures
            r == spec_setting_number(self.settings@, key@),
    {
        setting_number(&self.settings, key)
    }

    /// A settings value read as a flag.
    pub fn setting_bool(&self, key: &str) -> (r: bool)
        ensures
            r == spec_setting_bool(self.settings@, key@),
    {
        setting_bool(&self.settings, key)
    }
}

/// Copies of `screens`, with the same models.
pub fn clone_screens(screens: &Vec<ScreenConfig>) -> (r: Vec<ScreenConfig>)
    ensures
        screen_models(r@) == screen_models(screens@),
{
    let mut out: Vec<ScreenConfig> = Vec::new();
    let mut i: usize = 0;
    while i < screens.len()
        invariant
            i <= screens@.len(),
            out@.len() == i,
            forall|j: int| 0 <= j < i ==> (#[trigger] out@[j])@ == screens@[j]@,
        decreases screens@.len() - i,
    {
        out.push(screens[i].deep_clone());
        i = i + 1;
    }
    assert(screen_models(out@) =~= screen_models(screens@));
    out
}

impl AppConfig {
    /// A copy with the same model.
    pub fn deep_clone(&self) -> (r: Self)
        ensures
            r@ == self@,
    {
        AppConfig {
            device: self.device.deep_clone(),
            port: self.port,
            screens: clone_screens(&self.screens),
        }
    }

    /// The configuration of a fresh device: named after the host (or
    /// `learsim-glass` when that is unknown), with the given id, the default
    /// port and no screens.
    pub fn for_host(host_name: Option<String>, device_id: String) -> (r: Self)
        ensures
            r@ == spec_config_for(
                match host_name {
                    Some(h) => Some(h@),
                    None => None,
                },
                device_id@,
            ),
    {
        let name = match host_name {
            Some(h) => h,
            None => "learsim-glass".to_owned(),
        };
        let r = AppConfig {
            device: DeviceInfo { id: device_id, name },
            port: DEFAULT_PORT,
            screens: Vec::new(),
        };
        assert(screen_models(r.screens@) =~= Seq::<ScreenModel>::empty());
        r
    }

    /// A fresh default config for a first run: the host's name (or
    /// `learsim-glass`), a new random device id, the default port and no
    /// screens. Which name the host has is up to the machine, so the
    /// contract leaves the name open; `for_host` states it for each answer.
    pub fn default_for_host() -> (r: Self)
        ensures
            r@.port == DEFAULT_PORT,
            r@.screens == Seq::<ScreenModel>::empty(),
            is_uuid_v4_text(r@.device_id),
    {
        let host = read_host_name();
        let id = new_device_id();
        AppConfig::for_host(host, id)
    }

    /// The native display's first-run config: as `default_for_host`, with
    /// one screen, `screen-1` (`Screen 1`) on monitor 0, which it renders.
    pub fn default_for_native_host() -> (r: Self)
        ensures
            r@.port == DEFAULT_PORT,
            r@.screens == seq![first_screen_model()],
            is_uuid_v4_text(r@.device_id),
    {
        let mut r = AppConfig::default_for_host();
        r.screens.push(ScreenConfig::new("screen-1".to_owned(), "Screen 1".to_owned(), Some(0)));
        assert(screen_models(r.screens@) =~= seq![first_screen_model()]);
        r
    }

    /// The screen with id `id`.
    pub fn screen(&self, id: &str) -> (r: Option<&ScreenConfig>)
        ensures
            match r {
                Some(s) => spec_screen(self@, id@) == Some(s@),
                None => spec_screen(self@, id@) is None,
            },
    {
        proof {
            lemma_screen_pos(self@.screens, id@);
        }
        match self.screen_index(id) {
            Some(i) => Some(&self.screens[i]),
            None => None,
        }
    }

    /// The position of the screen with id `id`.
    pub fn screen_index(&self, id: &str) -> (r: Option<usize>)
        ensures
            match r {
                Some(i) => screen_pos(self@.screens, id@) == Some(i as int),
                None => screen_pos(self@.screens, id@) is None,
            },
    {
        let key = id.to_owned();
        let ghost models = self@.screens;
        let mut i: usize = 0;
        while i < self.screens.len()
            invariant
                i <= self.screens@.len(),
                models == screen_models(self.screens@),
                key@ == id@,
                forall|j: int| 0 <= j < i ==> #[trigger] models[j].id != id@,
            decreases self.screens@.len() - i,
        {
            if self.screens[i].id == key {
                proof {
                    lemma_screen_pos_at(models, id@, i as int);
                }
                return Some(i);
            }
            i = i + 1;
        }
        proof {
            lemma_screen_pos(models, id@);
            if screen_pos(models, id@) is Some {
                let k = screen_pos(models, id@)->0;
                assert(models[k].id != id@);
            }
        }
        None
    }
}

impl ScreenState {
    /// The state of `screen` on the device named `device_name`.
    pub fn from_screen(screen: &ScreenConfig, device_name: &str) -> (r: Self)
        ensures
            r@ == (ScreenStateModel {
                id: screen@.id,
                name: screen@.name,
                device_name: device_name@,
                view_id: screen@.view_id,
                settings: screen@.settings,
            }),
    {
        ScreenState {
            id: screen.id.clone(),
            name: screen.name.clone(),
            device_name: device_name.to_owned(),
            view_id: screen.view_id.clone(),
            settings: screen.settings.deep_clone(),
        }
    }
}

/// What loading a stored configuration yields: the stored document, which
/// then existed, or else a fresh default (and `false`, which tells the caller
/// to provision one screen per monitor).
pub fn from_loaded(parsed: Option<AppConfig>) -> (r: (AppConfig, bool))
    ensures
        r.1 == parsed is Some,
        parsed is Some ==> r.0@ == parsed->0@,
        parsed is None ==> r.0@.screens.len() == 0 && r.0@.port == DEFAULT_PORT && is_uuid_v4_text(
            r.0@.device_id,
        ),
{
    match parsed {
        Some(cfg) => (cfg, true),
        None => (AppConfig::default_for_host(), false),
    }
}

/// The native display's configuration at start-up: the stored document if
/// it parsed, else its first-run default.
pub fn native_from_loaded(parsed: Option<AppConfig>) -> (r: AppConfig)
    ensures
        parsed is Some ==> r@ == parsed->0@,
        parsed is None ==> r@.screens == seq![first_screen_model()] && r@.port == DEFAULT_PORT
            && is_uuid_v4_text(r@.device_id),
{
    match parsed {
        Some(cfg) => cfg,
        None => AppConfig::default_for_native_host(),
    }
}

/// The screen the native display renders: the first configured one, or
/// `screen-1` when there is none.
pub fn rendered_screen_id(cfg: &AppConfig) -> (r: String)
    ensures
        r@ == (if cfg@.screens.len() > 0 {
            cfg@.screens[0].id
        } else {
            "screen-1"@
        }),
{
    if cfg.screens.len() > 0 {
        cfg.screens[0].id.clone()
    } else {
        "screen-1".to_owned()
    }
}

} // verus!
