//! What each screen's window should show, and first-run provisioning.
//!
//! A local view shows the display's own app document; a glassout view shows
//! the engine's panel viewer URL while the engine answers `GET /status`, and
//! the app document (a "connecting" placeholder) otherwise.
use crate::config::{AppConfig, ConfigModel, ScreenConfig, ScreenModel, screen_models};
use crate::control::{nth_screen_id, nth_screen_name, screen_id_for, screen_name_for, with_screens};
use crate::glassout::{build_view_url, setting_str, spec_setting_str, spec_view_url, text_is};
use crate::json::JsonModel;
use crate::text::{push_str, trim_end_char, trimmed_end_char};
use vstd::prelude::*;

verus! {

/// The engine status URL a glassout screen is probed at:
/// `<engineUrl without trailing slashes>/status`.
pub open spec fn spec_status_url(settings: Seq<(Seq<char>, JsonModel)>) -> Option<Seq<char>> {
    match spec_setting_str(settings, "engineUrl"@) {
        Some(base) => Some(trim_end_char(base, '/') + "/status"@),
        None => None,
    }
}

/// Whether a screen shows a glassout panel.
pub open spec fn is_glassout(screen: ScreenModel) -> bool {
    screen.view_id == "glassout"@
}

/// The status URL to probe before showing a screen's panel: only for a
/// glassout screen whose settings make a viewer URL.
pub open spec fn spec_probe_target(screen: ScreenModel) -> Option<Seq<char>> {
    if is_glassout(screen) && spec_view_url(screen.settings) is Some {
        spec_status_url(screen.settings)
    } else {
        None
    }
}

/// The engine URL a screen's window should show, given whether its engine
/// answered; `None` means the display's own app document.
pub open spec fn spec_desired_engine_url(screen: ScreenModel, reachable: bool) -> Option<Seq<char>> {
    if is_glassout(screen) && reachable {
        spec_view_url(screen.settings)
    } else {
        None
    }
}

/// The engine status URL for a screen's settings, or `None` without an
/// engine URL.
pub fn engine_status_url(settings: &crate::json::Settings) -> (r: Option<String>)
    ensures
        match r {
            Some(u) => spec_status_url(settings@) == Some(u@),
            None => spec_status_url(settings@) is None,
        },
{
    match setting_str(settings, "engineUrl") {
        Some(base) => {
            let mut url = trimmed_end_char(base.as_str(), '/');
            push_str(&mut url, "/status");
            Some(url)
        },
        None => None,
    }
}

/// The URL to probe for `screen` before showing its panel, if any.
pub fn probe_target(screen: &ScreenConfig) -> (r: Option<String>)
    ensures
        match r {
            Some(u) => spec_probe_target(screen@) == Some(u@),
            None => spec_probe_target(screen@) is None,
        },
{
    if text_is(&screen.view_id, "glassout") && build_view_url(&screen.settings).is_some() {
        engine_status_url(&screen.settings)
    } else {
        None
    }
}

/// The engine URL the window of `screen` should show, given whether its
/// engine is reachable; `None` for the display's own document.
pub fn desired_engine_url(screen: &ScreenConfig, reachable: bool) -> (r: Option<String>)
    ensures
        match r {
            Some(u) => spec_desired_engine_url(screen@, reachable) == Some(u@),
            None => spec_desired_engine_url(screen@, reachable) is None,
        },
{
    if text_is(&screen.view_id, "glassout") && reachable {
        build_view_url(&screen.settings)
    } else {
        None
    }
}

/// Copies of the glassout screens, in order, for the health monitor.
pub fn glassout_screens(cfg: &AppConfig) -> (r: Vec<ScreenConfig>)
    ensures
        screen_models(r@) == cfg@.screens.filter(|s: ScreenModel| is_glassout(s)),
{
    let ghost models = cfg@.screens;
    let ghost pred = |s: ScreenModel| is_glassout(s);
    let mut out: Vec<ScreenConfig> = Vec::new();
    let mut i: usize = 0;
    assert(models.take(0) =~= Seq::<ScreenModel>::empty());
    while i < cfg.screens.len()
        invariant
            i <= cfg.screens@.len(),
            models == screen_models(cfg.screens@),
            pred == (|s: ScreenModel| is_glassout(s)),
            screen_models(out@) == models.take(i as int).filter(pred),
        decreases cfg.screens@.len() - i,
    {
        let ghost before = screen_models(out@);
        if text_is(&cfg.screens[i].view_id, "glassout") {
            out.push(cfg.screens[i].deep_clone());
            assert(screen_models(out@) =~= before.push(models[i as int]));
        }
        proof {
            assert(models.take(i + 1).drop_last() =~= models.take(i as int));
            reveal(Seq::filter);
        }
        i = i + 1;
    }
    assert(models.take(i as int) =~= models);
    out
}

/// The screens the first boot of a device needs besides those configured:
/// `screen-<k+1>` (`Screen <k+1>`) pinned to monitor `k`, for each monitor
/// `k` from the current count up to `monitors`.
pub open spec fn provisioned(screens: Seq<ScreenModel>, monitors: nat) -> Seq<ScreenModel> {
    screens + Seq::new(
        if monitors > screens.len() {
            (monitors - screens.len()) as nat
        } else {
            0
        },
        |k: int|
            ScreenModel {
                id: nth_screen_id((screens.len() + k + 1) as nat),
                name: nth_screen_name((screens.len() + k + 1) as nat),
                monitor: Some((screens.len() + k) as usize),
                view_id: "standby"@,
                settings: seq![],
            },
    )
}

/// Makes sure a device has a screen: an empty configuration gets
/// `screen-1` (`Screen 1`) pinned to monitor 0.
pub fn ensure_first_screen(cfg: &mut AppConfig)
    ensures
        old(cfg)@.screens.len() > 0 ==> final(cfg)@ == old(cfg)@,
        old(cfg)@.screens.len() == 0 ==> final(cfg)@ == with_screens(
            old(cfg)@,
            seq![
                ScreenModel {
                    id: nth_screen_id(1),
                    name: nth_screen_name(1),
                    monitor: Some(0),
                    view_id: "standby"@,
                    settings: seq![],
                },
            ],
        ),
{
    if cfg.screens.len() == 0 {
        let ghost before = cfg@;
        let screen = ScreenConfig::new(screen_id_for(1), screen_name_for(1), Some(0));
        cfg.screens.push(screen);
        proof {
            reveal_strlit("standby");
            assert(screen_models(cfg.screens@) =~= seq![cfg.screens@[0]@]);
        }
    }
}

/// First run: adds one screen per detected monitor beyond those already
/// configured (see `provisioned`).
pub fn provision_monitors(cfg: &mut AppConfig, monitors: usize)
    requires
        monitors < u64::MAX,
    ensures
        final(cfg)@ == with_screens(old(cfg)@, provisioned(old(cfg)@.screens, monitors as nat)),
{
    let ghost before = cfg@;
    let start = cfg.screens.len();
    let mut i = start;
    while i < monitors
        invariant
            start == before.screens.len(),
            start <= i,
            i == start || i <= monitors,
            monitors < u64::MAX,
            cfg@.device_id == before.device_id,
            cfg@.device_name == before.device_name,
            cfg@.port == before.port,
            cfg.screens@.len() == i,
            cfg@.screens == provisioned(before.screens, i as nat),
        decreases monitors - i,
    {
        let n: u64 = i as u64 + 1;
        let screen = ScreenConfig::new(screen_id_for(n), screen_name_for(n), Some(i));
        let ghost prev = cfg@.screens;
        cfg.screens.push(screen);
        i = i + 1;
        proof {
            reveal_strlit("standby");
            assert(screen_models(cfg.screens@) =~= prev.push(cfg.screens@[i - 1]@));
            assert(provisioned(before.screens, i as nat) =~= provisioned(before.screens, (i - 1) as nat).push(
                cfg.screens@[i - 1]@,
            ));
        }
    }
    proof {
        if monitors <= start {
            assert(provisioned(before.screens, monitors as nat) =~= before.screens);
            assert(provisioned(before.screens, start as nat) =~= before.screens);
        }
    }
}

/// The screen `ensure_first_screen` creates.
pub open spec fn first_run_screen() -> ScreenModel {
    ScreenModel {
        id: nth_screen_id(1),
        name: nth_screen_name(1),
        monitor: Some(0),
        view_id: "standby"@,
        settings: seq![],
    }
}

/// On a first run, a device with `monitors` monitors ends up with one
/// screen per monitor (at least one): screen `k` is `screen-<k+1>`, named
/// `Screen <k+1>` and pinned to monitor `k`, each showing the default view.
pub proof fn law_one_screen_per_monitor(monitors: nat)
    requires
        monitors < usize::MAX,
    ensures
        ({
            let after = provisioned(seq![first_run_screen()], monitors);
            &&& after.len() == if monitors > 1 {
                monitors
            } else {
                1
            }
            &&& forall|k: int|
                0 <= k < after.len() ==> (#[trigger] after[k]).id == nth_screen_id((k + 1) as nat)
                    && after[k].name == nth_screen_name((k + 1) as nat) && after[k].monitor == Some(
                    k as usize,
                ) && after[k].view_id == "standby"@
        }),
{
}

} // verus!
