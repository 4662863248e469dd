//! The state changes behind each device's LAN control API, shared by both
//! displays: reassigning or renaming a screen, adding one and removing one,
//! and reading a screen's state.
use crate::config::{
    AppConfig, ConfigModel, ScreenConfig, ScreenModel, ScreenState, ScreenStateModel,
    lemma_screen_pos, screen_models, screen_pos,
};
use crate::json::{JsonModel, Settings};
use crate::text::{decimal, push_decimal, push_str};
use vstd::prelude::*;

verus! {

/// A partial update of a screen: each field that is present replaces the
/// screen's own.
#[derive(Debug)]
pub struct UpdateScreen {
    pub view_id: Option<String>,
    pub settings: Option<Settings>,
    pub name: Option<String>,
}

/// A request to add a screen.
#[derive(Debug)]
pub struct NewScreen {
    pub name: Option<String>,
    pub monitor: Option<usize>,
}

/// The model of a partial update.
pub struct UpdateModel {
    pub view_id: Option<Seq<char>>,
    pub settings: Option<Seq<(Seq<char>, JsonModel)>>,
    pub name: Option<Seq<char>>,
}

impl View for UpdateScreen {
    type V = UpdateModel;

    open spec fn view(&self) -> UpdateModel {
        UpdateModel {
            view_id: match self.view_id {
                Some(v) => Some(v@),
                None => None,
            },
            settings: match self.settings {
                Some(s) => Some(s@),
                None => None,
            },
            name: match self.name {
                Some(n) => Some(n@),
                None => None,
            },
        }
    }
}

/// `screen` with the fields of `update` that are present.
pub open spec fn apply_update(screen: ScreenModel, update: UpdateModel) -> ScreenModel {
    ScreenModel {
        id: screen.id,
        name: match update.name {
            Some(n) => n,
            None => screen.name,
        },
        monitor: screen.monitor,
        view_id: match update.view_id {
            Some(v) => v,
            None => screen.view_id,
        },
        settings: match update.settings {
            Some(s) => s,
            None => screen.settings,
        },
    }
}

/// The message that answers a request for an unknown screen.
pub open spec fn not_found_message(id: Seq<char>) -> Seq<char> {
    "screen '"@ + id + "' not found"@
}

/// `cfg` with its screens replaced by `screens`.
pub open spec fn with_screens(cfg: ConfigModel, screens: Seq<ScreenModel>) -> ConfigModel {
    ConfigModel { screens, ..cfg }
}

/// The id given to the `n`-th screen, `screen-<n>`.
pub open spec fn nth_screen_id(n: nat) -> Seq<char> {
    "screen-"@ + decimal(n)
}

/// The default name of the `n`-th screen, `Screen <n>`.
pub open spec fn nth_screen_name(n: nat) -> Seq<char> {
    "Screen "@ + decimal(n)
}

/// Whether some screen has the id `screen-<n>`.
pub open spec fn number_taken(screens: Seq<ScreenModel>, n: nat) -> bool {
    exists|j: int| 0 <= j < screens.len() && #[trigger] screens[j].id == nth_screen_id(n)
}

/// `n` is the smallest positive number whose id `screen-<n>` no screen has.
pub open spec fn is_first_free(screens: Seq<ScreenModel>, n: nat) -> bool {
    &&& n >= 1
    &&& !number_taken(screens, n)
    &&& forall|m: nat| 1 <= m < n ==> #[trigger] number_taken(screens, m)
}

/// The number a new screen gets: the smallest whose id is free.
pub open spec fn first_free_number(screens: Seq<ScreenModel>) -> nat {
    choose|n: nat| is_first_free(screens, n)
}

/// Different numbers give different screen ids.
pub proof fn lemma_screen_id_injective(a: nat, b: nat)
    requires
        nth_screen_id(a) == nth_screen_id(b),
    ensures
        a == b,
{
    let p = "screen-"@;
    assert(decimal(a) =~= nth_screen_id(a).subrange(p.len() as int, nth_screen_id(a).len() as int));
    assert(decimal(b) =~= nth_screen_id(b).subrange(p.len() as int, nth_screen_id(b).len() as int));
    crate::text::lemma_decimal_injective(a, b);
}

/// Among `lo ..= lo + ids.len()` some number's id is not in `ids`.
proof fn lemma_free_in_range(ids: Seq<Seq<char>>, lo: nat)
    ensures
        exists|n: nat| lo <= n <= lo + ids.len() && !ids.contains(#[trigger] nth_screen_id(n)),
    decreases ids.len(),
{
    if ids.contains(nth_screen_id(lo)) {
        let k = choose|k: int| 0 <= k < ids.len() && ids[k] == nth_screen_id(lo);
        let rest = ids.remove(k);
        lemma_free_in_range(rest, lo + 1);
        let n = choose|n: nat| lo + 1 <= n <= lo + 1 + rest.len() && !rest.contains(#[trigger] nth_screen_id(n));
        if ids.contains(nth_screen_id(n)) {
            let j = choose|j: int| 0 <= j < ids.len() && ids[j] == nth_screen_id(n);
            if j == k {
                lemma_screen_id_injective(lo, n);
            } else if j < k {
                assert(rest[j] == ids[j]);
            } else {
                assert(rest[j - 1] == ids[j]);
            }
        }
        assert(!ids.contains(nth_screen_id(n)));
    } else {
        assert(!ids.contains(nth_screen_id(lo)));
    }
}

/// Some number in `1 ..= screens.len() + 1` is free.
proof fn lemma_free_number_exists(screens: Seq<ScreenModel>)
    ensures
        exists|n: nat| 1 <= n <= screens.len() + 1 && !number_taken(screens, n),
{
    let ids = screens.map_values(|s: ScreenModel| s.id);
    lemma_free_in_range(ids, 1);
    let n = choose|n: nat| 1 <= n <= 1 + ids.len() && !ids.contains(#[trigger] nth_screen_id(n));
    if number_taken(screens, n) {
        let j = choose|j: int| 0 <= j < screens.len() && #[trigger] screens[j].id == nth_screen_id(n);
        assert(ids[j] == screens[j].id);
    }
}

/// A free number below or at `w` gives a smallest free number.
proof fn lemma_first_free_below(screens: Seq<ScreenModel>, w: nat)
    requires
        w >= 1,
        !number_taken(screens, w),
    ensures
        is_first_free(screens, first_free_number(screens)),
        first_free_number(screens) <= w,
    decreases w,
{
    if forall|m: nat| 1 <= m < w ==> #[trigger] number_taken(screens, m) {
        assert(is_first_free(screens, w));
        lemma_first_free_unique(screens, w, first_free_number(screens));
    } else {
        let m = choose|m: nat| 1 <= m < w && !#[trigger] number_taken(screens, m);
        lemma_first_free_below(screens, m);
    }
}

proof fn lemma_first_free_unique(screens: Seq<ScreenModel>, a: nat, b: nat)
    requires
        is_first_free(screens, a),
    ensures
        is_first_free(screens, b) ==> a == b,
        is_first_free(screens, first_free_number(screens)),
        first_free_number(screens) == a,
{
    let c = first_free_number(screens);
    assert(is_first_free(screens, c));
    if is_first_free(screens, b) && a != b {
        if a < b {
            assert(number_taken(screens, a));
        } else {
            assert(number_taken(screens, b));
        }
    }
    if c != a {
        if a < c {
            assert(number_taken(screens, a));
        } else {
            assert(number_taken(screens, c));
        }
    }
}

/// The number a new screen gets is the smallest free one, at most one
/// more than the screen count.
pub proof fn lemma_first_free_number(screens: Seq<ScreenModel>)
    ensures
        is_first_free(screens, first_free_number(screens)),
        first_free_number(screens) <= screens.len() + 1,
{
    lemma_free_number_exists(screens);
    let w = choose|n: nat| 1 <= n <= screens.len() + 1 && !number_taken(screens, n);
    lemma_first_free_below(screens, w);
}

/// The screen that adding one (with an optional `name` and `monitor`)
/// creates when it gets number `n`.
pub open spec fn new_screen_model(n: nat, name: Option<Seq<char>>, monitor: Option<usize>) -> ScreenModel {
    ScreenModel {
        id: nth_screen_id(n),
        name: match name {
            Some(given) => given,
            None => nth_screen_name(n),
        },
        monitor,
        view_id: "standby"@,
        settings: seq![],
    }
}

/// The configuration after `PUT /api/screens/{id}` with `update`.
pub open spec fn spec_put(cfg: ConfigModel, id: Seq<char>, update: UpdateModel) -> ConfigModel {
    match screen_pos(cfg.screens, id) {
        Some(i) => with_screens(cfg, cfg.screens.update(i, apply_update(cfg.screens[i], update))),
        None => cfg,
    }
}

/// The configuration after `DELETE /api/screens/{id}`.
pub open spec fn spec_delete(cfg: ConfigModel, id: Seq<char>) -> ConfigModel {
    match screen_pos(cfg.screens, id) {
        Some(i) => with_screens(cfg, cfg.screens.remove(i)),
        None => cfg,
    }
}

/// The configuration after `POST /api/screens`.
pub open spec fn spec_add(cfg: ConfigModel, name: Option<Seq<char>>, monitor: Option<usize>) -> ConfigModel {
    with_screens(
        cfg,
        cfg.screens.push(new_screen_model(first_free_number(cfg.screens), name, monitor)),
    )
}

/// No two screens share an id.
pub open spec fn unique_ids(screens: Seq<ScreenModel>) -> bool {
    forall|i: int, j: int|
        0 <= i < screens.len() && 0 <= j < screens.len() && i != j ==> #[trigger] screens[i].id
            != #[trigger] screens[j].id
}

/// The message that answers a request for the unknown screen `id`.
pub fn not_found(id: &str) -> (r: String)
    ensures
        r@ == not_found_message(id@),
{
    let mut m = String::new();
    push_str(&mut m, "screen '");
    push_str(&mut m, id);
    push_str(&mut m, "' not found");
    m
}

/// The `n`-th screen's id, `screen-<n>`.
pub fn screen_id_for(n: u64) -> (r: String)
    ensures
        r@ == nth_screen_id(n as nat),
{
    let mut s = String::new();
    push_str(&mut s, "screen-");
    push_decimal(&mut s, n);
    s
}

/// The `n`-th screen's default name, `Screen <n>`.
pub fn screen_name_for(n: u64) -> (r: String)
    ensures
        r@ == nth_screen_name(n as nat),
{
    let mut s = String::new();
    push_str(&mut s, "Screen ");
    push_decimal(&mut s, n);
    s
}

/// The state of screen `screen_id` with the device's name, or the
/// not-found message.
pub fn get_screen_state(screen_id: &str, cfg: &AppConfig) -> (r: Result<ScreenState, String>)
    ensures
        match screen_pos(cfg@.screens, screen_id@) {
            Some(i) => r is Ok && r->Ok_0@ == (ScreenStateModel {
                id: cfg@.screens[i].id,
                name: cfg@.screens[i].name,
                device_name: cfg@.device_name,
                view_id: cfg@.screens[i].view_id,
                settings: cfg@.screens[i].settings,
            }),
            None => r is Err && r->Err_0@ == not_found_message(screen_id@),
        },
{
    proof {
        lemma_screen_pos(cfg@.screens, screen_id@);
    }
    match cfg.screen_index(screen_id) {
        Some(i) => Ok(ScreenState::from_screen(&cfg.screens[i], cfg.device.name.as_str())),
        None => Err(not_found(screen_id)),
    }
}

/// `PUT /api/screens/{id}`: applies `body` to the screen with id `id` and
/// returns the updated screen; an unknown id changes nothing and yields the
/// not-found message.
pub fn put_screen(cfg: &mut AppConfig, id: &str, body: UpdateScreen) -> (r: Result<
    ScreenConfig,
    String,
>)
    ensures
        match screen_pos(old(cfg)@.screens, id@) {
            Some(i) => {
                &&& r is Ok
                &&& r->Ok_0@ == apply_update(old(cfg)@.screens[i], body@)
            },
            None => r is Err && r->Err_0@ == not_found_message(id@),
        },
        final(cfg)@ == spec_put(old(cfg)@, id@, body@),
{
    proof {
        lemma_screen_pos(cfg@.screens, id@);
    }
    let idx = match cfg.screen_index(id) {
        Some(i) => i,
        None => return Err(not_found(id)),
    };
    let ghost before = cfg@;
    let mut screen = cfg.screens[idx].deep_clone();
    let UpdateScreen { view_id, settings, name } = body;
    if let Some(v) = view_id {
        screen.view_id = v;
    }
    if let Some(s) = settings {
        screen.settings = s;
    }
    if let Some(n) = name {
        screen.name = n;
    }
    let updated = screen.deep_clone();
    cfg.screens.set(idx, screen);
    proof {
        assert(screen_models(cfg.screens@) =~= before.screens.update(idx as int, updated@));
    }
    Ok(updated)
}

/// Whether some screen has the id `screen-<n>`.
fn number_in_use(cfg: &AppConfig, n: u64) -> (r: bool)
    ensures
        r == number_taken(cfg@.screens, n as nat),
{
    let id = screen_id_for(n);
    proof {
        lemma_screen_pos(cfg@.screens, id@);
    }
    cfg.screen_index(id.as_str()).is_some()
}

/// `POST /api/screens`: appends screen number `n` (`screen-<n>`, named
/// `Screen <n>` unless a name is given), the smallest number whose id is
/// not in use, showing the default view, and returns it. The id is also
/// the screen's window label, so ids stay unique.
pub fn add_screen(cfg: &mut AppConfig, body: NewScreen) -> (r: ScreenConfig)
    requires
        old(cfg).screens.len() < u64::MAX,
    ensures
        r@ == new_screen_model(
            first_free_number(old(cfg)@.screens),
            match body.name {
                Some(n) => Some(n@),
                None => None,
            },
            body.monitor,
        ),
        final(cfg)@ == spec_add(
            old(cfg)@,
            match body.name {
                Some(n) => Some(n@),
                None => None,
            },
            body.monitor,
        ),
        unique_ids(old(cfg)@.screens) ==> unique_ids(final(cfg)@.screens),
{
    let ghost screens = cfg@.screens;
    proof {
        lemma_free_number_exists(screens);
    }
    let mut n: u64 = 1;
    while number_in_use(cfg, n)
        invariant
            cfg@.screens == screens,
            screens.len() < u64::MAX,
            1 <= n <= screens.len() + 1,
            forall|m: nat| 1 <= m < n ==> #[trigger] number_taken(screens, m),
            exists|w: nat| n <= w <= screens.len() + 1 && !number_taken(screens, w),
        decreases screens.len() + 1 - n,
    {
        proof {
            let w = choose|w: nat| n <= w <= screens.len() + 1 && !number_taken(screens, w);
            assert(w != n);
        }
        n = n + 1;
    }
    proof {
        assert(is_first_free(screens, n as nat));
        lemma_first_free_unique(screens, n as nat, n as nat);
    }
    let ghost given_name = match &body.name {
        Some(x) => Some(x@),
        None => None,
    };
    let id = screen_id_for(n);
    let name = match body.name {
        Some(given) => given,
        None => screen_name_for(n),
    };
    let screen = ScreenConfig::new(id, name, body.monitor);
    let ghost before = cfg@;
    let copy = screen.deep_clone();
    cfg.screens.push(screen);
    proof {
        reveal_strlit("standby");
        assert(screen_models(cfg.screens@) =~= before.screens.push(copy@));
        if unique_ids(before.screens) {
            law_add_keeps_unique_ids(before, given_name, body.monitor);
        }
    }
    copy
}

/// `DELETE /api/screens/{id}`: removes the screen with id `id`; an unknown
/// id changes nothing and yields the not-found message.
pub fn delete_screen(cfg: &mut AppConfig, id: &str) -> (r: Result<(), String>)
    ensures
        match screen_pos(old(cfg)@.screens, id@) {
            Some(i) => r is Ok,
            None => r is Err && r->Err_0@ == not_found_message(id@),
        },
        final(cfg)@ == spec_delete(old(cfg)@, id@),
{
    proof {
        lemma_screen_pos(cfg@.screens, id@);
    }
    let idx = match cfg.screen_index(id) {
        Some(i) => i,
        None => return Err(not_found(id)),
    };
    let ghost before = cfg@;
    cfg.screens.remove(idx);
    proof {
        assert(screen_models(cfg.screens@) =~= before.screens.remove(idx as int));
    }
    Ok(())
}

/// Updating a screen twice with the same request leaves it as updating it
/// once does.
pub proof fn law_put_idempotent(cfg: ConfigModel, id: Seq<char>, update: UpdateModel)
    ensures
        spec_put(spec_put(cfg, id, update), id, update) == spec_put(cfg, id, update),
{
    lemma_screen_pos(cfg.screens, id);
    if let Some(i) = screen_pos(cfg.screens, id) {
        let once = spec_put(cfg, id, update);
        assert(once.screens[i].id == id);
        assert forall|j: int| 0 <= j < i implies #[trigger] once.screens[j].id != id by {
            assert(once.screens[j] == cfg.screens[j]);
        }
        crate::config::lemma_screen_pos_at(once.screens, id, i);
        assert(once.screens.update(i, apply_update(once.screens[i], update)) =~= once.screens);
    }
}

/// After an update, the screen is found under the same id with the update
/// applied, every other screen is unchanged, and the count is the same.
pub proof fn law_put_then_get(cfg: ConfigModel, id: Seq<char>, update: UpdateModel)
    requires
        screen_pos(cfg.screens, id) is Some,
    ensures
        ({
            let i = screen_pos(cfg.screens, id)->0;
            let after = spec_put(cfg, id, update);
            &&& crate::config::spec_screen(after, id) == Some(apply_update(cfg.screens[i], update))
            &&& after.screens.len() == cfg.screens.len()
            &&& forall|j: int| 0 <= j < cfg.screens.len() && j != i ==> #[trigger] after.screens[j] == cfg.screens[j]
            &&& after.device_id == cfg.device_id && after.device_name == cfg.device_name && after.port == cfg.port
        }),
{
    lemma_screen_pos(cfg.screens, id);
    let i = screen_pos(cfg.screens, id)->0;
    let after = spec_put(cfg, id, update);
    assert forall|j: int| 0 <= j < i implies #[trigger] after.screens[j].id != id by {
        assert(after.screens[j] == cfg.screens[j]);
    }
    crate::config::lemma_screen_pos_at(after.screens, id, i);
}

/// A PUT is a partial update: each of the view, the settings and the name
/// takes the value the request carries and stays as it was when the request
/// leaves it out, whatever else the request holds. The id and the monitor
/// never change.
pub proof fn law_put_changes_only_given_fields(cfg: ConfigModel, id: Seq<char>, update: UpdateModel)
    requires
        screen_pos(cfg.screens, id) is Some,
    ensures
        ({
            let before = cfg.screens[screen_pos(cfg.screens, id)->0];
            let after = crate::config::spec_screen(spec_put(cfg, id, update), id)->0;
            &&& crate::config::spec_screen(spec_put(cfg, id, update), id) is Some
            &&& after.id == before.id
            &&& after.monitor == before.monitor
            &&& after.view_id == match update.view_id {
                Some(v) => v,
                None => before.view_id,
            }
            &&& after.settings == match update.settings {
                Some(m) => m,
                None => before.settings,
            }
            &&& after.name == match update.name {
                Some(n) => n,
                None => before.name,
            }
        }),
{
    law_put_then_get(cfg, id, update);
}

/// The id a new screen gets is in use by no screen.
pub proof fn lemma_new_id_fresh(cfg: ConfigModel)
    ensures
        forall|j: int| 0 <= j < cfg.screens.len() ==> #[trigger] cfg.screens[j].id != nth_screen_id(
            first_free_number(cfg.screens),
        ),
{
    lemma_first_free_number(cfg.screens);
}

/// Adding a screen and then deleting it by its id gives back the
/// configuration as it was.
pub proof fn law_add_then_delete(cfg: ConfigModel, name: Option<Seq<char>>, monitor: Option<usize>)
    ensures
        spec_delete(spec_add(cfg, name, monitor), nth_screen_id(first_free_number(cfg.screens)))
            == cfg,
{
    lemma_new_id_fresh(cfg);
    let id = nth_screen_id(first_free_number(cfg.screens));
    let added = spec_add(cfg, name, monitor);
    let n = cfg.screens.len() as int;
    assert forall|j: int| 0 <= j < n implies #[trigger] added.screens[j].id != id by {
        assert(added.screens[j] == cfg.screens[j]);
    }
    crate::config::lemma_screen_pos_at(added.screens, id, n);
    assert(added.screens.remove(n) =~= cfg.screens);
}

/// An added screen is then found under its id, and the screens before it
/// are unchanged.
pub proof fn law_add_then_get(cfg: ConfigModel, name: Option<Seq<char>>, monitor: Option<usize>)
    ensures
        crate::config::spec_screen(
            spec_add(cfg, name, monitor),
            nth_screen_id(first_free_number(cfg.screens)),
        ) == Some(new_screen_model(first_free_number(cfg.screens), name, monitor)),
        spec_add(cfg, name, monitor).screens.take(cfg.screens.len() as int) == cfg.screens,
{
    lemma_new_id_fresh(cfg);
    let id = nth_screen_id(first_free_number(cfg.screens));
    let added = spec_add(cfg, name, monitor);
    let n = cfg.screens.len() as int;
    assert forall|j: int| 0 <= j < n implies #[trigger] added.screens[j].id != id by {
        assert(added.screens[j] == cfg.screens[j]);
    }
    crate::config::lemma_screen_pos_at(added.screens, id, n);
    assert(added.screens.take(n) =~= cfg.screens);
}

/// With unique ids, a deleted screen can no longer be found, and the other
/// screens keep their order.
pub proof fn law_delete_then_get(cfg: ConfigModel, id: Seq<char>)
    requires
        unique_ids(cfg.screens),
    ensures
        crate::config::spec_screen(spec_delete(cfg, id), id) is None,
        unique_ids(spec_delete(cfg, id).screens),
        screen_pos(cfg.screens, id) is Some ==> spec_delete(cfg, id).screens == cfg.screens.remove(
            screen_pos(cfg.screens, id)->0,
        ),
{
    lemma_screen_pos(cfg.screens, id);
    let after = spec_delete(cfg, id);
    lemma_screen_pos(after.screens, id);
    if let Some(i) = screen_pos(cfg.screens, id) {
        if let Some(k) = screen_pos(after.screens, id) {
            if k < i {
                assert(after.screens[k] == cfg.screens[k]);
            } else {
                assert(after.screens[k] == cfg.screens[k + 1]);
            }
        }
        assert forall|a: int, b: int|
            0 <= a < after.screens.len() && 0 <= b < after.screens.len() && a != b implies #[trigger] after.screens[a].id
            != #[trigger] after.screens[b].id by {
            let oa = if a < i { a } else { a + 1 };
            let ob = if b < i { b } else { b + 1 };
            assert(after.screens[a] == cfg.screens[oa]);
            assert(after.screens[b] == cfg.screens[ob]);
        }
    }
}

/// Adding a screen keeps ids unique: the new one gets a number whose id
/// no screen has.
pub proof fn law_add_keeps_unique_ids(cfg: ConfigModel, name: Option<Seq<char>>, monitor: Option<usize>)
    requires
        unique_ids(cfg.screens),
    ensures
        unique_ids(spec_add(cfg, name, monitor).screens),
{
    lemma_new_id_fresh(cfg);
    let after = spec_add(cfg, name, monitor);
    let n = cfg.screens.len() as int;
    assert forall|a: int, b: int|
        0 <= a < after.screens.len() && 0 <= b < after.screens.len() && a != b implies #[trigger] after.screens[a].id
        != #[trigger] after.screens[b].id by {
        if a < n {
            assert(after.screens[a] == cfg.screens[a]);
        }
        if b < n {
            assert(after.screens[b] == cfg.screens[b]);
        }
    }
}

/// Updating a screen keeps ids unique: an update never changes an id.
pub proof fn law_put_keeps_unique_ids(cfg: ConfigModel, id: Seq<char>, update: UpdateModel)
    requires
        unique_ids(cfg.screens),
    ensures
        unique_ids(spec_put(cfg, id, update).screens),
{
    lemma_screen_pos(cfg.screens, id);
    let after = spec_put(cfg, id, update);
    assert forall|a: int, b: int|
        0 <= a < after.screens.len() && 0 <= b < after.screens.len() && a != b implies #[trigger] after.screens[a].id
        != #[trigger] after.screens[b].id by {
        assert(after.screens[a].id == cfg.screens[a].id);
        assert(after.screens[b].id == cfg.screens[b].id);
    }
}

} // verus!
