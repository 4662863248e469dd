//! Decisions of the kiosk window management: which documents are the
//! display's own, when a window must be navigated, and window titles.
use crate::glassout::text_is;
use crate::text::push_str;
use vstd::prelude::*;

verus! {

/// Whether a URL, given by its scheme and host, is the display's own bundled
/// app document rather than an external (glassout engine) page: the `tauri`
/// scheme, or a local host.
pub open spec fn spec_is_app_url(scheme: Seq<char>, host: Option<Seq<char>>) -> bool {
    scheme == "tauri"@ || host == Some("localhost"@) || host == Some("127.0.0.1"@) || host == Some(
        "tauri.localhost"@,
    )
}

/// Whether a URL (by scheme and host) points at the display's own app
/// document.
pub fn is_app_url(scheme: &str, host: Option<&str>) -> (r: bool)
    ensures
        r == spec_is_app_url(
            scheme@,
            match host {
                Some(h) => Some(h@),
                None => None,
            },
        ),
{
    if text_is(&scheme.to_owned(), "tauri") {
        return true;
    }
    match host {
        Some(h) => {
            let h = h.to_owned();
            text_is(&h, "localhost") || text_is(&h, "127.0.0.1") || text_is(&h, "tauri.localhost")
        },
        None => false,
    }
}

/// Whether a window showing `current` (if it can tell) must navigate to
/// `target`: unless it is already there.
pub fn should_navigate(current: Option<&str>, target: &str) -> (r: bool)
    ensures
        r == match current {
            Some(c) => c@ != target@,
            None => true,
        },
{
    match current {
        Some(c) => !(c.to_owned() == target.to_owned()),
        None => true,
    }
}

/// Whether a window must be sent back to the app document: unless its
/// current URL is known to be the app's own.
pub fn should_return_to_app(current_is_app: Option<bool>) -> (r: bool)
    ensures
        r == !(current_is_app == Some(true)),
{
    match current_is_app {
        Some(on_app) => !on_app,
        None => true,
    }
}

/// The title of a screen's kiosk window.
pub fn window_title(screen_name: &str) -> (r: String)
    ensures
        r@ == "learsim-glass · "@ + screen_name@,
{
    let mut t = String::new();
    push_str(&mut t, "learsim-glass · ");
    push_str(&mut t, screen_name);
    t
}

} // verus!
