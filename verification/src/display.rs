//! The native display's per-frame decisions: which scene to draw for the
//! screen's view, when the glassout panel counts as live, when taps reach the
//! engine and which window events end the loop. Drawing stays with the
//! caller.
use crate::glassout::text_is;
use vstd::prelude::*;

verus! {

/// How long after its last frame the glassout panel is still drawn (and
/// tappable) before the placeholder takes its place, in milliseconds.
pub const PANEL_FRESH_MS: u64 = 3000;

/// What one turn of the render loop draws.
#[derive(Debug, PartialEq, Eq, Structural, Clone, Copy)]
pub enum Scene {
    /// The latest glassout frame, fitted to the output.
    Panel,
    /// The glassout placeholder ("Connecting to .." or "not configured").
    Placeholder,
    /// The clock.
    Clock,
    /// The test pattern.
    TestPattern,
    /// The standby screen (any other view).
    Standby,
}

/// What the render loop remembers between turns: when the last glassout
/// frame arrived, and whether the panel was drawn on the last turn.
#[derive(Debug, PartialEq, Eq, Structural, Clone, Copy)]
pub struct RenderState {
    pub last_frame_ms: Option<u64>,
    pub panel_shown: bool,
}

/// A window event, as far as the loop's decisions go.
#[derive(Debug, PartialEq, Eq, Structural, Clone, Copy)]
pub enum WindowEvent {
    /// The window was closed.
    Quit,
    /// The Escape key went down.
    Escape,
    /// A mouse button or a finger went down on the output.
    Tap,
    /// Anything else.
    Other,
}

/// What the loop does with a window event.
#[derive(Debug, PartialEq, Eq, Structural, Clone, Copy)]
pub enum EventAction {
    /// Leave the render loop.
    Stop,
    /// Map the tap onto the panel and send it to the engine.
    ForwardTap,
    /// Nothing.
    Ignore,
}

/// Whether a frame that arrived at `last` is still live at `now` (a clock
/// that reads earlier than `last` counts as no time passed).
pub open spec fn spec_fresh(last: Option<u64>, now: u64) -> bool {
    match last {
        Some(t) => now < t + PANEL_FRESH_MS,
        None => false,
    }
}

/// When the last frame arrived after a turn on `view` at `now`: the loop
/// takes the latest frame only while the view is glassout.
pub open spec fn spec_render_last(last: Option<u64>, view: Seq<char>, frame_arrived: bool, now: u64) -> Option<
    u64,
> {
    if view == "glassout"@ && frame_arrived {
        Some(now)
    } else {
        last
    }
}

/// The scene of a turn on `view` at `now`; the panel needs a texture and a
/// live frame.
pub open spec fn spec_render_scene(
    last: Option<u64>,
    view: Seq<char>,
    frame_arrived: bool,
    has_texture: bool,
    now: u64,
) -> Scene {
    if view == "glassout"@ {
        if has_texture && spec_fresh(spec_render_last(last, view, frame_arrived, now), now) {
            Scene::Panel
        } else {
            Scene::Placeholder
        }
    } else if view == "clock"@ {
        Scene::Clock
    } else if view == "testpattern"@ {
        Scene::TestPattern
    } else {
        Scene::Standby
    }
}

/// The answer to a window event: Quit and Escape end the loop; a tap is
/// forwarded only while the panel is drawn.
pub open spec fn spec_event_action(event: WindowEvent, panel_shown: bool) -> EventAction {
    match event {
        WindowEvent::Quit => EventAction::Stop,
        WindowEvent::Escape => EventAction::Stop,
        WindowEvent::Tap => if panel_shown {
            EventAction::ForwardTap
        } else {
            EventAction::Ignore
        },
        WindowEvent::Other => EventAction::Ignore,
    }
}

/// Whether the view takes the latest glassout frame on each turn.
pub fn takes_frames(view_id: &String) -> (r: bool)
    ensures
        r == (view_id@ == "glassout"@),
{
    text_is(view_id, "glassout")
}

/// Whether an arriving frame of `frame` size needs a new texture: there is
/// none yet, or the last one has another size.
pub fn needs_texture(has_texture: bool, dims: (u32, u32), frame: (u32, u32)) -> (r: bool)
    ensures
        r == (!has_texture || dims != frame),
{
    !has_texture || dims.0 != frame.0 || dims.1 != frame.1
}

impl RenderState {
    /// The state before the first turn: no frame yet, no panel drawn.
    pub fn new() -> (r: Self)
        ensures
            r.last_frame_ms is None,
            !r.panel_shown,
    {
        RenderState { last_frame_ms: None, panel_shown: false }
    }

    /// Whether taps go to the engine: only while the panel is drawn.
    pub fn taps_enabled(&self) -> (r: bool)
        ensures
            r == self.panel_shown,
    {
        self.panel_shown
    }

    /// One turn of the loop on `view_id` at `now_ms`: `frame_arrived` says
    /// whether a glassout frame was taken this turn, `has_texture` whether
    /// the panel has a texture to draw. Returns the scene and remembers the
    /// frame's time and whether the panel was drawn.
    pub fn step(&mut self, view_id: &String, frame_arrived: bool, has_texture: bool, now_ms: u64) -> (r: Scene)
        ensures
            r == spec_render_scene(old(self).last_frame_ms, view_id@, frame_arrived, has_texture, now_ms),
            final(self).last_frame_ms == spec_render_last(
                old(self).last_frame_ms,
                view_id@,
                frame_arrived,
                now_ms,
            ),
            final(self).panel_shown == (r == Scene::Panel),
    {
        let scene = if text_is(view_id, "glassout") {
            if frame_arrived {
                self.last_frame_ms = Some(now_ms);
            }
            let fresh = match self.last_frame_ms {
                Some(t) => now_ms < t || now_ms - t < PANEL_FRESH_MS,
                None => false,
            };
            if has_texture && fresh {
                Scene::Panel
            } else {
                Scene::Placeholder
            }
        } else if text_is(view_id, "clock") {
            Scene::Clock
        } else if text_is(view_id, "testpattern") {
            Scene::TestPattern
        } else {
            Scene::Standby
        };
        self.panel_shown = scene == Scene::Panel;
        scene
    }
}

/// What to do with a window event, given whether the panel is drawn.
pub fn event_action(event: WindowEvent, panel_shown: bool) -> (r: EventAction)
    ensures
        r == spec_event_action(event, panel_shown),
{
    match event {
        WindowEvent::Quit => EventAction::Stop,
        WindowEvent::Escape => EventAction::Stop,
        WindowEvent::Tap => if panel_shown {
            EventAction::ForwardTap
        } else {
            EventAction::Ignore
        },
        WindowEvent::Other => EventAction::Ignore,
    }
}

/// A frame drawn at `t` keeps the panel up, with nothing new arriving, for
/// exactly `PANEL_FRESH_MS` milliseconds; then the placeholder shows.
pub proof fn law_panel_expires(t: u64, now: u64)
    requires
        t <= now,
    ensures
        spec_render_scene(Some(t), "glassout"@, false, true, now) == (if now - t < PANEL_FRESH_MS {
            Scene::Panel
        } else {
            Scene::Placeholder
        }),
{
}

/// A frame that arrives on the glassout view is drawn at once when there is
/// a texture for it, whatever came before.
pub proof fn law_arriving_frame_is_drawn(last: Option<u64>, now: u64)
    ensures
        spec_render_scene(last, "glassout"@, true, true, now) == Scene::Panel,
        spec_render_last(last, "glassout"@, true, now) == Some(now),
{
}

/// A turn on any view but glassout leaves the last frame's time as it was
/// and does not draw the panel, so no tap reaches the engine after it.
pub proof fn law_other_views_keep_frames(last: Option<u64>, view: Seq<char>, arrived: bool, tex: bool, now: u64)
    requires
        view != "glassout"@,
    ensures
        spec_render_last(last, view, arrived, now) == last,
        spec_render_scene(last, view, arrived, tex, now) != Scene::Panel,
{
}

} // verus!
