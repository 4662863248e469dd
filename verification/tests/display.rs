use learsim_glass::display::{
    event_action, needs_texture, takes_frames, EventAction, RenderState, Scene, WindowEvent, PANEL_FRESH_MS,
};

fn glassout() -> String {
    "glassout".to_string()
}

#[test]
fn panel_shows_while_frames_are_fresh() {
    let mut st = RenderState::new();
    assert!(!st.taps_enabled());
    // No frame yet: the placeholder.
    assert_eq!(st.step(&glassout(), false, false, 0), Scene::Placeholder);
    assert!(!st.taps_enabled());
    // A frame arrives at 1000 ms and has a texture.
    assert_eq!(st.step(&glassout(), true, true, 1000), Scene::Panel);
    assert_eq!(st.last_frame_ms, Some(1000));
    assert!(st.taps_enabled());
    // Still live just before three seconds have passed.
    assert_eq!(st.step(&glassout(), false, true, 1000 + PANEL_FRESH_MS - 1), Scene::Panel);
    // Stale from three seconds on.
    assert_eq!(st.step(&glassout(), false, true, 1000 + PANEL_FRESH_MS), Scene::Placeholder);
    assert!(!st.taps_enabled());
}

#[test]
fn frame_without_texture_shows_placeholder() {
    let mut st = RenderState::new();
    assert_eq!(st.step(&glassout(), true, false, 50), Scene::Placeholder);
    assert_eq!(st.last_frame_ms, Some(50));
    assert!(!st.taps_enabled());
}

#[test]
fn other_views_leave_the_frame_time() {
    let mut st = RenderState::new();
    assert_eq!(st.step(&glassout(), true, true, 10), Scene::Panel);
    assert_eq!(st.step(&"clock".to_string(), true, true, 20), Scene::Clock);
    assert_eq!(st.last_frame_ms, Some(10));
    assert!(!st.taps_enabled());
    assert_eq!(st.step(&"testpattern".to_string(), false, true, 30), Scene::TestPattern);
    assert_eq!(st.step(&"standby".to_string(), false, true, 40), Scene::Standby);
    assert_eq!(st.step(&"anything".to_string(), false, true, 40), Scene::Standby);
    // Back on glassout within the window: the old frame is still live.
    assert_eq!(st.step(&glassout(), false, true, 50), Scene::Panel);
}

#[test]
fn clock_going_backwards_counts_as_fresh() {
    let mut st = RenderState { last_frame_ms: Some(5000), panel_shown: false };
    assert_eq!(st.step(&glassout(), false, true, 4000), Scene::Panel);
}

#[test]
fn frames_are_taken_only_for_glassout() {
    assert!(takes_frames(&glassout()));
    assert!(!takes_frames(&"clock".to_string()));
    assert!(!takes_frames(&"Glassout".to_string()));
}

#[test]
fn texture_is_recreated_on_size_change() {
    assert!(needs_texture(false, (0, 0), (0, 0)));
    assert!(!needs_texture(true, (800, 600), (800, 600)));
    assert!(needs_texture(true, (800, 600), (800, 480)));
    assert!(needs_texture(true, (800, 600), (640, 600)));
}

#[test]
fn window_events() {
    assert_eq!(event_action(WindowEvent::Quit, false), EventAction::Stop);
    assert_eq!(event_action(WindowEvent::Escape, true), EventAction::Stop);
    assert_eq!(event_action(WindowEvent::Tap, true), EventAction::ForwardTap);
    assert_eq!(event_action(WindowEvent::Tap, false), EventAction::Ignore);
    assert_eq!(event_action(WindowEvent::Other, true), EventAction::Ignore);
}
