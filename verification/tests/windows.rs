use sound_hearing_aid::platform::{open_system_audio_preferences, PlatformError, PlatformErrorKind};
use sound_hearing_aid::window_modes::{InteractionMode, OverlayState, WindowCommands, WindowModes};

#[test]
fn overlay_opens_visible_click_through_on_top() {
    let overlay = OverlayState::new();
    assert!(overlay.is_visible());
    assert!(overlay.click_through());
    assert!(overlay.always_on_top());
    assert_eq!(
        overlay.interaction_mode(),
        InteractionMode {
            ignore_cursor_events: true,
            draggable: false
        }
    );
}

#[test]
fn overlay_switches() {
    let mut overlay = OverlayState::new();
    assert!(overlay.set_visible(false));
    assert!(!overlay.is_visible());
    assert!(!overlay.set_visible(true));
    assert_eq!(
        overlay.set_click_through(false),
        InteractionMode {
            ignore_cursor_events: false,
            draggable: true
        }
    );
    assert!(!overlay.click_through());
    assert!(!overlay.set_always_on_top(false));
    assert!(!overlay.always_on_top());
    assert!(overlay.is_visible());
}

#[test]
fn overlay_button_captions() {
    let mut overlay = OverlayState::new();
    assert_eq!(overlay.visibility_action_label(), "Hide");
    assert_eq!(overlay.interaction_action_label(), "Draggable");
    assert_eq!(overlay.pin_action_label(), "Unpin");
    overlay.set_visible(false);
    overlay.set_click_through(false);
    overlay.set_always_on_top(false);
    assert_eq!(overlay.visibility_action_label(), "Show");
    assert_eq!(overlay.interaction_action_label(), "Click-through");
    assert_eq!(overlay.pin_action_label(), "Pin");
}

#[test]
fn click_through_only_passes_the_mouse_in_overlay_mode() {
    let mut modes = WindowModes::new();
    assert!(!modes.set_click_through_mode(true));
    assert!(modes.click_through_mode());
    let commands = modes.set_overlay_mode(true);
    assert_eq!(
        commands,
        WindowCommands {
            decorations: false,
            overlay_profile: true,
            mouse_passthrough: true
        }
    );
}

#[test]
fn leaving_overlay_ends_click_through() {
    let mut modes = WindowModes::new();
    modes.set_overlay_mode(true);
    assert!(modes.set_click_through_mode(true));
    let commands = modes.set_overlay_mode(false);
    assert_eq!(
        commands,
        WindowCommands {
            decorations: true,
            overlay_profile: false,
            mouse_passthrough: false
        }
    );
    assert!(!modes.click_through_mode());
    assert!(!modes.overlay_mode());
}

#[test]
fn escape_ends_click_through() {
    let mut modes = WindowModes::new();
    assert_eq!(modes.escape_pressed(), None);
    modes.set_overlay_mode(true);
    modes.set_click_through_mode(true);
    assert_eq!(modes.click_through_button_label(), "Interactive");
    assert_eq!(modes.escape_pressed(), Some(false));
    assert!(!modes.click_through_mode());
    assert!(modes.overlay_mode());
    assert_eq!(modes.click_through_button_label(), "Click-through");
}

#[test]
fn overlay_button_caption() {
    let mut modes = WindowModes::new();
    assert_eq!(modes.overlay_button_label(), "Overlay");
    modes.set_overlay_mode(true);
    assert_eq!(modes.overlay_button_label(), "Exit overlay");
}

#[test]
fn system_audio_preferences_are_unsupported_here() {
    assert_eq!(
        open_system_audio_preferences(),
        Err(PlatformError {
            kind: PlatformErrorKind::Unsupported,
            message: "System audio preferences are only available on macOS",
        })
    );
}
