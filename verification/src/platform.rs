use vstd::prelude::*;

verus! {

/// Native window adjustments the radar windows ask of the platform. Every adjustment
/// does nothing unless a platform implements it.
pub trait WindowExt {
    /// Prepares the options window.
    fn setup_options_window(&self) {
    }

    /// Prepares the overlay window: borderless, shadowless, on every space.
    fn setup_overlay_window(&self) {
    }

    /// Hides or shows the window.
    fn set_hidden(&self, _hidden: bool) {
    }

    /// Lets mouse events pass through the window, or not.
    fn set_ignore_cursor_events(&self, _ignore: bool) {
    }

    /// Lets the window be moved by dragging its background, or not.
    fn set_window_draggable(&self, _draggable: bool) {
    }

    /// Keeps the window above other windows, or not.
    fn set_window_topmost(&self, _topmost: bool) {
    }
}

/// The kind of a refused platform request.
#[derive(Debug, Clone, Copy, PartialEq, Eq, Structural)]
pub enum PlatformErrorKind {
    /// The request needs a platform feature this system does not have.
    Unsupported,
}

/// A refused platform request: its kind and the message shown for it.
#[derive(Debug, Clone, Copy, PartialEq, Eq)]
pub struct PlatformError {
    pub kind: PlatformErrorKind,
    pub message: &'static str,
}

/// The message of the refused request for the system audio settings.
pub open spec fn preferences_unavailable_text() -> Seq<char> {
    "System audio preferences are only available on macOS"@
}

/// Opens the system settings pane for audio capture permissions. Those settings exist
/// only on macOS, where the application opens them itself; here the request is
/// refused as unsupported, with a message saying so.
pub fn open_system_audio_preferences() -> (result: Result<(), PlatformError>)
    ensures
        result matches Err(error) && error.kind == PlatformErrorKind::Unsupported
            && error.message@ == preferences_unavailable_text(),
{
    Err(
        PlatformError {
            kind: PlatformErrorKind::Unsupported,
            message: "System audio preferences are only available on macOS",
        },
    )
}

} // verus!
