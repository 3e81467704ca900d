use vstd::prelude::*;

verus! {

/// How the overlay window treats the mouse.
#[derive(Debug, Clone, Copy, PartialEq, Eq, Structural)]
pub struct InteractionMode {
    /// Mouse events pass through the window to whatever lies below.
    pub ignore_cursor_events: bool,
    /// The window can be moved by dragging its background.
    pub draggable: bool,
}

/// The user-facing switches of the radar overlay window.
pub struct OverlayState {
    visible: bool,
    click_through: bool,
    always_on_top: bool,
}

impl OverlayState {
    pub closed spec fn spec_visible(&self) -> bool {
        self.visible
    }

    pub closed spec fn spec_click_through(&self) -> bool {
        self.click_through
    }

    pub closed spec fn spec_always_on_top(&self) -> bool {
        self.always_on_top
    }

    /// The mouse handling for a click-through setting: a click-through window ignores
    /// the mouse and cannot be dragged; otherwise it takes the mouse and can be dragged.
    pub open spec fn interaction_for(click_through: bool) -> InteractionMode {
        InteractionMode { ignore_cursor_events: click_through, draggable: !click_through }
    }

    /// The overlay as it opens: shown, click-through and above other windows.
    pub fn new() -> (overlay: OverlayState)
        ensures
            overlay.spec_visible(),
            overlay.spec_click_through(),
            overlay.spec_always_on_top(),
    {
        OverlayState { visible: true, click_through: true, always_on_top: true }
    }

    pub fn is_visible(&self) -> (visible: bool)
        ensures
            visible == self.spec_visible(),
    {
        self.visible
    }

    pub fn click_through(&self) -> (click_through: bool)
        ensures
            click_through == self.spec_click_through(),
    {
        self.click_through
    }

    pub fn always_on_top(&self) -> (always_on_top: bool)
        ensures
            always_on_top == self.spec_always_on_top(),
    {
        self.always_on_top
    }

    /// Shows or hides the overlay; returns whether the window is to be hidden.
    pub fn set_visible(&mut self, visible: bool) -> (hidden: bool)
        ensures
            final(self).spec_visible() == visible,
            final(self).spec_click_through() == old(self).spec_click_through(),
            final(self).spec_always_on_top() == old(self).spec_always_on_top(),
            hidden == !visible,
    {
        self.visible = visible;
        !visible
    }

    /// The mouse handling the window is to have.
    pub fn interaction_mode(&self) -> (mode: InteractionMode)
        ensures
            mode == Self::interaction_for(self.spec_click_through()),
    {
        InteractionMode { ignore_cursor_events: self.click_through, draggable: !self.click_through }
    }

    /// Turns click-through on or off; returns the mouse handling the window is to have.
    pub fn set_click_through(&mut self, click_through: bool) -> (mode: InteractionMode)
        ensures
            final(self).spec_click_through() == click_through,
            final(self).spec_visible() == old(self).spec_visible(),
            final(self).spec_always_on_top() == old(self).spec_always_on_top(),
            mode == Self::interaction_for(click_through),
    {
        self.click_through = click_through;
        self.interaction_mode()
    }

    /// Pins the window above other windows or unpins it; returns whether it is to be
    /// topmost.
    pub fn set_always_on_top(&mut self, always_on_top: bool) -> (topmost: bool)
        ensures
            final(self).spec_always_on_top() == always_on_top,
            final(self).spec_visible() == old(self).spec_visible(),
            final(self).spec_click_through() == old(self).spec_click_through(),
            topmost == always_on_top,
    {
        self.always_on_top = always_on_top;
        self.always_on_top
    }

    /// The caption of the button that shows or hides the overlay.
    pub fn visibility_action_label(&self) -> (text: &'static str)
        ensures
            text@ == (if self.spec_visible() { "Hide"@ } else { "Show"@ }),
    {
        if self.visible {
            "Hide"
        } else {
            "Show"
        }
    }

    /// The caption of the button that toggles click-through.
    pub fn interaction_action_label(&self) -> (text: &'static str)
        ensures
            text@ == (if self.spec_click_through() { "Draggable"@ } else { "Click-through"@ }),
    {
        if self.click_through {
            "Draggable"
        } else {
            "Click-through"
        }
    }

    /// The caption of the button that pins or unpins the overlay.
    pub fn pin_action_label(&self) -> (text: &'static str)
        ensures
            text@ == (if self.spec_always_on_top() { "Unpin"@ } else { "Pin"@ }),
    {
        if self.always_on_top {
            "Unpin"
        } else {
            "Pin"
        }
    }
}

/// A window never takes the mouse for dragging while it lets the mouse through, and
/// always does one of the two.
pub proof fn lemma_interaction_exclusive(click_through: bool)
    ensures
        OverlayState::interaction_for(click_through).ignore_cursor_events
            != OverlayState::interaction_for(click_through).draggable,
{
}

/// What the main window is to do after a change of its overlay or click-through mode.
#[derive(Debug, Clone, Copy, PartialEq, Eq, Structural)]
pub struct WindowCommands {
    /// The window shows its title bar and borders.
    pub decorations: bool,
    /// The window stays above other windows and uses the overlay window profile.
    pub overlay_profile: bool,
    /// Mouse events pass through the window.
    pub mouse_passthrough: bool,
}

/// The overlay and click-through modes of the main window. Mouse events pass through
/// the window only while both modes are on.
pub struct WindowModes {
    overlay_mode: bool,
    click_through_mode: bool,
}

impl WindowModes {
    pub closed spec fn spec_overlay_mode(&self) -> bool {
        self.overlay_mode
    }

    pub closed spec fn spec_click_through_mode(&self) -> bool {
        self.click_through_mode
    }

    /// Mouse events pass through the window.
    pub open spec fn passes_mouse_through(&self) -> bool {
        self.spec_overlay_mode() && self.spec_click_through_mode()
    }

    /// A normal window, neither overlay nor click-through.
    pub fn new() -> (modes: WindowModes)
        ensures
            !modes.spec_overlay_mode(),
            !modes.spec_click_through_mode(),
    {
        WindowModes { overlay_mode: false, click_through_mode: false }
    }

    pub fn overlay_mode(&self) -> (on: bool)
        ensures
            on == self.spec_overlay_mode(),
    {
        self.overlay_mode
    }

    pub fn click_through_mode(&self) -> (on: bool)
        ensures
            on == self.spec_click_through_mode(),
    {
        self.click_through_mode
    }

    /// Enters or leaves overlay mode; leaving it also ends click-through. Returns what
    /// the window is to do: drop its decorations and take the overlay profile in overlay
    /// mode, and let the mouse through when both modes are on.
    pub fn set_overlay_mode(&mut self, enabled: bool) -> (commands: WindowCommands)
        ensures
            final(self).spec_overlay_mode() == enabled,
            final(self).spec_click_through_mode() == (enabled
                && old(self).spec_click_through_mode()),
            commands == (WindowCommands {
                decorations: !enabled,
                overlay_profile: enabled,
                mouse_passthrough: final(self).passes_mouse_through(),
            }),
    {
        self.overlay_mode = enabled;
        if !enabled {
            self.click_through_mode = false;
        }
        WindowCommands {
            decorations: !enabled,
            overlay_profile: enabled,
            mouse_passthrough: enabled && self.click_through_mode,
        }
    }

    /// Turns click-through mode on or off; returns whether the mouse is to pass through
    /// the window, which it does only in overlay mode.
    pub fn set_click_through_mode(&mut self, enabled: bool) -> (passthrough: bool)
        ensures
            final(self).spec_click_through_mode() == enabled,
            final(self).spec_overlay_mode() == old(self).spec_overlay_mode(),
            passthrough == final(self).passes_mouse_through(),
    {
        self.click_through_mode = enabled;
        self.overlay_mode && enabled
    }

    /// The caption of the button that enters or leaves overlay mode.
    pub fn overlay_button_label(&self) -> (text: &'static str)
        ensures
            text@ == (if self.spec_overlay_mode() { "Exit overlay"@ } else { "Overlay"@ }),
    {
        if self.overlay_mode {
            "Exit overlay"
        } else {
            "Overlay"
        }
    }

    /// The caption of the button that toggles click-through mode.
    pub fn click_through_button_label(&self) -> (text: &'static str)
        ensures
            text@ == (if self.spec_click_through_mode() {
                "Interactive"@
            } else {
                "Click-through"@
            }),
    {
        if self.click_through_mode {
            "Interactive"
        } else {
            "Click-through"
        }
    }

    /// The Escape key ends click-through mode. Returns the new passthrough setting when
    /// the key changed something, and `None` when click-through was already off.
    pub fn escape_pressed(&mut self) -> (passthrough: Option<bool>)
        ensures
            old(self).spec_click_through_mode() ==> passthrough == Some(false)
                && !final(self).spec_click_through_mode()
                && final(self).spec_overlay_mode() == old(self).spec_overlay_mode(),
            !old(self).spec_click_through_mode() ==> passthrough is None && final(self).spec_overlay_mode() == old(self).spec_overlay_mode()
                && final(self).spec_click_through_mode() == old(self).spec_click_through_mode(),
    {
        if self.click_through_mode {
            Some(self.set_click_through_mode(false))
        } else {
            None
        }
    }
}

} // verus!
