use vstd::prelude::*;
use vstd::string::*;

use crate::runtime::SourceMode;
use crate::text::{
    ascii_lowercase, chars_of, contains, contains_text, is_ascii_text, lowercase, to_lowercase,
};

verus! {

/// The state an audio source reports.
#[derive(Debug, Clone, PartialEq, Eq)]
pub enum AudioSourceState {
    Running,
    Starting,
    PermissionDenied,
    UnsupportedPlatform,
    Error(String),
}

/// A lowercased capture error message names a refused screen-recording permission:
/// it mentions screen recording, a missing authorization, a denied permission or
/// access, or a TCC refusal.
pub open spec fn names_permission_denial(lower: Seq<char>) -> bool {
    ||| contains_text(lower, "screen recording"@)
    ||| contains_text(lower, "not authorized"@)
    ||| contains_text(lower, "not authorised"@)
    ||| (contains_text(lower, "permission"@) && contains_text(lower, "denied"@))
    ||| (contains_text(lower, "access"@) && contains_text(lower, "denied"@))
    ||| (contains_text(lower, "tcc"@) && (contains_text(lower, "declined"@) || contains_text(
        lower,
        "denied"@,
    )))
}

/// Whether an already lowercased capture error message names a refused permission.
pub fn names_capture_permission_denial(lower: &str) -> (denied: bool)
    ensures
        denied == names_permission_denial(lower@),
{
    let chars = chars_of(lower);
    let denied = contains(&chars, "denied");
    contains(&chars, "screen recording") || contains(&chars, "not authorized") || contains(
        &chars,
        "not authorised",
    ) || (contains(&chars, "permission") && denied) || (contains(&chars, "access") && denied)
        || (contains(&chars, "tcc") && (contains(&chars, "declined") || denied))
}

/// A capture error message reports a refused permission.
pub open spec fn is_permission_denial(message: Seq<char>) -> bool {
    names_permission_denial(lowercase(message))
}

/// The text that starts the error state of a stream that stopped with an error.
pub open spec fn stream_error_prefix() -> Seq<char> {
    "ScreenCaptureKit stream error: "@
}

/// The message of a stream that stopped without giving one.
pub open spec fn stream_stopped_text() -> Seq<char> {
    "ScreenCaptureKit stream stopped"@
}

impl AudioSourceState {
    /// The text shown for the state.
    pub open spec fn label_text(&self) -> Seq<char> {
        match self {
            AudioSourceState::Running => "Running"@,
            AudioSourceState::Starting => "Starting"@,
            AudioSourceState::PermissionDenied => "Permission denied"@,
            AudioSourceState::UnsupportedPlatform => "Unsupported platform"@,
            AudioSourceState::Error(_) => "Error"@,
        }
    }

    /// The text of the state line: the label, then `": "` and the detail where there is one.
    pub open spec fn message_text(&self) -> Seq<char> {
        match self {
            AudioSourceState::Error(detail) => self.label_text() + ": "@ + detail@,
            _ => self.label_text(),
        }
    }

    /// Whether a capture error message reports a refused permission. The message is
    /// lowercased first, then searched for the known permission phrases; an ASCII
    /// message is thus matched without regard to case.
    pub fn is_capture_permission_denied(message: &str) -> (denied: bool)
        ensures
            denied == is_permission_denial(message@),
            is_ascii_text(message@) ==> is_permission_denial(message@) == names_permission_denial(
                ascii_lowercase(message@),
            ),
    {
        let lower = to_lowercase(message);
        names_capture_permission_denial(lower.as_str())
    }

    pub fn label(&self) -> (text: &str)
        ensures
            text@ == self.label_text(),
    {
        match self {
            AudioSourceState::Running => "Running",
            AudioSourceState::Starting => "Starting",
            AudioSourceState::PermissionDenied => "Permission denied",
            AudioSourceState::UnsupportedPlatform => "Unsupported platform",
            AudioSourceState::Error(_) => "Error",
        }
    }

    /// The error message of an error state; no other state has a detail.
    pub fn detail(&self) -> (detail: Option<&str>)
        ensures
            detail is Some <==> self is Error,
            detail matches Some(text) ==> text@ == self->Error_0@,
    {
        match self {
            AudioSourceState::Error(message) => Some(message.as_str()),
            _ => None,
        }
    }

    /// The state for a capture error: a refused permission, or else an error
    /// carrying the message.
    pub fn from_capture_error(message: &str) -> (state: AudioSourceState)
        ensures
            is_permission_denial(message@) ==> state == AudioSourceState::PermissionDenied,
            !is_permission_denial(message@) ==> (state matches AudioSourceState::Error(text)
                && text@ == message@),
            is_ascii_text(message@) ==> is_permission_denial(message@) == names_permission_denial(
                ascii_lowercase(message@),
            ),
    {
        if Self::is_capture_permission_denied(message) {
            AudioSourceState::PermissionDenied
        } else {
            AudioSourceState::Error(message.to_owned())
        }
    }

    /// The state after the capture stream stopped with an error of the given message:
    /// a refused permission, or else an error naming the stream error.
    pub fn from_stream_error(message: &str) -> (state: AudioSourceState)
        ensures
            is_permission_denial(message@) ==> state == AudioSourceState::PermissionDenied,
            !is_permission_denial(message@) ==> (state matches AudioSourceState::Error(text)
                && text@ == stream_error_prefix() + message@),
            is_ascii_text(message@) ==> is_permission_denial(message@) == names_permission_denial(
                ascii_lowercase(message@),
            ),
    {
        if Self::is_capture_permission_denied(message) {
            AudioSourceState::PermissionDenied
        } else {
            let mut text = String::from_str("ScreenCaptureKit stream error: ");
            text.append(message);
            AudioSourceState::Error(text)
        }
    }

    /// The state after the capture stream stopped, with or without an error message;
    /// a stop without a message is reported as a stopped stream.
    pub fn from_stream_stop(error: Option<String>) -> (state: AudioSourceState)
        ensures
            ({
                let message = match error {
                    Some(text) => text@,
                    None => stream_stopped_text(),
                };
                &&& is_permission_denial(message) ==> state == AudioSourceState::PermissionDenied
                &&& !is_permission_denial(message) ==> (state matches AudioSourceState::Error(
                    text,
                ) && text@ == message)
            }),
    {
        match error {
            Some(message) => Self::from_capture_error(message.as_str()),
            None => Self::from_capture_error("ScreenCaptureKit stream stopped"),
        }
    }

    /// The state line: the label, followed by the detail where there is one.
    pub fn message(&self) -> (text: String)
        ensures
            text@ == self.message_text(),
    {
        match self.detail() {
            Some(detail) => {
                let mut text = String::from_str(self.label());
                text.append(": ");
                text.append(detail);
                text
            },
            None => String::from_str(self.label()),
        }
    }
}

/// The help line shown under the source state.
pub open spec fn help_text_of(mode: SourceMode, state: AudioSourceState) -> Seq<char> {
    match (mode, state) {
        (SourceMode::Demo, _) =>
            "Demo source generates synthetic directional energy so the UI and estimator path can be tested."@,
        (SourceMode::SystemAudio, AudioSourceState::Running) =>
            "System audio capture is active. ScreenCaptureKit is feeding the stereo analysis pipeline."@,
        (SourceMode::SystemAudio, AudioSourceState::Starting) =>
            "Starting ScreenCaptureKit audio capture."@,
        (SourceMode::SystemAudio, AudioSourceState::PermissionDenied) =>
            "Grant Screen Recording permission in Privacy & Security and restart the app."@,
        (SourceMode::SystemAudio, AudioSourceState::UnsupportedPlatform) =>
            "System audio capture is only available on macOS."@,
        (SourceMode::SystemAudio, AudioSourceState::Error(_)) =>
            "ScreenCaptureKit failed to start. Check permissions and try again."@,
    }
}

/// The help line shown under the source state, for the source mode and its state.
pub fn source_help_text(mode: SourceMode, state: &AudioSourceState) -> (text: &'static str)
    ensures
        text@ == help_text_of(mode, *state),
{
    match (mode, state) {
        (SourceMode::Demo, _) => {
            "Demo source generates synthetic directional energy so the UI and estimator path can be tested."
        },
        (SourceMode::SystemAudio, AudioSourceState::Running) => {
            "System audio capture is active. ScreenCaptureKit is feeding the stereo analysis pipeline."
        },
        (SourceMode::SystemAudio, AudioSourceState::Starting) => {
            "Starting ScreenCaptureKit audio capture."
        },
        (SourceMode::SystemAudio, AudioSourceState::PermissionDenied) => {
            "Grant Screen Recording permission in Privacy & Security and restart the app."
        },
        (SourceMode::SystemAudio, AudioSourceState::UnsupportedPlatform) => {
            "System audio capture is only available on macOS."
        },
        (SourceMode::SystemAudio, AudioSourceState::Error(_)) => {
            "ScreenCaptureKit failed to start. Check permissions and try again."
        },
    }
}

/// The help line of the single-window front-end, which states what the capture does
/// not do yet.
pub open spec fn window_help_text_of(mode: SourceMode, state: AudioSourceState) -> Seq<char> {
    match (mode, state) {
        (SourceMode::Demo, _) =>
            "Demo source generates synthetic channel energy so the UI and estimator path can be tested."@,
        (SourceMode::SystemAudio, AudioSourceState::Running) =>
            "System audio capture is active. Startup and source-state wiring are in place."@,
        _ => help_text_of(mode, state),
    }
}

/// The help line of the single-window front-end, for the source mode and its state.
pub fn window_source_help_text(mode: SourceMode, state: &AudioSourceState) -> (text: &'static str)
    ensures
        text@ == window_help_text_of(mode, *state),
{
    match (mode, state) {
        (SourceMode::Demo, _) => {
            "Demo source generates synthetic channel energy so the UI and estimator path can be tested."
        },
        (SourceMode::SystemAudio, AudioSourceState::Running) => {
            "System audio capture is active. Startup and source-state wiring are in place."
        },
        _ => source_help_text(mode, state),
    }
}

/// The state line shown for a source state.
pub fn source_state_message(state: &AudioSourceState) -> (text: String)
    ensures
        text@ == state.message_text(),
{
    state.message()
}

/// Two states are of the same kind: both errors (whatever their messages), or equal.
pub open spec fn same_kind(a: AudioSourceState, b: AudioSourceState) -> bool {
    match (a, b) {
        (AudioSourceState::Error(_), AudioSourceState::Error(_)) => true,
        _ => a == b,
    }
}

/// Each permission phrase on its own makes a lowercased message a permission denial,
/// wherever in the message its words stand; and a denial always carries one of them.
pub proof fn lemma_permission_phrases(lower: Seq<char>)
    ensures
        contains_text(lower, "screen recording"@) ==> names_permission_denial(lower),
        contains_text(lower, "not authorized"@) ==> names_permission_denial(lower),
        contains_text(lower, "not authorised"@) ==> names_permission_denial(lower),
        contains_text(lower, "permission"@) && contains_text(lower, "denied"@)
            ==> names_permission_denial(lower),
        contains_text(lower, "access"@) && contains_text(lower, "denied"@)
            ==> names_permission_denial(lower),
        contains_text(lower, "tcc"@) && contains_text(lower, "declined"@)
            ==> names_permission_denial(lower),
        contains_text(lower, "tcc"@) && contains_text(lower, "denied"@)
            ==> names_permission_denial(lower),
        names_permission_denial(lower) ==> {
            ||| contains_text(lower, "screen recording"@)
            ||| contains_text(lower, "not authorized"@)
            ||| contains_text(lower, "not authorised"@)
            ||| contains_text(lower, "denied"@) && (contains_text(lower, "permission"@)
                || contains_text(lower, "access"@) || contains_text(lower, "tcc"@))
            ||| contains_text(lower, "tcc"@) && contains_text(lower, "declined"@)
        },
{
}

/// The state line of a state without a detail is its label; that of an error is its
/// label, `": "` and the error message. States of different kinds have different
/// labels, so their state lines never pass for one another.
pub proof fn lemma_state_lines(a: AudioSourceState, b: AudioSourceState)
    ensures
        !(a is Error) ==> a.message_text() == a.label_text(),
        a matches AudioSourceState::Error(detail) ==> a.message_text() == a.label_text() + ": "@
            + detail@,
        !same_kind(a, b) ==> a.label_text() != b.label_text(),
        !same_kind(a, b) && !(a is Error) && !(b is Error) ==> a.message_text()
            != b.message_text(),
{
    reveal_strlit("Running");
    reveal_strlit("Starting");
    reveal_strlit("Permission denied");
    reveal_strlit("Unsupported platform");
    reveal_strlit("Error");
    if a.label_text() == b.label_text() {
        assert(a.label_text().len() == b.label_text().len());
    }
}

/// The help lines: in demo mode the line does not depend on the state; for system
/// audio, states of different kinds get different lines in both front-ends, and the
/// single-window front-end shows the options window's line in every state but
/// running capture.
pub proof fn lemma_help_lines(a: AudioSourceState, b: AudioSourceState)
    ensures
        help_text_of(SourceMode::Demo, a) == help_text_of(SourceMode::Demo, b),
        window_help_text_of(SourceMode::Demo, a) == window_help_text_of(SourceMode::Demo, b),
        !same_kind(a, b) ==> help_text_of(SourceMode::SystemAudio, a) != help_text_of(
            SourceMode::SystemAudio,
            b,
        ),
        !same_kind(a, b) ==> window_help_text_of(SourceMode::SystemAudio, a)
            != window_help_text_of(SourceMode::SystemAudio, b),
        a != AudioSourceState::Running ==> window_help_text_of(SourceMode::SystemAudio, a)
            == help_text_of(SourceMode::SystemAudio, a),
{
    reveal_strlit(
        "System audio capture is active. ScreenCaptureKit is feeding the stereo analysis pipeline.",
    );
    reveal_strlit("Starting ScreenCaptureKit audio capture.");
    reveal_strlit("Grant Screen Recording permission in Privacy & Security and restart the app.");
    reveal_strlit("System audio capture is only available on macOS.");
    reveal_strlit("ScreenCaptureKit failed to start. Check permissions and try again.");
    reveal_strlit("System audio capture is active. Startup and source-state wiring are in place.");
    let (x, y) = (help_text_of(SourceMode::SystemAudio, a), help_text_of(SourceMode::SystemAudio, b));
    if x == y {
        assert(x.len() == y.len());
    }
    let (x, y) = (
        window_help_text_of(SourceMode::SystemAudio, a),
        window_help_text_of(SourceMode::SystemAudio, b),
    );
    if x == y {
        assert(x.len() == y.len());
    }
}

} // verus!
