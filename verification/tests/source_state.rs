use sound_hearing_aid::runtime::SourceMode;
use sound_hearing_aid::source::{
    source_help_text, source_state_message, window_source_help_text, AudioSourceState,
};

#[test]
fn permission_phrases_are_recognised() {
    assert!(AudioSourceState::is_capture_permission_denied(
        "The user declined Screen Recording"
    ));
    assert!(AudioSourceState::is_capture_permission_denied("Not Authorized"));
    assert!(AudioSourceState::is_capture_permission_denied("app is not authorised"));
    assert!(AudioSourceState::is_capture_permission_denied("Permission was DENIED"));
    assert!(AudioSourceState::is_capture_permission_denied("Access denied"));
    assert!(AudioSourceState::is_capture_permission_denied("TCC declined the request"));
    assert!(AudioSourceState::is_capture_permission_denied("tcc: denied"));
}

#[test]
fn other_messages_are_not_permission_errors() {
    assert!(!AudioSourceState::is_capture_permission_denied("No display available"));
    assert!(!AudioSourceState::is_capture_permission_denied("permission granted"));
    assert!(!AudioSourceState::is_capture_permission_denied("access granted"));
    assert!(!AudioSourceState::is_capture_permission_denied("tcc ok"));
    assert!(!AudioSourceState::is_capture_permission_denied("declined"));
    assert!(!AudioSourceState::is_capture_permission_denied(""));
    assert!(!AudioSourceState::is_capture_permission_denied("screen-recording"));
}

#[test]
fn uppercase_messages_are_lowercased_first() {
    assert!(AudioSourceState::is_capture_permission_denied("SCREEN RECORDING"));
    assert!(AudioSourceState::is_capture_permission_denied("NOT AUTHORIZED"));
}

#[test]
fn from_capture_error_classifies() {
    assert_eq!(
        AudioSourceState::from_capture_error("Screen recording is not allowed"),
        AudioSourceState::PermissionDenied
    );
    assert_eq!(
        AudioSourceState::from_capture_error("stream failed"),
        AudioSourceState::Error("stream failed".to_owned())
    );
}

#[test]
fn stream_error_states() {
    assert_eq!(
        AudioSourceState::from_stream_error("access denied"),
        AudioSourceState::PermissionDenied
    );
    assert_eq!(
        AudioSourceState::from_stream_error("device lost"),
        AudioSourceState::Error("ScreenCaptureKit stream error: device lost".to_owned())
    );
}

#[test]
fn stream_stop_states() {
    assert_eq!(
        AudioSourceState::from_stream_stop(None),
        AudioSourceState::Error("ScreenCaptureKit stream stopped".to_owned())
    );
    assert_eq!(
        AudioSourceState::from_stream_stop(Some("user not authorized".to_owned())),
        AudioSourceState::PermissionDenied
    );
    assert_eq!(
        AudioSourceState::from_stream_stop(Some("display removed".to_owned())),
        AudioSourceState::Error("display removed".to_owned())
    );
}

#[test]
fn labels_and_details() {
    assert_eq!(AudioSourceState::Running.label(), "Running");
    assert_eq!(AudioSourceState::Starting.label(), "Starting");
    assert_eq!(AudioSourceState::PermissionDenied.label(), "Permission denied");
    assert_eq!(AudioSourceState::UnsupportedPlatform.label(), "Unsupported platform");
    let error = AudioSourceState::Error("boom".to_owned());
    assert_eq!(error.label(), "Error");
    assert_eq!(error.detail(), Some("boom"));
    assert_eq!(AudioSourceState::Running.detail(), None);
    assert_eq!(AudioSourceState::PermissionDenied.detail(), None);
}

#[test]
fn state_messages() {
    assert_eq!(source_state_message(&AudioSourceState::Running), "Running");
    assert_eq!(
        source_state_message(&AudioSourceState::Error("no display".to_owned())),
        "Error: no display"
    );
    assert_eq!(
        AudioSourceState::PermissionDenied.message(),
        "Permission denied"
    );
}

#[test]
fn help_texts() {
    assert_eq!(
        source_help_text(SourceMode::Demo, &AudioSourceState::PermissionDenied),
        "Demo source generates synthetic directional energy so the UI and estimator path can be tested."
    );
    assert_eq!(
        source_help_text(SourceMode::SystemAudio, &AudioSourceState::Running),
        "System audio capture is active. ScreenCaptureKit is feeding the stereo analysis pipeline."
    );
    assert_eq!(
        source_help_text(SourceMode::SystemAudio, &AudioSourceState::Starting),
        "Starting ScreenCaptureKit audio capture."
    );
    assert_eq!(
        source_help_text(SourceMode::SystemAudio, &AudioSourceState::PermissionDenied),
        "Grant Screen Recording permission in Privacy & Security and restart the app."
    );
    assert_eq!(
        source_help_text(SourceMode::SystemAudio, &AudioSourceState::UnsupportedPlatform),
        "System audio capture is only available on macOS."
    );
    assert_eq!(
        source_help_text(SourceMode::SystemAudio, &AudioSourceState::Error("x".to_owned())),
        "ScreenCaptureKit failed to start. Check permissions and try again."
    );
}

#[test]
fn window_help_texts() {
    assert_eq!(
        window_source_help_text(SourceMode::Demo, &AudioSourceState::Running),
        "Demo source generates synthetic channel energy so the UI and estimator path can be tested."
    );
    assert_eq!(
        window_source_help_text(SourceMode::SystemAudio, &AudioSourceState::Running),
        "System audio capture is active. Startup and source-state wiring are in place."
    );
    assert_eq!(
        window_source_help_text(SourceMode::SystemAudio, &AudioSourceState::Starting),
        "Starting ScreenCaptureKit audio capture."
    );
}

#[test]
fn ascii_case_is_ignored() {
    for message in ["Access Denied", "ACCESS DENIED", "access denied", "aCcEsS dEnIeD"] {
        assert!(AudioSourceState::is_capture_permission_denied(message));
        assert_eq!(
            AudioSourceState::from_stream_error(message),
            AudioSourceState::PermissionDenied
        );
    }
    assert!(AudioSourceState::is_capture_permission_denied("TCC DECLINED"));
}
