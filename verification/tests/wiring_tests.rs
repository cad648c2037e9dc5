use klv_overlay::error::PipelineError;
use klv_overlay::wiring::{
    classify_output, str_contains, wiring_warning, OutputClass, WiringAction, WiringState,
};

#[test]
fn substring_search() {
    assert!(str_contains("video_0_0041", "video"));
    assert!(str_contains("private_0_0042", "private"));
    assert!(!str_contains("audio_0_0043", "video"));
    assert!(str_contains("anything", ""));
    assert!(!str_contains("", "video"));
    assert!(str_contains("video", "video"));
}

#[test]
fn classification_of_pad_names() {
    assert_eq!(classify_output("video_0_0041"), OutputClass::Video);
    assert_eq!(classify_output("private_0_0042"), OutputClass::Metadata);
    assert_eq!(classify_output("audio_0_0043"), OutputClass::Unsupported);
    assert_eq!(classify_output(""), OutputClass::Unsupported);
}

#[test]
fn video_then_private_wires_both_in_order() {
    let mut wiring = WiringState::new();
    let first = wiring.on_output_added("video_0_0041", true);
    assert_eq!(first, WiringAction::ConnectVideo);
    assert!(wiring.video_wired);
    assert!(!wiring.metadata_wired);

    let second = wiring.on_output_added("private_0_0042", true);
    assert_eq!(second, WiringAction::ConnectMetadataBuffered);
    // The already-flowing video connection is untouched.
    assert!(wiring.video_wired);
    assert!(wiring.metadata_wired);
}

#[test]
fn unsupported_output_is_left_unconnected() {
    let mut wiring = WiringState::new();
    let action = wiring.on_output_added("audio_0_0043", true);
    assert_eq!(action, WiringAction::IgnoreUnsupported);
    assert!(!wiring.video_wired);
    assert!(!wiring.metadata_wired);
}

#[test]
fn metadata_output_after_teardown_is_a_silent_no_op() {
    let mut wiring = WiringState::new();
    let action = wiring.on_output_added("private_0_0042", false);
    assert_eq!(action, WiringAction::PipelineGone);
    assert!(!wiring.metadata_wired);
}

#[test]
fn duplicate_output_leaves_existing_connection() {
    let mut wiring = WiringState::new();
    assert_eq!(wiring.on_output_added("video_0_0041", true), WiringAction::ConnectVideo);
    assert_eq!(wiring.on_output_added("video_0_0044", true), WiringAction::DuplicateOutput);
    assert!(wiring.video_wired);
}

#[test]
fn unsupported_warning_names_the_output() {
    let mut wiring = WiringState::new();
    let action = wiring.on_output_added("audio_0_0043", true);
    match wiring_warning("audio_0_0043", action) {
        Some(PipelineError::UnsupportedStreamType { output_name }) => {
            assert_eq!(output_name, "audio_0_0043");
        }
        other => panic!("expected an unsupported-stream-type warning, got {:?}", other),
    }
    assert!(wiring_warning("video_0_0041", WiringAction::ConnectVideo).is_none());
}
