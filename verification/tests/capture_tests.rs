use stt_core::capture::{
    recorder_args, recorder_command, recording_file_path, validate_stopped_recording,
    CaptureController,
};
use stt_core::errors::SttError;

#[test]
fn start_then_stop_returns_the_started_path() {
    let mut c = CaptureController::new(String::from("/tmp"));
    let path = c.prepare_start(42).unwrap();
    assert_eq!(path, "/tmp/recording_42.wav");
    c.commit_start(7, path.clone()).unwrap();
    assert!(c.has_active_session());
    let session = c.begin_stop().unwrap();
    assert_eq!(session.pid, 7);
    assert_eq!(session.path, path);
    assert!(!c.has_active_session());
    let kept = validate_stopped_recording(session.path, true, 2048).unwrap();
    assert_eq!(kept, "/tmp/recording_42.wav");
}

#[test]
fn stop_without_start_fails_with_no_active_session() {
    let mut c = CaptureController::new(String::from("/tmp"));
    let r = c.begin_stop();
    assert_eq!(r, Err(SttError::NoActiveSession));
}

#[test]
fn cancel_without_start_is_a_no_op() {
    let mut c = CaptureController::new(String::from("/tmp"));
    assert_eq!(c.begin_cancel(), None);
    assert!(!c.has_active_session());
}

#[test]
fn second_start_is_rejected_and_keeps_the_first_session() {
    let mut c = CaptureController::new(String::from("/tmp"));
    let path = c.prepare_start(1).unwrap();
    c.commit_start(11, path.clone()).unwrap();
    assert_eq!(c.prepare_start(2), Err(SttError::SessionAlreadyActive));
    assert_eq!(
        c.commit_start(12, String::from("/tmp/other.wav")),
        Err(SttError::SessionAlreadyActive)
    );
    let survivor = c.begin_stop().unwrap();
    assert_eq!(survivor.pid, 11);
    assert_eq!(survivor.path, path);
}

#[test]
fn cancel_after_start_hands_back_the_session_and_empties_the_slot() {
    let mut c = CaptureController::new(String::from("/var/tmp"));
    let path = c.prepare_start(99).unwrap();
    c.commit_start(33, path.clone()).unwrap();
    let taken = c.begin_cancel().unwrap();
    assert_eq!(taken.pid, 33);
    assert_eq!(taken.path, "/var/tmp/recording_99.wav");
    assert!(!c.has_active_session());
    assert_eq!(c.begin_cancel(), None);
}

#[test]
fn missing_file_fails_validation() {
    let r = validate_stopped_recording(String::from("/tmp/x.wav"), false, 0);
    assert_eq!(r, Err(SttError::FileNotCreated));
    assert_eq!(
        SttError::FileNotCreated.message(),
        "Recording file was not created"
    );
}

#[test]
fn empty_file_fails_validation() {
    let r = validate_stopped_recording(String::from("/tmp/x.wav"), true, 0);
    assert_eq!(r, Err(SttError::EmptyRecording));
    assert_eq!(SttError::EmptyRecording.message(), "Recording file is empty");
}

#[test]
fn recording_paths_are_time_named() {
    assert_eq!(
        recording_file_path(&String::from("/tmp"), 1700000000),
        "/tmp/recording_1700000000.wav"
    );
    assert_eq!(
        recording_file_path(&String::from("/tmp"), 0),
        "/tmp/recording_0.wav"
    );
    assert_eq!(
        recording_file_path(&String::from("/tmp"), -5),
        "/tmp/recording_-5.wav"
    );
}

#[test]
fn recorder_invocation_is_fixed_pcm_16khz_mono() {
    assert_eq!(recorder_command(), "arecord");
    let args = recorder_args(&String::from("/tmp/rec.wav"));
    assert_eq!(
        args,
        vec![
            String::from("-f"),
            String::from("S16_LE"),
            String::from("-r"),
            String::from("16000"),
            String::from("-c"),
            String::from("1"),
            String::from("/tmp/rec.wav"),
        ]
    );
}

#[test]
fn clock_named_start_produces_a_wav_under_the_temp_dir() {
    let mut c = CaptureController::new(String::from("/tmp"));
    let path = c.prepare_start_now().unwrap();
    assert!(path.starts_with("/tmp/recording_"));
    assert!(path.ends_with(".wav"));
}

#[test]
fn two_starts_never_reuse_a_path() {
    let mut c = CaptureController::new(String::from("/tmp"));
    let p1 = c.prepare_start(7).unwrap();
    assert_eq!(p1, "/tmp/recording_7.wav");
    c.commit_start(1, p1.clone()).unwrap();
    let _ = c.begin_cancel();
    // The clock has not moved on, yet the second start gets a fresh path.
    let p2 = c.prepare_start(7).unwrap();
    assert_eq!(p2, "/tmp/recording_8.wav");
    assert_ne!(p1, p2);
    // A clock that did move on is used as it stands.
    let p3 = c.prepare_start(20).unwrap();
    assert_eq!(p3, "/tmp/recording_20.wav");
    // A clock that went backwards still yields a fresh path.
    let p4 = c.prepare_start(5).unwrap();
    assert_eq!(p4, "/tmp/recording_21.wav");
}

#[test]
fn a_trailing_separator_on_the_temp_dir_is_not_doubled() {
    let mut c = CaptureController::new(String::from("/tmp/"));
    let path = c.prepare_start(3).unwrap();
    assert_eq!(path, "/tmp/recording_3.wav");
}

#[test]
fn decimal_rendering_is_exact() {
    assert_eq!(stt_core::decimal::u64_to_string(0), "0");
    assert_eq!(stt_core::decimal::u64_to_string(400), "400");
    assert_eq!(
        stt_core::decimal::u64_to_string(18446744073709551615),
        "18446744073709551615"
    );
}

#[test]
fn session_error_messages() {
    assert_eq!(
        SttError::NoActiveSession.message(),
        "No active recording to stop"
    );
    assert_eq!(
        SttError::SessionAlreadyActive.message(),
        "A recording is already in progress"
    );
    let spawn = SttError::ProcessSpawnError {
        detail: String::from("No such file or directory"),
    };
    assert_eq!(
        spawn.message(),
        "Failed to start arecord: No such file or directory. Is arecord installed?"
    );
}
