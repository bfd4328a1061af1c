use voxparty::input::{
    assert_no_player_deadlock, AssertionResult, BugReport, InputFrame, InputRecorder, InputReplayer, QaReport,
    Recording, MAX_RECORDED_FRAMES,
};
use voxparty::touch::GameInput;
use voxparty::clock::{current_timestamp, timestamp_at, MAX_STAMP_SECS};

#[test]
fn test_recorder_starts_recording() {
    let rec = InputRecorder::start_recording("demo".to_string(), 2).expect("system clock");
    assert!(rec.is_recording());
}

#[test]
fn test_recorder_captures_frames() {
    let mut rec = InputRecorder::start_recording("demo".to_string(), 2).expect("system clock");
    rec.record_frame(&[GameInput::MoveRight], &[]);
    rec.record_frame(&[], &[GameInput::MoveLeft]);
    let recording = rec.stop_recording();
    assert_eq!(recording.frames.len(), 2);
    assert_eq!(recording.frames[0].p1, vec![GameInput::MoveRight]);
    assert_eq!(recording.frames[1].p2, vec![GameInput::MoveLeft]);
}

#[test]
fn test_recorder_caps_at_max_frames() {
    let mut rec = InputRecorder::start_recording("demo".to_string(), 2).expect("system clock");
    for _ in 0..40000 {
        rec.record_frame(&[GameInput::MoveRight], &[]);
    }
    let recording = rec.stop_recording();
    assert_eq!(recording.frames.len(), 36000);
    assert_eq!(MAX_RECORDED_FRAMES, 36000);
}

#[test]
fn test_replayer_from_recording() {
    let mut recording = Recording::new("demo".to_string(), 2).expect("system clock");
    recording.push_frame(InputFrame { p1: vec![GameInput::MoveRight], p2: vec![] });
    recording.push_frame(InputFrame { p1: vec![], p2: vec![GameInput::MoveLeft] });
    let mut replayer = InputReplayer::from_recording(recording);
    assert_eq!(replayer.total_frames(), 2);
    let frame0 = replayer.next_frame();
    assert!(frame0.is_some());
    let (p1, p2) = frame0.unwrap();
    assert_eq!(p1, vec![GameInput::MoveRight]);
    assert_eq!(p2, vec![]);
    let frame1 = replayer.next_frame();
    assert!(frame1.is_some());
    let (p1, p2) = frame1.unwrap();
    assert_eq!(p1, vec![]);
    assert_eq!(p2, vec![GameInput::MoveLeft]);
    assert!(replayer.next_frame().is_none());
}

#[test]
fn test_replayer_reset() {
    let mut recording = Recording::new("demo".to_string(), 2).expect("system clock");
    recording.push_frame(InputFrame { p1: vec![], p2: vec![] });
    recording.push_frame(InputFrame { p1: vec![], p2: vec![] });
    let mut replayer = InputReplayer::from_recording(recording);
    assert_eq!(replayer.current_frame(), 0);
    replayer.next_frame();
    assert_eq!(replayer.current_frame(), 1);
    replayer.reset();
    assert_eq!(replayer.current_frame(), 0);
}

#[test]
fn test_replayer_seek_to() {
    let mut recording = Recording::new("demo".to_string(), 2).expect("system clock");
    recording.push_frame(InputFrame { p1: vec![], p2: vec![] });
    recording.push_frame(InputFrame { p1: vec![], p2: vec![] });
    recording.push_frame(InputFrame { p1: vec![], p2: vec![] });
    let mut replayer = InputReplayer::from_recording(recording);
    replayer.seek_to(2);
    assert_eq!(replayer.current_frame(), 2);
    replayer.seek_to(10);
    assert_eq!(replayer.current_frame(), 3);
}

#[test]
fn record_then_replay_round_trip() {
    let mut rec = InputRecorder::start_recording("ep".to_string(), 2).expect("system clock");
    let script: Vec<(Vec<GameInput>, Vec<GameInput>)> = vec![
        (vec![GameInput::MoveUp], vec![]),
        (vec![], vec![GameInput::Jump, GameInput::MoveDown]),
        (vec![GameInput::Pause], vec![GameInput::Back]),
    ];
    for (a, b) in &script {
        rec.record_frame(a, b);
    }
    let recording = rec.stop_recording();
    assert_eq!(recording.header.episode_id, "ep");
    assert_eq!(recording.header.player_count, 2);
    assert_eq!(recording.header.game_version, "0.1.0");
    let mut replayer = InputReplayer::from_recording(recording);
    for (a, b) in &script {
        let (p1, p2) = replayer.next_frame().unwrap();
        assert_eq!(&p1, a);
        assert_eq!(&p2, b);
    }
    assert!(replayer.next_frame().is_none());
    assert_eq!(replayer.header().episode_id, "ep");
}

#[test]
fn recording_timestamp_is_set() {
    let r = Recording::new("demo".to_string(), 1).expect("system clock");
    assert!(!r.header.timestamp.is_empty());
    assert!(r.header.timestamp.ends_with('Z'));
    assert_eq!(r.header.timestamp.len(), 20);
    assert_eq!(&r.header.timestamp[4..5], "-");
    assert_eq!(&r.header.timestamp[10..11], "T");
    assert!(r.is_empty());
    assert_eq!(r.len(), 0);
}

#[test]
fn test_qa_report_builds() {
    let mut report = QaReport::new("session_test".to_string(), 100);
    report.add_result("camera_within_200px", true, None, None);
    report.add_result("fps_above_10", true, None, None);
    report.add_result("no_player_deadlock", false, Some(42), Some("P1 stuck".to_string()));
    assert_eq!(report.passed, 2);
    assert_eq!(report.failed, 1);
    assert_eq!(report.assertions.len(), 3);
}

#[test]
fn qa_report_keeps_details() {
    let mut report = QaReport::new("s".to_string(), 10);
    report.add_result("no_player_deadlock", false, Some(42), Some("P1 stuck".to_string()));
    let a = &report.assertions[0];
    assert_eq!(a.name, "no_player_deadlock");
    assert!(!a.passed);
    assert_eq!(a.frame, Some(42));
    assert_eq!(a.detail, Some("P1 stuck".to_string()));
}

#[test]
fn deadlock_assertion_messages() {
    assert_eq!(assert_no_player_deadlock(true, 0, false, 0), AssertionResult::Pass);
    assert_eq!(assert_no_player_deadlock(true, 299, false, 0), AssertionResult::Pass);
    assert_eq!(
        assert_no_player_deadlock(true, 300, false, 0),
        AssertionResult::Fail("P1 stuck for 300 frames with input queued".to_string())
    );
    assert_eq!(assert_no_player_deadlock(false, 1000, false, 0), AssertionResult::Pass);
    assert_eq!(
        assert_no_player_deadlock(false, 0, true, 500),
        AssertionResult::Fail("P2 stuck for 500 frames with input queued".to_string())
    );
}

#[test]
fn bug_report_fields() {
    let r = BugReport { reason: "camera stale".to_string(), frame: 42, input_range: [30, 60], episode_id: None };
    assert_eq!(r.input_range, [30, 60]);
    assert!(r.episode_id.is_none());
}

#[test]
fn timestamps_are_utc_calendar_text() {
    assert_eq!(timestamp_at(0).unwrap(), "1970-01-01T00:00:00Z");
    assert_eq!(timestamp_at(1_000_000_000).unwrap(), "2001-09-09T01:46:40Z");
    assert_eq!(timestamp_at(951_782_400).unwrap(), "2000-02-29T00:00:00Z");
    assert_eq!(timestamp_at(253_402_300_799).unwrap(), "9999-12-31T23:59:59Z");
    assert!(timestamp_at(MAX_STAMP_SECS).is_some());
    assert_eq!(timestamp_at(MAX_STAMP_SECS + 1), None);
    let now = current_timestamp().expect("system clock");
    assert!(now.as_str() > "2020");
}
