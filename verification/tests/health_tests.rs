use voxparty::health::{
    combined_player_result, CameraSample, CheckResult, FpsBand, FpsTracker, HealthMonitor, HealthResults,
};

fn still_far() -> CameraSample {
    CameraSample { following: false, moved_far: true }
}

#[test]
fn test_health_monitor_new_is_ok() {
    let hm = HealthMonitor::new();
    let r = hm.results();
    assert_eq!(r.camera, CheckResult::Pass);
    assert_eq!(r.fps, CheckResult::Pass);
}

#[test]
fn test_check_result_is_ok() {
    assert!(CheckResult::Pass.is_ok());
    assert!(!CheckResult::Warn.is_ok());
    assert!(!CheckResult::Fail.is_ok());
}

#[test]
fn test_health_results_default() {
    let hr = HealthResults::default();
    assert_eq!(hr.camera, CheckResult::Pass);
    assert_eq!(hr.fps, CheckResult::Pass);
    assert_eq!(hr.player1, CheckResult::Pass);
    assert_eq!(hr.player2, CheckResult::Pass);
}

// A frame at 25 fps is in the low band, one at 15 fps critical, one at 60 normal.
#[test]
fn test_fps_floor_warn() {
    let mut hm = HealthMonitor::new();
    for _ in 0..31 {
        hm.check_fps_floor(FpsBand::Low);
    }
    assert_eq!(hm.results().fps, CheckResult::Warn, "FPS < 30 for 31 frames should be WARN");
}

#[test]
fn test_fps_floor_fail() {
    let mut hm = HealthMonitor::new();
    for _ in 0..30 {
        hm.check_fps_floor(FpsBand::Critical);
    }
    assert_eq!(hm.results().fps, CheckResult::Fail, "FPS < 20 for 30 frames should be FAIL");
}

#[test]
fn test_fps_recovery() {
    let mut hm = HealthMonitor::new();
    for _ in 0..30 {
        hm.check_fps_floor(FpsBand::Low);
    }
    assert_eq!(hm.results().fps, CheckResult::Warn);
    hm.check_fps_floor(FpsBand::Normal);
    assert_eq!(hm.results().fps, CheckResult::Pass, "FPS recovery should clear WARN");
}

#[test]
fn test_camera_ok_when_following() {
    let mut hm = HealthMonitor::new();
    hm.check(CameraSample { following: true, moved_far: false }, FpsBand::Normal, CheckResult::Pass, CheckResult::Pass);
    assert_eq!(hm.results().camera, CheckResult::Pass, "Camera actively lerping should be OK");
}

#[test]
fn test_camera_stale_when_target_matches_current_but_player_moved() {
    let mut hm = HealthMonitor::new();
    hm.check(CameraSample { following: false, moved_far: false }, FpsBand::Normal, CheckResult::Pass, CheckResult::Pass);
    for _ in 0..31 {
        hm.check(still_far(), FpsBand::Normal, CheckResult::Pass, CheckResult::Pass);
    }
    assert_eq!(hm.results().camera, CheckResult::Warn, "Camera stale for 31 frames should be WARN");
}

#[test]
fn test_camera_fail_after_60_frames_stale() {
    let mut hm = HealthMonitor::new();
    hm.check(CameraSample { following: false, moved_far: false }, FpsBand::Normal, CheckResult::Pass, CheckResult::Pass);
    for _ in 0..60 {
        hm.check(still_far(), FpsBand::Normal, CheckResult::Pass, CheckResult::Pass);
    }
    assert_eq!(hm.results().camera, CheckResult::Fail, "Camera stale for 60 frames should be FAIL");
}

#[test]
fn test_screenshot_triggered_on_fail() {
    let mut hm = HealthMonitor::new();
    for _ in 0..30 {
        hm.check(CameraSample { following: false, moved_far: false }, FpsBand::Critical, CheckResult::Pass, CheckResult::Pass);
    }
    assert_eq!(hm.results().fps, CheckResult::Fail, "FPS should be FAIL");
    assert!(hm.should_screenshot(), "should_screenshot should be true when fps FAIL");
    assert_eq!(hm.take_screenshot_reason(), Some("fps_floor_breached".to_string()));
}

#[test]
fn test_take_screenshot_clears_reason() {
    let mut hm = HealthMonitor::new();
    for _ in 0..30 {
        hm.check(CameraSample { following: false, moved_far: false }, FpsBand::Critical, CheckResult::Pass, CheckResult::Pass);
    }
    assert!(hm.should_screenshot());
    let reason = hm.take_screenshot_reason();
    assert_eq!(reason, Some("fps_floor_breached".to_string()));
    assert!(!hm.should_screenshot(), "should_screenshot should be false after take_screenshot_reason");
    assert_eq!(hm.take_screenshot_reason(), None, "Second call should return None");
}

#[test]
fn fps_streak_boundaries() {
    let mut t = FpsTracker::new();
    for _ in 0..29 {
        assert_eq!(t.record(FpsBand::Critical), CheckResult::Pass);
    }
    assert_eq!(t.record(FpsBand::Critical), CheckResult::Fail);
    assert_eq!(t.record(FpsBand::Low), CheckResult::Warn);
    assert_eq!(t.record(FpsBand::Normal), CheckResult::Pass);
}

#[test]
fn player_results_combine_worst_first() {
    assert_eq!(combined_player_result(CheckResult::Pass, CheckResult::Warn), CheckResult::Warn);
    assert_eq!(combined_player_result(CheckResult::Fail, CheckResult::Warn), CheckResult::Fail);
    assert_eq!(combined_player_result(CheckResult::Pass, CheckResult::Pass), CheckResult::Pass);
}

#[test]
fn overlay_labels() {
    assert_eq!(CheckResult::Pass.overlay_display().1, "[OK]");
    assert_eq!(CheckResult::Warn.overlay_display().1, "[WARN]");
    assert_eq!(CheckResult::Fail.overlay_display().1, "[FAIL]");
}

#[test]
fn camera_failure_sets_reason() {
    let mut hm = HealthMonitor::new();
    for _ in 0..60 {
        hm.check(still_far(), FpsBand::Normal, CheckResult::Pass, CheckResult::Pass);
    }
    assert_eq!(hm.take_screenshot_reason(), Some("camera_stale".to_string()));
    hm.reset();
    assert_eq!(hm.results().camera, CheckResult::Pass);
}

#[test]
fn fps_verdict_follows_the_latest_runs() {
    let mut hm = HealthMonitor::new();
    // 20 frames below 20 fps then 10 below 30: 30 frames below 30 in a row
    for _ in 0..20 {
        hm.check_fps_floor(FpsBand::Critical);
    }
    for _ in 0..9 {
        hm.check_fps_floor(FpsBand::Low);
    }
    assert_eq!(hm.results().fps, CheckResult::Pass);
    hm.check_fps_floor(FpsBand::Low);
    assert_eq!(hm.results().fps, CheckResult::Warn);
    // 30 frames below 20 in a row fail; one good frame clears it
    for _ in 0..30 {
        hm.check_fps_floor(FpsBand::Critical);
    }
    assert_eq!(hm.results().fps, CheckResult::Fail);
    hm.check_fps_floor(FpsBand::Normal);
    assert_eq!(hm.results().fps, CheckResult::Pass);
}
