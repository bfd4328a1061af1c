//! Runtime health checks that feed the debug overlay: camera tracking, frame
//! rate floor and player visibility, plus the screenshot trigger on failure.
use vstd::prelude::*;
use vstd::string::StringExecFns;

verus! {

/// Health check severity level.
#[derive(Debug, Clone, Copy, PartialEq, Eq, Structural)]
pub enum CheckResult {
    Pass,
    Warn,
    Fail,
}

/// An RGBA color.
#[derive(Debug, Clone, Copy, PartialEq, Eq, Structural)]
pub struct Color {
    pub r: u8,
    pub g: u8,
    pub b: u8,
    pub a: u8,
}

/// The overlay color of a check result: green, amber or red.
pub open spec fn result_color(c: CheckResult) -> Color {
    match c {
        CheckResult::Pass => Color { r: 100, g: 255, b: 100, a: 255 },
        CheckResult::Warn => Color { r: 255, g: 200, b: 100, a: 255 },
        CheckResult::Fail => Color { r: 255, g: 100, b: 100, a: 255 },
    }
}

/// The overlay label of a check result.
pub open spec fn result_label(c: CheckResult) -> Seq<char> {
    match c {
        CheckResult::Pass => "[OK]"@,
        CheckResult::Warn => "[WARN]"@,
        CheckResult::Fail => "[FAIL]"@,
    }
}

impl CheckResult {
    pub fn is_ok(&self) -> (r: bool)
        ensures
            r == (*self == CheckResult::Pass),
    {
        match self {
            CheckResult::Pass => true,
            _ => false,
        }
    }

    /// Returns (color, label) for debug overlay display.
    /// The label is just the bracketed status (e.g., "[OK]", "[WARN]", "[FAIL]").
    pub fn overlay_display(&self) -> (r: (Color, &'static str))
        ensures
            r.0 == result_color(*self),
            r.1@ == result_label(*self),
    {
        match self {
            CheckResult::Pass => (Color { r: 100, g: 255, b: 100, a: 255 }, "[OK]"),
            CheckResult::Warn => (Color { r: 255, g: 200, b: 100, a: 255 }, "[WARN]"),
            CheckResult::Fail => (Color { r: 255, g: 100, b: 100, a: 255 }, "[FAIL]"),
        }
    }
}

impl Default for CheckResult {
    fn default() -> (r: Self)
        ensures
            r == CheckResult::Pass,
    {
        CheckResult::Pass
    }
}

/// Aggregated health check results for the overlay.
#[derive(Debug, Clone, Copy, PartialEq, Eq, Structural)]
pub struct HealthResults {
    pub camera: CheckResult,
    pub fps: CheckResult,
    pub player1: CheckResult,
    pub player2: CheckResult,
}

/// All four checks passing.
pub open spec fn all_ok() -> HealthResults {
    HealthResults {
        camera: CheckResult::Pass,
        fps: CheckResult::Pass,
        player1: CheckResult::Pass,
        player2: CheckResult::Pass,
    }
}

impl Default for HealthResults {
    fn default() -> (r: Self)
        ensures
            r == all_ok(),
    {
        HealthResults {
            camera: CheckResult::Pass,
            fps: CheckResult::Pass,
            player1: CheckResult::Pass,
            player2: CheckResult::Pass,
        }
    }
}

/// The combined player status shown on the overlay: FAIL if either player
/// fails, OK if both are fine, WARN otherwise.
pub fn combined_player_result(p1: CheckResult, p2: CheckResult) -> (r: CheckResult)
    ensures
        r == if p1 == CheckResult::Pass && p2 == CheckResult::Pass {
            CheckResult::Pass
        } else if p1 == CheckResult::Fail || p2 == CheckResult::Fail {
            CheckResult::Fail
        } else {
            CheckResult::Warn
        },
{
    match (p1, p2) {
        (CheckResult::Pass, CheckResult::Pass) => CheckResult::Pass,
        (CheckResult::Fail, _) | (_, CheckResult::Fail) => CheckResult::Fail,
        _ => CheckResult::Warn,
    }
}

/// Frames a condition must persist before it is reported as WARN.
pub const WARN_FRAMES: u32 = 30;

/// Frames a stale camera must persist before it is reported as FAIL.
pub const CAMERA_FAIL_FRAMES: u32 = 60;

/// How one frame's rate compares to the floor.
#[derive(Debug, Clone, Copy, PartialEq, Eq, Structural)]
pub enum FpsBand {
    /// Below 20 fps.
    Critical,
    /// At least 20 but below 30 fps.
    Low,
    /// 30 fps or more.
    Normal,
}

/// `c + 1`, held at `u32::MAX`.
pub open spec fn bump(c: u32) -> u32 {
    if c < u32::MAX {
        (c + 1) as u32
    } else {
        c
    }
}

/// Monitor for the frame rate floor.
#[derive(Debug, Clone, Copy, PartialEq, Eq, Structural)]
pub struct FpsTracker {
    /// Consecutive frames below 30 fps.
    pub low_fps_frames: u32,
    /// Consecutive frames below 20 fps.
    pub crit_fps_frames: u32,
}

/// The floor check's verdict for given streak lengths: FAIL after 30 frames
/// below 20 fps, WARN after 30 frames below 30 fps.
pub open spec fn fps_verdict(t: FpsTracker) -> CheckResult {
    if t.crit_fps_frames >= WARN_FRAMES {
        CheckResult::Fail
    } else if t.low_fps_frames >= WARN_FRAMES {
        CheckResult::Warn
    } else {
        CheckResult::Pass
    }
}

/// The streaks after one more frame in `band`.
pub open spec fn fps_step(t: FpsTracker, band: FpsBand) -> FpsTracker {
    match band {
        FpsBand::Critical => FpsTracker {
            low_fps_frames: bump(t.low_fps_frames),
            crit_fps_frames: bump(t.crit_fps_frames),
        },
        FpsBand::Low => FpsTracker { low_fps_frames: bump(t.low_fps_frames), crit_fps_frames: 0 },
        FpsBand::Normal => FpsTracker { low_fps_frames: 0, crit_fps_frames: 0 },
    }
}

fn bump_exec(c: u32) -> (r: u32)
    ensures
        r == bump(c),
{
    if c < u32::MAX {
        c + 1
    } else {
        c
    }
}

impl FpsTracker {
    pub fn new() -> (r: Self)
        ensures
            r.low_fps_frames == 0,
            r.crit_fps_frames == 0,
    {
        FpsTracker { low_fps_frames: 0, crit_fps_frames: 0 }
    }

    /// Record one frame and return the floor check's verdict.
    pub fn record(&mut self, band: FpsBand) -> (r: CheckResult)
        ensures
            *final(self) == fps_step(*old(self), band),
            r == fps_verdict(*final(self)),
    {
        match band {
            FpsBand::Critical => {
                self.crit_fps_frames = bump_exec(self.crit_fps_frames);
                self.low_fps_frames = bump_exec(self.low_fps_frames);
            },
            FpsBand::Low => {
                self.crit_fps_frames = 0;
                self.low_fps_frames = bump_exec(self.low_fps_frames);
            },
            FpsBand::Normal => {
                self.crit_fps_frames = 0;
                self.low_fps_frames = 0;
            },
        }
        if self.crit_fps_frames >= WARN_FRAMES {
            CheckResult::Fail
        } else if self.low_fps_frames >= WARN_FRAMES {
            CheckResult::Warn
        } else {
            CheckResult::Pass
        }
    }
}

/// What the camera did this frame, as seen by the tracking check.
#[derive(Debug, Clone, Copy, PartialEq, Eq, Structural)]
pub struct CameraSample {
    /// The camera is still lerping toward its target.
    pub following: bool,
    /// The players have moved more than 3 tiles since the camera stopped.
    pub moved_far: bool,
}

/// The camera check's verdict for a stale streak: FAIL after 60 frames,
/// WARN after 30.
pub open spec fn camera_verdict(stale: u32) -> CheckResult {
    if stale >= CAMERA_FAIL_FRAMES {
        CheckResult::Fail
    } else if stale >= WARN_FRAMES {
        CheckResult::Warn
    } else {
        CheckResult::Pass
    }
}

/// The stale streak after one more frame.
pub open spec fn camera_step(stale: u32, s: CameraSample) -> u32 {
    if s.following {
        0
    } else if s.moved_far {
        bump(stale)
    } else {
        stale
    }
}

/// The screenshot reason for a set of results: the first failing check in
/// the order camera, fps, player 1, player 2.
pub open spec fn fail_reason(r: HealthResults) -> Option<Seq<char>> {
    if r.camera == CheckResult::Fail {
        Some("camera_stale"@)
    } else if r.fps == CheckResult::Fail {
        Some("fps_floor_breached"@)
    } else if r.player1 == CheckResult::Fail {
        Some("player1_off_screen"@)
    } else if r.player2 == CheckResult::Fail {
        Some("player2_off_screen"@)
    } else {
        None
    }
}

/// The screenshot reason is the name of a check that failed, taken in the
/// order camera, frame rate, player 1, player 2: there is a reason exactly
/// when some check failed; each reason is given only when its own check
/// failed; and it is the first failing check's reason. So a failing player
/// 1 (with camera and frame rate passing) is reported as player 1, and a
/// failing player 2 alone as player 2.
pub proof fn lemma_reason_names_failed_check(r: HealthResults)
    ensures
        fail_reason(r) is None <==> (r.camera != CheckResult::Fail && r.fps != CheckResult::Fail && r.player1
            != CheckResult::Fail && r.player2 != CheckResult::Fail),
        fail_reason(r) == Some("camera_stale"@) ==> r.camera == CheckResult::Fail,
        fail_reason(r) == Some("fps_floor_breached"@) ==> r.fps == CheckResult::Fail,
        fail_reason(r) == Some("player1_off_screen"@) ==> r.player1 == CheckResult::Fail,
        fail_reason(r) == Some("player2_off_screen"@) ==> r.player2 == CheckResult::Fail,
        r.camera == CheckResult::Fail ==> fail_reason(r) == Some("camera_stale"@),
        r.camera != CheckResult::Fail && r.fps == CheckResult::Fail ==> fail_reason(r) == Some("fps_floor_breached"@),
        r.camera != CheckResult::Fail && r.fps != CheckResult::Fail && r.player1 == CheckResult::Fail
            ==> fail_reason(r) == Some("player1_off_screen"@),
        r.camera != CheckResult::Fail && r.fps != CheckResult::Fail && r.player1 != CheckResult::Fail && r.player2
            == CheckResult::Fail ==> fail_reason(r) == Some("player2_off_screen"@),
{
    reveal_strlit("camera_stale");
    reveal_strlit("fps_floor_breached");
    reveal_strlit("player1_off_screen");
    reveal_strlit("player2_off_screen");
    assert("camera_stale"@[0] != "fps_floor_breached"@[0]);
    assert("camera_stale"@[0] != "player1_off_screen"@[0]);
    assert("camera_stale"@[0] != "player2_off_screen"@[0]);
    assert("fps_floor_breached"@[0] != "player1_off_screen"@[0]);
    assert("fps_floor_breached"@[0] != "player2_off_screen"@[0]);
    assert("player1_off_screen"@[6] != "player2_off_screen"@[6]);
}

/// Whether an optional string holds the given characters.
pub open spec fn opt_string_is(o: Option<String>, s: Option<Seq<char>>) -> bool {
    match (o, s) {
        (Some(a), Some(b)) => a@ == b,
        (None, None) => true,
        _ => false,
    }
}

/// The screenshot reason for `r`, as a string.
pub fn screenshot_reason(r: &HealthResults) -> (out: Option<String>)
    ensures
        opt_string_is(out, fail_reason(*r)),
{
    match (r.camera, r.fps, r.player1, r.player2) {
        (CheckResult::Fail, _, _, _) => Some(String::from_str("camera_stale")),
        (_, CheckResult::Fail, _, _) => Some(String::from_str("fps_floor_breached")),
        (_, _, CheckResult::Fail, _) => Some(String::from_str("player1_off_screen")),
        (_, _, _, CheckResult::Fail) => Some(String::from_str("player2_off_screen")),
        _ => None,
    }
}

/// Health monitor: runs the assertions each frame during play and remembers
/// why the first failure happened, for an automatic screenshot.
pub struct HealthMonitor {
    /// Consecutive frames the camera has been stale.
    pub stale_frames: u32,
    pub fps: FpsTracker,
    pub results: HealthResults,
    /// Set when a check fails; cleared by `take_screenshot_reason`.
    pub pending_screenshot_reason: Option<String>,
}

impl HealthMonitor {
    pub fn new() -> (r: Self)
        ensures
            r.stale_frames == 0,
            r.fps == (FpsTracker { low_fps_frames: 0, crit_fps_frames: 0 }),
            r.results == all_ok(),
            r.pending_screenshot_reason is None,
    {
        HealthMonitor {
            stale_frames: 0,
            fps: FpsTracker::new(),
            results: HealthResults::default(),
            pending_screenshot_reason: None,
        }
    }

    /// Camera tracking check: the camera is stale while it is not following
    /// and the players have moved far; WARN after 30 such frames, FAIL after 60.
    pub fn check_camera_tracking(&mut self, sample: CameraSample)
        ensures
            final(self).stale_frames == camera_step(old(self).stale_frames, sample),
            final(self).results == (HealthResults {
                camera: camera_verdict(final(self).stale_frames),
                ..old(self).results
            }),
            final(self).fps == old(self).fps,
            final(self).pending_screenshot_reason == old(self).pending_screenshot_reason,
    {
        if sample.following {
            self.stale_frames = 0;
        } else if sample.moved_far {
            self.stale_frames = bump_exec(self.stale_frames);
        }
        self.results.camera = if self.stale_frames >= CAMERA_FAIL_FRAMES {
            CheckResult::Fail
        } else if self.stale_frames >= WARN_FRAMES {
            CheckResult::Warn
        } else {
            CheckResult::Pass
        };
    }

    /// Frame rate floor check.
    pub fn check_fps_floor(&mut self, band: FpsBand)
        ensures
            final(self).fps == fps_step(old(self).fps, band),
            final(self).results == (HealthResults {
                fps: fps_verdict(final(self).fps),
                ..old(self).results
            }),
            final(self).stale_frames == old(self).stale_frames,
            final(self).pending_screenshot_reason == old(self).pending_screenshot_reason,
    {
        let r = self.fps.record(band);
        self.results.fps = r;
    }

    /// Run all checks for one frame, given the camera sample, the frame rate
    /// band and the on-screen verdicts of both players. If no screenshot
    /// reason is pending, the first failing check becomes the reason.
    pub fn check(&mut self, sample: CameraSample, band: FpsBand, player1: CheckResult, player2: CheckResult)
        ensures
            final(self).stale_frames == camera_step(old(self).stale_frames, sample),
            final(self).fps == fps_step(old(self).fps, band),
            final(self).results == (HealthResults {
                camera: camera_verdict(final(self).stale_frames),
                fps: fps_verdict(final(self).fps),
                player1,
                player2,
            }),
            old(self).pending_screenshot_reason is Some ==> final(self).pending_screenshot_reason
                == old(self).pending_screenshot_reason,
            old(self).pending_screenshot_reason is None ==> opt_string_is(
                final(self).pending_screenshot_reason,
                fail_reason(final(self).results),
            ),
    {
        self.check_camera_tracking(sample);
        self.check_fps_floor(band);
        self.results.player1 = player1;
        self.results.player2 = player2;
        if self.pending_screenshot_reason.is_none() {
            self.pending_screenshot_reason = screenshot_reason(&self.results);
        }
    }

    /// Current health results.
    pub fn results(&self) -> (r: &HealthResults)
        ensures
            *r == self.results,
    {
        &self.results
    }

    /// Whether a screenshot should be taken due to a health check failure.
    pub fn should_screenshot(&self) -> (r: bool)
        ensures
            r == self.pending_screenshot_reason is Some,
    {
        self.pending_screenshot_reason.is_some()
    }

    /// Takes and clears the pending screenshot reason.
    pub fn take_screenshot_reason(&mut self) -> (r: Option<String>)
        ensures
            r == old(self).pending_screenshot_reason,
            final(self).pending_screenshot_reason is None,
            final(self).stale_frames == old(self).stale_frames,
            final(self).fps == old(self).fps,
            final(self).results == old(self).results,
    {
        self.pending_screenshot_reason.take()
    }

    /// Reset all trackers. Call when entering play.
    pub fn reset(&mut self)
        ensures
            final(self).stale_frames == 0,
            final(self).fps == (FpsTracker { low_fps_frames: 0, crit_fps_frames: 0 }),
            final(self).results == all_ok(),
            final(self).pending_screenshot_reason is None,
    {
        *self = HealthMonitor::new();
    }
}

/// The floor tracker after `n` frames in the same band.
pub open spec fn fps_run(t: FpsTracker, band: FpsBand, n: nat) -> FpsTracker
    decreases n,
{
    if n == 0 {
        t
    } else {
        fps_step(fps_run(t, band, (n - 1) as nat), band)
    }
}

/// From a fresh tracker, a run of critical frames is reported WARN never and
/// FAIL from its 30th frame on, a run of low frames WARN from its 30th frame
/// on, and normal frames always pass; one normal frame clears everything.
pub proof fn lemma_fps_streaks(n: nat, t: FpsTracker)
    requires
        n < u32::MAX,
    ensures
        fps_verdict(fps_run(FpsTracker { low_fps_frames: 0, crit_fps_frames: 0 }, FpsBand::Critical, n))
            == if n >= WARN_FRAMES {
            CheckResult::Fail
        } else {
            CheckResult::Pass
        },
        fps_verdict(fps_run(FpsTracker { low_fps_frames: 0, crit_fps_frames: 0 }, FpsBand::Low, n))
            == if n >= WARN_FRAMES {
            CheckResult::Warn
        } else {
            CheckResult::Pass
        },
        fps_verdict(fps_step(t, FpsBand::Normal)) == CheckResult::Pass,
{
    lemma_fps_run_counts(n);
}

proof fn lemma_fps_run_counts(n: nat)
    requires
        n < u32::MAX,
    ensures
        fps_run(FpsTracker { low_fps_frames: 0, crit_fps_frames: 0 }, FpsBand::Critical, n) == (
        FpsTracker { low_fps_frames: n as u32, crit_fps_frames: n as u32 }),
        fps_run(FpsTracker { low_fps_frames: 0, crit_fps_frames: 0 }, FpsBand::Low, n) == (FpsTracker {
            low_fps_frames: n as u32,
            crit_fps_frames: 0,
        }),
    decreases n,
{
    if n > 0 {
        lemma_fps_run_counts((n - 1) as nat);
    }
}

/// The floor tracker after the frames `h`, oldest first, from a fresh
/// tracker (one made by `new` or `reset`).
pub open spec fn fps_history(h: Seq<FpsBand>) -> FpsTracker
    decreases h.len(),
{
    if h.len() == 0 {
        FpsTracker { low_fps_frames: 0, crit_fps_frames: 0 }
    } else {
        fps_step(fps_history(h.drop_last()), h.last())
    }
}

/// Length of the run of most recent frames in `h` below 20 fps.
pub open spec fn critical_run(h: Seq<FpsBand>) -> nat
    decreases h.len(),
{
    if h.len() == 0 || h.last() != FpsBand::Critical {
        0
    } else {
        critical_run(h.drop_last()) + 1
    }
}

/// Length of the run of most recent frames in `h` below 30 fps.
pub open spec fn low_run(h: Seq<FpsBand>) -> nat
    decreases h.len(),
{
    if h.len() == 0 || h.last() == FpsBand::Normal {
        0
    } else {
        low_run(h.drop_last()) + 1
    }
}

/// Over any history of frames since the tracker was fresh, the floor check
/// is FAIL when the latest 30 or more frames were all below 20 fps, else
/// WARN when the latest 30 or more were all below 30 fps, else it passes.
/// (The streak counters hold at `u32::MAX`, so the history is shorter.)
pub proof fn lemma_fps_verdict_of_history(h: Seq<FpsBand>)
    requires
        h.len() < u32::MAX,
    ensures
        fps_history(h).crit_fps_frames == critical_run(h),
        fps_history(h).low_fps_frames == low_run(h),
        fps_verdict(fps_history(h)) == if critical_run(h) >= WARN_FRAMES {
            CheckResult::Fail
        } else if low_run(h) >= WARN_FRAMES {
            CheckResult::Warn
        } else {
            CheckResult::Pass
        },
    decreases h.len(),
{
    if h.len() > 0 {
        lemma_fps_verdict_of_history(h.drop_last());
        lemma_runs_bounded(h.drop_last());
    }
}

proof fn lemma_runs_bounded(h: Seq<FpsBand>)
    ensures
        critical_run(h) <= h.len(),
        low_run(h) <= h.len(),
    decreases h.len(),
{
    if h.len() > 0 {
        lemma_runs_bounded(h.drop_last());
    }
}

/// The camera's stale streak after the same sample `n` times.
pub open spec fn camera_run(stale: u32, s: CameraSample, n: nat) -> u32
    decreases n,
{
    if n == 0 {
        stale
    } else {
        camera_step(camera_run(stale, s, (n - 1) as nat), s)
    }
}

/// A camera that stopped while the players moved far is reported WARN from
/// the 30th such frame and FAIL from the 60th; a following camera is never
/// stale.
pub proof fn lemma_camera_streak(n: nat, stale: u32)
    requires
        n < u32::MAX,
    ensures
        camera_verdict(camera_run(0, CameraSample { following: false, moved_far: true }, n)) == if n
            >= CAMERA_FAIL_FRAMES {
            CheckResult::Fail
        } else if n >= WARN_FRAMES {
            CheckResult::Warn
        } else {
            CheckResult::Pass
        },
        camera_verdict(camera_step(stale, CameraSample { following: true, moved_far: true }))
            == CheckResult::Pass,
{
    lemma_camera_run_count(n);
}

proof fn lemma_camera_run_count(n: nat)
    requires
        n < u32::MAX,
    ensures
        camera_run(0, CameraSample { following: false, moved_far: true }, n) == n,
    decreases n,
{
    if n > 0 {
        lemma_camera_run_count((n - 1) as nat);
    }
}

} // verus!
