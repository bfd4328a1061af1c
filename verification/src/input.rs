//! Input recording and replay, QA assertions and reports.
use vstd::prelude::*;
use vstd::string::StringExecFns;
use crate::touch::GameInput;
use crate::text::{decimal, u64_to_string};
use crate::clock::{current_timestamp, utc_stamp, MAX_STAMP_SECS};

verus! {

/// A single recorded frame containing inputs for both players.
#[derive(Debug, Clone)]
pub struct InputFrame {
    pub p1: Vec<GameInput>,
    pub p2: Vec<GameInput>,
}

/// Game version stamped into recordings.
pub const GAME_VERSION: &'static str = "0.1.0";

/// Most frames one recording keeps: 60 fps for 600 seconds.
pub const MAX_RECORDED_FRAMES: usize = 36000;

/// Header metadata for a recording file.
#[derive(Debug, Clone)]
pub struct RecordingHeader {
    pub game_version: String,
    pub episode_id: String,
    pub timestamp: String,
    pub player_count: u8,
}

/// A complete input recording session.
#[derive(Debug, Clone)]
pub struct Recording {
    pub header: RecordingHeader,
    pub frames: Vec<InputFrame>,
}

/// A copy of `v`.
pub fn copy_inputs(v: &[GameInput]) -> (r: Vec<GameInput>)
    ensures
        r@ == v@,
{
    let mut r: Vec<GameInput> = Vec::new();
    let mut i: usize = 0;
    while i < v.len()
        invariant
            i <= v@.len(),
            r@ == v@.subrange(0, i as int),
        decreases v@.len() - i,
    {
        r.push(v[i]);
        i = i + 1;
        assert(r@ =~= v@.subrange(0, i as int));
    }
    assert(v@.subrange(0, v@.len() as int) =~= v@);
    r
}

impl Recording {
    /// A new, empty recording stamped with the given time.
    pub fn with_timestamp(episode_id: String, player_count: u8, timestamp: String) -> (r: Self)
        ensures
            r.header.game_version@ == GAME_VERSION@,
            r.header.episode_id == episode_id,
            r.header.timestamp == timestamp,
            r.header.player_count == player_count,
            r.frames@.len() == 0,
    {
        Recording {
            header: RecordingHeader {
                game_version: String::from_str(GAME_VERSION),
                episode_id,
                timestamp,
                player_count,
            },
            frames: Vec::new(),
        }
    }

    /// Create a new recording with the given metadata, stamped with the
    /// current time; None when the system clock cannot give one (it reads
    /// before the Unix epoch).
    pub fn new(episode_id: String, player_count: u8) -> (r: Option<Self>)
        ensures
            r matches Some(rec) ==> {
                &&& rec.header.timestamp@.len() > 0
                &&& rec.header.timestamp@.last() == 'Z'
                &&& exists|secs: int| 0 <= secs <= MAX_STAMP_SECS && rec.header.timestamp@ == utc_stamp(secs)
                &&& rec.header.game_version@ == GAME_VERSION@
                &&& rec.header.episode_id == episode_id
                &&& rec.header.player_count == player_count
                &&& rec.frames@.len() == 0
            },
    {
        match current_timestamp() {
            Some(timestamp) => Some(Recording::with_timestamp(episode_id, player_count, timestamp)),
            None => None,
        }
    }

    /// Add a frame to the recording.
    pub fn push_frame(&mut self, frame: InputFrame)
        ensures
            final(self).frames@ == old(self).frames@.push(frame),
            final(self).header == old(self).header,
    {
        self.frames.push(frame);
    }

    /// Total number of frames.
    pub fn len(&self) -> (r: usize)
        ensures
            r == self.frames@.len(),
    {
        self.frames.len()
    }

    /// Whether the recording has no frames.
    pub fn is_empty(&self) -> (r: bool)
        ensures
            r == (self.frames@.len() == 0),
    {
        self.frames.len() == 0
    }
}

/// Records player inputs during a game session, capped at
/// `MAX_RECORDED_FRAMES` frames.
pub struct InputRecorder {
    pub recording: Recording,
    pub max_frames: usize,
}

/// The frames kept after recording `f` onto `frames` with the given cap.
pub open spec fn capped_push(frames: Seq<InputFrame>, f: InputFrame, max_frames: nat) -> Seq<InputFrame> {
    if frames.len() < max_frames {
        frames.push(f)
    } else {
        frames
    }
}

impl InputRecorder {
    /// Create a new recorder and start recording for the given episode;
    /// None when the system clock cannot stamp the recording.
    pub fn start_recording(episode_id: String, player_count: u8) -> (r: Option<Self>)
        ensures
            r matches Some(rec) ==> {
                &&& rec.recording.header.episode_id == episode_id
                &&& rec.recording.header.player_count == player_count
                &&& rec.recording.header.game_version@ == GAME_VERSION@
                &&& rec.recording.header.timestamp@.len() > 0
                &&& rec.recording.header.timestamp@.last() == 'Z'
                &&& rec.recording.frames@.len() == 0
                &&& rec.max_frames == MAX_RECORDED_FRAMES
            },
    {
        match Recording::new(episode_id, player_count) {
            Some(recording) => Some(InputRecorder { recording, max_frames: MAX_RECORDED_FRAMES }),
            None => None,
        }
    }

    /// Record one frame's inputs; frames beyond the cap are dropped.
    pub fn record_frame(&mut self, p1: &[GameInput], p2: &[GameInput])
        ensures
            final(self).max_frames == old(self).max_frames,
            final(self).recording.header == old(self).recording.header,
            old(self).recording.frames@.len() < old(self).max_frames ==> final(self).recording.frames@.len()
                == old(self).recording.frames@.len() + 1 && final(self).recording.frames@.last().p1@ == p1@
                && final(self).recording.frames@.last().p2@ == p2@ && final(self).recording.frames@.drop_last()
                == old(self).recording.frames@,
            old(self).recording.frames@.len() >= old(self).max_frames ==> final(self).recording.frames@
                == old(self).recording.frames@,
    {
        if self.recording.frames.len() < self.max_frames {
            self.recording.push_frame(InputFrame { p1: copy_inputs(p1), p2: copy_inputs(p2) });
            assert(self.recording.frames@.drop_last() =~= old(self).recording.frames@);
        }
    }

    /// Whether recording is active (always, while the recorder exists).
    pub fn is_recording(&self) -> (r: bool)
        ensures
            r,
    {
        true
    }

    /// Stop recording and return the complete recording.
    pub fn stop_recording(self) -> (r: Recording)
        ensures
            r == self.recording,
    {
        self.recording
    }
}

/// Plays back a recorded input session frame by frame.
pub struct InputReplayer {
    pub recording: Recording,
    /// Index of the next frame to play.
    pub current_frame: usize,
}

impl InputReplayer {
    /// Load a recording; playback starts at frame 0.
    pub fn from_recording(recording: Recording) -> (r: Self)
        ensures
            r.recording == recording,
            r.current_frame == 0,
    {
        InputReplayer { recording, current_frame: 0 }
    }

    /// Returns the next frame's inputs and advances, or None once every frame
    /// has been played.
    pub fn next_frame(&mut self) -> (r: Option<(Vec<GameInput>, Vec<GameInput>)>)
        ensures
            final(self).recording == old(self).recording,
            old(self).current_frame >= old(self).recording.frames@.len() ==> r is None
                && final(self).current_frame == old(self).current_frame,
            old(self).current_frame < old(self).recording.frames@.len() ==> final(self).current_frame
                == old(self).current_frame + 1 && match r {
                Some(p) => p.0@ == old(self).recording.frames@[old(self).current_frame as int].p1@ && p.1@
                    == old(self).recording.frames@[old(self).current_frame as int].p2@,
                None => false,
            },
    {
        if self.current_frame >= self.recording.frames.len() {
            return None;
        }
        let frame = &self.recording.frames[self.current_frame];
        let p1 = copy_inputs(frame.p1.as_slice());
        let p2 = copy_inputs(frame.p2.as_slice());
        self.current_frame = self.current_frame + 1;
        Some((p1, p2))
    }

    /// The current frame number (0-indexed).
    pub fn current_frame(&self) -> (r: usize)
        ensures
            r == self.current_frame,
    {
        self.current_frame
    }

    /// Total number of frames in the recording.
    pub fn total_frames(&self) -> (r: usize)
        ensures
            r == self.recording.frames@.len(),
    {
        self.recording.frames.len()
    }

    /// Reset the replayer to frame 0.
    pub fn reset(&mut self)
        ensures
            final(self).current_frame == 0,
            final(self).recording == old(self).recording,
    {
        self.current_frame = 0;
    }

    /// Seek to a frame, clamped to the end of the recording.
    pub fn seek_to(&mut self, frame: usize)
        ensures
            final(self).current_frame == if frame < old(self).recording.frames@.len() {
                frame as int
            } else {
                old(self).recording.frames@.len() as int
            },
            final(self).recording == old(self).recording,
    {
        let n = self.recording.frames.len();
        self.current_frame = if frame < n {
            frame
        } else {
            n
        };
    }

    /// The recording header.
    pub fn header(&self) -> (r: &RecordingHeader)
        ensures
            *r == self.recording.header,
    {
        &self.recording.header
    }
}

/// Result of a single QA assertion check.
#[derive(Debug, Clone, PartialEq, Eq)]
pub enum AssertionResult {
    /// Assertion passed.
    Pass,
    /// Assertion failed with a description.
    Fail(String),
}

/// Frames a player may hold input without moving before it counts as stuck.
pub const STUCK_THRESHOLD: u32 = 300;

/// The failure message for a stuck player.
pub open spec fn stuck_message(player: Seq<char>, frames: u32) -> Seq<char> {
    player + " stuck for "@ + decimal(frames as nat) + " frames with input queued"@
}

fn stuck_failure(player: &str, frames: u32) -> (r: AssertionResult)
    ensures
        match r {
            AssertionResult::Fail(m) => m@ == stuck_message(player@, frames),
            AssertionResult::Pass => false,
        },
{
    let mut m = String::from_str(player);
    m.append(" stuck for ");
    let n = u64_to_string(frames as u64);
    m.append(n.as_str());
    m.append(" frames with input queued");
    AssertionResult::Fail(m)
}

/// No player is deadlocked: a player that has input queued must not have
/// been stuck for `STUCK_THRESHOLD` frames or more. Player 1 is checked first.
pub fn assert_no_player_deadlock(
    player1_has_input: bool,
    player1_stuck_frames: u32,
    player2_has_input: bool,
    player2_stuck_frames: u32,
) -> (r: AssertionResult)
    ensures
        player1_has_input && player1_stuck_frames >= STUCK_THRESHOLD ==> match r {
            AssertionResult::Fail(m) => m@ == stuck_message("P1"@, player1_stuck_frames),
            AssertionResult::Pass => false,
        },
        !(player1_has_input && player1_stuck_frames >= STUCK_THRESHOLD) && player2_has_input
            && player2_stuck_frames >= STUCK_THRESHOLD ==> match r {
            AssertionResult::Fail(m) => m@ == stuck_message("P2"@, player2_stuck_frames),
            AssertionResult::Pass => false,
        },
        !(player1_has_input && player1_stuck_frames >= STUCK_THRESHOLD) && !(player2_has_input
            && player2_stuck_frames >= STUCK_THRESHOLD) ==> r == AssertionResult::Pass,
{
    if player1_has_input && player1_stuck_frames >= STUCK_THRESHOLD {
        return stuck_failure("P1", player1_stuck_frames);
    }
    if player2_has_input && player2_stuck_frames >= STUCK_THRESHOLD {
        return stuck_failure("P2", player2_stuck_frames);
    }
    AssertionResult::Pass
}

/// Bug report format for repro mode.
#[derive(Debug, Clone)]
pub struct BugReport {
    /// Human-readable description of the bug.
    pub reason: String,
    /// Frame number where the bug was detected.
    pub frame: u64,
    /// Range of input frames to replay `[start, end]`.
    pub input_range: [u64; 2],
    /// Optional episode id.
    pub episode_id: Option<String>,
}

/// Result of one QA assertion over a replay session.
#[derive(Debug, Clone)]
pub struct QaAssertionResult {
    pub name: String,
    pub passed: bool,
    pub frame: Option<u64>,
    pub detail: Option<String>,
}

/// QA report over a replay session.
#[derive(Debug, Clone)]
pub struct QaReport {
    pub session_id: String,
    pub total_frames: u64,
    pub assertions: Vec<QaAssertionResult>,
    pub passed: usize,
    pub failed: usize,
}

/// How many of the results `s` passed.
pub open spec fn count_passed(s: Seq<QaAssertionResult>) -> nat
    decreases s.len(),
{
    if s.len() == 0 {
        0
    } else {
        count_passed(s.drop_last()) + if s.last().passed {
            1nat
        } else {
            0nat
        }
    }
}

/// How many of the results `s` failed.
pub open spec fn count_failed(s: Seq<QaAssertionResult>) -> nat
    decreases s.len(),
{
    if s.len() == 0 {
        0
    } else {
        count_failed(s.drop_last()) + if s.last().passed {
            0nat
        } else {
            1nat
        }
    }
}

impl QaReport {
    /// The counters count the recorded results: `passed` those that passed,
    /// `failed` the others, together all of them.
    pub open spec fn counts_agree(&self) -> bool {
        &&& self.passed == count_passed(self.assertions@)
        &&& self.failed == count_failed(self.assertions@)
        &&& self.passed + self.failed == self.assertions@.len()
    }

    /// A new report with no assertions.
    pub fn new(session_id: String, total_frames: u64) -> (r: Self)
        ensures
            r.session_id == session_id,
            r.total_frames == total_frames,
            r.assertions@.len() == 0,
            r.passed == 0,
            r.failed == 0,
            r.counts_agree(),
    {
        QaReport { session_id, total_frames, assertions: Vec::new(), passed: 0, failed: 0 }
    }

    /// Add an assertion result and count it as passed or failed.
    pub fn add_result(&mut self, name: &str, passed: bool, frame: Option<u64>, detail: Option<String>)
        requires
            passed ==> old(self).passed < usize::MAX,
            !passed ==> old(self).failed < usize::MAX,
        ensures
            final(self).session_id == old(self).session_id,
            final(self).total_frames == old(self).total_frames,
            final(self).assertions@.len() == old(self).assertions@.len() + 1,
            final(self).assertions@.drop_last() == old(self).assertions@,
            final(self).assertions@.last().name@ == name@,
            final(self).assertions@.last().passed == passed,
            final(self).assertions@.last().frame == frame,
            final(self).assertions@.last().detail == detail,
            final(self).passed == old(self).passed + if passed {
                1int
            } else {
                0int
            },
            final(self).failed == old(self).failed + if passed {
                0int
            } else {
                1int
            },
            old(self).counts_agree() ==> final(self).counts_agree(),
    {
        self.assertions.push(QaAssertionResult { name: String::from_str(name), passed, frame, detail });
        assert(self.assertions@.drop_last() =~= old(self).assertions@);
        if passed {
            self.passed = self.passed + 1;
        } else {
            self.failed = self.failed + 1;
        }
    }
}

/// The frames kept after recording `frames` in order onto an empty
/// recording with the given cap.
pub open spec fn record_fill(frames: Seq<InputFrame>, max_frames: nat) -> Seq<InputFrame>
    decreases frames.len(),
{
    if frames.len() == 0 {
        Seq::empty()
    } else {
        capped_push(record_fill(frames.drop_last(), max_frames), frames.last(), max_frames)
    }
}

/// One more recorded frame on a recorder that has recorded `frames` since
/// it started (`start_recording` gives no frames and `record_frame` applies
/// `capped_push`): the recording then holds `min(k + 1, max_frames)`
/// frames, with `k` the earlier frames, and while under the cap the new
/// frame is the last one; at the cap nothing changes.
pub proof fn lemma_record_one_more(frames: Seq<InputFrame>, f: InputFrame, max_frames: nat)
    ensures
        record_fill(frames.push(f), max_frames) == capped_push(record_fill(frames, max_frames), f, max_frames),
        record_fill(frames.push(f), max_frames).len() == if frames.len() + 1 <= max_frames {
            frames.len() + 1
        } else {
            max_frames
        },
        frames.len() < max_frames ==> record_fill(frames.push(f), max_frames).last() == f,
        frames.len() >= max_frames ==> record_fill(frames.push(f), max_frames) == record_fill(frames, max_frames),
{
    assert(frames.push(f).drop_last() =~= frames);
    lemma_recording_keeps_first(frames, max_frames);
    lemma_recording_keeps_first(frames.push(f), max_frames);
}

/// A recording keeps the first `max_frames` frames recorded, in order, and
/// drops the rest.
pub proof fn lemma_recording_keeps_first(frames: Seq<InputFrame>, max_frames: nat)
    ensures
        record_fill(frames, max_frames) == if frames.len() <= max_frames {
            frames
        } else {
            frames.take(max_frames as int)
        },
    decreases frames.len(),
{
    if frames.len() > 0 {
        let dl = frames.drop_last();
        lemma_recording_keeps_first(dl, max_frames);
        if dl.len() < max_frames {
            assert(dl.push(frames.last()) =~= frames);
        } else if dl.len() == max_frames {
            assert(dl =~= frames.take(max_frames as int));
        } else {
            assert(dl.take(max_frames as int) =~= frames.take(max_frames as int));
        }
    }
}

} // verus!
