//! Buffering of telemetry lines: events are numbered by frame and written
//! out in batches of `FLUSH_THRESHOLD` lines, or all at once on a flush.
//! Formatting the lines and the file itself are the caller's.
use vstd::prelude::*;
use crate::text::views;

verus! {

/// Lines held before they are handed out for writing.
pub const FLUSH_THRESHOLD: usize = 64;

/// Pending telemetry lines and the count of events logged.
pub struct TelemetryBuffer {
    /// Lines not yet written, oldest first.
    pub lines: Vec<String>,
    /// Events logged in this session.
    pub frame_count: u64,
}

impl TelemetryBuffer {
    pub fn new() -> (r: Self)
        ensures
            r.lines@.len() == 0,
            r.frame_count == 0,
    {
        TelemetryBuffer { lines: Vec::new(), frame_count: 0 }
    }

    /// Start a new session: the event count restarts at zero; pending lines
    /// are kept.
    pub fn restart_count(&mut self)
        ensures
            final(self).frame_count == 0,
            final(self).lines == old(self).lines,
    {
        self.frame_count = 0;
    }

    /// Count one more event and return its number (the first is 1).
    pub fn next_frame(&mut self) -> (r: u64)
        requires
            old(self).frame_count < u64::MAX,
        ensures
            r == old(self).frame_count + 1,
            final(self).frame_count == r,
            final(self).lines == old(self).lines,
    {
        self.frame_count = self.frame_count + 1;
        self.frame_count
    }

    /// Queue a line. Once `FLUSH_THRESHOLD` lines are pending, all of them
    /// are handed back, oldest first, for writing, and the buffer empties.
    pub fn push(&mut self, line: String) -> (r: Option<Vec<String>>)
        ensures
            final(self).frame_count == old(self).frame_count,
            views(old(self).lines@).len() + 1 >= FLUSH_THRESHOLD ==> r is Some && views(r->0@) == views(
                old(self).lines@,
            ).push(line@) && final(self).lines@.len() == 0,
            views(old(self).lines@).len() + 1 < FLUSH_THRESHOLD ==> r is None && views(final(self).lines@)
                == views(old(self).lines@).push(line@),
    {
        let ghost before = self.lines@;
        self.lines.push(line);
        proof {
            assert(views(self.lines@) =~= views(before).push(line@));
        }
        if self.lines.len() >= FLUSH_THRESHOLD {
            let batch = self.take_all();
            Some(batch)
        } else {
            None
        }
    }

    /// Hand back every pending line, oldest first, and empty the buffer.
    pub fn take_all(&mut self) -> (r: Vec<String>)
        ensures
            r@ == old(self).lines@,
            final(self).lines@.len() == 0,
            final(self).frame_count == old(self).frame_count,
    {
        let mut out: Vec<String> = Vec::new();
        std::mem::swap(&mut out, &mut self.lines);
        out
    }
}

/// No line is lost or reordered: if the lines written so far followed by
/// the pending ones are everything logged, the same holds after one more
/// line is pushed, whether or not that push hands out a batch.
pub proof fn lemma_no_line_lost(
    written: Seq<Seq<char>>,
    pending: Seq<Seq<char>>,
    line: Seq<char>,
    all: Seq<Seq<char>>,
)
    requires
        written + pending == all,
    ensures
        pending.len() + 1 >= FLUSH_THRESHOLD ==> (written + pending.push(line)) + Seq::<Seq<char>>::empty()
            == all.push(line),
        written + pending.push(line) == all.push(line),
{
    assert((written + pending.push(line)) =~= all.push(line));
    assert((written + pending.push(line)) + Seq::<Seq<char>>::empty() =~= all.push(line));
}

} // verus!
