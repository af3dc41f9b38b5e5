//! Light performance counters (frames drawn and skipped, pointer moves), reported once a
//! second when `KIOSKWM_PERF` is set. The program keeps one `Counters` behind a lock.

use vstd::prelude::*;

verus! {

/// Event counts since the last report.
pub struct Counters {
    pub frames_rendered: u64,
    pub frames_skipped: u64,
    pub pointer_moves: u64,
}

/// One more event: the count wraps around at `u64::MAX`, as an atomic `fetch_add` does.
pub open spec fn bump(n: u64) -> u64 {
    if n == u64::MAX {
        0
    } else {
        (n + 1) as u64
    }
}

fn bumped(n: u64) -> (r: u64)
    ensures
        r == bump(n),
{
    if n == u64::MAX {
        0
    } else {
        n + 1
    }
}

impl Counters {
    /// All counts at zero.
    pub fn new() -> (r: Self)
        ensures
            r.frames_rendered == 0,
            r.frames_skipped == 0,
            r.pointer_moves == 0,
    {
        Counters { frames_rendered: 0, frames_skipped: 0, pointer_moves: 0 }
    }

    pub fn record_frame_rendered(&mut self)
        ensures
            *final(self) == (Counters { frames_rendered: bump(old(self).frames_rendered), ..*old(self) }),
    {
        self.frames_rendered = bumped(self.frames_rendered);
    }

    pub fn record_frame_skipped(&mut self)
        ensures
            *final(self) == (Counters { frames_skipped: bump(old(self).frames_skipped), ..*old(self) }),
    {
        self.frames_skipped = bumped(self.frames_skipped);
    }

    pub fn record_pointer_move(&mut self)
        ensures
            *final(self) == (Counters { pointer_moves: bump(old(self).pointer_moves), ..*old(self) }),
    {
        self.pointer_moves = bumped(self.pointer_moves);
    }

    /// Takes the counts (frames rendered, frames skipped, pointer moves) and resets them.
    pub fn take(&mut self) -> (r: (u64, u64, u64))
        ensures
            r == (old(self).frames_rendered, old(self).frames_skipped, old(self).pointer_moves),
            final(self).frames_rendered == 0,
            final(self).frames_skipped == 0,
            final(self).pointer_moves == 0,
    {
        let r = (self.frames_rendered, self.frames_skipped, self.pointer_moves);
        self.frames_rendered = 0;
        self.frames_skipped = 0;
        self.pointer_moves = 0;
        r
    }
}

/// A report is due once a full second has passed since the last one.
pub fn report_due(elapsed_ms: u64) -> (r: bool)
    ensures
        r == (elapsed_ms >= 1000),
{
    elapsed_ms >= 1000
}

} // verus!
