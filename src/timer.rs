//! Frame timing: counts frames and the time they took, and hands back a
//! summary every couple of seconds.
use vstd::prelude::*;
use std::time::Instant;

verus! {

/// std's monotonic clock reading, carried opaque.
#[verifier::external_type_specification]
#[verifier::external_body]
pub struct ExInstant(std::time::Instant);

/// Relies on `Instant::now`: a reading of the monotonic clock, of which
/// nothing is known in advance.
pub assume_specification[ std::time::Instant::now ]() -> std::time::Instant;

/// Relies on `Instant::elapsed`: the time since the instant, saturating at
/// zero, of which nothing is known in advance.
pub assume_specification[ std::time::Instant::elapsed ](i: &std::time::Instant) -> core::time::Duration;

/// Relies on `Duration::as_micros`: the whole microseconds of a duration.
pub assume_specification[ core::time::Duration::as_micros ](d: &core::time::Duration) -> u128;

/// Frames are summarised once more than this many microseconds have passed.
pub const REPORT_MICROS: u128 = 2_000_000;

/// The frames counted since the last summary and the time they took.
#[derive(Clone, Copy, PartialEq, Eq, Structural, Debug)]
pub struct FrameStats {
    pub frame_count: i32,
    pub micro_seconds: u128,
}

pub struct FrameTimer {
    pub frame_count: i32,
    pub micro_seconds: u128,
    pub last: Instant,
}

/// The frame count after one more frame, held at `i32::MAX`.
pub open spec fn count_one_more(frames: i32) -> i32 {
    if frames < i32::MAX {
        (frames + 1) as i32
    } else {
        frames
    }
}

/// `a + b`, held at `u128::MAX`.
pub open spec fn sat_add_u128(a: u128, b: u128) -> u128 {
    if a + b > u128::MAX {
        u128::MAX
    } else {
        (a + b) as u128
    }
}

impl FrameTimer {
    /// A timer with nothing counted, started now.
    pub fn new() -> (t: FrameTimer)
        ensures
            t.frame_count == 0,
            t.micro_seconds == 0,
    {
        FrameTimer { frame_count: 0, micro_seconds: 0, last: Instant::now() }
    }

    /// Counts one frame that ended at `now`, `elapsed` microseconds after the
    /// previous one. Once the time counted passes [`REPORT_MICROS`] the
    /// counts are handed back and start again from zero.
    pub fn record(&mut self, now: Instant, elapsed: u128) -> (r: Option<FrameStats>)
        ensures
            ({
                let frames = count_one_more(old(self).frame_count);
                let micros = sat_add_u128(old(self).micro_seconds, elapsed);
                if micros > REPORT_MICROS {
                    &&& r == Some(FrameStats { frame_count: frames, micro_seconds: micros })
                    &&& final(self).frame_count == 0
                    &&& final(self).micro_seconds == 0
                } else {
                    &&& r is None
                    &&& final(self).frame_count == frames
                    &&& final(self).micro_seconds == micros
                }
            }),
            final(self).last == now,
    {
        self.micro_seconds = self.micro_seconds.saturating_add(elapsed);
        self.last = now;
        if self.frame_count < i32::MAX {
            self.frame_count = self.frame_count + 1;
        }
        if self.micro_seconds > REPORT_MICROS {
            Some(self.reset())
        } else {
            None
        }
    }

    /// Counts the frame that ends now; see [`FrameTimer::record`].
    pub fn update(&mut self) -> (r: Option<FrameStats>)
        ensures
            ({
                let frames = count_one_more(old(self).frame_count);
                match r {
                    Some(s) => {
                        &&& s.frame_count == frames
                        &&& s.micro_seconds >= old(self).micro_seconds
                        &&& s.micro_seconds > REPORT_MICROS
                        &&& final(self).frame_count == 0
                        &&& final(self).micro_seconds == 0
                    },
                    None => {
                        &&& final(self).frame_count == frames
                        &&& old(self).micro_seconds <= final(self).micro_seconds <= REPORT_MICROS
                    },
                }
            }),
    {
        let now = Instant::now();
        let elapsed = self.last.elapsed().as_micros();
        self.record(now, elapsed)
    }

    /// Hands back the counts and starts again from zero.
    pub fn reset(&mut self) -> (r: FrameStats)
        ensures
            r == (FrameStats {
                frame_count: old(self).frame_count,
                micro_seconds: old(self).micro_seconds,
            }),
            final(self).frame_count == 0,
            final(self).micro_seconds == 0,
            final(self).last == old(self).last,
    {
        let r = FrameStats { frame_count: self.frame_count, micro_seconds: self.micro_seconds };
        self.micro_seconds = 0;
        self.frame_count = 0;
        r
    }
}

} // verus!
