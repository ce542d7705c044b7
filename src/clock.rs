use vstd::prelude::*;

verus! {

/// The timestamp of the previous frame, used to measure how long a frame took.
///
/// Timestamps are monotonic readings in nanoseconds; the clock itself never
/// reads the time, the caller hands each reading in.
pub struct FrameClock {
    pub last_frame: Option<u64>,
}

/// The delta time owed to a frame that starts at `now`, given the previous
/// frame's start: zero for the first frame, and the elapsed interval after that,
/// floored at zero should a reading go backwards.
pub open spec fn frame_delta(last_frame: Option<u64>, now: u64) -> u64 {
    match last_frame {
        None => 0,
        Some(last) => if now >= last { (now - last) as u64 } else { 0 },
    }
}

impl FrameClock {
    /// A clock that has seen no frame yet.
    pub fn new() -> (r: FrameClock)
        ensures
            r.last_frame is None,
    {
        FrameClock { last_frame: None }
    }

    /// Starts a frame at `now`: returns the delta time since the previous frame
    /// start and records `now` as the new previous frame start.
    pub fn tick(&mut self, now: u64) -> (delta: u64)
        ensures
            delta == frame_delta(old(self).last_frame, now),
            final(self).last_frame == Some(now),
    {
        let delta: u64 = match self.last_frame {
            None => 0,
            Some(last) => if now >= last { now - last } else { 0 },
        };
        self.last_frame = Some(now);
        delta
    }
}

} // verus!
