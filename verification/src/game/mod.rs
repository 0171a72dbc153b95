//! The frame clock.

use vstd::prelude::*;

verus! {

/// Microseconds from `since` to `now`; zero where `now` is the earlier of the
/// two.
pub open spec fn elapsed(since: u64, now: u64) -> u64 {
    if now >= since {
        (now - since) as u64
    } else {
        0
    }
}

/// Frame clock. All times are whole microseconds read from one monotonic
/// clock, which the caller samples once per frame.
#[derive(Copy, Clone, Debug, PartialEq, Eq, Structural)]
pub struct GameClock {
    /// When the clock was made.
    pub start_time: u64,
    /// Time from `start_time` to the latest frame.
    pub program_time: u64,
    /// When the latest frame began.
    pub last_frame: u64,
    /// Time between the latest two frames.
    pub delta_time: u64,
}

impl GameClock {
    /// A clock that starts at `now`, before any frame.
    pub fn new(now: u64) -> (clock: GameClock)
        ensures
            clock == (GameClock { start_time: now, program_time: 0, last_frame: now, delta_time: 0 }),
    {
        GameClock { start_time: now, program_time: 0, last_frame: now, delta_time: 0 }
    }

    /// The clock after a frame has begun at `now`: the frame's delta is the
    /// time since the frame before, and the program time is the time since the
    /// start.
    pub open spec fn ticked(self, now: u64) -> GameClock {
        GameClock {
            start_time: self.start_time,
            program_time: elapsed(self.start_time, now),
            last_frame: now,
            delta_time: elapsed(self.last_frame, now),
        }
    }

    /// Begins a frame at `now`.
    pub fn update(&mut self, now: u64)
        ensures
            *final(self) == old(self).ticked(now),
    {
        self.delta_time = if now >= self.last_frame {
            now - self.last_frame
        } else {
            0
        };
        self.last_frame = now;
        self.program_time = if now >= self.start_time {
            now - self.start_time
        } else {
            0
        };
    }
}

/// Frame times add up: while the clock does not run backwards, the time since
/// the start grows from one frame to the next by that frame's delta.
pub proof fn lemma_program_time_accumulates(clock: GameClock, now: u64)
    requires
        clock.program_time == elapsed(clock.start_time, clock.last_frame),
        clock.start_time <= clock.last_frame <= now,
    ensures
        clock.ticked(now).program_time == clock.program_time + clock.ticked(now).delta_time,
{
}

} // verus!
