//! The simulation's notion of time.

use vstd::prelude::*;

verus! {

/// A millisecond counter that never runs backwards, together with the length
/// of the current frame in microseconds.
#[derive(Clone, Copy, Debug, PartialEq, Eq, Structural)]
pub struct Clock {
    pub now_ms: u64,
    pub delta_us: u32,
}

impl Clock {
    /// A clock at time zero.
    pub fn new() -> (c: Clock)
        ensures
            c == (Clock { now_ms: 0, delta_us: 0 }),
    {
        Clock { now_ms: 0, delta_us: 0 }
    }

    /// The clock after the host reported `ticks_ms` and a frame of `delta_us`:
    /// a reading that lies in the past leaves the time where it is.
    pub open spec fn spec_advance(self, ticks_ms: u64, delta_us: u32) -> Clock {
        Clock {
            now_ms: if ticks_ms > self.now_ms {
                ticks_ms
            } else {
                self.now_ms
            },
            delta_us,
        }
    }

    /// Takes over the host's tick count and frame length.
    pub fn advance(&mut self, ticks_ms: u64, delta_us: u32)
        ensures
            *final(self) == old(self).spec_advance(ticks_ms, delta_us),
            final(self).now_ms >= old(self).now_ms,
            final(self).now_ms >= ticks_ms,
    {
        if ticks_ms > self.now_ms {
            self.now_ms = ticks_ms;
        }
        self.delta_us = delta_us;
    }

    /// Milliseconds since the host started counting.
    pub fn now_ms(&self) -> (t: u64)
        ensures
            t == self.now_ms,
    {
        self.now_ms
    }

    /// Length of the current frame in microseconds.
    pub fn delta_us(&self) -> (d: u32)
        ensures
            d == self.delta_us,
    {
        self.delta_us
    }
}

} // verus!
