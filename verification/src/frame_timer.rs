//! A frame timer over a native millisecond tick counter.
//!
//! The native layer reads the tick counter (milliseconds since the window
//! system started) and hands the values in; the timer computes the elapsed
//! time of the previous stop/start cycle. The first frame's delta is zero by
//! construction, and a wrapped tick counter is handled modulo the counter's
//! range rather than by failing.

use vstd::prelude::*;

verus! {

/// The milliseconds elapsed from tick `start` to tick `stop` on a counter
/// that wraps at 2^32.
pub open spec fn elapsed_ms(start: u32, stop: u32) -> u32 {
    if stop >= start {
        (stop - start) as u32
    } else {
        ((stop + 0x1_0000_0000 - start)) as u32
    }
}

/// Measures the wall-clock time between frame boundaries from native tick
/// readings. `delta` is valid after one full start/stop cycle.
pub struct FrameTimer {
    pub frame_time: u32,
    pub start: u32,
    pub stop: u32,
}

impl FrameTimer {
    /// A fresh timer; the first frame's delta is zero.
    pub fn new() -> (r: FrameTimer)
        ensures
            r.frame_time == 0,
            r.start == 0,
            r.stop == 0,
    {
        FrameTimer { frame_time: 0, start: 0, stop: 0 }
    }

    /// Marks a frame start at tick `now_ms`: records the elapsed time of the
    /// previous stop/start pair and begins a new measurement.
    pub fn time_start(&mut self, now_ms: u32)
        ensures
            final(self).frame_time == elapsed_ms(old(self).start, old(self).stop),
            final(self).start == now_ms,
            final(self).stop == old(self).stop,
    {
        self.frame_time = if self.stop >= self.start {
            self.stop - self.start
        } else {
            (((self.stop as u64) + 0x1_0000_0000 - (self.start as u64))) as u32
        };
        self.start = now_ms;
    }

    /// Marks a frame stop at tick `now_ms`.
    pub fn time_stop(&mut self, now_ms: u32)
        ensures
            final(self).stop == now_ms,
            final(self).start == old(self).start,
            final(self).frame_time == old(self).frame_time,
    {
        self.stop = now_ms;
    }

    /// The last recorded frame time, in milliseconds.
    pub fn delta(&self) -> (r: u32)
        ensures
            r == self.frame_time,
    {
        self.frame_time
    }
}

} // verus!
