//! Engine-level settings and the frame clock that paces script frames.
//!
//! Times are nanosecond counts on a monotonic clock that the application
//! reads; the clock here only decides each frame's delta and elapsed time.

use vstd::prelude::*;

verus! {

/// Which subsystems log their activity.
#[derive(Clone, Copy, Debug, PartialEq, Eq, Structural)]
pub struct TraceConfig {
    pub script: bool,
    pub scene: bool,
    pub sprites: bool,
    pub assets: bool,
    pub render: bool,
    pub buttons: bool,
    pub input: bool,
    pub text: bool,
    pub actions: bool,
}

impl Default for TraceConfig {
    /// Nothing is traced.
    fn default() -> (t: Self)
        ensures
            !t.script && !t.scene && !t.sprites && !t.assets && !t.render && !t.buttons && !t.input
                && !t.text && !t.actions,
    {
        TraceConfig {
            script: false,
            scene: false,
            sprites: false,
            assets: false,
            render: false,
            buttons: false,
            input: false,
            text: false,
            actions: false,
        }
    }
}

/// The longest step one frame may take: 100 ms.
pub const MAX_PAL_FRAME_DELTA_NS: u64 = 100_000_000;

/// One frame's timing: its number (from 1), its step and the time elapsed
/// since the clock started, up to and including this step.
#[derive(Clone, Copy, Debug, PartialEq, Eq, Structural)]
pub struct FrameTiming {
    pub frame_index: u64,
    pub delta_ns: u64,
    pub elapsed_ns: u64,
}

/// The frame clock: when it started, when the last frame was taken, and how
/// many frames have been taken.
#[derive(Clone, Copy, Debug, PartialEq, Eq, Structural)]
pub struct FrameClock {
    pub start_ns: u64,
    pub previous_ns: u64,
    pub frame_index: u64,
}

/// `a - b`, or 0 when `b` is later.
pub open spec fn since(a: u64, b: u64) -> u64 {
    if a >= b {
        (a - b) as u64
    } else {
        0
    }
}

/// `a + b`, or `u64::MAX` when that overflows.
pub open spec fn sat_add(a: u64, b: u64) -> u64 {
    if a + b > u64::MAX {
        u64::MAX
    } else {
        (a + b) as u64
    }
}

pub open spec fn min_u64(a: u64, b: u64) -> u64 {
    if a <= b {
        a
    } else {
        b
    }
}

impl FrameClock {
    /// A clock started at `now_ns` with no frame taken.
    pub fn new(now_ns: u64) -> (c: Self)
        ensures
            c == (FrameClock { start_ns: now_ns, previous_ns: now_ns, frame_index: 0 }),
    {
        FrameClock { start_ns: now_ns, previous_ns: now_ns, frame_index: 0 }
    }

    /// Takes a frame at `now_ns`: the step is the time since the last frame
    /// (never negative), cut to `max_delta_ns`; the elapsed time is the last
    /// frame's elapsed time plus that step.
    pub fn tick_capped(&mut self, now_ns: u64, max_delta_ns: u64) -> (t: FrameTiming)
        requires
            old(self).frame_index < u64::MAX,
        ensures
            t.frame_index == old(self).frame_index + 1,
            t.delta_ns == min_u64(since(now_ns, old(self).previous_ns), max_delta_ns),
            t.elapsed_ns == sat_add(since(old(self).previous_ns, old(self).start_ns), t.delta_ns),
            *final(self) == (FrameClock {
                previous_ns: now_ns,
                frame_index: t.frame_index,
                ..*old(self)
            }),
    {
        let gap = now_ns.saturating_sub(self.previous_ns);
        let delta = if gap <= max_delta_ns {
            gap
        } else {
            max_delta_ns
        };
        let elapsed = self.previous_ns.saturating_sub(self.start_ns).saturating_add(delta);
        self.previous_ns = now_ns;
        self.frame_index = self.frame_index + 1;
        FrameTiming { frame_index: self.frame_index, delta_ns: delta, elapsed_ns: elapsed }
    }

    /// Takes a frame of a fixed step, cut to 100 ms; the clock then stands
    /// at its start plus the new elapsed time.
    pub fn tick_fixed(&mut self, delta_ns: u64) -> (t: FrameTiming)
        requires
            old(self).frame_index < u64::MAX,
            old(self).start_ns + sat_add(
                since(old(self).previous_ns, old(self).start_ns),
                min_u64(delta_ns, MAX_PAL_FRAME_DELTA_NS),
            ) <= u64::MAX,
        ensures
            t.frame_index == old(self).frame_index + 1,
            t.delta_ns == min_u64(delta_ns, MAX_PAL_FRAME_DELTA_NS),
            t.elapsed_ns == sat_add(since(old(self).previous_ns, old(self).start_ns), t.delta_ns),
            *final(self) == (FrameClock {
                previous_ns: (old(self).start_ns + t.elapsed_ns) as u64,
                frame_index: t.frame_index,
                ..*old(self)
            }),
            (*final(self), t) == fixed_tick(*old(self), delta_ns),
    {
        let delta = if delta_ns <= MAX_PAL_FRAME_DELTA_NS {
            delta_ns
        } else {
            MAX_PAL_FRAME_DELTA_NS
        };
        let elapsed = self.previous_ns.saturating_sub(self.start_ns).saturating_add(delta);
        self.previous_ns = self.start_ns + elapsed;
        self.frame_index = self.frame_index + 1;
        FrameTiming { frame_index: self.frame_index, delta_ns: delta, elapsed_ns: elapsed }
    }
}

/// The clock and timing after a fixed tick of `delta_ns`.
pub open spec fn fixed_tick(c: FrameClock, delta_ns: u64) -> (FrameClock, FrameTiming) {
    let d = min_u64(delta_ns, MAX_PAL_FRAME_DELTA_NS);
    let e = sat_add(since(c.previous_ns, c.start_ns), d);
    (
        FrameClock { previous_ns: (c.start_ns + e) as u64, frame_index: (c.frame_index + 1) as u64, ..c },
        FrameTiming { frame_index: (c.frame_index + 1) as u64, delta_ns: d, elapsed_ns: e },
    )
}

/// With fixed steps the elapsed time is the running sum of the (capped)
/// steps: the second of two fixed ticks reports the first one's elapsed
/// time plus its own step, one frame later.
pub proof fn lemma_fixed_ticks_accumulate(c: FrameClock, d1: u64, d2: u64)
    requires
        c.previous_ns >= c.start_ns,
        c.frame_index + 2 <= u64::MAX,
        c.previous_ns + 2 * MAX_PAL_FRAME_DELTA_NS <= u64::MAX,
    ensures
        fixed_tick(fixed_tick(c, d1).0, d2).1.elapsed_ns == fixed_tick(c, d1).1.elapsed_ns
            + min_u64(d2, MAX_PAL_FRAME_DELTA_NS),
        fixed_tick(fixed_tick(c, d1).0, d2).1.frame_index == fixed_tick(c, d1).1.frame_index + 1,
{
}

} // verus!
