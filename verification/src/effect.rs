//! Script-driven screen effects: one scene transition at a time, a colour
//! flash and a screen shake, each with a start time and a duration in
//! milliseconds on a wrapping 32-bit clock.
//!
//! The overlay colours and the decaying shake span are floating point and
//! are drawn by the application from the state kept here.

use vstd::prelude::*;

verus! {

/// A running scene transition.
#[derive(Clone, Copy, Debug, Eq, PartialEq, Structural)]
pub struct PalEffectState {
    pub effect_id: u32,
    pub duration_ms: u32,
    pub arg: i32,
    pub wait: bool,
    pub start_ms: u32,
    pub state: i32,
}

/// A colour flash: the colour as bytes clamped to `0..=255` (the drawn unit
/// colour is each byte over 255), with its timing.
#[derive(Clone, Copy, Debug, Eq, PartialEq, Structural)]
pub struct PalFlashState {
    pub red: u8,
    pub green: u8,
    pub blue: u8,
    pub duration_ms: u32,
    pub start_ms: u32,
}

/// A screen-shake request.
#[derive(Clone, Copy, Debug, Eq, PartialEq, Structural)]
pub struct PalShakeState {
    pub x_amp: i32,
    pub y_amp: i32,
    pub duration_ms: u32,
    pub phase: i32,
    pub start_ms: u32,
}

/// The effect channels of a [`PalEffectSystem`].
pub struct PalEffectView {
    pub enabled: bool,
    pub active: Option<PalEffectState>,
    pub flash: Option<PalFlashState>,
    pub shake: Option<PalShakeState>,
}

#[derive(Clone, Debug)]
pub struct PalEffectSystem {
    enabled: bool,
    active: Option<PalEffectState>,
    flash: Option<PalFlashState>,
    shake: Option<PalShakeState>,
}

impl View for PalEffectSystem {
    type V = PalEffectView;

    closed spec fn view(&self) -> PalEffectView {
        PalEffectView {
            enabled: self.enabled,
            active: self.active,
            flash: self.flash,
            shake: self.shake,
        }
    }
}

/// Milliseconds from `start` to `now` on the wrapping 32-bit clock.
pub open spec fn elapsed_ms(now: u32, start: u32) -> int {
    if now >= start {
        now - start
    } else {
        now - start + 0x1_0000_0000
    }
}

/// A timer that started at `start` and lasts `duration` has run out at `now`.
pub open spec fn timer_expired(now: u32, start: u32, duration: u32) -> bool {
    elapsed_ms(now, start) >= duration
}

/// A duration of zero counts as one millisecond.
pub open spec fn at_least_one(duration: u32) -> u32 {
    if duration == 0 {
        1
    } else {
        duration
    }
}

/// `value` clamped to a colour byte.
pub open spec fn color_byte(value: i32) -> u8 {
    if value < 0 {
        0
    } else if value > 255 {
        255
    } else {
        value as u8
    }
}

/// The effect channels after `tick(now)`: every timer that ran out is gone.
pub open spec fn ticked(s: PalEffectView, now: u32) -> PalEffectView {
    PalEffectView {
        enabled: s.enabled,
        active: if s.active matches Some(a) && timer_expired(now, a.start_ms, a.duration_ms) {
            None
        } else {
            s.active
        },
        flash: if s.flash matches Some(f) && timer_expired(now, f.start_ms, f.duration_ms) {
            None
        } else {
            s.flash
        },
        shake: if s.shake matches Some(k) && timer_expired(now, k.start_ms, k.duration_ms) {
            None
        } else {
            s.shake
        },
    }
}

/// The effect channels after `stop_selected(flags)`: bit 0 ends the
/// transition, bit 2 the shake, bits 3 and 4 the flash.
pub open spec fn stopped(s: PalEffectView, flags: i32) -> PalEffectView {
    PalEffectView {
        enabled: s.enabled,
        active: if flags & 1 != 0 {
            None
        } else {
            s.active
        },
        flash: if flags & 8 != 0 || flags & 0x10 != 0 {
            None
        } else {
            s.flash
        },
        shake: if flags & 4 != 0 {
            None
        } else {
            s.shake
        },
    }
}

/// What `effect_ex` answers: 1 when disabled or for id 0 (no-op), 0 for an id
/// above 0x31 or while a transition runs, 1 when a transition starts.
pub open spec fn effect_ex_result(s: PalEffectView, effect_id: u32) -> i32 {
    if !s.enabled || effect_id == 0 {
        1
    } else if effect_id > 0x31 || s.active is Some {
        0
    } else {
        1
    }
}

/// Whether `effect_ex` starts a new transition.
pub open spec fn effect_ex_starts(s: PalEffectView, effect_id: u32) -> bool {
    s.enabled && effect_id != 0 && effect_id <= 0x31 && s.active is None
}

/// The effect channels after `effect_ex`.
pub open spec fn after_effect_ex(
    s: PalEffectView,
    effect_id: u32,
    duration_ms: u32,
    arg: i32,
    wait: bool,
    now_ms: u32,
) -> PalEffectView {
    if effect_ex_starts(s, effect_id) {
        PalEffectView {
            active: Some(
                PalEffectState {
                    effect_id,
                    duration_ms: at_least_one(duration_ms),
                    arg,
                    wait,
                    start_ms: now_ms,
                    state: 1,
                },
            ),
            ..s
        }
    } else {
        s
    }
}

impl PalEffectSystem {
    /// Enabled, with no transition, flash or shake.
    pub fn new() -> (e: Self)
        ensures
            e@.enabled,
            e@.active is None,
            e@.flash is None,
            e@.shake is None,
    {
        PalEffectSystem { enabled: true, active: None, flash: None, shake: None }
    }

    pub fn set_enabled(&mut self, enabled: bool)
        ensures
            final(self)@ == (PalEffectView { enabled, ..old(self)@ }),
    {
        self.enabled = enabled;
    }

    pub fn enabled(&self) -> (b: bool)
        ensures
            b == self@.enabled,
    {
        self.enabled
    }

    /// Whether a scene transition is running.
    pub fn active(&self) -> (b: bool)
        ensures
            b == self@.active is Some,
    {
        self.active.is_some()
    }

    /// Finishes the selected channels at once: bit 0 the transition, bit 2
    /// the shake, bit 3 or 4 the flash.
    pub fn stop_selected(&mut self, flags: i32)
        ensures
            final(self)@ == stopped(old(self)@, flags),
    {
        if (flags & 1) != 0 {
            self.active = None;
        }
        if (flags & 4) != 0 {
            self.shake = None;
        }
        if (flags & 8) != 0 || (flags & 0x10) != 0 {
            self.flash = None;
        }
    }

    /// `PalEffectEx(id, duration, arg, wait)`: id 0 is a no-op, an id above
    /// 0x31 fails, and so does a request while a transition runs.
    pub fn effect_ex(&mut self, effect_id: u32, duration_ms: u32, arg: i32, wait: bool, now_ms: u32) -> (r: i32)
        ensures
            r == effect_ex_result(old(self)@, effect_id),
            final(self)@ == after_effect_ex(old(self)@, effect_id, duration_ms, arg, wait, now_ms),
    {
        if !self.enabled || effect_id == 0 {
            return 1;
        }
        if effect_id > 0x31 || self.active.is_some() {
            return 0;
        }
        let duration = if duration_ms == 0 {
            1
        } else {
            duration_ms
        };
        self.active = Some(
            PalEffectState { effect_id, duration_ms: duration, arg, wait, start_ms: now_ms, state: 1 },
        );
        1
    }

    /// `PalEffect(id, duration)`: `effect_ex` with argument 0 and waiting.
    pub fn effect(&mut self, effect_id: u32, duration_ms: u32, now_ms: u32) -> (r: i32)
        ensures
            r == effect_ex_result(old(self)@, effect_id),
            final(self)@ == after_effect_ex(old(self)@, effect_id, duration_ms, 0, true, now_ms),
    {
        self.effect_ex(effect_id, duration_ms, 0, true, now_ms)
    }

    /// Drops every channel whose timer has run out at `now_ms`.
    pub fn tick(&mut self, now_ms: u32)
        ensures
            final(self)@ == ticked(old(self)@, now_ms),
    {
        if let Some(active) = self.active {
            if now_ms.wrapping_sub(active.start_ms) >= active.duration_ms {
                self.active = None;
            }
        }
        self.tick_flash_and_shake(now_ms);
    }

    fn tick_flash_and_shake(&mut self, now_ms: u32)
        ensures
            final(self)@.enabled == old(self)@.enabled,
            final(self)@.active == old(self)@.active,
            final(self)@.flash == ticked(old(self)@, now_ms).flash,
            final(self)@.shake == ticked(old(self)@, now_ms).shake,
    {
        if let Some(flash) = self.flash {
            if now_ms.wrapping_sub(flash.start_ms) >= flash.duration_ms {
                self.flash = None;
            }
        }
        if let Some(shake) = self.shake {
            if now_ms.wrapping_sub(shake.start_ms) >= shake.duration_ms {
                self.shake = None;
            }
        }
    }

    /// Starts a full-screen flash of colour `(r, g, b)`, each clamped to a
    /// byte; nothing happens while effects are disabled.
    pub fn flash_color(&mut self, r: i32, g: i32, b: i32, duration_ms: u32, now_ms: u32)
        ensures
            final(self)@ == (if old(self)@.enabled {
                PalEffectView {
                    flash: Some(
                        PalFlashState {
                            red: color_byte(r),
                            green: color_byte(g),
                            blue: color_byte(b),
                            duration_ms: at_least_one(duration_ms),
                            start_ms: now_ms,
                        },
                    ),
                    ..old(self)@
                }
            } else {
                old(self)@
            }),
    {
        if !self.enabled {
            return;
        }
        let red = clamp_color_byte(r);
        let green = clamp_color_byte(g);
        let blue = clamp_color_byte(b);
        let duration = if duration_ms == 0 {
            1
        } else {
            duration_ms
        };
        self.flash = Some(PalFlashState { red, green, blue, duration_ms: duration, start_ms: now_ms });
    }

    /// Stores a screen-shake request; nothing happens while effects are
    /// disabled or for the duration `u32::MAX`.
    pub fn set_shake(&mut self, x_amp: i32, y_amp: i32, duration_ms: u32, phase: i32, now_ms: u32)
        ensures
            final(self)@ == (if old(self)@.enabled && duration_ms != u32::MAX {
                PalEffectView {
                    shake: Some(
                        PalShakeState {
                            x_amp,
                            y_amp,
                            duration_ms: at_least_one(duration_ms),
                            phase,
                            start_ms: now_ms,
                        },
                    ),
                    ..old(self)@
                }
            } else {
                old(self)@
            }),
    {
        if !self.enabled || duration_ms == u32::MAX {
            return;
        }
        let duration = if duration_ms == 0 {
            1
        } else {
            duration_ms
        };
        self.shake = Some(
            PalShakeState { x_amp, y_amp, duration_ms: duration, phase, start_ms: now_ms },
        );
    }

    /// The running transition, if any.
    pub fn state(&self) -> (s: Option<PalEffectState>)
        ensures
            s == self@.active,
    {
        self.active
    }

    /// The current flash, if any.
    pub fn flash(&self) -> (f: Option<PalFlashState>)
        ensures
            f == self@.flash,
    {
        self.flash
    }

    /// The current shake, if any.
    pub fn shake(&self) -> (k: Option<PalShakeState>)
        ensures
            k == self@.shake,
    {
        self.shake
    }
}

impl Default for PalEffectSystem {
    fn default() -> (e: Self)
        ensures
            e@.enabled,
            e@.active is None,
            e@.flash is None,
            e@.shake is None,
    {
        Self::new()
    }
}

/// `value` clamped to `0..=255`.
pub fn clamp_color_byte(value: i32) -> (b: u8)
    ensures
        b == color_byte(value),
{
    if value < 0 {
        0
    } else if value > 255 {
        255
    } else {
        value as u8
    }
}

/// One round of the shake hash: xor-shift and multiply steps on 32 bits.
pub open spec fn shake_hash(seed: u32) -> u32 {
    let h1 = seed ^ (seed >> 16u32);
    let h2 = h1.wrapping_mul(0x7FEB_352Du32);
    let h3 = h2 ^ (h2 >> 15u32);
    let h4 = h3.wrapping_mul(0x846C_A68Bu32);
    h4 ^ (h4 >> 16u32)
}

/// A displacement in `-span..=span` drawn from `seed`: the hash of the seed
/// modulo `2 * span + 1`, shifted down by `span`; 0 when `span` is 0.
pub fn shake_sample(seed: u32, span: i32) -> (d: i32)
    requires
        span >= 0,
    ensures
        d == (if span == 0 {
            0
        } else {
            (shake_hash(seed) as int % (2 * span + 1)) - span
        }),
        -span <= d <= span,
{
    if span == 0 {
        return 0;
    }
    let mut hash = seed;
    hash = hash ^ (hash >> 16u32);
    hash = hash.wrapping_mul(0x7FEB_352D);
    hash = hash ^ (hash >> 15u32);
    hash = hash.wrapping_mul(0x846C_A68B);
    hash = hash ^ (hash >> 16u32);
    let width = span as u64 * 2 + 1;
    let m = hash as u64 % width;
    (m as i64 - span as i64) as i32
}

// ---------------------------------------------------------------- laws

/// While a transition runs, a new request with a valid id is refused and
/// changes nothing.
pub proof fn lemma_effect_refused_while_active(
    s: PalEffectView,
    effect_id: u32,
    duration_ms: u32,
    arg: i32,
    wait: bool,
    now_ms: u32,
)
    requires
        s.enabled,
        s.active is Some,
        1 <= effect_id <= 0x31,
    ensures
        effect_ex_result(s, effect_id) == 0,
        after_effect_ex(s, effect_id, duration_ms, arg, wait, now_ms) == s,
{
}

/// A started transition is gone once its duration has elapsed, and still
/// runs one millisecond before.
pub proof fn lemma_transition_ends_after_duration(
    s: PalEffectView,
    effect_id: u32,
    duration_ms: u32,
    arg: i32,
    wait: bool,
    now_ms: u32,
    later: u32,
)
    requires
        effect_ex_starts(s, effect_id),
    ensures
        elapsed_ms(later, now_ms) >= at_least_one(duration_ms) ==> ticked(
            after_effect_ex(s, effect_id, duration_ms, arg, wait, now_ms),
            later,
        ).active is None,
        elapsed_ms(later, now_ms) < at_least_one(duration_ms) ==> ticked(
            after_effect_ex(s, effect_id, duration_ms, arg, wait, now_ms),
            later,
        ).active is Some,
{
}

/// Ticking twice at the same instant is the same as ticking once.
pub proof fn lemma_tick_idempotent(s: PalEffectView, now: u32)
    ensures
        ticked(ticked(s, now), now) == ticked(s, now),
{
}

/// Stopping with bits 0, 2 and 3 set leaves no channel running, and the
/// enabled flag is never touched.
pub proof fn lemma_stop_all(s: PalEffectView, flags: i32)
    ensures
        stopped(s, flags).enabled == s.enabled,
        (flags & 0xD) == 0xD ==> stopped(s, flags).active is None && stopped(s, flags).flash is None
            && stopped(s, flags).shake is None,
{
    if (flags & 0xD) == 0xD {
        assert(flags & 1 != 0 && flags & 4 != 0 && flags & 8 != 0) by (bit_vector)
            requires
                (flags & 0xD) == 0xD,
        ;
    }
}

} // verus!
