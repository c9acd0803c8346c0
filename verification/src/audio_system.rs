//! The sound channel table: which channels of which group hold a sound,
//! their playback flags and per-channel settings, and the volume mix.
//!
//! Decoding, the audio backend and the playing sounds themselves belong to
//! the application, which performs each playback action this table allows
//! and reports the backend's playback state back.

use vstd::prelude::*;
use crate::audio::{
    clamp_volume, is_known_group, AudioConfig, AudioHandle, PalSoundGroup, PalSoundStatus,
    PalVolume,
};

verus! {

/// Why a channel operation is refused.
#[derive(Clone, Copy, Debug, PartialEq, Eq, Structural)]
pub enum AudioError {
    /// The handle's group is not one of the seven PAL groups.
    InvalidGroup,
    /// The handle's index lies past its group's channels.
    OutsideGroup,
    /// The channel holds no sound.
    NotLoaded,
    /// Every channel of the group holds a sound.
    NoFreeSlot,
}

/// One channel.
#[derive(Clone, Debug)]
pub struct AudioSlot {
    pub name: Option<String>,
    /// A decoded sound is loaded.
    pub loaded: bool,
    /// A playback of the sound is under way (started and not stopped).
    pub started: bool,
    pub looping: bool,
    pub volume: PalVolume,
    pub start_ms: i32,
    pub end_ms: i32,
    pub loop_start_samples: i64,
    pub loop_end_samples: i64,
    pub pan: i32,
    pub frequency: i32,
}

/// An empty channel at full volume.
pub open spec fn empty_slot(s: AudioSlot) -> bool {
    &&& s.name is None
    &&& !s.loaded
    &&& !s.started
    &&& !s.looping
    &&& s.volume.value() == 10000
    &&& s.start_ms == 0
    &&& s.end_ms == 0
    &&& s.loop_start_samples == 0
    &&& s.loop_end_samples == 0
    &&& s.pan == 0
    &&& s.frequency == 0
}

fn new_slot() -> (s: AudioSlot)
    ensures
        empty_slot(s),
{
    AudioSlot {
        name: None,
        loaded: false,
        started: false,
        looping: false,
        volume: PalVolume::max_volume(),
        start_ms: 0,
        end_ms: 0,
        loop_start_samples: 0,
        loop_end_samples: 0,
        pan: 0,
        frequency: 0,
    }
}

/// A channel that was just given a sound: named `name`, stopped, not
/// looping, at full volume, with the given loop points and every other
/// setting cleared.
pub open spec fn freshly_loaded(s: AudioSlot, name: Option<String>, loop_start: i64, loop_end: i64) -> bool {
    &&& s.name == name
    &&& s.loaded
    &&& !s.started
    &&& !s.looping
    &&& s.volume.value() == 10000
    &&& s.start_ms == 0
    &&& s.end_ms == 0
    &&& s.loop_start_samples == loop_start
    &&& s.loop_end_samples == loop_end
    &&& s.pan == 0
    &&& s.frequency == 0
}

/// Where group `g`'s channels start in the channel table.
pub open spec fn group_base(g: u8) -> int {
    if g == 0 {
        0
    } else if g == 1 {
        2
    } else if g == 2 {
        18
    } else if g == 3 {
        26
    } else if g == 4 {
        28
    } else if g == 5 {
        44
    } else {
        108
    }
}

/// How many channels the table holds.
pub const CHANNEL_COUNT: usize = 124;

fn group_base_exec(g: u8) -> (b: usize)
    requires
        g <= 6,
    ensures
        b == group_base(g),
{
    if g == 0 {
        0
    } else if g == 1 {
        2
    } else if g == 2 {
        18
    } else if g == 3 {
        26
    } else if g == 4 {
        28
    } else if g == 5 {
        44
    } else {
        108
    }
}

/// Whether `h` names a channel: a known group, an index inside it.
pub open spec fn valid_handle(h: AudioHandle) -> bool {
    is_known_group(h.group) && h.index < h.group.spec_slot_count()
}

/// The table position of the channel `h` names.
pub open spec fn slot_pos(h: AudioHandle) -> int {
    group_base(h.group.0) + h.index
}

/// The error a handle meets before its channel is looked at.
pub open spec fn handle_error(h: AudioHandle) -> Option<AudioError> {
    if !is_known_group(h.group) {
        Some(AudioError::InvalidGroup)
    } else if h.index >= h.group.spec_slot_count() {
        Some(AudioError::OutsideGroup)
    } else {
        None
    }
}

/// The channel table with its volume settings.
pub struct AudioSystem {
    enabled: bool,
    slots: Vec<AudioSlot>,
    primary_volume: PalVolume,
    group_volumes: Vec<PalVolume>,
}

pub struct AudioSystemView {
    pub enabled: bool,
    pub slots: Seq<AudioSlot>,
    pub primary_volume: PalVolume,
    /// The volume of each group id; every id may hold one.
    pub group_volumes: Seq<PalVolume>,
}

impl View for AudioSystem {
    type V = AudioSystemView;

    closed spec fn view(&self) -> AudioSystemView {
        AudioSystemView {
            enabled: self.enabled,
            slots: self.slots@,
            primary_volume: self.primary_volume,
            group_volumes: self.group_volumes@,
        }
    }
}

/// The mixed volume of a channel: the primary, group and channel volumes
/// multiplied, scaled back to `0..=10000` (each division rounds down).
pub open spec fn mixed_volume(primary: i32, group: i32, channel: i32) -> i32 {
    clamp_volume((primary as int * group as int * channel as int / 10000 / 10000) as i32)
}

impl AudioSystem {
    /// The table is consistent: one entry per channel, one volume per group,
    /// all volumes in range.
    pub open spec fn wf(&self) -> bool {
        &&& self@.slots.len() == CHANNEL_COUNT
        &&& self@.group_volumes.len() == 256
        &&& 0 <= self@.primary_volume.value() <= 10000
        &&& forall|g: int| 0 <= g < 256 ==> 0 <= #[trigger] self@.group_volumes[g].value() <= 10000
        &&& forall|k: int| 0 <= k < CHANNEL_COUNT ==> 0 <= #[trigger] self@.slots[k].volume.value() <= 10000
    }

    /// The channel `h` names (meaningful for a valid handle).
    pub open spec fn slot(&self, h: AudioHandle) -> AudioSlot {
        self@.slots[slot_pos(h)]
    }
}

impl AudioSystem {
    /// A table of empty channels at full volume. Playback is enabled when
    /// the configuration asks for it and the audio backend started.
    pub fn new(config: AudioConfig, backend_ready: bool) -> (a: Self)
        ensures
            a.wf(),
            a@.enabled == (config.enabled && backend_ready),
            a@.primary_volume.value() == 10000,
            forall|g: int| 0 <= g < 256 ==> #[trigger] a@.group_volumes[g].value() == 10000,
            forall|k: int| 0 <= k < CHANNEL_COUNT ==> empty_slot(#[trigger] a@.slots[k]),
    {
        let mut slots: Vec<AudioSlot> = Vec::new();
        let mut k: usize = 0;
        while k < CHANNEL_COUNT
            invariant
                k <= CHANNEL_COUNT,
                slots@.len() == k,
                forall|j: int| 0 <= j < k ==> empty_slot(#[trigger] slots@[j]),
            decreases CHANNEL_COUNT - k,
        {
            slots.push(new_slot());
            k += 1;
        }
        let mut group_volumes: Vec<PalVolume> = Vec::new();
        let mut g: usize = 0;
        while g < 256
            invariant
                g <= 256,
                group_volumes@.len() == g,
                forall|j: int| 0 <= j < g ==> #[trigger] group_volumes@[j].value() == 10000,
            decreases 256 - g,
        {
            group_volumes.push(PalVolume::max_volume());
            g += 1;
        }
        AudioSystem {
            enabled: config.enabled && backend_ready,
            slots,
            primary_volume: PalVolume::max_volume(),
            group_volumes,
        }
    }

    pub fn is_enabled(&self) -> (b: bool)
        ensures
            b == self@.enabled,
    {
        self.enabled
    }

    /// The table position of the channel `h` names.
    fn position(&self, h: AudioHandle) -> (r: Result<usize, AudioError>)
        requires
            self.wf(),
        ensures
            match r {
                Ok(k) => handle_error(h) is None && k == slot_pos(h) && k < CHANNEL_COUNT,
                Err(e) => handle_error(h) == Some(e),
            },
    {
        if h.group.0 > 6 {
            return Err(AudioError::InvalidGroup);
        }
        if h.index >= h.group.slot_count() {
            return Err(AudioError::OutsideGroup);
        }
        Ok(group_base_exec(h.group.0) + h.index)
    }

    /// The first channel of `group` that holds no sound.
    fn find_free_slot(&self, group: PalSoundGroup) -> (r: Result<usize, AudioError>)
        requires
            self.wf(),
        ensures
            match r {
                Ok(i) => is_known_group(group) && i < group.spec_slot_count() && !self.slot(
                    AudioHandle { group, index: i },
                ).loaded && forall|j: int| 0 <= j < i ==> #[trigger] self@.slots[group_base(group.0) + j].loaded,
                Err(e) => e == AudioError::NoFreeSlot && (is_known_group(group) ==> forall|j: int|
                    0 <= j < group.spec_slot_count() ==> #[trigger] self@.slots[group_base(group.0) + j].loaded),
            },
    {
        if group.0 > 6 {
            return Err(AudioError::NoFreeSlot);
        }
        let base = group_base_exec(group.0);
        let count = group.slot_count();
        let mut i: usize = 0;
        while i < count
            invariant
                self.wf(),
                group.0 <= 6,
                base == group_base(group.0),
                count == group.spec_slot_count(),
                i <= count,
                forall|j: int| 0 <= j < i ==> #[trigger] self@.slots[group_base(group.0) + j].loaded,
            decreases count - i,
        {
            if !self.slots[base + i].loaded {
                return Ok(i);
            }
            i += 1;
        }
        Err(AudioError::NoFreeSlot)
    }

    /// Loads a decoded sound into the first free channel of `group`: the
    /// channel gets the name, stopped, not looping, full volume and cleared
    /// settings.
    pub fn load_static_data(&mut self, name: String, group: PalSoundGroup) -> (r: Result<AudioHandle, AudioError>)
        requires
            old(self).wf(),
        ensures
            final(self).wf(),
            match r {
                Ok(h) => h.group == group && valid_handle(h) && !old(self).slot(h).loaded && (forall|j: int|
                    0 <= j < h.index ==> #[trigger] old(self)@.slots[group_base(group.0) + j].loaded)
                    && final(self)@.slots == old(self)@.slots.update(slot_pos(h), final(self).slot(h))
                    && freshly_loaded(final(self).slot(h), Some(name), 0, 0),
                Err(e) => e == AudioError::NoFreeSlot && final(self)@ == old(self)@,
            },
            final(self)@.enabled == old(self)@.enabled,
            final(self)@.primary_volume == old(self)@.primary_volume,
            final(self)@.group_volumes == old(self)@.group_volumes,
    {
        let index = match self.find_free_slot(group) {
            Ok(i) => i,
            Err(e) => {
                return Err(e);
            },
        };
        let k = group_base_exec(group.0) + index;
        let slot = AudioSlot {
            name: Some(name),
            loaded: true,
            started: false,
            looping: false,
            volume: PalVolume::max_volume(),
            start_ms: 0,
            end_ms: 0,
            loop_start_samples: 0,
            loop_end_samples: 0,
            pan: 0,
            frequency: 0,
        };
        self.slots.set(k, slot);
        Ok(AudioHandle { group, index })
    }
}


impl AudioSystem {

    /// Sets a loaded channel's start and end times in milliseconds.
    pub fn set_start_end(&mut self, h: AudioHandle, start_ms: i32, end_ms: i32) -> (r: Result<(), AudioError>)
        requires
            old(self).wf(),
        ensures
            final(self).wf(),
            r is Ok <==> handle_error(h) is None && old(self).slot(h).loaded,
            match r {
                Ok(_) => final(self)@ == (AudioSystemView {
                    slots: old(self)@.slots.update(slot_pos(h), AudioSlot { start_ms, end_ms, ..old(self).slot(h) }),
                    ..old(self)@
                }),
                Err(e) => final(self)@ == old(self)@ && (handle_error(h) == Some(e) || (handle_error(h) is None
                    && !old(self).slot(h).loaded && e == AudioError::NotLoaded)),
            },
    {
        let k = match self.position(h) {
            Ok(k) => k,
            Err(e) => {
                return Err(e);
            },
        };
        if !self.slots[k].loaded {
            return Err(AudioError::NotLoaded);
        }
        let ghost pre = self.slots@;
        let mut slot = self.slots.remove(k);
        slot.start_ms = start_ms;
        slot.end_ms = end_ms;
        self.slots.insert(k, slot);
        assert(self.slots@ =~= pre.update(k as int, slot));
        Ok(())
    }

    /// Sets a loaded channel's loop points (PCM sample indices, as `BGM.CSV` gives them).
    pub fn set_loop_samples(&mut self, h: AudioHandle, loop_start_samples: i64, loop_end_samples: i64) -> (r: Result<(), AudioError>)
        requires
            old(self).wf(),
        ensures
            final(self).wf(),
            r is Ok <==> handle_error(h) is None && old(self).slot(h).loaded,
            match r {
                Ok(_) => final(self)@ == (AudioSystemView {
                    slots: old(self)@.slots.update(slot_pos(h), AudioSlot { loop_start_samples, loop_end_samples, ..old(self).slot(h) }),
                    ..old(self)@
                }),
                Err(e) => final(self)@ == old(self)@ && (handle_error(h) == Some(e) || (handle_error(h) is None
                    && !old(self).slot(h).loaded && e == AudioError::NotLoaded)),
            },
    {
        let k = match self.position(h) {
            Ok(k) => k,
            Err(e) => {
                return Err(e);
            },
        };
        if !self.slots[k].loaded {
            return Err(AudioError::NotLoaded);
        }
        let ghost pre = self.slots@;
        let mut slot = self.slots.remove(k);
        slot.loop_start_samples = loop_start_samples;
        slot.loop_end_samples = loop_end_samples;
        self.slots.insert(k, slot);
        assert(self.slots@ =~= pre.update(k as int, slot));
        Ok(())
    }

    /// Sets a loaded channel's pan.
    pub fn set_channel_pan(&mut self, h: AudioHandle, pan: i32) -> (r: Result<(), AudioError>)
        requires
            old(self).wf(),
        ensures
            final(self).wf(),
            r is Ok <==> handle_error(h) is None && old(self).slot(h).loaded,
            match r {
                Ok(_) => final(self)@ == (AudioSystemView {
                    slots: old(self)@.slots.update(slot_pos(h), AudioSlot { pan, ..old(self).slot(h) }),
                    ..old(self)@
                }),
                Err(e) => final(self)@ == old(self)@ && (handle_error(h) == Some(e) || (handle_error(h) is None
                    && !old(self).slot(h).loaded && e == AudioError::NotLoaded)),
            },
    {
        let k = match self.position(h) {
            Ok(k) => k,
            Err(e) => {
                return Err(e);
            },
        };
        if !self.slots[k].loaded {
            return Err(AudioError::NotLoaded);
        }
        let ghost pre = self.slots@;
        let mut slot = self.slots.remove(k);
        slot.pan = pan;
        self.slots.insert(k, slot);
        assert(self.slots@ =~= pre.update(k as int, slot));
        Ok(())
    }

    /// Sets a loaded channel's playback frequency.
    pub fn set_channel_frequency(&mut self, h: AudioHandle, frequency: i32) -> (r: Result<(), AudioError>)
        requires
            old(self).wf(),
        ensures
            final(self).wf(),
            r is Ok <==> handle_error(h) is None && old(self).slot(h).loaded,
            match r {
                Ok(_) => final(self)@ == (AudioSystemView {
                    slots: old(self)@.slots.update(slot_pos(h), AudioSlot { frequency, ..old(self).slot(h) }),
                    ..old(self)@
                }),
                Err(e) => final(self)@ == old(self)@ && (handle_error(h) == Some(e) || (handle_error(h) is None
                    && !old(self).slot(h).loaded && e == AudioError::NotLoaded)),
            },
    {
        let k = match self.position(h) {
            Ok(k) => k,
            Err(e) => {
                return Err(e);
            },
        };
        if !self.slots[k].loaded {
            return Err(AudioError::NotLoaded);
        }
        let ghost pre = self.slots@;
        let mut slot = self.slots.remove(k);
        slot.frequency = frequency;
        self.slots.insert(k, slot);
        assert(self.slots@ =~= pre.update(k as int, slot));
        Ok(())
    }

    /// Ends the channel's playback, if any; the sound stays loaded.
    pub fn stop(&mut self, h: AudioHandle) -> (r: Result<(), AudioError>)
        requires
            old(self).wf(),
        ensures
            final(self).wf(),
            r is Ok <==> handle_error(h) is None,
            match r {
                Ok(_) => final(self)@ == (AudioSystemView {
                    slots: old(self)@.slots.update(slot_pos(h), AudioSlot { started: false, ..old(self).slot(h) }),
                    ..old(self)@
                }),
                Err(e) => final(self)@ == old(self)@ && handle_error(h) == Some(e),
            },
    {
        let k = match self.position(h) {
            Ok(k) => k,
            Err(e) => {
                return Err(e);
            },
        };
        let ghost pre = self.slots@;
        let mut slot = self.slots.remove(k);
        slot.started = false;
        self.slots.insert(k, slot);
        assert(self.slots@ =~= pre.update(k as int, slot));
        Ok(())
    }

    /// Records that the channel's sound now plays, looping or once.
    pub fn mark_playing(&mut self, h: AudioHandle, looping: bool) -> (r: Result<(), AudioError>)
        requires
            old(self).wf(),
        ensures
            final(self).wf(),
            r is Ok <==> handle_error(h) is None && old(self).slot(h).loaded,
            match r {
                Ok(_) => final(self)@ == (AudioSystemView {
                    slots: old(self)@.slots.update(slot_pos(h), AudioSlot { started: true, looping, ..old(self).slot(h) }),
                    ..old(self)@
                }),
                Err(e) => final(self)@ == old(self)@ && (handle_error(h) == Some(e) || (handle_error(h) is None
                    && !old(self).slot(h).loaded && e == AudioError::NotLoaded)),
            },
    {
        let k = match self.position(h) {
            Ok(k) => k,
            Err(e) => {
                return Err(e);
            },
        };
        if !self.slots[k].loaded {
            return Err(AudioError::NotLoaded);
        }
        let ghost pre = self.slots@;
        let mut slot = self.slots.remove(k);
        slot.started = true;
        slot.looping = looping;
        self.slots.insert(k, slot);
        assert(self.slots@ =~= pre.update(k as int, slot));
        Ok(())
    }
}

/// The playback state the audio backend reports for a playing sound.
#[derive(Clone, Copy, Debug, PartialEq, Eq, Structural)]
pub enum PlaybackPhase {
    Playing,
    Pausing,
    Paused,
    WaitingToResume,
    Resuming,
    Stopping,
    Stopped,
}

/// The status scripts see for a channel whose sound was started and whose
/// playback is in `phase`.
pub open spec fn status_of_phase(phase: PlaybackPhase) -> PalSoundStatus {
    match phase {
        PlaybackPhase::Playing => PalSoundStatus::Playing,
        PlaybackPhase::Pausing | PlaybackPhase::Paused | PlaybackPhase::WaitingToResume
        | PlaybackPhase::Resuming => PalSoundStatus::Paused,
        PlaybackPhase::Stopping | PlaybackPhase::Stopped => PalSoundStatus::Stopped,
    }
}

/// How many channels among `slots[base..base + n]` hold a sound.
pub open spec fn loaded_count(slots: Seq<AudioSlot>, base: int, n: int) -> nat
    decreases n,
{
    if n <= 0 {
        0
    } else {
        loaded_count(slots, base, n - 1) + if slots[base + n - 1].loaded {
            1nat
        } else {
            0nat
        }
    }
}

proof fn lemma_loaded_count_bound(slots: Seq<AudioSlot>, base: int, n: int)
    requires
        0 <= n,
    ensures
        loaded_count(slots, base, n) <= n,
    decreases n,
{
    if n > 0 {
        lemma_loaded_count_bound(slots, base, n - 1);
    }
}

/// The channels of a known group, or none.
pub open spec fn group_len(group: PalSoundGroup) -> int {
    if is_known_group(group) {
        group.spec_slot_count() as int
    } else {
        0
    }
}

impl AudioSystem {
    /// Whether the channel's sound may be started: `Ok(false)` while
    /// playback is disabled, `Ok(true)` for a loaded channel.
    pub fn play_request(&self, h: AudioHandle) -> (r: Result<bool, AudioError>)
        requires
            self.wf(),
        ensures
            !self@.enabled ==> r == Ok::<bool, AudioError>(false),
            self@.enabled ==> match r {
                Ok(b) => b && handle_error(h) is None && self.slot(h).loaded,
                Err(e) => handle_error(h) == Some(e) || (handle_error(h) is None && !self.slot(h).loaded
                    && e == AudioError::NotLoaded),
            },
    {
        if !self.enabled {
            return Ok(false);
        }
        let k = match self.position(h) {
            Ok(k) => k,
            Err(e) => {
                return Err(e);
            },
        };
        if !self.slots[k].loaded {
            return Err(AudioError::NotLoaded);
        }
        Ok(true)
    }

    /// Pausing a channel only needs a valid handle; the backend pauses the
    /// sound, and the channel keeps its state.
    pub fn pause(&self, h: AudioHandle) -> (r: Result<(), AudioError>)
        requires
            self.wf(),
        ensures
            match r {
                Ok(_) => handle_error(h) is None,
                Err(e) => handle_error(h) == Some(e),
            },
    {
        match self.position(h) {
            Ok(_) => Ok(()),
            Err(e) => Err(e),
        }
    }

    /// Resuming a channel only needs a valid handle; the backend resumes
    /// the sound, and the channel keeps its state.
    pub fn resume(&self, h: AudioHandle) -> (r: Result<(), AudioError>)
        requires
            self.wf(),
        ensures
            match r {
                Ok(_) => handle_error(h) is None,
                Err(e) => handle_error(h) == Some(e),
            },
    {
        match self.position(h) {
            Ok(_) => Ok(()),
            Err(e) => Err(e),
        }
    }

    /// Whether the channel's sound plays: it was started and the backend
    /// reports `phase` as playing.
    pub fn is_playing(&self, h: AudioHandle, phase: PlaybackPhase) -> (r: Result<bool, AudioError>)
        requires
            self.wf(),
        ensures
            match r {
                Ok(b) => handle_error(h) is None && b == (self.slot(h).started && phase
                    == PlaybackPhase::Playing),
                Err(e) => handle_error(h) == Some(e),
            },
    {
        let k = match self.position(h) {
            Ok(k) => k,
            Err(e) => {
                return Err(e);
            },
        };
        Ok(self.slots[k].started && phase == PlaybackPhase::Playing)
    }

    /// Stops the channel and empties it.
    pub fn release(&mut self, h: AudioHandle) -> (r: Result<(), AudioError>)
        requires
            old(self).wf(),
        ensures
            final(self).wf(),
            match r {
                Ok(_) => handle_error(h) is None && final(self)@.slots.len() == old(self)@.slots.len()
                    && empty_slot(final(self).slot(h)) && (forall|k: int| 0 <= k < CHANNEL_COUNT && k != slot_pos(h) ==> #[trigger] final(self)@.slots[k] == old(self)@.slots[k])
                    && final(self)@.enabled == old(self)@.enabled && final(self)@.primary_volume == old(
                    self,
                )@.primary_volume && final(self)@.group_volumes == old(self)@.group_volumes,
                Err(e) => handle_error(h) == Some(e) && final(self)@ == old(self)@,
            },
    {
        let k = match self.position(h) {
            Ok(k) => k,
            Err(e) => {
                return Err(e);
            },
        };
        self.slots.set(k, new_slot());
        Ok(())
    }

    /// Empties every channel of `group` (none for an unknown group).
    pub fn release_group(&mut self, group: PalSoundGroup) -> (r: Result<(), AudioError>)
        requires
            old(self).wf(),
        ensures
            final(self).wf(),
            r is Ok,
            forall|i: int| 0 <= i < group_len(group) ==> empty_slot(#[trigger] final(self)@.slots[group_base(group.0) + i]),
            forall|k: int| 0 <= k < CHANNEL_COUNT && !(group_base(group.0) <= k < group_base(group.0) + group_len(group))
                ==> #[trigger] final(self)@.slots[k] == old(self)@.slots[k],
            final(self)@.enabled == old(self)@.enabled,
            final(self)@.primary_volume == old(self)@.primary_volume,
            final(self)@.group_volumes == old(self)@.group_volumes,
    {
        if group.0 > 6 {
            return Ok(());
        }
        let base = group_base_exec(group.0);
        let count = group.slot_count();
        let mut i: usize = 0;
        while i < count
            invariant
                self.wf(),
                group.0 <= 6,
                base == group_base(group.0),
                count == group.spec_slot_count(),
                i <= count,
                forall|j: int| 0 <= j < i ==> empty_slot(#[trigger] self@.slots[group_base(group.0) + j]),
                forall|k: int| 0 <= k < CHANNEL_COUNT && !(group_base(group.0) <= k < group_base(group.0) + i)
                    ==> #[trigger] self@.slots[k] == old(self)@.slots[k],
                self@.enabled == old(self)@.enabled,
                self@.primary_volume == old(self)@.primary_volume,
                self@.group_volumes == old(self)@.group_volumes,
            decreases count - i,
        {
            self.slots.set(base + i, new_slot());
            i += 1;
        }
        Ok(())
    }

    /// Sets the primary volume, clamped to `0..=10000`.
    pub fn set_primary_volume(&mut self, volume: PalVolume)
        requires
            old(self).wf(),
        ensures
            final(self).wf(),
            final(self)@.primary_volume.value() == clamp_volume(volume.value()),
            final(self)@.slots == old(self)@.slots,
            final(self)@.group_volumes == old(self)@.group_volumes,
            final(self)@.enabled == old(self)@.enabled,
    {
        self.primary_volume = volume.clamped();
    }

    pub fn primary_volume(&self) -> (v: PalVolume)
        ensures
            v == self@.primary_volume,
    {
        self.primary_volume
    }

    /// Sets a group's volume, clamped to `0..=10000`; any group id keeps one.
    pub fn set_group_volume(&mut self, group: PalSoundGroup, volume: PalVolume)
        requires
            old(self).wf(),
        ensures
            final(self).wf(),
            final(self)@.group_volumes.len() == 256,
            final(self)@.group_volumes[group.0 as int].value() == clamp_volume(volume.value()),
            forall|g: int| 0 <= g < 256 && g != group.0 ==> #[trigger] final(self)@.group_volumes[g]
                == old(self)@.group_volumes[g],
            final(self)@.slots == old(self)@.slots,
            final(self)@.primary_volume == old(self)@.primary_volume,
            final(self)@.enabled == old(self)@.enabled,
    {
        self.group_volumes.set(group.0 as usize, volume.clamped());
    }

    /// A group's volume (full volume until one is set).
    pub fn group_volume(&self, group: PalSoundGroup) -> (v: PalVolume)
        requires
            self.wf(),
        ensures
            v == self@.group_volumes[group.0 as int],
    {
        self.group_volumes[group.0 as usize]
    }

    /// Sets a channel's volume, clamped to `0..=10000`.
    pub fn set_channel_volume(&mut self, h: AudioHandle, volume: PalVolume) -> (r: Result<(), AudioError>)
        requires
            old(self).wf(),
        ensures
            final(self).wf(),
            match r {
                Ok(_) => handle_error(h) is None && final(self)@.slots.len() == CHANNEL_COUNT
                    && final(self).slot(h).volume.value() == clamp_volume(volume.value()),
                Err(e) => handle_error(h) == Some(e) && final(self)@ == old(self)@,
            },
    {
        let k = match self.position(h) {
            Ok(k) => k,
            Err(e) => {
                return Err(e);
            },
        };
        let ghost pre = self.slots@;
        let mut slot = self.slots.remove(k);
        slot.volume = volume.clamped();
        self.slots.insert(k, slot);
        assert(self.slots@ =~= pre.update(k as int, slot));
        Ok(())
    }

    /// A channel's volume.
    pub fn channel_volume(&self, h: AudioHandle) -> (r: Result<PalVolume, AudioError>)
        requires
            self.wf(),
        ensures
            match r {
                Ok(v) => handle_error(h) is None && v == self.slot(h).volume,
                Err(e) => handle_error(h) == Some(e),
            },
    {
        let k = match self.position(h) {
            Ok(k) => k,
            Err(e) => {
                return Err(e);
            },
        };
        Ok(self.slots[k].volume)
    }

    /// The volume a channel plays at: primary, group and channel volume
    /// multiplied and scaled back to `0..=10000`.
    pub fn effective_volume(&self, h: AudioHandle) -> (r: Result<PalVolume, AudioError>)
        requires
            self.wf(),
        ensures
            match r {
                Ok(v) => handle_error(h) is None && v.value() == mixed_volume(
                    self@.primary_volume.value(),
                    self@.group_volumes[h.group.0 as int].value(),
                    self.slot(h).volume.value(),
                ),
                Err(e) => handle_error(h) == Some(e),
            },
    {
        let k = match self.position(h) {
            Ok(k) => k,
            Err(e) => {
                return Err(e);
            },
        };
        let p = self.primary_volume.raw() as i64;
        let g = self.group_volumes[h.group.0 as usize].raw() as i64;
        let c = self.slots[k].volume.raw() as i64;
        assert(p * g <= 10000 * 10000) by (nonlinear_arith)
            requires
                0 <= p <= 10000,
                0 <= g <= 10000,
        ;
        assert(p * g * c <= 10000 * 10000 * 10000) by (nonlinear_arith)
            requires
                0 <= p * g <= 10000 * 10000,
                0 <= c <= 10000,
        ;
        assert(0 <= p * g * c) by (nonlinear_arith)
            requires
                0 <= p,
                0 <= g,
                0 <= c,
        ;
        let mixed = p * g * c / 10000 / 10000;
        Ok(PalVolume::from_raw(mixed as i32))
    }
}

impl AudioSystem {

    /// A loaded channel's start and end times.
    pub fn start_end(&self, h: AudioHandle) -> (r: Result<(i32, i32), AudioError>)
        requires
            self.wf(),
        ensures
            match r {
                Ok(v) => handle_error(h) is None && self.slot(h).loaded && v == (self.slot(h).start_ms, self.slot(h).end_ms),
                Err(e) => handle_error(h) == Some(e) || (handle_error(h) is None && !self.slot(h).loaded
                    && e == AudioError::NotLoaded),
            },
    {
        let k = match self.position(h) {
            Ok(k) => k,
            Err(e) => {
                return Err(e);
            },
        };
        if !self.slots[k].loaded {
            return Err(AudioError::NotLoaded);
        }
        Ok((self.slots[k].start_ms, self.slots[k].end_ms))
    }

    /// A loaded channel's loop points.
    pub fn loop_samples(&self, h: AudioHandle) -> (r: Result<(i64, i64), AudioError>)
        requires
            self.wf(),
        ensures
            match r {
                Ok(v) => handle_error(h) is None && self.slot(h).loaded && v == (self.slot(h).loop_start_samples, self.slot(h).loop_end_samples),
                Err(e) => handle_error(h) == Some(e) || (handle_error(h) is None && !self.slot(h).loaded
                    && e == AudioError::NotLoaded),
            },
    {
        let k = match self.position(h) {
            Ok(k) => k,
            Err(e) => {
                return Err(e);
            },
        };
        if !self.slots[k].loaded {
            return Err(AudioError::NotLoaded);
        }
        Ok((self.slots[k].loop_start_samples, self.slots[k].loop_end_samples))
    }

    /// A loaded channel's pan.
    pub fn channel_pan(&self, h: AudioHandle) -> (r: Result<i32, AudioError>)
        requires
            self.wf(),
        ensures
            match r {
                Ok(v) => handle_error(h) is None && self.slot(h).loaded && v == self.slot(h).pan,
                Err(e) => handle_error(h) == Some(e) || (handle_error(h) is None && !self.slot(h).loaded
                    && e == AudioError::NotLoaded),
            },
    {
        let k = match self.position(h) {
            Ok(k) => k,
            Err(e) => {
                return Err(e);
            },
        };
        if !self.slots[k].loaded {
            return Err(AudioError::NotLoaded);
        }
        Ok(self.slots[k].pan)
    }

    /// A loaded channel's frequency.
    pub fn channel_frequency(&self, h: AudioHandle) -> (r: Result<i32, AudioError>)
        requires
            self.wf(),
        ensures
            match r {
                Ok(v) => handle_error(h) is None && self.slot(h).loaded && v == self.slot(h).frequency,
                Err(e) => handle_error(h) == Some(e) || (handle_error(h) is None && !self.slot(h).loaded
                    && e == AudioError::NotLoaded),
            },
    {
        let k = match self.position(h) {
            Ok(k) => k,
            Err(e) => {
                return Err(e);
            },
        };
        if !self.slots[k].loaded {
            return Err(AudioError::NotLoaded);
        }
        Ok(self.slots[k].frequency)
    }

    /// Channel parameter `param` of channel `index` of `group` for scripts:
    /// 0 loaded, 1 started, 2 looping (each 1 or 0), 3 start and 4 end time;
    /// 0 for anything else or a channel that does not exist.
    pub fn sound_param(&self, group: PalSoundGroup, index: usize, param: usize) -> (v: i32)
        requires
            self.wf(),
        ensures
            v == (if handle_error(AudioHandle { group, index }) is Some {
                0
            } else {
                let s = self.slot(AudioHandle { group, index });
                if param == 0 {
                    if s.loaded { 1 } else { 0 }
                } else if param == 1 {
                    if s.started { 1 } else { 0 }
                } else if param == 2 {
                    if s.looping { 1 } else { 0 }
                } else if param == 3 {
                    s.start_ms
                } else if param == 4 {
                    s.end_ms
                } else {
                    0
                }
            }),
    {
        let k = match self.position(AudioHandle { group, index }) {
            Ok(k) => k,
            Err(_) => {
                return 0;
            },
        };
        let s = &self.slots[k];
        if param == 0 {
            if s.loaded { 1 } else { 0 }
        } else if param == 1 {
            if s.started { 1 } else { 0 }
        } else if param == 2 {
            if s.looping { 1 } else { 0 }
        } else if param == 3 {
            s.start_ms
        } else if param == 4 {
            s.end_ms
        } else {
            0
        }
    }

    /// The status scripts see: free without a sound, loaded while not
    /// started, else what the backend's playback `phase` maps to.
    pub fn sound_status(&self, h: AudioHandle, phase: PlaybackPhase) -> (r: Result<PalSoundStatus, AudioError>)
        requires
            self.wf(),
        ensures
            match r {
                Ok(st) => handle_error(h) is None && st == (if !self.slot(h).loaded {
                    PalSoundStatus::Free
                } else if self.slot(h).started {
                    status_of_phase(phase)
                } else {
                    PalSoundStatus::Loaded
                }),
                Err(e) => handle_error(h) == Some(e),
            },
    {
        let k = match self.position(h) {
            Ok(k) => k,
            Err(e) => {
                return Err(e);
            },
        };
        if !self.slots[k].loaded {
            return Ok(PalSoundStatus::Free);
        }
        if self.slots[k].started {
            return Ok(match phase {
                PlaybackPhase::Playing => PalSoundStatus::Playing,
                PlaybackPhase::Pausing | PlaybackPhase::Paused | PlaybackPhase::WaitingToResume
                | PlaybackPhase::Resuming => PalSoundStatus::Paused,
                PlaybackPhase::Stopping | PlaybackPhase::Stopped => PalSoundStatus::Stopped,
            });
        }
        Ok(PalSoundStatus::Loaded)
    }

    /// Forgets the playback of a channel whose sound the backend reports
    /// stopped.
    pub fn finish_if_stopped(&mut self, h: AudioHandle, phase: PlaybackPhase) -> (r: Result<(), AudioError>)
        requires
            old(self).wf(),
        ensures
            final(self).wf(),
            match r {
                Ok(_) => handle_error(h) is None && final(self)@ == (if phase == PlaybackPhase::Stopped && old(self).slot(h).started {
                    AudioSystemView {
                        slots: old(self)@.slots.update(slot_pos(h), AudioSlot { started: false, ..old(self).slot(h) }),
                        ..old(self)@
                    }
                } else {
                    old(self)@
                }),
                Err(e) => handle_error(h) == Some(e) && final(self)@ == old(self)@,
            },
    {
        let k = match self.position(h) {
            Ok(k) => k,
            Err(e) => {
                return Err(e);
            },
        };
        if phase == PlaybackPhase::Stopped && self.slots[k].started {
            let ghost pre = self.slots@;
            let mut slot = self.slots.remove(k);
            slot.started = false;
            self.slots.insert(k, slot);
            assert(self.slots@ =~= pre.update(k as int, slot));
        }
        Ok(())
    }

    /// How many channels of `group` hold a sound (0 for an unknown group).
    pub fn loaded_channel_count(&self, group: PalSoundGroup) -> (n: usize)
        requires
            self.wf(),
        ensures
            n == loaded_count(self@.slots, group_base(group.0), group_len(group)),
    {
        if group.0 > 6 {
            return 0;
        }
        let base = group_base_exec(group.0);
        let count = group.slot_count();
        let mut n: usize = 0;
        let mut i: usize = 0;
        while i < count
            invariant
                self.wf(),
                group.0 <= 6,
                base == group_base(group.0),
                count == group.spec_slot_count(),
                i <= count,
                n == loaded_count(self@.slots, base as int, i as int),
                n <= i,
            decreases count - i,
        {
            if self.slots[base + i].loaded {
                n = n + 1;
            }
            i += 1;
        }
        n
    }

    /// How many channels of `group` hold no sound (0 for an unknown group).
    pub fn free_channel_count(&self, group: PalSoundGroup) -> (n: usize)
        requires
            self.wf(),
        ensures
            n == group_len(group) - loaded_count(self@.slots, group_base(group.0), group_len(group)),
    {
        if group.0 > 6 {
            return 0;
        }
        let loaded = self.loaded_channel_count(group);
        proof {
            lemma_loaded_count_bound(self@.slots, group_base(group.0), group_len(group));
        }
        group.slot_count() - loaded
    }

    /// How many channels of the handle's group hold a sound.
    pub fn loaded_channel_count_for_handle(&self, h: AudioHandle) -> (n: usize)
        requires
            self.wf(),
        ensures
            n == loaded_count(self@.slots, group_base(h.group.0), group_len(h.group)),
    {
        self.loaded_channel_count(h.group)
    }

    /// How many channels `group` has.
    pub fn group_channel_count(&self, group: PalSoundGroup) -> (n: usize)
        ensures
            n == group.spec_slot_count(),
    {
        group.slot_count()
    }

    /// Loads a copy of a loaded channel's sound into the first free channel
    /// of `target_group`, keeping its name and loop points.
    pub fn copy_sound(&mut self, source: AudioHandle, target_group: PalSoundGroup) -> (r: Result<AudioHandle, AudioError>)
        requires
            old(self).wf(),
        ensures
            final(self).wf(),
            final(self)@.enabled == old(self)@.enabled,
            final(self)@.primary_volume == old(self)@.primary_volume,
            final(self)@.group_volumes == old(self)@.group_volumes,
            match r {
                Ok(h) => handle_error(source) is None && old(self).slot(source).loaded && h.group == target_group
                    && valid_handle(h) && !old(self).slot(h).loaded && (forall|j: int|
                    0 <= j < h.index ==> #[trigger] old(self)@.slots[group_base(target_group.0) + j].loaded)
                    && final(self)@.slots == old(self)@.slots.update(slot_pos(h), final(self).slot(h))
                    && freshly_loaded(
                    final(self).slot(h),
                    old(self).slot(source).name,
                    old(self).slot(source).loop_start_samples,
                    old(self).slot(source).loop_end_samples,
                ),
                Err(e) => final(self)@ == old(self)@ && (handle_error(source) == Some(e) || (handle_error(source) is None
                    && (!old(self).slot(source).loaded && e == AudioError::NotLoaded || old(self).slot(source).loaded
                    && e == AudioError::NoFreeSlot))),
            },
    {
        let src = match self.position(source) {
            Ok(k) => k,
            Err(e) => {
                return Err(e);
            },
        };
        if !self.slots[src].loaded {
            return Err(AudioError::NotLoaded);
        }
        let name = self.slots[src].name.clone();
        let loop_start = self.slots[src].loop_start_samples;
        let loop_end = self.slots[src].loop_end_samples;
        let index = match self.find_free_slot(target_group) {
            Ok(i) => i,
            Err(e) => {
                return Err(e);
            },
        };
        let k = group_base_exec(target_group.0) + index;
        let slot = AudioSlot {
            name,
            loaded: true,
            started: false,
            looping: false,
            volume: PalVolume::max_volume(),
            start_ms: 0,
            end_ms: 0,
            loop_start_samples: loop_start,
            loop_end_samples: loop_end,
            pan: 0,
            frequency: 0,
        };
        self.slots.set(k, slot);
        Ok(AudioHandle { group: target_group, index })
    }
}

/// The mix never exceeds any of its three volumes, and at full primary and
/// group volume a channel plays at its own volume.
pub proof fn lemma_mixed_volume_bounds(p: i32, g: i32, c: i32)
    requires
        0 <= p <= 10000,
        0 <= g <= 10000,
        0 <= c <= 10000,
    ensures
        0 <= mixed_volume(p, g, c) <= c,
        mixed_volume(p, g, c) <= p,
        mixed_volume(p, g, c) <= g,
        mixed_volume(10000, 10000, c) == c,
{
    assert(p as int * g as int * c as int / 10000 / 10000 <= c) by (nonlinear_arith)
        requires
            0 <= p <= 10000,
            0 <= g <= 10000,
            0 <= c <= 10000,
    ;
    assert(p as int * g as int * c as int / 10000 / 10000 <= p) by (nonlinear_arith)
        requires
            0 <= p <= 10000,
            0 <= g <= 10000,
            0 <= c <= 10000,
    ;
    assert(p as int * g as int * c as int / 10000 / 10000 <= g) by (nonlinear_arith)
        requires
            0 <= p <= 10000,
            0 <= g <= 10000,
            0 <= c <= 10000,
    ;
    assert(0 <= p as int * g as int * c as int / 10000 / 10000) by (nonlinear_arith)
        requires
            0 <= p,
            0 <= g,
            0 <= c,
    ;
    assert(10000int * 10000 * c as int / 10000 / 10000 == c as int) by (nonlinear_arith);
}

/// The part of a sound that loops: from a sample position to another one,
/// or to the end of the audio when `end_samples` is `None`.
#[derive(Clone, Copy, Debug, PartialEq, Eq, Structural)]
pub struct LoopRegion {
    pub start_samples: usize,
    pub end_samples: Option<usize>,
}

/// The loop region of a sound: none unless it loops; the sample points when
/// the end lies after a non-negative start (and both fit the platform's
/// sizes); else the whole sound.
pub open spec fn spec_loop_region_for(looping: bool, loop_start_samples: i64, loop_end_samples: i64) -> Option<LoopRegion> {
    if !looping {
        None
    } else if loop_end_samples > loop_start_samples && loop_start_samples >= 0 {
        Some(LoopRegion { start_samples: loop_start_samples as usize, end_samples: Some(loop_end_samples as usize) })
    } else {
        Some(LoopRegion { start_samples: 0, end_samples: None })
    }
}

pub fn loop_region_for(looping: bool, loop_start_samples: i64, loop_end_samples: i64) -> (r: Option<LoopRegion>)
    ensures
        r == spec_loop_region_for(looping, loop_start_samples, loop_end_samples),
{
    if !looping {
        return None;
    }
    if loop_end_samples > loop_start_samples && loop_start_samples >= 0 {
        Some(LoopRegion {
            start_samples: loop_start_samples as usize,
            end_samples: Some(loop_end_samples as usize),
        })
    } else {
        Some(LoopRegion { start_samples: 0, end_samples: None })
    }
}

/// How many of the first `n` channels of a group at `base` were started and
/// play according to `phases` (one backend phase per channel).
pub open spec fn playing_count(slots: Seq<AudioSlot>, base: int, phases: Seq<PlaybackPhase>, n: int) -> nat
    decreases n,
{
    if n <= 0 {
        0
    } else {
        playing_count(slots, base, phases, n - 1) + if slots[base + n - 1].started && phases[n - 1]
            == PlaybackPhase::Playing {
            1nat
        } else {
            0nat
        }
    }
}

impl AudioSystem {
    /// How many channels of `group` play, given the backend's phase for each
    /// of its channels in order (0 for an unknown group).
    pub fn now_channel_count(&self, group: PalSoundGroup, phases: &Vec<PlaybackPhase>) -> (n: usize)
        requires
            self.wf(),
            phases@.len() >= group_len(group),
        ensures
            n == playing_count(self@.slots, group_base(group.0), phases@, group_len(group)),
    {
        if group.0 > 6 {
            return 0;
        }
        let base = group_base_exec(group.0);
        let count = group.slot_count();
        let mut n: usize = 0;
        let mut i: usize = 0;
        while i < count
            invariant
                self.wf(),
                group.0 <= 6,
                base == group_base(group.0),
                count == group.spec_slot_count(),
                phases@.len() >= count,
                i <= count,
                n == playing_count(self@.slots, base as int, phases@, i as int),
                n <= i,
            decreases count - i,
        {
            if self.slots[base + i].started && phases[i] == PlaybackPhase::Playing {
                n = n + 1;
            }
            i += 1;
        }
        n
    }
}

} // verus!
