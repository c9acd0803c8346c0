//! Movie sprites: the bookkeeping of decoded video sprites (handles, play,
//! lock and loop state, the script-visible state bits), the loop decisions
//! taken at each decoded frame, and the integer YUV 4:2:0 to RGBA colour
//! conversion.
//!
//! Decoding the video streams is the application's part: it pulls frames
//! from its decoders and hands their timestamps and pixels to this state.

use vstd::prelude::*;

verus! {

/// Script state bit: the sprite is playing.
pub const MSPRITE_STATE_PLAYING: u32 = 0x0000_0001;

/// Script state bit: the sprite is locked on its current frame.
pub const MSPRITE_STATE_LOCKED: u32 = 0x0000_0002;

/// Script state bit: playback has finished.
pub const MSPRITE_STATE_FINISHED: u32 = 0x0000_0004;

/// Script state bit: the sprite loops.
pub const MSPRITE_STATE_LOOP: u32 = 0x8000_0000;

#[derive(Clone, Copy, Debug, Eq, PartialEq, Ord, PartialOrd, Hash, Structural)]
pub struct MSpriteHandle(pub u32);

/// What to do with a decoded frame once its timestamp is known.
#[derive(Clone, Copy, Debug, Eq, PartialEq, Structural)]
pub enum MovieLoopAction {
    Present,
    Restart,
    Finish,
}

/// A negative loop point counts as 0.
pub open spec fn loop_point(v: i32) -> u32 {
    if v < 0 {
        0
    } else {
        v as u32
    }
}

pub open spec fn spec_movie_loop_at_frame(pts_ms: u32, loop_mode: i32, loop_start: i32, loop_end: i32) -> MovieLoopAction {
    let start = loop_point(loop_start);
    let end = loop_point(loop_end);
    if end > start && pts_ms >= end {
        if loop_mode != 0 {
            MovieLoopAction::Restart
        } else {
            MovieLoopAction::Finish
        }
    } else {
        MovieLoopAction::Present
    }
}

/// A frame at or past a loop end that lies after the loop start restarts the
/// loop when looping and finishes playback otherwise; every other frame is
/// presented.
pub fn movie_loop_at_frame(pts_ms: u32, loop_mode: i32, loop_start: i32, loop_end: i32) -> (a: MovieLoopAction)
    ensures
        a == spec_movie_loop_at_frame(pts_ms, loop_mode, loop_start, loop_end),
{
    let start: u32 = if loop_start < 0 {
        0
    } else {
        loop_start as u32
    };
    let end: u32 = if loop_end < 0 {
        0
    } else {
        loop_end as u32
    };
    if end > start && pts_ms >= end {
        if loop_mode != 0 {
            MovieLoopAction::Restart
        } else {
            MovieLoopAction::Finish
        }
    } else {
        MovieLoopAction::Present
    }
}

/// A frame before a positive loop start is decoded but not shown.
pub fn frame_inside_preroll(pts_ms: u32, loop_start: i32) -> (b: bool)
    ensures
        b == (loop_point(loop_start) > 0 && pts_ms < loop_point(loop_start)),
{
    let start: u32 = if loop_start < 0 {
        0
    } else {
        loop_start as u32
    };
    start > 0 && pts_ms < start
}

/// How many restarts one advance allows before playback is finished.
pub const MAX_RESTARTS_PER_ADVANCE: u32 = 32;

/// How many preroll frames one advance skips before playback is finished.
pub const MAX_PREROLL_SKIPS: u32 = 4000;

/// The restart count after one more restart, or `None` when the sprite
/// must finish instead: it does not loop, or it already restarted
/// `MAX_RESTARTS_PER_ADVANCE` times during this advance.
pub fn next_restart(loop_mode: i32, restarts: u32) -> (r: Option<u32>)
    ensures
        r == (if loop_mode == 0 || restarts >= MAX_RESTARTS_PER_ADVANCE {
            None
        } else {
            Some((restarts + 1) as u32)
        }),
{
    if loop_mode == 0 {
        return None;
    }
    if restarts >= MAX_RESTARTS_PER_ADVANCE {
        return None;
    }
    Some(restarts + 1)
}

/// One movie sprite.
#[derive(Clone, Debug)]
pub struct MSpriteEntry {
    pub handle: MSpriteHandle,
    pub name: String,
    pub width: u32,
    pub height: u32,
    pub rgba: Vec<u8>,
    pub pts_ms: u32,
    pub playing: bool,
    pub locked: bool,
    pub loop_mode: i32,
    pub loop_start: i32,
    pub loop_end: i32,
    pub finished: bool,
    pub state_bits: u32,
}

/// A sprite just registered.
#[derive(Clone, Debug)]
pub struct LoadedMSprite {
    pub handle: MSpriteHandle,
    pub width: u32,
    pub height: u32,
    pub rgba: Vec<u8>,
    pub name: String,
}

/// A new frame shown by a sprite during an advance.
#[derive(Clone, Debug)]
pub struct MSpriteFrameUpdate {
    pub handle: MSpriteHandle,
    pub width: u32,
    pub height: u32,
    pub rgba: Vec<u8>,
    pub source_name: String,
}

/// The full-screen movie bound to a sprite.
#[derive(Clone, Debug)]
pub struct MoviePlayback {
    pub name: String,
    pub layer: i32,
    pub playing: bool,
    pub elapsed_ms: u32,
    pub handle: Option<MSpriteHandle>,
}

pub struct MSpriteView {
    pub next_handle: u32,
    pub entries: Map<MSpriteHandle, MSpriteEntry>,
    pub movie: Option<MoviePlayback>,
}

pub struct MSpriteSystem {
    next_handle: u32,
    entries: Vec<MSpriteEntry>,
    movie: Option<MoviePlayback>,
}

impl Default for MSpriteSystem {
    fn default() -> (s: Self)
        ensures
            s.wf(),
            s@.next_handle == 1,
            s@.entries == Map::<MSpriteHandle, MSpriteEntry>::empty(),
            s@.movie is None,
    {
        MSpriteSystem::new()
    }
}

/// The sprites of `s` by handle.
pub open spec fn entry_map(s: Seq<MSpriteEntry>) -> Map<MSpriteHandle, MSpriteEntry>
    decreases s.len(),
{
    if s.len() == 0 {
        Map::empty()
    } else {
        entry_map(s.drop_last()).insert(s.last().handle, s.last())
    }
}

/// Handles strictly increase along `s` and all lie below `next`.
pub open spec fn handles_sorted_below(s: Seq<MSpriteEntry>, next: u32) -> bool {
    &&& forall|i: int, j: int| 0 <= i < j < s.len() ==> s[i].handle.0 < s[j].handle.0
    &&& forall|i: int| 0 <= i < s.len() ==> #[trigger] s[i].handle.0 < next
}

proof fn lemma_entry_map_index(s: Seq<MSpriteEntry>, h: MSpriteHandle)
    requires
        forall|i: int, j: int| 0 <= i < j < s.len() ==> s[i].handle.0 < s[j].handle.0,
    ensures
        entry_map(s).dom().contains(h) <==> exists|i: int| 0 <= i < s.len() && #[trigger] s[i].handle == h,
        forall|i: int| 0 <= i < s.len() && #[trigger] s[i].handle == h ==> entry_map(s)[h] == s[i],
    decreases s.len(),
{
    if s.len() > 0 {
        let t = s.drop_last();
        lemma_entry_map_index(t, h);
        if s.last().handle != h {
            assert forall|i: int| 0 <= i < s.len() && #[trigger] s[i].handle == h implies i < t.len() && t[i] == s[i] by {
                if i == s.len() - 1 {
                    assert(s[i] == s.last());
                }
            }
            if exists|i: int| 0 <= i < s.len() && #[trigger] s[i].handle == h {
                let i = choose|i: int| 0 <= i < s.len() && #[trigger] s[i].handle == h;
                assert(t[i].handle == h);
            }
            if exists|i: int| 0 <= i < t.len() && #[trigger] t[i].handle == h {
                let i = choose|i: int| 0 <= i < t.len() && #[trigger] t[i].handle == h;
                assert(s[i].handle == h);
            }
        } else {
            assert(s[s.len() - 1].handle == h);
            assert forall|i: int| 0 <= i < s.len() && #[trigger] s[i].handle == h implies entry_map(s)[h] == s[i] by {
                if i < s.len() - 1 {
                    assert(s[i].handle.0 < s[s.len() - 1].handle.0);
                }
            }
        }
    }
}

proof fn lemma_entry_map_update(s: Seq<MSpriteEntry>, k: int, e: MSpriteEntry)
    requires
        forall|i: int, j: int| 0 <= i < j < s.len() ==> s[i].handle.0 < s[j].handle.0,
        0 <= k < s.len(),
        e.handle == s[k].handle,
    ensures
        entry_map(s.update(k, e)) == entry_map(s).insert(e.handle, e),
    decreases s.len(),
{
    let t = s.drop_last();
    if k == s.len() - 1 {
        assert(s.update(k, e).drop_last() =~= t);
        assert(s.update(k, e).last() == e);
        assert(entry_map(t).insert(e.handle, s.last()).insert(e.handle, e) =~= entry_map(t).insert(
            e.handle,
            e,
        ));
    } else {
        lemma_entry_map_update(t, k, e);
        assert(s.update(k, e).drop_last() =~= t.update(k, e));
        assert(s.update(k, e).last() == s.last());
        assert(s[k].handle.0 < s.last().handle.0);
        assert(entry_map(t).insert(e.handle, e).insert(s.last().handle, s.last()) =~= entry_map(
            t,
        ).insert(s.last().handle, s.last()).insert(e.handle, e));
    }
}

proof fn lemma_entry_map_remove(s: Seq<MSpriteEntry>, k: int)
    requires
        forall|i: int, j: int| 0 <= i < j < s.len() ==> s[i].handle.0 < s[j].handle.0,
        0 <= k < s.len(),
    ensures
        entry_map(s.remove(k)) == entry_map(s).remove(s[k].handle),
    decreases s.len(),
{
    let t = s.drop_last();
    let h = s[k].handle;
    if k == s.len() - 1 {
        assert(s.remove(k) =~= t);
        lemma_entry_map_index(t, h);
        assert(!entry_map(t).dom().contains(h)) by {
            if entry_map(t).dom().contains(h) {
                let i = choose|i: int| 0 <= i < t.len() && #[trigger] t[i].handle == h;
                assert(s[i].handle.0 < s[k].handle.0);
            }
        }
        assert(entry_map(t) =~= entry_map(t).insert(h, s.last()).remove(h));
    } else {
        lemma_entry_map_remove(t, k);
        assert(s.remove(k).drop_last() =~= t.remove(k));
        assert(s.remove(k).last() == s.last());
        assert(s.remove(k).len() > 0);
        assert(s[k].handle.0 < s.last().handle.0);
        assert(entry_map(t).remove(h).insert(s.last().handle, s.last()) =~= entry_map(t).insert(
            s.last().handle,
            s.last(),
        ).remove(h));
    }
}

impl View for MSpriteSystem {
    type V = MSpriteView;

    closed spec fn view(&self) -> MSpriteView {
        MSpriteView { next_handle: self.next_handle, entries: entry_map(self.entries@), movie: self.movie }
    }
}

/// Whether a sprite loops: a loop mode, or a loop end past its start.
pub open spec fn entry_loops(e: MSpriteEntry) -> bool {
    e.loop_mode != 0 || e.loop_end > e.loop_start
}

/// The script-visible state of a sprite: its stored bits with the playing,
/// finished, locked and loop bits added as they hold.
pub open spec fn entry_state(e: MSpriteEntry) -> u32 {
    let a = if e.playing {
        e.state_bits | MSPRITE_STATE_PLAYING
    } else {
        e.state_bits
    };
    let b = if e.finished {
        a | MSPRITE_STATE_FINISHED
    } else {
        a
    };
    let c = if e.locked {
        b | MSPRITE_STATE_LOCKED
    } else {
        b
    };
    if entry_loops(e) {
        c | MSPRITE_STATE_LOOP
    } else {
        c
    }
}

/// A sprite that stops or runs out: not playing, finished, with the
/// finished bit stored.
pub open spec fn finished_entry(e: MSpriteEntry) -> MSpriteEntry {
    MSpriteEntry { playing: false, finished: true, state_bits: e.state_bits | MSPRITE_STATE_FINISHED, ..e }
}

/// A sprite that advances: playing, neither locked nor finished.
pub open spec fn advancing(e: MSpriteEntry) -> bool {
    e.playing && !e.locked && !e.finished
}

impl MSpriteSystem {
    pub closed spec fn wf(&self) -> bool {
        handles_sorted_below(self.entries@, self.next_handle)
    }

    /// No sprites, no movie, the first handle is 1.
    pub fn new() -> (s: Self)
        ensures
            s.wf(),
            s@.next_handle == 1,
            s@.entries == Map::<MSpriteHandle, MSpriteEntry>::empty(),
            s@.movie is None,
    {
        MSpriteSystem { next_handle: 1, entries: Vec::new(), movie: None }
    }

    /// Whether another sprite can be registered (the handle space is not
    /// exhausted).
    pub fn can_register(&self) -> (b: bool)
        ensures
            b == (self@.next_handle < u32::MAX),
    {
        self.next_handle < u32::MAX
    }

    /// Registers a decoded sprite under the next handle, stopped, not
    /// locked, not looping, showing the given first frame.
    pub fn insert_loaded(&mut self, name: String, width: u32, height: u32, rgba: Vec<u8>, pts_ms: u32) -> (l: LoadedMSprite)
        requires
            old(self).wf(),
            old(self)@.next_handle < u32::MAX,
        ensures
            final(self).wf(),
            l.handle == MSpriteHandle(old(self)@.next_handle),
            l.width == width,
            l.height == height,
            l.rgba@ == rgba@,
            l.name@ == name@,
            final(self)@.next_handle == old(self)@.next_handle + 1,
            final(self)@.movie == old(self)@.movie,
            !old(self)@.entries.dom().contains(l.handle),
            final(self)@.entries.dom() == old(self)@.entries.dom().insert(l.handle),
            forall|h: MSpriteHandle| h != l.handle && #[trigger] old(self)@.entries.dom().contains(h)
                ==> final(self)@.entries[h] == old(self)@.entries[h],
            final(self)@.entries[l.handle].name@ == name@,
            final(self)@.entries[l.handle].rgba@ == rgba@,
            final(self)@.entries[l.handle].handle == l.handle,
            final(self)@.entries[l.handle].width == width,
            final(self)@.entries[l.handle].height == height,
            final(self)@.entries[l.handle].pts_ms == pts_ms,
            !final(self)@.entries[l.handle].playing,
            !final(self)@.entries[l.handle].locked,
            !final(self)@.entries[l.handle].finished,
            final(self)@.entries[l.handle].loop_mode == 0,
            final(self)@.entries[l.handle].loop_start == 0,
            final(self)@.entries[l.handle].loop_end == 0,
            final(self)@.entries[l.handle].state_bits == 0,
    {
        let handle = MSpriteHandle(self.next_handle);
        self.next_handle = self.next_handle + 1;
        let ghost pre = self.entries@;
        proof {
            lemma_entry_map_index(pre, handle);
            if exists|i: int| 0 <= i < pre.len() && #[trigger] pre[i].handle == handle {
                let i = choose|i: int| 0 <= i < pre.len() && #[trigger] pre[i].handle == handle;
                assert(pre[i].handle.0 < handle.0);
            }
        }
        let entry = MSpriteEntry {
            handle,
            name: name.clone(),
            width,
            height,
            rgba: rgba.clone(),
            pts_ms,
            playing: false,
            locked: false,
            loop_mode: 0,
            loop_start: 0,
            loop_end: 0,
            finished: false,
            state_bits: 0,
        };
        self.entries.push(entry);
        assert(self.entries@.drop_last() =~= pre);
        LoadedMSprite { handle, width, height, rgba, name }
    }

    /// Index of the sprite with handle `h`, if one is registered.
    fn find(&self, h: MSpriteHandle) -> (r: Option<usize>)
        requires
            self.wf(),
        ensures
            r is Some <==> self@.entries.dom().contains(h),
            r matches Some(i) ==> i < self.entries@.len() && self.entries@[i as int].handle == h
                && self@.entries[h] == self.entries@[i as int],
    {
        let mut i: usize = 0;
        while i < self.entries.len()
            invariant
                i <= self.entries@.len(),
                self.wf(),
                forall|j: int| 0 <= j < i ==> #[trigger] self.entries@[j].handle != h,
            decreases self.entries@.len() - i,
        {
            if self.entries[i].handle.0 == h.0 {
                proof {
                    assert(self.entries@[i as int].handle == h);
                    lemma_entry_map_index(self.entries@, h);
                }
                return Some(i);
            }
            i += 1;
        }
        proof {
            lemma_entry_map_index(self.entries@, h);
        }
        None
    }

    /// Puts `e` back at index `i`, where a sprite with the same handle was
    /// taken out of `pre`.
    fn reinsert(&mut self, i: usize, e: MSpriteEntry, Ghost(pre): Ghost<Seq<MSpriteEntry>>)
        requires
            handles_sorted_below(pre, old(self).next_handle),
            i < pre.len(),
            old(self).entries@ == pre.remove(i as int),
            e.handle == pre[i as int].handle,
        ensures
            final(self).wf(),
            final(self)@ == (MSpriteView {
                entries: entry_map(pre).insert(e.handle, e),
                ..old(self)@
            }),
    {
        proof {
            lemma_entry_map_update(pre, i as int, e);
        }
        self.entries.insert(i, e);
        assert(self.entries@ =~= pre.update(i as int, e));
        assert forall|a: int| 0 <= a < self.entries@.len() implies #[trigger] self.entries@[a].handle.0
            < self.next_handle by {
            assert(self.entries@[a].handle == pre[a].handle);
        }
        assert forall|a: int, b: int| 0 <= a < b < self.entries@.len() implies self.entries@[a].handle.0
            < self.entries@[b].handle.0 by {
            assert(self.entries@[a].handle == pre[a].handle);
            assert(self.entries@[b].handle == pre[b].handle);
        }
    }

    /// Forgets a sprite; `false` when the handle was unknown.
    pub fn release(&mut self, handle: MSpriteHandle) -> (b: bool)
        requires
            old(self).wf(),
        ensures
            final(self).wf(),
            b == old(self)@.entries.dom().contains(handle),
            final(self)@ == (MSpriteView { entries: old(self)@.entries.remove(handle), ..old(self)@ }),
    {
        match self.find(handle) {
            Some(i) => {
                let ghost pre = self.entries@;
                proof {
                    lemma_entry_map_remove(pre, i as int);
                }
                self.entries.remove(i);
                assert(self.entries@ == pre.remove(i as int));
                assert forall|a: int| 0 <= a < self.entries@.len() implies #[trigger] self.entries@[a].handle.0
                    < self.next_handle by {
                    if a < i {
                        assert(self.entries@[a] == pre[a]);
                    } else {
                        assert(self.entries@[a] == pre[a + 1]);
                    }
                }
                assert forall|a: int, c: int| 0 <= a < c < self.entries@.len() implies self.entries@[a].handle.0
                    < self.entries@[c].handle.0 by {
                    let pa = if a < i {
                        a
                    } else {
                        a + 1
                    };
                    let pc = if c < i {
                        c
                    } else {
                        c + 1
                    };
                    assert(self.entries@[a] == pre[pa]);
                    assert(self.entries@[c] == pre[pc]);
                }
                true
            },
            None => {
                assert(old(self)@.entries.remove(handle) =~= old(self)@.entries);
                false
            },
        }
    }

    /// Forgets every sprite; the handle counter and the movie stay.
    pub fn clear(&mut self)
        requires
            old(self).wf(),
        ensures
            final(self).wf(),
            final(self)@ == (MSpriteView {
                entries: Map::<MSpriteHandle, MSpriteEntry>::empty(),
                ..old(self)@
            }),
    {
        self.entries.clear();
    }

    /// Whether `handle` names a registered sprite.
    pub fn check(&self, handle: MSpriteHandle) -> (b: bool)
        requires
            self.wf(),
        ensures
            b == self@.entries.dom().contains(handle),
    {
        self.find(handle).is_some()
    }

    /// The sprite registered under `handle`.
    pub fn entry(&self, handle: MSpriteHandle) -> (e: Option<&MSpriteEntry>)
        requires
            self.wf(),
        ensures
            e is Some <==> self@.entries.dom().contains(handle),
            e matches Some(x) ==> *x == self@.entries[handle],
    {
        match self.find(handle) {
            Some(i) => Some(&self.entries[i]),
            None => None,
        }
    }

    /// Starts playback with the given loop mode and clears the finished
    /// state; `false` when the handle is unknown.
    pub fn play(&mut self, handle: MSpriteHandle, loop_mode: i32) -> (b: bool)
        requires
            old(self).wf(),
        ensures
            final(self).wf(),
            b == old(self)@.entries.dom().contains(handle),
            final(self)@ == (if b {
                MSpriteView {
                    entries: old(self)@.entries.insert(
                        handle,
                        MSpriteEntry {
                            playing: true,
                            finished: false,
                            loop_mode,
                            state_bits: old(self)@.entries[handle].state_bits & !MSPRITE_STATE_FINISHED,
                            ..old(self)@.entries[handle]
                        },
                    ),
                    ..old(self)@
                }
            } else {
                old(self)@
            }),
    {
        match self.find(handle) {
            Some(i) => {
                let ghost pre = self.entries@;
                let mut e = self.entries.remove(i);
                e.playing = true;
                e.finished = false;
                e.loop_mode = loop_mode;
                e.state_bits = e.state_bits & !MSPRITE_STATE_FINISHED;
                self.reinsert(i, e, Ghost(pre));
                true
            },
            None => false,
        }
    }

    /// Stops playback and marks it finished; `false` when the handle is unknown.
    pub fn stop(&mut self, handle: MSpriteHandle) -> (b: bool)
        requires
            old(self).wf(),
        ensures
            final(self).wf(),
            b == old(self)@.entries.dom().contains(handle),
            final(self)@ == (if b {
                MSpriteView {
                    entries: old(self)@.entries.insert(
                        handle,
                        MSpriteEntry { playing: false, finished: true, state_bits: old(self)@.entries[handle].state_bits | MSPRITE_STATE_FINISHED, ..old(self)@.entries[handle] },
                    ),
                    ..old(self)@
                }
            } else {
                old(self)@
            }),
    {
        match self.find(handle) {
            Some(i) => {
                let ghost pre = self.entries@;
                let mut e = self.entries.remove(i);
                e.playing = false;
                e.finished = true;
                e.state_bits = e.state_bits | MSPRITE_STATE_FINISHED;
                self.reinsert(i, e, Ghost(pre));
                true
            },
            None => false,
        }
    }

    /// Pauses playback; `false` when the handle is unknown.
    pub fn pause(&mut self, handle: MSpriteHandle) -> (b: bool)
        requires
            old(self).wf(),
        ensures
            final(self).wf(),
            b == old(self)@.entries.dom().contains(handle),
            final(self)@ == (if b {
                MSpriteView {
                    entries: old(self)@.entries.insert(
                        handle,
                        MSpriteEntry { playing: false, ..old(self)@.entries[handle] },
                    ),
                    ..old(self)@
                }
            } else {
                old(self)@
            }),
    {
        match self.find(handle) {
            Some(i) => {
                let ghost pre = self.entries@;
                let mut e = self.entries.remove(i);
                e.playing = false;
                self.reinsert(i, e, Ghost(pre));
                true
            },
            None => false,
        }
    }

    /// Holds the sprite on its current frame; `false` when the handle is unknown.
    pub fn lock(&mut self, handle: MSpriteHandle) -> (b: bool)
        requires
            old(self).wf(),
        ensures
            final(self).wf(),
            b == old(self)@.entries.dom().contains(handle),
            final(self)@ == (if b {
                MSpriteView {
                    entries: old(self)@.entries.insert(
                        handle,
                        MSpriteEntry { locked: true, ..old(self)@.entries[handle] },
                    ),
                    ..old(self)@
                }
            } else {
                old(self)@
            }),
    {
        match self.find(handle) {
            Some(i) => {
                let ghost pre = self.entries@;
                let mut e = self.entries.remove(i);
                e.locked = true;
                self.reinsert(i, e, Ghost(pre));
                true
            },
            None => false,
        }
    }

    /// Releases a held sprite; `false` when the handle is unknown.
    pub fn unlock(&mut self, handle: MSpriteHandle) -> (b: bool)
        requires
            old(self).wf(),
        ensures
            final(self).wf(),
            b == old(self)@.entries.dom().contains(handle),
            final(self)@ == (if b {
                MSpriteView {
                    entries: old(self)@.entries.insert(
                        handle,
                        MSpriteEntry { locked: false, ..old(self)@.entries[handle] },
                    ),
                    ..old(self)@
                }
            } else {
                old(self)@
            }),
    {
        match self.find(handle) {
            Some(i) => {
                let ghost pre = self.entries@;
                let mut e = self.entries.remove(i);
                e.locked = false;
                self.reinsert(i, e, Ghost(pre));
                true
            },
            None => false,
        }
    }

    /// Sets the loop mode; `false` when the handle is unknown.
    pub fn set_loop(&mut self, handle: MSpriteHandle, loop_mode: i32) -> (b: bool)
        requires
            old(self).wf(),
        ensures
            final(self).wf(),
            b == old(self)@.entries.dom().contains(handle),
            final(self)@ == (if b {
                MSpriteView {
                    entries: old(self)@.entries.insert(
                        handle,
                        MSpriteEntry { loop_mode, ..old(self)@.entries[handle] },
                    ),
                    ..old(self)@
                }
            } else {
                old(self)@
            }),
    {
        match self.find(handle) {
            Some(i) => {
                let ghost pre = self.entries@;
                let mut e = self.entries.remove(i);
                e.loop_mode = loop_mode;
                self.reinsert(i, e, Ghost(pre));
                true
            },
            None => false,
        }
    }

    /// Sets the loop start and end, negative values counting as 0; `false` when the handle is unknown.
    pub fn set_loop_point(&mut self, handle: MSpriteHandle, start: i32, end: i32) -> (b: bool)
        requires
            old(self).wf(),
        ensures
            final(self).wf(),
            b == old(self)@.entries.dom().contains(handle),
            final(self)@ == (if b {
                MSpriteView {
                    entries: old(self)@.entries.insert(
                        handle,
                        MSpriteEntry { loop_start: if start < 0 { 0 } else { start }, loop_end: if end < 0 { 0 } else { end }, ..old(self)@.entries[handle] },
                    ),
                    ..old(self)@
                }
            } else {
                old(self)@
            }),
    {
        match self.find(handle) {
            Some(i) => {
                let ghost pre = self.entries@;
                let mut e = self.entries.remove(i);
                e.loop_start = if start < 0 {
                    0
                } else {
                    start
                };
                e.loop_end = if end < 0 {
                    0
                } else {
                    end
                };
                self.reinsert(i, e, Ghost(pre));
                true
            },
            None => false,
        }
    }

    /// Ends playback because the stream ran out or failed: not playing, finished; `false` when the handle is unknown.
    pub fn finish(&mut self, handle: MSpriteHandle) -> (b: bool)
        requires
            old(self).wf(),
        ensures
            final(self).wf(),
            b == old(self)@.entries.dom().contains(handle),
            final(self)@ == (if b {
                MSpriteView {
                    entries: old(self)@.entries.insert(
                        handle,
                        MSpriteEntry { playing: false, finished: true, state_bits: old(self)@.entries[handle].state_bits | MSPRITE_STATE_FINISHED, ..old(self)@.entries[handle] },
                    ),
                    ..old(self)@
                }
            } else {
                old(self)@
            }),
    {
        match self.find(handle) {
            Some(i) => {
                let ghost pre = self.entries@;
                let mut e = self.entries.remove(i);
                e.playing = false;
                e.finished = true;
                e.state_bits = e.state_bits | MSPRITE_STATE_FINISHED;
                self.reinsert(i, e, Ghost(pre));
                true
            },
            None => false,
        }
    }

    /// Whether the sprite loops (a loop mode, or a loop end past its
    /// start); `false` for an unknown handle.
    pub fn is_loop(&self, handle: MSpriteHandle) -> (b: bool)
        requires
            self.wf(),
        ensures
            b == (self@.entries.dom().contains(handle) && entry_loops(self@.entries[handle])),
    {
        match self.find(handle) {
            Some(i) => {
                let e = &self.entries[i];
                e.loop_mode != 0 || e.loop_end > e.loop_start
            },
            None => false,
        }
    }

    /// The script-visible state bits of a sprite; 0 for an unknown handle.
    pub fn state(&self, handle: MSpriteHandle) -> (st: u32)
        requires
            self.wf(),
        ensures
            st == (if self@.entries.dom().contains(handle) {
                entry_state(self@.entries[handle])
            } else {
                0
            }),
    {
        match self.find(handle) {
            Some(i) => {
                let e = &self.entries[i];
                let mut state = e.state_bits;
                if e.playing {
                    state = state | MSPRITE_STATE_PLAYING;
                }
                if e.finished {
                    state = state | MSPRITE_STATE_FINISHED;
                }
                if e.locked {
                    state = state | MSPRITE_STATE_LOCKED;
                }
                if e.loop_mode != 0 || e.loop_end > e.loop_start {
                    state = state | MSPRITE_STATE_LOOP;
                }
                state
            },
            None => 0,
        }
    }

    /// The handles of the sprites that advance (playing, neither locked nor
    /// finished), in increasing handle order.
    pub fn advancing_handles(&self) -> (hs: Vec<MSpriteHandle>)
        requires
            self.wf(),
        ensures
            forall|i: int, j: int| 0 <= i < j < hs@.len() ==> hs@[i].0 < hs@[j].0,
            forall|h: MSpriteHandle| hs@.contains(h) <==> (self@.entries.dom().contains(h)
                && advancing(self@.entries[h])),
    {
        let mut hs: Vec<MSpriteHandle> = Vec::new();
        let mut i: usize = 0;
        while i < self.entries.len()
            invariant
                i <= self.entries@.len(),
                self.wf(),
                forall|a: int, b: int| 0 <= a < b < hs@.len() ==> hs@[a].0 < hs@[b].0,
                forall|a: int| 0 <= a < hs@.len() ==> exists|k: int| 0 <= k < i && #[trigger] self.entries@[k].handle == #[trigger] hs@[a] && advancing(self.entries@[k]),
                forall|k: int| 0 <= k < i && advancing(#[trigger] self.entries@[k]) ==> hs@.contains(self.entries@[k].handle),
                hs@.len() > 0 ==> exists|k: int| 0 <= k < i && #[trigger] self.entries@[k].handle == hs@.last(),
            decreases self.entries@.len() - i,
        {
            let e = &self.entries[i];
            if e.playing && !e.locked && !e.finished {
                let ghost pre = hs@;
                proof {
                    if pre.len() > 0 {
                        let k = choose|k: int| 0 <= k < i && #[trigger] self.entries@[k].handle == pre.last();
                        assert(self.entries@[k].handle.0 < self.entries@[i as int].handle.0);
                    }
                }
                hs.push(e.handle);
                assert forall|a: int| 0 <= a < hs@.len() implies exists|k: int| 0 <= k < i + 1 && #[trigger] self.entries@[k].handle == #[trigger] hs@[a] && advancing(self.entries@[k]) by {
                    if a < pre.len() {
                        assert(hs@[a] == pre[a]);
                    } else {
                        assert(self.entries@[i as int].handle == hs@[a]);
                    }
                }
                assert forall|k: int| 0 <= k < i + 1 && advancing(#[trigger] self.entries@[k]) implies hs@.contains(self.entries@[k].handle) by {
                    if k < i {
                        let a = choose|a: int| 0 <= a < pre.len() && pre[a] == self.entries@[k].handle;
                        assert(hs@[a] == pre[a]);
                    } else {
                        assert(hs@[hs@.len() - 1] == self.entries@[k].handle);
                    }
                }
            }
            i += 1;
        }
        proof {
            assert forall|h: MSpriteHandle| hs@.contains(h) implies (self@.entries.dom().contains(h)
                && advancing(self@.entries[h])) by {
                let a = choose|a: int| 0 <= a < hs@.len() && hs@[a] == h;
                let k = choose|k: int| 0 <= k < self.entries@.len() && #[trigger] self.entries@[k].handle == hs@[a] && advancing(self.entries@[k]);
                lemma_entry_map_index(self.entries@, h);
            }
            assert forall|h: MSpriteHandle| (self@.entries.dom().contains(h)
                && advancing(self@.entries[h])) implies hs@.contains(h) by {
                lemma_entry_map_index(self.entries@, h);
                let k = choose|k: int| 0 <= k < self.entries@.len() && #[trigger] self.entries@[k].handle == h;
            }
        }
        hs
    }

    /// Shows a decoded frame on a sprite: its size, timestamp and pixels
    /// become current, and the update names the sprite's source; `None`
    /// (and no change) for an unknown handle.
    pub fn present_frame(&mut self, handle: MSpriteHandle, pts_ms: u32, width: u32, height: u32, rgba: Vec<u8>) -> (u: Option<MSpriteFrameUpdate>)
        requires
            old(self).wf(),
        ensures
            final(self).wf(),
            u is Some <==> old(self)@.entries.dom().contains(handle),
            final(self)@ == (if u is Some {
                MSpriteView {
                    entries: old(self)@.entries.insert(
                        handle,
                        MSpriteEntry { width, height, pts_ms, rgba, ..old(self)@.entries[handle] },
                    ),
                    ..old(self)@
                }
            } else {
                old(self)@
            }),
            u matches Some(x) ==> x.handle == handle && x.width == width && x.height == height
                && x.rgba@ == rgba@ && x.source_name@ == old(self)@.entries[handle].name@,
    {
        match self.find(handle) {
            Some(i) => {
                let ghost pre = self.entries@;
                let mut e = self.entries.remove(i);
                let shown = rgba.clone();
                assert(shown@ =~= rgba@);
                let update = MSpriteFrameUpdate {
                    handle,
                    width,
                    height,
                    rgba: shown,
                    source_name: e.name.clone(),
                };
                e.width = width;
                e.height = height;
                e.pts_ms = pts_ms;
                e.rgba = rgba;
                self.reinsert(i, e, Ghost(pre));
                Some(update)
            },
            None => None,
        }
    }

    /// Binds the full-screen movie to a sprite; it counts as playing from 0.
    pub fn start_movie(&mut self, name: String, layer: i32, handle: MSpriteHandle)
        ensures
            final(self)@ == (MSpriteView {
                movie: Some(
                    MoviePlayback { name, layer, playing: true, elapsed_ms: 0, handle: Some(handle) },
                ),
                ..old(self)@
            }),
            final(self).wf() == old(self).wf(),
    {
        self.movie = Some(
            MoviePlayback { name, layer, playing: true, elapsed_ms: 0, handle: Some(handle) },
        );
    }

    /// Drops the full-screen movie.
    pub fn stop_movie(&mut self)
        ensures
            final(self)@ == (MSpriteView { movie: None, ..old(self)@ }),
            final(self).wf() == old(self).wf(),
    {
        self.movie = None;
    }

    /// Whether a full-screen movie is bound and playing.
    pub fn is_movie(&self) -> (b: bool)
        ensures
            b == (self@.movie matches Some(m) && m.playing),
    {
        match &self.movie {
            Some(m) => m.playing,
            None => false,
        }
    }

    /// The full-screen movie, if one is bound.
    pub fn movie(&self) -> (m: Option<&MoviePlayback>)
        ensures
            m matches Some(x) ==> self@.movie == Some(*x),
            m is None <==> self@.movie is None,
    {
        self.movie.as_ref()
    }

    /// Brings the full-screen movie in line with its sprite after an
    /// advance: it plays while the sprite plays and has not finished, and its
    /// elapsed time is the sprite's timestamp; a movie whose sprite is gone
    /// stops.
    pub fn sync_movie(&mut self)
        requires
            old(self).wf(),
        ensures
            final(self).wf(),
            final(self)@.entries == old(self)@.entries,
            final(self)@.next_handle == old(self)@.next_handle,
            final(self)@.movie == (match old(self)@.movie {
                Some(m) => Some(
                    match m.handle {
                        Some(h) => if old(self)@.entries.dom().contains(h) {
                            MoviePlayback {
                                playing: old(self)@.entries[h].playing && !old(self)@.entries[h].finished,
                                elapsed_ms: old(self)@.entries[h].pts_ms,
                                ..m
                            }
                        } else {
                            MoviePlayback { playing: false, ..m }
                        },
                        None => m,
                    },
                ),
                None => None,
            }),
    {
        let taken = self.movie.take();
        match taken {
            Some(mut m) => {
                match m.handle {
                    Some(h) => {
                        match self.find(h) {
                            Some(i) => {
                                m.playing = self.entries[i].playing && !self.entries[i].finished;
                                m.elapsed_ms = self.entries[i].pts_ms;
                            },
                            None => {
                                m.playing = false;
                            },
                        }
                    },
                    None => {},
                }
                self.movie = Some(m);
            },
            None => {},
        }
    }
}


// ---------------------------------------------------------------- advancing

/// What the application does next while advancing one sprite.
#[derive(Clone, Copy, Debug, PartialEq, Eq, Structural)]
pub enum AdvanceStep {
    /// Decode the next frame and report it (or the end of the stream, or a
    /// decoding failure).
    PullFrame,
    /// Restart the stream at the loop start and report the first frame it
    /// gives, if any.
    RestartSource,
    /// This sprite is done for this advance.
    Done,
}

/// The progress of one sprite's advance: the timestamp to reach, how often
/// the stream restarted, how many preroll frames were skipped, and the last
/// frame shown.
#[derive(Clone, Debug)]
pub struct AdvanceCursor {
    pub handle: MSpriteHandle,
    pub target_pts: u32,
    pub restarts: u32,
    pub skipped: u32,
    pub latest: Option<MSpriteFrameUpdate>,
}

/// `a + b`, or `u32::MAX` when that overflows.
pub open spec fn sat_add_u32(a: u32, b: u32) -> u32 {
    if a + b > u32::MAX {
        u32::MAX
    } else {
        (a + b) as u32
    }
}

impl MSpriteSystem {
    /// Starts advancing a sprite by `delta_ms`: `None` unless it is
    /// registered and advances (playing, neither locked nor finished); the
    /// target is its timestamp plus the delta.
    pub fn begin_advance(&self, handle: MSpriteHandle, delta_ms: u32) -> (c: Option<AdvanceCursor>)
        requires
            self.wf(),
        ensures
            c is Some <==> self@.entries.dom().contains(handle) && advancing(self@.entries[handle]),
            c matches Some(cur) ==> cur.handle == handle && cur.target_pts == sat_add_u32(
                self@.entries[handle].pts_ms,
                delta_ms,
            ) && cur.restarts == 0 && cur.skipped == 0 && cur.latest is None,
    {
        match self.entry(handle) {
            Some(e) => {
                if e.playing && !e.locked && !e.finished {
                    Some(
                        AdvanceCursor {
                            handle,
                            target_pts: e.pts_ms.saturating_add(delta_ms),
                            restarts: 0,
                            skipped: 0,
                            latest: None,
                        },
                    )
                } else {
                    None
                }
            },
            None => None,
        }
    }

    /// The stream must start over: a sprite that does not loop, or that
    /// already restarted `MAX_RESTARTS_PER_ADVANCE` times in this advance,
    /// finishes; otherwise the restart is counted and asked for.
    fn restart_or_finish(&mut self, cur: &mut AdvanceCursor) -> (step: AdvanceStep)
        requires
            old(self).wf(),
            old(self)@.entries.dom().contains(old(cur).handle),
            old(cur).restarts <= MAX_RESTARTS_PER_ADVANCE,
        ensures
            final(self).wf(),
            final(cur).handle == old(cur).handle,
            final(cur).target_pts == old(cur).target_pts,
            final(cur).skipped == old(cur).skipped,
            final(cur).latest == old(cur).latest,
            final(cur).restarts <= MAX_RESTARTS_PER_ADVANCE,
            step == (if old(self)@.entries[old(cur).handle].loop_mode == 0 || old(cur).restarts
                >= MAX_RESTARTS_PER_ADVANCE {
                AdvanceStep::Done
            } else {
                AdvanceStep::RestartSource
            }),
            step == AdvanceStep::Done ==> final(self)@ == (MSpriteView {
                entries: old(self)@.entries.insert(
                    old(cur).handle,
                    finished_entry(old(self)@.entries[old(cur).handle]),
                ),
                ..old(self)@
            }),
            step == AdvanceStep::RestartSource ==> final(self)@ == old(self)@ && final(cur).restarts
                == old(cur).restarts + 1,
    {
        let loop_mode = match self.entry(cur.handle) {
            Some(e) => e.loop_mode,
            None => 0,
        };
        match next_restart(loop_mode, cur.restarts) {
            Some(n) => {
                cur.restarts = n;
                AdvanceStep::RestartSource
            },
            None => {
                self.finish(cur.handle);
                AdvanceStep::Done
            },
        }
    }

    /// Shows a frame and says whether the target was reached.
    fn show_frame(&mut self, cur: &mut AdvanceCursor, pts_ms: u32, width: u32, height: u32, rgba: Vec<u8>) -> (step: AdvanceStep)
        requires
            old(self).wf(),
            old(self)@.entries.dom().contains(old(cur).handle),
        ensures
            final(self).wf(),
            final(self)@ == (MSpriteView {
                entries: old(self)@.entries.insert(
                    old(cur).handle,
                    MSpriteEntry { width, height, pts_ms, rgba, ..old(self)@.entries[old(cur).handle] },
                ),
                ..old(self)@
            }),
            final(cur).handle == old(cur).handle,
            final(cur).target_pts == old(cur).target_pts,
            final(cur).restarts == old(cur).restarts,
            final(cur).skipped == old(cur).skipped,
            final(cur).latest matches Some(u) && u.handle == old(cur).handle && u.width == width
                && u.height == height && u.rgba@ == rgba@ && u.source_name@ == old(self)@.entries[old(
            cur).handle].name@,
            step == (if pts_ms >= old(cur).target_pts {
                AdvanceStep::Done
            } else {
                AdvanceStep::PullFrame
            }),
    {
        let reached = pts_ms >= cur.target_pts;
        let update = self.present_frame(cur.handle, pts_ms, width, height, rgba);
        cur.latest = update;
        if reached {
            AdvanceStep::Done
        } else {
            AdvanceStep::PullFrame
        }
    }

    /// A decoded frame arrived. A frame before the loop start is skipped
    /// (more than `MAX_PREROLL_SKIPS` of them finish the sprite); otherwise
    /// the loop decision for its timestamp presents it (done once the target
    /// is reached), finishes the sprite, or restarts the stream.
    pub fn advance_on_frame(&mut self, cur: &mut AdvanceCursor, pts_ms: u32, width: u32, height: u32, rgba: Vec<u8>) -> (step: AdvanceStep)
        requires
            old(self).wf(),
            old(self)@.entries.dom().contains(old(cur).handle),
            old(cur).restarts <= MAX_RESTARTS_PER_ADVANCE,
            old(cur).skipped <= MAX_PREROLL_SKIPS,
        ensures
            final(self).wf(),
            final(self)@.entries.dom() == old(self)@.entries.dom(),
            final(cur).handle == old(cur).handle,
            final(cur).target_pts == old(cur).target_pts,
            final(cur).restarts <= MAX_RESTARTS_PER_ADVANCE,
            final(cur).skipped <= MAX_PREROLL_SKIPS,
            ({
                let e = old(self)@.entries[old(cur).handle];
                if loop_point(e.loop_start) > 0 && pts_ms < loop_point(e.loop_start) {
                    final(cur).latest == old(cur).latest && final(cur).restarts == old(cur).restarts
                        && if old(cur).skipped >= MAX_PREROLL_SKIPS {
                        step == AdvanceStep::Done && final(self)@.entries == old(self)@.entries.insert(
                            old(cur).handle,
                            finished_entry(e),
                        )
                    } else {
                        step == AdvanceStep::PullFrame && final(self)@ == old(self)@ && final(cur).skipped
                            == old(cur).skipped + 1
                    }
                } else {
                    match spec_movie_loop_at_frame(pts_ms, e.loop_mode, e.loop_start, e.loop_end) {
                        MovieLoopAction::Present => final(self)@.entries == old(self)@.entries.insert(
                            old(cur).handle,
                            MSpriteEntry { width, height, pts_ms, rgba, ..e },
                        ) && (final(cur).latest matches Some(u) && u.rgba@ == rgba@) && step == (if pts_ms
                            >= old(cur).target_pts {
                            AdvanceStep::Done
                        } else {
                            AdvanceStep::PullFrame
                        }),
                        MovieLoopAction::Finish => step == AdvanceStep::Done && final(self)@.entries
                            == old(self)@.entries.insert(old(cur).handle, finished_entry(e)),
                        MovieLoopAction::Restart => if old(cur).restarts >= MAX_RESTARTS_PER_ADVANCE {
                            step == AdvanceStep::Done && final(self)@.entries == old(self)@.entries.insert(
                                old(cur).handle,
                                finished_entry(e),
                            )
                        } else {
                            step == AdvanceStep::RestartSource && final(self)@ == old(self)@
                                && final(cur).restarts == old(cur).restarts + 1
                        },
                    }
                }
            }),
    {
        let e = self.entry(cur.handle).unwrap();
        let loop_start = e.loop_start;
        let loop_mode = e.loop_mode;
        let loop_end = e.loop_end;
        if frame_inside_preroll(pts_ms, loop_start) {
            if cur.skipped >= MAX_PREROLL_SKIPS {
                self.finish(cur.handle);
                return AdvanceStep::Done;
            }
            cur.skipped = cur.skipped + 1;
            return AdvanceStep::PullFrame;
        }
        match movie_loop_at_frame(pts_ms, loop_mode, loop_start, loop_end) {
            MovieLoopAction::Present => self.show_frame(cur, pts_ms, width, height, rgba),
            MovieLoopAction::Finish => {
                self.finish(cur.handle);
                AdvanceStep::Done
            },
            MovieLoopAction::Restart => self.restart_or_finish(cur),
        }
    }

    /// The stream ran out: start over at the loop start, or finish (see
    /// `restart_or_finish`).
    pub fn advance_on_end(&mut self, cur: &mut AdvanceCursor) -> (step: AdvanceStep)
        requires
            old(self).wf(),
            old(self)@.entries.dom().contains(old(cur).handle),
            old(cur).restarts <= MAX_RESTARTS_PER_ADVANCE,
        ensures
            final(self).wf(),
            final(cur).handle == old(cur).handle,
            final(cur).restarts <= MAX_RESTARTS_PER_ADVANCE,
            final(cur).skipped == old(cur).skipped,
            step == (if old(self)@.entries[old(cur).handle].loop_mode == 0 || old(cur).restarts
                >= MAX_RESTARTS_PER_ADVANCE {
                AdvanceStep::Done
            } else {
                AdvanceStep::RestartSource
            }),
            step == AdvanceStep::Done ==> final(self)@.entries == old(self)@.entries.insert(
                old(cur).handle,
                finished_entry(old(self)@.entries[old(cur).handle]),
            ),
            step == AdvanceStep::RestartSource ==> final(self)@ == old(self)@,
    {
        self.restart_or_finish(cur)
    }

    /// Decoding or restarting the stream failed: the sprite finishes.
    pub fn advance_on_error(&mut self, cur: &AdvanceCursor) -> (step: AdvanceStep)
        requires
            old(self).wf(),
            old(self)@.entries.dom().contains(cur.handle),
        ensures
            final(self).wf(),
            step == AdvanceStep::Done,
            final(self)@.entries == old(self)@.entries.insert(cur.handle, finished_entry(old(self)@.entries[cur.handle])),
    {
        self.finish(cur.handle);
        AdvanceStep::Done
    }

    /// The stream restarted. With a first frame (at or after the loop
    /// start): a frame at the loop end of a sprite that does not loop
    /// finishes it, any other is shown (done once the target is reached).
    /// Without one, decoding goes on from the start.
    pub fn advance_on_restart(&mut self, cur: &mut AdvanceCursor, first: Option<(u32, u32, u32, Vec<u8>)>) -> (step: AdvanceStep)
        requires
            old(self).wf(),
            old(self)@.entries.dom().contains(old(cur).handle),
        ensures
            final(self).wf(),
            final(cur).handle == old(cur).handle,
            final(cur).restarts == old(cur).restarts,
            final(cur).skipped == old(cur).skipped,
            match first {
                None => step == AdvanceStep::PullFrame && final(self)@ == old(self)@,
                Some((pts_ms, width, height, rgba)) => {
                    let e = old(self)@.entries[old(cur).handle];
                    if spec_movie_loop_at_frame(pts_ms, e.loop_mode, e.loop_start, e.loop_end)
                        == MovieLoopAction::Finish {
                        step == AdvanceStep::Done && final(self)@.entries == old(self)@.entries.insert(
                            old(cur).handle,
                            finished_entry(e),
                        )
                    } else {
                        final(self)@.entries == old(self)@.entries.insert(
                            old(cur).handle,
                            MSpriteEntry { width, height, pts_ms, rgba, ..e },
                        ) && step == (if pts_ms >= old(cur).target_pts {
                            AdvanceStep::Done
                        } else {
                            AdvanceStep::PullFrame
                        })
                    }
                },
            },
    {
        match first {
            None => AdvanceStep::PullFrame,
            Some((pts_ms, width, height, rgba)) => {
                let e = self.entry(cur.handle).unwrap();
                let action = movie_loop_at_frame(pts_ms, e.loop_mode, e.loop_start, e.loop_end);
                if action == MovieLoopAction::Finish {
                    self.finish(cur.handle);
                    AdvanceStep::Done
                } else {
                    self.show_frame(cur, pts_ms, width, height, rgba)
                }
            },
        }
    }
}

/// A stopped or run-out sprite reports the finished bit and not the
/// playing bit; playing it again clears the finished bit and sets the
/// playing bit.
pub proof fn lemma_stop_then_play_state(e: MSpriteEntry, loop_mode: i32)
    ensures
        entry_state(finished_entry(e)) & MSPRITE_STATE_FINISHED != 0,
        entry_state(finished_entry(e)) & MSPRITE_STATE_PLAYING == e.state_bits & MSPRITE_STATE_PLAYING,
        ({
            let p = MSpriteEntry {
                playing: true,
                finished: false,
                loop_mode,
                state_bits: e.state_bits & !MSPRITE_STATE_FINISHED,
                ..e
            };
            entry_state(p) & MSPRITE_STATE_PLAYING != 0 && entry_state(p) & MSPRITE_STATE_FINISHED == 0
        }),
{
    let b = e.state_bits;
    assert(((b | 4u32) | 4u32) & 4u32 != 0 && (((b | 4u32) | 4u32) | 2u32) & 4u32 != 0 && (((b | 4u32)
        | 4u32) | 0x8000_0000u32) & 4u32 != 0 && ((((b | 4u32) | 4u32) | 2u32) | 0x8000_0000u32) & 4u32
        != 0) by (bit_vector);
    assert(((b | 4u32) | 4u32) & 1u32 == b & 1u32 && (((b | 4u32) | 4u32) | 2u32) & 1u32 == b & 1u32
        && (((b | 4u32) | 4u32) | 0x8000_0000u32) & 1u32 == b & 1u32 && ((((b | 4u32) | 4u32) | 2u32)
        | 0x8000_0000u32) & 1u32 == b & 1u32) by (bit_vector);
    assert((((b & !4u32) | 1u32) & 1u32 != 0) && (((b & !4u32) | 1u32) & 4u32 == 0) && ((((b & !4u32) | 1u32)
        | 2u32) & 1u32 != 0) && ((((b & !4u32) | 1u32) | 2u32) & 4u32 == 0) && ((((b & !4u32) | 1u32)
        | 0x8000_0000u32) & 1u32 != 0) && ((((b & !4u32) | 1u32) | 0x8000_0000u32) & 4u32 == 0) && (
    (((((b & !4u32) | 1u32) | 2u32) | 0x8000_0000u32) & 1u32 != 0)) && ((((((b & !4u32) | 1u32) | 2u32)
        | 0x8000_0000u32) & 4u32 == 0))) by (bit_vector);
}

// ---------------------------------------------------------------- colour

/// A chroma sample, or the neutral 128 past the end of the plane.
pub open spec fn chroma_at(c: Seq<u8>, idx: int) -> int {
    if 0 <= idx < c.len() {
        c[idx] as int
    } else {
        128
    }
}

/// `v` clamped to a byte.
pub open spec fn clamp_to_byte(v: int) -> u8 {
    if v < 0 {
        0
    } else if v > 255 {
        255
    } else {
        v as u8
    }
}

/// Channel `k` (red, green, blue, alpha) of the BT.601 integer conversion of
/// luma `yy` and chroma `cb`, `cr`, each product rounded by adding 128 and
/// shifting right by 8.
pub open spec fn yuv_channel(yy: int, cb: int, cr: int, k: int) -> u8 {
    let c = yy - 16;
    let d = cb - 128;
    let e = cr - 128;
    if k == 0 {
        clamp_to_byte((298 * c + 409 * e + 128) / 256)
    } else if k == 1 {
        clamp_to_byte((298 * c - 100 * d - 208 * e + 128) / 256)
    } else if k == 2 {
        clamp_to_byte((298 * c + 516 * d + 128) / 256)
    } else {
        255
    }
}

/// Width of the chroma planes: half the luma width, at least 1.
pub open spec fn chroma_width(width: int) -> int {
    if width / 2 > 0 {
        width / 2
    } else {
        1
    }
}

/// Byte `i` of the RGBA image converted from a 4:2:0 frame `width` pixels
/// wide: pixel `i / 4` at row `(i / 4) / width` and column `(i / 4) % width`
/// takes its chroma from the sample covering its 2x2 block.
pub open spec fn rgba_byte(width: int, y: Seq<u8>, cb: Seq<u8>, cr: Seq<u8>, i: int) -> u8 {
    let p = i / 4;
    let row = p / width;
    let col = p % width;
    let uv = (row / 2) * chroma_width(width) + col / 2;
    yuv_channel(y[p] as int, chroma_at(cb, uv), chroma_at(cr, uv), i % 4)
}

proof fn lemma_pixel_position(width: int, row: int, col: int)
    requires
        width > 0,
        0 <= row,
        0 <= col < width,
    ensures
        (row * width + col) / width == row,
        (row * width + col) % width == col,
        (row / 2) * chroma_width(width) + col / 2 <= row * width + col,
        forall|k: int| 0 <= k < 4 ==> #[trigger] ((4 * (row * width + col) + k) / 4) == row * width
            + col && (4 * (row * width + col) + k) % 4 == k,
{
    vstd::arithmetic::div_mod::lemma_fundamental_div_mod_converse(row * width + col, width, row, col);
    assert((row / 2) * chroma_width(width) <= row * width) by (nonlinear_arith)
        requires
            width > 0,
            row >= 0,
            chroma_width(width) <= width,
            chroma_width(width) >= 1,
    {
        assert(row / 2 <= row);
    }
    assert forall|k: int| 0 <= k < 4 implies #[trigger] ((4 * (row * width + col) + k) / 4) == row
        * width + col && (4 * (row * width + col) + k) % 4 == k by {
        vstd::arithmetic::div_mod::lemma_fundamental_div_mod_converse(
            4 * (row * width + col) + k,
            4,
            row * width + col,
            k,
        );
    }
}

/// The pixel at column `2 * bx + dx` of row `2 * by + dy` (`dx`, `dy` each 0 or 1) of a
/// frame `width` pixels wide takes its chroma from sample `by * max(width / 2, 1) + bx`:
/// the chroma planes have rows of half the luma width, and the four pixels of each 2x2
/// block share one sample.
pub proof fn lemma_blocks_share_half_width_chroma(
    width: int,
    y: Seq<u8>,
    cb: Seq<u8>,
    cr: Seq<u8>,
    bx: int,
    by: int,
    dx: int,
    dy: int,
    k: int,
)
    requires
        width > 0,
        bx >= 0,
        by >= 0,
        0 <= dx < 2,
        0 <= dy < 2,
        2 * bx + dx < width,
        0 <= k < 4,
    ensures
        ({
            let p = (2 * by + dy) * width + 2 * bx + dx;
            let uv = by * (if width / 2 > 0 {
                width / 2
            } else {
                1
            }) + bx;
            rgba_byte(width, y, cb, cr, 4 * p + k) == yuv_channel(
                y[p] as int,
                chroma_at(cb, uv),
                chroma_at(cr, uv),
                k,
            )
        }),
{
    let row = 2 * by + dy;
    let col = 2 * bx + dx;
    lemma_pixel_position(width, row, col);
    assert(row / 2 == by);
    assert(col / 2 == bx);
    assert(((4 * (row * width + col) + k) / 4) == row * width + col);
}

/// One colour channel of a pixel, from the luma and chroma samples.
fn convert_channel(yy: i32, cb: i32, cr: i32, k: u8) -> (v: u8)
    requires
        0 <= yy <= 255,
        0 <= cb <= 255,
        0 <= cr <= 255,
        k < 4,
    ensures
        v == yuv_channel(yy as int, cb as int, cr as int, k as int),
{
    let c = yy - 16;
    let d = cb - 128;
    let e = cr - 128;
    let raw: i32 = if k == 0 {
        298 * c + 409 * e + 128
    } else if k == 1 {
        298 * c - 100 * d - 208 * e + 128
    } else if k == 2 {
        298 * c + 516 * d + 128
    } else {
        return 255;
    };
    let shifted = raw >> 8u32;
    assert(shifted == raw / 256) by (bit_vector)
        requires
            shifted == raw >> 8u32,
    ;
    if shifted < 0 {
        0
    } else if shifted > 255 {
        255
    } else {
        shifted as u8
    }
}

/// Converts a 4:2:0 frame to RGBA with the BT.601 integer formulas: one
/// opaque pixel per luma sample, each 2x2 block sharing one chroma sample
/// (128 where the chroma planes are short).
pub fn yuv420_to_rgba(width: u32, height: u32, y: &[u8], cb: &[u8], cr: &[u8]) -> (rgba: Vec<u8>)
    requires
        y@.len() >= width * height,
        4 * width * height <= usize::MAX,
    ensures
        rgba@.len() == 4 * width * height,
        forall|i: int| 0 <= i < rgba@.len() ==> #[trigger] rgba@[i] == rgba_byte(width as int, y@, cb@, cr@, i),
{
    let w = width as usize;
    let h = height as usize;
    let cw: usize = if w / 2 > 0 {
        w / 2
    } else {
        1
    };
    let mut rgba: Vec<u8> = Vec::new();
    let mut row: usize = 0;
    assert(0 <= w * h) by (nonlinear_arith);
    while row < h
        invariant
            w == width,
            h == height,
            cw == chroma_width(w as int),
            row <= h,
            y@.len() >= w * h,
            4 * w * h <= usize::MAX,
            rgba@.len() == 4 * (row * w),
            forall|i: int| 0 <= i < rgba@.len() ==> #[trigger] rgba@[i] == rgba_byte(w as int, y@, cb@, cr@, i),
        decreases h - row,
    {
        let mut col: usize = 0;
        while col < w
            invariant
                w == width,
                h == height,
                cw == chroma_width(w as int),
                row < h,
                col <= w,
                y@.len() >= w * h,
                4 * w * h <= usize::MAX,
                rgba@.len() == 4 * (row * w + col),
                forall|i: int| 0 <= i < rgba@.len() ==> #[trigger] rgba@[i] == rgba_byte(w as int, y@, cb@, cr@, i),
            decreases w - col,
        {
            proof {
                lemma_pixel_position(w as int, row as int, col as int);
                assert(row * w + col < w * h) by (nonlinear_arith)
                    requires
                        col < w,
                        row < h,
                ;
                assert(4 * w * h == 4 * (w * h)) by (nonlinear_arith);
            }
            let p = row * w + col;
            let yy = y[p] as i32;
            let uv_idx = (row / 2) * cw + col / 2;
            let cbv: i32 = if uv_idx < cb.len() {
                cb[uv_idx] as i32
            } else {
                128
            };
            let crv: i32 = if uv_idx < cr.len() {
                cr[uv_idx] as i32
            } else {
                128
            };
            let ghost base = rgba@.len() as int;
            let mut k: u8 = 0;
            while k < 4
                invariant
                    k <= 4,
                    base == 4 * (p as int),
                    p == row * w + col,
                    rgba@.len() == base + k,
                    yy == y@[p as int],
                    uv_idx == (row / 2) * chroma_width(w as int) + col / 2,
                    cbv == chroma_at(cb@, uv_idx as int),
                    crv == chroma_at(cr@, uv_idx as int),
                    (p as int / w as int) == row,
                    (p as int % w as int) == col,
                    forall|j: int| 0 <= j < 4 ==> #[trigger] ((4 * (p as int) + j) / 4) == p && (4 * (p as int) + j) % 4 == j,
                    forall|i: int| 0 <= i < rgba@.len() ==> #[trigger] rgba@[i] == rgba_byte(w as int, y@, cb@, cr@, i),
                decreases 4 - k,
            {
                let v = convert_channel(yy, cbv, crv, k);
                let ghost i = base + k;
                assert(((4 * (p as int) + k) / 4) == p && (4 * (p as int) + k) % 4 == k);
                rgba.push(v);
                k += 1;
            }
            col += 1;
        }
        assert((row + 1) * w == row * w + w) by (nonlinear_arith);
        row += 1;
    }
    assert(4 * (h * w) == 4 * w * h) by (nonlinear_arith);
    rgba
}

} // verus!
