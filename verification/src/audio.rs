//! Sound handles, groups and volumes, and the text tables that drive PAL
//! audio: `BGM.CSV` loop points and `.MIX` voice playlists.

use vstd::prelude::*;
use crate::bytes::{ascii_upper, seq_starts_with, starts_with};
use crate::text::{
    chars_of, decode_shift_jis, is_white_space, shift_jis_text, skip_white, skip_white_back,
    string_from_chars, trim, trim_end, trim_start, utf8_text, leading_white, trailing_white,
};
use vstd::utf8::{decode_utf8, valid_utf8};

verus! {

#[derive(Clone, Debug)]
pub struct AudioConfig {
    pub enabled: bool,
}

impl Default for AudioConfig {
    fn default() -> (c: Self)
        ensures
            c.enabled,
    {
        AudioConfig { enabled: true }
    }
}

#[derive(Clone, Copy, Debug, Eq, PartialEq, Structural)]
pub enum PalSoundStatus {
    Free,
    Loaded,
    Playing,
    Paused,
    Stopped,
}

impl PalSoundStatus {
    /// The status code scripts see: 0 free, 1 loaded, 2 playing, 3 paused,
    /// 4 stopped.
    pub open spec fn spec_raw(self) -> i32 {
        match self {
            PalSoundStatus::Free => 0,
            PalSoundStatus::Loaded => 1,
            PalSoundStatus::Playing => 2,
            PalSoundStatus::Paused => 3,
            PalSoundStatus::Stopped => 4,
        }
    }

    pub fn raw(self) -> (r: i32)
        ensures
            r == self.spec_raw(),
    {
        match self {
            PalSoundStatus::Free => 0,
            PalSoundStatus::Loaded => 1,
            PalSoundStatus::Playing => 2,
            PalSoundStatus::Paused => 3,
            PalSoundStatus::Stopped => 4,
        }
    }
}

// ---------------------------------------------------------------- groups

#[derive(Clone, Copy, Debug, Eq, PartialEq, Ord, PartialOrd, Hash, Structural)]
pub struct PalSoundGroup(pub u8);

/// The groups PAL knows are 0 to 6.
pub open spec fn is_known_group(g: PalSoundGroup) -> bool {
    g.0 <= 6
}

impl PalSoundGroup {
    /// Every known group, in order.
    pub fn all() -> (res: Vec<PalSoundGroup>)
        ensures
            res@.len() == 7,
            forall|i: int| 0 <= i < 7 ==> #[trigger] res@[i] == PalSoundGroup(i as u8),
    {
        let mut res = Vec::new();
        let mut i: u8 = 0;
        while i < 7
            invariant
                i <= 7,
                res@.len() == i,
                forall|j: int| 0 <= j < i ==> #[trigger] res@[j] == PalSoundGroup(j as u8),
            decreases 7 - i,
        {
            res.push(PalSoundGroup(i));
            i += 1;
        }
        res
    }

    /// The script's sound kind selects the group; unknown kinds use group 1.
    pub open spec fn spec_from_original_kind(kind: i32) -> PalSoundGroup {
        if kind == 0 || (2 <= kind <= 6) {
            PalSoundGroup(kind as u8)
        } else {
            PalSoundGroup(1)
        }
    }

    pub fn from_original_kind(kind: i32) -> (g: Self)
        ensures
            g == Self::spec_from_original_kind(kind),
    {
        match kind {
            0 => PalSoundGroup(0),
            2 => PalSoundGroup(2),
            3 => PalSoundGroup(3),
            4 => PalSoundGroup(4),
            5 => PalSoundGroup(5),
            6 => PalSoundGroup(6),
            _ => PalSoundGroup(1),
        }
    }

    pub open spec fn spec_slot_count(self) -> usize {
        match self.0 {
            0 => 2,
            1 => 16,
            2 => 8,
            3 => 2,
            4 => 16,
            5 => 64,
            6 => 16,
            _ => 0,
        }
    }

    /// Number of channels the group has; 0 for an unknown group.
    pub fn slot_count(self) -> (n: usize)
        ensures
            n == self.spec_slot_count(),
    {
        match self.0 {
            0 => 2,
            1 => 16,
            2 => 8,
            3 => 2,
            4 => 16,
            5 => 64,
            6 => 16,
            _ => 0,
        }
    }

    pub open spec fn spec_raw_prefix(self) -> u32 {
        match self.0 {
            0 => 0x1000_0000,
            1 => 0x3000_0000,
            2 => 0x7000_0000,
            3 => 0x2000_0000,
            4 => 0x4000_0000,
            5 => 0x5000_0000,
            6 => 0x6000_0000,
            _ => 0,
        }
    }

    /// The top nibble that raw handles of this group carry; 0 for an unknown
    /// group.
    pub fn raw_prefix(self) -> (p: u32)
        ensures
            p == self.spec_raw_prefix(),
    {
        match self.0 {
            0 => 0x1000_0000,
            1 => 0x3000_0000,
            2 => 0x7000_0000,
            3 => 0x2000_0000,
            4 => 0x4000_0000,
            5 => 0x5000_0000,
            6 => 0x6000_0000,
            _ => 0,
        }
    }

    pub open spec fn spec_from_raw_prefix(prefix: u32) -> Option<PalSoundGroup> {
        if prefix == 0x1000_0000 {
            Some(PalSoundGroup(0))
        } else if prefix == 0x3000_0000 {
            Some(PalSoundGroup(1))
        } else if prefix == 0x7000_0000 {
            Some(PalSoundGroup(2))
        } else if prefix == 0x2000_0000 {
            Some(PalSoundGroup(3))
        } else if prefix == 0x4000_0000 {
            Some(PalSoundGroup(4))
        } else if prefix == 0x5000_0000 {
            Some(PalSoundGroup(5))
        } else if prefix == 0x6000_0000 {
            Some(PalSoundGroup(6))
        } else {
            None
        }
    }

    /// The group whose raw prefix is `prefix`, if any.
    pub fn from_raw_prefix(prefix: u32) -> (g: Option<Self>)
        ensures
            g == Self::spec_from_raw_prefix(prefix),
    {
        match prefix {
            0x1000_0000 => Some(PalSoundGroup(0)),
            0x3000_0000 => Some(PalSoundGroup(1)),
            0x7000_0000 => Some(PalSoundGroup(2)),
            0x2000_0000 => Some(PalSoundGroup(3)),
            0x4000_0000 => Some(PalSoundGroup(4)),
            0x5000_0000 => Some(PalSoundGroup(5)),
            0x6000_0000 => Some(PalSoundGroup(6)),
            _ => None,
        }
    }
}

/// A known group's prefix gives that group back, and a prefix that gives a
/// group is that group's prefix.
pub proof fn lemma_group_prefix_round_trip(g: PalSoundGroup, prefix: u32)
    ensures
        is_known_group(g) ==> PalSoundGroup::spec_from_raw_prefix(g.spec_raw_prefix()) == Some(g),
        PalSoundGroup::spec_from_raw_prefix(prefix) matches Some(h) ==> is_known_group(h)
            && h.spec_raw_prefix() == prefix,
{
}

// ---------------------------------------------------------------- handles

#[derive(Clone, Copy, Debug, Eq, PartialEq, Ord, PartialOrd, Hash, Structural)]
pub struct AudioHandle {
    pub group: PalSoundGroup,
    pub index: usize,
}

impl AudioHandle {
    pub fn new(group: PalSoundGroup, index: usize) -> (h: Self)
        ensures
            h.group == group,
            h.index == index,
    {
        AudioHandle { group, index }
    }

    pub open spec fn spec_raw(self) -> u32 {
        self.group.spec_raw_prefix() | (self.index as u32)
    }

    /// The handle as scripts see it: group prefix in the top nibble, OR-ed
    /// with the channel index (taken modulo 2^32).
    pub fn raw(self) -> (r: u32)
        ensures
            r == self.spec_raw(),
    {
        self.group.raw_prefix() | self.index as u32
    }

    pub open spec fn spec_from_raw(raw: u32) -> Option<AudioHandle> {
        match PalSoundGroup::spec_from_raw_prefix(raw & 0xF000_0000) {
            Some(group) => Some(AudioHandle { group, index: (raw & 0x0FFF_FFFF) as usize }),
            None => None,
        }
    }

    /// Decodes a script handle: the top nibble names the group, the low 28
    /// bits are the index.
    pub fn from_raw(raw: u32) -> (h: Option<Self>)
        ensures
            h == Self::spec_from_raw(raw),
    {
        let prefix = raw & 0xF000_0000;
        let index = (raw & 0x0FFF_FFFF) as usize;
        match PalSoundGroup::from_raw_prefix(prefix) {
            Some(group) => Some(AudioHandle { group, index }),
            None => None,
        }
    }
}

/// Encoding a handle of a known group whose index fits in 28 bits and
/// decoding it again gives the same handle; a raw value that decodes encodes
/// back to itself.
pub proof fn lemma_handle_round_trip(h: AudioHandle, raw: u32)
    ensures
        is_known_group(h.group) && h.index < 0x1000_0000 ==> AudioHandle::spec_from_raw(h.spec_raw())
            == Some(h),
        AudioHandle::spec_from_raw(raw) matches Some(d) ==> d.spec_raw() == raw,
{
    if is_known_group(h.group) && h.index < 0x1000_0000 {
        let p = h.group.spec_raw_prefix();
        let i = h.index as u32;
        assert(h.index as u32 == h.index);
        assert(p & 0x0FFF_FFFF == 0) by (bit_vector)
            requires
                p == 0x1000_0000u32 || p == 0x3000_0000u32 || p == 0x7000_0000u32 || p
                    == 0x2000_0000u32 || p == 0x4000_0000u32 || p == 0x5000_0000u32 || p
                    == 0x6000_0000u32,
        ;
        assert((p | i) & 0xF000_0000 == p && (p | i) & 0x0FFF_FFFF == i) by (bit_vector)
            requires
                p & 0x0FFF_FFFF == 0,
                i < 0x1000_0000,
        ;
        assert(PalSoundGroup::spec_from_raw_prefix(p) == Some(h.group));
    }
    if let Some(d) = AudioHandle::spec_from_raw(raw) {
        let p = raw & 0xF000_0000;
        assert(((raw & 0x0FFF_FFFF) as usize) as u32 == raw & 0x0FFF_FFFF);
        assert((raw & 0xF000_0000) | (raw & 0x0FFF_FFFF) == raw) by (bit_vector);
    }
}

// ---------------------------------------------------------------- volume

#[derive(Clone, Copy, Debug, Eq, PartialEq, Structural)]
pub struct PalVolume(i32);

impl PalVolume {
    pub closed spec fn value(self) -> i32 {
        self.0
    }

    /// The volume clamped to the PAL range `0..=10000`.
    pub fn from_raw(value: i32) -> (v: Self)
        ensures
            v.value() == clamp_volume(value),
    {
        PalVolume(value).clamped()
    }

    pub fn raw(self) -> (r: i32)
        ensures
            r == self.value(),
    {
        self.0
    }

    pub fn clamped(self) -> (v: Self)
        ensures
            v.value() == clamp_volume(self.value()),
    {
        if self.0 < 0 {
            PalVolume(0)
        } else if self.0 > 10000 {
            PalVolume(10000)
        } else {
            self
        }
    }

    /// The quietest volume.
    pub fn min_volume() -> (v: Self)
        ensures
            v.value() == 0,
    {
        PalVolume(0)
    }

    /// The loudest volume.
    pub fn max_volume() -> (v: Self)
        ensures
            v.value() == 10000,
    {
        PalVolume(10000)
    }
}

impl Default for PalVolume {
    fn default() -> (v: Self)
        ensures
            v.value() == 10000,
    {
        PalVolume(10000)
    }
}

/// `value` clamped to `0..=10000`.
pub open spec fn clamp_volume(value: i32) -> i32 {
    if value < 0 {
        0
    } else if value > 10000 {
        10000
    } else {
        value
    }
}

/// Clamping lands in range, keeps in-range volumes, and is idempotent.
pub proof fn lemma_clamp_volume(value: i32)
    ensures
        0 <= clamp_volume(value) <= 10000,
        0 <= value <= 10000 ==> clamp_volume(value) == value,
        clamp_volume(clamp_volume(value)) == clamp_volume(value),
{
}

// ---------------------------------------------------------------- names

/// ASCII upper case of one character.
pub open spec fn char_upper(c: char) -> char {
    if 'a' <= c <= 'z' {
        ((c as u32) - 32) as char
    } else {
        c
    }
}

/// ASCII lower case of one character.
pub open spec fn char_lower(c: char) -> char {
    if 'A' <= c <= 'Z' {
        ((c as u32) + 32) as char
    } else {
        c
    }
}

pub fn to_upper_char(c: char) -> (r: char)
    ensures
        r == char_upper(c),
{
    if 'a' <= c && c <= 'z' {
        ((c as u8) - 32) as char
    } else {
        c
    }
}

pub fn to_lower_char(c: char) -> (r: char)
    ensures
        r == char_lower(c),
{
    if 'A' <= c && c <= 'Z' {
        ((c as u8) + 32) as char
    } else {
        c
    }
}

/// Index just past the last `/` or `\` among the first `i` characters.
pub open spec fn leaf_start(s: Seq<char>, i: int) -> int
    decreases i,
{
    if i <= 0 {
        0
    } else if s[i - 1] == '/' || s[i - 1] == '\\' {
        i
    } else {
        leaf_start(s, i - 1)
    }
}

/// Index of the last `.` among the first `i` characters, or -1.
pub open spec fn last_dot(s: Seq<char>, i: int) -> int
    decreases i,
{
    if i <= 0 {
        -1
    } else if s[i - 1] == '.' {
        i - 1
    } else {
        last_dot(s, i - 1)
    }
}

/// The extensions that name an audio file: `ogg`, `wav`, `wma`, `mix`, in any
/// ASCII case.
pub open spec fn is_audio_extension(ext: Seq<char>) -> bool {
    let l = ext.map_values(|c: char| char_lower(c));
    l == seq!['o', 'g', 'g'] || l == seq!['w', 'a', 'v'] || l == seq!['w', 'm', 'a'] || l
        == seq!['m', 'i', 'x']
}

/// The lookup key of an audio resource name: the leaf after the last `/` or
/// `\`, without a final audio extension, in ASCII upper case.
pub open spec fn lookup_key_of(name: Seq<char>) -> Seq<char> {
    let leaf = name.subrange(leaf_start(name, name.len() as int), name.len() as int);
    let dot = last_dot(leaf, leaf.len() as int);
    let stem = if dot >= 0 && is_audio_extension(leaf.subrange(dot + 1, leaf.len() as int)) {
        leaf.subrange(0, dot)
    } else {
        leaf
    };
    stem.map_values(|c: char| char_upper(c))
}

fn audio_extension(ext: &[char]) -> (res: bool)
    ensures
        res == is_audio_extension(ext@),
{
    if ext.len() != 3 {
        proof {
            assert(ext@.map_values(|c: char| char_lower(c)).len() != 3);
        }
        return false;
    }
    let a = to_lower_char(ext[0]);
    let b = to_lower_char(ext[1]);
    let c = to_lower_char(ext[2]);
    let ghost l = ext@.map_values(|c: char| char_lower(c));
    assert(l[0] == a && l[1] == b && l[2] == c);
    let res = (a == 'o' && b == 'g' && c == 'g') || (a == 'w' && b == 'a' && c == 'v') || (a == 'w'
        && b == 'm' && c == 'a') || (a == 'm' && b == 'i' && c == 'x');
    proof {
        if res {
            assert(l =~= seq![a, b, c]);
        }
    }
    res
}

/// The lookup key of `chars` (see `lookup_key_of`).
pub fn lookup_key_chars(chars: &Vec<char>) -> (key: Vec<char>)
    ensures
        key@ == lookup_key_of(chars@),
{
    let ghost s = chars@;
    let mut start = chars.len();
    while start > 0 && !(chars[start - 1] == '/' || chars[start - 1] == '\\')
        invariant
            start <= s.len(),
            s == chars@,
            leaf_start(s, s.len() as int) == leaf_start(s, start as int),
        decreases start,
    {
        start -= 1;
    }
    let ghost leaf = s.subrange(start as int, s.len() as int);
    let mut dot = chars.len();
    let mut found = false;
    while dot > start && chars[dot - 1] != '.'
        invariant
            start <= dot <= s.len(),
            s == chars@,
            leaf == s.subrange(start as int, s.len() as int),
            last_dot(leaf, leaf.len() as int) == last_dot(leaf, dot - start),
        decreases dot - start,
    {
        dot -= 1;
    }
    let mut end = chars.len();
    if dot > start {
        let ext = slice_chars(chars, dot, chars.len());
        assert(ext@ =~= leaf.subrange(dot - start, leaf.len() as int));
        if audio_extension(ext.as_slice()) {
            end = dot - 1;
        }
    }
    let mut key: Vec<char> = Vec::new();
    let mut i = start;
    while i < end
        invariant
            start <= i <= end <= s.len(),
            s == chars@,
            key@ == s.subrange(start as int, i as int).map_values(|c: char| char_upper(c)),
        decreases end - i,
    {
        key.push(to_upper_char(chars[i]));
        i += 1;
        assert(key@ =~= s.subrange(start as int, i as int).map_values(|c: char| char_upper(c)));
    }
    assert(s.subrange(start as int, end as int) =~= (if last_dot(leaf, leaf.len() as int) >= 0
        && is_audio_extension(leaf.subrange(last_dot(leaf, leaf.len() as int) + 1, leaf.len() as int)) {
        leaf.subrange(0, last_dot(leaf, leaf.len() as int))
    } else {
        leaf
    }));
    key
}

/// The characters `s[lo..hi]`.
pub fn slice_chars(s: &Vec<char>, lo: usize, hi: usize) -> (r: Vec<char>)
    requires
        lo <= hi <= s@.len(),
    ensures
        r@ == s@.subrange(lo as int, hi as int),
{
    let mut r: Vec<char> = Vec::new();
    let mut i = lo;
    while i < hi
        invariant
            lo <= i <= hi <= s@.len(),
            r@ == s@.subrange(lo as int, i as int),
        decreases hi - i,
    {
        r.push(s[i]);
        i += 1;
        assert(r@ =~= s@.subrange(lo as int, i as int));
    }
    r
}

/// The key under which an audio resource is looked up: leaf name without a
/// final `.ogg`/`.wav`/`.wma`/`.mix` (any ASCII case), in ASCII upper case.
pub fn audio_lookup_key(name: &str) -> (key: String)
    ensures
        key@ == lookup_key_of(name@),
{
    let chars = chars_of(name);
    let key = lookup_key_chars(&chars);
    string_from_chars(key.as_slice())
}

proof fn lemma_leaf_start_bounds(s: Seq<char>, i: int)
    requires
        0 <= i <= s.len(),
    ensures
        0 <= leaf_start(s, i) <= i,
        forall|j: int| leaf_start(s, i) <= j < i ==> s[j] != '/' && s[j] != '\\',
    decreases i,
{
    if i > 0 && !(s[i - 1] == '/' || s[i - 1] == '\\') {
        lemma_leaf_start_bounds(s, i - 1);
    }
}

proof fn lemma_last_dot_bounds(s: Seq<char>, i: int)
    requires
        0 <= i <= s.len(),
    ensures
        -1 <= last_dot(s, i) < i,
    decreases i,
{
    if i > 0 && s[i - 1] != '.' {
        lemma_last_dot_bounds(s, i - 1);
    }
}

proof fn lemma_leaf_start_after_dir(p: Seq<char>, n: Seq<char>, i: int)
    requires
        p.len() > 0,
        p.last() == '/',
        0 <= i <= n.len(),
    ensures
        leaf_start(p + n, p.len() + i) == p.len() + leaf_start(n, i),
    decreases i,
{
    let t = p + n;
    if i == 0 {
        assert(t[p.len() - 1] == '/');
    } else {
        assert(t[p.len() + i - 1] == n[i - 1]);
        lemma_leaf_start_after_dir(p, n, i - 1);
    }
}

proof fn lemma_lower_keeps_positions(s: Seq<char>, i: int)
    requires
        0 <= i <= s.len(),
    ensures
        leaf_start(s.map_values(|c: char| char_lower(c)), i) == leaf_start(s, i),
        last_dot(s.map_values(|c: char| char_lower(c)), i) == last_dot(s, i),
    decreases i,
{
    if i > 0 {
        let l = s.map_values(|c: char| char_lower(c));
        assert(l[i - 1] == char_lower(s[i - 1]));
        lemma_lower_keeps_positions(s, i - 1);
    }
}

/// An audio lookup key holds no path separator and no ASCII lower-case
/// letter; it does not change when a directory is put in front of the name
/// or when the name is lower-cased.
pub proof fn lemma_lookup_key_normal_form(name: Seq<char>, dir: Seq<char>)
    ensures
        forall|j: int| 0 <= j < lookup_key_of(name).len() ==> {
            let c = #[trigger] lookup_key_of(name)[j];
            c != '/' && c != '\\' && !('a' <= c <= 'z')
        },
        lookup_key_of(dir + seq!['/'] + name) == lookup_key_of(name),
        lookup_key_of(name.map_values(|c: char| char_lower(c))) == lookup_key_of(name),
{
    let n = name.len() as int;
    lemma_leaf_start_bounds(name, n);
    let ls = leaf_start(name, n);
    let leaf = name.subrange(ls, n);
    lemma_last_dot_bounds(leaf, leaf.len() as int);
    assert forall|j: int| 0 <= j < lookup_key_of(name).len() implies {
        let c = #[trigger] lookup_key_of(name)[j];
        c != '/' && c != '\\' && !('a' <= c <= 'z')
    } by {
        assert(leaf[j] == name[ls + j]);
    }
    let p = dir + seq!['/'];
    assert(p.last() == '/');
    lemma_leaf_start_after_dir(p, name, n);
    let t = dir + seq!['/'] + name;
    assert(t == p + name);
    assert(t.subrange(leaf_start(t, t.len() as int), t.len() as int) =~= leaf);
    let l = name.map_values(|c: char| char_lower(c));
    lemma_lower_keeps_positions(name, n);
    let lleaf = l.subrange(ls, n);
    assert(lleaf =~= leaf.map_values(|c: char| char_lower(c)));
    lemma_lower_keeps_positions(leaf, leaf.len() as int);
    let dot = last_dot(leaf, leaf.len() as int);
    if dot >= 0 {
        let ext = leaf.subrange(dot + 1, leaf.len() as int);
        let lext = lleaf.subrange(dot + 1, leaf.len() as int);
        assert(lext.map_values(|c: char| char_lower(c)) =~= ext.map_values(|c: char| char_lower(c))) by {
            assert forall|j: int| 0 <= j < ext.len() implies char_lower(#[trigger] lext[j]) == char_lower(ext[j]) by {
                assert(lext[j] == char_lower(ext[j]));
            }
        }
    }
    let stem = if dot >= 0 && is_audio_extension(leaf.subrange(dot + 1, leaf.len() as int)) {
        leaf.subrange(0, dot)
    } else {
        leaf
    };
    let lstem = if dot >= 0 && is_audio_extension(lleaf.subrange(dot + 1, leaf.len() as int)) {
        lleaf.subrange(0, dot)
    } else {
        lleaf
    };
    assert(lstem.map_values(|c: char| char_upper(c)) =~= stem.map_values(|c: char| char_upper(c))) by {
        assert forall|j: int| 0 <= j < stem.len() implies char_upper(#[trigger] lstem[j]) == char_upper(stem[j]) by {
            assert(lstem[j] == char_lower(stem[j]));
        }
    }
}

// ---------------------------------------------------------------- BGM.CSV

/// One `BGM.CSV` row. Loop columns are PCM sample indices in that file.
#[derive(Clone, Copy, Debug, Eq, PartialEq, Structural)]
pub struct BgmLoop {
    pub intro_samples: i64,
    pub loop_start_samples: i64,
    pub loop_end_samples: i64,
}

/// Number of leading characters equal to `c`.
pub open spec fn leading_count(s: Seq<char>, c: char) -> nat
    decreases s.len(),
{
    if s.len() > 0 && s[0] == c {
        1 + leading_count(s.drop_first(), c)
    } else {
        0
    }
}

/// Number of trailing characters equal to `c`.
pub open spec fn trailing_count(s: Seq<char>, c: char) -> nat
    decreases s.len(),
{
    if s.len() > 0 && s.last() == c {
        1 + trailing_count(s.drop_last(), c)
    } else {
        0
    }
}

/// `str::trim_start_matches(c)`.
pub open spec fn strip_leading(s: Seq<char>, c: char) -> Seq<char> {
    s.subrange(leading_count(s, c) as int, s.len() as int)
}

/// `str::trim_matches(c)`: every leading and trailing `c` removed.
pub open spec fn strip_both(s: Seq<char>, c: char) -> Seq<char> {
    let t = strip_leading(s, c);
    t.subrange(0, t.len() - trailing_count(t, c))
}

/// Index of the first `c` at or after `i`, or the length.
pub open spec fn find_char(s: Seq<char>, c: char, i: int) -> int
    decreases s.len() - i,
{
    if i >= s.len() {
        s.len() as int
    } else if s[i] == c {
        i
    } else {
        find_char(s, c, i + 1)
    }
}

pub proof fn lemma_find_char(s: Seq<char>, c: char, i: int)
    requires
        0 <= i <= s.len(),
    ensures
        i <= find_char(s, c, i) <= s.len(),
        find_char(s, c, i) < s.len() ==> s[find_char(s, c, i)] == c,
        forall|j: int| i <= j < find_char(s, c, i) ==> s[j] != c,
    decreases s.len() - i,
{
    if i < s.len() && s[i] != c {
        lemma_find_char(s, c, i + 1);
    }
}

/// The fields of a CSV row: a field that starts with `"` runs to the next
/// `"` (the separating `,` and white space after it are skipped); any other
/// field runs to the next `,` and is trimmed.
pub open spec fn csv_fields(rest: Seq<char>) -> Seq<Seq<char>>
    decreases rest.len(),
{
    if rest.len() == 0 {
        seq![]
    } else {
        let close = find_char(rest, '"', 1);
        let comma = find_char(rest, ',', 0);
        if rest[0] == '"' && close < rest.len() {
            let after = rest.subrange(close + 1, rest.len() as int);
            let next = trim_start(strip_leading(after, ','));
            if next.len() < rest.len() {
                seq![rest.subrange(1, close)] + csv_fields(next)
            } else {
                seq![rest.subrange(1, close)]
            }
        } else if comma < rest.len() {
            let next = trim_start(rest.subrange(comma + 1, rest.len() as int));
            if next.len() < rest.len() {
                seq![trim(rest.subrange(0, comma))] + csv_fields(next)
            } else {
                seq![trim(rest.subrange(0, comma))]
            }
        } else {
            seq![trim(rest)]
        }
    }
}

/// The value of a non-empty run of ASCII digits.
pub open spec fn digits_value(d: Seq<char>) -> int
    decreases d.len(),
{
    if d.len() == 0 {
        0
    } else {
        digits_value(d.drop_last()) * 10 + (d.last() as int - '0' as int)
    }
}

pub open spec fn all_digits(d: Seq<char>) -> bool {
    forall|i: int| 0 <= i < d.len() ==> '0' <= #[trigger] d[i] <= '9'
}

/// `str::parse::<i64>`: an optional `+` or `-`, then one or more ASCII
/// digits, and the value within `i64`.
pub open spec fn parse_i64_spec(s: Seq<char>) -> Option<i64> {
    let neg = s.len() > 0 && s[0] == '-';
    let signed = s.len() > 0 && (s[0] == '-' || s[0] == '+');
    let d = if signed { s.drop_first() } else { s };
    if d.len() == 0 || !all_digits(d) {
        None
    } else {
        let v = if neg { -digits_value(d) } else { digits_value(d) };
        if i64::MIN <= v <= i64::MAX {
            Some(v as i64)
        } else {
            None
        }
    }
}

proof fn lemma_digits_nonneg(d: Seq<char>)
    requires
        all_digits(d),
    ensures
        digits_value(d) >= 0,
    decreases d.len(),
{
    if d.len() > 0 {
        assert(all_digits(d.drop_last())) by {
            assert forall|i: int| 0 <= i < d.drop_last().len() implies '0' <= #[trigger] d.drop_last()[i]
                <= '9' by {
                assert(d.drop_last()[i] == d[i]);
            }
        }
        lemma_digits_nonneg(d.drop_last());
    }
}

/// Parses `s[lo..hi]` as an `i64` the way `str::parse` does.
pub fn parse_i64(s: &Vec<char>, lo: usize, hi: usize) -> (res: Option<i64>)
    requires
        lo <= hi <= s@.len(),
    ensures
        res == parse_i64_spec(s@.subrange(lo as int, hi as int)),
{
    let ghost t = s@.subrange(lo as int, hi as int);
    let mut i = lo;
    let mut neg = false;
    if i < hi && (s[i] == '-' || s[i] == '+') {
        neg = s[i] == '-';
        i += 1;
    }
    let ghost d = s@.subrange(i as int, hi as int);
    assert(t.len() > 0 ==> t[0] == s@[lo as int]);
    assert(neg == (t.len() > 0 && t[0] == '-'));
    assert(d =~= (if t.len() > 0 && (t[0] == '-' || t[0] == '+') { t.drop_first() } else { t }));
    if i == hi {
        return None;
    }
    let cap: u128 = 0x1_0000_0000_0000_0000;
    let mut acc: u128 = 0;
    let start = i;
    while i < hi
        invariant
            start <= i <= hi <= s@.len(),
            start < hi,
            d == s@.subrange(start as int, hi as int),
            t == s@.subrange(lo as int, hi as int),
            neg == (t.len() > 0 && t[0] == '-'),
            d == (if t.len() > 0 && (t[0] == '-' || t[0] == '+') { t.drop_first() } else { t }),
            cap == 0x1_0000_0000_0000_0000,
            all_digits(s@.subrange(start as int, i as int)),
            acc == (if digits_value(s@.subrange(start as int, i as int)) < cap {
                digits_value(s@.subrange(start as int, i as int))
            } else {
                cap as int
            }),
        decreases hi - i,
    {
        let c = s[i];
        if !('0' <= c && c <= '9') {
            proof {
                assert(d[i - start] == c);
                assert(!all_digits(d));
            }
            return None;
        }
        let ghost pre = s@.subrange(start as int, i as int);
        let ghost nxt = s@.subrange(start as int, i + 1);
        assert(nxt.drop_last() =~= pre);
        assert(all_digits(nxt)) by {
            assert forall|j: int| 0 <= j < nxt.len() implies '0' <= #[trigger] nxt[j] <= '9' by {
                if j < pre.len() {
                    assert(nxt[j] == pre[j]);
                }
            }
        }
        proof {
            lemma_digits_nonneg(pre);
        }
        let digit = (c as u32 - '0' as u32) as u128;
        let next = acc * 10 + digit;
        acc = if next < cap { next } else { cap };
        i += 1;
    }
    assert(s@.subrange(start as int, i as int) =~= d);
    proof {
        lemma_digits_nonneg(d);
    }
    if neg {
        if acc > 0x8000_0000_0000_0000 {
            None
        } else if acc == 0x8000_0000_0000_0000 {
            Some(i64::MIN)
        } else {
            Some(-(acc as i64))
        }
    } else {
        if acc > 0x7FFF_FFFF_FFFF_FFFF {
            None
        } else {
            Some(acc as i64)
        }
    }
}

/// `s[lo..]` after every leading `c` of `s[lo..hi]`.
fn skip_char(s: &Vec<char>, lo: usize, hi: usize, c: char) -> (res: usize)
    requires
        lo <= hi <= s@.len(),
    ensures
        lo <= res <= hi,
        res == lo + leading_count(s@.subrange(lo as int, hi as int), c),
{
    let mut i = lo;
    while i < hi && s[i] == c
        invariant
            lo <= i <= hi <= s@.len(),
            leading_count(s@.subrange(lo as int, hi as int), c) == (i - lo) + leading_count(
                s@.subrange(i as int, hi as int),
                c,
            ),
        decreases hi - i,
    {
        assert(s@.subrange(i as int, hi as int).drop_first() =~= s@.subrange(i + 1, hi as int));
        i += 1;
    }
    i
}

/// The end of `s[lo..hi]` before every trailing `c`.
fn skip_char_back(s: &Vec<char>, lo: usize, hi: usize, c: char) -> (res: usize)
    requires
        lo <= hi <= s@.len(),
    ensures
        lo <= res <= hi,
        res == hi - trailing_count(s@.subrange(lo as int, hi as int), c),
{
    let mut j = hi;
    while j > lo && s[j - 1] == c
        invariant
            lo <= j <= hi <= s@.len(),
            trailing_count(s@.subrange(lo as int, hi as int), c) == (hi - j) + trailing_count(
                s@.subrange(lo as int, j as int),
                c,
            ),
        decreases j - lo,
    {
        assert(s@.subrange(lo as int, j as int).drop_last() =~= s@.subrange(lo as int, j - 1));
        j -= 1;
    }
    j
}

/// The first `c` in `s[lo..hi]`, as an absolute index, or `hi`.
fn find_in(s: &Vec<char>, lo: usize, hi: usize, c: char) -> (res: usize)
    requires
        lo <= hi <= s@.len(),
    ensures
        lo <= res <= hi,
        res == lo + find_char(s@.subrange(lo as int, hi as int), c, 0),
{
    let ghost t = s@.subrange(lo as int, hi as int);
    let mut i = lo;
    while i < hi && s[i] != c
        invariant
            lo <= i <= hi <= s@.len(),
            t == s@.subrange(lo as int, hi as int),
            find_char(t, c, 0) == find_char(t, c, i - lo),
        decreases hi - i,
    {
        i += 1;
    }
    i
}

/// `trim` of `s[lo..hi]`, as bounds.
fn trim_bounds(s: &Vec<char>, lo: usize, hi: usize) -> (res: (usize, usize))
    requires
        lo <= hi <= s@.len(),
    ensures
        lo <= res.0 <= res.1 <= hi,
        s@.subrange(res.0 as int, res.1 as int) == trim(s@.subrange(lo as int, hi as int)),
{
    let a = skip_white(s, lo, hi);
    assert(s@.subrange(a as int, hi as int) =~= trim_start(s@.subrange(lo as int, hi as int)));
    let b = skip_white_back(s, a, hi);
    assert(s@.subrange(a as int, b as int) =~= trim_end(s@.subrange(a as int, hi as int)));
    (a, b)
}

/// Splits the CSV row `s[lo..hi]` into its fields (see `csv_fields`).
pub fn split_csv_row(s: &Vec<char>, lo: usize, hi: usize) -> (parts: Vec<Vec<char>>)
    requires
        lo <= hi <= s@.len(),
    ensures
        parts@.map_values(|p: Vec<char>| p@) == csv_fields(s@.subrange(lo as int, hi as int)),
{
    let mut parts: Vec<Vec<char>> = Vec::new();
    let mut a = lo;
    while a < hi
        invariant
            lo <= a <= hi <= s@.len(),
            parts@.map_values(|p: Vec<char>| p@) + csv_fields(s@.subrange(a as int, hi as int))
                == csv_fields(s@.subrange(lo as int, hi as int)),
        decreases hi - a,
    {
        let ghost rest = s@.subrange(a as int, hi as int);
        let ghost pre = parts@.map_values(|p: Vec<char>| p@);
        let close = find_in(s, a + 1, hi, '"');
        let comma = find_in(s, a, hi, ',');
        proof {
            let r1 = s@.subrange(a + 1, hi as int);
            lemma_find_char(r1, '"', 0);
            lemma_find_char(rest, '"', 1);
            lemma_find_char(rest, ',', 0);
            assert forall|j: int| 0 <= j < r1.len() implies r1[j] == rest[j + 1] by {}
            if find_char(rest, '"', 1) < rest.len() {
                assert(rest[find_char(rest, '"', 1)] == '"');
            }
            assert(close - a == find_char(rest, '"', 1)) by {
                if close - a < find_char(rest, '"', 1) {
                    assert(rest[close - a] != '"');
                    assert(r1[close - a - 1] == '"');
                } else if close - a > find_char(rest, '"', 1) && find_char(rest, '"', 1) < rest.len() {
                    assert(r1[find_char(rest, '"', 1) - 1] != '"');
                }
            }
        }
        if s[a] == '"' && close < hi {
            let field = slice_chars(s, a + 1, close);
            let c = skip_char(s, close + 1, hi, ',');
            let next = skip_white(s, c, hi);
            proof {
                assert(s@.subrange(c as int, hi as int) =~= strip_leading(
                    rest.subrange(close - a + 1, rest.len() as int),
                    ',',
                )) by {
                    assert(rest.subrange(close - a + 1, rest.len() as int) =~= s@.subrange(
                        close + 1,
                        hi as int,
                    ));
                }
                assert(s@.subrange(next as int, hi as int) =~= trim_start(
                    s@.subrange(c as int, hi as int),
                ));
                assert(field@ =~= rest.subrange(1, close - a));
            }
            parts.push(field);
            proof {
                assert(parts@.map_values(|p: Vec<char>| p@) =~= pre.push(field@));
                assert(pre.push(field@) + csv_fields(s@.subrange(next as int, hi as int)) =~= pre
                    + csv_fields(rest));
            }
            a = next;
        } else if comma < hi {
            let (x, y) = trim_bounds(s, a, comma);
            let field = slice_chars(s, x, y);
            let next = skip_white(s, comma + 1, hi);
            proof {
                assert(s@.subrange(a as int, comma as int) =~= rest.subrange(0, comma - a));
                assert(s@.subrange(comma + 1, hi as int) =~= rest.subrange(comma - a + 1, rest.len() as int));
                assert(s@.subrange(next as int, hi as int) =~= trim_start(
                    s@.subrange(comma + 1, hi as int),
                ));
            }
            parts.push(field);
            proof {
                assert(parts@.map_values(|p: Vec<char>| p@) =~= pre.push(field@));
                assert(pre.push(field@) + csv_fields(s@.subrange(next as int, hi as int)) =~= pre
                    + csv_fields(rest));
            }
            a = next;
        } else {
            let (x, y) = trim_bounds(s, a, hi);
            let field = slice_chars(s, x, y);
            parts.push(field);
            proof {
                assert(parts@.map_values(|p: Vec<char>| p@) =~= pre.push(field@));
                assert(csv_fields(s@.subrange(hi as int, hi as int)) =~= seq![]);
                assert(pre.push(field@) + csv_fields(s@.subrange(hi as int, hi as int)) =~= pre
                    + csv_fields(rest));
            }
            a = hi;
        }
    }
    proof {
        assert(csv_fields(s@.subrange(hi as int, hi as int)) =~= seq![]);
        assert(parts@.map_values(|p: Vec<char>| p@) + csv_fields(s@.subrange(hi as int, hi as int))
            =~= parts@.map_values(|p: Vec<char>| p@));
    }
    parts
}

/// What one `BGM.CSV` line contributes: nothing for blank lines, comments
/// (`//` or `#`), rows of fewer than four fields, an empty name or a column
/// that is not an `i64`; otherwise the name's lookup key and its loop points.
pub open spec fn bgm_row(line: Seq<char>) -> Option<(Seq<char>, BgmLoop)> {
    let l = strip_leading(trim(line), '\u{feff}');
    if l.len() == 0 || (l.len() >= 2 && l[0] == '/' && l[1] == '/') || l[0] == '#' {
        None
    } else {
        let parts = csv_fields(l);
        if parts.len() < 4 {
            None
        } else {
            let name = trim(strip_both(trim(parts[0]), '"'));
            if name.len() == 0 {
                None
            } else {
                match (
                    parse_i64_spec(trim(parts[1])),
                    parse_i64_spec(trim(parts[2])),
                    parse_i64_spec(trim(parts[3])),
                ) {
                    (Some(intro), Some(start), Some(end)) => Some(
                        (
                            lookup_key_of(name),
                            BgmLoop {
                                intro_samples: intro,
                                loop_start_samples: start,
                                loop_end_samples: end,
                            },
                        ),
                    ),
                    _ => None,
                }
            }
        }
    }
}

/// The first line of `t` (`str::lines`: up to the first `\n`, without a `\r`
/// just before it).
pub open spec fn first_line(t: Seq<char>) -> Seq<char> {
    let n = find_char(t, '\n', 0);
    if n >= t.len() {
        t
    } else {
        let l = t.subrange(0, n);
        if l.len() > 0 && l.last() == '\r' {
            l.drop_last()
        } else {
            l
        }
    }
}

/// What follows the first line of `t`.
pub open spec fn after_first_line(t: Seq<char>) -> Seq<char> {
    let n = find_char(t, '\n', 0);
    if n >= t.len() {
        seq![]
    } else {
        t.subrange(n + 1, t.len() as int)
    }
}

/// The table after reading every line of `t` into `m`, later rows replacing
/// earlier ones with the same key.
pub open spec fn bgm_fold(m: Map<Seq<char>, BgmLoop>, t: Seq<char>) -> Map<Seq<char>, BgmLoop>
    decreases t.len(),
{
    if t.len() == 0 {
        m
    } else {
        let m2 = match bgm_row(first_line(t)) {
            Some(row) => m.insert(row.0, row.1),
            None => m,
        };
        if after_first_line(t).len() < t.len() {
            bgm_fold(m2, after_first_line(t))
        } else {
            m2
        }
    }
}

/// A CSV field that no reading changes: not empty, with no white space, `,` or `"`.
pub open spec fn plain_field(f: Seq<char>) -> bool {
    &&& f.len() > 0
    &&& forall|i: int|
        0 <= i < f.len() ==> !is_white_space(#[trigger] f[i]) && f[i] != ',' && f[i] != '"'
}

/// The row `name,intro,start,end` of four plain fields.
pub open spec fn bgm_line(name: Seq<char>, ta: Seq<char>, tb: Seq<char>, tc: Seq<char>) -> Seq<char> {
    name + seq![','] + ta + seq![','] + tb + seq![','] + tc
}

proof fn lemma_plain_field_is_trimmed(f: Seq<char>)
    requires
        plain_field(f),
    ensures
        trim(f) == f,
        strip_both(f, '"') == f,
        find_char(f, ',', 0) == f.len(),
{
    assert(leading_white(f) == 0);
    assert(trim_start(f) =~= f);
    assert(trailing_white(f) == 0);
    assert(trim_end(f) =~= f);
    assert(leading_count(f, '"') == 0);
    assert(strip_leading(f, '"') =~= f);
    assert(trailing_count(f, '"') == 0);
    assert(strip_both(f, '"') =~= f);
    lemma_find_char(f, ',', 0);
}

proof fn lemma_find_comma_after_plain(f: Seq<char>, rest: Seq<char>, i: int)
    requires
        plain_field(f),
        0 <= i <= f.len(),
    ensures
        find_char(f + seq![','] + rest, ',', i) == f.len(),
    decreases f.len() - i,
{
    let s = f + seq![','] + rest;
    if i < f.len() {
        assert(s[i] == f[i]);
        lemma_find_comma_after_plain(f, rest, i + 1);
    } else {
        assert(s[i] == ',');
    }
}

proof fn lemma_csv_fields_plain(f: Seq<char>)
    requires
        plain_field(f),
    ensures
        csv_fields(f) == seq![f],
{
    lemma_plain_field_is_trimmed(f);
}

proof fn lemma_csv_fields_plain_then(f: Seq<char>, rest: Seq<char>)
    requires
        plain_field(f),
        rest.len() > 0,
        !is_white_space(rest[0]),
    ensures
        csv_fields(f + seq![','] + rest) == seq![f] + csv_fields(rest),
{
    let s = f + seq![','] + rest;
    lemma_plain_field_is_trimmed(f);
    lemma_find_comma_after_plain(f, rest, 0);
    assert(s[0] == f[0]);
    let tail = s.subrange(f.len() as int + 1, s.len() as int);
    assert(tail =~= rest);
    assert(leading_white(rest) == 0);
    assert(trim_start(tail) =~= rest);
    assert(s.subrange(0, f.len() as int) =~= f);
}

/// A `BGM.CSV` row `name,intro,start,end` of plain fields, whose name starts no
/// comment, is read as the name's lookup key with its loop points column by
/// column: intro from the second field, loop start from the third, loop end from
/// the fourth. A file made of that row alone, with or without a line end, holds
/// that entry and no other.
pub proof fn lemma_bgm_row_columns(
    name: Seq<char>,
    ta: Seq<char>,
    tb: Seq<char>,
    tc: Seq<char>,
    a: i64,
    b: i64,
    c: i64,
)
    requires
        plain_field(name),
        plain_field(ta),
        plain_field(tb),
        plain_field(tc),
        name[0] != '/',
        name[0] != '#',
        name[0] != '\u{feff}',
        parse_i64_spec(ta) == Some(a),
        parse_i64_spec(tb) == Some(b),
        parse_i64_spec(tc) == Some(c),
    ensures
        bgm_row(bgm_line(name, ta, tb, tc)) == Some(
            (
                lookup_key_of(name),
                BgmLoop { intro_samples: a, loop_start_samples: b, loop_end_samples: c },
            ),
        ),
        bgm_fold(Map::empty(), bgm_line(name, ta, tb, tc)) == Map::<Seq<char>, BgmLoop>::empty().insert(
            lookup_key_of(name),
            BgmLoop { intro_samples: a, loop_start_samples: b, loop_end_samples: c },
        ),
        bgm_fold(Map::empty(), bgm_line(name, ta, tb, tc) + seq!['\n']) == Map::<
            Seq<char>,
            BgmLoop,
        >::empty().insert(
            lookup_key_of(name),
            BgmLoop { intro_samples: a, loop_start_samples: b, loop_end_samples: c },
        ),
{
    let line = bgm_line(name, ta, tb, tc);
    let r3 = tc;
    let r2 = tb + seq![','] + tc;
    let r1 = ta + seq![','] + tb + seq![','] + tc;
    assert(line =~= name + seq![','] + r1);
    assert(r1 =~= ta + seq![','] + r2);
    assert(r2 =~= tb + seq![','] + r3);
    assert(r1[0] == ta[0]);
    assert(r2[0] == tb[0]);
    lemma_csv_fields_plain(tc);
    lemma_csv_fields_plain_then(tb, r3);
    lemma_csv_fields_plain_then(ta, r2);
    lemma_csv_fields_plain_then(name, r1);
    lemma_plain_field_is_trimmed(name);
    lemma_plain_field_is_trimmed(ta);
    lemma_plain_field_is_trimmed(tb);
    lemma_plain_field_is_trimmed(tc);
    let parts = csv_fields(line);
    assert(parts =~= seq![name, ta, tb, tc]);
    // the line is already trimmed and has no byte-order mark
    assert(line[0] == name[0]);
    assert(line.last() == tc.last());
    assert(leading_white(line) == 0);
    assert(trim_start(line) =~= line);
    assert(trailing_white(line) == 0);
    assert(trim_end(line) =~= line);
    assert(leading_count(line, '\u{feff}') == 0);
    assert(strip_leading(trim(line), '\u{feff}') =~= line);
    // no line end inside the row
    assert forall|i: int| 0 <= i < line.len() implies #[trigger] line[i] != '\n' by {
        if i < name.len() {
            assert(line[i] == name[i]);
        } else if i == name.len() {
        } else if i < name.len() + 1 + r1.len() {
            let j = i - name.len() - 1;
            assert(line[i] == r1[j]);
            if j < ta.len() {
                assert(r1[j] == ta[j]);
            } else if j == ta.len() {
            } else {
                let k = j - ta.len() - 1;
                assert(r1[j] == r2[k]);
                if k < tb.len() {
                    assert(r2[k] == tb[k]);
                } else if k > tb.len() {
                    assert(r2[k] == tc[k - tb.len() - 1]);
                }
            }
        }
    }
    lemma_find_char(line, '\n', 0);
    assert(find_char(line, '\n', 0) == line.len());
    assert(after_first_line(line) =~= seq![]);
    let t = line + seq!['\n'];
    assert(t.subrange(0, line.len() as int) =~= line);
    lemma_find_char(t, '\n', 0);
    assert forall|i: int| 0 <= i < line.len() implies #[trigger] t[i] != '\n' by {
        assert(t[i] == line[i]);
    }
    assert(t[line.len() as int] == '\n');
    assert(find_char(t, '\n', 0) == line.len());
    assert(first_line(t) =~= line);
    assert(after_first_line(t) =~= seq![]);
    assert(first_line(line) == line);
    let one = Map::<Seq<char>, BgmLoop>::empty().insert(
        lookup_key_of(name),
        BgmLoop { intro_samples: a, loop_start_samples: b, loop_end_samples: c },
    );
    assert(bgm_fold(one, seq![]) == one);
}

/// The text of a `BGM.CSV` file: UTF-8 when the bytes are valid UTF-8,
/// otherwise Shift-JIS.
pub open spec fn bgm_csv_text(bytes: Seq<u8>) -> Seq<char> {
    if valid_utf8(bytes) {
        decode_utf8(bytes)
    } else {
        shift_jis_text(bytes)
    }
}

/// The loop table of a `BGM.CSV` file.
pub open spec fn bgm_table_of(bytes: Seq<u8>) -> Map<Seq<char>, BgmLoop> {
    bgm_fold(Map::empty(), bgm_csv_text(bytes))
}

/// `BGM.CSV` loop points by lookup key.
#[derive(Clone, Debug)]
pub struct BgmTable {
    rows: Vec<(Vec<char>, BgmLoop)>,
}

pub open spec fn rows_map(rows: Seq<(Vec<char>, BgmLoop)>) -> Map<Seq<char>, BgmLoop>
    decreases rows.len(),
{
    if rows.len() == 0 {
        Map::empty()
    } else {
        rows_map(rows.drop_last()).insert(rows.last().0@, rows.last().1)
    }
}

pub open spec fn keys_distinct(rows: Seq<(Vec<char>, BgmLoop)>) -> bool {
    forall|i: int, j: int| 0 <= i < j < rows.len() ==> rows[i].0@ != rows[j].0@
}

proof fn lemma_rows_map_lookup(rows: Seq<(Vec<char>, BgmLoop)>, k: Seq<char>)
    requires
        keys_distinct(rows),
    ensures
        forall|i: int| 0 <= i < rows.len() && rows[i].0@ == k ==> rows_map(rows).dom().contains(k)
            && rows_map(rows)[k] == rows[i].1,
        (forall|i: int| 0 <= i < rows.len() ==> rows[i].0@ != k) ==> !rows_map(rows).dom().contains(k),
    decreases rows.len(),
{
    if rows.len() > 0 {
        let d = rows.drop_last();
        assert(keys_distinct(d));
        lemma_rows_map_lookup(d, k);
        assert forall|i: int| 0 <= i < rows.len() && rows[i].0@ == k implies rows_map(rows).dom().contains(k)
            && rows_map(rows)[k] == rows[i].1 by {
            if i < rows.len() - 1 {
                assert(rows[i] == d[i]);
                assert(rows.last().0@ != k);
            }
        }
        assert((forall|i: int| 0 <= i < rows.len() ==> rows[i].0@ != k) ==> !rows_map(rows).dom().contains(k)) by {
            if forall|i: int| 0 <= i < rows.len() ==> rows[i].0@ != k {
                assert forall|i: int| 0 <= i < d.len() implies d[i].0@ != k by {
                    assert(rows[i] == d[i]);
                }
                assert(rows[rows.len() - 1].0@ != k);
            }
        }
    }
}

proof fn lemma_rows_map_update(rows: Seq<(Vec<char>, BgmLoop)>, i: int, k: Vec<char>, v: BgmLoop)
    requires
        keys_distinct(rows),
        0 <= i < rows.len(),
        rows[i].0@ == k@,
    ensures
        rows_map(rows.update(i, (k, v))) == rows_map(rows).insert(k@, v),
        keys_distinct(rows.update(i, (k, v))),
    decreases rows.len(),
{
    let u = rows.update(i, (k, v));
    if i == rows.len() - 1 {
        assert(u.drop_last() =~= rows.drop_last());
        assert(rows_map(u) =~= rows_map(rows).insert(k@, v));
    } else {
        let d = rows.drop_last();
        assert(keys_distinct(d));
        lemma_rows_map_update(d, i, k, v);
        assert(u.drop_last() =~= d.update(i, (k, v)));
        assert(rows.last().0@ != k@);
        assert(rows_map(u) =~= rows_map(rows).insert(k@, v));
    }
}

impl BgmTable {
    pub closed spec fn view(&self) -> Map<Seq<char>, BgmLoop> {
        rows_map(self.rows@)
    }

    pub closed spec fn wf(&self) -> bool {
        keys_distinct(self.rows@)
    }

    pub fn new() -> (t: Self)
        ensures
            t.wf(),
            t.view() == Map::<Seq<char>, BgmLoop>::empty(),
    {
        BgmTable { rows: Vec::new() }
    }

    fn find(&self, key: &Vec<char>) -> (res: Option<usize>)
        requires
            self.wf(),
        ensures
            res matches Some(i) ==> i < self.rows@.len() && self.rows@[i as int].0@ == key@,
            res is None ==> forall|i: int| 0 <= i < self.rows@.len() ==> self.rows@[i].0@ != key@,
    {
        let mut i: usize = 0;
        while i < self.rows.len()
            invariant
                i <= self.rows@.len(),
                forall|j: int| 0 <= j < i ==> self.rows@[j].0@ != key@,
            decreases self.rows@.len() - i,
        {
            if chars_equal(&self.rows[i].0, key) {
                return Some(i);
            }
            i += 1;
        }
        None
    }

    /// Sets the loop points of `key`, replacing any earlier row for it.
    pub fn insert(&mut self, key: Vec<char>, value: BgmLoop)
        requires
            old(self).wf(),
        ensures
            final(self).wf(),
            final(self).view() == old(self).view().insert(key@, value),
    {
        match self.find(&key) {
            Some(i) => {
                proof {
                    lemma_rows_map_update(self.rows@, i as int, key, value);
                }
                self.rows.set(i, (key, value));
            },
            None => {
                self.rows.push((key, value));
                assert(self.rows@.drop_last() =~= old(self).rows@);
            },
        }
    }

    /// The loop points recorded for `name` (compared as given; callers pass a
    /// lookup key).
    pub fn get(&self, name: &str) -> (res: Option<BgmLoop>)
        requires
            self.wf(),
        ensures
            res is Some <==> self.view().dom().contains(name@),
            res matches Some(v) ==> self.view()[name@] == v,
    {
        let key = chars_of(name);
        let found = self.find(&key);
        proof {
            lemma_rows_map_lookup(self.rows@, name@);
        }
        match found {
            Some(i) => Some(self.rows[i].1),
            None => None,
        }
    }

    /// Number of keys in the table.
    pub fn len(&self) -> (n: usize)
        requires
            self.wf(),
        ensures
            n == self.view().dom().len(),
    {
        proof {
            lemma_rows_map_len(self.rows@);
        }
        self.rows.len()
    }
}

proof fn lemma_rows_map_len(rows: Seq<(Vec<char>, BgmLoop)>)
    requires
        keys_distinct(rows),
    ensures
        rows_map(rows).dom().finite(),
        rows_map(rows).dom().len() == rows.len(),
    decreases rows.len(),
{
    if rows.len() > 0 {
        let d = rows.drop_last();
        assert(keys_distinct(d));
        lemma_rows_map_len(d);
        lemma_rows_map_lookup(d, rows.last().0@);
        assert forall|i: int| 0 <= i < d.len() implies d[i].0@ != rows.last().0@ by {
            assert(rows[i] == d[i]);
        }
    }
}

fn chars_equal(a: &Vec<char>, b: &Vec<char>) -> (res: bool)
    ensures
        res == (a@ == b@),
{
    if a.len() != b.len() {
        return false;
    }
    let mut i: usize = 0;
    while i < a.len()
        invariant
            i <= a@.len() == b@.len(),
            forall|j: int| 0 <= j < i ==> a@[j] == b@[j],
        decreases a@.len() - i,
    {
        if a[i] != b[i] {
            return false;
        }
        i += 1;
    }
    assert(a@ =~= b@);
    true
}

/// Reads the `BGM.CSV` line `s[lo..hi]` (see `bgm_row`).
fn bgm_row_exec(s: &Vec<char>, lo: usize, hi: usize) -> (res: Option<(Vec<char>, BgmLoop)>)
    requires
        lo <= hi <= s@.len(),
    ensures
        match res {
            Some(row) => bgm_row(s@.subrange(lo as int, hi as int)) == Some((row.0@, row.1)),
            None => bgm_row(s@.subrange(lo as int, hi as int)) is None,
        },
{
    let ghost line = s@.subrange(lo as int, hi as int);
    let (a, b) = trim_bounds(s, lo, hi);
    let a2 = skip_char(s, a, b, '\u{feff}');
    let ghost l = s@.subrange(a2 as int, b as int);
    assert(l =~= strip_leading(trim(line), '\u{feff}'));
    if a2 == b || (b - a2 >= 2 && s[a2] == '/' && s[a2 + 1] == '/') || s[a2] == '#' {
        return None;
    }
    let parts = split_csv_row(s, a2, b);
    assert(parts@.len() == csv_fields(l).len());
    if parts.len() < 4 {
        return None;
    }
    assert(parts@[0]@ == csv_fields(l)[0]);
    assert(parts@[1]@ == csv_fields(l)[1]);
    assert(parts@[2]@ == csv_fields(l)[2]);
    assert(parts@[3]@ == csv_fields(l)[3]);
    let p0 = &parts[0];
    let (x, y) = trim_bounds(p0, 0, p0.len());
    let x2 = skip_char(p0, x, y, '"');
    let y2 = skip_char_back(p0, x2, y, '"');
    assert(p0@.subrange(x2 as int, y2 as int) =~= strip_both(trim(csv_fields(l)[0]), '"')) by {
        assert(p0@.subrange(0, p0@.len() as int) =~= p0@);
        assert(p0@.subrange(x2 as int, y as int) =~= strip_leading(p0@.subrange(x as int, y as int), '"'));
    }
    let (x3, y3) = trim_bounds(p0, x2, y2);
    if x3 == y3 {
        return None;
    }
    let name = slice_chars(p0, x3, y3);
    let p1 = &parts[1];
    let (i1, j1) = trim_bounds(p1, 0, p1.len());
    assert(p1@.subrange(0, p1@.len() as int) =~= p1@);
    let intro = match parse_i64(p1, i1, j1) {
        Some(v) => v,
        None => return None,
    };
    let p2 = &parts[2];
    let (i2, j2) = trim_bounds(p2, 0, p2.len());
    assert(p2@.subrange(0, p2@.len() as int) =~= p2@);
    let start = match parse_i64(p2, i2, j2) {
        Some(v) => v,
        None => return None,
    };
    let p3 = &parts[3];
    let (i3, j3) = trim_bounds(p3, 0, p3.len());
    assert(p3@.subrange(0, p3@.len() as int) =~= p3@);
    let end = match parse_i64(p3, i3, j3) {
        Some(v) => v,
        None => return None,
    };
    let key = lookup_key_chars(&name);
    Some((key, BgmLoop { intro_samples: intro, loop_start_samples: start, loop_end_samples: end }))
}

/// Parses `BGM.CSV` (`name, intro, loop_start, loop_end` per line) into loop
/// points by lookup key. The bytes are read as UTF-8 when valid, otherwise as
/// Shift-JIS.
pub fn parse_bgm_csv(bytes: &[u8]) -> (table: BgmTable)
    ensures
        table.wf(),
        table.view() == bgm_table_of(bytes@),
{
    let text = match utf8_text(bytes) {
        Some(t) => chars_of(t.as_str()),
        None => {
            let t = decode_shift_jis(bytes);
            chars_of(t.as_str())
        },
    };
    let ghost t = text@;
    assert(t == bgm_csv_text(bytes@));
    let n = text.len();
    let mut table = BgmTable::new();
    let mut p: usize = 0;
    assert(t.subrange(0, n as int) =~= t);
    while p < n
        invariant
            p <= n == t.len(),
            t == text@,
            table.wf(),
            bgm_fold(table.view(), t.subrange(p as int, n as int)) == bgm_fold(
                Map::<Seq<char>, BgmLoop>::empty(),
                t,
            ),
        decreases n - p,
    {
        let ghost rest = t.subrange(p as int, n as int);
        let nl = find_in(&text, p, n, '\n');
        proof {
            lemma_find_char(rest, '\n', 0);
        }
        let mut e = nl;
        if nl < n && nl > p && text[nl - 1] == '\r' {
            e = nl - 1;
        }
        assert(t.subrange(p as int, e as int) =~= first_line(rest));
        let ghost before = table.view();
        match bgm_row_exec(&text, p, e) {
            Some(row) => {
                table.insert(row.0, row.1);
            },
            None => {},
        }
        let next = if nl < n {
            nl + 1
        } else {
            n
        };
        assert(t.subrange(next as int, n as int) =~= after_first_line(rest));
        p = next;
    }
    assert(t.subrange(n as int, n as int).len() == 0);
    table
}

// ---------------------------------------------------------------- containers

/// An ASF (WMA/WMV) container: at least 16 bytes starting with its GUID
/// prefix.
pub open spec fn is_asf_spec(b: Seq<u8>) -> bool {
    b.len() >= 16 && seq_starts_with(b, seq![0x30u8, 0x26u8, 0xB2u8, 0x75u8])
}

/// Bytes that are encoded audio rather than a voice list: ASF, Ogg, RIFF,
/// ID3-tagged or MPEG-frame data.
pub open spec fn is_encoded_audio_spec(b: Seq<u8>) -> bool {
    ||| is_asf_spec(b)
    ||| seq_starts_with(b, seq![0x4Fu8, 0x67u8, 0x67u8, 0x53u8])
    ||| seq_starts_with(b, seq![0x52u8, 0x49u8, 0x46u8, 0x46u8])
    ||| seq_starts_with(b, seq![0x49u8, 0x44u8, 0x33u8])
    ||| seq_starts_with(b, seq![0xFFu8, 0xFBu8])
}

pub fn is_asf_container(bytes: &[u8]) -> (res: bool)
    ensures
        res == is_asf_spec(bytes@),
{
    let magic: [u8; 4] = [0x30, 0x26, 0xB2, 0x75];
    assert(magic@ =~= seq![0x30u8, 0x26u8, 0xB2u8, 0x75u8]);
    bytes.len() >= 16 && starts_with(bytes, magic.as_slice())
}

pub fn is_encoded_audio(bytes: &[u8]) -> (res: bool)
    ensures
        res == is_encoded_audio_spec(bytes@),
{
    let ogg: [u8; 4] = [0x4F, 0x67, 0x67, 0x53];
    let riff: [u8; 4] = [0x52, 0x49, 0x46, 0x46];
    let id3: [u8; 3] = [0x49, 0x44, 0x33];
    let mpeg: [u8; 2] = [0xFF, 0xFB];
    assert(ogg@ =~= seq![0x4Fu8, 0x67u8, 0x67u8, 0x53u8]);
    assert(riff@ =~= seq![0x52u8, 0x49u8, 0x46u8, 0x46u8]);
    assert(id3@ =~= seq![0x49u8, 0x44u8, 0x33u8]);
    assert(mpeg@ =~= seq![0xFFu8, 0xFBu8]);
    is_asf_container(bytes) || starts_with(bytes, ogg.as_slice()) || starts_with(
        bytes,
        riff.as_slice(),
    ) || starts_with(bytes, id3.as_slice()) || starts_with(bytes, mpeg.as_slice())
}

// ---------------------------------------------------------------- MIX

/// The 32-byte slot `k` of a voice list.
pub open spec fn mix_slot(b: Seq<u8>, k: int) -> Seq<u8> {
    b.subrange(32 * k, 32 * k + 32)
}

/// Index of the first zero byte of `c` at or after `i`, or the length.
pub open spec fn zero_from(c: Seq<u8>, i: int) -> int
    decreases c.len() - i,
{
    if i >= c.len() {
        c.len() as int
    } else if c[i] == 0 {
        i
    } else {
        zero_from(c, i + 1)
    }
}

/// A name byte: printable ASCII other than space, or any byte from 0x80.
pub open spec fn is_name_byte(b: u8) -> bool {
    (0x21 <= b <= 0x7E) || b >= 0x80
}

/// A slot holds a non-empty name of name bytes, NUL-terminated inside the
/// slot and zero-padded to its end.
pub open spec fn mix_slot_ok(c: Seq<u8>) -> bool {
    let end = zero_from(c, 0);
    &&& 0 < end < c.len()
    &&& forall|j: int| end <= j < c.len() ==> c[j] == 0
    &&& forall|j: int| 0 <= j < end ==> is_name_byte(#[trigger] c[j])
}

/// A name's text: its bytes as characters when all are ASCII, otherwise its
/// Shift-JIS decoding.
pub open spec fn mix_name_text(raw: Seq<u8>) -> Seq<char> {
    if forall|j: int| 0 <= j < raw.len() ==> #[trigger] raw[j] < 0x80 {
        raw.map_values(|b: u8| b as char)
    } else {
        shift_jis_text(raw)
    }
}

/// A `.MIX` voice list is N null-padded 32-byte names and is not itself
/// audio; anything else gives `None`.
pub open spec fn mix_playlist_spec(b: Seq<u8>) -> Option<Seq<Seq<char>>> {
    if b.len() == 0 || b.len() % 32 != 0 || is_encoded_audio_spec(b) || exists|k: int|
        0 <= k < b.len() / 32 && !mix_slot_ok(#[trigger] mix_slot(b, k)) {
        None
    } else {
        Some(
            Seq::new(
                b.len() / 32,
                |k: int| mix_name_text(mix_slot(b, k).subrange(0, zero_from(mix_slot(b, k), 0))),
            ),
        )
    }
}

fn decode_mix_name(raw: &[u8]) -> (name: String)
    ensures
        name@ == mix_name_text(raw@),
{
    let mut chars: Vec<char> = Vec::new();
    let mut i: usize = 0;
    while i < raw.len()
        invariant
            i <= raw@.len(),
            chars@ == raw@.subrange(0, i as int).map_values(|b: u8| b as char),
            forall|j: int| 0 <= j < i ==> #[trigger] raw@[j] < 0x80,
        decreases raw@.len() - i,
    {
        if raw[i] >= 0x80 {
            return decode_shift_jis(raw);
        }
        chars.push(raw[i] as char);
        i += 1;
        assert(chars@ =~= raw@.subrange(0, i as int).map_values(|b: u8| b as char));
    }
    assert(raw@.subrange(0, i as int) =~= raw@);
    string_from_chars(chars.as_slice())
}

/// Checks slot `k` and, when it is well-formed, decodes its name.
fn read_mix_slot(bytes: &[u8], k: usize) -> (res: Option<String>)
    requires
        32 * k + 32 <= bytes@.len(),
    ensures
        res is Some <==> mix_slot_ok(mix_slot(bytes@, k as int)),
        res matches Some(name) ==> name@ == mix_name_text(
            mix_slot(bytes@, k as int).subrange(0, zero_from(mix_slot(bytes@, k as int), 0)),
        ),
{
    let ghost c = mix_slot(bytes@, k as int);
    let n = bytes.len();
    assert(32 * k + 32 <= n);
    let base = 32 * k;
    let mut end: usize = 0;
    while end < 32 && bytes[base + end] != 0
        invariant
            end <= 32,
            base == 32 * k,
            base + 32 <= bytes@.len(),
            c == bytes@.subrange(base as int, base + 32),
            zero_from(c, 0) == zero_from(c, end as int),
            forall|j: int| 0 <= j < end ==> c[j] != 0,
        decreases 32 - end,
    {
        end += 1;
    }
    assert(c.len() == 32);
    assert(end < 32 ==> c[end as int] == 0);
    assert(zero_from(c, 0) == end as int);
    if end == 0 || end == 32 {
        return None;
    }
    let mut j = end;
    while j < 32
        invariant
            end <= j <= 32,
            base == 32 * k,
            base + 32 <= bytes@.len(),
            c == bytes@.subrange(base as int, base + 32),
            forall|i: int| end <= i < j ==> c[i] == 0,
            zero_from(c, 0) == end as int,
            c.len() == 32,
        decreases 32 - j,
    {
        if bytes[base + j] != 0 {
            assert(c[j as int] != 0);
            return None;
        }
        j += 1;
    }
    let mut i: usize = 0;
    while i < end
        invariant
            i <= end < 32,
            base == 32 * k,
            base + 32 <= bytes@.len(),
            c == bytes@.subrange(base as int, base + 32),
            forall|t: int| 0 <= t < i ==> is_name_byte(#[trigger] c[t]),
            forall|t: int| end <= t < c.len() ==> c[t] == 0,
            zero_from(c, 0) == end as int,
            c.len() == 32,
        decreases end - i,
    {
        let byte = bytes[base + i];
        if !((0x21 <= byte && byte <= 0x7E) || byte >= 0x80) {
            assert(!is_name_byte(c[i as int]));
            return None;
        }
        i += 1;
    }
    let raw = &bytes[base..base + end];
    assert(raw@ =~= c.subrange(0, end as int));
    Some(decode_mix_name(raw))
}

/// The texts of a sequence of strings.
pub open spec fn string_views(v: Seq<String>) -> Seq<Seq<char>> {
    v.map_values(|n: String| n@)
}

/// The voice names of a `.MIX` playlist, or `None` when the bytes are not one
/// (empty, not a multiple of 32 bytes, encoded audio, or a malformed slot).
pub fn parse_mix_playlist(bytes: &[u8]) -> (res: Option<Vec<String>>)
    ensures
        res is Some <==> mix_playlist_spec(bytes@) is Some,
        res matches Some(names) ==> Some(string_views(names@)) == mix_playlist_spec(
            bytes@,
        ),
{
    if bytes.len() == 0 || bytes.len() % 32 != 0 || is_encoded_audio(bytes) {
        return None;
    }
    let count = bytes.len() / 32;
    let ghost target = Seq::new(
        count as nat,
        |k: int| mix_name_text(mix_slot(bytes@, k).subrange(0, zero_from(mix_slot(bytes@, k), 0))),
    );
    let mut names: Vec<String> = Vec::new();
    let mut k: usize = 0;
    while k < count
        invariant
            k <= count,
            count == bytes@.len() / 32,
            bytes@.len() % 32 == 0,
            target == Seq::new(
                count as nat,
                |k: int| mix_name_text(mix_slot(bytes@, k).subrange(0, zero_from(mix_slot(bytes@, k), 0))),
            ),
            string_views(names@) == target.take(k as int),
            forall|j: int| 0 <= j < k ==> mix_slot_ok(#[trigger] mix_slot(bytes@, j)),
        decreases count - k,
    {
        match read_mix_slot(bytes, k) {
            Some(name) => {
                let ghost pre = names@;
                let ghost nv = name@;
                assert(string_views(pre).len() == pre.len());
                assert(target.take(k as int).len() == k);
                assert(pre.len() == k);
                names.push(name);
                assert(names@ == pre.push(name));
                assert(target[k as int] == nv);
                assert forall|j: int| 0 <= j < k + 1 implies (#[trigger] names@[j])@ == target.take(
                    k + 1,
                )[j] by {
                    assert(pre.len() == k);
                    if j < k {
                        assert(string_views(pre)[j] == target.take(k as int)[j]);
                        assert(names@[j] == pre[j]);
                        assert(string_views(pre)[j] == pre[j]@);
                    } else {
                        assert(names@[j] == name);
                        assert(name@ == nv);
                    }
                }
                assert(string_views(names@) =~= target.take(k + 1));
            },
            None => {
                return None;
            },
        }
        k += 1;
    }
    assert(target.take(count as int) =~= target);
    Some(names)
}

} // verus!
