//! `graphic.dat`: the per-image placement table of a PAL game.
//!
//! The file starts with a 0x10-byte `$` header, then a table of 255 buckets
//! of eight bytes (`record_count: u16`, two padding bytes, `record_offset:
//! u32`), then the records of every bucket, 0x84 bytes each, at
//! `0x808 + record_offset + i * 0x84`.

use vstd::prelude::*;
use crate::bytes::{le_i32, le_u16, le_u32, read_i32, read_u16, read_u32, ascii_upper, to_ascii_upper};
use crate::text::{lossy_utf8, utf8_lossy_string};
use vstd::utf8::{decode_utf8, valid_utf8};
use vstd::string::StringSliceAdditionalSpecFns;

verus! {

#[derive(Clone, Copy, Debug, PartialEq, Eq)]
pub struct GraphicBucket {
    pub record_count: u16,
    pub record_offset: u32,
}

#[derive(Clone, Debug, PartialEq, Eq)]
pub struct GraphicEntry {
    pub key: [u8; 32],
    pub data_size: u32,
    pub data_offset: u32,
    pub bucket: u8,
}

#[derive(Clone, Debug, PartialEq, Eq)]
pub struct GraphicRecord {
    pub key: [u8; 32],
    pub replacement_name: [u8; 64],
    pub animation_name: [u8; 64],
    pub flags: u32,
    pub priority_lane: i32,
    pub offset_x: i32,
    pub offset_y: i32,
    pub scale_percent: i32,
    pub alpha: i32,
    pub bucket: u8,
}

/// The parsed table. `entries_by_key` holds one entry per distinct record
/// key, in key order (byte by byte); a later record with the same key
/// replaces the entry.
#[derive(Debug)]
pub struct GraphicIndex {
    pub buckets: Vec<GraphicBucket>,
    pub data_offset: usize,
    pub entries_by_key: Vec<GraphicEntry>,
    pub records: Vec<GraphicRecord>,
}

/// Why `graphic.dat` was rejected.
#[derive(Clone, Copy, Debug, PartialEq, Eq)]
pub enum GraphicIndexError {
    /// The file is shorter than header plus bucket table.
    TooSmall { len: usize },
    /// A record of some bucket extends past the end of the file; the first
    /// such record, by bucket then by position.
    RecordOutOfRange { record_index: usize, offset: usize },
}

pub struct GraphicRecordView {
    pub key: Seq<u8>,
    pub replacement_name: Seq<u8>,
    pub animation_name: Seq<u8>,
    pub flags: u32,
    pub priority_lane: i32,
    pub offset_x: i32,
    pub offset_y: i32,
    pub scale_percent: i32,
    pub alpha: i32,
    pub bucket: u8,
}

impl View for GraphicRecord {
    type V = GraphicRecordView;

    open spec fn view(&self) -> GraphicRecordView {
        GraphicRecordView {
            key: self.key@,
            replacement_name: self.replacement_name@,
            animation_name: self.animation_name@,
            flags: self.flags,
            priority_lane: self.priority_lane,
            offset_x: self.offset_x,
            offset_y: self.offset_y,
            scale_percent: self.scale_percent,
            alpha: self.alpha,
            bucket: self.bucket,
        }
    }
}

pub struct GraphicEntryView {
    pub key: Seq<u8>,
    pub data_size: u32,
    pub data_offset: u32,
    pub bucket: u8,
}

impl View for GraphicEntry {
    type V = GraphicEntryView;

    open spec fn view(&self) -> GraphicEntryView {
        GraphicEntryView {
            key: self.key@,
            data_size: self.data_size,
            data_offset: self.data_offset,
            bucket: self.bucket,
        }
    }
}

pub const BUCKET_COUNT: usize = 255;

pub const BUCKET_TABLE_SIZE: usize = 0x7F8;

pub const RECORD_BASE_AFTER_DOLLAR_HEADER: usize = 0x808;

pub const RECORD_SIZE: usize = 0x84;

// ---------------------------------------------------------------- names

/// UTF-16-looking names (second and fourth byte zero) are compacted by taking
/// every other byte into the first half; the rest becomes zero.
pub open spec fn compact_wide(s: Seq<u8>) -> Seq<u8> {
    if s[1] == 0 && s[3] == 0 {
        Seq::new(s.len(), |i: int| if i < s.len() / 2 { s[2 * i] } else { 0u8 })
    } else {
        s
    }
}

/// A normalized record key: compacted, the filler byte 0xCC cleared, ASCII
/// upper case.
pub open spec fn normalized_key(s: Seq<u8>) -> Seq<u8> {
    compact_wide(s).map_values(|b: u8| if b == 0xCC { 0u8 } else { ascii_upper(b) })
}

/// A normalized resource name: compacted and the filler byte 0xCC cleared.
pub open spec fn normalized_name(s: Seq<u8>) -> Seq<u8> {
    compact_wide(s).map_values(|b: u8| if b == 0xCC { 0u8 } else { b })
}

fn normalize_graphic_key(key: &mut [u8; 32])
    ensures
        final(key)@ == normalized_key(old(key)@),
{
    if key[1] == 0 && key[3] == 0 {
        let ghost k0 = key@;
        let mut compact = [0u8; 32];
        let mut i: usize = 0;
        while i < 16
            invariant
                i <= 16,
                k0 == old(key)@,
                key@ == k0,
                forall|j: int| 0 <= j < i ==> compact@[j] == k0[2 * j],
                forall|j: int| 16 <= j < 32 ==> compact@[j] == 0,
            decreases 16 - i,
        {
            compact[i] = key[2 * i];
            i += 1;
        }
        *key = compact;
        assert(key@ =~= compact_wide(k0));
    }
    let ghost c = key@;
    let mut i: usize = 0;
    while i < 32
        invariant
            i <= 32,
            c == compact_wide(old(key)@),
            forall|j: int| 0 <= j < i ==> key@[j] == (if c[j] == 0xCC { 0u8 } else { ascii_upper(c[j]) }),
            forall|j: int| i <= j < 32 ==> key@[j] == c[j],
        decreases 32 - i,
    {
        let b = key[i];
        if b == 0xCC {
            key[i] = 0;
        } else {
            key[i] = to_ascii_upper(b);
        }
        i += 1;
    }
    assert(key@ =~= normalized_key(old(key)@));
}

fn normalize_graphic_name(name: &mut [u8; 64])
    ensures
        final(name)@ == normalized_name(old(name)@),
{
    if name[1] == 0 && name[3] == 0 {
        let ghost k0 = name@;
        let mut compact = [0u8; 64];
        let mut i: usize = 0;
        while i < 32
            invariant
                i <= 32,
                k0 == old(name)@,
                name@ == k0,
                forall|j: int| 0 <= j < i ==> compact@[j] == k0[2 * j],
                forall|j: int| 32 <= j < 64 ==> compact@[j] == 0,
            decreases 32 - i,
        {
            compact[i] = name[2 * i];
            i += 1;
        }
        *name = compact;
        assert(name@ =~= compact_wide(k0));
    }
    let ghost c = name@;
    let mut i: usize = 0;
    while i < 64
        invariant
            i <= 64,
            c == compact_wide(old(name)@),
            forall|j: int| 0 <= j < i ==> name@[j] == (if c[j] == 0xCC { 0u8 } else { c[j] }),
            forall|j: int| i <= j < 64 ==> name@[j] == c[j],
        decreases 64 - i,
    {
        if name[i] == 0xCC {
            name[i] = 0;
        }
        i += 1;
    }
    assert(name@ =~= normalized_name(old(name)@));
}

// ---------------------------------------------------------------- layout

pub open spec fn bucket_count(s: Seq<u8>, b: int) -> nat {
    le_u16(s, 0x10 + 8 * b) as nat
}

pub open spec fn bucket_record_offset(s: Seq<u8>, b: int) -> nat {
    le_u32(s, 0x10 + 8 * b + 4) as nat
}

/// Byte offset of the first record of bucket `b`.
pub open spec fn bucket_base(s: Seq<u8>, b: int) -> nat {
    0x808 + bucket_record_offset(s, b)
}

/// All records of bucket `b` lie inside the file.
pub open spec fn bucket_fits(s: Seq<u8>, b: int) -> bool {
    bucket_count(s, b) == 0 || bucket_base(s, b) + bucket_count(s, b) * 0x84 <= s.len()
}

/// The first bucket, from `b` on, that does not fit; 255 when all fit.
pub open spec fn first_bad_bucket(s: Seq<u8>, b: nat) -> nat
    decreases 255 - b,
{
    if b >= 255 {
        255
    } else if !bucket_fits(s, b as int) {
        b
    } else {
        first_bad_bucket(s, b + 1)
    }
}

/// Index, inside bucket `b`, of its first record that ends past the file.
pub open spec fn first_bad_record(s: Seq<u8>, b: int) -> nat {
    if bucket_base(s, b) + 0x84 > s.len() {
        0
    } else {
        ((s.len() - bucket_base(s, b) - 0x84) / 0x84 + 1) as nat
    }
}

/// The byte at `i` of a record's key, replacement name or animation name,
/// before normalization.
pub open spec fn raw_key(s: Seq<u8>, o: int) -> Seq<u8> {
    s.subrange(o, o + 32)
}

pub open spec fn raw_replacement_name(s: Seq<u8>, o: int) -> Seq<u8> {
    s.subrange(o + 0x24, o + 0x40) + Seq::new(36, |i: int| 0u8)
}

pub open spec fn raw_animation_name(s: Seq<u8>, o: int) -> Seq<u8> {
    s.subrange(o + 0x44, o + 0x84)
}

/// `v + 1`, saturating at the largest `i32`.
pub open spec fn saturating_inc(v: i32) -> i32 {
    if v == i32::MAX {
        v
    } else {
        (v + 1) as i32
    }
}

/// The record stored at byte offset `o` of bucket `b`: lanes whose flag bit
/// is clear take their neutral value (priority 0, offsets 0, scale 100,
/// alpha 0); a set priority bit stores the lane plus one.
pub open spec fn record_at(s: Seq<u8>, o: int, b: int) -> GraphicRecordView {
    let flags = le_u32(s, o + 0x20);
    GraphicRecordView {
        key: normalized_key(raw_key(s, o)),
        replacement_name: normalized_name(raw_replacement_name(s, o)),
        animation_name: normalized_name(raw_animation_name(s, o)),
        flags,
        priority_lane: if flags & 0x2000 != 0 {
            saturating_inc(le_i32(s, o + 0x68))
        } else {
            0
        },
        offset_x: if flags & 0x60000 != 0 {
            le_i32(s, o + 0x6C)
        } else {
            0
        },
        offset_y: if flags & 0x60000 != 0 {
            le_i32(s, o + 0x70)
        } else {
            0
        },
        scale_percent: if flags & 0x100000 != 0 {
            le_i32(s, o + 0x74)
        } else {
            100
        },
        alpha: if flags & 0x80000 != 0 {
            le_i32(s, o + 0x78)
        } else {
            0
        },
        bucket: b as u8,
    }
}

/// The entry that record `r` of bucket `b` contributes.
pub open spec fn entry_at(s: Seq<u8>, b: int, r: int) -> GraphicEntryView {
    GraphicEntryView {
        key: record_at(s, bucket_base(s, b) + r * 0x84, b).key,
        data_size: 0x84,
        data_offset: (bucket_record_offset(s, b) + r * 0x84) as u32,
        bucket: b as u8,
    }
}

/// The records of bucket `b`, in file order.
pub open spec fn bucket_records(s: Seq<u8>, b: int) -> Seq<GraphicRecordView> {
    Seq::new(bucket_count(s, b), |r: int| record_at(s, bucket_base(s, b) + r * 0x84, b))
}

/// The entries of bucket `b`, in file order.
pub open spec fn bucket_entries(s: Seq<u8>, b: int) -> Seq<GraphicEntryView> {
    Seq::new(bucket_count(s, b), |r: int| entry_at(s, b, r))
}

/// The records of buckets `0..nb`, bucket by bucket.
pub open spec fn records_upto(s: Seq<u8>, nb: nat) -> Seq<GraphicRecordView>
    decreases nb,
{
    if nb == 0 {
        Seq::empty()
    } else {
        records_upto(s, (nb - 1) as nat) + bucket_records(s, nb - 1)
    }
}

/// Position of the first entry of `es` whose key is `k`, if any.
pub open spec fn key_position(es: Seq<GraphicEntryView>, k: Seq<u8>) -> Option<int>
    decreases es.len(),
{
    if es.len() == 0 {
        None
    } else {
        match key_position(es.drop_last(), k) {
            Some(i) => Some(i),
            None => if es.last().key == k {
                Some(es.len() - 1)
            } else {
                None
            },
        }
    }
}

/// Keys ordered byte by byte, a shorter key before its extensions: the
/// order of the key arrays.
pub open spec fn key_lt(a: Seq<u8>, b: Seq<u8>) -> bool
    decreases a.len(),
{
    if a.len() == 0 {
        b.len() > 0
    } else if b.len() == 0 {
        false
    } else if a[0] != b[0] {
        a[0] < b[0]
    } else {
        key_lt(a.drop_first(), b.drop_first())
    }
}

/// How many of the first `n` entries have a key before `k`.
pub open spec fn count_below(es: Seq<GraphicEntryView>, k: Seq<u8>, n: int) -> nat
    decreases n,
{
    if n <= 0 {
        0
    } else {
        count_below(es, k, n - 1) + if key_lt(es[n - 1].key, k) {
            1nat
        } else {
            0nat
        }
    }
}

/// Inserting into a keyed list: an entry with the same key is replaced in
/// place, otherwise the entry goes in after every entry whose key comes
/// before its own (in key order when the list is).
pub open spec fn insert_keyed(es: Seq<GraphicEntryView>, e: GraphicEntryView) -> Seq<GraphicEntryView> {
    match key_position(es, e.key) {
        Some(i) => es.update(i, e),
        None => es.insert(count_below(es, e.key, es.len() as int) as int, e),
    }
}

/// Inserting every entry of `new`, in order.
pub open spec fn insert_all(es: Seq<GraphicEntryView>, new: Seq<GraphicEntryView>) -> Seq<GraphicEntryView>
    decreases new.len(),
{
    if new.len() == 0 {
        es
    } else {
        insert_keyed(insert_all(es, new.drop_last()), new.last())
    }
}

/// The keyed entries after buckets `0..nb`.
pub open spec fn entries_upto(s: Seq<u8>, nb: nat) -> Seq<GraphicEntryView>
    decreases nb,
{
    if nb == 0 {
        Seq::empty()
    } else {
        insert_all(entries_upto(s, (nb - 1) as nat), bucket_entries(s, nb - 1))
    }
}

/// The bucket table entry `b`.
pub open spec fn bucket_at(s: Seq<u8>, b: int) -> GraphicBucket {
    GraphicBucket { record_count: le_u16(s, 0x10 + 8 * b), record_offset: le_u32(s, 0x10 + 8 * b + 4) }
}

/// What `GraphicIndex::parse` gives for `s`.
pub open spec fn parse_outcome(s: Seq<u8>) -> Result<(), GraphicIndexError> {
    if s.len() < 0x808 {
        Err(GraphicIndexError::TooSmall { len: s.len() as usize })
    } else if first_bad_bucket(s, 0) < 255 {
        let b = first_bad_bucket(s, 0) as int;
        Err(
            GraphicIndexError::RecordOutOfRange {
                record_index: first_bad_record(s, b) as usize,
                offset: (bucket_base(s, b) + first_bad_record(s, b) * 0x84) as usize,
            },
        )
    } else {
        Ok(())
    }
}

impl GraphicIndex {
    pub const BUCKET_COUNT: usize = 255;

    pub const BUCKET_TABLE_SIZE: usize = 0x7F8;

    pub const RECORD_BASE_AFTER_DOLLAR_HEADER: usize = 0x808;

    pub const RECORD_SIZE: usize = 0x84;

    /// The parsed contents: the 255 buckets, every record bucket by bucket,
    /// and one entry per distinct key.
    pub open spec fn describes(&self, s: Seq<u8>) -> bool {
        &&& self.data_offset == 0x808
        &&& self.buckets@ == Seq::new(255, |b: int| bucket_at(s, b))
        &&& self.records@.map_values(|r: GraphicRecord| r@) == records_upto(s, 255)
        &&& self.entries_by_key@.map_values(|e: GraphicEntry| e@) == entries_upto(s, 255)
    }
}

/// The first position of an entry with key `k` is the least such index.
pub proof fn lemma_key_position(es: Seq<GraphicEntryView>, k: Seq<u8>)
    ensures
        key_position(es, k) matches Some(i) ==> 0 <= i < es.len() && es[i].key == k && forall|
            j: int,
        | 0 <= j < i ==> es[j].key != k,
        key_position(es, k) is None ==> forall|j: int| 0 <= j < es.len() ==> es[j].key != k,
    decreases es.len(),
{
    if es.len() > 0 {
        lemma_key_position(es.drop_last(), k);
        assert forall|j: int| 0 <= j < es.len() - 1 implies es.drop_last()[j] == es[j] by {}
    }
}

fn keys_equal(a: &[u8; 32], b: &[u8; 32]) -> (res: bool)
    ensures
        res == (a@ == b@),
{
    let mut i: usize = 0;
    while i < 32
        invariant
            i <= 32,
            forall|j: int| 0 <= j < i ==> a@[j] == b@[j],
        decreases 32 - i,
    {
        if a[i] != b[i] {
            return false;
        }
        i += 1;
    }
    assert(a@ =~= b@);
    true
}

fn insert_entry(entries: &mut Vec<GraphicEntry>, e: GraphicEntry)
    ensures
        final(entries)@.map_values(|x: GraphicEntry| x@) == insert_keyed(
            old(entries)@.map_values(|x: GraphicEntry| x@),
            e@,
        ),
{
    let ghost es = old(entries)@.map_values(|x: GraphicEntry| x@);
    proof {
        lemma_key_position(es, e@.key);
    }
    let mut i: usize = 0;
    while i < entries.len()
        invariant
            i <= entries@.len(),
            entries@ == old(entries)@,
            es == old(entries)@.map_values(|x: GraphicEntry| x@),
            forall|j: int| 0 <= j < i ==> es[j].key != e@.key,
        decreases entries@.len() - i,
    {
        assert(es[i as int] == entries@[i as int]@);
        if keys_equal(&entries[i].key, &e.key) {
            assert(es[i as int].key == e@.key);
            proof {
                lemma_key_position(es, e@.key);
                match key_position(es, e@.key) {
                    Some(p) => {
                        if p < i as int {
                            assert(es[p].key != e@.key);
                        }
                    },
                    None => {},
                }
            }
            assert(key_position(es, e@.key) == Some(i as int));
            entries.set(i, e);
            assert(entries@.map_values(|x: GraphicEntry| x@) =~= es.update(i as int, e@));
            return;
        }
        i += 1;
    }
    proof {
        lemma_key_position(es, e@.key);
    }
    assert(key_position(es, e@.key) is None);
    let mut p: usize = 0;
    let mut k: usize = 0;
    while k < entries.len()
        invariant
            k <= entries@.len(),
            entries@ == old(entries)@,
            es == old(entries)@.map_values(|x: GraphicEntry| x@),
            p == count_below(es, e@.key, k as int),
            p <= k,
        decreases entries@.len() - k,
    {
        assert(es[k as int] == entries@[k as int]@);
        if key_less(&entries[k].key, &e.key) {
            p += 1;
        }
        k += 1;
    }
    entries.insert(p, e);
    assert(entries@.map_values(|x: GraphicEntry| x@) =~= es.insert(p as int, e@));
}

fn key_less(a: &[u8; 32], b: &[u8; 32]) -> (res: bool)
    ensures
        res == key_lt(a@, b@),
{
    let ghost sa = a@;
    let ghost sb = b@;
    assert(sa.subrange(0, 32) =~= sa);
    assert(sb.subrange(0, 32) =~= sb);
    let mut i: usize = 0;
    while i < 32
        invariant
            i <= 32,
            sa == a@,
            sb == b@,
            sa.len() == 32,
            sb.len() == 32,
            key_lt(sa, sb) == key_lt(sa.subrange(i as int, 32), sb.subrange(i as int, 32)),
        decreases 32 - i,
    {
        let ghost ta = sa.subrange(i as int, 32);
        let ghost tb = sb.subrange(i as int, 32);
        assert(ta[0] == a[i as int] && tb[0] == b[i as int]);
        if a[i] != b[i] {
            return a[i] < b[i];
        }
        assert(ta.drop_first() =~= sa.subrange(i + 1, 32));
        assert(tb.drop_first() =~= sb.subrange(i + 1, 32));
        i += 1;
    }
    assert(sa.subrange(32, 32).len() == 0);
    false
}

fn read_record(bytes: &[u8], offset: usize, bucket: u8) -> (rec: GraphicRecord)
    requires
        offset + 0x84 <= bytes@.len(),
    ensures
        rec@ == record_at(bytes@, offset as int, bucket as int),
{
    let n = bytes.len();
    let mut key = [0u8; 32];
    let mut i: usize = 0;
    while i < 32
        invariant
            i <= 32,
            offset + 0x84 <= bytes@.len(),
            n == bytes@.len(),
            forall|j: int| 0 <= j < i ==> key@[j] == bytes@[offset + j],
        decreases 32 - i,
    {
        key[i] = bytes[offset + i];
        i += 1;
    }
    assert(key@ =~= raw_key(bytes@, offset as int));
    normalize_graphic_key(&mut key);
    let mut replacement_name = [0u8; 64];
    let mut i: usize = 0;
    while i < 0x1C
        invariant
            i <= 0x1C,
            offset + 0x84 <= bytes@.len(),
            n == bytes@.len(),
            forall|j: int| 0 <= j < i ==> replacement_name@[j] == bytes@[offset + 0x24 + j],
            forall|j: int| 0x1C <= j < 64 ==> replacement_name@[j] == 0,
        decreases 0x1C - i,
    {
        replacement_name[i] = bytes[offset + 0x24 + i];
        i += 1;
    }
    assert(replacement_name@ =~= raw_replacement_name(bytes@, offset as int));
    normalize_graphic_name(&mut replacement_name);
    let mut animation_name = [0u8; 64];
    let mut i: usize = 0;
    while i < 64
        invariant
            i <= 64,
            offset + 0x84 <= bytes@.len(),
            n == bytes@.len(),
            forall|j: int| 0 <= j < i ==> animation_name@[j] == bytes@[offset + 0x44 + j],
        decreases 64 - i,
    {
        animation_name[i] = bytes[offset + 0x44 + i];
        i += 1;
    }
    assert(animation_name@ =~= raw_animation_name(bytes@, offset as int));
    normalize_graphic_name(&mut animation_name);
    let flags = read_u32(bytes, offset + 0x20).unwrap();
    let priority_lane = if flags & 0x2000 != 0 {
        let v = read_i32(bytes, offset + 0x68).unwrap();
        if v == i32::MAX {
            v
        } else {
            v + 1
        }
    } else {
        0
    };
    let (offset_x, offset_y) = if flags & 0x60000 != 0 {
        (read_i32(bytes, offset + 0x6C).unwrap(), read_i32(bytes, offset + 0x70).unwrap())
    } else {
        (0, 0)
    };
    let scale_percent = if flags & 0x100000 != 0 {
        read_i32(bytes, offset + 0x74).unwrap()
    } else {
        100
    };
    let alpha = if flags & 0x80000 != 0 {
        read_i32(bytes, offset + 0x78).unwrap()
    } else {
        0
    };
    GraphicRecord {
        key,
        replacement_name,
        animation_name,
        flags,
        priority_lane,
        offset_x,
        offset_y,
        scale_percent,
        alpha,
        bucket,
    }
}


/// Parses the records of bucket `b` onto `records` and `entries`, or reports
/// the bucket's first record that ends past the file.
#[verifier::rlimit(30)]
fn parse_bucket(
    bytes: &[u8],
    b: usize,
    info: GraphicBucket,
    records: &mut Vec<GraphicRecord>,
    entries: &mut Vec<GraphicEntry>,
) -> (res: Result<(), GraphicIndexError>)
    requires
        b < 255,
        0x808 <= bytes@.len(),
        info == bucket_at(bytes@, b as int),
    ensures
        res is Ok ==> bucket_fits(bytes@, b as int)
            && final(records)@.map_values(|x: GraphicRecord| x@) == old(records)@.map_values(
            |x: GraphicRecord| x@,
        ) + bucket_records(bytes@, b as int)
            && final(entries)@.map_values(|x: GraphicEntry| x@) == insert_all(
            old(entries)@.map_values(|x: GraphicEntry| x@),
            bucket_entries(bytes@, b as int),
        ),
        res matches Err(e) ==> !bucket_fits(bytes@, b as int) && e == (
        GraphicIndexError::RecordOutOfRange {
            record_index: first_bad_record(bytes@, b as int) as usize,
            offset: (bucket_base(bytes@, b as int) + first_bad_record(bytes@, b as int)
                * 0x84) as usize,
        }),
{
    let ghost s = bytes@;
    let count = info.record_count as u64;
    let base: u64 = 0x808 + info.record_offset as u64;
    let len_usize = bytes.len();
    assert(s.len() == len_usize);
    let len = len_usize as u64;
    let ghost r0 = records@.map_values(|x: GraphicRecord| x@);
    let ghost e0 = entries@.map_values(|x: GraphicEntry| x@);
    let ghost br = bucket_records(s, b as int);
    let ghost be = bucket_entries(s, b as int);
    let mut r: u64 = 0;
    while r < count
        invariant
            r <= count,
            b < 255,
            s == bytes@,
            len == s.len(),
            s.len() <= usize::MAX,
            0x808 <= s.len(),
            count == bucket_count(s, b as int),
            base == bucket_base(s, b as int),
            info == bucket_at(s, b as int),
            br == bucket_records(s, b as int),
            be == bucket_entries(s, b as int),
            r0 == old(records)@.map_values(|x: GraphicRecord| x@),
            e0 == old(entries)@.map_values(|x: GraphicEntry| x@),
            records@.map_values(|x: GraphicRecord| x@) == r0 + br.take(r as int),
            entries@.map_values(|x: GraphicEntry| x@) == insert_all(e0, be.take(r as int)),
            r > 0 ==> base + (r - 1) * 0x84 + 0x84 <= s.len(),
        decreases count - r,
    {
        let offset: u64 = base + r * 0x84;
        if offset + 0x84 > len {
            proof {
                lemma_first_bad_record(s.len() as int, base as int, r as int);
                assert(!bucket_fits(s, b as int));
            }
            return Err(
                GraphicIndexError::RecordOutOfRange { record_index: r as usize, offset: offset as usize },
            );
        }
        let rec = read_record(bytes, offset as usize, b as u8);
        let key = rec.key;
        assert((b as u8) as int == b as int);
        assert(offset as usize as int == base + r * 0x84);
        assert(br[r as int] == record_at(s, base + r * 0x84, b as int));
        assert(rec@ == br[r as int]);
        let ghost rec_v = rec@;
        let ghost pre = records@;
        records.push(rec);
        proof {
            assert(records@.map_values(|x: GraphicRecord| x@) =~= pre.map_values(
                |x: GraphicRecord| x@,
            ).push(rec_v));
            assert(br.take(r + 1) =~= br.take(r as int).push(rec_v));
            assert(records@.map_values(|x: GraphicRecord| x@) =~= r0 + br.take(r + 1));
        }
        let entry = GraphicEntry {
            key,
            data_size: RECORD_SIZE as u32,
            data_offset: (info.record_offset as u64 + r * 0x84) as u32,
            bucket: b as u8,
        };
        assert(entry@ == be[r as int]);
        insert_entry(entries, entry);
        proof {
            assert(be.take(r + 1).drop_last() =~= be.take(r as int));
        }
        r += 1;
    }
    proof {
        assert(br.take(count as int) =~= br);
        assert(be.take(count as int) =~= be);
    }
    Ok(())
}

/// For a bucket whose record `r` ends past the file while record `r - 1` (if
/// any) does not, `r` is the bucket's first bad record.
proof fn lemma_first_bad_record(len: int, base: int, r: int)
    requires
        0 <= base,
        0 <= r,
        base + r * 0x84 + 0x84 > len,
        r > 0 ==> base + (r - 1) * 0x84 + 0x84 <= len,
    ensures
        (if base + 0x84 > len { 0 } else { (len - base - 0x84) / 0x84 + 1 }) == r,
{
    if base + 0x84 <= len {
        assert(r > 0) by (nonlinear_arith)
            requires
                base + 0x84 <= len,
                base + r * 0x84 + 0x84 > len,
                r >= 0,
        ;
        assert((len - base - 0x84) / 0x84 == r - 1) by (nonlinear_arith)
            requires
                base + (r - 1) * 0x84 + 0x84 <= len,
                base + r * 0x84 + 0x84 > len,
                r > 0,
        ;
    } else {
        assert(r == 0) by (nonlinear_arith)
            requires
                base + 0x84 > len,
                r > 0 ==> base + (r - 1) * 0x84 + 0x84 <= len,
                r >= 0,
        ;
    }
}

/// `first_bad_bucket` from `b` is `b` itself when buckets before it fit and it
/// does not, and 255 when every bucket fits.
proof fn lemma_first_bad_bucket(s: Seq<u8>, b: nat, from: nat)
    requires
        from <= b <= 255,
        forall|bb: int| from <= bb < b ==> bucket_fits(s, bb),
        b < 255 ==> !bucket_fits(s, b as int),
    ensures
        first_bad_bucket(s, from) == b,
    decreases b - from,
{
    if from < b {
        lemma_first_bad_bucket(s, b, from + 1);
    }
}

impl GraphicIndex {
    /// Parses `graphic.dat`. Succeeds exactly when the file holds the header
    /// and bucket table and every record of every bucket lies inside it.
    pub fn parse(bytes: &[u8]) -> (res: Result<GraphicIndex, GraphicIndexError>)
        ensures
            match res {
                Ok(index) => parse_outcome(bytes@) == Ok::<(), GraphicIndexError>(()) && index.describes(bytes@),
                Err(e) => parse_outcome(bytes@) == Err::<(), GraphicIndexError>(e),
            },
    {
        let ghost s = bytes@;
        if bytes.len() < 0x808 {
            return Err(GraphicIndexError::TooSmall { len: bytes.len() });
        }
        let mut buckets: Vec<GraphicBucket> = Vec::new();
        let mut bucket: usize = 0;
        while bucket < BUCKET_COUNT
            invariant
                bucket <= BUCKET_COUNT,
                s == bytes@,
                s.len() >= 0x808,
                buckets@ == Seq::new(bucket as nat, |b: int| bucket_at(s, b)),
            decreases BUCKET_COUNT - bucket,
        {
            let offset = 0x10 + bucket * 8;
            let record_count = read_u16(bytes, offset).unwrap();
            let record_offset = read_u32(bytes, offset + 4).unwrap();
            buckets.push(GraphicBucket { record_count, record_offset });
            assert(buckets@ =~= Seq::new((bucket + 1) as nat, |b: int| bucket_at(s, b)));
            bucket += 1;
        }
        let mut records: Vec<GraphicRecord> = Vec::new();
        let mut entries_by_key: Vec<GraphicEntry> = Vec::new();
        let mut b: usize = 0;
        while b < BUCKET_COUNT
            invariant
                b <= BUCKET_COUNT,
                s == bytes@,
                0x808 <= s.len(),
                buckets@ == Seq::new(255, |bb: int| bucket_at(s, bb)),
                records@.map_values(|x: GraphicRecord| x@) == records_upto(s, b as nat),
                entries_by_key@.map_values(|x: GraphicEntry| x@) == entries_upto(s, b as nat),
                forall|bb: int| 0 <= bb < b ==> bucket_fits(s, bb),
            decreases BUCKET_COUNT - b,
        {
            let info = buckets[b];
            let ghost r0 = records@.map_values(|x: GraphicRecord| x@);
            let ghost e0 = entries_by_key@.map_values(|x: GraphicEntry| x@);
            match parse_bucket(bytes, b, info, &mut records, &mut entries_by_key) {
                Ok(()) => {},
                Err(e) => {
                    proof {
                        lemma_first_bad_bucket(s, b as nat, 0);
                    }
                    return Err(e);
                },
            }
            assert(records_upto(s, (b + 1) as nat) == r0 + bucket_records(s, b as int));
            b += 1;
        }
        proof {
            lemma_first_bad_bucket(s, 255, 0);
        }
        Ok(GraphicIndex { buckets, data_offset: RECORD_BASE_AFTER_DOLLAR_HEADER, entries_by_key, records })
    }
}

// ---------------------------------------------------------------- lookup

pub open spec fn is_path_separator(b: u8) -> bool {
    b == 0x2F || b == 0x5C
}

/// The index just past the last path separator among the first `i` bytes,
/// 0 when there is none.
pub open spec fn leaf_start_from(b: Seq<u8>, i: int) -> int
    decreases i,
{
    if i <= 0 {
        0
    } else if is_path_separator(b[i - 1]) {
        i
    } else {
        leaf_start_from(b, i - 1)
    }
}

/// The index of the first `.` at or after `i`, or the length.
pub open spec fn stem_end_from(b: Seq<u8>, i: int) -> int
    decreases b.len() - i,
{
    if i >= b.len() {
        b.len() as int
    } else if b[i] == 0x2E {
        i
    } else {
        stem_end_from(b, i + 1)
    }
}

/// The lookup key of a resource name: the bytes of the leaf after the last
/// `/` or `\`, up to its first `.`, in ASCII upper case, zero-padded or cut
/// to 32 bytes.
pub open spec fn graphic_key_of(name: Seq<u8>) -> Seq<u8> {
    let leaf_start = leaf_start_from(name, name.len() as int);
    let stem_end = stem_end_from(name, leaf_start);
    Seq::new(
        32,
        |i: int|
            if leaf_start + i < stem_end {
                ascii_upper(name[leaf_start + i])
            } else {
                0u8
            },
    )
}

/// Builds the lookup key of `name` (see `graphic_key_of`).
pub fn make_graphic_key(name: &str) -> (key: [u8; 32])
    ensures
        key@ == graphic_key_of(name.spec_bytes()),
{
    let bytes = name.as_bytes();
    let ghost b = bytes@;
    let mut leaf_start = bytes.len();
    while leaf_start > 0 && !(bytes[leaf_start - 1] == 0x2F || bytes[leaf_start - 1] == 0x5C)
        invariant
            leaf_start <= b.len(),
            b == bytes@,
            leaf_start_from(b, b.len() as int) == leaf_start_from(b, leaf_start as int),
        decreases leaf_start,
    {
        leaf_start -= 1;
    }
    let mut stem_end = leaf_start;
    while stem_end < bytes.len() && bytes[stem_end] != 0x2E
        invariant
            leaf_start <= stem_end <= b.len(),
            b == bytes@,
            stem_end_from(b, leaf_start as int) == stem_end_from(b, stem_end as int),
        decreases b.len() - stem_end,
    {
        stem_end += 1;
    }
    let mut key = [0u8; 32];
    let mut i: usize = 0;
    while i < 32
        invariant
            i <= 32,
            b == bytes@,
            leaf_start <= stem_end <= b.len(),
            forall|j: int|
                0 <= j < i ==> key@[j] == (if leaf_start + j < stem_end {
                    ascii_upper(b[leaf_start + j])
                } else {
                    0u8
                }),
            forall|j: int| i <= j < 32 ==> key@[j] == 0,
        decreases 32 - i,
    {
        if i < stem_end - leaf_start {
            key[i] = to_ascii_upper(bytes[leaf_start + i]);
        }
        i += 1;
    }
    assert(key@ =~= graphic_key_of(b));
    key
}

/// The index of the first zero byte, or the length.
pub open spec fn c_string_end(b: Seq<u8>, i: int) -> int
    decreases b.len() - i,
{
    if i >= b.len() {
        b.len() as int
    } else if b[i] == 0 {
        i
    } else {
        c_string_end(b, i + 1)
    }
}

/// The NUL-terminated text at the start of `bytes`: `None` when it is empty,
/// otherwise its bytes decoded as lossy UTF-8.
pub open spec fn c_string_text(b: Seq<u8>) -> Option<Seq<char>> {
    let end = c_string_end(b, 0);
    if end == 0 {
        None
    } else {
        Some(lossy_utf8(b.subrange(0, end)))
    }
}

pub fn graphic_c_string(bytes: &[u8]) -> (res: Option<String>)
    ensures
        res is Some <==> c_string_text(bytes@) is Some,
        res matches Some(s) ==> Some(s@) == c_string_text(bytes@),
        res matches Some(s) ==> (valid_utf8(bytes@.subrange(0, c_string_end(bytes@, 0))) ==> s@
            == decode_utf8(bytes@.subrange(0, c_string_end(bytes@, 0)))),
{
    let mut end: usize = 0;
    while end < bytes.len() && bytes[end] != 0
        invariant
            end <= bytes@.len(),
            c_string_end(bytes@, 0) == c_string_end(bytes@, end as int),
        decreases bytes@.len() - end,
    {
        end += 1;
    }
    if end == 0 {
        return None;
    }
    Some(utf8_lossy_string(&bytes[0..end]))
}

impl GraphicRecord {
    pub fn replacement_resource(&self) -> (res: Option<String>)
        ensures
            res is Some <==> c_string_text(self.replacement_name@) is Some,
            res matches Some(s) ==> Some(s@) == c_string_text(self.replacement_name@),
            res matches Some(s) ==> (valid_utf8(self.replacement_name@.subrange(0, c_string_end(self.replacement_name@, 0)))
                ==> s@ == decode_utf8(self.replacement_name@.subrange(0, c_string_end(self.replacement_name@, 0)))),
    {
        graphic_c_string(self.replacement_name.as_slice())
    }

    pub fn animation_resource(&self) -> (res: Option<String>)
        ensures
            res is Some <==> c_string_text(self.animation_name@) is Some,
            res matches Some(s) ==> Some(s@) == c_string_text(self.animation_name@),
            res matches Some(s) ==> (valid_utf8(self.animation_name@.subrange(0, c_string_end(self.animation_name@, 0)))
                ==> s@ == decode_utf8(self.animation_name@.subrange(0, c_string_end(self.animation_name@, 0)))),
    {
        graphic_c_string(self.animation_name.as_slice())
    }
}

impl GraphicIndex {
    /// Number of distinct record keys.
    pub fn len(&self) -> (n: usize)
        ensures
            n == self.entries_by_key@.len(),
    {
        self.entries_by_key.len()
    }

    pub fn is_empty(&self) -> (b: bool)
        ensures
            b == (self.entries_by_key@.len() == 0),
    {
        self.entries_by_key.len() == 0
    }

    /// The first record whose key is the lookup key of `name`.
    pub fn lookup(&self, name: &str) -> (res: Option<&GraphicRecord>)
        ensures
            match res {
                Some(r) => exists|i: int|
                    0 <= i < self.records@.len() && self.records@[i] == *r && r.key@ == graphic_key_of(
                        name.spec_bytes(),
                    ) && forall|j: int|
                        0 <= j < i ==> self.records@[j].key@ != graphic_key_of(name.spec_bytes()),
                None => forall|j: int|
                    0 <= j < self.records@.len() ==> self.records@[j].key@ != graphic_key_of(
                        name.spec_bytes(),
                    ),
            },
    {
        let key = make_graphic_key(name);
        let mut i: usize = 0;
        while i < self.records.len()
            invariant
                i <= self.records@.len(),
                key@ == graphic_key_of(name.spec_bytes()),
                forall|j: int| 0 <= j < i ==> self.records@[j].key@ != key@,
            decreases self.records@.len() - i,
        {
            if keys_equal(&self.records[i].key, &key) {
                return Some(&self.records[i]);
            }
            i += 1;
        }
        None
    }
}


// ---------------------------------------------------------------- distinct keys

/// Some entry of `es` has key `k`.
pub open spec fn entry_has_key(es: Seq<GraphicEntryView>, k: Seq<u8>) -> bool {
    exists|i: int| 0 <= i < es.len() && #[trigger] es[i].key == k
}

/// No two entries of `es` share a key.
pub open spec fn keys_distinct(es: Seq<GraphicEntryView>) -> bool {
    forall|i: int, j: int| 0 <= i < j < es.len() ==> #[trigger] es[i].key != #[trigger] es[j].key
}

/// Some record of `rs` has key `k`.
pub open spec fn record_has_key(rs: Seq<GraphicRecordView>, k: Seq<u8>) -> bool {
    exists|i: int| 0 <= i < rs.len() && #[trigger] rs[i].key == k
}

proof fn lemma_key_lt_irreflexive(a: Seq<u8>)
    ensures
        !key_lt(a, a),
    decreases a.len(),
{
    if a.len() > 0 {
        lemma_key_lt_irreflexive(a.drop_first());
    }
}

proof fn lemma_key_lt_transitive(a: Seq<u8>, b: Seq<u8>, c: Seq<u8>)
    requires
        key_lt(a, b),
        key_lt(b, c),
    ensures
        key_lt(a, c),
    decreases a.len(),
{
    if a.len() > 0 && b.len() > 0 && c.len() > 0 && a[0] == b[0] && b[0] == c[0] {
        lemma_key_lt_transitive(a.drop_first(), b.drop_first(), c.drop_first());
    }
}

proof fn lemma_key_lt_total(a: Seq<u8>, b: Seq<u8>)
    requires
        a != b,
    ensures
        key_lt(a, b) || key_lt(b, a),
    decreases a.len(),
{
    if a.len() == 0 && b.len() == 0 {
        assert(a =~= b);
    }
    if a.len() > 0 && b.len() > 0 && a[0] == b[0] {
        if a.drop_first() == b.drop_first() {
            assert(a =~= seq![a[0]] + a.drop_first());
            assert(b =~= seq![b[0]] + b.drop_first());
        }
        lemma_key_lt_total(a.drop_first(), b.drop_first());
    }
}

/// Entries in strictly increasing key order.
pub open spec fn keys_sorted(es: Seq<GraphicEntryView>) -> bool {
    forall|i: int, j: int| 0 <= i < j < es.len() ==> key_lt(#[trigger] es[i].key, #[trigger] es[j].key)
}

proof fn lemma_sorted_distinct(es: Seq<GraphicEntryView>)
    requires
        keys_sorted(es),
    ensures
        keys_distinct(es),
{
    assert forall|i: int, j: int| 0 <= i < j < es.len() implies #[trigger] es[i].key != #[trigger] es[j].key by {
        lemma_key_lt_irreflexive(es[i].key);
    }
}

proof fn lemma_count_below_prefix(es: Seq<GraphicEntryView>, k: Seq<u8>, n: int)
    requires
        keys_sorted(es),
        0 <= n <= es.len(),
        forall|i: int| 0 <= i < es.len() ==> es[i].key != k,
    ensures
        count_below(es, k, n) <= n,
        forall|i: int| 0 <= i < count_below(es, k, n) ==> key_lt(#[trigger] es[i].key, k),
        forall|i: int| count_below(es, k, n) <= i < n ==> key_lt(k, #[trigger] es[i].key),
    decreases n,
{
    if n > 0 {
        lemma_count_below_prefix(es, k, n - 1);
        let c = count_below(es, k, n - 1);
        if key_lt(es[n - 1].key, k) {
            if c < n - 1 {
                let i = c as int;
                assert(key_lt(k, es[i].key));
                assert(key_lt(es[i].key, es[n - 1].key));
                lemma_key_lt_transitive(k, es[i].key, es[n - 1].key);
                lemma_key_lt_transitive(k, es[n - 1].key, k);
                lemma_key_lt_irreflexive(k);
            }
        } else {
            lemma_key_lt_total(es[n - 1].key, k);
        }
    }
}

proof fn lemma_insert_keyed_keys(es: Seq<GraphicEntryView>, e: GraphicEntryView)
    requires
        keys_sorted(es),
    ensures
        keys_sorted(insert_keyed(es, e)),
        keys_distinct(insert_keyed(es, e)),
        forall|k: Seq<u8>| #[trigger] entry_has_key(insert_keyed(es, e), k) <==> (entry_has_key(es, k) || k == e.key),
{
    lemma_key_position(es, e.key);
    let out = insert_keyed(es, e);
    match key_position(es, e.key) {
        Some(p) => {
            assert forall|k: Seq<u8>| #[trigger] entry_has_key(out, k) <==> (entry_has_key(es, k) || k == e.key) by {
                if entry_has_key(out, k) {
                    let q = choose|q: int| 0 <= q < out.len() && out[q].key == k;
                    assert(es[q].key == k);
                }
                if entry_has_key(es, k) {
                    let q = choose|q: int| 0 <= q < es.len() && es[q].key == k;
                    assert(out[q].key == k);
                }
                if k == e.key {
                    assert(out[p].key == k);
                }
            }
            assert forall|a: int, b: int| 0 <= a < b < out.len() implies key_lt(#[trigger] out[a].key, #[trigger] out[b].key) by {
                assert(out[a].key == es[a].key);
                assert(out[b].key == es[b].key);
            }
        },
        None => {
            let n = es.len() as int;
            let p = count_below(es, e.key, n) as int;
            lemma_count_below_prefix(es, e.key, n);
            assert(out =~= es.subrange(0, p).push(e) + es.subrange(p, n));
            assert forall|q: int| 0 <= q < out.len() implies #[trigger] out[q] == (if q < p {
                es[q]
            } else if q == p {
                e
            } else {
                es[q - 1]
            }) by {}
            assert forall|k: Seq<u8>| #[trigger] entry_has_key(out, k) <==> (entry_has_key(es, k) || k == e.key) by {
                if entry_has_key(out, k) {
                    let q = choose|q: int| 0 <= q < out.len() && out[q].key == k;
                    if q < p {
                        assert(es[q].key == k);
                    } else if q > p {
                        assert(es[q - 1].key == k);
                    }
                }
                if entry_has_key(es, k) {
                    let q = choose|q: int| 0 <= q < es.len() && es[q].key == k;
                    if q < p {
                        assert(out[q].key == k);
                    } else {
                        assert(out[q + 1].key == k);
                    }
                }
                if k == e.key {
                    assert(out[p].key == k);
                }
            }
            assert forall|a: int, b: int| 0 <= a < b < out.len() implies key_lt(#[trigger] out[a].key, #[trigger] out[b].key) by {
                if a < p && b < p {
                } else if a < p && b == p {
                } else if a < p {
                    assert(key_lt(es[a].key, es[b - 1].key));
                } else if a == p {
                    assert(key_lt(e.key, es[b - 1].key));
                } else {
                    assert(key_lt(es[a - 1].key, es[b - 1].key));
                }
            }
        },
    }
    lemma_sorted_distinct(out);
}

proof fn lemma_insert_all_keys(es: Seq<GraphicEntryView>, new: Seq<GraphicEntryView>)
    requires
        keys_sorted(es),
    ensures
        keys_sorted(insert_all(es, new)),
        keys_distinct(insert_all(es, new)),
        forall|k: Seq<u8>| #[trigger] entry_has_key(insert_all(es, new), k) <==> (entry_has_key(es, k)
            || entry_has_key(new, k)),
    decreases new.len(),
{
    if new.len() == 0 {
        lemma_sorted_distinct(es);
    }
    if new.len() > 0 {
        let front = new.drop_last();
        lemma_insert_all_keys(es, front);
        lemma_insert_keyed_keys(insert_all(es, front), new.last());
        assert forall|k: Seq<u8>| #[trigger] entry_has_key(insert_all(es, new), k) <==> (entry_has_key(es, k)
            || entry_has_key(new, k)) by {
            assert(entry_has_key(insert_all(es, front), k) <==> (entry_has_key(es, k) || entry_has_key(front, k)));
            if entry_has_key(new, k) {
                let q = choose|q: int| 0 <= q < new.len() && new[q].key == k;
                if q < front.len() {
                    assert(front[q].key == k);
                }
            }
            if entry_has_key(front, k) {
                let q = choose|q: int| 0 <= q < front.len() && front[q].key == k;
                assert(new[q].key == k);
            }
        }
    }
}

proof fn lemma_entries_upto_keys(s: Seq<u8>, nb: nat)
    ensures
        keys_sorted(entries_upto(s, nb)),
        keys_distinct(entries_upto(s, nb)),
        forall|k: Seq<u8>| #[trigger] entry_has_key(entries_upto(s, nb), k) <==> record_has_key(records_upto(s, nb), k),
    decreases nb,
{
    if nb > 0 {
        let prev = (nb - 1) as nat;
        lemma_entries_upto_keys(s, prev);
        let be = bucket_entries(s, nb - 1);
        let br = bucket_records(s, nb - 1);
        lemma_insert_all_keys(entries_upto(s, prev), be);
        let rs = records_upto(s, nb);
        assert(rs == records_upto(s, prev) + br);
        assert forall|k: Seq<u8>| #[trigger] entry_has_key(entries_upto(s, nb), k) <==> record_has_key(rs, k) by {
            assert(entry_has_key(entries_upto(s, nb), k) <==> (entry_has_key(entries_upto(s, prev), k) || entry_has_key(be, k)));
            assert(entry_has_key(entries_upto(s, prev), k) <==> record_has_key(records_upto(s, prev), k));
            if entry_has_key(be, k) {
                let q = choose|q: int| 0 <= q < be.len() && be[q].key == k;
                assert(rs[records_upto(s, prev).len() + q] == br[q]);
                assert(rs[records_upto(s, prev).len() + q].key == k);
            }
            if record_has_key(records_upto(s, prev), k) {
                let q = choose|q: int| 0 <= q < records_upto(s, prev).len() && records_upto(s, prev)[q].key == k;
                assert(rs[q].key == k);
            }
            if record_has_key(rs, k) {
                let q = choose|q: int| 0 <= q < rs.len() && rs[q].key == k;
                if q < records_upto(s, prev).len() {
                    assert(records_upto(s, prev)[q].key == k);
                } else {
                    let r = q - records_upto(s, prev).len();
                    assert(br[r].key == k);
                    assert(be[r].key == k);
                }
            }
        }
    }
}

/// A parsed index lists its entries in key order, each key once.
pub proof fn lemma_entries_in_key_order(idx: GraphicIndex, s: Seq<u8>)
    requires
        idx.describes(s),
    ensures
        keys_sorted(idx.entries_by_key@.map_values(|e: GraphicEntry| e@)),
{
    lemma_entries_upto_keys(s, 255);
}

/// The distinct record keys of an index.
pub open spec fn distinct_record_keys(idx: GraphicIndex) -> Set<Seq<u8>> {
    Set::new(|k: Seq<u8>| exists|i: int| 0 <= i < idx.records@.len() && #[trigger] idx.records@[i]@.key == k)
}

/// A parsed index keys one entry per distinct record key, so its `len` is
/// the number of distinct record keys.
pub proof fn lemma_len_counts_distinct_keys(idx: GraphicIndex, s: Seq<u8>)
    requires
        idx.describes(s),
    ensures
        distinct_record_keys(idx).finite(),
        idx.entries_by_key@.len() == distinct_record_keys(idx).len(),
{
    let es = entries_upto(s, 255);
    let rs = records_upto(s, 255);
    lemma_entries_upto_keys(s, 255);
    let ks = Seq::new(es.len(), |i: int| es[i].key);
    assert(ks.no_duplicates()) by {
        assert forall|i: int, j: int| 0 <= i < ks.len() && 0 <= j < ks.len() && i != j implies ks[i] != ks[j] by {
            if i < j {
                assert(es[i].key != es[j].key);
            } else {
                assert(es[j].key != es[i].key);
            }
        }
    }
    ks.unique_seq_to_set();
    assert(idx.records@.map_values(|r: GraphicRecord| r@) == rs);
    assert(idx.entries_by_key@.map_values(|e: GraphicEntry| e@) == es);
    assert(ks.to_set() =~= distinct_record_keys(idx)) by {
        assert forall|k: Seq<u8>| ks.to_set().contains(k) <==> distinct_record_keys(idx).contains(k) by {
            if ks.contains(k) {
                let q = choose|q: int| 0 <= q < ks.len() && ks[q] == k;
                assert(es[q].key == k);
                assert(entry_has_key(es, k));
                assert(record_has_key(rs, k));
                let r = choose|r: int| 0 <= r < rs.len() && rs[r].key == k;
                assert(idx.records@[r]@ == rs[r]);
            }
            if distinct_record_keys(idx).contains(k) {
                let r = choose|r: int| 0 <= r < idx.records@.len() && idx.records@[r]@.key == k;
                assert(rs[r] == idx.records@[r]@);
                assert(record_has_key(rs, k));
                assert(entry_has_key(es, k));
                let q = choose|q: int| 0 <= q < es.len() && es[q].key == k;
                assert(ks[q] == k);
            }
        }
    }
    vstd::seq_lib::seq_to_set_is_finite(ks);
}

} // verus!
