//! Little-endian byte readers and ASCII helpers shared by the resource
//! parsers.

use vstd::prelude::*;

verus! {

/// The unsigned 16-bit little-endian value stored at `off`.
pub open spec fn le_u16(s: Seq<u8>, off: int) -> u16 {
    (s[off] as int + 256 * (s[off + 1] as int)) as u16
}

/// The unsigned 32-bit little-endian value stored at `off`.
pub open spec fn le_u32(s: Seq<u8>, off: int) -> u32 {
    (s[off] as int + 256 * (s[off + 1] as int) + 65536 * (s[off + 2] as int) + 16777216 * (
    s[off + 3] as int)) as u32
}

/// The signed 32-bit little-endian value stored at `off`.
pub open spec fn le_i32(s: Seq<u8>, off: int) -> i32 {
    le_u32(s, off) as i32
}

/// Reads the 16-bit little-endian value at `off`; `None` when the two bytes
/// are not all inside `bytes`.
pub fn read_u16(bytes: &[u8], offset: usize) -> (res: Option<u16>)
    ensures
        res is Some <==> offset + 2 <= bytes@.len(),
        res matches Some(v) ==> v == le_u16(bytes@, offset as int),
{
    if offset > bytes.len() || bytes.len() - offset < 2 {
        return None;
    }
    let v = bytes[offset] as u32 + 256 * (bytes[offset + 1] as u32);
    Some(v as u16)
}

/// Reads the 32-bit little-endian value at `off`; `None` when the four bytes
/// are not all inside `bytes`.
pub fn read_u32(bytes: &[u8], offset: usize) -> (res: Option<u32>)
    ensures
        res is Some <==> offset + 4 <= bytes@.len(),
        res matches Some(v) ==> v == le_u32(bytes@, offset as int),
{
    if offset > bytes.len() || bytes.len() - offset < 4 {
        return None;
    }
    let v = bytes[offset] as u64 + 256 * (bytes[offset + 1] as u64) + 65536 * (bytes[offset
        + 2] as u64) + 16777216 * (bytes[offset + 3] as u64);
    Some(v as u32)
}

/// Reads the signed 32-bit little-endian value at `off`; `None` when the four
/// bytes are not all inside `bytes`.
pub fn read_i32(bytes: &[u8], offset: usize) -> (res: Option<i32>)
    ensures
        res is Some <==> offset + 4 <= bytes@.len(),
        res matches Some(v) ==> v == le_i32(bytes@, offset as int),
{
    match read_u32(bytes, offset) {
        Some(v) => Some(v as i32),
        None => None,
    }
}

/// The ASCII upper-case form of a byte: `a`..`z` map to `A`..`Z`, every other
/// byte is unchanged.
pub open spec fn ascii_upper(b: u8) -> u8 {
    if 97 <= b <= 122 {
        (b - 32) as u8
    } else {
        b
    }
}

/// ASCII upper-casing of one byte.
pub fn to_ascii_upper(b: u8) -> (res: u8)
    ensures
        res == ascii_upper(b),
{
    if 97 <= b && b <= 122 {
        b - 32
    } else {
        b
    }
}

/// Whether `s` begins with `prefix`.
pub open spec fn seq_starts_with(s: Seq<u8>, prefix: Seq<u8>) -> bool {
    prefix.len() <= s.len() && s.subrange(0, prefix.len() as int) == prefix
}

/// Tests whether `bytes` begins with `prefix`.
pub fn starts_with(bytes: &[u8], prefix: &[u8]) -> (res: bool)
    ensures
        res == seq_starts_with(bytes@, prefix@),
{
    if prefix.len() > bytes.len() {
        return false;
    }
    let mut i: usize = 0;
    while i < prefix.len()
        invariant
            i <= prefix@.len() <= bytes@.len(),
            forall|j: int| 0 <= j < i ==> bytes@[j] == prefix@[j],
        decreases prefix@.len() - i,
    {
        if bytes[i] != prefix[i] {
            assert(bytes@.subrange(0, prefix@.len() as int)[i as int] != prefix@[i as int]);
            return false;
        }
        i += 1;
    }
    assert(bytes@.subrange(0, prefix@.len() as int) =~= prefix@);
    true
}

} // verus!
