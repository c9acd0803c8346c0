//! Runtime extcall traces: reading the extcalls a VM trace log records and
//! comparing them with the decompiler's static extcall sequence.

use vstd::prelude::*;
use crate::extcalls::{ExtcallEvent, ext_name_text};
use crate::lua::{decimal, hex_padded, push_decimal, push_hex, push_str};
use crate::text::string_from_chars;
use vstd::utf8::encode_utf8;

verus! {

// ---------------------------------------------------------------- searching

/// `needle` occurs in `hay` at byte `i`.
pub open spec fn occurs_at(hay: Seq<u8>, needle: Seq<u8>, i: int) -> bool {
    0 <= i && i + needle.len() <= hay.len() && hay.subrange(i, i + needle.len()) == needle
}

/// The first byte position at or after `i` where `needle` occurs.
pub open spec fn find_from(hay: Seq<u8>, needle: Seq<u8>, i: int) -> Option<int>
    decreases hay.len() + 1 - i,
{
    if i < 0 || i + needle.len() > hay.len() {
        None
    } else if occurs_at(hay, needle, i) {
        Some(i)
    } else {
        find_from(hay, needle, i + 1)
    }
}

pub proof fn lemma_find_from_facts(hay: Seq<u8>, needle: Seq<u8>, i: int)
    requires
        0 <= i,
    ensures
        find_from(hay, needle, i) matches Some(p) ==> i <= p && occurs_at(hay, needle, p),
    decreases hay.len() + 1 - i,
{
    if !(i + needle.len() > hay.len()) && !occurs_at(hay, needle, i) {
        lemma_find_from_facts(hay, needle, i + 1);
    }
}

fn occurs_at_exec(hay: &[u8], needle: &[u8], i: usize) -> (b: bool)
    requires
        i + needle@.len() <= hay@.len(),
    ensures
        b == occurs_at(hay@, needle@, i as int),
{
    let hl = hay.len();
    let mut k: usize = 0;
    while k < needle.len()
        invariant
            k <= needle@.len(),
            hl == hay@.len(),
            i + needle@.len() <= hay@.len(),
            forall|t: int| 0 <= t < k ==> hay@[i + t] == needle@[t],
        decreases needle@.len() - k,
    {
        if hay[i + k] != needle[k] {
            assert(hay@.subrange(i as int, i + needle@.len())[k as int] != needle@[k as int]);
            return false;
        }
        k += 1;
    }
    assert(hay@.subrange(i as int, i + needle@.len()) =~= needle@);
    true
}

/// The first position at or after `from` where `needle` occurs in `hay`.
pub fn find_bytes(hay: &[u8], needle: &[u8], from: usize) -> (r: Option<usize>)
    ensures
        match r {
            Some(p) => find_from(hay@, needle@, from as int) == Some(p as int),
            None => find_from(hay@, needle@, from as int) is None,
        },
{
    let mut i = from;
    if needle.len() > hay.len() {
        return None;
    }
    let last = hay.len() - needle.len();
    while i <= last
        invariant
            from <= i,
            last == hay@.len() - needle@.len(),
            needle@.len() <= hay@.len(),
            find_from(hay@, needle@, from as int) == find_from(hay@, needle@, i as int),
        decreases last + 1 - i,
    {
        if occurs_at_exec(hay, needle, i) {
            return Some(i);
        }
        if i == last {
            return None;
        }
        i += 1;
    }
    None
}

// ---------------------------------------------------------------- numbers

/// The value of a hexadecimal digit byte.
pub open spec fn hex_digit_value(b: u8) -> Option<nat> {
    if 0x30 <= b <= 0x39 {
        Some((b - 0x30) as nat)
    } else if 0x41 <= b <= 0x46 {
        Some((b - 0x41 + 10) as nat)
    } else if 0x61 <= b <= 0x66 {
        Some((b - 0x61 + 10) as nat)
    } else {
        None
    }
}

/// The value of a run of hexadecimal digits, `None` when a byte is not one.
pub open spec fn hex_run_value(s: Seq<u8>) -> Option<nat>
    decreases s.len(),
{
    if s.len() == 0 {
        Some(0)
    } else {
        match (hex_run_value(s.drop_last()), hex_digit_value(s.last())) {
            (Some(v), Some(d)) => Some(v * 16 + d),
            _ => None,
        }
    }
}

/// `from_str_radix(s, 16)` for an unsigned type whose largest value is
/// `max`: an optional `+`, then one or more hexadecimal digits, and a value
/// no larger than `max`.
pub open spec fn parse_hex_spec(s: Seq<u8>, max: nat) -> Option<nat> {
    let d = if s.len() > 0 && s[0] == 0x2B {
        s.drop_first()
    } else {
        s
    };
    if d.len() == 0 {
        None
    } else {
        match hex_run_value(d) {
            Some(v) => if v <= max {
                Some(v)
            } else {
                None
            },
            None => None,
        }
    }
}

/// Parses `s[lo..hi]` the way `from_str_radix(_, 16)` does for a type whose
/// largest value is `max`.
fn parse_hex(s: &[u8], lo: usize, hi: usize, max: u32) -> (r: Option<u32>)
    requires
        lo <= hi <= s@.len(),
    ensures
        match r {
            Some(v) => parse_hex_spec(s@.subrange(lo as int, hi as int), max as nat) == Some(v as nat),
            None => parse_hex_spec(s@.subrange(lo as int, hi as int), max as nat) is None,
        },
{
    let ghost t = s@.subrange(lo as int, hi as int);
    let mut i = lo;
    if i < hi && s[i] == 0x2B {
        i += 1;
    }
    let ghost d = s@.subrange(i as int, hi as int);
    assert(d =~= (if t.len() > 0 && t[0] == 0x2B {
        t.drop_first()
    } else {
        t
    }));
    if i == hi {
        return None;
    }
    let start = i;
    let mut acc: u64 = 0;
    while i < hi
        invariant
            start <= i <= hi <= s@.len(),
            start < hi,
            d == s@.subrange(start as int, hi as int),
            t == s@.subrange(lo as int, hi as int),
            d == (if t.len() > 0 && t[0] == 0x2B {
                t.drop_first()
            } else {
                t
            }),
            hex_run_value(s@.subrange(start as int, i as int)) == Some(acc as nat),
            acc <= max,
        decreases hi - i,
    {
        let b = s[i];
        let dv: u64 = if 0x30 <= b && b <= 0x39 {
            (b - 0x30) as u64
        } else if 0x41 <= b && b <= 0x46 {
            (b - 0x41 + 10) as u64
        } else if 0x61 <= b && b <= 0x66 {
            (b - 0x61 + 10) as u64
        } else {
            proof {
                assert(s@.subrange(start as int, i + 1).drop_last() =~= s@.subrange(start as int, i as int));
                assert(s@.subrange(start as int, i + 1).last() == b);
                assert(hex_digit_value(b) is None);
                assert(s@.subrange(start as int, hi as int).subrange(0, (i - start) + 1) =~= s@.subrange(
                    start as int,
                    i + 1,
                ));
                lemma_hex_run_prefix_none(s@.subrange(start as int, hi as int), (i - start) as int);
            }
            return None;
        };
        assert(s@.subrange(start as int, i + 1).drop_last() =~= s@.subrange(start as int, i as int));
        let next = acc * 16 + dv;
        if next > max as u64 {
            proof {
                assert(s@.subrange(start as int, i + 1).last() == b);
                assert(hex_run_value(s@.subrange(start as int, i + 1)) == Some(next as nat));
                assert(s@.subrange(start as int, hi as int).subrange(0, (i - start) + 1) =~= s@.subrange(
                    start as int,
                    i + 1,
                ));
                lemma_hex_run_prefix_grows(s@.subrange(start as int, hi as int), (i - start + 1) as int);
            }
            return None;
        }
        acc = next;
        i += 1;
    }
    assert(s@.subrange(start as int, i as int) =~= d);
    Some(acc as u32)
}

proof fn lemma_hex_run_prefix_none(s: Seq<u8>, k: int)
    requires
        0 <= k < s.len(),
        hex_run_value(s.subrange(0, k + 1)) is None,
    ensures
        hex_run_value(s) is None,
    decreases s.len(),
{
    if k + 1 < s.len() {
        assert(s.drop_last().subrange(0, k + 1) =~= s.subrange(0, k + 1));
        lemma_hex_run_prefix_none(s.drop_last(), k);
    } else {
        assert(s.subrange(0, k + 1) =~= s);
    }
}

proof fn lemma_hex_run_prefix_grows(s: Seq<u8>, k: int)
    requires
        0 < k <= s.len(),
    ensures
        hex_run_value(s.subrange(0, k)) is Some && hex_run_value(s) is Some ==> hex_run_value(
            s.subrange(0, k),
        )->0 <= hex_run_value(s)->0,
    decreases s.len(),
{
    if k < s.len() {
        assert(s.drop_last().subrange(0, k) =~= s.subrange(0, k));
        lemma_hex_run_prefix_grows(s.drop_last(), k);
    } else {
        assert(s.subrange(0, k) =~= s);
    }
}


// ---------------------------------------------------------------- lines

/// The eight hexadecimal digits that follow the first `marker` in `line`,
/// as `from_str_radix(_, 16)` reads them; `None` when the marker is absent,
/// fewer than eight bytes follow it, or they are no hexadecimal number. (A
/// cut through a multi-byte character, which `str::get` refuses, leaves a
/// byte from 0x80 among the eight, which no number has.)
pub open spec fn parse_hex_after_spec(line: Seq<u8>, marker: Seq<u8>) -> Option<u32> {
    match find_from(line, marker, 0) {
        None => None,
        Some(p) => {
            let start = p + marker.len();
            if start + 8 > line.len() {
                None
            } else {
                match parse_hex_spec(line.subrange(start, start + 8), 0xFFFF_FFFF) {
                    Some(v) => Some(v as u32),
                    None => None,
                }
            }
        },
    }
}

pub fn parse_hex_after(line: &[u8], marker: &[u8]) -> (r: Option<u32>)
    ensures
        r == parse_hex_after_spec(line@, marker@),
{
    match find_bytes(line, marker, 0) {
        None => None,
        Some(p) => {
            proof {
                lemma_find_from_facts(line@, marker@, 0);
            }
            let ll = line.len();
            assert(p + marker@.len() <= ll);
            let start = p + marker.len();
            if start > line.len() || line.len() - start < 8 {
                return None;
            }
            match parse_hex(line, start, start + 8, 0xFFFF_FFFF) {
                Some(v) => Some(v),
                None => None,
            }
        },
    }
}

/// One extcall a runtime trace records, with the opcode address last
/// logged before it.
#[derive(Clone, Copy, Debug, PartialEq, Eq, Structural)]
pub struct RuntimeExtcallEvent {
    pub pc: Option<u32>,
    pub category: u16,
    pub index: u16,
}

/// The byte sequence of `opcode pc=0x`.
pub open spec fn pc_marker() -> Seq<u8> {
    seq![0x6Fu8, 0x70u8, 0x63u8, 0x6Fu8, 0x64u8, 0x65u8, 0x20u8, 0x70u8, 0x63u8, 0x3Du8, 0x30u8, 0x78u8]
}

/// The byte sequence of ` op extcall `.
pub open spec fn extcall_marker() -> Seq<u8> {
    seq![0x20u8, 0x6Fu8, 0x70u8, 0x20u8, 0x65u8, 0x78u8, 0x74u8, 0x63u8, 0x61u8, 0x6Cu8, 0x6Cu8, 0x20u8]
}

/// The extcall a trace line records: after ` op extcall `, the first
/// `ext_` followed by nine bytes `CCCC_IIII`, split at their first `_` into
/// two hexadecimal 16-bit numbers.
pub open spec fn line_extcall_spec(line: Seq<u8>) -> Option<(u16, u16)> {
    match find_from(line, extcall_marker(), 0) {
        None => None,
        Some(m) => match find_from(line, seq![0x65u8, 0x78u8, 0x74u8, 0x5Fu8], m) {
            None => None,
            Some(x) => if x + 13 > line.len() {
                None
            } else {
                let raw = line.subrange(x + 4, x + 13);
                match find_from(raw, seq![0x5Fu8], 0) {
                    None => None,
                    Some(u) => match (
                        parse_hex_spec(raw.subrange(0, u), 0xFFFF),
                        parse_hex_spec(raw.subrange(u + 1, 9), 0xFFFF),
                    ) {
                        (Some(c), Some(i)) => Some((c as u16, i as u16)),
                        _ => None,
                    },
                }
            },
        },
    }
}

/// The end of the line that starts at `a`: the next newline, or the end.
pub open spec fn line_end(t: Seq<u8>, a: int) -> int {
    match find_from(t, seq![0x0Au8], a) {
        Some(p) => p,
        None => t.len() as int,
    }
}

/// The extcalls recorded by the lines of `t` from byte `a` on, when `pc`
/// is the opcode address logged before `a`. A line holding `opcode pc=0x`
/// only updates the address; any other line may record one extcall. Lines
/// end at newlines; an empty line records nothing, and a carriage return
/// before a newline cannot complete a marker or a number.
pub open spec fn trace_events_from(t: Seq<u8>, a: int, pc: Option<u32>) -> Seq<RuntimeExtcallEvent>
    decreases t.len() + 1 - a,
{
    if a < 0 || a > t.len() {
        Seq::empty()
    } else {
        let e = line_end(t, a);
        let line = t.subrange(a, e);
        let has_pc = find_from(line, pc_marker(), 0) is Some;
        let pc2 = if has_pc {
            parse_hex_after_spec(line, pc_marker())
        } else {
            pc
        };
        let ev = if has_pc {
            None
        } else {
            line_extcall_spec(line)
        };
        proof {
            lemma_find_from_facts(t, seq![0x0Au8], a);
        }
        let rest = if e < t.len() {
            trace_events_from(t, e + 1, pc2)
        } else {
            Seq::empty()
        };
        match ev {
            Some((c, i)) => seq![RuntimeExtcallEvent { pc, category: c, index: i }] + rest,
            None => rest,
        }
    }
}

/// Copies `t[a..e]`.
fn copy_range(t: &[u8], a: usize, e: usize) -> (v: Vec<u8>)
    requires
        a <= e <= t@.len(),
    ensures
        v@ == t@.subrange(a as int, e as int),
{
    let mut v: Vec<u8> = Vec::new();
    let mut i = a;
    while i < e
        invariant
            a <= i <= e <= t@.len(),
            v@ == t@.subrange(a as int, i as int),
        decreases e - i,
    {
        v.push(t[i]);
        i += 1;
        assert(v@ =~= t@.subrange(a as int, i as int));
    }
    v
}

fn line_extcall_exec(line: &[u8]) -> (r: Option<(u16, u16)>)
    ensures
        r == line_extcall_spec(line@),
{
    let marker: [u8; 12] = [0x20, 0x6F, 0x70, 0x20, 0x65, 0x78, 0x74, 0x63, 0x61, 0x6C, 0x6C, 0x20];
    assert(marker@ =~= extcall_marker());
    let ext: [u8; 4] = [0x65, 0x78, 0x74, 0x5F];
    assert(ext@ =~= seq![0x65u8, 0x78u8, 0x74u8, 0x5Fu8]);
    let m = match find_bytes(line, marker.as_slice(), 0) {
        Some(m) => m,
        None => {
            return None;
        },
    };
    let x = match find_bytes(line, ext.as_slice(), m) {
        Some(x) => x,
        None => {
            return None;
        },
    };
    proof {
        lemma_find_from_facts(line@, ext@, m as int);
    }
    if x > line.len() || line.len() - x < 13 {
        return None;
    }
    let raw = copy_range(line, x + 4, x + 13);
    let under: [u8; 1] = [0x5F];
    assert(under@ =~= seq![0x5Fu8]);
    let u = match find_bytes(raw.as_slice(), under.as_slice(), 0) {
        Some(u) => u,
        None => {
            return None;
        },
    };
    proof {
        lemma_find_from_facts(raw@, under@, 0);
    }
    let c = parse_hex(raw.as_slice(), 0, u, 0xFFFF);
    let i = parse_hex(raw.as_slice(), u + 1, 9, 0xFFFF);
    match (c, i) {
        (Some(c), Some(i)) => Some((c as u16, i as u16)),
        _ => None,
    }
}

/// The extcalls a runtime trace log records, in order.
pub fn parse_runtime_extcalls(trace_text: &str) -> (out: Vec<RuntimeExtcallEvent>)
    ensures
        out@ == trace_events_from(encode_utf8(trace_text@), 0, None),
{
    let t = trace_text.as_bytes();
    let pc_mark: [u8; 12] = [0x6F, 0x70, 0x63, 0x6F, 0x64, 0x65, 0x20, 0x70, 0x63, 0x3D, 0x30, 0x78];
    assert(pc_mark@ =~= pc_marker());
    let newline: [u8; 1] = [0x0A];
    assert(newline@ =~= seq![0x0Au8]);
    let mut out: Vec<RuntimeExtcallEvent> = Vec::new();
    let mut current_pc: Option<u32> = None;
    let mut a: usize = 0;
    loop
        invariant
            a <= t@.len(),
            t@ == encode_utf8(trace_text@),
            pc_mark@ == pc_marker(),
            newline@ == seq![0x0Au8],
            out@ + trace_events_from(t@, a as int, current_pc) == trace_events_from(t@, 0, None),
        decreases t@.len() - a,
    {
        let e = match find_bytes(t, newline.as_slice(), a) {
            Some(p) => p,
            None => t.len(),
        };
        proof {
            lemma_find_from_facts(t@, seq![0x0Au8], a as int);
        }
        assert(e == line_end(t@, a as int));
        let line = copy_range(t, a, e);
        let ghost pre_pc = current_pc;
        let ghost pre_out = out@;
        let has_pc = find_bytes(line.as_slice(), pc_mark.as_slice(), 0).is_some();
        if has_pc {
            current_pc = parse_hex_after(line.as_slice(), pc_mark.as_slice());
        } else {
            match line_extcall_exec(line.as_slice()) {
                Some((c, i)) => {
                    out.push(RuntimeExtcallEvent { pc: current_pc, category: c, index: i });
                },
                None => {},
            }
        }
        let ghost rest = if e < t@.len() {
            trace_events_from(t@, e + 1, current_pc)
        } else {
            Seq::<RuntimeExtcallEvent>::empty()
        };
        assert(out@ + rest =~= pre_out + trace_events_from(t@, a as int, pre_pc));
        if e >= t.len() {
            assert(out@ =~= trace_events_from(t@, 0, None));
            return out;
        }
        a = e + 1;
    }
}


// ---------------------------------------------------------------- comparing

/// How a runtime trace lines up with the decompiler's extcall sequence.
#[derive(Clone, Debug)]
pub struct TraceCompare {
    pub decompiler_count: usize,
    pub runtime_count: usize,
    pub matched_prefix: usize,
    pub ordinal_mismatches: usize,
    pub pc_matched: usize,
    pub pc_mismatches: usize,
    pub mismatches: Vec<String>,
}

/// The last decompiler event at `pc` among the first `n` (later events at
/// the same address replace earlier ones).
pub open spec fn last_with_pc(dec: Seq<ExtcallEvent>, pc: u32, n: int) -> Option<int>
    decreases n,
{
    if n <= 0 {
        None
    } else if dec[n - 1].pc == pc {
        Some(n - 1)
    } else {
        last_with_pc(dec, pc, n - 1)
    }
}

proof fn lemma_last_with_pc_bounds(dec: Seq<ExtcallEvent>, pc: u32, n: int)
    ensures
        last_with_pc(dec, pc, n) matches Some(j) ==> 0 <= j < n && dec[j].pc == pc,
    decreases n,
{
    if n > 0 && dec[n - 1].pc != pc {
        lemma_last_with_pc_bounds(dec, pc, n - 1);
    }
}

/// `"pc runtime #"`, the runtime ordinal, `": "`.
pub open spec fn message_head(i: nat) -> Seq<char> {
    "pc runtime #"@ + decimal(i) + ": "@
}

/// `"pc=0x"` and the address as eight hexadecimal digits.
pub open spec fn pc_text(pc: u32) -> Seq<char> {
    "pc=0x"@ + hex_padded(pc as nat, 8)
}

/// Whether runtime event `i` matches the decompiler event at its address,
/// and the message written when it does not.
pub open spec fn pc_outcome(dec: Seq<ExtcallEvent>, i: nat, rt: RuntimeExtcallEvent) -> (bool, Seq<char>) {
    match rt.pc {
        None => (false, message_head(i) + "no opcode pc for "@ + ext_name_text(rt.category, rt.index)),
        Some(pc) => match last_with_pc(dec, pc, dec.len() as int) {
            Some(j) => if dec[j].category == rt.category && dec[j].index == rt.index {
                (true, Seq::empty())
            } else {
                (
                    false,
                    message_head(i) + pc_text(pc) + " "@ + ext_name_text(rt.category, rt.index)
                        + " != decompiler "@ + ext_name_text(dec[j].category, dec[j].index),
                )
            },
            None => (
                false,
                message_head(i) + pc_text(pc) + " "@ + ext_name_text(rt.category, rt.index)
                    + " has no static extcall"@,
            ),
        },
    }
}

/// How many of the first `n` runtime events match their decompiler event by
/// address.
pub open spec fn pc_matched_count(dec: Seq<ExtcallEvent>, rts: Seq<RuntimeExtcallEvent>, n: int) -> nat
    decreases n,
{
    if n <= 0 {
        0
    } else {
        pc_matched_count(dec, rts, n - 1) + if pc_outcome(dec, (n - 1) as nat, rts[n - 1]).0 {
            1nat
        } else {
            0nat
        }
    }
}

/// The messages of the first `n` runtime events that do not match.
pub open spec fn pc_messages(dec: Seq<ExtcallEvent>, rts: Seq<RuntimeExtcallEvent>, n: int) -> Seq<Seq<char>>
    decreases n,
{
    if n <= 0 {
        Seq::empty()
    } else if pc_outcome(dec, (n - 1) as nat, rts[n - 1]).0 {
        pc_messages(dec, rts, n - 1)
    } else {
        pc_messages(dec, rts, n - 1).push(pc_outcome(dec, (n - 1) as nat, rts[n - 1]).1)
    }
}

/// How many of the first `n` runtime events have the same selector as the
/// decompiler event with the same ordinal.
pub open spec fn ordinal_matched_count(dec: Seq<ExtcallEvent>, rts: Seq<RuntimeExtcallEvent>, n: int) -> nat
    decreases n,
{
    if n <= 0 {
        0
    } else {
        ordinal_matched_count(dec, rts, n - 1) + if n - 1 < dec.len() && dec[n - 1].category
            == rts[n - 1].category && dec[n - 1].index == rts[n - 1].index {
            1nat
        } else {
            0nat
        }
    }
}

fn find_last_with_pc(dec: &[ExtcallEvent], pc: u32) -> (r: Option<usize>)
    ensures
        match r {
            Some(j) => last_with_pc(dec@, pc, dec@.len() as int) == Some(j as int),
            None => last_with_pc(dec@, pc, dec@.len() as int) is None,
        },
{
    let mut found: Option<usize> = None;
    let mut j: usize = 0;
    while j < dec.len()
        invariant
            j <= dec@.len(),
            match found {
                Some(x) => last_with_pc(dec@, pc, j as int) == Some(x as int),
                None => last_with_pc(dec@, pc, j as int) is None,
            },
        decreases dec@.len() - j,
    {
        if dec[j].pc == pc {
            found = Some(j);
        }
        j += 1;
    }
    found
}

fn push_ext_name(out: &mut Vec<char>, category: u16, index: u16)
    ensures
        final(out)@ == old(out)@ + ext_name_text(category, index),
{
    let ghost start = out@;
    push_str(out, "ext_");
    push_hex(out, category as u64, 4);
    push_str(out, "_");
    push_hex(out, index as u64, 4);
    assert(out@ =~= start + ext_name_text(category, index));
}

fn outcome_exec(dec: &[ExtcallEvent], i: usize, rt: RuntimeExtcallEvent) -> (r: (bool, Vec<char>))
    ensures
        r.0 == pc_outcome(dec@, i as nat, rt).0,
        !r.0 ==> r.1@ == pc_outcome(dec@, i as nat, rt).1,
{
    let mut out: Vec<char> = Vec::new();
    push_str(&mut out, "pc runtime #");
    push_decimal(&mut out, i as u64);
    push_str(&mut out, ": ");
    assert(out@ =~= message_head(i as nat));
    match rt.pc {
        None => {
            push_str(&mut out, "no opcode pc for ");
            push_ext_name(&mut out, rt.category, rt.index);
            assert(out@ =~= pc_outcome(dec@, i as nat, rt).1);
            (false, out)
        },
        Some(pc) => {
            let ghost head = out@;
            push_str(&mut out, "pc=0x");
            push_hex(&mut out, pc as u64, 8);
            push_str(&mut out, " ");
            push_ext_name(&mut out, rt.category, rt.index);
            let ghost mid = out@;
            assert(mid =~= head + pc_text(pc) + " "@ + ext_name_text(rt.category, rt.index));
            proof {
                lemma_last_with_pc_bounds(dec@, pc, dec@.len() as int);
            }
            match find_last_with_pc(dec, pc) {
                Some(j) => {
                    if dec[j].category == rt.category && dec[j].index == rt.index {
                        (true, out)
                    } else {
                        push_str(&mut out, " != decompiler ");
                        push_ext_name(&mut out, dec[j].category, dec[j].index);
                        assert(out@ =~= pc_outcome(dec@, i as nat, rt).1);
                        (false, out)
                    }
                },
                None => {
                    push_str(&mut out, " has no static extcall");
                    assert(out@ =~= pc_outcome(dec@, i as nat, rt).1);
                    (false, out)
                },
            }
        },
    }
}

/// Ordinal `i` agrees: the decompiler has an event there with the same
/// category and the same index as the runtime event.
pub open spec fn agrees_at(dec: Seq<ExtcallEvent>, rts: Seq<RuntimeExtcallEvent>, i: int) -> bool {
    i < dec.len() && dec[i].category == rts[i].category && dec[i].index == rts[i].index
}

/// Ordinal matching counts agreement of both halves of the selector: all
/// of the first `n` runtime events count as matched exactly when every one
/// of them has the category and the index of the decompiler event at its
/// ordinal, and none counts exactly when no ordinal agrees in both.
pub proof fn lemma_ordinal_matches_need_category_and_index(
    dec: Seq<ExtcallEvent>,
    rts: Seq<RuntimeExtcallEvent>,
    n: int,
)
    requires
        0 <= n,
    ensures
        (ordinal_matched_count(dec, rts, n) == n) == (forall|i: int| 0 <= i < n ==> #[trigger] agrees_at(dec, rts, i)),
        (ordinal_matched_count(dec, rts, n) == 0) == (forall|i: int| 0 <= i < n ==> !#[trigger] agrees_at(dec, rts, i)),
    decreases n,
{
    lemma_counts_bounded(dec, rts, n);
    if n > 0 {
        lemma_ordinal_matches_need_category_and_index(dec, rts, n - 1);
        lemma_counts_bounded(dec, rts, n - 1);
        let last = agrees_at(dec, rts, n - 1);
        if (forall|i: int| 0 <= i < n ==> #[trigger] agrees_at(dec, rts, i)) {
            assert(agrees_at(dec, rts, n - 1));
        }
        if (forall|i: int| 0 <= i < n ==> !#[trigger] agrees_at(dec, rts, i)) {
            assert(!agrees_at(dec, rts, n - 1));
        }
        if !last {
            assert(!(forall|i: int| 0 <= i < n ==> #[trigger] agrees_at(dec, rts, i)));
        } else {
            assert(!(forall|i: int| 0 <= i < n ==> !#[trigger] agrees_at(dec, rts, i)));
        }
    }
}

proof fn lemma_counts_bounded(dec: Seq<ExtcallEvent>, rts: Seq<RuntimeExtcallEvent>, n: int)
    requires
        0 <= n,
    ensures
        pc_matched_count(dec, rts, n) <= n,
        ordinal_matched_count(dec, rts, n) <= n,
    decreases n,
{
    if n > 0 {
        lemma_counts_bounded(dec, rts, n - 1);
    }
}

/// Compares the extcalls a runtime trace records with the decompiler's
/// sequence, once by ordinal and once by opcode address (the last
/// decompiler event at an address stands for it), with a message for
/// every runtime extcall whose address does not match.
pub fn compare_runtime_trace(decompiler: &[ExtcallEvent], trace_text: &str) -> (c: TraceCompare)
    ensures
        c.decompiler_count == decompiler@.len(),
        c.runtime_count == trace_events_from(encode_utf8(trace_text@), 0, None).len(),
        c.matched_prefix == ordinal_matched_count(
            decompiler@,
            trace_events_from(encode_utf8(trace_text@), 0, None),
            c.runtime_count as int,
        ),
        c.ordinal_mismatches == c.runtime_count - c.matched_prefix,
        c.pc_matched == pc_matched_count(
            decompiler@,
            trace_events_from(encode_utf8(trace_text@), 0, None),
            c.runtime_count as int,
        ),
        c.pc_mismatches == c.runtime_count - c.pc_matched,
        c.mismatches@.map_values(|m: String| m@) == pc_messages(
            decompiler@,
            trace_events_from(encode_utf8(trace_text@), 0, None),
            c.runtime_count as int,
        ),
{
    let runtime = parse_runtime_extcalls(trace_text);
    let ghost rts = runtime@;
    let mut matched_prefix: usize = 0;
    let mut ordinal_mismatches: usize = 0;
    let mut i: usize = 0;
    while i < runtime.len()
        invariant
            i <= runtime@.len(),
            rts == runtime@,
            matched_prefix == ordinal_matched_count(decompiler@, rts, i as int),
            matched_prefix + ordinal_mismatches == i,
        decreases runtime@.len() - i,
    {
        proof {
            lemma_counts_bounded(decompiler@, rts, i as int);
        }
        let rt = runtime[i];
        if i < decompiler.len() && decompiler[i].category == rt.category && decompiler[i].index
            == rt.index {
            matched_prefix += 1;
        } else {
            ordinal_mismatches += 1;
        }
        i += 1;
    }
    let mut pc_matched: usize = 0;
    let mut pc_mismatches: usize = 0;
    let mut mismatches: Vec<String> = Vec::new();
    let mut k: usize = 0;
    while k < runtime.len()
        invariant
            k <= runtime@.len(),
            rts == runtime@,
            pc_matched == pc_matched_count(decompiler@, rts, k as int),
            pc_matched + pc_mismatches == k,
            mismatches@.map_values(|m: String| m@) == pc_messages(decompiler@, rts, k as int),
        decreases runtime@.len() - k,
    {
        proof {
            lemma_counts_bounded(decompiler@, rts, k as int);
        }
        let (ok, msg) = outcome_exec(decompiler, k, runtime[k]);
        if ok {
            pc_matched += 1;
        } else {
            pc_mismatches += 1;
            let ghost pre = mismatches@;
            let m = string_from_chars(msg.as_slice());
            mismatches.push(m);
            assert(mismatches@.map_values(|m: String| m@) =~= pre.map_values(|m: String| m@).push(m@));
        }
        k += 1;
    }
    TraceCompare {
        decompiler_count: decompiler.len(),
        runtime_count: runtime.len(),
        matched_prefix,
        ordinal_mismatches,
        pc_matched,
        pc_mismatches,
        mismatches,
    }
}


/// Every runtime extcall is either matched by address or has exactly one
/// message: the messages number the address mismatches.
pub proof fn lemma_one_message_per_mismatch(dec: Seq<ExtcallEvent>, rts: Seq<RuntimeExtcallEvent>, n: int)
    requires
        0 <= n,
    ensures
        pc_messages(dec, rts, n).len() + pc_matched_count(dec, rts, n) == n,
    decreases n,
{
    if n > 0 {
        lemma_one_message_per_mismatch(dec, rts, n - 1);
    }
}

} // verus!
