//! JSON text of the extcall report and of the trace comparison.

use vstd::prelude::*;
use crate::extcalls::{texts, ExtcallEvent, ExtcallReport};
use crate::lua::{decimal, hex_padded, json_escaped, push_decimal, push_hex, push_json_escaped, push_str};
use crate::text::string_from_chars;
use crate::trace::TraceCompare;

verus! {

/// `"` + the JSON-escaped text + `"`.
pub open spec fn json_string(s: Seq<char>) -> Seq<char> {
    seq!['"'] + json_escaped(s) + seq!['"']
}

/// The quoted, escaped strings of `items`, separated by `sep`.
pub open spec fn json_string_list(items: Seq<Seq<char>>, sep: Seq<char>) -> Seq<char>
    decreases items.len(),
{
    if items.len() == 0 {
        Seq::empty()
    } else if items.len() == 1 {
        json_string(items[0])
    } else {
        json_string_list(items.drop_last(), sep) + sep + json_string(items.last())
    }
}

fn push_json_string(out: &mut Vec<char>, s: &str)
    ensures
        final(out)@ == old(out)@ + json_string(s@),
{
    let ghost start = out@;
    out.push('"');
    push_json_escaped(out, s);
    out.push('"');
    assert(out@ =~= start + json_string(s@));
}

fn push_json_string_list(out: &mut Vec<char>, items: &Vec<String>, sep: &str)
    ensures
        final(out)@ == old(out)@ + json_string_list(texts(items@), sep@),
{
    let ghost start = out@;
    let mut i: usize = 0;
    while i < items.len()
        invariant
            i <= items@.len(),
            out@ == start + json_string_list(texts(items@).take(i as int), sep@),
        decreases items@.len() - i,
    {
        let ghost before = out@;
        if i > 0 {
            push_str(out, sep);
        }
        push_json_string(out, items[i].as_str());
        proof {
            let t = texts(items@).take(i as int + 1);
            assert(t.drop_last() =~= texts(items@).take(i as int));
            assert(t.last() == items@[i as int]@);
            if i == 0 {
                assert(json_string_list(texts(items@).take(0), sep@) =~= Seq::<char>::empty());
                assert(out@ =~= start + json_string_list(t, sep@));
            } else {
                assert(out@ =~= start + json_string_list(t, sep@));
            }
        }
        i += 1;
    }
    assert(texts(items@).take(i as int) =~= texts(items@));
}

/// `true` or `false`.
pub open spec fn bool_text(b: bool) -> Seq<char> {
    if b {
        "true"@
    } else {
        "false"@
    }
}

fn push_bool(out: &mut Vec<char>, b: bool)
    ensures
        final(out)@ == old(out)@ + bool_text(b),
{
    if b {
        push_str(out, "true");
    } else {
        push_str(out, "false");
    }
}

/// The JSON text of a trace comparison.
pub open spec fn trace_compare_json(c: TraceCompare) -> Seq<char> {
    "{\n  \"decompiler_count\": "@ + decimal(c.decompiler_count as nat) + ",\n  \"runtime_count\": "@
        + decimal(c.runtime_count as nat) + ",\n  \"matched_prefix\": "@ + decimal(
        c.matched_prefix as nat,
    ) + ",\n  \"ordinal_mismatches\": "@ + decimal(c.ordinal_mismatches as nat)
        + ",\n  \"pc_matched\": "@ + decimal(c.pc_matched as nat) + ",\n  \"pc_mismatches\": "@
        + decimal(c.pc_mismatches as nat) + ",\n  \"mismatches\": ["@ + json_string_list(
        texts(c.mismatches@),
        ", "@,
    ) + "]\n}\n"@
}

impl TraceCompare {
    pub fn to_json(&self) -> (s: String)
        ensures
            s@ == trace_compare_json(*self),
    {
        let mut out: Vec<char> = Vec::new();
        push_str(&mut out, "{\n  \"decompiler_count\": ");
        push_decimal(&mut out, self.decompiler_count as u64);
        push_str(&mut out, ",\n  \"runtime_count\": ");
        push_decimal(&mut out, self.runtime_count as u64);
        push_str(&mut out, ",\n  \"matched_prefix\": ");
        push_decimal(&mut out, self.matched_prefix as u64);
        push_str(&mut out, ",\n  \"ordinal_mismatches\": ");
        push_decimal(&mut out, self.ordinal_mismatches as u64);
        push_str(&mut out, ",\n  \"pc_matched\": ");
        push_decimal(&mut out, self.pc_matched as u64);
        push_str(&mut out, ",\n  \"pc_mismatches\": ");
        push_decimal(&mut out, self.pc_mismatches as u64);
        push_str(&mut out, ",\n  \"mismatches\": [");
        push_json_string_list(&mut out, &self.mismatches, ", ");
        push_str(&mut out, "]\n}\n");
        assert(out@ =~= trace_compare_json(*self));
        string_from_chars(out.as_slice())
    }
}

/// `null`, or the decimal numeral of the count.
pub open spec fn optional_count_text(n: Option<usize>) -> Seq<char> {
    match n {
        Some(v) => decimal(v as nat),
        None => "null"@,
    }
}

/// The JSON object of one extcall event, on one line: its ordinal, address,
/// selector and name, then counts, then kinds, flags and arguments.
pub open spec fn event_json(e: ExtcallEvent) -> Seq<char> {
    event_json_head(e) + event_json_mid(e) + event_json_tail(e)
}

pub open spec fn event_json_head(e: ExtcallEvent) -> Seq<char> {
    "    {\"ordinal\":"@ + decimal(e.ordinal as nat) + ",\"pc\":\"0x"@ + hex_padded(e.pc as nat, 8)
        + "\",\"category\":"@ + decimal(e.category as nat) + ",\"index\":"@ + decimal(
        e.index as nat,
    )
}

pub open spec fn event_json_mid(e: ExtcallEvent) -> Seq<char> {
    ",\"name\":\""@ + json_escaped(e.name@) + "\",\"arg_count\":"@ + decimal(e.arg_count as nat)
        + ",\"expected_arg_count\":"@ + optional_count_text(e.expected_arg_count)
}

pub open spec fn event_json_tail(e: ExtcallEvent) -> Seq<char> {
    ",\"return_kind\":\""@ + json_escaped(e.return_kind@) + "\",\"status\":\""@ + json_escaped(
        e.status@,
    ) + "\",\"stack_mismatch\":"@ + bool_text(e.stack_mismatch) + ",\"static_arg_unresolved\":"@
        + bool_text(e.static_arg_unresolved) + ",\"args\":["@ + json_string_list(
        texts(e.args@),
        ","@,
    ) + "]}"@
}

/// The event objects of `events`, separated by a comma and a newline.
pub open spec fn event_list_json(events: Seq<ExtcallEvent>) -> Seq<char>
    decreases events.len(),
{
    if events.len() == 0 {
        Seq::empty()
    } else if events.len() == 1 {
        event_json(events[0])
    } else {
        event_list_json(events.drop_last()) + ",\n"@ + event_json(events.last())
    }
}

/// The JSON text of an extcall report: the coverage counts, then the
/// sequence of events.
pub open spec fn report_json(r: ExtcallReport) -> Seq<char> {
    "{\n  \"coverage\": {\n"@ + "    \"total_opcode_table\": "@ + decimal(r.total_opcode_table as nat)
        + ",\n    \"total_known_table\": "@ + decimal(r.total_known_table as nat)
        + ",\n    \"unique_reachable\": "@ + decimal(r.unique_reachable as nat)
        + ",\n    \"reversed\": "@ + decimal(r.reversed as nat) + ",\n    \"verified\": "@
        + decimal(r.verified as nat) + ",\n    \"blocked\": "@ + decimal(r.blocked as nat)
        + ",\n    \"partial\": "@ + decimal(r.partial as nat) + ",\n    \"heuristic\": "@
        + decimal(r.heuristic as nat) + ",\n    \"auto_fallback\": "@ + decimal(
        r.auto_fallback as nat,
    ) + ",\n    \"stack_discipline_only\": "@ + decimal(r.stack_discipline_only as nat)
        + ",\n    \"stub\": "@ + decimal(r.stub as nat) + ",\n    \"unknown\": "@ + decimal(
        r.unknown as nat,
    ) + ",\n    \"stack_mismatch\": "@ + decimal(r.stack_mismatch as nat)
        + ",\n    \"static_arg_unresolved\": "@ + decimal(r.static_arg_unresolved as nat) + "\n"@
        + "  },\n  \"sequence\": [\n"@ + event_list_json(r.sequence@) + "\n  ]\n}\n"@
}

fn push_event_json_head(out: &mut Vec<char>, e: &ExtcallEvent)
    ensures
        final(out)@ == old(out)@ + event_json_head(*e),
{
    let ghost start = out@;
    push_str(out, "    {\"ordinal\":");
    push_decimal(out, e.ordinal as u64);
    push_str(out, ",\"pc\":\"0x");
    push_hex(out, e.pc as u64, 8);
    push_str(out, "\",\"category\":");
    push_decimal(out, e.category as u64);
    push_str(out, ",\"index\":");
    push_decimal(out, e.index as u64);
    assert(out@ =~= start + event_json_head(*e));
}

fn push_event_json_mid(out: &mut Vec<char>, e: &ExtcallEvent)
    ensures
        final(out)@ == old(out)@ + event_json_mid(*e),
{
    let ghost start = out@;
    push_str(out, ",\"name\":\"");
    push_json_escaped(out, e.name.as_str());
    push_str(out, "\",\"arg_count\":");
    push_decimal(out, e.arg_count as u64);
    push_str(out, ",\"expected_arg_count\":");
    match e.expected_arg_count {
        Some(n) => push_decimal(out, n as u64),
        None => push_str(out, "null"),
    }
    assert(out@ =~= start + event_json_mid(*e));
}

fn push_event_json_tail(out: &mut Vec<char>, e: &ExtcallEvent)
    ensures
        final(out)@ == old(out)@ + event_json_tail(*e),
{
    let ghost start = out@;
    push_str(out, ",\"return_kind\":\"");
    push_json_escaped(out, e.return_kind.as_str());
    push_str(out, "\",\"status\":\"");
    push_json_escaped(out, e.status.as_str());
    push_str(out, "\",\"stack_mismatch\":");
    push_bool(out, e.stack_mismatch);
    push_str(out, ",\"static_arg_unresolved\":");
    push_bool(out, e.static_arg_unresolved);
    push_str(out, ",\"args\":[");
    push_json_string_list(out, &e.args, ",");
    push_str(out, "]}");
    assert(out@ =~= start + event_json_tail(*e));
}

fn push_event_json(out: &mut Vec<char>, e: &ExtcallEvent)
    ensures
        final(out)@ == old(out)@ + event_json(*e),
{
    let ghost start = out@;
    push_event_json_head(out, e);
    push_event_json_mid(out, e);
    push_event_json_tail(out, e);
    assert(out@ =~= start + event_json(*e));
}

impl ExtcallReport {
    pub fn to_json(&self) -> (s: String)
        ensures
            s@ == report_json(*self),
    {
        let mut out: Vec<char> = Vec::new();
        push_str(&mut out, "{\n  \"coverage\": {\n");
        push_str(&mut out, "    \"total_opcode_table\": ");
        push_decimal(&mut out, self.total_opcode_table as u64);
        push_str(&mut out, ",\n    \"total_known_table\": ");
        push_decimal(&mut out, self.total_known_table as u64);
        push_str(&mut out, ",\n    \"unique_reachable\": ");
        push_decimal(&mut out, self.unique_reachable as u64);
        push_str(&mut out, ",\n    \"reversed\": ");
        push_decimal(&mut out, self.reversed as u64);
        push_str(&mut out, ",\n    \"verified\": ");
        push_decimal(&mut out, self.verified as u64);
        push_str(&mut out, ",\n    \"blocked\": ");
        push_decimal(&mut out, self.blocked as u64);
        push_str(&mut out, ",\n    \"partial\": ");
        push_decimal(&mut out, self.partial as u64);
        push_str(&mut out, ",\n    \"heuristic\": ");
        push_decimal(&mut out, self.heuristic as u64);
        push_str(&mut out, ",\n    \"auto_fallback\": ");
        push_decimal(&mut out, self.auto_fallback as u64);
        push_str(&mut out, ",\n    \"stack_discipline_only\": ");
        push_decimal(&mut out, self.stack_discipline_only as u64);
        push_str(&mut out, ",\n    \"stub\": ");
        push_decimal(&mut out, self.stub as u64);
        push_str(&mut out, ",\n    \"unknown\": ");
        push_decimal(&mut out, self.unknown as u64);
        push_str(&mut out, ",\n    \"stack_mismatch\": ");
        push_decimal(&mut out, self.stack_mismatch as u64);
        push_str(&mut out, ",\n    \"static_arg_unresolved\": ");
        push_decimal(&mut out, self.static_arg_unresolved as u64);
        push_str(&mut out, "\n");
        push_str(&mut out, "  },\n  \"sequence\": [\n");
        let ghost head = out@;
        let mut i: usize = 0;
        while i < self.sequence.len()
            invariant
                i <= self.sequence@.len(),
                out@ == head + event_list_json(self.sequence@.take(i as int)),
            decreases self.sequence@.len() - i,
        {
            if i > 0 {
                push_str(&mut out, ",\n");
            }
            push_event_json(&mut out, &self.sequence[i]);
            proof {
                let t = self.sequence@.take(i as int + 1);
                assert(t.drop_last() =~= self.sequence@.take(i as int));
                assert(t.last() == self.sequence@[i as int]);
                if i == 0 {
                    assert(event_list_json(self.sequence@.take(0)) =~= Seq::<char>::empty());
                }
                assert(out@ =~= head + event_list_json(t));
            }
            i += 1;
        }
        assert(self.sequence@.take(i as int) =~= self.sequence@);
        push_str(&mut out, "\n  ]\n}\n");
        assert(out@ =~= report_json(*self));
        string_from_chars(out.as_slice())
    }
}

} // verus!
