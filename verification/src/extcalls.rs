//! The extcall report: a walk over a disassembled script that simulates the
//! VM operand stack, records every extcall with the arguments it pops, and
//! counts the distinct extcalls by how far their signatures are known.

use vstd::prelude::*;
use crate::extsig::{
    auto_signatures, all_signatures, lookup_sig, observed_pop_count, spec_lookup_sig, ImplStatus,
    ReturnKind,
};
use crate::extsig_table::{observed_arity, SIGNATURE_COUNT};
use crate::lua::{hex_padded, push_hex, push_str};
use crate::script::{
    spec_static_count_arg, stack_after_take, static_count_arg, take_extcall_args, taken_args,
    Argument, Instruction, InstructionView, Operand,
};
use crate::text::string_from_chars;

verus! {

/// The name under which reports list an implementation status.
pub open spec fn status_text(status: ImplStatus) -> Seq<char> {
    match status {
        ImplStatus::Verified => "Verified"@,
        ImplStatus::Partial => "Partial"@,
        ImplStatus::Blocked => "Blocked"@,
        ImplStatus::StackDisciplineOnly => "StackDisciplineOnly"@,
        ImplStatus::Stub => "Stub"@,
        ImplStatus::Unknown => "Unknown"@,
        ImplStatus::WrongOrSuspicious => "WrongOrSuspicious"@,
    }
}

pub fn status_name(status: ImplStatus) -> (s: &'static str)
    ensures
        s@ == status_text(status),
{
    match status {
        ImplStatus::Verified => "Verified",
        ImplStatus::Partial => "Partial",
        ImplStatus::Blocked => "Blocked",
        ImplStatus::StackDisciplineOnly => "StackDisciplineOnly",
        ImplStatus::Stub => "Stub",
        ImplStatus::Unknown => "Unknown",
        ImplStatus::WrongOrSuspicious => "WrongOrSuspicious",
    }
}

/// The name under which reports list a return kind.
pub open spec fn return_kind_text(kind: ReturnKind) -> Seq<char> {
    match kind {
        ReturnKind::Void => "Void"@,
        ReturnKind::Integer => "Integer"@,
        ReturnKind::Bool => "Bool"@,
        ReturnKind::Handle => "Handle"@,
        ReturnKind::StringId => "StringId"@,
        ReturnKind::Status => "Status"@,
        ReturnKind::PointId => "PointId"@,
        ReturnKind::UnsupportedUnknown => "UnsupportedUnknown"@,
    }
}

pub fn return_kind_name(kind: ReturnKind) -> (s: &'static str)
    ensures
        s@ == return_kind_text(kind),
{
    match kind {
        ReturnKind::Void => "Void",
        ReturnKind::Integer => "Integer",
        ReturnKind::Bool => "Bool",
        ReturnKind::Handle => "Handle",
        ReturnKind::StringId => "StringId",
        ReturnKind::Status => "Status",
        ReturnKind::PointId => "PointId",
        ReturnKind::UnsupportedUnknown => "UnsupportedUnknown",
    }
}

/// The raw texts of a sequence of operands.
pub open spec fn raw_texts(s: Seq<Operand>) -> Seq<Seq<char>> {
    s.map_values(|op: Operand| raw_text(op))
}

/// `0x` and the eight upper-case hexadecimal digits of an operand's raw word.
pub open spec fn raw_text(op: Operand) -> Seq<char> {
    "0x"@ + hex_padded(op.raw as nat, 8)
}

pub fn format_operand_raw(op: &Operand) -> (s: String)
    ensures
        s@ == raw_text(*op),
{
    let mut out: Vec<char> = Vec::new();
    push_str(&mut out, "0x");
    push_hex(&mut out, op.raw as u64, 8);
    string_from_chars(out.as_slice())
}

/// The fallback name of an extcall: `ext_`, the category and the index as
/// four hexadecimal digits each, joined by `_`.
pub open spec fn ext_name_text(category: u16, index: u16) -> Seq<char> {
    "ext_"@ + hex_padded(category as nat, 4) + "_"@ + hex_padded(index as nat, 4)
}

pub fn ext_name(category: u16, index: u16) -> (s: String)
    ensures
        s@ == ext_name_text(category, index),
{
    let mut out: Vec<char> = Vec::new();
    push_str(&mut out, "ext_");
    push_hex(&mut out, category as u64, 4);
    push_str(&mut out, "_");
    push_hex(&mut out, index as u64, 4);
    string_from_chars(out.as_slice())
}

/// One extcall site met during the walk.
#[derive(Clone, Debug)]
pub struct ExtcallEvent {
    pub ordinal: usize,
    pub pc: u32,
    pub category: u16,
    pub index: u16,
    pub name: String,
    pub arg_count: usize,
    pub expected_arg_count: Option<usize>,
    pub return_kind: String,
    pub status: String,
    pub stack_mismatch: bool,
    pub static_arg_unresolved: bool,
    pub args: Vec<String>,
}

pub struct ExtcallEventView {
    pub ordinal: usize,
    pub pc: u32,
    pub category: u16,
    pub index: u16,
    pub name: Seq<char>,
    pub arg_count: usize,
    pub expected_arg_count: Option<usize>,
    pub return_kind: Seq<char>,
    pub status: Seq<char>,
    pub stack_mismatch: bool,
    pub static_arg_unresolved: bool,
    pub args: Seq<Seq<char>>,
}

/// The texts of a sequence of strings.
pub open spec fn texts(v: Seq<String>) -> Seq<Seq<char>> {
    v.map_values(|s: String| s@)
}

impl View for ExtcallEvent {
    type V = ExtcallEventView;

    open spec fn view(&self) -> ExtcallEventView {
        ExtcallEventView {
            ordinal: self.ordinal,
            pc: self.pc,
            category: self.category,
            index: self.index,
            name: self.name@,
            arg_count: self.arg_count,
            expected_arg_count: self.expected_arg_count,
            return_kind: self.return_kind@,
            status: self.status@,
            stack_mismatch: self.stack_mismatch,
            static_arg_unresolved: self.static_arg_unresolved,
            args: texts(self.args@),
        }
    }
}

/// The views of a sequence of events.
pub open spec fn event_views(v: Seq<ExtcallEvent>) -> Seq<ExtcallEventView> {
    v.map_values(|e: ExtcallEvent| e@)
}

/// `s` back to front.
pub open spec fn back_to_front<A>(s: Seq<A>) -> Seq<A> {
    Seq::new(s.len(), |i: int| s[s.len() - 1 - i])
}

/// How many arguments an extcall pops: its signature's count, else the
/// count observed at call sites, else `fallback` (the size of the argument
/// stack).
pub open spec fn extcall_count(stack: Seq<Operand>, fallback: nat, category: u16, index: u16) -> nat {
    match spec_lookup_sig(category, index) {
        Some(s) => s.pop_count as nat,
        None => match observed_arity(category, index) {
            Some(n) => n as nat,
            None => fallback,
        },
    }
}

/// The event recorded for an extcall with selector `(category, index)` at
/// `pc`, as the `ordinal`-th event, with `stack` before the call and
/// `fallback` operands on the argument stack.
pub open spec fn extcall_event(
    stack: Seq<Operand>,
    fallback: nat,
    pc: u32,
    category: u16,
    index: u16,
    name: Option<&'static str>,
    ordinal: nat,
) -> ExtcallEventView {
    let sig = spec_lookup_sig(category, index);
    let pop_args = back_to_front(taken_args(stack, extcall_count(stack, fallback, category, index)));
    let expected: Option<usize> = match sig {
        Some(s) => Some(s.pop_count),
        None => None,
    };
    ExtcallEventView {
        ordinal: ordinal as usize,
        pc,
        category,
        index,
        name: match sig {
            Some(s) => s.name@,
            None => match name {
                Some(n) => n@,
                None => ext_name_text(category, index),
            },
        },
        arg_count: pop_args.len() as usize,
        expected_arg_count: expected,
        return_kind: match sig {
            Some(s) => return_kind_text(s.return_kind),
            None => "UnsupportedUnknown"@,
        },
        status: match sig {
            Some(s) => status_text(s.decompiler_status),
            None => "Unknown"@,
        },
        stack_mismatch: false,
        static_arg_unresolved: match expected {
            Some(n) => n != pop_args.len(),
            None => false,
        },
        args: raw_texts(pop_args),
    }
}

/// The operand stack after one instruction: a push (31) adds its operand,
/// a pack (32) moves its count of operands away (or empties the stack when
/// the count is unknown or too large), a pop (30) drops the top, an extcall
/// (23) takes its arguments; everything else leaves the stack alone.
pub open spec fn stack_step(stack: Seq<Operand>, arg_len: nat, instr: InstructionView) -> Seq<Operand> {
    match instr {
        InstructionView::Primary { opcode, args, .. } => if opcode == 31 {
            if args.len() > 0 {
                match args[0] {
                    Argument::Operand(op) => stack.push(op),
                    _ => stack,
                }
            } else {
                stack
            }
        } else if opcode == 32 {
            match spec_static_count_arg(args) {
                Some(count) => if count <= stack.len() {
                    stack.subrange(0, stack.len() - count)
                } else {
                    Seq::empty()
                },
                None => Seq::empty(),
            }
        } else if opcode == 23 {
            if args.len() > 0 {
                match args[0] {
                    Argument::ExtCall { category, index, .. } => stack_after_take(
                        stack,
                        extcall_count(stack, arg_len, category, index),
                    ),
                    _ => stack,
                }
            } else {
                stack
            }
        } else if opcode == 30 {
            if stack.len() > 0 {
                stack.drop_last()
            } else {
                stack
            }
        } else {
            stack
        },
        InstructionView::DataWord { .. } => stack,
    }
}

/// The argument stack after one instruction: a pack (32) moves its count
/// of operands from the operand stack onto it (or empties both stacks when
/// the count is unknown or too large), a drop (33) removes its count (or
/// empties it likewise); everything else leaves it alone.
pub open spec fn arg_step(stack: Seq<Operand>, args_stack: Seq<Operand>, instr: InstructionView) -> Seq<Operand> {
    match instr {
        InstructionView::Primary { opcode, args, .. } => if opcode == 32 {
            match spec_static_count_arg(args) {
                Some(count) => if count <= stack.len() {
                    args_stack + stack.subrange(stack.len() - count, stack.len() as int)
                } else {
                    Seq::empty()
                },
                None => Seq::empty(),
            }
        } else if opcode == 33 {
            match spec_static_count_arg(args) {
                Some(count) => if count <= args_stack.len() {
                    args_stack.subrange(0, args_stack.len() - count)
                } else {
                    Seq::empty()
                },
                None => Seq::empty(),
            }
        } else {
            args_stack
        },
        InstructionView::DataWord { .. } => args_stack,
    }
}

/// The event an instruction records, if it is an extcall.
pub open spec fn event_step(stack: Seq<Operand>, arg_len: nat, instr: InstructionView, ordinal: nat) -> Option<
    ExtcallEventView,
> {
    match instr {
        InstructionView::Primary { opcode, args, pc, .. } => if opcode == 23 && args.len() > 0 {
            match args[0] {
                Argument::ExtCall { category, index, name, .. } => Some(
                    extcall_event(stack, arg_len, pc, category, index, name, ordinal),
                ),
                _ => None,
            }
        } else {
            None
        },
        InstructionView::DataWord { .. } => None,
    }
}

/// The operand stack, the argument stack and the recorded events after
/// walking `instrs`.
pub open spec fn walk(instrs: Seq<InstructionView>) -> ((Seq<Operand>, Seq<Operand>), Seq<ExtcallEventView>)
    decreases instrs.len(),
{
    if instrs.len() == 0 {
        ((Seq::empty(), Seq::empty()), Seq::empty())
    } else {
        let (stacks, events) = walk(instrs.drop_last());
        let (stack, args_stack) = stacks;
        let instr = instrs.last();
        (
            (stack_step(stack, args_stack.len(), instr), arg_step(stack, args_stack, instr)),
            match event_step(stack, args_stack.len(), instr, events.len()) {
                Some(e) => events.push(e),
                None => events,
            },
        )
    }
}

/// The instructions as views.
pub open spec fn instr_views(v: Seq<Instruction>) -> Seq<InstructionView> {
    v.map_values(|i: Instruction| i@)
}

/// The `(category, index)` keys of `events`, each once, in the order they
/// first occur.
pub open spec fn distinct_keys(events: Seq<ExtcallEventView>) -> Seq<(u16, u16)>
    decreases events.len(),
{
    if events.len() == 0 {
        Seq::empty()
    } else {
        let d = distinct_keys(events.drop_last());
        let k = (events.last().category, events.last().index);
        if d.contains(k) {
            d
        } else {
            d.push(k)
        }
    }
}

/// The decompiler status of a key's signature, `None` without one.
#[verifier::opaque]
pub open spec fn key_status(k: (u16, u16)) -> Option<ImplStatus> {
    match spec_lookup_sig(k.0, k.1) {
        Some(s) => Some(s.decompiler_status),
        None => None,
    }
}

/// Whether a key counts under `status`; a key without a signature counts
/// as `Unknown`.
pub open spec fn counts_as(k: (u16, u16), status: ImplStatus) -> bool {
    match key_status(k) {
        Some(s) => s == status,
        None => status == ImplStatus::Unknown,
    }
}

/// How many of `keys` count under `status`.
pub open spec fn count_status(keys: Seq<(u16, u16)>, status: ImplStatus) -> nat
    decreases keys.len(),
{
    if keys.len() == 0 {
        0
    } else {
        count_status(keys.drop_last(), status) + if counts_as(keys.last(), status) {
            1nat
        } else {
            0nat
        }
    }
}

/// How many of `keys` have a signature (see `key_status`).
pub open spec fn count_known(keys: Seq<(u16, u16)>) -> nat
    decreases keys.len(),
{
    if keys.len() == 0 {
        0
    } else {
        count_known(keys.drop_last()) + if key_status(keys.last()) is Some {
            1nat
        } else {
            0nat
        }
    }
}

/// How many events have unresolved static arguments.
pub open spec fn count_unresolved(events: Seq<ExtcallEventView>) -> nat
    decreases events.len(),
{
    if events.len() == 0 {
        0
    } else {
        count_unresolved(events.drop_last()) + if events.last().static_arg_unresolved {
            1nat
        } else {
            0nat
        }
    }
}

/// Coverage totals and the extcall sequence of a script.
#[derive(Clone, Debug)]
pub struct ExtcallReport {
    pub total_opcode_table: usize,
    pub total_known_table: usize,
    pub unique_reachable: usize,
    pub reversed: usize,
    pub verified: usize,
    pub blocked: usize,
    pub partial: usize,
    pub heuristic: usize,
    pub auto_fallback: usize,
    pub stack_discipline_only: usize,
    pub stub: usize,
    pub unknown: usize,
    pub stack_mismatch: usize,
    pub static_arg_unresolved: usize,
    pub sequence: Vec<ExtcallEvent>,
}

proof fn lemma_count_unresolved_bound(events: Seq<ExtcallEventView>)
    ensures
        count_unresolved(events) <= events.len(),
    decreases events.len(),
{
    if events.len() > 0 {
        lemma_count_unresolved_bound(events.drop_last());
    }
}

/// The decompiler status of the signature of `(category, index)`, if any.
fn key_status_exec(category: u16, index: u16) -> (r: Option<ImplStatus>)
    ensures
        r == key_status((category, index)),
        r is Some <==> spec_lookup_sig(category, index) is Some,
{
    reveal(key_status);
    match lookup_sig(category, index) {
        Some(sig) => Some(sig.decompiler_status),
        None => None,
    }
}

/// Records one extcall: pops its arguments off `stack` and describes it.
fn record_extcall(
    stack: &mut Vec<Operand>,
    fallback: usize,
    pc: u32,
    category: u16,
    index: u16,
    name: Option<&'static str>,
    ordinal: usize,
) -> (e: ExtcallEvent)
    ensures
        e@ == extcall_event(old(stack)@, fallback as nat, pc, category, index, name, ordinal as nat),
        final(stack)@ == stack_after_take(
            old(stack)@,
            extcall_count(old(stack)@, fallback as nat, category, index),
        ),
{
    let sig = lookup_sig(category, index);
    let count: usize = match &sig {
        Some(s) => s.pop_count,
        None => match observed_pop_count(category, index) {
            Some(n) => n,
            None => fallback,
        },
    };
    let selected = take_extcall_args(stack, count);
    let mut pop_args: Vec<Operand> = Vec::new();
    let mut k: usize = selected.len();
    while k > 0
        invariant
            k <= selected@.len(),
            pop_args@ == back_to_front(selected@).take(selected@.len() - k),
        decreases k,
    {
        k -= 1;
        pop_args.push(selected[k]);
        assert(pop_args@ =~= back_to_front(selected@).take(selected@.len() - k));
    }
    assert(pop_args@ =~= back_to_front(selected@));
    let event_name: String = match &sig {
        Some(s) => s.name.to_string(),
        None => match name {
            Some(n) => n.to_string(),
            None => ext_name(category, index),
        },
    };
    let expected: Option<usize> = match &sig {
        Some(s) => Some(s.pop_count),
        None => None,
    };
    let status: String = match &sig {
        Some(s) => status_name(s.decompiler_status).to_string(),
        None => "Unknown".to_string(),
    };
    let return_kind: String = match &sig {
        Some(s) => return_kind_name(s.return_kind).to_string(),
        None => "UnsupportedUnknown".to_string(),
    };
    let unresolved = match expected {
        Some(n) => n != pop_args.len(),
        None => false,
    };
    let mut args: Vec<String> = Vec::new();
    let mut j: usize = 0;
    while j < pop_args.len()
        invariant
            j <= pop_args@.len(),
            texts(args@) == raw_texts(pop_args@.take(j as int)),
        decreases pop_args@.len() - j,
    {
        let ghost pre = args@;
        let t = format_operand_raw(&pop_args[j]);
        args.push(t);
        assert(args@ == pre.push(t));
        assert(texts(pre).len() == j);
        assert forall|a: int| 0 <= a < j + 1 implies (#[trigger] args@[a])@ == raw_texts(pop_args@.take(j as int + 1))[a] by {
            if a < j {
                assert(texts(pre)[a] == raw_texts(pop_args@.take(j as int))[a]);
            }
        }
        assert(texts(args@) =~= raw_texts(pop_args@.take(j as int + 1)));
        j += 1;
    }
    assert(pop_args@.take(j as int) =~= pop_args@);
    ExtcallEvent {
        ordinal,
        pc,
        category,
        index,
        name: event_name,
        arg_count: pop_args.len(),
        expected_arg_count: expected,
        return_kind,
        status,
        stack_mismatch: false,
        static_arg_unresolved: unresolved,
        args,
    }
}


/// Counts of distinct keys by how their signatures stand.
struct StatusTally {
    reversed: usize,
    verified: usize,
    blocked: usize,
    partial: usize,
    stack_discipline_only: usize,
    stub: usize,
    wrong: usize,
    unknown: usize,
}

#[verifier::spinoff_prover]
#[verifier::rlimit(40)]
fn tally_keys(keys: &Vec<(u16, u16)>) -> (t: StatusTally)
    ensures
        t.reversed == count_known(keys@),
        t.verified == count_status(keys@, ImplStatus::Verified),
        t.blocked == count_status(keys@, ImplStatus::Blocked),
        t.partial == count_status(keys@, ImplStatus::Partial),
        t.stack_discipline_only == count_status(keys@, ImplStatus::StackDisciplineOnly),
        t.stub == count_status(keys@, ImplStatus::Stub),
        t.wrong == count_status(keys@, ImplStatus::WrongOrSuspicious),
        t.unknown == count_status(keys@, ImplStatus::Unknown),
        t.verified + t.blocked + t.partial + t.stack_discipline_only + t.stub + t.wrong + t.unknown
            <= keys@.len(),
{
    let ghost dk = keys@;
    let mut reversed: usize = 0;
    let mut verified: usize = 0;
    let mut blocked: usize = 0;
    let mut partial: usize = 0;
    let mut sdo: usize = 0;
    let mut stub: usize = 0;
    let mut wrong: usize = 0;
    let mut unknown: usize = 0;
    let mut k: usize = 0;
    while k < keys.len()
        invariant
            k <= keys@.len(),
            keys@ == dk,
            reversed == count_known(dk.take(k as int)),
            verified == count_status(dk.take(k as int), ImplStatus::Verified),
            blocked == count_status(dk.take(k as int), ImplStatus::Blocked),
            partial == count_status(dk.take(k as int), ImplStatus::Partial),
            sdo == count_status(dk.take(k as int), ImplStatus::StackDisciplineOnly),
            stub == count_status(dk.take(k as int), ImplStatus::Stub),
            wrong == count_status(dk.take(k as int), ImplStatus::WrongOrSuspicious),
            unknown == count_status(dk.take(k as int), ImplStatus::Unknown),
            reversed <= k,
            verified + blocked + partial + sdo + stub + wrong + unknown <= k,
        decreases keys@.len() - k,
    {
        assert(dk.take(k as int + 1).drop_last() =~= dk.take(k as int));
        let key = keys[k];
        match key_status_exec(key.0, key.1) {
            Some(status) => {
                reversed = reversed + 1;
                match status {
                    ImplStatus::Verified => {
                        verified = verified + 1;
                    },
                    ImplStatus::Partial => {
                        partial = partial + 1;
                    },
                    ImplStatus::Blocked => {
                        blocked = blocked + 1;
                    },
                    ImplStatus::StackDisciplineOnly => {
                        sdo = sdo + 1;
                    },
                    ImplStatus::Stub => {
                        stub = stub + 1;
                    },
                    ImplStatus::Unknown => {
                        unknown = unknown + 1;
                    },
                    ImplStatus::WrongOrSuspicious => {
                        wrong = wrong + 1;
                    },
                }
            },
            None => {
                unknown = unknown + 1;
            },
        }
        k += 1;
    }
    assert(dk.take(k as int) =~= dk);
    StatusTally {
        reversed,
        verified,
        blocked,
        partial,
        stack_discipline_only: sdo,
        stub,
        wrong,
        unknown,
    }
}

/// Walks a disassembled script (case of `SCRIPT.SRC` from its code base)
/// and reports its extcalls: every call site in order with the arguments
/// it pops, and the distinct `(category, index)` keys counted by the
/// decompiler status of their signatures. `total_opcode_table` is the size
/// of the extcall opcode table, which the report passes through.
#[verifier::spinoff_prover]
pub fn analyze_extcalls(instructions: &[Instruction], total_opcode_table: usize) -> (r: ExtcallReport)
    ensures
        event_views(r.sequence@) == walk(instr_views(instructions@)).1,
        r.total_opcode_table == total_opcode_table,
        r.total_known_table == SIGNATURE_COUNT,
        r.unique_reachable == distinct_keys(walk(instr_views(instructions@)).1).len(),
        r.reversed == count_known(distinct_keys(walk(instr_views(instructions@)).1)),
        r.verified == count_status(distinct_keys(walk(instr_views(instructions@)).1), ImplStatus::Verified),
        r.blocked == count_status(distinct_keys(walk(instr_views(instructions@)).1), ImplStatus::Blocked),
        r.partial == count_status(distinct_keys(walk(instr_views(instructions@)).1), ImplStatus::Partial),
        r.heuristic == 0,
        r.auto_fallback == 0,
        r.stack_discipline_only == count_status(
            distinct_keys(walk(instr_views(instructions@)).1),
            ImplStatus::StackDisciplineOnly,
        ),
        r.stub == count_status(distinct_keys(walk(instr_views(instructions@)).1), ImplStatus::Stub)
            + count_status(
            distinct_keys(walk(instr_views(instructions@)).1),
            ImplStatus::StackDisciplineOnly,
        ) + count_status(
            distinct_keys(walk(instr_views(instructions@)).1),
            ImplStatus::WrongOrSuspicious,
        ),
        r.unknown == count_status(distinct_keys(walk(instr_views(instructions@)).1), ImplStatus::Unknown),
        r.stack_mismatch == 0,
        r.static_arg_unresolved == count_unresolved(walk(instr_views(instructions@)).1),
{
    let ghost views = instr_views(instructions@);
    let mut stack: Vec<Operand> = Vec::new();
    let mut arg_stack: Vec<Operand> = Vec::new();
    let mut sequence: Vec<ExtcallEvent> = Vec::new();
    let mut i: usize = 0;
    assert(views.take(0) =~= Seq::<InstructionView>::empty());
    while i < instructions.len()
        invariant
            i <= instructions@.len(),
            views == instr_views(instructions@),
            ((stack@, arg_stack@), event_views(sequence@)) == walk(views.take(i as int)),
        decreases instructions@.len() - i,
    {
        let ghost pre_stack = stack@;
        let ghost pre_args = arg_stack@;
        let ghost pre_events = event_views(sequence@);
        let ghost seq_pre = sequence@;
        assert(views.take(i as int + 1).drop_last() =~= views.take(i as int));
        assert(views.take(i as int + 1).last() == instructions@[i as int]@);
        match &instructions[i] {
            Instruction::Primary { opcode, args, pc, .. } => {
                if *opcode == 31 {
                    if args.len() > 0 {
                        match &args[0] {
                            Argument::Operand(op) => {
                                stack.push(*op);
                            },
                            _ => {},
                        }
                    }
                } else if *opcode == 32 {
                    match static_count_arg(args.as_slice()) {
                        Some(count) => {
                            if count <= stack.len() {
                                let keep = stack.len() - count;
                                let mut moved = stack.split_off(keep);
                                arg_stack.append(&mut moved);
                                assert(stack@ =~= pre_stack.subrange(0, pre_stack.len() - count));
                                assert(arg_stack@ =~= pre_args + pre_stack.subrange(pre_stack.len() - count, pre_stack.len() as int));
                            } else {
                                stack.clear();
                                arg_stack.clear();
                            }
                        },
                        None => {
                            stack.clear();
                            arg_stack.clear();
                        },
                    }
                } else if *opcode == 33 {
                    match static_count_arg(args.as_slice()) {
                        Some(count) => {
                            if count <= arg_stack.len() {
                                let keep = arg_stack.len() - count;
                                arg_stack.truncate(keep);
                                assert(arg_stack@ =~= pre_args.subrange(0, pre_args.len() - count));
                            } else {
                                arg_stack.clear();
                            }
                        },
                        None => {
                            arg_stack.clear();
                        },
                    }
                } else if *opcode == 23 {
                    if args.len() > 0 {
                        match &args[0] {
                            Argument::ExtCall { category, index, name, .. } => {
                                let fallback = arg_stack.len();
                                let e = record_extcall(
                                    &mut stack,
                                    fallback,
                                    *pc,
                                    *category,
                                    *index,
                                    *name,
                                    sequence.len(),
                                );
                                sequence.push(e);
                                assert(event_views(sequence@) =~= pre_events.push(e@)) by {
                                    assert(sequence@ == seq_pre.push(e));
                                }
                            },
                            _ => {},
                        }
                    }
                } else if *opcode == 30 {
                    let _ = stack.pop();
                    assert(pre_stack.len() > 0 ==> stack@ =~= pre_stack.drop_last());
                }
            },
            Instruction::DataWord { .. } => {},
        }
        i += 1;
    }
    assert(views.take(i as int) =~= views);
    let ghost events = event_views(sequence@);
    let mut keys: Vec<(u16, u16)> = Vec::new();
    let mut unresolved: usize = 0;
    let mut j: usize = 0;
    proof {
        lemma_count_unresolved_bound(events);
    }
    while j < sequence.len()
        invariant
            j <= sequence@.len(),
            events == event_views(sequence@),
            keys@ == distinct_keys(events.take(j as int)),
            unresolved == count_unresolved(events.take(j as int)),
            unresolved <= j,
        decreases sequence@.len() - j,
    {
        assert(events.take(j as int + 1).drop_last() =~= events.take(j as int));
        assert(events.take(j as int + 1).last() == sequence@[j as int]@);
        let key = (sequence[j].category, sequence[j].index);
        let mut found = false;
        let mut t: usize = 0;
        while t < keys.len()
            invariant
                t <= keys@.len(),
                found == (exists|u: int| 0 <= u < t && keys@[u] == key),
            decreases keys@.len() - t,
        {
            if keys[t].0 == key.0 && keys[t].1 == key.1 {
                found = true;
            }
            t += 1;
        }
        assert(found == keys@.contains(key));
        if !found {
            keys.push(key);
        }
        if sequence[j].static_arg_unresolved {
            unresolved = unresolved + 1;
        }
        j += 1;
    }
    assert(events.take(j as int) =~= events);
    let ghost dk = distinct_keys(events);
    let t = tally_keys(&keys);
    let known_table = all_signatures().len() + auto_signatures().len();
    ExtcallReport {
        total_opcode_table,
        total_known_table: known_table,
        unique_reachable: keys.len(),
        reversed: t.reversed,
        verified: t.verified,
        blocked: t.blocked,
        partial: t.partial,
        heuristic: 0,
        auto_fallback: 0,
        stack_discipline_only: t.stack_discipline_only,
        stub: t.stub + t.stack_discipline_only + t.wrong,
        unknown: t.unknown,
        stack_mismatch: 0,
        static_arg_unresolved: unresolved,
        sequence,
    }
}


proof fn lemma_event_step_ordinal(stack: Seq<Operand>, arg_len: nat, instr: InstructionView, ordinal: nat)
    ensures
        event_step(stack, arg_len, instr, ordinal) matches Some(e) ==> e.ordinal == ordinal as usize,
{
}

/// Every recorded event's ordinal is its position in the sequence.
pub proof fn lemma_event_ordinals(instrs: Seq<InstructionView>)
    requires
        instrs.len() <= usize::MAX,
    ensures
        forall|i: int| 0 <= i < walk(instrs).1.len() ==> #[trigger] walk(instrs).1[i].ordinal == i,
        walk(instrs).1.len() <= instrs.len(),
    decreases instrs.len(),
{
    if instrs.len() > 0 {
        let prev = instrs.drop_last();
        lemma_event_ordinals(prev);
        let stack = walk(prev).0.0;
        let arg_len = walk(prev).0.1.len();
        let events = walk(prev).1;
        let last = instrs.last();
        lemma_event_step_ordinal(stack, arg_len, last, events.len());
        let all = walk(instrs).1;
        assert(all == (match event_step(stack, arg_len, last, events.len()) {
            Some(e) => events.push(e),
            None => events,
        }));
        assert forall|i: int| 0 <= i < all.len() implies #[trigger] all[i].ordinal == i by {
            if i < events.len() {
                assert(all[i] == events[i]);
            }
        }
    }
}
} // verus!
