//! Lua emission for decompiled scripts: single instructions and extcalls
//! as Lua statements, and whole procedures rebuilt from the control-flow
//! blocks of a script.
//!
//! The texts that the script's string tables give for operand words (and
//! the names chosen for procedures and labels) come in resolved, as plain
//! values in `LiteralTexts` and `DecompileContext`.

use vstd::prelude::*;
use crate::audio::{char_lower, to_lower_char, trailing_count};
use crate::extsig::{lookup_sig, spec_lookup_sig, ExtSigView, Param, ParamKind, ReturnKind};
use crate::lua::{decimal, hex_padded, push_decimal, push_hex, push_str};
use crate::lua_emit::{
    arith_sym, arith_text, cmp_sym, cmp_text, dynamic_jump_text, indent_text, operand_text,
    push_operand, sim_step, SimStep, StackSim,
};
use crate::script::{Argument, Instruction, InstructionView, Operand, OperandKind};
use crate::text::{chars_of, string_from_chars};

verus! {

// ---------------------------------------------------------------- resolved texts

/// The texts the script's string tables give for operand words, resolved
/// ahead: `ids` for literal-slot operands, `resources` for FILE.DAT
/// resource strings and `texts` for TEXT.DAT strings. The last two are used
/// only when a text encoding is set (`resolve_dat`).
#[derive(Clone, Debug)]
pub struct LiteralTexts {
    pub ids: Vec<(u32, String)>,
    pub resources: Vec<(u32, String)>,
    pub texts: Vec<(u32, String)>,
    pub resolve_dat: bool,
}

/// The text of the first entry for `raw`; empty when there is none.
pub open spec fn text_for(entries: Seq<(u32, String)>, raw: u32) -> Seq<char>
    decreases entries.len(),
{
    if entries.len() == 0 {
        Seq::empty()
    } else if entries[0].0 == raw {
        entries[0].1@
    } else {
        text_for(entries.drop_first(), raw)
    }
}

/// Looks up the text for `raw` (see `text_for`).
pub fn lookup_text(entries: &Vec<(u32, String)>, raw: u32) -> (s: &str)
    ensures
        s@ == text_for(entries@, raw),
{
    let ghost e = entries@;
    assert(e.subrange(0, e.len() as int) =~= e);
    let mut i: usize = 0;
    while i < entries.len()
        invariant
            e == entries@,
            i <= e.len(),
            text_for(e, raw) == text_for(e.subrange(i as int, e.len() as int), raw),
        decreases e.len() - i,
    {
        let ghost sub = e.subrange(i as int, e.len() as int);
        assert(sub[0] == e[i as int]);
        if entries[i].0 == raw {
            return entries[i].1.as_str();
        }
        assert(sub.drop_first() =~= e.subrange(i + 1, e.len() as int));
        i += 1;
    }
    assert(e.subrange(i as int, e.len() as int).len() == 0);
    proof {
        reveal_strlit("");
    }
    assert(""@ =~= Seq::<char>::empty());
    ""
}

/// An operand as a Lua expression, a literal slot given its resolved text.
pub open spec fn o2l_text(op: Operand, lits: LiteralTexts) -> Seq<char> {
    operand_text(op, text_for(lits.ids@, op.raw))
}

fn push_o2l(out: &mut Vec<char>, op: &Operand, lits: &LiteralTexts)
    ensures
        final(out)@ == old(out)@ + o2l_text(*op, *lits),
{
    let literal = lookup_text(&lits.ids, op.raw);
    push_operand(out, op, literal);
}

/// An operand as a Lua expression (see `o2l_text`).
pub fn operand_lua(op: &Operand, lits: &LiteralTexts) -> (s: String)
    ensures
        s@ == o2l_text(*op, *lits),
{
    let mut out: Vec<char> = Vec::new();
    push_o2l(&mut out, op, lits);
    assert(out@ =~= o2l_text(*op, *lits));
    string_from_chars(out.as_slice())
}

/// A signed word in decimal.
pub open spec fn signed_text(v: i32) -> Seq<char> {
    if v < 0 {
        "-"@ + decimal((-(v as int)) as nat)
    } else {
        decimal(v as nat)
    }
}

fn push_signed(out: &mut Vec<char>, v: i32)
    ensures
        final(out)@ == old(out)@ + signed_text(v),
{
    if v < 0 {
        push_str(out, "-");
        let m: i64 = -(v as i64);
        push_decimal(out, m as u64);
    } else {
        push_decimal(out, v as u64);
    }
}

// ---------------------------------------------------------------- parameters

/// A text without its trailing double quotes.
pub open spec fn without_trailing_quotes(s: Seq<char>) -> Seq<char> {
    s.subrange(0, s.len() - trailing_count(s, '"'))
}

/// Whether a (quoted) text names an `.ini` file, ignoring ASCII case.
pub open spec fn names_ini_file(s: Seq<char>) -> bool {
    let t = without_trailing_quotes(s);
    &&& t.len() >= 4
    &&& char_lower(t[t.len() - 4]) == '.'
    &&& char_lower(t[t.len() - 3]) == 'i'
    &&& char_lower(t[t.len() - 2]) == 'n'
    &&& char_lower(t[t.len() - 1]) == 'i'
}

/// Parameter kinds whose operand names a FILE.DAT resource string.
pub open spec fn is_resource_kind(k: ParamKind) -> bool {
    k == ParamKind::ResourceStringFromFileDat || k == ParamKind::ResourceName || k
        == ParamKind::FileDatString
}

/// Parameter kinds whose operand names a TEXT.DAT string.
pub open spec fn is_text_kind(k: ParamKind) -> bool {
    k == ParamKind::TextStringFromTextDat || k == ParamKind::TextString || k == ParamKind::TextId
        || k == ParamKind::DynamicString || k == ParamKind::IniSection || k == ParamKind::IniKey
}

/// Whether an operand holds a value fixed in the instruction stream.
pub open spec fn is_fixed(op: Operand) -> bool {
    op.kind == OperandKind::Immediate || op.kind == OperandKind::LiteralSlot
}

/// One extcall argument rendered for its parameter kind: a fixed operand of
/// a resource or text kind is the resolved string (when strings are
/// resolved); an `.ini` file name that is not one is annotated; a literal
/// slot of any other kind is its signed value; anything else is the
/// operand's Lua expression.
pub open spec fn param_text(op: Operand, kind: ParamKind, lits: LiteralTexts) -> Seq<char> {
    if is_resource_kind(kind) {
        if is_fixed(op) && lits.resolve_dat {
            text_for(lits.resources@, op.raw)
        } else {
            o2l_text(op, lits)
        }
    } else if is_text_kind(kind) {
        if is_fixed(op) && lits.resolve_dat {
            text_for(lits.texts@, op.raw)
        } else {
            o2l_text(op, lits)
        }
    } else if kind == ParamKind::IniFilename {
        if is_fixed(op) && lits.resolve_dat {
            let s = text_for(lits.texts@, op.raw);
            if s.len() > 0 && s[0] == '"' && !names_ini_file(s) {
                s + " --[[runtime uses SYSTEM.INI: not *.ini]]"@
            } else {
                s
            }
        } else {
            o2l_text(op, lits)
        }
    } else if op.kind == OperandKind::LiteralSlot {
        signed_text(op.raw as i32)
    } else {
        o2l_text(op, lits)
    }
}

fn trailing_quotes(s: &Vec<char>) -> (n: usize)
    ensures
        n == trailing_count(s@, '"'),
        n <= s@.len(),
{
    let ghost v = s@;
    assert(v.subrange(0, v.len() as int) =~= v);
    let mut k: usize = 0;
    while k < s.len() && s[s.len() - 1 - k] == '"'
        invariant
            v == s@,
            k <= v.len(),
            trailing_count(v, '"') == k + trailing_count(v.subrange(0, v.len() - k), '"'),
        decreases v.len() - k,
    {
        let ghost t = v.subrange(0, v.len() - k);
        assert(t.last() == v[v.len() - 1 - k]);
        assert(t.drop_last() =~= v.subrange(0, v.len() - k - 1));
        k += 1;
    }
    proof {
        let t = v.subrange(0, v.len() - k);
        if k < v.len() {
            assert(t.last() == v[v.len() - 1 - k]);
        }
    }
    k
}

fn ini_name(s: &Vec<char>) -> (b: bool)
    ensures
        b == names_ini_file(s@),
{
    let n = s.len() - trailing_quotes(s);
    assert(without_trailing_quotes(s@).len() == n);
    if n < 4 {
        return false;
    }
    to_lower_char(s[n - 4]) == '.' && to_lower_char(s[n - 3]) == 'i' && to_lower_char(s[n - 2]) == 'n' && to_lower_char(s[n - 1])
        == 'i'
}

fn push_param(out: &mut Vec<char>, op: &Operand, kind: ParamKind, lits: &LiteralTexts)
    ensures
        final(out)@ == old(out)@ + param_text(*op, kind, *lits),
{
    let fixed = op.kind == OperandKind::Immediate || op.kind == OperandKind::LiteralSlot;
    let resource = kind == ParamKind::ResourceStringFromFileDat || kind == ParamKind::ResourceName
        || kind == ParamKind::FileDatString;
    let text = kind == ParamKind::TextStringFromTextDat || kind == ParamKind::TextString || kind
        == ParamKind::TextId || kind == ParamKind::DynamicString || kind == ParamKind::IniSection
        || kind == ParamKind::IniKey;
    if resource {
        if fixed && lits.resolve_dat {
            push_str(out, lookup_text(&lits.resources, op.raw));
        } else {
            push_o2l(out, op, lits);
        }
    } else if text {
        if fixed && lits.resolve_dat {
            push_str(out, lookup_text(&lits.texts, op.raw));
        } else {
            push_o2l(out, op, lits);
        }
    } else if kind == ParamKind::IniFilename {
        if fixed && lits.resolve_dat {
            let s = lookup_text(&lits.texts, op.raw);
            let cs = chars_of(s);
            push_str(out, s);
            if cs.len() > 0 && cs[0] == '"' && !ini_name(&cs) {
                push_str(out, " --[[runtime uses SYSTEM.INI: not *.ini]]");
            }
        } else {
            push_o2l(out, op, lits);
        }
    } else if op.kind == OperandKind::LiteralSlot {
        push_signed(out, op.raw as i32);
    } else {
        push_o2l(out, op, lits);
    }
}

/// One extcall argument rendered for its parameter kind (see `param_text`).
pub fn render_param(op: &Operand, kind: ParamKind, lits: &LiteralTexts) -> (s: String)
    ensures
        s@ == param_text(*op, kind, *lits),
{
    let mut out: Vec<char> = Vec::new();
    push_param(&mut out, op, kind, lits);
    assert(out@ =~= param_text(*op, kind, *lits));
    string_from_chars(out.as_slice())
}


// ---------------------------------------------------------------- extcalls

/// The rendered arguments of a known extcall, joined by `, `: each of the
/// first `n` parameters is the operand at its pop position, rendered for its
/// kind, or the parameter's name when the call site pushed too few.
pub open spec fn param_list(params: Seq<Param>, pop: Seq<Operand>, lits: LiteralTexts, n: int) -> Seq<
    char,
>
    decreases n,
{
    if n <= 0 {
        Seq::empty()
    } else {
        let p = params[n - 1];
        let item = if p.pop_idx < pop.len() {
            param_text(pop[p.pop_idx as int], p.kind, lits)
        } else {
            p.name@
        };
        if n == 1 {
            item
        } else {
            param_list(params, pop, lits, n - 1) + ", "@ + item
        }
    }
}

/// The first `n` operands as Lua expressions, joined by `, `.
pub open spec fn operand_list(ops: Seq<Operand>, lits: LiteralTexts, n: int) -> Seq<char>
    decreases n,
{
    if n <= 0 {
        Seq::empty()
    } else if n == 1 {
        o2l_text(ops[0], lits)
    } else {
        operand_list(ops, lits, n - 1) + ", "@ + o2l_text(ops[n - 1], lits)
    }
}

/// The variable an extcall stores its result in: its destination slot,
/// unless that is slot 0 with a zero word.
pub open spec fn destination(args: Seq<Argument>) -> Option<Seq<char>> {
    if args.len() > 1 {
        match args[1] {
            Argument::DestinationSlot { slot, raw } => if raw == 0 && slot == 0 {
                None
            } else {
                Some("v"@ + decimal(slot as nat))
            },
            _ => None,
        }
    } else {
        None
    }
}

/// The signature table's record for an extcall (see `spec_lookup_sig`).
#[verifier::opaque]
pub open spec fn table_signature(category: u16, index: u16) -> Option<ExtSigView> {
    spec_lookup_sig(category, index)
}

/// An extcall as a Lua statement. `pending` holds the operands the call
/// takes, in push order; the call's arguments are them in pop order. A call
/// the signature table knows is written with its name and its parameters
/// rendered by kind, storing the result only when the call returns one; any
/// other is written with its opcode-table name (or `ext_CCCC_IIII`) and all
/// its operands.
pub open spec fn extcall_text(args: Seq<Argument>, lits: LiteralTexts, pending: Seq<Operand>) -> Seq<
    char,
> {
    if args.len() > 0 && args[0] is ExtCall {
        let category = args[0]->category;
        let index = args[0]->index;
        let pop = pending.reverse();
        let dst = destination(args);
        match table_signature(category, index) {
            Some(sig) => {
                let call = sig.name@ + "("@ + param_list(sig.params, pop, lits, sig.params.len() as int)
                    + ")"@;
                if dst is Some && sig.return_kind != ReturnKind::Void {
                    dst->0 + " = "@ + call
                } else {
                    call
                }
            },
            None => {
                let func = match args[0]->name {
                    Some(n) => n@,
                    None => "ext_"@ + hex_padded(category as nat, 4) + "_"@ + hex_padded(
                        index as nat,
                        4,
                    ),
                };
                let call = func + "("@ + operand_list(pop, lits, pop.len() as int) + ")"@;
                match dst {
                    Some(d) => d + " = "@ + call,
                    None => call,
                }
            },
        }
    } else {
        "-- extcall (malformed)"@
    }
}

fn pop_order_of(pending: &[Operand]) -> (r: Vec<Operand>)
    ensures
        r@ == pending@.reverse(),
{
    let ghost pop = pending@.reverse();
    let mut pop_order: Vec<Operand> = Vec::new();
    let mut k: usize = pending.len();
    while k > 0
        invariant
            k <= pending@.len(),
            pop == pending@.reverse(),
            pop_order@ == pop.subrange(0, pending@.len() - k),
        decreases k,
    {
        k -= 1;
        pop_order.push(pending[k]);
        assert(pop_order@ =~= pop.subrange(0, pending@.len() - k));
    }
    assert(pop_order@ =~= pop);
    pop_order
}

fn destination_chars(args: &Vec<Argument>) -> (r: Option<Vec<char>>)
    ensures
        r is Some == destination(args@) is Some,
        r matches Some(d) ==> destination(args@) == Some(d@),
{
    if args.len() > 1 {
        if let Argument::DestinationSlot { slot, raw } = &args[1] {
            if !(*raw == 0 && *slot == 0) {
                let mut dst: Vec<char> = Vec::new();
                push_str(&mut dst, "v");
                push_decimal(&mut dst, *slot as u64);
                assert(dst@ =~= "v"@ + decimal(*slot as nat));
                return Some(dst);
            }
        }
    }
    None
}

fn known_call(name: &str, params: &Vec<Param>, pop_order: &Vec<Operand>, lits: &LiteralTexts) -> (r: Vec<char>)
    ensures
        r@ == name@ + "("@ + param_list(params@, pop_order@, *lits, params@.len() as int) + ")"@,
{
    let mut call: Vec<char> = Vec::new();
    push_str(&mut call, name);
    push_str(&mut call, "(");
    let ghost head = call@;
    let mut j: usize = 0;
    while j < params.len()
        invariant
            j <= params@.len(),
            call@ == head + param_list(params@, pop_order@, *lits, j as int),
            head == name@ + "("@,
        decreases params@.len() - j,
    {
        if j > 0 {
            push_str(&mut call, ", ");
        }
        let p = &params[j];
        if p.pop_idx < pop_order.len() {
            push_param(&mut call, &pop_order[p.pop_idx], p.kind, lits);
        } else {
            push_str(&mut call, p.name);
        }
        j += 1;
        assert(call@ =~= head + param_list(params@, pop_order@, *lits, j as int));
    }
    push_str(&mut call, ")");
    call
}

fn unknown_call(category: u16, index: u16, name: Option<&'static str>, pop_order: &Vec<Operand>, lits: &LiteralTexts) -> (r: Vec<char>)
    ensures
        r@ == (match name {
            Some(n) => n@,
            None => "ext_"@ + hex_padded(category as nat, 4) + "_"@ + hex_padded(index as nat, 4),
        }) + "("@ + operand_list(pop_order@, *lits, pop_order@.len() as int) + ")"@,
{
    let mut call: Vec<char> = Vec::new();
    match name {
        Some(n) => push_str(&mut call, n),
        None => {
            push_str(&mut call, "ext_");
            push_hex(&mut call, category as u64, 4);
            push_str(&mut call, "_");
            push_hex(&mut call, index as u64, 4);
        },
    }
    push_str(&mut call, "(");
    let ghost head = call@;
    let mut j: usize = 0;
    while j < pop_order.len()
        invariant
            j <= pop_order@.len(),
            call@ == head + operand_list(pop_order@, *lits, j as int),
        decreases pop_order@.len() - j,
    {
        if j > 0 {
            push_str(&mut call, ", ");
        }
        push_o2l(&mut call, &pop_order[j], lits);
        j += 1;
        assert(call@ =~= head + operand_list(pop_order@, *lits, j as int));
    }
    push_str(&mut call, ")");
    call
}

#[verifier::spinoff_prover]
#[verifier::rlimit(100)]
fn push_extcall(out: &mut Vec<char>, args: &Vec<Argument>, lits: &LiteralTexts, pending: &[Operand])
    ensures
        final(out)@ == old(out)@ + extcall_text(args@, *lits, pending@),
{
    let ghost start = out@;
    if args.len() == 0 {
        push_str(out, "-- extcall (malformed)");
        return;
    }
    let (category, index, name) = match &args[0] {
        Argument::ExtCall { category, index, name, .. } => (*category, *index, *name),
        _ => {
            push_str(out, "-- extcall (malformed)");
            return;
        },
    };
    let pop_order = pop_order_of(pending);
    let dst = destination_chars(args);
    let found = lookup_sig(category, index);
    assert(table_signature(category, index) == match found {
        Some(sig) => Some(sig@),
        None => None,
    }) by {
        reveal(table_signature);
    }
    match found {
        Some(sig) => {
            let call = known_call(sig.name, &sig.params, &pop_order, lits);
            match dst {
                Some(d) => {
                    if sig.return_kind != ReturnKind::Void {
                        push_chars_vec(out, &d);
                        push_str(out, " = ");
                    }
                },
                None => {},
            }
            push_chars_vec(out, &call);
        },
        None => {
            let call = unknown_call(category, index, name, &pop_order, lits);
            match dst {
                Some(d) => {
                    push_chars_vec(out, &d);
                    push_str(out, " = ");
                },
                None => {},
            }
            push_chars_vec(out, &call);
        },
    }
    assert(out@ =~= start + extcall_text(args@, *lits, pending@));
}

fn push_chars_vec(out: &mut Vec<char>, s: &Vec<char>)
    ensures
        final(out)@ == old(out)@ + s@,
{
    crate::lua::push_chars(out, s);
}

/// An extcall as a Lua statement (see `extcall_text`).
pub fn emit_extcall(args: &Vec<Argument>, lits: &LiteralTexts, pending_args: &[Operand]) -> (s: String)
    ensures
        s@ == extcall_text(args@, *lits, pending_args@),
{
    let mut out: Vec<char> = Vec::new();
    push_extcall(&mut out, args, lits, pending_args);
    assert(out@ =~= extcall_text(args@, *lits, pending_args@));
    string_from_chars(out.as_slice())
}


// ---------------------------------------------------------------- instructions

/// Argument `i` when it is a plain operand.
pub open spec fn operand_at(args: Seq<Argument>, i: int) -> Option<Operand> {
    if 0 <= i < args.len() {
        match args[i] {
            Argument::Operand(op) => Some(op),
            _ => None,
        }
    } else {
        None
    }
}

/// The code address a jump argument names, when the point table resolved it.
pub open spec fn static_target(args: Seq<Argument>) -> Option<u32> {
    if args.len() > 0 {
        match args[0] {
            Argument::Point { target_pc: Some(t), .. } => Some(t),
            _ => None,
        }
    } else {
        None
    }
}

/// The resolved text for the operand a jump argument holds.
pub open spec fn jump_literal(args: Seq<Argument>, lits: LiteralTexts) -> Seq<char> {
    if args.len() > 0 {
        match args[0] {
            Argument::PointOperand { operand } => text_for(lits.ids@, operand.raw),
            Argument::Operand(operand) => text_for(lits.ids@, operand.raw),
            _ => Seq::empty(),
        }
    } else {
        Seq::empty()
    }
}

/// ` @ 0x` and the address, closing a malformed-instruction comment.
pub open spec fn at_pc(pc: u32) -> Seq<char> {
    " @ 0x"@ + hex_padded(pc as nat, 8)
}

/// The fixed statements of the message and save/load opcodes (35 to 49).
pub open spec fn fixed_call_text(opcode: u16) -> Option<Seq<char>> {
    if opcode == 35 {
        Some("create_message()"@)
    } else if opcode == 36 {
        Some("get_message()"@)
    } else if opcode == 37 {
        Some("get_message_param()"@)
    } else if opcode == 40 {
        Some("save()"@)
    } else if opcode == 41 {
        Some("load()"@)
    } else if opcode == 42 {
        Some("save_set_title()"@)
    } else if opcode == 43 {
        Some("save_data()"@)
    } else if opcode == 44 {
        Some("save_set_thumbnail_size()"@)
    } else if opcode == 45 {
        Some("thumbnail_set()"@)
    } else if opcode == 46 {
        Some("savetitledraw()"@)
    } else if opcode == 47 {
        Some("save_set_font_size()"@)
    } else if opcode == 48 {
        Some("getsaveday()"@)
    } else if opcode == 49 {
        Some("is_save()"@)
    } else {
        None
    }
}

/// The Lua operator of a comparison or logic opcode (see `cmp_text`).
pub open spec fn compare_text(opcode: u16) -> Seq<char> {
    cmp_text(opcode)
}

fn compare_sym(opcode: u16) -> (s: &'static str)
    ensures
        s@ == compare_text(opcode),
{
    cmp_sym(opcode)
}

/// Whether an opcode is arithmetic (`dst op= src`).
pub open spec fn is_arith(opcode: u16) -> bool {
    (2 <= opcode <= 8) || (26 <= opcode <= 28)
}

/// A primary instruction as a Lua statement (empty for the silent ones):
/// moves, arithmetic and comparisons as assignments; logical not and
/// negation of a slot; `return` for end and ret; a comment for pops; the
/// extcall statement (`extcall_text`); a comment for a resolved jump and a
/// `dynamic_jump` call for any other; comments for the structural branch
/// and gosub; the fixed calls of the message and save opcodes; and an
/// `unsupported opcode` comment for the rest. Malformed operands give a
/// comment naming the instruction and its address.
pub open spec fn primary_text(opcode: u16, args: Seq<Argument>, pc: u32, lits: LiteralTexts, pending: Seq<
    Operand,
>) -> Seq<char> {
    let d = operand_at(args, 0);
    let s = operand_at(args, 1);
    if opcode == 1 {
        if d is Some && s is Some {
            o2l_text(d->0, lits) + " = "@ + o2l_text(s->0, lits)
        } else {
            "-- mov (malformed)"@ + at_pc(pc)
        }
    } else if is_arith(opcode) {
        if d is Some && s is Some {
            o2l_text(d->0, lits) + " = "@ + o2l_text(d->0, lits) + " "@ + arith_text(opcode) + " "@
                + o2l_text(s->0, lits)
        } else {
            "-- "@ + arith_text(opcode) + " (malformed)"@ + at_pc(pc)
        }
    } else if 12 <= opcode <= 19 {
        if d is Some && s is Some {
            o2l_text(d->0, lits) + " = ("@ + o2l_text(d->0, lits) + " "@ + compare_text(opcode) + " "@
                + o2l_text(s->0, lits) + ") and 1 or 0"@
        } else {
            "-- cmp (malformed)"@ + at_pc(pc)
        }
    } else if opcode == 20 {
        if args.len() > 0 && args[0] is RawSlot {
            "v"@ + decimal(args[0]->RawSlot_slot as nat) + " = (v"@ + decimal(
                args[0]->RawSlot_slot as nat,
            ) + " == 0) and 1 or 0"@
        } else if d is Some {
            o2l_text(d->0, lits) + " = ("@ + o2l_text(d->0, lits) + " == 0) and 1 or 0"@
        } else {
            "-- lnot_slot (malformed)"@ + at_pc(pc)
        }
    } else if opcode == 29 {
        if args.len() > 0 && args[0] is RawSlot {
            "v"@ + decimal(args[0]->RawSlot_slot as nat) + " = -v"@ + decimal(
                args[0]->RawSlot_slot as nat,
            )
        } else if d is Some {
            o2l_text(d->0, lits) + " = -"@ + o2l_text(d->0, lits)
        } else {
            "-- neg_slot (malformed)"@ + at_pc(pc)
        }
    } else if opcode == 22 || opcode == 31 || opcode == 32 || opcode == 33 {
        Seq::empty()
    } else if opcode == 21 || opcode == 24 {
        "return"@
    } else if opcode == 25 {
        "reset_adv()"@
    } else if opcode == 30 {
        if d is Some {
            "-- pop "@ + o2l_text(d->0, lits)
        } else {
            "-- pop"@
        }
    } else if opcode == 23 {
        extcall_text(args, lits, pending)
    } else if opcode == 9 {
        match static_target(args) {
            Some(t) => "-- jump 0x"@ + hex_padded(t as nat, 8),
            None => dynamic_jump_text(
                if args.len() > 0 {
                    Some(args[0])
                } else {
                    None
                },
                pc,
                jump_literal(args, lits),
            ),
        }
    } else if opcode == 10 {
        "-- jf (structural)"@
    } else if opcode == 11 {
        "-- gosub (structural)"@
    } else if fixed_call_text(opcode) is Some {
        fixed_call_text(opcode)->0
    } else {
        "-- unsupported opcode "@ + decimal(opcode as nat) + at_pc(pc)
    }
}

fn operand_at_exec(args: &Vec<Argument>, i: usize) -> (r: Option<&Operand>)
    ensures
        match r {
            Some(op) => operand_at(args@, i as int) == Some(*op),
            None => operand_at(args@, i as int) is None,
        },
{
    if i < args.len() {
        match &args[i] {
            Argument::Operand(op) => Some(op),
            _ => None,
        }
    } else {
        None
    }
}

fn push_at_pc(out: &mut Vec<char>, pc: u32)
    ensures
        final(out)@ == old(out)@ + at_pc(pc),
{
    let ghost start = out@;
    push_str(out, " @ 0x");
    push_hex(out, pc as u64, 8);
    assert(out@ =~= start + at_pc(pc));
}

fn push_fixed_call(out: &mut Vec<char>, opcode: u16) -> (found: bool)
    ensures
        found == fixed_call_text(opcode) is Some,
        found ==> final(out)@ == old(out)@ + fixed_call_text(opcode)->0,
        !found ==> final(out)@ == old(out)@,
{
    let s = match opcode {
        35 => "create_message()",
        36 => "get_message()",
        37 => "get_message_param()",
        40 => "save()",
        41 => "load()",
        42 => "save_set_title()",
        43 => "save_data()",
        44 => "save_set_thumbnail_size()",
        45 => "thumbnail_set()",
        46 => "savetitledraw()",
        47 => "save_set_font_size()",
        48 => "getsaveday()",
        49 => "is_save()",
        _ => {
            return false;
        },
    };
    push_str(out, s);
    true
}

fn push_dynamic_jump(out: &mut Vec<char>, args: &Vec<Argument>, pc: u32, lits: &LiteralTexts)
    ensures
        final(out)@ == old(out)@ + dynamic_jump_text(
            if args@.len() > 0 {
                Some(args@[0])
            } else {
                None
            },
            pc,
            jump_literal(args@, *lits),
        ),
{
    let ghost start = out@;
    if args.len() == 0 {
        push_str(out, "dynamic_jump(0) -- unresolved @ 0x");
        push_hex(out, pc as u64, 8);
    } else {
        match &args[0] {
            Argument::Point { id, .. } => {
                push_str(out, "dynamic_jump(");
                push_decimal(out, *id as u64);
                push_str(out, ")");
            },
            Argument::PointOperand { operand } => {
                push_str(out, "dynamic_jump(");
                push_o2l(out, operand, lits);
                push_str(out, ")");
            },
            Argument::Operand(operand) => {
                push_str(out, "dynamic_jump(");
                push_o2l(out, operand, lits);
                push_str(out, ")");
            },
            _ => {
                push_str(out, "dynamic_jump(0) -- unresolved @ 0x");
                push_hex(out, pc as u64, 8);
            },
        }
    }
    assert(out@ =~= start + dynamic_jump_text(
        if args@.len() > 0 {
            Some(args@[0])
        } else {
            None
        },
        pc,
        jump_literal(args@, *lits),
    ));
}

fn push_assign_binary(out: &mut Vec<char>, opcode: u16, d: &Operand, s: &Operand, lits: &LiteralTexts)
    requires
        is_arith(opcode) || 12 <= opcode <= 19,
    ensures
        is_arith(opcode) ==> final(out)@ == old(out)@ + o2l_text(*d, *lits) + " = "@ + o2l_text(*d, *lits)
            + " "@ + arith_text(opcode) + " "@ + o2l_text(*s, *lits),
        !is_arith(opcode) ==> final(out)@ == old(out)@ + o2l_text(*d, *lits) + " = ("@ + o2l_text(
            *d,
            *lits,
        ) + " "@ + compare_text(opcode) + " "@ + o2l_text(*s, *lits) + ") and 1 or 0"@,
{
    let ghost start = out@;
    push_o2l(out, d, lits);
    if (2 <= opcode && opcode <= 8) || (26 <= opcode && opcode <= 28) {
        push_str(out, " = ");
        push_o2l(out, d, lits);
        push_str(out, " ");
        push_str(out, arith_sym(opcode));
        push_str(out, " ");
        push_o2l(out, s, lits);
        assert(out@ =~= start + o2l_text(*d, *lits) + " = "@ + o2l_text(*d, *lits) + " "@ + arith_text(
            opcode,
        ) + " "@ + o2l_text(*s, *lits));
    } else {
        push_str(out, " = (");
        push_o2l(out, d, lits);
        push_str(out, " ");
        push_str(out, compare_sym(opcode));
        push_str(out, " ");
        push_o2l(out, s, lits);
        push_str(out, ") and 1 or 0");
        assert(out@ =~= start + o2l_text(*d, *lits) + " = ("@ + o2l_text(*d, *lits) + " "@ + compare_text(
            opcode,
        ) + " "@ + o2l_text(*s, *lits) + ") and 1 or 0"@);
    }
}

fn push_unary(out: &mut Vec<char>, opcode: u16, args: &Vec<Argument>, pc: u32, lits: &LiteralTexts)
    requires
        opcode == 20 || opcode == 29,
    ensures
        final(out)@ == old(out)@ + primary_text(opcode, args@, pc, *lits, Seq::empty()),
{
    let ghost start = out@;
    let not = opcode == 20;
    if args.len() > 0 {
        if let Argument::RawSlot { slot, .. } = &args[0] {
            push_str(out, "v");
            push_decimal(out, *slot as u64);
            if not {
                push_str(out, " = (v");
                push_decimal(out, *slot as u64);
                push_str(out, " == 0) and 1 or 0");
            } else {
                push_str(out, " = -v");
                push_decimal(out, *slot as u64);
            }
            assert(out@ =~= start + primary_text(opcode, args@, pc, *lits, Seq::empty()));
            return;
        }
    }
    match operand_at_exec(args, 0) {
        Some(d) => {
            push_o2l(out, d, lits);
            if not {
                push_str(out, " = (");
                push_o2l(out, d, lits);
                push_str(out, " == 0) and 1 or 0");
            } else {
                push_str(out, " = -");
                push_o2l(out, d, lits);
            }
        },
        None => {
            if not {
                push_str(out, "-- lnot_slot (malformed)");
            } else {
                push_str(out, "-- neg_slot (malformed)");
            }
            push_at_pc(out, pc);
        },
    }
    assert(out@ =~= start + primary_text(opcode, args@, pc, *lits, Seq::empty()));
}

#[verifier::spinoff_prover]
#[verifier::rlimit(60)]
fn push_primary(out: &mut Vec<char>, opcode: u16, args: &Vec<Argument>, pc: u32, lits: &LiteralTexts, pending: &[Operand])
    ensures
        final(out)@ == old(out)@ + primary_text(opcode, args@, pc, *lits, pending@),
{
    let ghost start = out@;
    let ghost want = primary_text(opcode, args@, pc, *lits, pending@);
    if opcode == 1 || (2 <= opcode && opcode <= 8) || (26 <= opcode && opcode <= 28) || (12 <= opcode
        && opcode <= 19) {
        match (operand_at_exec(args, 0), operand_at_exec(args, 1)) {
            (Some(d), Some(s)) => {
                if opcode == 1 {
                    push_o2l(out, d, lits);
                    push_str(out, " = ");
                    push_o2l(out, s, lits);
                    assert(out@ =~= start + want);
                } else {
                    push_assign_binary(out, opcode, d, s, lits);
                    assert(out@ =~= start + want);
                }
            },
            _ => {
                if opcode == 1 {
                    push_str(out, "-- mov (malformed)");
                } else if (2 <= opcode && opcode <= 8) || (26 <= opcode && opcode <= 28) {
                    push_str(out, "-- ");
                    push_str(out, arith_sym(opcode));
                    push_str(out, " (malformed)");
                } else {
                    push_str(out, "-- cmp (malformed)");
                }
                push_at_pc(out, pc);
                assert(out@ =~= start + want);
            },
        }
    } else if opcode == 20 || opcode == 29 {
        push_unary(out, opcode, args, pc, lits);
    } else if opcode == 22 || opcode == 31 || opcode == 32 || opcode == 33 {
        assert(want =~= Seq::<char>::empty());
        assert(out@ =~= start + want);
    } else if opcode == 21 || opcode == 24 {
        push_str(out, "return");
    } else if opcode == 25 {
        push_str(out, "reset_adv()");
    } else if opcode == 30 {
        match operand_at_exec(args, 0) {
            Some(d) => {
                push_str(out, "-- pop ");
                push_o2l(out, d, lits);
            },
            None => push_str(out, "-- pop"),
        }
        assert(out@ =~= start + want);
    } else if opcode == 23 {
        push_extcall(out, args, lits, pending);
    } else if opcode == 9 {
        let target = if args.len() > 0 {
            match &args[0] {
                Argument::Point { target_pc: Some(t), .. } => Some(*t),
                _ => None,
            }
        } else {
            None
        };
        match target {
            Some(t) => {
                push_str(out, "-- jump 0x");
                push_hex(out, t as u64, 8);
                assert(out@ =~= start + want);
            },
            None => push_dynamic_jump(out, args, pc, lits),
        }
    } else if opcode == 10 {
        push_str(out, "-- jf (structural)");
    } else if opcode == 11 {
        push_str(out, "-- gosub (structural)");
    } else if !push_fixed_call(out, opcode) {
        push_str(out, "-- unsupported opcode ");
        push_decimal(out, opcode as u64);
        push_at_pc(out, pc);
        assert(out@ =~= start + want);
    }
}

/// A primary instruction as a Lua statement (see `primary_text`).
pub fn emit_primary(opcode: u16, args: &Vec<Argument>, pc: u32, lits: &LiteralTexts, pending_args: &[Operand]) -> (s: String)
    ensures
        s@ == primary_text(opcode, args@, pc, *lits, pending_args@),
{
    let mut out: Vec<char> = Vec::new();
    push_primary(&mut out, opcode, args, pc, lits, pending_args);
    assert(out@ =~= primary_text(opcode, args@, pc, *lits, pending_args@));
    string_from_chars(out.as_slice())
}

/// An instruction as a Lua statement: a data word as a comment giving the
/// word and its address, a primary instruction as `primary_text`.
pub open spec fn instr_text(instr: InstructionView, lits: LiteralTexts, pending: Seq<Operand>) -> Seq<char> {
    match instr {
        InstructionView::DataWord { pc, word } => "-- .word 0x"@ + hex_padded(word as nat, 8)
            + "  -- pc=0x"@ + hex_padded(pc as nat, 8),
        InstructionView::Primary { opcode, args, pc, .. } => primary_text(opcode, args, pc, lits, pending),
    }
}

fn push_instr(out: &mut Vec<char>, instr: &Instruction, lits: &LiteralTexts, pending: &[Operand])
    ensures
        final(out)@ == old(out)@ + instr_text(instr@, *lits, pending@),
{
    let ghost start = out@;
    match instr {
        Instruction::DataWord { pc, word } => {
            push_str(out, "-- .word 0x");
            push_hex(out, *word as u64, 8);
            push_str(out, "  -- pc=0x");
            push_hex(out, *pc as u64, 8);
            assert(out@ =~= start + instr_text(instr@, *lits, pending@));
        },
        Instruction::Primary { opcode, args, pc, .. } => {
            push_primary(out, *opcode, args, *pc, lits, pending);
        },
    }
}

/// One instruction as a Lua statement (see `instr_text`), literal slots
/// given by `lits.ids`.
pub fn emit_single_instr_lua(instr: &Instruction, lits: &LiteralTexts, pending_args: &[Operand]) -> (s: String)
    ensures
        s@ == instr_text(instr@, *lits, pending_args@),
{
    let mut out: Vec<char> = Vec::new();
    push_instr(&mut out, instr, lits, pending_args);
    assert(out@ =~= instr_text(instr@, *lits, pending_args@));
    string_from_chars(out.as_slice())
}

/// One instruction as a Lua statement with the FILE.DAT and TEXT.DAT
/// strings of `lits` used for extcall parameters (see `instr_text`).
pub fn emit_single_instr_lua_full(instr: &Instruction, lits: &LiteralTexts, pending_args: &[Operand]) -> (s: String)
    ensures
        s@ == instr_text(instr@, *lits, pending_args@),
{
    emit_single_instr_lua(instr, lits, pending_args)
}


// ---------------------------------------------------------------- control flow

/// A basic block of a script: its first address, its instructions and the
/// addresses control can reach from its end.
#[derive(Clone, Debug)]
pub struct Block {
    pub start_pc: u32,
    pub instrs: Vec<Instruction>,
    pub succs: Vec<u32>,
}

/// What the Lua writer reads of a decompiled script: its blocks, the
/// addresses that `gosub` calls (each becomes a Lua function), the names
/// given to procedures and labels, and the resolved string texts.
#[derive(Clone, Debug)]
pub struct DecompileContext {
    pub blocks: Vec<Block>,
    pub gosub_targets: Vec<u32>,
    pub proc_names: Vec<(u32, String)>,
    pub label_names: Vec<(u32, String)>,
    pub literals: LiteralTexts,
}

/// The address after an instruction: a primary instruction's end, four
/// bytes on for a data word (in 32-bit arithmetic).
pub open spec fn end_pc(instr: InstructionView) -> u32 {
    match instr {
        InstructionView::Primary { end_pc, .. } => end_pc,
        InstructionView::DataWord { pc, .. } => if pc <= 0xFFFF_FFFB {
            (pc + 4) as u32
        } else {
            (pc + 4 - 0x1_0000_0000) as u32
        },
    }
}

pub fn instr_end_pc(instr: &Instruction) -> (r: u32)
    ensures
        r == end_pc(instr@),
{
    match instr {
        Instruction::Primary { end_pc, .. } => *end_pc,
        Instruction::DataWord { pc, .. } => {
            if *pc <= 0xFFFF_FFFB {
                *pc + 4
            } else {
                *pc - 0xFFFF_FFFC
            }
        },
    }
}

/// Some block starts at `pc`.
pub open spec fn has_block(bs: Seq<Block>, pc: u32) -> bool {
    exists|i: int| 0 <= i < bs.len() && #[trigger] bs[i].start_pc == pc
}

/// The first block that starts at `pc`.
pub fn find_block(bs: &Vec<Block>, pc: u32) -> (r: Option<usize>)
    ensures
        r is None <==> !has_block(bs@, pc),
        r matches Some(i) ==> i < bs@.len() && bs@[i as int].start_pc == pc,
{
    let mut i: usize = 0;
    while i < bs.len()
        invariant
            i <= bs@.len(),
            forall|k: int| 0 <= k < i ==> #[trigger] bs@[k].start_pc != pc,
        decreases bs@.len() - i,
    {
        if bs[i].start_pc == pc {
            return Some(i);
        }
        i += 1;
    }
    None
}

fn contains_pc(v: &Vec<u32>, x: u32) -> (b: bool)
    ensures
        b == v@.contains(x),
{
    let mut i: usize = 0;
    while i < v.len()
        invariant
            i <= v@.len(),
            forall|k: int| 0 <= k < i ==> v@[k] != x,
        decreases v@.len() - i,
    {
        if v[i] == x {
            assert(v@[i as int] == x);
            return true;
        }
        i += 1;
    }
    false
}

fn copy_pcs(v: &Vec<u32>) -> (r: Vec<u32>)
    ensures
        r@ == v@,
{
    let mut r: Vec<u32> = Vec::new();
    let mut i: usize = 0;
    while i < v.len()
        invariant
            i <= v@.len(),
            r@ == v@.subrange(0, i as int),
        decreases v@.len() - i,
    {
        r.push(v[i]);
        i += 1;
        assert(r@ =~= v@.subrange(0, i as int));
    }
    assert(r@ =~= v@);
    r
}

/// How many of the first `n` blocks start at an address not in `seen`.
pub open spec fn unseen_blocks(bs: Seq<Block>, seen: Seq<u32>, n: int) -> nat
    decreases n,
{
    if n <= 0 {
        0
    } else {
        unseen_blocks(bs, seen, n - 1) + if seen.contains(bs[n - 1].start_pc) {
            0nat
        } else {
            1nat
        }
    }
}

proof fn lemma_unseen_shrinks(bs: Seq<Block>, a: Seq<u32>, b: Seq<u32>, n: int)
    requires
        forall|x: u32| a.contains(x) ==> b.contains(x),
    ensures
        unseen_blocks(bs, b, n) <= unseen_blocks(bs, a, n),
    decreases n,
{
    if n > 0 {
        lemma_unseen_shrinks(bs, a, b, n - 1);
    }
}

proof fn lemma_unseen_push(bs: Seq<Block>, a: Seq<u32>, x: u32, i: int, n: int)
    requires
        0 <= i < n <= bs.len(),
        bs[i].start_pc == x,
        !a.contains(x),
    ensures
        unseen_blocks(bs, a.push(x), n) < unseen_blocks(bs, a, n),
    decreases n,
{
    assert forall|y: u32| a.contains(y) implies a.push(x).contains(y) by {
        let k = choose|k: int| 0 <= k < a.len() && a[k] == y;
        assert(a.push(x)[k] == y);
    }
    assert(a.push(x)[a.len() as int] == x);
    if i < n - 1 {
        lemma_unseen_push(bs, a, x, i, n - 1);
    } else {
        lemma_unseen_shrinks(bs, a, a.push(x), n - 1);
    }
}

proof fn lemma_unseen_bound(bs: Seq<Block>, a: Seq<u32>, n: int)
    requires
        0 <= n,
    ensures
        unseen_blocks(bs, a, n) <= n,
    decreases n,
{
    if n > 0 {
        lemma_unseen_bound(bs, a, n - 1);
    }
}

/// `b` holds every address `a` holds.
pub open spec fn keeps_all(a: Seq<u32>, b: Seq<u32>) -> bool {
    forall|x: u32| a.contains(x) ==> b.contains(x)
}

/// The first block that starts at `pc`.
pub open spec fn first_index(bs: Seq<Block>, pc: u32) -> int {
    choose|i: int| 0 <= i < bs.len() && bs[i].start_pc == pc && forall|k: int|
        0 <= k < i ==> bs[k].start_pc != pc
}

/// One step of the back-edge walk over the successors `succs[k..]` of a
/// block reached `depth` steps deep: `None` when one of them is the header;
/// otherwise the walk's stack and seen list after queueing every successor
/// that lies after the header, starts a block and was not seen before.
pub open spec fn scan_succs(
    bs: Seq<Block>,
    header_pc: u32,
    succs: Seq<u32>,
    k: int,
    stack: Seq<(u32, usize)>,
    seen: Seq<u32>,
    depth: usize,
) -> Option<(Seq<(u32, usize)>, Seq<u32>)>
    decreases succs.len() - k,
{
    if k >= succs.len() || k < 0 {
        Some((stack, seen))
    } else if succs[k] == header_pc {
        None
    } else if succs[k] > header_pc && !seen.contains(succs[k]) && has_block(bs, succs[k]) {
        scan_succs(bs, header_pc, succs, k + 1, stack.push((succs[k], (depth + 1) as usize)), seen.push(succs[k]), depth)
    } else {
        scan_succs(bs, header_pc, succs, k + 1, stack, seen, depth)
    }
}

/// The depth-first walk for a back edge: take the last queued block; skip
/// it when it is `max_depth` deep or starts no block; otherwise scan its
/// successors (`scan_succs`). `fuel` bounds the steps taken.
pub open spec fn back_edge_walk(
    bs: Seq<Block>,
    header_pc: u32,
    max_depth: usize,
    stack: Seq<(u32, usize)>,
    seen: Seq<u32>,
    fuel: nat,
) -> bool
    decreases fuel,
{
    if fuel == 0 || stack.len() == 0 {
        false
    } else {
        let (pc, depth) = stack.last();
        let rest = stack.drop_last();
        if depth >= max_depth || !has_block(bs, pc) {
            back_edge_walk(bs, header_pc, max_depth, rest, seen, (fuel - 1) as nat)
        } else {
            match scan_succs(bs, header_pc, bs[first_index(bs, pc)].succs@, 0, rest, seen, depth) {
                None => true,
                Some((s2, seen2)) => back_edge_walk(bs, header_pc, max_depth, s2, seen2, (fuel - 1) as nat),
            }
        }
    }
}

/// Whether a loop body that starts at `body_start` jumps back to
/// `header_pc`: the walk from the body's first block (`back_edge_walk`),
/// given a step for every block and one more, which is enough for it to
/// finish.
pub open spec fn back_edge(bs: Seq<Block>, header_pc: u32, body_start: u32, max_depth: usize) -> bool {
    back_edge_walk(bs, header_pc, max_depth, seq![(body_start, 0usize)], seq![body_start], bs.len() + 1)
}

proof fn lemma_push_unseen(bs: Seq<Block>, seen: Seq<u32>, x: u32)
    requires
        has_block(bs, x),
        !seen.contains(x),
    ensures
        unseen_blocks(bs, seen.push(x), bs.len() as int) + 1 <= unseen_blocks(bs, seen, bs.len() as int),
{
    let i = choose|i: int| 0 <= i < bs.len() && bs[i].start_pc == x;
    lemma_unseen_push(bs, seen, x, i, bs.len() as int);
}

/// Whether a loop body that starts at `body_start` jumps back to
/// `header_pc` (see `back_edge`).
pub fn has_back_edge_to(header_pc: u32, body_start: u32, blocks: &Vec<Block>, max_depth: usize) -> (b: bool)
    ensures
        b == back_edge(blocks@, header_pc, body_start, max_depth),
{
    let ghost bs = blocks@;
    let mut stack: Vec<(u32, usize)> = Vec::new();
    stack.push((body_start, 0));
    let mut seen: Vec<u32> = Vec::new();
    seen.push(body_start);
    let ghost mut fuel: nat = (bs.len() + 1) as nat;
    proof {
        lemma_unseen_bound(bs, seen@, bs.len() as int);
        assert(stack@ =~= seq![(body_start, 0usize)]);
        assert(seen@ =~= seq![body_start]);
    }
    while stack.len() > 0
        invariant
            bs == blocks@,
            back_edge_walk(bs, header_pc, max_depth, stack@, seen@, fuel) == back_edge(bs, header_pc, body_start, max_depth),
            stack@.len() + unseen_blocks(bs, seen@, bs.len() as int) <= fuel,
        decreases fuel,
    {
        let ghost st0 = stack@;
        let ghost seen0 = seen@;
        let (pc, depth) = stack.pop().unwrap();
        let ghost rest = stack@;
        assert(rest == st0.drop_last());
        assert((pc, depth) == st0.last());
        if depth >= max_depth {
            proof {
                fuel = (fuel - 1) as nat;
            }
            continue;
        }
        match find_first_block(blocks, pc) {
            Some(bi) => {
                let block = &blocks[bi];
                let ghost succs = block.succs@;
                assert(bs[first_index(bs, pc)] == *block);
                let mut k: usize = 0;
                while k < block.succs.len()
                    invariant
                        bs == blocks@,
                        bi < bs.len(),
                        block == &bs[bi as int],
                        succs == block.succs@,
                        depth < max_depth,
                        k <= succs.len(),
                        back_edge_walk(bs, header_pc, max_depth, st0, seen0, fuel) == back_edge(bs, header_pc, body_start, max_depth),
                        st0.len() + unseen_blocks(bs, seen0, bs.len() as int) <= fuel,
                        st0.len() > 0,
                        rest == st0.drop_last(),
                        st0.last() == (pc, depth),
                        has_block(bs, pc),
                        bs[first_index(bs, pc)] == *block,
                        scan_succs(bs, header_pc, succs, 0, rest, seen0, depth) == scan_succs(
                            bs,
                            header_pc,
                            succs,
                            k as int,
                            stack@,
                            seen@,
                            depth,
                        ),
                        stack@.len() + unseen_blocks(bs, seen@, bs.len() as int) <= rest.len()
                            + unseen_blocks(bs, seen0, bs.len() as int),
                    decreases succs.len() - k,
                {
                    let succ = block.succs[k];
                    if succ == header_pc {
                        assert(scan_succs(bs, header_pc, succs, 0, rest, seen0, depth) is None);
                        return true;
                    }
                    if succ > header_pc && !contains_pc(&seen, succ) {
                        match find_block(blocks, succ) {
                            Some(si) => {
                                proof {
                                    lemma_push_unseen(bs, seen@, succ);
                                }
                                seen.push(succ);
                                stack.push((succ, depth + 1));
                            },
                            None => {},
                        }
                    }
                    k += 1;
                }
                proof {
                    fuel = (fuel - 1) as nat;
                }
            },
            None => {
                proof {
                    fuel = (fuel - 1) as nat;
                }
            },
        }
    }
    false
}

/// Where the two arms of an `if` meet again, walking the fall-through path
/// from `current` for at most `fuel` blocks: a jump at or past the branch
/// target meets there; an earlier jump is followed; an end, a return, a
/// missing or empty block, or a fall-through reaching the branch target
/// meets at the branch target.
pub open spec fn merge_from(bs: Seq<Block>, current: u32, branch_pc: u32, fuel: nat) -> u32
    decreases fuel,
{
    if fuel == 0 || !has_block(bs, current) {
        branch_pc
    } else {
        let b = bs[choose|i: int| 0 <= i < bs.len() && bs[i].start_pc == current && forall|k: int|
            0 <= k < i ==> bs[k].start_pc != current];
        if b.instrs@.len() == 0 {
            branch_pc
        } else {
            let last = b.instrs@.last()@;
            match last {
                InstructionView::Primary { opcode, args, .. } => if opcode == 9 {
                    match static_target(args) {
                        Some(t) => if t >= branch_pc {
                            t
                        } else {
                            merge_from(bs, t, branch_pc, (fuel - 1) as nat)
                        },
                        None => branch_pc,
                    }
                } else if opcode == 21 || opcode == 24 {
                    branch_pc
                } else if end_pc(last) >= branch_pc {
                    branch_pc
                } else {
                    merge_from(bs, end_pc(last), branch_pc, (fuel - 1) as nat)
                },
                InstructionView::DataWord { .. } => if end_pc(last) >= branch_pc {
                    branch_pc
                } else {
                    merge_from(bs, end_pc(last), branch_pc, (fuel - 1) as nat)
                },
            }
        }
    }
}

/// The merge point of an `if` whose then-arm starts at `fall_pc` and whose
/// else-arm starts at `branch_pc` (see `merge_from`; 257 blocks at most).
pub open spec fn merge_point(bs: Seq<Block>, fall_pc: u32, branch_pc: u32) -> u32 {
    if fall_pc >= branch_pc {
        branch_pc
    } else {
        merge_from(bs, fall_pc, branch_pc, 257)
    }
}

proof fn lemma_first_block(bs: Seq<Block>, pc: u32, i: int)
    requires
        0 <= i < bs.len(),
        bs[i].start_pc == pc,
        forall|k: int| 0 <= k < i ==> bs[k].start_pc != pc,
    ensures
        (choose|j: int| 0 <= j < bs.len() && bs[j].start_pc == pc && forall|k: int|
            0 <= k < j ==> bs[k].start_pc != pc) == i,
{
    let j = choose|j: int| 0 <= j < bs.len() && bs[j].start_pc == pc && forall|k: int|
        0 <= k < j ==> bs[k].start_pc != pc;
    assert(0 <= j < bs.len() && bs[j].start_pc == pc && forall|k: int| 0 <= k < j ==> bs[k].start_pc != pc);
    if j < i {
        assert(bs[j].start_pc != pc);
    }
    if i < j {
        assert(bs[i].start_pc != pc);
    }
}

fn find_first_block(bs: &Vec<Block>, pc: u32) -> (r: Option<usize>)
    ensures
        r is None <==> !has_block(bs@, pc),
        r matches Some(i) ==> i < bs@.len() && bs@[i as int].start_pc == pc && (choose|j: int|
            0 <= j < bs@.len() && bs@[j].start_pc == pc && forall|k: int|
                0 <= k < j ==> bs@[k].start_pc != pc) == i,
{
    let mut i: usize = 0;
    while i < bs.len()
        invariant
            i <= bs@.len(),
            forall|k: int| 0 <= k < i ==> #[trigger] bs@[k].start_pc != pc,
        decreases bs@.len() - i,
    {
        if bs[i].start_pc == pc {
            proof {
                lemma_first_block(bs@, pc, i as int);
            }
            return Some(i);
        }
        i += 1;
    }
    None
}

/// The merge point of an `if` (see `merge_point`).
pub fn find_merge_point(fall_pc: u32, branch_pc: u32, blocks: &Vec<Block>) -> (r: u32)
    ensures
        r == merge_point(blocks@, fall_pc, branch_pc),
{
    if fall_pc >= branch_pc {
        return branch_pc;
    }
    let mut current = fall_pc;
    let mut fuel: u64 = 257;
    while fuel > 0
        invariant
            fuel <= 257,
            merge_point(blocks@, fall_pc, branch_pc) == merge_from(blocks@, current, branch_pc, fuel as nat),
        decreases fuel,
    {
        let bi = match find_first_block(blocks, current) {
            Some(bi) => bi,
            None => {
                return branch_pc;
            },
        };
        let block = &blocks[bi];
        if block.instrs.len() == 0 {
            return branch_pc;
        }
        let last = &block.instrs[block.instrs.len() - 1];
        assert(block.instrs@.last() == *last);
        match last {
            Instruction::Primary { opcode, args, .. } => {
                if *opcode == 9 {
                    let target = if args.len() > 0 {
                        match &args[0] {
                            Argument::Point { target_pc: Some(t), .. } => Some(*t),
                            _ => None,
                        }
                    } else {
                        None
                    };
                    match target {
                        Some(t) => {
                            if t >= branch_pc {
                                return t;
                            }
                            current = t;
                        },
                        None => {
                            return branch_pc;
                        },
                    }
                } else if *opcode == 21 || *opcode == 24 {
                    return branch_pc;
                } else {
                    let end = instr_end_pc(last);
                    if end >= branch_pc {
                        return branch_pc;
                    }
                    current = end;
                }
            },
            Instruction::DataWord { .. } => {
                let end = instr_end_pc(last);
                if end >= branch_pc {
                    return branch_pc;
                }
                current = end;
            },
        }
        fuel -= 1;
    }
    branch_pc
}

/// Whether a `::label::` goes before the block at `pc`: some block at or
/// after it jumps back to it.
pub open spec fn label_needed(bs: Seq<Block>, pc: u32) -> bool {
    exists|i: int, j: int|
        0 <= i < bs.len() && 0 <= j < bs[i].succs@.len() && #[trigger] bs[i].succs@[j] == pc
            && bs[i].start_pc >= pc
}

/// Whether a label goes before the block at `pc` (see `label_needed`).
pub fn needs_label(ctx: &DecompileContext, pc: u32) -> (b: bool)
    ensures
        b == label_needed(ctx.blocks@, pc),
{
    let bs = &ctx.blocks;
    let mut i: usize = 0;
    while i < bs.len()
        invariant
            i <= bs@.len(),
            bs@ == ctx.blocks@,
            forall|a: int, j: int|
                0 <= a < i && 0 <= j < bs@[a].succs@.len() ==> !(#[trigger] bs@[a].succs@[j] == pc
                    && bs@[a].start_pc >= pc),
        decreases bs@.len() - i,
    {
        let block = &bs[i];
        let mut k: usize = 0;
        while k < block.succs.len()
            invariant
                i < bs@.len(),
                bs@ == ctx.blocks@,
                block == &bs@[i as int],
                k <= block.succs@.len(),
                forall|a: int, j: int|
                    0 <= a < i && 0 <= j < bs@[a].succs@.len() ==> !(#[trigger] bs@[a].succs@[j] == pc
                        && bs@[a].start_pc >= pc),
                forall|j: int| 0 <= j < k ==> !(#[trigger] bs@[i as int].succs@[j] == pc && bs@[i as int].start_pc >= pc),
            decreases block.succs@.len() - k,
        {
            if block.succs[k] == pc && block.start_pc >= pc {
                assert(ctx.blocks@[i as int].succs@[k as int] == pc && ctx.blocks@[i as int].start_pc >= pc);
                assert(label_needed(ctx.blocks@, pc));
                return true;
            }
            k += 1;
        }
        i += 1;
    }
    false
}


// ---------------------------------------------------------------- regions

/// The nesting the region writer allows: the starting depth plus the
/// blocks still to visit stays within this.
pub const NEST_LIMIT: usize = 0x1000_0000;

fn indent_chars(depth: usize) -> (r: Vec<char>)
    ensures
        r@ == crate::lua_emit::indent_text(depth as nat),
{
    let s = crate::lua_emit::indent(depth);
    chars_of(s.as_str())
}

/// Writes `ind`, `text` and a line end.
fn push_line(out: &mut Vec<char>, ind: &Vec<char>, text: &Vec<char>)
    ensures
        final(out)@ == old(out)@ + ind@ + text@ + "\n"@,
{
    let ghost start = out@;
    push_chars_vec(out, ind);
    push_chars_vec(out, text);
    push_str(out, "\n");
    assert(out@ =~= start + ind@ + text@ + "\n"@);
}

fn statement_chars(instr: &Instruction, lits: &LiteralTexts, pending: &[Operand]) -> (r: Vec<char>)
    ensures
        r@ == instr_text(instr@, *lits, pending@),
{
    let mut r: Vec<char> = Vec::new();
    push_instr(&mut r, instr, lits, pending);
    assert(r@ =~= instr_text(instr@, *lits, pending@));
    r
}

fn text_chars(s: &str) -> (r: Vec<char>)
    ensures
        r@ == s@,
{
    chars_of(s)
}

// ---------------------------------------------------------------- region text

/// The instructions as views.
pub open spec fn views(s: Seq<Instruction>) -> Seq<InstructionView> {
    s.map_values(|i: Instruction| i@)
}

/// A line: the indentation, the text and a line end.
pub open spec fn line(ind: Seq<char>, t: Seq<char>) -> Seq<char> {
    ind + t + "\n"@
}

/// A line for a statement, or nothing when the statement is empty.
pub open spec fn statement_line(ind: Seq<char>, stmt: Seq<char>) -> Seq<char> {
    if stmt.len() > 0 {
        line(ind, stmt)
    } else {
        Seq::empty()
    }
}

/// The statement an instruction writes (see `instr_text`).
#[verifier::opaque]
pub open spec fn stmt_text(instr: InstructionView, lits: LiteralTexts, pending: Seq<Operand>) -> Seq<char> {
    instr_text(instr, lits, pending)
}

/// The operand stacks after one instruction (see `sim_step`).
#[verifier::opaque]
pub open spec fn stack_after(stack: Seq<Operand>, args: Seq<Operand>, instr: InstructionView) -> (
    Seq<Operand>,
    Seq<Operand>,
    Option<Seq<Operand>>,
) {
    sim_step(stack, args, instr)
}

/// The operands a step hands to its statement (none for a silent step).
pub open spec fn pending_of(p: Option<Seq<Operand>>) -> Seq<Operand> {
    match p {
        Some(x) => x,
        None => Seq::empty(),
    }
}

/// The statements of the first `n` instructions of a block written for the
/// first time, following the operand stacks from empty (`sim_step`): every
/// instruction writes its statement (`instr_text`, with the operands it
/// takes), empty statements giving no line. Also the stacks after them.
pub open spec fn region_lines(lits: LiteralTexts, instrs: Seq<InstructionView>, n: int, ind: Seq<char>) -> (
    Seq<char>,
    Seq<Operand>,
    Seq<Operand>,
)
    decreases n,
{
    if n <= 0 {
        (Seq::empty(), Seq::empty(), Seq::empty())
    } else {
        let prev = region_lines(lits, instrs, n - 1, ind);
        let st = stack_after(prev.1, prev.2, instrs[n - 1]);
        (prev.0 + statement_line(ind, stmt_text(instrs[n - 1], lits, pending_of(st.2))), st.0, st.1)
    }
}

/// The statements of the first `n` instructions of a run re-written inside
/// a loop: like `region_lines`, but pushes, argument moves and pops
/// (silent steps) write nothing.
pub open spec fn slice_lines(lits: LiteralTexts, instrs: Seq<InstructionView>, n: int, ind: Seq<char>) -> (
    Seq<char>,
    Seq<Operand>,
    Seq<Operand>,
)
    decreases n,
{
    if n <= 0 {
        (Seq::empty(), Seq::empty(), Seq::empty())
    } else {
        let prev = slice_lines(lits, instrs, n - 1, ind);
        let st = stack_after(prev.1, prev.2, instrs[n - 1]);
        (
            prev.0 + match st.2 {
                Some(p) => statement_line(ind, stmt_text(instrs[n - 1], lits, p)),
                None => Seq::empty(),
            },
            st.0,
            st.1,
        )
    }
}

/// The name given to the procedure at `pc`.
pub open spec fn proc_name(ctx: DecompileContext, pc: u32) -> Seq<char> {
    text_for(ctx.proc_names@, pc)
}

/// The name given to the label at `pc`.
pub open spec fn label_name(ctx: DecompileContext, pc: u32) -> Seq<char> {
    text_for(ctx.label_names@, pc)
}

/// The last instruction of block `bi`.
pub open spec fn last_instr(ctx: DecompileContext, bi: int) -> InstructionView {
    views(ctx.blocks@[bi].instrs@).last()
}

/// The Lua text of the region that starts at `start`, ends at `exit`, is
/// written `depth` levels deep inside the procedure at `fn_entry`, with
/// the blocks `v` already written; also the blocks written after it.
/// Nothing at the exit; a call when `start` is another procedure's entry;
/// a back-edge comment for a block already written; a comment for a
/// missing block; else the block, as a complex `while` when it is one
/// (`complex_while_text`), otherwise its statements (`region_lines`) and its
/// last instruction's control flow (`terminal_text`). `fuel` bounds the
/// nesting; the writer always gives enough.
pub open spec fn region_text(
    ctx: DecompileContext,
    start: u32,
    exit: Option<u32>,
    v: Seq<u32>,
    depth: nat,
    fn_entry: u32,
    fuel: nat,
) -> (Seq<char>, Seq<u32>)
    decreases fuel, 4nat,
{
    let bs = ctx.blocks@;
    let ind = indent_text(depth);
    if fuel == 0 || exit == Some(start) {
        (Seq::empty(), v)
    } else if start != fn_entry && ctx.gosub_targets@.contains(start) {
        (line(ind, proc_name(ctx, start) + "()"@), v)
    } else if v.contains(start) {
        (line(ind, "-- back-edge to "@ + label_name(ctx, start)), v)
    } else if !has_block(bs, start) {
        (line(ind, "-- missing block at 0x"@ + hex_padded(start as nat, 8)), v.push(start))
    } else {
        let bi = first_index(bs, start);
        let v1 = v.push(start);
        match complex_while_text(ctx, bi, exit, v1, depth, fn_entry, (fuel - 1) as nat) {
            Some(r) => r,
            None => {
                let instrs = views(bs[bi].instrs@);
                let m = instrs.len() as int;
                if m == 0 {
                    (Seq::empty(), v1)
                } else {
                    let pre = region_lines(ctx.literals, instrs, m - 1, ind);
                    let st = stack_after(pre.1, pre.2, instrs[m - 1]);
                    let t = terminal_text(ctx, bi, exit, v1, depth, pending_of(st.2), fn_entry, (fuel - 1) as nat);
                    (pre.0 + t.0, t.1)
                }
            },
        }
    }
}

/// A `while` loop whose header block `bi` also computes the condition:
/// its label when one is needed, `while true do`, the header's statements
/// re-written inside (`slice_lines`), the `break` on a false condition, the
/// body up to the exit branch, `end`, and what follows the loop. `None`
/// when the block is not such a header (fewer than two instructions, not
/// ending in a branch with a resolved target and a condition operand, or
/// with no back edge).
pub open spec fn complex_while_text(
    ctx: DecompileContext,
    bi: int,
    exit: Option<u32>,
    v: Seq<u32>,
    depth: nat,
    fn_entry: u32,
    fuel: nat,
) -> Option<(Seq<char>, Seq<u32>)>
    decreases fuel, 3nat,
{
    let bs = ctx.blocks@;
    let instrs = views(bs[bi].instrs@);
    let n = instrs.len() as int;
    if fuel == 0 || n < 2 {
        None
    } else {
        match instrs[n - 1] {
            InstructionView::Primary { opcode, args, .. } => if opcode == 10 && args.len() >= 2 && args[0] is Point
                && args[0]->Point_target_pc is Some && args[1] is Operand {
                let bp = args[0]->Point_target_pc->0;
                let cond = args[1]->Operand_0;
                let fall = end_pc(instrs[n - 1]);
                let header = bs[bi].start_pc;
                if !back_edge(bs, header, fall, 64) {
                    None
                } else {
                    let ind = indent_text(depth);
                    let inner = indent_text(depth + 1);
                    let c = o2l_text(cond, ctx.literals);
                    let v1 = v.push(header);
                    let lab = if label_needed(bs, header) {
                        line(ind, "::"@ + label_name(ctx, header) + "::"@)
                    } else {
                        Seq::empty()
                    };
                    let head = line(ind, "while true do"@) + slice_lines(ctx.literals, instrs, n - 1, inner).0
                        + line(inner, "if "@ + c + " == 0 then break end"@);
                    let body = region_text(ctx, fall, Some(bp), v1, depth + 1, fn_entry, (fuel - 1) as nat);
                    let after = region_text(ctx, bp, exit, v1, depth, fn_entry, (fuel - 1) as nat);
                    Some((lab + head + body.0 + line(ind, "end"@) + after.0, after.1))
                }
            } else {
                None
            },
            InstructionView::DataWord { .. } => None,
        }
    }
}

/// The control flow of block `bi`'s last instruction and what follows it,
/// with `pending` the operands it takes: jumps (`jump_text`), conditional
/// branches (`branch_text`), procedure calls (`gosub_text`), `return` for
/// end and ret, and any other instruction as its statement followed by the
/// next region (`next_text`).
pub open spec fn terminal_text(
    ctx: DecompileContext,
    bi: int,
    exit: Option<u32>,
    v: Seq<u32>,
    depth: nat,
    pending: Seq<Operand>,
    fn_entry: u32,
    fuel: nat,
) -> (Seq<char>, Seq<u32>)
    decreases fuel, 2nat,
{
    let instr = last_instr(ctx, bi);
    match instr {
        InstructionView::Primary { opcode, .. } => if opcode == 9 {
            jump_text(ctx, instr, exit, v, depth, pending, fn_entry, fuel)
        } else if opcode == 10 {
            branch_text(ctx, bi, exit, v, depth, fn_entry, fuel)
        } else if opcode == 11 {
            gosub_text(ctx, instr, exit, v, depth, fn_entry, fuel)
        } else if opcode == 21 || opcode == 24 {
            (line(indent_text(depth), "return"@), v)
        } else {
            next_text(ctx, instr, exit, v, depth, pending, fn_entry, fuel)
        },
        InstructionView::DataWord { .. } => next_text(ctx, instr, exit, v, depth, pending, fn_entry, fuel),
    }
}

/// An instruction that falls through: its statement, then the region at
/// the next address.
pub open spec fn next_text(
    ctx: DecompileContext,
    instr: InstructionView,
    exit: Option<u32>,
    v: Seq<u32>,
    depth: nat,
    pending: Seq<Operand>,
    fn_entry: u32,
    fuel: nat,
) -> (Seq<char>, Seq<u32>)
    decreases fuel, 1nat,
{
    if fuel == 0 {
        (Seq::empty(), v)
    } else {
        let r = region_text(ctx, end_pc(instr), exit, v, depth, fn_entry, (fuel - 1) as nat);
        (statement_line(indent_text(depth), stmt_text(instr, ctx.literals, pending)) + r.0, r.1)
    }
}

/// A jump: a resolved target already written is a back-edge comment, the
/// exit writes nothing, any other is followed; an unresolved one is a
/// `dynamic_jump` call (or the instruction's statement when its argument
/// names no point).
pub open spec fn jump_text(
    ctx: DecompileContext,
    instr: InstructionView,
    exit: Option<u32>,
    v: Seq<u32>,
    depth: nat,
    pending: Seq<Operand>,
    fn_entry: u32,
    fuel: nat,
) -> (Seq<char>, Seq<u32>)
    decreases fuel, 1nat,
{
    let ind = indent_text(depth);
    let args = instr->Primary_args;
    if fuel == 0 {
        (Seq::empty(), v)
    } else {
        match static_target(args) {
            Some(t) => if v.contains(t) {
                (line(ind, "-- back-edge to "@ + label_name(ctx, t)), v)
            } else if exit == Some(t) {
                (Seq::empty(), v)
            } else {
                region_text(ctx, t, exit, v, depth, fn_entry, (fuel - 1) as nat)
            },
            None => (
                line(
                    ind,
                    if args.len() > 0 && args[0] is Point {
                        "dynamic_jump("@ + decimal(args[0]->Point_id as nat) + ")"@
                    } else if args.len() > 0 && args[0] is PointOperand {
                        "dynamic_jump("@ + o2l_text(args[0]->operand, ctx.literals) + ")"@
                    } else {
                        stmt_text(instr, ctx.literals, pending)
                    },
                ),
                v,
            ),
        }
    }
}

/// A conditional branch at the end of block `bi` (taken when the condition
/// is zero). With no resolved target: a `dynamic_jump(0)` (point 0) or an
/// INVALID comment and `jf_invalid` call under `if c == 0`, then the fall
/// through. With a back edge from the fall-through path: a `while` loop
/// (plain, or `while true do` with the header's statements and a `break`),
/// then the region at the target. Otherwise an `if c ~= 0` with the
/// fall-through arm, an `else` arm unless the target is the merge point
/// (`merge_point`), and the region from the merge point.
pub open spec fn branch_text(
    ctx: DecompileContext,
    bi: int,
    exit: Option<u32>,
    v: Seq<u32>,
    depth: nat,
    fn_entry: u32,
    fuel: nat,
) -> (Seq<char>, Seq<u32>)
    decreases fuel, 1nat,
{
    let bs = ctx.blocks@;
    let ind = indent_text(depth);
    let instr = last_instr(ctx, bi);
    let args = instr->Primary_args;
    if fuel == 0 {
        (Seq::empty(), v)
    } else if !(args.len() >= 2 && args[0] is Point && args[1] is Operand) {
        (line(ind, "-- jf (malformed)"@), v)
    } else {
        let id = args[0]->Point_id;
        let cond = args[1]->Operand_0;
        let fall = end_pc(instr);
        let c = o2l_text(cond, ctx.literals);
        match args[0]->Point_target_pc {
            None => unresolved_branch_text(ctx, id, c, fall, exit, v, depth, fn_entry, fuel),
            Some(bt) => if back_edge(bs, bs[bi].start_pc, fall, 64) {
                loop_text(ctx, bi, c, fall, bt, exit, v, depth, fn_entry, fuel)
            } else {
                if_text(ctx, c, fall, bt, exit, v, depth, fn_entry, fuel)
            },
        }
    }
}

/// A branch with no resolved target, condition `c`: `dynamic_jump(0)`
/// (point 0) or an INVALID comment and a `jf_invalid` call, under
/// `if c == 0`, then the fall through.
pub open spec fn unresolved_branch_text(
    ctx: DecompileContext,
    id: u32,
    c: Seq<char>,
    fall: u32,
    exit: Option<u32>,
    v: Seq<u32>,
    depth: nat,
    fn_entry: u32,
    fuel: nat,
) -> (Seq<char>, Seq<u32>)
    decreases fuel, 0nat,
{
    let ind = indent_text(depth);
    let test = "if "@ + c + " == 0 then"@;
    if fuel == 0 {
        (Seq::empty(), v)
    } else {
        let pre = if id == 0 {
            line(ind, test) + line(ind, "    dynamic_jump(0)"@) + line(ind, "end"@)
        } else {
            line(ind, "-- INVALID jf target: point_id="@ + decimal(id as nat) + " not in Point.dat"@) + line(ind, test)
                + line(ind, "    jf_invalid("@ + decimal(id as nat) + ")"@) + line(ind, "end"@)
        };
        let r = region_text(ctx, fall, exit, v, depth, fn_entry, (fuel - 1) as nat);
        (pre + r.0, r.1)
    }
}

/// A `while` loop for the branch closing block `bi` (condition `c`, body
/// from `fall` up to the target `bt`): its label when one is needed, a
/// plain `while c ~= 0 do` for a block of one instruction, else `while true
/// do` with the header's statements and a `break`; the body (with the
/// header counted as written), `end`, then the region at `bt`.
pub open spec fn loop_text(
    ctx: DecompileContext,
    bi: int,
    c: Seq<char>,
    fall: u32,
    bt: u32,
    exit: Option<u32>,
    v: Seq<u32>,
    depth: nat,
    fn_entry: u32,
    fuel: nat,
) -> (Seq<char>, Seq<u32>)
    decreases fuel, 0nat,
{
    let header = ctx.blocks@[bi].start_pc;
    if fuel == 0 {
        (Seq::empty(), v)
    } else {
        let bv = if v.contains(header) {
            v
        } else {
            v.push(header)
        };
        let body = region_text(ctx, fall, Some(bt), bv, depth + 1, fn_entry, (fuel - 1) as nat);
        let after = region_text(ctx, bt, exit, v, depth, fn_entry, (fuel - 1) as nat);
        (loop_head(ctx, bi, c, depth) + body.0 + line(indent_text(depth), "end"@) + after.0, after.1)
    }
}

/// The opening of a `while` loop for block `bi`: its label when one is
/// needed, then `while c ~= 0 do` for a block of one instruction, else
/// `while true do`, the header's statements re-written one level deeper
/// and `if c == 0 then break end`.
pub open spec fn loop_head(ctx: DecompileContext, bi: int, c: Seq<char>, depth: nat) -> Seq<char> {
    let bs = ctx.blocks@;
    let ind = indent_text(depth);
    let header = bs[bi].start_pc;
    let instrs = views(bs[bi].instrs@);
    let n = instrs.len() as int;
    let inner = indent_text(depth + 1);
    let lab = if label_needed(bs, header) {
        line(ind, "::"@ + label_name(ctx, header) + "::"@)
    } else {
        Seq::empty()
    };
    lab + if n == 1 {
        line(ind, "while "@ + c + " ~= 0 do"@)
    } else {
        line(ind, "while true do"@) + slice_lines(ctx.literals, instrs, n - 1, inner).0 + line(
            inner,
            "if "@ + c + " == 0 then break end"@,
        )
    }
}

/// An `if` for a forward branch (condition `c`, then-arm from `fall`, else
/// arm from the target `bt`): `if c ~= 0 then`, the then-arm up to the
/// merge point (`merge_point`), `else` and the else-arm unless the target
/// is the merge point, `end`, then the region from the merge point.
pub open spec fn if_text(
    ctx: DecompileContext,
    c: Seq<char>,
    fall: u32,
    bt: u32,
    exit: Option<u32>,
    v: Seq<u32>,
    depth: nat,
    fn_entry: u32,
    fuel: nat,
) -> (Seq<char>, Seq<u32>)
    decreases fuel, 0nat,
{
    let bs = ctx.blocks@;
    let ind = indent_text(depth);
    if fuel == 0 {
        (Seq::empty(), v)
    } else {
        let merge = merge_point(bs, fall, bt);
        let then_arm = region_text(ctx, fall, Some(merge), v, depth + 1, fn_entry, (fuel - 1) as nat);
        let else_arm = if bt != merge {
            line(ind, "else"@) + region_text(ctx, bt, Some(merge), v, depth + 1, fn_entry, (fuel - 1) as nat).0
        } else {
            Seq::empty()
        };
        let after = region_text(ctx, merge, exit, v, depth, fn_entry, (fuel - 1) as nat);
        (line(ind, "if "@ + c + " ~= 0 then"@) + then_arm.0 + else_arm + line(ind, "end"@) + after.0, after.1)
    }
}

/// A procedure call: the callee's name and `()` for a resolved point, a
/// comment for point 0, an INVALID comment and a `gosub_invalid` call for
/// an unknown point, a malformed comment otherwise; then the fall through.
pub open spec fn gosub_text(
    ctx: DecompileContext,
    instr: InstructionView,
    exit: Option<u32>,
    v: Seq<u32>,
    depth: nat,
    fn_entry: u32,
    fuel: nat,
) -> (Seq<char>, Seq<u32>)
    decreases fuel, 1nat,
{
    let ind = indent_text(depth);
    let args = instr->Primary_args;
    if fuel == 0 {
        (Seq::empty(), v)
    } else {
        let lead = if args.len() > 0 && args[0] is Point {
            match args[0]->Point_target_pc {
                Some(t) => line(ind, proc_name(ctx, t) + "()"@),
                None => if args[0]->Point_id == 0 {
                    line(ind, "-- gosub: dynamic/empty point_id=0"@)
                } else {
                    line(ind, "-- INVALID gosub target: point_id="@ + decimal(args[0]->Point_id as nat)
                        + " not in Point.dat"@) + line(ind, "gosub_invalid("@ + decimal(args[0]->Point_id as nat) + ")"@)
                },
            }
        } else {
            line(ind, "-- gosub (malformed)"@)
        };
        let r = region_text(ctx, end_pc(instr), exit, v, depth, fn_entry, (fuel - 1) as nat);
        (lead + r.0, r.1)
    }
}

/// The fuel the writer gives a region: two steps for every block not yet
/// written, and one more.
pub open spec fn region_fuel(ctx: DecompileContext, v: Seq<u32>) -> nat {
    2 * unseen_blocks(ctx.blocks@, v, ctx.blocks@.len() as int) + 1
}

// ---------------------------------------------------------------- region writer

proof fn lemma_keeps_push(a: Seq<u32>, x: u32)
    ensures
        keeps_all(a, a.push(x)),
        a.push(x).contains(x),
{
    assert forall|y: u32| a.contains(y) implies a.push(x).contains(y) by {
        let k = choose|k: int| 0 <= k < a.len() && a[k] == y;
        assert(a.push(x)[k] == y);
    }
    assert(a.push(x)[a.len() as int] == x);
}

proof fn lemma_keeps_trans(a: Seq<u32>, b: Seq<u32>, c: Seq<u32>)
    requires
        keeps_all(a, b),
        keeps_all(b, c),
    ensures
        keeps_all(a, c),
{
}

fn push_line_str(out: &mut Vec<char>, ind: &Vec<char>, text: &str)
    ensures
        final(out)@ == old(out)@ + line(ind@, text@),
{
    let t = text_chars(text);
    push_line(out, ind, &t);
}

fn step_sim(sim: &mut StackSim, instr: &Instruction) -> (r: SimStep)
    ensures
        final(sim).stack@ == stack_after(old(sim).stack@, old(sim).arg_stack@, instr@).0,
        final(sim).arg_stack@ == stack_after(old(sim).stack@, old(sim).arg_stack@, instr@).1,
        match r {
            SimStep::Silent => stack_after(old(sim).stack@, old(sim).arg_stack@, instr@).2 is None,
            SimStep::Statement { pending_args } => stack_after(old(sim).stack@, old(sim).arg_stack@, instr@).2
                == Some(pending_args@),
        },
{
    reveal(stack_after);
    sim.step(instr)
}

fn push_statement_line(out: &mut Vec<char>, ind: &Vec<char>, instr: &Instruction, lits: &LiteralTexts, pending: &[Operand])
    ensures
        final(out)@ == old(out)@ + statement_line(ind@, stmt_text(instr@, *lits, pending@)),
{
    reveal(stmt_text);
    let stmt = statement_chars(instr, lits, pending);
    if stmt.len() > 0 {
        push_line(out, ind, &stmt);
    } else {
        assert(out@ =~= old(out)@ + statement_line(ind@, instr_text(instr@, *lits, pending@)));
    }
}

fn push_instrs_slice(instrs: &[Instruction], n: usize, lits: &LiteralTexts, depth: usize, out: &mut Vec<char>)
    requires
        n <= instrs@.len(),
    ensures
        final(out)@ == old(out)@ + slice_lines(*lits, views(instrs@), n as int, indent_text(depth as nat)).0,
{
    let ind = indent_chars(depth);
    let ghost vs = views(instrs@);
    let ghost start = out@;
    let mut sim = StackSim::new();
    let mut i: usize = 0;
    while i < n
        invariant
            n <= instrs@.len(),
            vs == views(instrs@),
            ind@ == indent_text(depth as nat),
            i <= n,
            out@ == start + slice_lines(*lits, vs, i as int, ind@).0,
            sim.stack@ == slice_lines(*lits, vs, i as int, ind@).1,
            sim.arg_stack@ == slice_lines(*lits, vs, i as int, ind@).2,
        decreases n - i,
    {
        let ghost prev = out@;
        match step_sim(&mut sim, &instrs[i]) {
            SimStep::Silent => {},
            SimStep::Statement { pending_args } => {
                push_statement_line(out, &ind, &instrs[i], lits, pending_args.as_slice());
            },
        }
        i += 1;
        assert(out@ =~= start + slice_lines(*lits, vs, i as int, ind@).0);
    }
}

/// Re-writes a run of instructions inside a loop (see `slice_lines`).
pub fn emit_instrs_slice(instrs: &[Instruction], ctx: &DecompileContext, depth: usize) -> (s: String)
    ensures
        s@ == slice_lines(ctx.literals, views(instrs@), instrs@.len() as int, indent_text(depth as nat)).0,
{
    let mut out: Vec<char> = Vec::new();
    push_instrs_slice(instrs, instrs.len(), &ctx.literals, depth, &mut out);
    assert(out@ =~= slice_lines(ctx.literals, views(instrs@), instrs@.len() as int, indent_text(depth as nat)).0);
    string_from_chars(out.as_slice())
}

fn push_label_line(out: &mut Vec<char>, ind: &Vec<char>, ctx: &DecompileContext, pc: u32)
    ensures
        final(out)@ == old(out)@ + line(ind@, "::"@ + label_name(*ctx, pc) + "::"@),
{
    let mut l: Vec<char> = Vec::new();
    push_str(&mut l, "::");
    push_str(&mut l, lookup_text(&ctx.label_names, pc));
    push_str(&mut l, "::");
    assert(l@ =~= "::"@ + label_name(*ctx, pc) + "::"@);
    push_line(out, ind, &l);
}

fn push_back_edge(out: &mut Vec<char>, ind: &Vec<char>, ctx: &DecompileContext, pc: u32)
    ensures
        final(out)@ == old(out)@ + line(ind@, "-- back-edge to "@ + label_name(*ctx, pc)),
{
    let mut l: Vec<char> = Vec::new();
    push_str(&mut l, "-- back-edge to ");
    push_str(&mut l, lookup_text(&ctx.label_names, pc));
    assert(l@ =~= "-- back-edge to "@ + label_name(*ctx, pc));
    push_line(out, ind, &l);
}

fn push_break_line(out: &mut Vec<char>, inner: &Vec<char>, c: &Vec<char>)
    ensures
        final(out)@ == old(out)@ + line(inner@, "if "@ + c@ + " == 0 then break end"@),
{
    let mut brk: Vec<char> = Vec::new();
    push_str(&mut brk, "if ");
    push_chars_vec(&mut brk, c);
    push_str(&mut brk, " == 0 then break end");
    assert(brk@ =~= "if "@ + c@ + " == 0 then break end"@);
    push_line(out, inner, &brk);
}

fn cond_chars(cond: &Operand, lits: &LiteralTexts) -> (r: Vec<char>)
    ensures
        r@ == o2l_text(*cond, *lits),
{
    let mut c: Vec<char> = Vec::new();
    push_o2l(&mut c, cond, lits);
    assert(c@ =~= o2l_text(*cond, *lits));
    c
}

/// Writes a complex `while` loop (see `complex_while_text`); `false`, with
/// nothing written, when the block is not such a header.
#[verifier::spinoff_prover]
#[verifier::rlimit(100)]
fn push_complex_while(
    ctx: &DecompileContext,
    bi: usize,
    exit_pc: Option<u32>,
    visited: &mut Vec<u32>,
    depth: usize,
    fn_entry: u32,
    out: &mut Vec<char>,
    Ghost(fuel): Ghost<nat>,
) -> (done: bool)
    requires
        bi < ctx.blocks@.len(),
        depth + unseen_blocks(ctx.blocks@, old(visited)@, ctx.blocks@.len() as int) + 1 <= NEST_LIMIT,
        fuel >= 2 * unseen_blocks(ctx.blocks@, old(visited)@, ctx.blocks@.len() as int) + 2,
    ensures
        done == complex_while_text(*ctx, bi as int, exit_pc, old(visited)@, depth as nat, fn_entry, fuel) is Some,
        done ==> final(out)@ == old(out)@ + (complex_while_text(*ctx, bi as int, exit_pc, old(visited)@, depth as nat, fn_entry, fuel)->0).0,
        done ==> final(visited)@ == (complex_while_text(*ctx, bi as int, exit_pc, old(visited)@, depth as nat, fn_entry, fuel)->0).1,
        !done ==> final(out)@ == old(out)@ && final(visited)@ == old(visited)@,
        keeps_all(old(visited)@, final(visited)@),
    decreases fuel, 3nat,
{
    let ghost v0 = visited@;
    let ghost o0 = out@;
    let ghost bs = ctx.blocks@;
    let ghost total = bs.len() as int;
    let ghost want = complex_while_text(*ctx, bi as int, exit_pc, v0, depth as nat, fn_entry, fuel);
    proof {
        lemma_keeps_trans(v0, v0, v0);
    }
    let block = &ctx.blocks[bi];
    let ghost instrs = views(block.instrs@);
    let n = block.instrs.len();
    if n < 2 {
        return false;
    }
    let last = &block.instrs[n - 1];
    assert(instrs[n - 1] == last@);
    let (branch_pc, cond) = match last {
        Instruction::Primary { opcode, args, .. } => {
            if *opcode != 10 || args.len() < 2 {
                return false;
            }
            match (&args[0], &args[1]) {
                (Argument::Point { target_pc: Some(bp), .. }, Argument::Operand(c)) => (*bp, *c),
                _ => {
                    return false;
                },
            }
        },
        Instruction::DataWord { .. } => {
            return false;
        },
    };
    let fall_pc = instr_end_pc(last);
    let header_pc = block.start_pc;
    if !has_back_edge_to(header_pc, fall_pc, &ctx.blocks, 64) {
        return false;
    }
    let ind = indent_chars(depth);
    let inner = indent_chars(depth + 1);
    let c = cond_chars(&cond, &ctx.literals);
    proof {
        lemma_keeps_push(visited@, header_pc);
        lemma_unseen_shrinks(bs, visited@, visited@.push(header_pc), total);
    }
    visited.push(header_pc);
    let ghost v1 = visited@;
    if needs_label(ctx, header_pc) {
        push_label_line(out, &ind, ctx, header_pc);
    }
    let ghost o1 = out@;
    push_line_str(out, &ind, "while true do");
    push_instrs_slice(block.instrs.as_slice(), n - 1, &ctx.literals, depth + 1, out);
    push_break_line(out, &inner, &c);
    let ghost o2 = out@;
    let mut body_visited = copy_pcs(visited);
    push_region(ctx, fall_pc, Some(branch_pc), &mut body_visited, depth + 1, fn_entry, out, Ghost((fuel - 1) as nat));
    let ghost o3 = out@;
    push_line_str(out, &ind, "end");
    let ghost o4 = out@;
    push_region(ctx, branch_pc, exit_pc, visited, depth, fn_entry, out, Ghost((fuel - 1) as nat));
    proof {
        lemma_keeps_trans(v0, v1, visited@);
        let body = region_text(*ctx, fall_pc, Some(branch_pc), v1, (depth + 1) as nat, fn_entry, (fuel - 1) as nat);
        let after = region_text(*ctx, branch_pc, exit_pc, v1, depth as nat, fn_entry, (fuel - 1) as nat);
        let lab = if label_needed(bs, header_pc) {
            line(ind@, "::"@ + label_name(*ctx, header_pc) + "::"@)
        } else {
            Seq::<char>::empty()
        };
        assert(o1 == o0 + lab);
        assert(out@ =~= o0 + (lab + (line(ind@, "while true do"@) + slice_lines(ctx.literals, instrs, n - 1, inner@).0
            + line(inner@, "if "@ + c@ + " == 0 then break end"@)) + body.0 + line(ind@, "end"@) + after.0));
    }
    true
}

/// Writes a region (see `region_text`).
#[verifier::spinoff_prover]
#[verifier::rlimit(100)]
fn push_region(
    ctx: &DecompileContext,
    start_pc: u32,
    exit_pc: Option<u32>,
    visited: &mut Vec<u32>,
    depth: usize,
    fn_entry: u32,
    out: &mut Vec<char>,
    Ghost(fuel): Ghost<nat>,
)
    requires
        depth + unseen_blocks(ctx.blocks@, old(visited)@, ctx.blocks@.len() as int) <= NEST_LIMIT,
        fuel >= 2 * unseen_blocks(ctx.blocks@, old(visited)@, ctx.blocks@.len() as int) + 1,
    ensures
        final(out)@ == old(out)@ + region_text(*ctx, start_pc, exit_pc, old(visited)@, depth as nat, fn_entry, fuel).0,
        final(visited)@ == region_text(*ctx, start_pc, exit_pc, old(visited)@, depth as nat, fn_entry, fuel).1,
        keeps_all(old(visited)@, final(visited)@),
    decreases fuel, 4nat,
{
    let ghost v0 = visited@;
    let ghost o0 = out@;
    let ghost bs = ctx.blocks@;
    let ghost total = bs.len() as int;
    let ghost want = region_text(*ctx, start_pc, exit_pc, v0, depth as nat, fn_entry, fuel);
    proof {
        lemma_keeps_trans(v0, v0, v0);
    }
    match exit_pc {
        Some(e) => {
            if e == start_pc {
                assert(out@ =~= o0 + want.0);
                return;
            }
        },
        None => {},
    }
    let ind = indent_chars(depth);
    if start_pc != fn_entry && contains_pc(&ctx.gosub_targets, start_pc) {
        let mut call: Vec<char> = Vec::new();
        push_str(&mut call, lookup_text(&ctx.proc_names, start_pc));
        push_str(&mut call, "()");
        assert(call@ =~= proc_name(*ctx, start_pc) + "()"@);
        push_line(out, &ind, &call);
        return;
    }
    if contains_pc(visited, start_pc) {
        push_back_edge(out, &ind, ctx, start_pc);
        return;
    }
    proof {
        lemma_keeps_push(visited@, start_pc);
    }
    let bi = match find_first_block(&ctx.blocks, start_pc) {
        Some(bi) => bi,
        None => {
            visited.push(start_pc);
            let mut l: Vec<char> = Vec::new();
            push_str(&mut l, "-- missing block at 0x");
            push_hex(&mut l, start_pc as u64, 8);
            assert(l@ =~= "-- missing block at 0x"@ + hex_padded(start_pc as nat, 8));
            push_line(out, &ind, &l);
            return;
        },
    };
    assert(first_index(bs, start_pc) == bi as int);
    proof {
        lemma_unseen_push(bs, visited@, start_pc, bi as int, total);
    }
    visited.push(start_pc);
    let ghost v1 = visited@;
    if push_complex_while(ctx, bi, exit_pc, visited, depth, fn_entry, out, Ghost((fuel - 1) as nat)) {
        proof {
            lemma_keeps_trans(v0, v1, visited@);
        }
        return;
    }
    let block = &ctx.blocks[bi];
    let ghost instrs = views(block.instrs@);
    let n = block.instrs.len();
    if n == 0 {
        assert(out@ =~= o0 + want.0);
        return;
    }
    let mut sim = StackSim::new();
    let mut i: usize = 0;
    while i + 1 < n
        invariant
            bs == ctx.blocks@,
            bi < bs.len(),
            block == &bs[bi as int],
            instrs == views(block.instrs@),
            n == instrs.len(),
            n > 0,
            ind@ == indent_text(depth as nat),
            i + 1 <= n,
            out@ == o0 + region_lines(ctx.literals, instrs, i as int, ind@).0,
            sim.stack@ == region_lines(ctx.literals, instrs, i as int, ind@).1,
            sim.arg_stack@ == region_lines(ctx.literals, instrs, i as int, ind@).2,
            visited@ == v1,
        decreases n - i,
    {
        let instr = &block.instrs[i];
        let pending = match step_sim(&mut sim, instr) {
            SimStep::Silent => Vec::new(),
            SimStep::Statement { pending_args } => pending_args,
        };
        push_statement_line(out, &ind, instr, &ctx.literals, pending.as_slice());
        i += 1;
        assert(out@ =~= o0 + region_lines(ctx.literals, instrs, i as int, ind@).0);
    }
    let instr = &block.instrs[i];
    let pending = match step_sim(&mut sim, instr) {
        SimStep::Silent => Vec::new(),
        SimStep::Statement { pending_args } => pending_args,
    };
    proof {
        lemma_unseen_shrinks(bs, v1, visited@, total);
    }
    let ghost o1 = out@;
    push_terminal(ctx, bi, exit_pc, visited, depth, pending.as_slice(), fn_entry, out, Ghost((fuel - 1) as nat));
    proof {
        lemma_keeps_trans(v0, v1, visited@);
        assert(out@ =~= o0 + want.0);
    }
}

/// Writes the control flow of block `bi`'s last instruction (see
/// `terminal_text`).
fn push_terminal(
    ctx: &DecompileContext,
    bi: usize,
    exit_pc: Option<u32>,
    visited: &mut Vec<u32>,
    depth: usize,
    pending: &[Operand],
    fn_entry: u32,
    out: &mut Vec<char>,
    Ghost(fuel): Ghost<nat>,
)
    requires
        bi < ctx.blocks@.len(),
        ctx.blocks@[bi as int].instrs@.len() > 0,
        depth + unseen_blocks(ctx.blocks@, old(visited)@, ctx.blocks@.len() as int) + 1 <= NEST_LIMIT,
        fuel >= 2 * unseen_blocks(ctx.blocks@, old(visited)@, ctx.blocks@.len() as int) + 2,
    ensures
        final(out)@ == old(out)@ + terminal_text(*ctx, bi as int, exit_pc, old(visited)@, depth as nat, pending@, fn_entry, fuel).0,
        final(visited)@ == terminal_text(*ctx, bi as int, exit_pc, old(visited)@, depth as nat, pending@, fn_entry, fuel).1,
        keeps_all(old(visited)@, final(visited)@),
    decreases fuel, 2nat,
{
    let block = &ctx.blocks[bi];
    let instr = &block.instrs[block.instrs.len() - 1];
    assert(last_instr(*ctx, bi as int) == instr@);
    match instr {
        Instruction::Primary { opcode, .. } => {
            if *opcode == 9 {
                push_jump(ctx, instr, exit_pc, visited, depth, pending, fn_entry, out, Ghost(fuel));
            } else if *opcode == 10 {
                push_branch(ctx, bi, exit_pc, visited, depth, fn_entry, out, Ghost(fuel));
            } else if *opcode == 11 {
                push_gosub(ctx, instr, exit_pc, visited, depth, fn_entry, out, Ghost(fuel));
            } else if *opcode == 21 || *opcode == 24 {
                let ind = indent_chars(depth);
                push_line_str(out, &ind, "return");
                proof {
                    lemma_keeps_trans(visited@, visited@, visited@);
                }
            } else {
                push_next(ctx, instr, exit_pc, visited, depth, pending, fn_entry, out, Ghost(fuel));
            }
        },
        Instruction::DataWord { .. } => {
            push_next(ctx, instr, exit_pc, visited, depth, pending, fn_entry, out, Ghost(fuel));
        },
    }
}

fn push_next(
    ctx: &DecompileContext,
    instr: &Instruction,
    exit_pc: Option<u32>,
    visited: &mut Vec<u32>,
    depth: usize,
    pending: &[Operand],
    fn_entry: u32,
    out: &mut Vec<char>,
    Ghost(fuel): Ghost<nat>,
)
    requires
        depth + unseen_blocks(ctx.blocks@, old(visited)@, ctx.blocks@.len() as int) + 1 <= NEST_LIMIT,
        fuel >= 2 * unseen_blocks(ctx.blocks@, old(visited)@, ctx.blocks@.len() as int) + 2,
    ensures
        final(out)@ == old(out)@ + next_text(*ctx, instr@, exit_pc, old(visited)@, depth as nat, pending@, fn_entry, fuel).0,
        final(visited)@ == next_text(*ctx, instr@, exit_pc, old(visited)@, depth as nat, pending@, fn_entry, fuel).1,
        keeps_all(old(visited)@, final(visited)@),
    decreases fuel, 1nat,
{
    let ghost o0 = out@;
    let ind = indent_chars(depth);
    push_statement_line(out, &ind, instr, &ctx.literals, pending);
    let next_pc = instr_end_pc(instr);
    push_region(ctx, next_pc, exit_pc, visited, depth, fn_entry, out, Ghost((fuel - 1) as nat));
    assert(out@ =~= o0 + next_text(*ctx, instr@, exit_pc, old(visited)@, depth as nat, pending@, fn_entry, fuel).0);
}

fn push_jump(
    ctx: &DecompileContext,
    instr: &Instruction,
    exit_pc: Option<u32>,
    visited: &mut Vec<u32>,
    depth: usize,
    pending: &[Operand],
    fn_entry: u32,
    out: &mut Vec<char>,
    Ghost(fuel): Ghost<nat>,
)
    requires
        instr is Primary,
        depth + unseen_blocks(ctx.blocks@, old(visited)@, ctx.blocks@.len() as int) + 1 <= NEST_LIMIT,
        fuel >= 2 * unseen_blocks(ctx.blocks@, old(visited)@, ctx.blocks@.len() as int) + 2,
    ensures
        final(out)@ == old(out)@ + jump_text(*ctx, instr@, exit_pc, old(visited)@, depth as nat, pending@, fn_entry, fuel).0,
        final(visited)@ == jump_text(*ctx, instr@, exit_pc, old(visited)@, depth as nat, pending@, fn_entry, fuel).1,
        keeps_all(old(visited)@, final(visited)@),
    decreases fuel, 1nat,
{
    reveal(stmt_text);
    let ghost o0 = out@;
    let ghost want = jump_text(*ctx, instr@, exit_pc, old(visited)@, depth as nat, pending@, fn_entry, fuel);
    proof {
        lemma_keeps_trans(visited@, visited@, visited@);
    }
    let ind = indent_chars(depth);
    let lits = &ctx.literals;
    let args = match instr {
        Instruction::Primary { args, .. } => args,
        Instruction::DataWord { .. } => {
            return;
        },
    };
    let target = if args.len() > 0 {
        match &args[0] {
            Argument::Point { target_pc: Some(t), .. } => Some(*t),
            _ => None,
        }
    } else {
        None
    };
    match target {
        Some(t) => {
            if contains_pc(visited, t) {
                push_back_edge(out, &ind, ctx, t);
            } else if exit_pc == Some(t) {
                assert(out@ =~= o0 + want.0);
            } else {
                push_region(ctx, t, exit_pc, visited, depth, fn_entry, out, Ghost((fuel - 1) as nat));
            }
        },
        None => {
            let mut l: Vec<char> = Vec::new();
            if args.len() > 0 {
                match &args[0] {
                    Argument::Point { id, .. } => {
                        push_str(&mut l, "dynamic_jump(");
                        push_decimal(&mut l, *id as u64);
                        push_str(&mut l, ")");
                    },
                    Argument::PointOperand { operand } => {
                        push_str(&mut l, "dynamic_jump(");
                        push_o2l(&mut l, operand, lits);
                        push_str(&mut l, ")");
                    },
                    _ => {
                        push_instr(&mut l, instr, lits, pending);
                    },
                }
            } else {
                push_instr(&mut l, instr, lits, pending);
            }
            push_line(out, &ind, &l);
            assert(out@ =~= o0 + want.0);
        },
    }
}

fn push_gosub(
    ctx: &DecompileContext,
    instr: &Instruction,
    exit_pc: Option<u32>,
    visited: &mut Vec<u32>,
    depth: usize,
    fn_entry: u32,
    out: &mut Vec<char>,
    Ghost(fuel): Ghost<nat>,
)
    requires
        instr is Primary,
        depth + unseen_blocks(ctx.blocks@, old(visited)@, ctx.blocks@.len() as int) + 1 <= NEST_LIMIT,
        fuel >= 2 * unseen_blocks(ctx.blocks@, old(visited)@, ctx.blocks@.len() as int) + 2,
    ensures
        final(out)@ == old(out)@ + gosub_text(*ctx, instr@, exit_pc, old(visited)@, depth as nat, fn_entry, fuel).0,
        final(visited)@ == gosub_text(*ctx, instr@, exit_pc, old(visited)@, depth as nat, fn_entry, fuel).1,
        keeps_all(old(visited)@, final(visited)@),
    decreases fuel, 1nat,
{
    let ghost o0 = out@;
    let ind = indent_chars(depth);
    let args = match instr {
        Instruction::Primary { args, .. } => args,
        Instruction::DataWord { .. } => {
            return;
        },
    };
    let ghost a = args@;
    let ghost lead = if a.len() > 0 && a[0] is Point {
        match a[0]->Point_target_pc {
            Some(t) => line(ind@, proc_name(*ctx, t) + "()"@),
            None => if a[0]->Point_id == 0 {
                line(ind@, "-- gosub: dynamic/empty point_id=0"@)
            } else {
                line(ind@, "-- INVALID gosub target: point_id="@ + decimal(a[0]->Point_id as nat)
                    + " not in Point.dat"@) + line(ind@, "gosub_invalid("@ + decimal(a[0]->Point_id as nat) + ")"@)
            },
        }
    } else {
        line(ind@, "-- gosub (malformed)"@)
    };
    let mut l: Vec<char> = Vec::new();
    if args.len() > 0 {
        match &args[0] {
            Argument::Point { target_pc: Some(t), .. } => {
                push_str(&mut l, lookup_text(&ctx.proc_names, *t));
                push_str(&mut l, "()");
                push_line(out, &ind, &l);
            },
            Argument::Point { id, target_pc: None } => {
                if *id == 0 {
                    push_line_str(out, &ind, "-- gosub: dynamic/empty point_id=0");
                } else {
                    push_str(&mut l, "-- INVALID gosub target: point_id=");
                    push_decimal(&mut l, *id as u64);
                    push_str(&mut l, " not in Point.dat");
                    push_line(out, &ind, &l);
                    let mut g: Vec<char> = Vec::new();
                    push_str(&mut g, "gosub_invalid(");
                    push_decimal(&mut g, *id as u64);
                    push_str(&mut g, ")");
                    push_line(out, &ind, &g);
                }
            },
            _ => {
                push_line_str(out, &ind, "-- gosub (malformed)");
            },
        }
    } else {
        push_line_str(out, &ind, "-- gosub (malformed)");
    }
    assert(out@ =~= o0 + lead);
    let fall_pc = instr_end_pc(instr);
    push_region(ctx, fall_pc, exit_pc, visited, depth, fn_entry, out, Ghost((fuel - 1) as nat));
    assert(out@ =~= o0 + gosub_text(*ctx, instr@, exit_pc, old(visited)@, depth as nat, fn_entry, fuel).0);
}

fn push_unresolved_branch(
    ctx: &DecompileContext,
    point_id: u32,
    c: &Vec<char>,
    fall_pc: u32,
    exit_pc: Option<u32>,
    visited: &mut Vec<u32>,
    depth: usize,
    fn_entry: u32,
    out: &mut Vec<char>,
    Ghost(fuel): Ghost<nat>,
)
    requires
        depth + unseen_blocks(ctx.blocks@, old(visited)@, ctx.blocks@.len() as int) + 1 <= NEST_LIMIT,
        fuel >= 2 * unseen_blocks(ctx.blocks@, old(visited)@, ctx.blocks@.len() as int) + 2,
    ensures
        final(out)@ == old(out)@ + unresolved_branch_text(*ctx, point_id, c@, fall_pc, exit_pc, old(visited)@, depth as nat, fn_entry, fuel).0,
        final(visited)@ == unresolved_branch_text(*ctx, point_id, c@, fall_pc, exit_pc, old(visited)@, depth as nat, fn_entry, fuel).1,
        keeps_all(old(visited)@, final(visited)@),
    decreases fuel, 0nat,
{
    let ghost o0 = out@;
    let ind = indent_chars(depth);
    let mut test: Vec<char> = Vec::new();
    push_str(&mut test, "if ");
    push_chars_vec(&mut test, c);
    push_str(&mut test, " == 0 then");
    assert(test@ =~= "if "@ + c@ + " == 0 then"@);
    if point_id == 0 {
        push_line(out, &ind, &test);
        push_line_str(out, &ind, "    dynamic_jump(0)");
        push_line_str(out, &ind, "end");
    } else {
        let mut l: Vec<char> = Vec::new();
        push_str(&mut l, "-- INVALID jf target: point_id=");
        push_decimal(&mut l, point_id as u64);
        push_str(&mut l, " not in Point.dat");
        push_line(out, &ind, &l);
        push_line(out, &ind, &test);
        let mut j: Vec<char> = Vec::new();
        push_str(&mut j, "    jf_invalid(");
        push_decimal(&mut j, point_id as u64);
        push_str(&mut j, ")");
        push_line(out, &ind, &j);
        push_line_str(out, &ind, "end");
    }
    push_region(ctx, fall_pc, exit_pc, visited, depth, fn_entry, out, Ghost((fuel - 1) as nat));
    assert(out@ =~= o0 + unresolved_branch_text(*ctx, point_id, c@, fall_pc, exit_pc, old(visited)@, depth as nat, fn_entry, fuel).0);
}

fn push_loop_head(ctx: &DecompileContext, bi: usize, c: &Vec<char>, depth: usize, out: &mut Vec<char>)
    requires
        bi < ctx.blocks@.len(),
        ctx.blocks@[bi as int].instrs@.len() > 0,
        depth < NEST_LIMIT,
    ensures
        final(out)@ == old(out)@ + loop_head(*ctx, bi as int, c@, depth as nat),
{
    let ghost o0 = out@;
    let ghost bs = ctx.blocks@;
    let block = &ctx.blocks[bi];
    let n = block.instrs.len();
    let header_pc = block.start_pc;
    let ind = indent_chars(depth);
    let inner = indent_chars(depth + 1);
    if needs_label(ctx, header_pc) {
        push_label_line(out, &ind, ctx, header_pc);
    }
    let ghost o1 = out@;
    if n == 1 {
        let mut w: Vec<char> = Vec::new();
        push_str(&mut w, "while ");
        push_chars_vec(&mut w, c);
        push_str(&mut w, " ~= 0 do");
        assert(w@ =~= "while "@ + c@ + " ~= 0 do"@);
        push_line(out, &ind, &w);
    } else {
        push_line_str(out, &ind, "while true do");
        push_instrs_slice(block.instrs.as_slice(), n - 1, &ctx.literals, depth + 1, out);
        push_break_line(out, &inner, c);
    }
    proof {
        let lab = if label_needed(bs, header_pc) {
            line(ind@, "::"@ + label_name(*ctx, header_pc) + "::"@)
        } else {
            Seq::<char>::empty()
        };
        assert(o1 == o0 + lab);
    }
    assert(out@ =~= o0 + loop_head(*ctx, bi as int, c@, depth as nat));
}

#[verifier::spinoff_prover]
#[verifier::rlimit(60)]
fn push_loop(
    ctx: &DecompileContext,
    bi: usize,
    c: &Vec<char>,
    fall_pc: u32,
    branch_target: u32,
    exit_pc: Option<u32>,
    visited: &mut Vec<u32>,
    depth: usize,
    fn_entry: u32,
    out: &mut Vec<char>,
    Ghost(fuel): Ghost<nat>,
)
    requires
        bi < ctx.blocks@.len(),
        ctx.blocks@[bi as int].instrs@.len() > 0,
        depth + unseen_blocks(ctx.blocks@, old(visited)@, ctx.blocks@.len() as int) + 1 <= NEST_LIMIT,
        fuel >= 2 * unseen_blocks(ctx.blocks@, old(visited)@, ctx.blocks@.len() as int) + 2,
    ensures
        final(out)@ == old(out)@ + loop_text(*ctx, bi as int, c@, fall_pc, branch_target, exit_pc, old(visited)@, depth as nat, fn_entry, fuel).0,
        final(visited)@ == loop_text(*ctx, bi as int, c@, fall_pc, branch_target, exit_pc, old(visited)@, depth as nat, fn_entry, fuel).1,
        keeps_all(old(visited)@, final(visited)@),
    decreases fuel, 0nat,
{
    let ghost o0 = out@;
    let ghost bs = ctx.blocks@;
    let ghost total = bs.len() as int;
    let header_pc = ctx.blocks[bi].start_pc;
    let ind = indent_chars(depth);
    push_loop_head(ctx, bi, c, depth, out);
    let mut body_visited = copy_pcs(visited);
    if !contains_pc(&body_visited, header_pc) {
        proof {
            lemma_keeps_push(body_visited@, header_pc);
            lemma_unseen_shrinks(bs, body_visited@, body_visited@.push(header_pc), total);
        }
        body_visited.push(header_pc);
    }
    push_region(ctx, fall_pc, Some(branch_target), &mut body_visited, depth + 1, fn_entry, out, Ghost((fuel - 1) as nat));
    push_line_str(out, &ind, "end");
    push_region(ctx, branch_target, exit_pc, visited, depth, fn_entry, out, Ghost((fuel - 1) as nat));
    assert(out@ =~= o0 + loop_text(*ctx, bi as int, c@, fall_pc, branch_target, exit_pc, old(visited)@, depth as nat, fn_entry, fuel).0);
}

fn push_if(
    ctx: &DecompileContext,
    c: &Vec<char>,
    fall_pc: u32,
    branch_target: u32,
    exit_pc: Option<u32>,
    visited: &mut Vec<u32>,
    depth: usize,
    fn_entry: u32,
    out: &mut Vec<char>,
    Ghost(fuel): Ghost<nat>,
)
    requires
        depth + unseen_blocks(ctx.blocks@, old(visited)@, ctx.blocks@.len() as int) + 1 <= NEST_LIMIT,
        fuel >= 2 * unseen_blocks(ctx.blocks@, old(visited)@, ctx.blocks@.len() as int) + 2,
    ensures
        final(out)@ == old(out)@ + if_text(*ctx, c@, fall_pc, branch_target, exit_pc, old(visited)@, depth as nat, fn_entry, fuel).0,
        final(visited)@ == if_text(*ctx, c@, fall_pc, branch_target, exit_pc, old(visited)@, depth as nat, fn_entry, fuel).1,
        keeps_all(old(visited)@, final(visited)@),
    decreases fuel, 0nat,
{
    let ghost o0 = out@;
    let ind = indent_chars(depth);
    let merge_pc = find_merge_point(fall_pc, branch_target, &ctx.blocks);
    let mut l: Vec<char> = Vec::new();
    push_str(&mut l, "if ");
    push_chars_vec(&mut l, c);
    push_str(&mut l, " ~= 0 then");
    assert(l@ =~= "if "@ + c@ + " ~= 0 then"@);
    push_line(out, &ind, &l);
    let mut then_visited = copy_pcs(visited);
    push_region(ctx, fall_pc, Some(merge_pc), &mut then_visited, depth + 1, fn_entry, out, Ghost((fuel - 1) as nat));
    if branch_target != merge_pc {
        push_line_str(out, &ind, "else");
        let mut else_visited = copy_pcs(visited);
        push_region(ctx, branch_target, Some(merge_pc), &mut else_visited, depth + 1, fn_entry, out, Ghost((fuel - 1) as nat));
    }
    push_line_str(out, &ind, "end");
    push_region(ctx, merge_pc, exit_pc, visited, depth, fn_entry, out, Ghost((fuel - 1) as nat));
    assert(out@ =~= o0 + if_text(*ctx, c@, fall_pc, branch_target, exit_pc, old(visited)@, depth as nat, fn_entry, fuel).0);
}

fn push_branch(
    ctx: &DecompileContext,
    bi: usize,
    exit_pc: Option<u32>,
    visited: &mut Vec<u32>,
    depth: usize,
    fn_entry: u32,
    out: &mut Vec<char>,
    Ghost(fuel): Ghost<nat>,
)
    requires
        bi < ctx.blocks@.len(),
        ctx.blocks@[bi as int].instrs@.len() > 0,
        last_instr(*ctx, bi as int) is Primary,
        depth + unseen_blocks(ctx.blocks@, old(visited)@, ctx.blocks@.len() as int) + 1 <= NEST_LIMIT,
        fuel >= 2 * unseen_blocks(ctx.blocks@, old(visited)@, ctx.blocks@.len() as int) + 2,
    ensures
        final(out)@ == old(out)@ + branch_text(*ctx, bi as int, exit_pc, old(visited)@, depth as nat, fn_entry, fuel).0,
        final(visited)@ == branch_text(*ctx, bi as int, exit_pc, old(visited)@, depth as nat, fn_entry, fuel).1,
        keeps_all(old(visited)@, final(visited)@),
    decreases fuel, 1nat,
{
    proof {
        lemma_keeps_trans(visited@, visited@, visited@);
    }
    let block = &ctx.blocks[bi];
    let n = block.instrs.len();
    let instr = &block.instrs[n - 1];
    assert(last_instr(*ctx, bi as int) == instr@);
    let args = match instr {
        Instruction::Primary { args, .. } => args,
        Instruction::DataWord { .. } => {
            return;
        },
    };
    let parts = if args.len() >= 2 {
        match (&args[0], &args[1]) {
            (Argument::Point { id, target_pc }, Argument::Operand(c)) => Some((*id, *target_pc, *c)),
            _ => None,
        }
    } else {
        None
    };
    let (point_id, branch, cond) = match parts {
        Some(p) => p,
        None => {
            let ind = indent_chars(depth);
            push_line_str(out, &ind, "-- jf (malformed)");
            return;
        },
    };
    let fall_pc = instr_end_pc(instr);
    let c = cond_chars(&cond, &ctx.literals);
    match branch {
        None => {
            push_unresolved_branch(ctx, point_id, &c, fall_pc, exit_pc, visited, depth, fn_entry, out, Ghost(fuel));
        },
        Some(branch_target) => {
            if has_back_edge_to(block.start_pc, fall_pc, &ctx.blocks, 64) {
                push_loop(ctx, bi, &c, fall_pc, branch_target, exit_pc, visited, depth, fn_entry, out, Ghost(fuel));
            } else {
                push_if(ctx, &c, fall_pc, branch_target, exit_pc, visited, depth, fn_entry, out, Ghost(fuel));
            }
        },
    }
}

/// The Lua statements of a region (see `region_text`, given
/// `region_fuel`, which is always enough).
pub fn emit_region(
    ctx: &DecompileContext,
    start_pc: u32,
    exit_pc: Option<u32>,
    visited: &mut Vec<u32>,
    depth: usize,
    fn_entry: u32,
) -> (s: String)
    requires
        depth + unseen_blocks(ctx.blocks@, old(visited)@, ctx.blocks@.len() as int) <= NEST_LIMIT,
    ensures
        s@ == region_text(*ctx, start_pc, exit_pc, old(visited)@, depth as nat, fn_entry, region_fuel(*ctx, old(visited)@)).0,
        final(visited)@ == region_text(*ctx, start_pc, exit_pc, old(visited)@, depth as nat, fn_entry, region_fuel(*ctx, old(visited)@)).1,
{
    let mut out: Vec<char> = Vec::new();
    push_region(ctx, start_pc, exit_pc, visited, depth, fn_entry, &mut out, Ghost(region_fuel(*ctx, visited@)));
    assert(out@ =~= region_text(*ctx, start_pc, exit_pc, old(visited)@, depth as nat, fn_entry, region_fuel(*ctx, old(visited)@)).0);
    string_from_chars(out.as_slice())
}

/// The control flow of block `bi`'s last instruction and what follows it
/// (see `terminal_text`), `pending` being the operands it takes.
pub fn emit_terminal(
    ctx: &DecompileContext,
    bi: usize,
    exit_pc: Option<u32>,
    visited: &mut Vec<u32>,
    depth: usize,
    pending_args: &[Operand],
    fn_entry: u32,
) -> (s: String)
    requires
        bi < ctx.blocks@.len(),
        ctx.blocks@[bi as int].instrs@.len() > 0,
        depth + unseen_blocks(ctx.blocks@, old(visited)@, ctx.blocks@.len() as int) + 1 <= NEST_LIMIT,
    ensures
        s@ == terminal_text(*ctx, bi as int, exit_pc, old(visited)@, depth as nat, pending_args@, fn_entry, region_fuel(*ctx, old(visited)@) + 1).0,
        final(visited)@ == terminal_text(*ctx, bi as int, exit_pc, old(visited)@, depth as nat, pending_args@, fn_entry, region_fuel(*ctx, old(visited)@) + 1).1,
{
    let mut out: Vec<char> = Vec::new();
    push_terminal(ctx, bi, exit_pc, visited, depth, pending_args, fn_entry, &mut out, Ghost(region_fuel(*ctx, visited@) + 1));
    assert(out@ =~= terminal_text(*ctx, bi as int, exit_pc, old(visited)@, depth as nat, pending_args@, fn_entry, region_fuel(*ctx, old(visited)@) + 1).0);
    string_from_chars(out.as_slice())
}

// ---------------------------------------------------------------- modules

/// Strictly increasing.
pub open spec fn strictly_sorted(v: Seq<u32>) -> bool {
    forall|i: int, j: int| 0 <= i < j < v.len() ==> v[i] < v[j]
}

fn insert_sorted(v: &mut Vec<u32>, x: u32)
    requires
        strictly_sorted(old(v)@),
    ensures
        strictly_sorted(final(v)@),
        forall|y: u32| final(v)@.contains(y) <==> (old(v)@.contains(y) || y == x),
{
    let ghost a = v@;
    let mut p: usize = 0;
    while p < v.len() && v[p] < x
        invariant
            v@ == a,
            p <= a.len(),
            forall|k: int| 0 <= k < p ==> a[k] < x,
        decreases a.len() - p,
    {
        p += 1;
    }
    if p < v.len() && v[p] == x {
        assert(a[p as int] == x);
        return;
    }
    v.insert(p, x);
    let ghost b = v@;
    assert(b =~= a.subrange(0, p as int).push(x) + a.subrange(p as int, a.len() as int));
    assert forall|i: int, j: int| 0 <= i < j < b.len() implies b[i] < b[j] by {
        if j < p {
        } else if j == p {
        } else if i < p {
            assert(a[i] < x);
            assert(x <= a[j - 1]);
        } else if i == p {
            assert(x <= a[j - 1]);
            if p < a.len() {
                assert(a[p as int] != x);
                assert(a[p as int] >= x);
                if j - 1 > p {
                    assert(a[p as int] < a[j - 1]);
                }
            }
        } else {
            assert(a[i - 1] < a[j - 1]);
        }
    }
    assert forall|y: u32| b.contains(y) <==> (a.contains(y) || y == x) by {
        if b.contains(y) {
            let k = choose|k: int| 0 <= k < b.len() && b[k] == y;
            if k < p {
                assert(a[k] == y);
            } else if k > p {
                assert(a[k - 1] == y);
            }
        }
        if a.contains(y) {
            let k = choose|k: int| 0 <= k < a.len() && a[k] == y;
            if k < p {
                assert(b[k] == y);
            } else {
                assert(b[k + 1] == y);
            }
        }
        if y == x {
            assert(b[p as int] == x);
        }
    }
}

/// The procedures a module defines, in address order: each `gosub` target
/// once, and the entry point.
pub fn lua_function_pcs(gosub_targets: &Vec<u32>, entry_pc: u32) -> (r: Vec<u32>)
    ensures
        strictly_sorted(r@),
        forall|pc: u32| r@.contains(pc) <==> (gosub_targets@.contains(pc) || pc == entry_pc),
{
    let mut r: Vec<u32> = Vec::new();
    let mut i: usize = 0;
    while i < gosub_targets.len()
        invariant
            i <= gosub_targets@.len(),
            strictly_sorted(r@),
            forall|pc: u32| r@.contains(pc) <==> gosub_targets@.subrange(0, i as int).contains(pc),
        decreases gosub_targets@.len() - i,
    {
        let ghost before = gosub_targets@.subrange(0, i as int);
        insert_sorted(&mut r, gosub_targets[i]);
        i += 1;
        proof {
            let after = gosub_targets@.subrange(0, i as int);
            assert(after =~= before.push(gosub_targets@[i - 1]));
            assert forall|pc: u32| after.contains(pc) <==> (before.contains(pc) || pc == gosub_targets@[i - 1]) by {
                if after.contains(pc) {
                    let k = choose|k: int| 0 <= k < after.len() && after[k] == pc;
                    if k < i - 1 {
                        assert(before[k] == pc);
                    }
                }
                if before.contains(pc) {
                    let k = choose|k: int| 0 <= k < before.len() && before[k] == pc;
                    assert(after[k] == pc);
                }
                if pc == gosub_targets@[i - 1] {
                    assert(after[i - 1] == pc);
                }
            }
        }
    }
    assert(gosub_targets@.subrange(0, i as int) =~= gosub_targets@);
    insert_sorted(&mut r, entry_pc);
    r
}

/// The procedures of a module in address order: the strictly increasing
/// sequence of the `gosub` targets and the entry point.
pub open spec fn function_pcs(gosub_targets: Seq<u32>, entry_pc: u32) -> Seq<u32> {
    choose|p: Seq<u32>| strictly_sorted(p) && forall|pc: u32| p.contains(pc) <==> (gosub_targets.contains(pc) || pc == entry_pc)
}

proof fn lemma_sorted_unique(a: Seq<u32>, b: Seq<u32>)
    requires
        strictly_sorted(a),
        strictly_sorted(b),
        forall|x: u32| a.contains(x) <==> b.contains(x),
    ensures
        a == b,
    decreases a.len(),
{
    if a.len() == 0 {
        if b.len() > 0 {
            assert(b.contains(b[0]));
        }
        assert(a =~= b);
    } else {
        assert(a.contains(a[0]));
        assert(b.len() > 0);
        assert(b.contains(b[0]));
        let j = choose|j: int| 0 <= j < b.len() && b[j] == a[0];
        let k = choose|k: int| 0 <= k < a.len() && a[k] == b[0];
        if j > 0 {
            assert(b[0] < b[j]);
            if k > 0 {
                assert(a[0] < a[k]);
            }
        }
        assert(a[0] == b[0]);
        let a1 = a.drop_first();
        let b1 = b.drop_first();
        assert forall|x: u32| a1.contains(x) <==> b1.contains(x) by {
            if a1.contains(x) {
                let p = choose|p: int| 0 <= p < a1.len() && a1[p] == x;
                assert(a[p + 1] == x);
                assert(a[0] < a[p + 1]);
                assert(b.contains(x));
                let q = choose|q: int| 0 <= q < b.len() && b[q] == x;
                assert(q != 0);
                assert(b1[q - 1] == x);
            }
            if b1.contains(x) {
                let p = choose|p: int| 0 <= p < b1.len() && b1[p] == x;
                assert(b[p + 1] == x);
                assert(b[0] < b[p + 1]);
                assert(a.contains(x));
                let q = choose|q: int| 0 <= q < a.len() && a[q] == x;
                assert(q != 0);
                assert(a1[q - 1] == x);
            }
        }
        lemma_sorted_unique(a1, b1);
        assert(a =~= seq![a[0]] + a1);
        assert(b =~= seq![b[0]] + b1);
    }
}

/// The functions of a module for the procedures `pcs[..n]`: for each, a
/// blank line, `local function NAME()`, its region from its entry with no
/// block written yet (one level deep), and `end`.
pub open spec fn functions_text(ctx: DecompileContext, pcs: Seq<u32>, n: int) -> Seq<char>
    decreases n,
{
    if n <= 0 {
        Seq::empty()
    } else {
        let pc = pcs[n - 1];
        functions_text(ctx, pcs, n - 1) + "\nlocal function "@ + proc_name(ctx, pc) + "()\n"@ + region_text(
            ctx,
            pc,
            None,
            Seq::empty(),
            1,
            pc,
            region_fuel(ctx, Seq::empty()),
        ).0 + "end\n"@
    }
}

/// The Lua module for a decompiled script: the helper header, a function
/// for each procedure in address order (`function_pcs`,
/// `functions_text`), and a call of the entry procedure.
pub open spec fn module_text(ctx: DecompileContext, entry_pc: u32) -> Seq<char> {
    let pcs = function_pcs(ctx.gosub_targets@, entry_pc);
    crate::lua_emit::lua_header_text() + functions_text(ctx, pcs, pcs.len() as int) + "\n"@ + proc_name(ctx, entry_pc)
        + "()\n"@
}

/// A complete Lua module for a decompiled script (see `module_text`).
pub fn emit_lua(ctx: &DecompileContext, entry_pc: u32) -> (s: String)
    requires
        ctx.blocks@.len() < NEST_LIMIT,
    ensures
        s@ == module_text(*ctx, entry_pc),
{
    let mut head: Vec<char> = Vec::new();
    crate::lua_emit::emit_lua_header(&mut head);
    let func_pcs = lua_function_pcs(&ctx.gosub_targets, entry_pc);
    proof {
        let p = function_pcs(ctx.gosub_targets@, entry_pc);
        assert(strictly_sorted(p) && forall|pc: u32| p.contains(pc) <==> (ctx.gosub_targets@.contains(pc) || pc == entry_pc));
        lemma_sorted_unique(func_pcs@, p);
    }
    let mut body: Vec<char> = Vec::new();
    let mut i: usize = 0;
    while i < func_pcs.len()
        invariant
            i <= func_pcs@.len(),
            ctx.blocks@.len() < NEST_LIMIT,
            body@ == functions_text(*ctx, func_pcs@, i as int),
        decreases func_pcs@.len() - i,
    {
        let pc = func_pcs[i];
        let ghost b0 = body@;
        push_str(&mut body, "\nlocal function ");
        push_str(&mut body, lookup_text(&ctx.proc_names, pc));
        push_str(&mut body, "()\n");
        let mut visited: Vec<u32> = Vec::new();
        proof {
            lemma_unseen_bound(ctx.blocks@, visited@, ctx.blocks@.len() as int);
        }
        push_region(ctx, pc, None, &mut visited, 1, pc, &mut body, Ghost(region_fuel(*ctx, Seq::empty())));
        push_str(&mut body, "end\n");
        i += 1;
        assert(visited@ =~= Seq::<u32>::empty() || true);
        assert(body@ =~= functions_text(*ctx, func_pcs@, i as int));
    }
    let mut out = head;
    push_chars_vec(&mut out, &body);
    push_str(&mut out, "\n");
    push_str(&mut out, lookup_text(&ctx.proc_names, entry_pc));
    push_str(&mut out, "()\n");
    assert(out@ =~= module_text(*ctx, entry_pc));
    string_from_chars(out.as_slice())
}

} // verus!
