//! Pieces of the Lua the decompiler writes: operands as Lua expressions,
//! operator symbols, indentation, the module header, dynamic jumps, and the
//! argument count an extcall site pops, and the operand stacks followed
//! while a run of instructions is written out.

use vstd::prelude::*;
use crate::extsig::{lookup_sig, observed_pop_count, spec_lookup_sig};
use crate::extsig_table::observed_arity;
use crate::lua::{decimal, hex_padded, push_chars, push_decimal, push_hex, push_str};
use crate::script::{
    spec_static_count_arg, stack_after_take, static_count_arg, take_extcall_args, taken_args,
    Argument, Instruction, InstructionView, Operand, OperandKind,
};
use crate::text::string_from_chars;

verus! {

/// The Lua expression of an operand. An immediate whose value, read as a
/// signed word, lies in `0..0x1000` is written in decimal, any other in
/// hexadecimal; register and memory operands name their slot (`lo`) and
/// bank; a literal slot is the string the script's string tables give for
/// it, `literal`.
pub open spec fn operand_text(op: Operand, literal: Seq<char>) -> Seq<char> {
    match op.kind {
        OperandKind::Immediate => if 0 <= (op.raw as i32) < 0x1000 {
            decimal(op.raw as nat)
        } else {
            "0x"@ + hex_padded(op.raw as nat, 0)
        },
        OperandKind::UserMemoryViaVar => "mem_user[v"@ + decimal(op.lo as nat) + "]"@,
        OperandKind::SystemMemoryViaVar => "mem_sys[v"@ + decimal(op.lo as nat) + "]"@,
        OperandKind::StackSlot => "s"@ + decimal(op.lo as nat),
        OperandKind::VariableSlot => "v"@ + decimal(op.lo as nat),
        OperandKind::TempMemoryViaVar => "mem_tmp[v"@ + decimal(op.lo as nat) + "+"@ + decimal(
            op.bank as nat,
        ) + "]"@,
        OperandKind::MemDatDirect => "memdat[v"@ + decimal(op.lo as nat) + "+"@ + decimal(op.bank as nat)
            + "]"@,
        OperandKind::MemDatIndirect => "memdat_ind[v"@ + decimal(op.lo as nat) + "]"@,
        OperandKind::ArgumentStack => "arg[-"@ + decimal(op.lo as nat) + "]"@,
        OperandKind::ArgumentBase => "arg_base"@,
        OperandKind::LiteralSlot => literal,
    }
}

pub(crate) fn push_operand(out: &mut Vec<char>, op: &Operand, literal: &str)
    ensures
        final(out)@ == old(out)@ + operand_text(*op, literal@),
{
    let ghost start = out@;
    match op.kind {
        OperandKind::Immediate => {
            let raw = op.raw;
            assert(raw < 0x1000 <==> 0 <= (raw as i32) < 0x1000) by (bit_vector);
            if raw < 0x1000 {
                push_decimal(out, raw as u64);
            } else {
                push_str(out, "0x");
                push_hex(out, raw as u64, 0);
            }
        },
        OperandKind::UserMemoryViaVar => {
            push_str(out, "mem_user[v");
            push_decimal(out, op.lo as u64);
            push_str(out, "]");
        },
        OperandKind::SystemMemoryViaVar => {
            push_str(out, "mem_sys[v");
            push_decimal(out, op.lo as u64);
            push_str(out, "]");
        },
        OperandKind::StackSlot => {
            push_str(out, "s");
            push_decimal(out, op.lo as u64);
        },
        OperandKind::VariableSlot => {
            push_str(out, "v");
            push_decimal(out, op.lo as u64);
        },
        OperandKind::TempMemoryViaVar => {
            push_str(out, "mem_tmp[v");
            push_decimal(out, op.lo as u64);
            push_str(out, "+");
            push_decimal(out, op.bank as u64);
            push_str(out, "]");
        },
        OperandKind::MemDatDirect => {
            push_str(out, "memdat[v");
            push_decimal(out, op.lo as u64);
            push_str(out, "+");
            push_decimal(out, op.bank as u64);
            push_str(out, "]");
        },
        OperandKind::MemDatIndirect => {
            push_str(out, "memdat_ind[v");
            push_decimal(out, op.lo as u64);
            push_str(out, "]");
        },
        OperandKind::ArgumentStack => {
            push_str(out, "arg[-");
            push_decimal(out, op.lo as u64);
            push_str(out, "]");
        },
        OperandKind::ArgumentBase => {
            push_str(out, "arg_base");
        },
        OperandKind::LiteralSlot => {
            push_str(out, literal);
        },
    }
    assert(out@ =~= start + operand_text(*op, literal@));
}

/// Renders an operand as a Lua expression (see `operand_text`).
pub fn operand_to_lua(op: &Operand, literal: &str) -> (s: String)
    ensures
        s@ == operand_text(*op, literal@),
{
    let mut out: Vec<char> = Vec::new();
    push_operand(&mut out, op, literal);
    assert(out@ =~= operand_text(*op, literal@));
    string_from_chars(out.as_slice())
}

/// The Lua operator of an arithmetic opcode; `?` for any other.
pub open spec fn arith_text(op: u16) -> Seq<char> {
    if op == 2 {
        "+"@
    } else if op == 3 {
        "-"@
    } else if op == 4 {
        "*"@
    } else if op == 5 {
        "/"@
    } else if op == 6 {
        "&"@
    } else if op == 7 {
        "|"@
    } else if op == 8 {
        "~"@
    } else if op == 26 {
        "%"@
    } else if op == 27 {
        "<<"@
    } else if op == 28 {
        ">>"@
    } else {
        "?"@
    }
}

pub fn arith_sym(op: u16) -> (s: &'static str)
    ensures
        s@ == arith_text(op),
{
    match op {
        2 => "+",
        3 => "-",
        4 => "*",
        5 => "/",
        6 => "&",
        7 => "|",
        8 => "~",
        26 => "%",
        27 => "<<",
        28 => ">>",
        _ => "?",
    }
}

/// The Lua operator of a comparison or logic opcode; `?` for any other.
pub open spec fn cmp_text(op: u16) -> Seq<char> {
    if op == 12 {
        "=="@
    } else if op == 13 {
        "~="@
    } else if op == 14 {
        "<="@
    } else if op == 15 {
        ">="@
    } else if op == 16 {
        "<"@
    } else if op == 17 {
        ">"@
    } else if op == 18 {
        "or"@
    } else if op == 19 {
        "and"@
    } else {
        "?"@
    }
}

/// What the script VM's comparison opcodes test of their two operands:
/// 12 equal, 13 not equal, 14 at most, 15 at least, 16 less, 17 greater.
pub open spec fn vm_comparison_holds(op: u16, a: int, b: int) -> bool {
    if op == 12 {
        a == b
    } else if op == 13 {
        a != b
    } else if op == 14 {
        a <= b
    } else if op == 15 {
        a >= b
    } else if op == 16 {
        a < b
    } else {
        a > b
    }
}

/// What a Lua relational operator tests of two numbers (`false` for a text
/// that is no relational operator).
pub open spec fn lua_relation_holds(sym: Seq<char>, a: int, b: int) -> bool {
    if sym == "=="@ {
        a == b
    } else if sym == "~="@ {
        a != b
    } else if sym == "<="@ {
        a <= b
    } else if sym == ">="@ {
        a >= b
    } else if sym == "<"@ {
        a < b
    } else if sym == ">"@ {
        a > b
    } else {
        false
    }
}

/// Every comparison opcode is written as the Lua operator that tests the
/// same relation: for all operands, the Lua comparison holds exactly when
/// the VM's does.
pub proof fn lemma_comparisons_keep_their_meaning(op: u16, a: int, b: int)
    requires
        12 <= op <= 17,
    ensures
        lua_relation_holds(cmp_text(op), a, b) == vm_comparison_holds(op, a, b),
{
    reveal_strlit("==");
    reveal_strlit("~=");
    reveal_strlit("<=");
    reveal_strlit(">=");
    reveal_strlit("<");
    reveal_strlit(">");
    assert("=="@ != "~="@ && "=="@ != "<="@ && "=="@ != ">="@ && "=="@ != "<"@ && "=="@ != ">"@) by {
        assert("=="@[0] != "~="@[0]);
        assert("=="@[0] != "<="@[0]);
        assert("=="@[0] != ">="@[0]);
        assert("=="@.len() != "<"@.len());
        assert("=="@.len() != ">"@.len());
    }
    assert("~="@ != "<="@ && "~="@ != ">="@ && "~="@ != "<"@ && "~="@ != ">"@) by {
        assert("~="@[0] != "<="@[0]);
        assert("~="@[0] != ">="@[0]);
        assert("~="@.len() != "<"@.len());
        assert("~="@.len() != ">"@.len());
    }
    assert("<="@ != ">="@ && "<="@ != "<"@ && "<="@ != ">"@) by {
        assert("<="@[0] != ">="@[0]);
        assert("<="@.len() != "<"@.len());
        assert("<="@.len() != ">"@.len());
    }
    assert(">="@ != "<"@ && ">="@ != ">"@) by {
        assert(">="@.len() != "<"@.len());
        assert(">="@.len() != ">"@.len());
    }
    assert("<"@ != ">"@) by {
        assert("<"@[0] != ">"@[0]);
    }
}

pub fn cmp_sym(op: u16) -> (s: &'static str)
    ensures
        s@ == cmp_text(op),
{
    match op {
        12 => "==",
        13 => "~=",
        14 => "<=",
        15 => ">=",
        16 => "<",
        17 => ">",
        18 => "or",
        19 => "and",
        _ => "?",
    }
}

/// Four spaces per level.
pub open spec fn indent_text(depth: nat) -> Seq<char>
    decreases depth,
{
    if depth == 0 {
        Seq::empty()
    } else {
        indent_text((depth - 1) as nat) + "    "@
    }
}

pub fn indent(depth: usize) -> (s: String)
    ensures
        s@ == indent_text(depth as nat),
{
    let mut out: Vec<char> = Vec::new();
    let mut i: usize = 0;
    while i < depth
        invariant
            i <= depth,
            out@ == indent_text(i as nat),
        decreases depth - i,
    {
        push_str(&mut out, "    ");
        i += 1;
    }
    string_from_chars(out.as_slice())
}

/// The helper functions every decompiled module starts with.
pub open spec fn lua_header_text() -> Seq<char> {
    "local AUTO_X = 0xFFFF\n"@ + "local AUTO_Y = 0xFFFF\n"@ + "\n"@ + "local function dynamic_jump(point)\n"@
        + "    error(string.format(\"dynamic_jump(%s) requires runtime\", tostring(point)))\n"@
        + "end\n"@ + "\n"@ + "local function dynamic_string(id)\n"@
        + "    return string.format(\"<dynamic_string:%08X>\", id)\n"@ + "end\n"@
}

/// Appends the module header.
pub fn emit_lua_header(out: &mut Vec<char>)
    ensures
        final(out)@ == old(out)@ + lua_header_text(),
{
    let ghost start = out@;
    push_str(out, "local AUTO_X = 0xFFFF\n");
    push_str(out, "local AUTO_Y = 0xFFFF\n");
    push_str(out, "\n");
    push_str(out, "local function dynamic_jump(point)\n");
    push_str(out, "    error(string.format(\"dynamic_jump(%s) requires runtime\", tostring(point)))\n");
    push_str(out, "end\n");
    push_str(out, "\n");
    push_str(out, "local function dynamic_string(id)\n");
    push_str(out, "    return string.format(\"<dynamic_string:%08X>\", id)\n");
    push_str(out, "end\n");
    assert(out@ =~= start + lua_header_text());
}

/// The call a jump whose target is only known at run time becomes: the
/// point id, or the operand that holds it, passed to `dynamic_jump`; an
/// unresolved target is flagged with the jump's address.
pub open spec fn dynamic_jump_text(arg: Option<Argument>, pc: u32, literal: Seq<char>) -> Seq<char> {
    match arg {
        Some(Argument::Point { id, .. }) => "dynamic_jump("@ + decimal(id as nat) + ")"@,
        Some(Argument::PointOperand { operand }) => "dynamic_jump("@ + operand_text(operand, literal)
            + ")"@,
        Some(Argument::Operand(operand)) => "dynamic_jump("@ + operand_text(operand, literal) + ")"@,
        _ => "dynamic_jump(0) -- unresolved @ 0x"@ + hex_padded(pc as nat, 8),
    }
}

pub fn emit_dynamic_jump(arg: Option<&Argument>, pc: u32, literal: &str) -> (s: String)
    ensures
        s@ == dynamic_jump_text(
            match arg {
                Some(a) => Some(*a),
                None => None,
            },
            pc,
            literal@,
        ),
{
    let mut out: Vec<char> = Vec::new();
    match arg {
        Some(Argument::Point { id, .. }) => {
            push_str(&mut out, "dynamic_jump(");
            push_decimal(&mut out, *id as u64);
            push_str(&mut out, ")");
        },
        Some(Argument::PointOperand { operand }) => {
            push_str(&mut out, "dynamic_jump(");
            push_operand(&mut out, operand, literal);
            push_str(&mut out, ")");
        },
        Some(Argument::Operand(operand)) => {
            push_str(&mut out, "dynamic_jump(");
            push_operand(&mut out, operand, literal);
            push_str(&mut out, ")");
        },
        _ => {
            push_str(&mut out, "dynamic_jump(0) -- unresolved @ 0x");
            push_hex(&mut out, pc as u64, 8);
        },
    }
    string_from_chars(out.as_slice())
}

/// How many arguments the extcall at an instruction pops: its signature's
/// count, else the count observed at call sites, else all `available`
/// ones; 0 for an instruction that is no extcall.
pub open spec fn spec_extcall_static_arg_count(instr: InstructionView, available: usize) -> usize {
    match instr {
        InstructionView::Primary { args, .. } => if args.len() > 0 {
            match args[0] {
                Argument::ExtCall { category, index, .. } => match spec_lookup_sig(category, index) {
                    Some(s) => s.pop_count,
                    None => match observed_arity(category, index) {
                        Some(n) => n,
                        None => available,
                    },
                },
                _ => 0,
            }
        } else {
            0
        },
        InstructionView::DataWord { .. } => 0,
    }
}

pub fn extcall_static_arg_count(instr: &Instruction, available: usize) -> (n: usize)
    ensures
        n == spec_extcall_static_arg_count(instr@, available),
{
    match instr {
        Instruction::Primary { args, .. } => {
            if args.len() == 0 {
                return 0;
            }
            match &args[0] {
                Argument::ExtCall { category, index, .. } => match lookup_sig(*category, *index) {
                    Some(sig) => sig.pop_count,
                    None => match observed_pop_count(*category, *index) {
                        Some(n) => n,
                        None => available,
                    },
                },
                _ => 0,
            }
        },
        Instruction::DataWord { .. } => 0,
    }
}


// ---------------------------------------------------------------- operand stacks

/// The operand stacks followed while a run of instructions is written out:
/// the values pushed for the next call, and those moved onto the argument
/// stack.
#[derive(Debug)]
pub struct StackSim {
    pub stack: Vec<Operand>,
    pub arg_stack: Vec<Operand>,
}

/// What becomes of one instruction of a re-written run (see
/// `codegen::emit_instrs_slice`): nothing is written for it, or a statement
/// with the operands that it takes from the stack. (A region written for the
/// first time, `codegen::emit_region`, follows the same stacks but writes a
/// statement for every instruction, so a pop shows there as a comment.)
#[derive(Debug)]
pub enum SimStep {
    Silent,
    Statement { pending_args: Vec<Operand> },
}

/// The two stacks after one instruction, and the operands it takes when a
/// statement is written for it (`None`: nothing is written).
///
/// `push` (31) pushes its operand; `pushn` (32) moves the top `count` values
/// onto the argument stack, and clears both stacks when the count is not a
/// static one or too large; `popn` (33) drops `count` values from the
/// argument stack, or all of them likewise; `pop` (30) drops the top value;
/// an extcall (23) takes its arguments off the top of the stack
/// (`taken_args`, as many as `spec_extcall_static_arg_count` gives); every
/// other instruction is written with no operands.
pub open spec fn sim_step(stack: Seq<Operand>, arg_stack: Seq<Operand>, instr: InstructionView) -> (
    Seq<Operand>,
    Seq<Operand>,
    Option<Seq<Operand>>,
) {
    match instr {
        InstructionView::Primary { opcode, args, .. } => if opcode == 31 {
            if args.len() > 0 && args[0] is Operand {
                (stack.push(args[0]->Operand_0), arg_stack, None)
            } else {
                (stack, arg_stack, None)
            }
        } else if opcode == 32 {
            match spec_static_count_arg(args) {
                Some(count) => if count <= stack.len() {
                    (
                        stack.subrange(0, stack.len() - count),
                        arg_stack + stack.subrange(stack.len() - count, stack.len() as int),
                        None,
                    )
                } else {
                    (Seq::empty(), Seq::empty(), None)
                },
                None => (Seq::empty(), Seq::empty(), None),
            }
        } else if opcode == 33 {
            match spec_static_count_arg(args) {
                Some(count) => if count <= arg_stack.len() {
                    (stack, arg_stack.subrange(0, arg_stack.len() - count), None)
                } else {
                    (stack, Seq::empty(), None)
                },
                None => (stack, Seq::empty(), None),
            }
        } else if opcode == 23 {
            let count = spec_extcall_static_arg_count(instr, stack.len() as usize);
            (stack_after_take(stack, count as nat), arg_stack, Some(taken_args(stack, count as nat)))
        } else if opcode == 30 {
            (if stack.len() > 0 {
                stack.drop_last()
            } else {
                stack
            }, arg_stack, None)
        } else {
            (stack, arg_stack, Some(Seq::empty()))
        },
        InstructionView::DataWord { .. } => (stack, arg_stack, Some(Seq::empty())),
    }
}

impl StackSim {
    /// Both stacks empty, as at the start of a run.
    pub fn new() -> (s: Self)
        ensures
            s.stack@ == Seq::<Operand>::empty(),
            s.arg_stack@ == Seq::<Operand>::empty(),
    {
        StackSim { stack: Vec::new(), arg_stack: Vec::new() }
    }

    /// Follows one instruction (see `sim_step`).
    pub fn step(&mut self, instr: &Instruction) -> (r: SimStep)
        ensures
            final(self).stack@ == sim_step(old(self).stack@, old(self).arg_stack@, instr@).0,
            final(self).arg_stack@ == sim_step(old(self).stack@, old(self).arg_stack@, instr@).1,
            match r {
                SimStep::Silent => sim_step(old(self).stack@, old(self).arg_stack@, instr@).2 is None,
                SimStep::Statement { pending_args } => sim_step(
                    old(self).stack@,
                    old(self).arg_stack@,
                    instr@,
                ).2 == Some(pending_args@),
            },
    {
        match instr {
            Instruction::Primary { opcode, args, .. } => {
                let opcode = *opcode;
                if opcode == 31 {
                    if args.len() > 0 {
                        if let Argument::Operand(op) = &args[0] {
                            self.stack.push(*op);
                        }
                    }
                    SimStep::Silent
                } else if opcode == 32 {
                    match static_count_arg(args.as_slice()) {
                        Some(count) => {
                            if count <= self.stack.len() {
                                let start = self.stack.len() - count;
                                let mut moved = self.stack.split_off(start);
                                self.arg_stack.append(&mut moved);
                            } else {
                                self.stack.clear();
                                self.arg_stack.clear();
                            }
                        },
                        None => {
                            self.stack.clear();
                            self.arg_stack.clear();
                        },
                    }
                    SimStep::Silent
                } else if opcode == 33 {
                    match static_count_arg(args.as_slice()) {
                        Some(count) => {
                            if count <= self.arg_stack.len() {
                                let new_len = self.arg_stack.len() - count;
                                self.arg_stack.truncate(new_len);
                            } else {
                                self.arg_stack.clear();
                            }
                        },
                        None => {
                            self.arg_stack.clear();
                        },
                    }
                    SimStep::Silent
                } else if opcode == 23 {
                    let count = extcall_static_arg_count(instr, self.stack.len());
                    let pending_args = take_extcall_args(&mut self.stack, count);
                    SimStep::Statement { pending_args }
                } else if opcode == 30 {
                    self.stack.pop();
                    SimStep::Silent
                } else {
                    SimStep::Statement { pending_args: Vec::new() }
                }
            },
            Instruction::DataWord { .. } => SimStep::Statement { pending_args: Vec::new() },
        }
    }
}

} // verus!
