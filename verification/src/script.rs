//! The disassembled script instructions that the decompiler back end reads:
//! operands, instruction arguments and instructions, as plain values.

use vstd::prelude::*;

verus! {

/// Where an operand's value lives.
#[derive(Clone, Copy, Debug, PartialEq, Eq, Structural)]
pub enum OperandKind {
    Immediate,
    UserMemoryViaVar,
    SystemMemoryViaVar,
    StackSlot,
    VariableSlot,
    TempMemoryViaVar,
    MemDatDirect,
    MemDatIndirect,
    ArgumentStack,
    ArgumentBase,
    LiteralSlot,
}

/// One operand word: its kind, the raw 32-bit word, and the slot (`lo`) and
/// bank fields decoded from it.
#[derive(Clone, Copy, Debug, PartialEq, Eq, Structural)]
pub struct Operand {
    pub kind: OperandKind,
    pub raw: u32,
    pub lo: u32,
    pub bank: u32,
}

/// One argument of an instruction.
#[derive(Clone, Copy, Debug)]
pub enum Argument {
    Operand(Operand),
    /// A point (jump target) id, with its resolved code address when known.
    Point { id: u32, target_pc: Option<u32> },
    /// A point given by an operand.
    PointOperand { operand: Operand },
    RawSlot { slot: u32, raw: u32 },
    DestinationSlot { slot: u32, raw: u32 },
    /// An extcall selector.
    ExtCall { raw: u32, category: u16, index: u16, name: Option<&'static str> },
}

/// One decoded instruction.
#[derive(Clone, Debug)]
pub enum Instruction {
    Primary { pc: u32, end_pc: u32, word: u32, opcode: u16, args: Vec<Argument> },
    DataWord { pc: u32, word: u32 },
}

/// An instruction with its arguments seen as a sequence.
pub enum InstructionView {
    Primary { pc: u32, end_pc: u32, word: u32, opcode: u16, args: Seq<Argument> },
    DataWord { pc: u32, word: u32 },
}

impl View for Instruction {
    type V = InstructionView;

    open spec fn view(&self) -> InstructionView {
        match self {
            Instruction::Primary { pc, end_pc, word, opcode, args } => InstructionView::Primary {
                pc: *pc,
                end_pc: *end_pc,
                word: *word,
                opcode: *opcode,
                args: args@,
            },
            Instruction::DataWord { pc, word } => InstructionView::DataWord { pc: *pc, word: *word },
        }
    }
}

/// The operand of an `Operand` argument.
pub open spec fn spec_operand_arg(arg: Argument) -> Option<Operand> {
    match arg {
        Argument::Operand(op) => Some(op),
        _ => None,
    }
}

/// The operand of an `Operand` argument; `None` for other arguments.
pub fn operand_arg(arg: &Argument) -> (r: Option<Operand>)
    ensures
        r == spec_operand_arg(*arg),
{
    match arg {
        Argument::Operand(op) => Some(*op),
        _ => None,
    }
}

/// The count an instruction takes from its first argument: an immediate
/// operand whose value, read as a signed word, is not negative.
pub open spec fn spec_static_count_arg(args: Seq<Argument>) -> Option<usize> {
    if args.len() == 0 {
        None
    } else {
        match args[0] {
            Argument::Operand(op) => if op.kind == OperandKind::Immediate && (op.raw as i32) >= 0 {
                Some(op.raw as usize)
            } else {
                None
            },
            _ => None,
        }
    }
}

pub fn static_count_arg(args: &[Argument]) -> (r: Option<usize>)
    ensures
        r == spec_static_count_arg(args@),
{
    if args.len() == 0 {
        return None;
    }
    match &args[0] {
        Argument::Operand(op) => {
            let raw = op.raw;
            assert(raw < 0x8000_0000 <==> (raw as i32) >= 0) by (bit_vector);
            if op.kind == OperandKind::Immediate && raw < 0x8000_0000 {
                Some(raw as usize)
            } else {
                None
            }
        },
        _ => None,
    }
}

/// The arguments an extcall takes from the top of `stack`: the last `count`
/// operands in push order, or the whole stack when it holds fewer.
pub open spec fn taken_args(stack: Seq<Operand>, count: nat) -> Seq<Operand> {
    if count > stack.len() {
        stack
    } else {
        stack.subrange(stack.len() - count, stack.len() as int)
    }
}

/// What stays on `stack` after an extcall takes `count` arguments.
pub open spec fn stack_after_take(stack: Seq<Operand>, count: nat) -> Seq<Operand> {
    if count > stack.len() {
        Seq::empty()
    } else {
        stack.subrange(0, stack.len() - count)
    }
}

/// Takes an extcall's arguments off the top of the stack, in push order.
pub fn take_extcall_args(arg_stack: &mut Vec<Operand>, count: usize) -> (args: Vec<Operand>)
    ensures
        args@ == taken_args(old(arg_stack)@, count as nat),
        final(arg_stack)@ == stack_after_take(old(arg_stack)@, count as nat),
{
    if count > arg_stack.len() {
        let args = arg_stack.clone();
        assert(args@ =~= old(arg_stack)@);
        arg_stack.clear();
        return args;
    }
    let start = arg_stack.len() - count;
    let args = arg_stack.split_off(start);
    args
}

} // verus!
