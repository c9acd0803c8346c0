use pal_vm::lua_emit::{
    arith_sym, cmp_sym, emit_dynamic_jump, emit_lua_header, extcall_static_arg_count, indent,
    operand_to_lua, SimStep, StackSim,
};
use pal_vm::script::{Argument, Instruction, Operand, OperandKind};

fn op(kind: OperandKind, raw: u32, lo: u32, bank: u32) -> Operand {
    Operand { kind, raw, lo, bank }
}

#[test]
fn operands_render_as_lua_expressions() {
    assert_eq!(operand_to_lua(&op(OperandKind::Immediate, 100, 0, 0), ""), "100");
    assert_eq!(operand_to_lua(&op(OperandKind::Immediate, 0x1000, 0, 0), ""), "0x1000");
    assert_eq!(operand_to_lua(&op(OperandKind::Immediate, 0xFFFF_FFFF, 0, 0), ""), "0xFFFFFFFF");
    assert_eq!(operand_to_lua(&op(OperandKind::VariableSlot, 0, 12, 0), ""), "v12");
    assert_eq!(operand_to_lua(&op(OperandKind::StackSlot, 0, 3, 0), ""), "s3");
    assert_eq!(operand_to_lua(&op(OperandKind::UserMemoryViaVar, 0, 4, 0), ""), "mem_user[v4]");
    assert_eq!(operand_to_lua(&op(OperandKind::SystemMemoryViaVar, 0, 4, 0), ""), "mem_sys[v4]");
    assert_eq!(operand_to_lua(&op(OperandKind::TempMemoryViaVar, 0, 4, 2), ""), "mem_tmp[v4+2]");
    assert_eq!(operand_to_lua(&op(OperandKind::MemDatDirect, 0, 4, 9), ""), "memdat[v4+9]");
    assert_eq!(operand_to_lua(&op(OperandKind::MemDatIndirect, 0, 4, 0), ""), "memdat_ind[v4]");
    assert_eq!(operand_to_lua(&op(OperandKind::ArgumentStack, 0, 2, 0), ""), "arg[-2]");
    assert_eq!(operand_to_lua(&op(OperandKind::ArgumentBase, 0, 0, 0), ""), "arg_base");
    assert_eq!(operand_to_lua(&op(OperandKind::LiteralSlot, 5, 0, 0), "\"BGM01\""), "\"BGM01\"");
}

#[test]
fn dynamic_jumps_name_their_target() {
    let point = Argument::Point { id: 7, target_pc: None };
    assert_eq!(emit_dynamic_jump(Some(&point), 0x40, ""), "dynamic_jump(7)");
    let var = Argument::Operand(op(OperandKind::VariableSlot, 0x4000_000C, 12, 0));
    let output = emit_dynamic_jump(Some(&var), 0x40, "");
    assert_eq!(output, "dynamic_jump(v12)");
    assert!(!output.contains("-- jmp dynamic"));
    let slot = Argument::RawSlot { slot: 1, raw: 1 };
    assert_eq!(emit_dynamic_jump(Some(&slot), 0x40, ""), "dynamic_jump(0) -- unresolved @ 0x00000040");
    assert_eq!(emit_dynamic_jump(None, 0x1234, ""), "dynamic_jump(0) -- unresolved @ 0x00001234");
}

#[test]
fn operator_symbols_and_indentation() {
    assert_eq!(arith_sym(2), "+");
    assert_eq!(arith_sym(8), "~");
    assert_eq!(arith_sym(28), ">>");
    assert_eq!(arith_sym(9), "?");
    assert_eq!(cmp_sym(13), "~=");
    assert_eq!(cmp_sym(19), "and");
    assert_eq!(cmp_sym(1), "?");
    assert_eq!(indent(0), "");
    assert_eq!(indent(2), "        ");
    let mut out = Vec::new();
    emit_lua_header(&mut out);
    let text: String = out.into_iter().collect();
    assert!(text.starts_with("local AUTO_X = 0xFFFF\nlocal AUTO_Y = 0xFFFF\n\nlocal function dynamic_jump(point)\n"));
    assert!(text.ends_with("local function dynamic_string(id)\n    return string.format(\"<dynamic_string:%08X>\", id)\nend\n"));
}

#[test]
fn extcall_sites_pop_their_signature_count() {
    let ext = |category: u16, index: u16| Instruction::Primary {
        pc: 0,
        end_pc: 12,
        word: 23,
        opcode: 23,
        args: vec![Argument::ExtCall { raw: 0, category, index, name: None }],
    };
    assert_eq!(extcall_static_arg_count(&ext(4, 0), 2), 7);
    assert_eq!(extcall_static_arg_count(&ext(2, 1), 9), 4);
    assert_eq!(extcall_static_arg_count(&ext(0x99, 1), 3), 3);
    assert_eq!(extcall_static_arg_count(&Instruction::DataWord { pc: 0, word: 0 }, 5), 0);
}

fn primary(opcode: u16, args: Vec<Argument>) -> Instruction {
    Instruction::Primary { pc: 0, end_pc: 8, word: opcode as u32, opcode, args }
}

fn var(n: u32) -> Operand {
    op(OperandKind::VariableSlot, 0x4000_0000 | n, n, 0)
}

fn imm(n: u32) -> Argument {
    Argument::Operand(op(OperandKind::Immediate, n, 0, 0))
}

fn pending(step: SimStep) -> Option<Vec<Operand>> {
    match step {
        SimStep::Silent => None,
        SimStep::Statement { pending_args } => Some(pending_args),
    }
}

#[test]
fn extcalls_take_their_arguments_from_the_pushed_values() {
    let mut sim = StackSim::new();
    for n in 1..=5 {
        assert!(pending(sim.step(&primary(31, vec![Argument::Operand(var(n))]))).is_none());
    }
    let ext = primary(23, vec![Argument::ExtCall { raw: 0, category: 2, index: 1, name: None }]);
    assert_eq!(pending(sim.step(&ext)), Some(vec![var(2), var(3), var(4), var(5)]));
    assert_eq!(sim.stack, vec![var(1)]);
    assert_eq!(pending(sim.step(&primary(1, vec![]))), Some(vec![]));
    assert!(pending(sim.step(&primary(30, vec![]))).is_none());
    assert!(sim.stack.is_empty());
    assert!(pending(sim.step(&primary(30, vec![]))).is_none(), "pop on an empty stack");
}

#[test]
fn argument_stack_moves_follow_static_counts() {
    let mut sim = StackSim::new();
    for n in 1..=3 {
        sim.step(&primary(31, vec![Argument::Operand(var(n))]));
    }
    sim.step(&primary(32, vec![imm(2)]));
    assert_eq!(sim.stack, vec![var(1)]);
    assert_eq!(sim.arg_stack, vec![var(2), var(3)]);
    sim.step(&primary(33, vec![imm(1)]));
    assert_eq!(sim.arg_stack, vec![var(2)]);
    sim.step(&primary(33, vec![imm(5)]));
    assert!(sim.arg_stack.is_empty(), "too large a count clears the argument stack");
    sim.step(&primary(32, vec![imm(4)]));
    assert!(sim.stack.is_empty() && sim.arg_stack.is_empty());
    sim.step(&primary(31, vec![Argument::Operand(var(7))]));
    sim.step(&primary(32, vec![Argument::Operand(var(1))]));
    assert!(sim.stack.is_empty(), "a count held in a variable clears both stacks");
    assert_eq!(pending(sim.step(&Instruction::DataWord { pc: 0, word: 0 })), Some(vec![]));
}
