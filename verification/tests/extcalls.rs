use pal_vm::extcalls::{analyze_extcalls, ext_name, format_operand_raw, status_name};
use pal_vm::extsig::ImplStatus;
use pal_vm::script::{
    static_count_arg, take_extcall_args, Argument, Instruction, Operand, OperandKind,
};
use pal_vm::trace::{compare_runtime_trace, parse_hex_after, parse_runtime_extcalls};

fn imm(n: i32) -> Operand {
    Operand { kind: OperandKind::Immediate, raw: n as u32, lo: 0, bank: 0 }
}

fn var(slot: u32) -> Operand {
    Operand { kind: OperandKind::VariableSlot, raw: 0x4000_0000 | slot, lo: slot, bank: 0 }
}

fn primary(pc: u32, opcode: u16, args: Vec<Argument>) -> Instruction {
    Instruction::Primary { pc, end_pc: pc + 4 + 4 * args.len() as u32, word: 0x1_0000 | opcode as u32, opcode, args }
}

fn push(pc: u32, op: Operand) -> Instruction {
    primary(pc, 31, vec![Argument::Operand(op)])
}

fn extcall(pc: u32, category: u16, index: u16) -> Instruction {
    primary(
        pc,
        23,
        vec![
            Argument::ExtCall { raw: ((category as u32) << 16) | index as u32, category, index, name: None },
            Argument::DestinationSlot { slot: 0, raw: 0 },
        ],
    )
}

fn sample_script() -> Vec<Instruction> {
    let mut script = Vec::new();
    for n in [0, 0, 100, 0, 69, 0, -1] {
        script.push(push(0x100 + script.len() as u32 * 8, imm(n)));
    }
    script.push(extcall(0x200, 4, 0));
    script.push(push(0x208, imm(7)));
    script.push(push(0x210, var(3)));
    script.push(extcall(0x218, 0x99, 0x1234));
    script.push(extcall(0x220, 4, 0));
    script
}

#[test]
fn extcalls_pop_their_arguments_in_reverse_push_order() {
    let report = analyze_extcalls(&sample_script(), 42);
    assert_eq!(report.sequence.len(), 3);
    let bgm = &report.sequence[0];
    assert_eq!(bgm.name, "bgm_play");
    assert_eq!(bgm.ordinal, 0);
    assert_eq!(bgm.pc, 0x200);
    assert_eq!(bgm.arg_count, 7);
    assert_eq!(bgm.expected_arg_count, Some(7));
    assert_eq!(bgm.status, "Blocked");
    assert_eq!(bgm.return_kind, "Void");
    assert!(!bgm.static_arg_unresolved);
    assert_eq!(
        bgm.args,
        vec!["0xFFFFFFFF", "0x00000000", "0x00000045", "0x00000000", "0x00000064", "0x00000000", "0x00000000"]
    );
    // An extcall with no signature and no observed arity pops as many
    // operands as the argument stack holds: none here.
    let unknown = &report.sequence[1];
    assert_eq!(unknown.name, "ext_0099_1234");
    assert_eq!(unknown.arg_count, 0);
    assert!(unknown.args.is_empty());
    assert_eq!(unknown.status, "Unknown");
    assert_eq!(unknown.return_kind, "UnsupportedUnknown");
    assert_eq!(unknown.expected_arg_count, None);
    let starved = &report.sequence[2];
    assert_eq!(starved.arg_count, 2);
    assert_eq!(starved.args, vec!["0x40000003", "0x00000007"]);
    assert!(starved.static_arg_unresolved);
    assert_eq!(report.total_opcode_table, 42);
    assert_eq!(report.unique_reachable, 2);
    assert_eq!(report.reversed, 1);
    assert_eq!(report.blocked, 1);
    assert_eq!(report.unknown, 1);
    assert_eq!(report.static_arg_unresolved, 1);
    assert_eq!(report.total_known_table, 228);
}

#[test]
fn pack_and_pop_shrink_the_stack() {
    let script = vec![
        push(0, imm(1)),
        push(8, imm(2)),
        push(16, imm(3)),
        primary(24, 32, vec![Argument::Operand(imm(2))]),
        push(32, imm(4)),
        primary(40, 30, vec![]),
        extcall(48, 0x99, 0),
        push(56, imm(5)),
        primary(64, 32, vec![Argument::Operand(var(1))]),
        extcall(72, 0x99, 0),
    ];
    let report = analyze_extcalls(&script, 0);
    assert_eq!(report.sequence[0].args, vec!["0x00000001"]);
    assert_eq!(report.sequence[1].arg_count, 0);
    assert_eq!(report.unique_reachable, 1);
}

#[test]
fn report_json_lists_coverage_and_events() {
    let report = analyze_extcalls(&sample_script(), 3);
    let json = report.to_json();
    assert!(json.starts_with("{\n  \"coverage\": {\n    \"total_opcode_table\": 3,\n"));
    assert!(json.contains("\"name\":\"bgm_play\""));
    assert!(json.contains("\"pc\":\"0x00000218\""));
    assert!(json.contains("\"expected_arg_count\":null"));
    assert!(json.contains("\"args\":[\"0x40000003\",\"0x00000007\"]"));
    assert!(json.ends_with("}\n  ]\n}\n"));
}

#[test]
fn helpers_take_counts_and_format_names() {
    assert_eq!(static_count_arg(&[Argument::Operand(imm(3))]), Some(3));
    assert_eq!(static_count_arg(&[Argument::Operand(imm(-1))]), None);
    assert_eq!(static_count_arg(&[Argument::Operand(var(3))]), None);
    assert_eq!(static_count_arg(&[]), None);
    let mut stack = vec![imm(1), imm(2), imm(3)];
    let taken = take_extcall_args(&mut stack, 2);
    assert_eq!(taken, vec![imm(2), imm(3)]);
    assert_eq!(stack, vec![imm(1)]);
    let all = take_extcall_args(&mut stack, 5);
    assert_eq!(all, vec![imm(1)]);
    assert!(stack.is_empty());
    assert_eq!(ext_name(0x12, 0xABC), "ext_0012_0ABC");
    assert_eq!(format_operand_raw(&imm(-2)), "0xFFFFFFFE");
    assert_eq!(status_name(ImplStatus::StackDisciplineOnly), "StackDisciplineOnly");
}

#[test]
fn runtime_trace_lines_are_read() {
    let trace = "x opcode pc=0x00001234 y\nvm op extcall ext_0004_0000 bgm_play\r\nnoise ext_0001_0001\nvm op extcall ext_00zz_0001\nopcode pc=0xZZ\nvm op extcall ext_0013_0000";
    let events = parse_runtime_extcalls(trace);
    assert_eq!(events.len(), 2);
    assert_eq!(events[0].pc, Some(0x1234));
    assert_eq!((events[0].category, events[0].index), (4, 0));
    assert_eq!(events[1].pc, None);
    assert_eq!((events[1].category, events[1].index), (0x13, 0));
    assert_eq!(parse_hex_after(b"a opcode pc=0xDEADbeef", b"opcode pc=0x"), Some(0xDEAD_BEEF));
    assert_eq!(parse_hex_after(b"opcode pc=0x1234567", b"opcode pc=0x"), None);
    assert_eq!(parse_hex_after(b"nothing", b"opcode pc=0x"), None);
}

#[test]
fn trace_comparison_matches_by_ordinal_and_address() {
    let report = analyze_extcalls(&sample_script(), 0);
    let trace = "opcode pc=0x00000200\n op extcall ext_0004_0000\nopcode pc=0x00000218\n op extcall ext_0004_0001\nopcode pc=0x00000300\n op extcall ext_0004_0000\n";
    let cmp = compare_runtime_trace(&report.sequence, trace);
    assert_eq!(cmp.decompiler_count, 3);
    assert_eq!(cmp.runtime_count, 3);
    assert_eq!(cmp.matched_prefix, 2);
    assert_eq!(cmp.ordinal_mismatches, 1);
    assert_eq!(cmp.pc_matched, 1);
    assert_eq!(cmp.pc_mismatches, 2);
    assert_eq!(
        cmp.mismatches,
        vec![
            "pc runtime #1: pc=0x00000218 ext_0004_0001 != decompiler ext_0099_1234",
            "pc runtime #2: pc=0x00000300 ext_0004_0000 has no static extcall",
        ]
    );
    let json = cmp.to_json();
    assert!(json.starts_with("{\n  \"decompiler_count\": 3,\n  \"runtime_count\": 3,\n"));
    assert!(json.ends_with("\"mismatches\": [\"pc runtime #1: pc=0x00000218 ext_0004_0001 != decompiler ext_0099_1234\", \"pc runtime #2: pc=0x00000300 ext_0004_0000 has no static extcall\"]\n}\n"));
    let none = compare_runtime_trace(&[], " op extcall ext_0001_0002");
    assert_eq!(none.mismatches, vec!["pc runtime #0: no opcode pc for ext_0001_0002"]);
}

#[test]
fn unknown_extcalls_pop_as_many_as_the_argument_stack_holds() {
    let script = vec![
        push(0x100, imm(1)),
        push(0x108, imm(2)),
        push(0x110, imm(3)),
        primary(0x118, 32, vec![Argument::Operand(imm(2))]),
        extcall(0x120, 0x99, 0x1234),
    ];
    let report = analyze_extcalls(&script, 0);
    // `pushn 2` moves two operands to the argument stack; the call then
    // takes two, of which the operand stack holds only one.
    assert_eq!(report.sequence[0].arg_count, 1);
    assert_eq!(report.sequence[0].args, vec!["0x00000001"]);
    let script = vec![
        push(0x100, imm(1)),
        push(0x108, imm(2)),
        push(0x110, imm(3)),
        push(0x118, imm(4)),
        primary(0x120, 32, vec![Argument::Operand(imm(1))]),
        primary(0x128, 33, vec![Argument::Operand(imm(0))]),
        extcall(0x130, 0x99, 0x1234),
    ];
    let report = analyze_extcalls(&script, 0);
    assert_eq!(report.sequence[0].args, vec!["0x00000003"]);
}
