use pal_vm::codegen::{
    emit_extcall, emit_instrs_slice, emit_lua, emit_primary, emit_region, emit_single_instr_lua, emit_terminal,
    emit_single_instr_lua_full, find_merge_point, has_back_edge_to, lua_function_pcs,
    needs_label, render_param, Block, DecompileContext, LiteralTexts,
};
use pal_vm::extsig::{lookup_sig, ParamKind};
use pal_vm::script::{Argument, Instruction, Operand, OperandKind};

const SCRIPT_CODE_BASE: u32 = 12;

fn make_primary(pc: u32, opcode: u16, args: Vec<Argument>) -> Instruction {
    let n_words = 1u32 + args.len() as u32;
    Instruction::Primary { pc, end_pc: pc + n_words * 4, word: 0x0001_0000 | opcode as u32, opcode, args }
}

fn imm_op(n: i32) -> Operand {
    Operand { raw: n as u32, kind: OperandKind::Immediate, lo: (n & 0xFFFF) as u32, bank: 0 }
}

fn imm_arg(n: i32) -> Argument {
    Argument::Operand(imm_op(n))
}

fn var_arg(slot: u32) -> Argument {
    Argument::Operand(Operand { raw: 0x4000_0000 | slot, kind: OperandKind::VariableSlot, lo: slot, bank: 0 })
}

fn literal_slot_op(raw: u32) -> Operand {
    Operand { raw, kind: OperandKind::LiteralSlot, lo: raw & 0xFFFF, bank: (raw >> 16) & 0x0FFF }
}

fn point_arg(id: u32, target_pc: Option<u32>) -> Argument {
    Argument::Point { id, target_pc }
}

fn make_extcall_instr(pc: u32, cat: u16, idx: u16, dst_slot: u32) -> Instruction {
    let ext_arg = Argument::ExtCall { raw: ((cat as u32) << 16) | idx as u32, category: cat, index: idx, name: None };
    let dst_arg = Argument::DestinationSlot { slot: dst_slot, raw: dst_slot };
    Instruction::Primary { pc, end_pc: pc + 12, word: 0x0001_0000 | 23u32, opcode: 23, args: vec![ext_arg, dst_arg] }
}

fn slot_texts(entries: &[(u32, &str)]) -> Vec<(u32, String)> {
    entries.iter().map(|(raw, s)| (*raw, format!("\"{s}\""))).collect()
}

fn no_texts() -> LiteralTexts {
    LiteralTexts { ids: vec![], resources: vec![], texts: vec![], resolve_dat: false }
}

/// Resource strings as the FILE.DAT resolution gives them (quoted).
fn file_texts(entries: &[(u32, &str)]) -> LiteralTexts {
    LiteralTexts {
        ids: vec![],
        resources: slot_texts(entries),
        texts: vec![],
        resolve_dat: true,
    }
}

/// TEXT.DAT strings as their resolution gives them (quoted).
fn text_texts(entries: &[(u32, &str)]) -> LiteralTexts {
    LiteralTexts { ids: vec![], resources: vec![], texts: slot_texts(entries), resolve_dat: true }
}

fn block(start_pc: u32, instrs: Vec<Instruction>, succs: Vec<u32>) -> Block {
    Block { start_pc, instrs, succs }
}

fn context(blocks: Vec<Block>, gosub_targets: Vec<u32>) -> DecompileContext {
    let mut pcs: Vec<u32> = blocks.iter().map(|b| b.start_pc).collect();
    pcs.extend(gosub_targets.iter().copied());
    DecompileContext {
        blocks,
        gosub_targets,
        proc_names: pcs.iter().map(|pc| (*pc, format!("proc_{pc:08X}"))).collect(),
        label_names: pcs.iter().map(|pc| (*pc, format!("L_{pc:08X}"))).collect(),
        literals: no_texts(),
    }
}

// ── single instructions ──────────────────────────────────────────────────────

#[test]
fn test_dynamic_jump() {
    let instr = make_primary(SCRIPT_CODE_BASE, 9, vec![point_arg(0, None)]);
    let output = emit_single_instr_lua(&instr, &no_texts(), &[]);
    assert!(output.contains("dynamic_jump"), "expected dynamic_jump, got: {output}");
}

#[test]
fn test_dynamic_jump_operand_is_explicit() {
    let instr = make_primary(SCRIPT_CODE_BASE, 9, vec![var_arg(12)]);
    let output = emit_single_instr_lua(&instr, &no_texts(), &[]);
    assert!(output.contains("dynamic_jump("), "expected explicit dynamic_jump, got: {output}");
    assert!(!output.contains("-- jmp dynamic"), "dynamic jump must not be comment-only, got: {output}");
}

#[test]
fn test_dynamic_jump_not_staticized() {
    let instr = make_primary(SCRIPT_CODE_BASE, 9, vec![Argument::Point { id: 0, target_pc: None }]);
    let output = emit_single_instr_lua(&instr, &no_texts(), &[]);
    assert!(output.contains("dynamic_jump"), "expected dynamic_jump for dynamic jump, got: {output}");
    assert!(!output.contains("L_"), "should not contain static label, got: {output}");
}

#[test]
fn test_extcall_name() {
    let (cat, idx) = (0u16, 0u16);
    let expected_name = match lookup_sig(cat, idx) {
        Some(sig) => sig.name.to_owned(),
        None => format!("ext_{:04X}_{:04X}", cat, idx),
    };
    let ext_call_arg = Argument::ExtCall { raw: 0, category: cat, index: idx, name: None };
    let dst_arg = Argument::DestinationSlot { slot: 0, raw: 0 };
    let instr = make_primary(SCRIPT_CODE_BASE, 23, vec![ext_call_arg, dst_arg]);
    let output = emit_single_instr_lua(&instr, &no_texts(), &[]);
    assert!(!output.contains("pal.extcall"), "should NOT contain pal.extcall, got: {output}");
    assert!(output.contains(&expected_name), "expected function name '{expected_name}' in output, got: {output}");
}

#[test]
fn test_extcall_args_reversed() {
    let pending = vec![imm_op(10), imm_op(20), imm_op(30)];
    let instr = make_extcall_instr(SCRIPT_CODE_BASE, 99, 0, 0);
    let output = emit_single_instr_lua_full(&instr, &no_texts(), &pending);
    assert!(!output.contains("argument order unresolved"), "got: {output}");
    let pos_30 = output.find("30").expect("should contain 30");
    let pos_20 = output.find("20").expect("should contain 20");
    let pos_10 = output.find("10").expect("should contain 10");
    assert!(pos_30 < pos_20 && pos_20 < pos_10, "expected pop order 30,20,10, got: {output}");
}

#[test]
fn test_unknown_extcall_raw_args() {
    let instr = make_extcall_instr(SCRIPT_CODE_BASE, 99, 0, 0);
    let pending = vec![imm_op(1), imm_op(2)];
    let output = emit_single_instr_lua_full(&instr, &no_texts(), &pending);
    assert!(output.contains("ext_0063_0000(2, 1)"), "expected raw extcall with raw pop-order args, got: {output}");
    assert!(!output.contains("argument order unresolved"), "got: {output}");
}

#[test]
fn test_no_pal_extcall_output() {
    let instr = make_extcall_instr(SCRIPT_CODE_BASE, 7, 0, 0);
    let pending = vec![imm_op(500), imm_op(1)];
    let output = emit_single_instr_lua_full(&instr, &no_texts(), &pending);
    assert!(!output.contains("pal.extcall"), "output must not contain 'pal.extcall', got: {output}");
}

#[test]
fn test_sp_set_ex_arg_order() {
    let lits = file_texts(&[(9, "#FFFFFFFF")]);
    let pending = vec![imm_op(0), imm_op(0), imm_op(0), imm_op(40), imm_op(9)];
    let instr = make_extcall_instr(SCRIPT_CODE_BASE, 3, 3, 0);
    let output = emit_single_instr_lua_full(&instr, &lits, &pending);
    assert!(output.contains("sp_set_ex"), "expected sp_set_ex, got: {output}");
    assert!(output.contains("40"), "expected slot=40 in output, got: {output}");
    assert!(output.contains("#FFFFFFFF") || output.contains("\\\"#FFFFFFFF\\\""), "got: {output}");
    let pos_slot = output.find("40").unwrap();
    let pos_name = output.find('#').unwrap_or_else(|| output.find('"').unwrap());
    assert!(pos_slot < pos_name, "slot(40) should appear before name in output, got: {output}");
}

#[test]
fn test_bgm_play_resource_id() {
    let lits = file_texts(&[(69, "BGM01")]);
    let pending = vec![imm_op(0), imm_op(0), imm_op(100), imm_op(0), imm_op(69), imm_op(0), imm_op(-1)];
    let instr = make_extcall_instr(SCRIPT_CODE_BASE, 4, 0, 0);
    let output = emit_single_instr_lua_full(&instr, &lits, &pending);
    assert!(output.contains("bgm_play"), "expected bgm_play, got: {output}");
    assert!(output.contains("BGM01"), "expected BGM01 resolved from file_dat slot 69, got: {output}");
}

#[test]
fn test_voice_play_resource_id() {
    let lits = file_texts(&[(88, "VO01_SYS01")]);
    let pending = vec![imm_op(100), imm_op(0), imm_op(88), imm_op(0)];
    let instr = make_extcall_instr(SCRIPT_CODE_BASE, 13, 0, 0);
    let output = emit_single_instr_lua_full(&instr, &lits, &pending);
    assert!(output.contains("voice_play"), "expected voice_play, got: {output}");
    assert!(output.contains("VO01_SYS01"), "expected VO01_SYS01 resolved, got: {output}");
}

#[test]
fn test_integer_not_resolved_as_resource() {
    let lits = file_texts(&[(102, "BK000D")]);
    let pending = vec![imm_op(102), imm_op(0), imm_op(0), imm_op(0)];
    let instr = make_extcall_instr(SCRIPT_CODE_BASE, 3, 4, 0);
    let output = emit_single_instr_lua_full(&instr, &lits, &pending);
    assert!(output.contains("102"), "expected integer 102 in output, got: {output}");
    assert!(!output.contains("BK000D"), "Integer param should NOT resolve as resource name, got: {output}");
}

#[test]
fn test_literal_slot_0xffffffff_slot_renders_minus1() {
    let lits = file_texts(&[(69, "BGM01")]);
    let pending = vec![
        imm_op(0),
        imm_op(0),
        imm_op(100),
        imm_op(0),
        imm_op(69),
        imm_op(0),
        literal_slot_op(0xFFFF_FFFF),
    ];
    let instr = make_extcall_instr(SCRIPT_CODE_BASE, 4, 0, 0);
    let output = emit_single_instr_lua_full(&instr, &lits, &pending);
    assert!(output.contains("bgm_play"), "expected bgm_play, got: {output}");
    assert!(output.contains("-1"), "slot=-1 should render as -1, got: {output}");
    assert!(!output.contains("dynamic_string(0xFFFFFFFF)"), "got: {output}");
}

#[test]
fn test_getprivateprofileint_arg_order() {
    let lits = text_texts(&[(16, "SectionName"), (32, "KeyName"), (44, "config.ini")]);
    let pending = vec![imm_op(44), imm_op(1280), imm_op(32), imm_op(16)];
    let instr = make_extcall_instr(SCRIPT_CODE_BASE, 18, 37, 5);
    let output = emit_single_instr_lua_full(&instr, &lits, &pending);
    assert!(output.contains("getprivateprofileint"), "expected getprivateprofileint, got: {output}");
    assert!(output.contains("SectionName"), "expected SectionName resolved, got: {output}");
    assert!(output.contains("KeyName"), "expected KeyName resolved, got: {output}");
    assert!(output.contains("1280") || output.contains("0x500"), "expected default=1280 in output, got: {output}");
    assert!(output.contains("config.ini"), "expected config.ini resolved, got: {output}");
}

#[test]
fn test_getprivateprofileint_non_ini_filename_annotation() {
    let lits = text_texts(&[(16, "graphics"), (29, "DEF_CG_WIDTH"), (46, "HIP_BACK_G")]);
    let pending = vec![imm_op(46), imm_op(1280), imm_op(29), imm_op(16)];
    let instr = make_extcall_instr(SCRIPT_CODE_BASE, 18, 37, 1);
    let output = emit_single_instr_lua_full(&instr, &lits, &pending);
    assert!(output.contains("HIP_BACK_G"), "filename should be in output, got: {output}");
    assert!(output.contains("SYSTEM.INI") || output.contains("runtime"), "got: {output}");
}

#[test]
fn test_sp_set_ex_no_double_reverse() {
    let lits = file_texts(&[(0, "SLOT0_NAME"), (1, "SLOT1_NAME")]);
    let pending = vec![imm_op(5), imm_op(4), imm_op(3), imm_op(2), imm_op(1)];
    let instr = make_extcall_instr(SCRIPT_CODE_BASE, 3, 3, 0);
    let output = emit_single_instr_lua_full(&instr, &lits, &pending);
    assert!(output.contains("sp_set_ex"), "got: {output}");
    assert!(output.contains("SLOT1_NAME"), "name should be resolved, got: {output}");
    assert!(output.contains('2'), "slot=2 should be in output, got: {output}");
    let pos_slot = output.find('2').expect("should have 2");
    let pos_name = output.find("SLOT1_NAME").expect("should have SLOT1_NAME");
    assert!(pos_slot < pos_name, "got: {output}");
    let pos_x = output.rfind('3').expect("should have 3");
    assert!(pos_name < pos_x, "name before x in output, got: {output}");
}

#[test]
fn test_getprivateprofileint_ini_extension_no_annotation() {
    let lits = text_texts(&[(16, "graphics"), (29, "DEF_CG_WIDTH"), (46, "SYSTEM.INI")]);
    let pending = vec![imm_op(46), imm_op(1280), imm_op(29), imm_op(16)];
    let instr = make_extcall_instr(SCRIPT_CODE_BASE, 18, 37, 1);
    let output = emit_single_instr_lua_full(&instr, &lits, &pending);
    assert!(output.contains("SYSTEM.INI"), "should contain SYSTEM.INI, got: {output}");
    assert!(!output.contains("runtime uses SYSTEM.INI"), "*.ini filename should not be annotated, got: {output}");
}

#[test]
fn primary_statements_are_exact() {
    let lits = no_texts();
    let pc = 0x40;
    assert_eq!(emit_primary(1, &vec![var_arg(1), imm_arg(99)], pc, &lits, &[]), "v1 = 99");
    assert_eq!(emit_primary(2, &vec![var_arg(1), var_arg(2)], pc, &lits, &[]), "v1 = v1 + v2");
    assert_eq!(emit_primary(12, &vec![var_arg(0), imm_arg(1)], pc, &lits, &[]), "v0 = (v0 == 1) and 1 or 0");
    assert_eq!(emit_primary(1, &vec![var_arg(1)], pc, &lits, &[]), "-- mov (malformed) @ 0x00000040");
    assert_eq!(emit_primary(3, &vec![], pc, &lits, &[]), "-- - (malformed) @ 0x00000040");
    assert_eq!(emit_primary(20, &vec![Argument::RawSlot { slot: 3, raw: 3 }], pc, &lits, &[]), "v3 = (v3 == 0) and 1 or 0");
    assert_eq!(emit_primary(29, &vec![var_arg(4)], pc, &lits, &[]), "v4 = -v4");
    assert_eq!(emit_primary(30, &vec![var_arg(4)], pc, &lits, &[]), "-- pop v4");
    assert_eq!(emit_primary(22, &vec![], pc, &lits, &[]), "");
    assert_eq!(emit_primary(24, &vec![], pc, &lits, &[]), "return");
    assert_eq!(emit_primary(9, &vec![point_arg(3, Some(0x80))], pc, &lits, &[]), "-- jump 0x00000080");
    assert_eq!(emit_primary(49, &vec![], pc, &lits, &[]), "is_save()");
    assert_eq!(emit_primary(77, &vec![], pc, &lits, &[]), "-- unsupported opcode 77 @ 0x00000040");
    let data = Instruction::DataWord { pc: 0x10, word: 0xDEAD_BEEF };
    assert_eq!(emit_single_instr_lua(&data, &lits, &[]), "-- .word 0xDEADBEEF  -- pc=0x00000010");
    let lits = LiteralTexts { ids: vec![(7, "\"BGM01\"".to_owned())], resources: vec![], texts: vec![], resolve_dat: false };
    assert_eq!(emit_primary(1, &vec![var_arg(1), Argument::Operand(literal_slot_op(7))], pc, &lits, &[]), "v1 = \"BGM01\"");
}

#[test]
fn parameters_render_by_kind() {
    let lits = text_texts(&[(5, "cfg")]);
    assert_eq!(render_param(&imm_op(5), ParamKind::IniFilename, &lits), "\"cfg\" --[[runtime uses SYSTEM.INI: not *.ini]]");
    assert_eq!(render_param(&imm_op(5), ParamKind::TextString, &lits), "\"cfg\"");
    assert_eq!(render_param(&imm_op(5), ParamKind::Integer, &lits), "5");
    assert_eq!(render_param(&literal_slot_op(0xFFFF_FFFE), ParamKind::Slot, &lits), "-2");
    let lits = text_texts(&[(5, "a.INI")]);
    assert_eq!(render_param(&imm_op(5), ParamKind::IniFilename, &lits), "\"a.INI\"");
    let unresolved = LiteralTexts { resolve_dat: false, ..text_texts(&[(5, "cfg")]) };
    assert_eq!(render_param(&imm_op(5), ParamKind::TextString, &unresolved), "5");
    let ext = vec![Argument::ExtCall { raw: 0, category: 99, index: 1, name: Some("mystery") }, Argument::DestinationSlot { slot: 2, raw: 2 }];
    assert_eq!(emit_extcall(&ext, &no_texts(), &[imm_op(1), imm_op(2)]), "v2 = mystery(2, 1)");
    assert_eq!(emit_extcall(&vec![], &no_texts(), &[]), "-- extcall (malformed)");
}

// ── whole procedures ─────────────────────────────────────────────────────────

fn if_script() -> DecompileContext {
    // PC 12: eq v0, 1; PC 24: jf p1 -> 48, v0; PC 36: mov v1, 99; PC 48: nop; PC 52: end
    context(
        vec![
            block(12, vec![make_primary(12, 12, vec![var_arg(0), imm_arg(1)]), make_primary(24, 10, vec![point_arg(1, Some(48)), var_arg(0)])], vec![36, 48]),
            block(36, vec![make_primary(36, 1, vec![var_arg(1), imm_arg(99)])], vec![48]),
            block(48, vec![make_primary(48, 22, vec![]), make_primary(52, 21, vec![])], vec![]),
        ],
        vec![],
    )
}

fn while_script(limit: i32) -> DecompileContext {
    // PC 12: eq v0, limit; PC 24: jf p1 -> 44, v0; PC 36: jmp p2 -> 12; PC 44: end
    context(
        vec![
            block(12, vec![make_primary(12, 12, vec![var_arg(0), imm_arg(limit)]), make_primary(24, 10, vec![point_arg(1, Some(44)), var_arg(0)])], vec![36, 44]),
            block(36, vec![make_primary(36, 9, vec![point_arg(2, Some(12))])], vec![12]),
            block(44, vec![make_primary(44, 21, vec![])], vec![]),
        ],
        vec![],
    )
}

#[test]
fn test_if_pattern() {
    let lua = emit_lua(&if_script(), 12);
    assert!(lua.contains("if ") || lua.contains("-- if"), "expected if pattern, got:\n{lua}");
    assert!(lua.contains("v1"), "expected v1 assignment in then-body, got:\n{lua}");
    assert!(lua.contains("    if v0 ~= 0 then\n        v1 = 99\n    end\n    return\n"), "got:\n{lua}");
}

#[test]
fn test_while_pattern() {
    let lua = emit_lua(&while_script(0), 12);
    assert!(lua.contains("while ") || lua.contains("-- while"), "expected while pattern, got:\n{lua}");
}

#[test]
fn test_while_condition_inside_loop() {
    let lua = emit_lua(&while_script(5), 12);
    assert!(lua.contains("while true do"), "expected 'while true do' for complex while, got:\n{lua}");
    assert!(lua.contains("break"), "expected break inside while, got:\n{lua}");
    let while_pos = lua.find("while true do").unwrap();
    let eq_pos = lua.find("v0 =").unwrap_or_else(|| lua.find("v0=").unwrap_or(usize::MAX));
    assert!(eq_pos > while_pos, "eq instruction should be inside the while loop, got:\n{lua}");
}

#[test]
fn test_gosub_function() {
    // PC 12: gosub p1 -> 24; PC 20: end; PC 24: ret
    let ctx = context(
        vec![
            block(12, vec![make_primary(12, 11, vec![point_arg(1, Some(24))])], vec![20]),
            block(20, vec![make_primary(20, 21, vec![])], vec![]),
            block(24, vec![make_primary(24, 24, vec![])], vec![]),
        ],
        vec![24],
    );
    let lua = emit_lua(&ctx, 12);
    assert!(lua.contains("local function proc_"), "expected local function proc_*, got:\n{lua}");
    assert!(lua.contains("proc_"), "expected proc_ call, got:\n{lua}");
}

#[test]
fn test_function_boundary_no_next_gosub_cutoff() {
    // PC 12: gosub p1 -> 32; PC 20: nop; PC 24: end; PC 28: nop; PC 32: ret
    let ctx = context(
        vec![
            block(12, vec![make_primary(12, 11, vec![point_arg(1, Some(32))])], vec![20]),
            block(20, vec![make_primary(20, 22, vec![]), make_primary(24, 21, vec![])], vec![]),
            block(28, vec![make_primary(28, 22, vec![])], vec![32]),
            block(32, vec![make_primary(32, 24, vec![])], vec![]),
        ],
        vec![32],
    );
    let lua = emit_lua(&ctx, 12);
    assert!(lua.contains("local function"), "expected local function definitions, got:\n{lua}");
    assert!(lua.contains("return"), "expected return in output, got:\n{lua}");
    let func_count = lua.matches("local function").count();
    assert!(func_count >= 2, "expected at least 2 local functions, got {func_count} in:\n{lua}");
}

#[test]
fn test_invalid_static_gosub_not_silent() {
    // PC 12: gosub p999 (not in the point table); PC 20: end
    let ctx = context(
        vec![
            block(12, vec![make_primary(12, 11, vec![point_arg(999, None)])], vec![20]),
            block(20, vec![make_primary(20, 21, vec![])], vec![]),
        ],
        vec![],
    );
    let lua = emit_lua(&ctx, 12);
    assert!(lua.contains("INVALID") || lua.contains("invalid") || lua.contains("gosub_invalid"), "got:\n{lua}");
}

#[test]
fn modules_list_procedures_in_address_order() {
    assert_eq!(lua_function_pcs(&vec![40, 24, 40], 32), vec![24, 32, 40]);
    assert_eq!(lua_function_pcs(&vec![], 12), vec![12]);
    let lua = emit_lua(&if_script(), 12);
    assert!(lua.starts_with("local AUTO_X = 0xFFFF\n"));
    assert!(lua.ends_with("\nproc_0000000C()\n"));
    assert!(lua.contains("\nlocal function proc_0000000C()\n"));
}

#[test]
fn regions_stop_at_exits_calls_and_back_edges() {
    let ctx = while_script(0);
    let mut visited = vec![];
    assert_eq!(emit_region(&ctx, 44, Some(44), &mut visited, 0, 12), "");
    assert_eq!(emit_region(&ctx, 44, None, &mut visited, 1, 12), "    return\n");
    assert_eq!(emit_region(&ctx, 44, None, &mut visited, 1, 12), "    -- back-edge to L_0000002C\n");
    assert_eq!(emit_region(&ctx, 99, None, &mut vec![], 0, 12), "-- missing block at 0x00000063\n");
    let gosub = context(vec![block(24, vec![make_primary(24, 24, vec![])], vec![])], vec![24]);
    assert_eq!(emit_region(&gosub, 24, None, &mut vec![], 2, 12), "        proc_00000018()\n");
}

#[test]
fn loop_analysis_finds_back_edges_merges_and_labels() {
    let ctx = while_script(0);
    assert!(has_back_edge_to(12, 36, &ctx.blocks, 64));
    assert!(!has_back_edge_to(12, 36, &ctx.blocks, 0));
    assert!(needs_label(&ctx, 12));
    assert!(!needs_label(&ctx, 44));
    let ifs = if_script();
    assert!(!has_back_edge_to(12, 36, &ifs.blocks, 64));
    assert_eq!(find_merge_point(36, 48, &ifs.blocks), 48);
    assert_eq!(find_merge_point(60, 48, &ifs.blocks), 48);
}

#[test]
fn instruction_runs_follow_the_operand_stacks() {
    let ctx = context(vec![], vec![]);
    let run = vec![
        make_primary(0, 31, vec![imm_arg(7)]),
        make_primary(8, 30, vec![var_arg(1)]),
        make_primary(16, 1, vec![var_arg(1), imm_arg(2)]),
    ];
    assert_eq!(emit_instrs_slice(&run, &ctx, 1), "    v1 = 2\n");
}

#[test]
fn terminals_write_their_control_flow() {
    // A branch whose point is not in the point table.
    let ctx = context(
        vec![
            block(12, vec![make_primary(12, 10, vec![point_arg(7, None), var_arg(0)])], vec![24]),
            block(24, vec![make_primary(24, 21, vec![])], vec![]),
        ],
        vec![],
    );
    let mut visited = vec![12];
    assert_eq!(
        emit_terminal(&ctx, 0, None, &mut visited, 1, &[], 12),
        "    -- INVALID jf target: point_id=7 not in Point.dat\n    if v0 == 0 then\n        jf_invalid(7)\n    end\n    return\n"
    );
    assert_eq!(visited, vec![12, 24]);
    let ctx = context(
        vec![
            block(12, vec![make_primary(12, 10, vec![point_arg(0, None), var_arg(0)])], vec![24]),
            block(24, vec![make_primary(24, 21, vec![])], vec![]),
        ],
        vec![],
    );
    assert_eq!(
        emit_terminal(&ctx, 0, None, &mut vec![12], 0, &[], 12),
        "if v0 == 0 then\n    dynamic_jump(0)\nend\nreturn\n"
    );
}

#[test]
fn whole_modules_are_exact() {
    let lua = emit_lua(&while_script(0), 12);
    let expected = "local AUTO_X = 0xFFFF\nlocal AUTO_Y = 0xFFFF\n\nlocal function dynamic_jump(point)\n    error(string.format(\"dynamic_jump(%s) requires runtime\", tostring(point)))\nend\n\nlocal function dynamic_string(id)\n    return string.format(\"<dynamic_string:%08X>\", id)\nend\n\nlocal function proc_0000000C()\n    ::L_0000000C::\n    while true do\n        v0 = (v0 == 0) and 1 or 0\n        if v0 == 0 then break end\n        -- back-edge to L_0000000C\n    end\n    return\nend\n\nproc_0000000C()\n";
    assert_eq!(lua, expected);
}
