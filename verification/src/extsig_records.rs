//! Executable construction of the extcall signature records.

use vstd::prelude::*;
use crate::extsig::{
    Evidence, EvidenceKind, ExtSig, ImplStatus, Param, ParamKind, ReturnKind, SideEffect,
};
use crate::extsig_table::{signature_entry, SIGNATURE_COUNT};

verus! {

fn record_from_block_0(i: usize) -> (sig: ExtSig)
    requires
        0 <= i < 12,
    ensures
        sig@ == signature_entry(i as int),
{
    if i == 0 {
        ExtSig {
            category: 2,
            index: 2,
            canonical_name: "text",
            name: "text",
            game_handler_ea: None,
            pal_export_name: None,
            pal_export_ea: None,
            pop_count: 4,
            pop_order: Vec::new(),
            display_order: Vec::new(),
            params: vec![
                Param { name: "mode", pop_idx: 3, kind: ParamKind::Mode, meaning: "text mode / ADV channel" },
                Param { name: "text_id", pop_idx: 2, kind: ParamKind::TextId, meaning: "Text.dat byte offset or dynamic string id" },
                Param { name: "name_or_aux_id", pop_idx: 1, kind: ParamKind::TextId, meaning: "speaker/name text id or -1" },
                Param { name: "voice_or_aux_id", pop_idx: 0, kind: ParamKind::TextId, meaning: "voice/aux id or -1" },
            ],
            return_kind: ReturnKind::Void,
            returns: false,
            side_effects: vec![SideEffect::ChangesTextState],
            purpose: "Set current ADV text without script blocking.",
            evidence: vec![
                Evidence { kind: EvidenceKind::Writeup, reference: "docs/writeup.md 24.17" },
                Evidence { kind: EvidenceKind::RuntimeTrace, reference: "text args=[mode,text_id,name,voice]" },
            ],
            implementation_status: ImplStatus::Blocked,
            decompiler_status: ImplStatus::Blocked,
        }
    } else if i == 1 {
        ExtSig {
            category: 2,
            index: 3,
            canonical_name: "text_hide",
            name: "text_hide",
            game_handler_ea: Some("0x0043F340"),
            pal_export_name: None,
            pal_export_ea: None,
            pop_count: 1,
            pop_order: Vec::new(),
            display_order: Vec::new(),
            params: vec![
                Param { name: "redraw_flag", pop_idx: 0, kind: ParamKind::Flag, meaning: "non-zero requests native redraw/update flag" },
            ],
            return_kind: ReturnKind::Void,
            returns: false,
            side_effects: vec![SideEffect::ChangesTextState],
            purpose: "Hide the ADV text window/state.",
            evidence: vec![
                Evidence { kind: EvidenceKind::GameSqlite, reference: "reverse/Game.sqlite sub_43F340 pops one flag, hides text sprite colors, and updates ctx[201021]" },
                Evidence { kind: EvidenceKind::Writeup, reference: "docs/writeup.md 24.17" },
            ],
            implementation_status: ImplStatus::Blocked,
            decompiler_status: ImplStatus::Blocked,
        }
    } else if i == 2 {
        ExtSig {
            category: 2,
            index: 4,
            canonical_name: "text_show",
            name: "text_show",
            game_handler_ea: None,
            pal_export_name: None,
            pal_export_ea: None,
            pop_count: 1,
            pop_order: Vec::new(),
            display_order: Vec::new(),
            params: vec![
                Param { name: "visible", pop_idx: 0, kind: ParamKind::Flag, meaning: "show flag observed in script wrappers" },
            ],
            return_kind: ReturnKind::Void,
            returns: false,
            side_effects: vec![SideEffect::ChangesTextState],
            purpose: "Show the ADV text window/state.",
            evidence: vec![
                Evidence { kind: EvidenceKind::Writeup, reference: "docs/writeup.md 24.17" },
            ],
            implementation_status: ImplStatus::Blocked,
            decompiler_status: ImplStatus::Blocked,
        }
    } else if i == 3 {
        ExtSig {
            category: 2,
            index: 5,
            canonical_name: "text_set_btn",
            name: "text_set_btn",
            game_handler_ea: Some("0x0043F1A0"),
            pal_export_name: None,
            pal_export_ea: None,
            pop_count: 1,
            pop_order: Vec::new(),
            display_order: Vec::new(),
            params: vec![
                Param { name: "button_id", pop_idx: 0, kind: ParamKind::Integer, meaning: "text button/window id" },
            ],
            return_kind: ReturnKind::Integer,
            returns: true,
            side_effects: vec![SideEffect::ChangesTextState],
            purpose: "Select active ADV text-window button id.",
            evidence: vec![
                Evidence { kind: EvidenceKind::GameSqlite, reference: "reverse/Game.sqlite sub_43F1A0 pops button id and clears its text reaction slot" },
            ],
            implementation_status: ImplStatus::Verified,
            decompiler_status: ImplStatus::Verified,
        }
    } else if i == 4 {
        ExtSig {
            category: 2,
            index: 8,
            canonical_name: "text_clear",
            name: "text_clear",
            game_handler_ea: None,
            pal_export_name: None,
            pal_export_ea: None,
            pop_count: 0,
            pop_order: Vec::new(),
            display_order: Vec::new(),
            params: vec![],
            return_kind: ReturnKind::Void,
            returns: false,
            side_effects: vec![SideEffect::ChangesTextState, SideEffect::DeletesSprite],
            purpose: "Clear current text and release body/name sprites on the next text sync.",
            evidence: vec![
                Evidence { kind: EvidenceKind::Writeup, reference: "docs/writeup.md 24.17" },
            ],
            implementation_status: ImplStatus::Blocked,
            decompiler_status: ImplStatus::Blocked,
        }
    } else if i == 5 {
        ExtSig {
            category: 2,
            index: 9,
            canonical_name: "text_clear_ex",
            name: "text_clear_ex",
            game_handler_ea: None,
            pal_export_name: None,
            pal_export_ea: None,
            pop_count: 0,
            pop_order: Vec::new(),
            display_order: Vec::new(),
            params: vec![],
            return_kind: ReturnKind::Void,
            returns: false,
            side_effects: vec![SideEffect::ChangesTextState],
            purpose: "Zero-argument text cleanup/repaint hook adjacent to text_clear.",
            evidence: vec![
                Evidence { kind: EvidenceKind::RuntimeTrace, reference: "reachable extcall 0002:0009 at PCs 0x00039584/0x0003A960/0x0003AE8C" },
                Evidence { kind: EvidenceKind::GameSqlite, reference: "reverse/Game.sqlite neighboring sub_43F0B0 text_clear" },
            ],
            implementation_status: ImplStatus::Blocked,
            decompiler_status: ImplStatus::Blocked,
        }
    } else if i == 6 {
        ExtSig {
            category: 2,
            index: 10,
            canonical_name: "text_get_time",
            name: "text_get_time",
            game_handler_ea: Some("0x0043F010"),
            pal_export_name: None,
            pal_export_ea: None,
            pop_count: 0,
            pop_order: Vec::new(),
            display_order: Vec::new(),
            params: vec![],
            return_kind: ReturnKind::Integer,
            returns: true,
            side_effects: vec![SideEffect::WritesVmMemory],
            purpose: "Return the current text/task time counter.",
            evidence: vec![
                Evidence { kind: EvidenceKind::GameSqlite, reference: "reverse/Game.sqlite sub_43F010 writes PalTaskGetTaskData(0)+32 to dst_slot and pops no args" },
            ],
            implementation_status: ImplStatus::Verified,
            decompiler_status: ImplStatus::Verified,
        }
    } else if i == 7 {
        ExtSig {
            category: 2,
            index: 13,
            canonical_name: "text_task_redraw_flag",
            name: "text_task_redraw_flag",
            game_handler_ea: Some("0x0043EE00"),
            pal_export_name: None,
            pal_export_ea: None,
            pop_count: 0,
            pop_order: Vec::new(),
            display_order: Vec::new(),
            params: vec![],
            return_kind: ReturnKind::Integer,
            returns: true,
            side_effects: vec![SideEffect::ChangesTextState],
            purpose: "Set the native ADV text redraw flag at text context +4192.",
            evidence: vec![
                Evidence { kind: EvidenceKind::GameSqlite, reference: "reverse/Game.sqlite sub_43EE00 consumes no args and writes text_ctx+4192 = 1" },
            ],
            implementation_status: ImplStatus::Verified,
            decompiler_status: ImplStatus::Verified,
        }
    } else if i == 8 {
        ExtSig {
            category: 2,
            index: 14,
            canonical_name: "text_set_icon_animation_time",
            name: "text_set_icon_animation_time",
            game_handler_ea: Some("0x0043ED40"),
            pal_export_name: Some("PalAnimationSetTime"),
            pal_export_ea: Some("0x10120110"),
            pop_count: 2,
            pop_order: Vec::new(),
            display_order: Vec::new(),
            params: vec![
                Param { name: "icon_slot", pop_idx: 0, kind: ParamKind::Integer, meaning: "text icon animation slot, 0..3" },
                Param { name: "duration_ms", pop_idx: 1, kind: ParamKind::DurationMs, meaning: "animation time passed to PalAnimationSetTime" },
            ],
            return_kind: ReturnKind::Integer,
            returns: true,
            side_effects: vec![SideEffect::ChangesTextState],
            purpose: "Set ADV text icon animation time.",
            evidence: vec![
                Evidence { kind: EvidenceKind::GameSqlite, reference: "reverse/Game.sqlite sub_43ED40 pops icon slot and duration then calls PalAnimationSetTime" },
                Evidence { kind: EvidenceKind::PalSqlite, reference: "reverse/PAL.sqlite PalAnimationSetTime 0x10120110 -> PalAnimationSetTime_0 0x10239C40 writes duration/start time" },
            ],
            implementation_status: ImplStatus::Verified,
            decompiler_status: ImplStatus::Verified,
        }
    } else if i == 9 {
        ExtSig {
            category: 2,
            index: 15,
            canonical_name: "text_w",
            name: "text_w",
            game_handler_ea: None,
            pal_export_name: None,
            pal_export_ea: None,
            pop_count: 4,
            pop_order: Vec::new(),
            display_order: Vec::new(),
            params: vec![
                Param { name: "duration_ms", pop_idx: 3, kind: ParamKind::DurationMs, meaning: "explicit text reveal duration; 0 uses native text-speed timing" },
                Param { name: "text_id", pop_idx: 2, kind: ParamKind::TextId, meaning: "Text.dat byte offset or dynamic string id" },
                Param { name: "name_or_aux_id", pop_idx: 1, kind: ParamKind::TextId, meaning: "speaker/name text id or -1" },
                Param { name: "voice_or_aux_id", pop_idx: 0, kind: ParamKind::TextId, meaning: "voice/aux id or -1" },
            ],
            return_kind: ReturnKind::Void,
            returns: false,
            side_effects: vec![SideEffect::ChangesTextState],
            purpose: "Set current ADV line and start visual reveal; does not block VM.",
            evidence: vec![
                Evidence { kind: EvidenceKind::GameSqlite, reference: "reverse/Game.sqlite sub_43FFC0 writes pop[3] to text_ctx+4196 and computes reveal timing when it is zero" },
                Evidence { kind: EvidenceKind::RuntimeTrace, reference: "text_wait index=15 followed by explicit wait_click" },
            ],
            implementation_status: ImplStatus::Blocked,
            decompiler_status: ImplStatus::Blocked,
        }
    } else if i == 10 {
        ExtSig {
            category: 2,
            index: 16,
            canonical_name: "text_a",
            name: "text_a",
            game_handler_ea: None,
            pal_export_name: None,
            pal_export_ea: None,
            pop_count: 4,
            pop_order: Vec::new(),
            display_order: Vec::new(),
            params: vec![
                Param { name: "duration_ms", pop_idx: 3, kind: ParamKind::DurationMs, meaning: "" },
                Param { name: "text_id", pop_idx: 2, kind: ParamKind::TextId, meaning: "" },
                Param { name: "name_or_aux_id", pop_idx: 1, kind: ParamKind::TextId, meaning: "" },
                Param { name: "voice_or_aux_id", pop_idx: 0, kind: ParamKind::TextId, meaning: "" },
            ],
            return_kind: ReturnKind::Void,
            returns: false,
            side_effects: vec![SideEffect::ChangesTextState],
            purpose: "Set current ADV line fully visible; does not block VM.",
            evidence: vec![
                Evidence { kind: EvidenceKind::Writeup, reference: "docs/writeup.md 24.17" },
            ],
            implementation_status: ImplStatus::Blocked,
            decompiler_status: ImplStatus::Blocked,
        }
    } else {
        ExtSig {
            category: 2,
            index: 17,
            canonical_name: "text_wa",
            name: "text_wa",
            game_handler_ea: None,
            pal_export_name: None,
            pal_export_ea: None,
            pop_count: 4,
            pop_order: Vec::new(),
            display_order: Vec::new(),
            params: vec![
                Param { name: "duration_ms", pop_idx: 3, kind: ParamKind::DurationMs, meaning: "" },
                Param { name: "text_id", pop_idx: 2, kind: ParamKind::TextId, meaning: "" },
                Param { name: "name_or_aux_id", pop_idx: 1, kind: ParamKind::TextId, meaning: "" },
                Param { name: "voice_or_aux_id", pop_idx: 0, kind: ParamKind::TextId, meaning: "" },
            ],
            return_kind: ReturnKind::Void,
            returns: false,
            side_effects: vec![SideEffect::ChangesTextState],
            purpose: "Set current ADV line and start visual reveal; does not block VM.",
            evidence: vec![
                Evidence { kind: EvidenceKind::Writeup, reference: "docs/writeup.md 24.17" },
            ],
            implementation_status: ImplStatus::Blocked,
            decompiler_status: ImplStatus::Blocked,
        }
    }
}

fn record_from_block_1(i: usize) -> (sig: ExtSig)
    requires
        12 <= i < 24,
    ensures
        sig@ == signature_entry(i as int),
{
    if i == 12 {
        ExtSig {
            category: 2,
            index: 22,
            canonical_name: "text_set_base",
            name: "text_set_base",
            game_handler_ea: None,
            pal_export_name: None,
            pal_export_ea: None,
            pop_count: 4,
            pop_order: Vec::new(),
            display_order: Vec::new(),
            params: vec![
                Param { name: "mode", pop_idx: 3, kind: ParamKind::Mode, meaning: "text base/window mode" },
                Param { name: "x", pop_idx: 2, kind: ParamKind::CoordinateX, meaning: "optional base x override; 0x0fffffff means default" },
                Param { name: "y", pop_idx: 1, kind: ParamKind::CoordinateY, meaning: "optional base y override; 0x0fffffff means default" },
                Param { name: "base_resource", pop_idx: 0, kind: ParamKind::ResourceStringFromFileDat, meaning: "File.dat id for ADV text-window base image" },
            ],
            return_kind: ReturnKind::Integer,
            returns: true,
            side_effects: vec![SideEffect::ChangesTextState],
            purpose: "Select ADV message-window base image/resource.",
            evidence: vec![
                Evidence { kind: EvidenceKind::Disassembly, reference: "docs/dis.txt 000346D8..00034760" },
                Evidence { kind: EvidenceKind::RuntimeTrace, reference: "text_set_base args=[0,268435455,268435455,1418]" },
            ],
            implementation_status: ImplStatus::Blocked,
            decompiler_status: ImplStatus::Blocked,
        }
    } else if i == 13 {
        ExtSig {
            category: 2,
            index: 25,
            canonical_name: "texttimecheckset",
            name: "texttimecheckset",
            game_handler_ea: Some("0x0043E590"),
            pal_export_name: None,
            pal_export_ea: None,
            pop_count: 5,
            pop_order: Vec::new(),
            display_order: Vec::new(),
            params: vec![
                Param { name: "text_id", pop_idx: 0, kind: ParamKind::TextId, meaning: "string id resolved by sub_44B120" },
                Param { name: "x", pop_idx: 1, kind: ParamKind::CoordinateX, meaning: "check sprite x coordinate" },
                Param { name: "y", pop_idx: 2, kind: ParamKind::CoordinateY, meaning: "check sprite y coordinate" },
                Param { name: "width", pop_idx: 3, kind: ParamKind::CoordinateX, meaning: "check text width" },
                Param { name: "height", pop_idx: 4, kind: ParamKind::CoordinateY, meaning: "check text height" },
            ],
            return_kind: ReturnKind::Integer,
            returns: true,
            side_effects: vec![SideEffect::CreatesTask, SideEffect::CreatesSprite, SideEffect::ChangesTextState],
            purpose: "Create native ADV text timing-check task/sprite.",
            evidence: vec![
                Evidence { kind: EvidenceKind::GameSqlite, reference: "reverse/Game.sqlite sub_43E590 pops five args and calls sub_43A470" },
                Evidence { kind: EvidenceKind::GameSqlite, reference: "reverse/Game.sqlite sub_43A470 creates AdvTextTimeCheckTask and PalSpriteCreate/PalSpriteSetPos" },
            ],
            implementation_status: ImplStatus::Blocked,
            decompiler_status: ImplStatus::Verified,
        }
    } else if i == 14 {
        ExtSig {
            category: 2,
            index: 26,
            canonical_name: "text_task_free",
            name: "text_task_free",
            game_handler_ea: Some("0x0043E550"),
            pal_export_name: None,
            pal_export_ea: None,
            pop_count: 0,
            pop_order: Vec::new(),
            display_order: Vec::new(),
            params: vec![],
            return_kind: ReturnKind::Integer,
            returns: true,
            side_effects: vec![SideEffect::ChangesTextState],
            purpose: "Free native text reveal/task state.",
            evidence: vec![
                Evidence { kind: EvidenceKind::GameSqlite, reference: "reverse/Game.sqlite VmExtcall_TextTaskFree 0x0043E550 pops no args and frees text task" },
            ],
            implementation_status: ImplStatus::Verified,
            decompiler_status: ImplStatus::Verified,
        }
    } else if i == 15 {
        ExtSig {
            category: 2,
            index: 27,
            canonical_name: "text_sprite_lock",
            name: "text_sprite_lock",
            game_handler_ea: Some("0x0043E4A0"),
            pal_export_name: None,
            pal_export_ea: None,
            pop_count: 0,
            pop_order: Vec::new(),
            display_order: Vec::new(),
            params: vec![],
            return_kind: ReturnKind::Integer,
            returns: true,
            side_effects: vec![SideEffect::ChangesTextState, SideEffect::MutatesSprite],
            purpose: "Lock native text sprite and clear alpha bytes.",
            evidence: vec![
                Evidence { kind: EvidenceKind::GameSqlite, reference: "reverse/Game.sqlite VmExtcall_TextSpriteLock 0x0043E4A0 pops no args and locks/edits text sprite pixels" },
            ],
            implementation_status: ImplStatus::Verified,
            decompiler_status: ImplStatus::Verified,
        }
    } else if i == 16 {
        ExtSig {
            category: 2,
            index: 28,
            canonical_name: "text_set_color",
            name: "text_set_color",
            game_handler_ea: Some("0x0043E2E0"),
            pal_export_name: None,
            pal_export_ea: None,
            pop_count: 4,
            pop_order: Vec::new(),
            display_order: Vec::new(),
            params: vec![
                Param { name: "color_slot", pop_idx: 0, kind: ParamKind::Integer, meaning: "native text color table slot, valid when <16" },
                Param { name: "label_string", pop_idx: 1, kind: ParamKind::TextId, meaning: "label string id copied with sub_44B120" },
                Param { name: "text_color", pop_idx: 2, kind: ParamKind::Color, meaning: "primary glyph color" },
                Param { name: "effect_color", pop_idx: 3, kind: ParamKind::Color, meaning: "outline/effect color" },
            ],
            return_kind: ReturnKind::Integer,
            returns: true,
            side_effects: vec![SideEffect::ChangesTextState],
            purpose: "Configure ADV text color-table entry.",
            evidence: vec![
                Evidence { kind: EvidenceKind::GameSqlite, reference: "reverse/Game.sqlite sub_43E2E0 pops slot,label,text_color,effect_color and writes the text color table" },
            ],
            implementation_status: ImplStatus::Blocked,
            decompiler_status: ImplStatus::Verified,
        }
    } else if i == 17 {
        ExtSig {
            category: 3,
            index: 2,
            canonical_name: "sp_set",
            name: "sp_set",
            game_handler_ea: None,
            pal_export_name: None,
            pal_export_ea: None,
            pop_count: 4,
            pop_order: Vec::new(),
            display_order: Vec::new(),
            params: vec![
                Param { name: "slot", pop_idx: 1, kind: ParamKind::SpriteSlot, meaning: "" },
                Param { name: "name", pop_idx: 0, kind: ParamKind::ResourceStringFromFileDat, meaning: "" },
                Param { name: "x", pop_idx: 2, kind: ParamKind::CoordinateX, meaning: "" },
                Param { name: "y", pop_idx: 3, kind: ParamKind::CoordinateY, meaning: "" },
            ],
            return_kind: ReturnKind::Void,
            returns: false,
            side_effects: vec![SideEffect::CreatesSprite, SideEffect::MutatesSprite],
            purpose: "Load/set a sprite slot from a File.dat resource name.",
            evidence: vec![
                Evidence { kind: EvidenceKind::Writeup, reference: "docs/writeup.md sprite sections" },
            ],
            implementation_status: ImplStatus::Blocked,
            decompiler_status: ImplStatus::Blocked,
        }
    } else if i == 18 {
        ExtSig {
            category: 3,
            index: 3,
            canonical_name: "sp_set_ex",
            name: "sp_set_ex",
            game_handler_ea: None,
            pal_export_name: None,
            pal_export_ea: None,
            pop_count: 5,
            pop_order: Vec::new(),
            display_order: Vec::new(),
            params: vec![
                Param { name: "slot", pop_idx: 1, kind: ParamKind::SpriteSlot, meaning: "" },
                Param { name: "name", pop_idx: 0, kind: ParamKind::ResourceStringFromFileDat, meaning: "" },
                Param { name: "x", pop_idx: 2, kind: ParamKind::CoordinateX, meaning: "" },
                Param { name: "y", pop_idx: 3, kind: ParamKind::CoordinateY, meaning: "" },
                Param { name: "z", pop_idx: 4, kind: ParamKind::CoordinateZ, meaning: "" },
            ],
            return_kind: ReturnKind::Void,
            returns: false,
            side_effects: vec![SideEffect::CreatesSprite, SideEffect::MutatesSprite],
            purpose: "Load/set a sprite slot with explicit z/priority.",
            evidence: vec![
                Evidence { kind: EvidenceKind::Writeup, reference: "docs/writeup.md 24.13" },
            ],
            implementation_status: ImplStatus::Blocked,
            decompiler_status: ImplStatus::Blocked,
        }
    } else if i == 19 {
        ExtSig {
            category: 3,
            index: 4,
            canonical_name: "sp_set_pos",
            name: "sp_set_pos",
            game_handler_ea: None,
            pal_export_name: None,
            pal_export_ea: None,
            pop_count: 4,
            pop_order: Vec::new(),
            display_order: Vec::new(),
            params: vec![
                Param { name: "slot", pop_idx: 0, kind: ParamKind::SpriteSlot, meaning: "" },
                Param { name: "x", pop_idx: 1, kind: ParamKind::CoordinateX, meaning: "" },
                Param { name: "y", pop_idx: 2, kind: ParamKind::CoordinateY, meaning: "" },
                Param { name: "z", pop_idx: 3, kind: ParamKind::CoordinateZ, meaning: "" },
            ],
            return_kind: ReturnKind::Void,
            returns: false,
            side_effects: vec![SideEffect::MutatesSprite],
            purpose: "Move a sprite slot immediately.",
            evidence: vec![
                Evidence { kind: EvidenceKind::Writeup, reference: "docs/writeup.md sprite sections" },
            ],
            implementation_status: ImplStatus::Blocked,
            decompiler_status: ImplStatus::Blocked,
        }
    } else if i == 20 {
        ExtSig {
            category: 3,
            index: 5,
            canonical_name: "sp_cls",
            name: "sp_cls",
            game_handler_ea: None,
            pal_export_name: None,
            pal_export_ea: None,
            pop_count: 1,
            pop_order: Vec::new(),
            display_order: Vec::new(),
            params: vec![
                Param { name: "slot", pop_idx: 0, kind: ParamKind::SpriteSlot, meaning: "" },
            ],
            return_kind: ReturnKind::Void,
            returns: false,
            side_effects: vec![SideEffect::DeletesSprite],
            purpose: "Release/clear a sprite slot.",
            evidence: vec![
                Evidence { kind: EvidenceKind::Writeup, reference: "docs/writeup.md sprite sections" },
            ],
            implementation_status: ImplStatus::Blocked,
            decompiler_status: ImplStatus::Blocked,
        }
    } else if i == 21 {
        ExtSig {
            category: 3,
            index: 6,
            canonical_name: "sp_set_alpha",
            name: "sp_set_alpha",
            game_handler_ea: Some("0x004281D0"),
            pal_export_name: Some("PalSpriteSetColor"),
            pal_export_ea: Some("0x1025FFC0"),
            pop_count: 2,
            pop_order: Vec::new(),
            display_order: Vec::new(),
            params: vec![
                Param { name: "slot", pop_idx: 0, kind: ParamKind::SpriteSlot, meaning: "sprite slot or encoded PAL layer slot such as 0x010000NN" },
                Param { name: "alpha", pop_idx: 1, kind: ParamKind::Alpha, meaning: "0 transparent, 255 opaque" },
            ],
            return_kind: ReturnKind::Integer,
            returns: true,
            side_effects: vec![SideEffect::MutatesSprite],
            purpose: "Set the sprite/button alpha lane by replacing the high byte of the native color field.",
            evidence: vec![
                Evidence { kind: EvidenceKind::GameSqlite, reference: "reverse/Game.sqlite sub_4281D0 pops slot,alpha and writes wrapper color alpha high byte" },
                Evidence { kind: EvidenceKind::PalSqlite, reference: "reverse/PAL.sqlite PalSpriteSetColor_0 writes PalSprite+0x3C color; sub_448600 applies dirty 0x80000" },
            ],
            implementation_status: ImplStatus::Verified,
            decompiler_status: ImplStatus::Verified,
        }
    } else if i == 22 {
        ExtSig {
            category: 3,
            index: 7,
            canonical_name: "set_priority",
            name: "set_priority",
            game_handler_ea: Some("0x00427780"),
            pal_export_name: None,
            pal_export_ea: None,
            pop_count: 1,
            pop_order: Vec::new(),
            display_order: Vec::new(),
            params: vec![
                Param { name: "lane", pop_idx: 0, kind: ParamKind::Integer, meaning: "priority lane delta; native adds 134*lane to ctx+804232" },
            ],
            return_kind: ReturnKind::Integer,
            returns: true,
            side_effects: vec![SideEffect::MutatesSprite],
            purpose: "Advance the Game sprite priority cursor.",
            evidence: vec![
                Evidence { kind: EvidenceKind::GameSqlite, reference: "reverse/Game.sqlite sub_427780 pops lane and updates VM offset +804232 by 134*lane" },
            ],
            implementation_status: ImplStatus::Verified,
            decompiler_status: ImplStatus::Verified,
        }
    } else {
        ExtSig {
            category: 3,
            index: 8,
            canonical_name: "sp_get_filename",
            name: "sp_get_filename",
            game_handler_ea: Some("0x004244E0"),
            pal_export_name: None,
            pal_export_ea: None,
            pop_count: 2,
            pop_order: Vec::new(),
            display_order: Vec::new(),
            params: vec![
                Param { name: "slot", pop_idx: 0, kind: ParamKind::SpriteSlot, meaning: "script sprite slot" },
                Param { name: "dst_slot", pop_idx: 1, kind: ParamKind::BufferPointer, meaning: "dynamic string destination" },
            ],
            return_kind: ReturnKind::Integer,
            returns: true,
            side_effects: vec![SideEffect::WritesVmMemory],
            purpose: "Copy sprite resource filename/name to dynamic string storage.",
            evidence: vec![
                Evidence { kind: EvidenceKind::GameSqlite, reference: "reverse/Game.sqlite VmExtcall_SpSet2/sub_4244E0 pops slot and dst string slot, copies sprite filename, returns resource id" },
            ],
            implementation_status: ImplStatus::Verified,
            decompiler_status: ImplStatus::Verified,
        }
    }
}

fn record_from_block_2(i: usize) -> (sig: ExtSig)
    requires
        24 <= i < 36,
    ensures
        sig@ == signature_entry(i as int),
{
    if i == 24 {
        ExtSig {
            category: 3,
            index: 9,
            canonical_name: "sp_set_center",
            name: "sp_set_center",
            game_handler_ea: Some("0x004282B0"),
            pal_export_name: None,
            pal_export_ea: None,
            pop_count: 3,
            pop_order: Vec::new(),
            display_order: Vec::new(),
            params: vec![
                Param { name: "slot", pop_idx: 0, kind: ParamKind::SpriteSlot, meaning: "" },
                Param { name: "center_x", pop_idx: 1, kind: ParamKind::CoordinateX, meaning: "" },
                Param { name: "center_y", pop_idx: 2, kind: ParamKind::CoordinateY, meaning: "" },
            ],
            return_kind: ReturnKind::Integer,
            returns: true,
            side_effects: vec![SideEffect::MutatesSprite],
            purpose: "Set PalSprite center offset for a sprite slot.",
            evidence: vec![
                Evidence { kind: EvidenceKind::GameSqlite, reference: "reverse/Game.sqlite sub_4282B0 pops slot/center_x/center_y and calls PalSpriteSetCenterOffset" },
            ],
            implementation_status: ImplStatus::Verified,
            decompiler_status: ImplStatus::Verified,
        }
    } else if i == 25 {
        ExtSig {
            category: 3,
            index: 11,
            canonical_name: "sp_cls_ex",
            name: "sp_cls_ex",
            game_handler_ea: None,
            pal_export_name: None,
            pal_export_ea: None,
            pop_count: 2,
            pop_order: Vec::new(),
            display_order: Vec::new(),
            params: vec![
                Param { name: "first_slot", pop_idx: 0, kind: ParamKind::SpriteSlot, meaning: "" },
                Param { name: "count", pop_idx: 1, kind: ParamKind::Integer, meaning: "" },
            ],
            return_kind: ReturnKind::Void,
            returns: false,
            side_effects: vec![SideEffect::DeletesSprite],
            purpose: "Clear count consecutive sprite slots from first_slot.",
            evidence: vec![
                Evidence { kind: EvidenceKind::GameSqlite, reference: "reverse/Game.sqlite sprite dispatch shares 3:0005/000B/000D clear path" },
                Evidence { kind: EvidenceKind::PalSqlite, reference: "PalSpriteRelease 0x10120D45 / Game import thunk 0x45049E" },
                Evidence { kind: EvidenceKind::RuntimeTrace, reference: "Koikake Script.src popup teardown pushes count 2 then first_slot 126" },
            ],
            implementation_status: ImplStatus::Blocked,
            decompiler_status: ImplStatus::Blocked,
        }
    } else if i == 26 {
        ExtSig {
            category: 3,
            index: 12,
            canonical_name: "set_filter",
            name: "set_filter",
            game_handler_ea: None,
            pal_export_name: None,
            pal_export_ea: None,
            pop_count: 2,
            pop_order: Vec::new(),
            display_order: Vec::new(),
            params: vec![
                Param { name: "slot", pop_idx: 0, kind: ParamKind::SpriteSlot, meaning: "" },
                Param { name: "filter_mode", pop_idx: 1, kind: ParamKind::Mode, meaning: "" },
            ],
            return_kind: ReturnKind::Void,
            returns: false,
            side_effects: vec![SideEffect::MutatesSprite],
            purpose: "Set a sprite render/filter mode; current VM treats it as stack-disciplined state because the observed script mainly uses it as a render pipeline flag.",
            evidence: vec![
                Evidence { kind: EvidenceKind::GameSqlite, reference: "reverse/Game.sqlite decompilation search for set_filter wrapper" },
                Evidence { kind: EvidenceKind::PalSqlite, reference: "PalSpriteSetRenderMode 0x1011B4F8 / Game import thunk 0x4506BE" },
                Evidence { kind: EvidenceKind::RuntimeTrace, reference: "pal-vm dispatch_sprite_ext index 12 pops 2" },
            ],
            implementation_status: ImplStatus::Blocked,
            decompiler_status: ImplStatus::Blocked,
        }
    } else if i == 27 {
        ExtSig {
            category: 3,
            index: 16,
            canonical_name: "sp_set_render_mode",
            name: "sp_set_render_mode",
            game_handler_ea: Some("0x00427530"),
            pal_export_name: None,
            pal_export_ea: None,
            pop_count: 2,
            pop_order: Vec::new(),
            display_order: Vec::new(),
            params: vec![
                Param { name: "slot", pop_idx: 0, kind: ParamKind::SpriteSlot, meaning: "script sprite slot" },
                Param { name: "mode", pop_idx: 1, kind: ParamKind::Mode, meaning: "native render mode before +1 adjustment" },
            ],
            return_kind: ReturnKind::Integer,
            returns: true,
            side_effects: vec![SideEffect::MutatesSprite],
            purpose: "Set sprite render/blend mode.",
            evidence: vec![
                Evidence { kind: EvidenceKind::GameSqlite, reference: "reverse/Game.sqlite sub_427530 pops slot/mode and calls PalSpriteSetRenderMode(mode+1)" },
            ],
            implementation_status: ImplStatus::Verified,
            decompiler_status: ImplStatus::Verified,
        }
    } else if i == 28 {
        ExtSig {
            category: 3,
            index: 15,
            canonical_name: "sp_set_rect_pos",
            name: "sp_set_rect_pos",
            game_handler_ea: Some("0x004283B0"),
            pal_export_name: None,
            pal_export_ea: None,
            pop_count: 3,
            pop_order: Vec::new(),
            display_order: Vec::new(),
            params: vec![
                Param { name: "slot", pop_idx: 0, kind: ParamKind::SpriteSlot, meaning: "" },
                Param { name: "cell_x", pop_idx: 1, kind: ParamKind::Integer, meaning: "" },
                Param { name: "cell_y", pop_idx: 2, kind: ParamKind::Integer, meaning: "" },
            ],
            return_kind: ReturnKind::Integer,
            returns: true,
            side_effects: vec![SideEffect::MutatesSprite],
            purpose: "Set the active sprite cell/rect position.",
            evidence: vec![
                Evidence { kind: EvidenceKind::GameSqlite, reference: "reverse/Game.sqlite sub_4283B0 pops slot/cell_x/cell_y and calls PalSpriteRectSetPos" },
            ],
            implementation_status: ImplStatus::Verified,
            decompiler_status: ImplStatus::Verified,
        }
    } else if i == 29 {
        ExtSig {
            category: 3,
            index: 17,
            canonical_name: "sp_set_scale",
            name: "sp_set_scale",
            game_handler_ea: Some("0x00428000"),
            pal_export_name: Some("PalSpriteSetScale"),
            pal_export_ea: Some("0x10260DF0"),
            pop_count: 2,
            pop_order: Vec::new(),
            display_order: Vec::new(),
            params: vec![
                Param { name: "slot", pop_idx: 0, kind: ParamKind::SpriteSlot, meaning: "sprite slot resolved through sub_449120" },
                Param { name: "scale", pop_idx: 1, kind: ParamKind::Integer, meaning: "raw percent; native wrapper stores scale / 100.0" },
            ],
            return_kind: ReturnKind::Integer,
            returns: true,
            side_effects: vec![SideEffect::MutatesSprite],
            purpose: "Set the sprite scale lane; native handler does not recompute x/y placement.",
            evidence: vec![
                Evidence { kind: EvidenceKind::GameSqlite, reference: "reverse/Game.sqlite sub_428000 pops slot,scale and stores scale/100.0 into wrapper+84" },
                Evidence { kind: EvidenceKind::PalSqlite, reference: "reverse/PAL.sqlite PalSpriteSetScale_0 writes PalSprite+112 and returns 1" },
            ],
            implementation_status: ImplStatus::Verified,
            decompiler_status: ImplStatus::Verified,
        }
    } else if i == 30 {
        ExtSig {
            category: 3,
            index: 18,
            canonical_name: "sp_set_rotate",
            name: "sp_set_rotate",
            game_handler_ea: Some("0x00427E90"),
            pal_export_name: None,
            pal_export_ea: None,
            pop_count: 4,
            pop_order: Vec::new(),
            display_order: Vec::new(),
            params: vec![
                Param { name: "slot", pop_idx: 0, kind: ParamKind::SpriteSlot, meaning: "" },
                Param { name: "x", pop_idx: 1, kind: ParamKind::Integer, meaning: "" },
                Param { name: "y", pop_idx: 2, kind: ParamKind::Integer, meaning: "" },
                Param { name: "z", pop_idx: 3, kind: ParamKind::Integer, meaning: "" },
            ],
            return_kind: ReturnKind::Integer,
            returns: true,
            side_effects: vec![SideEffect::MutatesSprite],
            purpose: "Set sprite x/y/z rotation lanes.",
            evidence: vec![
                Evidence { kind: EvidenceKind::GameSqlite, reference: "reverse/Game.sqlite sub_427E90 pops slot/x/y/z and writes rotation fields" },
            ],
            implementation_status: ImplStatus::Verified,
            decompiler_status: ImplStatus::Verified,
        }
    } else if i == 31 {
        ExtSig {
            category: 3,
            index: 19,
            canonical_name: "face_init",
            name: "face_init",
            game_handler_ea: Some("0x004273C0"),
            pal_export_name: None,
            pal_export_ea: None,
            pop_count: 5,
            pop_order: Vec::new(),
            display_order: Vec::new(),
            params: vec![
                Param { name: "face_id", pop_idx: 0, kind: ParamKind::Integer, meaning: "face table index" },
                Param { name: "sprite_slot", pop_idx: 1, kind: ParamKind::SpriteSlot, meaning: "script sprite slot used for this face part" },
                Param { name: "center_x", pop_idx: 2, kind: ParamKind::Coordinate, meaning: "face anchor x or -1" },
                Param { name: "center_y", pop_idx: 3, kind: ParamKind::Coordinate, meaning: "face anchor y or -1" },
                Param { name: "priority_lane", pop_idx: 4, kind: ParamKind::Integer, meaning: "native priority lane stored as -134*lane" },
            ],
            return_kind: ReturnKind::Integer,
            returns: true,
            side_effects: vec![SideEffect::MutatesSprite],
            purpose: "Initialize a face/part slot mapping and anchor table entry.",
            evidence: vec![
                Evidence { kind: EvidenceKind::GameSqlite, reference: "reverse/Game.sqlite sub_4273C0 pops face_id/sprite_slot/center_x/center_y/priority_lane, writes ctx+710420..710432, and logs face_init" },
            ],
            implementation_status: ImplStatus::Verified,
            decompiler_status: ImplStatus::Verified,
        }
    } else if i == 32 {
        ExtSig {
            category: 3,
            index: 20,
            canonical_name: "face_set",
            name: "face_set",
            game_handler_ea: Some("0x00426E50"),
            pal_export_name: None,
            pal_export_ea: None,
            pop_count: 4,
            pop_order: Vec::new(),
            display_order: Vec::new(),
            params: vec![
                Param { name: "resource", pop_idx: 0, kind: ParamKind::ResourceStringFromFileDat, meaning: "PGD/part resource or 0x0fffffff clear sentinel" },
                Param { name: "face_id", pop_idx: 1, kind: ParamKind::Integer, meaning: "face table index" },
                Param { name: "dx", pop_idx: 2, kind: ParamKind::Coordinate, meaning: "x offset from anchor/default" },
                Param { name: "dy", pop_idx: 3, kind: ParamKind::Coordinate, meaning: "y offset from anchor/default" },
            ],
            return_kind: ReturnKind::Integer,
            returns: true,
            side_effects: vec![SideEffect::MutatesSprite, SideEffect::ReadsFile],
            purpose: "Load or clear a face/standing-picture part through the face table.",
            evidence: vec![
                Evidence { kind: EvidenceKind::GameSqlite, reference: "reverse/Game.sqlite sub_426E50 pops resource/face_id/dx/dy, resolves ctx+710420 face table, releases old sprite, loads resource, computes position, and logs face_set" },
            ],
            implementation_status: ImplStatus::Verified,
            decompiler_status: ImplStatus::Verified,
        }
    } else if i == 33 {
        ExtSig {
            category: 3,
            index: 21,
            canonical_name: "sp_get_color",
            name: "sp_get_color",
            game_handler_ea: Some("0x00427A20"),
            pal_export_name: None,
            pal_export_ea: None,
            pop_count: 1,
            pop_order: Vec::new(),
            display_order: Vec::new(),
            params: vec![
                Param { name: "slot", pop_idx: 0, kind: ParamKind::SpriteSlot, meaning: "" },
            ],
            return_kind: ReturnKind::Integer,
            returns: true,
            side_effects: vec![SideEffect::WritesVmMemory],
            purpose: "Return a sprite's RGB color, or -1 when no image exists.",
            evidence: vec![
                Evidence { kind: EvidenceKind::GameSqlite, reference: "reverse/Game.sqlite sub_427A20 pops slot and writes wrapper color & 0xFFFFFF to return slot" },
            ],
            implementation_status: ImplStatus::Verified,
            decompiler_status: ImplStatus::Verified,
        }
    } else if i == 34 {
        ExtSig {
            category: 3,
            index: 22,
            canonical_name: "sptext",
            name: "sptext",
            game_handler_ea: None,
            pal_export_name: None,
            pal_export_ea: None,
            pop_count: 5,
            pop_order: Vec::new(),
            display_order: Vec::new(),
            params: vec![
                Param { name: "slot", pop_idx: 0, kind: ParamKind::SpriteSlot, meaning: "" },
                Param { name: "text_id", pop_idx: 1, kind: ParamKind::TextId, meaning: "" },
                Param { name: "x", pop_idx: 2, kind: ParamKind::CoordinateX, meaning: "" },
                Param { name: "y", pop_idx: 3, kind: ParamKind::CoordinateY, meaning: "" },
                Param { name: "mode", pop_idx: 4, kind: ParamKind::Mode, meaning: "" },
            ],
            return_kind: ReturnKind::Void,
            returns: false,
            side_effects: vec![SideEffect::CreatesSprite, SideEffect::ChangesTextState],
            purpose: "Create a transparent text sprite through the PAL font/text surface path.",
            evidence: vec![
                Evidence { kind: EvidenceKind::Writeup, reference: "docs/writeup.md AdvCommandSpText" },
                Evidence { kind: EvidenceKind::RuntimeTrace, reference: "AdvCommandSpText 5-arg path" },
            ],
            implementation_status: ImplStatus::Blocked,
            decompiler_status: ImplStatus::Blocked,
        }
    } else {
        ExtSig {
            category: 3,
            index: 23,
            canonical_name: "face_cls",
            name: "face_cls",
            game_handler_ea: Some("0x00426DB0"),
            pal_export_name: None,
            pal_export_ea: None,
            pop_count: 1,
            pop_order: Vec::new(),
            display_order: Vec::new(),
            params: vec![
                Param { name: "face_id", pop_idx: 0, kind: ParamKind::Integer, meaning: "face table index" },
            ],
            return_kind: ReturnKind::Integer,
            returns: true,
            side_effects: vec![SideEffect::MutatesSprite],
            purpose: "Release the sprite currently mapped to a face table entry.",
            evidence: vec![
                Evidence { kind: EvidenceKind::GameSqlite, reference: "reverse/Game.sqlite sub_426DB0 pops face_id, reads ctx+710420[face_id], calls sub_4232E0 on that sprite wrapper, and logs face_cls" },
            ],
            implementation_status: ImplStatus::Verified,
            decompiler_status: ImplStatus::Verified,
        }
    }
}

fn record_from_block_3(i: usize) -> (sig: ExtSig)
    requires
        36 <= i < 48,
    ensures
        sig@ == signature_entry(i as int),
{
    if i == 36 {
        ExtSig {
            category: 3,
            index: 24,
            canonical_name: "sp_set_rect",
            name: "sp_set_rect",
            game_handler_ea: Some("0x004284D0"),
            pal_export_name: None,
            pal_export_ea: None,
            pop_count: 5,
            pop_order: Vec::new(),
            display_order: Vec::new(),
            params: vec![
                Param { name: "slot", pop_idx: 0, kind: ParamKind::SpriteSlot, meaning: "" },
                Param { name: "left", pop_idx: 1, kind: ParamKind::CoordinateX, meaning: "" },
                Param { name: "top", pop_idx: 2, kind: ParamKind::CoordinateY, meaning: "" },
                Param { name: "right", pop_idx: 3, kind: ParamKind::CoordinateX, meaning: "" },
                Param { name: "bottom", pop_idx: 4, kind: ParamKind::CoordinateY, meaning: "" },
            ],
            return_kind: ReturnKind::Integer,
            returns: true,
            side_effects: vec![SideEffect::MutatesSprite],
            purpose: "Set a sprite source rectangle.",
            evidence: vec![
                Evidence { kind: EvidenceKind::GameSqlite, reference: "reverse/Game.sqlite sub_4284D0 pops slot/left/top/right/bottom and writes rect fields" },
            ],
            implementation_status: ImplStatus::Verified,
            decompiler_status: ImplStatus::Verified,
        }
    } else if i == 37 {
        ExtSig {
            category: 3,
            index: 25,
            canonical_name: "sp_set_pos_move",
            name: "sp_set_pos_move",
            game_handler_ea: None,
            pal_export_name: None,
            pal_export_ea: None,
            pop_count: 4,
            pop_order: Vec::new(),
            display_order: Vec::new(),
            params: vec![
                Param { name: "slot", pop_idx: 0, kind: ParamKind::SpriteSlot, meaning: "" },
                Param { name: "dx", pop_idx: 1, kind: ParamKind::CoordinateX, meaning: "" },
                Param { name: "dy", pop_idx: 2, kind: ParamKind::CoordinateY, meaning: "" },
                Param { name: "dz", pop_idx: 3, kind: ParamKind::CoordinateZ, meaning: "" },
            ],
            return_kind: ReturnKind::Void,
            returns: false,
            side_effects: vec![SideEffect::MutatesSprite, SideEffect::CreatesTask],
            purpose: "Move or tween a sprite by a relative delta.",
            evidence: vec![
                Evidence { kind: EvidenceKind::Writeup, reference: "reverse/STRUCTS_RE.md VmExtcall_SpSetPosMove adds delta fields" },
                Evidence { kind: EvidenceKind::Writeup, reference: "docs/writeup.md 24.13" },
            ],
            implementation_status: ImplStatus::Blocked,
            decompiler_status: ImplStatus::Blocked,
        }
    } else if i == 38 {
        ExtSig {
            category: 3,
            index: 26,
            canonical_name: "sp_get_alpha",
            name: "sp_get_alpha",
            game_handler_ea: Some("0x00427AE0"),
            pal_export_name: None,
            pal_export_ea: None,
            pop_count: 1,
            pop_order: Vec::new(),
            display_order: Vec::new(),
            params: vec![
                Param { name: "slot", pop_idx: 0, kind: ParamKind::SpriteSlot, meaning: "" },
            ],
            return_kind: ReturnKind::Integer,
            returns: true,
            side_effects: vec![SideEffect::WritesVmMemory],
            purpose: "Return a sprite alpha value, or -1 when no image exists.",
            evidence: vec![
                Evidence { kind: EvidenceKind::GameSqlite, reference: "reverse/Game.sqlite sub_427AE0 pops slot and writes wrapper alpha byte to return slot" },
            ],
            implementation_status: ImplStatus::Verified,
            decompiler_status: ImplStatus::Verified,
        }
    } else if i == 39 {
        ExtSig {
            category: 3,
            index: 27,
            canonical_name: "sp_get_rotate",
            name: "sp_get_rotate",
            game_handler_ea: Some("0x00427810"),
            pal_export_name: None,
            pal_export_ea: None,
            pop_count: 2,
            pop_order: Vec::new(),
            display_order: Vec::new(),
            params: vec![
                Param { name: "slot", pop_idx: 0, kind: ParamKind::SpriteSlot, meaning: "sprite slot" },
                Param { name: "axis", pop_idx: 1, kind: ParamKind::Mode, meaning: "0=x, 1=y, 2=z; other returns slot in native" },
            ],
            return_kind: ReturnKind::Integer,
            returns: true,
            side_effects: vec![SideEffect::WritesVmMemory],
            purpose: "Return one sprite rotation axis.",
            evidence: vec![
                Evidence { kind: EvidenceKind::GameSqlite, reference: "reverse/Game.sqlite sub_427810 pops slot/axis and returns x/y/z rotation lane; debug string says sp_get_rotate" },
            ],
            implementation_status: ImplStatus::Verified,
            decompiler_status: ImplStatus::Verified,
        }
    } else if i == 40 {
        ExtSig {
            category: 3,
            index: 28,
            canonical_name: "sp_get_pos_to_mem",
            name: "sp_get_pos_to_mem",
            game_handler_ea: Some("0x00427D10"),
            pal_export_name: None,
            pal_export_ea: None,
            pop_count: 4,
            pop_order: Vec::new(),
            display_order: Vec::new(),
            params: vec![
                Param { name: "slot", pop_idx: 0, kind: ParamKind::SpriteSlot, meaning: "script sprite slot" },
                Param { name: "dst_x", pop_idx: 1, kind: ParamKind::BufferPointer, meaning: "Mem.dat destination for x or -1" },
                Param { name: "dst_y", pop_idx: 2, kind: ParamKind::BufferPointer, meaning: "Mem.dat destination for y or -1" },
                Param { name: "dst_z", pop_idx: 3, kind: ParamKind::BufferPointer, meaning: "Mem.dat destination for z or -1" },
            ],
            return_kind: ReturnKind::Integer,
            returns: true,
            side_effects: vec![SideEffect::WritesVmMemory],
            purpose: "Write sprite x/y/z position into Mem.dat destinations.",
            evidence: vec![
                Evidence { kind: EvidenceKind::GameSqlite, reference: "reverse/Game.sqlite sub_427D10 pops slot/dst_x/dst_y/dst_z and writes composite position to Mem.dat when dst != -1" },
            ],
            implementation_status: ImplStatus::Verified,
            decompiler_status: ImplStatus::Verified,
        }
    } else if i == 41 {
        ExtSig {
            category: 3,
            index: 29,
            canonical_name: "sp_get_width",
            name: "sp_get_width",
            game_handler_ea: None,
            pal_export_name: Some("PalSpriteGetWidth"),
            pal_export_ea: Some("0x1011EB2B"),
            pop_count: 1,
            pop_order: Vec::new(),
            display_order: Vec::new(),
            params: vec![
                Param { name: "slot", pop_idx: 0, kind: ParamKind::SpriteSlot, meaning: "script sprite slot" },
            ],
            return_kind: ReturnKind::Integer,
            returns: true,
            side_effects: vec![SideEffect::WritesVmMemory],
            purpose: "Return PAL logical/cell sprite width.",
            evidence: vec![
                Evidence { kind: EvidenceKind::PalSqlite, reference: "reverse/PAL.sqlite PalSpriteGetWidth 0x1011EB2B -> PalSpriteGetWidth_0 returns sprite+0x5C" },
                Evidence { kind: EvidenceKind::RuntimeTrace, reference: "pal-vm dispatch_sprite_ext index 29 pops slot and returns SpriteSystem::get_width" },
            ],
            implementation_status: ImplStatus::Verified,
            decompiler_status: ImplStatus::Verified,
        }
    } else if i == 42 {
        ExtSig {
            category: 3,
            index: 30,
            canonical_name: "sp_get_height",
            name: "sp_get_height",
            game_handler_ea: None,
            pal_export_name: Some("PalSpriteGetHeight"),
            pal_export_ea: Some("0x1011E46E"),
            pop_count: 1,
            pop_order: Vec::new(),
            display_order: Vec::new(),
            params: vec![
                Param { name: "slot", pop_idx: 0, kind: ParamKind::SpriteSlot, meaning: "script sprite slot" },
            ],
            return_kind: ReturnKind::Integer,
            returns: true,
            side_effects: vec![SideEffect::WritesVmMemory],
            purpose: "Return PAL logical/cell sprite height.",
            evidence: vec![
                Evidence { kind: EvidenceKind::PalSqlite, reference: "reverse/PAL.sqlite PalSpriteGetHeight 0x1011E46E -> PalSpriteGetHeight_0 returns sprite+0x60" },
                Evidence { kind: EvidenceKind::RuntimeTrace, reference: "pal-vm dispatch_sprite_ext index 30 pops slot and returns SpriteSystem::get_height" },
            ],
            implementation_status: ImplStatus::Verified,
            decompiler_status: ImplStatus::Verified,
        }
    } else if i == 43 {
        ExtSig {
            category: 3,
            index: 31,
            canonical_name: "sp_set_anim2",
            name: "sp_set_anim2",
            game_handler_ea: Some("0x004266C0"),
            pal_export_name: None,
            pal_export_ea: None,
            pop_count: 9,
            pop_order: Vec::new(),
            display_order: Vec::new(),
            params: vec![
                Param { name: "slot", pop_idx: 0, kind: ParamKind::SpriteSlot, meaning: "" },
                Param { name: "arg1", pop_idx: 1, kind: ParamKind::Integer, meaning: "" },
                Param { name: "arg2", pop_idx: 2, kind: ParamKind::Integer, meaning: "" },
                Param { name: "arg3", pop_idx: 3, kind: ParamKind::Integer, meaning: "" },
                Param { name: "arg4", pop_idx: 4, kind: ParamKind::Integer, meaning: "" },
                Param { name: "resource", pop_idx: 5, kind: ParamKind::ResourceStringFromFileDat, meaning: "" },
                Param { name: "arg6", pop_idx: 6, kind: ParamKind::Integer, meaning: "" },
                Param { name: "arg7", pop_idx: 7, kind: ParamKind::Integer, meaning: "" },
                Param { name: "lane", pop_idx: 8, kind: ParamKind::Integer, meaning: "" },
            ],
            return_kind: ReturnKind::Integer,
            returns: true,
            side_effects: vec![SideEffect::MutatesSprite, SideEffect::ReadsFile],
            purpose: "Configure native sprite mix/animation lane with nine parameters.",
            evidence: vec![
                Evidence { kind: EvidenceKind::GameSqlite, reference: "reverse/Game.sqlite sub_4266C0 pops nine values and writes sprite lane fields before sub_422F10" },
            ],
            implementation_status: ImplStatus::Blocked,
            decompiler_status: ImplStatus::Verified,
        }
    } else if i == 44 {
        ExtSig {
            category: 3,
            index: 34,
            canonical_name: "sp_set_anim_param",
            name: "sp_set_anim_param",
            game_handler_ea: Some("0x00425870"),
            pal_export_name: None,
            pal_export_ea: None,
            pop_count: 2,
            pop_order: Vec::new(),
            display_order: Vec::new(),
            params: vec![
                Param { name: "slot", pop_idx: 0, kind: ParamKind::SpriteSlot, meaning: "" },
                Param { name: "value", pop_idx: 1, kind: ParamKind::Integer, meaning: "" },
            ],
            return_kind: ReturnKind::Integer,
            returns: true,
            side_effects: vec![SideEffect::MutatesSprite],
            purpose: "Store native sprite parameter at ctx+666396.",
            evidence: vec![
                Evidence { kind: EvidenceKind::GameSqlite, reference: "reverse/Game.sqlite sub_425870 pops slot/value and stores value at ctx+666396 for that slot" },
            ],
            implementation_status: ImplStatus::Verified,
            decompiler_status: ImplStatus::Verified,
        }
    } else if i == 45 {
        ExtSig {
            category: 3,
            index: 35,
            canonical_name: "sp_get_anim_param",
            name: "sp_get_anim_param",
            game_handler_ea: Some("0x004257F0"),
            pal_export_name: None,
            pal_export_ea: None,
            pop_count: 1,
            pop_order: Vec::new(),
            display_order: Vec::new(),
            params: vec![
                Param { name: "slot", pop_idx: 0, kind: ParamKind::SpriteSlot, meaning: "" },
            ],
            return_kind: ReturnKind::Integer,
            returns: true,
            side_effects: vec![SideEffect::WritesVmMemory],
            purpose: "Return native sprite parameter at ctx+666396.",
            evidence: vec![
                Evidence { kind: EvidenceKind::GameSqlite, reference: "reverse/Game.sqlite sub_4257F0 pops slot and writes ctx+666396 slot value to return" },
            ],
            implementation_status: ImplStatus::Verified,
            decompiler_status: ImplStatus::Verified,
        }
    } else if i == 46 {
        ExtSig {
            category: 3,
            index: 36,
            canonical_name: "sp_get_scale",
            name: "sp_get_scale",
            game_handler_ea: Some("0x00427940"),
            pal_export_name: None,
            pal_export_ea: None,
            pop_count: 1,
            pop_order: Vec::new(),
            display_order: Vec::new(),
            params: vec![
                Param { name: "slot", pop_idx: 0, kind: ParamKind::SpriteSlot, meaning: "" },
            ],
            return_kind: ReturnKind::Integer,
            returns: true,
            side_effects: vec![SideEffect::WritesVmMemory],
            purpose: "Return a sprite scale as a PAL percent value, or -1 when no image exists.",
            evidence: vec![
                Evidence { kind: EvidenceKind::GameSqlite, reference: "reverse/Game.sqlite sub_427940 pops slot and writes summed native scale lanes * 100 to return slot" },
            ],
            implementation_status: ImplStatus::Verified,
            decompiler_status: ImplStatus::Verified,
        }
    } else {
        ExtSig {
            category: 3,
            index: 37,
            canonical_name: "sp_set_color",
            name: "sp_set_color",
            game_handler_ea: Some("0x00428120"),
            pal_export_name: None,
            pal_export_ea: None,
            pop_count: 2,
            pop_order: Vec::new(),
            display_order: Vec::new(),
            params: vec![
                Param { name: "slot", pop_idx: 0, kind: ParamKind::SpriteSlot, meaning: "" },
                Param { name: "rgb", pop_idx: 1, kind: ParamKind::Color, meaning: "" },
            ],
            return_kind: ReturnKind::Integer,
            returns: true,
            side_effects: vec![SideEffect::MutatesSprite],
            purpose: "Set a sprite RGB color while preserving alpha.",
            evidence: vec![
                Evidence { kind: EvidenceKind::GameSqlite, reference: "reverse/Game.sqlite sub_428120 pops slot/rgb and writes low 24 bits of the color field" },
            ],
            implementation_status: ImplStatus::Verified,
            decompiler_status: ImplStatus::Verified,
        }
    }
}

fn record_from_block_4(i: usize) -> (sig: ExtSig)
    requires
        48 <= i < 60,
    ensures
        sig@ == signature_entry(i as int),
{
    if i == 48 {
        ExtSig {
            category: 3,
            index: 39,
            canonical_name: "sp_set_shake",
            name: "sp_set_shake",
            game_handler_ea: None,
            pal_export_name: None,
            pal_export_ea: None,
            pop_count: 4,
            pop_order: Vec::new(),
            display_order: Vec::new(),
            params: vec![
                Param { name: "slot", pop_idx: 0, kind: ParamKind::SpriteSlot, meaning: "" },
                Param { name: "amplitude", pop_idx: 1, kind: ParamKind::Integer, meaning: "" },
                Param { name: "count", pop_idx: 2, kind: ParamKind::Integer, meaning: "" },
                Param { name: "axis", pop_idx: 3, kind: ParamKind::Mode, meaning: "" },
            ],
            return_kind: ReturnKind::Void,
            returns: false,
            side_effects: vec![SideEffect::MutatesSprite, SideEffect::CreatesTask],
            purpose: "Apply PAL-style shake animation to a sprite slot; VM currently models it as alternating offset motion.",
            evidence: vec![
                Evidence { kind: EvidenceKind::GameSqlite, reference: "reverse/Game.sqlite sprite handler path around sub_425640/sub_4275F0 stack pops" },
                Evidence { kind: EvidenceKind::RuntimeTrace, reference: "pal-vm ext_sp_set_shake pops 4; operand_fixture slot/amplitude/count/axis" },
                Evidence { kind: EvidenceKind::PalSqlite, reference: "PalSpriteSetOffsetPos 0x1011C65A / PalSpriteMoveOffsetPos 0x1011E022" },
            ],
            implementation_status: ImplStatus::Blocked,
            decompiler_status: ImplStatus::Blocked,
        }
    } else if i == 49 {
        ExtSig {
            category: 3,
            index: 41,
            canonical_name: "sp_set_anim",
            name: "sp_set_anim",
            game_handler_ea: None,
            pal_export_name: None,
            pal_export_ea: None,
            pop_count: 3,
            pop_order: Vec::new(),
            display_order: Vec::new(),
            params: vec![
                Param { name: "slot", pop_idx: 0, kind: ParamKind::SpriteSlot, meaning: "" },
                Param { name: "name", pop_idx: 1, kind: ParamKind::ResourceStringFromFileDat, meaning: "" },
                Param { name: "flag", pop_idx: 2, kind: ParamKind::Flag, meaning: "" },
            ],
            return_kind: ReturnKind::Void,
            returns: false,
            side_effects: vec![SideEffect::MutatesSprite, SideEffect::CreatesTask],
            purpose: "Attach sheet or named ANI animation to a sprite slot.",
            evidence: vec![
                Evidence { kind: EvidenceKind::Writeup, reference: "docs/writeup.md 24.13" },
            ],
            implementation_status: ImplStatus::Blocked,
            decompiler_status: ImplStatus::Blocked,
        }
    } else if i == 50 {
        ExtSig {
            category: 3,
            index: 44,
            canonical_name: "sp_set_vis_clip",
            name: "sp_set_vis_clip",
            game_handler_ea: Some("0x00424FD0"),
            pal_export_name: None,
            pal_export_ea: None,
            pop_count: 1,
            pop_order: Vec::new(),
            display_order: Vec::new(),
            params: vec![
                Param { name: "slot", pop_idx: 0, kind: ParamKind::SpriteSlot, meaning: "" },
            ],
            return_kind: ReturnKind::Integer,
            returns: true,
            side_effects: vec![SideEffect::MutatesSprite],
            purpose: "Enable the native sprite vis-clip bit.",
            evidence: vec![
                Evidence { kind: EvidenceKind::GameSqlite, reference: "reverse/Game.sqlite sub_424FD0 pops slot and ORs wrapper flag 0x1000000" },
            ],
            implementation_status: ImplStatus::Verified,
            decompiler_status: ImplStatus::Verified,
        }
    } else if i == 51 {
        ExtSig {
            category: 3,
            index: 46,
            canonical_name: "sp_show",
            name: "sp_show",
            game_handler_ea: None,
            pal_export_name: None,
            pal_export_ea: None,
            pop_count: 1,
            pop_order: Vec::new(),
            display_order: Vec::new(),
            params: vec![
                Param { name: "slot", pop_idx: 0, kind: ParamKind::SpriteSlot, meaning: "" },
            ],
            return_kind: ReturnKind::Void,
            returns: false,
            side_effects: vec![SideEffect::MutatesSprite],
            purpose: "Show sprite; VM calls PalSpriteViewCtrl(slot, true) after popping only the slot.",
            evidence: vec![
                Evidence { kind: EvidenceKind::GameSqlite, reference: "reverse/Game.sqlite sprite view-control handler" },
                Evidence { kind: EvidenceKind::PalSqlite, reference: "PalSpriteViewCtrl 0x1011B859 / Game import thunk 0x4503BE" },
                Evidence { kind: EvidenceKind::RuntimeTrace, reference: "pal-vm ext_sp_view_ctrl pops 1 (slot only)" },
            ],
            implementation_status: ImplStatus::Blocked,
            decompiler_status: ImplStatus::Blocked,
        }
    } else if i == 52 {
        ExtSig {
            category: 3,
            index: 47,
            canonical_name: "sp_hide",
            name: "sp_hide",
            game_handler_ea: None,
            pal_export_name: None,
            pal_export_ea: None,
            pop_count: 1,
            pop_order: Vec::new(),
            display_order: Vec::new(),
            params: vec![
                Param { name: "slot", pop_idx: 0, kind: ParamKind::SpriteSlot, meaning: "" },
            ],
            return_kind: ReturnKind::Void,
            returns: false,
            side_effects: vec![SideEffect::MutatesSprite],
            purpose: "Hide sprite; VM calls PalSpriteViewCtrl(slot, false) after popping only the slot.",
            evidence: vec![
                Evidence { kind: EvidenceKind::GameSqlite, reference: "reverse/Game.sqlite sprite view-control handler" },
                Evidence { kind: EvidenceKind::PalSqlite, reference: "PalSpriteViewCtrl 0x1011B859 / Game import thunk 0x4503BE" },
                Evidence { kind: EvidenceKind::RuntimeTrace, reference: "pal-vm ext_sp_view_ctrl pops 1 (slot only)" },
            ],
            implementation_status: ImplStatus::Blocked,
            decompiler_status: ImplStatus::Blocked,
        }
    } else if i == 53 {
        ExtSig {
            category: 3,
            index: 48,
            canonical_name: "is_sp",
            name: "is_sp",
            game_handler_ea: Some("0x00424CE0"),
            pal_export_name: None,
            pal_export_ea: None,
            pop_count: 1,
            pop_order: Vec::new(),
            display_order: Vec::new(),
            params: vec![
                Param { name: "slot", pop_idx: 0, kind: ParamKind::SpriteSlot, meaning: "" },
            ],
            return_kind: ReturnKind::Bool,
            returns: true,
            side_effects: vec![SideEffect::WritesVmMemory],
            purpose: "Test whether a sprite slot currently exists.",
            evidence: vec![
                Evidence { kind: EvidenceKind::GameSqlite, reference: "reverse/Game.sqlite sub_424CE0 pops slot and returns whether script/motion sprite storage is non-null" },
            ],
            implementation_status: ImplStatus::Verified,
            decompiler_status: ImplStatus::Verified,
        }
    } else if i == 54 {
        ExtSig {
            category: 3,
            index: 49,
            canonical_name: "sp_set_child",
            name: "sp_set_child",
            game_handler_ea: Some("0x00424A20"),
            pal_export_name: None,
            pal_export_ea: None,
            pop_count: 5,
            pop_order: Vec::new(),
            display_order: Vec::new(),
            params: vec![
                Param { name: "parent_slot", pop_idx: 0, kind: ParamKind::SpriteSlot, meaning: "" },
                Param { name: "child_slot", pop_idx: 1, kind: ParamKind::SpriteSlot, meaning: "" },
                Param { name: "offset_x", pop_idx: 2, kind: ParamKind::CoordinateX, meaning: "" },
                Param { name: "offset_y", pop_idx: 3, kind: ParamKind::CoordinateY, meaning: "" },
                Param { name: "child_index", pop_idx: 4, kind: ParamKind::Integer, meaning: "" },
            ],
            return_kind: ReturnKind::Integer,
            returns: true,
            side_effects: vec![SideEffect::MutatesSprite],
            purpose: "Attach a child sprite lane to a parent sprite.",
            evidence: vec![
                Evidence { kind: EvidenceKind::GameSqlite, reference: "reverse/Game.sqlite sub_424A20 pops parent_slot/child_slot/offset_x/offset_y/child_index and writes child-lane fields" },
            ],
            implementation_status: ImplStatus::Blocked,
            decompiler_status: ImplStatus::Verified,
        }
    } else if i == 55 {
        ExtSig {
            category: 3,
            index: 50,
            canonical_name: "sp_set_transition",
            name: "sp_set_transition",
            game_handler_ea: Some("0x00428F10"),
            pal_export_name: Some("PalSpriteSetTransition"),
            pal_export_ea: Some("0x1011E851"),
            pop_count: 4,
            pop_order: Vec::new(),
            display_order: Vec::new(),
            params: vec![
                Param { name: "slot", pop_idx: 1, kind: ParamKind::SpriteSlot, meaning: "sprite slot whose image is replaced" },
                Param { name: "name", pop_idx: 0, kind: ParamKind::ResourceStringFromFileDat, meaning: "new File.dat image resource" },
                Param { name: "transition_id", pop_idx: 2, kind: ParamKind::Integer, meaning: "native transition table id" },
                Param { name: "duration_ms", pop_idx: 3, kind: ParamKind::DurationMs, meaning: "transition duration" },
            ],
            return_kind: ReturnKind::Integer,
            returns: true,
            side_effects: vec![SideEffect::CreatesSprite, SideEffect::MutatesSprite, SideEffect::CreatesTask],
            purpose: "Replace a sprite image and queue a PAL transition from the old image to the new image.",
            evidence: vec![
                Evidence { kind: EvidenceKind::GameSqlite, reference: "reverse/Game.sqlite sub_428F10 pops name/slot/transition/duration, saves old sprite pointer, loads new image, and queues 0x30032 render action" },
                Evidence { kind: EvidenceKind::PalSqlite, reference: "PalSpriteSetTransition 0x1011E851 is the PAL transition primitive" },
            ],
            implementation_status: ImplStatus::Blocked,
            decompiler_status: ImplStatus::Verified,
        }
    } else if i == 56 {
        ExtSig {
            category: 3,
            index: 51,
            canonical_name: "sp_copy_image",
            name: "sp_copy_image",
            game_handler_ea: Some("0x00424940"),
            pal_export_name: None,
            pal_export_ea: None,
            pop_count: 1,
            pop_order: Vec::new(),
            display_order: Vec::new(),
            params: vec![
                Param { name: "slot", pop_idx: 0, kind: ParamKind::SpriteSlot, meaning: "sprite slot whose current image is moved to the transition source lane" },
            ],
            return_kind: ReturnKind::Integer,
            returns: true,
            side_effects: vec![SideEffect::MutatesSprite],
            purpose: "Move the current sprite image into the wrapper's transition source/copy lane.",
            evidence: vec![
                Evidence { kind: EvidenceKind::GameSqlite, reference: "reverse/Game.sqlite sub_424940 pops slot, cancels active transition, stores current sprite pointer into wrapper old-image lane, and zeros the live pointer" },
            ],
            implementation_status: ImplStatus::Blocked,
            decompiler_status: ImplStatus::Verified,
        }
    } else if i == 57 {
        ExtSig {
            category: 3,
            index: 52,
            canonical_name: "sp_transition",
            name: "sp_transition",
            game_handler_ea: Some("0x00424790"),
            pal_export_name: Some("PalSpriteSetTransition"),
            pal_export_ea: Some("0x1011E851"),
            pop_count: 3,
            pop_order: Vec::new(),
            display_order: Vec::new(),
            params: vec![
                Param { name: "slot", pop_idx: 0, kind: ParamKind::SpriteSlot, meaning: "sprite slot to transition" },
                Param { name: "transition_id", pop_idx: 1, kind: ParamKind::Integer, meaning: "native transition table id" },
                Param { name: "duration_ms", pop_idx: 2, kind: ParamKind::DurationMs, meaning: "transition duration" },
            ],
            return_kind: ReturnKind::Integer,
            returns: true,
            side_effects: vec![SideEffect::MutatesSprite, SideEffect::CreatesTask],
            purpose: "Start a PAL transition for the current sprite, using any saved source image lane.",
            evidence: vec![
                Evidence { kind: EvidenceKind::GameSqlite, reference: "reverse/Game.sqlite sub_424790 pops slot/transition/duration, creates transition handle, and queues 0x30032 or skip action" },
                Evidence { kind: EvidenceKind::PalSqlite, reference: "PalSpriteSetTransition 0x1011E851 and PalSpriteCancelTransition 0x1011B309" },
            ],
            implementation_status: ImplStatus::Blocked,
            decompiler_status: ImplStatus::Verified,
        }
    } else if i == 58 {
        ExtSig {
            category: 3,
            index: 53,
            canonical_name: "set_aspect_position_type",
            name: "set_aspect_position_type",
            game_handler_ea: Some("0x004246C0"),
            pal_export_name: Some("PalSpriteConvertAspectPosition"),
            pal_export_ea: Some("0x101215A1"),
            pop_count: 2,
            pop_order: Vec::new(),
            display_order: Vec::new(),
            params: vec![
                Param { name: "slot", pop_idx: 0, kind: ParamKind::SpriteSlot, meaning: "sprite slot looked up with sub_449120" },
                Param { name: "type_index", pop_idx: 1, kind: ParamKind::Mode, meaning: "index into native table xmmword_4A3FC0 = [0,1,2,3]" },
            ],
            return_kind: ReturnKind::Integer,
            returns: true,
            side_effects: vec![SideEffect::MutatesSprite],
            purpose: "Store PAL aspect-position conversion type for a sprite slot.",
            evidence: vec![
                Evidence { kind: EvidenceKind::GameSqlite, reference: "reverse/Game.sqlite sub_4246C0 pops slot,type_index and writes wrapper field 26" },
                Evidence { kind: EvidenceKind::PalSqlite, reference: "reverse/PAL.sqlite PalSpriteConvertAspectPosition_0 consumes the stored type" },
            ],
            implementation_status: ImplStatus::Partial,
            decompiler_status: ImplStatus::Verified,
        }
    } else {
        ExtSig {
            category: 3,
            index: 54,
            canonical_name: "get_backbuffer",
            name: "get_backbuffer",
            game_handler_ea: Some("0x00424620"),
            pal_export_name: None,
            pal_export_ea: None,
            pop_count: 1,
            pop_order: Vec::new(),
            display_order: Vec::new(),
            params: vec![
                Param { name: "slot", pop_idx: 0, kind: ParamKind::SpriteSlot, meaning: "" },
            ],
            return_kind: ReturnKind::Integer,
            returns: true,
            side_effects: vec![SideEffect::MutatesSprite],
            purpose: "Copy a sprite image into PAL's active backbuffer.",
            evidence: vec![
                Evidence { kind: EvidenceKind::GameSqlite, reference: "reverse/Game.sqlite sub_424620 pops slot and calls PalSpriteBackBafferCopy" },
            ],
            implementation_status: ImplStatus::Blocked,
            decompiler_status: ImplStatus::Verified,
        }
    }
}

fn record_from_block_5(i: usize) -> (sig: ExtSig)
    requires
        60 <= i < 72,
    ensures
        sig@ == signature_entry(i as int),
{
    if i == 60 {
        ExtSig {
            category: 3,
            index: 55,
            canonical_name: "sp_set_mask",
            name: "sp_set_mask",
            game_handler_ea: Some("0x00425EF0"),
            pal_export_name: None,
            pal_export_ea: None,
            pop_count: 9,
            pop_order: Vec::new(),
            display_order: Vec::new(),
            params: vec![
                Param { name: "slot", pop_idx: 0, kind: ParamKind::SpriteSlot, meaning: "" },
                Param { name: "dst_x", pop_idx: 1, kind: ParamKind::CoordinateX, meaning: "" },
                Param { name: "dst_y", pop_idx: 2, kind: ParamKind::CoordinateY, meaning: "" },
                Param { name: "width", pop_idx: 3, kind: ParamKind::Integer, meaning: "" },
                Param { name: "height", pop_idx: 4, kind: ParamKind::Integer, meaning: "" },
                Param { name: "mask_resource", pop_idx: 5, kind: ParamKind::ResourceStringFromFileDat, meaning: "" },
                Param { name: "mask_x", pop_idx: 6, kind: ParamKind::CoordinateX, meaning: "" },
                Param { name: "mask_y", pop_idx: 7, kind: ParamKind::CoordinateY, meaning: "" },
                Param { name: "lane", pop_idx: 8, kind: ParamKind::Integer, meaning: "" },
            ],
            return_kind: ReturnKind::Integer,
            returns: true,
            side_effects: vec![SideEffect::MutatesSprite, SideEffect::ReadsFile],
            purpose: "Apply an alpha mask resource to a live sprite surface.",
            evidence: vec![
                Evidence { kind: EvidenceKind::GameSqlite, reference: "reverse/Game.sqlite sub_425EF0 pops slot/dst_x/dst_y/width/height/resource/mask_x/mask_y/lane, writes mask lane fields, and calls sub_422FD0; sub_422FD0 calls PalSpriteMaskAlpha" },
                Evidence { kind: EvidenceKind::PalSqlite, reference: "PAL.dll PalSpriteMaskAlpha is the target alpha-mask primitive" },
            ],
            implementation_status: ImplStatus::Verified,
            decompiler_status: ImplStatus::Verified,
        }
    } else if i == 61 {
        ExtSig {
            category: 3,
            index: 56,
            canonical_name: "sp_set_motion_pos",
            name: "sp_set_motion_pos",
            game_handler_ea: Some("0x00426180"),
            pal_export_name: None,
            pal_export_ea: None,
            pop_count: 9,
            pop_order: Vec::new(),
            display_order: Vec::new(),
            params: vec![
                Param { name: "slot", pop_idx: 0, kind: ParamKind::SpriteSlot, meaning: "" },
                Param { name: "arg1", pop_idx: 1, kind: ParamKind::Integer, meaning: "" },
                Param { name: "arg2", pop_idx: 2, kind: ParamKind::Integer, meaning: "" },
                Param { name: "arg3", pop_idx: 3, kind: ParamKind::Integer, meaning: "" },
                Param { name: "arg4", pop_idx: 4, kind: ParamKind::Integer, meaning: "" },
                Param { name: "resource", pop_idx: 5, kind: ParamKind::ResourceStringFromFileDat, meaning: "" },
                Param { name: "arg6", pop_idx: 6, kind: ParamKind::Integer, meaning: "" },
                Param { name: "arg7", pop_idx: 7, kind: ParamKind::Integer, meaning: "" },
                Param { name: "lane", pop_idx: 8, kind: ParamKind::Integer, meaning: "" },
            ],
            return_kind: ReturnKind::Integer,
            returns: true,
            side_effects: vec![SideEffect::MutatesSprite, SideEffect::ReadsFile],
            purpose: "Configure native sprite motion/bitblt lane with nine parameters.",
            evidence: vec![
                Evidence { kind: EvidenceKind::GameSqlite, reference: "reverse/Game.sqlite sub_426180 pops nine values and writes sprite lane fields before sub_422E10" },
            ],
            implementation_status: ImplStatus::Blocked,
            decompiler_status: ImplStatus::Verified,
        }
    } else if i == 62 {
        ExtSig {
            category: 3,
            index: 57,
            canonical_name: "sp_set_anim",
            name: "sp_set_anim",
            game_handler_ea: None,
            pal_export_name: None,
            pal_export_ea: None,
            pop_count: 3,
            pop_order: Vec::new(),
            display_order: Vec::new(),
            params: vec![
                Param { name: "slot", pop_idx: 0, kind: ParamKind::SpriteSlot, meaning: "" },
                Param { name: "name", pop_idx: 1, kind: ParamKind::ResourceStringFromFileDat, meaning: "" },
                Param { name: "flag", pop_idx: 2, kind: ParamKind::Flag, meaning: "" },
            ],
            return_kind: ReturnKind::Void,
            returns: false,
            side_effects: vec![SideEffect::MutatesSprite, SideEffect::CreatesTask],
            purpose: "Alias/wrapper for sprite animation setup.",
            evidence: vec![
                Evidence { kind: EvidenceKind::Writeup, reference: "docs/writeup.md 24.13" },
            ],
            implementation_status: ImplStatus::Blocked,
            decompiler_status: ImplStatus::Blocked,
        }
    } else if i == 63 {
        ExtSig {
            category: 4,
            index: 0,
            canonical_name: "bgm_play",
            name: "bgm_play",
            game_handler_ea: None,
            pal_export_name: None,
            pal_export_ea: None,
            pop_count: 7,
            pop_order: Vec::new(),
            display_order: Vec::new(),
            params: vec![
                Param { name: "slot", pop_idx: 0, kind: ParamKind::SoundSlot, meaning: "" },
                Param { name: "unknown", pop_idx: 1, kind: ParamKind::Unknown, meaning: "" },
                Param { name: "name", pop_idx: 2, kind: ParamKind::ResourceStringFromFileDat, meaning: "" },
                Param { name: "flags", pop_idx: 3, kind: ParamKind::Flag, meaning: "" },
                Param { name: "volume", pop_idx: 4, kind: ParamKind::Volume, meaning: "" },
                Param { name: "unknown2", pop_idx: 5, kind: ParamKind::Unknown, meaning: "" },
                Param { name: "unknown3", pop_idx: 6, kind: ParamKind::Unknown, meaning: "" },
            ],
            return_kind: ReturnKind::Void,
            returns: false,
            side_effects: vec![SideEffect::CreatesSound, SideEffect::PlaysSound],
            purpose: "Load/play BGM with slot and volume parameters.",
            evidence: vec![
                Evidence { kind: EvidenceKind::Writeup, reference: "docs/writeup.md audio" },
            ],
            implementation_status: ImplStatus::Blocked,
            decompiler_status: ImplStatus::Blocked,
        }
    } else if i == 64 {
        ExtSig {
            category: 4,
            index: 1,
            canonical_name: "bgm_stop",
            name: "bgm_stop",
            game_handler_ea: None,
            pal_export_name: None,
            pal_export_ea: None,
            pop_count: 2,
            pop_order: Vec::new(),
            display_order: Vec::new(),
            params: vec![
                Param { name: "slot", pop_idx: 0, kind: ParamKind::SoundSlot, meaning: "" },
                Param { name: "fade_ms", pop_idx: 1, kind: ParamKind::DurationMs, meaning: "" },
            ],
            return_kind: ReturnKind::Void,
            returns: false,
            side_effects: vec![SideEffect::StopsSound],
            purpose: "Stop BGM slot, optionally with fade.",
            evidence: vec![
                Evidence { kind: EvidenceKind::Writeup, reference: "docs/writeup.md audio" },
            ],
            implementation_status: ImplStatus::Blocked,
            decompiler_status: ImplStatus::Blocked,
        }
    } else if i == 65 {
        ExtSig {
            category: 4,
            index: 2,
            canonical_name: "bgm_set_volume",
            name: "bgm_set_volume",
            game_handler_ea: None,
            pal_export_name: None,
            pal_export_ea: None,
            pop_count: 1,
            pop_order: Vec::new(),
            display_order: Vec::new(),
            params: vec![
                Param { name: "volume", pop_idx: 0, kind: ParamKind::Volume, meaning: "" },
            ],
            return_kind: ReturnKind::Void,
            returns: false,
            side_effects: vec![SideEffect::PlaysSound],
            purpose: "Set global BGM volume; runtime pops 1 arg (volume only, no per-slot).",
            evidence: vec![
                Evidence { kind: EvidenceKind::Writeup, reference: "docs/writeup.md audio" },
                Evidence { kind: EvidenceKind::RuntimeTrace, reference: "pal-vm ext_bgm_set_volume pops 1" },
            ],
            implementation_status: ImplStatus::Blocked,
            decompiler_status: ImplStatus::Blocked,
        }
    } else if i == 66 {
        ExtSig {
            category: 4,
            index: 3,
            canonical_name: "bgm_get_volume",
            name: "bgm_get_volume",
            game_handler_ea: None,
            pal_export_name: None,
            pal_export_ea: None,
            pop_count: 1,
            pop_order: Vec::new(),
            display_order: Vec::new(),
            params: vec![
                Param { name: "slot", pop_idx: 0, kind: ParamKind::SoundSlot, meaning: "" },
            ],
            return_kind: ReturnKind::Integer,
            returns: true,
            side_effects: vec![],
            purpose: "Read BGM volume state.",
            evidence: vec![
                Evidence { kind: EvidenceKind::Writeup, reference: "docs/writeup.md audio" },
            ],
            implementation_status: ImplStatus::Blocked,
            decompiler_status: ImplStatus::Blocked,
        }
    } else if i == 67 {
        ExtSig {
            category: 4,
            index: 6,
            canonical_name: "bgm_set_auto_volume",
            name: "bgm_set_auto_volume",
            game_handler_ea: None,
            pal_export_name: None,
            pal_export_ea: None,
            pop_count: 2,
            pop_order: Vec::new(),
            display_order: Vec::new(),
            params: vec![
                Param { name: "enabled", pop_idx: 0, kind: ParamKind::Flag, meaning: "" },
                Param { name: "volume", pop_idx: 1, kind: ParamKind::Volume, meaning: "" },
            ],
            return_kind: ReturnKind::Void,
            returns: false,
            side_effects: vec![SideEffect::PlaysSound],
            purpose: "Configure BGM automatic volume/ducking state.",
            evidence: vec![
                Evidence { kind: EvidenceKind::GameSqlite, reference: "reverse/Game.sqlite sub_40BFB0" },
            ],
            implementation_status: ImplStatus::Blocked,
            decompiler_status: ImplStatus::Blocked,
        }
    } else if i == 68 {
        ExtSig {
            category: 4,
            index: 9,
            canonical_name: "bgm_load",
            name: "bgm_load",
            game_handler_ea: None,
            pal_export_name: None,
            pal_export_ea: None,
            pop_count: 5,
            pop_order: Vec::new(),
            display_order: Vec::new(),
            params: vec![
                Param { name: "slot", pop_idx: 0, kind: ParamKind::SoundSlot, meaning: "" },
                Param { name: "name", pop_idx: 1, kind: ParamKind::ResourceStringFromFileDat, meaning: "" },
                Param { name: "unknown", pop_idx: 2, kind: ParamKind::Unknown, meaning: "" },
                Param { name: "unknown2", pop_idx: 3, kind: ParamKind::Unknown, meaning: "" },
                Param { name: "unknown3", pop_idx: 4, kind: ParamKind::Unknown, meaning: "" },
            ],
            return_kind: ReturnKind::Void,
            returns: false,
            side_effects: vec![SideEffect::CreatesSound],
            purpose: "Preload BGM resource into a slot.",
            evidence: vec![
                Evidence { kind: EvidenceKind::Writeup, reference: "docs/writeup.md audio" },
            ],
            implementation_status: ImplStatus::Blocked,
            decompiler_status: ImplStatus::Blocked,
        }
    } else if i == 69 {
        ExtSig {
            category: 4,
            index: 11,
            canonical_name: "set_master_volume",
            name: "set_master_volume",
            game_handler_ea: None,
            pal_export_name: None,
            pal_export_ea: None,
            pop_count: 1,
            pop_order: Vec::new(),
            display_order: Vec::new(),
            params: vec![
                Param { name: "volume", pop_idx: 0, kind: ParamKind::Volume, meaning: "" },
            ],
            return_kind: ReturnKind::Void,
            returns: false,
            side_effects: vec![SideEffect::PlaysSound],
            purpose: "Set primary/master volume percent.",
            evidence: vec![
                Evidence { kind: EvidenceKind::GameSqlite, reference: "reverse/Game.sqlite sub_40BD40" },
            ],
            implementation_status: ImplStatus::Blocked,
            decompiler_status: ImplStatus::Blocked,
        }
    } else if i == 70 {
        ExtSig {
            category: 4,
            index: 13,
            canonical_name: "mute_master_volume",
            name: "mute_master_volume",
            game_handler_ea: None,
            pal_export_name: None,
            pal_export_ea: None,
            pop_count: 1,
            pop_order: Vec::new(),
            display_order: Vec::new(),
            params: vec![
                Param { name: "muted", pop_idx: 0, kind: ParamKind::Flag, meaning: "" },
            ],
            return_kind: ReturnKind::Void,
            returns: false,
            side_effects: vec![SideEffect::PlaysSound],
            purpose: "Mute/unmute primary volume while preserving configured percent.",
            evidence: vec![
                Evidence { kind: EvidenceKind::GameSqlite, reference: "reverse/Game.sqlite sub_40BC70" },
            ],
            implementation_status: ImplStatus::Blocked,
            decompiler_status: ImplStatus::Blocked,
        }
    } else {
        ExtSig {
            category: 4,
            index: 14,
            canonical_name: "bgm_mute",
            name: "bgm_mute",
            game_handler_ea: None,
            pal_export_name: None,
            pal_export_ea: None,
            pop_count: 1,
            pop_order: Vec::new(),
            display_order: Vec::new(),
            params: vec![
                Param { name: "muted", pop_idx: 0, kind: ParamKind::Flag, meaning: "" },
            ],
            return_kind: ReturnKind::Void,
            returns: false,
            side_effects: vec![SideEffect::PlaysSound],
            purpose: "Mute/unmute BGM group while preserving configured percent.",
            evidence: vec![
                Evidence { kind: EvidenceKind::GameSqlite, reference: "reverse/Game.sqlite sub_40C230" },
            ],
            implementation_status: ImplStatus::Blocked,
            decompiler_status: ImplStatus::Blocked,
        }
    }
}

fn record_from_block_6(i: usize) -> (sig: ExtSig)
    requires
        72 <= i < 84,
    ensures
        sig@ == signature_entry(i as int),
{
    if i == 72 {
        ExtSig {
            category: 4,
            index: 15,
            canonical_name: "mute_bgm_auto_volume",
            name: "mute_bgm_auto_volume",
            game_handler_ea: None,
            pal_export_name: None,
            pal_export_ea: None,
            pop_count: 1,
            pop_order: Vec::new(),
            display_order: Vec::new(),
            params: vec![
                Param { name: "muted", pop_idx: 0, kind: ParamKind::Flag, meaning: "" },
            ],
            return_kind: ReturnKind::Void,
            returns: false,
            side_effects: vec![SideEffect::ChangesRunState],
            purpose: "Toggle BGM automatic volume mute latch.",
            evidence: vec![
                Evidence { kind: EvidenceKind::GameSqlite, reference: "reverse/Game.sqlite sub_40C060" },
            ],
            implementation_status: ImplStatus::Blocked,
            decompiler_status: ImplStatus::Blocked,
        }
    } else if i == 73 {
        ExtSig {
            category: 5,
            index: 1,
            canonical_name: "se_play",
            name: "se_play",
            game_handler_ea: None,
            pal_export_name: None,
            pal_export_ea: None,
            pop_count: 5,
            pop_order: Vec::new(),
            display_order: Vec::new(),
            params: vec![
                Param { name: "slot", pop_idx: 0, kind: ParamKind::SoundSlot, meaning: "" },
                Param { name: "name", pop_idx: 1, kind: ParamKind::ResourceStringFromFileDat, meaning: "" },
                Param { name: "unknown", pop_idx: 2, kind: ParamKind::Unknown, meaning: "" },
                Param { name: "flags", pop_idx: 3, kind: ParamKind::Flag, meaning: "" },
                Param { name: "volume", pop_idx: 4, kind: ParamKind::Volume, meaning: "" },
            ],
            return_kind: ReturnKind::Void,
            returns: false,
            side_effects: vec![SideEffect::CreatesSound, SideEffect::PlaysSound],
            purpose: "Play SE resource.",
            evidence: vec![
                Evidence { kind: EvidenceKind::Writeup, reference: "docs/writeup.md audio" },
            ],
            implementation_status: ImplStatus::Blocked,
            decompiler_status: ImplStatus::Blocked,
        }
    } else if i == 74 {
        ExtSig {
            category: 5,
            index: 2,
            canonical_name: "se_play_ex",
            name: "se_play_ex",
            game_handler_ea: None,
            pal_export_name: None,
            pal_export_ea: None,
            pop_count: 5,
            pop_order: Vec::new(),
            display_order: Vec::new(),
            params: vec![
                Param { name: "slot", pop_idx: 0, kind: ParamKind::SoundSlot, meaning: "" },
                Param { name: "name", pop_idx: 1, kind: ParamKind::ResourceStringFromFileDat, meaning: "" },
                Param { name: "unknown", pop_idx: 2, kind: ParamKind::Unknown, meaning: "" },
                Param { name: "flags", pop_idx: 3, kind: ParamKind::Flag, meaning: "" },
                Param { name: "volume", pop_idx: 4, kind: ParamKind::Volume, meaning: "" },
            ],
            return_kind: ReturnKind::Void,
            returns: false,
            side_effects: vec![SideEffect::CreatesSound, SideEffect::PlaysSound],
            purpose: "Play SE resource; observed before first text_w.",
            evidence: vec![
                Evidence { kind: EvidenceKind::Writeup, reference: "docs/writeup.md 24.1" },
            ],
            implementation_status: ImplStatus::Blocked,
            decompiler_status: ImplStatus::Blocked,
        }
    } else if i == 75 {
        ExtSig {
            category: 5,
            index: 0,
            canonical_name: "se_load",
            name: "se_load",
            game_handler_ea: None,
            pal_export_name: None,
            pal_export_ea: None,
            pop_count: 2,
            pop_order: Vec::new(),
            display_order: Vec::new(),
            params: vec![
                Param { name: "slot", pop_idx: 0, kind: ParamKind::SoundSlot, meaning: "" },
                Param { name: "name", pop_idx: 1, kind: ParamKind::ResourceStringFromFileDat, meaning: "" },
            ],
            return_kind: ReturnKind::Void,
            returns: false,
            side_effects: vec![SideEffect::CreatesSound],
            purpose: "Preload SE resource.",
            evidence: vec![
                Evidence { kind: EvidenceKind::Writeup, reference: "docs/writeup.md audio" },
            ],
            implementation_status: ImplStatus::Blocked,
            decompiler_status: ImplStatus::Blocked,
        }
    } else if i == 76 {
        ExtSig {
            category: 5,
            index: 3,
            canonical_name: "se_stop",
            name: "se_stop",
            game_handler_ea: None,
            pal_export_name: None,
            pal_export_ea: None,
            pop_count: 2,
            pop_order: Vec::new(),
            display_order: Vec::new(),
            params: vec![
                Param { name: "slot", pop_idx: 0, kind: ParamKind::SoundSlot, meaning: "" },
                Param { name: "fade_ms", pop_idx: 1, kind: ParamKind::DurationMs, meaning: "" },
            ],
            return_kind: ReturnKind::Void,
            returns: false,
            side_effects: vec![SideEffect::StopsSound],
            purpose: "Stop SE slot.",
            evidence: vec![
                Evidence { kind: EvidenceKind::Writeup, reference: "docs/writeup.md audio" },
            ],
            implementation_status: ImplStatus::Blocked,
            decompiler_status: ImplStatus::Blocked,
        }
    } else if i == 77 {
        ExtSig {
            category: 5,
            index: 4,
            canonical_name: "se_set_volume",
            name: "se_set_volume",
            game_handler_ea: None,
            pal_export_name: None,
            pal_export_ea: None,
            pop_count: 2,
            pop_order: Vec::new(),
            display_order: Vec::new(),
            params: vec![
                Param { name: "volume", pop_idx: 0, kind: ParamKind::Volume, meaning: "" },
                Param { name: "slot", pop_idx: 1, kind: ParamKind::SoundSlot, meaning: "" },
            ],
            return_kind: ReturnKind::Void,
            returns: false,
            side_effects: vec![SideEffect::PlaysSound],
            purpose: "Set SE lane volume.",
            evidence: vec![
                Evidence { kind: EvidenceKind::GameSqlite, reference: "reverse/Game.sqlite sub_434C50" },
            ],
            implementation_status: ImplStatus::Verified,
            decompiler_status: ImplStatus::Verified,
        }
    } else if i == 78 {
        ExtSig {
            category: 5,
            index: 5,
            canonical_name: "se_get_volume",
            name: "se_get_volume",
            game_handler_ea: None,
            pal_export_name: None,
            pal_export_ea: None,
            pop_count: 1,
            pop_order: Vec::new(),
            display_order: Vec::new(),
            params: vec![
                Param { name: "slot", pop_idx: 0, kind: ParamKind::SoundSlot, meaning: "" },
            ],
            return_kind: ReturnKind::Integer,
            returns: true,
            side_effects: vec![],
            purpose: "Read SE volume.",
            evidence: vec![
                Evidence { kind: EvidenceKind::Writeup, reference: "docs/writeup.md audio" },
            ],
            implementation_status: ImplStatus::Blocked,
            decompiler_status: ImplStatus::Blocked,
        }
    } else if i == 79 {
        ExtSig {
            category: 5,
            index: 14,
            canonical_name: "se_mute",
            name: "se_mute",
            game_handler_ea: None,
            pal_export_name: None,
            pal_export_ea: None,
            pop_count: 2,
            pop_order: Vec::new(),
            display_order: Vec::new(),
            params: vec![
                Param { name: "muted", pop_idx: 0, kind: ParamKind::Flag, meaning: "" },
                Param { name: "slot", pop_idx: 1, kind: ParamKind::SoundSlot, meaning: "" },
            ],
            return_kind: ReturnKind::Void,
            returns: false,
            side_effects: vec![SideEffect::PlaysSound],
            purpose: "Mute/unmute SE lane while preserving cached SE volume.",
            evidence: vec![
                Evidence { kind: EvidenceKind::GameSqlite, reference: "reverse/Game.sqlite sub_434D00" },
            ],
            implementation_status: ImplStatus::Verified,
            decompiler_status: ImplStatus::Verified,
        }
    } else if i == 80 {
        ExtSig {
            category: 7,
            index: 0,
            canonical_name: "wait",
            name: "wait",
            game_handler_ea: Some("0x00444F40"),
            pal_export_name: None,
            pal_export_ea: None,
            pop_count: 2,
            pop_order: Vec::new(),
            display_order: Vec::new(),
            params: vec![
                Param { name: "duration_ms", pop_idx: 0, kind: ParamKind::DurationMs, meaning: "" },
                Param { name: "skip_cancel", pop_idx: 1, kind: ParamKind::Flag, meaning: "" },
            ],
            return_kind: ReturnKind::Void,
            returns: false,
            side_effects: vec![SideEffect::CreatesTask, SideEffect::BlocksScript],
            purpose: "Timed script wait with native cancel/skip flag.",
            evidence: vec![
                Evidence { kind: EvidenceKind::GameSqlite, reference: "reverse/Game.sqlite sub_444F40 pops duration/skip flag and blocks by rewinding PC until timeout" },
                Evidence { kind: EvidenceKind::RuntimeTrace, reference: "pal-vm dispatch_wait_ext index 0 pops duration/skip flag and returns WaitRequest::Time" },
            ],
            implementation_status: ImplStatus::Verified,
            decompiler_status: ImplStatus::Verified,
        }
    } else if i == 81 {
        ExtSig {
            category: 7,
            index: 1,
            canonical_name: "wait_click",
            name: "wait_click",
            game_handler_ea: Some("0x00444DE0"),
            pal_export_name: None,
            pal_export_ea: None,
            pop_count: 1,
            pop_order: Vec::new(),
            display_order: Vec::new(),
            params: vec![
                Param { name: "duration_ms", pop_idx: 0, kind: ParamKind::DurationMs, meaning: "" },
            ],
            return_kind: ReturnKind::Void,
            returns: false,
            side_effects: vec![SideEffect::CreatesTask, SideEffect::BlocksScript, SideEffect::ChangesTextState],
            purpose: "-1 completes the active text task; non-negative values are click-or-time waits.",
            evidence: vec![
                Evidence { kind: EvidenceKind::GameSqlite, reference: "reverse/Game.sqlite sub_444DE0 pops duration; -1 clears/completes text task via ctx[1050]/sub_43A860/sub_44A010; non-negative values rewind until click/timeout" },
                Evidence { kind: EvidenceKind::RuntimeTrace, reference: "pal-vm dispatch_wait_ext index 1 gates the portable text reveal/click path" },
            ],
            implementation_status: ImplStatus::Verified,
            decompiler_status: ImplStatus::Verified,
        }
    } else if i == 82 {
        ExtSig {
            category: 7,
            index: 2,
            canonical_name: "wait_sync_begin",
            name: "wait_sync_begin",
            game_handler_ea: None,
            pal_export_name: None,
            pal_export_ea: None,
            pop_count: 0,
            pop_order: Vec::new(),
            display_order: Vec::new(),
            params: vec![],
            return_kind: ReturnKind::Void,
            returns: false,
            side_effects: vec![SideEffect::CreatesTask],
            purpose: "Begin PAL wait-sync timing scope.",
            evidence: vec![
                Evidence { kind: EvidenceKind::GameSqlite, reference: "docs/writeup.md wait-sync offsets +655244/+655248 from Game.sqlite" },
                Evidence { kind: EvidenceKind::RuntimeTrace, reference: "pal-vm dispatch_wait_ext index 2 stores pal_time_ms" },
            ],
            implementation_status: ImplStatus::Verified,
            decompiler_status: ImplStatus::Verified,
        }
    } else {
        ExtSig {
            category: 7,
            index: 3,
            canonical_name: "wait_sync_release",
            name: "wait_sync_release",
            game_handler_ea: None,
            pal_export_name: None,
            pal_export_ea: None,
            pop_count: 1,
            pop_order: Vec::new(),
            display_order: Vec::new(),
            params: vec![
                Param { name: "duration_ms", pop_idx: 0, kind: ParamKind::DurationMs, meaning: "" },
            ],
            return_kind: ReturnKind::Void,
            returns: false,
            side_effects: vec![SideEffect::CreatesTask, SideEffect::BlocksScript],
            purpose: "Release wait-sync with timed block.",
            evidence: vec![
                Evidence { kind: EvidenceKind::GameSqlite, reference: "docs/writeup.md wait-sync offsets +655244/+655248 from Game.sqlite" },
                Evidence { kind: EvidenceKind::RuntimeTrace, reference: "pal-vm wait_sync_release blocks until elapsed duration" },
            ],
            implementation_status: ImplStatus::Verified,
            decompiler_status: ImplStatus::Verified,
        }
    }
}

fn record_from_block_7(i: usize) -> (sig: ExtSig)
    requires
        84 <= i < 96,
    ensures
        sig@ == signature_entry(i as int),
{
    if i == 84 {
        ExtSig {
            category: 7,
            index: 4,
            canonical_name: "wait_sync_end",
            name: "wait_sync_end",
            game_handler_ea: None,
            pal_export_name: None,
            pal_export_ea: None,
            pop_count: 0,
            pop_order: Vec::new(),
            display_order: Vec::new(),
            params: vec![],
            return_kind: ReturnKind::Void,
            returns: false,
            side_effects: vec![],
            purpose: "End wait-sync timing scope.",
            evidence: vec![
                Evidence { kind: EvidenceKind::GameSqlite, reference: "docs/writeup.md wait-sync offsets +655244/+655248 from Game.sqlite" },
                Evidence { kind: EvidenceKind::RuntimeTrace, reference: "pal-vm dispatch_wait_ext index 4 clears wait-sync state" },
            ],
            implementation_status: ImplStatus::Verified,
            decompiler_status: ImplStatus::Verified,
        }
    } else if i == 85 {
        ExtSig {
            category: 7,
            index: 5,
            canonical_name: "wait_sync_step",
            name: "wait_sync_step",
            game_handler_ea: Some("0x00444AC0"),
            pal_export_name: None,
            pal_export_ea: None,
            pop_count: 0,
            pop_order: Vec::new(),
            display_order: Vec::new(),
            params: vec![],
            return_kind: ReturnKind::Void,
            returns: false,
            side_effects: vec![SideEffect::CreatesTask, SideEffect::BlocksScript],
            purpose: "One-frame wait/work fence used by script animation loops.",
            evidence: vec![
                Evidence { kind: EvidenceKind::GameSqlite, reference: "reverse/Game.sqlite sub_444AC0 sets ctx+804084=1 and returns 1" },
            ],
            implementation_status: ImplStatus::Verified,
            decompiler_status: ImplStatus::Verified,
        }
    } else if i == 86 {
        ExtSig {
            category: 7,
            index: 7,
            canonical_name: "wait_click_no_anim",
            name: "wait_click_no_anim",
            game_handler_ea: Some("0x00444C90"),
            pal_export_name: None,
            pal_export_ea: None,
            pop_count: 1,
            pop_order: Vec::new(),
            display_order: Vec::new(),
            params: vec![
                Param { name: "duration_ms", pop_idx: 0, kind: ParamKind::DurationMs, meaning: "" },
            ],
            return_kind: ReturnKind::Void,
            returns: false,
            side_effects: vec![SideEffect::CreatesTask, SideEffect::BlocksScript],
            purpose: "Input wait without wait-icon animation side effects; non-positive durations are click-only.",
            evidence: vec![
                Evidence { kind: EvidenceKind::GameSqlite, reference: "reverse/Game.sqlite sub_444C90 implements wait_click_no_anim duration semantics" },
                Evidence { kind: EvidenceKind::RuntimeTrace, reference: "pal-vm dispatch_wait_ext index 7 returns Click for <=0 or ClickOrTime for positive waits" },
            ],
            implementation_status: ImplStatus::Verified,
            decompiler_status: ImplStatus::Verified,
        }
    } else if i == 87 {
        ExtSig {
            category: 7,
            index: 8,
            canonical_name: "wait_sync_get_time",
            name: "wait_sync_get_time",
            game_handler_ea: None,
            pal_export_name: None,
            pal_export_ea: None,
            pop_count: 0,
            pop_order: Vec::new(),
            display_order: Vec::new(),
            params: vec![],
            return_kind: ReturnKind::Integer,
            returns: true,
            side_effects: vec![],
            purpose: "Read elapsed PAL wait-sync time.",
            evidence: vec![
                Evidence { kind: EvidenceKind::GameSqlite, reference: "docs/writeup.md wait-sync begin timestamp +655248 from Game.sqlite" },
                Evidence { kind: EvidenceKind::RuntimeTrace, reference: "pal-vm dispatch_wait_ext index 8 returns pal_time_ms - wait_sync_begin_ms" },
            ],
            implementation_status: ImplStatus::Verified,
            decompiler_status: ImplStatus::Verified,
        }
    } else if i == 88 {
        ExtSig {
            category: 7,
            index: 9,
            canonical_name: "wait_time_push",
            name: "wait_time_push",
            game_handler_ea: None,
            pal_export_name: None,
            pal_export_ea: None,
            pop_count: 0,
            pop_order: Vec::new(),
            display_order: Vec::new(),
            params: vec![],
            return_kind: ReturnKind::Void,
            returns: false,
            side_effects: vec![],
            purpose: "Push PAL wait time state.",
            evidence: vec![
                Evidence { kind: EvidenceKind::Writeup, reference: "docs/writeup.md wait" },
            ],
            implementation_status: ImplStatus::Blocked,
            decompiler_status: ImplStatus::Blocked,
        }
    } else if i == 89 {
        ExtSig {
            category: 7,
            index: 10,
            canonical_name: "wait_time_pop",
            name: "wait_time_pop",
            game_handler_ea: None,
            pal_export_name: None,
            pal_export_ea: None,
            pop_count: 0,
            pop_order: Vec::new(),
            display_order: Vec::new(),
            params: vec![],
            return_kind: ReturnKind::Void,
            returns: false,
            side_effects: vec![],
            purpose: "Pop PAL wait time state.",
            evidence: vec![
                Evidence { kind: EvidenceKind::Writeup, reference: "docs/writeup.md wait" },
            ],
            implementation_status: ImplStatus::Blocked,
            decompiler_status: ImplStatus::Blocked,
        }
    } else if i == 90 {
        ExtSig {
            category: 6,
            index: 0,
            canonical_name: "select_init",
            name: "select_init",
            game_handler_ea: None,
            pal_export_name: None,
            pal_export_ea: None,
            pop_count: 4,
            pop_order: Vec::new(),
            display_order: Vec::new(),
            params: vec![
                Param { name: "text_id", pop_idx: 0, kind: ParamKind::TextId, meaning: "" },
                Param { name: "normal_color", pop_idx: 1, kind: ParamKind::Color, meaning: "" },
                Param { name: "hover_color", pop_idx: 2, kind: ParamKind::Color, meaning: "" },
                Param { name: "disabled_color", pop_idx: 3, kind: ParamKind::Color, meaning: "" },
            ],
            return_kind: ReturnKind::Void,
            returns: false,
            side_effects: vec![SideEffect::ChangesSelectState],
            purpose: "Initialize select/menu layout and colors.",
            evidence: vec![
                Evidence { kind: EvidenceKind::GameSqlite, reference: "reverse/Game.sqlite select handler; pal-vm dispatch_select_stub index 0 pops 4" },
            ],
            implementation_status: ImplStatus::Blocked,
            decompiler_status: ImplStatus::Blocked,
        }
    } else if i == 91 {
        ExtSig {
            category: 6,
            index: 2,
            canonical_name: "select_set",
            name: "select_set",
            game_handler_ea: None,
            pal_export_name: None,
            pal_export_ea: None,
            pop_count: 6,
            pop_order: Vec::new(),
            display_order: Vec::new(),
            params: vec![
                Param { name: "text_id", pop_idx: 0, kind: ParamKind::TextId, meaning: "" },
                Param { name: "target", pop_idx: 1, kind: ParamKind::PointId, meaning: "" },
                Param { name: "x", pop_idx: 2, kind: ParamKind::CoordinateX, meaning: "" },
                Param { name: "y", pop_idx: 3, kind: ParamKind::CoordinateY, meaning: "" },
                Param { name: "color", pop_idx: 4, kind: ParamKind::Color, meaning: "" },
                Param { name: "flags", pop_idx: 5, kind: ParamKind::Flag, meaning: "" },
            ],
            return_kind: ReturnKind::Void,
            returns: false,
            side_effects: vec![SideEffect::ChangesSelectState],
            purpose: "Register one selectable option with target/process metadata.",
            evidence: vec![
                Evidence { kind: EvidenceKind::GameSqlite, reference: "reverse/Game.sqlite select handler; pal-vm dispatch_select_stub index 2 pops 6" },
                Evidence { kind: EvidenceKind::RuntimeTrace, reference: "select_option text/target/pos/color/flags" },
            ],
            implementation_status: ImplStatus::Blocked,
            decompiler_status: ImplStatus::Blocked,
        }
    } else if i == 92 {
        ExtSig {
            category: 6,
            index: 3,
            canonical_name: "select_commit",
            name: "select_commit",
            game_handler_ea: None,
            pal_export_name: None,
            pal_export_ea: None,
            pop_count: 0,
            pop_order: Vec::new(),
            display_order: Vec::new(),
            params: vec![],
            return_kind: ReturnKind::Void,
            returns: false,
            side_effects: vec![SideEffect::ChangesSelectState],
            purpose: "Commit/refresh the current select option list.",
            evidence: vec![
                Evidence { kind: EvidenceKind::RuntimeTrace, reference: "reachable 0006:0003 follows select_set sequences" },
                Evidence { kind: EvidenceKind::Disassembly, reference: "out/extcall_report.json reachable extcall 0006:0003" },
            ],
            implementation_status: ImplStatus::Blocked,
            decompiler_status: ImplStatus::Blocked,
        }
    } else if i == 93 {
        ExtSig {
            category: 6,
            index: 4,
            canonical_name: "select_clear",
            name: "select_clear",
            game_handler_ea: None,
            pal_export_name: None,
            pal_export_ea: None,
            pop_count: 0,
            pop_order: Vec::new(),
            display_order: Vec::new(),
            params: vec![],
            return_kind: ReturnKind::Void,
            returns: false,
            side_effects: vec![SideEffect::ChangesSelectState],
            purpose: "Clear all select/menu state.",
            evidence: vec![
                Evidence { kind: EvidenceKind::GameSqlite, reference: "reverse/Game.sqlite select handler; pal-vm dispatch_select_stub index 4 pops 0" },
            ],
            implementation_status: ImplStatus::Blocked,
            decompiler_status: ImplStatus::Blocked,
        }
    } else if i == 94 {
        ExtSig {
            category: 8,
            index: 0,
            canonical_name: "btn_init",
            name: "btn_init",
            game_handler_ea: Some("0x0040FC60"),
            pal_export_name: None,
            pal_export_ea: None,
            pop_count: 3,
            pop_order: Vec::new(),
            display_order: Vec::new(),
            params: vec![
                Param { name: "group", pop_idx: 0, kind: ParamKind::ButtonSlot, meaning: "button group" },
                Param { name: "normal_image", pop_idx: 1, kind: ParamKind::ResourceStringFromFileDat, meaning: "normal group image or sentinel" },
                Param { name: "hover_image", pop_idx: 2, kind: ParamKind::ResourceStringFromFileDat, meaning: "hover group image or sentinel" },
            ],
            return_kind: ReturnKind::Integer,
            returns: true,
            side_effects: vec![SideEffect::ChangesSelectState],
            purpose: "Initialize a native PAL button group with normal/hover image resources.",
            evidence: vec![
                Evidence { kind: EvidenceKind::GameSqlite, reference: "reverse/Game.sqlite sub_40FC60 pops group/normal_image/hover_image and calls PalButtonCreateEx" },
                Evidence { kind: EvidenceKind::RuntimeTrace, reference: "pal-vm ext_btn_init stores button group state" },
            ],
            implementation_status: ImplStatus::Verified,
            decompiler_status: ImplStatus::Verified,
        }
    } else {
        ExtSig {
            category: 8,
            index: 1,
            canonical_name: "btn_uninit",
            name: "btn_uninit",
            game_handler_ea: Some("0x0040DB20"),
            pal_export_name: Some("PalButtonRelease"),
            pal_export_ea: Some("0x1011D72B"),
            pop_count: 1,
            pop_order: Vec::new(),
            display_order: Vec::new(),
            params: vec![
                Param { name: "group", pop_idx: 0, kind: ParamKind::ButtonSlot, meaning: "" },
            ],
            return_kind: ReturnKind::Void,
            returns: false,
            side_effects: vec![SideEffect::DeletesSprite],
            purpose: "Release a button group; group=-1 is treated as all groups by the compatibility runtime.",
            evidence: vec![
                Evidence { kind: EvidenceKind::GameSqlite, reference: "reverse/Game.sqlite sub_40DB20 releases active button sprites and calls PalButtonRelease" },
                Evidence { kind: EvidenceKind::PalSqlite, reference: "PalButtonRelease 0x1011D72B / PalButtonDelete 0x1011ACF1" },
                Evidence { kind: EvidenceKind::RuntimeTrace, reference: "pal-vm ext_btn_uninit pops group and returns 1" },
            ],
            implementation_status: ImplStatus::Verified,
            decompiler_status: ImplStatus::Verified,
        }
    }
}

fn record_from_block_8(i: usize) -> (sig: ExtSig)
    requires
        96 <= i < 108,
    ensures
        sig@ == signature_entry(i as int),
{
    if i == 96 {
        ExtSig {
            category: 8,
            index: 3,
            canonical_name: "btn_set",
            name: "btn_set",
            game_handler_ea: None,
            pal_export_name: None,
            pal_export_ea: None,
            pop_count: 7,
            pop_order: Vec::new(),
            display_order: Vec::new(),
            params: vec![
                Param { name: "group", pop_idx: 0, kind: ParamKind::ButtonSlot, meaning: "" },
                Param { name: "index", pop_idx: 1, kind: ParamKind::ButtonSlot, meaning: "" },
                Param { name: "normal", pop_idx: 2, kind: ParamKind::ResourceStringFromFileDat, meaning: "" },
                Param { name: "hover", pop_idx: 3, kind: ParamKind::ResourceStringFromFileDat, meaning: "" },
                Param { name: "push", pop_idx: 4, kind: ParamKind::ResourceStringFromFileDat, meaning: "" },
                Param { name: "disabled", pop_idx: 5, kind: ParamKind::ResourceStringFromFileDat, meaning: "" },
                Param { name: "entry_flag", pop_idx: 6, kind: ParamKind::Flag, meaning: "" },
            ],
            return_kind: ReturnKind::Void,
            returns: false,
            side_effects: vec![SideEffect::CreatesSprite],
            purpose: "Create/register a button entry and its sprite states.",
            evidence: vec![
                Evidence { kind: EvidenceKind::Writeup, reference: "docs/writeup.md 24.10" },
            ],
            implementation_status: ImplStatus::Blocked,
            decompiler_status: ImplStatus::Blocked,
        }
    } else if i == 97 {
        ExtSig {
            category: 8,
            index: 4,
            canonical_name: "btn_hide",
            name: "btn_hide",
            game_handler_ea: Some("0x0040F290"),
            pal_export_name: None,
            pal_export_ea: None,
            pop_count: 2,
            pop_order: Vec::new(),
            display_order: Vec::new(),
            params: vec![
                Param { name: "group", pop_idx: 0, kind: ParamKind::ButtonSlot, meaning: "" },
                Param { name: "index", pop_idx: 1, kind: ParamKind::ButtonSlot, meaning: "" },
            ],
            return_kind: ReturnKind::Void,
            returns: false,
            side_effects: vec![SideEffect::MutatesSprite, SideEffect::ChangesSelectState],
            purpose: "Hide a registered button entry.",
            evidence: vec![
                Evidence { kind: EvidenceKind::GameSqlite, reference: "reverse/Game.sqlite sub_40F290 pops group/index and queues native btn_hide command" },
                Evidence { kind: EvidenceKind::RuntimeTrace, reference: "pal-vm ext_btn_view_ctrl(false) pops group/index and hides matching sprites" },
            ],
            implementation_status: ImplStatus::Verified,
            decompiler_status: ImplStatus::Verified,
        }
    } else if i == 98 {
        ExtSig {
            category: 8,
            index: 5,
            canonical_name: "btn_show",
            name: "btn_show",
            game_handler_ea: Some("0x0040F1B0"),
            pal_export_name: None,
            pal_export_ea: None,
            pop_count: 2,
            pop_order: Vec::new(),
            display_order: Vec::new(),
            params: vec![
                Param { name: "group", pop_idx: 0, kind: ParamKind::ButtonSlot, meaning: "" },
                Param { name: "index", pop_idx: 1, kind: ParamKind::ButtonSlot, meaning: "" },
            ],
            return_kind: ReturnKind::Void,
            returns: false,
            side_effects: vec![SideEffect::MutatesSprite, SideEffect::ChangesSelectState],
            purpose: "Show a registered button entry.",
            evidence: vec![
                Evidence { kind: EvidenceKind::GameSqlite, reference: "reverse/Game.sqlite sub_40F1B0 pops group/index and queues native btn_show command" },
                Evidence { kind: EvidenceKind::RuntimeTrace, reference: "pal-vm ext_btn_view_ctrl(true) pops group/index and shows matching sprites" },
            ],
            implementation_status: ImplStatus::Verified,
            decompiler_status: ImplStatus::Verified,
        }
    } else if i == 99 {
        ExtSig {
            category: 8,
            index: 6,
            canonical_name: "btn_set_pos",
            name: "btn_set_pos",
            game_handler_ea: None,
            pal_export_name: None,
            pal_export_ea: None,
            pop_count: 4,
            pop_order: Vec::new(),
            display_order: Vec::new(),
            params: vec![
                Param { name: "group", pop_idx: 0, kind: ParamKind::ButtonSlot, meaning: "" },
                Param { name: "index", pop_idx: 1, kind: ParamKind::ButtonSlot, meaning: "" },
                Param { name: "x", pop_idx: 2, kind: ParamKind::CoordinateX, meaning: "" },
                Param { name: "y", pop_idx: 3, kind: ParamKind::CoordinateY, meaning: "" },
            ],
            return_kind: ReturnKind::Void,
            returns: false,
            side_effects: vec![SideEffect::MutatesSprite],
            purpose: "Position a button entry.",
            evidence: vec![
                Evidence { kind: EvidenceKind::Writeup, reference: "docs/writeup.md 24.10" },
            ],
            implementation_status: ImplStatus::Blocked,
            decompiler_status: ImplStatus::Blocked,
        }
    } else if i == 100 {
        ExtSig {
            category: 8,
            index: 8,
            canonical_name: "btn_release",
            name: "btn_release",
            game_handler_ea: None,
            pal_export_name: None,
            pal_export_ea: None,
            pop_count: 2,
            pop_order: Vec::new(),
            display_order: Vec::new(),
            params: vec![
                Param { name: "group", pop_idx: 0, kind: ParamKind::ButtonSlot, meaning: "" },
                Param { name: "index", pop_idx: 1, kind: ParamKind::ButtonSlot, meaning: "" },
            ],
            return_kind: ReturnKind::Void,
            returns: false,
            side_effects: vec![SideEffect::DeletesSprite],
            purpose: "Release one or more button entries.",
            evidence: vec![
                Evidence { kind: EvidenceKind::Writeup, reference: "docs/writeup.md 24.10" },
            ],
            implementation_status: ImplStatus::Blocked,
            decompiler_status: ImplStatus::Blocked,
        }
    } else if i == 101 {
        ExtSig {
            category: 8,
            index: 9,
            canonical_name: "btn_slider_get",
            name: "btn_slider_get",
            game_handler_ea: Some("0x0040EC10"),
            pal_export_name: None,
            pal_export_ea: None,
            pop_count: 5,
            pop_order: Vec::new(),
            display_order: Vec::new(),
            params: vec![
                Param { name: "group", pop_idx: 0, kind: ParamKind::ButtonSlot, meaning: "" },
                Param { name: "index", pop_idx: 1, kind: ParamKind::ButtonSlot, meaning: "" },
                Param { name: "max_offset", pop_idx: 2, kind: ParamKind::Integer, meaning: "" },
                Param { name: "axis", pop_idx: 3, kind: ParamKind::Mode, meaning: "" },
                Param { name: "snap_to_100", pop_idx: 4, kind: ParamKind::Flag, meaning: "" },
            ],
            return_kind: ReturnKind::Integer,
            returns: true,
            side_effects: vec![SideEffect::MutatesSprite, SideEffect::ChangesSelectState],
            purpose: "Query/update slider button offset from mouse position for settings sliders.",
            evidence: vec![
                Evidence { kind: EvidenceKind::GameSqlite, reference: "reverse/Game.sqlite sub_40EC10 pops group/index/max_offset/axis/snap_to_100 and writes slider offset to dst" },
                Evidence { kind: EvidenceKind::RuntimeTrace, reference: "docs/dis.txt 00030D20 and 00044124 push five args before ext_0008_0009" },
            ],
            implementation_status: ImplStatus::Verified,
            decompiler_status: ImplStatus::Verified,
        }
    } else if i == 102 {
        ExtSig {
            category: 8,
            index: 10,
            canonical_name: "btn_slider_set",
            name: "btn_slider_set",
            game_handler_ea: None,
            pal_export_name: None,
            pal_export_ea: None,
            pop_count: 5,
            pop_order: Vec::new(),
            display_order: Vec::new(),
            params: vec![
                Param { name: "group", pop_idx: 0, kind: ParamKind::ButtonSlot, meaning: "" },
                Param { name: "index", pop_idx: 1, kind: ParamKind::ButtonSlot, meaning: "" },
                Param { name: "offset", pop_idx: 2, kind: ParamKind::Integer, meaning: "" },
                Param { name: "axis", pop_idx: 3, kind: ParamKind::Mode, meaning: "" },
                Param { name: "enabled", pop_idx: 4, kind: ParamKind::Flag, meaning: "" },
            ],
            return_kind: ReturnKind::Void,
            returns: false,
            side_effects: vec![SideEffect::MutatesSprite, SideEffect::ChangesSelectState],
            purpose: "Initialize/update compatible slider offset and button state.",
            evidence: vec![
                Evidence { kind: EvidenceKind::Disassembly, reference: "docs/dis.txt 00030B80 and 000337C4 push five args before ext_0008_000A" },
                Evidence { kind: EvidenceKind::RuntimeTrace, reference: "setting submenu initializes slider before polling" },
            ],
            implementation_status: ImplStatus::Verified,
            decompiler_status: ImplStatus::Verified,
        }
    } else if i == 103 {
        ExtSig {
            category: 8,
            index: 11,
            canonical_name: "btn_slider_begin",
            name: "btn_slider_begin",
            game_handler_ea: None,
            pal_export_name: None,
            pal_export_ea: None,
            pop_count: 2,
            pop_order: Vec::new(),
            display_order: Vec::new(),
            params: vec![
                Param { name: "group", pop_idx: 0, kind: ParamKind::ButtonSlot, meaning: "" },
                Param { name: "index", pop_idx: 1, kind: ParamKind::ButtonSlot, meaning: "" },
            ],
            return_kind: ReturnKind::Void,
            returns: false,
            side_effects: vec![SideEffect::ChangesSelectState],
            purpose: "Arm native slider polling for a button entry.",
            evidence: vec![
                Evidence { kind: EvidenceKind::Disassembly, reference: "docs/dis.txt 00030CD4/000440CC push group,index before ext_0008_000B" },
                Evidence { kind: EvidenceKind::RuntimeTrace, reference: "runtime stack pollution stopped by two-arg pop" },
            ],
            implementation_status: ImplStatus::Verified,
            decompiler_status: ImplStatus::Verified,
        }
    } else if i == 104 {
        ExtSig {
            category: 8,
            index: 12,
            canonical_name: "btn_on_check",
            name: "btn_on_check",
            game_handler_ea: Some("0x00410CE0"),
            pal_export_name: Some("PalButtonGetReaction"),
            pal_export_ea: Some("0x1011E1D0"),
            pop_count: 2,
            pop_order: Vec::new(),
            display_order: Vec::new(),
            params: vec![
                Param { name: "group", pop_idx: 0, kind: ParamKind::ButtonSlot, meaning: "" },
                Param { name: "index", pop_idx: 1, kind: ParamKind::ButtonSlot, meaning: "" },
            ],
            return_kind: ReturnKind::Bool,
            returns: true,
            side_effects: vec![SideEffect::ChangesSelectState],
            purpose: "Query current native reaction state for one button.",
            evidence: vec![
                Evidence { kind: EvidenceKind::GameSqlite, reference: "reverse/Game.sqlite sub_410CE0 pops group/index and writes PalButtonGetReaction != 0 to dst" },
                Evidence { kind: EvidenceKind::PalSqlite, reference: "PalButtonGetReaction 0x1011E1D0" },
                Evidence { kind: EvidenceKind::RuntimeTrace, reference: "settings slider loops call ext_0008_000C with group/index" },
            ],
            implementation_status: ImplStatus::Verified,
            decompiler_status: ImplStatus::Verified,
        }
    } else if i == 105 {
        ExtSig {
            category: 8,
            index: 13,
            canonical_name: "btn_set_toggle",
            name: "btn_set_toggle",
            game_handler_ea: Some("0x0040E830"),
            pal_export_name: Some("PalSpriteRectSetPos"),
            pal_export_ea: Some("0x1011E865"),
            pop_count: 3,
            pop_order: Vec::new(),
            display_order: Vec::new(),
            params: vec![
                Param { name: "group", pop_idx: 0, kind: ParamKind::ButtonSlot, meaning: "" },
                Param { name: "index", pop_idx: 1, kind: ParamKind::ButtonSlot, meaning: "" },
                Param { name: "toggle", pop_idx: 2, kind: ParamKind::Flag, meaning: "" },
            ],
            return_kind: ReturnKind::Void,
            returns: false,
            side_effects: vec![SideEffect::MutatesSprite, SideEffect::ChangesSelectState],
            purpose: "Select the button visual/toggle state for a group/index.",
            evidence: vec![
                Evidence { kind: EvidenceKind::GameSqlite, reference: "reverse/Game.sqlite sub_40E830 pops group/index/toggle and queues native btn_set_toggle render command" },
                Evidence { kind: EvidenceKind::PalSqlite, reference: "PalSpriteRectSetPos 0x1011E865 is used by the native button render command pipeline" },
                Evidence { kind: EvidenceKind::RuntimeTrace, reference: "pal-vm ext_btn_set_toggle pops 3 and updates rect cell" },
            ],
            implementation_status: ImplStatus::Verified,
            decompiler_status: ImplStatus::Verified,
        }
    } else if i == 106 {
        ExtSig {
            category: 8,
            index: 14,
            canonical_name: "btn_get_pos",
            name: "btn_get_pos",
            game_handler_ea: None,
            pal_export_name: None,
            pal_export_ea: None,
            pop_count: 4,
            pop_order: Vec::new(),
            display_order: Vec::new(),
            params: vec![
                Param { name: "group", pop_idx: 0, kind: ParamKind::ButtonSlot, meaning: "" },
                Param { name: "index", pop_idx: 1, kind: ParamKind::ButtonSlot, meaning: "" },
                Param { name: "x_slot", pop_idx: 2, kind: ParamKind::Slot, meaning: "" },
                Param { name: "y_slot", pop_idx: 3, kind: ParamKind::Slot, meaning: "" },
            ],
            return_kind: ReturnKind::Status,
            returns: true,
            side_effects: vec![SideEffect::WritesVmMemory],
            purpose: "Write the button position to two temporary-memory slots.",
            evidence: vec![
                Evidence { kind: EvidenceKind::Disassembly, reference: "Totsulover Script.src 0xE5C90/0xE5D7C and Koikake Script.src 0x324AC read temp slots 0/1 after this call" },
                Evidence { kind: EvidenceKind::RuntimeTrace, reference: "Totsulover POP_YES/POP_NO remain at their original coordinates until these slots are written" },
            ],
            implementation_status: ImplStatus::Partial,
            decompiler_status: ImplStatus::Partial,
        }
    } else {
        ExtSig {
            category: 8,
            index: 29,
            canonical_name: "btn_set_state",
            name: "btn_set_state",
            game_handler_ea: None,
            pal_export_name: None,
            pal_export_ea: None,
            pop_count: 4,
            pop_order: Vec::new(),
            display_order: Vec::new(),
            params: vec![
                Param { name: "group", pop_idx: 0, kind: ParamKind::ButtonSlot, meaning: "" },
                Param { name: "index", pop_idx: 1, kind: ParamKind::ButtonSlot, meaning: "" },
                Param { name: "ctrl", pop_idx: 2, kind: ParamKind::Mode, meaning: "" },
                Param { name: "state", pop_idx: 3, kind: ParamKind::Mode, meaning: "" },
            ],
            return_kind: ReturnKind::Status,
            returns: true,
            side_effects: vec![SideEffect::MutatesSprite, SideEffect::ChangesSelectState],
            purpose: "Set button control mode and visual cell/state for menus.",
            evidence: vec![
                Evidence { kind: EvidenceKind::Disassembly, reference: "Totsulover Script.src 0x990AC and 0x94490 call this with group/index/ctrl/state" },
                Evidence { kind: EvidenceKind::RuntimeTrace, reference: "pal-vm ext_btn_set_state consumes four arguments" },
            ],
            implementation_status: ImplStatus::Partial,
            decompiler_status: ImplStatus::Partial,
        }
    }
}

fn record_from_block_9(i: usize) -> (sig: ExtSig)
    requires
        108 <= i < 120,
    ensures
        sig@ == signature_entry(i as int),
{
    if i == 108 {
        ExtSig {
            category: 8,
            index: 15,
            canonical_name: "btn_enable",
            name: "btn_enable",
            game_handler_ea: Some("0x0040E5B0"),
            pal_export_name: Some("PalButtonCtrl"),
            pal_export_ea: Some("0x1011AE09"),
            pop_count: 3,
            pop_order: Vec::new(),
            display_order: Vec::new(),
            params: vec![
                Param { name: "group", pop_idx: 0, kind: ParamKind::ButtonSlot, meaning: "" },
                Param { name: "index", pop_idx: 1, kind: ParamKind::ButtonSlot, meaning: "" },
                Param { name: "enabled", pop_idx: 2, kind: ParamKind::Flag, meaning: "" },
            ],
            return_kind: ReturnKind::Void,
            returns: false,
            side_effects: vec![SideEffect::MutatesSprite, SideEffect::ChangesSelectState],
            purpose: "Enable or disable button input/visual state for one entry or a group wildcard.",
            evidence: vec![
                Evidence { kind: EvidenceKind::GameSqlite, reference: "reverse/Game.sqlite sub_40E5B0 pops group/index/enabled, calls PalButtonCtrl, and updates disabled flag bits" },
                Evidence { kind: EvidenceKind::PalSqlite, reference: "PalButtonCtrl 0x1011AE09 / Game import thunk 0x45034E" },
                Evidence { kind: EvidenceKind::RuntimeTrace, reference: "pal-vm ext_btn_enable pops group/index/enabled and updates compatible button state" },
            ],
            implementation_status: ImplStatus::Verified,
            decompiler_status: ImplStatus::Verified,
        }
    } else if i == 109 {
        ExtSig {
            category: 8,
            index: 16,
            canonical_name: "btn_set_alpha_0x",
            name: "btn_set_alpha_0x",
            game_handler_ea: Some("0x0040E4B0"),
            pal_export_name: Some("PalSpriteSetColor"),
            pal_export_ea: Some("0x10119103"),
            pop_count: 3,
            pop_order: Vec::new(),
            display_order: Vec::new(),
            params: vec![
                Param { name: "group", pop_idx: 0, kind: ParamKind::ButtonSlot, meaning: "" },
                Param { name: "index", pop_idx: 1, kind: ParamKind::ButtonSlot, meaning: "" },
                Param { name: "alpha", pop_idx: 2, kind: ParamKind::Alpha, meaning: "" },
            ],
            return_kind: ReturnKind::Void,
            returns: false,
            side_effects: vec![SideEffect::MutatesSprite],
            purpose: "Set button sprite alpha for one entry or a group wildcard.",
            evidence: vec![
                Evidence { kind: EvidenceKind::GameSqlite, reference: "reverse/Game.sqlite sub_40E4B0 pops group/index/alpha and writes alpha into button sprite color field" },
                Evidence { kind: EvidenceKind::PalSqlite, reference: "PalSpriteSetColor 0x10119103 is the PAL color primitive used by sprite alpha paths" },
                Evidence { kind: EvidenceKind::RuntimeTrace, reference: "pal-vm ext_btn_set_alpha pops 3 and updates compatible sprite alpha" },
            ],
            implementation_status: ImplStatus::Verified,
            decompiler_status: ImplStatus::Verified,
        }
    } else if i == 110 {
        ExtSig {
            category: 8,
            index: 17,
            canonical_name: "btn_get_push",
            name: "btn_get_push",
            game_handler_ea: Some("0x0040CDE0"),
            pal_export_name: Some("PalButtonGetReaction"),
            pal_export_ea: Some("0x1011E1D0"),
            pop_count: 1,
            pop_order: Vec::new(),
            display_order: Vec::new(),
            params: vec![
                Param { name: "group", pop_idx: 0, kind: ParamKind::ButtonSlot, meaning: "" },
            ],
            return_kind: ReturnKind::Integer,
            returns: true,
            side_effects: vec![SideEffect::ChangesSelectState],
            purpose: "Poll/consume the native button reaction for a group; compatible no-push sentinel is 0.",
            evidence: vec![
                Evidence { kind: EvidenceKind::GameSqlite, reference: "reverse/Game.sqlite sub_40CDE0 calls PalButtonGetReaction and mutates script reaction state" },
                Evidence { kind: EvidenceKind::PalSqlite, reference: "PalButtonGetReaction 0x1011E1D0 / Game import thunk 0x45029E" },
                Evidence { kind: EvidenceKind::RuntimeTrace, reference: "pal-vm ext_btn_get_push pops group and returns clicked index or 0" },
            ],
            implementation_status: ImplStatus::Verified,
            decompiler_status: ImplStatus::Verified,
        }
    } else if i == 111 {
        ExtSig {
            category: 8,
            index: 19,
            canonical_name: "btn_lock",
            name: "btn_lock",
            game_handler_ea: Some("0x0040E0C0"),
            pal_export_name: None,
            pal_export_ea: None,
            pop_count: 2,
            pop_order: Vec::new(),
            display_order: Vec::new(),
            params: vec![
                Param { name: "group", pop_idx: 0, kind: ParamKind::ButtonSlot, meaning: "" },
                Param { name: "duration_ms", pop_idx: 1, kind: ParamKind::DurationMs, meaning: "" },
            ],
            return_kind: ReturnKind::Void,
            returns: false,
            side_effects: vec![SideEffect::ChangesSelectState],
            purpose: "Lock input for a button group; second argument is the native duration/timer value.",
            evidence: vec![
                Evidence { kind: EvidenceKind::GameSqlite, reference: "reverse/Game.sqlite sub_40E0C0 pops group/duration, sets group lock timer fields, and stores start time only when duration is non-zero" },
                Evidence { kind: EvidenceKind::RuntimeTrace, reference: "pal-vm ext_btn_lock pops group/duration; duration 0 no longer locks matching group entries" },
            ],
            implementation_status: ImplStatus::Verified,
            decompiler_status: ImplStatus::Verified,
        }
    } else if i == 112 {
        ExtSig {
            category: 8,
            index: 20,
            canonical_name: "btn_unlock",
            name: "btn_unlock",
            game_handler_ea: Some("0x0040E040"),
            pal_export_name: None,
            pal_export_ea: None,
            pop_count: 1,
            pop_order: Vec::new(),
            display_order: Vec::new(),
            params: vec![
                Param { name: "group", pop_idx: 0, kind: ParamKind::ButtonSlot, meaning: "" },
            ],
            return_kind: ReturnKind::Void,
            returns: false,
            side_effects: vec![SideEffect::ChangesSelectState],
            purpose: "Unlock button input for a group.",
            evidence: vec![
                Evidence { kind: EvidenceKind::GameSqlite, reference: "reverse/Game.sqlite sub_40E040 pops group and clears native button lock fields" },
                Evidence { kind: EvidenceKind::RuntimeTrace, reference: "pal-vm ext_btn_unlock pops group and unlocks matching entries" },
            ],
            implementation_status: ImplStatus::Verified,
            decompiler_status: ImplStatus::Verified,
        }
    } else if i == 113 {
        ExtSig {
            category: 8,
            index: 21,
            canonical_name: "btn_set_anim",
            name: "btn_set_anim",
            game_handler_ea: Some("0x0040DE40"),
            pal_export_name: None,
            pal_export_ea: None,
            pop_count: 4,
            pop_order: Vec::new(),
            display_order: Vec::new(),
            params: vec![
                Param { name: "group", pop_idx: 0, kind: ParamKind::ButtonSlot, meaning: "" },
                Param { name: "index", pop_idx: 1, kind: ParamKind::ButtonSlot, meaning: "" },
                Param { name: "anim_resource", pop_idx: 2, kind: ParamKind::ResourceStringFromFileDat, meaning: "" },
                Param { name: "play_flag", pop_idx: 3, kind: ParamKind::Flag, meaning: "" },
            ],
            return_kind: ReturnKind::Void,
            returns: false,
            side_effects: vec![SideEffect::MutatesSprite, SideEffect::ChangesSelectState],
            purpose: "Bind/play button animation resource for an already registered button.",
            evidence: vec![
                Evidence { kind: EvidenceKind::GameSqlite, reference: "reverse/Game.sqlite sub_40DE40 pops group/index/resource/play_flag, resolves the resource with sub_44B1E0, calls sub_447440, and queues animation work" },
            ],
            implementation_status: ImplStatus::Blocked,
            decompiler_status: ImplStatus::Blocked,
        }
    } else if i == 114 {
        ExtSig {
            category: 8,
            index: 22,
            canonical_name: "btn_set_hit",
            name: "btn_set_hit",
            game_handler_ea: Some("0x0040DD90"),
            pal_export_name: Some("PalButtonSetReaction"),
            pal_export_ea: Some("0x101186DB"),
            pop_count: 2,
            pop_order: Vec::new(),
            display_order: Vec::new(),
            params: vec![
                Param { name: "group", pop_idx: 0, kind: ParamKind::ButtonSlot, meaning: "" },
                Param { name: "index", pop_idx: 1, kind: ParamKind::ButtonSlot, meaning: "" },
            ],
            return_kind: ReturnKind::Void,
            returns: false,
            side_effects: vec![SideEffect::ChangesSelectState],
            purpose: "Bind/update the PAL reaction target for an existing button entry.",
            evidence: vec![
                Evidence { kind: EvidenceKind::GameSqlite, reference: "reverse/Game.sqlite sub_40DD90 pops group/index and calls PalButtonSetReaction" },
                Evidence { kind: EvidenceKind::PalSqlite, reference: "PalButtonSetReaction 0x101186DB" },
                Evidence { kind: EvidenceKind::RuntimeTrace, reference: "pal-vm ext_btn_set_hit pops group/index and returns 1" },
            ],
            implementation_status: ImplStatus::Verified,
            decompiler_status: ImplStatus::Verified,
        }
    } else if i == 115 {
        ExtSig {
            category: 8,
            index: 23,
            canonical_name: "btn_get_onmouse",
            name: "btn_get_onmouse",
            game_handler_ea: Some("0x0040E3B0"),
            pal_export_name: None,
            pal_export_ea: None,
            pop_count: 1,
            pop_order: Vec::new(),
            display_order: Vec::new(),
            params: vec![
                Param { name: "group", pop_idx: 0, kind: ParamKind::ButtonSlot, meaning: "button group" },
            ],
            return_kind: ReturnKind::Integer,
            returns: true,
            side_effects: vec![SideEffect::ChangesSelectState],
            purpose: "Return current hover/onmouse button index for a group.",
            evidence: vec![
                Evidence { kind: EvidenceKind::GameSqlite, reference: "reverse/Game.sqlite sub_40E3B0 pops group and returns ctx + 4512*group + 12996" },
                Evidence { kind: EvidenceKind::RuntimeTrace, reference: "pal-vm ext_btn_get_onmouse pops group and hit-tests current mouse" },
            ],
            implementation_status: ImplStatus::Verified,
            decompiler_status: ImplStatus::Verified,
        }
    } else if i == 116 {
        ExtSig {
            category: 8,
            index: 37,
            canonical_name: "btn_get_alpha_0x",
            name: "btn_get_alpha_0x",
            game_handler_ea: None,
            pal_export_name: None,
            pal_export_ea: None,
            pop_count: 2,
            pop_order: Vec::new(),
            display_order: Vec::new(),
            params: vec![
                Param { name: "group", pop_idx: 0, kind: ParamKind::ButtonSlot, meaning: "" },
                Param { name: "index", pop_idx: 1, kind: ParamKind::ButtonSlot, meaning: "" },
            ],
            return_kind: ReturnKind::Integer,
            returns: true,
            side_effects: vec![],
            purpose: "Read the current button sprite alpha.",
            evidence: vec![
                Evidence { kind: EvidenceKind::Disassembly, reference: "Totsulover Script.src 0xA96CC and 0xA9878 query group/index alpha before menu animation" },
            ],
            implementation_status: ImplStatus::Partial,
            decompiler_status: ImplStatus::Partial,
        }
    } else if i == 117 {
        ExtSig {
            category: 5,
            index: 8,
            canonical_name: "channel_error_set_se_info",
            name: "channel_error_set_se_info",
            game_handler_ea: None,
            pal_export_name: None,
            pal_export_ea: None,
            pop_count: 4,
            pop_order: Vec::new(),
            display_order: Vec::new(),
            params: vec![
                Param { name: "arg0", pop_idx: 0, kind: ParamKind::Unknown, meaning: "" },
                Param { name: "arg1", pop_idx: 1, kind: ParamKind::Unknown, meaning: "" },
                Param { name: "arg2", pop_idx: 2, kind: ParamKind::Unknown, meaning: "" },
                Param { name: "arg3", pop_idx: 3, kind: ParamKind::Unknown, meaning: "" },
            ],
            return_kind: ReturnKind::Status,
            returns: true,
            side_effects: vec![SideEffect::UnknownSideEffect],
            purpose: "Preserve the SE channel metadata call's stack contract.",
            evidence: vec![
                Evidence { kind: EvidenceKind::Disassembly, reference: "Totsulover Script.src 0x157AF8 and 0x157B24 each push four arguments" },
            ],
            implementation_status: ImplStatus::StackDisciplineOnly,
            decompiler_status: ImplStatus::Partial,
        }
    } else if i == 118 {
        ExtSig {
            category: 9,
            index: 0,
            canonical_name: "skip_set",
            name: "skip_set",
            game_handler_ea: Some("0x00438C40"),
            pal_export_name: None,
            pal_export_ea: None,
            pop_count: 1,
            pop_order: Vec::new(),
            display_order: Vec::new(),
            params: vec![
                Param { name: "enabled", pop_idx: 0, kind: ParamKind::Flag, meaning: "nonzero enables native ADV skip latch" },
            ],
            return_kind: ReturnKind::Integer,
            returns: true,
            side_effects: vec![SideEffect::ChangesTextState, SideEffect::ChangesSelectState],
            purpose: "Set the ADV text skip latch.",
            evidence: vec![
                Evidence { kind: EvidenceKind::GameSqlite, reference: "reverse/Game.sqlite sub_438C40 pops enabled, writes byte ctx+804248, updates skip button row through PalButtonSetPos" },
            ],
            implementation_status: ImplStatus::Verified,
            decompiler_status: ImplStatus::Verified,
        }
    } else {
        ExtSig {
            category: 9,
            index: 1,
            canonical_name: "skip_is",
            name: "skip_is",
            game_handler_ea: Some("0x00438C00"),
            pal_export_name: None,
            pal_export_ea: None,
            pop_count: 0,
            pop_order: Vec::new(),
            display_order: Vec::new(),
            params: vec![],
            return_kind: ReturnKind::Integer,
            returns: true,
            side_effects: vec![SideEffect::WritesVmMemory],
            purpose: "Return the ADV text skip latch.",
            evidence: vec![
                Evidence { kind: EvidenceKind::GameSqlite, reference: "reverse/Game.sqlite sub_438C00 writes unsigned byte ctx+804248 to the extcall destination" },
            ],
            implementation_status: ImplStatus::Verified,
            decompiler_status: ImplStatus::Verified,
        }
    }
}

fn record_from_block_10(i: usize) -> (sig: ExtSig)
    requires
        120 <= i < 132,
    ensures
        sig@ == signature_entry(i as int),
{
    if i == 120 {
        ExtSig {
            category: 9,
            index: 2,
            canonical_name: "auto_set",
            name: "auto_set",
            game_handler_ea: Some("0x00438A90"),
            pal_export_name: None,
            pal_export_ea: None,
            pop_count: 1,
            pop_order: Vec::new(),
            display_order: Vec::new(),
            params: vec![
                Param { name: "enabled", pop_idx: 0, kind: ParamKind::Flag, meaning: "nonzero enables auto-advance after text reveal" },
            ],
            return_kind: ReturnKind::Integer,
            returns: true,
            side_effects: vec![SideEffect::ChangesTextState, SideEffect::ChangesSelectState],
            purpose: "Set the ADV text auto latch.",
            evidence: vec![
                Evidence { kind: EvidenceKind::GameSqlite, reference: "reverse/Game.sqlite sub_438A90 pops enabled, writes ctx+804252, updates auto button row through PalButtonSetPos" },
            ],
            implementation_status: ImplStatus::Verified,
            decompiler_status: ImplStatus::Verified,
        }
    } else if i == 121 {
        ExtSig {
            category: 9,
            index: 3,
            canonical_name: "auto_is",
            name: "auto_is",
            game_handler_ea: Some("0x00438A50"),
            pal_export_name: None,
            pal_export_ea: None,
            pop_count: 0,
            pop_order: Vec::new(),
            display_order: Vec::new(),
            params: vec![],
            return_kind: ReturnKind::Integer,
            returns: true,
            side_effects: vec![SideEffect::WritesVmMemory],
            purpose: "Return the ADV text auto latch.",
            evidence: vec![
                Evidence { kind: EvidenceKind::GameSqlite, reference: "reverse/Game.sqlite sub_438A50 writes ctx+804252 to the extcall destination" },
            ],
            implementation_status: ImplStatus::Verified,
            decompiler_status: ImplStatus::Verified,
        }
    } else if i == 122 {
        ExtSig {
            category: 9,
            index: 4,
            canonical_name: "auto_set_speed",
            name: "auto_set_speed",
            game_handler_ea: Some("0x004389F0"),
            pal_export_name: None,
            pal_export_ea: None,
            pop_count: 1,
            pop_order: Vec::new(),
            display_order: Vec::new(),
            params: vec![
                Param { name: "speed_percent", pop_idx: 0, kind: ParamKind::Integer, meaning: "text timing percent clamped to 0..100" },
            ],
            return_kind: ReturnKind::Integer,
            returns: true,
            side_effects: vec![SideEffect::ChangesTextState],
            purpose: "Set PAL text auto/typewriter speed percent.",
            evidence: vec![
                Evidence { kind: EvidenceKind::GameSqlite, reference: "reverse/Game.sqlite sub_4389F0 pops speed, clamps >100, writes PalTaskGetTaskData(0)+28" },
                Evidence { kind: EvidenceKind::Disassembly, reference: "docs/dis.txt 00039628 pushes config value before ext_0009_0004" },
            ],
            implementation_status: ImplStatus::Verified,
            decompiler_status: ImplStatus::Verified,
        }
    } else if i == 123 {
        ExtSig {
            category: 9,
            index: 6,
            canonical_name: "window_change_mode",
            name: "window_change_mode",
            game_handler_ea: Some("0x00438950"),
            pal_export_name: Some("PalWindowChangeMode"),
            pal_export_ea: Some("0x101194A5"),
            pop_count: 1,
            pop_order: Vec::new(),
            display_order: Vec::new(),
            params: vec![
                Param { name: "mode", pop_idx: 0, kind: ParamKind::Mode, meaning: "PAL window mode" },
            ],
            return_kind: ReturnKind::Integer,
            returns: true,
            side_effects: vec![SideEffect::MutatesWindow],
            purpose: "Request a PAL window mode change.",
            evidence: vec![
                Evidence { kind: EvidenceKind::GameSqlite, reference: "reverse/Game.sqlite sub_438950 calls PalWindowChangeMode(mode)" },
                Evidence { kind: EvidenceKind::PalSqlite, reference: "reverse/PAL.sqlite PalWindowChangeMode 0x101194A5 -> PalWindowChangeMode_0 posts message 0x8065" },
            ],
            implementation_status: ImplStatus::Verified,
            decompiler_status: ImplStatus::Verified,
        }
    } else if i == 124 {
        ExtSig {
            category: 9,
            index: 7,
            canonical_name: "window_set_mode_cache",
            name: "window_set_mode_cache",
            game_handler_ea: Some("0x004388F0"),
            pal_export_name: None,
            pal_export_ea: None,
            pop_count: 1,
            pop_order: Vec::new(),
            display_order: Vec::new(),
            params: vec![
                Param { name: "mode", pop_idx: 0, kind: ParamKind::Mode, meaning: "cached window/layout mode" },
            ],
            return_kind: ReturnKind::Integer,
            returns: true,
            side_effects: vec![SideEffect::MutatesWindow],
            purpose: "Cache logical window mode without posting a window-change message.",
            evidence: vec![
                Evidence { kind: EvidenceKind::GameSqlite, reference: "reverse/Game.sqlite sub_4388F0 pops mode and writes PalTaskGetTaskData(0)+12" },
            ],
            implementation_status: ImplStatus::Verified,
            decompiler_status: ImplStatus::Verified,
        }
    } else if i == 125 {
        ExtSig {
            category: 9,
            index: 8,
            canonical_name: "effect_enable",
            name: "effect_enable",
            game_handler_ea: Some("0x00438890"),
            pal_export_name: Some("PalEffectEnable"),
            pal_export_ea: Some("0x1011C119"),
            pop_count: 1,
            pop_order: Vec::new(),
            display_order: Vec::new(),
            params: vec![
                Param { name: "enabled", pop_idx: 0, kind: ParamKind::Flag, meaning: "non-zero enables PAL effects" },
            ],
            return_kind: ReturnKind::Integer,
            returns: true,
            side_effects: vec![SideEffect::ChangesRunState, SideEffect::MutatesWindow],
            purpose: "Enable or disable PAL visual effects.",
            evidence: vec![
                Evidence { kind: EvidenceKind::GameSqlite, reference: "reverse/Game.sqlite sub_438890 pops flag, calls PalEffectEnable, writes PalTaskGetTaskData(0)+16" },
                Evidence { kind: EvidenceKind::PalSqlite, reference: "reverse/PAL.sqlite PalEffectEnable 0x1011C119 -> PalEffectEnable_0 writes Block[277]" },
            ],
            implementation_status: ImplStatus::Verified,
            decompiler_status: ImplStatus::Verified,
        }
    } else if i == 126 {
        ExtSig {
            category: 9,
            index: 9,
            canonical_name: "effect_enable_is",
            name: "effect_enable_is",
            game_handler_ea: Some("0x00438810"),
            pal_export_name: Some("PalEffectEnableIs"),
            pal_export_ea: Some("0x101195A9"),
            pop_count: 0,
            pop_order: Vec::new(),
            display_order: Vec::new(),
            params: vec![],
            return_kind: ReturnKind::Bool,
            returns: true,
            side_effects: vec![],
            purpose: "Query whether PAL visual effects are enabled.",
            evidence: vec![
                Evidence { kind: EvidenceKind::GameSqlite, reference: "reverse/Game.sqlite sub_438810 returns PalEffectEnableIs with no pops" },
                Evidence { kind: EvidenceKind::PalSqlite, reference: "reverse/PAL.sqlite PalEffectEnableIs 0x101195A9 -> PalEffectEnableIs_0 returns Block[277]" },
            ],
            implementation_status: ImplStatus::Verified,
            decompiler_status: ImplStatus::Verified,
        }
    } else if i == 127 {
        ExtSig {
            category: 9,
            index: 10,
            canonical_name: "window_get_mode_cache",
            name: "window_get_mode_cache",
            game_handler_ea: Some("0x00438830"),
            pal_export_name: None,
            pal_export_ea: None,
            pop_count: 0,
            pop_order: Vec::new(),
            display_order: Vec::new(),
            params: vec![],
            return_kind: ReturnKind::Integer,
            returns: true,
            side_effects: vec![SideEffect::WritesVmMemory],
            purpose: "Return cached logical window/layout mode.",
            evidence: vec![
                Evidence { kind: EvidenceKind::GameSqlite, reference: "reverse/Game.sqlite sub_438830 writes PalTaskGetTaskData(0)+12 to dst_slot" },
            ],
            implementation_status: ImplStatus::Verified,
            decompiler_status: ImplStatus::Verified,
        }
    } else if i == 128 {
        ExtSig {
            category: 9,
            index: 12,
            canonical_name: "input_mouse_to_mem",
            name: "input_mouse_to_mem",
            game_handler_ea: Some("0x00438770"),
            pal_export_name: None,
            pal_export_ea: None,
            pop_count: 2,
            pop_order: Vec::new(),
            display_order: Vec::new(),
            params: vec![
                Param { name: "dst_x", pop_idx: 0, kind: ParamKind::BufferPointer, meaning: "Mem.dat destination for mouse x or -1" },
                Param { name: "dst_y", pop_idx: 1, kind: ParamKind::BufferPointer, meaning: "Mem.dat destination for mouse y or -1" },
            ],
            return_kind: ReturnKind::Integer,
            returns: true,
            side_effects: vec![SideEffect::WritesVmMemory],
            purpose: "Write mouse x/y into Mem.dat destinations.",
            evidence: vec![
                Evidence { kind: EvidenceKind::GameSqlite, reference: "reverse/Game.sqlite sub_438770 pops dst_x/dst_y and writes PalInputGetMouseX/Y to Mem.dat" },
            ],
            implementation_status: ImplStatus::Verified,
            decompiler_status: ImplStatus::Verified,
        }
    } else if i == 129 {
        ExtSig {
            category: 9,
            index: 14,
            canonical_name: "memory_bank_clear",
            name: "memory_bank_clear",
            game_handler_ea: Some("0x00438460"),
            pal_export_name: None,
            pal_export_ea: None,
            pop_count: 0,
            pop_order: Vec::new(),
            display_order: Vec::new(),
            params: vec![],
            return_kind: ReturnKind::Integer,
            returns: true,
            side_effects: vec![SideEffect::WritesVmMemory],
            purpose: "Clear native VM scratch memory bank.",
            evidence: vec![
                Evidence { kind: EvidenceKind::GameSqlite, reference: "reverse/Game.sqlite sub_438460 memset(ctx+711860,0,0x1000) and pops no args" },
            ],
            implementation_status: ImplStatus::Verified,
            decompiler_status: ImplStatus::Verified,
        }
    } else if i == 130 {
        ExtSig {
            category: 9,
            index: 17,
            canonical_name: "set_language",
            name: "set_language",
            game_handler_ea: Some("0x00438090"),
            pal_export_name: Some("PalFontSetType"),
            pal_export_ea: Some("0x1011C4A2"),
            pop_count: 1,
            pop_order: Vec::new(),
            display_order: Vec::new(),
            params: vec![
                Param { name: "font_type", pop_idx: 0, kind: ParamKind::Mode, meaning: "PAL font type/language id" },
            ],
            return_kind: ReturnKind::Integer,
            returns: true,
            side_effects: vec![SideEffect::MutatesWindow],
            purpose: "Set PAL font type/language.",
            evidence: vec![
                Evidence { kind: EvidenceKind::GameSqlite, reference: "reverse/Game.sqlite sub_438090 pops font_type and calls PalFontSetType" },
                Evidence { kind: EvidenceKind::PalSqlite, reference: "reverse/PAL.sqlite PalFontSetType 0x1011C4A2 -> PalFontSetType_0 stores Block[232]" },
            ],
            implementation_status: ImplStatus::Verified,
            decompiler_status: ImplStatus::Verified,
        }
    } else {
        ExtSig {
            category: 9,
            index: 18,
            canonical_name: "input_key_cancel",
            name: "input_key_cancel",
            game_handler_ea: Some("0x00437E70"),
            pal_export_name: Some("PalInputKeyCancel"),
            pal_export_ea: Some("0x1011F56C"),
            pop_count: 2,
            pop_order: Vec::new(),
            display_order: Vec::new(),
            params: vec![
                Param { name: "key_mask", pop_idx: 0, kind: ParamKind::Integer, meaning: "keyboard mask" },
                Param { name: "mouse_mask", pop_idx: 1, kind: ParamKind::Integer, meaning: "mouse mask" },
            ],
            return_kind: ReturnKind::Integer,
            returns: true,
            side_effects: vec![SideEffect::ChangesSelectState],
            purpose: "Cancel selected PAL input key/mouse masks.",
            evidence: vec![
                Evidence { kind: EvidenceKind::GameSqlite, reference: "reverse/Game.sqlite sub_437E70 pops key_mask,mouse_mask and calls PalInputKeyCancel" },
                Evidence { kind: EvidenceKind::PalSqlite, reference: "reverse/PAL.sqlite PalInputKeyCancel 0x1011F56C -> PalInputKeyCancel_0 masks PAL input state" },
            ],
            implementation_status: ImplStatus::Verified,
            decompiler_status: ImplStatus::Verified,
        }
    }
}

fn record_from_block_11(i: usize) -> (sig: ExtSig)
    requires
        132 <= i < 144,
    ensures
        sig@ == signature_entry(i as int),
{
    if i == 132 {
        ExtSig {
            category: 9,
            index: 19,
            canonical_name: "set_font_color",
            name: "set_font_color",
            game_handler_ea: Some("0x00437F30"),
            pal_export_name: Some("PalFontSetColor"),
            pal_export_ea: Some("0x101214F7"),
            pop_count: 2,
            pop_order: Vec::new(),
            display_order: Vec::new(),
            params: vec![
                Param { name: "text_color", pop_idx: 0, kind: ParamKind::Color, meaning: "primary font color" },
                Param { name: "effect_color", pop_idx: 1, kind: ParamKind::Color, meaning: "effect/outline color" },
            ],
            return_kind: ReturnKind::Integer,
            returns: true,
            side_effects: vec![SideEffect::MutatesWindow],
            purpose: "Set PAL shared UI font colors.",
            evidence: vec![
                Evidence { kind: EvidenceKind::GameSqlite, reference: "reverse/Game.sqlite sub_437F30 pops text_color,effect_color and calls PalFontSetColor" },
                Evidence { kind: EvidenceKind::PalSqlite, reference: "reverse/PAL.sqlite PalFontSetColor 0x101214F7 -> PalFontSetColor_0 stores Block[113]/Block[114]" },
            ],
            implementation_status: ImplStatus::Verified,
            decompiler_status: ImplStatus::Verified,
        }
    } else if i == 133 {
        ExtSig {
            category: 9,
            index: 20,
            canonical_name: "load_font_ex",
            name: "load_font_ex",
            game_handler_ea: Some("0x004382D0"),
            pal_export_name: None,
            pal_export_ea: None,
            pop_count: 1,
            pop_order: Vec::new(),
            display_order: Vec::new(),
            params: vec![
                Param { name: "font_resource", pop_idx: 0, kind: ParamKind::ResourceStringFromFileDat, meaning: "extended font resource base name" },
            ],
            return_kind: ReturnKind::Integer,
            returns: true,
            side_effects: vec![SideEffect::MutatesWindow],
            purpose: "Load an extended font TGA resource.",
            evidence: vec![
                Evidence { kind: EvidenceKind::GameSqlite, reference: "reverse/Game.sqlite sub_4382D0 pops font string, appends .tga, calls PalExFontUnload/PalExFontLoad" },
            ],
            implementation_status: ImplStatus::Blocked,
            decompiler_status: ImplStatus::Verified,
        }
    } else if i == 134 {
        ExtSig {
            category: 9,
            index: 21,
            canonical_name: "memory_stack_push",
            name: "memory_stack_push",
            game_handler_ea: Some("0x00437E10"),
            pal_export_name: None,
            pal_export_ea: None,
            pop_count: 0,
            pop_order: Vec::new(),
            display_order: Vec::new(),
            params: vec![],
            return_kind: ReturnKind::Integer,
            returns: true,
            side_effects: vec![SideEffect::WritesVmMemory],
            purpose: "Snapshot the native script memory bank onto the memory stack.",
            evidence: vec![
                Evidence { kind: EvidenceKind::GameSqlite, reference: "reverse/Game.sqlite sub_437E10 copies 0x4000 bytes from ctx+715956 to ctx+738524+(depth*0x4000)" },
            ],
            implementation_status: ImplStatus::Verified,
            decompiler_status: ImplStatus::Verified,
        }
    } else if i == 135 {
        ExtSig {
            category: 9,
            index: 22,
            canonical_name: "memory_stack_pop",
            name: "memory_stack_pop",
            game_handler_ea: Some("0x00437D90"),
            pal_export_name: None,
            pal_export_ea: None,
            pop_count: 0,
            pop_order: Vec::new(),
            display_order: Vec::new(),
            params: vec![],
            return_kind: ReturnKind::Integer,
            returns: true,
            side_effects: vec![SideEffect::WritesVmMemory],
            purpose: "Restore the last native script memory-bank snapshot.",
            evidence: vec![
                Evidence { kind: EvidenceKind::GameSqlite, reference: "reverse/Game.sqlite sub_437D90 restores 0x4000 bytes from ctx+738524+(depth*0x4000) to ctx+715956" },
            ],
            implementation_status: ImplStatus::Verified,
            decompiler_status: ImplStatus::Verified,
        }
    } else if i == 136 {
        ExtSig {
            category: 9,
            index: 23,
            canonical_name: "list_stack_push_point",
            name: "list_stack_push_point",
            game_handler_ea: Some("0x00437CD0"),
            pal_export_name: None,
            pal_export_ea: None,
            pop_count: 1,
            pop_order: Vec::new(),
            display_order: Vec::new(),
            params: vec![
                Param { name: "point_id", pop_idx: 0, kind: ParamKind::PointId, meaning: "script point id whose resolved address is pushed" },
            ],
            return_kind: ReturnKind::Integer,
            returns: true,
            side_effects: vec![SideEffect::ChangesRunState],
            purpose: "Push a resolved script point onto the native list stack.",
            evidence: vec![
                Evidence { kind: EvidenceKind::GameSqlite, reference: "reverse/Game.sqlite sub_437CD0 pops point id, resolves point table, and PalListPushes the address" },
            ],
            implementation_status: ImplStatus::Verified,
            decompiler_status: ImplStatus::Verified,
        }
    } else if i == 137 {
        ExtSig {
            category: 9,
            index: 24,
            canonical_name: "list_stack_pop_count",
            name: "list_stack_pop_count",
            game_handler_ea: Some("0x00437C00"),
            pal_export_name: None,
            pal_export_ea: None,
            pop_count: 1,
            pop_order: Vec::new(),
            display_order: Vec::new(),
            params: vec![
                Param { name: "count_mode", pop_idx: 0, kind: ParamKind::Integer, meaning: "native list-pop count/control value" },
            ],
            return_kind: ReturnKind::Integer,
            returns: true,
            side_effects: vec![SideEffect::ChangesRunState],
            purpose: "Pop native list-stack continuation entries.",
            evidence: vec![
                Evidence { kind: EvidenceKind::GameSqlite, reference: "reverse/Game.sqlite sub_437C00 pops count/control and PalListPops entries" },
            ],
            implementation_status: ImplStatus::Verified,
            decompiler_status: ImplStatus::Verified,
        }
    } else if i == 138 {
        ExtSig {
            category: 9,
            index: 25,
            canonical_name: "system_scratch_clear",
            name: "system_scratch_clear",
            game_handler_ea: Some("0x00437BA0"),
            pal_export_name: None,
            pal_export_ea: None,
            pop_count: 0,
            pop_order: Vec::new(),
            display_order: Vec::new(),
            params: vec![],
            return_kind: ReturnKind::Integer,
            returns: true,
            side_effects: vec![SideEffect::WritesVmMemory],
            purpose: "Clear Game.exe ctx+804244 system/list scratch latch.",
            evidence: vec![
                Evidence { kind: EvidenceKind::GameSqlite, reference: "reverse/Game.sqlite sub_437BA0 consumes no args and writes ctx+804244 = 0" },
            ],
            implementation_status: ImplStatus::Verified,
            decompiler_status: ImplStatus::Verified,
        }
    } else if i == 139 {
        ExtSig {
            category: 9,
            index: 26,
            canonical_name: "system_scratch_get",
            name: "system_scratch_get",
            game_handler_ea: Some("0x00437B80"),
            pal_export_name: None,
            pal_export_ea: None,
            pop_count: 0,
            pop_order: Vec::new(),
            display_order: Vec::new(),
            params: vec![],
            return_kind: ReturnKind::Integer,
            returns: true,
            side_effects: vec![SideEffect::WritesVmMemory],
            purpose: "Return Game.exe ctx+804244 system/list scratch latch.",
            evidence: vec![
                Evidence { kind: EvidenceKind::GameSqlite, reference: "reverse/Game.sqlite sub_437B80 consumes no args and writes ctx+804244 to the extcall destination" },
            ],
            implementation_status: ImplStatus::Verified,
            decompiler_status: ImplStatus::Verified,
        }
    } else if i == 140 {
        ExtSig {
            category: 9,
            index: 27,
            canonical_name: "set_font_size",
            name: "set_font_size",
            game_handler_ea: Some("0x00437B00"),
            pal_export_name: Some("PalFontSetFontSize"),
            pal_export_ea: Some("0x1011E734"),
            pop_count: 1,
            pop_order: Vec::new(),
            display_order: Vec::new(),
            params: vec![
                Param { name: "font_size", pop_idx: 0, kind: ParamKind::Integer, meaning: "PAL font size" },
            ],
            return_kind: ReturnKind::Integer,
            returns: true,
            side_effects: vec![SideEffect::MutatesWindow],
            purpose: "Set PAL shared UI font size and return previous size.",
            evidence: vec![
                Evidence { kind: EvidenceKind::GameSqlite, reference: "reverse/Game.sqlite sub_437B00 pops size, calls PalFontGetFontSize and PalFontSetFontSize" },
                Evidence { kind: EvidenceKind::PalSqlite, reference: "reverse/PAL.sqlite PalFontSetFontSize 0x1011E734 / PalFontGetFontSize 0x1011C59C" },
            ],
            implementation_status: ImplStatus::Verified,
            decompiler_status: ImplStatus::Verified,
        }
    } else if i == 141 {
        ExtSig {
            category: 9,
            index: 28,
            canonical_name: "get_font_size",
            name: "get_font_size",
            game_handler_ea: Some("0x00437AC0"),
            pal_export_name: Some("PalFontGetFontSize"),
            pal_export_ea: Some("0x1011C59C"),
            pop_count: 0,
            pop_order: Vec::new(),
            display_order: Vec::new(),
            params: vec![],
            return_kind: ReturnKind::Integer,
            returns: true,
            side_effects: vec![SideEffect::WritesVmMemory],
            purpose: "Return PAL shared UI font size.",
            evidence: vec![
                Evidence { kind: EvidenceKind::GameSqlite, reference: "reverse/Game.sqlite sub_437AC0 writes PalFontGetFontSize to dst_slot" },
                Evidence { kind: EvidenceKind::PalSqlite, reference: "reverse/PAL.sqlite PalFontGetFontSize 0x1011C59C" },
            ],
            implementation_status: ImplStatus::Verified,
            decompiler_status: ImplStatus::Verified,
        }
    } else if i == 142 {
        ExtSig {
            category: 9,
            index: 29,
            canonical_name: "get_font_type",
            name: "get_font_type",
            game_handler_ea: Some("0x00438050"),
            pal_export_name: Some("PalFontGetType"),
            pal_export_ea: Some("0x1011CA2E"),
            pop_count: 0,
            pop_order: Vec::new(),
            display_order: Vec::new(),
            params: vec![],
            return_kind: ReturnKind::Integer,
            returns: true,
            side_effects: vec![SideEffect::WritesVmMemory],
            purpose: "Return PAL shared UI font type/language.",
            evidence: vec![
                Evidence { kind: EvidenceKind::GameSqlite, reference: "reverse/Game.sqlite sub_438050 writes PalFontGetType to dst_slot" },
                Evidence { kind: EvidenceKind::PalSqlite, reference: "reverse/PAL.sqlite PalFontGetType 0x1011CA2E" },
            ],
            implementation_status: ImplStatus::Verified,
            decompiler_status: ImplStatus::Verified,
        }
    } else {
        ExtSig {
            category: 9,
            index: 30,
            canonical_name: "set_font_effect",
            name: "set_font_effect",
            game_handler_ea: Some("0x00437A60"),
            pal_export_name: None,
            pal_export_ea: None,
            pop_count: 1,
            pop_order: Vec::new(),
            display_order: Vec::new(),
            params: vec![
                Param { name: "effect", pop_idx: 0, kind: ParamKind::Mode, meaning: "PAL font effect mode" },
            ],
            return_kind: ReturnKind::Integer,
            returns: true,
            side_effects: vec![SideEffect::MutatesWindow],
            purpose: "Set PAL shared UI font effect mode.",
            evidence: vec![
                Evidence { kind: EvidenceKind::GameSqlite, reference: "reverse/Game.sqlite sub_437A60 pops effect and calls PalFontSetEffect" },
            ],
            implementation_status: ImplStatus::Verified,
            decompiler_status: ImplStatus::Verified,
        }
    }
}

fn record_from_block_12(i: usize) -> (sig: ExtSig)
    requires
        144 <= i < 156,
    ensures
        sig@ == signature_entry(i as int),
{
    if i == 144 {
        ExtSig {
            category: 9,
            index: 31,
            canonical_name: "get_font_effect",
            name: "get_font_effect",
            game_handler_ea: Some("0x00437A20"),
            pal_export_name: None,
            pal_export_ea: None,
            pop_count: 0,
            pop_order: Vec::new(),
            display_order: Vec::new(),
            params: vec![],
            return_kind: ReturnKind::Integer,
            returns: true,
            side_effects: vec![SideEffect::WritesVmMemory],
            purpose: "Return PAL shared UI font effect mode.",
            evidence: vec![
                Evidence { kind: EvidenceKind::GameSqlite, reference: "reverse/Game.sqlite sub_437A20 writes PalFontGetEffect to dst_slot" },
            ],
            implementation_status: ImplStatus::Verified,
            decompiler_status: ImplStatus::Verified,
        }
    } else if i == 145 {
        ExtSig {
            category: 9,
            index: 52,
            canonical_name: "cancel_scene_skip",
            name: "cancel_scene_skip",
            game_handler_ea: Some("0x00437150"),
            pal_export_name: None,
            pal_export_ea: None,
            pop_count: 0,
            pop_order: Vec::new(),
            display_order: Vec::new(),
            params: vec![],
            return_kind: ReturnKind::Integer,
            returns: true,
            side_effects: vec![SideEffect::ChangesRunState],
            purpose: "Cancel native scene-skip latch and update save-point state.",
            evidence: vec![
                Evidence { kind: EvidenceKind::GameSqlite, reference: "reverse/Game.sqlite sub_437150 consumes no args and clears ctx[201064] when scene skip is active" },
            ],
            implementation_status: ImplStatus::Verified,
            decompiler_status: ImplStatus::Verified,
        }
    } else if i == 146 {
        ExtSig {
            category: 9,
            index: 53,
            canonical_name: "list_stack_get_count",
            name: "list_stack_get_count",
            game_handler_ea: Some("0x00437BC0"),
            pal_export_name: None,
            pal_export_ea: None,
            pop_count: 0,
            pop_order: Vec::new(),
            display_order: Vec::new(),
            params: vec![],
            return_kind: ReturnKind::Integer,
            returns: true,
            side_effects: vec![SideEffect::WritesVmMemory],
            purpose: "Return native list-stack depth for tag 2.",
            evidence: vec![
                Evidence { kind: EvidenceKind::GameSqlite, reference: "reverse/Game.sqlite sub_437BC0 returns PalListGetDataCount(ctx+804228, 2)" },
                Evidence { kind: EvidenceKind::Disassembly, reference: "target/diagnostics/game_idb_extcalls.json maps category 9 index 53 to 0x00437BC0" },
            ],
            implementation_status: ImplStatus::Verified,
            decompiler_status: ImplStatus::Verified,
        }
    } else if i == 147 {
        ExtSig {
            category: 15,
            index: 4,
            canonical_name: "system_window_overlay_set",
            name: "system_window_overlay_set",
            game_handler_ea: None,
            pal_export_name: None,
            pal_export_ea: None,
            pop_count: 3,
            pop_order: Vec::new(),
            display_order: Vec::new(),
            params: vec![
                Param { name: "text_id", pop_idx: 0, kind: ParamKind::TextId, meaning: "text/resource id or sentinel" },
                Param { name: "value", pop_idx: 1, kind: ParamKind::Integer, meaning: "per-callsite value" },
                Param { name: "mode", pop_idx: 2, kind: ParamKind::Mode, meaning: "mode or sentinel 0x0FFFFFFF" },
            ],
            return_kind: ReturnKind::Integer,
            returns: true,
            side_effects: vec![SideEffect::MutatesWindow],
            purpose: "Configure native system/window overlay record.",
            evidence: vec![
                Evidence { kind: EvidenceKind::Disassembly, reference: "Koikake docs/dis.txt reachable ext_000F_0004 callsites push three values; Totsulover Script.src 0x102088 pushes eight values" },
                Evidence { kind: EvidenceKind::RuntimeTrace, reference: "Totsulover startup leaves five stack values per call if only three are popped" },
            ],
            implementation_status: ImplStatus::Blocked,
            decompiler_status: ImplStatus::Partial,
        }
    } else if i == 148 {
        ExtSig {
            category: 15,
            index: 5,
            canonical_name: "debug_window_set",
            name: "debug_window_set",
            game_handler_ea: Some("0x00410F80"),
            pal_export_name: None,
            pal_export_ea: None,
            pop_count: 1,
            pop_order: Vec::new(),
            display_order: Vec::new(),
            params: vec![
                Param { name: "state", pop_idx: 0, kind: ParamKind::Mode, meaning: "new PalDebugWindow state" },
            ],
            return_kind: ReturnKind::Integer,
            returns: true,
            side_effects: vec![SideEffect::MutatesWindow],
            purpose: "Set PAL debug-window state and return previous state.",
            evidence: vec![
                Evidence { kind: EvidenceKind::GameSqlite, reference: "reverse/Game.sqlite sub_410F80 pops state, calls PalDebugWindowGetState/SetState, and returns old state" },
            ],
            implementation_status: ImplStatus::Verified,
            decompiler_status: ImplStatus::Verified,
        }
    } else if i == 149 {
        ExtSig {
            category: 12,
            index: 0,
            canonical_name: "system_btn_set",
            name: "system_btn_set",
            game_handler_ea: Some("0x00439270"),
            pal_export_name: None,
            pal_export_ea: None,
            pop_count: 3,
            pop_order: Vec::new(),
            display_order: Vec::new(),
            params: vec![
                Param { name: "index", pop_idx: 0, kind: ParamKind::ButtonSlot, meaning: "" },
                Param { name: "image", pop_idx: 1, kind: ParamKind::ResourceStringFromFileDat, meaning: "" },
                Param { name: "state", pop_idx: 2, kind: ParamKind::Mode, meaning: "" },
            ],
            return_kind: ReturnKind::Void,
            returns: false,
            side_effects: vec![SideEffect::ChangesSelectState, SideEffect::MutatesWindow],
            purpose: "Configure native system/menu button state in Game.exe's window button table.",
            evidence: vec![
                Evidence { kind: EvidenceKind::GameSqlite, reference: "reverse/Game.sqlite sub_439270 pops index/image/state and updates system button table" },
                Evidence { kind: EvidenceKind::RuntimeTrace, reference: "pal-vm dispatch_system_button_stub index 0 pops index/image/state" },
            ],
            implementation_status: ImplStatus::Verified,
            decompiler_status: ImplStatus::Verified,
        }
    } else if i == 150 {
        ExtSig {
            category: 12,
            index: 1,
            canonical_name: "system_btn_release",
            name: "system_btn_release",
            game_handler_ea: None,
            pal_export_name: None,
            pal_export_ea: None,
            pop_count: 1,
            pop_order: Vec::new(),
            display_order: Vec::new(),
            params: vec![
                Param { name: "index", pop_idx: 0, kind: ParamKind::ButtonSlot, meaning: "" },
            ],
            return_kind: ReturnKind::Void,
            returns: false,
            side_effects: vec![SideEffect::ChangesSelectState],
            purpose: "Release a system/menu button entry.",
            evidence: vec![
                Evidence { kind: EvidenceKind::GameSqlite, reference: "reverse/Game.sqlite system button handler; pal-vm dispatch_system_button_stub index 1 pops 1" },
            ],
            implementation_status: ImplStatus::Blocked,
            decompiler_status: ImplStatus::Blocked,
        }
    } else if i == 151 {
        ExtSig {
            category: 12,
            index: 2,
            canonical_name: "system_btn_enable",
            name: "system_btn_enable",
            game_handler_ea: Some("0x00439100"),
            pal_export_name: None,
            pal_export_ea: None,
            pop_count: 2,
            pop_order: Vec::new(),
            display_order: Vec::new(),
            params: vec![
                Param { name: "index", pop_idx: 0, kind: ParamKind::ButtonSlot, meaning: "" },
                Param { name: "enabled", pop_idx: 1, kind: ParamKind::Flag, meaning: "" },
            ],
            return_kind: ReturnKind::Void,
            returns: false,
            side_effects: vec![SideEffect::ChangesSelectState],
            purpose: "Enable/disable a system/menu button entry.",
            evidence: vec![
                Evidence { kind: EvidenceKind::GameSqlite, reference: "reverse/Game.sqlite sub_439100 pops index/enabled and supports index 0xFFFF wildcard" },
                Evidence { kind: EvidenceKind::RuntimeTrace, reference: "pal-vm dispatch_system_button_stub index 2 pops index/enabled" },
            ],
            implementation_status: ImplStatus::Verified,
            decompiler_status: ImplStatus::Verified,
        }
    } else if i == 152 {
        ExtSig {
            category: 11,
            index: 0,
            canonical_name: "movie_play",
            name: "movie_play",
            game_handler_ea: None,
            pal_export_name: Some("PalMSpriteLoad"),
            pal_export_ea: Some("0x1011B39A"),
            pop_count: 2,
            pop_order: Vec::new(),
            display_order: Vec::new(),
            params: vec![
                Param { name: "layer", pop_idx: 0, kind: ParamKind::SpriteSlot, meaning: "" },
                Param { name: "name", pop_idx: 1, kind: ParamKind::ResourceStringFromFileDat, meaning: "" },
            ],
            return_kind: ReturnKind::Void,
            returns: false,
            side_effects: vec![SideEffect::CreatesMovie, SideEffect::CreatesSprite],
            purpose: "Open/play a full-screen or layer movie resource.",
            evidence: vec![
                Evidence { kind: EvidenceKind::Disassembly, reference: "docs/dis.txt 000B:0000" },
                Evidence { kind: EvidenceKind::PalSqlite, reference: "PalMSpriteLoad 0x1011B39A" },
                Evidence { kind: EvidenceKind::Writeup, reference: "docs/writeup.md MSprite" },
            ],
            implementation_status: ImplStatus::Blocked,
            decompiler_status: ImplStatus::Blocked,
        }
    } else if i == 153 {
        ExtSig {
            category: 11,
            index: 1,
            canonical_name: "msp_set_loop_sp_ep",
            name: "msp_set_loop_sp_ep",
            game_handler_ea: None,
            pal_export_name: Some("PalMSpriteSetLoopPoint"),
            pal_export_ea: Some("0x1011B61A"),
            pop_count: 8,
            pop_order: Vec::new(),
            display_order: Vec::new(),
            params: vec![
                Param { name: "slot", pop_idx: 0, kind: ParamKind::SpriteSlot, meaning: "" },
                Param { name: "name", pop_idx: 1, kind: ParamKind::ResourceStringFromFileDat, meaning: "" },
                Param { name: "loop_mode", pop_idx: 2, kind: ParamKind::Mode, meaning: "" },
                Param { name: "loop_start", pop_idx: 3, kind: ParamKind::Integer, meaning: "" },
                Param { name: "loop_end", pop_idx: 4, kind: ParamKind::Integer, meaning: "" },
                Param { name: "x", pop_idx: 5, kind: ParamKind::CoordinateX, meaning: "" },
                Param { name: "y", pop_idx: 6, kind: ParamKind::CoordinateY, meaning: "" },
                Param { name: "z", pop_idx: 7, kind: ParamKind::CoordinateZ, meaning: "" },
            ],
            return_kind: ReturnKind::Void,
            returns: false,
            side_effects: vec![SideEffect::CreatesMovie, SideEffect::CreatesSprite, SideEffect::MutatesSprite],
            purpose: "Load an MSprite/movie into a sprite slot and configure loop/start/end points.",
            evidence: vec![
                Evidence { kind: EvidenceKind::Disassembly, reference: "docs/dis.txt 000B:0001" },
                Evidence { kind: EvidenceKind::PalSqlite, reference: "PalMSpriteSetLoopPoint 0x1011B61A / PalMSpriteSetLoop 0x1011E923" },
                Evidence { kind: EvidenceKind::Writeup, reference: "docs/writeup.md MSprite" },
            ],
            implementation_status: ImplStatus::Blocked,
            decompiler_status: ImplStatus::Blocked,
        }
    } else if i == 154 {
        ExtSig {
            category: 11,
            index: 2,
            canonical_name: "msp_cls",
            name: "msp_cls",
            game_handler_ea: None,
            pal_export_name: Some("PalMSpriteStop"),
            pal_export_ea: Some("0x10119C7F"),
            pop_count: 1,
            pop_order: Vec::new(),
            display_order: Vec::new(),
            params: vec![
                Param { name: "slot", pop_idx: 0, kind: ParamKind::SpriteSlot, meaning: "" },
            ],
            return_kind: ReturnKind::Void,
            returns: false,
            side_effects: vec![SideEffect::DeletesSprite],
            purpose: "Release an MSprite/movie slot.",
            evidence: vec![
                Evidence { kind: EvidenceKind::Disassembly, reference: "docs/dis.txt 000B:0002" },
                Evidence { kind: EvidenceKind::PalSqlite, reference: "PalMSpriteStop 0x10119C7F" },
                Evidence { kind: EvidenceKind::Writeup, reference: "docs/writeup.md MSprite" },
            ],
            implementation_status: ImplStatus::Blocked,
            decompiler_status: ImplStatus::Blocked,
        }
    } else {
        ExtSig {
            category: 11,
            index: 3,
            canonical_name: "msp_wait",
            name: "msp_wait",
            game_handler_ea: None,
            pal_export_name: Some("PalMSpriteGetState"),
            pal_export_ea: Some("0x10120BD3"),
            pop_count: 1,
            pop_order: Vec::new(),
            display_order: Vec::new(),
            params: vec![
                Param { name: "slot", pop_idx: 0, kind: ParamKind::SpriteSlot, meaning: "" },
            ],
            return_kind: ReturnKind::Void,
            returns: false,
            side_effects: vec![SideEffect::BlocksScript],
            purpose: "Wait until an MSprite/movie slot reaches the native finished bit.",
            evidence: vec![
                Evidence { kind: EvidenceKind::GameSqlite, reference: "reverse/Game.sqlite sub_42E240" },
                Evidence { kind: EvidenceKind::Disassembly, reference: "docs/dis.txt 000B:0003" },
                Evidence { kind: EvidenceKind::PalSqlite, reference: "PalMSpriteGetState 0x10120BD3" },
                Evidence { kind: EvidenceKind::Writeup, reference: "docs/writeup.md MSprite" },
            ],
            implementation_status: ImplStatus::Blocked,
            decompiler_status: ImplStatus::Blocked,
        }
    }
}

fn record_from_block_13(i: usize) -> (sig: ExtSig)
    requires
        156 <= i < 168,
    ensures
        sig@ == signature_entry(i as int),
{
    if i == 156 {
        ExtSig {
            category: 11,
            index: 4,
            canonical_name: "msp_lock",
            name: "msp_lock",
            game_handler_ea: None,
            pal_export_name: Some("PalMSpriteLock"),
            pal_export_ea: Some("0x1011A86E"),
            pop_count: 1,
            pop_order: Vec::new(),
            display_order: Vec::new(),
            params: vec![
                Param { name: "slot", pop_idx: 0, kind: ParamKind::SpriteSlot, meaning: "" },
            ],
            return_kind: ReturnKind::Void,
            returns: false,
            side_effects: vec![SideEffect::MutatesSprite],
            purpose: "Lock/pause decoder frame advancement.",
            evidence: vec![
                Evidence { kind: EvidenceKind::Disassembly, reference: "docs/dis.txt 000B:0004" },
                Evidence { kind: EvidenceKind::PalSqlite, reference: "PalMSpriteLock 0x1011A86E" },
                Evidence { kind: EvidenceKind::Writeup, reference: "docs/writeup.md MSprite" },
            ],
            implementation_status: ImplStatus::Blocked,
            decompiler_status: ImplStatus::Blocked,
        }
    } else if i == 157 {
        ExtSig {
            category: 11,
            index: 5,
            canonical_name: "msp_unlock",
            name: "msp_unlock",
            game_handler_ea: None,
            pal_export_name: Some("PalMSpriteUnlock"),
            pal_export_ea: Some("0x10120CD2"),
            pop_count: 1,
            pop_order: Vec::new(),
            display_order: Vec::new(),
            params: vec![
                Param { name: "slot", pop_idx: 0, kind: ParamKind::SpriteSlot, meaning: "" },
            ],
            return_kind: ReturnKind::Void,
            returns: false,
            side_effects: vec![SideEffect::MutatesSprite],
            purpose: "Unlock/resume decoder frame advancement.",
            evidence: vec![
                Evidence { kind: EvidenceKind::Disassembly, reference: "docs/dis.txt 000B:0005" },
                Evidence { kind: EvidenceKind::PalSqlite, reference: "PalMSpriteUnlock 0x10120CD2" },
                Evidence { kind: EvidenceKind::Writeup, reference: "docs/writeup.md MSprite" },
            ],
            implementation_status: ImplStatus::Blocked,
            decompiler_status: ImplStatus::Blocked,
        }
    } else if i == 158 {
        ExtSig {
            category: 13,
            index: 0,
            canonical_name: "voice_play",
            name: "voice_play",
            game_handler_ea: None,
            pal_export_name: None,
            pal_export_ea: None,
            pop_count: 4,
            pop_order: Vec::new(),
            display_order: Vec::new(),
            params: vec![
                Param { name: "slot", pop_idx: 0, kind: ParamKind::SoundSlot, meaning: "" },
                Param { name: "name", pop_idx: 1, kind: ParamKind::ResourceStringFromFileDat, meaning: "" },
                Param { name: "flags", pop_idx: 2, kind: ParamKind::Flag, meaning: "" },
                Param { name: "volume", pop_idx: 3, kind: ParamKind::Volume, meaning: "" },
            ],
            return_kind: ReturnKind::Void,
            returns: false,
            side_effects: vec![SideEffect::CreatesSound, SideEffect::PlaysSound],
            purpose: "Play voice resource.",
            evidence: vec![
                Evidence { kind: EvidenceKind::Writeup, reference: "docs/writeup.md audio" },
            ],
            implementation_status: ImplStatus::Blocked,
            decompiler_status: ImplStatus::Blocked,
        }
    } else if i == 159 {
        ExtSig {
            category: 13,
            index: 1,
            canonical_name: "voice_stop",
            name: "voice_stop",
            game_handler_ea: None,
            pal_export_name: None,
            pal_export_ea: None,
            pop_count: 2,
            pop_order: Vec::new(),
            display_order: Vec::new(),
            params: vec![
                Param { name: "slot", pop_idx: 0, kind: ParamKind::SoundSlot, meaning: "" },
                Param { name: "fade_ms", pop_idx: 1, kind: ParamKind::DurationMs, meaning: "" },
            ],
            return_kind: ReturnKind::Void,
            returns: false,
            side_effects: vec![SideEffect::StopsSound],
            purpose: "Stop voice slot.",
            evidence: vec![
                Evidence { kind: EvidenceKind::Writeup, reference: "docs/writeup.md audio" },
            ],
            implementation_status: ImplStatus::Blocked,
            decompiler_status: ImplStatus::Blocked,
        }
    } else if i == 160 {
        ExtSig {
            category: 13,
            index: 2,
            canonical_name: "voice_set_volume",
            name: "voice_set_volume",
            game_handler_ea: None,
            pal_export_name: None,
            pal_export_ea: None,
            pop_count: 1,
            pop_order: Vec::new(),
            display_order: Vec::new(),
            params: vec![
                Param { name: "volume", pop_idx: 0, kind: ParamKind::Volume, meaning: "" },
            ],
            return_kind: ReturnKind::Void,
            returns: false,
            side_effects: vec![SideEffect::PlaysSound],
            purpose: "Set global voice volume; runtime pops 1 arg (volume only, no per-slot).",
            evidence: vec![
                Evidence { kind: EvidenceKind::Writeup, reference: "docs/writeup.md audio" },
                Evidence { kind: EvidenceKind::RuntimeTrace, reference: "pal-vm dispatch_voice_ext index 2 pops 1" },
            ],
            implementation_status: ImplStatus::Blocked,
            decompiler_status: ImplStatus::Blocked,
        }
    } else if i == 161 {
        ExtSig {
            category: 13,
            index: 3,
            canonical_name: "voice_get_volume",
            name: "voice_get_volume",
            game_handler_ea: None,
            pal_export_name: None,
            pal_export_ea: None,
            pop_count: 0,
            pop_order: Vec::new(),
            display_order: Vec::new(),
            params: vec![],
            return_kind: ReturnKind::Integer,
            returns: true,
            side_effects: vec![],
            purpose: "Read global voice volume.",
            evidence: vec![
                Evidence { kind: EvidenceKind::GameSqlite, reference: "reverse/Game.sqlite sub_4445A0" },
            ],
            implementation_status: ImplStatus::Blocked,
            decompiler_status: ImplStatus::Blocked,
        }
    } else if i == 162 {
        ExtSig {
            category: 13,
            index: 7,
            canonical_name: "voice_play_fade",
            name: "voice_play_fade",
            game_handler_ea: Some("0x00444190"),
            pal_export_name: None,
            pal_export_ea: None,
            pop_count: 1,
            pop_order: Vec::new(),
            display_order: Vec::new(),
            params: vec![
                Param { name: "fade_ms", pop_idx: 0, kind: ParamKind::DurationMs, meaning: "" },
            ],
            return_kind: ReturnKind::Integer,
            returns: true,
            side_effects: vec![SideEffect::PlaysSound],
            purpose: "Set native voice-play fade/scheduling latch.",
            evidence: vec![
                Evidence { kind: EvidenceKind::GameSqlite, reference: "reverse/Game.sqlite sub_444190 pops one value and writes ctx+660028" },
                Evidence { kind: EvidenceKind::Writeup, reference: "reverse/GAME_VM_RE.md category 13 index 7 = VmExtcall_VoicePlayFade" },
            ],
            implementation_status: ImplStatus::Verified,
            decompiler_status: ImplStatus::Verified,
        }
    } else if i == 163 {
        ExtSig {
            category: 13,
            index: 16,
            canonical_name: "set_voice_autopan_size_over",
            name: "set_voice_autopan_size_over",
            game_handler_ea: Some("0x004438D0"),
            pal_export_name: None,
            pal_export_ea: None,
            pop_count: 4,
            pop_order: Vec::new(),
            display_order: Vec::new(),
            params: vec![
                Param { name: "slot", pop_idx: 0, kind: ParamKind::Integer, meaning: "" },
                Param { name: "target", pop_idx: 1, kind: ParamKind::Integer, meaning: "" },
                Param { name: "name", pop_idx: 2, kind: ParamKind::TextStringFromTextDat, meaning: "" },
                Param { name: "mode", pop_idx: 3, kind: ParamKind::Integer, meaning: "" },
            ],
            return_kind: ReturnKind::Void,
            returns: false,
            side_effects: vec![SideEffect::PlaysSound],
            purpose: "Configure or clear one native voice auto-pan table entry.",
            evidence: vec![
                Evidence { kind: EvidenceKind::GameSqlite, reference: "0x004438D0 VmExtcall_VoiceAutopanSizeOver pops slot,target,name,mode and mutates ctx+658964+40*slot" },
                Evidence { kind: EvidenceKind::RuntimeTrace, reference: "longrun-newgame-ctrl-60000 executes set_voice_autopan_size_over 4991 times" },
            ],
            implementation_status: ImplStatus::Verified,
            decompiler_status: ImplStatus::Verified,
        }
    } else if i == 164 {
        ExtSig {
            category: 13,
            index: 18,
            canonical_name: "voice_wait",
            name: "voice_wait",
            game_handler_ea: None,
            pal_export_name: None,
            pal_export_ea: None,
            pop_count: 1,
            pop_order: Vec::new(),
            display_order: Vec::new(),
            params: vec![
                Param { name: "slot", pop_idx: 0, kind: ParamKind::SoundSlot, meaning: "" },
            ],
            return_kind: ReturnKind::Void,
            returns: false,
            side_effects: vec![SideEffect::BlocksScript],
            purpose: "Wait for voice slot completion.",
            evidence: vec![
                Evidence { kind: EvidenceKind::GameSqlite, reference: "reverse/Game.sqlite sub_443800" },
            ],
            implementation_status: ImplStatus::Blocked,
            decompiler_status: ImplStatus::Blocked,
        }
    } else if i == 165 {
        ExtSig {
            category: 10,
            index: 12,
            canonical_name: "save_thumbnail_mosaic_set",
            name: "save_thumbnail_mosaic_set",
            game_handler_ea: None,
            pal_export_name: None,
            pal_export_ea: None,
            pop_count: 1,
            pop_order: Vec::new(),
            display_order: Vec::new(),
            params: vec![
                Param { name: "enabled", pop_idx: 0, kind: ParamKind::Flag, meaning: "" },
            ],
            return_kind: ReturnKind::Void,
            returns: false,
            side_effects: vec![SideEffect::ChangesSaveState],
            purpose: "Set save thumbnail mosaic/processing flag used by save UI rendering.",
            evidence: vec![
                Evidence { kind: EvidenceKind::GameSqlite, reference: "reverse/Game.sqlite save dispatch index 12 pops 1" },
                Evidence { kind: EvidenceKind::RuntimeTrace, reference: "pal-vm dispatch_save_stub index 12 pops 1" },
            ],
            implementation_status: ImplStatus::Blocked,
            decompiler_status: ImplStatus::Blocked,
        }
    } else if i == 166 {
        ExtSig {
            category: 10,
            index: 13,
            canonical_name: "savetimedraw",
            name: "savetimedraw",
            game_handler_ea: None,
            pal_export_name: None,
            pal_export_ea: None,
            pop_count: 5,
            pop_order: Vec::new(),
            display_order: Vec::new(),
            params: vec![
                Param { name: "sprite_slot", pop_idx: 0, kind: ParamKind::SpriteSlot, meaning: "" },
                Param { name: "save_slot", pop_idx: 1, kind: ParamKind::Integer, meaning: "" },
                Param { name: "x", pop_idx: 2, kind: ParamKind::CoordinateX, meaning: "" },
                Param { name: "y", pop_idx: 3, kind: ParamKind::CoordinateY, meaning: "" },
                Param { name: "format_mode", pop_idx: 4, kind: ParamKind::Mode, meaning: "" },
            ],
            return_kind: ReturnKind::Integer,
            returns: true,
            side_effects: vec![SideEffect::CreatesSprite, SideEffect::ReadsFile],
            purpose: "Draw save-file modification time text into a save/load UI sprite slot.",
            evidence: vec![
                Evidence { kind: EvidenceKind::GameSqlite, reference: "reverse/Game.sqlite/IDB sub_431C70 AdvCommandSaveTimeDraw pops sprite/save/x/y/format and calls PalSpriteCreateText" },
            ],
            implementation_status: ImplStatus::Blocked,
            decompiler_status: ImplStatus::Verified,
        }
    } else {
        ExtSig {
            category: 14,
            index: 3,
            canonical_name: "history_scroll",
            name: "history_scroll",
            game_handler_ea: Some("0x0042BA80"),
            pal_export_name: None,
            pal_export_ea: None,
            pop_count: 0,
            pop_order: Vec::new(),
            display_order: Vec::new(),
            params: vec![],
            return_kind: ReturnKind::Integer,
            returns: true,
            side_effects: vec![SideEffect::WritesVmMemory],
            purpose: "Return native history scroll/current offset.",
            evidence: vec![
                Evidence { kind: EvidenceKind::GameSqlite, reference: "reverse/Game.sqlite VmExtcall_HistScroll 0x0042BA80 returns ctx+88444" },
            ],
            implementation_status: ImplStatus::Verified,
            decompiler_status: ImplStatus::Verified,
        }
    }
}

fn record_from_block_14(i: usize) -> (sig: ExtSig)
    requires
        168 <= i < 180,
    ensures
        sig@ == signature_entry(i as int),
{
    if i == 168 {
        ExtSig {
            category: 14,
            index: 6,
            canonical_name: "history_update",
            name: "history_update",
            game_handler_ea: Some("0x0042B7C0"),
            pal_export_name: None,
            pal_export_ea: None,
            pop_count: 0,
            pop_order: Vec::new(),
            display_order: Vec::new(),
            params: vec![],
            return_kind: ReturnKind::Integer,
            returns: true,
            side_effects: vec![SideEffect::ChangesHistoryState],
            purpose: "Update interactive history/backlog hover/voice state.",
            evidence: vec![
                Evidence { kind: EvidenceKind::GameSqlite, reference: "reverse/Game.sqlite VmExtcall_HistUpdate 0x0042B7C0 pops no args and updates history sprite hover/voice playback" },
            ],
            implementation_status: ImplStatus::Blocked,
            decompiler_status: ImplStatus::Verified,
        }
    } else if i == 169 {
        ExtSig {
            category: 16,
            index: 0,
            canonical_name: "effect_stop_skip",
            name: "effect_stop_skip",
            game_handler_ea: Some("0x00412450"),
            pal_export_name: None,
            pal_export_ea: None,
            pop_count: 0,
            pop_order: Vec::new(),
            display_order: Vec::new(),
            params: vec![],
            return_kind: ReturnKind::Integer,
            returns: true,
            side_effects: vec![SideEffect::ChangesRunState, SideEffect::MutatesWindow],
            purpose: "Stop native transition/effect channels during skip/menu teardown.",
            evidence: vec![
                Evidence { kind: EvidenceKind::GameSqlite, reference: "reverse/Game.sqlite sub_412450 reads two native arg-stack fields (flags,duration) and stops selected effect channels; reachable script wrapper is zero-arg effect_stop_skip()" },
            ],
            implementation_status: ImplStatus::Blocked,
            decompiler_status: ImplStatus::Verified,
        }
    } else if i == 170 {
        ExtSig {
            category: 16,
            index: 1,
            canonical_name: "screen_shake",
            name: "screen_shake",
            game_handler_ea: Some("0x004122A0"),
            pal_export_name: Some("PalEffectEnableIs"),
            pal_export_ea: Some("0x101195A9"),
            pop_count: 4,
            pop_order: Vec::new(),
            display_order: Vec::new(),
            params: vec![
                Param { name: "x_amp", pop_idx: 0, kind: ParamKind::Integer, meaning: "" },
                Param { name: "y_amp", pop_idx: 1, kind: ParamKind::Integer, meaning: "" },
                Param { name: "duration_ms", pop_idx: 2, kind: ParamKind::DurationMs, meaning: "" },
                Param { name: "phase", pop_idx: 3, kind: ParamKind::Mode, meaning: "" },
            ],
            return_kind: ReturnKind::Void,
            returns: false,
            side_effects: vec![SideEffect::MutatesWindow, SideEffect::ChangesRunState],
            purpose: "Start a native screen-shake effect.",
            evidence: vec![
                Evidence { kind: EvidenceKind::GameSqlite, reference: "reverse/Game.sqlite sub_4122A0 pops four shake args, stores ctx[201085..201088], and logs shake" },
                Evidence { kind: EvidenceKind::PalSqlite, reference: "reverse/PAL.sqlite PalEffectEnableIs 0x101195A9 guards effect availability" },
            ],
            implementation_status: ImplStatus::Blocked,
            decompiler_status: ImplStatus::Verified,
        }
    } else if i == 171 {
        ExtSig {
            category: 16,
            index: 2,
            canonical_name: "screen_flash",
            name: "screen_flash",
            game_handler_ea: Some("0x004120C0"),
            pal_export_name: Some("PalEffectEnableIs"),
            pal_export_ea: Some("0x101195A9"),
            pop_count: 4,
            pop_order: Vec::new(),
            display_order: Vec::new(),
            params: vec![
                Param { name: "red", pop_idx: 0, kind: ParamKind::Color, meaning: "" },
                Param { name: "green", pop_idx: 1, kind: ParamKind::Color, meaning: "" },
                Param { name: "blue", pop_idx: 2, kind: ParamKind::Color, meaning: "" },
                Param { name: "duration_ms", pop_idx: 3, kind: ParamKind::DurationMs, meaning: "" },
            ],
            return_kind: ReturnKind::Void,
            returns: false,
            side_effects: vec![SideEffect::MutatesWindow, SideEffect::CreatesSprite, SideEffect::ChangesRunState],
            purpose: "Create a full-screen PAL flash/fill overlay.",
            evidence: vec![
                Evidence { kind: EvidenceKind::GameSqlite, reference: "reverse/Game.sqlite sub_4120C0 creates full-screen sprite, PalSpritePaints RGB, stores duration/start time, and logs flush" },
                Evidence { kind: EvidenceKind::PalSqlite, reference: "reverse/PAL.sqlite PalEffectEnableIs 0x101195A9 guards effect availability" },
            ],
            implementation_status: ImplStatus::Verified,
            decompiler_status: ImplStatus::Verified,
        }
    } else if i == 172 {
        ExtSig {
            category: 17,
            index: 0,
            canonical_name: "action_run_count_over",
            name: "action_run_count_over",
            game_handler_ea: Some("0x0040B6E0"),
            pal_export_name: None,
            pal_export_ea: None,
            pop_count: 2,
            pop_order: Vec::new(),
            display_order: Vec::new(),
            params: vec![
                Param { name: "action_id", pop_idx: 0, kind: ParamKind::Integer, meaning: "" },
                Param { name: "duration_ms", pop_idx: 1, kind: ParamKind::DurationMs, meaning: "" },
            ],
            return_kind: ReturnKind::Status,
            returns: true,
            side_effects: vec![SideEffect::CreatesTask],
            purpose: "Start/check an asynchronous action counter without blocking.",
            evidence: vec![
                Evidence { kind: EvidenceKind::GameSqlite, reference: "reverse/Game.sqlite sub_40B6E0 pops action_id then duration, schedules action state, and returns 1" },
                Evidence { kind: EvidenceKind::RuntimeTrace, reference: "pal-vm dispatch_action_stub index 0 pops 2 and returns native status 1" },
            ],
            implementation_status: ImplStatus::Verified,
            decompiler_status: ImplStatus::Verified,
        }
    } else if i == 173 {
        ExtSig {
            category: 17,
            index: 1,
            canonical_name: "action_sync_run_count_over",
            name: "action_sync_run_count_over",
            game_handler_ea: Some("0x0040B5C0"),
            pal_export_name: None,
            pal_export_ea: None,
            pop_count: 2,
            pop_order: Vec::new(),
            display_order: Vec::new(),
            params: vec![
                Param { name: "action_id", pop_idx: 0, kind: ParamKind::Integer, meaning: "" },
                Param { name: "duration_ms", pop_idx: 1, kind: ParamKind::DurationMs, meaning: "" },
            ],
            return_kind: ReturnKind::Bool,
            returns: true,
            side_effects: vec![SideEffect::CreatesTask, SideEffect::BlocksScript],
            purpose: "Start an action counter and block until the duration elapses.",
            evidence: vec![
                Evidence { kind: EvidenceKind::GameSqlite, reference: "reverse/Game.sqlite sub_40B5C0 pops two values, schedules action state, sets blocking flag, and logs action_sync_run" },
                Evidence { kind: EvidenceKind::RuntimeTrace, reference: "pal-vm dispatch_action_stub index 1 pops 2 and returns WaitRequest::Time" },
            ],
            implementation_status: ImplStatus::Verified,
            decompiler_status: ImplStatus::Verified,
        }
    } else if i == 174 {
        ExtSig {
            category: 17,
            index: 3,
            canonical_name: "action_clear_count_over",
            name: "action_clear_count_over",
            game_handler_ea: Some("0x0040B430"),
            pal_export_name: None,
            pal_export_ea: None,
            pop_count: 1,
            pop_order: Vec::new(),
            display_order: Vec::new(),
            params: vec![
                Param { name: "action_id", pop_idx: 0, kind: ParamKind::Integer, meaning: "" },
            ],
            return_kind: ReturnKind::Void,
            returns: false,
            side_effects: vec![SideEffect::CreatesTask],
            purpose: "-1 clears the current action counter; otherwise clear/check the indexed action counter.",
            evidence: vec![
                Evidence { kind: EvidenceKind::GameSqlite, reference: "reverse/Game.sqlite sub_40B430 pops one action id, resolves -1 to active id, clears action memory, and returns 1" },
                Evidence { kind: EvidenceKind::RuntimeTrace, reference: "pal-vm dispatch_action_stub index 3 pops 1 and clears compatible action state" },
            ],
            implementation_status: ImplStatus::Verified,
            decompiler_status: ImplStatus::Verified,
        }
    } else if i == 175 {
        ExtSig {
            category: 17,
            index: 5,
            canonical_name: "action_timeline_entry",
            name: "action_timeline_entry",
            game_handler_ea: None,
            pal_export_name: None,
            pal_export_ea: None,
            pop_count: 6,
            pop_order: Vec::new(),
            display_order: Vec::new(),
            params: vec![
                Param { name: "line_id", pop_idx: 0, kind: ParamKind::Integer, meaning: "" },
                Param { name: "sprite_slot", pop_idx: 1, kind: ParamKind::SpriteSlot, meaning: "" },
                Param { name: "delta_x", pop_idx: 2, kind: ParamKind::CoordinateX, meaning: "" },
                Param { name: "delta_y", pop_idx: 3, kind: ParamKind::CoordinateY, meaning: "" },
                Param { name: "delta_z", pop_idx: 4, kind: ParamKind::Integer, meaning: "" },
                Param { name: "duration_ms", pop_idx: 5, kind: ParamKind::DurationMs, meaning: "" },
            ],
            return_kind: ReturnKind::Void,
            returns: false,
            side_effects: vec![SideEffect::CreatesTask, SideEffect::MutatesSprite],
            purpose: "Append a timed sprite-position delta action section.",
            evidence: vec![
                Evidence { kind: EvidenceKind::GameSqlite, reference: "reverse/Game.sqlite sub_40ADB0 pops line_id plus sprite_slot/dx/dy/dz/duration, writes section type 0, and resolves sprite_slot via sub_449120" },
                Evidence { kind: EvidenceKind::GameSqlite, reference: "reverse/Game.sqlite sub_446650 case 0 builds sub_403490 timed position delta and sub_403430 commits final position lanes" },
                Evidence { kind: EvidenceKind::RuntimeTrace, reference: "New Game path uses action_timeline_entry(0,12,0,-30,0,1000) to undo a temporary sp_set_pos_move offset" },
            ],
            implementation_status: ImplStatus::Verified,
            decompiler_status: ImplStatus::Verified,
        }
    } else if i == 176 {
        ExtSig {
            category: 17,
            index: 6,
            canonical_name: "action_timeline_entry_ex",
            name: "action_timeline_entry_ex",
            game_handler_ea: None,
            pal_export_name: None,
            pal_export_ea: None,
            pop_count: 6,
            pop_order: Vec::new(),
            display_order: Vec::new(),
            params: vec![
                Param { name: "action_id", pop_idx: 0, kind: ParamKind::Integer, meaning: "" },
                Param { name: "duration_ms", pop_idx: 1, kind: ParamKind::DurationMs, meaning: "" },
                Param { name: "from", pop_idx: 2, kind: ParamKind::Integer, meaning: "" },
                Param { name: "to", pop_idx: 3, kind: ParamKind::Integer, meaning: "" },
                Param { name: "mode", pop_idx: 4, kind: ParamKind::Mode, meaning: "" },
                Param { name: "flags", pop_idx: 5, kind: ParamKind::Flag, meaning: "" },
            ],
            return_kind: ReturnKind::Void,
            returns: false,
            side_effects: vec![SideEffect::CreatesTask, SideEffect::MutatesSprite],
            purpose: "Append a six-argument Game.exe action/tween entry with a distinct native section type.",
            evidence: vec![
                Evidence { kind: EvidenceKind::GameSqlite, reference: "reverse/Game.sqlite action dispatch group 5/6/10/14/15/29 pops 6" },
                Evidence { kind: EvidenceKind::RuntimeTrace, reference: "pal-vm dispatch_action_stub index 6 pops 6" },
            ],
            implementation_status: ImplStatus::Blocked,
            decompiler_status: ImplStatus::Blocked,
        }
    } else if i == 177 {
        ExtSig {
            category: 17,
            index: 7,
            canonical_name: "action_timeline4_entry",
            name: "action_timeline4_entry",
            game_handler_ea: None,
            pal_export_name: None,
            pal_export_ea: None,
            pop_count: 4,
            pop_order: Vec::new(),
            display_order: Vec::new(),
            params: vec![
                Param { name: "duration_ms", pop_idx: 0, kind: ParamKind::DurationMs, meaning: "" },
                Param { name: "action_id", pop_idx: 1, kind: ParamKind::Integer, meaning: "" },
                Param { name: "arg2", pop_idx: 2, kind: ParamKind::Integer, meaning: "" },
                Param { name: "arg3", pop_idx: 3, kind: ParamKind::Integer, meaning: "" },
            ],
            return_kind: ReturnKind::Void,
            returns: false,
            side_effects: vec![SideEffect::CreatesTask, SideEffect::MutatesSprite],
            purpose: "Append a four-argument Game.exe action/tween entry.",
            evidence: vec![
                Evidence { kind: EvidenceKind::GameSqlite, reference: "reverse/Game.sqlite action dispatch index 7/11 pops 4" },
                Evidence { kind: EvidenceKind::RuntimeTrace, reference: "pal-vm dispatch_action_stub index 7 pops 4" },
            ],
            implementation_status: ImplStatus::Blocked,
            decompiler_status: ImplStatus::Blocked,
        }
    } else if i == 178 {
        ExtSig {
            category: 17,
            index: 8,
            canonical_name: "action_alpha_delta",
            name: "action_alpha_delta",
            game_handler_ea: None,
            pal_export_name: None,
            pal_export_ea: None,
            pop_count: 4,
            pop_order: Vec::new(),
            display_order: Vec::new(),
            params: vec![
                Param { name: "action_id", pop_idx: 0, kind: ParamKind::Integer, meaning: "" },
                Param { name: "sprite_slot", pop_idx: 1, kind: ParamKind::SpriteSlot, meaning: "" },
                Param { name: "alpha_delta", pop_idx: 2, kind: ParamKind::Integer, meaning: "" },
                Param { name: "duration_ms", pop_idx: 3, kind: ParamKind::DurationMs, meaning: "" },
            ],
            return_kind: ReturnKind::Void,
            returns: false,
            side_effects: vec![SideEffect::CreatesTask, SideEffect::MutatesSprite],
            purpose: "Configure a timed sprite alpha-delta action.",
            evidence: vec![
                Evidence { kind: EvidenceKind::GameSqlite, reference: "reverse/Game.sqlite sub_446650 case 3 builds sub_402F30 timed alpha delta and sub_4494D0/sub_4498D0 commit through PalSpriteSetColor" },
                Evidence { kind: EvidenceKind::PalSqlite, reference: "PalSpriteSetColor 0x10119103" },
                Evidence { kind: EvidenceKind::Disassembly, reference: "docs/dis.txt point[809] formal args plus pack_args reversal produce pop order action_id,slot,delta,duration" },
                Evidence { kind: EvidenceKind::RuntimeTrace, reference: "EV104AA path decodes slot=21 duration=1500 and clears slot=21" },
            ],
            implementation_status: ImplStatus::Verified,
            decompiler_status: ImplStatus::Verified,
        }
    } else {
        ExtSig {
            category: 17,
            index: 9,
            canonical_name: "action_line_wait",
            name: "action_line_wait",
            game_handler_ea: Some("0x0040A390"),
            pal_export_name: None,
            pal_export_ea: None,
            pop_count: 2,
            pop_order: Vec::new(),
            display_order: Vec::new(),
            params: vec![
                Param { name: "line_id", pop_idx: 0, kind: ParamKind::Integer, meaning: "" },
                Param { name: "duration_ms", pop_idx: 1, kind: ParamKind::DurationMs, meaning: "" },
            ],
            return_kind: ReturnKind::Void,
            returns: false,
            side_effects: vec![SideEffect::CreatesTask],
            purpose: "Append a wait/timing section to a Game.exe action line.",
            evidence: vec![
                Evidence { kind: EvidenceKind::GameSqlite, reference: "reverse/Game.sqlite sub_40A390 pops line id and duration, writes action section type 3 and duration field" },
                Evidence { kind: EvidenceKind::RuntimeTrace, reference: "pal-vm dispatch_action_stub index 9 pops line_id/duration and schedules duration" },
            ],
            implementation_status: ImplStatus::Verified,
            decompiler_status: ImplStatus::Verified,
        }
    }
}

fn record_from_block_15(i: usize) -> (sig: ExtSig)
    requires
        180 <= i < 192,
    ensures
        sig@ == signature_entry(i as int),
{
    if i == 180 {
        ExtSig {
            category: 17,
            index: 10,
            canonical_name: "action_timeline_entry_ease",
            name: "action_timeline_entry_ease",
            game_handler_ea: None,
            pal_export_name: None,
            pal_export_ea: None,
            pop_count: 6,
            pop_order: Vec::new(),
            display_order: Vec::new(),
            params: vec![
                Param { name: "action_id", pop_idx: 0, kind: ParamKind::Integer, meaning: "" },
                Param { name: "duration_ms", pop_idx: 1, kind: ParamKind::DurationMs, meaning: "" },
                Param { name: "from", pop_idx: 2, kind: ParamKind::Integer, meaning: "" },
                Param { name: "to", pop_idx: 3, kind: ParamKind::Integer, meaning: "" },
                Param { name: "mode", pop_idx: 4, kind: ParamKind::Mode, meaning: "" },
                Param { name: "flags", pop_idx: 5, kind: ParamKind::Flag, meaning: "" },
            ],
            return_kind: ReturnKind::Void,
            returns: false,
            side_effects: vec![SideEffect::CreatesTask, SideEffect::MutatesSprite],
            purpose: "Append a six-argument Game.exe action/tween entry with easing section type.",
            evidence: vec![
                Evidence { kind: EvidenceKind::GameSqlite, reference: "reverse/Game.sqlite action dispatch group 5/6/10/14/15/29 pops 6" },
                Evidence { kind: EvidenceKind::RuntimeTrace, reference: "pal-vm dispatch_action_stub index 10 pops 6" },
            ],
            implementation_status: ImplStatus::Blocked,
            decompiler_status: ImplStatus::Blocked,
        }
    } else if i == 181 {
        ExtSig {
            category: 17,
            index: 11,
            canonical_name: "action_timeline4_entry_ex",
            name: "action_timeline4_entry_ex",
            game_handler_ea: None,
            pal_export_name: None,
            pal_export_ea: None,
            pop_count: 4,
            pop_order: Vec::new(),
            display_order: Vec::new(),
            params: vec![
                Param { name: "duration_ms", pop_idx: 0, kind: ParamKind::DurationMs, meaning: "" },
                Param { name: "action_id", pop_idx: 1, kind: ParamKind::Integer, meaning: "" },
                Param { name: "arg2", pop_idx: 2, kind: ParamKind::Integer, meaning: "" },
                Param { name: "arg3", pop_idx: 3, kind: ParamKind::Integer, meaning: "" },
            ],
            return_kind: ReturnKind::Void,
            returns: false,
            side_effects: vec![SideEffect::CreatesTask, SideEffect::MutatesSprite],
            purpose: "Four-argument action/tween helper sharing the index-7 path.",
            evidence: vec![
                Evidence { kind: EvidenceKind::GameSqlite, reference: "reverse/Game.sqlite action dispatch index 11 pops 4" },
                Evidence { kind: EvidenceKind::RuntimeTrace, reference: "pal-vm dispatch_action_stub index 11 pops 4" },
            ],
            implementation_status: ImplStatus::Blocked,
            decompiler_status: ImplStatus::Blocked,
        }
    } else if i == 182 {
        ExtSig {
            category: 17,
            index: 14,
            canonical_name: "action_timeline_entry_log",
            name: "action_timeline_entry_log",
            game_handler_ea: None,
            pal_export_name: None,
            pal_export_ea: None,
            pop_count: 6,
            pop_order: Vec::new(),
            display_order: Vec::new(),
            params: vec![
                Param { name: "action_id", pop_idx: 0, kind: ParamKind::Integer, meaning: "" },
                Param { name: "duration_ms", pop_idx: 1, kind: ParamKind::DurationMs, meaning: "" },
                Param { name: "from", pop_idx: 2, kind: ParamKind::Integer, meaning: "" },
                Param { name: "to", pop_idx: 3, kind: ParamKind::Integer, meaning: "" },
                Param { name: "mode", pop_idx: 4, kind: ParamKind::Mode, meaning: "" },
                Param { name: "flags", pop_idx: 5, kind: ParamKind::Flag, meaning: "" },
            ],
            return_kind: ReturnKind::Void,
            returns: false,
            side_effects: vec![SideEffect::CreatesTask, SideEffect::MutatesSprite],
            purpose: "Append a six-argument action/tween entry using a native log/ease section variant.",
            evidence: vec![
                Evidence { kind: EvidenceKind::GameSqlite, reference: "reverse/Game.sqlite action dispatch group 5/6/10/14/15/29 pops 6" },
                Evidence { kind: EvidenceKind::RuntimeTrace, reference: "pal-vm dispatch_action_stub index 14 pops 6" },
            ],
            implementation_status: ImplStatus::Blocked,
            decompiler_status: ImplStatus::Blocked,
        }
    } else if i == 183 {
        ExtSig {
            category: 17,
            index: 15,
            canonical_name: "action_timeline_entry_sine",
            name: "action_timeline_entry_sine",
            game_handler_ea: None,
            pal_export_name: None,
            pal_export_ea: None,
            pop_count: 6,
            pop_order: Vec::new(),
            display_order: Vec::new(),
            params: vec![
                Param { name: "action_id", pop_idx: 0, kind: ParamKind::Integer, meaning: "" },
                Param { name: "duration_ms", pop_idx: 1, kind: ParamKind::DurationMs, meaning: "" },
                Param { name: "from", pop_idx: 2, kind: ParamKind::Integer, meaning: "" },
                Param { name: "to", pop_idx: 3, kind: ParamKind::Integer, meaning: "" },
                Param { name: "mode", pop_idx: 4, kind: ParamKind::Mode, meaning: "" },
                Param { name: "flags", pop_idx: 5, kind: ParamKind::Flag, meaning: "" },
            ],
            return_kind: ReturnKind::Void,
            returns: false,
            side_effects: vec![SideEffect::CreatesTask, SideEffect::MutatesSprite],
            purpose: "Append a six-argument action/tween entry using a native sine section variant.",
            evidence: vec![
                Evidence { kind: EvidenceKind::GameSqlite, reference: "reverse/Game.sqlite action dispatch group 5/6/10/14/15/29 pops 6" },
                Evidence { kind: EvidenceKind::RuntimeTrace, reference: "pal-vm dispatch_action_stub index 15 pops 6" },
            ],
            implementation_status: ImplStatus::Blocked,
            decompiler_status: ImplStatus::Blocked,
        }
    } else if i == 184 {
        ExtSig {
            category: 17,
            index: 17,
            canonical_name: "action_timeline_17",
            name: "action_timeline_17",
            game_handler_ea: Some("0x0040A650"),
            pal_export_name: None,
            pal_export_ea: None,
            pop_count: 5,
            pop_order: Vec::new(),
            display_order: Vec::new(),
            params: vec![
                Param { name: "line", pop_idx: 0, kind: ParamKind::Integer, meaning: "" },
                Param { name: "sprite", pop_idx: 1, kind: ParamKind::SpriteSlot, meaning: "" },
                Param { name: "arg2", pop_idx: 2, kind: ParamKind::Integer, meaning: "" },
                Param { name: "arg3", pop_idx: 3, kind: ParamKind::Integer, meaning: "" },
                Param { name: "duration", pop_idx: 4, kind: ParamKind::DurationMs, meaning: "" },
            ],
            return_kind: ReturnKind::Integer,
            returns: true,
            side_effects: vec![SideEffect::CreatesTask, SideEffect::MutatesSprite],
            purpose: "Append native action timeline entry type 10.",
            evidence: vec![
                Evidence { kind: EvidenceKind::GameSqlite, reference: "reverse/Game.sqlite VmExtcall_ActionTimeline17 0x0040A650 pops line plus four action args and stores type 10" },
            ],
            implementation_status: ImplStatus::Verified,
            decompiler_status: ImplStatus::Verified,
        }
    } else if i == 185 {
        ExtSig {
            category: 17,
            index: 20,
            canonical_name: "action_timeline_rect",
            name: "action_timeline_rect",
            game_handler_ea: Some("0x004097A0"),
            pal_export_name: None,
            pal_export_ea: None,
            pop_count: 5,
            pop_order: Vec::new(),
            display_order: Vec::new(),
            params: vec![
                Param { name: "line_id", pop_idx: 0, kind: ParamKind::Integer, meaning: "" },
                Param { name: "left", pop_idx: 1, kind: ParamKind::CoordinateX, meaning: "" },
                Param { name: "top", pop_idx: 2, kind: ParamKind::CoordinateY, meaning: "" },
                Param { name: "right", pop_idx: 3, kind: ParamKind::CoordinateX, meaning: "" },
                Param { name: "bottom", pop_idx: 4, kind: ParamKind::CoordinateY, meaning: "" },
            ],
            return_kind: ReturnKind::Void,
            returns: false,
            side_effects: vec![SideEffect::CreatesTask, SideEffect::MutatesSprite],
            purpose: "Append a source-rect action section to an action line.",
            evidence: vec![
                Evidence { kind: EvidenceKind::GameSqlite, reference: "reverse/Game.sqlite sub_4097A0 pops line id, reads four action args via sub_44B050, writes section type 20" },
                Evidence { kind: EvidenceKind::RuntimeTrace, reference: "pal-vm dispatch_action_stub index 20 pops 5" },
            ],
            implementation_status: ImplStatus::Blocked,
            decompiler_status: ImplStatus::Blocked,
        }
    } else if i == 186 {
        ExtSig {
            category: 17,
            index: 21,
            canonical_name: "action_push",
            name: "action_push",
            game_handler_ea: None,
            pal_export_name: None,
            pal_export_ea: None,
            pop_count: 0,
            pop_order: Vec::new(),
            display_order: Vec::new(),
            params: vec![],
            return_kind: ReturnKind::Void,
            returns: false,
            side_effects: vec![SideEffect::CreatesTask],
            purpose: "Push current Game action context onto the action stack.",
            evidence: vec![
                Evidence { kind: EvidenceKind::GameSqlite, reference: "reverse/Game.sqlite sub_4096D0 action_push copies current action block to heap backup" },
            ],
            implementation_status: ImplStatus::Blocked,
            decompiler_status: ImplStatus::Blocked,
        }
    } else if i == 187 {
        ExtSig {
            category: 17,
            index: 22,
            canonical_name: "action_pop",
            name: "action_pop",
            game_handler_ea: None,
            pal_export_name: None,
            pal_export_ea: None,
            pop_count: 0,
            pop_order: Vec::new(),
            display_order: Vec::new(),
            params: vec![],
            return_kind: ReturnKind::Void,
            returns: false,
            side_effects: vec![SideEffect::CreatesTask],
            purpose: "Restore the previous Game action context from the action stack.",
            evidence: vec![
                Evidence { kind: EvidenceKind::GameSqlite, reference: "reverse/Game.sqlite sub_409660 action_pop restores heap-saved action block" },
            ],
            implementation_status: ImplStatus::Blocked,
            decompiler_status: ImplStatus::Blocked,
        }
    } else if i == 188 {
        ExtSig {
            category: 17,
            index: 23,
            canonical_name: "set_active_action",
            name: "set_active_action",
            game_handler_ea: Some("0x004095C0"),
            pal_export_name: None,
            pal_export_ea: None,
            pop_count: 1,
            pop_order: Vec::new(),
            display_order: Vec::new(),
            params: vec![
                Param { name: "action_id", pop_idx: 0, kind: ParamKind::Integer, meaning: "" },
            ],
            return_kind: ReturnKind::Void,
            returns: false,
            side_effects: vec![SideEffect::CreatesTask],
            purpose: "Set the active action id used by later action query/clear calls.",
            evidence: vec![
                Evidence { kind: EvidenceKind::GameSqlite, reference: "reverse/Game.sqlite sub_4095C0 pops action_id, validates <16, stores old/current active ids, and logs set_active_action" },
                Evidence { kind: EvidenceKind::RuntimeTrace, reference: "pal-vm dispatch_action_stub index 23 pops action_id and updates active action" },
            ],
            implementation_status: ImplStatus::Verified,
            decompiler_status: ImplStatus::Verified,
        }
    } else if i == 189 {
        ExtSig {
            category: 17,
            index: 29,
            canonical_name: "action_timeline_entry2",
            name: "action_timeline_entry2",
            game_handler_ea: None,
            pal_export_name: None,
            pal_export_ea: None,
            pop_count: 6,
            pop_order: Vec::new(),
            display_order: Vec::new(),
            params: vec![
                Param { name: "line_id", pop_idx: 0, kind: ParamKind::Integer, meaning: "" },
                Param { name: "sprite_slot", pop_idx: 1, kind: ParamKind::SpriteSlot, meaning: "" },
                Param { name: "delta_x", pop_idx: 2, kind: ParamKind::CoordinateX, meaning: "" },
                Param { name: "delta_y", pop_idx: 3, kind: ParamKind::CoordinateY, meaning: "" },
                Param { name: "delta_z", pop_idx: 4, kind: ParamKind::Integer, meaning: "" },
                Param { name: "duration_ms", pop_idx: 5, kind: ParamKind::DurationMs, meaning: "" },
            ],
            return_kind: ReturnKind::Void,
            returns: false,
            side_effects: vec![SideEffect::CreatesTask, SideEffect::MutatesSprite],
            purpose: "Append a timed sprite-position delta action section.",
            evidence: vec![
                Evidence { kind: EvidenceKind::GameSqlite, reference: "reverse/Game.sqlite sub_40AC70 pops line_id plus sprite_slot/dx/dy/dz/duration via sub_44B050, stores section type 15, and resolves sprite_slot via sub_449120" },
                Evidence { kind: EvidenceKind::RuntimeTrace, reference: "New Game ST05A path: sp_set_pos_move(slot=12,dy=-500) followed by action_timeline_entry2 tween restoring the standing sprite" },
            ],
            implementation_status: ImplStatus::Verified,
            decompiler_status: ImplStatus::Verified,
        }
    } else if i == 190 {
        ExtSig {
            category: 17,
            index: 30,
            canonical_name: "set_action_clear",
            name: "set_action_clear",
            game_handler_ea: Some("0x0040B3A0"),
            pal_export_name: None,
            pal_export_ea: None,
            pop_count: 1,
            pop_order: Vec::new(),
            display_order: Vec::new(),
            params: vec![
                Param { name: "action_id", pop_idx: 0, kind: ParamKind::Integer, meaning: "" },
            ],
            return_kind: ReturnKind::Void,
            returns: false,
            side_effects: vec![SideEffect::CreatesTask],
            purpose: "-1 clears current action state; otherwise sets/clears the indexed action flag.",
            evidence: vec![
                Evidence { kind: EvidenceKind::GameSqlite, reference: "reverse/Game.sqlite sub_40B3A0 pops one action id, resolves -1 to active id, marks action clear, and returns 1" },
                Evidence { kind: EvidenceKind::RuntimeTrace, reference: "pal-vm dispatch_action_stub index 30 pops 1 and updates active action clear state" },
            ],
            implementation_status: ImplStatus::Verified,
            decompiler_status: ImplStatus::Verified,
        }
    } else {
        ExtSig {
            category: 18,
            index: 1,
            canonical_name: "app_exec",
            name: "app_exec",
            game_handler_ea: Some("0x0041AB90"),
            pal_export_name: None,
            pal_export_ea: None,
            pop_count: 1,
            pop_order: Vec::new(),
            display_order: Vec::new(),
            params: vec![
                Param { name: "path", pop_idx: 0, kind: ParamKind::TextStringFromTextDat, meaning: "executable/file path" },
            ],
            return_kind: ReturnKind::Integer,
            returns: true,
            side_effects: vec![SideEffect::ReadsFile, SideEffect::MutatesWindow],
            purpose: "Open a resolved path through the OS shell; portable runtime records but does not launch.",
            evidence: vec![
                Evidence { kind: EvidenceKind::GameSqlite, reference: "reverse/Game.sqlite sub_41AB90 pops one string and calls ShellExecuteA" },
                Evidence { kind: EvidenceKind::Disassembly, reference: "docs/dis.txt 00059EA0 pushes path before ext_0012_0001" },
            ],
            implementation_status: ImplStatus::Blocked,
            decompiler_status: ImplStatus::Verified,
        }
    }
}

fn record_from_block_16(i: usize) -> (sig: ExtSig)
    requires
        192 <= i < 204,
    ensures
        sig@ == signature_entry(i as int),
{
    if i == 192 {
        ExtSig {
            category: 18,
            index: 3,
            canonical_name: "string_not_equal",
            name: "string_not_equal",
            game_handler_ea: Some("0x0041EBD0"),
            pal_export_name: None,
            pal_export_ea: None,
            pop_count: 2,
            pop_order: Vec::new(),
            display_order: Vec::new(),
            params: vec![
                Param { name: "lhs", pop_idx: 0, kind: ParamKind::TextStringFromTextDat, meaning: "first script/dynamic string" },
                Param { name: "rhs", pop_idx: 1, kind: ParamKind::TextStringFromTextDat, meaning: "second script/dynamic string" },
            ],
            return_kind: ReturnKind::Bool,
            returns: true,
            side_effects: vec![SideEffect::WritesVmMemory],
            purpose: "Case-insensitive string inequality test used by table scan loops.",
            evidence: vec![
                Evidence { kind: EvidenceKind::GameSqlite, reference: "reverse/Game.sqlite sub_41EBD0 pops two strings, lowercases both, strcmp()s, and returns strcmp != 0" },
                Evidence { kind: EvidenceKind::Disassembly, reference: "docs/dis.txt 00004170/0000F470/000637D0 push two args before ext_0012_0003" },
            ],
            implementation_status: ImplStatus::Verified,
            decompiler_status: ImplStatus::Verified,
        }
    } else if i == 193 {
        ExtSig {
            category: 18,
            index: 4,
            canonical_name: "strcatf_string",
            name: "strcatf_string",
            game_handler_ea: Some("0x0041A850"),
            pal_export_name: None,
            pal_export_ea: None,
            pop_count: 2,
            pop_order: Vec::new(),
            display_order: Vec::new(),
            params: vec![
                Param { name: "dst", pop_idx: 0, kind: ParamKind::BufferPointer, meaning: "dynamic string destination" },
                Param { name: "src", pop_idx: 1, kind: ParamKind::TextStringFromTextDat, meaning: "string to append" },
            ],
            return_kind: ReturnKind::Integer,
            returns: true,
            side_effects: vec![SideEffect::WritesVmMemory],
            purpose: "Append resolved string to dynamic string buffer.",
            evidence: vec![
                Evidence { kind: EvidenceKind::GameSqlite, reference: "reverse/Game.sqlite sub_41A850 pops dst/src and appends resolved string to dynamic buffer" },
            ],
            implementation_status: ImplStatus::Verified,
            decompiler_status: ImplStatus::Verified,
        }
    } else if i == 194 {
        ExtSig {
            category: 18,
            index: 5,
            canonical_name: "strgetcf",
            name: "strgetcf",
            game_handler_ea: Some("0x0041A6B0"),
            pal_export_name: None,
            pal_export_ea: None,
            pop_count: 3,
            pop_order: Vec::new(),
            display_order: Vec::new(),
            params: vec![
                Param { name: "text", pop_idx: 0, kind: ParamKind::TextStringFromTextDat, meaning: "source script/dynamic string" },
                Param { name: "offset", pop_idx: 1, kind: ParamKind::Integer, meaning: "byte offset" },
                Param { name: "length", pop_idx: 2, kind: ParamKind::Integer, meaning: "0 for one byte, non-zero for digit substring" },
            ],
            return_kind: ReturnKind::Integer,
            returns: true,
            side_effects: vec![SideEffect::WritesVmMemory],
            purpose: "Read a character byte or parse a numeric substring from a resolved string.",
            evidence: vec![
                Evidence { kind: EvidenceKind::GameSqlite, reference: "reverse/Game.sqlite/IDB sub_41A6B0 pops string, offset, length and returns byte or parsed digit substring" },
                Evidence { kind: EvidenceKind::RuntimeTrace, reference: "file_string/strlenf table loops call ext_0012_0005 for character/numeric fields" },
            ],
            implementation_status: ImplStatus::Verified,
            decompiler_status: ImplStatus::Verified,
        }
    } else if i == 195 {
        ExtSig {
            category: 18,
            index: 6,
            canonical_name: "string_alloc",
            name: "string_alloc",
            game_handler_ea: Some("0x0041AAF0"),
            pal_export_name: None,
            pal_export_ea: None,
            pop_count: 1,
            pop_order: Vec::new(),
            display_order: Vec::new(),
            params: vec![
                Param { name: "ignored", pop_idx: 0, kind: ParamKind::Integer, meaning: "" },
            ],
            return_kind: ReturnKind::StringId,
            returns: true,
            side_effects: vec![SideEffect::WritesVmMemory],
            purpose: "Allocate/clear one native rotating dynamic string buffer and return its 0x10000000-tagged handle.",
            evidence: vec![
                Evidence { kind: EvidenceKind::GameSqlite, reference: "0x0041AAF0 pops one ignored value, clears 2047-byte dynamic string slot ctx[192823], advances modulo 16, and writes slot|0x10000000" },
                Evidence { kind: EvidenceKind::RuntimeTrace, reference: "longrun-newgame-ctrl-60000 executes ext_0012_0006 1519 times" },
            ],
            implementation_status: ImplStatus::Verified,
            decompiler_status: ImplStatus::Verified,
        }
    } else if i == 196 {
        ExtSig {
            category: 18,
            index: 7,
            canonical_name: "strcpyf_string",
            name: "strcpyf_string",
            game_handler_ea: Some("0x0041A4B0"),
            pal_export_name: None,
            pal_export_ea: None,
            pop_count: 3,
            pop_order: Vec::new(),
            display_order: Vec::new(),
            params: vec![
                Param { name: "dst", pop_idx: 0, kind: ParamKind::BufferPointer, meaning: "dynamic string destination" },
                Param { name: "src", pop_idx: 1, kind: ParamKind::TextStringFromTextDat, meaning: "source string" },
                Param { name: "len", pop_idx: 2, kind: ParamKind::Integer, meaning: "copy length or -1 for full" },
            ],
            return_kind: ReturnKind::Integer,
            returns: true,
            side_effects: vec![SideEffect::WritesVmMemory],
            purpose: "Copy resolved string to dynamic string buffer with optional length.",
            evidence: vec![
                Evidence { kind: EvidenceKind::GameSqlite, reference: "reverse/Game.sqlite sub_41A4B0 pops dst/src/len and strncpy()s into dynamic buffer" },
            ],
            implementation_status: ImplStatus::Verified,
            decompiler_status: ImplStatus::Verified,
        }
    } else if i == 197 {
        ExtSig {
            category: 18,
            index: 8,
            canonical_name: "file_exist",
            name: "file_exist",
            game_handler_ea: Some("0x0041A260"),
            pal_export_name: None,
            pal_export_ea: None,
            pop_count: 1,
            pop_order: Vec::new(),
            display_order: Vec::new(),
            params: vec![
                Param { name: "path", pop_idx: 0, kind: ParamKind::TextStringFromTextDat, meaning: "resource or filesystem path" },
            ],
            return_kind: ReturnKind::Bool,
            returns: true,
            side_effects: vec![SideEffect::ReadsFile],
            purpose: "Return whether a resolved resource/path exists.",
            evidence: vec![
                Evidence { kind: EvidenceKind::GameSqlite, reference: "reverse/Game.sqlite sub_41A260 pops one string and calls PalFileCreate" },
                Evidence { kind: EvidenceKind::Disassembly, reference: "docs/dis.txt 00067BF0/00068390 push path before file_exist" },
            ],
            implementation_status: ImplStatus::Verified,
            decompiler_status: ImplStatus::Verified,
        }
    } else if i == 198 {
        ExtSig {
            category: 18,
            index: 9,
            canonical_name: "wsprint",
            name: "wsprint",
            game_handler_ea: Some("0x00419560"),
            pal_export_name: None,
            pal_export_ea: None,
            pop_count: 10,
            pop_order: Vec::new(),
            display_order: Vec::new(),
            params: vec![
                Param { name: "dst", pop_idx: 0, kind: ParamKind::BufferPointer, meaning: "destination dynamic string handle" },
                Param { name: "format", pop_idx: 1, kind: ParamKind::TextStringFromTextDat, meaning: "printf-like format string" },
                Param { name: "value0", pop_idx: 2, kind: ParamKind::Integer, meaning: "format operand 0" },
                Param { name: "value1", pop_idx: 3, kind: ParamKind::Integer, meaning: "format operand 1" },
                Param { name: "value2", pop_idx: 4, kind: ParamKind::Integer, meaning: "format operand 2" },
                Param { name: "value3", pop_idx: 5, kind: ParamKind::Integer, meaning: "format operand 3" },
                Param { name: "value4", pop_idx: 6, kind: ParamKind::Integer, meaning: "format operand 4" },
                Param { name: "value5", pop_idx: 7, kind: ParamKind::Integer, meaning: "format operand 5" },
                Param { name: "value6", pop_idx: 8, kind: ParamKind::Integer, meaning: "format operand 6" },
                Param { name: "value7", pop_idx: 9, kind: ParamKind::Integer, meaning: "format operand 7" },
            ],
            return_kind: ReturnKind::Integer,
            returns: true,
            side_effects: vec![SideEffect::WritesVmMemory],
            purpose: "Format a script string into a dynamic string buffer.",
            evidence: vec![
                Evidence { kind: EvidenceKind::GameSqlite, reference: "0x00419560 sub_419560 pops dst/format/eight values and writes formatted bytes to dynamic string storage" },
                Evidence { kind: EvidenceKind::RuntimeTrace, reference: "codex-sprite-transition-new showed strlenf on freshly allocated handles staying 0 under the old zero-pop fallback" },
            ],
            implementation_status: ImplStatus::Verified,
            decompiler_status: ImplStatus::Verified,
        }
    } else if i == 199 {
        ExtSig {
            category: 18,
            index: 10,
            canonical_name: "check_disc",
            name: "check_disc",
            game_handler_ea: Some("0x00419370"),
            pal_export_name: None,
            pal_export_ea: None,
            pop_count: 1,
            pop_order: Vec::new(),
            display_order: Vec::new(),
            params: vec![
                Param { name: "volume_label", pop_idx: 0, kind: ParamKind::TextStringFromTextDat, meaning: "requested CD/DVD volume label" },
            ],
            return_kind: ReturnKind::Bool,
            returns: true,
            side_effects: vec![SideEffect::ReadsFile],
            purpose: "Check mounted disc volume label; portable runtime accepts the check.",
            evidence: vec![
                Evidence { kind: EvidenceKind::GameSqlite, reference: "reverse/Game.sqlite sub_419370 pops one label and scans CD-ROM volume labels, with debug return 1" },
                Evidence { kind: EvidenceKind::Disassembly, reference: "docs/dis.txt 0002D03C/0002D168 push label before check_disc" },
            ],
            implementation_status: ImplStatus::Verified,
            decompiler_status: ImplStatus::Verified,
        }
    } else if i == 200 {
        ExtSig {
            category: 18,
            index: 12,
            canonical_name: "strlen",
            name: "strlen",
            game_handler_ea: Some("0x0041EAC0"),
            pal_export_name: None,
            pal_export_ea: None,
            pop_count: 1,
            pop_order: Vec::new(),
            display_order: Vec::new(),
            params: vec![
                Param { name: "value", pop_idx: 0, kind: ParamKind::TextStringFromTextDat, meaning: "script/dynamic string handle" },
            ],
            return_kind: ReturnKind::Integer,
            returns: true,
            side_effects: vec![SideEffect::WritesVmMemory],
            purpose: "Return byte length of a script/dynamic string.",
            evidence: vec![
                Evidence { kind: EvidenceKind::GameSqlite, reference: "reverse/Game.sqlite sub_41EAC0 pops one dynamic string handle and returns strlen" },
                Evidence { kind: EvidenceKind::Disassembly, reference: "docs/dis.txt 0005D420 uses ext_0012_000C return as a condition" },
            ],
            implementation_status: ImplStatus::Verified,
            decompiler_status: ImplStatus::Verified,
        }
    } else if i == 201 {
        ExtSig {
            category: 18,
            index: 13,
            canonical_name: "process_checkpoint_set",
            name: "process_checkpoint_set",
            game_handler_ea: Some("0x0041B8D0"),
            pal_export_name: None,
            pal_export_ea: None,
            pop_count: 1,
            pop_order: Vec::new(),
            display_order: Vec::new(),
            params: vec![
                Param { name: "checkpoint_id", pop_idx: 0, kind: ParamKind::PointId, meaning: "script/process checkpoint id" },
            ],
            return_kind: ReturnKind::Integer,
            returns: true,
            side_effects: vec![SideEffect::ChangesRunState],
            purpose: "Store native script/process checkpoint id for the return/list scheduler.",
            evidence: vec![
                Evidence { kind: EvidenceKind::GameSqlite, reference: "reverse/Game.sqlite sub_41B8D0 pops one id, pushes current process point with PalList tag 3, and stores dword_54CE38" },
                Evidence { kind: EvidenceKind::Disassembly, reference: "docs/dis.txt 0011A054/0011A068/0011A07C pass point ids to ext_0012_000D" },
            ],
            implementation_status: ImplStatus::Blocked,
            decompiler_status: ImplStatus::Blocked,
        }
    } else if i == 202 {
        ExtSig {
            category: 18,
            index: 14,
            canonical_name: "update_access",
            name: "update_access",
            game_handler_ea: Some("0x00417C20"),
            pal_export_name: None,
            pal_export_ea: None,
            pop_count: 1,
            pop_order: Vec::new(),
            display_order: Vec::new(),
            params: vec![
                Param { name: "entry", pop_idx: 0, kind: ParamKind::TextStringFromTextDat, meaning: "access flag id or resource string" },
            ],
            return_kind: ReturnKind::Integer,
            returns: true,
            side_effects: vec![SideEffect::WritesVmMemory, SideEffect::ReadsFile],
            purpose: "Mark native access/read flag entry.",
            evidence: vec![
                Evidence { kind: EvidenceKind::GameSqlite, reference: "reverse/Game.sqlite sub_417C20 pops one id/string and mutates native access bits" },
                Evidence { kind: EvidenceKind::Disassembly, reference: "docs/dis.txt 0005B828/00063410/00064C48 push entry before update_access" },
            ],
            implementation_status: ImplStatus::Blocked,
            decompiler_status: ImplStatus::Verified,
        }
    } else {
        ExtSig {
            category: 18,
            index: 15,
            canonical_name: "system_task_value",
            name: "system_task_value",
            game_handler_ea: Some("0x00417BD0"),
            pal_export_name: None,
            pal_export_ea: None,
            pop_count: 0,
            pop_order: Vec::new(),
            display_order: Vec::new(),
            params: vec![],
            return_kind: ReturnKind::Integer,
            returns: true,
            side_effects: vec![SideEffect::WritesVmMemory],
            purpose: "Return native task-data value when the system latch is active.",
            evidence: vec![
                Evidence { kind: EvidenceKind::GameSqlite, reference: "reverse/Game.sqlite sub_417BD0 pops no args and returns PalTaskGetTaskData(0)+820 when dword_4BD0C0 is set" },
            ],
            implementation_status: ImplStatus::Blocked,
            decompiler_status: ImplStatus::Verified,
        }
    }
}

fn record_from_block_17(i: usize) -> (sig: ExtSig)
    requires
        204 <= i < 216,
    ensures
        sig@ == signature_entry(i as int),
{
    if i == 204 {
        ExtSig {
            category: 18,
            index: 17,
            canonical_name: "work_process_value",
            name: "work_process_value",
            game_handler_ea: Some("0x00417AF0"),
            pal_export_name: None,
            pal_export_ea: None,
            pop_count: 1,
            pop_order: Vec::new(),
            display_order: Vec::new(),
            params: vec![
                Param { name: "arg_base_value", pop_idx: 0, kind: ParamKind::Integer, meaning: "argument-base value passed to native helper" },
            ],
            return_kind: ReturnKind::Integer,
            returns: true,
            side_effects: vec![SideEffect::WritesVmMemory, SideEffect::ChangesRunState],
            purpose: "Query/update native background work-process value.",
            evidence: vec![
                Evidence { kind: EvidenceKind::GameSqlite, reference: "reverse/Game.sqlite sub_417AF0 calls sub_44A6C0(&value), returns value, and sets +804084" },
                Evidence { kind: EvidenceKind::Disassembly, reference: "docs/dis.txt 0002CE0C pushes arg_base+64 before ext_0012_0011" },
            ],
            implementation_status: ImplStatus::Blocked,
            decompiler_status: ImplStatus::Verified,
        }
    } else if i == 205 {
        ExtSig {
            category: 18,
            index: 18,
            canonical_name: "strreplace_string",
            name: "strreplace_string",
            game_handler_ea: Some("0x0041A330"),
            pal_export_name: None,
            pal_export_ea: None,
            pop_count: 3,
            pop_order: Vec::new(),
            display_order: Vec::new(),
            params: vec![
                Param { name: "dst", pop_idx: 0, kind: ParamKind::BufferPointer, meaning: "dynamic string destination" },
                Param { name: "needle", pop_idx: 1, kind: ParamKind::TextStringFromTextDat, meaning: "substring to replace" },
                Param { name: "replacement", pop_idx: 2, kind: ParamKind::TextStringFromTextDat, meaning: "replacement string" },
            ],
            return_kind: ReturnKind::Integer,
            returns: true,
            side_effects: vec![SideEffect::WritesVmMemory],
            purpose: "Replace first substring occurrence in dynamic string buffer.",
            evidence: vec![
                Evidence { kind: EvidenceKind::GameSqlite, reference: "reverse/Game.sqlite sub_41A330 pops dst/needle/replacement and memmove()s replacement into the dynamic string" },
            ],
            implementation_status: ImplStatus::Verified,
            decompiler_status: ImplStatus::Verified,
        }
    } else if i == 206 {
        ExtSig {
            category: 18,
            index: 21,
            canonical_name: "strlenf",
            name: "strlenf",
            game_handler_ea: Some("0x0041A5F0"),
            pal_export_name: None,
            pal_export_ea: None,
            pop_count: 1,
            pop_order: Vec::new(),
            display_order: Vec::new(),
            params: vec![
                Param { name: "value", pop_idx: 0, kind: ParamKind::TextStringFromTextDat, meaning: "script/dynamic string handle" },
            ],
            return_kind: ReturnKind::Integer,
            returns: true,
            side_effects: vec![SideEffect::WritesVmMemory],
            purpose: "Return native strlen byte length for a resolved script/dynamic string.",
            evidence: vec![
                Evidence { kind: EvidenceKind::GameSqlite, reference: "0x0041A5F0 sub_41A5F0 pops one string handle, calls sub_44B1E0, strlen(Str1), and writes length to ctx[dst + 177710]" },
                Evidence { kind: EvidenceKind::RuntimeTrace, reference: "longrun-newgame-ctrl-60000 executes ext_0012_0015 48839 times before file/string loop branches" },
            ],
            implementation_status: ImplStatus::Verified,
            decompiler_status: ImplStatus::Verified,
        }
    } else if i == 207 {
        ExtSig {
            category: 18,
            index: 28,
            canonical_name: "attach_work_process",
            name: "attach_work_process",
            game_handler_ea: Some("0x00417A50"),
            pal_export_name: Some("PalAttachWorkProcess"),
            pal_export_ea: Some("0x1011CCA9"),
            pop_count: 0,
            pop_order: Vec::new(),
            display_order: Vec::new(),
            params: vec![],
            return_kind: ReturnKind::Integer,
            returns: true,
            side_effects: vec![SideEffect::CreatesTask, SideEffect::WritesVmMemory, SideEffect::ChangesRunState],
            purpose: "Attach the Game.exe/PAL background work-process pump.",
            evidence: vec![
                Evidence { kind: EvidenceKind::GameSqlite, reference: "reverse/Game.sqlite sub_417A50 pops no args, sets +804088/+804084, calls PalAttachWorkProcess(sub_44A080, PalTaskGetTaskData(0)+824)" },
                Evidence { kind: EvidenceKind::PalSqlite, reference: "reverse/PAL.sqlite PalAttachWorkProcess 0x1011CCA9 -> PalAttachWorkProcess_0 0x10237F80 posts PAL work-thread message" },
            ],
            implementation_status: ImplStatus::Verified,
            decompiler_status: ImplStatus::Verified,
        }
    } else if i == 208 {
        ExtSig {
            category: 18,
            index: 29,
            canonical_name: "detach_work_process",
            name: "detach_work_process",
            game_handler_ea: Some("0x00417A30"),
            pal_export_name: None,
            pal_export_ea: None,
            pop_count: 0,
            pop_order: Vec::new(),
            display_order: Vec::new(),
            params: vec![],
            return_kind: ReturnKind::Integer,
            returns: true,
            side_effects: vec![SideEffect::WritesVmMemory, SideEffect::ChangesRunState],
            purpose: "Detach the Game.exe/PAL background work-process pump flag.",
            evidence: vec![
                Evidence { kind: EvidenceKind::GameSqlite, reference: "reverse/Game.sqlite sub_417A30 pops no args and clears +804088" },
            ],
            implementation_status: ImplStatus::Verified,
            decompiler_status: ImplStatus::Verified,
        }
    } else if i == 209 {
        ExtSig {
            category: 18,
            index: 30,
            canonical_name: "openfile",
            name: "openfile",
            game_handler_ea: None,
            pal_export_name: None,
            pal_export_ea: None,
            pop_count: 1,
            pop_order: Vec::new(),
            display_order: Vec::new(),
            params: vec![
                Param { name: "name", pop_idx: 0, kind: ParamKind::TextStringFromTextDat, meaning: "" },
            ],
            return_kind: ReturnKind::Handle,
            returns: true,
            side_effects: vec![SideEffect::ReadsFile],
            purpose: "Open resource/file by resolved script string; returns runtime file handle or 0.",
            evidence: vec![
                Evidence { kind: EvidenceKind::Writeup, reference: "docs/writeup.md 24.9" },
            ],
            implementation_status: ImplStatus::Blocked,
            decompiler_status: ImplStatus::Blocked,
        }
    } else if i == 210 {
        ExtSig {
            category: 18,
            index: 31,
            canonical_name: "read_file",
            name: "read_file",
            game_handler_ea: None,
            pal_export_name: None,
            pal_export_ea: None,
            pop_count: 3,
            pop_order: Vec::new(),
            display_order: Vec::new(),
            params: vec![
                Param { name: "handle", pop_idx: 0, kind: ParamKind::Handle, meaning: "" },
                Param { name: "temp_offset", pop_idx: 1, kind: ParamKind::BufferPointer, meaning: "" },
                Param { name: "count", pop_idx: 2, kind: ParamKind::Integer, meaning: "" },
            ],
            return_kind: ReturnKind::Integer,
            returns: true,
            side_effects: vec![SideEffect::ReadsFile, SideEffect::WritesVmMemory],
            purpose: "Read file/table bytes into VM temp memory.",
            evidence: vec![
                Evidence { kind: EvidenceKind::Writeup, reference: "docs/writeup.md 24.9" },
            ],
            implementation_status: ImplStatus::Blocked,
            decompiler_status: ImplStatus::Blocked,
        }
    } else if i == 211 {
        ExtSig {
            category: 18,
            index: 32,
            canonical_name: "close_file_not_handle",
            name: "close_file_not_handle",
            game_handler_ea: Some("0x004170C0"),
            pal_export_name: None,
            pal_export_ea: None,
            pop_count: 1,
            pop_order: Vec::new(),
            display_order: Vec::new(),
            params: vec![
                Param { name: "handle", pop_idx: 0, kind: ParamKind::Handle, meaning: "openfile handle" },
            ],
            return_kind: ReturnKind::Integer,
            returns: true,
            side_effects: vec![SideEffect::ReadsFile],
            purpose: "Close and release an open_file table/resource handle.",
            evidence: vec![
                Evidence { kind: EvidenceKind::GameSqlite, reference: "reverse/Game.sqlite sub_4170C0 pops one handle, PalListDelete()s it, frees buffer and object, returns 1" },
                Evidence { kind: EvidenceKind::Disassembly, reference: "docs/dis.txt 000633E0 pushes handle before ext_0012_0020" },
            ],
            implementation_status: ImplStatus::Verified,
            decompiler_status: ImplStatus::Verified,
        }
    } else if i == 212 {
        ExtSig {
            category: 18,
            index: 33,
            canonical_name: "set_file_pointer",
            name: "set_file_pointer",
            game_handler_ea: None,
            pal_export_name: None,
            pal_export_ea: None,
            pop_count: 3,
            pop_order: Vec::new(),
            display_order: Vec::new(),
            params: vec![
                Param { name: "handle", pop_idx: 0, kind: ParamKind::Handle, meaning: "" },
                Param { name: "offset", pop_idx: 1, kind: ParamKind::Integer, meaning: "" },
                Param { name: "origin", pop_idx: 2, kind: ParamKind::Mode, meaning: "" },
            ],
            return_kind: ReturnKind::Integer,
            returns: true,
            side_effects: vec![SideEffect::ReadsFile],
            purpose: "Seek an opened runtime file handle.",
            evidence: vec![
                Evidence { kind: EvidenceKind::Writeup, reference: "docs/writeup.md 24.9" },
            ],
            implementation_status: ImplStatus::Blocked,
            decompiler_status: ImplStatus::Blocked,
        }
    } else if i == 213 {
        ExtSig {
            category: 18,
            index: 34,
            canonical_name: "file_string",
            name: "file_string",
            game_handler_ea: Some("0x00416EC0"),
            pal_export_name: None,
            pal_export_ea: None,
            pop_count: 3,
            pop_order: Vec::new(),
            display_order: Vec::new(),
            params: vec![
                Param { name: "handle", pop_idx: 0, kind: ParamKind::Handle, meaning: "openfile handle" },
                Param { name: "entry", pop_idx: 1, kind: ParamKind::Integer, meaning: "encoded string table entry" },
                Param { name: "dst_slot", pop_idx: 2, kind: ParamKind::BufferPointer, meaning: "dynamic string destination" },
            ],
            return_kind: ReturnKind::StringId,
            returns: true,
            side_effects: vec![SideEffect::WritesVmMemory],
            purpose: "Copy a parsed open_file table string entry into dynamic string storage.",
            evidence: vec![
                Evidence { kind: EvidenceKind::GameSqlite, reference: "reverse/Game.sqlite sub_416EC0 pops handle/entry/dst, masks entry, and copies u16-length string into dynamic string storage" },
                Evidence { kind: EvidenceKind::Disassembly, reference: "docs/dis.txt ext_0012_0022 callsites push three values" },
            ],
            implementation_status: ImplStatus::Verified,
            decompiler_status: ImplStatus::Verified,
        }
    } else if i == 214 {
        ExtSig {
            category: 18,
            index: 35,
            canonical_name: "set_last_process",
            name: "set_last_process",
            game_handler_ea: Some("0x004179B0"),
            pal_export_name: None,
            pal_export_ea: None,
            pop_count: 1,
            pop_order: Vec::new(),
            display_order: Vec::new(),
            params: vec![
                Param { name: "point_id", pop_idx: 0, kind: ParamKind::PointId, meaning: "script/process point id or zero" },
            ],
            return_kind: ReturnKind::Integer,
            returns: true,
            side_effects: vec![SideEffect::ChangesRunState],
            purpose: "Store native last-process point bookkeeping.",
            evidence: vec![
                Evidence { kind: EvidenceKind::GameSqlite, reference: "reverse/Game.sqlite sub_4179B0 pops one point id and stores resolved process address in a1[201019]" },
            ],
            implementation_status: ImplStatus::Blocked,
            decompiler_status: ImplStatus::Verified,
        }
    } else {
        ExtSig {
            category: 18,
            index: 36,
            canonical_name: "sz_buf",
            name: "sz_buf",
            game_handler_ea: None,
            pal_export_name: None,
            pal_export_ea: None,
            pop_count: 5,
            pop_order: Vec::new(),
            display_order: Vec::new(),
            params: vec![
                Param { name: "section", pop_idx: 0, kind: ParamKind::TextStringFromTextDat, meaning: "" },
                Param { name: "key", pop_idx: 1, kind: ParamKind::TextStringFromTextDat, meaning: "" },
                Param { name: "default", pop_idx: 2, kind: ParamKind::TextStringFromTextDat, meaning: "" },
                Param { name: "filename", pop_idx: 3, kind: ParamKind::IniFilename, meaning: "" },
                Param { name: "buffer_or_size", pop_idx: 4, kind: ParamKind::BufferPointer, meaning: "" },
            ],
            return_kind: ReturnKind::StringId,
            returns: true,
            side_effects: vec![SideEffect::ReadsIni],
            purpose: "Read INI string into dynamic string storage.",
            evidence: vec![
                Evidence { kind: EvidenceKind::Writeup, reference: "docs/writeup.md INI" },
                Evidence { kind: EvidenceKind::RuntimeTrace, reference: "pal-vm ext_sz_buf pops 5" },
            ],
            implementation_status: ImplStatus::Blocked,
            decompiler_status: ImplStatus::Blocked,
        }
    }
}

fn record_from_block_18(i: usize) -> (sig: ExtSig)
    requires
        216 <= i < 228,
    ensures
        sig@ == signature_entry(i as int),
{
    if i == 216 {
        ExtSig {
            category: 18,
            index: 37,
            canonical_name: "getprivateprofileint",
            name: "getprivateprofileint",
            game_handler_ea: None,
            pal_export_name: None,
            pal_export_ea: None,
            pop_count: 4,
            pop_order: Vec::new(),
            display_order: Vec::new(),
            params: vec![
                Param { name: "section", pop_idx: 0, kind: ParamKind::TextStringFromTextDat, meaning: "" },
                Param { name: "key", pop_idx: 1, kind: ParamKind::TextStringFromTextDat, meaning: "" },
                Param { name: "default", pop_idx: 2, kind: ParamKind::Integer, meaning: "" },
                Param { name: "filename", pop_idx: 3, kind: ParamKind::IniFilename, meaning: "" },
            ],
            return_kind: ReturnKind::Integer,
            returns: true,
            side_effects: vec![SideEffect::ReadsIni],
            purpose: "Read an integer from SYSTEM.INI or requested INI.",
            evidence: vec![
                Evidence { kind: EvidenceKind::Writeup, reference: "docs/writeup.md 24.9" },
            ],
            implementation_status: ImplStatus::Blocked,
            decompiler_status: ImplStatus::Blocked,
        }
    } else if i == 217 {
        ExtSig {
            category: 18,
            index: 40,
            canonical_name: "access_clear",
            name: "access_clear",
            game_handler_ea: Some("0x00417E50"),
            pal_export_name: None,
            pal_export_ea: None,
            pop_count: 1,
            pop_order: Vec::new(),
            display_order: Vec::new(),
            params: vec![
                Param { name: "entry", pop_idx: 0, kind: ParamKind::Integer, meaning: "access flag id or resource string" },
            ],
            return_kind: ReturnKind::Integer,
            returns: true,
            side_effects: vec![SideEffect::WritesVmMemory],
            purpose: "Clear native access/read flag entry.",
            evidence: vec![
                Evidence { kind: EvidenceKind::GameSqlite, reference: "reverse/Game.sqlite sub_417E50 pops one id/string and clears the corresponding access flag" },
            ],
            implementation_status: ImplStatus::Blocked,
            decompiler_status: ImplStatus::Verified,
        }
    } else if i == 218 {
        ExtSig {
            category: 18,
            index: 90,
            canonical_name: "ext_18_90",
            name: "ext_18_90",
            game_handler_ea: None,
            pal_export_name: None,
            pal_export_ea: None,
            pop_count: 8,
            pop_order: Vec::new(),
            display_order: Vec::new(),
            params: vec![
                Param { name: "arg0", pop_idx: 0, kind: ParamKind::Unknown, meaning: "" },
                Param { name: "arg1", pop_idx: 1, kind: ParamKind::Unknown, meaning: "" },
                Param { name: "arg2", pop_idx: 2, kind: ParamKind::Unknown, meaning: "" },
                Param { name: "arg3", pop_idx: 3, kind: ParamKind::Unknown, meaning: "" },
                Param { name: "arg4", pop_idx: 4, kind: ParamKind::Unknown, meaning: "" },
                Param { name: "arg5", pop_idx: 5, kind: ParamKind::Unknown, meaning: "" },
                Param { name: "arg6", pop_idx: 6, kind: ParamKind::Unknown, meaning: "" },
                Param { name: "arg7", pop_idx: 7, kind: ParamKind::Unknown, meaning: "" },
            ],
            return_kind: ReturnKind::Status,
            returns: true,
            side_effects: vec![SideEffect::UnknownSideEffect],
            purpose: "Preserve the eight-argument extension's stack contract.",
            evidence: vec![
                Evidence { kind: EvidenceKind::Disassembly, reference: "Totsulover Script.src 0x1021E4-0x102224 pushes eight arguments" },
                Evidence { kind: EvidenceKind::RuntimeTrace, reference: "Unconsumed values cause argument_base=0x1000003F during confirmation button layout" },
            ],
            implementation_status: ImplStatus::StackDisciplineOnly,
            decompiler_status: ImplStatus::Partial,
        }
    } else if i == 219 {
        ExtSig {
            category: 18,
            index: 121,
            canonical_name: "pal_time_ms",
            name: "pal_time_ms",
            game_handler_ea: None,
            pal_export_name: None,
            pal_export_ea: None,
            pop_count: 0,
            pop_order: Vec::new(),
            display_order: Vec::new(),
            params: vec![],
            return_kind: ReturnKind::Integer,
            returns: true,
            side_effects: vec![],
            purpose: "Read the monotonically advancing PAL millisecond clock.",
            evidence: vec![
                Evidence { kind: EvidenceKind::Disassembly, reference: "Totsulover Script.src 0xE0A40 and 0xE0ACC elapsed-time loop" },
                Evidence { kind: EvidenceKind::RuntimeTrace, reference: "Totsulover title start callback point[13] stalls when this call returns zero" },
            ],
            implementation_status: ImplStatus::Partial,
            decompiler_status: ImplStatus::Partial,
        }
    } else if i == 220 {
        ExtSig {
            category: 20,
            index: 0,
            canonical_name: "random",
            name: "random",
            game_handler_ea: None,
            pal_export_name: None,
            pal_export_ea: None,
            pop_count: 2,
            pop_order: Vec::new(),
            display_order: Vec::new(),
            params: vec![
                Param { name: "min", pop_idx: 0, kind: ParamKind::Integer, meaning: "" },
                Param { name: "max", pop_idx: 1, kind: ParamKind::Integer, meaning: "" },
            ],
            return_kind: ReturnKind::Integer,
            returns: true,
            side_effects: vec![],
            purpose: "Return an inclusive random integer between the two popped bounds.",
            evidence: vec![
                Evidence { kind: EvidenceKind::GameSqlite, reference: "reverse/Game.sqlite random wrapper" },
                Evidence { kind: EvidenceKind::RuntimeTrace, reference: "pal-vm dispatch_random_ext index 0 pops 2" },
            ],
            implementation_status: ImplStatus::Blocked,
            decompiler_status: ImplStatus::Blocked,
        }
    } else if i == 221 {
        ExtSig {
            category: 21,
            index: 0,
            canonical_name: "create_thread",
            name: "create_thread",
            game_handler_ea: Some("0x0042E900"),
            pal_export_name: None,
            pal_export_ea: None,
            pop_count: 1,
            pop_order: Vec::new(),
            display_order: Vec::new(),
            params: vec![
                Param { name: "point_id", pop_idx: 0, kind: ParamKind::PointId, meaning: "target script point id" },
            ],
            return_kind: ReturnKind::Integer,
            returns: true,
            side_effects: vec![SideEffect::ChangesRunState],
            purpose: "Start native script-thread scheduler state at a point id.",
            evidence: vec![
                Evidence { kind: EvidenceKind::GameSqlite, reference: "reverse/Game.sqlite VmExtcall_CreateThread 0x0042E900 pops point id and writes thread active/running/target/id fields" },
            ],
            implementation_status: ImplStatus::Verified,
            decompiler_status: ImplStatus::Verified,
        }
    } else if i == 222 {
        ExtSig {
            category: 21,
            index: 1,
            canonical_name: "exit_thread",
            name: "exit_thread",
            game_handler_ea: Some("0x0042E8C0"),
            pal_export_name: None,
            pal_export_ea: None,
            pop_count: 0,
            pop_order: Vec::new(),
            display_order: Vec::new(),
            params: vec![],
            return_kind: ReturnKind::Integer,
            returns: true,
            side_effects: vec![SideEffect::ChangesRunState],
            purpose: "Clear native script-thread scheduler state.",
            evidence: vec![
                Evidence { kind: EvidenceKind::GameSqlite, reference: "reverse/Game.sqlite VmExtcall_ExitThread 0x0042E8C0 clears thread state and returns 1" },
            ],
            implementation_status: ImplStatus::Verified,
            decompiler_status: ImplStatus::Verified,
        }
    } else if i == 223 {
        ExtSig {
            category: 21,
            index: 2,
            canonical_name: "suspend_thread",
            name: "suspend_thread",
            game_handler_ea: Some("0x0042E860"),
            pal_export_name: None,
            pal_export_ea: None,
            pop_count: 1,
            pop_order: Vec::new(),
            display_order: Vec::new(),
            params: vec![
                Param { name: "running", pop_idx: 0, kind: ParamKind::Flag, meaning: "new native thread-running flag" },
            ],
            return_kind: ReturnKind::Integer,
            returns: true,
            side_effects: vec![SideEffect::WritesVmMemory, SideEffect::ChangesRunState],
            purpose: "Set native script-thread running flag and return the previous value.",
            evidence: vec![
                Evidence { kind: EvidenceKind::GameSqlite, reference: "reverse/Game.sqlite VmExtcall_SuspendThread 0x0042E860 pops one running flag, returns old running flag, stores new value" },
            ],
            implementation_status: ImplStatus::Verified,
            decompiler_status: ImplStatus::Verified,
        }
    } else if i == 224 {
        ExtSig {
            category: 21,
            index: 3,
            canonical_name: "get_thread",
            name: "get_thread",
            game_handler_ea: Some("0x0042E9A0"),
            pal_export_name: None,
            pal_export_ea: None,
            pop_count: 0,
            pop_order: Vec::new(),
            display_order: Vec::new(),
            params: vec![],
            return_kind: ReturnKind::Integer,
            returns: true,
            side_effects: vec![SideEffect::WritesVmMemory],
            purpose: "Return current native script-thread id.",
            evidence: vec![
                Evidence { kind: EvidenceKind::GameSqlite, reference: "reverse/Game.sqlite VmExtcall_GetThread 0x0042E9A0 returns ctx_off_thread_id" },
            ],
            implementation_status: ImplStatus::Verified,
            decompiler_status: ImplStatus::Verified,
        }
    } else if i == 225 {
        ExtSig {
            category: 22,
            index: 0,
            canonical_name: "run",
            name: "run",
            game_handler_ea: Some("0x00421FD0"),
            pal_export_name: Some("PalEffectEx"),
            pal_export_ea: Some("0x1011A1E8"),
            pop_count: 3,
            pop_order: Vec::new(),
            display_order: Vec::new(),
            params: vec![
                Param { name: "effect_id", pop_idx: 0, kind: ParamKind::Integer, meaning: "" },
                Param { name: "duration_ms", pop_idx: 1, kind: ParamKind::DurationMs, meaning: "" },
                Param { name: "effect_arg", pop_idx: 2, kind: ParamKind::Integer, meaning: "" },
            ],
            return_kind: ReturnKind::Void,
            returns: false,
            side_effects: vec![SideEffect::ChangesRunState, SideEffect::BlocksScript],
            purpose: "Run a scene/effect transition and wait for it.",
            evidence: vec![
                Evidence { kind: EvidenceKind::GameSqlite, reference: "reverse/Game.sqlite sub_421FD0 pops effect_id/duration/effect_arg and calls PalEffectEx(effect_id,duration,effect_arg,0)" },
                Evidence { kind: EvidenceKind::PalSqlite, reference: "PalEffectEx 0x1011A1E8" },
                Evidence { kind: EvidenceKind::RuntimeTrace, reference: "pal-vm dispatch_run_ext index 0 pops 3 and updates run pipeline" },
            ],
            implementation_status: ImplStatus::Verified,
            decompiler_status: ImplStatus::Verified,
        }
    } else if i == 226 {
        ExtSig {
            category: 22,
            index: 1,
            canonical_name: "run_no_wait",
            name: "run_no_wait",
            game_handler_ea: Some("0x00421F80"),
            pal_export_name: None,
            pal_export_ea: None,
            pop_count: 0,
            pop_order: Vec::new(),
            display_order: Vec::new(),
            params: vec![],
            return_kind: ReturnKind::Void,
            returns: false,
            side_effects: vec![SideEffect::ChangesRunState],
            purpose: "Latch/flush a no-wait scene transition; Game.exe category 22 index 1 does not pop transition parameters.",
            evidence: vec![
                Evidence { kind: EvidenceKind::GameSqlite, reference: "reverse/Game.sqlite sub_421F80 has no VM pop and toggles run_no_wait transition state" },
                Evidence { kind: EvidenceKind::RuntimeTrace, reference: "pal-vm dispatch_run_ext index 1 pops 0 and sets no_wait_latch" },
            ],
            implementation_status: ImplStatus::Verified,
            decompiler_status: ImplStatus::Verified,
        }
    } else {
        ExtSig {
            category: 22,
            index: 2,
            canonical_name: "run_stack",
            name: "run_stack",
            game_handler_ea: Some("0x00422160"),
            pal_export_name: Some("PalEffectEx"),
            pal_export_ea: Some("0x1011A1E8"),
            pop_count: 1,
            pop_order: Vec::new(),
            display_order: Vec::new(),
            params: vec![
                Param { name: "enabled", pop_idx: 0, kind: ParamKind::Flag, meaning: "" },
            ],
            return_kind: ReturnKind::Void,
            returns: false,
            side_effects: vec![SideEffect::ChangesRunState],
            purpose: "Toggle Game.exe run-stack transition mode.",
            evidence: vec![
                Evidence { kind: EvidenceKind::GameSqlite, reference: "reverse/Game.sqlite sub_422160 pops enabled, toggles run-stack, and conditionally calls PalEffectEx for queued effects" },
                Evidence { kind: EvidenceKind::PalSqlite, reference: "PalEffectEx 0x1011A1E8" },
                Evidence { kind: EvidenceKind::RuntimeTrace, reference: "pal-vm dispatch_run_ext index 2 pops enabled and flushes pending transition" },
            ],
            implementation_status: ImplStatus::Verified,
            decompiler_status: ImplStatus::Verified,
        }
    }
}

/// Builds the table record at position `i`.
pub fn signature_at(i: usize) -> (sig: ExtSig)
    requires
        i < SIGNATURE_COUNT,
    ensures
        sig@ == signature_entry(i as int),
{
    if i < 12 {
        record_from_block_0(i)
    } else if i < 24 {
        record_from_block_1(i)
    } else if i < 36 {
        record_from_block_2(i)
    } else if i < 48 {
        record_from_block_3(i)
    } else if i < 60 {
        record_from_block_4(i)
    } else if i < 72 {
        record_from_block_5(i)
    } else if i < 84 {
        record_from_block_6(i)
    } else if i < 96 {
        record_from_block_7(i)
    } else if i < 108 {
        record_from_block_8(i)
    } else if i < 120 {
        record_from_block_9(i)
    } else if i < 132 {
        record_from_block_10(i)
    } else if i < 144 {
        record_from_block_11(i)
    } else if i < 156 {
        record_from_block_12(i)
    } else if i < 168 {
        record_from_block_13(i)
    } else if i < 180 {
        record_from_block_14(i)
    } else if i < 192 {
        record_from_block_15(i)
    } else if i < 204 {
        record_from_block_16(i)
    } else if i < 216 {
        record_from_block_17(i)
    } else {
        record_from_block_18(i)
    }
}

} // verus!
