//! The extcall signature table, as specification: one record per known
//! `(category, index)` pair, in the order in which `all_signatures` lists
//! them.

use vstd::prelude::*;
use crate::extsig::{
    Evidence, EvidenceKind, ExtSigView, ImplStatus, Param, ParamKind, ReturnKind, SideEffect,
};

verus! {

/// Number of records in the signature table.
pub const SIGNATURE_COUNT: usize = 228;

/// Everything a record holds besides its key and the fields derived from the
/// rest.
pub struct RecordBody {
    pub name: &'static str,
    pub game_handler_ea: Option<&'static str>,
    pub pal_export_name: Option<&'static str>,
    pub pal_export_ea: Option<&'static str>,
    pub params: Seq<Param>,
    pub return_kind: ReturnKind,
    pub side_effects: Seq<SideEffect>,
    pub purpose: &'static str,
    pub evidence: Seq<Evidence>,
    pub implementation_status: ImplStatus,
    pub decompiler_status: ImplStatus,
}

/// A record from its key and body: one popped argument per parameter, the
/// canonical name equal to the name, and `returns` set exactly when the
/// return kind is not void.
pub open spec fn make_record(key: (u16, u16), body: RecordBody) -> ExtSigView {
    ExtSigView {
        category: key.0,
        index: key.1,
        canonical_name: body.name,
        name: body.name,
        game_handler_ea: body.game_handler_ea,
        pal_export_name: body.pal_export_name,
        pal_export_ea: body.pal_export_ea,
        pop_count: body.params.len() as usize,
        pop_order: Seq::empty(),
        display_order: Seq::empty(),
        params: body.params,
        return_kind: body.return_kind,
        returns: body.return_kind != ReturnKind::Void,
        side_effects: body.side_effects,
        purpose: body.purpose,
        evidence: body.evidence,
        implementation_status: body.implementation_status,
        decompiler_status: body.decompiler_status,
    }
}

/// The table record at position `i` (`0 <= i < SIGNATURE_COUNT`).
pub open spec fn signature_entry(i: int) -> ExtSigView {
    make_record(signature_key(i), record_body(i))
}

pub open spec fn key_block_0(i: int) -> (u16, u16) {
    if i == 0 {
        (2, 2)
    } else if i == 1 {
        (2, 3)
    } else if i == 2 {
        (2, 4)
    } else if i == 3 {
        (2, 5)
    } else if i == 4 {
        (2, 8)
    } else if i == 5 {
        (2, 9)
    } else if i == 6 {
        (2, 10)
    } else if i == 7 {
        (2, 13)
    } else if i == 8 {
        (2, 14)
    } else if i == 9 {
        (2, 15)
    } else if i == 10 {
        (2, 16)
    } else {
        (2, 17)
    }
}

pub open spec fn key_block_1(i: int) -> (u16, u16) {
    if i == 12 {
        (2, 22)
    } else if i == 13 {
        (2, 25)
    } else if i == 14 {
        (2, 26)
    } else if i == 15 {
        (2, 27)
    } else if i == 16 {
        (2, 28)
    } else if i == 17 {
        (3, 2)
    } else if i == 18 {
        (3, 3)
    } else if i == 19 {
        (3, 4)
    } else if i == 20 {
        (3, 5)
    } else if i == 21 {
        (3, 6)
    } else if i == 22 {
        (3, 7)
    } else {
        (3, 8)
    }
}

pub open spec fn key_block_2(i: int) -> (u16, u16) {
    if i == 24 {
        (3, 9)
    } else if i == 25 {
        (3, 11)
    } else if i == 26 {
        (3, 12)
    } else if i == 27 {
        (3, 16)
    } else if i == 28 {
        (3, 15)
    } else if i == 29 {
        (3, 17)
    } else if i == 30 {
        (3, 18)
    } else if i == 31 {
        (3, 19)
    } else if i == 32 {
        (3, 20)
    } else if i == 33 {
        (3, 21)
    } else if i == 34 {
        (3, 22)
    } else {
        (3, 23)
    }
}

pub open spec fn key_block_3(i: int) -> (u16, u16) {
    if i == 36 {
        (3, 24)
    } else if i == 37 {
        (3, 25)
    } else if i == 38 {
        (3, 26)
    } else if i == 39 {
        (3, 27)
    } else if i == 40 {
        (3, 28)
    } else if i == 41 {
        (3, 29)
    } else if i == 42 {
        (3, 30)
    } else if i == 43 {
        (3, 31)
    } else if i == 44 {
        (3, 34)
    } else if i == 45 {
        (3, 35)
    } else if i == 46 {
        (3, 36)
    } else {
        (3, 37)
    }
}

pub open spec fn key_block_4(i: int) -> (u16, u16) {
    if i == 48 {
        (3, 39)
    } else if i == 49 {
        (3, 41)
    } else if i == 50 {
        (3, 44)
    } else if i == 51 {
        (3, 46)
    } else if i == 52 {
        (3, 47)
    } else if i == 53 {
        (3, 48)
    } else if i == 54 {
        (3, 49)
    } else if i == 55 {
        (3, 50)
    } else if i == 56 {
        (3, 51)
    } else if i == 57 {
        (3, 52)
    } else if i == 58 {
        (3, 53)
    } else {
        (3, 54)
    }
}

pub open spec fn key_block_5(i: int) -> (u16, u16) {
    if i == 60 {
        (3, 55)
    } else if i == 61 {
        (3, 56)
    } else if i == 62 {
        (3, 57)
    } else if i == 63 {
        (4, 0)
    } else if i == 64 {
        (4, 1)
    } else if i == 65 {
        (4, 2)
    } else if i == 66 {
        (4, 3)
    } else if i == 67 {
        (4, 6)
    } else if i == 68 {
        (4, 9)
    } else if i == 69 {
        (4, 11)
    } else if i == 70 {
        (4, 13)
    } else {
        (4, 14)
    }
}

pub open spec fn key_block_6(i: int) -> (u16, u16) {
    if i == 72 {
        (4, 15)
    } else if i == 73 {
        (5, 1)
    } else if i == 74 {
        (5, 2)
    } else if i == 75 {
        (5, 0)
    } else if i == 76 {
        (5, 3)
    } else if i == 77 {
        (5, 4)
    } else if i == 78 {
        (5, 5)
    } else if i == 79 {
        (5, 14)
    } else if i == 80 {
        (7, 0)
    } else if i == 81 {
        (7, 1)
    } else if i == 82 {
        (7, 2)
    } else {
        (7, 3)
    }
}

pub open spec fn key_block_7(i: int) -> (u16, u16) {
    if i == 84 {
        (7, 4)
    } else if i == 85 {
        (7, 5)
    } else if i == 86 {
        (7, 7)
    } else if i == 87 {
        (7, 8)
    } else if i == 88 {
        (7, 9)
    } else if i == 89 {
        (7, 10)
    } else if i == 90 {
        (6, 0)
    } else if i == 91 {
        (6, 2)
    } else if i == 92 {
        (6, 3)
    } else if i == 93 {
        (6, 4)
    } else if i == 94 {
        (8, 0)
    } else {
        (8, 1)
    }
}

pub open spec fn key_block_8(i: int) -> (u16, u16) {
    if i == 96 {
        (8, 3)
    } else if i == 97 {
        (8, 4)
    } else if i == 98 {
        (8, 5)
    } else if i == 99 {
        (8, 6)
    } else if i == 100 {
        (8, 8)
    } else if i == 101 {
        (8, 9)
    } else if i == 102 {
        (8, 10)
    } else if i == 103 {
        (8, 11)
    } else if i == 104 {
        (8, 12)
    } else if i == 105 {
        (8, 13)
    } else if i == 106 {
        (8, 14)
    } else {
        (8, 29)
    }
}

pub open spec fn key_block_9(i: int) -> (u16, u16) {
    if i == 108 {
        (8, 15)
    } else if i == 109 {
        (8, 16)
    } else if i == 110 {
        (8, 17)
    } else if i == 111 {
        (8, 19)
    } else if i == 112 {
        (8, 20)
    } else if i == 113 {
        (8, 21)
    } else if i == 114 {
        (8, 22)
    } else if i == 115 {
        (8, 23)
    } else if i == 116 {
        (8, 37)
    } else if i == 117 {
        (5, 8)
    } else if i == 118 {
        (9, 0)
    } else {
        (9, 1)
    }
}

pub open spec fn key_block_10(i: int) -> (u16, u16) {
    if i == 120 {
        (9, 2)
    } else if i == 121 {
        (9, 3)
    } else if i == 122 {
        (9, 4)
    } else if i == 123 {
        (9, 6)
    } else if i == 124 {
        (9, 7)
    } else if i == 125 {
        (9, 8)
    } else if i == 126 {
        (9, 9)
    } else if i == 127 {
        (9, 10)
    } else if i == 128 {
        (9, 12)
    } else if i == 129 {
        (9, 14)
    } else if i == 130 {
        (9, 17)
    } else {
        (9, 18)
    }
}

pub open spec fn key_block_11(i: int) -> (u16, u16) {
    if i == 132 {
        (9, 19)
    } else if i == 133 {
        (9, 20)
    } else if i == 134 {
        (9, 21)
    } else if i == 135 {
        (9, 22)
    } else if i == 136 {
        (9, 23)
    } else if i == 137 {
        (9, 24)
    } else if i == 138 {
        (9, 25)
    } else if i == 139 {
        (9, 26)
    } else if i == 140 {
        (9, 27)
    } else if i == 141 {
        (9, 28)
    } else if i == 142 {
        (9, 29)
    } else {
        (9, 30)
    }
}

pub open spec fn key_block_12(i: int) -> (u16, u16) {
    if i == 144 {
        (9, 31)
    } else if i == 145 {
        (9, 52)
    } else if i == 146 {
        (9, 53)
    } else if i == 147 {
        (15, 4)
    } else if i == 148 {
        (15, 5)
    } else if i == 149 {
        (12, 0)
    } else if i == 150 {
        (12, 1)
    } else if i == 151 {
        (12, 2)
    } else if i == 152 {
        (11, 0)
    } else if i == 153 {
        (11, 1)
    } else if i == 154 {
        (11, 2)
    } else {
        (11, 3)
    }
}

pub open spec fn key_block_13(i: int) -> (u16, u16) {
    if i == 156 {
        (11, 4)
    } else if i == 157 {
        (11, 5)
    } else if i == 158 {
        (13, 0)
    } else if i == 159 {
        (13, 1)
    } else if i == 160 {
        (13, 2)
    } else if i == 161 {
        (13, 3)
    } else if i == 162 {
        (13, 7)
    } else if i == 163 {
        (13, 16)
    } else if i == 164 {
        (13, 18)
    } else if i == 165 {
        (10, 12)
    } else if i == 166 {
        (10, 13)
    } else {
        (14, 3)
    }
}

pub open spec fn key_block_14(i: int) -> (u16, u16) {
    if i == 168 {
        (14, 6)
    } else if i == 169 {
        (16, 0)
    } else if i == 170 {
        (16, 1)
    } else if i == 171 {
        (16, 2)
    } else if i == 172 {
        (17, 0)
    } else if i == 173 {
        (17, 1)
    } else if i == 174 {
        (17, 3)
    } else if i == 175 {
        (17, 5)
    } else if i == 176 {
        (17, 6)
    } else if i == 177 {
        (17, 7)
    } else if i == 178 {
        (17, 8)
    } else {
        (17, 9)
    }
}

pub open spec fn key_block_15(i: int) -> (u16, u16) {
    if i == 180 {
        (17, 10)
    } else if i == 181 {
        (17, 11)
    } else if i == 182 {
        (17, 14)
    } else if i == 183 {
        (17, 15)
    } else if i == 184 {
        (17, 17)
    } else if i == 185 {
        (17, 20)
    } else if i == 186 {
        (17, 21)
    } else if i == 187 {
        (17, 22)
    } else if i == 188 {
        (17, 23)
    } else if i == 189 {
        (17, 29)
    } else if i == 190 {
        (17, 30)
    } else {
        (18, 1)
    }
}

pub open spec fn key_block_16(i: int) -> (u16, u16) {
    if i == 192 {
        (18, 3)
    } else if i == 193 {
        (18, 4)
    } else if i == 194 {
        (18, 5)
    } else if i == 195 {
        (18, 6)
    } else if i == 196 {
        (18, 7)
    } else if i == 197 {
        (18, 8)
    } else if i == 198 {
        (18, 9)
    } else if i == 199 {
        (18, 10)
    } else if i == 200 {
        (18, 12)
    } else if i == 201 {
        (18, 13)
    } else if i == 202 {
        (18, 14)
    } else {
        (18, 15)
    }
}

pub open spec fn key_block_17(i: int) -> (u16, u16) {
    if i == 204 {
        (18, 17)
    } else if i == 205 {
        (18, 18)
    } else if i == 206 {
        (18, 21)
    } else if i == 207 {
        (18, 28)
    } else if i == 208 {
        (18, 29)
    } else if i == 209 {
        (18, 30)
    } else if i == 210 {
        (18, 31)
    } else if i == 211 {
        (18, 32)
    } else if i == 212 {
        (18, 33)
    } else if i == 213 {
        (18, 34)
    } else if i == 214 {
        (18, 35)
    } else {
        (18, 36)
    }
}

pub open spec fn key_block_18(i: int) -> (u16, u16) {
    if i == 216 {
        (18, 37)
    } else if i == 217 {
        (18, 40)
    } else if i == 218 {
        (18, 90)
    } else if i == 219 {
        (18, 121)
    } else if i == 220 {
        (20, 0)
    } else if i == 221 {
        (21, 0)
    } else if i == 222 {
        (21, 1)
    } else if i == 223 {
        (21, 2)
    } else if i == 224 {
        (21, 3)
    } else if i == 225 {
        (22, 0)
    } else if i == 226 {
        (22, 1)
    } else {
        (22, 2)
    }
}

/// The `(category, index)` key of the record at table position `i`.
pub open spec fn signature_key(i: int) -> (u16, u16) {
    if i < 12 {
        key_block_0(i)
    } else if i < 24 {
        key_block_1(i)
    } else if i < 36 {
        key_block_2(i)
    } else if i < 48 {
        key_block_3(i)
    } else if i < 60 {
        key_block_4(i)
    } else if i < 72 {
        key_block_5(i)
    } else if i < 84 {
        key_block_6(i)
    } else if i < 96 {
        key_block_7(i)
    } else if i < 108 {
        key_block_8(i)
    } else if i < 120 {
        key_block_9(i)
    } else if i < 132 {
        key_block_10(i)
    } else if i < 144 {
        key_block_11(i)
    } else if i < 156 {
        key_block_12(i)
    } else if i < 168 {
        key_block_13(i)
    } else if i < 180 {
        key_block_14(i)
    } else if i < 192 {
        key_block_15(i)
    } else if i < 204 {
        key_block_16(i)
    } else if i < 216 {
        key_block_17(i)
    } else {
        key_block_18(i)
    }
}

pub open spec fn body_block_0(i: int) -> RecordBody {
    if i == 0 {
        RecordBody {
            name: "text",
            game_handler_ea: None,
            pal_export_name: None,
            pal_export_ea: None,
            params: seq![
                Param { name: "mode", pop_idx: 3, kind: ParamKind::Mode, meaning: "text mode / ADV channel" },
                Param { name: "text_id", pop_idx: 2, kind: ParamKind::TextId, meaning: "Text.dat byte offset or dynamic string id" },
                Param { name: "name_or_aux_id", pop_idx: 1, kind: ParamKind::TextId, meaning: "speaker/name text id or -1" },
                Param { name: "voice_or_aux_id", pop_idx: 0, kind: ParamKind::TextId, meaning: "voice/aux id or -1" },
            ],
            return_kind: ReturnKind::Void,
            side_effects: seq![SideEffect::ChangesTextState],
            purpose: "Set current ADV text without script blocking.",
            evidence: seq![
                Evidence { kind: EvidenceKind::Writeup, reference: "docs/writeup.md 24.17" },
                Evidence { kind: EvidenceKind::RuntimeTrace, reference: "text args=[mode,text_id,name,voice]" },
            ],
            implementation_status: ImplStatus::Blocked,
            decompiler_status: ImplStatus::Blocked,
        }
    } else if i == 1 {
        RecordBody {
            name: "text_hide",
            game_handler_ea: Some("0x0043F340"),
            pal_export_name: None,
            pal_export_ea: None,
            params: seq![
                Param { name: "redraw_flag", pop_idx: 0, kind: ParamKind::Flag, meaning: "non-zero requests native redraw/update flag" },
            ],
            return_kind: ReturnKind::Void,
            side_effects: seq![SideEffect::ChangesTextState],
            purpose: "Hide the ADV text window/state.",
            evidence: seq![
                Evidence { kind: EvidenceKind::GameSqlite, reference: "reverse/Game.sqlite sub_43F340 pops one flag, hides text sprite colors, and updates ctx[201021]" },
                Evidence { kind: EvidenceKind::Writeup, reference: "docs/writeup.md 24.17" },
            ],
            implementation_status: ImplStatus::Blocked,
            decompiler_status: ImplStatus::Blocked,
        }
    } else if i == 2 {
        RecordBody {
            name: "text_show",
            game_handler_ea: None,
            pal_export_name: None,
            pal_export_ea: None,
            params: seq![
                Param { name: "visible", pop_idx: 0, kind: ParamKind::Flag, meaning: "show flag observed in script wrappers" },
            ],
            return_kind: ReturnKind::Void,
            side_effects: seq![SideEffect::ChangesTextState],
            purpose: "Show the ADV text window/state.",
            evidence: seq![
                Evidence { kind: EvidenceKind::Writeup, reference: "docs/writeup.md 24.17" },
            ],
            implementation_status: ImplStatus::Blocked,
            decompiler_status: ImplStatus::Blocked,
        }
    } else if i == 3 {
        RecordBody {
            name: "text_set_btn",
            game_handler_ea: Some("0x0043F1A0"),
            pal_export_name: None,
            pal_export_ea: None,
            params: seq![
                Param { name: "button_id", pop_idx: 0, kind: ParamKind::Integer, meaning: "text button/window id" },
            ],
            return_kind: ReturnKind::Integer,
            side_effects: seq![SideEffect::ChangesTextState],
            purpose: "Select active ADV text-window button id.",
            evidence: seq![
                Evidence { kind: EvidenceKind::GameSqlite, reference: "reverse/Game.sqlite sub_43F1A0 pops button id and clears its text reaction slot" },
            ],
            implementation_status: ImplStatus::Verified,
            decompiler_status: ImplStatus::Verified,
        }
    } else if i == 4 {
        RecordBody {
            name: "text_clear",
            game_handler_ea: None,
            pal_export_name: None,
            pal_export_ea: None,
            params: seq![],
            return_kind: ReturnKind::Void,
            side_effects: seq![SideEffect::ChangesTextState, SideEffect::DeletesSprite],
            purpose: "Clear current text and release body/name sprites on the next text sync.",
            evidence: seq![
                Evidence { kind: EvidenceKind::Writeup, reference: "docs/writeup.md 24.17" },
            ],
            implementation_status: ImplStatus::Blocked,
            decompiler_status: ImplStatus::Blocked,
        }
    } else if i == 5 {
        RecordBody {
            name: "text_clear_ex",
            game_handler_ea: None,
            pal_export_name: None,
            pal_export_ea: None,
            params: seq![],
            return_kind: ReturnKind::Void,
            side_effects: seq![SideEffect::ChangesTextState],
            purpose: "Zero-argument text cleanup/repaint hook adjacent to text_clear.",
            evidence: seq![
                Evidence { kind: EvidenceKind::RuntimeTrace, reference: "reachable extcall 0002:0009 at PCs 0x00039584/0x0003A960/0x0003AE8C" },
                Evidence { kind: EvidenceKind::GameSqlite, reference: "reverse/Game.sqlite neighboring sub_43F0B0 text_clear" },
            ],
            implementation_status: ImplStatus::Blocked,
            decompiler_status: ImplStatus::Blocked,
        }
    } else if i == 6 {
        RecordBody {
            name: "text_get_time",
            game_handler_ea: Some("0x0043F010"),
            pal_export_name: None,
            pal_export_ea: None,
            params: seq![],
            return_kind: ReturnKind::Integer,
            side_effects: seq![SideEffect::WritesVmMemory],
            purpose: "Return the current text/task time counter.",
            evidence: seq![
                Evidence { kind: EvidenceKind::GameSqlite, reference: "reverse/Game.sqlite sub_43F010 writes PalTaskGetTaskData(0)+32 to dst_slot and pops no args" },
            ],
            implementation_status: ImplStatus::Verified,
            decompiler_status: ImplStatus::Verified,
        }
    } else if i == 7 {
        RecordBody {
            name: "text_task_redraw_flag",
            game_handler_ea: Some("0x0043EE00"),
            pal_export_name: None,
            pal_export_ea: None,
            params: seq![],
            return_kind: ReturnKind::Integer,
            side_effects: seq![SideEffect::ChangesTextState],
            purpose: "Set the native ADV text redraw flag at text context +4192.",
            evidence: seq![
                Evidence { kind: EvidenceKind::GameSqlite, reference: "reverse/Game.sqlite sub_43EE00 consumes no args and writes text_ctx+4192 = 1" },
            ],
            implementation_status: ImplStatus::Verified,
            decompiler_status: ImplStatus::Verified,
        }
    } else if i == 8 {
        RecordBody {
            name: "text_set_icon_animation_time",
            game_handler_ea: Some("0x0043ED40"),
            pal_export_name: Some("PalAnimationSetTime"),
            pal_export_ea: Some("0x10120110"),
            params: seq![
                Param { name: "icon_slot", pop_idx: 0, kind: ParamKind::Integer, meaning: "text icon animation slot, 0..3" },
                Param { name: "duration_ms", pop_idx: 1, kind: ParamKind::DurationMs, meaning: "animation time passed to PalAnimationSetTime" },
            ],
            return_kind: ReturnKind::Integer,
            side_effects: seq![SideEffect::ChangesTextState],
            purpose: "Set ADV text icon animation time.",
            evidence: seq![
                Evidence { kind: EvidenceKind::GameSqlite, reference: "reverse/Game.sqlite sub_43ED40 pops icon slot and duration then calls PalAnimationSetTime" },
                Evidence { kind: EvidenceKind::PalSqlite, reference: "reverse/PAL.sqlite PalAnimationSetTime 0x10120110 -> PalAnimationSetTime_0 0x10239C40 writes duration/start time" },
            ],
            implementation_status: ImplStatus::Verified,
            decompiler_status: ImplStatus::Verified,
        }
    } else if i == 9 {
        RecordBody {
            name: "text_w",
            game_handler_ea: None,
            pal_export_name: None,
            pal_export_ea: None,
            params: seq![
                Param { name: "duration_ms", pop_idx: 3, kind: ParamKind::DurationMs, meaning: "explicit text reveal duration; 0 uses native text-speed timing" },
                Param { name: "text_id", pop_idx: 2, kind: ParamKind::TextId, meaning: "Text.dat byte offset or dynamic string id" },
                Param { name: "name_or_aux_id", pop_idx: 1, kind: ParamKind::TextId, meaning: "speaker/name text id or -1" },
                Param { name: "voice_or_aux_id", pop_idx: 0, kind: ParamKind::TextId, meaning: "voice/aux id or -1" },
            ],
            return_kind: ReturnKind::Void,
            side_effects: seq![SideEffect::ChangesTextState],
            purpose: "Set current ADV line and start visual reveal; does not block VM.",
            evidence: seq![
                Evidence { kind: EvidenceKind::GameSqlite, reference: "reverse/Game.sqlite sub_43FFC0 writes pop[3] to text_ctx+4196 and computes reveal timing when it is zero" },
                Evidence { kind: EvidenceKind::RuntimeTrace, reference: "text_wait index=15 followed by explicit wait_click" },
            ],
            implementation_status: ImplStatus::Blocked,
            decompiler_status: ImplStatus::Blocked,
        }
    } else if i == 10 {
        RecordBody {
            name: "text_a",
            game_handler_ea: None,
            pal_export_name: None,
            pal_export_ea: None,
            params: seq![
                Param { name: "duration_ms", pop_idx: 3, kind: ParamKind::DurationMs, meaning: "" },
                Param { name: "text_id", pop_idx: 2, kind: ParamKind::TextId, meaning: "" },
                Param { name: "name_or_aux_id", pop_idx: 1, kind: ParamKind::TextId, meaning: "" },
                Param { name: "voice_or_aux_id", pop_idx: 0, kind: ParamKind::TextId, meaning: "" },
            ],
            return_kind: ReturnKind::Void,
            side_effects: seq![SideEffect::ChangesTextState],
            purpose: "Set current ADV line fully visible; does not block VM.",
            evidence: seq![
                Evidence { kind: EvidenceKind::Writeup, reference: "docs/writeup.md 24.17" },
            ],
            implementation_status: ImplStatus::Blocked,
            decompiler_status: ImplStatus::Blocked,
        }
    } else {
        RecordBody {
            name: "text_wa",
            game_handler_ea: None,
            pal_export_name: None,
            pal_export_ea: None,
            params: seq![
                Param { name: "duration_ms", pop_idx: 3, kind: ParamKind::DurationMs, meaning: "" },
                Param { name: "text_id", pop_idx: 2, kind: ParamKind::TextId, meaning: "" },
                Param { name: "name_or_aux_id", pop_idx: 1, kind: ParamKind::TextId, meaning: "" },
                Param { name: "voice_or_aux_id", pop_idx: 0, kind: ParamKind::TextId, meaning: "" },
            ],
            return_kind: ReturnKind::Void,
            side_effects: seq![SideEffect::ChangesTextState],
            purpose: "Set current ADV line and start visual reveal; does not block VM.",
            evidence: seq![
                Evidence { kind: EvidenceKind::Writeup, reference: "docs/writeup.md 24.17" },
            ],
            implementation_status: ImplStatus::Blocked,
            decompiler_status: ImplStatus::Blocked,
        }
    }
}

pub open spec fn body_block_1(i: int) -> RecordBody {
    if i == 12 {
        RecordBody {
            name: "text_set_base",
            game_handler_ea: None,
            pal_export_name: None,
            pal_export_ea: None,
            params: seq![
                Param { name: "mode", pop_idx: 3, kind: ParamKind::Mode, meaning: "text base/window mode" },
                Param { name: "x", pop_idx: 2, kind: ParamKind::CoordinateX, meaning: "optional base x override; 0x0fffffff means default" },
                Param { name: "y", pop_idx: 1, kind: ParamKind::CoordinateY, meaning: "optional base y override; 0x0fffffff means default" },
                Param { name: "base_resource", pop_idx: 0, kind: ParamKind::ResourceStringFromFileDat, meaning: "File.dat id for ADV text-window base image" },
            ],
            return_kind: ReturnKind::Integer,
            side_effects: seq![SideEffect::ChangesTextState],
            purpose: "Select ADV message-window base image/resource.",
            evidence: seq![
                Evidence { kind: EvidenceKind::Disassembly, reference: "docs/dis.txt 000346D8..00034760" },
                Evidence { kind: EvidenceKind::RuntimeTrace, reference: "text_set_base args=[0,268435455,268435455,1418]" },
            ],
            implementation_status: ImplStatus::Blocked,
            decompiler_status: ImplStatus::Blocked,
        }
    } else if i == 13 {
        RecordBody {
            name: "texttimecheckset",
            game_handler_ea: Some("0x0043E590"),
            pal_export_name: None,
            pal_export_ea: None,
            params: seq![
                Param { name: "text_id", pop_idx: 0, kind: ParamKind::TextId, meaning: "string id resolved by sub_44B120" },
                Param { name: "x", pop_idx: 1, kind: ParamKind::CoordinateX, meaning: "check sprite x coordinate" },
                Param { name: "y", pop_idx: 2, kind: ParamKind::CoordinateY, meaning: "check sprite y coordinate" },
                Param { name: "width", pop_idx: 3, kind: ParamKind::CoordinateX, meaning: "check text width" },
                Param { name: "height", pop_idx: 4, kind: ParamKind::CoordinateY, meaning: "check text height" },
            ],
            return_kind: ReturnKind::Integer,
            side_effects: seq![SideEffect::CreatesTask, SideEffect::CreatesSprite, SideEffect::ChangesTextState],
            purpose: "Create native ADV text timing-check task/sprite.",
            evidence: seq![
                Evidence { kind: EvidenceKind::GameSqlite, reference: "reverse/Game.sqlite sub_43E590 pops five args and calls sub_43A470" },
                Evidence { kind: EvidenceKind::GameSqlite, reference: "reverse/Game.sqlite sub_43A470 creates AdvTextTimeCheckTask and PalSpriteCreate/PalSpriteSetPos" },
            ],
            implementation_status: ImplStatus::Blocked,
            decompiler_status: ImplStatus::Verified,
        }
    } else if i == 14 {
        RecordBody {
            name: "text_task_free",
            game_handler_ea: Some("0x0043E550"),
            pal_export_name: None,
            pal_export_ea: None,
            params: seq![],
            return_kind: ReturnKind::Integer,
            side_effects: seq![SideEffect::ChangesTextState],
            purpose: "Free native text reveal/task state.",
            evidence: seq![
                Evidence { kind: EvidenceKind::GameSqlite, reference: "reverse/Game.sqlite VmExtcall_TextTaskFree 0x0043E550 pops no args and frees text task" },
            ],
            implementation_status: ImplStatus::Verified,
            decompiler_status: ImplStatus::Verified,
        }
    } else if i == 15 {
        RecordBody {
            name: "text_sprite_lock",
            game_handler_ea: Some("0x0043E4A0"),
            pal_export_name: None,
            pal_export_ea: None,
            params: seq![],
            return_kind: ReturnKind::Integer,
            side_effects: seq![SideEffect::ChangesTextState, SideEffect::MutatesSprite],
            purpose: "Lock native text sprite and clear alpha bytes.",
            evidence: seq![
                Evidence { kind: EvidenceKind::GameSqlite, reference: "reverse/Game.sqlite VmExtcall_TextSpriteLock 0x0043E4A0 pops no args and locks/edits text sprite pixels" },
            ],
            implementation_status: ImplStatus::Verified,
            decompiler_status: ImplStatus::Verified,
        }
    } else if i == 16 {
        RecordBody {
            name: "text_set_color",
            game_handler_ea: Some("0x0043E2E0"),
            pal_export_name: None,
            pal_export_ea: None,
            params: seq![
                Param { name: "color_slot", pop_idx: 0, kind: ParamKind::Integer, meaning: "native text color table slot, valid when <16" },
                Param { name: "label_string", pop_idx: 1, kind: ParamKind::TextId, meaning: "label string id copied with sub_44B120" },
                Param { name: "text_color", pop_idx: 2, kind: ParamKind::Color, meaning: "primary glyph color" },
                Param { name: "effect_color", pop_idx: 3, kind: ParamKind::Color, meaning: "outline/effect color" },
            ],
            return_kind: ReturnKind::Integer,
            side_effects: seq![SideEffect::ChangesTextState],
            purpose: "Configure ADV text color-table entry.",
            evidence: seq![
                Evidence { kind: EvidenceKind::GameSqlite, reference: "reverse/Game.sqlite sub_43E2E0 pops slot,label,text_color,effect_color and writes the text color table" },
            ],
            implementation_status: ImplStatus::Blocked,
            decompiler_status: ImplStatus::Verified,
        }
    } else if i == 17 {
        RecordBody {
            name: "sp_set",
            game_handler_ea: None,
            pal_export_name: None,
            pal_export_ea: None,
            params: seq![
                Param { name: "slot", pop_idx: 1, kind: ParamKind::SpriteSlot, meaning: "" },
                Param { name: "name", pop_idx: 0, kind: ParamKind::ResourceStringFromFileDat, meaning: "" },
                Param { name: "x", pop_idx: 2, kind: ParamKind::CoordinateX, meaning: "" },
                Param { name: "y", pop_idx: 3, kind: ParamKind::CoordinateY, meaning: "" },
            ],
            return_kind: ReturnKind::Void,
            side_effects: seq![SideEffect::CreatesSprite, SideEffect::MutatesSprite],
            purpose: "Load/set a sprite slot from a File.dat resource name.",
            evidence: seq![
                Evidence { kind: EvidenceKind::Writeup, reference: "docs/writeup.md sprite sections" },
            ],
            implementation_status: ImplStatus::Blocked,
            decompiler_status: ImplStatus::Blocked,
        }
    } else if i == 18 {
        RecordBody {
            name: "sp_set_ex",
            game_handler_ea: None,
            pal_export_name: None,
            pal_export_ea: None,
            params: seq![
                Param { name: "slot", pop_idx: 1, kind: ParamKind::SpriteSlot, meaning: "" },
                Param { name: "name", pop_idx: 0, kind: ParamKind::ResourceStringFromFileDat, meaning: "" },
                Param { name: "x", pop_idx: 2, kind: ParamKind::CoordinateX, meaning: "" },
                Param { name: "y", pop_idx: 3, kind: ParamKind::CoordinateY, meaning: "" },
                Param { name: "z", pop_idx: 4, kind: ParamKind::CoordinateZ, meaning: "" },
            ],
            return_kind: ReturnKind::Void,
            side_effects: seq![SideEffect::CreatesSprite, SideEffect::MutatesSprite],
            purpose: "Load/set a sprite slot with explicit z/priority.",
            evidence: seq![
                Evidence { kind: EvidenceKind::Writeup, reference: "docs/writeup.md 24.13" },
            ],
            implementation_status: ImplStatus::Blocked,
            decompiler_status: ImplStatus::Blocked,
        }
    } else if i == 19 {
        RecordBody {
            name: "sp_set_pos",
            game_handler_ea: None,
            pal_export_name: None,
            pal_export_ea: None,
            params: seq![
                Param { name: "slot", pop_idx: 0, kind: ParamKind::SpriteSlot, meaning: "" },
                Param { name: "x", pop_idx: 1, kind: ParamKind::CoordinateX, meaning: "" },
                Param { name: "y", pop_idx: 2, kind: ParamKind::CoordinateY, meaning: "" },
                Param { name: "z", pop_idx: 3, kind: ParamKind::CoordinateZ, meaning: "" },
            ],
            return_kind: ReturnKind::Void,
            side_effects: seq![SideEffect::MutatesSprite],
            purpose: "Move a sprite slot immediately.",
            evidence: seq![
                Evidence { kind: EvidenceKind::Writeup, reference: "docs/writeup.md sprite sections" },
            ],
            implementation_status: ImplStatus::Blocked,
            decompiler_status: ImplStatus::Blocked,
        }
    } else if i == 20 {
        RecordBody {
            name: "sp_cls",
            game_handler_ea: None,
            pal_export_name: None,
            pal_export_ea: None,
            params: seq![
                Param { name: "slot", pop_idx: 0, kind: ParamKind::SpriteSlot, meaning: "" },
            ],
            return_kind: ReturnKind::Void,
            side_effects: seq![SideEffect::DeletesSprite],
            purpose: "Release/clear a sprite slot.",
            evidence: seq![
                Evidence { kind: EvidenceKind::Writeup, reference: "docs/writeup.md sprite sections" },
            ],
            implementation_status: ImplStatus::Blocked,
            decompiler_status: ImplStatus::Blocked,
        }
    } else if i == 21 {
        RecordBody {
            name: "sp_set_alpha",
            game_handler_ea: Some("0x004281D0"),
            pal_export_name: Some("PalSpriteSetColor"),
            pal_export_ea: Some("0x1025FFC0"),
            params: seq![
                Param { name: "slot", pop_idx: 0, kind: ParamKind::SpriteSlot, meaning: "sprite slot or encoded PAL layer slot such as 0x010000NN" },
                Param { name: "alpha", pop_idx: 1, kind: ParamKind::Alpha, meaning: "0 transparent, 255 opaque" },
            ],
            return_kind: ReturnKind::Integer,
            side_effects: seq![SideEffect::MutatesSprite],
            purpose: "Set the sprite/button alpha lane by replacing the high byte of the native color field.",
            evidence: seq![
                Evidence { kind: EvidenceKind::GameSqlite, reference: "reverse/Game.sqlite sub_4281D0 pops slot,alpha and writes wrapper color alpha high byte" },
                Evidence { kind: EvidenceKind::PalSqlite, reference: "reverse/PAL.sqlite PalSpriteSetColor_0 writes PalSprite+0x3C color; sub_448600 applies dirty 0x80000" },
            ],
            implementation_status: ImplStatus::Verified,
            decompiler_status: ImplStatus::Verified,
        }
    } else if i == 22 {
        RecordBody {
            name: "set_priority",
            game_handler_ea: Some("0x00427780"),
            pal_export_name: None,
            pal_export_ea: None,
            params: seq![
                Param { name: "lane", pop_idx: 0, kind: ParamKind::Integer, meaning: "priority lane delta; native adds 134*lane to ctx+804232" },
            ],
            return_kind: ReturnKind::Integer,
            side_effects: seq![SideEffect::MutatesSprite],
            purpose: "Advance the Game sprite priority cursor.",
            evidence: seq![
                Evidence { kind: EvidenceKind::GameSqlite, reference: "reverse/Game.sqlite sub_427780 pops lane and updates VM offset +804232 by 134*lane" },
            ],
            implementation_status: ImplStatus::Verified,
            decompiler_status: ImplStatus::Verified,
        }
    } else {
        RecordBody {
            name: "sp_get_filename",
            game_handler_ea: Some("0x004244E0"),
            pal_export_name: None,
            pal_export_ea: None,
            params: seq![
                Param { name: "slot", pop_idx: 0, kind: ParamKind::SpriteSlot, meaning: "script sprite slot" },
                Param { name: "dst_slot", pop_idx: 1, kind: ParamKind::BufferPointer, meaning: "dynamic string destination" },
            ],
            return_kind: ReturnKind::Integer,
            side_effects: seq![SideEffect::WritesVmMemory],
            purpose: "Copy sprite resource filename/name to dynamic string storage.",
            evidence: seq![
                Evidence { kind: EvidenceKind::GameSqlite, reference: "reverse/Game.sqlite VmExtcall_SpSet2/sub_4244E0 pops slot and dst string slot, copies sprite filename, returns resource id" },
            ],
            implementation_status: ImplStatus::Verified,
            decompiler_status: ImplStatus::Verified,
        }
    }
}

pub open spec fn body_block_2(i: int) -> RecordBody {
    if i == 24 {
        RecordBody {
            name: "sp_set_center",
            game_handler_ea: Some("0x004282B0"),
            pal_export_name: None,
            pal_export_ea: None,
            params: seq![
                Param { name: "slot", pop_idx: 0, kind: ParamKind::SpriteSlot, meaning: "" },
                Param { name: "center_x", pop_idx: 1, kind: ParamKind::CoordinateX, meaning: "" },
                Param { name: "center_y", pop_idx: 2, kind: ParamKind::CoordinateY, meaning: "" },
            ],
            return_kind: ReturnKind::Integer,
            side_effects: seq![SideEffect::MutatesSprite],
            purpose: "Set PalSprite center offset for a sprite slot.",
            evidence: seq![
                Evidence { kind: EvidenceKind::GameSqlite, reference: "reverse/Game.sqlite sub_4282B0 pops slot/center_x/center_y and calls PalSpriteSetCenterOffset" },
            ],
            implementation_status: ImplStatus::Verified,
            decompiler_status: ImplStatus::Verified,
        }
    } else if i == 25 {
        RecordBody {
            name: "sp_cls_ex",
            game_handler_ea: None,
            pal_export_name: None,
            pal_export_ea: None,
            params: seq![
                Param { name: "first_slot", pop_idx: 0, kind: ParamKind::SpriteSlot, meaning: "" },
                Param { name: "count", pop_idx: 1, kind: ParamKind::Integer, meaning: "" },
            ],
            return_kind: ReturnKind::Void,
            side_effects: seq![SideEffect::DeletesSprite],
            purpose: "Clear count consecutive sprite slots from first_slot.",
            evidence: seq![
                Evidence { kind: EvidenceKind::GameSqlite, reference: "reverse/Game.sqlite sprite dispatch shares 3:0005/000B/000D clear path" },
                Evidence { kind: EvidenceKind::PalSqlite, reference: "PalSpriteRelease 0x10120D45 / Game import thunk 0x45049E" },
                Evidence { kind: EvidenceKind::RuntimeTrace, reference: "Koikake Script.src popup teardown pushes count 2 then first_slot 126" },
            ],
            implementation_status: ImplStatus::Blocked,
            decompiler_status: ImplStatus::Blocked,
        }
    } else if i == 26 {
        RecordBody {
            name: "set_filter",
            game_handler_ea: None,
            pal_export_name: None,
            pal_export_ea: None,
            params: seq![
                Param { name: "slot", pop_idx: 0, kind: ParamKind::SpriteSlot, meaning: "" },
                Param { name: "filter_mode", pop_idx: 1, kind: ParamKind::Mode, meaning: "" },
            ],
            return_kind: ReturnKind::Void,
            side_effects: seq![SideEffect::MutatesSprite],
            purpose: "Set a sprite render/filter mode; current VM treats it as stack-disciplined state because the observed script mainly uses it as a render pipeline flag.",
            evidence: seq![
                Evidence { kind: EvidenceKind::GameSqlite, reference: "reverse/Game.sqlite decompilation search for set_filter wrapper" },
                Evidence { kind: EvidenceKind::PalSqlite, reference: "PalSpriteSetRenderMode 0x1011B4F8 / Game import thunk 0x4506BE" },
                Evidence { kind: EvidenceKind::RuntimeTrace, reference: "pal-vm dispatch_sprite_ext index 12 pops 2" },
            ],
            implementation_status: ImplStatus::Blocked,
            decompiler_status: ImplStatus::Blocked,
        }
    } else if i == 27 {
        RecordBody {
            name: "sp_set_render_mode",
            game_handler_ea: Some("0x00427530"),
            pal_export_name: None,
            pal_export_ea: None,
            params: seq![
                Param { name: "slot", pop_idx: 0, kind: ParamKind::SpriteSlot, meaning: "script sprite slot" },
                Param { name: "mode", pop_idx: 1, kind: ParamKind::Mode, meaning: "native render mode before +1 adjustment" },
            ],
            return_kind: ReturnKind::Integer,
            side_effects: seq![SideEffect::MutatesSprite],
            purpose: "Set sprite render/blend mode.",
            evidence: seq![
                Evidence { kind: EvidenceKind::GameSqlite, reference: "reverse/Game.sqlite sub_427530 pops slot/mode and calls PalSpriteSetRenderMode(mode+1)" },
            ],
            implementation_status: ImplStatus::Verified,
            decompiler_status: ImplStatus::Verified,
        }
    } else if i == 28 {
        RecordBody {
            name: "sp_set_rect_pos",
            game_handler_ea: Some("0x004283B0"),
            pal_export_name: None,
            pal_export_ea: None,
            params: seq![
                Param { name: "slot", pop_idx: 0, kind: ParamKind::SpriteSlot, meaning: "" },
                Param { name: "cell_x", pop_idx: 1, kind: ParamKind::Integer, meaning: "" },
                Param { name: "cell_y", pop_idx: 2, kind: ParamKind::Integer, meaning: "" },
            ],
            return_kind: ReturnKind::Integer,
            side_effects: seq![SideEffect::MutatesSprite],
            purpose: "Set the active sprite cell/rect position.",
            evidence: seq![
                Evidence { kind: EvidenceKind::GameSqlite, reference: "reverse/Game.sqlite sub_4283B0 pops slot/cell_x/cell_y and calls PalSpriteRectSetPos" },
            ],
            implementation_status: ImplStatus::Verified,
            decompiler_status: ImplStatus::Verified,
        }
    } else if i == 29 {
        RecordBody {
            name: "sp_set_scale",
            game_handler_ea: Some("0x00428000"),
            pal_export_name: Some("PalSpriteSetScale"),
            pal_export_ea: Some("0x10260DF0"),
            params: seq![
                Param { name: "slot", pop_idx: 0, kind: ParamKind::SpriteSlot, meaning: "sprite slot resolved through sub_449120" },
                Param { name: "scale", pop_idx: 1, kind: ParamKind::Integer, meaning: "raw percent; native wrapper stores scale / 100.0" },
            ],
            return_kind: ReturnKind::Integer,
            side_effects: seq![SideEffect::MutatesSprite],
            purpose: "Set the sprite scale lane; native handler does not recompute x/y placement.",
            evidence: seq![
                Evidence { kind: EvidenceKind::GameSqlite, reference: "reverse/Game.sqlite sub_428000 pops slot,scale and stores scale/100.0 into wrapper+84" },
                Evidence { kind: EvidenceKind::PalSqlite, reference: "reverse/PAL.sqlite PalSpriteSetScale_0 writes PalSprite+112 and returns 1" },
            ],
            implementation_status: ImplStatus::Verified,
            decompiler_status: ImplStatus::Verified,
        }
    } else if i == 30 {
        RecordBody {
            name: "sp_set_rotate",
            game_handler_ea: Some("0x00427E90"),
            pal_export_name: None,
            pal_export_ea: None,
            params: seq![
                Param { name: "slot", pop_idx: 0, kind: ParamKind::SpriteSlot, meaning: "" },
                Param { name: "x", pop_idx: 1, kind: ParamKind::Integer, meaning: "" },
                Param { name: "y", pop_idx: 2, kind: ParamKind::Integer, meaning: "" },
                Param { name: "z", pop_idx: 3, kind: ParamKind::Integer, meaning: "" },
            ],
            return_kind: ReturnKind::Integer,
            side_effects: seq![SideEffect::MutatesSprite],
            purpose: "Set sprite x/y/z rotation lanes.",
            evidence: seq![
                Evidence { kind: EvidenceKind::GameSqlite, reference: "reverse/Game.sqlite sub_427E90 pops slot/x/y/z and writes rotation fields" },
            ],
            implementation_status: ImplStatus::Verified,
            decompiler_status: ImplStatus::Verified,
        }
    } else if i == 31 {
        RecordBody {
            name: "face_init",
            game_handler_ea: Some("0x004273C0"),
            pal_export_name: None,
            pal_export_ea: None,
            params: seq![
                Param { name: "face_id", pop_idx: 0, kind: ParamKind::Integer, meaning: "face table index" },
                Param { name: "sprite_slot", pop_idx: 1, kind: ParamKind::SpriteSlot, meaning: "script sprite slot used for this face part" },
                Param { name: "center_x", pop_idx: 2, kind: ParamKind::Coordinate, meaning: "face anchor x or -1" },
                Param { name: "center_y", pop_idx: 3, kind: ParamKind::Coordinate, meaning: "face anchor y or -1" },
                Param { name: "priority_lane", pop_idx: 4, kind: ParamKind::Integer, meaning: "native priority lane stored as -134*lane" },
            ],
            return_kind: ReturnKind::Integer,
            side_effects: seq![SideEffect::MutatesSprite],
            purpose: "Initialize a face/part slot mapping and anchor table entry.",
            evidence: seq![
                Evidence { kind: EvidenceKind::GameSqlite, reference: "reverse/Game.sqlite sub_4273C0 pops face_id/sprite_slot/center_x/center_y/priority_lane, writes ctx+710420..710432, and logs face_init" },
            ],
            implementation_status: ImplStatus::Verified,
            decompiler_status: ImplStatus::Verified,
        }
    } else if i == 32 {
        RecordBody {
            name: "face_set",
            game_handler_ea: Some("0x00426E50"),
            pal_export_name: None,
            pal_export_ea: None,
            params: seq![
                Param { name: "resource", pop_idx: 0, kind: ParamKind::ResourceStringFromFileDat, meaning: "PGD/part resource or 0x0fffffff clear sentinel" },
                Param { name: "face_id", pop_idx: 1, kind: ParamKind::Integer, meaning: "face table index" },
                Param { name: "dx", pop_idx: 2, kind: ParamKind::Coordinate, meaning: "x offset from anchor/default" },
                Param { name: "dy", pop_idx: 3, kind: ParamKind::Coordinate, meaning: "y offset from anchor/default" },
            ],
            return_kind: ReturnKind::Integer,
            side_effects: seq![SideEffect::MutatesSprite, SideEffect::ReadsFile],
            purpose: "Load or clear a face/standing-picture part through the face table.",
            evidence: seq![
                Evidence { kind: EvidenceKind::GameSqlite, reference: "reverse/Game.sqlite sub_426E50 pops resource/face_id/dx/dy, resolves ctx+710420 face table, releases old sprite, loads resource, computes position, and logs face_set" },
            ],
            implementation_status: ImplStatus::Verified,
            decompiler_status: ImplStatus::Verified,
        }
    } else if i == 33 {
        RecordBody {
            name: "sp_get_color",
            game_handler_ea: Some("0x00427A20"),
            pal_export_name: None,
            pal_export_ea: None,
            params: seq![
                Param { name: "slot", pop_idx: 0, kind: ParamKind::SpriteSlot, meaning: "" },
            ],
            return_kind: ReturnKind::Integer,
            side_effects: seq![SideEffect::WritesVmMemory],
            purpose: "Return a sprite's RGB color, or -1 when no image exists.",
            evidence: seq![
                Evidence { kind: EvidenceKind::GameSqlite, reference: "reverse/Game.sqlite sub_427A20 pops slot and writes wrapper color & 0xFFFFFF to return slot" },
            ],
            implementation_status: ImplStatus::Verified,
            decompiler_status: ImplStatus::Verified,
        }
    } else if i == 34 {
        RecordBody {
            name: "sptext",
            game_handler_ea: None,
            pal_export_name: None,
            pal_export_ea: None,
            params: seq![
                Param { name: "slot", pop_idx: 0, kind: ParamKind::SpriteSlot, meaning: "" },
                Param { name: "text_id", pop_idx: 1, kind: ParamKind::TextId, meaning: "" },
                Param { name: "x", pop_idx: 2, kind: ParamKind::CoordinateX, meaning: "" },
                Param { name: "y", pop_idx: 3, kind: ParamKind::CoordinateY, meaning: "" },
                Param { name: "mode", pop_idx: 4, kind: ParamKind::Mode, meaning: "" },
            ],
            return_kind: ReturnKind::Void,
            side_effects: seq![SideEffect::CreatesSprite, SideEffect::ChangesTextState],
            purpose: "Create a transparent text sprite through the PAL font/text surface path.",
            evidence: seq![
                Evidence { kind: EvidenceKind::Writeup, reference: "docs/writeup.md AdvCommandSpText" },
                Evidence { kind: EvidenceKind::RuntimeTrace, reference: "AdvCommandSpText 5-arg path" },
            ],
            implementation_status: ImplStatus::Blocked,
            decompiler_status: ImplStatus::Blocked,
        }
    } else {
        RecordBody {
            name: "face_cls",
            game_handler_ea: Some("0x00426DB0"),
            pal_export_name: None,
            pal_export_ea: None,
            params: seq![
                Param { name: "face_id", pop_idx: 0, kind: ParamKind::Integer, meaning: "face table index" },
            ],
            return_kind: ReturnKind::Integer,
            side_effects: seq![SideEffect::MutatesSprite],
            purpose: "Release the sprite currently mapped to a face table entry.",
            evidence: seq![
                Evidence { kind: EvidenceKind::GameSqlite, reference: "reverse/Game.sqlite sub_426DB0 pops face_id, reads ctx+710420[face_id], calls sub_4232E0 on that sprite wrapper, and logs face_cls" },
            ],
            implementation_status: ImplStatus::Verified,
            decompiler_status: ImplStatus::Verified,
        }
    }
}

pub open spec fn body_block_3(i: int) -> RecordBody {
    if i == 36 {
        RecordBody {
            name: "sp_set_rect",
            game_handler_ea: Some("0x004284D0"),
            pal_export_name: None,
            pal_export_ea: None,
            params: seq![
                Param { name: "slot", pop_idx: 0, kind: ParamKind::SpriteSlot, meaning: "" },
                Param { name: "left", pop_idx: 1, kind: ParamKind::CoordinateX, meaning: "" },
                Param { name: "top", pop_idx: 2, kind: ParamKind::CoordinateY, meaning: "" },
                Param { name: "right", pop_idx: 3, kind: ParamKind::CoordinateX, meaning: "" },
                Param { name: "bottom", pop_idx: 4, kind: ParamKind::CoordinateY, meaning: "" },
            ],
            return_kind: ReturnKind::Integer,
            side_effects: seq![SideEffect::MutatesSprite],
            purpose: "Set a sprite source rectangle.",
            evidence: seq![
                Evidence { kind: EvidenceKind::GameSqlite, reference: "reverse/Game.sqlite sub_4284D0 pops slot/left/top/right/bottom and writes rect fields" },
            ],
            implementation_status: ImplStatus::Verified,
            decompiler_status: ImplStatus::Verified,
        }
    } else if i == 37 {
        RecordBody {
            name: "sp_set_pos_move",
            game_handler_ea: None,
            pal_export_name: None,
            pal_export_ea: None,
            params: seq![
                Param { name: "slot", pop_idx: 0, kind: ParamKind::SpriteSlot, meaning: "" },
                Param { name: "dx", pop_idx: 1, kind: ParamKind::CoordinateX, meaning: "" },
                Param { name: "dy", pop_idx: 2, kind: ParamKind::CoordinateY, meaning: "" },
                Param { name: "dz", pop_idx: 3, kind: ParamKind::CoordinateZ, meaning: "" },
            ],
            return_kind: ReturnKind::Void,
            side_effects: seq![SideEffect::MutatesSprite, SideEffect::CreatesTask],
            purpose: "Move or tween a sprite by a relative delta.",
            evidence: seq![
                Evidence { kind: EvidenceKind::Writeup, reference: "reverse/STRUCTS_RE.md VmExtcall_SpSetPosMove adds delta fields" },
                Evidence { kind: EvidenceKind::Writeup, reference: "docs/writeup.md 24.13" },
            ],
            implementation_status: ImplStatus::Blocked,
            decompiler_status: ImplStatus::Blocked,
        }
    } else if i == 38 {
        RecordBody {
            name: "sp_get_alpha",
            game_handler_ea: Some("0x00427AE0"),
            pal_export_name: None,
            pal_export_ea: None,
            params: seq![
                Param { name: "slot", pop_idx: 0, kind: ParamKind::SpriteSlot, meaning: "" },
            ],
            return_kind: ReturnKind::Integer,
            side_effects: seq![SideEffect::WritesVmMemory],
            purpose: "Return a sprite alpha value, or -1 when no image exists.",
            evidence: seq![
                Evidence { kind: EvidenceKind::GameSqlite, reference: "reverse/Game.sqlite sub_427AE0 pops slot and writes wrapper alpha byte to return slot" },
            ],
            implementation_status: ImplStatus::Verified,
            decompiler_status: ImplStatus::Verified,
        }
    } else if i == 39 {
        RecordBody {
            name: "sp_get_rotate",
            game_handler_ea: Some("0x00427810"),
            pal_export_name: None,
            pal_export_ea: None,
            params: seq![
                Param { name: "slot", pop_idx: 0, kind: ParamKind::SpriteSlot, meaning: "sprite slot" },
                Param { name: "axis", pop_idx: 1, kind: ParamKind::Mode, meaning: "0=x, 1=y, 2=z; other returns slot in native" },
            ],
            return_kind: ReturnKind::Integer,
            side_effects: seq![SideEffect::WritesVmMemory],
            purpose: "Return one sprite rotation axis.",
            evidence: seq![
                Evidence { kind: EvidenceKind::GameSqlite, reference: "reverse/Game.sqlite sub_427810 pops slot/axis and returns x/y/z rotation lane; debug string says sp_get_rotate" },
            ],
            implementation_status: ImplStatus::Verified,
            decompiler_status: ImplStatus::Verified,
        }
    } else if i == 40 {
        RecordBody {
            name: "sp_get_pos_to_mem",
            game_handler_ea: Some("0x00427D10"),
            pal_export_name: None,
            pal_export_ea: None,
            params: seq![
                Param { name: "slot", pop_idx: 0, kind: ParamKind::SpriteSlot, meaning: "script sprite slot" },
                Param { name: "dst_x", pop_idx: 1, kind: ParamKind::BufferPointer, meaning: "Mem.dat destination for x or -1" },
                Param { name: "dst_y", pop_idx: 2, kind: ParamKind::BufferPointer, meaning: "Mem.dat destination for y or -1" },
                Param { name: "dst_z", pop_idx: 3, kind: ParamKind::BufferPointer, meaning: "Mem.dat destination for z or -1" },
            ],
            return_kind: ReturnKind::Integer,
            side_effects: seq![SideEffect::WritesVmMemory],
            purpose: "Write sprite x/y/z position into Mem.dat destinations.",
            evidence: seq![
                Evidence { kind: EvidenceKind::GameSqlite, reference: "reverse/Game.sqlite sub_427D10 pops slot/dst_x/dst_y/dst_z and writes composite position to Mem.dat when dst != -1" },
            ],
            implementation_status: ImplStatus::Verified,
            decompiler_status: ImplStatus::Verified,
        }
    } else if i == 41 {
        RecordBody {
            name: "sp_get_width",
            game_handler_ea: None,
            pal_export_name: Some("PalSpriteGetWidth"),
            pal_export_ea: Some("0x1011EB2B"),
            params: seq![
                Param { name: "slot", pop_idx: 0, kind: ParamKind::SpriteSlot, meaning: "script sprite slot" },
            ],
            return_kind: ReturnKind::Integer,
            side_effects: seq![SideEffect::WritesVmMemory],
            purpose: "Return PAL logical/cell sprite width.",
            evidence: seq![
                Evidence { kind: EvidenceKind::PalSqlite, reference: "reverse/PAL.sqlite PalSpriteGetWidth 0x1011EB2B -> PalSpriteGetWidth_0 returns sprite+0x5C" },
                Evidence { kind: EvidenceKind::RuntimeTrace, reference: "pal-vm dispatch_sprite_ext index 29 pops slot and returns SpriteSystem::get_width" },
            ],
            implementation_status: ImplStatus::Verified,
            decompiler_status: ImplStatus::Verified,
        }
    } else if i == 42 {
        RecordBody {
            name: "sp_get_height",
            game_handler_ea: None,
            pal_export_name: Some("PalSpriteGetHeight"),
            pal_export_ea: Some("0x1011E46E"),
            params: seq![
                Param { name: "slot", pop_idx: 0, kind: ParamKind::SpriteSlot, meaning: "script sprite slot" },
            ],
            return_kind: ReturnKind::Integer,
            side_effects: seq![SideEffect::WritesVmMemory],
            purpose: "Return PAL logical/cell sprite height.",
            evidence: seq![
                Evidence { kind: EvidenceKind::PalSqlite, reference: "reverse/PAL.sqlite PalSpriteGetHeight 0x1011E46E -> PalSpriteGetHeight_0 returns sprite+0x60" },
                Evidence { kind: EvidenceKind::RuntimeTrace, reference: "pal-vm dispatch_sprite_ext index 30 pops slot and returns SpriteSystem::get_height" },
            ],
            implementation_status: ImplStatus::Verified,
            decompiler_status: ImplStatus::Verified,
        }
    } else if i == 43 {
        RecordBody {
            name: "sp_set_anim2",
            game_handler_ea: Some("0x004266C0"),
            pal_export_name: None,
            pal_export_ea: None,
            params: seq![
                Param { name: "slot", pop_idx: 0, kind: ParamKind::SpriteSlot, meaning: "" },
                Param { name: "arg1", pop_idx: 1, kind: ParamKind::Integer, meaning: "" },
                Param { name: "arg2", pop_idx: 2, kind: ParamKind::Integer, meaning: "" },
                Param { name: "arg3", pop_idx: 3, kind: ParamKind::Integer, meaning: "" },
                Param { name: "arg4", pop_idx: 4, kind: ParamKind::Integer, meaning: "" },
                Param { name: "resource", pop_idx: 5, kind: ParamKind::ResourceStringFromFileDat, meaning: "" },
                Param { name: "arg6", pop_idx: 6, kind: ParamKind::Integer, meaning: "" },
                Param { name: "arg7", pop_idx: 7, kind: ParamKind::Integer, meaning: "" },
                Param { name: "lane", pop_idx: 8, kind: ParamKind::Integer, meaning: "" },
            ],
            return_kind: ReturnKind::Integer,
            side_effects: seq![SideEffect::MutatesSprite, SideEffect::ReadsFile],
            purpose: "Configure native sprite mix/animation lane with nine parameters.",
            evidence: seq![
                Evidence { kind: EvidenceKind::GameSqlite, reference: "reverse/Game.sqlite sub_4266C0 pops nine values and writes sprite lane fields before sub_422F10" },
            ],
            implementation_status: ImplStatus::Blocked,
            decompiler_status: ImplStatus::Verified,
        }
    } else if i == 44 {
        RecordBody {
            name: "sp_set_anim_param",
            game_handler_ea: Some("0x00425870"),
            pal_export_name: None,
            pal_export_ea: None,
            params: seq![
                Param { name: "slot", pop_idx: 0, kind: ParamKind::SpriteSlot, meaning: "" },
                Param { name: "value", pop_idx: 1, kind: ParamKind::Integer, meaning: "" },
            ],
            return_kind: ReturnKind::Integer,
            side_effects: seq![SideEffect::MutatesSprite],
            purpose: "Store native sprite parameter at ctx+666396.",
            evidence: seq![
                Evidence { kind: EvidenceKind::GameSqlite, reference: "reverse/Game.sqlite sub_425870 pops slot/value and stores value at ctx+666396 for that slot" },
            ],
            implementation_status: ImplStatus::Verified,
            decompiler_status: ImplStatus::Verified,
        }
    } else if i == 45 {
        RecordBody {
            name: "sp_get_anim_param",
            game_handler_ea: Some("0x004257F0"),
            pal_export_name: None,
            pal_export_ea: None,
            params: seq![
                Param { name: "slot", pop_idx: 0, kind: ParamKind::SpriteSlot, meaning: "" },
            ],
            return_kind: ReturnKind::Integer,
            side_effects: seq![SideEffect::WritesVmMemory],
            purpose: "Return native sprite parameter at ctx+666396.",
            evidence: seq![
                Evidence { kind: EvidenceKind::GameSqlite, reference: "reverse/Game.sqlite sub_4257F0 pops slot and writes ctx+666396 slot value to return" },
            ],
            implementation_status: ImplStatus::Verified,
            decompiler_status: ImplStatus::Verified,
        }
    } else if i == 46 {
        RecordBody {
            name: "sp_get_scale",
            game_handler_ea: Some("0x00427940"),
            pal_export_name: None,
            pal_export_ea: None,
            params: seq![
                Param { name: "slot", pop_idx: 0, kind: ParamKind::SpriteSlot, meaning: "" },
            ],
            return_kind: ReturnKind::Integer,
            side_effects: seq![SideEffect::WritesVmMemory],
            purpose: "Return a sprite scale as a PAL percent value, or -1 when no image exists.",
            evidence: seq![
                Evidence { kind: EvidenceKind::GameSqlite, reference: "reverse/Game.sqlite sub_427940 pops slot and writes summed native scale lanes * 100 to return slot" },
            ],
            implementation_status: ImplStatus::Verified,
            decompiler_status: ImplStatus::Verified,
        }
    } else {
        RecordBody {
            name: "sp_set_color",
            game_handler_ea: Some("0x00428120"),
            pal_export_name: None,
            pal_export_ea: None,
            params: seq![
                Param { name: "slot", pop_idx: 0, kind: ParamKind::SpriteSlot, meaning: "" },
                Param { name: "rgb", pop_idx: 1, kind: ParamKind::Color, meaning: "" },
            ],
            return_kind: ReturnKind::Integer,
            side_effects: seq![SideEffect::MutatesSprite],
            purpose: "Set a sprite RGB color while preserving alpha.",
            evidence: seq![
                Evidence { kind: EvidenceKind::GameSqlite, reference: "reverse/Game.sqlite sub_428120 pops slot/rgb and writes low 24 bits of the color field" },
            ],
            implementation_status: ImplStatus::Verified,
            decompiler_status: ImplStatus::Verified,
        }
    }
}

pub open spec fn body_block_4(i: int) -> RecordBody {
    if i == 48 {
        RecordBody {
            name: "sp_set_shake",
            game_handler_ea: None,
            pal_export_name: None,
            pal_export_ea: None,
            params: seq![
                Param { name: "slot", pop_idx: 0, kind: ParamKind::SpriteSlot, meaning: "" },
                Param { name: "amplitude", pop_idx: 1, kind: ParamKind::Integer, meaning: "" },
                Param { name: "count", pop_idx: 2, kind: ParamKind::Integer, meaning: "" },
                Param { name: "axis", pop_idx: 3, kind: ParamKind::Mode, meaning: "" },
            ],
            return_kind: ReturnKind::Void,
            side_effects: seq![SideEffect::MutatesSprite, SideEffect::CreatesTask],
            purpose: "Apply PAL-style shake animation to a sprite slot; VM currently models it as alternating offset motion.",
            evidence: seq![
                Evidence { kind: EvidenceKind::GameSqlite, reference: "reverse/Game.sqlite sprite handler path around sub_425640/sub_4275F0 stack pops" },
                Evidence { kind: EvidenceKind::RuntimeTrace, reference: "pal-vm ext_sp_set_shake pops 4; operand_fixture slot/amplitude/count/axis" },
                Evidence { kind: EvidenceKind::PalSqlite, reference: "PalSpriteSetOffsetPos 0x1011C65A / PalSpriteMoveOffsetPos 0x1011E022" },
            ],
            implementation_status: ImplStatus::Blocked,
            decompiler_status: ImplStatus::Blocked,
        }
    } else if i == 49 {
        RecordBody {
            name: "sp_set_anim",
            game_handler_ea: None,
            pal_export_name: None,
            pal_export_ea: None,
            params: seq![
                Param { name: "slot", pop_idx: 0, kind: ParamKind::SpriteSlot, meaning: "" },
                Param { name: "name", pop_idx: 1, kind: ParamKind::ResourceStringFromFileDat, meaning: "" },
                Param { name: "flag", pop_idx: 2, kind: ParamKind::Flag, meaning: "" },
            ],
            return_kind: ReturnKind::Void,
            side_effects: seq![SideEffect::MutatesSprite, SideEffect::CreatesTask],
            purpose: "Attach sheet or named ANI animation to a sprite slot.",
            evidence: seq![
                Evidence { kind: EvidenceKind::Writeup, reference: "docs/writeup.md 24.13" },
            ],
            implementation_status: ImplStatus::Blocked,
            decompiler_status: ImplStatus::Blocked,
        }
    } else if i == 50 {
        RecordBody {
            name: "sp_set_vis_clip",
            game_handler_ea: Some("0x00424FD0"),
            pal_export_name: None,
            pal_export_ea: None,
            params: seq![
                Param { name: "slot", pop_idx: 0, kind: ParamKind::SpriteSlot, meaning: "" },
            ],
            return_kind: ReturnKind::Integer,
            side_effects: seq![SideEffect::MutatesSprite],
            purpose: "Enable the native sprite vis-clip bit.",
            evidence: seq![
                Evidence { kind: EvidenceKind::GameSqlite, reference: "reverse/Game.sqlite sub_424FD0 pops slot and ORs wrapper flag 0x1000000" },
            ],
            implementation_status: ImplStatus::Verified,
            decompiler_status: ImplStatus::Verified,
        }
    } else if i == 51 {
        RecordBody {
            name: "sp_show",
            game_handler_ea: None,
            pal_export_name: None,
            pal_export_ea: None,
            params: seq![
                Param { name: "slot", pop_idx: 0, kind: ParamKind::SpriteSlot, meaning: "" },
            ],
            return_kind: ReturnKind::Void,
            side_effects: seq![SideEffect::MutatesSprite],
            purpose: "Show sprite; VM calls PalSpriteViewCtrl(slot, true) after popping only the slot.",
            evidence: seq![
                Evidence { kind: EvidenceKind::GameSqlite, reference: "reverse/Game.sqlite sprite view-control handler" },
                Evidence { kind: EvidenceKind::PalSqlite, reference: "PalSpriteViewCtrl 0x1011B859 / Game import thunk 0x4503BE" },
                Evidence { kind: EvidenceKind::RuntimeTrace, reference: "pal-vm ext_sp_view_ctrl pops 1 (slot only)" },
            ],
            implementation_status: ImplStatus::Blocked,
            decompiler_status: ImplStatus::Blocked,
        }
    } else if i == 52 {
        RecordBody {
            name: "sp_hide",
            game_handler_ea: None,
            pal_export_name: None,
            pal_export_ea: None,
            params: seq![
                Param { name: "slot", pop_idx: 0, kind: ParamKind::SpriteSlot, meaning: "" },
            ],
            return_kind: ReturnKind::Void,
            side_effects: seq![SideEffect::MutatesSprite],
            purpose: "Hide sprite; VM calls PalSpriteViewCtrl(slot, false) after popping only the slot.",
            evidence: seq![
                Evidence { kind: EvidenceKind::GameSqlite, reference: "reverse/Game.sqlite sprite view-control handler" },
                Evidence { kind: EvidenceKind::PalSqlite, reference: "PalSpriteViewCtrl 0x1011B859 / Game import thunk 0x4503BE" },
                Evidence { kind: EvidenceKind::RuntimeTrace, reference: "pal-vm ext_sp_view_ctrl pops 1 (slot only)" },
            ],
            implementation_status: ImplStatus::Blocked,
            decompiler_status: ImplStatus::Blocked,
        }
    } else if i == 53 {
        RecordBody {
            name: "is_sp",
            game_handler_ea: Some("0x00424CE0"),
            pal_export_name: None,
            pal_export_ea: None,
            params: seq![
                Param { name: "slot", pop_idx: 0, kind: ParamKind::SpriteSlot, meaning: "" },
            ],
            return_kind: ReturnKind::Bool,
            side_effects: seq![SideEffect::WritesVmMemory],
            purpose: "Test whether a sprite slot currently exists.",
            evidence: seq![
                Evidence { kind: EvidenceKind::GameSqlite, reference: "reverse/Game.sqlite sub_424CE0 pops slot and returns whether script/motion sprite storage is non-null" },
            ],
            implementation_status: ImplStatus::Verified,
            decompiler_status: ImplStatus::Verified,
        }
    } else if i == 54 {
        RecordBody {
            name: "sp_set_child",
            game_handler_ea: Some("0x00424A20"),
            pal_export_name: None,
            pal_export_ea: None,
            params: seq![
                Param { name: "parent_slot", pop_idx: 0, kind: ParamKind::SpriteSlot, meaning: "" },
                Param { name: "child_slot", pop_idx: 1, kind: ParamKind::SpriteSlot, meaning: "" },
                Param { name: "offset_x", pop_idx: 2, kind: ParamKind::CoordinateX, meaning: "" },
                Param { name: "offset_y", pop_idx: 3, kind: ParamKind::CoordinateY, meaning: "" },
                Param { name: "child_index", pop_idx: 4, kind: ParamKind::Integer, meaning: "" },
            ],
            return_kind: ReturnKind::Integer,
            side_effects: seq![SideEffect::MutatesSprite],
            purpose: "Attach a child sprite lane to a parent sprite.",
            evidence: seq![
                Evidence { kind: EvidenceKind::GameSqlite, reference: "reverse/Game.sqlite sub_424A20 pops parent_slot/child_slot/offset_x/offset_y/child_index and writes child-lane fields" },
            ],
            implementation_status: ImplStatus::Blocked,
            decompiler_status: ImplStatus::Verified,
        }
    } else if i == 55 {
        RecordBody {
            name: "sp_set_transition",
            game_handler_ea: Some("0x00428F10"),
            pal_export_name: Some("PalSpriteSetTransition"),
            pal_export_ea: Some("0x1011E851"),
            params: seq![
                Param { name: "slot", pop_idx: 1, kind: ParamKind::SpriteSlot, meaning: "sprite slot whose image is replaced" },
                Param { name: "name", pop_idx: 0, kind: ParamKind::ResourceStringFromFileDat, meaning: "new File.dat image resource" },
                Param { name: "transition_id", pop_idx: 2, kind: ParamKind::Integer, meaning: "native transition table id" },
                Param { name: "duration_ms", pop_idx: 3, kind: ParamKind::DurationMs, meaning: "transition duration" },
            ],
            return_kind: ReturnKind::Integer,
            side_effects: seq![SideEffect::CreatesSprite, SideEffect::MutatesSprite, SideEffect::CreatesTask],
            purpose: "Replace a sprite image and queue a PAL transition from the old image to the new image.",
            evidence: seq![
                Evidence { kind: EvidenceKind::GameSqlite, reference: "reverse/Game.sqlite sub_428F10 pops name/slot/transition/duration, saves old sprite pointer, loads new image, and queues 0x30032 render action" },
                Evidence { kind: EvidenceKind::PalSqlite, reference: "PalSpriteSetTransition 0x1011E851 is the PAL transition primitive" },
            ],
            implementation_status: ImplStatus::Blocked,
            decompiler_status: ImplStatus::Verified,
        }
    } else if i == 56 {
        RecordBody {
            name: "sp_copy_image",
            game_handler_ea: Some("0x00424940"),
            pal_export_name: None,
            pal_export_ea: None,
            params: seq![
                Param { name: "slot", pop_idx: 0, kind: ParamKind::SpriteSlot, meaning: "sprite slot whose current image is moved to the transition source lane" },
            ],
            return_kind: ReturnKind::Integer,
            side_effects: seq![SideEffect::MutatesSprite],
            purpose: "Move the current sprite image into the wrapper's transition source/copy lane.",
            evidence: seq![
                Evidence { kind: EvidenceKind::GameSqlite, reference: "reverse/Game.sqlite sub_424940 pops slot, cancels active transition, stores current sprite pointer into wrapper old-image lane, and zeros the live pointer" },
            ],
            implementation_status: ImplStatus::Blocked,
            decompiler_status: ImplStatus::Verified,
        }
    } else if i == 57 {
        RecordBody {
            name: "sp_transition",
            game_handler_ea: Some("0x00424790"),
            pal_export_name: Some("PalSpriteSetTransition"),
            pal_export_ea: Some("0x1011E851"),
            params: seq![
                Param { name: "slot", pop_idx: 0, kind: ParamKind::SpriteSlot, meaning: "sprite slot to transition" },
                Param { name: "transition_id", pop_idx: 1, kind: ParamKind::Integer, meaning: "native transition table id" },
                Param { name: "duration_ms", pop_idx: 2, kind: ParamKind::DurationMs, meaning: "transition duration" },
            ],
            return_kind: ReturnKind::Integer,
            side_effects: seq![SideEffect::MutatesSprite, SideEffect::CreatesTask],
            purpose: "Start a PAL transition for the current sprite, using any saved source image lane.",
            evidence: seq![
                Evidence { kind: EvidenceKind::GameSqlite, reference: "reverse/Game.sqlite sub_424790 pops slot/transition/duration, creates transition handle, and queues 0x30032 or skip action" },
                Evidence { kind: EvidenceKind::PalSqlite, reference: "PalSpriteSetTransition 0x1011E851 and PalSpriteCancelTransition 0x1011B309" },
            ],
            implementation_status: ImplStatus::Blocked,
            decompiler_status: ImplStatus::Verified,
        }
    } else if i == 58 {
        RecordBody {
            name: "set_aspect_position_type",
            game_handler_ea: Some("0x004246C0"),
            pal_export_name: Some("PalSpriteConvertAspectPosition"),
            pal_export_ea: Some("0x101215A1"),
            params: seq![
                Param { name: "slot", pop_idx: 0, kind: ParamKind::SpriteSlot, meaning: "sprite slot looked up with sub_449120" },
                Param { name: "type_index", pop_idx: 1, kind: ParamKind::Mode, meaning: "index into native table xmmword_4A3FC0 = [0,1,2,3]" },
            ],
            return_kind: ReturnKind::Integer,
            side_effects: seq![SideEffect::MutatesSprite],
            purpose: "Store PAL aspect-position conversion type for a sprite slot.",
            evidence: seq![
                Evidence { kind: EvidenceKind::GameSqlite, reference: "reverse/Game.sqlite sub_4246C0 pops slot,type_index and writes wrapper field 26" },
                Evidence { kind: EvidenceKind::PalSqlite, reference: "reverse/PAL.sqlite PalSpriteConvertAspectPosition_0 consumes the stored type" },
            ],
            implementation_status: ImplStatus::Partial,
            decompiler_status: ImplStatus::Verified,
        }
    } else {
        RecordBody {
            name: "get_backbuffer",
            game_handler_ea: Some("0x00424620"),
            pal_export_name: None,
            pal_export_ea: None,
            params: seq![
                Param { name: "slot", pop_idx: 0, kind: ParamKind::SpriteSlot, meaning: "" },
            ],
            return_kind: ReturnKind::Integer,
            side_effects: seq![SideEffect::MutatesSprite],
            purpose: "Copy a sprite image into PAL's active backbuffer.",
            evidence: seq![
                Evidence { kind: EvidenceKind::GameSqlite, reference: "reverse/Game.sqlite sub_424620 pops slot and calls PalSpriteBackBafferCopy" },
            ],
            implementation_status: ImplStatus::Blocked,
            decompiler_status: ImplStatus::Verified,
        }
    }
}

pub open spec fn body_block_5(i: int) -> RecordBody {
    if i == 60 {
        RecordBody {
            name: "sp_set_mask",
            game_handler_ea: Some("0x00425EF0"),
            pal_export_name: None,
            pal_export_ea: None,
            params: seq![
                Param { name: "slot", pop_idx: 0, kind: ParamKind::SpriteSlot, meaning: "" },
                Param { name: "dst_x", pop_idx: 1, kind: ParamKind::CoordinateX, meaning: "" },
                Param { name: "dst_y", pop_idx: 2, kind: ParamKind::CoordinateY, meaning: "" },
                Param { name: "width", pop_idx: 3, kind: ParamKind::Integer, meaning: "" },
                Param { name: "height", pop_idx: 4, kind: ParamKind::Integer, meaning: "" },
                Param { name: "mask_resource", pop_idx: 5, kind: ParamKind::ResourceStringFromFileDat, meaning: "" },
                Param { name: "mask_x", pop_idx: 6, kind: ParamKind::CoordinateX, meaning: "" },
                Param { name: "mask_y", pop_idx: 7, kind: ParamKind::CoordinateY, meaning: "" },
                Param { name: "lane", pop_idx: 8, kind: ParamKind::Integer, meaning: "" },
            ],
            return_kind: ReturnKind::Integer,
            side_effects: seq![SideEffect::MutatesSprite, SideEffect::ReadsFile],
            purpose: "Apply an alpha mask resource to a live sprite surface.",
            evidence: seq![
                Evidence { kind: EvidenceKind::GameSqlite, reference: "reverse/Game.sqlite sub_425EF0 pops slot/dst_x/dst_y/width/height/resource/mask_x/mask_y/lane, writes mask lane fields, and calls sub_422FD0; sub_422FD0 calls PalSpriteMaskAlpha" },
                Evidence { kind: EvidenceKind::PalSqlite, reference: "PAL.dll PalSpriteMaskAlpha is the target alpha-mask primitive" },
            ],
            implementation_status: ImplStatus::Verified,
            decompiler_status: ImplStatus::Verified,
        }
    } else if i == 61 {
        RecordBody {
            name: "sp_set_motion_pos",
            game_handler_ea: Some("0x00426180"),
            pal_export_name: None,
            pal_export_ea: None,
            params: seq![
                Param { name: "slot", pop_idx: 0, kind: ParamKind::SpriteSlot, meaning: "" },
                Param { name: "arg1", pop_idx: 1, kind: ParamKind::Integer, meaning: "" },
                Param { name: "arg2", pop_idx: 2, kind: ParamKind::Integer, meaning: "" },
                Param { name: "arg3", pop_idx: 3, kind: ParamKind::Integer, meaning: "" },
                Param { name: "arg4", pop_idx: 4, kind: ParamKind::Integer, meaning: "" },
                Param { name: "resource", pop_idx: 5, kind: ParamKind::ResourceStringFromFileDat, meaning: "" },
                Param { name: "arg6", pop_idx: 6, kind: ParamKind::Integer, meaning: "" },
                Param { name: "arg7", pop_idx: 7, kind: ParamKind::Integer, meaning: "" },
                Param { name: "lane", pop_idx: 8, kind: ParamKind::Integer, meaning: "" },
            ],
            return_kind: ReturnKind::Integer,
            side_effects: seq![SideEffect::MutatesSprite, SideEffect::ReadsFile],
            purpose: "Configure native sprite motion/bitblt lane with nine parameters.",
            evidence: seq![
                Evidence { kind: EvidenceKind::GameSqlite, reference: "reverse/Game.sqlite sub_426180 pops nine values and writes sprite lane fields before sub_422E10" },
            ],
            implementation_status: ImplStatus::Blocked,
            decompiler_status: ImplStatus::Verified,
        }
    } else if i == 62 {
        RecordBody {
            name: "sp_set_anim",
            game_handler_ea: None,
            pal_export_name: None,
            pal_export_ea: None,
            params: seq![
                Param { name: "slot", pop_idx: 0, kind: ParamKind::SpriteSlot, meaning: "" },
                Param { name: "name", pop_idx: 1, kind: ParamKind::ResourceStringFromFileDat, meaning: "" },
                Param { name: "flag", pop_idx: 2, kind: ParamKind::Flag, meaning: "" },
            ],
            return_kind: ReturnKind::Void,
            side_effects: seq![SideEffect::MutatesSprite, SideEffect::CreatesTask],
            purpose: "Alias/wrapper for sprite animation setup.",
            evidence: seq![
                Evidence { kind: EvidenceKind::Writeup, reference: "docs/writeup.md 24.13" },
            ],
            implementation_status: ImplStatus::Blocked,
            decompiler_status: ImplStatus::Blocked,
        }
    } else if i == 63 {
        RecordBody {
            name: "bgm_play",
            game_handler_ea: None,
            pal_export_name: None,
            pal_export_ea: None,
            params: seq![
                Param { name: "slot", pop_idx: 0, kind: ParamKind::SoundSlot, meaning: "" },
                Param { name: "unknown", pop_idx: 1, kind: ParamKind::Unknown, meaning: "" },
                Param { name: "name", pop_idx: 2, kind: ParamKind::ResourceStringFromFileDat, meaning: "" },
                Param { name: "flags", pop_idx: 3, kind: ParamKind::Flag, meaning: "" },
                Param { name: "volume", pop_idx: 4, kind: ParamKind::Volume, meaning: "" },
                Param { name: "unknown2", pop_idx: 5, kind: ParamKind::Unknown, meaning: "" },
                Param { name: "unknown3", pop_idx: 6, kind: ParamKind::Unknown, meaning: "" },
            ],
            return_kind: ReturnKind::Void,
            side_effects: seq![SideEffect::CreatesSound, SideEffect::PlaysSound],
            purpose: "Load/play BGM with slot and volume parameters.",
            evidence: seq![
                Evidence { kind: EvidenceKind::Writeup, reference: "docs/writeup.md audio" },
            ],
            implementation_status: ImplStatus::Blocked,
            decompiler_status: ImplStatus::Blocked,
        }
    } else if i == 64 {
        RecordBody {
            name: "bgm_stop",
            game_handler_ea: None,
            pal_export_name: None,
            pal_export_ea: None,
            params: seq![
                Param { name: "slot", pop_idx: 0, kind: ParamKind::SoundSlot, meaning: "" },
                Param { name: "fade_ms", pop_idx: 1, kind: ParamKind::DurationMs, meaning: "" },
            ],
            return_kind: ReturnKind::Void,
            side_effects: seq![SideEffect::StopsSound],
            purpose: "Stop BGM slot, optionally with fade.",
            evidence: seq![
                Evidence { kind: EvidenceKind::Writeup, reference: "docs/writeup.md audio" },
            ],
            implementation_status: ImplStatus::Blocked,
            decompiler_status: ImplStatus::Blocked,
        }
    } else if i == 65 {
        RecordBody {
            name: "bgm_set_volume",
            game_handler_ea: None,
            pal_export_name: None,
            pal_export_ea: None,
            params: seq![
                Param { name: "volume", pop_idx: 0, kind: ParamKind::Volume, meaning: "" },
            ],
            return_kind: ReturnKind::Void,
            side_effects: seq![SideEffect::PlaysSound],
            purpose: "Set global BGM volume; runtime pops 1 arg (volume only, no per-slot).",
            evidence: seq![
                Evidence { kind: EvidenceKind::Writeup, reference: "docs/writeup.md audio" },
                Evidence { kind: EvidenceKind::RuntimeTrace, reference: "pal-vm ext_bgm_set_volume pops 1" },
            ],
            implementation_status: ImplStatus::Blocked,
            decompiler_status: ImplStatus::Blocked,
        }
    } else if i == 66 {
        RecordBody {
            name: "bgm_get_volume",
            game_handler_ea: None,
            pal_export_name: None,
            pal_export_ea: None,
            params: seq![
                Param { name: "slot", pop_idx: 0, kind: ParamKind::SoundSlot, meaning: "" },
            ],
            return_kind: ReturnKind::Integer,
            side_effects: seq![],
            purpose: "Read BGM volume state.",
            evidence: seq![
                Evidence { kind: EvidenceKind::Writeup, reference: "docs/writeup.md audio" },
            ],
            implementation_status: ImplStatus::Blocked,
            decompiler_status: ImplStatus::Blocked,
        }
    } else if i == 67 {
        RecordBody {
            name: "bgm_set_auto_volume",
            game_handler_ea: None,
            pal_export_name: None,
            pal_export_ea: None,
            params: seq![
                Param { name: "enabled", pop_idx: 0, kind: ParamKind::Flag, meaning: "" },
                Param { name: "volume", pop_idx: 1, kind: ParamKind::Volume, meaning: "" },
            ],
            return_kind: ReturnKind::Void,
            side_effects: seq![SideEffect::PlaysSound],
            purpose: "Configure BGM automatic volume/ducking state.",
            evidence: seq![
                Evidence { kind: EvidenceKind::GameSqlite, reference: "reverse/Game.sqlite sub_40BFB0" },
            ],
            implementation_status: ImplStatus::Blocked,
            decompiler_status: ImplStatus::Blocked,
        }
    } else if i == 68 {
        RecordBody {
            name: "bgm_load",
            game_handler_ea: None,
            pal_export_name: None,
            pal_export_ea: None,
            params: seq![
                Param { name: "slot", pop_idx: 0, kind: ParamKind::SoundSlot, meaning: "" },
                Param { name: "name", pop_idx: 1, kind: ParamKind::ResourceStringFromFileDat, meaning: "" },
                Param { name: "unknown", pop_idx: 2, kind: ParamKind::Unknown, meaning: "" },
                Param { name: "unknown2", pop_idx: 3, kind: ParamKind::Unknown, meaning: "" },
                Param { name: "unknown3", pop_idx: 4, kind: ParamKind::Unknown, meaning: "" },
            ],
            return_kind: ReturnKind::Void,
            side_effects: seq![SideEffect::CreatesSound],
            purpose: "Preload BGM resource into a slot.",
            evidence: seq![
                Evidence { kind: EvidenceKind::Writeup, reference: "docs/writeup.md audio" },
            ],
            implementation_status: ImplStatus::Blocked,
            decompiler_status: ImplStatus::Blocked,
        }
    } else if i == 69 {
        RecordBody {
            name: "set_master_volume",
            game_handler_ea: None,
            pal_export_name: None,
            pal_export_ea: None,
            params: seq![
                Param { name: "volume", pop_idx: 0, kind: ParamKind::Volume, meaning: "" },
            ],
            return_kind: ReturnKind::Void,
            side_effects: seq![SideEffect::PlaysSound],
            purpose: "Set primary/master volume percent.",
            evidence: seq![
                Evidence { kind: EvidenceKind::GameSqlite, reference: "reverse/Game.sqlite sub_40BD40" },
            ],
            implementation_status: ImplStatus::Blocked,
            decompiler_status: ImplStatus::Blocked,
        }
    } else if i == 70 {
        RecordBody {
            name: "mute_master_volume",
            game_handler_ea: None,
            pal_export_name: None,
            pal_export_ea: None,
            params: seq![
                Param { name: "muted", pop_idx: 0, kind: ParamKind::Flag, meaning: "" },
            ],
            return_kind: ReturnKind::Void,
            side_effects: seq![SideEffect::PlaysSound],
            purpose: "Mute/unmute primary volume while preserving configured percent.",
            evidence: seq![
                Evidence { kind: EvidenceKind::GameSqlite, reference: "reverse/Game.sqlite sub_40BC70" },
            ],
            implementation_status: ImplStatus::Blocked,
            decompiler_status: ImplStatus::Blocked,
        }
    } else {
        RecordBody {
            name: "bgm_mute",
            game_handler_ea: None,
            pal_export_name: None,
            pal_export_ea: None,
            params: seq![
                Param { name: "muted", pop_idx: 0, kind: ParamKind::Flag, meaning: "" },
            ],
            return_kind: ReturnKind::Void,
            side_effects: seq![SideEffect::PlaysSound],
            purpose: "Mute/unmute BGM group while preserving configured percent.",
            evidence: seq![
                Evidence { kind: EvidenceKind::GameSqlite, reference: "reverse/Game.sqlite sub_40C230" },
            ],
            implementation_status: ImplStatus::Blocked,
            decompiler_status: ImplStatus::Blocked,
        }
    }
}

pub open spec fn body_block_6(i: int) -> RecordBody {
    if i == 72 {
        RecordBody {
            name: "mute_bgm_auto_volume",
            game_handler_ea: None,
            pal_export_name: None,
            pal_export_ea: None,
            params: seq![
                Param { name: "muted", pop_idx: 0, kind: ParamKind::Flag, meaning: "" },
            ],
            return_kind: ReturnKind::Void,
            side_effects: seq![SideEffect::ChangesRunState],
            purpose: "Toggle BGM automatic volume mute latch.",
            evidence: seq![
                Evidence { kind: EvidenceKind::GameSqlite, reference: "reverse/Game.sqlite sub_40C060" },
            ],
            implementation_status: ImplStatus::Blocked,
            decompiler_status: ImplStatus::Blocked,
        }
    } else if i == 73 {
        RecordBody {
            name: "se_play",
            game_handler_ea: None,
            pal_export_name: None,
            pal_export_ea: None,
            params: seq![
                Param { name: "slot", pop_idx: 0, kind: ParamKind::SoundSlot, meaning: "" },
                Param { name: "name", pop_idx: 1, kind: ParamKind::ResourceStringFromFileDat, meaning: "" },
                Param { name: "unknown", pop_idx: 2, kind: ParamKind::Unknown, meaning: "" },
                Param { name: "flags", pop_idx: 3, kind: ParamKind::Flag, meaning: "" },
                Param { name: "volume", pop_idx: 4, kind: ParamKind::Volume, meaning: "" },
            ],
            return_kind: ReturnKind::Void,
            side_effects: seq![SideEffect::CreatesSound, SideEffect::PlaysSound],
            purpose: "Play SE resource.",
            evidence: seq![
                Evidence { kind: EvidenceKind::Writeup, reference: "docs/writeup.md audio" },
            ],
            implementation_status: ImplStatus::Blocked,
            decompiler_status: ImplStatus::Blocked,
        }
    } else if i == 74 {
        RecordBody {
            name: "se_play_ex",
            game_handler_ea: None,
            pal_export_name: None,
            pal_export_ea: None,
            params: seq![
                Param { name: "slot", pop_idx: 0, kind: ParamKind::SoundSlot, meaning: "" },
                Param { name: "name", pop_idx: 1, kind: ParamKind::ResourceStringFromFileDat, meaning: "" },
                Param { name: "unknown", pop_idx: 2, kind: ParamKind::Unknown, meaning: "" },
                Param { name: "flags", pop_idx: 3, kind: ParamKind::Flag, meaning: "" },
                Param { name: "volume", pop_idx: 4, kind: ParamKind::Volume, meaning: "" },
            ],
            return_kind: ReturnKind::Void,
            side_effects: seq![SideEffect::CreatesSound, SideEffect::PlaysSound],
            purpose: "Play SE resource; observed before first text_w.",
            evidence: seq![
                Evidence { kind: EvidenceKind::Writeup, reference: "docs/writeup.md 24.1" },
            ],
            implementation_status: ImplStatus::Blocked,
            decompiler_status: ImplStatus::Blocked,
        }
    } else if i == 75 {
        RecordBody {
            name: "se_load",
            game_handler_ea: None,
            pal_export_name: None,
            pal_export_ea: None,
            params: seq![
                Param { name: "slot", pop_idx: 0, kind: ParamKind::SoundSlot, meaning: "" },
                Param { name: "name", pop_idx: 1, kind: ParamKind::ResourceStringFromFileDat, meaning: "" },
            ],
            return_kind: ReturnKind::Void,
            side_effects: seq![SideEffect::CreatesSound],
            purpose: "Preload SE resource.",
            evidence: seq![
                Evidence { kind: EvidenceKind::Writeup, reference: "docs/writeup.md audio" },
            ],
            implementation_status: ImplStatus::Blocked,
            decompiler_status: ImplStatus::Blocked,
        }
    } else if i == 76 {
        RecordBody {
            name: "se_stop",
            game_handler_ea: None,
            pal_export_name: None,
            pal_export_ea: None,
            params: seq![
                Param { name: "slot", pop_idx: 0, kind: ParamKind::SoundSlot, meaning: "" },
                Param { name: "fade_ms", pop_idx: 1, kind: ParamKind::DurationMs, meaning: "" },
            ],
            return_kind: ReturnKind::Void,
            side_effects: seq![SideEffect::StopsSound],
            purpose: "Stop SE slot.",
            evidence: seq![
                Evidence { kind: EvidenceKind::Writeup, reference: "docs/writeup.md audio" },
            ],
            implementation_status: ImplStatus::Blocked,
            decompiler_status: ImplStatus::Blocked,
        }
    } else if i == 77 {
        RecordBody {
            name: "se_set_volume",
            game_handler_ea: None,
            pal_export_name: None,
            pal_export_ea: None,
            params: seq![
                Param { name: "volume", pop_idx: 0, kind: ParamKind::Volume, meaning: "" },
                Param { name: "slot", pop_idx: 1, kind: ParamKind::SoundSlot, meaning: "" },
            ],
            return_kind: ReturnKind::Void,
            side_effects: seq![SideEffect::PlaysSound],
            purpose: "Set SE lane volume.",
            evidence: seq![
                Evidence { kind: EvidenceKind::GameSqlite, reference: "reverse/Game.sqlite sub_434C50" },
            ],
            implementation_status: ImplStatus::Verified,
            decompiler_status: ImplStatus::Verified,
        }
    } else if i == 78 {
        RecordBody {
            name: "se_get_volume",
            game_handler_ea: None,
            pal_export_name: None,
            pal_export_ea: None,
            params: seq![
                Param { name: "slot", pop_idx: 0, kind: ParamKind::SoundSlot, meaning: "" },
            ],
            return_kind: ReturnKind::Integer,
            side_effects: seq![],
            purpose: "Read SE volume.",
            evidence: seq![
                Evidence { kind: EvidenceKind::Writeup, reference: "docs/writeup.md audio" },
            ],
            implementation_status: ImplStatus::Blocked,
            decompiler_status: ImplStatus::Blocked,
        }
    } else if i == 79 {
        RecordBody {
            name: "se_mute",
            game_handler_ea: None,
            pal_export_name: None,
            pal_export_ea: None,
            params: seq![
                Param { name: "muted", pop_idx: 0, kind: ParamKind::Flag, meaning: "" },
                Param { name: "slot", pop_idx: 1, kind: ParamKind::SoundSlot, meaning: "" },
            ],
            return_kind: ReturnKind::Void,
            side_effects: seq![SideEffect::PlaysSound],
            purpose: "Mute/unmute SE lane while preserving cached SE volume.",
            evidence: seq![
                Evidence { kind: EvidenceKind::GameSqlite, reference: "reverse/Game.sqlite sub_434D00" },
            ],
            implementation_status: ImplStatus::Verified,
            decompiler_status: ImplStatus::Verified,
        }
    } else if i == 80 {
        RecordBody {
            name: "wait",
            game_handler_ea: Some("0x00444F40"),
            pal_export_name: None,
            pal_export_ea: None,
            params: seq![
                Param { name: "duration_ms", pop_idx: 0, kind: ParamKind::DurationMs, meaning: "" },
                Param { name: "skip_cancel", pop_idx: 1, kind: ParamKind::Flag, meaning: "" },
            ],
            return_kind: ReturnKind::Void,
            side_effects: seq![SideEffect::CreatesTask, SideEffect::BlocksScript],
            purpose: "Timed script wait with native cancel/skip flag.",
            evidence: seq![
                Evidence { kind: EvidenceKind::GameSqlite, reference: "reverse/Game.sqlite sub_444F40 pops duration/skip flag and blocks by rewinding PC until timeout" },
                Evidence { kind: EvidenceKind::RuntimeTrace, reference: "pal-vm dispatch_wait_ext index 0 pops duration/skip flag and returns WaitRequest::Time" },
            ],
            implementation_status: ImplStatus::Verified,
            decompiler_status: ImplStatus::Verified,
        }
    } else if i == 81 {
        RecordBody {
            name: "wait_click",
            game_handler_ea: Some("0x00444DE0"),
            pal_export_name: None,
            pal_export_ea: None,
            params: seq![
                Param { name: "duration_ms", pop_idx: 0, kind: ParamKind::DurationMs, meaning: "" },
            ],
            return_kind: ReturnKind::Void,
            side_effects: seq![SideEffect::CreatesTask, SideEffect::BlocksScript, SideEffect::ChangesTextState],
            purpose: "-1 completes the active text task; non-negative values are click-or-time waits.",
            evidence: seq![
                Evidence { kind: EvidenceKind::GameSqlite, reference: "reverse/Game.sqlite sub_444DE0 pops duration; -1 clears/completes text task via ctx[1050]/sub_43A860/sub_44A010; non-negative values rewind until click/timeout" },
                Evidence { kind: EvidenceKind::RuntimeTrace, reference: "pal-vm dispatch_wait_ext index 1 gates the portable text reveal/click path" },
            ],
            implementation_status: ImplStatus::Verified,
            decompiler_status: ImplStatus::Verified,
        }
    } else if i == 82 {
        RecordBody {
            name: "wait_sync_begin",
            game_handler_ea: None,
            pal_export_name: None,
            pal_export_ea: None,
            params: seq![],
            return_kind: ReturnKind::Void,
            side_effects: seq![SideEffect::CreatesTask],
            purpose: "Begin PAL wait-sync timing scope.",
            evidence: seq![
                Evidence { kind: EvidenceKind::GameSqlite, reference: "docs/writeup.md wait-sync offsets +655244/+655248 from Game.sqlite" },
                Evidence { kind: EvidenceKind::RuntimeTrace, reference: "pal-vm dispatch_wait_ext index 2 stores pal_time_ms" },
            ],
            implementation_status: ImplStatus::Verified,
            decompiler_status: ImplStatus::Verified,
        }
    } else {
        RecordBody {
            name: "wait_sync_release",
            game_handler_ea: None,
            pal_export_name: None,
            pal_export_ea: None,
            params: seq![
                Param { name: "duration_ms", pop_idx: 0, kind: ParamKind::DurationMs, meaning: "" },
            ],
            return_kind: ReturnKind::Void,
            side_effects: seq![SideEffect::CreatesTask, SideEffect::BlocksScript],
            purpose: "Release wait-sync with timed block.",
            evidence: seq![
                Evidence { kind: EvidenceKind::GameSqlite, reference: "docs/writeup.md wait-sync offsets +655244/+655248 from Game.sqlite" },
                Evidence { kind: EvidenceKind::RuntimeTrace, reference: "pal-vm wait_sync_release blocks until elapsed duration" },
            ],
            implementation_status: ImplStatus::Verified,
            decompiler_status: ImplStatus::Verified,
        }
    }
}

pub open spec fn body_block_7(i: int) -> RecordBody {
    if i == 84 {
        RecordBody {
            name: "wait_sync_end",
            game_handler_ea: None,
            pal_export_name: None,
            pal_export_ea: None,
            params: seq![],
            return_kind: ReturnKind::Void,
            side_effects: seq![],
            purpose: "End wait-sync timing scope.",
            evidence: seq![
                Evidence { kind: EvidenceKind::GameSqlite, reference: "docs/writeup.md wait-sync offsets +655244/+655248 from Game.sqlite" },
                Evidence { kind: EvidenceKind::RuntimeTrace, reference: "pal-vm dispatch_wait_ext index 4 clears wait-sync state" },
            ],
            implementation_status: ImplStatus::Verified,
            decompiler_status: ImplStatus::Verified,
        }
    } else if i == 85 {
        RecordBody {
            name: "wait_sync_step",
            game_handler_ea: Some("0x00444AC0"),
            pal_export_name: None,
            pal_export_ea: None,
            params: seq![],
            return_kind: ReturnKind::Void,
            side_effects: seq![SideEffect::CreatesTask, SideEffect::BlocksScript],
            purpose: "One-frame wait/work fence used by script animation loops.",
            evidence: seq![
                Evidence { kind: EvidenceKind::GameSqlite, reference: "reverse/Game.sqlite sub_444AC0 sets ctx+804084=1 and returns 1" },
            ],
            implementation_status: ImplStatus::Verified,
            decompiler_status: ImplStatus::Verified,
        }
    } else if i == 86 {
        RecordBody {
            name: "wait_click_no_anim",
            game_handler_ea: Some("0x00444C90"),
            pal_export_name: None,
            pal_export_ea: None,
            params: seq![
                Param { name: "duration_ms", pop_idx: 0, kind: ParamKind::DurationMs, meaning: "" },
            ],
            return_kind: ReturnKind::Void,
            side_effects: seq![SideEffect::CreatesTask, SideEffect::BlocksScript],
            purpose: "Input wait without wait-icon animation side effects; non-positive durations are click-only.",
            evidence: seq![
                Evidence { kind: EvidenceKind::GameSqlite, reference: "reverse/Game.sqlite sub_444C90 implements wait_click_no_anim duration semantics" },
                Evidence { kind: EvidenceKind::RuntimeTrace, reference: "pal-vm dispatch_wait_ext index 7 returns Click for <=0 or ClickOrTime for positive waits" },
            ],
            implementation_status: ImplStatus::Verified,
            decompiler_status: ImplStatus::Verified,
        }
    } else if i == 87 {
        RecordBody {
            name: "wait_sync_get_time",
            game_handler_ea: None,
            pal_export_name: None,
            pal_export_ea: None,
            params: seq![],
            return_kind: ReturnKind::Integer,
            side_effects: seq![],
            purpose: "Read elapsed PAL wait-sync time.",
            evidence: seq![
                Evidence { kind: EvidenceKind::GameSqlite, reference: "docs/writeup.md wait-sync begin timestamp +655248 from Game.sqlite" },
                Evidence { kind: EvidenceKind::RuntimeTrace, reference: "pal-vm dispatch_wait_ext index 8 returns pal_time_ms - wait_sync_begin_ms" },
            ],
            implementation_status: ImplStatus::Verified,
            decompiler_status: ImplStatus::Verified,
        }
    } else if i == 88 {
        RecordBody {
            name: "wait_time_push",
            game_handler_ea: None,
            pal_export_name: None,
            pal_export_ea: None,
            params: seq![],
            return_kind: ReturnKind::Void,
            side_effects: seq![],
            purpose: "Push PAL wait time state.",
            evidence: seq![
                Evidence { kind: EvidenceKind::Writeup, reference: "docs/writeup.md wait" },
            ],
            implementation_status: ImplStatus::Blocked,
            decompiler_status: ImplStatus::Blocked,
        }
    } else if i == 89 {
        RecordBody {
            name: "wait_time_pop",
            game_handler_ea: None,
            pal_export_name: None,
            pal_export_ea: None,
            params: seq![],
            return_kind: ReturnKind::Void,
            side_effects: seq![],
            purpose: "Pop PAL wait time state.",
            evidence: seq![
                Evidence { kind: EvidenceKind::Writeup, reference: "docs/writeup.md wait" },
            ],
            implementation_status: ImplStatus::Blocked,
            decompiler_status: ImplStatus::Blocked,
        }
    } else if i == 90 {
        RecordBody {
            name: "select_init",
            game_handler_ea: None,
            pal_export_name: None,
            pal_export_ea: None,
            params: seq![
                Param { name: "text_id", pop_idx: 0, kind: ParamKind::TextId, meaning: "" },
                Param { name: "normal_color", pop_idx: 1, kind: ParamKind::Color, meaning: "" },
                Param { name: "hover_color", pop_idx: 2, kind: ParamKind::Color, meaning: "" },
                Param { name: "disabled_color", pop_idx: 3, kind: ParamKind::Color, meaning: "" },
            ],
            return_kind: ReturnKind::Void,
            side_effects: seq![SideEffect::ChangesSelectState],
            purpose: "Initialize select/menu layout and colors.",
            evidence: seq![
                Evidence { kind: EvidenceKind::GameSqlite, reference: "reverse/Game.sqlite select handler; pal-vm dispatch_select_stub index 0 pops 4" },
            ],
            implementation_status: ImplStatus::Blocked,
            decompiler_status: ImplStatus::Blocked,
        }
    } else if i == 91 {
        RecordBody {
            name: "select_set",
            game_handler_ea: None,
            pal_export_name: None,
            pal_export_ea: None,
            params: seq![
                Param { name: "text_id", pop_idx: 0, kind: ParamKind::TextId, meaning: "" },
                Param { name: "target", pop_idx: 1, kind: ParamKind::PointId, meaning: "" },
                Param { name: "x", pop_idx: 2, kind: ParamKind::CoordinateX, meaning: "" },
                Param { name: "y", pop_idx: 3, kind: ParamKind::CoordinateY, meaning: "" },
                Param { name: "color", pop_idx: 4, kind: ParamKind::Color, meaning: "" },
                Param { name: "flags", pop_idx: 5, kind: ParamKind::Flag, meaning: "" },
            ],
            return_kind: ReturnKind::Void,
            side_effects: seq![SideEffect::ChangesSelectState],
            purpose: "Register one selectable option with target/process metadata.",
            evidence: seq![
                Evidence { kind: EvidenceKind::GameSqlite, reference: "reverse/Game.sqlite select handler; pal-vm dispatch_select_stub index 2 pops 6" },
                Evidence { kind: EvidenceKind::RuntimeTrace, reference: "select_option text/target/pos/color/flags" },
            ],
            implementation_status: ImplStatus::Blocked,
            decompiler_status: ImplStatus::Blocked,
        }
    } else if i == 92 {
        RecordBody {
            name: "select_commit",
            game_handler_ea: None,
            pal_export_name: None,
            pal_export_ea: None,
            params: seq![],
            return_kind: ReturnKind::Void,
            side_effects: seq![SideEffect::ChangesSelectState],
            purpose: "Commit/refresh the current select option list.",
            evidence: seq![
                Evidence { kind: EvidenceKind::RuntimeTrace, reference: "reachable 0006:0003 follows select_set sequences" },
                Evidence { kind: EvidenceKind::Disassembly, reference: "out/extcall_report.json reachable extcall 0006:0003" },
            ],
            implementation_status: ImplStatus::Blocked,
            decompiler_status: ImplStatus::Blocked,
        }
    } else if i == 93 {
        RecordBody {
            name: "select_clear",
            game_handler_ea: None,
            pal_export_name: None,
            pal_export_ea: None,
            params: seq![],
            return_kind: ReturnKind::Void,
            side_effects: seq![SideEffect::ChangesSelectState],
            purpose: "Clear all select/menu state.",
            evidence: seq![
                Evidence { kind: EvidenceKind::GameSqlite, reference: "reverse/Game.sqlite select handler; pal-vm dispatch_select_stub index 4 pops 0" },
            ],
            implementation_status: ImplStatus::Blocked,
            decompiler_status: ImplStatus::Blocked,
        }
    } else if i == 94 {
        RecordBody {
            name: "btn_init",
            game_handler_ea: Some("0x0040FC60"),
            pal_export_name: None,
            pal_export_ea: None,
            params: seq![
                Param { name: "group", pop_idx: 0, kind: ParamKind::ButtonSlot, meaning: "button group" },
                Param { name: "normal_image", pop_idx: 1, kind: ParamKind::ResourceStringFromFileDat, meaning: "normal group image or sentinel" },
                Param { name: "hover_image", pop_idx: 2, kind: ParamKind::ResourceStringFromFileDat, meaning: "hover group image or sentinel" },
            ],
            return_kind: ReturnKind::Integer,
            side_effects: seq![SideEffect::ChangesSelectState],
            purpose: "Initialize a native PAL button group with normal/hover image resources.",
            evidence: seq![
                Evidence { kind: EvidenceKind::GameSqlite, reference: "reverse/Game.sqlite sub_40FC60 pops group/normal_image/hover_image and calls PalButtonCreateEx" },
                Evidence { kind: EvidenceKind::RuntimeTrace, reference: "pal-vm ext_btn_init stores button group state" },
            ],
            implementation_status: ImplStatus::Verified,
            decompiler_status: ImplStatus::Verified,
        }
    } else {
        RecordBody {
            name: "btn_uninit",
            game_handler_ea: Some("0x0040DB20"),
            pal_export_name: Some("PalButtonRelease"),
            pal_export_ea: Some("0x1011D72B"),
            params: seq![
                Param { name: "group", pop_idx: 0, kind: ParamKind::ButtonSlot, meaning: "" },
            ],
            return_kind: ReturnKind::Void,
            side_effects: seq![SideEffect::DeletesSprite],
            purpose: "Release a button group; group=-1 is treated as all groups by the compatibility runtime.",
            evidence: seq![
                Evidence { kind: EvidenceKind::GameSqlite, reference: "reverse/Game.sqlite sub_40DB20 releases active button sprites and calls PalButtonRelease" },
                Evidence { kind: EvidenceKind::PalSqlite, reference: "PalButtonRelease 0x1011D72B / PalButtonDelete 0x1011ACF1" },
                Evidence { kind: EvidenceKind::RuntimeTrace, reference: "pal-vm ext_btn_uninit pops group and returns 1" },
            ],
            implementation_status: ImplStatus::Verified,
            decompiler_status: ImplStatus::Verified,
        }
    }
}

pub open spec fn body_block_8(i: int) -> RecordBody {
    if i == 96 {
        RecordBody {
            name: "btn_set",
            game_handler_ea: None,
            pal_export_name: None,
            pal_export_ea: None,
            params: seq![
                Param { name: "group", pop_idx: 0, kind: ParamKind::ButtonSlot, meaning: "" },
                Param { name: "index", pop_idx: 1, kind: ParamKind::ButtonSlot, meaning: "" },
                Param { name: "normal", pop_idx: 2, kind: ParamKind::ResourceStringFromFileDat, meaning: "" },
                Param { name: "hover", pop_idx: 3, kind: ParamKind::ResourceStringFromFileDat, meaning: "" },
                Param { name: "push", pop_idx: 4, kind: ParamKind::ResourceStringFromFileDat, meaning: "" },
                Param { name: "disabled", pop_idx: 5, kind: ParamKind::ResourceStringFromFileDat, meaning: "" },
                Param { name: "entry_flag", pop_idx: 6, kind: ParamKind::Flag, meaning: "" },
            ],
            return_kind: ReturnKind::Void,
            side_effects: seq![SideEffect::CreatesSprite],
            purpose: "Create/register a button entry and its sprite states.",
            evidence: seq![
                Evidence { kind: EvidenceKind::Writeup, reference: "docs/writeup.md 24.10" },
            ],
            implementation_status: ImplStatus::Blocked,
            decompiler_status: ImplStatus::Blocked,
        }
    } else if i == 97 {
        RecordBody {
            name: "btn_hide",
            game_handler_ea: Some("0x0040F290"),
            pal_export_name: None,
            pal_export_ea: None,
            params: seq![
                Param { name: "group", pop_idx: 0, kind: ParamKind::ButtonSlot, meaning: "" },
                Param { name: "index", pop_idx: 1, kind: ParamKind::ButtonSlot, meaning: "" },
            ],
            return_kind: ReturnKind::Void,
            side_effects: seq![SideEffect::MutatesSprite, SideEffect::ChangesSelectState],
            purpose: "Hide a registered button entry.",
            evidence: seq![
                Evidence { kind: EvidenceKind::GameSqlite, reference: "reverse/Game.sqlite sub_40F290 pops group/index and queues native btn_hide command" },
                Evidence { kind: EvidenceKind::RuntimeTrace, reference: "pal-vm ext_btn_view_ctrl(false) pops group/index and hides matching sprites" },
            ],
            implementation_status: ImplStatus::Verified,
            decompiler_status: ImplStatus::Verified,
        }
    } else if i == 98 {
        RecordBody {
            name: "btn_show",
            game_handler_ea: Some("0x0040F1B0"),
            pal_export_name: None,
            pal_export_ea: None,
            params: seq![
                Param { name: "group", pop_idx: 0, kind: ParamKind::ButtonSlot, meaning: "" },
                Param { name: "index", pop_idx: 1, kind: ParamKind::ButtonSlot, meaning: "" },
            ],
            return_kind: ReturnKind::Void,
            side_effects: seq![SideEffect::MutatesSprite, SideEffect::ChangesSelectState],
            purpose: "Show a registered button entry.",
            evidence: seq![
                Evidence { kind: EvidenceKind::GameSqlite, reference: "reverse/Game.sqlite sub_40F1B0 pops group/index and queues native btn_show command" },
                Evidence { kind: EvidenceKind::RuntimeTrace, reference: "pal-vm ext_btn_view_ctrl(true) pops group/index and shows matching sprites" },
            ],
            implementation_status: ImplStatus::Verified,
            decompiler_status: ImplStatus::Verified,
        }
    } else if i == 99 {
        RecordBody {
            name: "btn_set_pos",
            game_handler_ea: None,
            pal_export_name: None,
            pal_export_ea: None,
            params: seq![
                Param { name: "group", pop_idx: 0, kind: ParamKind::ButtonSlot, meaning: "" },
                Param { name: "index", pop_idx: 1, kind: ParamKind::ButtonSlot, meaning: "" },
                Param { name: "x", pop_idx: 2, kind: ParamKind::CoordinateX, meaning: "" },
                Param { name: "y", pop_idx: 3, kind: ParamKind::CoordinateY, meaning: "" },
            ],
            return_kind: ReturnKind::Void,
            side_effects: seq![SideEffect::MutatesSprite],
            purpose: "Position a button entry.",
            evidence: seq![
                Evidence { kind: EvidenceKind::Writeup, reference: "docs/writeup.md 24.10" },
            ],
            implementation_status: ImplStatus::Blocked,
            decompiler_status: ImplStatus::Blocked,
        }
    } else if i == 100 {
        RecordBody {
            name: "btn_release",
            game_handler_ea: None,
            pal_export_name: None,
            pal_export_ea: None,
            params: seq![
                Param { name: "group", pop_idx: 0, kind: ParamKind::ButtonSlot, meaning: "" },
                Param { name: "index", pop_idx: 1, kind: ParamKind::ButtonSlot, meaning: "" },
            ],
            return_kind: ReturnKind::Void,
            side_effects: seq![SideEffect::DeletesSprite],
            purpose: "Release one or more button entries.",
            evidence: seq![
                Evidence { kind: EvidenceKind::Writeup, reference: "docs/writeup.md 24.10" },
            ],
            implementation_status: ImplStatus::Blocked,
            decompiler_status: ImplStatus::Blocked,
        }
    } else if i == 101 {
        RecordBody {
            name: "btn_slider_get",
            game_handler_ea: Some("0x0040EC10"),
            pal_export_name: None,
            pal_export_ea: None,
            params: seq![
                Param { name: "group", pop_idx: 0, kind: ParamKind::ButtonSlot, meaning: "" },
                Param { name: "index", pop_idx: 1, kind: ParamKind::ButtonSlot, meaning: "" },
                Param { name: "max_offset", pop_idx: 2, kind: ParamKind::Integer, meaning: "" },
                Param { name: "axis", pop_idx: 3, kind: ParamKind::Mode, meaning: "" },
                Param { name: "snap_to_100", pop_idx: 4, kind: ParamKind::Flag, meaning: "" },
            ],
            return_kind: ReturnKind::Integer,
            side_effects: seq![SideEffect::MutatesSprite, SideEffect::ChangesSelectState],
            purpose: "Query/update slider button offset from mouse position for settings sliders.",
            evidence: seq![
                Evidence { kind: EvidenceKind::GameSqlite, reference: "reverse/Game.sqlite sub_40EC10 pops group/index/max_offset/axis/snap_to_100 and writes slider offset to dst" },
                Evidence { kind: EvidenceKind::RuntimeTrace, reference: "docs/dis.txt 00030D20 and 00044124 push five args before ext_0008_0009" },
            ],
            implementation_status: ImplStatus::Verified,
            decompiler_status: ImplStatus::Verified,
        }
    } else if i == 102 {
        RecordBody {
            name: "btn_slider_set",
            game_handler_ea: None,
            pal_export_name: None,
            pal_export_ea: None,
            params: seq![
                Param { name: "group", pop_idx: 0, kind: ParamKind::ButtonSlot, meaning: "" },
                Param { name: "index", pop_idx: 1, kind: ParamKind::ButtonSlot, meaning: "" },
                Param { name: "offset", pop_idx: 2, kind: ParamKind::Integer, meaning: "" },
                Param { name: "axis", pop_idx: 3, kind: ParamKind::Mode, meaning: "" },
                Param { name: "enabled", pop_idx: 4, kind: ParamKind::Flag, meaning: "" },
            ],
            return_kind: ReturnKind::Void,
            side_effects: seq![SideEffect::MutatesSprite, SideEffect::ChangesSelectState],
            purpose: "Initialize/update compatible slider offset and button state.",
            evidence: seq![
                Evidence { kind: EvidenceKind::Disassembly, reference: "docs/dis.txt 00030B80 and 000337C4 push five args before ext_0008_000A" },
                Evidence { kind: EvidenceKind::RuntimeTrace, reference: "setting submenu initializes slider before polling" },
            ],
            implementation_status: ImplStatus::Verified,
            decompiler_status: ImplStatus::Verified,
        }
    } else if i == 103 {
        RecordBody {
            name: "btn_slider_begin",
            game_handler_ea: None,
            pal_export_name: None,
            pal_export_ea: None,
            params: seq![
                Param { name: "group", pop_idx: 0, kind: ParamKind::ButtonSlot, meaning: "" },
                Param { name: "index", pop_idx: 1, kind: ParamKind::ButtonSlot, meaning: "" },
            ],
            return_kind: ReturnKind::Void,
            side_effects: seq![SideEffect::ChangesSelectState],
            purpose: "Arm native slider polling for a button entry.",
            evidence: seq![
                Evidence { kind: EvidenceKind::Disassembly, reference: "docs/dis.txt 00030CD4/000440CC push group,index before ext_0008_000B" },
                Evidence { kind: EvidenceKind::RuntimeTrace, reference: "runtime stack pollution stopped by two-arg pop" },
            ],
            implementation_status: ImplStatus::Verified,
            decompiler_status: ImplStatus::Verified,
        }
    } else if i == 104 {
        RecordBody {
            name: "btn_on_check",
            game_handler_ea: Some("0x00410CE0"),
            pal_export_name: Some("PalButtonGetReaction"),
            pal_export_ea: Some("0x1011E1D0"),
            params: seq![
                Param { name: "group", pop_idx: 0, kind: ParamKind::ButtonSlot, meaning: "" },
                Param { name: "index", pop_idx: 1, kind: ParamKind::ButtonSlot, meaning: "" },
            ],
            return_kind: ReturnKind::Bool,
            side_effects: seq![SideEffect::ChangesSelectState],
            purpose: "Query current native reaction state for one button.",
            evidence: seq![
                Evidence { kind: EvidenceKind::GameSqlite, reference: "reverse/Game.sqlite sub_410CE0 pops group/index and writes PalButtonGetReaction != 0 to dst" },
                Evidence { kind: EvidenceKind::PalSqlite, reference: "PalButtonGetReaction 0x1011E1D0" },
                Evidence { kind: EvidenceKind::RuntimeTrace, reference: "settings slider loops call ext_0008_000C with group/index" },
            ],
            implementation_status: ImplStatus::Verified,
            decompiler_status: ImplStatus::Verified,
        }
    } else if i == 105 {
        RecordBody {
            name: "btn_set_toggle",
            game_handler_ea: Some("0x0040E830"),
            pal_export_name: Some("PalSpriteRectSetPos"),
            pal_export_ea: Some("0x1011E865"),
            params: seq![
                Param { name: "group", pop_idx: 0, kind: ParamKind::ButtonSlot, meaning: "" },
                Param { name: "index", pop_idx: 1, kind: ParamKind::ButtonSlot, meaning: "" },
                Param { name: "toggle", pop_idx: 2, kind: ParamKind::Flag, meaning: "" },
            ],
            return_kind: ReturnKind::Void,
            side_effects: seq![SideEffect::MutatesSprite, SideEffect::ChangesSelectState],
            purpose: "Select the button visual/toggle state for a group/index.",
            evidence: seq![
                Evidence { kind: EvidenceKind::GameSqlite, reference: "reverse/Game.sqlite sub_40E830 pops group/index/toggle and queues native btn_set_toggle render command" },
                Evidence { kind: EvidenceKind::PalSqlite, reference: "PalSpriteRectSetPos 0x1011E865 is used by the native button render command pipeline" },
                Evidence { kind: EvidenceKind::RuntimeTrace, reference: "pal-vm ext_btn_set_toggle pops 3 and updates rect cell" },
            ],
            implementation_status: ImplStatus::Verified,
            decompiler_status: ImplStatus::Verified,
        }
    } else if i == 106 {
        RecordBody {
            name: "btn_get_pos",
            game_handler_ea: None,
            pal_export_name: None,
            pal_export_ea: None,
            params: seq![
                Param { name: "group", pop_idx: 0, kind: ParamKind::ButtonSlot, meaning: "" },
                Param { name: "index", pop_idx: 1, kind: ParamKind::ButtonSlot, meaning: "" },
                Param { name: "x_slot", pop_idx: 2, kind: ParamKind::Slot, meaning: "" },
                Param { name: "y_slot", pop_idx: 3, kind: ParamKind::Slot, meaning: "" },
            ],
            return_kind: ReturnKind::Status,
            side_effects: seq![SideEffect::WritesVmMemory],
            purpose: "Write the button position to two temporary-memory slots.",
            evidence: seq![
                Evidence { kind: EvidenceKind::Disassembly, reference: "Totsulover Script.src 0xE5C90/0xE5D7C and Koikake Script.src 0x324AC read temp slots 0/1 after this call" },
                Evidence { kind: EvidenceKind::RuntimeTrace, reference: "Totsulover POP_YES/POP_NO remain at their original coordinates until these slots are written" },
            ],
            implementation_status: ImplStatus::Partial,
            decompiler_status: ImplStatus::Partial,
        }
    } else {
        RecordBody {
            name: "btn_set_state",
            game_handler_ea: None,
            pal_export_name: None,
            pal_export_ea: None,
            params: seq![
                Param { name: "group", pop_idx: 0, kind: ParamKind::ButtonSlot, meaning: "" },
                Param { name: "index", pop_idx: 1, kind: ParamKind::ButtonSlot, meaning: "" },
                Param { name: "ctrl", pop_idx: 2, kind: ParamKind::Mode, meaning: "" },
                Param { name: "state", pop_idx: 3, kind: ParamKind::Mode, meaning: "" },
            ],
            return_kind: ReturnKind::Status,
            side_effects: seq![SideEffect::MutatesSprite, SideEffect::ChangesSelectState],
            purpose: "Set button control mode and visual cell/state for menus.",
            evidence: seq![
                Evidence { kind: EvidenceKind::Disassembly, reference: "Totsulover Script.src 0x990AC and 0x94490 call this with group/index/ctrl/state" },
                Evidence { kind: EvidenceKind::RuntimeTrace, reference: "pal-vm ext_btn_set_state consumes four arguments" },
            ],
            implementation_status: ImplStatus::Partial,
            decompiler_status: ImplStatus::Partial,
        }
    }
}

pub open spec fn body_block_9(i: int) -> RecordBody {
    if i == 108 {
        RecordBody {
            name: "btn_enable",
            game_handler_ea: Some("0x0040E5B0"),
            pal_export_name: Some("PalButtonCtrl"),
            pal_export_ea: Some("0x1011AE09"),
            params: seq![
                Param { name: "group", pop_idx: 0, kind: ParamKind::ButtonSlot, meaning: "" },
                Param { name: "index", pop_idx: 1, kind: ParamKind::ButtonSlot, meaning: "" },
                Param { name: "enabled", pop_idx: 2, kind: ParamKind::Flag, meaning: "" },
            ],
            return_kind: ReturnKind::Void,
            side_effects: seq![SideEffect::MutatesSprite, SideEffect::ChangesSelectState],
            purpose: "Enable or disable button input/visual state for one entry or a group wildcard.",
            evidence: seq![
                Evidence { kind: EvidenceKind::GameSqlite, reference: "reverse/Game.sqlite sub_40E5B0 pops group/index/enabled, calls PalButtonCtrl, and updates disabled flag bits" },
                Evidence { kind: EvidenceKind::PalSqlite, reference: "PalButtonCtrl 0x1011AE09 / Game import thunk 0x45034E" },
                Evidence { kind: EvidenceKind::RuntimeTrace, reference: "pal-vm ext_btn_enable pops group/index/enabled and updates compatible button state" },
            ],
            implementation_status: ImplStatus::Verified,
            decompiler_status: ImplStatus::Verified,
        }
    } else if i == 109 {
        RecordBody {
            name: "btn_set_alpha_0x",
            game_handler_ea: Some("0x0040E4B0"),
            pal_export_name: Some("PalSpriteSetColor"),
            pal_export_ea: Some("0x10119103"),
            params: seq![
                Param { name: "group", pop_idx: 0, kind: ParamKind::ButtonSlot, meaning: "" },
                Param { name: "index", pop_idx: 1, kind: ParamKind::ButtonSlot, meaning: "" },
                Param { name: "alpha", pop_idx: 2, kind: ParamKind::Alpha, meaning: "" },
            ],
            return_kind: ReturnKind::Void,
            side_effects: seq![SideEffect::MutatesSprite],
            purpose: "Set button sprite alpha for one entry or a group wildcard.",
            evidence: seq![
                Evidence { kind: EvidenceKind::GameSqlite, reference: "reverse/Game.sqlite sub_40E4B0 pops group/index/alpha and writes alpha into button sprite color field" },
                Evidence { kind: EvidenceKind::PalSqlite, reference: "PalSpriteSetColor 0x10119103 is the PAL color primitive used by sprite alpha paths" },
                Evidence { kind: EvidenceKind::RuntimeTrace, reference: "pal-vm ext_btn_set_alpha pops 3 and updates compatible sprite alpha" },
            ],
            implementation_status: ImplStatus::Verified,
            decompiler_status: ImplStatus::Verified,
        }
    } else if i == 110 {
        RecordBody {
            name: "btn_get_push",
            game_handler_ea: Some("0x0040CDE0"),
            pal_export_name: Some("PalButtonGetReaction"),
            pal_export_ea: Some("0x1011E1D0"),
            params: seq![
                Param { name: "group", pop_idx: 0, kind: ParamKind::ButtonSlot, meaning: "" },
            ],
            return_kind: ReturnKind::Integer,
            side_effects: seq![SideEffect::ChangesSelectState],
            purpose: "Poll/consume the native button reaction for a group; compatible no-push sentinel is 0.",
            evidence: seq![
                Evidence { kind: EvidenceKind::GameSqlite, reference: "reverse/Game.sqlite sub_40CDE0 calls PalButtonGetReaction and mutates script reaction state" },
                Evidence { kind: EvidenceKind::PalSqlite, reference: "PalButtonGetReaction 0x1011E1D0 / Game import thunk 0x45029E" },
                Evidence { kind: EvidenceKind::RuntimeTrace, reference: "pal-vm ext_btn_get_push pops group and returns clicked index or 0" },
            ],
            implementation_status: ImplStatus::Verified,
            decompiler_status: ImplStatus::Verified,
        }
    } else if i == 111 {
        RecordBody {
            name: "btn_lock",
            game_handler_ea: Some("0x0040E0C0"),
            pal_export_name: None,
            pal_export_ea: None,
            params: seq![
                Param { name: "group", pop_idx: 0, kind: ParamKind::ButtonSlot, meaning: "" },
                Param { name: "duration_ms", pop_idx: 1, kind: ParamKind::DurationMs, meaning: "" },
            ],
            return_kind: ReturnKind::Void,
            side_effects: seq![SideEffect::ChangesSelectState],
            purpose: "Lock input for a button group; second argument is the native duration/timer value.",
            evidence: seq![
                Evidence { kind: EvidenceKind::GameSqlite, reference: "reverse/Game.sqlite sub_40E0C0 pops group/duration, sets group lock timer fields, and stores start time only when duration is non-zero" },
                Evidence { kind: EvidenceKind::RuntimeTrace, reference: "pal-vm ext_btn_lock pops group/duration; duration 0 no longer locks matching group entries" },
            ],
            implementation_status: ImplStatus::Verified,
            decompiler_status: ImplStatus::Verified,
        }
    } else if i == 112 {
        RecordBody {
            name: "btn_unlock",
            game_handler_ea: Some("0x0040E040"),
            pal_export_name: None,
            pal_export_ea: None,
            params: seq![
                Param { name: "group", pop_idx: 0, kind: ParamKind::ButtonSlot, meaning: "" },
            ],
            return_kind: ReturnKind::Void,
            side_effects: seq![SideEffect::ChangesSelectState],
            purpose: "Unlock button input for a group.",
            evidence: seq![
                Evidence { kind: EvidenceKind::GameSqlite, reference: "reverse/Game.sqlite sub_40E040 pops group and clears native button lock fields" },
                Evidence { kind: EvidenceKind::RuntimeTrace, reference: "pal-vm ext_btn_unlock pops group and unlocks matching entries" },
            ],
            implementation_status: ImplStatus::Verified,
            decompiler_status: ImplStatus::Verified,
        }
    } else if i == 113 {
        RecordBody {
            name: "btn_set_anim",
            game_handler_ea: Some("0x0040DE40"),
            pal_export_name: None,
            pal_export_ea: None,
            params: seq![
                Param { name: "group", pop_idx: 0, kind: ParamKind::ButtonSlot, meaning: "" },
                Param { name: "index", pop_idx: 1, kind: ParamKind::ButtonSlot, meaning: "" },
                Param { name: "anim_resource", pop_idx: 2, kind: ParamKind::ResourceStringFromFileDat, meaning: "" },
                Param { name: "play_flag", pop_idx: 3, kind: ParamKind::Flag, meaning: "" },
            ],
            return_kind: ReturnKind::Void,
            side_effects: seq![SideEffect::MutatesSprite, SideEffect::ChangesSelectState],
            purpose: "Bind/play button animation resource for an already registered button.",
            evidence: seq![
                Evidence { kind: EvidenceKind::GameSqlite, reference: "reverse/Game.sqlite sub_40DE40 pops group/index/resource/play_flag, resolves the resource with sub_44B1E0, calls sub_447440, and queues animation work" },
            ],
            implementation_status: ImplStatus::Blocked,
            decompiler_status: ImplStatus::Blocked,
        }
    } else if i == 114 {
        RecordBody {
            name: "btn_set_hit",
            game_handler_ea: Some("0x0040DD90"),
            pal_export_name: Some("PalButtonSetReaction"),
            pal_export_ea: Some("0x101186DB"),
            params: seq![
                Param { name: "group", pop_idx: 0, kind: ParamKind::ButtonSlot, meaning: "" },
                Param { name: "index", pop_idx: 1, kind: ParamKind::ButtonSlot, meaning: "" },
            ],
            return_kind: ReturnKind::Void,
            side_effects: seq![SideEffect::ChangesSelectState],
            purpose: "Bind/update the PAL reaction target for an existing button entry.",
            evidence: seq![
                Evidence { kind: EvidenceKind::GameSqlite, reference: "reverse/Game.sqlite sub_40DD90 pops group/index and calls PalButtonSetReaction" },
                Evidence { kind: EvidenceKind::PalSqlite, reference: "PalButtonSetReaction 0x101186DB" },
                Evidence { kind: EvidenceKind::RuntimeTrace, reference: "pal-vm ext_btn_set_hit pops group/index and returns 1" },
            ],
            implementation_status: ImplStatus::Verified,
            decompiler_status: ImplStatus::Verified,
        }
    } else if i == 115 {
        RecordBody {
            name: "btn_get_onmouse",
            game_handler_ea: Some("0x0040E3B0"),
            pal_export_name: None,
            pal_export_ea: None,
            params: seq![
                Param { name: "group", pop_idx: 0, kind: ParamKind::ButtonSlot, meaning: "button group" },
            ],
            return_kind: ReturnKind::Integer,
            side_effects: seq![SideEffect::ChangesSelectState],
            purpose: "Return current hover/onmouse button index for a group.",
            evidence: seq![
                Evidence { kind: EvidenceKind::GameSqlite, reference: "reverse/Game.sqlite sub_40E3B0 pops group and returns ctx + 4512*group + 12996" },
                Evidence { kind: EvidenceKind::RuntimeTrace, reference: "pal-vm ext_btn_get_onmouse pops group and hit-tests current mouse" },
            ],
            implementation_status: ImplStatus::Verified,
            decompiler_status: ImplStatus::Verified,
        }
    } else if i == 116 {
        RecordBody {
            name: "btn_get_alpha_0x",
            game_handler_ea: None,
            pal_export_name: None,
            pal_export_ea: None,
            params: seq![
                Param { name: "group", pop_idx: 0, kind: ParamKind::ButtonSlot, meaning: "" },
                Param { name: "index", pop_idx: 1, kind: ParamKind::ButtonSlot, meaning: "" },
            ],
            return_kind: ReturnKind::Integer,
            side_effects: seq![],
            purpose: "Read the current button sprite alpha.",
            evidence: seq![
                Evidence { kind: EvidenceKind::Disassembly, reference: "Totsulover Script.src 0xA96CC and 0xA9878 query group/index alpha before menu animation" },
            ],
            implementation_status: ImplStatus::Partial,
            decompiler_status: ImplStatus::Partial,
        }
    } else if i == 117 {
        RecordBody {
            name: "channel_error_set_se_info",
            game_handler_ea: None,
            pal_export_name: None,
            pal_export_ea: None,
            params: seq![
                Param { name: "arg0", pop_idx: 0, kind: ParamKind::Unknown, meaning: "" },
                Param { name: "arg1", pop_idx: 1, kind: ParamKind::Unknown, meaning: "" },
                Param { name: "arg2", pop_idx: 2, kind: ParamKind::Unknown, meaning: "" },
                Param { name: "arg3", pop_idx: 3, kind: ParamKind::Unknown, meaning: "" },
            ],
            return_kind: ReturnKind::Status,
            side_effects: seq![SideEffect::UnknownSideEffect],
            purpose: "Preserve the SE channel metadata call's stack contract.",
            evidence: seq![
                Evidence { kind: EvidenceKind::Disassembly, reference: "Totsulover Script.src 0x157AF8 and 0x157B24 each push four arguments" },
            ],
            implementation_status: ImplStatus::StackDisciplineOnly,
            decompiler_status: ImplStatus::Partial,
        }
    } else if i == 118 {
        RecordBody {
            name: "skip_set",
            game_handler_ea: Some("0x00438C40"),
            pal_export_name: None,
            pal_export_ea: None,
            params: seq![
                Param { name: "enabled", pop_idx: 0, kind: ParamKind::Flag, meaning: "nonzero enables native ADV skip latch" },
            ],
            return_kind: ReturnKind::Integer,
            side_effects: seq![SideEffect::ChangesTextState, SideEffect::ChangesSelectState],
            purpose: "Set the ADV text skip latch.",
            evidence: seq![
                Evidence { kind: EvidenceKind::GameSqlite, reference: "reverse/Game.sqlite sub_438C40 pops enabled, writes byte ctx+804248, updates skip button row through PalButtonSetPos" },
            ],
            implementation_status: ImplStatus::Verified,
            decompiler_status: ImplStatus::Verified,
        }
    } else {
        RecordBody {
            name: "skip_is",
            game_handler_ea: Some("0x00438C00"),
            pal_export_name: None,
            pal_export_ea: None,
            params: seq![],
            return_kind: ReturnKind::Integer,
            side_effects: seq![SideEffect::WritesVmMemory],
            purpose: "Return the ADV text skip latch.",
            evidence: seq![
                Evidence { kind: EvidenceKind::GameSqlite, reference: "reverse/Game.sqlite sub_438C00 writes unsigned byte ctx+804248 to the extcall destination" },
            ],
            implementation_status: ImplStatus::Verified,
            decompiler_status: ImplStatus::Verified,
        }
    }
}

pub open spec fn body_block_10(i: int) -> RecordBody {
    if i == 120 {
        RecordBody {
            name: "auto_set",
            game_handler_ea: Some("0x00438A90"),
            pal_export_name: None,
            pal_export_ea: None,
            params: seq![
                Param { name: "enabled", pop_idx: 0, kind: ParamKind::Flag, meaning: "nonzero enables auto-advance after text reveal" },
            ],
            return_kind: ReturnKind::Integer,
            side_effects: seq![SideEffect::ChangesTextState, SideEffect::ChangesSelectState],
            purpose: "Set the ADV text auto latch.",
            evidence: seq![
                Evidence { kind: EvidenceKind::GameSqlite, reference: "reverse/Game.sqlite sub_438A90 pops enabled, writes ctx+804252, updates auto button row through PalButtonSetPos" },
            ],
            implementation_status: ImplStatus::Verified,
            decompiler_status: ImplStatus::Verified,
        }
    } else if i == 121 {
        RecordBody {
            name: "auto_is",
            game_handler_ea: Some("0x00438A50"),
            pal_export_name: None,
            pal_export_ea: None,
            params: seq![],
            return_kind: ReturnKind::Integer,
            side_effects: seq![SideEffect::WritesVmMemory],
            purpose: "Return the ADV text auto latch.",
            evidence: seq![
                Evidence { kind: EvidenceKind::GameSqlite, reference: "reverse/Game.sqlite sub_438A50 writes ctx+804252 to the extcall destination" },
            ],
            implementation_status: ImplStatus::Verified,
            decompiler_status: ImplStatus::Verified,
        }
    } else if i == 122 {
        RecordBody {
            name: "auto_set_speed",
            game_handler_ea: Some("0x004389F0"),
            pal_export_name: None,
            pal_export_ea: None,
            params: seq![
                Param { name: "speed_percent", pop_idx: 0, kind: ParamKind::Integer, meaning: "text timing percent clamped to 0..100" },
            ],
            return_kind: ReturnKind::Integer,
            side_effects: seq![SideEffect::ChangesTextState],
            purpose: "Set PAL text auto/typewriter speed percent.",
            evidence: seq![
                Evidence { kind: EvidenceKind::GameSqlite, reference: "reverse/Game.sqlite sub_4389F0 pops speed, clamps >100, writes PalTaskGetTaskData(0)+28" },
                Evidence { kind: EvidenceKind::Disassembly, reference: "docs/dis.txt 00039628 pushes config value before ext_0009_0004" },
            ],
            implementation_status: ImplStatus::Verified,
            decompiler_status: ImplStatus::Verified,
        }
    } else if i == 123 {
        RecordBody {
            name: "window_change_mode",
            game_handler_ea: Some("0x00438950"),
            pal_export_name: Some("PalWindowChangeMode"),
            pal_export_ea: Some("0x101194A5"),
            params: seq![
                Param { name: "mode", pop_idx: 0, kind: ParamKind::Mode, meaning: "PAL window mode" },
            ],
            return_kind: ReturnKind::Integer,
            side_effects: seq![SideEffect::MutatesWindow],
            purpose: "Request a PAL window mode change.",
            evidence: seq![
                Evidence { kind: EvidenceKind::GameSqlite, reference: "reverse/Game.sqlite sub_438950 calls PalWindowChangeMode(mode)" },
                Evidence { kind: EvidenceKind::PalSqlite, reference: "reverse/PAL.sqlite PalWindowChangeMode 0x101194A5 -> PalWindowChangeMode_0 posts message 0x8065" },
            ],
            implementation_status: ImplStatus::Verified,
            decompiler_status: ImplStatus::Verified,
        }
    } else if i == 124 {
        RecordBody {
            name: "window_set_mode_cache",
            game_handler_ea: Some("0x004388F0"),
            pal_export_name: None,
            pal_export_ea: None,
            params: seq![
                Param { name: "mode", pop_idx: 0, kind: ParamKind::Mode, meaning: "cached window/layout mode" },
            ],
            return_kind: ReturnKind::Integer,
            side_effects: seq![SideEffect::MutatesWindow],
            purpose: "Cache logical window mode without posting a window-change message.",
            evidence: seq![
                Evidence { kind: EvidenceKind::GameSqlite, reference: "reverse/Game.sqlite sub_4388F0 pops mode and writes PalTaskGetTaskData(0)+12" },
            ],
            implementation_status: ImplStatus::Verified,
            decompiler_status: ImplStatus::Verified,
        }
    } else if i == 125 {
        RecordBody {
            name: "effect_enable",
            game_handler_ea: Some("0x00438890"),
            pal_export_name: Some("PalEffectEnable"),
            pal_export_ea: Some("0x1011C119"),
            params: seq![
                Param { name: "enabled", pop_idx: 0, kind: ParamKind::Flag, meaning: "non-zero enables PAL effects" },
            ],
            return_kind: ReturnKind::Integer,
            side_effects: seq![SideEffect::ChangesRunState, SideEffect::MutatesWindow],
            purpose: "Enable or disable PAL visual effects.",
            evidence: seq![
                Evidence { kind: EvidenceKind::GameSqlite, reference: "reverse/Game.sqlite sub_438890 pops flag, calls PalEffectEnable, writes PalTaskGetTaskData(0)+16" },
                Evidence { kind: EvidenceKind::PalSqlite, reference: "reverse/PAL.sqlite PalEffectEnable 0x1011C119 -> PalEffectEnable_0 writes Block[277]" },
            ],
            implementation_status: ImplStatus::Verified,
            decompiler_status: ImplStatus::Verified,
        }
    } else if i == 126 {
        RecordBody {
            name: "effect_enable_is",
            game_handler_ea: Some("0x00438810"),
            pal_export_name: Some("PalEffectEnableIs"),
            pal_export_ea: Some("0x101195A9"),
            params: seq![],
            return_kind: ReturnKind::Bool,
            side_effects: seq![],
            purpose: "Query whether PAL visual effects are enabled.",
            evidence: seq![
                Evidence { kind: EvidenceKind::GameSqlite, reference: "reverse/Game.sqlite sub_438810 returns PalEffectEnableIs with no pops" },
                Evidence { kind: EvidenceKind::PalSqlite, reference: "reverse/PAL.sqlite PalEffectEnableIs 0x101195A9 -> PalEffectEnableIs_0 returns Block[277]" },
            ],
            implementation_status: ImplStatus::Verified,
            decompiler_status: ImplStatus::Verified,
        }
    } else if i == 127 {
        RecordBody {
            name: "window_get_mode_cache",
            game_handler_ea: Some("0x00438830"),
            pal_export_name: None,
            pal_export_ea: None,
            params: seq![],
            return_kind: ReturnKind::Integer,
            side_effects: seq![SideEffect::WritesVmMemory],
            purpose: "Return cached logical window/layout mode.",
            evidence: seq![
                Evidence { kind: EvidenceKind::GameSqlite, reference: "reverse/Game.sqlite sub_438830 writes PalTaskGetTaskData(0)+12 to dst_slot" },
            ],
            implementation_status: ImplStatus::Verified,
            decompiler_status: ImplStatus::Verified,
        }
    } else if i == 128 {
        RecordBody {
            name: "input_mouse_to_mem",
            game_handler_ea: Some("0x00438770"),
            pal_export_name: None,
            pal_export_ea: None,
            params: seq![
                Param { name: "dst_x", pop_idx: 0, kind: ParamKind::BufferPointer, meaning: "Mem.dat destination for mouse x or -1" },
                Param { name: "dst_y", pop_idx: 1, kind: ParamKind::BufferPointer, meaning: "Mem.dat destination for mouse y or -1" },
            ],
            return_kind: ReturnKind::Integer,
            side_effects: seq![SideEffect::WritesVmMemory],
            purpose: "Write mouse x/y into Mem.dat destinations.",
            evidence: seq![
                Evidence { kind: EvidenceKind::GameSqlite, reference: "reverse/Game.sqlite sub_438770 pops dst_x/dst_y and writes PalInputGetMouseX/Y to Mem.dat" },
            ],
            implementation_status: ImplStatus::Verified,
            decompiler_status: ImplStatus::Verified,
        }
    } else if i == 129 {
        RecordBody {
            name: "memory_bank_clear",
            game_handler_ea: Some("0x00438460"),
            pal_export_name: None,
            pal_export_ea: None,
            params: seq![],
            return_kind: ReturnKind::Integer,
            side_effects: seq![SideEffect::WritesVmMemory],
            purpose: "Clear native VM scratch memory bank.",
            evidence: seq![
                Evidence { kind: EvidenceKind::GameSqlite, reference: "reverse/Game.sqlite sub_438460 memset(ctx+711860,0,0x1000) and pops no args" },
            ],
            implementation_status: ImplStatus::Verified,
            decompiler_status: ImplStatus::Verified,
        }
    } else if i == 130 {
        RecordBody {
            name: "set_language",
            game_handler_ea: Some("0x00438090"),
            pal_export_name: Some("PalFontSetType"),
            pal_export_ea: Some("0x1011C4A2"),
            params: seq![
                Param { name: "font_type", pop_idx: 0, kind: ParamKind::Mode, meaning: "PAL font type/language id" },
            ],
            return_kind: ReturnKind::Integer,
            side_effects: seq![SideEffect::MutatesWindow],
            purpose: "Set PAL font type/language.",
            evidence: seq![
                Evidence { kind: EvidenceKind::GameSqlite, reference: "reverse/Game.sqlite sub_438090 pops font_type and calls PalFontSetType" },
                Evidence { kind: EvidenceKind::PalSqlite, reference: "reverse/PAL.sqlite PalFontSetType 0x1011C4A2 -> PalFontSetType_0 stores Block[232]" },
            ],
            implementation_status: ImplStatus::Verified,
            decompiler_status: ImplStatus::Verified,
        }
    } else {
        RecordBody {
            name: "input_key_cancel",
            game_handler_ea: Some("0x00437E70"),
            pal_export_name: Some("PalInputKeyCancel"),
            pal_export_ea: Some("0x1011F56C"),
            params: seq![
                Param { name: "key_mask", pop_idx: 0, kind: ParamKind::Integer, meaning: "keyboard mask" },
                Param { name: "mouse_mask", pop_idx: 1, kind: ParamKind::Integer, meaning: "mouse mask" },
            ],
            return_kind: ReturnKind::Integer,
            side_effects: seq![SideEffect::ChangesSelectState],
            purpose: "Cancel selected PAL input key/mouse masks.",
            evidence: seq![
                Evidence { kind: EvidenceKind::GameSqlite, reference: "reverse/Game.sqlite sub_437E70 pops key_mask,mouse_mask and calls PalInputKeyCancel" },
                Evidence { kind: EvidenceKind::PalSqlite, reference: "reverse/PAL.sqlite PalInputKeyCancel 0x1011F56C -> PalInputKeyCancel_0 masks PAL input state" },
            ],
            implementation_status: ImplStatus::Verified,
            decompiler_status: ImplStatus::Verified,
        }
    }
}

pub open spec fn body_block_11(i: int) -> RecordBody {
    if i == 132 {
        RecordBody {
            name: "set_font_color",
            game_handler_ea: Some("0x00437F30"),
            pal_export_name: Some("PalFontSetColor"),
            pal_export_ea: Some("0x101214F7"),
            params: seq![
                Param { name: "text_color", pop_idx: 0, kind: ParamKind::Color, meaning: "primary font color" },
                Param { name: "effect_color", pop_idx: 1, kind: ParamKind::Color, meaning: "effect/outline color" },
            ],
            return_kind: ReturnKind::Integer,
            side_effects: seq![SideEffect::MutatesWindow],
            purpose: "Set PAL shared UI font colors.",
            evidence: seq![
                Evidence { kind: EvidenceKind::GameSqlite, reference: "reverse/Game.sqlite sub_437F30 pops text_color,effect_color and calls PalFontSetColor" },
                Evidence { kind: EvidenceKind::PalSqlite, reference: "reverse/PAL.sqlite PalFontSetColor 0x101214F7 -> PalFontSetColor_0 stores Block[113]/Block[114]" },
            ],
            implementation_status: ImplStatus::Verified,
            decompiler_status: ImplStatus::Verified,
        }
    } else if i == 133 {
        RecordBody {
            name: "load_font_ex",
            game_handler_ea: Some("0x004382D0"),
            pal_export_name: None,
            pal_export_ea: None,
            params: seq![
                Param { name: "font_resource", pop_idx: 0, kind: ParamKind::ResourceStringFromFileDat, meaning: "extended font resource base name" },
            ],
            return_kind: ReturnKind::Integer,
            side_effects: seq![SideEffect::MutatesWindow],
            purpose: "Load an extended font TGA resource.",
            evidence: seq![
                Evidence { kind: EvidenceKind::GameSqlite, reference: "reverse/Game.sqlite sub_4382D0 pops font string, appends .tga, calls PalExFontUnload/PalExFontLoad" },
            ],
            implementation_status: ImplStatus::Blocked,
            decompiler_status: ImplStatus::Verified,
        }
    } else if i == 134 {
        RecordBody {
            name: "memory_stack_push",
            game_handler_ea: Some("0x00437E10"),
            pal_export_name: None,
            pal_export_ea: None,
            params: seq![],
            return_kind: ReturnKind::Integer,
            side_effects: seq![SideEffect::WritesVmMemory],
            purpose: "Snapshot the native script memory bank onto the memory stack.",
            evidence: seq![
                Evidence { kind: EvidenceKind::GameSqlite, reference: "reverse/Game.sqlite sub_437E10 copies 0x4000 bytes from ctx+715956 to ctx+738524+(depth*0x4000)" },
            ],
            implementation_status: ImplStatus::Verified,
            decompiler_status: ImplStatus::Verified,
        }
    } else if i == 135 {
        RecordBody {
            name: "memory_stack_pop",
            game_handler_ea: Some("0x00437D90"),
            pal_export_name: None,
            pal_export_ea: None,
            params: seq![],
            return_kind: ReturnKind::Integer,
            side_effects: seq![SideEffect::WritesVmMemory],
            purpose: "Restore the last native script memory-bank snapshot.",
            evidence: seq![
                Evidence { kind: EvidenceKind::GameSqlite, reference: "reverse/Game.sqlite sub_437D90 restores 0x4000 bytes from ctx+738524+(depth*0x4000) to ctx+715956" },
            ],
            implementation_status: ImplStatus::Verified,
            decompiler_status: ImplStatus::Verified,
        }
    } else if i == 136 {
        RecordBody {
            name: "list_stack_push_point",
            game_handler_ea: Some("0x00437CD0"),
            pal_export_name: None,
            pal_export_ea: None,
            params: seq![
                Param { name: "point_id", pop_idx: 0, kind: ParamKind::PointId, meaning: "script point id whose resolved address is pushed" },
            ],
            return_kind: ReturnKind::Integer,
            side_effects: seq![SideEffect::ChangesRunState],
            purpose: "Push a resolved script point onto the native list stack.",
            evidence: seq![
                Evidence { kind: EvidenceKind::GameSqlite, reference: "reverse/Game.sqlite sub_437CD0 pops point id, resolves point table, and PalListPushes the address" },
            ],
            implementation_status: ImplStatus::Verified,
            decompiler_status: ImplStatus::Verified,
        }
    } else if i == 137 {
        RecordBody {
            name: "list_stack_pop_count",
            game_handler_ea: Some("0x00437C00"),
            pal_export_name: None,
            pal_export_ea: None,
            params: seq![
                Param { name: "count_mode", pop_idx: 0, kind: ParamKind::Integer, meaning: "native list-pop count/control value" },
            ],
            return_kind: ReturnKind::Integer,
            side_effects: seq![SideEffect::ChangesRunState],
            purpose: "Pop native list-stack continuation entries.",
            evidence: seq![
                Evidence { kind: EvidenceKind::GameSqlite, reference: "reverse/Game.sqlite sub_437C00 pops count/control and PalListPops entries" },
            ],
            implementation_status: ImplStatus::Verified,
            decompiler_status: ImplStatus::Verified,
        }
    } else if i == 138 {
        RecordBody {
            name: "system_scratch_clear",
            game_handler_ea: Some("0x00437BA0"),
            pal_export_name: None,
            pal_export_ea: None,
            params: seq![],
            return_kind: ReturnKind::Integer,
            side_effects: seq![SideEffect::WritesVmMemory],
            purpose: "Clear Game.exe ctx+804244 system/list scratch latch.",
            evidence: seq![
                Evidence { kind: EvidenceKind::GameSqlite, reference: "reverse/Game.sqlite sub_437BA0 consumes no args and writes ctx+804244 = 0" },
            ],
            implementation_status: ImplStatus::Verified,
            decompiler_status: ImplStatus::Verified,
        }
    } else if i == 139 {
        RecordBody {
            name: "system_scratch_get",
            game_handler_ea: Some("0x00437B80"),
            pal_export_name: None,
            pal_export_ea: None,
            params: seq![],
            return_kind: ReturnKind::Integer,
            side_effects: seq![SideEffect::WritesVmMemory],
            purpose: "Return Game.exe ctx+804244 system/list scratch latch.",
            evidence: seq![
                Evidence { kind: EvidenceKind::GameSqlite, reference: "reverse/Game.sqlite sub_437B80 consumes no args and writes ctx+804244 to the extcall destination" },
            ],
            implementation_status: ImplStatus::Verified,
            decompiler_status: ImplStatus::Verified,
        }
    } else if i == 140 {
        RecordBody {
            name: "set_font_size",
            game_handler_ea: Some("0x00437B00"),
            pal_export_name: Some("PalFontSetFontSize"),
            pal_export_ea: Some("0x1011E734"),
            params: seq![
                Param { name: "font_size", pop_idx: 0, kind: ParamKind::Integer, meaning: "PAL font size" },
            ],
            return_kind: ReturnKind::Integer,
            side_effects: seq![SideEffect::MutatesWindow],
            purpose: "Set PAL shared UI font size and return previous size.",
            evidence: seq![
                Evidence { kind: EvidenceKind::GameSqlite, reference: "reverse/Game.sqlite sub_437B00 pops size, calls PalFontGetFontSize and PalFontSetFontSize" },
                Evidence { kind: EvidenceKind::PalSqlite, reference: "reverse/PAL.sqlite PalFontSetFontSize 0x1011E734 / PalFontGetFontSize 0x1011C59C" },
            ],
            implementation_status: ImplStatus::Verified,
            decompiler_status: ImplStatus::Verified,
        }
    } else if i == 141 {
        RecordBody {
            name: "get_font_size",
            game_handler_ea: Some("0x00437AC0"),
            pal_export_name: Some("PalFontGetFontSize"),
            pal_export_ea: Some("0x1011C59C"),
            params: seq![],
            return_kind: ReturnKind::Integer,
            side_effects: seq![SideEffect::WritesVmMemory],
            purpose: "Return PAL shared UI font size.",
            evidence: seq![
                Evidence { kind: EvidenceKind::GameSqlite, reference: "reverse/Game.sqlite sub_437AC0 writes PalFontGetFontSize to dst_slot" },
                Evidence { kind: EvidenceKind::PalSqlite, reference: "reverse/PAL.sqlite PalFontGetFontSize 0x1011C59C" },
            ],
            implementation_status: ImplStatus::Verified,
            decompiler_status: ImplStatus::Verified,
        }
    } else if i == 142 {
        RecordBody {
            name: "get_font_type",
            game_handler_ea: Some("0x00438050"),
            pal_export_name: Some("PalFontGetType"),
            pal_export_ea: Some("0x1011CA2E"),
            params: seq![],
            return_kind: ReturnKind::Integer,
            side_effects: seq![SideEffect::WritesVmMemory],
            purpose: "Return PAL shared UI font type/language.",
            evidence: seq![
                Evidence { kind: EvidenceKind::GameSqlite, reference: "reverse/Game.sqlite sub_438050 writes PalFontGetType to dst_slot" },
                Evidence { kind: EvidenceKind::PalSqlite, reference: "reverse/PAL.sqlite PalFontGetType 0x1011CA2E" },
            ],
            implementation_status: ImplStatus::Verified,
            decompiler_status: ImplStatus::Verified,
        }
    } else {
        RecordBody {
            name: "set_font_effect",
            game_handler_ea: Some("0x00437A60"),
            pal_export_name: None,
            pal_export_ea: None,
            params: seq![
                Param { name: "effect", pop_idx: 0, kind: ParamKind::Mode, meaning: "PAL font effect mode" },
            ],
            return_kind: ReturnKind::Integer,
            side_effects: seq![SideEffect::MutatesWindow],
            purpose: "Set PAL shared UI font effect mode.",
            evidence: seq![
                Evidence { kind: EvidenceKind::GameSqlite, reference: "reverse/Game.sqlite sub_437A60 pops effect and calls PalFontSetEffect" },
            ],
            implementation_status: ImplStatus::Verified,
            decompiler_status: ImplStatus::Verified,
        }
    }
}

pub open spec fn body_block_12(i: int) -> RecordBody {
    if i == 144 {
        RecordBody {
            name: "get_font_effect",
            game_handler_ea: Some("0x00437A20"),
            pal_export_name: None,
            pal_export_ea: None,
            params: seq![],
            return_kind: ReturnKind::Integer,
            side_effects: seq![SideEffect::WritesVmMemory],
            purpose: "Return PAL shared UI font effect mode.",
            evidence: seq![
                Evidence { kind: EvidenceKind::GameSqlite, reference: "reverse/Game.sqlite sub_437A20 writes PalFontGetEffect to dst_slot" },
            ],
            implementation_status: ImplStatus::Verified,
            decompiler_status: ImplStatus::Verified,
        }
    } else if i == 145 {
        RecordBody {
            name: "cancel_scene_skip",
            game_handler_ea: Some("0x00437150"),
            pal_export_name: None,
            pal_export_ea: None,
            params: seq![],
            return_kind: ReturnKind::Integer,
            side_effects: seq![SideEffect::ChangesRunState],
            purpose: "Cancel native scene-skip latch and update save-point state.",
            evidence: seq![
                Evidence { kind: EvidenceKind::GameSqlite, reference: "reverse/Game.sqlite sub_437150 consumes no args and clears ctx[201064] when scene skip is active" },
            ],
            implementation_status: ImplStatus::Verified,
            decompiler_status: ImplStatus::Verified,
        }
    } else if i == 146 {
        RecordBody {
            name: "list_stack_get_count",
            game_handler_ea: Some("0x00437BC0"),
            pal_export_name: None,
            pal_export_ea: None,
            params: seq![],
            return_kind: ReturnKind::Integer,
            side_effects: seq![SideEffect::WritesVmMemory],
            purpose: "Return native list-stack depth for tag 2.",
            evidence: seq![
                Evidence { kind: EvidenceKind::GameSqlite, reference: "reverse/Game.sqlite sub_437BC0 returns PalListGetDataCount(ctx+804228, 2)" },
                Evidence { kind: EvidenceKind::Disassembly, reference: "target/diagnostics/game_idb_extcalls.json maps category 9 index 53 to 0x00437BC0" },
            ],
            implementation_status: ImplStatus::Verified,
            decompiler_status: ImplStatus::Verified,
        }
    } else if i == 147 {
        RecordBody {
            name: "system_window_overlay_set",
            game_handler_ea: None,
            pal_export_name: None,
            pal_export_ea: None,
            params: seq![
                Param { name: "text_id", pop_idx: 0, kind: ParamKind::TextId, meaning: "text/resource id or sentinel" },
                Param { name: "value", pop_idx: 1, kind: ParamKind::Integer, meaning: "per-callsite value" },
                Param { name: "mode", pop_idx: 2, kind: ParamKind::Mode, meaning: "mode or sentinel 0x0FFFFFFF" },
            ],
            return_kind: ReturnKind::Integer,
            side_effects: seq![SideEffect::MutatesWindow],
            purpose: "Configure native system/window overlay record.",
            evidence: seq![
                Evidence { kind: EvidenceKind::Disassembly, reference: "Koikake docs/dis.txt reachable ext_000F_0004 callsites push three values; Totsulover Script.src 0x102088 pushes eight values" },
                Evidence { kind: EvidenceKind::RuntimeTrace, reference: "Totsulover startup leaves five stack values per call if only three are popped" },
            ],
            implementation_status: ImplStatus::Blocked,
            decompiler_status: ImplStatus::Partial,
        }
    } else if i == 148 {
        RecordBody {
            name: "debug_window_set",
            game_handler_ea: Some("0x00410F80"),
            pal_export_name: None,
            pal_export_ea: None,
            params: seq![
                Param { name: "state", pop_idx: 0, kind: ParamKind::Mode, meaning: "new PalDebugWindow state" },
            ],
            return_kind: ReturnKind::Integer,
            side_effects: seq![SideEffect::MutatesWindow],
            purpose: "Set PAL debug-window state and return previous state.",
            evidence: seq![
                Evidence { kind: EvidenceKind::GameSqlite, reference: "reverse/Game.sqlite sub_410F80 pops state, calls PalDebugWindowGetState/SetState, and returns old state" },
            ],
            implementation_status: ImplStatus::Verified,
            decompiler_status: ImplStatus::Verified,
        }
    } else if i == 149 {
        RecordBody {
            name: "system_btn_set",
            game_handler_ea: Some("0x00439270"),
            pal_export_name: None,
            pal_export_ea: None,
            params: seq![
                Param { name: "index", pop_idx: 0, kind: ParamKind::ButtonSlot, meaning: "" },
                Param { name: "image", pop_idx: 1, kind: ParamKind::ResourceStringFromFileDat, meaning: "" },
                Param { name: "state", pop_idx: 2, kind: ParamKind::Mode, meaning: "" },
            ],
            return_kind: ReturnKind::Void,
            side_effects: seq![SideEffect::ChangesSelectState, SideEffect::MutatesWindow],
            purpose: "Configure native system/menu button state in Game.exe's window button table.",
            evidence: seq![
                Evidence { kind: EvidenceKind::GameSqlite, reference: "reverse/Game.sqlite sub_439270 pops index/image/state and updates system button table" },
                Evidence { kind: EvidenceKind::RuntimeTrace, reference: "pal-vm dispatch_system_button_stub index 0 pops index/image/state" },
            ],
            implementation_status: ImplStatus::Verified,
            decompiler_status: ImplStatus::Verified,
        }
    } else if i == 150 {
        RecordBody {
            name: "system_btn_release",
            game_handler_ea: None,
            pal_export_name: None,
            pal_export_ea: None,
            params: seq![
                Param { name: "index", pop_idx: 0, kind: ParamKind::ButtonSlot, meaning: "" },
            ],
            return_kind: ReturnKind::Void,
            side_effects: seq![SideEffect::ChangesSelectState],
            purpose: "Release a system/menu button entry.",
            evidence: seq![
                Evidence { kind: EvidenceKind::GameSqlite, reference: "reverse/Game.sqlite system button handler; pal-vm dispatch_system_button_stub index 1 pops 1" },
            ],
            implementation_status: ImplStatus::Blocked,
            decompiler_status: ImplStatus::Blocked,
        }
    } else if i == 151 {
        RecordBody {
            name: "system_btn_enable",
            game_handler_ea: Some("0x00439100"),
            pal_export_name: None,
            pal_export_ea: None,
            params: seq![
                Param { name: "index", pop_idx: 0, kind: ParamKind::ButtonSlot, meaning: "" },
                Param { name: "enabled", pop_idx: 1, kind: ParamKind::Flag, meaning: "" },
            ],
            return_kind: ReturnKind::Void,
            side_effects: seq![SideEffect::ChangesSelectState],
            purpose: "Enable/disable a system/menu button entry.",
            evidence: seq![
                Evidence { kind: EvidenceKind::GameSqlite, reference: "reverse/Game.sqlite sub_439100 pops index/enabled and supports index 0xFFFF wildcard" },
                Evidence { kind: EvidenceKind::RuntimeTrace, reference: "pal-vm dispatch_system_button_stub index 2 pops index/enabled" },
            ],
            implementation_status: ImplStatus::Verified,
            decompiler_status: ImplStatus::Verified,
        }
    } else if i == 152 {
        RecordBody {
            name: "movie_play",
            game_handler_ea: None,
            pal_export_name: Some("PalMSpriteLoad"),
            pal_export_ea: Some("0x1011B39A"),
            params: seq![
                Param { name: "layer", pop_idx: 0, kind: ParamKind::SpriteSlot, meaning: "" },
                Param { name: "name", pop_idx: 1, kind: ParamKind::ResourceStringFromFileDat, meaning: "" },
            ],
            return_kind: ReturnKind::Void,
            side_effects: seq![SideEffect::CreatesMovie, SideEffect::CreatesSprite],
            purpose: "Open/play a full-screen or layer movie resource.",
            evidence: seq![
                Evidence { kind: EvidenceKind::Disassembly, reference: "docs/dis.txt 000B:0000" },
                Evidence { kind: EvidenceKind::PalSqlite, reference: "PalMSpriteLoad 0x1011B39A" },
                Evidence { kind: EvidenceKind::Writeup, reference: "docs/writeup.md MSprite" },
            ],
            implementation_status: ImplStatus::Blocked,
            decompiler_status: ImplStatus::Blocked,
        }
    } else if i == 153 {
        RecordBody {
            name: "msp_set_loop_sp_ep",
            game_handler_ea: None,
            pal_export_name: Some("PalMSpriteSetLoopPoint"),
            pal_export_ea: Some("0x1011B61A"),
            params: seq![
                Param { name: "slot", pop_idx: 0, kind: ParamKind::SpriteSlot, meaning: "" },
                Param { name: "name", pop_idx: 1, kind: ParamKind::ResourceStringFromFileDat, meaning: "" },
                Param { name: "loop_mode", pop_idx: 2, kind: ParamKind::Mode, meaning: "" },
                Param { name: "loop_start", pop_idx: 3, kind: ParamKind::Integer, meaning: "" },
                Param { name: "loop_end", pop_idx: 4, kind: ParamKind::Integer, meaning: "" },
                Param { name: "x", pop_idx: 5, kind: ParamKind::CoordinateX, meaning: "" },
                Param { name: "y", pop_idx: 6, kind: ParamKind::CoordinateY, meaning: "" },
                Param { name: "z", pop_idx: 7, kind: ParamKind::CoordinateZ, meaning: "" },
            ],
            return_kind: ReturnKind::Void,
            side_effects: seq![SideEffect::CreatesMovie, SideEffect::CreatesSprite, SideEffect::MutatesSprite],
            purpose: "Load an MSprite/movie into a sprite slot and configure loop/start/end points.",
            evidence: seq![
                Evidence { kind: EvidenceKind::Disassembly, reference: "docs/dis.txt 000B:0001" },
                Evidence { kind: EvidenceKind::PalSqlite, reference: "PalMSpriteSetLoopPoint 0x1011B61A / PalMSpriteSetLoop 0x1011E923" },
                Evidence { kind: EvidenceKind::Writeup, reference: "docs/writeup.md MSprite" },
            ],
            implementation_status: ImplStatus::Blocked,
            decompiler_status: ImplStatus::Blocked,
        }
    } else if i == 154 {
        RecordBody {
            name: "msp_cls",
            game_handler_ea: None,
            pal_export_name: Some("PalMSpriteStop"),
            pal_export_ea: Some("0x10119C7F"),
            params: seq![
                Param { name: "slot", pop_idx: 0, kind: ParamKind::SpriteSlot, meaning: "" },
            ],
            return_kind: ReturnKind::Void,
            side_effects: seq![SideEffect::DeletesSprite],
            purpose: "Release an MSprite/movie slot.",
            evidence: seq![
                Evidence { kind: EvidenceKind::Disassembly, reference: "docs/dis.txt 000B:0002" },
                Evidence { kind: EvidenceKind::PalSqlite, reference: "PalMSpriteStop 0x10119C7F" },
                Evidence { kind: EvidenceKind::Writeup, reference: "docs/writeup.md MSprite" },
            ],
            implementation_status: ImplStatus::Blocked,
            decompiler_status: ImplStatus::Blocked,
        }
    } else {
        RecordBody {
            name: "msp_wait",
            game_handler_ea: None,
            pal_export_name: Some("PalMSpriteGetState"),
            pal_export_ea: Some("0x10120BD3"),
            params: seq![
                Param { name: "slot", pop_idx: 0, kind: ParamKind::SpriteSlot, meaning: "" },
            ],
            return_kind: ReturnKind::Void,
            side_effects: seq![SideEffect::BlocksScript],
            purpose: "Wait until an MSprite/movie slot reaches the native finished bit.",
            evidence: seq![
                Evidence { kind: EvidenceKind::GameSqlite, reference: "reverse/Game.sqlite sub_42E240" },
                Evidence { kind: EvidenceKind::Disassembly, reference: "docs/dis.txt 000B:0003" },
                Evidence { kind: EvidenceKind::PalSqlite, reference: "PalMSpriteGetState 0x10120BD3" },
                Evidence { kind: EvidenceKind::Writeup, reference: "docs/writeup.md MSprite" },
            ],
            implementation_status: ImplStatus::Blocked,
            decompiler_status: ImplStatus::Blocked,
        }
    }
}

pub open spec fn body_block_13(i: int) -> RecordBody {
    if i == 156 {
        RecordBody {
            name: "msp_lock",
            game_handler_ea: None,
            pal_export_name: Some("PalMSpriteLock"),
            pal_export_ea: Some("0x1011A86E"),
            params: seq![
                Param { name: "slot", pop_idx: 0, kind: ParamKind::SpriteSlot, meaning: "" },
            ],
            return_kind: ReturnKind::Void,
            side_effects: seq![SideEffect::MutatesSprite],
            purpose: "Lock/pause decoder frame advancement.",
            evidence: seq![
                Evidence { kind: EvidenceKind::Disassembly, reference: "docs/dis.txt 000B:0004" },
                Evidence { kind: EvidenceKind::PalSqlite, reference: "PalMSpriteLock 0x1011A86E" },
                Evidence { kind: EvidenceKind::Writeup, reference: "docs/writeup.md MSprite" },
            ],
            implementation_status: ImplStatus::Blocked,
            decompiler_status: ImplStatus::Blocked,
        }
    } else if i == 157 {
        RecordBody {
            name: "msp_unlock",
            game_handler_ea: None,
            pal_export_name: Some("PalMSpriteUnlock"),
            pal_export_ea: Some("0x10120CD2"),
            params: seq![
                Param { name: "slot", pop_idx: 0, kind: ParamKind::SpriteSlot, meaning: "" },
            ],
            return_kind: ReturnKind::Void,
            side_effects: seq![SideEffect::MutatesSprite],
            purpose: "Unlock/resume decoder frame advancement.",
            evidence: seq![
                Evidence { kind: EvidenceKind::Disassembly, reference: "docs/dis.txt 000B:0005" },
                Evidence { kind: EvidenceKind::PalSqlite, reference: "PalMSpriteUnlock 0x10120CD2" },
                Evidence { kind: EvidenceKind::Writeup, reference: "docs/writeup.md MSprite" },
            ],
            implementation_status: ImplStatus::Blocked,
            decompiler_status: ImplStatus::Blocked,
        }
    } else if i == 158 {
        RecordBody {
            name: "voice_play",
            game_handler_ea: None,
            pal_export_name: None,
            pal_export_ea: None,
            params: seq![
                Param { name: "slot", pop_idx: 0, kind: ParamKind::SoundSlot, meaning: "" },
                Param { name: "name", pop_idx: 1, kind: ParamKind::ResourceStringFromFileDat, meaning: "" },
                Param { name: "flags", pop_idx: 2, kind: ParamKind::Flag, meaning: "" },
                Param { name: "volume", pop_idx: 3, kind: ParamKind::Volume, meaning: "" },
            ],
            return_kind: ReturnKind::Void,
            side_effects: seq![SideEffect::CreatesSound, SideEffect::PlaysSound],
            purpose: "Play voice resource.",
            evidence: seq![
                Evidence { kind: EvidenceKind::Writeup, reference: "docs/writeup.md audio" },
            ],
            implementation_status: ImplStatus::Blocked,
            decompiler_status: ImplStatus::Blocked,
        }
    } else if i == 159 {
        RecordBody {
            name: "voice_stop",
            game_handler_ea: None,
            pal_export_name: None,
            pal_export_ea: None,
            params: seq![
                Param { name: "slot", pop_idx: 0, kind: ParamKind::SoundSlot, meaning: "" },
                Param { name: "fade_ms", pop_idx: 1, kind: ParamKind::DurationMs, meaning: "" },
            ],
            return_kind: ReturnKind::Void,
            side_effects: seq![SideEffect::StopsSound],
            purpose: "Stop voice slot.",
            evidence: seq![
                Evidence { kind: EvidenceKind::Writeup, reference: "docs/writeup.md audio" },
            ],
            implementation_status: ImplStatus::Blocked,
            decompiler_status: ImplStatus::Blocked,
        }
    } else if i == 160 {
        RecordBody {
            name: "voice_set_volume",
            game_handler_ea: None,
            pal_export_name: None,
            pal_export_ea: None,
            params: seq![
                Param { name: "volume", pop_idx: 0, kind: ParamKind::Volume, meaning: "" },
            ],
            return_kind: ReturnKind::Void,
            side_effects: seq![SideEffect::PlaysSound],
            purpose: "Set global voice volume; runtime pops 1 arg (volume only, no per-slot).",
            evidence: seq![
                Evidence { kind: EvidenceKind::Writeup, reference: "docs/writeup.md audio" },
                Evidence { kind: EvidenceKind::RuntimeTrace, reference: "pal-vm dispatch_voice_ext index 2 pops 1" },
            ],
            implementation_status: ImplStatus::Blocked,
            decompiler_status: ImplStatus::Blocked,
        }
    } else if i == 161 {
        RecordBody {
            name: "voice_get_volume",
            game_handler_ea: None,
            pal_export_name: None,
            pal_export_ea: None,
            params: seq![],
            return_kind: ReturnKind::Integer,
            side_effects: seq![],
            purpose: "Read global voice volume.",
            evidence: seq![
                Evidence { kind: EvidenceKind::GameSqlite, reference: "reverse/Game.sqlite sub_4445A0" },
            ],
            implementation_status: ImplStatus::Blocked,
            decompiler_status: ImplStatus::Blocked,
        }
    } else if i == 162 {
        RecordBody {
            name: "voice_play_fade",
            game_handler_ea: Some("0x00444190"),
            pal_export_name: None,
            pal_export_ea: None,
            params: seq![
                Param { name: "fade_ms", pop_idx: 0, kind: ParamKind::DurationMs, meaning: "" },
            ],
            return_kind: ReturnKind::Integer,
            side_effects: seq![SideEffect::PlaysSound],
            purpose: "Set native voice-play fade/scheduling latch.",
            evidence: seq![
                Evidence { kind: EvidenceKind::GameSqlite, reference: "reverse/Game.sqlite sub_444190 pops one value and writes ctx+660028" },
                Evidence { kind: EvidenceKind::Writeup, reference: "reverse/GAME_VM_RE.md category 13 index 7 = VmExtcall_VoicePlayFade" },
            ],
            implementation_status: ImplStatus::Verified,
            decompiler_status: ImplStatus::Verified,
        }
    } else if i == 163 {
        RecordBody {
            name: "set_voice_autopan_size_over",
            game_handler_ea: Some("0x004438D0"),
            pal_export_name: None,
            pal_export_ea: None,
            params: seq![
                Param { name: "slot", pop_idx: 0, kind: ParamKind::Integer, meaning: "" },
                Param { name: "target", pop_idx: 1, kind: ParamKind::Integer, meaning: "" },
                Param { name: "name", pop_idx: 2, kind: ParamKind::TextStringFromTextDat, meaning: "" },
                Param { name: "mode", pop_idx: 3, kind: ParamKind::Integer, meaning: "" },
            ],
            return_kind: ReturnKind::Void,
            side_effects: seq![SideEffect::PlaysSound],
            purpose: "Configure or clear one native voice auto-pan table entry.",
            evidence: seq![
                Evidence { kind: EvidenceKind::GameSqlite, reference: "0x004438D0 VmExtcall_VoiceAutopanSizeOver pops slot,target,name,mode and mutates ctx+658964+40*slot" },
                Evidence { kind: EvidenceKind::RuntimeTrace, reference: "longrun-newgame-ctrl-60000 executes set_voice_autopan_size_over 4991 times" },
            ],
            implementation_status: ImplStatus::Verified,
            decompiler_status: ImplStatus::Verified,
        }
    } else if i == 164 {
        RecordBody {
            name: "voice_wait",
            game_handler_ea: None,
            pal_export_name: None,
            pal_export_ea: None,
            params: seq![
                Param { name: "slot", pop_idx: 0, kind: ParamKind::SoundSlot, meaning: "" },
            ],
            return_kind: ReturnKind::Void,
            side_effects: seq![SideEffect::BlocksScript],
            purpose: "Wait for voice slot completion.",
            evidence: seq![
                Evidence { kind: EvidenceKind::GameSqlite, reference: "reverse/Game.sqlite sub_443800" },
            ],
            implementation_status: ImplStatus::Blocked,
            decompiler_status: ImplStatus::Blocked,
        }
    } else if i == 165 {
        RecordBody {
            name: "save_thumbnail_mosaic_set",
            game_handler_ea: None,
            pal_export_name: None,
            pal_export_ea: None,
            params: seq![
                Param { name: "enabled", pop_idx: 0, kind: ParamKind::Flag, meaning: "" },
            ],
            return_kind: ReturnKind::Void,
            side_effects: seq![SideEffect::ChangesSaveState],
            purpose: "Set save thumbnail mosaic/processing flag used by save UI rendering.",
            evidence: seq![
                Evidence { kind: EvidenceKind::GameSqlite, reference: "reverse/Game.sqlite save dispatch index 12 pops 1" },
                Evidence { kind: EvidenceKind::RuntimeTrace, reference: "pal-vm dispatch_save_stub index 12 pops 1" },
            ],
            implementation_status: ImplStatus::Blocked,
            decompiler_status: ImplStatus::Blocked,
        }
    } else if i == 166 {
        RecordBody {
            name: "savetimedraw",
            game_handler_ea: None,
            pal_export_name: None,
            pal_export_ea: None,
            params: seq![
                Param { name: "sprite_slot", pop_idx: 0, kind: ParamKind::SpriteSlot, meaning: "" },
                Param { name: "save_slot", pop_idx: 1, kind: ParamKind::Integer, meaning: "" },
                Param { name: "x", pop_idx: 2, kind: ParamKind::CoordinateX, meaning: "" },
                Param { name: "y", pop_idx: 3, kind: ParamKind::CoordinateY, meaning: "" },
                Param { name: "format_mode", pop_idx: 4, kind: ParamKind::Mode, meaning: "" },
            ],
            return_kind: ReturnKind::Integer,
            side_effects: seq![SideEffect::CreatesSprite, SideEffect::ReadsFile],
            purpose: "Draw save-file modification time text into a save/load UI sprite slot.",
            evidence: seq![
                Evidence { kind: EvidenceKind::GameSqlite, reference: "reverse/Game.sqlite/IDB sub_431C70 AdvCommandSaveTimeDraw pops sprite/save/x/y/format and calls PalSpriteCreateText" },
            ],
            implementation_status: ImplStatus::Blocked,
            decompiler_status: ImplStatus::Verified,
        }
    } else {
        RecordBody {
            name: "history_scroll",
            game_handler_ea: Some("0x0042BA80"),
            pal_export_name: None,
            pal_export_ea: None,
            params: seq![],
            return_kind: ReturnKind::Integer,
            side_effects: seq![SideEffect::WritesVmMemory],
            purpose: "Return native history scroll/current offset.",
            evidence: seq![
                Evidence { kind: EvidenceKind::GameSqlite, reference: "reverse/Game.sqlite VmExtcall_HistScroll 0x0042BA80 returns ctx+88444" },
            ],
            implementation_status: ImplStatus::Verified,
            decompiler_status: ImplStatus::Verified,
        }
    }
}

pub open spec fn body_block_14(i: int) -> RecordBody {
    if i == 168 {
        RecordBody {
            name: "history_update",
            game_handler_ea: Some("0x0042B7C0"),
            pal_export_name: None,
            pal_export_ea: None,
            params: seq![],
            return_kind: ReturnKind::Integer,
            side_effects: seq![SideEffect::ChangesHistoryState],
            purpose: "Update interactive history/backlog hover/voice state.",
            evidence: seq![
                Evidence { kind: EvidenceKind::GameSqlite, reference: "reverse/Game.sqlite VmExtcall_HistUpdate 0x0042B7C0 pops no args and updates history sprite hover/voice playback" },
            ],
            implementation_status: ImplStatus::Blocked,
            decompiler_status: ImplStatus::Verified,
        }
    } else if i == 169 {
        RecordBody {
            name: "effect_stop_skip",
            game_handler_ea: Some("0x00412450"),
            pal_export_name: None,
            pal_export_ea: None,
            params: seq![],
            return_kind: ReturnKind::Integer,
            side_effects: seq![SideEffect::ChangesRunState, SideEffect::MutatesWindow],
            purpose: "Stop native transition/effect channels during skip/menu teardown.",
            evidence: seq![
                Evidence { kind: EvidenceKind::GameSqlite, reference: "reverse/Game.sqlite sub_412450 reads two native arg-stack fields (flags,duration) and stops selected effect channels; reachable script wrapper is zero-arg effect_stop_skip()" },
            ],
            implementation_status: ImplStatus::Blocked,
            decompiler_status: ImplStatus::Verified,
        }
    } else if i == 170 {
        RecordBody {
            name: "screen_shake",
            game_handler_ea: Some("0x004122A0"),
            pal_export_name: Some("PalEffectEnableIs"),
            pal_export_ea: Some("0x101195A9"),
            params: seq![
                Param { name: "x_amp", pop_idx: 0, kind: ParamKind::Integer, meaning: "" },
                Param { name: "y_amp", pop_idx: 1, kind: ParamKind::Integer, meaning: "" },
                Param { name: "duration_ms", pop_idx: 2, kind: ParamKind::DurationMs, meaning: "" },
                Param { name: "phase", pop_idx: 3, kind: ParamKind::Mode, meaning: "" },
            ],
            return_kind: ReturnKind::Void,
            side_effects: seq![SideEffect::MutatesWindow, SideEffect::ChangesRunState],
            purpose: "Start a native screen-shake effect.",
            evidence: seq![
                Evidence { kind: EvidenceKind::GameSqlite, reference: "reverse/Game.sqlite sub_4122A0 pops four shake args, stores ctx[201085..201088], and logs shake" },
                Evidence { kind: EvidenceKind::PalSqlite, reference: "reverse/PAL.sqlite PalEffectEnableIs 0x101195A9 guards effect availability" },
            ],
            implementation_status: ImplStatus::Blocked,
            decompiler_status: ImplStatus::Verified,
        }
    } else if i == 171 {
        RecordBody {
            name: "screen_flash",
            game_handler_ea: Some("0x004120C0"),
            pal_export_name: Some("PalEffectEnableIs"),
            pal_export_ea: Some("0x101195A9"),
            params: seq![
                Param { name: "red", pop_idx: 0, kind: ParamKind::Color, meaning: "" },
                Param { name: "green", pop_idx: 1, kind: ParamKind::Color, meaning: "" },
                Param { name: "blue", pop_idx: 2, kind: ParamKind::Color, meaning: "" },
                Param { name: "duration_ms", pop_idx: 3, kind: ParamKind::DurationMs, meaning: "" },
            ],
            return_kind: ReturnKind::Void,
            side_effects: seq![SideEffect::MutatesWindow, SideEffect::CreatesSprite, SideEffect::ChangesRunState],
            purpose: "Create a full-screen PAL flash/fill overlay.",
            evidence: seq![
                Evidence { kind: EvidenceKind::GameSqlite, reference: "reverse/Game.sqlite sub_4120C0 creates full-screen sprite, PalSpritePaints RGB, stores duration/start time, and logs flush" },
                Evidence { kind: EvidenceKind::PalSqlite, reference: "reverse/PAL.sqlite PalEffectEnableIs 0x101195A9 guards effect availability" },
            ],
            implementation_status: ImplStatus::Verified,
            decompiler_status: ImplStatus::Verified,
        }
    } else if i == 172 {
        RecordBody {
            name: "action_run_count_over",
            game_handler_ea: Some("0x0040B6E0"),
            pal_export_name: None,
            pal_export_ea: None,
            params: seq![
                Param { name: "action_id", pop_idx: 0, kind: ParamKind::Integer, meaning: "" },
                Param { name: "duration_ms", pop_idx: 1, kind: ParamKind::DurationMs, meaning: "" },
            ],
            return_kind: ReturnKind::Status,
            side_effects: seq![SideEffect::CreatesTask],
            purpose: "Start/check an asynchronous action counter without blocking.",
            evidence: seq![
                Evidence { kind: EvidenceKind::GameSqlite, reference: "reverse/Game.sqlite sub_40B6E0 pops action_id then duration, schedules action state, and returns 1" },
                Evidence { kind: EvidenceKind::RuntimeTrace, reference: "pal-vm dispatch_action_stub index 0 pops 2 and returns native status 1" },
            ],
            implementation_status: ImplStatus::Verified,
            decompiler_status: ImplStatus::Verified,
        }
    } else if i == 173 {
        RecordBody {
            name: "action_sync_run_count_over",
            game_handler_ea: Some("0x0040B5C0"),
            pal_export_name: None,
            pal_export_ea: None,
            params: seq![
                Param { name: "action_id", pop_idx: 0, kind: ParamKind::Integer, meaning: "" },
                Param { name: "duration_ms", pop_idx: 1, kind: ParamKind::DurationMs, meaning: "" },
            ],
            return_kind: ReturnKind::Bool,
            side_effects: seq![SideEffect::CreatesTask, SideEffect::BlocksScript],
            purpose: "Start an action counter and block until the duration elapses.",
            evidence: seq![
                Evidence { kind: EvidenceKind::GameSqlite, reference: "reverse/Game.sqlite sub_40B5C0 pops two values, schedules action state, sets blocking flag, and logs action_sync_run" },
                Evidence { kind: EvidenceKind::RuntimeTrace, reference: "pal-vm dispatch_action_stub index 1 pops 2 and returns WaitRequest::Time" },
            ],
            implementation_status: ImplStatus::Verified,
            decompiler_status: ImplStatus::Verified,
        }
    } else if i == 174 {
        RecordBody {
            name: "action_clear_count_over",
            game_handler_ea: Some("0x0040B430"),
            pal_export_name: None,
            pal_export_ea: None,
            params: seq![
                Param { name: "action_id", pop_idx: 0, kind: ParamKind::Integer, meaning: "" },
            ],
            return_kind: ReturnKind::Void,
            side_effects: seq![SideEffect::CreatesTask],
            purpose: "-1 clears the current action counter; otherwise clear/check the indexed action counter.",
            evidence: seq![
                Evidence { kind: EvidenceKind::GameSqlite, reference: "reverse/Game.sqlite sub_40B430 pops one action id, resolves -1 to active id, clears action memory, and returns 1" },
                Evidence { kind: EvidenceKind::RuntimeTrace, reference: "pal-vm dispatch_action_stub index 3 pops 1 and clears compatible action state" },
            ],
            implementation_status: ImplStatus::Verified,
            decompiler_status: ImplStatus::Verified,
        }
    } else if i == 175 {
        RecordBody {
            name: "action_timeline_entry",
            game_handler_ea: None,
            pal_export_name: None,
            pal_export_ea: None,
            params: seq![
                Param { name: "line_id", pop_idx: 0, kind: ParamKind::Integer, meaning: "" },
                Param { name: "sprite_slot", pop_idx: 1, kind: ParamKind::SpriteSlot, meaning: "" },
                Param { name: "delta_x", pop_idx: 2, kind: ParamKind::CoordinateX, meaning: "" },
                Param { name: "delta_y", pop_idx: 3, kind: ParamKind::CoordinateY, meaning: "" },
                Param { name: "delta_z", pop_idx: 4, kind: ParamKind::Integer, meaning: "" },
                Param { name: "duration_ms", pop_idx: 5, kind: ParamKind::DurationMs, meaning: "" },
            ],
            return_kind: ReturnKind::Void,
            side_effects: seq![SideEffect::CreatesTask, SideEffect::MutatesSprite],
            purpose: "Append a timed sprite-position delta action section.",
            evidence: seq![
                Evidence { kind: EvidenceKind::GameSqlite, reference: "reverse/Game.sqlite sub_40ADB0 pops line_id plus sprite_slot/dx/dy/dz/duration, writes section type 0, and resolves sprite_slot via sub_449120" },
                Evidence { kind: EvidenceKind::GameSqlite, reference: "reverse/Game.sqlite sub_446650 case 0 builds sub_403490 timed position delta and sub_403430 commits final position lanes" },
                Evidence { kind: EvidenceKind::RuntimeTrace, reference: "New Game path uses action_timeline_entry(0,12,0,-30,0,1000) to undo a temporary sp_set_pos_move offset" },
            ],
            implementation_status: ImplStatus::Verified,
            decompiler_status: ImplStatus::Verified,
        }
    } else if i == 176 {
        RecordBody {
            name: "action_timeline_entry_ex",
            game_handler_ea: None,
            pal_export_name: None,
            pal_export_ea: None,
            params: seq![
                Param { name: "action_id", pop_idx: 0, kind: ParamKind::Integer, meaning: "" },
                Param { name: "duration_ms", pop_idx: 1, kind: ParamKind::DurationMs, meaning: "" },
                Param { name: "from", pop_idx: 2, kind: ParamKind::Integer, meaning: "" },
                Param { name: "to", pop_idx: 3, kind: ParamKind::Integer, meaning: "" },
                Param { name: "mode", pop_idx: 4, kind: ParamKind::Mode, meaning: "" },
                Param { name: "flags", pop_idx: 5, kind: ParamKind::Flag, meaning: "" },
            ],
            return_kind: ReturnKind::Void,
            side_effects: seq![SideEffect::CreatesTask, SideEffect::MutatesSprite],
            purpose: "Append a six-argument Game.exe action/tween entry with a distinct native section type.",
            evidence: seq![
                Evidence { kind: EvidenceKind::GameSqlite, reference: "reverse/Game.sqlite action dispatch group 5/6/10/14/15/29 pops 6" },
                Evidence { kind: EvidenceKind::RuntimeTrace, reference: "pal-vm dispatch_action_stub index 6 pops 6" },
            ],
            implementation_status: ImplStatus::Blocked,
            decompiler_status: ImplStatus::Blocked,
        }
    } else if i == 177 {
        RecordBody {
            name: "action_timeline4_entry",
            game_handler_ea: None,
            pal_export_name: None,
            pal_export_ea: None,
            params: seq![
                Param { name: "duration_ms", pop_idx: 0, kind: ParamKind::DurationMs, meaning: "" },
                Param { name: "action_id", pop_idx: 1, kind: ParamKind::Integer, meaning: "" },
                Param { name: "arg2", pop_idx: 2, kind: ParamKind::Integer, meaning: "" },
                Param { name: "arg3", pop_idx: 3, kind: ParamKind::Integer, meaning: "" },
            ],
            return_kind: ReturnKind::Void,
            side_effects: seq![SideEffect::CreatesTask, SideEffect::MutatesSprite],
            purpose: "Append a four-argument Game.exe action/tween entry.",
            evidence: seq![
                Evidence { kind: EvidenceKind::GameSqlite, reference: "reverse/Game.sqlite action dispatch index 7/11 pops 4" },
                Evidence { kind: EvidenceKind::RuntimeTrace, reference: "pal-vm dispatch_action_stub index 7 pops 4" },
            ],
            implementation_status: ImplStatus::Blocked,
            decompiler_status: ImplStatus::Blocked,
        }
    } else if i == 178 {
        RecordBody {
            name: "action_alpha_delta",
            game_handler_ea: None,
            pal_export_name: None,
            pal_export_ea: None,
            params: seq![
                Param { name: "action_id", pop_idx: 0, kind: ParamKind::Integer, meaning: "" },
                Param { name: "sprite_slot", pop_idx: 1, kind: ParamKind::SpriteSlot, meaning: "" },
                Param { name: "alpha_delta", pop_idx: 2, kind: ParamKind::Integer, meaning: "" },
                Param { name: "duration_ms", pop_idx: 3, kind: ParamKind::DurationMs, meaning: "" },
            ],
            return_kind: ReturnKind::Void,
            side_effects: seq![SideEffect::CreatesTask, SideEffect::MutatesSprite],
            purpose: "Configure a timed sprite alpha-delta action.",
            evidence: seq![
                Evidence { kind: EvidenceKind::GameSqlite, reference: "reverse/Game.sqlite sub_446650 case 3 builds sub_402F30 timed alpha delta and sub_4494D0/sub_4498D0 commit through PalSpriteSetColor" },
                Evidence { kind: EvidenceKind::PalSqlite, reference: "PalSpriteSetColor 0x10119103" },
                Evidence { kind: EvidenceKind::Disassembly, reference: "docs/dis.txt point[809] formal args plus pack_args reversal produce pop order action_id,slot,delta,duration" },
                Evidence { kind: EvidenceKind::RuntimeTrace, reference: "EV104AA path decodes slot=21 duration=1500 and clears slot=21" },
            ],
            implementation_status: ImplStatus::Verified,
            decompiler_status: ImplStatus::Verified,
        }
    } else {
        RecordBody {
            name: "action_line_wait",
            game_handler_ea: Some("0x0040A390"),
            pal_export_name: None,
            pal_export_ea: None,
            params: seq![
                Param { name: "line_id", pop_idx: 0, kind: ParamKind::Integer, meaning: "" },
                Param { name: "duration_ms", pop_idx: 1, kind: ParamKind::DurationMs, meaning: "" },
            ],
            return_kind: ReturnKind::Void,
            side_effects: seq![SideEffect::CreatesTask],
            purpose: "Append a wait/timing section to a Game.exe action line.",
            evidence: seq![
                Evidence { kind: EvidenceKind::GameSqlite, reference: "reverse/Game.sqlite sub_40A390 pops line id and duration, writes action section type 3 and duration field" },
                Evidence { kind: EvidenceKind::RuntimeTrace, reference: "pal-vm dispatch_action_stub index 9 pops line_id/duration and schedules duration" },
            ],
            implementation_status: ImplStatus::Verified,
            decompiler_status: ImplStatus::Verified,
        }
    }
}

pub open spec fn body_block_15(i: int) -> RecordBody {
    if i == 180 {
        RecordBody {
            name: "action_timeline_entry_ease",
            game_handler_ea: None,
            pal_export_name: None,
            pal_export_ea: None,
            params: seq![
                Param { name: "action_id", pop_idx: 0, kind: ParamKind::Integer, meaning: "" },
                Param { name: "duration_ms", pop_idx: 1, kind: ParamKind::DurationMs, meaning: "" },
                Param { name: "from", pop_idx: 2, kind: ParamKind::Integer, meaning: "" },
                Param { name: "to", pop_idx: 3, kind: ParamKind::Integer, meaning: "" },
                Param { name: "mode", pop_idx: 4, kind: ParamKind::Mode, meaning: "" },
                Param { name: "flags", pop_idx: 5, kind: ParamKind::Flag, meaning: "" },
            ],
            return_kind: ReturnKind::Void,
            side_effects: seq![SideEffect::CreatesTask, SideEffect::MutatesSprite],
            purpose: "Append a six-argument Game.exe action/tween entry with easing section type.",
            evidence: seq![
                Evidence { kind: EvidenceKind::GameSqlite, reference: "reverse/Game.sqlite action dispatch group 5/6/10/14/15/29 pops 6" },
                Evidence { kind: EvidenceKind::RuntimeTrace, reference: "pal-vm dispatch_action_stub index 10 pops 6" },
            ],
            implementation_status: ImplStatus::Blocked,
            decompiler_status: ImplStatus::Blocked,
        }
    } else if i == 181 {
        RecordBody {
            name: "action_timeline4_entry_ex",
            game_handler_ea: None,
            pal_export_name: None,
            pal_export_ea: None,
            params: seq![
                Param { name: "duration_ms", pop_idx: 0, kind: ParamKind::DurationMs, meaning: "" },
                Param { name: "action_id", pop_idx: 1, kind: ParamKind::Integer, meaning: "" },
                Param { name: "arg2", pop_idx: 2, kind: ParamKind::Integer, meaning: "" },
                Param { name: "arg3", pop_idx: 3, kind: ParamKind::Integer, meaning: "" },
            ],
            return_kind: ReturnKind::Void,
            side_effects: seq![SideEffect::CreatesTask, SideEffect::MutatesSprite],
            purpose: "Four-argument action/tween helper sharing the index-7 path.",
            evidence: seq![
                Evidence { kind: EvidenceKind::GameSqlite, reference: "reverse/Game.sqlite action dispatch index 11 pops 4" },
                Evidence { kind: EvidenceKind::RuntimeTrace, reference: "pal-vm dispatch_action_stub index 11 pops 4" },
            ],
            implementation_status: ImplStatus::Blocked,
            decompiler_status: ImplStatus::Blocked,
        }
    } else if i == 182 {
        RecordBody {
            name: "action_timeline_entry_log",
            game_handler_ea: None,
            pal_export_name: None,
            pal_export_ea: None,
            params: seq![
                Param { name: "action_id", pop_idx: 0, kind: ParamKind::Integer, meaning: "" },
                Param { name: "duration_ms", pop_idx: 1, kind: ParamKind::DurationMs, meaning: "" },
                Param { name: "from", pop_idx: 2, kind: ParamKind::Integer, meaning: "" },
                Param { name: "to", pop_idx: 3, kind: ParamKind::Integer, meaning: "" },
                Param { name: "mode", pop_idx: 4, kind: ParamKind::Mode, meaning: "" },
                Param { name: "flags", pop_idx: 5, kind: ParamKind::Flag, meaning: "" },
            ],
            return_kind: ReturnKind::Void,
            side_effects: seq![SideEffect::CreatesTask, SideEffect::MutatesSprite],
            purpose: "Append a six-argument action/tween entry using a native log/ease section variant.",
            evidence: seq![
                Evidence { kind: EvidenceKind::GameSqlite, reference: "reverse/Game.sqlite action dispatch group 5/6/10/14/15/29 pops 6" },
                Evidence { kind: EvidenceKind::RuntimeTrace, reference: "pal-vm dispatch_action_stub index 14 pops 6" },
            ],
            implementation_status: ImplStatus::Blocked,
            decompiler_status: ImplStatus::Blocked,
        }
    } else if i == 183 {
        RecordBody {
            name: "action_timeline_entry_sine",
            game_handler_ea: None,
            pal_export_name: None,
            pal_export_ea: None,
            params: seq![
                Param { name: "action_id", pop_idx: 0, kind: ParamKind::Integer, meaning: "" },
                Param { name: "duration_ms", pop_idx: 1, kind: ParamKind::DurationMs, meaning: "" },
                Param { name: "from", pop_idx: 2, kind: ParamKind::Integer, meaning: "" },
                Param { name: "to", pop_idx: 3, kind: ParamKind::Integer, meaning: "" },
                Param { name: "mode", pop_idx: 4, kind: ParamKind::Mode, meaning: "" },
                Param { name: "flags", pop_idx: 5, kind: ParamKind::Flag, meaning: "" },
            ],
            return_kind: ReturnKind::Void,
            side_effects: seq![SideEffect::CreatesTask, SideEffect::MutatesSprite],
            purpose: "Append a six-argument action/tween entry using a native sine section variant.",
            evidence: seq![
                Evidence { kind: EvidenceKind::GameSqlite, reference: "reverse/Game.sqlite action dispatch group 5/6/10/14/15/29 pops 6" },
                Evidence { kind: EvidenceKind::RuntimeTrace, reference: "pal-vm dispatch_action_stub index 15 pops 6" },
            ],
            implementation_status: ImplStatus::Blocked,
            decompiler_status: ImplStatus::Blocked,
        }
    } else if i == 184 {
        RecordBody {
            name: "action_timeline_17",
            game_handler_ea: Some("0x0040A650"),
            pal_export_name: None,
            pal_export_ea: None,
            params: seq![
                Param { name: "line", pop_idx: 0, kind: ParamKind::Integer, meaning: "" },
                Param { name: "sprite", pop_idx: 1, kind: ParamKind::SpriteSlot, meaning: "" },
                Param { name: "arg2", pop_idx: 2, kind: ParamKind::Integer, meaning: "" },
                Param { name: "arg3", pop_idx: 3, kind: ParamKind::Integer, meaning: "" },
                Param { name: "duration", pop_idx: 4, kind: ParamKind::DurationMs, meaning: "" },
            ],
            return_kind: ReturnKind::Integer,
            side_effects: seq![SideEffect::CreatesTask, SideEffect::MutatesSprite],
            purpose: "Append native action timeline entry type 10.",
            evidence: seq![
                Evidence { kind: EvidenceKind::GameSqlite, reference: "reverse/Game.sqlite VmExtcall_ActionTimeline17 0x0040A650 pops line plus four action args and stores type 10" },
            ],
            implementation_status: ImplStatus::Verified,
            decompiler_status: ImplStatus::Verified,
        }
    } else if i == 185 {
        RecordBody {
            name: "action_timeline_rect",
            game_handler_ea: Some("0x004097A0"),
            pal_export_name: None,
            pal_export_ea: None,
            params: seq![
                Param { name: "line_id", pop_idx: 0, kind: ParamKind::Integer, meaning: "" },
                Param { name: "left", pop_idx: 1, kind: ParamKind::CoordinateX, meaning: "" },
                Param { name: "top", pop_idx: 2, kind: ParamKind::CoordinateY, meaning: "" },
                Param { name: "right", pop_idx: 3, kind: ParamKind::CoordinateX, meaning: "" },
                Param { name: "bottom", pop_idx: 4, kind: ParamKind::CoordinateY, meaning: "" },
            ],
            return_kind: ReturnKind::Void,
            side_effects: seq![SideEffect::CreatesTask, SideEffect::MutatesSprite],
            purpose: "Append a source-rect action section to an action line.",
            evidence: seq![
                Evidence { kind: EvidenceKind::GameSqlite, reference: "reverse/Game.sqlite sub_4097A0 pops line id, reads four action args via sub_44B050, writes section type 20" },
                Evidence { kind: EvidenceKind::RuntimeTrace, reference: "pal-vm dispatch_action_stub index 20 pops 5" },
            ],
            implementation_status: ImplStatus::Blocked,
            decompiler_status: ImplStatus::Blocked,
        }
    } else if i == 186 {
        RecordBody {
            name: "action_push",
            game_handler_ea: None,
            pal_export_name: None,
            pal_export_ea: None,
            params: seq![],
            return_kind: ReturnKind::Void,
            side_effects: seq![SideEffect::CreatesTask],
            purpose: "Push current Game action context onto the action stack.",
            evidence: seq![
                Evidence { kind: EvidenceKind::GameSqlite, reference: "reverse/Game.sqlite sub_4096D0 action_push copies current action block to heap backup" },
            ],
            implementation_status: ImplStatus::Blocked,
            decompiler_status: ImplStatus::Blocked,
        }
    } else if i == 187 {
        RecordBody {
            name: "action_pop",
            game_handler_ea: None,
            pal_export_name: None,
            pal_export_ea: None,
            params: seq![],
            return_kind: ReturnKind::Void,
            side_effects: seq![SideEffect::CreatesTask],
            purpose: "Restore the previous Game action context from the action stack.",
            evidence: seq![
                Evidence { kind: EvidenceKind::GameSqlite, reference: "reverse/Game.sqlite sub_409660 action_pop restores heap-saved action block" },
            ],
            implementation_status: ImplStatus::Blocked,
            decompiler_status: ImplStatus::Blocked,
        }
    } else if i == 188 {
        RecordBody {
            name: "set_active_action",
            game_handler_ea: Some("0x004095C0"),
            pal_export_name: None,
            pal_export_ea: None,
            params: seq![
                Param { name: "action_id", pop_idx: 0, kind: ParamKind::Integer, meaning: "" },
            ],
            return_kind: ReturnKind::Void,
            side_effects: seq![SideEffect::CreatesTask],
            purpose: "Set the active action id used by later action query/clear calls.",
            evidence: seq![
                Evidence { kind: EvidenceKind::GameSqlite, reference: "reverse/Game.sqlite sub_4095C0 pops action_id, validates <16, stores old/current active ids, and logs set_active_action" },
                Evidence { kind: EvidenceKind::RuntimeTrace, reference: "pal-vm dispatch_action_stub index 23 pops action_id and updates active action" },
            ],
            implementation_status: ImplStatus::Verified,
            decompiler_status: ImplStatus::Verified,
        }
    } else if i == 189 {
        RecordBody {
            name: "action_timeline_entry2",
            game_handler_ea: None,
            pal_export_name: None,
            pal_export_ea: None,
            params: seq![
                Param { name: "line_id", pop_idx: 0, kind: ParamKind::Integer, meaning: "" },
                Param { name: "sprite_slot", pop_idx: 1, kind: ParamKind::SpriteSlot, meaning: "" },
                Param { name: "delta_x", pop_idx: 2, kind: ParamKind::CoordinateX, meaning: "" },
                Param { name: "delta_y", pop_idx: 3, kind: ParamKind::CoordinateY, meaning: "" },
                Param { name: "delta_z", pop_idx: 4, kind: ParamKind::Integer, meaning: "" },
                Param { name: "duration_ms", pop_idx: 5, kind: ParamKind::DurationMs, meaning: "" },
            ],
            return_kind: ReturnKind::Void,
            side_effects: seq![SideEffect::CreatesTask, SideEffect::MutatesSprite],
            purpose: "Append a timed sprite-position delta action section.",
            evidence: seq![
                Evidence { kind: EvidenceKind::GameSqlite, reference: "reverse/Game.sqlite sub_40AC70 pops line_id plus sprite_slot/dx/dy/dz/duration via sub_44B050, stores section type 15, and resolves sprite_slot via sub_449120" },
                Evidence { kind: EvidenceKind::RuntimeTrace, reference: "New Game ST05A path: sp_set_pos_move(slot=12,dy=-500) followed by action_timeline_entry2 tween restoring the standing sprite" },
            ],
            implementation_status: ImplStatus::Verified,
            decompiler_status: ImplStatus::Verified,
        }
    } else if i == 190 {
        RecordBody {
            name: "set_action_clear",
            game_handler_ea: Some("0x0040B3A0"),
            pal_export_name: None,
            pal_export_ea: None,
            params: seq![
                Param { name: "action_id", pop_idx: 0, kind: ParamKind::Integer, meaning: "" },
            ],
            return_kind: ReturnKind::Void,
            side_effects: seq![SideEffect::CreatesTask],
            purpose: "-1 clears current action state; otherwise sets/clears the indexed action flag.",
            evidence: seq![
                Evidence { kind: EvidenceKind::GameSqlite, reference: "reverse/Game.sqlite sub_40B3A0 pops one action id, resolves -1 to active id, marks action clear, and returns 1" },
                Evidence { kind: EvidenceKind::RuntimeTrace, reference: "pal-vm dispatch_action_stub index 30 pops 1 and updates active action clear state" },
            ],
            implementation_status: ImplStatus::Verified,
            decompiler_status: ImplStatus::Verified,
        }
    } else {
        RecordBody {
            name: "app_exec",
            game_handler_ea: Some("0x0041AB90"),
            pal_export_name: None,
            pal_export_ea: None,
            params: seq![
                Param { name: "path", pop_idx: 0, kind: ParamKind::TextStringFromTextDat, meaning: "executable/file path" },
            ],
            return_kind: ReturnKind::Integer,
            side_effects: seq![SideEffect::ReadsFile, SideEffect::MutatesWindow],
            purpose: "Open a resolved path through the OS shell; portable runtime records but does not launch.",
            evidence: seq![
                Evidence { kind: EvidenceKind::GameSqlite, reference: "reverse/Game.sqlite sub_41AB90 pops one string and calls ShellExecuteA" },
                Evidence { kind: EvidenceKind::Disassembly, reference: "docs/dis.txt 00059EA0 pushes path before ext_0012_0001" },
            ],
            implementation_status: ImplStatus::Blocked,
            decompiler_status: ImplStatus::Verified,
        }
    }
}

pub open spec fn body_block_16(i: int) -> RecordBody {
    if i == 192 {
        RecordBody {
            name: "string_not_equal",
            game_handler_ea: Some("0x0041EBD0"),
            pal_export_name: None,
            pal_export_ea: None,
            params: seq![
                Param { name: "lhs", pop_idx: 0, kind: ParamKind::TextStringFromTextDat, meaning: "first script/dynamic string" },
                Param { name: "rhs", pop_idx: 1, kind: ParamKind::TextStringFromTextDat, meaning: "second script/dynamic string" },
            ],
            return_kind: ReturnKind::Bool,
            side_effects: seq![SideEffect::WritesVmMemory],
            purpose: "Case-insensitive string inequality test used by table scan loops.",
            evidence: seq![
                Evidence { kind: EvidenceKind::GameSqlite, reference: "reverse/Game.sqlite sub_41EBD0 pops two strings, lowercases both, strcmp()s, and returns strcmp != 0" },
                Evidence { kind: EvidenceKind::Disassembly, reference: "docs/dis.txt 00004170/0000F470/000637D0 push two args before ext_0012_0003" },
            ],
            implementation_status: ImplStatus::Verified,
            decompiler_status: ImplStatus::Verified,
        }
    } else if i == 193 {
        RecordBody {
            name: "strcatf_string",
            game_handler_ea: Some("0x0041A850"),
            pal_export_name: None,
            pal_export_ea: None,
            params: seq![
                Param { name: "dst", pop_idx: 0, kind: ParamKind::BufferPointer, meaning: "dynamic string destination" },
                Param { name: "src", pop_idx: 1, kind: ParamKind::TextStringFromTextDat, meaning: "string to append" },
            ],
            return_kind: ReturnKind::Integer,
            side_effects: seq![SideEffect::WritesVmMemory],
            purpose: "Append resolved string to dynamic string buffer.",
            evidence: seq![
                Evidence { kind: EvidenceKind::GameSqlite, reference: "reverse/Game.sqlite sub_41A850 pops dst/src and appends resolved string to dynamic buffer" },
            ],
            implementation_status: ImplStatus::Verified,
            decompiler_status: ImplStatus::Verified,
        }
    } else if i == 194 {
        RecordBody {
            name: "strgetcf",
            game_handler_ea: Some("0x0041A6B0"),
            pal_export_name: None,
            pal_export_ea: None,
            params: seq![
                Param { name: "text", pop_idx: 0, kind: ParamKind::TextStringFromTextDat, meaning: "source script/dynamic string" },
                Param { name: "offset", pop_idx: 1, kind: ParamKind::Integer, meaning: "byte offset" },
                Param { name: "length", pop_idx: 2, kind: ParamKind::Integer, meaning: "0 for one byte, non-zero for digit substring" },
            ],
            return_kind: ReturnKind::Integer,
            side_effects: seq![SideEffect::WritesVmMemory],
            purpose: "Read a character byte or parse a numeric substring from a resolved string.",
            evidence: seq![
                Evidence { kind: EvidenceKind::GameSqlite, reference: "reverse/Game.sqlite/IDB sub_41A6B0 pops string, offset, length and returns byte or parsed digit substring" },
                Evidence { kind: EvidenceKind::RuntimeTrace, reference: "file_string/strlenf table loops call ext_0012_0005 for character/numeric fields" },
            ],
            implementation_status: ImplStatus::Verified,
            decompiler_status: ImplStatus::Verified,
        }
    } else if i == 195 {
        RecordBody {
            name: "string_alloc",
            game_handler_ea: Some("0x0041AAF0"),
            pal_export_name: None,
            pal_export_ea: None,
            params: seq![
                Param { name: "ignored", pop_idx: 0, kind: ParamKind::Integer, meaning: "" },
            ],
            return_kind: ReturnKind::StringId,
            side_effects: seq![SideEffect::WritesVmMemory],
            purpose: "Allocate/clear one native rotating dynamic string buffer and return its 0x10000000-tagged handle.",
            evidence: seq![
                Evidence { kind: EvidenceKind::GameSqlite, reference: "0x0041AAF0 pops one ignored value, clears 2047-byte dynamic string slot ctx[192823], advances modulo 16, and writes slot|0x10000000" },
                Evidence { kind: EvidenceKind::RuntimeTrace, reference: "longrun-newgame-ctrl-60000 executes ext_0012_0006 1519 times" },
            ],
            implementation_status: ImplStatus::Verified,
            decompiler_status: ImplStatus::Verified,
        }
    } else if i == 196 {
        RecordBody {
            name: "strcpyf_string",
            game_handler_ea: Some("0x0041A4B0"),
            pal_export_name: None,
            pal_export_ea: None,
            params: seq![
                Param { name: "dst", pop_idx: 0, kind: ParamKind::BufferPointer, meaning: "dynamic string destination" },
                Param { name: "src", pop_idx: 1, kind: ParamKind::TextStringFromTextDat, meaning: "source string" },
                Param { name: "len", pop_idx: 2, kind: ParamKind::Integer, meaning: "copy length or -1 for full" },
            ],
            return_kind: ReturnKind::Integer,
            side_effects: seq![SideEffect::WritesVmMemory],
            purpose: "Copy resolved string to dynamic string buffer with optional length.",
            evidence: seq![
                Evidence { kind: EvidenceKind::GameSqlite, reference: "reverse/Game.sqlite sub_41A4B0 pops dst/src/len and strncpy()s into dynamic buffer" },
            ],
            implementation_status: ImplStatus::Verified,
            decompiler_status: ImplStatus::Verified,
        }
    } else if i == 197 {
        RecordBody {
            name: "file_exist",
            game_handler_ea: Some("0x0041A260"),
            pal_export_name: None,
            pal_export_ea: None,
            params: seq![
                Param { name: "path", pop_idx: 0, kind: ParamKind::TextStringFromTextDat, meaning: "resource or filesystem path" },
            ],
            return_kind: ReturnKind::Bool,
            side_effects: seq![SideEffect::ReadsFile],
            purpose: "Return whether a resolved resource/path exists.",
            evidence: seq![
                Evidence { kind: EvidenceKind::GameSqlite, reference: "reverse/Game.sqlite sub_41A260 pops one string and calls PalFileCreate" },
                Evidence { kind: EvidenceKind::Disassembly, reference: "docs/dis.txt 00067BF0/00068390 push path before file_exist" },
            ],
            implementation_status: ImplStatus::Verified,
            decompiler_status: ImplStatus::Verified,
        }
    } else if i == 198 {
        RecordBody {
            name: "wsprint",
            game_handler_ea: Some("0x00419560"),
            pal_export_name: None,
            pal_export_ea: None,
            params: seq![
                Param { name: "dst", pop_idx: 0, kind: ParamKind::BufferPointer, meaning: "destination dynamic string handle" },
                Param { name: "format", pop_idx: 1, kind: ParamKind::TextStringFromTextDat, meaning: "printf-like format string" },
                Param { name: "value0", pop_idx: 2, kind: ParamKind::Integer, meaning: "format operand 0" },
                Param { name: "value1", pop_idx: 3, kind: ParamKind::Integer, meaning: "format operand 1" },
                Param { name: "value2", pop_idx: 4, kind: ParamKind::Integer, meaning: "format operand 2" },
                Param { name: "value3", pop_idx: 5, kind: ParamKind::Integer, meaning: "format operand 3" },
                Param { name: "value4", pop_idx: 6, kind: ParamKind::Integer, meaning: "format operand 4" },
                Param { name: "value5", pop_idx: 7, kind: ParamKind::Integer, meaning: "format operand 5" },
                Param { name: "value6", pop_idx: 8, kind: ParamKind::Integer, meaning: "format operand 6" },
                Param { name: "value7", pop_idx: 9, kind: ParamKind::Integer, meaning: "format operand 7" },
            ],
            return_kind: ReturnKind::Integer,
            side_effects: seq![SideEffect::WritesVmMemory],
            purpose: "Format a script string into a dynamic string buffer.",
            evidence: seq![
                Evidence { kind: EvidenceKind::GameSqlite, reference: "0x00419560 sub_419560 pops dst/format/eight values and writes formatted bytes to dynamic string storage" },
                Evidence { kind: EvidenceKind::RuntimeTrace, reference: "codex-sprite-transition-new showed strlenf on freshly allocated handles staying 0 under the old zero-pop fallback" },
            ],
            implementation_status: ImplStatus::Verified,
            decompiler_status: ImplStatus::Verified,
        }
    } else if i == 199 {
        RecordBody {
            name: "check_disc",
            game_handler_ea: Some("0x00419370"),
            pal_export_name: None,
            pal_export_ea: None,
            params: seq![
                Param { name: "volume_label", pop_idx: 0, kind: ParamKind::TextStringFromTextDat, meaning: "requested CD/DVD volume label" },
            ],
            return_kind: ReturnKind::Bool,
            side_effects: seq![SideEffect::ReadsFile],
            purpose: "Check mounted disc volume label; portable runtime accepts the check.",
            evidence: seq![
                Evidence { kind: EvidenceKind::GameSqlite, reference: "reverse/Game.sqlite sub_419370 pops one label and scans CD-ROM volume labels, with debug return 1" },
                Evidence { kind: EvidenceKind::Disassembly, reference: "docs/dis.txt 0002D03C/0002D168 push label before check_disc" },
            ],
            implementation_status: ImplStatus::Verified,
            decompiler_status: ImplStatus::Verified,
        }
    } else if i == 200 {
        RecordBody {
            name: "strlen",
            game_handler_ea: Some("0x0041EAC0"),
            pal_export_name: None,
            pal_export_ea: None,
            params: seq![
                Param { name: "value", pop_idx: 0, kind: ParamKind::TextStringFromTextDat, meaning: "script/dynamic string handle" },
            ],
            return_kind: ReturnKind::Integer,
            side_effects: seq![SideEffect::WritesVmMemory],
            purpose: "Return byte length of a script/dynamic string.",
            evidence: seq![
                Evidence { kind: EvidenceKind::GameSqlite, reference: "reverse/Game.sqlite sub_41EAC0 pops one dynamic string handle and returns strlen" },
                Evidence { kind: EvidenceKind::Disassembly, reference: "docs/dis.txt 0005D420 uses ext_0012_000C return as a condition" },
            ],
            implementation_status: ImplStatus::Verified,
            decompiler_status: ImplStatus::Verified,
        }
    } else if i == 201 {
        RecordBody {
            name: "process_checkpoint_set",
            game_handler_ea: Some("0x0041B8D0"),
            pal_export_name: None,
            pal_export_ea: None,
            params: seq![
                Param { name: "checkpoint_id", pop_idx: 0, kind: ParamKind::PointId, meaning: "script/process checkpoint id" },
            ],
            return_kind: ReturnKind::Integer,
            side_effects: seq![SideEffect::ChangesRunState],
            purpose: "Store native script/process checkpoint id for the return/list scheduler.",
            evidence: seq![
                Evidence { kind: EvidenceKind::GameSqlite, reference: "reverse/Game.sqlite sub_41B8D0 pops one id, pushes current process point with PalList tag 3, and stores dword_54CE38" },
                Evidence { kind: EvidenceKind::Disassembly, reference: "docs/dis.txt 0011A054/0011A068/0011A07C pass point ids to ext_0012_000D" },
            ],
            implementation_status: ImplStatus::Blocked,
            decompiler_status: ImplStatus::Blocked,
        }
    } else if i == 202 {
        RecordBody {
            name: "update_access",
            game_handler_ea: Some("0x00417C20"),
            pal_export_name: None,
            pal_export_ea: None,
            params: seq![
                Param { name: "entry", pop_idx: 0, kind: ParamKind::TextStringFromTextDat, meaning: "access flag id or resource string" },
            ],
            return_kind: ReturnKind::Integer,
            side_effects: seq![SideEffect::WritesVmMemory, SideEffect::ReadsFile],
            purpose: "Mark native access/read flag entry.",
            evidence: seq![
                Evidence { kind: EvidenceKind::GameSqlite, reference: "reverse/Game.sqlite sub_417C20 pops one id/string and mutates native access bits" },
                Evidence { kind: EvidenceKind::Disassembly, reference: "docs/dis.txt 0005B828/00063410/00064C48 push entry before update_access" },
            ],
            implementation_status: ImplStatus::Blocked,
            decompiler_status: ImplStatus::Verified,
        }
    } else {
        RecordBody {
            name: "system_task_value",
            game_handler_ea: Some("0x00417BD0"),
            pal_export_name: None,
            pal_export_ea: None,
            params: seq![],
            return_kind: ReturnKind::Integer,
            side_effects: seq![SideEffect::WritesVmMemory],
            purpose: "Return native task-data value when the system latch is active.",
            evidence: seq![
                Evidence { kind: EvidenceKind::GameSqlite, reference: "reverse/Game.sqlite sub_417BD0 pops no args and returns PalTaskGetTaskData(0)+820 when dword_4BD0C0 is set" },
            ],
            implementation_status: ImplStatus::Blocked,
            decompiler_status: ImplStatus::Verified,
        }
    }
}

pub open spec fn body_block_17(i: int) -> RecordBody {
    if i == 204 {
        RecordBody {
            name: "work_process_value",
            game_handler_ea: Some("0x00417AF0"),
            pal_export_name: None,
            pal_export_ea: None,
            params: seq![
                Param { name: "arg_base_value", pop_idx: 0, kind: ParamKind::Integer, meaning: "argument-base value passed to native helper" },
            ],
            return_kind: ReturnKind::Integer,
            side_effects: seq![SideEffect::WritesVmMemory, SideEffect::ChangesRunState],
            purpose: "Query/update native background work-process value.",
            evidence: seq![
                Evidence { kind: EvidenceKind::GameSqlite, reference: "reverse/Game.sqlite sub_417AF0 calls sub_44A6C0(&value), returns value, and sets +804084" },
                Evidence { kind: EvidenceKind::Disassembly, reference: "docs/dis.txt 0002CE0C pushes arg_base+64 before ext_0012_0011" },
            ],
            implementation_status: ImplStatus::Blocked,
            decompiler_status: ImplStatus::Verified,
        }
    } else if i == 205 {
        RecordBody {
            name: "strreplace_string",
            game_handler_ea: Some("0x0041A330"),
            pal_export_name: None,
            pal_export_ea: None,
            params: seq![
                Param { name: "dst", pop_idx: 0, kind: ParamKind::BufferPointer, meaning: "dynamic string destination" },
                Param { name: "needle", pop_idx: 1, kind: ParamKind::TextStringFromTextDat, meaning: "substring to replace" },
                Param { name: "replacement", pop_idx: 2, kind: ParamKind::TextStringFromTextDat, meaning: "replacement string" },
            ],
            return_kind: ReturnKind::Integer,
            side_effects: seq![SideEffect::WritesVmMemory],
            purpose: "Replace first substring occurrence in dynamic string buffer.",
            evidence: seq![
                Evidence { kind: EvidenceKind::GameSqlite, reference: "reverse/Game.sqlite sub_41A330 pops dst/needle/replacement and memmove()s replacement into the dynamic string" },
            ],
            implementation_status: ImplStatus::Verified,
            decompiler_status: ImplStatus::Verified,
        }
    } else if i == 206 {
        RecordBody {
            name: "strlenf",
            game_handler_ea: Some("0x0041A5F0"),
            pal_export_name: None,
            pal_export_ea: None,
            params: seq![
                Param { name: "value", pop_idx: 0, kind: ParamKind::TextStringFromTextDat, meaning: "script/dynamic string handle" },
            ],
            return_kind: ReturnKind::Integer,
            side_effects: seq![SideEffect::WritesVmMemory],
            purpose: "Return native strlen byte length for a resolved script/dynamic string.",
            evidence: seq![
                Evidence { kind: EvidenceKind::GameSqlite, reference: "0x0041A5F0 sub_41A5F0 pops one string handle, calls sub_44B1E0, strlen(Str1), and writes length to ctx[dst + 177710]" },
                Evidence { kind: EvidenceKind::RuntimeTrace, reference: "longrun-newgame-ctrl-60000 executes ext_0012_0015 48839 times before file/string loop branches" },
            ],
            implementation_status: ImplStatus::Verified,
            decompiler_status: ImplStatus::Verified,
        }
    } else if i == 207 {
        RecordBody {
            name: "attach_work_process",
            game_handler_ea: Some("0x00417A50"),
            pal_export_name: Some("PalAttachWorkProcess"),
            pal_export_ea: Some("0x1011CCA9"),
            params: seq![],
            return_kind: ReturnKind::Integer,
            side_effects: seq![SideEffect::CreatesTask, SideEffect::WritesVmMemory, SideEffect::ChangesRunState],
            purpose: "Attach the Game.exe/PAL background work-process pump.",
            evidence: seq![
                Evidence { kind: EvidenceKind::GameSqlite, reference: "reverse/Game.sqlite sub_417A50 pops no args, sets +804088/+804084, calls PalAttachWorkProcess(sub_44A080, PalTaskGetTaskData(0)+824)" },
                Evidence { kind: EvidenceKind::PalSqlite, reference: "reverse/PAL.sqlite PalAttachWorkProcess 0x1011CCA9 -> PalAttachWorkProcess_0 0x10237F80 posts PAL work-thread message" },
            ],
            implementation_status: ImplStatus::Verified,
            decompiler_status: ImplStatus::Verified,
        }
    } else if i == 208 {
        RecordBody {
            name: "detach_work_process",
            game_handler_ea: Some("0x00417A30"),
            pal_export_name: None,
            pal_export_ea: None,
            params: seq![],
            return_kind: ReturnKind::Integer,
            side_effects: seq![SideEffect::WritesVmMemory, SideEffect::ChangesRunState],
            purpose: "Detach the Game.exe/PAL background work-process pump flag.",
            evidence: seq![
                Evidence { kind: EvidenceKind::GameSqlite, reference: "reverse/Game.sqlite sub_417A30 pops no args and clears +804088" },
            ],
            implementation_status: ImplStatus::Verified,
            decompiler_status: ImplStatus::Verified,
        }
    } else if i == 209 {
        RecordBody {
            name: "openfile",
            game_handler_ea: None,
            pal_export_name: None,
            pal_export_ea: None,
            params: seq![
                Param { name: "name", pop_idx: 0, kind: ParamKind::TextStringFromTextDat, meaning: "" },
            ],
            return_kind: ReturnKind::Handle,
            side_effects: seq![SideEffect::ReadsFile],
            purpose: "Open resource/file by resolved script string; returns runtime file handle or 0.",
            evidence: seq![
                Evidence { kind: EvidenceKind::Writeup, reference: "docs/writeup.md 24.9" },
            ],
            implementation_status: ImplStatus::Blocked,
            decompiler_status: ImplStatus::Blocked,
        }
    } else if i == 210 {
        RecordBody {
            name: "read_file",
            game_handler_ea: None,
            pal_export_name: None,
            pal_export_ea: None,
            params: seq![
                Param { name: "handle", pop_idx: 0, kind: ParamKind::Handle, meaning: "" },
                Param { name: "temp_offset", pop_idx: 1, kind: ParamKind::BufferPointer, meaning: "" },
                Param { name: "count", pop_idx: 2, kind: ParamKind::Integer, meaning: "" },
            ],
            return_kind: ReturnKind::Integer,
            side_effects: seq![SideEffect::ReadsFile, SideEffect::WritesVmMemory],
            purpose: "Read file/table bytes into VM temp memory.",
            evidence: seq![
                Evidence { kind: EvidenceKind::Writeup, reference: "docs/writeup.md 24.9" },
            ],
            implementation_status: ImplStatus::Blocked,
            decompiler_status: ImplStatus::Blocked,
        }
    } else if i == 211 {
        RecordBody {
            name: "close_file_not_handle",
            game_handler_ea: Some("0x004170C0"),
            pal_export_name: None,
            pal_export_ea: None,
            params: seq![
                Param { name: "handle", pop_idx: 0, kind: ParamKind::Handle, meaning: "openfile handle" },
            ],
            return_kind: ReturnKind::Integer,
            side_effects: seq![SideEffect::ReadsFile],
            purpose: "Close and release an open_file table/resource handle.",
            evidence: seq![
                Evidence { kind: EvidenceKind::GameSqlite, reference: "reverse/Game.sqlite sub_4170C0 pops one handle, PalListDelete()s it, frees buffer and object, returns 1" },
                Evidence { kind: EvidenceKind::Disassembly, reference: "docs/dis.txt 000633E0 pushes handle before ext_0012_0020" },
            ],
            implementation_status: ImplStatus::Verified,
            decompiler_status: ImplStatus::Verified,
        }
    } else if i == 212 {
        RecordBody {
            name: "set_file_pointer",
            game_handler_ea: None,
            pal_export_name: None,
            pal_export_ea: None,
            params: seq![
                Param { name: "handle", pop_idx: 0, kind: ParamKind::Handle, meaning: "" },
                Param { name: "offset", pop_idx: 1, kind: ParamKind::Integer, meaning: "" },
                Param { name: "origin", pop_idx: 2, kind: ParamKind::Mode, meaning: "" },
            ],
            return_kind: ReturnKind::Integer,
            side_effects: seq![SideEffect::ReadsFile],
            purpose: "Seek an opened runtime file handle.",
            evidence: seq![
                Evidence { kind: EvidenceKind::Writeup, reference: "docs/writeup.md 24.9" },
            ],
            implementation_status: ImplStatus::Blocked,
            decompiler_status: ImplStatus::Blocked,
        }
    } else if i == 213 {
        RecordBody {
            name: "file_string",
            game_handler_ea: Some("0x00416EC0"),
            pal_export_name: None,
            pal_export_ea: None,
            params: seq![
                Param { name: "handle", pop_idx: 0, kind: ParamKind::Handle, meaning: "openfile handle" },
                Param { name: "entry", pop_idx: 1, kind: ParamKind::Integer, meaning: "encoded string table entry" },
                Param { name: "dst_slot", pop_idx: 2, kind: ParamKind::BufferPointer, meaning: "dynamic string destination" },
            ],
            return_kind: ReturnKind::StringId,
            side_effects: seq![SideEffect::WritesVmMemory],
            purpose: "Copy a parsed open_file table string entry into dynamic string storage.",
            evidence: seq![
                Evidence { kind: EvidenceKind::GameSqlite, reference: "reverse/Game.sqlite sub_416EC0 pops handle/entry/dst, masks entry, and copies u16-length string into dynamic string storage" },
                Evidence { kind: EvidenceKind::Disassembly, reference: "docs/dis.txt ext_0012_0022 callsites push three values" },
            ],
            implementation_status: ImplStatus::Verified,
            decompiler_status: ImplStatus::Verified,
        }
    } else if i == 214 {
        RecordBody {
            name: "set_last_process",
            game_handler_ea: Some("0x004179B0"),
            pal_export_name: None,
            pal_export_ea: None,
            params: seq![
                Param { name: "point_id", pop_idx: 0, kind: ParamKind::PointId, meaning: "script/process point id or zero" },
            ],
            return_kind: ReturnKind::Integer,
            side_effects: seq![SideEffect::ChangesRunState],
            purpose: "Store native last-process point bookkeeping.",
            evidence: seq![
                Evidence { kind: EvidenceKind::GameSqlite, reference: "reverse/Game.sqlite sub_4179B0 pops one point id and stores resolved process address in a1[201019]" },
            ],
            implementation_status: ImplStatus::Blocked,
            decompiler_status: ImplStatus::Verified,
        }
    } else {
        RecordBody {
            name: "sz_buf",
            game_handler_ea: None,
            pal_export_name: None,
            pal_export_ea: None,
            params: seq![
                Param { name: "section", pop_idx: 0, kind: ParamKind::TextStringFromTextDat, meaning: "" },
                Param { name: "key", pop_idx: 1, kind: ParamKind::TextStringFromTextDat, meaning: "" },
                Param { name: "default", pop_idx: 2, kind: ParamKind::TextStringFromTextDat, meaning: "" },
                Param { name: "filename", pop_idx: 3, kind: ParamKind::IniFilename, meaning: "" },
                Param { name: "buffer_or_size", pop_idx: 4, kind: ParamKind::BufferPointer, meaning: "" },
            ],
            return_kind: ReturnKind::StringId,
            side_effects: seq![SideEffect::ReadsIni],
            purpose: "Read INI string into dynamic string storage.",
            evidence: seq![
                Evidence { kind: EvidenceKind::Writeup, reference: "docs/writeup.md INI" },
                Evidence { kind: EvidenceKind::RuntimeTrace, reference: "pal-vm ext_sz_buf pops 5" },
            ],
            implementation_status: ImplStatus::Blocked,
            decompiler_status: ImplStatus::Blocked,
        }
    }
}

pub open spec fn body_block_18(i: int) -> RecordBody {
    if i == 216 {
        RecordBody {
            name: "getprivateprofileint",
            game_handler_ea: None,
            pal_export_name: None,
            pal_export_ea: None,
            params: seq![
                Param { name: "section", pop_idx: 0, kind: ParamKind::TextStringFromTextDat, meaning: "" },
                Param { name: "key", pop_idx: 1, kind: ParamKind::TextStringFromTextDat, meaning: "" },
                Param { name: "default", pop_idx: 2, kind: ParamKind::Integer, meaning: "" },
                Param { name: "filename", pop_idx: 3, kind: ParamKind::IniFilename, meaning: "" },
            ],
            return_kind: ReturnKind::Integer,
            side_effects: seq![SideEffect::ReadsIni],
            purpose: "Read an integer from SYSTEM.INI or requested INI.",
            evidence: seq![
                Evidence { kind: EvidenceKind::Writeup, reference: "docs/writeup.md 24.9" },
            ],
            implementation_status: ImplStatus::Blocked,
            decompiler_status: ImplStatus::Blocked,
        }
    } else if i == 217 {
        RecordBody {
            name: "access_clear",
            game_handler_ea: Some("0x00417E50"),
            pal_export_name: None,
            pal_export_ea: None,
            params: seq![
                Param { name: "entry", pop_idx: 0, kind: ParamKind::Integer, meaning: "access flag id or resource string" },
            ],
            return_kind: ReturnKind::Integer,
            side_effects: seq![SideEffect::WritesVmMemory],
            purpose: "Clear native access/read flag entry.",
            evidence: seq![
                Evidence { kind: EvidenceKind::GameSqlite, reference: "reverse/Game.sqlite sub_417E50 pops one id/string and clears the corresponding access flag" },
            ],
            implementation_status: ImplStatus::Blocked,
            decompiler_status: ImplStatus::Verified,
        }
    } else if i == 218 {
        RecordBody {
            name: "ext_18_90",
            game_handler_ea: None,
            pal_export_name: None,
            pal_export_ea: None,
            params: seq![
                Param { name: "arg0", pop_idx: 0, kind: ParamKind::Unknown, meaning: "" },
                Param { name: "arg1", pop_idx: 1, kind: ParamKind::Unknown, meaning: "" },
                Param { name: "arg2", pop_idx: 2, kind: ParamKind::Unknown, meaning: "" },
                Param { name: "arg3", pop_idx: 3, kind: ParamKind::Unknown, meaning: "" },
                Param { name: "arg4", pop_idx: 4, kind: ParamKind::Unknown, meaning: "" },
                Param { name: "arg5", pop_idx: 5, kind: ParamKind::Unknown, meaning: "" },
                Param { name: "arg6", pop_idx: 6, kind: ParamKind::Unknown, meaning: "" },
                Param { name: "arg7", pop_idx: 7, kind: ParamKind::Unknown, meaning: "" },
            ],
            return_kind: ReturnKind::Status,
            side_effects: seq![SideEffect::UnknownSideEffect],
            purpose: "Preserve the eight-argument extension's stack contract.",
            evidence: seq![
                Evidence { kind: EvidenceKind::Disassembly, reference: "Totsulover Script.src 0x1021E4-0x102224 pushes eight arguments" },
                Evidence { kind: EvidenceKind::RuntimeTrace, reference: "Unconsumed values cause argument_base=0x1000003F during confirmation button layout" },
            ],
            implementation_status: ImplStatus::StackDisciplineOnly,
            decompiler_status: ImplStatus::Partial,
        }
    } else if i == 219 {
        RecordBody {
            name: "pal_time_ms",
            game_handler_ea: None,
            pal_export_name: None,
            pal_export_ea: None,
            params: seq![],
            return_kind: ReturnKind::Integer,
            side_effects: seq![],
            purpose: "Read the monotonically advancing PAL millisecond clock.",
            evidence: seq![
                Evidence { kind: EvidenceKind::Disassembly, reference: "Totsulover Script.src 0xE0A40 and 0xE0ACC elapsed-time loop" },
                Evidence { kind: EvidenceKind::RuntimeTrace, reference: "Totsulover title start callback point[13] stalls when this call returns zero" },
            ],
            implementation_status: ImplStatus::Partial,
            decompiler_status: ImplStatus::Partial,
        }
    } else if i == 220 {
        RecordBody {
            name: "random",
            game_handler_ea: None,
            pal_export_name: None,
            pal_export_ea: None,
            params: seq![
                Param { name: "min", pop_idx: 0, kind: ParamKind::Integer, meaning: "" },
                Param { name: "max", pop_idx: 1, kind: ParamKind::Integer, meaning: "" },
            ],
            return_kind: ReturnKind::Integer,
            side_effects: seq![],
            purpose: "Return an inclusive random integer between the two popped bounds.",
            evidence: seq![
                Evidence { kind: EvidenceKind::GameSqlite, reference: "reverse/Game.sqlite random wrapper" },
                Evidence { kind: EvidenceKind::RuntimeTrace, reference: "pal-vm dispatch_random_ext index 0 pops 2" },
            ],
            implementation_status: ImplStatus::Blocked,
            decompiler_status: ImplStatus::Blocked,
        }
    } else if i == 221 {
        RecordBody {
            name: "create_thread",
            game_handler_ea: Some("0x0042E900"),
            pal_export_name: None,
            pal_export_ea: None,
            params: seq![
                Param { name: "point_id", pop_idx: 0, kind: ParamKind::PointId, meaning: "target script point id" },
            ],
            return_kind: ReturnKind::Integer,
            side_effects: seq![SideEffect::ChangesRunState],
            purpose: "Start native script-thread scheduler state at a point id.",
            evidence: seq![
                Evidence { kind: EvidenceKind::GameSqlite, reference: "reverse/Game.sqlite VmExtcall_CreateThread 0x0042E900 pops point id and writes thread active/running/target/id fields" },
            ],
            implementation_status: ImplStatus::Verified,
            decompiler_status: ImplStatus::Verified,
        }
    } else if i == 222 {
        RecordBody {
            name: "exit_thread",
            game_handler_ea: Some("0x0042E8C0"),
            pal_export_name: None,
            pal_export_ea: None,
            params: seq![],
            return_kind: ReturnKind::Integer,
            side_effects: seq![SideEffect::ChangesRunState],
            purpose: "Clear native script-thread scheduler state.",
            evidence: seq![
                Evidence { kind: EvidenceKind::GameSqlite, reference: "reverse/Game.sqlite VmExtcall_ExitThread 0x0042E8C0 clears thread state and returns 1" },
            ],
            implementation_status: ImplStatus::Verified,
            decompiler_status: ImplStatus::Verified,
        }
    } else if i == 223 {
        RecordBody {
            name: "suspend_thread",
            game_handler_ea: Some("0x0042E860"),
            pal_export_name: None,
            pal_export_ea: None,
            params: seq![
                Param { name: "running", pop_idx: 0, kind: ParamKind::Flag, meaning: "new native thread-running flag" },
            ],
            return_kind: ReturnKind::Integer,
            side_effects: seq![SideEffect::WritesVmMemory, SideEffect::ChangesRunState],
            purpose: "Set native script-thread running flag and return the previous value.",
            evidence: seq![
                Evidence { kind: EvidenceKind::GameSqlite, reference: "reverse/Game.sqlite VmExtcall_SuspendThread 0x0042E860 pops one running flag, returns old running flag, stores new value" },
            ],
            implementation_status: ImplStatus::Verified,
            decompiler_status: ImplStatus::Verified,
        }
    } else if i == 224 {
        RecordBody {
            name: "get_thread",
            game_handler_ea: Some("0x0042E9A0"),
            pal_export_name: None,
            pal_export_ea: None,
            params: seq![],
            return_kind: ReturnKind::Integer,
            side_effects: seq![SideEffect::WritesVmMemory],
            purpose: "Return current native script-thread id.",
            evidence: seq![
                Evidence { kind: EvidenceKind::GameSqlite, reference: "reverse/Game.sqlite VmExtcall_GetThread 0x0042E9A0 returns ctx_off_thread_id" },
            ],
            implementation_status: ImplStatus::Verified,
            decompiler_status: ImplStatus::Verified,
        }
    } else if i == 225 {
        RecordBody {
            name: "run",
            game_handler_ea: Some("0x00421FD0"),
            pal_export_name: Some("PalEffectEx"),
            pal_export_ea: Some("0x1011A1E8"),
            params: seq![
                Param { name: "effect_id", pop_idx: 0, kind: ParamKind::Integer, meaning: "" },
                Param { name: "duration_ms", pop_idx: 1, kind: ParamKind::DurationMs, meaning: "" },
                Param { name: "effect_arg", pop_idx: 2, kind: ParamKind::Integer, meaning: "" },
            ],
            return_kind: ReturnKind::Void,
            side_effects: seq![SideEffect::ChangesRunState, SideEffect::BlocksScript],
            purpose: "Run a scene/effect transition and wait for it.",
            evidence: seq![
                Evidence { kind: EvidenceKind::GameSqlite, reference: "reverse/Game.sqlite sub_421FD0 pops effect_id/duration/effect_arg and calls PalEffectEx(effect_id,duration,effect_arg,0)" },
                Evidence { kind: EvidenceKind::PalSqlite, reference: "PalEffectEx 0x1011A1E8" },
                Evidence { kind: EvidenceKind::RuntimeTrace, reference: "pal-vm dispatch_run_ext index 0 pops 3 and updates run pipeline" },
            ],
            implementation_status: ImplStatus::Verified,
            decompiler_status: ImplStatus::Verified,
        }
    } else if i == 226 {
        RecordBody {
            name: "run_no_wait",
            game_handler_ea: Some("0x00421F80"),
            pal_export_name: None,
            pal_export_ea: None,
            params: seq![],
            return_kind: ReturnKind::Void,
            side_effects: seq![SideEffect::ChangesRunState],
            purpose: "Latch/flush a no-wait scene transition; Game.exe category 22 index 1 does not pop transition parameters.",
            evidence: seq![
                Evidence { kind: EvidenceKind::GameSqlite, reference: "reverse/Game.sqlite sub_421F80 has no VM pop and toggles run_no_wait transition state" },
                Evidence { kind: EvidenceKind::RuntimeTrace, reference: "pal-vm dispatch_run_ext index 1 pops 0 and sets no_wait_latch" },
            ],
            implementation_status: ImplStatus::Verified,
            decompiler_status: ImplStatus::Verified,
        }
    } else {
        RecordBody {
            name: "run_stack",
            game_handler_ea: Some("0x00422160"),
            pal_export_name: Some("PalEffectEx"),
            pal_export_ea: Some("0x1011A1E8"),
            params: seq![
                Param { name: "enabled", pop_idx: 0, kind: ParamKind::Flag, meaning: "" },
            ],
            return_kind: ReturnKind::Void,
            side_effects: seq![SideEffect::ChangesRunState],
            purpose: "Toggle Game.exe run-stack transition mode.",
            evidence: seq![
                Evidence { kind: EvidenceKind::GameSqlite, reference: "reverse/Game.sqlite sub_422160 pops enabled, toggles run-stack, and conditionally calls PalEffectEx for queued effects" },
                Evidence { kind: EvidenceKind::PalSqlite, reference: "PalEffectEx 0x1011A1E8" },
                Evidence { kind: EvidenceKind::RuntimeTrace, reference: "pal-vm dispatch_run_ext index 2 pops enabled and flushes pending transition" },
            ],
            implementation_status: ImplStatus::Verified,
            decompiler_status: ImplStatus::Verified,
        }
    }
}

/// The body of the record at table position `i`.
pub open spec fn record_body(i: int) -> RecordBody {
    if i < 12 {
        body_block_0(i)
    } else if i < 24 {
        body_block_1(i)
    } else if i < 36 {
        body_block_2(i)
    } else if i < 48 {
        body_block_3(i)
    } else if i < 60 {
        body_block_4(i)
    } else if i < 72 {
        body_block_5(i)
    } else if i < 84 {
        body_block_6(i)
    } else if i < 96 {
        body_block_7(i)
    } else if i < 108 {
        body_block_8(i)
    } else if i < 120 {
        body_block_9(i)
    } else if i < 132 {
        body_block_10(i)
    } else if i < 144 {
        body_block_11(i)
    } else if i < 156 {
        body_block_12(i)
    } else if i < 168 {
        body_block_13(i)
    } else if i < 180 {
        body_block_14(i)
    } else if i < 192 {
        body_block_15(i)
    } else if i < 204 {
        body_block_16(i)
    } else if i < 216 {
        body_block_17(i)
    } else {
        body_block_18(i)
    }
}

/// Position in the table of the record for `(category, index)`, if any.
pub open spec fn signature_position(category: u16, index: u16) -> Option<int> {
    match (category, index) {
        (2, 2) => Some(0),
        (2, 3) => Some(1),
        (2, 4) => Some(2),
        (2, 5) => Some(3),
        (2, 8) => Some(4),
        (2, 9) => Some(5),
        (2, 10) => Some(6),
        (2, 13) => Some(7),
        (2, 14) => Some(8),
        (2, 15) => Some(9),
        (2, 16) => Some(10),
        (2, 17) => Some(11),
        (2, 22) => Some(12),
        (2, 25) => Some(13),
        (2, 26) => Some(14),
        (2, 27) => Some(15),
        (2, 28) => Some(16),
        (3, 2) => Some(17),
        (3, 3) => Some(18),
        (3, 4) => Some(19),
        (3, 5) => Some(20),
        (3, 6) => Some(21),
        (3, 7) => Some(22),
        (3, 8) => Some(23),
        (3, 9) => Some(24),
        (3, 11) => Some(25),
        (3, 12) => Some(26),
        (3, 16) => Some(27),
        (3, 15) => Some(28),
        (3, 17) => Some(29),
        (3, 18) => Some(30),
        (3, 19) => Some(31),
        (3, 20) => Some(32),
        (3, 21) => Some(33),
        (3, 22) => Some(34),
        (3, 23) => Some(35),
        (3, 24) => Some(36),
        (3, 25) => Some(37),
        (3, 26) => Some(38),
        (3, 27) => Some(39),
        (3, 28) => Some(40),
        (3, 29) => Some(41),
        (3, 30) => Some(42),
        (3, 31) => Some(43),
        (3, 34) => Some(44),
        (3, 35) => Some(45),
        (3, 36) => Some(46),
        (3, 37) => Some(47),
        (3, 39) => Some(48),
        (3, 41) => Some(49),
        (3, 44) => Some(50),
        (3, 46) => Some(51),
        (3, 47) => Some(52),
        (3, 48) => Some(53),
        (3, 49) => Some(54),
        (3, 50) => Some(55),
        (3, 51) => Some(56),
        (3, 52) => Some(57),
        (3, 53) => Some(58),
        (3, 54) => Some(59),
        (3, 55) => Some(60),
        (3, 56) => Some(61),
        (3, 57) => Some(62),
        (4, 0) => Some(63),
        (4, 1) => Some(64),
        (4, 2) => Some(65),
        (4, 3) => Some(66),
        (4, 6) => Some(67),
        (4, 9) => Some(68),
        (4, 11) => Some(69),
        (4, 13) => Some(70),
        (4, 14) => Some(71),
        (4, 15) => Some(72),
        (5, 1) => Some(73),
        (5, 2) => Some(74),
        (5, 0) => Some(75),
        (5, 3) => Some(76),
        (5, 4) => Some(77),
        (5, 5) => Some(78),
        (5, 14) => Some(79),
        (7, 0) => Some(80),
        (7, 1) => Some(81),
        (7, 2) => Some(82),
        (7, 3) => Some(83),
        (7, 4) => Some(84),
        (7, 5) => Some(85),
        (7, 7) => Some(86),
        (7, 8) => Some(87),
        (7, 9) => Some(88),
        (7, 10) => Some(89),
        (6, 0) => Some(90),
        (6, 2) => Some(91),
        (6, 3) => Some(92),
        (6, 4) => Some(93),
        (8, 0) => Some(94),
        (8, 1) => Some(95),
        (8, 3) => Some(96),
        (8, 4) => Some(97),
        (8, 5) => Some(98),
        (8, 6) => Some(99),
        (8, 8) => Some(100),
        (8, 9) => Some(101),
        (8, 10) => Some(102),
        (8, 11) => Some(103),
        (8, 12) => Some(104),
        (8, 13) => Some(105),
        (8, 14) => Some(106),
        (8, 29) => Some(107),
        (8, 15) => Some(108),
        (8, 16) => Some(109),
        (8, 17) => Some(110),
        (8, 19) => Some(111),
        (8, 20) => Some(112),
        (8, 21) => Some(113),
        (8, 22) => Some(114),
        (8, 23) => Some(115),
        (8, 37) => Some(116),
        (5, 8) => Some(117),
        (9, 0) => Some(118),
        (9, 1) => Some(119),
        (9, 2) => Some(120),
        (9, 3) => Some(121),
        (9, 4) => Some(122),
        (9, 6) => Some(123),
        (9, 7) => Some(124),
        (9, 8) => Some(125),
        (9, 9) => Some(126),
        (9, 10) => Some(127),
        (9, 12) => Some(128),
        (9, 14) => Some(129),
        (9, 17) => Some(130),
        (9, 18) => Some(131),
        (9, 19) => Some(132),
        (9, 20) => Some(133),
        (9, 21) => Some(134),
        (9, 22) => Some(135),
        (9, 23) => Some(136),
        (9, 24) => Some(137),
        (9, 25) => Some(138),
        (9, 26) => Some(139),
        (9, 27) => Some(140),
        (9, 28) => Some(141),
        (9, 29) => Some(142),
        (9, 30) => Some(143),
        (9, 31) => Some(144),
        (9, 52) => Some(145),
        (9, 53) => Some(146),
        (15, 4) => Some(147),
        (15, 5) => Some(148),
        (12, 0) => Some(149),
        (12, 1) => Some(150),
        (12, 2) => Some(151),
        (11, 0) => Some(152),
        (11, 1) => Some(153),
        (11, 2) => Some(154),
        (11, 3) => Some(155),
        (11, 4) => Some(156),
        (11, 5) => Some(157),
        (13, 0) => Some(158),
        (13, 1) => Some(159),
        (13, 2) => Some(160),
        (13, 3) => Some(161),
        (13, 7) => Some(162),
        (13, 16) => Some(163),
        (13, 18) => Some(164),
        (10, 12) => Some(165),
        (10, 13) => Some(166),
        (14, 3) => Some(167),
        (14, 6) => Some(168),
        (16, 0) => Some(169),
        (16, 1) => Some(170),
        (16, 2) => Some(171),
        (17, 0) => Some(172),
        (17, 1) => Some(173),
        (17, 3) => Some(174),
        (17, 5) => Some(175),
        (17, 6) => Some(176),
        (17, 7) => Some(177),
        (17, 8) => Some(178),
        (17, 9) => Some(179),
        (17, 10) => Some(180),
        (17, 11) => Some(181),
        (17, 14) => Some(182),
        (17, 15) => Some(183),
        (17, 17) => Some(184),
        (17, 20) => Some(185),
        (17, 21) => Some(186),
        (17, 22) => Some(187),
        (17, 23) => Some(188),
        (17, 29) => Some(189),
        (17, 30) => Some(190),
        (18, 1) => Some(191),
        (18, 3) => Some(192),
        (18, 4) => Some(193),
        (18, 5) => Some(194),
        (18, 6) => Some(195),
        (18, 7) => Some(196),
        (18, 8) => Some(197),
        (18, 9) => Some(198),
        (18, 10) => Some(199),
        (18, 12) => Some(200),
        (18, 13) => Some(201),
        (18, 14) => Some(202),
        (18, 15) => Some(203),
        (18, 17) => Some(204),
        (18, 18) => Some(205),
        (18, 21) => Some(206),
        (18, 28) => Some(207),
        (18, 29) => Some(208),
        (18, 30) => Some(209),
        (18, 31) => Some(210),
        (18, 32) => Some(211),
        (18, 33) => Some(212),
        (18, 34) => Some(213),
        (18, 35) => Some(214),
        (18, 36) => Some(215),
        (18, 37) => Some(216),
        (18, 40) => Some(217),
        (18, 90) => Some(218),
        (18, 121) => Some(219),
        (20, 0) => Some(220),
        (21, 0) => Some(221),
        (21, 1) => Some(222),
        (21, 2) => Some(223),
        (21, 3) => Some(224),
        (22, 0) => Some(225),
        (22, 1) => Some(226),
        (22, 2) => Some(227),
        _ => None,
    }
}

/// Finds the table position of the record for `(category, index)`.
pub fn find_signature_position(category: u16, index: u16) -> (res: Option<usize>)
    ensures
        res matches Some(p) ==> signature_position(category, index) == Some(p as int),
        res is None ==> signature_position(category, index) is None,
{
    match (category, index) {
        (2, 2) => Some(0),
        (2, 3) => Some(1),
        (2, 4) => Some(2),
        (2, 5) => Some(3),
        (2, 8) => Some(4),
        (2, 9) => Some(5),
        (2, 10) => Some(6),
        (2, 13) => Some(7),
        (2, 14) => Some(8),
        (2, 15) => Some(9),
        (2, 16) => Some(10),
        (2, 17) => Some(11),
        (2, 22) => Some(12),
        (2, 25) => Some(13),
        (2, 26) => Some(14),
        (2, 27) => Some(15),
        (2, 28) => Some(16),
        (3, 2) => Some(17),
        (3, 3) => Some(18),
        (3, 4) => Some(19),
        (3, 5) => Some(20),
        (3, 6) => Some(21),
        (3, 7) => Some(22),
        (3, 8) => Some(23),
        (3, 9) => Some(24),
        (3, 11) => Some(25),
        (3, 12) => Some(26),
        (3, 16) => Some(27),
        (3, 15) => Some(28),
        (3, 17) => Some(29),
        (3, 18) => Some(30),
        (3, 19) => Some(31),
        (3, 20) => Some(32),
        (3, 21) => Some(33),
        (3, 22) => Some(34),
        (3, 23) => Some(35),
        (3, 24) => Some(36),
        (3, 25) => Some(37),
        (3, 26) => Some(38),
        (3, 27) => Some(39),
        (3, 28) => Some(40),
        (3, 29) => Some(41),
        (3, 30) => Some(42),
        (3, 31) => Some(43),
        (3, 34) => Some(44),
        (3, 35) => Some(45),
        (3, 36) => Some(46),
        (3, 37) => Some(47),
        (3, 39) => Some(48),
        (3, 41) => Some(49),
        (3, 44) => Some(50),
        (3, 46) => Some(51),
        (3, 47) => Some(52),
        (3, 48) => Some(53),
        (3, 49) => Some(54),
        (3, 50) => Some(55),
        (3, 51) => Some(56),
        (3, 52) => Some(57),
        (3, 53) => Some(58),
        (3, 54) => Some(59),
        (3, 55) => Some(60),
        (3, 56) => Some(61),
        (3, 57) => Some(62),
        (4, 0) => Some(63),
        (4, 1) => Some(64),
        (4, 2) => Some(65),
        (4, 3) => Some(66),
        (4, 6) => Some(67),
        (4, 9) => Some(68),
        (4, 11) => Some(69),
        (4, 13) => Some(70),
        (4, 14) => Some(71),
        (4, 15) => Some(72),
        (5, 1) => Some(73),
        (5, 2) => Some(74),
        (5, 0) => Some(75),
        (5, 3) => Some(76),
        (5, 4) => Some(77),
        (5, 5) => Some(78),
        (5, 14) => Some(79),
        (7, 0) => Some(80),
        (7, 1) => Some(81),
        (7, 2) => Some(82),
        (7, 3) => Some(83),
        (7, 4) => Some(84),
        (7, 5) => Some(85),
        (7, 7) => Some(86),
        (7, 8) => Some(87),
        (7, 9) => Some(88),
        (7, 10) => Some(89),
        (6, 0) => Some(90),
        (6, 2) => Some(91),
        (6, 3) => Some(92),
        (6, 4) => Some(93),
        (8, 0) => Some(94),
        (8, 1) => Some(95),
        (8, 3) => Some(96),
        (8, 4) => Some(97),
        (8, 5) => Some(98),
        (8, 6) => Some(99),
        (8, 8) => Some(100),
        (8, 9) => Some(101),
        (8, 10) => Some(102),
        (8, 11) => Some(103),
        (8, 12) => Some(104),
        (8, 13) => Some(105),
        (8, 14) => Some(106),
        (8, 29) => Some(107),
        (8, 15) => Some(108),
        (8, 16) => Some(109),
        (8, 17) => Some(110),
        (8, 19) => Some(111),
        (8, 20) => Some(112),
        (8, 21) => Some(113),
        (8, 22) => Some(114),
        (8, 23) => Some(115),
        (8, 37) => Some(116),
        (5, 8) => Some(117),
        (9, 0) => Some(118),
        (9, 1) => Some(119),
        (9, 2) => Some(120),
        (9, 3) => Some(121),
        (9, 4) => Some(122),
        (9, 6) => Some(123),
        (9, 7) => Some(124),
        (9, 8) => Some(125),
        (9, 9) => Some(126),
        (9, 10) => Some(127),
        (9, 12) => Some(128),
        (9, 14) => Some(129),
        (9, 17) => Some(130),
        (9, 18) => Some(131),
        (9, 19) => Some(132),
        (9, 20) => Some(133),
        (9, 21) => Some(134),
        (9, 22) => Some(135),
        (9, 23) => Some(136),
        (9, 24) => Some(137),
        (9, 25) => Some(138),
        (9, 26) => Some(139),
        (9, 27) => Some(140),
        (9, 28) => Some(141),
        (9, 29) => Some(142),
        (9, 30) => Some(143),
        (9, 31) => Some(144),
        (9, 52) => Some(145),
        (9, 53) => Some(146),
        (15, 4) => Some(147),
        (15, 5) => Some(148),
        (12, 0) => Some(149),
        (12, 1) => Some(150),
        (12, 2) => Some(151),
        (11, 0) => Some(152),
        (11, 1) => Some(153),
        (11, 2) => Some(154),
        (11, 3) => Some(155),
        (11, 4) => Some(156),
        (11, 5) => Some(157),
        (13, 0) => Some(158),
        (13, 1) => Some(159),
        (13, 2) => Some(160),
        (13, 3) => Some(161),
        (13, 7) => Some(162),
        (13, 16) => Some(163),
        (13, 18) => Some(164),
        (10, 12) => Some(165),
        (10, 13) => Some(166),
        (14, 3) => Some(167),
        (14, 6) => Some(168),
        (16, 0) => Some(169),
        (16, 1) => Some(170),
        (16, 2) => Some(171),
        (17, 0) => Some(172),
        (17, 1) => Some(173),
        (17, 3) => Some(174),
        (17, 5) => Some(175),
        (17, 6) => Some(176),
        (17, 7) => Some(177),
        (17, 8) => Some(178),
        (17, 9) => Some(179),
        (17, 10) => Some(180),
        (17, 11) => Some(181),
        (17, 14) => Some(182),
        (17, 15) => Some(183),
        (17, 17) => Some(184),
        (17, 20) => Some(185),
        (17, 21) => Some(186),
        (17, 22) => Some(187),
        (17, 23) => Some(188),
        (17, 29) => Some(189),
        (17, 30) => Some(190),
        (18, 1) => Some(191),
        (18, 3) => Some(192),
        (18, 4) => Some(193),
        (18, 5) => Some(194),
        (18, 6) => Some(195),
        (18, 7) => Some(196),
        (18, 8) => Some(197),
        (18, 9) => Some(198),
        (18, 10) => Some(199),
        (18, 12) => Some(200),
        (18, 13) => Some(201),
        (18, 14) => Some(202),
        (18, 15) => Some(203),
        (18, 17) => Some(204),
        (18, 18) => Some(205),
        (18, 21) => Some(206),
        (18, 28) => Some(207),
        (18, 29) => Some(208),
        (18, 30) => Some(209),
        (18, 31) => Some(210),
        (18, 32) => Some(211),
        (18, 33) => Some(212),
        (18, 34) => Some(213),
        (18, 35) => Some(214),
        (18, 36) => Some(215),
        (18, 37) => Some(216),
        (18, 40) => Some(217),
        (18, 90) => Some(218),
        (18, 121) => Some(219),
        (20, 0) => Some(220),
        (21, 0) => Some(221),
        (21, 1) => Some(222),
        (21, 2) => Some(223),
        (21, 3) => Some(224),
        (22, 0) => Some(225),
        (22, 1) => Some(226),
        (22, 2) => Some(227),
        _ => None,
    }
}

/// Argument counts observed at script call sites, by `(category, index)`.
pub open spec fn observed_arity(category: u16, index: u16) -> Option<usize> {
    match (category, index) {
        (2, 0) => Some(8),
        (2, 1) => Some(4),
        (2, 2) => Some(4),
        (2, 3) => Some(2),
        (2, 4) => Some(1),
        (2, 5) => Some(1),
        (2, 8) => Some(0),
        (2, 9) => Some(1),
        (2, 10) => Some(2),
        (2, 11) => Some(2),
        (2, 12) => Some(3),
        (2, 13) => Some(1),
        (2, 14) => Some(2),
        (2, 15) => Some(5),
        (2, 16) => Some(3),
        (2, 17) => Some(3),
        (2, 18) => Some(4),
        (2, 19) => Some(4),
        (2, 20) => Some(3),
        (2, 21) => Some(0),
        (2, 22) => Some(4),
        (2, 23) => Some(1),
        (2, 24) => Some(0),
        (2, 25) => Some(5),
        (2, 26) => Some(1),
        (2, 27) => Some(0),
        (2, 29) => Some(0),
        (2, 30) => Some(1),
        (2, 31) => Some(4),
        (2, 32) => Some(1),
        (3, 2) => Some(4),
        (3, 3) => Some(5),
        (3, 5) => Some(1),
        (3, 6) => Some(2),
        (3, 7) => Some(1),
        (3, 8) => Some(2),
        (3, 9) => Some(3),
        (3, 11) => Some(2),
        (3, 12) => Some(9),
        (3, 13) => Some(4),
        (3, 14) => Some(4),
        (3, 15) => Some(3),
        (3, 16) => Some(2),
        (3, 17) => Some(2),
        (3, 18) => Some(5),
        (3, 19) => Some(5),
        (3, 20) => Some(4),
        (3, 21) => Some(1),
        (3, 22) => Some(5),
        (3, 23) => Some(2),
        (3, 24) => Some(5),
        (3, 25) => Some(4),
        (3, 26) => Some(1),
        (3, 27) => Some(2),
        (3, 28) => Some(4),
        (3, 29) => Some(1),
        (3, 30) => Some(1),
        (3, 31) => Some(9),
        (3, 32) => Some(6),
        (3, 34) => Some(2),
        (3, 35) => Some(2),
        (3, 36) => Some(1),
        (3, 37) => Some(2),
        (3, 38) => Some(9),
        (3, 39) => Some(4),
        (3, 40) => Some(6),
        (3, 44) => Some(1),
        (3, 46) => Some(1),
        (3, 47) => Some(1),
        (3, 48) => Some(1),
        (3, 49) => Some(5),
        (3, 50) => Some(4),
        (3, 51) => Some(1),
        (3, 52) => Some(3),
        (3, 53) => Some(2),
        (3, 54) => Some(1),
        (3, 55) => Some(9),
        (3, 56) => Some(9),
        (3, 57) => Some(3),
        (4, 0) => Some(7),
        (4, 1) => Some(2),
        (4, 2) => Some(1),
        (4, 3) => Some(2),
        (4, 4) => Some(2),
        (4, 6) => Some(2),
        (4, 8) => Some(3),
        (4, 11) => Some(1),
        (4, 12) => Some(3),
        (4, 13) => Some(1),
        (4, 14) => Some(1),
        (4, 15) => Some(1),
        (5, 0) => Some(3),
        (5, 1) => Some(4),
        (5, 2) => Some(5),
        (5, 3) => Some(2),
        (5, 4) => Some(2),
        (5, 5) => Some(3),
        (5, 6) => Some(1),
        (5, 7) => Some(1),
        (5, 14) => Some(2),
        (6, 0) => Some(4),
        (6, 1) => Some(1),
        (6, 2) => Some(6),
        (6, 3) => Some(0),
        (6, 4) => Some(0),
        (6, 6) => Some(3),
        (7, 0) => Some(2),
        (7, 1) => Some(2),
        (7, 2) => Some(0),
        (7, 3) => Some(1),
        (7, 4) => Some(0),
        (7, 5) => Some(0),
        (7, 6) => Some(0),
        (7, 8) => Some(0),
        (7, 9) => Some(0),
        (7, 10) => Some(0),
        (8, 0) => Some(3),
        (8, 1) => Some(1),
        (8, 3) => Some(7),
        (8, 4) => Some(2),
        (8, 5) => Some(2),
        (8, 6) => Some(4),
        (8, 8) => Some(2),
        (8, 9) => Some(5),
        (8, 10) => Some(5),
        (8, 11) => Some(2),
        (8, 12) => Some(2),
        (8, 13) => Some(3),
        (8, 14) => Some(4),
        (8, 15) => Some(3),
        (8, 16) => Some(3),
        (8, 17) => Some(2),
        (8, 18) => Some(3),
        (8, 19) => Some(3),
        (8, 20) => Some(1),
        (8, 21) => Some(4),
        (8, 22) => Some(2),
        (8, 23) => Some(2),
        (8, 24) => Some(2),
        (8, 26) => Some(1),
        (9, 0) => Some(2),
        (9, 1) => Some(1),
        (9, 2) => Some(2),
        (9, 3) => Some(0),
        (9, 4) => Some(1),
        (9, 5) => Some(0),
        (9, 6) => Some(1),
        (9, 7) => Some(1),
        (9, 8) => Some(1),
        (9, 9) => Some(0),
        (9, 10) => Some(0),
        (9, 12) => Some(2),
        (9, 15) => Some(1),
        (9, 17) => Some(1),
        (9, 18) => Some(3),
        (9, 19) => Some(2),
        (9, 20) => Some(1),
        (9, 21) => Some(1),
        (9, 22) => Some(0),
        (9, 23) => Some(1),
        (9, 24) => Some(1),
        (9, 25) => Some(1),
        (9, 26) => Some(2),
        (9, 27) => Some(1),
        (9, 28) => Some(0),
        (9, 29) => Some(0),
        (9, 30) => Some(1),
        (9, 31) => Some(0),
        (9, 35) => Some(0),
        (9, 36) => Some(4),
        (9, 48) => Some(3),
        (9, 49) => Some(1),
        (9, 51) => Some(1),
        (9, 52) => Some(1),
        (9, 53) => Some(0),
        (10, 0) => Some(3),
        (10, 1) => Some(3),
        (10, 4) => Some(2),
        (10, 5) => Some(4),
        (10, 7) => Some(1),
        (10, 9) => Some(1),
        (10, 11) => Some(2),
        (10, 12) => Some(1),
        (10, 13) => Some(5),
        (10, 14) => Some(5),
        (10, 15) => Some(2),
        (10, 16) => Some(4),
        (10, 17) => Some(1),
        (10, 22) => Some(0),
        (10, 24) => Some(1),
        (10, 25) => Some(0),
        (10, 26) => Some(2),
        (10, 27) => Some(2),
        (10, 28) => Some(1),
        (10, 29) => Some(3),
        (10, 30) => Some(3),
        (10, 32) => Some(2),
        (10, 33) => Some(1),
        (10, 34) => Some(1),
        (10, 35) => Some(0),
        (10, 36) => Some(1),
        (11, 0) => Some(2),
        (11, 1) => Some(8),
        (11, 2) => Some(1),
        (11, 3) => Some(2),
        (11, 4) => Some(1),
        (11, 5) => Some(1),
        (12, 0) => Some(3),
        (12, 1) => Some(1),
        (12, 2) => Some(2),
        (13, 0) => Some(4),
        (13, 1) => Some(2),
        (13, 2) => Some(1),
        (13, 3) => Some(2),
        (13, 4) => Some(4),
        (13, 5) => Some(3),
        (13, 6) => Some(1),
        (13, 7) => Some(1),
        (13, 8) => Some(4),
        (13, 11) => Some(1),
        (13, 12) => Some(3),
        (13, 14) => Some(1),
        (13, 15) => Some(1),
        (13, 16) => Some(4),
        (13, 17) => Some(0),
        (13, 18) => Some(2),
        (13, 19) => Some(3),
        (13, 20) => Some(1),
        (13, 21) => Some(1),
        (13, 22) => Some(2),
        (13, 24) => Some(1),
        (14, 0) => Some(9),
        (14, 1) => Some(0),
        (14, 2) => Some(1),
        (14, 3) => Some(0),
        (14, 4) => Some(1),
        (14, 5) => Some(0),
        (14, 6) => Some(0),
        (14, 7) => Some(0),
        (14, 8) => Some(0),
        (14, 9) => Some(0),
        (14, 10) => Some(4),
        (14, 11) => Some(0),
        (14, 12) => Some(1),
        (15, 2) => Some(3),
        (15, 4) => Some(8),
        (15, 5) => Some(1),
        (16, 0) => Some(2),
        (16, 1) => Some(4),
        (16, 2) => Some(4),
        (17, 0) => Some(2),
        (17, 1) => Some(2),
        (17, 3) => Some(1),
        (17, 5) => Some(6),
        (17, 6) => Some(5),
        (17, 7) => Some(5),
        (17, 8) => Some(4),
        (17, 9) => Some(2),
        (17, 10) => Some(6),
        (17, 11) => Some(4),
        (17, 14) => Some(6),
        (17, 15) => Some(6),
        (17, 17) => Some(6),
        (17, 20) => Some(5),
        (17, 21) => Some(7),
        (17, 23) => Some(1),
        (17, 24) => Some(1),
        (17, 28) => Some(0),
        (17, 29) => Some(6),
        (17, 30) => Some(1),
        (18, 1) => Some(1),
        (18, 3) => Some(2),
        (18, 4) => Some(2),
        (18, 5) => Some(3),
        (18, 6) => Some(1),
        (18, 7) => Some(3),
        (18, 8) => Some(1),
        (18, 9) => Some(10),
        (18, 10) => Some(1),
        (18, 12) => Some(1),
        (18, 13) => Some(1),
        (18, 14) => Some(1),
        (18, 15) => Some(1),
        (18, 17) => Some(1),
        (18, 18) => Some(3),
        (18, 21) => Some(1),
        (18, 28) => Some(0),
        (18, 29) => Some(0),
        (18, 30) => Some(1),
        (18, 31) => Some(3),
        (18, 32) => Some(1),
        (18, 33) => Some(3),
        (18, 34) => Some(3),
        (18, 36) => Some(5),
        (18, 37) => Some(4),
        (18, 40) => Some(16),
        (20, 0) => Some(3),
        (21, 0) => Some(1),
        (21, 2) => Some(1),
        (22, 0) => Some(3),
        (22, 1) => Some(0),
        (23, 0) => Some(1),
        (23, 1) => Some(0),
        (23, 2) => Some(1),
        _ => None,
    }
}

/// Every table position is found again from its key.
pub proof fn lemma_positions_of_keys()
    ensures
        forall|i: int|
            0 <= i < SIGNATURE_COUNT ==> signature_position(#[trigger] signature_key(i).0, signature_key(i).1)
                == Some(i),
{
    lemma_positions_block_0();
    lemma_positions_block_1();
    lemma_positions_block_2();
    lemma_positions_block_3();
    lemma_positions_block_4();
    lemma_positions_block_5();
    lemma_positions_block_6();
    lemma_positions_block_7();
    lemma_positions_block_8();
    lemma_positions_block_9();
    lemma_positions_block_10();
    lemma_positions_block_11();
    lemma_positions_block_12();
    lemma_positions_block_13();
    lemma_positions_block_14();
    lemma_positions_block_15();
    lemma_positions_block_16();
    lemma_positions_block_17();
    lemma_positions_block_18();
}

proof fn lemma_positions_block_0()
    ensures
        forall|i: int|
            0 <= i < 12 ==> signature_position(#[trigger] signature_key(i).0, signature_key(i).1)
                == Some(i),
{
    assert forall|i: int| 0 <= i < 12 implies signature_position(
        #[trigger] signature_key(i).0,
        signature_key(i).1,
    ) == Some(i) by {
        if i == 0 {
            assert(signature_key(0) == key_block_0(0));
        } else if i == 1 {
            assert(signature_key(1) == key_block_0(1));
        } else if i == 2 {
            assert(signature_key(2) == key_block_0(2));
        } else if i == 3 {
            assert(signature_key(3) == key_block_0(3));
        } else if i == 4 {
            assert(signature_key(4) == key_block_0(4));
        } else if i == 5 {
            assert(signature_key(5) == key_block_0(5));
        } else if i == 6 {
            assert(signature_key(6) == key_block_0(6));
        } else if i == 7 {
            assert(signature_key(7) == key_block_0(7));
        } else if i == 8 {
            assert(signature_key(8) == key_block_0(8));
        } else if i == 9 {
            assert(signature_key(9) == key_block_0(9));
        } else if i == 10 {
            assert(signature_key(10) == key_block_0(10));
        } else if i == 11 {
            assert(signature_key(11) == key_block_0(11));
        }
    }
}

proof fn lemma_positions_block_1()
    ensures
        forall|i: int|
            12 <= i < 24 ==> signature_position(#[trigger] signature_key(i).0, signature_key(i).1)
                == Some(i),
{
    assert forall|i: int| 12 <= i < 24 implies signature_position(
        #[trigger] signature_key(i).0,
        signature_key(i).1,
    ) == Some(i) by {
        if i == 12 {
            assert(signature_key(12) == key_block_1(12));
        } else if i == 13 {
            assert(signature_key(13) == key_block_1(13));
        } else if i == 14 {
            assert(signature_key(14) == key_block_1(14));
        } else if i == 15 {
            assert(signature_key(15) == key_block_1(15));
        } else if i == 16 {
            assert(signature_key(16) == key_block_1(16));
        } else if i == 17 {
            assert(signature_key(17) == key_block_1(17));
        } else if i == 18 {
            assert(signature_key(18) == key_block_1(18));
        } else if i == 19 {
            assert(signature_key(19) == key_block_1(19));
        } else if i == 20 {
            assert(signature_key(20) == key_block_1(20));
        } else if i == 21 {
            assert(signature_key(21) == key_block_1(21));
        } else if i == 22 {
            assert(signature_key(22) == key_block_1(22));
        } else if i == 23 {
            assert(signature_key(23) == key_block_1(23));
        }
    }
}

proof fn lemma_positions_block_2()
    ensures
        forall|i: int|
            24 <= i < 36 ==> signature_position(#[trigger] signature_key(i).0, signature_key(i).1)
                == Some(i),
{
    assert forall|i: int| 24 <= i < 36 implies signature_position(
        #[trigger] signature_key(i).0,
        signature_key(i).1,
    ) == Some(i) by {
        if i == 24 {
            assert(signature_key(24) == key_block_2(24));
        } else if i == 25 {
            assert(signature_key(25) == key_block_2(25));
        } else if i == 26 {
            assert(signature_key(26) == key_block_2(26));
        } else if i == 27 {
            assert(signature_key(27) == key_block_2(27));
        } else if i == 28 {
            assert(signature_key(28) == key_block_2(28));
        } else if i == 29 {
            assert(signature_key(29) == key_block_2(29));
        } else if i == 30 {
            assert(signature_key(30) == key_block_2(30));
        } else if i == 31 {
            assert(signature_key(31) == key_block_2(31));
        } else if i == 32 {
            assert(signature_key(32) == key_block_2(32));
        } else if i == 33 {
            assert(signature_key(33) == key_block_2(33));
        } else if i == 34 {
            assert(signature_key(34) == key_block_2(34));
        } else if i == 35 {
            assert(signature_key(35) == key_block_2(35));
        }
    }
}

proof fn lemma_positions_block_3()
    ensures
        forall|i: int|
            36 <= i < 48 ==> signature_position(#[trigger] signature_key(i).0, signature_key(i).1)
                == Some(i),
{
    assert forall|i: int| 36 <= i < 48 implies signature_position(
        #[trigger] signature_key(i).0,
        signature_key(i).1,
    ) == Some(i) by {
        if i == 36 {
            assert(signature_key(36) == key_block_3(36));
        } else if i == 37 {
            assert(signature_key(37) == key_block_3(37));
        } else if i == 38 {
            assert(signature_key(38) == key_block_3(38));
        } else if i == 39 {
            assert(signature_key(39) == key_block_3(39));
        } else if i == 40 {
            assert(signature_key(40) == key_block_3(40));
        } else if i == 41 {
            assert(signature_key(41) == key_block_3(41));
        } else if i == 42 {
            assert(signature_key(42) == key_block_3(42));
        } else if i == 43 {
            assert(signature_key(43) == key_block_3(43));
        } else if i == 44 {
            assert(signature_key(44) == key_block_3(44));
        } else if i == 45 {
            assert(signature_key(45) == key_block_3(45));
        } else if i == 46 {
            assert(signature_key(46) == key_block_3(46));
        } else if i == 47 {
            assert(signature_key(47) == key_block_3(47));
        }
    }
}

proof fn lemma_positions_block_4()
    ensures
        forall|i: int|
            48 <= i < 60 ==> signature_position(#[trigger] signature_key(i).0, signature_key(i).1)
                == Some(i),
{
    assert forall|i: int| 48 <= i < 60 implies signature_position(
        #[trigger] signature_key(i).0,
        signature_key(i).1,
    ) == Some(i) by {
        if i == 48 {
            assert(signature_key(48) == key_block_4(48));
        } else if i == 49 {
            assert(signature_key(49) == key_block_4(49));
        } else if i == 50 {
            assert(signature_key(50) == key_block_4(50));
        } else if i == 51 {
            assert(signature_key(51) == key_block_4(51));
        } else if i == 52 {
            assert(signature_key(52) == key_block_4(52));
        } else if i == 53 {
            assert(signature_key(53) == key_block_4(53));
        } else if i == 54 {
            assert(signature_key(54) == key_block_4(54));
        } else if i == 55 {
            assert(signature_key(55) == key_block_4(55));
        } else if i == 56 {
            assert(signature_key(56) == key_block_4(56));
        } else if i == 57 {
            assert(signature_key(57) == key_block_4(57));
        } else if i == 58 {
            assert(signature_key(58) == key_block_4(58));
        } else if i == 59 {
            assert(signature_key(59) == key_block_4(59));
        }
    }
}

proof fn lemma_positions_block_5()
    ensures
        forall|i: int|
            60 <= i < 72 ==> signature_position(#[trigger] signature_key(i).0, signature_key(i).1)
                == Some(i),
{
    assert forall|i: int| 60 <= i < 72 implies signature_position(
        #[trigger] signature_key(i).0,
        signature_key(i).1,
    ) == Some(i) by {
        if i == 60 {
            assert(signature_key(60) == key_block_5(60));
        } else if i == 61 {
            assert(signature_key(61) == key_block_5(61));
        } else if i == 62 {
            assert(signature_key(62) == key_block_5(62));
        } else if i == 63 {
            assert(signature_key(63) == key_block_5(63));
        } else if i == 64 {
            assert(signature_key(64) == key_block_5(64));
        } else if i == 65 {
            assert(signature_key(65) == key_block_5(65));
        } else if i == 66 {
            assert(signature_key(66) == key_block_5(66));
        } else if i == 67 {
            assert(signature_key(67) == key_block_5(67));
        } else if i == 68 {
            assert(signature_key(68) == key_block_5(68));
        } else if i == 69 {
            assert(signature_key(69) == key_block_5(69));
        } else if i == 70 {
            assert(signature_key(70) == key_block_5(70));
        } else if i == 71 {
            assert(signature_key(71) == key_block_5(71));
        }
    }
}

proof fn lemma_positions_block_6()
    ensures
        forall|i: int|
            72 <= i < 84 ==> signature_position(#[trigger] signature_key(i).0, signature_key(i).1)
                == Some(i),
{
    assert forall|i: int| 72 <= i < 84 implies signature_position(
        #[trigger] signature_key(i).0,
        signature_key(i).1,
    ) == Some(i) by {
        if i == 72 {
            assert(signature_key(72) == key_block_6(72));
        } else if i == 73 {
            assert(signature_key(73) == key_block_6(73));
        } else if i == 74 {
            assert(signature_key(74) == key_block_6(74));
        } else if i == 75 {
            assert(signature_key(75) == key_block_6(75));
        } else if i == 76 {
            assert(signature_key(76) == key_block_6(76));
        } else if i == 77 {
            assert(signature_key(77) == key_block_6(77));
        } else if i == 78 {
            assert(signature_key(78) == key_block_6(78));
        } else if i == 79 {
            assert(signature_key(79) == key_block_6(79));
        } else if i == 80 {
            assert(signature_key(80) == key_block_6(80));
        } else if i == 81 {
            assert(signature_key(81) == key_block_6(81));
        } else if i == 82 {
            assert(signature_key(82) == key_block_6(82));
        } else if i == 83 {
            assert(signature_key(83) == key_block_6(83));
        }
    }
}

proof fn lemma_positions_block_7()
    ensures
        forall|i: int|
            84 <= i < 96 ==> signature_position(#[trigger] signature_key(i).0, signature_key(i).1)
                == Some(i),
{
    assert forall|i: int| 84 <= i < 96 implies signature_position(
        #[trigger] signature_key(i).0,
        signature_key(i).1,
    ) == Some(i) by {
        if i == 84 {
            assert(signature_key(84) == key_block_7(84));
        } else if i == 85 {
            assert(signature_key(85) == key_block_7(85));
        } else if i == 86 {
            assert(signature_key(86) == key_block_7(86));
        } else if i == 87 {
            assert(signature_key(87) == key_block_7(87));
        } else if i == 88 {
            assert(signature_key(88) == key_block_7(88));
        } else if i == 89 {
            assert(signature_key(89) == key_block_7(89));
        } else if i == 90 {
            assert(signature_key(90) == key_block_7(90));
        } else if i == 91 {
            assert(signature_key(91) == key_block_7(91));
        } else if i == 92 {
            assert(signature_key(92) == key_block_7(92));
        } else if i == 93 {
            assert(signature_key(93) == key_block_7(93));
        } else if i == 94 {
            assert(signature_key(94) == key_block_7(94));
        } else if i == 95 {
            assert(signature_key(95) == key_block_7(95));
        }
    }
}

proof fn lemma_positions_block_8()
    ensures
        forall|i: int|
            96 <= i < 108 ==> signature_position(#[trigger] signature_key(i).0, signature_key(i).1)
                == Some(i),
{
    assert forall|i: int| 96 <= i < 108 implies signature_position(
        #[trigger] signature_key(i).0,
        signature_key(i).1,
    ) == Some(i) by {
        if i == 96 {
            assert(signature_key(96) == key_block_8(96));
        } else if i == 97 {
            assert(signature_key(97) == key_block_8(97));
        } else if i == 98 {
            assert(signature_key(98) == key_block_8(98));
        } else if i == 99 {
            assert(signature_key(99) == key_block_8(99));
        } else if i == 100 {
            assert(signature_key(100) == key_block_8(100));
        } else if i == 101 {
            assert(signature_key(101) == key_block_8(101));
        } else if i == 102 {
            assert(signature_key(102) == key_block_8(102));
        } else if i == 103 {
            assert(signature_key(103) == key_block_8(103));
        } else if i == 104 {
            assert(signature_key(104) == key_block_8(104));
        } else if i == 105 {
            assert(signature_key(105) == key_block_8(105));
        } else if i == 106 {
            assert(signature_key(106) == key_block_8(106));
        } else if i == 107 {
            assert(signature_key(107) == key_block_8(107));
        }
    }
}

proof fn lemma_positions_block_9()
    ensures
        forall|i: int|
            108 <= i < 120 ==> signature_position(#[trigger] signature_key(i).0, signature_key(i).1)
                == Some(i),
{
    assert forall|i: int| 108 <= i < 120 implies signature_position(
        #[trigger] signature_key(i).0,
        signature_key(i).1,
    ) == Some(i) by {
        if i == 108 {
            assert(signature_key(108) == key_block_9(108));
        } else if i == 109 {
            assert(signature_key(109) == key_block_9(109));
        } else if i == 110 {
            assert(signature_key(110) == key_block_9(110));
        } else if i == 111 {
            assert(signature_key(111) == key_block_9(111));
        } else if i == 112 {
            assert(signature_key(112) == key_block_9(112));
        } else if i == 113 {
            assert(signature_key(113) == key_block_9(113));
        } else if i == 114 {
            assert(signature_key(114) == key_block_9(114));
        } else if i == 115 {
            assert(signature_key(115) == key_block_9(115));
        } else if i == 116 {
            assert(signature_key(116) == key_block_9(116));
        } else if i == 117 {
            assert(signature_key(117) == key_block_9(117));
        } else if i == 118 {
            assert(signature_key(118) == key_block_9(118));
        } else if i == 119 {
            assert(signature_key(119) == key_block_9(119));
        }
    }
}

proof fn lemma_positions_block_10()
    ensures
        forall|i: int|
            120 <= i < 132 ==> signature_position(#[trigger] signature_key(i).0, signature_key(i).1)
                == Some(i),
{
    assert forall|i: int| 120 <= i < 132 implies signature_position(
        #[trigger] signature_key(i).0,
        signature_key(i).1,
    ) == Some(i) by {
        if i == 120 {
            assert(signature_key(120) == key_block_10(120));
        } else if i == 121 {
            assert(signature_key(121) == key_block_10(121));
        } else if i == 122 {
            assert(signature_key(122) == key_block_10(122));
        } else if i == 123 {
            assert(signature_key(123) == key_block_10(123));
        } else if i == 124 {
            assert(signature_key(124) == key_block_10(124));
        } else if i == 125 {
            assert(signature_key(125) == key_block_10(125));
        } else if i == 126 {
            assert(signature_key(126) == key_block_10(126));
        } else if i == 127 {
            assert(signature_key(127) == key_block_10(127));
        } else if i == 128 {
            assert(signature_key(128) == key_block_10(128));
        } else if i == 129 {
            assert(signature_key(129) == key_block_10(129));
        } else if i == 130 {
            assert(signature_key(130) == key_block_10(130));
        } else if i == 131 {
            assert(signature_key(131) == key_block_10(131));
        }
    }
}

proof fn lemma_positions_block_11()
    ensures
        forall|i: int|
            132 <= i < 144 ==> signature_position(#[trigger] signature_key(i).0, signature_key(i).1)
                == Some(i),
{
    assert forall|i: int| 132 <= i < 144 implies signature_position(
        #[trigger] signature_key(i).0,
        signature_key(i).1,
    ) == Some(i) by {
        if i == 132 {
            assert(signature_key(132) == key_block_11(132));
        } else if i == 133 {
            assert(signature_key(133) == key_block_11(133));
        } else if i == 134 {
            assert(signature_key(134) == key_block_11(134));
        } else if i == 135 {
            assert(signature_key(135) == key_block_11(135));
        } else if i == 136 {
            assert(signature_key(136) == key_block_11(136));
        } else if i == 137 {
            assert(signature_key(137) == key_block_11(137));
        } else if i == 138 {
            assert(signature_key(138) == key_block_11(138));
        } else if i == 139 {
            assert(signature_key(139) == key_block_11(139));
        } else if i == 140 {
            assert(signature_key(140) == key_block_11(140));
        } else if i == 141 {
            assert(signature_key(141) == key_block_11(141));
        } else if i == 142 {
            assert(signature_key(142) == key_block_11(142));
        } else if i == 143 {
            assert(signature_key(143) == key_block_11(143));
        }
    }
}

proof fn lemma_positions_block_12()
    ensures
        forall|i: int|
            144 <= i < 156 ==> signature_position(#[trigger] signature_key(i).0, signature_key(i).1)
                == Some(i),
{
    assert forall|i: int| 144 <= i < 156 implies signature_position(
        #[trigger] signature_key(i).0,
        signature_key(i).1,
    ) == Some(i) by {
        if i == 144 {
            assert(signature_key(144) == key_block_12(144));
        } else if i == 145 {
            assert(signature_key(145) == key_block_12(145));
        } else if i == 146 {
            assert(signature_key(146) == key_block_12(146));
        } else if i == 147 {
            assert(signature_key(147) == key_block_12(147));
        } else if i == 148 {
            assert(signature_key(148) == key_block_12(148));
        } else if i == 149 {
            assert(signature_key(149) == key_block_12(149));
        } else if i == 150 {
            assert(signature_key(150) == key_block_12(150));
        } else if i == 151 {
            assert(signature_key(151) == key_block_12(151));
        } else if i == 152 {
            assert(signature_key(152) == key_block_12(152));
        } else if i == 153 {
            assert(signature_key(153) == key_block_12(153));
        } else if i == 154 {
            assert(signature_key(154) == key_block_12(154));
        } else if i == 155 {
            assert(signature_key(155) == key_block_12(155));
        }
    }
}

proof fn lemma_positions_block_13()
    ensures
        forall|i: int|
            156 <= i < 168 ==> signature_position(#[trigger] signature_key(i).0, signature_key(i).1)
                == Some(i),
{
    assert forall|i: int| 156 <= i < 168 implies signature_position(
        #[trigger] signature_key(i).0,
        signature_key(i).1,
    ) == Some(i) by {
        if i == 156 {
            assert(signature_key(156) == key_block_13(156));
        } else if i == 157 {
            assert(signature_key(157) == key_block_13(157));
        } else if i == 158 {
            assert(signature_key(158) == key_block_13(158));
        } else if i == 159 {
            assert(signature_key(159) == key_block_13(159));
        } else if i == 160 {
            assert(signature_key(160) == key_block_13(160));
        } else if i == 161 {
            assert(signature_key(161) == key_block_13(161));
        } else if i == 162 {
            assert(signature_key(162) == key_block_13(162));
        } else if i == 163 {
            assert(signature_key(163) == key_block_13(163));
        } else if i == 164 {
            assert(signature_key(164) == key_block_13(164));
        } else if i == 165 {
            assert(signature_key(165) == key_block_13(165));
        } else if i == 166 {
            assert(signature_key(166) == key_block_13(166));
        } else if i == 167 {
            assert(signature_key(167) == key_block_13(167));
        }
    }
}

proof fn lemma_positions_block_14()
    ensures
        forall|i: int|
            168 <= i < 180 ==> signature_position(#[trigger] signature_key(i).0, signature_key(i).1)
                == Some(i),
{
    assert forall|i: int| 168 <= i < 180 implies signature_position(
        #[trigger] signature_key(i).0,
        signature_key(i).1,
    ) == Some(i) by {
        if i == 168 {
            assert(signature_key(168) == key_block_14(168));
        } else if i == 169 {
            assert(signature_key(169) == key_block_14(169));
        } else if i == 170 {
            assert(signature_key(170) == key_block_14(170));
        } else if i == 171 {
            assert(signature_key(171) == key_block_14(171));
        } else if i == 172 {
            assert(signature_key(172) == key_block_14(172));
        } else if i == 173 {
            assert(signature_key(173) == key_block_14(173));
        } else if i == 174 {
            assert(signature_key(174) == key_block_14(174));
        } else if i == 175 {
            assert(signature_key(175) == key_block_14(175));
        } else if i == 176 {
            assert(signature_key(176) == key_block_14(176));
        } else if i == 177 {
            assert(signature_key(177) == key_block_14(177));
        } else if i == 178 {
            assert(signature_key(178) == key_block_14(178));
        } else if i == 179 {
            assert(signature_key(179) == key_block_14(179));
        }
    }
}

proof fn lemma_positions_block_15()
    ensures
        forall|i: int|
            180 <= i < 192 ==> signature_position(#[trigger] signature_key(i).0, signature_key(i).1)
                == Some(i),
{
    assert forall|i: int| 180 <= i < 192 implies signature_position(
        #[trigger] signature_key(i).0,
        signature_key(i).1,
    ) == Some(i) by {
        if i == 180 {
            assert(signature_key(180) == key_block_15(180));
        } else if i == 181 {
            assert(signature_key(181) == key_block_15(181));
        } else if i == 182 {
            assert(signature_key(182) == key_block_15(182));
        } else if i == 183 {
            assert(signature_key(183) == key_block_15(183));
        } else if i == 184 {
            assert(signature_key(184) == key_block_15(184));
        } else if i == 185 {
            assert(signature_key(185) == key_block_15(185));
        } else if i == 186 {
            assert(signature_key(186) == key_block_15(186));
        } else if i == 187 {
            assert(signature_key(187) == key_block_15(187));
        } else if i == 188 {
            assert(signature_key(188) == key_block_15(188));
        } else if i == 189 {
            assert(signature_key(189) == key_block_15(189));
        } else if i == 190 {
            assert(signature_key(190) == key_block_15(190));
        } else if i == 191 {
            assert(signature_key(191) == key_block_15(191));
        }
    }
}

proof fn lemma_positions_block_16()
    ensures
        forall|i: int|
            192 <= i < 204 ==> signature_position(#[trigger] signature_key(i).0, signature_key(i).1)
                == Some(i),
{
    assert forall|i: int| 192 <= i < 204 implies signature_position(
        #[trigger] signature_key(i).0,
        signature_key(i).1,
    ) == Some(i) by {
        if i == 192 {
            assert(signature_key(192) == key_block_16(192));
        } else if i == 193 {
            assert(signature_key(193) == key_block_16(193));
        } else if i == 194 {
            assert(signature_key(194) == key_block_16(194));
        } else if i == 195 {
            assert(signature_key(195) == key_block_16(195));
        } else if i == 196 {
            assert(signature_key(196) == key_block_16(196));
        } else if i == 197 {
            assert(signature_key(197) == key_block_16(197));
        } else if i == 198 {
            assert(signature_key(198) == key_block_16(198));
        } else if i == 199 {
            assert(signature_key(199) == key_block_16(199));
        } else if i == 200 {
            assert(signature_key(200) == key_block_16(200));
        } else if i == 201 {
            assert(signature_key(201) == key_block_16(201));
        } else if i == 202 {
            assert(signature_key(202) == key_block_16(202));
        } else if i == 203 {
            assert(signature_key(203) == key_block_16(203));
        }
    }
}

proof fn lemma_positions_block_17()
    ensures
        forall|i: int|
            204 <= i < 216 ==> signature_position(#[trigger] signature_key(i).0, signature_key(i).1)
                == Some(i),
{
    assert forall|i: int| 204 <= i < 216 implies signature_position(
        #[trigger] signature_key(i).0,
        signature_key(i).1,
    ) == Some(i) by {
        if i == 204 {
            assert(signature_key(204) == key_block_17(204));
        } else if i == 205 {
            assert(signature_key(205) == key_block_17(205));
        } else if i == 206 {
            assert(signature_key(206) == key_block_17(206));
        } else if i == 207 {
            assert(signature_key(207) == key_block_17(207));
        } else if i == 208 {
            assert(signature_key(208) == key_block_17(208));
        } else if i == 209 {
            assert(signature_key(209) == key_block_17(209));
        } else if i == 210 {
            assert(signature_key(210) == key_block_17(210));
        } else if i == 211 {
            assert(signature_key(211) == key_block_17(211));
        } else if i == 212 {
            assert(signature_key(212) == key_block_17(212));
        } else if i == 213 {
            assert(signature_key(213) == key_block_17(213));
        } else if i == 214 {
            assert(signature_key(214) == key_block_17(214));
        } else if i == 215 {
            assert(signature_key(215) == key_block_17(215));
        }
    }
}

proof fn lemma_positions_block_18()
    ensures
        forall|i: int|
            216 <= i < 228 ==> signature_position(#[trigger] signature_key(i).0, signature_key(i).1)
                == Some(i),
{
    assert forall|i: int| 216 <= i < 228 implies signature_position(
        #[trigger] signature_key(i).0,
        signature_key(i).1,
    ) == Some(i) by {
        if i == 216 {
            assert(signature_key(216) == key_block_18(216));
        } else if i == 217 {
            assert(signature_key(217) == key_block_18(217));
        } else if i == 218 {
            assert(signature_key(218) == key_block_18(218));
        } else if i == 219 {
            assert(signature_key(219) == key_block_18(219));
        } else if i == 220 {
            assert(signature_key(220) == key_block_18(220));
        } else if i == 221 {
            assert(signature_key(221) == key_block_18(221));
        } else if i == 222 {
            assert(signature_key(222) == key_block_18(222));
        } else if i == 223 {
            assert(signature_key(223) == key_block_18(223));
        } else if i == 224 {
            assert(signature_key(224) == key_block_18(224));
        } else if i == 225 {
            assert(signature_key(225) == key_block_18(225));
        } else if i == 226 {
            assert(signature_key(226) == key_block_18(226));
        } else if i == 227 {
            assert(signature_key(227) == key_block_18(227));
        }
    }
}

} // verus!
