//! Shared semantic table for Game.exe script extcalls.
//!
//! The table is evidence-oriented: it is not just a pretty decompiler
//! signature list.  The VM, the decompiler and the write-up agree on these
//! records before an extcall is treated as implemented.

use vstd::prelude::*;
use crate::extsig_records::signature_at;
use crate::extsig_table::{
    find_signature_position, lemma_positions_of_keys, observed_arity, signature_entry,
    signature_key, signature_position, SIGNATURE_COUNT,
};

verus! {

#[derive(Clone, Copy, Debug, PartialEq, Eq, Structural)]
pub enum ParamKind {
    Integer,
    Slot,
    SpriteSlot,
    ButtonSlot,
    SoundSlot,
    ResourceName,
    TextId,
    TextString,
    FileDatString,
    DynamicString,
    IniSection,
    IniKey,
    IniFilename,
    PointId,
    CoordinateX,
    CoordinateY,
    CoordinateZ,
    DurationMs,
    Volume,
    Color,
    Alpha,
    Flag,
    Mode,
    Handle,
    BufferPointer,
    Unknown,
    /// Compatibility alias used by the decompiler renderer.
    ResourceStringFromFileDat,
    /// Compatibility alias used by the decompiler renderer.
    TextStringFromTextDat,
    /// Compatibility alias used by the decompiler renderer.
    Coordinate,
    /// Compatibility alias used by the decompiler renderer.
    Duration,
}

#[derive(Clone, Copy, Debug, PartialEq, Eq, Structural)]
pub enum ReturnKind {
    Void,
    Integer,
    Bool,
    Handle,
    StringId,
    Status,
    PointId,
    UnsupportedUnknown,
}

#[derive(Clone, Copy, Debug, PartialEq, Eq, Structural)]
pub enum SideEffect {
    CreatesSprite,
    MutatesSprite,
    DeletesSprite,
    CreatesTask,
    BlocksScript,
    ReadsIni,
    ReadsFile,
    WritesVmMemory,
    CreatesSound,
    PlaysSound,
    StopsSound,
    ChangesTextState,
    ChangesSelectState,
    ChangesSaveState,
    ChangesHistoryState,
    ChangesRunState,
    CreatesMovie,
    MutatesWindow,
    UnknownSideEffect,
}

#[derive(Clone, Copy, Debug, PartialEq, Eq, Structural)]
pub enum ImplStatus {
    Verified,
    Partial,
    Blocked,
    StackDisciplineOnly,
    Stub,
    Unknown,
    WrongOrSuspicious,
}

#[derive(Clone, Copy, Debug, PartialEq, Eq, Structural)]
pub enum EvidenceKind {
    GameSqlite,
    PalSqlite,
    RuntimeTrace,
    Writeup,
    Disassembly,
}

#[derive(Clone, Copy, Debug, PartialEq, Eq)]
pub struct Evidence {
    pub kind: EvidenceKind,
    pub reference: &'static str,
}

#[derive(Clone, Copy, Debug, PartialEq, Eq)]
pub struct ParamSpec {
    pub name: &'static str,
    pub kind: ParamKind,
    pub meaning: &'static str,
}

/// One parameter in display order. `pop_idx` indexes the runtime pop-order
/// argument vector: 0 is the last pushed value.
#[derive(Clone, Copy, Debug, PartialEq, Eq)]
pub struct Param {
    pub name: &'static str,
    pub pop_idx: usize,
    pub kind: ParamKind,
    pub meaning: &'static str,
}

#[derive(Clone, Debug, PartialEq, Eq)]
pub struct ExtSig {
    pub category: u16,
    pub index: u16,
    pub canonical_name: &'static str,
    /// Compatibility field for decompiler code.
    pub name: &'static str,
    pub game_handler_ea: Option<&'static str>,
    pub pal_export_name: Option<&'static str>,
    pub pal_export_ea: Option<&'static str>,
    pub pop_count: usize,
    pub pop_order: Vec<ParamSpec>,
    pub display_order: Vec<usize>,
    /// Compatibility field: display-order parameters with pop-order indices.
    pub params: Vec<Param>,
    pub return_kind: ReturnKind,
    /// Compatibility field for decompiler code.
    pub returns: bool,
    pub side_effects: Vec<SideEffect>,
    pub purpose: &'static str,
    pub evidence: Vec<Evidence>,
    pub implementation_status: ImplStatus,
    pub decompiler_status: ImplStatus,
}

/// Backward-compatible name used by the decompiler.
pub type ExtCallSig = ExtSig;

/// An `ExtSig` with its vectors seen as sequences.
#[verifier::ext_equal]
pub struct ExtSigView {
    pub category: u16,
    pub index: u16,
    pub canonical_name: &'static str,
    pub name: &'static str,
    pub game_handler_ea: Option<&'static str>,
    pub pal_export_name: Option<&'static str>,
    pub pal_export_ea: Option<&'static str>,
    pub pop_count: usize,
    pub pop_order: Seq<ParamSpec>,
    pub display_order: Seq<usize>,
    pub params: Seq<Param>,
    pub return_kind: ReturnKind,
    pub returns: bool,
    pub side_effects: Seq<SideEffect>,
    pub purpose: &'static str,
    pub evidence: Seq<Evidence>,
    pub implementation_status: ImplStatus,
    pub decompiler_status: ImplStatus,
}

impl View for ExtSig {
    type V = ExtSigView;

    open spec fn view(&self) -> ExtSigView {
        ExtSigView {
            category: self.category,
            index: self.index,
            canonical_name: self.canonical_name,
            name: self.name,
            game_handler_ea: self.game_handler_ea,
            pal_export_name: self.pal_export_name,
            pal_export_ea: self.pal_export_ea,
            pop_count: self.pop_count,
            pop_order: self.pop_order@,
            display_order: self.display_order@,
            params: self.params@,
            return_kind: self.return_kind,
            returns: self.returns,
            side_effects: self.side_effects@,
            purpose: self.purpose,
            evidence: self.evidence@,
            implementation_status: self.implementation_status,
            decompiler_status: self.decompiler_status,
        }
    }
}

/// What `lookup_sig` answers for `(category, index)`: the table record with
/// that key, if the table has one.
pub open spec fn spec_lookup_sig(category: u16, index: u16) -> Option<ExtSigView> {
    match signature_position(category, index) {
        Some(p) => Some(signature_entry(p)),
        None => None,
    }
}

/// The record for `(category, index)`, if the table knows that extcall.
pub fn lookup_sig(category: u16, index: u16) -> (res: Option<ExtSig>)
    ensures
        res is Some <==> spec_lookup_sig(category, index) is Some,
        res matches Some(sig) ==> spec_lookup_sig(category, index) == Some(sig@),
        res matches Some(sig) ==> sig.category == category && sig.index == index
            && sig.pop_count == sig.params@.len(),
{
    match find_signature_position(category, index) {
        Some(p) => {
            proof {
                lemma_signature_positions_in_range(category, index);
            }
            let sig = signature_at(p);
            let _ = sig.params.len();
            Some(sig)
        },
        None => None,
    }
}

/// Every record of the table, in table order.
pub fn all_signatures() -> (res: Vec<ExtSig>)
    ensures
        res@.len() == SIGNATURE_COUNT,
        forall|i: int| 0 <= i < res@.len() ==> (#[trigger] res@[i])@ == signature_entry(i),
        forall|i: int| 0 <= i < res@.len() ==> (#[trigger] res@[i]).pop_count == res@[i].params@.len(),
{
    let mut res: Vec<ExtSig> = Vec::new();
    let mut i: usize = 0;
    while i < SIGNATURE_COUNT
        invariant
            i <= SIGNATURE_COUNT,
            res@.len() == i,
            forall|j: int| 0 <= j < i ==> (#[trigger] res@[j])@ == signature_entry(j),
            forall|j: int| 0 <= j < i ==> (#[trigger] res@[j]).pop_count == res@[j].params@.len(),
        decreases SIGNATURE_COUNT - i,
    {
        let sig = signature_at(i);
        let _ = sig.params.len();
        res.push(sig);
        i += 1;
    }
    res
}

/// Records of the generated supplementary table; this crate ships none.
pub fn auto_signatures() -> (res: Vec<ExtSig>)
    ensures
        res@.len() == 0,
{
    Vec::new()
}

/// Best-effort arity observed at script call sites.
///
/// This is not a replacement for a real handler pass. It is a runtime safety
/// net for extcalls that are still `Unknown`/`Stub`: the VM can consume the
/// same number of pushed arguments that the script uses, and the decompiler
/// can keep displaying raw arguments instead of pretending their semantics are
/// known.
pub fn observed_pop_count(category: u16, index: u16) -> (res: Option<usize>)
    ensures
        res == observed_arity(category, index),
{
    match (category, index) {
        (2, 0) => Some(8),
        (2, 1) => Some(4),
        (2, 2) => Some(4),
        (2, 3) => Some(2),
        (2, 4) => Some(1),
        (2, 5) => Some(1),
        (2, 8) => Some(0),
        (2, 9) => Some(1),
        (2, 10) => Some(2),
        (2, 11) => Some(2),
        (2, 12) => Some(3),
        (2, 13) => Some(1),
        (2, 14) => Some(2),
        (2, 15) => Some(5),
        (2, 16) => Some(3),
        (2, 17) => Some(3),
        (2, 18) => Some(4),
        (2, 19) => Some(4),
        (2, 20) => Some(3),
        (2, 21) => Some(0),
        (2, 22) => Some(4),
        (2, 23) => Some(1),
        (2, 24) => Some(0),
        (2, 25) => Some(5),
        (2, 26) => Some(1),
        (2, 27) => Some(0),
        (2, 29) => Some(0),
        (2, 30) => Some(1),
        (2, 31) => Some(4),
        (2, 32) => Some(1),
        (3, 2) => Some(4),
        (3, 3) => Some(5),
        (3, 5) => Some(1),
        (3, 6) => Some(2),
        (3, 7) => Some(1),
        (3, 8) => Some(2),
        (3, 9) => Some(3),
        (3, 11) => Some(2),
        (3, 12) => Some(9),
        (3, 13) => Some(4),
        (3, 14) => Some(4),
        (3, 15) => Some(3),
        (3, 16) => Some(2),
        (3, 17) => Some(2),
        (3, 18) => Some(5),
        (3, 19) => Some(5),
        (3, 20) => Some(4),
        (3, 21) => Some(1),
        (3, 22) => Some(5),
        (3, 23) => Some(2),
        (3, 24) => Some(5),
        (3, 25) => Some(4),
        (3, 26) => Some(1),
        (3, 27) => Some(2),
        (3, 28) => Some(4),
        (3, 29) => Some(1),
        (3, 30) => Some(1),
        (3, 31) => Some(9),
        (3, 32) => Some(6),
        (3, 34) => Some(2),
        (3, 35) => Some(2),
        (3, 36) => Some(1),
        (3, 37) => Some(2),
        (3, 38) => Some(9),
        (3, 39) => Some(4),
        (3, 40) => Some(6),
        (3, 44) => Some(1),
        (3, 46) => Some(1),
        (3, 47) => Some(1),
        (3, 48) => Some(1),
        (3, 49) => Some(5),
        (3, 50) => Some(4),
        (3, 51) => Some(1),
        (3, 52) => Some(3),
        (3, 53) => Some(2),
        (3, 54) => Some(1),
        (3, 55) => Some(9),
        (3, 56) => Some(9),
        (3, 57) => Some(3),
        (4, 0) => Some(7),
        (4, 1) => Some(2),
        (4, 2) => Some(1),
        (4, 3) => Some(2),
        (4, 4) => Some(2),
        (4, 6) => Some(2),
        (4, 8) => Some(3),
        (4, 11) => Some(1),
        (4, 12) => Some(3),
        (4, 13) => Some(1),
        (4, 14) => Some(1),
        (4, 15) => Some(1),
        (5, 0) => Some(3),
        (5, 1) => Some(4),
        (5, 2) => Some(5),
        (5, 3) => Some(2),
        (5, 4) => Some(2),
        (5, 5) => Some(3),
        (5, 6) => Some(1),
        (5, 7) => Some(1),
        (5, 14) => Some(2),
        (6, 0) => Some(4),
        (6, 1) => Some(1),
        (6, 2) => Some(6),
        (6, 3) => Some(0),
        (6, 4) => Some(0),
        (6, 6) => Some(3),
        (7, 0) => Some(2),
        (7, 1) => Some(2),
        (7, 2) => Some(0),
        (7, 3) => Some(1),
        (7, 4) => Some(0),
        (7, 5) => Some(0),
        (7, 6) => Some(0),
        (7, 8) => Some(0),
        (7, 9) => Some(0),
        (7, 10) => Some(0),
        (8, 0) => Some(3),
        (8, 1) => Some(1),
        (8, 3) => Some(7),
        (8, 4) => Some(2),
        (8, 5) => Some(2),
        (8, 6) => Some(4),
        (8, 8) => Some(2),
        (8, 9) => Some(5),
        (8, 10) => Some(5),
        (8, 11) => Some(2),
        (8, 12) => Some(2),
        (8, 13) => Some(3),
        (8, 14) => Some(4),
        (8, 15) => Some(3),
        (8, 16) => Some(3),
        (8, 17) => Some(2),
        (8, 18) => Some(3),
        (8, 19) => Some(3),
        (8, 20) => Some(1),
        (8, 21) => Some(4),
        (8, 22) => Some(2),
        (8, 23) => Some(2),
        (8, 24) => Some(2),
        (8, 26) => Some(1),
        (9, 0) => Some(2),
        (9, 1) => Some(1),
        (9, 2) => Some(2),
        (9, 3) => Some(0),
        (9, 4) => Some(1),
        (9, 5) => Some(0),
        (9, 6) => Some(1),
        (9, 7) => Some(1),
        (9, 8) => Some(1),
        (9, 9) => Some(0),
        (9, 10) => Some(0),
        (9, 12) => Some(2),
        (9, 15) => Some(1),
        (9, 17) => Some(1),
        (9, 18) => Some(3),
        (9, 19) => Some(2),
        (9, 20) => Some(1),
        (9, 21) => Some(1),
        (9, 22) => Some(0),
        (9, 23) => Some(1),
        (9, 24) => Some(1),
        (9, 25) => Some(1),
        (9, 26) => Some(2),
        (9, 27) => Some(1),
        (9, 28) => Some(0),
        (9, 29) => Some(0),
        (9, 30) => Some(1),
        (9, 31) => Some(0),
        (9, 35) => Some(0),
        (9, 36) => Some(4),
        (9, 48) => Some(3),
        (9, 49) => Some(1),
        (9, 51) => Some(1),
        (9, 52) => Some(1),
        (9, 53) => Some(0),
        (10, 0) => Some(3),
        (10, 1) => Some(3),
        (10, 4) => Some(2),
        (10, 5) => Some(4),
        (10, 7) => Some(1),
        (10, 9) => Some(1),
        (10, 11) => Some(2),
        (10, 12) => Some(1),
        (10, 13) => Some(5),
        (10, 14) => Some(5),
        (10, 15) => Some(2),
        (10, 16) => Some(4),
        (10, 17) => Some(1),
        (10, 22) => Some(0),
        (10, 24) => Some(1),
        (10, 25) => Some(0),
        (10, 26) => Some(2),
        (10, 27) => Some(2),
        (10, 28) => Some(1),
        (10, 29) => Some(3),
        (10, 30) => Some(3),
        (10, 32) => Some(2),
        (10, 33) => Some(1),
        (10, 34) => Some(1),
        (10, 35) => Some(0),
        (10, 36) => Some(1),
        (11, 0) => Some(2),
        (11, 1) => Some(8),
        (11, 2) => Some(1),
        (11, 3) => Some(2),
        (11, 4) => Some(1),
        (11, 5) => Some(1),
        (12, 0) => Some(3),
        (12, 1) => Some(1),
        (12, 2) => Some(2),
        (13, 0) => Some(4),
        (13, 1) => Some(2),
        (13, 2) => Some(1),
        (13, 3) => Some(2),
        (13, 4) => Some(4),
        (13, 5) => Some(3),
        (13, 6) => Some(1),
        (13, 7) => Some(1),
        (13, 8) => Some(4),
        (13, 11) => Some(1),
        (13, 12) => Some(3),
        (13, 14) => Some(1),
        (13, 15) => Some(1),
        (13, 16) => Some(4),
        (13, 17) => Some(0),
        (13, 18) => Some(2),
        (13, 19) => Some(3),
        (13, 20) => Some(1),
        (13, 21) => Some(1),
        (13, 22) => Some(2),
        (13, 24) => Some(1),
        (14, 0) => Some(9),
        (14, 1) => Some(0),
        (14, 2) => Some(1),
        (14, 3) => Some(0),
        (14, 4) => Some(1),
        (14, 5) => Some(0),
        (14, 6) => Some(0),
        (14, 7) => Some(0),
        (14, 8) => Some(0),
        (14, 9) => Some(0),
        (14, 10) => Some(4),
        (14, 11) => Some(0),
        (14, 12) => Some(1),
        (15, 2) => Some(3),
        (15, 4) => Some(8),
        (15, 5) => Some(1),
        (16, 0) => Some(2),
        (16, 1) => Some(4),
        (16, 2) => Some(4),
        (17, 0) => Some(2),
        (17, 1) => Some(2),
        (17, 3) => Some(1),
        (17, 5) => Some(6),
        (17, 6) => Some(5),
        (17, 7) => Some(5),
        (17, 8) => Some(4),
        (17, 9) => Some(2),
        (17, 10) => Some(6),
        (17, 11) => Some(4),
        (17, 14) => Some(6),
        (17, 15) => Some(6),
        (17, 17) => Some(6),
        (17, 20) => Some(5),
        (17, 21) => Some(7),
        (17, 23) => Some(1),
        (17, 24) => Some(1),
        (17, 28) => Some(0),
        (17, 29) => Some(6),
        (17, 30) => Some(1),
        (18, 1) => Some(1),
        (18, 3) => Some(2),
        (18, 4) => Some(2),
        (18, 5) => Some(3),
        (18, 6) => Some(1),
        (18, 7) => Some(3),
        (18, 8) => Some(1),
        (18, 9) => Some(10),
        (18, 10) => Some(1),
        (18, 12) => Some(1),
        (18, 13) => Some(1),
        (18, 14) => Some(1),
        (18, 15) => Some(1),
        (18, 17) => Some(1),
        (18, 18) => Some(3),
        (18, 21) => Some(1),
        (18, 28) => Some(0),
        (18, 29) => Some(0),
        (18, 30) => Some(1),
        (18, 31) => Some(3),
        (18, 32) => Some(1),
        (18, 33) => Some(3),
        (18, 34) => Some(3),
        (18, 36) => Some(5),
        (18, 37) => Some(4),
        (18, 40) => Some(16),
        (20, 0) => Some(3),
        (21, 0) => Some(1),
        (21, 2) => Some(1),
        (22, 0) => Some(3),
        (22, 1) => Some(0),
        (23, 0) => Some(1),
        (23, 1) => Some(0),
        (23, 2) => Some(1),
        _ => None,
    }
}

/// A position that `signature_position` gives is a table position whose record
/// carries that key.
pub proof fn lemma_signature_positions_in_range(category: u16, index: u16)
    ensures
        signature_position(category, index) matches Some(p) ==> 0 <= p < SIGNATURE_COUNT
            && signature_key(p) == (category, index),
{
}

/// No two records of the table share a `(category, index)` key.
pub proof fn lemma_signature_keys_unique()
    ensures
        forall|i: int, j: int|
            0 <= i < SIGNATURE_COUNT && 0 <= j < SIGNATURE_COUNT && i != j
                ==> #[trigger] signature_key(i) != #[trigger] signature_key(j),
{
    lemma_positions_of_keys();
}

/// Looking up the key of any record of the table gives back that record.
pub proof fn lemma_lookup_finds_every_record()
    ensures
        forall|i: int|
            0 <= i < SIGNATURE_COUNT ==> spec_lookup_sig(
                #[trigger] signature_key(i).0,
                signature_key(i).1,
            ) == Some(signature_entry(i)),
{
    lemma_positions_of_keys();
}

} // verus!
