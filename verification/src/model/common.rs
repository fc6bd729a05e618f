//! Models shared by document-, selection- and text-oriented APIs.

use vstd::prelude::*;
use crate::model::board::{message_with, ColorRgba, PcbItem, PolygonWithHolesNm, Vector2Nm};
use crate::proto;
use crate::proto::F64Bits;
use crate::proto_enums::{kicad_object_type_name, kicad_object_type_name_spec};
use crate::text::{
    chars_from, chars_of, chars_start_with, chars_start_with_at, is_whitespace, leading_ws, owned,
    seq_starts_with, str_eq, string_from_chars, trailing_ws, trim_chars,
    trim_seq,
};

verus! {

/// KiCad semantic version returned by `GetVersion`.
#[derive(Clone, Debug, PartialEq, Eq)]
pub struct VersionInfo {
    /// Major version component.
    pub major: u32,
    /// Minor version component.
    pub minor: u32,
    /// Patch version component.
    pub patch: u32,
    /// Full KiCad version string (includes prerelease/build details).
    pub full_version: String,
}

/// KiCad top-level frame/editor targets used by API commands.
#[derive(Clone, Copy, Debug, PartialEq, Eq, Structural)]
pub enum EditorFrameType {
    /// KiCad project manager frame.
    ProjectManager,
    /// Schematic editor frame.
    SchematicEditor,
    /// PCB editor frame.
    PcbEditor,
    /// Spice simulator frame.
    SpiceSimulator,
    /// Symbol editor frame.
    SymbolEditor,
    /// Footprint editor frame.
    FootprintEditor,
    /// Drawing-sheet editor frame.
    DrawingSheetEditor,
}

/// The `FrameType` wire value of an editor frame.
pub open spec fn editor_frame_type_code(frame: EditorFrameType) -> i32 {
    match frame {
        EditorFrameType::ProjectManager => proto::FT_PROJECT_MANAGER,
        EditorFrameType::SchematicEditor => proto::FT_SCHEMATIC_EDITOR,
        EditorFrameType::PcbEditor => proto::FT_PCB_EDITOR,
        EditorFrameType::SpiceSimulator => proto::FT_SPICE_SIMULATOR,
        EditorFrameType::SymbolEditor => proto::FT_SYMBOL_EDITOR,
        EditorFrameType::FootprintEditor => proto::FT_FOOTPRINT_EDITOR,
        EditorFrameType::DrawingSheetEditor => proto::FT_DRAWING_SHEET_EDITOR,
    }
}

/// The text an editor frame displays as, and parses from.
pub open spec fn editor_frame_type_text(frame: EditorFrameType) -> Seq<char> {
    match frame {
        EditorFrameType::ProjectManager => "project-manager"@,
        EditorFrameType::SchematicEditor => "schematic"@,
        EditorFrameType::PcbEditor => "pcb"@,
        EditorFrameType::SpiceSimulator => "spice"@,
        EditorFrameType::SymbolEditor => "symbol"@,
        EditorFrameType::FootprintEditor => "footprint"@,
        EditorFrameType::DrawingSheetEditor => "drawing-sheet"@,
    }
}

/// The editor frame that a text names.
pub open spec fn editor_frame_type_from_text(value: Seq<char>) -> Option<EditorFrameType> {
    if value == "project-manager"@ {
        Some(EditorFrameType::ProjectManager)
    } else if value == "schematic"@ {
        Some(EditorFrameType::SchematicEditor)
    } else if value == "pcb"@ {
        Some(EditorFrameType::PcbEditor)
    } else if value == "spice"@ {
        Some(EditorFrameType::SpiceSimulator)
    } else if value == "symbol"@ {
        Some(EditorFrameType::SymbolEditor)
    } else if value == "footprint"@ {
        Some(EditorFrameType::FootprintEditor)
    } else if value == "drawing-sheet"@ {
        Some(EditorFrameType::DrawingSheetEditor)
    } else {
        None
    }
}

/// The message for a text that names no editor frame.
pub open spec fn editor_frame_type_parse_error(value: Seq<char>) -> Seq<char> {
    "unknown frame `"@ + value + "`; expected one of: project-manager, schematic, pcb, spice, symbol, footprint, drawing-sheet"@
}

impl EditorFrameType {
    /// The `FrameType` wire value of this frame.
    pub fn to_proto(self) -> (r: i32)
        ensures
            r == editor_frame_type_code(self),
    {
        match self {
            EditorFrameType::ProjectManager => proto::FT_PROJECT_MANAGER,
            EditorFrameType::SchematicEditor => proto::FT_SCHEMATIC_EDITOR,
            EditorFrameType::PcbEditor => proto::FT_PCB_EDITOR,
            EditorFrameType::SpiceSimulator => proto::FT_SPICE_SIMULATOR,
            EditorFrameType::SymbolEditor => proto::FT_SYMBOL_EDITOR,
            EditorFrameType::FootprintEditor => proto::FT_FOOTPRINT_EDITOR,
            EditorFrameType::DrawingSheetEditor => proto::FT_DRAWING_SHEET_EDITOR,
        }
    }

    /// The text this frame displays as.
    pub fn as_str(&self) -> (r: &'static str)
        ensures
            r@ == editor_frame_type_text(*self),
    {
        match self {
            EditorFrameType::ProjectManager => "project-manager",
            EditorFrameType::SchematicEditor => "schematic",
            EditorFrameType::PcbEditor => "pcb",
            EditorFrameType::SpiceSimulator => "spice",
            EditorFrameType::SymbolEditor => "symbol",
            EditorFrameType::FootprintEditor => "footprint",
            EditorFrameType::DrawingSheetEditor => "drawing-sheet",
        }
    }

    /// Parses an editor frame from its display text.
    pub fn parse(value: &str) -> (r: Result<Self, String>)
        ensures
            match r {
                Ok(frame) => editor_frame_type_from_text(value@) == Some(frame),
                Err(message) => editor_frame_type_from_text(value@) is None && message@ == editor_frame_type_parse_error(value@),
            },
    {
        if str_eq(value, "project-manager") {
            Ok(EditorFrameType::ProjectManager)
        } else if str_eq(value, "schematic") {
            Ok(EditorFrameType::SchematicEditor)
        } else if str_eq(value, "pcb") {
            Ok(EditorFrameType::PcbEditor)
        } else if str_eq(value, "spice") {
            Ok(EditorFrameType::SpiceSimulator)
        } else if str_eq(value, "symbol") {
            Ok(EditorFrameType::SymbolEditor)
        } else if str_eq(value, "footprint") {
            Ok(EditorFrameType::FootprintEditor)
        } else if str_eq(value, "drawing-sheet") {
            Ok(EditorFrameType::DrawingSheetEditor)
        } else {
            Err(
                message_with(
                    "unknown frame `",
                    value,
                    "`; expected one of: project-manager, schematic, pcb, spice, symbol, footprint, drawing-sheet",
                ),
            )
        }
    }
}

impl std::str::FromStr for EditorFrameType {
    type Err = String;

    fn from_str(value: &str) -> (r: Result<Self, Self::Err>)
        ensures
            match r {
                Ok(frame) => editor_frame_type_from_text(value@) == Some(frame),
                Err(message) => editor_frame_type_from_text(value@) is None && message@ == editor_frame_type_parse_error(value@),
            },
    {
        Self::parse(value)
    }
}

/// KiCad document type selector used by document-scoped APIs.
#[derive(Clone, Copy, Debug, PartialEq, Eq, Structural)]
pub enum DocumentType {
    /// Schematic document.
    Schematic,
    /// Symbol document.
    Symbol,
    /// PCB document.
    Pcb,
    /// Footprint document.
    Footprint,
    /// Drawing-sheet document.
    DrawingSheet,
    /// Project-level document.
    Project,
}

/// The `DocumentType` wire value of a document type.
pub open spec fn document_type_code(value: DocumentType) -> i32 {
    match value {
        DocumentType::Schematic => proto::DOCTYPE_SCHEMATIC,
        DocumentType::Symbol => proto::DOCTYPE_SYMBOL,
        DocumentType::Pcb => proto::DOCTYPE_PCB,
        DocumentType::Footprint => proto::DOCTYPE_FOOTPRINT,
        DocumentType::DrawingSheet => proto::DOCTYPE_DRAWING_SHEET,
        DocumentType::Project => proto::DOCTYPE_PROJECT,
    }
}

/// The document type that a `DocumentType` wire value stands for; `None`
/// for `proto::DOCTYPE_UNKNOWN` and for values the enumeration does not define.
pub open spec fn document_type_from_code(value: i32) -> Option<DocumentType> {
    if value == proto::DOCTYPE_SCHEMATIC {
        Some(DocumentType::Schematic)
    } else if value == proto::DOCTYPE_SYMBOL {
        Some(DocumentType::Symbol)
    } else if value == proto::DOCTYPE_PCB {
        Some(DocumentType::Pcb)
    } else if value == proto::DOCTYPE_FOOTPRINT {
        Some(DocumentType::Footprint)
    } else if value == proto::DOCTYPE_DRAWING_SHEET {
        Some(DocumentType::DrawingSheet)
    } else if value == proto::DOCTYPE_PROJECT {
        Some(DocumentType::Project)
    } else {
        None
    }
}

/// The text a document type displays as, and parses from.
pub open spec fn document_type_text(value: DocumentType) -> Seq<char> {
    match value {
        DocumentType::Schematic => "schematic"@,
        DocumentType::Symbol => "symbol"@,
        DocumentType::Pcb => "pcb"@,
        DocumentType::Footprint => "footprint"@,
        DocumentType::DrawingSheet => "drawing-sheet"@,
        DocumentType::Project => "project"@,
    }
}

/// The document type that a text names.
pub open spec fn document_type_from_text(value: Seq<char>) -> Option<DocumentType> {
    if value == "schematic"@ {
        Some(DocumentType::Schematic)
    } else if value == "symbol"@ {
        Some(DocumentType::Symbol)
    } else if value == "pcb"@ {
        Some(DocumentType::Pcb)
    } else if value == "footprint"@ {
        Some(DocumentType::Footprint)
    } else if value == "drawing-sheet"@ {
        Some(DocumentType::DrawingSheet)
    } else if value == "project"@ {
        Some(DocumentType::Project)
    } else {
        None
    }
}

/// The message for a text that names no document type.
pub open spec fn document_type_parse_error(value: Seq<char>) -> Seq<char> {
    "unknown document type `"@ + value + "`; expected one of: schematic, symbol, pcb, footprint, drawing-sheet, project"@
}

impl DocumentType {
    /// The `DocumentType` wire value of this type.
    pub fn to_proto(self) -> (r: i32)
        ensures
            r == document_type_code(self),
    {
        match self {
            DocumentType::Schematic => proto::DOCTYPE_SCHEMATIC,
            DocumentType::Symbol => proto::DOCTYPE_SYMBOL,
            DocumentType::Pcb => proto::DOCTYPE_PCB,
            DocumentType::Footprint => proto::DOCTYPE_FOOTPRINT,
            DocumentType::DrawingSheet => proto::DOCTYPE_DRAWING_SHEET,
            DocumentType::Project => proto::DOCTYPE_PROJECT,
        }
    }

    /// The document type a `DocumentType` wire value stands for.
    pub fn from_proto(value: i32) -> (r: Option<Self>)
        ensures
            r == document_type_from_code(value),
    {
        if value == proto::DOCTYPE_SCHEMATIC {
            Some(DocumentType::Schematic)
        } else if value == proto::DOCTYPE_SYMBOL {
            Some(DocumentType::Symbol)
        } else if value == proto::DOCTYPE_PCB {
            Some(DocumentType::Pcb)
        } else if value == proto::DOCTYPE_FOOTPRINT {
            Some(DocumentType::Footprint)
        } else if value == proto::DOCTYPE_DRAWING_SHEET {
            Some(DocumentType::DrawingSheet)
        } else if value == proto::DOCTYPE_PROJECT {
            Some(DocumentType::Project)
        } else {
            None
        }
    }

    /// The text this document type displays as.
    pub fn as_str(&self) -> (r: &'static str)
        ensures
            r@ == document_type_text(*self),
    {
        match self {
            DocumentType::Schematic => "schematic",
            DocumentType::Symbol => "symbol",
            DocumentType::Pcb => "pcb",
            DocumentType::Footprint => "footprint",
            DocumentType::DrawingSheet => "drawing-sheet",
            DocumentType::Project => "project",
        }
    }

    /// Parses a document type from its display text.
    pub fn parse(value: &str) -> (r: Result<Self, String>)
        ensures
            match r {
                Ok(ty) => document_type_from_text(value@) == Some(ty),
                Err(message) => document_type_from_text(value@) is None && message@ == document_type_parse_error(value@),
            },
    {
        if str_eq(value, "schematic") {
            Ok(DocumentType::Schematic)
        } else if str_eq(value, "symbol") {
            Ok(DocumentType::Symbol)
        } else if str_eq(value, "pcb") {
            Ok(DocumentType::Pcb)
        } else if str_eq(value, "footprint") {
            Ok(DocumentType::Footprint)
        } else if str_eq(value, "drawing-sheet") {
            Ok(DocumentType::DrawingSheet)
        } else if str_eq(value, "project") {
            Ok(DocumentType::Project)
        } else {
            Err(
                message_with(
                    "unknown document type `",
                    value,
                    "`; expected one of: schematic, symbol, pcb, footprint, drawing-sheet, project",
                ),
            )
        }
    }
}

impl std::str::FromStr for DocumentType {
    type Err = String;

    fn from_str(value: &str) -> (r: Result<Self, Self::Err>)
        ensures
            match r {
                Ok(ty) => document_type_from_text(value@) == Some(ty),
                Err(message) => document_type_from_text(value@) is None && message@ == document_type_parse_error(value@),
            },
    {
        Self::parse(value)
    }
}

/// Minimal project information attached to open-document responses.
#[derive(Clone, Debug, PartialEq, Eq)]
pub struct ProjectInfo {
    /// Project display name, if provided by KiCad.
    pub name: Option<String>,
    /// Project filesystem path, if available.
    pub path: Option<String>,
}

/// Descriptor for an open KiCad document.
#[derive(Clone, Debug, PartialEq, Eq)]
pub struct DocumentSpecifier {
    /// KiCad document type.
    pub document_type: DocumentType,
    /// Board filename when relevant.
    pub board_filename: Option<String>,
    /// Owning project metadata.
    pub project: ProjectInfo,
}

/// Count of selected items for a specific protobuf type URL.
#[derive(Clone, Debug, PartialEq, Eq)]
pub struct SelectionTypeCount {
    /// Protobuf type URL for the selected item type.
    pub type_url: String,
    /// Number of selected items of this type.
    pub count: usize,
}

/// Summary of current selection composition.
#[derive(Clone, Debug, PartialEq, Eq)]
pub struct SelectionSummary {
    /// Total selected item count.
    pub total_items: usize,
    /// Per-type counts by protobuf type URL.
    pub type_url_counts: Vec<SelectionTypeCount>,
}

/// Human/debug-friendly selection entry detail.
#[derive(Clone, Debug, PartialEq, Eq)]
pub struct SelectionItemDetail {
    /// Protobuf type URL.
    pub type_url: String,
    /// Decoded/debug string detail.
    pub detail: String,
    /// Raw payload length in bytes.
    pub raw_len: usize,
}

/// Selection dump returned by `get_selection_as_string`.
#[derive(Clone, Debug, PartialEq, Eq)]
pub struct SelectionStringDump {
    /// Ordered ids included in the serialized selection payload.
    pub ids: Vec<String>,
    /// Selection serialized as KiCad s-expression text.
    pub contents: String,
}

/// Result of add/remove/clear selection mutations.
#[derive(Clone, Debug, PartialEq, Eq)]
pub struct SelectionMutationResult {
    /// Decoded selected items after mutation.
    pub items: Vec<PcbItem>,
    /// Compact composition summary for the same selection state.
    pub summary: SelectionSummary,
}

/// Opaque commit session identifier returned by `begin_commit`.
#[derive(Clone, Debug, PartialEq, Eq)]
pub struct CommitSession {
    /// KiCad commit session id.
    pub id: String,
}

/// Final action to apply when ending a commit session.
#[derive(Clone, Copy, Debug, PartialEq, Eq, Structural)]
pub enum CommitAction {
    /// Persist commit changes.
    Commit,
    /// Discard commit changes.
    Drop,
}

/// Status result returned by `run_action`.
#[derive(Clone, Copy, Debug, PartialEq, Eq, Structural)]
pub enum RunActionStatus {
    /// Action succeeded.
    Success,
    /// Action name or payload was invalid.
    Invalid,
    /// Target editor frame was not open.
    FrameNotOpen,
    /// Unrecognized status code from KiCad.
    Unknown(i32),
}

/// Merge strategy for map-like update APIs.
#[derive(Clone, Copy, Debug, PartialEq, Eq, Structural)]
pub enum MapMergeMode {
    /// Merge provided entries into existing map.
    Merge,
    /// Replace existing map with provided entries.
    Replace,
}

/// The text a merge mode displays as, and parses from.
pub open spec fn map_merge_mode_text(value: MapMergeMode) -> Seq<char> {
    match value {
        MapMergeMode::Merge => "merge"@,
        MapMergeMode::Replace => "replace"@,
    }
}

/// The merge mode that a text names.
pub open spec fn map_merge_mode_from_text(value: Seq<char>) -> Option<MapMergeMode> {
    if value == "merge"@ {
        Some(MapMergeMode::Merge)
    } else if value == "replace"@ {
        Some(MapMergeMode::Replace)
    } else {
        None
    }
}

/// The message for a text that names no merge mode.
pub open spec fn map_merge_mode_parse_error(value: Seq<char>) -> Seq<char> {
    "unknown merge mode `"@ + value + "`; expected `merge` or `replace`"@
}

impl MapMergeMode {
    /// The text this merge mode displays as.
    pub fn as_str(&self) -> (r: &'static str)
        ensures
            r@ == map_merge_mode_text(*self),
    {
        match self {
            MapMergeMode::Merge => "merge",
            MapMergeMode::Replace => "replace",
        }
    }

    /// Parses `merge` or `replace`.
    pub fn parse(value: &str) -> (r: Result<Self, String>)
        ensures
            match r {
                Ok(mode) => map_merge_mode_from_text(value@) == Some(mode),
                Err(message) => map_merge_mode_from_text(value@) is None && message@ == map_merge_mode_parse_error(value@),
            },
    {
        if str_eq(value, "merge") {
            Ok(MapMergeMode::Merge)
        } else if str_eq(value, "replace") {
            Ok(MapMergeMode::Replace)
        } else {
            Err(message_with("unknown merge mode `", value, "`; expected `merge` or `replace`"))
        }
    }
}

impl std::str::FromStr for MapMergeMode {
    type Err = String;

    fn from_str(value: &str) -> (r: Result<Self, Self::Err>)
        ensures
            match r {
                Ok(mode) => map_merge_mode_from_text(value@) == Some(mode),
                Err(message) => map_merge_mode_from_text(value@) is None && message@ == map_merge_mode_parse_error(value@),
            },
    {
        Self::parse(value)
    }
}

/// The text a commit action displays as, and parses from.
pub open spec fn commit_action_text(value: CommitAction) -> Seq<char> {
    match value {
        CommitAction::Commit => "commit"@,
        CommitAction::Drop => "drop"@,
    }
}

/// The commit action that a text names.
pub open spec fn commit_action_from_text(value: Seq<char>) -> Option<CommitAction> {
    if value == "commit"@ {
        Some(CommitAction::Commit)
    } else if value == "drop"@ {
        Some(CommitAction::Drop)
    } else {
        None
    }
}

/// The message for a text that names no commit action.
pub open spec fn commit_action_parse_error(value: Seq<char>) -> Seq<char> {
    "unknown commit action `"@ + value + "`; expected `commit` or `drop`"@
}

impl CommitAction {
    /// The text this action displays as.
    pub fn as_str(&self) -> (r: &'static str)
        ensures
            r@ == commit_action_text(*self),
    {
        match self {
            CommitAction::Commit => "commit",
            CommitAction::Drop => "drop",
        }
    }

    /// Parses `commit` or `drop`.
    pub fn parse(value: &str) -> (r: Result<Self, String>)
        ensures
            match r {
                Ok(action) => commit_action_from_text(value@) == Some(action),
                Err(message) => commit_action_from_text(value@) is None && message@ == commit_action_parse_error(value@),
            },
    {
        if str_eq(value, "commit") {
            Ok(CommitAction::Commit)
        } else if str_eq(value, "drop") {
            Ok(CommitAction::Drop)
        } else {
            Err(message_with("unknown commit action `", value, "`; expected `commit` or `drop`"))
        }
    }
}

impl std::str::FromStr for CommitAction {
    type Err = String;

    fn from_str(value: &str) -> (r: Result<Self, Self::Err>)
        ensures
            match r {
                Ok(action) => commit_action_from_text(value@) == Some(action),
                Err(message) => commit_action_from_text(value@) is None && message@ == commit_action_parse_error(value@),
            },
    {
        Self::parse(value)
    }
}

/// Title block fields from the active document.
#[derive(Clone, Debug, PartialEq, Eq)]
pub struct TitleBlockInfo {
    /// Title block title.
    pub title: String,
    /// Title block date.
    pub date: String,
    /// Revision string.
    pub revision: String,
    /// Company field.
    pub company: String,
    /// Comment slot values in `comment1..comment9` order.
    ///
    /// Internal empty gaps are preserved (`["A", "", "C"]` maps to
    /// comment1/comment2/comment3), while trailing empty slots may be trimmed
    /// from this public vector representation.
    pub comments: Vec<String>,
}

#[derive(Clone, Debug, PartialEq, Eq)]
pub struct ItemBoundingBox {
    pub item_id: String,
    pub x_nm: i64,
    pub y_nm: i64,
    pub width_nm: i64,
    pub height_nm: i64,
}

#[derive(Clone, Copy, Debug, PartialEq, Eq, Structural)]
pub enum ItemHitTestResult {
    Unknown,
    NoHit,
    Hit,
}

/// The text a hit-test result displays as.
pub open spec fn item_hit_test_result_text(value: ItemHitTestResult) -> Seq<char> {
    match value {
        ItemHitTestResult::Unknown => "unknown"@,
        ItemHitTestResult::NoHit => "no-hit"@,
        ItemHitTestResult::Hit => "hit"@,
    }
}

impl ItemHitTestResult {
    /// The text this result displays as.
    pub fn as_str(&self) -> (r: &'static str)
        ensures
            r@ == item_hit_test_result_text(*self),
    {
        match self {
            ItemHitTestResult::Unknown => "unknown",
            ItemHitTestResult::NoHit => "no-hit",
            ItemHitTestResult::Hit => "hit",
        }
    }
}

/// A KiCad object type code with its symbolic enum name.
#[derive(Clone, Copy, Debug, PartialEq, Eq)]
pub struct PcbObjectTypeCode {
    pub code: i32,
    pub name: &'static str,
}

/// Whether `code` is a `KiCadObjectType` value whose name begins `proto::KOT_PCB_`.
pub open spec fn is_pcb_object_code(code: i32) -> bool {
    match kicad_object_type_name_spec(code) {
        Some(name) => seq_starts_with(name, "KOT_PCB_"@),
        None => false,
    }
}

/// `s` with the prefix `p` removed as often as it repeats
/// (`str::trim_start_matches`).
pub open spec fn strip_all_prefixes(s: Seq<char>, p: Seq<char>) -> Seq<char>
    decreases s.len(),
{
    if p.len() > 0 && seq_starts_with(s, p) {
        strip_all_prefixes(s.skip(p.len() as int), p)
    } else {
        s
    }
}

/// `-` and space written as `_`, and ASCII letters in upper case.
pub open spec fn upper_snake(s: Seq<char>) -> Seq<char> {
    Seq::new(
        s.len(),
        |i: int|
            if s[i] == '-' || s[i] == ' ' {
                '_'
            } else if 'a' <= s[i] && s[i] <= 'z' {
                (((s[i] as u8) - 32) as u8) as char
            } else {
                s[i]
            },
    )
}

/// The normalised form of an object type name that
/// [`PcbObjectTypeCode::from_name`] matches against its friendly names.
pub open spec fn normalized_object_type_name(value: Seq<char>) -> Seq<char> {
    upper_snake(strip_all_prefixes(trim_seq(value), "KOT_PCB_"@))
}

/// The object type code that a normalised friendly name stands for.
pub open spec fn friendly_object_type_code(n: Seq<char>) -> Option<i32> {
    if n == "FOOTPRINT"@ {
        Some(proto::KOT_PCB_FOOTPRINT)
    } else if n == "PAD"@ {
        Some(proto::KOT_PCB_PAD)
    } else if n == "SHAPE"@ || n == "GRAPHIC_SHAPE"@ || n == "GRAPHIC"@ {
        Some(proto::KOT_PCB_SHAPE)
    } else if n == "REFERENCE_IMAGE"@ {
        Some(proto::KOT_PCB_REFERENCE_IMAGE)
    } else if n == "FIELD"@ {
        Some(proto::KOT_PCB_FIELD)
    } else if n == "GENERATOR"@ {
        Some(proto::KOT_PCB_GENERATOR)
    } else if n == "TEXT"@ || n == "BOARD_TEXT"@ || n == "SILKSCREEN_TEXT"@ {
        Some(proto::KOT_PCB_TEXT)
    } else if n == "TEXTBOX"@ || n == "TEXT_BOX"@ || n == "BOARD_TEXTBOX"@ {
        Some(proto::KOT_PCB_TEXTBOX)
    } else if n == "TABLE"@ {
        Some(proto::KOT_PCB_TABLE)
    } else if n == "TABLECELL"@ || n == "TABLE_CELL"@ {
        Some(proto::KOT_PCB_TABLECELL)
    } else if n == "TRACE"@ || n == "TRACK"@ {
        Some(proto::KOT_PCB_TRACE)
    } else if n == "VIA"@ {
        Some(proto::KOT_PCB_VIA)
    } else if n == "ARC"@ {
        Some(proto::KOT_PCB_ARC)
    } else if n == "MARKER"@ {
        Some(proto::KOT_PCB_MARKER)
    } else if n == "DIMENSION"@ {
        Some(proto::KOT_PCB_DIMENSION)
    } else if n == "ZONE"@ {
        Some(proto::KOT_PCB_ZONE)
    } else if n == "GROUP"@ {
        Some(proto::KOT_PCB_GROUP)
    } else if n == "BARCODE"@ {
        Some(proto::KOT_PCB_BARCODE)
    } else {
        None
    }
}

/// The first `KiCadObjectType` value in `from..=63` whose enum name is `name`.
pub open spec fn first_object_type_with_name(name: Seq<char>, from: int) -> Option<i32>
    decreases 64 - from,
{
    if from > 63 || from < 0 {
        None
    } else if kicad_object_type_name_spec(from as i32) == Some(name) {
        Some(from as i32)
    } else {
        first_object_type_with_name(name, from + 1)
    }
}

/// The object type code a name stands for: a friendly name after
/// normalisation, else an exact enum name.
pub open spec fn object_type_code_named(value: Seq<char>) -> Option<i32> {
    match friendly_object_type_code(normalized_object_type_name(value)) {
        Some(code) => Some(code),
        None => first_object_type_with_name(trim_seq(value), 0),
    }
}

/// The object type code that [`PcbObjectTypeCode::from_name`] resolves: the
/// code the name stands for, when that is a PCB object type.
pub open spec fn object_type_code_from_name(value: Seq<char>) -> Option<i32> {
    match object_type_code_named(value) {
        Some(code) => if is_pcb_object_code(code) {
            Some(code)
        } else {
            None
        },
        None => None,
    }
}

fn strip_prefixes(s: &[char], prefix: &[char]) -> (r: Vec<char>)
    ensures
        r@ == strip_all_prefixes(s@, prefix@),
{
    let n = s.len();
    let m = prefix.len();
    let mut start: usize = 0;
    assert(s@.skip(0) =~= s@);
    while m > 0 && chars_start_with_at(s, start, prefix)
        invariant
            n == s@.len(),
            m == prefix@.len(),
            start <= n,
            strip_all_prefixes(s@, prefix@) == strip_all_prefixes(s@.skip(start as int), prefix@),
        decreases n - start,
    {
        assert(s@.skip(start + m) =~= s@.skip(start as int).skip(m as int));
        start = start + m;
    }
    chars_from(s, start)
}

fn to_upper_snake(s: &[char]) -> (r: Vec<char>)
    ensures
        r@ == upper_snake(s@),
{
    let mut r: Vec<char> = Vec::new();
    let n = s.len();
    let mut i: usize = 0;
    while i < n
        invariant
            n == s@.len(),
            i <= n,
            r@ == upper_snake(s@).take(i as int),
        decreases n - i,
    {
        let c = s[i];
        let d = if c == '-' || c == ' ' {
            '_'
        } else if 'a' <= c && c <= 'z' {
            ((c as u8) - 32) as char
        } else {
            c
        };
        r.push(d);
        assert(upper_snake(s@).take(i + 1) =~= upper_snake(s@).take(i as int).push(d));
        i = i + 1;
    }
    assert(upper_snake(s@).take(n as int) =~= upper_snake(s@));
    r
}

fn friendly_code(n: &str) -> (r: Option<i32>)
    ensures
        r == friendly_object_type_code(n@),
{
    if str_eq(n, "FOOTPRINT") {
        Some(proto::KOT_PCB_FOOTPRINT)
    } else if str_eq(n, "PAD") {
        Some(proto::KOT_PCB_PAD)
    } else if str_eq(n, "SHAPE") || str_eq(n, "GRAPHIC_SHAPE") || str_eq(n, "GRAPHIC") {
        Some(proto::KOT_PCB_SHAPE)
    } else if str_eq(n, "REFERENCE_IMAGE") {
        Some(proto::KOT_PCB_REFERENCE_IMAGE)
    } else if str_eq(n, "FIELD") {
        Some(proto::KOT_PCB_FIELD)
    } else if str_eq(n, "GENERATOR") {
        Some(proto::KOT_PCB_GENERATOR)
    } else if str_eq(n, "TEXT") || str_eq(n, "BOARD_TEXT") || str_eq(n, "SILKSCREEN_TEXT") {
        Some(proto::KOT_PCB_TEXT)
    } else if str_eq(n, "TEXTBOX") || str_eq(n, "TEXT_BOX") || str_eq(n, "BOARD_TEXTBOX") {
        Some(proto::KOT_PCB_TEXTBOX)
    } else if str_eq(n, "TABLE") {
        Some(proto::KOT_PCB_TABLE)
    } else if str_eq(n, "TABLECELL") || str_eq(n, "TABLE_CELL") {
        Some(proto::KOT_PCB_TABLECELL)
    } else if str_eq(n, "TRACE") || str_eq(n, "TRACK") {
        Some(proto::KOT_PCB_TRACE)
    } else if str_eq(n, "VIA") {
        Some(proto::KOT_PCB_VIA)
    } else if str_eq(n, "ARC") {
        Some(proto::KOT_PCB_ARC)
    } else if str_eq(n, "MARKER") {
        Some(proto::KOT_PCB_MARKER)
    } else if str_eq(n, "DIMENSION") {
        Some(proto::KOT_PCB_DIMENSION)
    } else if str_eq(n, "ZONE") {
        Some(proto::KOT_PCB_ZONE)
    } else if str_eq(n, "GROUP") {
        Some(proto::KOT_PCB_GROUP)
    } else if str_eq(n, "BARCODE") {
        Some(proto::KOT_PCB_BARCODE)
    } else {
        None
    }
}

/// Looks up the `KiCadObjectType` value with the given enum name.
pub fn object_type_from_name(name: &str) -> (r: Option<i32>)
    ensures
        r == first_object_type_with_name(name@, 0),
        r matches Some(code) ==> kicad_object_type_name_spec(code) == Some(name@),
{
    let mut code: i32 = 0;
    while code <= 63
        invariant
            0 <= code <= 64,
            first_object_type_with_name(name@, 0) == first_object_type_with_name(
                name@,
                code as int,
            ),
        decreases 64 - code,
    {
        match kicad_object_type_name(code) {
            Some(candidate) => {
                if str_eq(candidate, name) {
                    return Some(code);
                }
            },
            None => {},
        }
        code = code + 1;
    }
    None
}

impl PcbObjectTypeCode {
    fn with_code(code: i32) -> (r: Self)
        requires
            kicad_object_type_name_spec(code) is Some,
        ensures
            r.code == code,
            kicad_object_type_name_spec(code) == Some(r.name@),
    {
        let name = kicad_object_type_name(code).unwrap();
        PcbObjectTypeCode { code, name }
    }

    /// Creates the KiCad object type code for PCB footprints.
    pub fn new_footprint() -> (r: Self)
        ensures
            r.code == proto::KOT_PCB_FOOTPRINT,
            r.name@ == "KOT_PCB_FOOTPRINT"@,
    {
        Self::with_code(proto::KOT_PCB_FOOTPRINT)
    }

    /// Creates the KiCad object type code for PCB pads.
    pub fn new_pad() -> (r: Self)
        ensures
            r.code == proto::KOT_PCB_PAD,
            r.name@ == "KOT_PCB_PAD"@,
    {
        Self::with_code(proto::KOT_PCB_PAD)
    }

    /// Creates the KiCad object type code for PCB graphic shapes.
    pub fn new_shape() -> (r: Self)
        ensures
            r.code == proto::KOT_PCB_SHAPE,
            r.name@ == "KOT_PCB_SHAPE"@,
    {
        Self::with_code(proto::KOT_PCB_SHAPE)
    }

    /// Creates the KiCad object type code for PCB text.
    pub fn new_text() -> (r: Self)
        ensures
            r.code == proto::KOT_PCB_TEXT,
            r.name@ == "KOT_PCB_TEXT"@,
    {
        Self::with_code(proto::KOT_PCB_TEXT)
    }

    /// Creates the KiCad object type code for PCB text boxes.
    pub fn new_textbox() -> (r: Self)
        ensures
            r.code == proto::KOT_PCB_TEXTBOX,
            r.name@ == "KOT_PCB_TEXTBOX"@,
    {
        Self::with_code(proto::KOT_PCB_TEXTBOX)
    }

    /// Creates the KiCad object type code for PCB tracks/traces.
    pub fn new_trace() -> (r: Self)
        ensures
            r.code == proto::KOT_PCB_TRACE,
            r.name@ == "KOT_PCB_TRACE"@,
    {
        Self::with_code(proto::KOT_PCB_TRACE)
    }

    /// Creates the KiCad object type code for PCB vias.
    pub fn new_via() -> (r: Self)
        ensures
            r.code == proto::KOT_PCB_VIA,
            r.name@ == "KOT_PCB_VIA"@,
    {
        Self::with_code(proto::KOT_PCB_VIA)
    }

    /// Creates the KiCad object type code for PCB arcs.
    pub fn new_arc() -> (r: Self)
        ensures
            r.code == proto::KOT_PCB_ARC,
            r.name@ == "KOT_PCB_ARC"@,
    {
        Self::with_code(proto::KOT_PCB_ARC)
    }

    /// Creates the KiCad object type code for PCB dimensions.
    pub fn new_dimension() -> (r: Self)
        ensures
            r.code == proto::KOT_PCB_DIMENSION,
            r.name@ == "KOT_PCB_DIMENSION"@,
    {
        Self::with_code(proto::KOT_PCB_DIMENSION)
    }

    /// Creates the KiCad object type code for PCB zones.
    pub fn new_zone() -> (r: Self)
        ensures
            r.code == proto::KOT_PCB_ZONE,
            r.name@ == "KOT_PCB_ZONE"@,
    {
        Self::with_code(proto::KOT_PCB_ZONE)
    }

    /// Creates the KiCad object type code for PCB groups.
    pub fn new_group() -> (r: Self)
        ensures
            r.code == proto::KOT_PCB_GROUP,
            r.name@ == "KOT_PCB_GROUP"@,
    {
        Self::with_code(proto::KOT_PCB_GROUP)
    }

    /// Creates the KiCad object type code for PCB barcodes.
    pub fn new_barcode() -> (r: Self)
        ensures
            r.code == proto::KOT_PCB_BARCODE,
            r.name@ == "KOT_PCB_BARCODE"@,
    {
        Self::with_code(proto::KOT_PCB_BARCODE)
    }

    /// Resolves a PCB object type code from its numeric KiCad enum value.
    pub fn from_code(code: i32) -> (r: Option<Self>)
        ensures
            r is Some <==> is_pcb_object_code(code),
            r matches Some(t) ==> t.code == code && kicad_object_type_name_spec(code) == Some(
                t.name@,
            ),
    {
        let name = match kicad_object_type_name(code) {
            Some(name) => name,
            None => return None,
        };
        let chars = chars_of(name);
        let prefix = chars_of("KOT_PCB_");
        if chars_start_with(chars.as_slice(), prefix.as_slice()) {
            Some(PcbObjectTypeCode { code, name })
        } else {
            None
        }
    }

    /// Resolves a PCB object type from a proto enum name or friendly name.
    ///
    /// Accepts values like `proto::KOT_PCB_TRACE`, `trace`, `track`, `footprint`,
    /// `text`, and `silkscreen-text` where applicable.
    pub fn from_name(value: &str) -> (r: Option<Self>)
        ensures
            r is Some <==> object_type_code_from_name(value@) is Some,
            r matches Some(t) ==> Some(t.code) == object_type_code_from_name(value@)
                && kicad_object_type_name_spec(t.code) == Some(t.name@),
            r matches Some(t) ==> is_pcb_object_code(t.code),
    {
        let chars = chars_of(value);
        let trimmed = trim_chars(chars.as_slice());
        let prefix = chars_of("KOT_PCB_");
        let stripped = strip_prefixes(trimmed.as_slice(), prefix.as_slice());
        let normalized = to_upper_snake(stripped.as_slice());
        let normalized_text = string_from_chars(normalized.as_slice());
        let code = match friendly_code(normalized_text.as_str()) {
            Some(code) => code,
            None => {
                let trimmed_text = string_from_chars(trimmed.as_slice());
                match object_type_from_name(trimmed_text.as_str()) {
                    Some(code) => code,
                    None => return None,
                }
            },
        };
        Self::from_code(code)
    }
}

#[derive(Clone, Copy, Debug, PartialEq, Eq, Structural)]
pub enum TextHorizontalAlignment {
    Unknown,
    Left,
    Center,
    Right,
    Indeterminate,
}

#[derive(Clone, Copy, Debug, PartialEq, Eq, Structural)]
pub enum TextVerticalAlignment {
    Unknown,
    Top,
    Center,
    Bottom,
    Indeterminate,
}

/// Text attributes for creating or measuring text; the angle and line
/// spacing are `f64` values carried by their bit patterns.
#[derive(Clone, Debug, PartialEq, Eq)]
pub struct TextAttributesSpec {
    pub font_name: Option<String>,
    pub horizontal_alignment: TextHorizontalAlignment,
    pub vertical_alignment: TextVerticalAlignment,
    pub angle_degrees: Option<F64Bits>,
    pub line_spacing: Option<F64Bits>,
    pub stroke_width_nm: Option<i64>,
    pub italic: bool,
    pub bold: bool,
    pub underlined: bool,
    pub mirrored: bool,
    pub multiline: bool,
    pub keep_upright: bool,
    pub size_nm: Option<Vector2Nm>,
}

impl Default for TextAttributesSpec {
    fn default() -> (r: Self)
        ensures
            r.font_name is None,
            r.horizontal_alignment == TextHorizontalAlignment::Unknown,
            r.vertical_alignment == TextVerticalAlignment::Unknown,
            r.angle_degrees is None,
            r.line_spacing is None,
            r.stroke_width_nm is None,
            !r.italic && !r.bold && !r.underlined && !r.mirrored && !r.multiline
                && !r.keep_upright,
            r.size_nm is None,
    {
        TextAttributesSpec {
            font_name: None,
            horizontal_alignment: TextHorizontalAlignment::Unknown,
            vertical_alignment: TextVerticalAlignment::Unknown,
            angle_degrees: None,
            line_spacing: None,
            stroke_width_nm: None,
            italic: false,
            bold: false,
            underlined: false,
            mirrored: false,
            multiline: false,
            keep_upright: false,
            size_nm: None,
        }
    }
}

#[derive(Clone, Debug, PartialEq, Eq)]
pub struct TextSpec {
    pub text: String,
    pub position_nm: Option<Vector2Nm>,
    pub attributes: Option<TextAttributesSpec>,
    pub hyperlink: Option<String>,
}

impl TextSpec {
    /// A text with no position, attributes or hyperlink.
    pub fn plain(text: &str) -> (r: Self)
        ensures
            r.text@ == text@,
            r.position_nm is None,
            r.attributes is None,
            r.hyperlink is None,
    {
        TextSpec { text: owned(text), position_nm: None, attributes: None, hyperlink: None }
    }
}

#[derive(Clone, Debug, PartialEq, Eq)]
pub struct TextExtents {
    pub x_nm: i64,
    pub y_nm: i64,
    pub width_nm: i64,
    pub height_nm: i64,
}

#[derive(Clone, Debug, PartialEq, Eq)]
pub struct TextBoxSpec {
    pub text: String,
    pub top_left_nm: Option<Vector2Nm>,
    pub bottom_right_nm: Option<Vector2Nm>,
    pub attributes: Option<TextAttributesSpec>,
}

#[derive(Clone, Debug, PartialEq, Eq)]
pub enum TextObjectSpec {
    Text(TextSpec),
    TextBox(TextBoxSpec),
}

#[derive(Clone, Debug, PartialEq, Eq)]
pub enum TextShapeGeometry {
    Segment { start_nm: Option<Vector2Nm>, end_nm: Option<Vector2Nm> },
    Rectangle {
        top_left_nm: Option<Vector2Nm>,
        bottom_right_nm: Option<Vector2Nm>,
        corner_radius_nm: Option<i64>,
    },
    Arc { start_nm: Option<Vector2Nm>, mid_nm: Option<Vector2Nm>, end_nm: Option<Vector2Nm> },
    Circle { center_nm: Option<Vector2Nm>, radius_point_nm: Option<Vector2Nm> },
    Polygon { polygons: Vec<PolygonWithHolesNm> },
    Bezier {
        start_nm: Option<Vector2Nm>,
        control1_nm: Option<Vector2Nm>,
        control2_nm: Option<Vector2Nm>,
        end_nm: Option<Vector2Nm>,
    },
    Unknown,
}

#[derive(Clone, Debug, PartialEq, Eq)]
pub struct TextShape {
    pub geometry: TextShapeGeometry,
    pub stroke_width_nm: Option<i64>,
    pub stroke_style: Option<i32>,
    pub stroke_color: Option<ColorRgba>,
    pub fill_type: Option<i32>,
    pub fill_color: Option<ColorRgba>,
}

#[derive(Clone, Debug, PartialEq, Eq)]
pub struct TextAsShapesEntry {
    pub source: Option<TextObjectSpec>,
    pub shapes: Vec<TextShape>,
}

} // verus!

verus! {

/// Whether every character of `s` is an upper-case ASCII letter or `_`.
pub open spec fn upper_snake_chars(s: Seq<char>) -> bool {
    forall|i: int| 0 <= i < s.len() ==> ('A' <= #[trigger] s[i] <= 'Z' || s[i] == '_')
}

/// A `KOT_PCB_` enum name normalises to the part after the prefix.
proof fn lemma_normalized_pcb_name(rest: Seq<char>)
    requires
        rest.len() > 0,
        rest[0] != 'K',
        upper_snake_chars(rest),
    ensures
        normalized_object_type_name("KOT_PCB_"@ + rest) == rest,
{
    reveal_strlit("KOT_PCB_");
    let p = "KOT_PCB_"@;
    let s = p + rest;
    assert(s[0] == 'K');
    assert(leading_ws(s) == 0);
    assert(s.skip(0) =~= s);
    assert(s.last() == rest.last());
    assert(!is_whitespace(rest.last())) by {
        assert('A' <= rest[rest.len() - 1] <= 'Z' || rest[rest.len() - 1] == '_');
    }
    assert(trailing_ws(s) == 0);
    assert(s.take(s.len() as int) =~= s);
    assert(trim_seq(s) == s);
    assert(s.take(8) =~= p);
    assert(s.skip(8) =~= rest);
    assert(!seq_starts_with(rest, p)) by {
        if seq_starts_with(rest, p) {
            assert(rest.take(8)[0] == p[0]);
        }
    }
    assert(strip_all_prefixes(rest, p) == rest);
    assert(strip_all_prefixes(s, p) == rest);
    assert(upper_snake(rest) =~= rest);
}

/// The enum name of each PCB object type of the catalog stands, as a name,
/// for that type.
pub(crate) proof fn lemma_pcb_name_resolves(code: i32)
    requires
        code == 1 || code == 2 || code == 3 || code == 4 || code == 5 || code == 6 || code == 7 || code == 8 || code == 9 || code == 10 || code == 11 || code == 12 || code == 13 || code == 14 || code == 15 || code == 16 || code == 17 || code == 46,
    ensures
        kicad_object_type_name_spec(code) matches Some(n) && object_type_code_named(n) == Some(code),
{
    reveal_strlit("KOT_PCB_");
    reveal_strlit("FOOTPRINT");
    reveal_strlit("PAD");
    reveal_strlit("SHAPE");
    reveal_strlit("GRAPHIC_SHAPE");
    reveal_strlit("GRAPHIC");
    reveal_strlit("REFERENCE_IMAGE");
    reveal_strlit("FIELD");
    reveal_strlit("GENERATOR");
    reveal_strlit("TEXT");
    reveal_strlit("BOARD_TEXT");
    reveal_strlit("SILKSCREEN_TEXT");
    reveal_strlit("TEXTBOX");
    reveal_strlit("TEXT_BOX");
    reveal_strlit("BOARD_TEXTBOX");
    reveal_strlit("TABLE");
    reveal_strlit("TABLECELL");
    reveal_strlit("TABLE_CELL");
    reveal_strlit("TRACE");
    reveal_strlit("TRACK");
    reveal_strlit("VIA");
    reveal_strlit("ARC");
    reveal_strlit("MARKER");
    reveal_strlit("DIMENSION");
    reveal_strlit("ZONE");
    reveal_strlit("GROUP");
    reveal_strlit("BARCODE");
    if code == 1 {
        reveal_strlit("KOT_PCB_FOOTPRINT");
        assert("KOT_PCB_FOOTPRINT"@ =~= "KOT_PCB_"@ + "FOOTPRINT"@);
        lemma_normalized_pcb_name("FOOTPRINT"@);
        assert(friendly_object_type_code("FOOTPRINT"@) == Some(code));
    } else if code == 2 {
        reveal_strlit("KOT_PCB_PAD");
        assert("KOT_PCB_PAD"@ =~= "KOT_PCB_"@ + "PAD"@);
        lemma_normalized_pcb_name("PAD"@);
        assert(friendly_object_type_code("PAD"@) == Some(code));
    } else if code == 3 {
        reveal_strlit("KOT_PCB_SHAPE");
        assert("KOT_PCB_SHAPE"@ =~= "KOT_PCB_"@ + "SHAPE"@);
        lemma_normalized_pcb_name("SHAPE"@);
        assert(friendly_object_type_code("SHAPE"@) == Some(code));
    } else if code == 4 {
        reveal_strlit("KOT_PCB_REFERENCE_IMAGE");
        assert("KOT_PCB_REFERENCE_IMAGE"@ =~= "KOT_PCB_"@ + "REFERENCE_IMAGE"@);
        lemma_normalized_pcb_name("REFERENCE_IMAGE"@);
        assert(friendly_object_type_code("REFERENCE_IMAGE"@) == Some(code));
    } else if code == 5 {
        reveal_strlit("KOT_PCB_FIELD");
        assert("KOT_PCB_FIELD"@ =~= "KOT_PCB_"@ + "FIELD"@);
        lemma_normalized_pcb_name("FIELD"@);
        assert(friendly_object_type_code("FIELD"@) == Some(code));
    } else if code == 6 {
        reveal_strlit("KOT_PCB_GENERATOR");
        assert("KOT_PCB_GENERATOR"@ =~= "KOT_PCB_"@ + "GENERATOR"@);
        lemma_normalized_pcb_name("GENERATOR"@);
        assert(friendly_object_type_code("GENERATOR"@) == Some(code));
    } else if code == 7 {
        reveal_strlit("KOT_PCB_TEXT");
        assert("KOT_PCB_TEXT"@ =~= "KOT_PCB_"@ + "TEXT"@);
        lemma_normalized_pcb_name("TEXT"@);
        assert(friendly_object_type_code("TEXT"@) == Some(code));
    } else if code == 8 {
        reveal_strlit("KOT_PCB_TEXTBOX");
        assert("KOT_PCB_TEXTBOX"@ =~= "KOT_PCB_"@ + "TEXTBOX"@);
        lemma_normalized_pcb_name("TEXTBOX"@);
        assert(friendly_object_type_code("TEXTBOX"@) == Some(code));
    } else if code == 9 {
        reveal_strlit("KOT_PCB_TABLE");
        assert("KOT_PCB_TABLE"@ =~= "KOT_PCB_"@ + "TABLE"@);
        lemma_normalized_pcb_name("TABLE"@);
        assert(friendly_object_type_code("TABLE"@) == Some(code));
    } else if code == 10 {
        reveal_strlit("KOT_PCB_TABLECELL");
        assert("KOT_PCB_TABLECELL"@ =~= "KOT_PCB_"@ + "TABLECELL"@);
        lemma_normalized_pcb_name("TABLECELL"@);
        assert(friendly_object_type_code("TABLECELL"@) == Some(code));
    } else if code == 11 {
        reveal_strlit("KOT_PCB_TRACE");
        assert("KOT_PCB_TRACE"@ =~= "KOT_PCB_"@ + "TRACE"@);
        lemma_normalized_pcb_name("TRACE"@);
        assert("TRACE"@[1] != "TABLE"@[1]);
        assert("TRACE"@[0] != "SHAPE"@[0]);
        assert("TRACE"@ != "TABLE"@);
        assert("TRACE"@ != "SHAPE"@);
        assert("TRACE"@ != "FIELD"@);
        assert(friendly_object_type_code("TRACE"@) == Some(code));
    } else if code == 12 {
        reveal_strlit("KOT_PCB_VIA");
        assert("KOT_PCB_VIA"@ =~= "KOT_PCB_"@ + "VIA"@);
        lemma_normalized_pcb_name("VIA"@);
        assert(friendly_object_type_code("VIA"@) == Some(code));
    } else if code == 13 {
        reveal_strlit("KOT_PCB_ARC");
        assert("KOT_PCB_ARC"@ =~= "KOT_PCB_"@ + "ARC"@);
        lemma_normalized_pcb_name("ARC"@);
        assert(friendly_object_type_code("ARC"@) == Some(code));
    } else if code == 14 {
        reveal_strlit("KOT_PCB_MARKER");
        assert("KOT_PCB_MARKER"@ =~= "KOT_PCB_"@ + "MARKER"@);
        lemma_normalized_pcb_name("MARKER"@);
        assert(friendly_object_type_code("MARKER"@) == Some(code));
    } else if code == 15 {
        reveal_strlit("KOT_PCB_DIMENSION");
        assert("KOT_PCB_DIMENSION"@ =~= "KOT_PCB_"@ + "DIMENSION"@);
        lemma_normalized_pcb_name("DIMENSION"@);
        assert(friendly_object_type_code("DIMENSION"@) == Some(code));
    } else if code == 16 {
        reveal_strlit("KOT_PCB_ZONE");
        assert("KOT_PCB_ZONE"@ =~= "KOT_PCB_"@ + "ZONE"@);
        lemma_normalized_pcb_name("ZONE"@);
        assert(friendly_object_type_code("ZONE"@) == Some(code));
    } else if code == 17 {
        reveal_strlit("KOT_PCB_GROUP");
        assert("KOT_PCB_GROUP"@ =~= "KOT_PCB_"@ + "GROUP"@);
        lemma_normalized_pcb_name("GROUP"@);
        assert(friendly_object_type_code("GROUP"@) == Some(code));
    } else if code == 46 {
        reveal_strlit("KOT_PCB_BARCODE");
        assert("KOT_PCB_BARCODE"@ =~= "KOT_PCB_"@ + "BARCODE"@);
        lemma_normalized_pcb_name("BARCODE"@);
        assert(friendly_object_type_code("BARCODE"@) == Some(code));
    }
}

} // verus!
