//! How the library's conversions undo one another: enumeration values and
//! their wire values, settings and their messages, and the texts that
//! options are written as.

use vstd::prelude::*;
use crate::client::mappers::{
    appearance_from_proto, appearance_to_proto, board_flip_code, board_flip_from_code,
    horizontal_alignment_code, horizontal_alignment_from_code, inactive_layer_display_code,
    inactive_layer_display_from_code, lock_state_code, lock_state_from_code, net_class_type_code,
    net_class_type_from_code, net_color_display_code, net_color_display_from_code,
    ratsnest_display_code, ratsnest_display_from_code, stackup_layer_type_code,
    stackup_layer_type_from_code, vertical_alignment_code, vertical_alignment_from_code,
};
use crate::model::board::{
    board_origin_kind_from_text, board_origin_kind_text, drc_severity_from_text,
    drc_severity_text, BoardEditorAppearanceSettings, BoardFlipMode, BoardOriginKind,
    BoardStackupLayerType, DrcSeverity, InactiveLayerDisplayMode, ItemLockState, NetClassType,
    NetColorDisplayMode, RatsnestDisplayMode,
};
use crate::model::common::{
    commit_action_from_text, commit_action_text, document_type_code, document_type_from_code,
    document_type_from_text, document_type_text, editor_frame_type_from_text,
    editor_frame_type_text, map_merge_mode_from_text, map_merge_mode_text, CommitAction,
    DocumentType, EditorFrameType, MapMergeMode, TextHorizontalAlignment, TextVerticalAlignment,
};
use crate::client::decode::decoded_item;
use crate::client::text_mappers::{
    board_text_proto_of, text_attributes_model_of, text_attributes_proto_of, text_model_of,
    text_proto_of,
};
use crate::envelope::type_url_spec;
use crate::error::KiCadError;
use crate::model::board::{BoardTextSpec, PcbBoardText, PcbItem};
use crate::model::editable::lemma_editable_urls_distinct;
use crate::pcb_item_type_urls as urls;
use crate::model::common::{TextAttributesSpec, TextSpec};
use crate::proto;
use crate::text::opt_string_view;

verus! {

// ---------------------------------------------------------------------------
// Enumerations and their wire values.
// ---------------------------------------------------------------------------
/// A horizontal alignment reads back from its wire value, and a wire value
/// that names an alignment is written back as itself.
pub proof fn lemma_horizontal_alignment_round_trip(a: TextHorizontalAlignment, v: i32)
    ensures
        horizontal_alignment_from_code(horizontal_alignment_code(a)) == a,
        proto::HA_UNKNOWN <= v <= proto::HA_INDETERMINATE ==> horizontal_alignment_code(
            horizontal_alignment_from_code(v),
        ) == v,
{
}

/// A vertical alignment reads back from its wire value, and a wire value
/// that names an alignment is written back as itself.
pub proof fn lemma_vertical_alignment_round_trip(a: TextVerticalAlignment, v: i32)
    ensures
        vertical_alignment_from_code(vertical_alignment_code(a)) == a,
        proto::VA_UNKNOWN <= v <= proto::VA_INDETERMINATE ==> vertical_alignment_code(
            vertical_alignment_from_code(v),
        ) == v,
{
}

/// Every wire value of a lock state is written back as itself, and a lock
/// state reads back from its wire value unless it is `Unknown` of a value
/// that names a state.
pub proof fn lemma_lock_state_round_trip(s: ItemLockState, v: i32)
    ensures
        lock_state_code(lock_state_from_code(v)) == v,
        !(s matches ItemLockState::Unknown(u) && (u == proto::LS_UNLOCKED || u == proto::LS_LOCKED))
            ==> lock_state_from_code(lock_state_code(s)) == s,
{
}

/// Every wire value of a stackup layer type is written back as itself, and
/// a type reads back unless it is `Unknown` of a value that names a type.
pub proof fn lemma_stackup_layer_type_round_trip(t: BoardStackupLayerType, v: i32)
    ensures
        stackup_layer_type_code(stackup_layer_type_from_code(v)) == v,
        !(t matches BoardStackupLayerType::Unknown(u) && proto::BSLT_COPPER <= u
            <= proto::BSLT_UNDEFINED) ==> stackup_layer_type_from_code(stackup_layer_type_code(t))
            == t,
{
}

/// Every wire value of an inactive layer display mode is written back as
/// itself, and a mode reads back unless it is `Unknown` of a value that
/// names a mode.
pub proof fn lemma_inactive_layer_display_round_trip(m: InactiveLayerDisplayMode, v: i32)
    ensures
        inactive_layer_display_code(inactive_layer_display_from_code(v)) == v,
        !(m matches InactiveLayerDisplayMode::Unknown(u) && proto::ILDM_NORMAL <= u
            <= proto::ILDM_HIDDEN) ==> inactive_layer_display_from_code(
            inactive_layer_display_code(m),
        ) == m,
{
}

/// Every wire value of a net colour display mode is written back as itself,
/// and a mode reads back unless it is `Unknown` of a value that names a mode.
pub proof fn lemma_net_color_display_round_trip(m: NetColorDisplayMode, v: i32)
    ensures
        net_color_display_code(net_color_display_from_code(v)) == v,
        !(m matches NetColorDisplayMode::Unknown(u) && proto::NCDM_ALL <= u <= proto::NCDM_OFF)
            ==> net_color_display_from_code(net_color_display_code(m)) == m,
{
}

/// Every wire value of a board flip mode is written back as itself, and a
/// mode reads back unless it is `Unknown` of a value that names a mode.
pub proof fn lemma_board_flip_round_trip(m: BoardFlipMode, v: i32)
    ensures
        board_flip_code(board_flip_from_code(v)) == v,
        !(m matches BoardFlipMode::Unknown(u) && proto::BFM_NORMAL <= u <= proto::BFM_FLIPPED_X)
            ==> board_flip_from_code(board_flip_code(m)) == m,
{
}

/// Every wire value of a ratsnest display mode is written back as itself,
/// and a mode reads back unless it is `Unknown` of a value that names a mode.
pub proof fn lemma_ratsnest_display_round_trip(m: RatsnestDisplayMode, v: i32)
    ensures
        ratsnest_display_code(ratsnest_display_from_code(v)) == v,
        !(m matches RatsnestDisplayMode::Unknown(u) && proto::RDM_ALL_LAYERS <= u
            <= proto::RDM_VISIBLE_LAYERS) ==> ratsnest_display_from_code(ratsnest_display_code(m))
            == m,
{
}

/// Every wire value of a net class type is written back as itself, and a
/// type reads back unless it is `Unknown` of a value that names a type.
pub proof fn lemma_net_class_type_round_trip(t: NetClassType, v: i32)
    ensures
        net_class_type_code(net_class_type_from_code(v)) == v,
        !(t matches NetClassType::Unknown(u) && proto::NCT_EXPLICIT <= u <= proto::NCT_IMPLICIT)
            ==> net_class_type_from_code(net_class_type_code(t)) == t,
{
}

/// Editor appearance settings read back from their message, for settings
/// whose modes each read back; and every message is written back as itself.
pub proof fn lemma_appearance_round_trip(
    s: BoardEditorAppearanceSettings,
    p: proto::BoardEditorAppearanceSettings,
)
    requires
        !(s.inactive_layer_display matches InactiveLayerDisplayMode::Unknown(u)
            && proto::ILDM_NORMAL <= u <= proto::ILDM_HIDDEN),
        !(s.net_color_display matches NetColorDisplayMode::Unknown(u) && proto::NCDM_ALL <= u
            <= proto::NCDM_OFF),
        !(s.board_flip matches BoardFlipMode::Unknown(u) && proto::BFM_NORMAL <= u
            <= proto::BFM_FLIPPED_X),
        !(s.ratsnest_display matches RatsnestDisplayMode::Unknown(u) && proto::RDM_ALL_LAYERS <= u
            <= proto::RDM_VISIBLE_LAYERS),
    ensures
        appearance_from_proto(appearance_to_proto(s)) == s,
        appearance_to_proto(appearance_from_proto(p)) == p,
{
}

/// A document type reads back from its wire value, and a wire value that
/// names a type is written back as itself.
pub proof fn lemma_document_type_round_trip(t: DocumentType, v: i32)
    ensures
        document_type_from_code(document_type_code(t)) == Some(t),
        document_type_from_code(v) matches Some(u) ==> document_type_code(u) == v,
{
}

// ---------------------------------------------------------------------------
// Option texts.
// ---------------------------------------------------------------------------
/// An editor frame parses back from its text.
pub proof fn lemma_editor_frame_text_round_trip(f: EditorFrameType)
    ensures
        editor_frame_type_from_text(editor_frame_type_text(f)) == Some(f),
{
    reveal_strlit("project-manager");
    reveal_strlit("schematic");
    reveal_strlit("pcb");
    reveal_strlit("spice");
    reveal_strlit("symbol");
    reveal_strlit("footprint");
    reveal_strlit("drawing-sheet");
    assert("project-manager"@.len() != "schematic"@.len());
    assert("project-manager"@.len() != "pcb"@.len());
    assert("project-manager"@.len() != "spice"@.len());
    assert("project-manager"@.len() != "symbol"@.len());
    assert("project-manager"@.len() != "footprint"@.len());
    assert("project-manager"@.len() != "drawing-sheet"@.len());
    assert("schematic"@.len() != "pcb"@.len());
    assert("schematic"@.len() != "spice"@.len());
    assert("schematic"@.len() != "symbol"@.len());
    assert("schematic"@[0] != "footprint"@[0]);
    assert("schematic"@.len() != "drawing-sheet"@.len());
    assert("pcb"@.len() != "spice"@.len());
    assert("pcb"@.len() != "symbol"@.len());
    assert("pcb"@.len() != "footprint"@.len());
    assert("pcb"@.len() != "drawing-sheet"@.len());
    assert("spice"@.len() != "symbol"@.len());
    assert("spice"@.len() != "footprint"@.len());
    assert("spice"@.len() != "drawing-sheet"@.len());
    assert("symbol"@.len() != "footprint"@.len());
    assert("symbol"@.len() != "drawing-sheet"@.len());
    assert("footprint"@.len() != "drawing-sheet"@.len());
}

/// A document type parses back from its text.
pub proof fn lemma_document_type_text_round_trip(t: DocumentType)
    ensures
        document_type_from_text(document_type_text(t)) == Some(t),
{
    reveal_strlit("schematic");
    reveal_strlit("symbol");
    reveal_strlit("pcb");
    reveal_strlit("footprint");
    reveal_strlit("drawing-sheet");
    reveal_strlit("project");
    assert("schematic"@.len() != "symbol"@.len());
    assert("schematic"@.len() != "pcb"@.len());
    assert("schematic"@[0] != "footprint"@[0]);
    assert("schematic"@.len() != "drawing-sheet"@.len());
    assert("schematic"@.len() != "project"@.len());
    assert("symbol"@.len() != "pcb"@.len());
    assert("symbol"@.len() != "footprint"@.len());
    assert("symbol"@.len() != "drawing-sheet"@.len());
    assert("symbol"@.len() != "project"@.len());
    assert("pcb"@.len() != "footprint"@.len());
    assert("pcb"@.len() != "drawing-sheet"@.len());
    assert("pcb"@.len() != "project"@.len());
    assert("footprint"@.len() != "drawing-sheet"@.len());
    assert("footprint"@.len() != "project"@.len());
    assert("drawing-sheet"@.len() != "project"@.len());
}

/// A merge mode parses back from its text.
pub proof fn lemma_map_merge_mode_text_round_trip(m: MapMergeMode)
    ensures
        map_merge_mode_from_text(map_merge_mode_text(m)) == Some(m),
{
    reveal_strlit("merge");
    reveal_strlit("replace");
    assert("merge"@.len() != "replace"@.len());
}

/// A commit action parses back from its text.
pub proof fn lemma_commit_action_text_round_trip(a: CommitAction)
    ensures
        commit_action_from_text(commit_action_text(a)) == Some(a),
{
    reveal_strlit("commit");
    reveal_strlit("drop");
    assert("commit"@.len() != "drop"@.len());
}

/// A board origin kind parses back from its text.
pub proof fn lemma_board_origin_kind_text_round_trip(k: BoardOriginKind)
    ensures
        board_origin_kind_from_text(board_origin_kind_text(k)) == Some(k),
{
    reveal_strlit("grid");
    reveal_strlit("drill");
    assert("grid"@.len() != "drill"@.len());
}

/// A DRC severity parses back from its text.
pub proof fn lemma_drc_severity_text_round_trip(s: DrcSeverity)
    ensures
        drc_severity_from_text(drc_severity_text(s)) == Some(s),
{
    reveal_strlit("warning");
    reveal_strlit("error");
    reveal_strlit("exclusion");
    reveal_strlit("ignore");
    reveal_strlit("info");
    reveal_strlit("action");
    reveal_strlit("debug");
    reveal_strlit("undefined");
    assert("warning"@.len() != "error"@.len());
    assert("warning"@.len() != "exclusion"@.len());
    assert("warning"@.len() != "ignore"@.len());
    assert("warning"@.len() != "info"@.len());
    assert("warning"@.len() != "action"@.len());
    assert("warning"@.len() != "debug"@.len());
    assert("warning"@.len() != "undefined"@.len());
    assert("error"@.len() != "exclusion"@.len());
    assert("error"@.len() != "ignore"@.len());
    assert("error"@.len() != "info"@.len());
    assert("error"@.len() != "action"@.len());
    assert("error"@[0] != "debug"@[0]);
    assert("error"@.len() != "undefined"@.len());
    assert("exclusion"@.len() != "ignore"@.len());
    assert("exclusion"@.len() != "info"@.len());
    assert("exclusion"@.len() != "action"@.len());
    assert("exclusion"@.len() != "debug"@.len());
    assert("exclusion"@[0] != "undefined"@[0]);
    assert("ignore"@.len() != "info"@.len());
    assert("ignore"@[0] != "action"@[0]);
    assert("ignore"@.len() != "debug"@.len());
    assert("ignore"@.len() != "undefined"@.len());
    assert("info"@.len() != "action"@.len());
    assert("info"@.len() != "debug"@.len());
    assert("info"@.len() != "undefined"@.len());
    assert("action"@.len() != "debug"@.len());
    assert("action"@.len() != "undefined"@.len());
    assert("debug"@.len() != "undefined"@.len());
}

// ---------------------------------------------------------------------------
// Texts and their messages.
// ---------------------------------------------------------------------------
/// Whether text attributes are in the form the API keeps: a font, when one
/// is named, has a non-empty name, and the line spacing is given.
pub open spec fn text_attributes_kept(a: TextAttributesSpec) -> bool {
    &&& (a.font_name matches Some(f) ==> f@.len() > 0)
    &&& a.line_spacing is Some
}

/// Whether two sets of text attributes agree: the same font name and the
/// same values of every other field.
pub open spec fn same_text_attributes(a: TextAttributesSpec, b: TextAttributesSpec) -> bool {
    &&& opt_string_view(a.font_name) == opt_string_view(b.font_name)
    &&& a.horizontal_alignment == b.horizontal_alignment
    &&& a.vertical_alignment == b.vertical_alignment
    &&& a.angle_degrees == b.angle_degrees
    &&& a.line_spacing == b.line_spacing
    &&& a.stroke_width_nm == b.stroke_width_nm
    &&& a.italic == b.italic
    &&& a.bold == b.bold
    &&& a.underlined == b.underlined
    &&& a.mirrored == b.mirrored
    &&& a.multiline == b.multiline
    &&& a.keep_upright == b.keep_upright
    &&& a.size_nm == b.size_nm
}

/// Text attributes in the form the API keeps come back unchanged from their
/// API message. (An empty font name and an absent line spacing do not: the
/// API writes them as no font and `1.0`.)
pub proof fn lemma_text_attributes_round_trip(
    a: TextAttributesSpec,
    p: proto::TextAttributes,
    b: TextAttributesSpec,
)
    requires
        text_attributes_kept(a),
        text_attributes_proto_of(a, p),
        text_attributes_model_of(p, b),
    ensures
        same_text_attributes(a, b),
{
    lemma_horizontal_alignment_round_trip(a.horizontal_alignment, p.horizontal_alignment);
    lemma_vertical_alignment_round_trip(a.vertical_alignment, p.vertical_alignment);
}

/// Whether a text is in the form the API keeps: its hyperlink, when given,
/// is not empty, and its attributes, when given, are kept.
pub open spec fn text_kept(t: TextSpec) -> bool {
    &&& (t.hyperlink matches Some(h) ==> h@.len() > 0)
    &&& (t.attributes matches Some(a) ==> text_attributes_kept(a))
}

/// A text in the form the API keeps comes back unchanged from its API
/// message: its text, position, hyperlink and attributes.
pub proof fn lemma_text_round_trip(t: TextSpec, p: proto::Text, b: TextSpec)
    requires
        text_kept(t),
        text_proto_of(t, p),
        text_model_of(p, b),
    ensures
        b.text@ == t.text@,
        b.position_nm == t.position_nm,
        opt_string_view(b.hyperlink) == opt_string_view(t.hyperlink),
        b.attributes is Some <==> t.attributes is Some,
        t.attributes matches Some(a) ==> same_text_attributes(a, b.attributes->0),
{
    if let Some(a) = t.attributes {
        lemma_text_attributes_round_trip(a, p.attributes->0, b.attributes->0);
    }
}

/// A board text packed from a specification decodes back to the
/// specification's id, text, position, hyperlink, layer, knockout and lock
/// state. (An empty text or hyperlink decodes as none, and a lock state
/// `Unknown` of a value that names a state decodes as that state.)
pub proof fn lemma_board_text_write_read(
    spec: BoardTextSpec,
    payload: proto::Any,
    text: PcbBoardText,
)
    requires
        payload.type_url@ == type_url_spec(urls::BOARD_TEXT@),
        payload.value matches proto::AnyValue::BoardText(p) && board_text_proto_of(spec, p),
        decoded_item(payload, Ok::<PcbItem, KiCadError>(PcbItem::BoardText(text))),
        spec.text.text@.len() > 0,
        spec.text.hyperlink matches Some(h) ==> h@.len() > 0,
        !(spec.locked matches ItemLockState::Unknown(u) && (u == proto::LS_UNLOCKED || u
            == proto::LS_LOCKED)),
    ensures
        opt_string_view(text.id) == opt_string_view(spec.id),
        opt_string_view(text.text) == Some(spec.text.text@),
        text.position_nm == spec.text.position_nm,
        opt_string_view(text.hyperlink) == opt_string_view(spec.text.hyperlink),
        text.layer.id == spec.layer_id,
        text.knockout == spec.knockout,
        text.locked == spec.locked,
{
    lemma_editable_urls_distinct();
    lemma_lock_state_round_trip(spec.locked, 0);
}

} // verus!
