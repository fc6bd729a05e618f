//! What each named wire value and each option text stands for: the tables
//! the decoders of API enumerations and the readers of option texts follow,
//! stated against the protocol's named constants and the option spellings.

use vstd::prelude::*;
use crate::proto;
use crate::cli::board_flip_from_text;
use crate::cli::inactive_layer_display_from_text;
use crate::cli::net_color_display_from_text;
use crate::cli::ratsnest_display_from_text;
use crate::client::decode::barcode_error_correction_from_code;
use crate::client::decode::barcode_kind_from_code;
use crate::client::decode::pad_type_from_code;
use crate::client::decode::zone_type_from_code;
use crate::client::mappers::board_flip_from_code;
use crate::client::mappers::hit_test_result_from_code;
use crate::client::mappers::horizontal_alignment_from_code;
use crate::client::mappers::inactive_layer_display_from_code;
use crate::client::mappers::layer_class_from_code;
use crate::client::mappers::lock_state_from_code;
use crate::client::mappers::net_class_type_from_code;
use crate::client::mappers::net_color_display_from_code;
use crate::client::mappers::padstack_presence_from_code;
use crate::client::mappers::ratsnest_display_from_code;
use crate::client::mappers::run_action_status_from_code;
use crate::client::mappers::stackup_layer_type_from_code;
use crate::client::mappers::vertical_alignment_from_code;
use crate::client::mappers::via_type_from_code;
use crate::model::board::BoardFlipMode;
use crate::model::board::BoardLayerClass;
use crate::model::board::BoardOriginKind;
use crate::model::board::BoardStackupLayerType;
use crate::model::board::DrcSeverity;
use crate::model::board::InactiveLayerDisplayMode;
use crate::model::board::ItemLockState;
use crate::model::board::NetClassType;
use crate::model::board::NetColorDisplayMode;
use crate::model::board::PadstackPresenceState;
use crate::model::board::PcbBarcodeErrorCorrection;
use crate::model::board::PcbBarcodeKind;
use crate::model::board::PcbPadType;
use crate::model::board::PcbViaType;
use crate::model::board::PcbZoneType;
use crate::model::board::RatsnestDisplayMode;
use crate::model::board::board_origin_kind_from_text;
use crate::model::board::drc_severity_from_text;
use crate::model::common::CommitAction;
use crate::model::common::DocumentType;
use crate::model::common::EditorFrameType;
use crate::model::common::ItemHitTestResult;
use crate::model::common::MapMergeMode;
use crate::model::common::RunActionStatus;
use crate::model::common::TextHorizontalAlignment;
use crate::model::common::TextVerticalAlignment;
use crate::model::common::commit_action_from_text;
use crate::model::common::document_type_from_code;
use crate::model::common::document_type_from_text;
use crate::model::common::editor_frame_type_from_text;
use crate::model::common::map_merge_mode_from_text;

use crate::client::mappers::board_flip_code;
use crate::client::mappers::board_origin_kind_code;
use crate::client::mappers::commit_action_code;
use crate::client::mappers::drc_severity_code;
use crate::client::mappers::horizontal_alignment_code;
use crate::client::mappers::inactive_layer_display_code;
use crate::client::mappers::lock_state_code;
use crate::client::mappers::map_merge_mode_code;
use crate::client::mappers::net_class_type_code;
use crate::client::mappers::net_color_display_code;
use crate::client::mappers::ratsnest_display_code;
use crate::client::mappers::stackup_layer_type_code;
use crate::client::mappers::vertical_alignment_code;
use crate::decimal::IntErrorKind;
use crate::decimal::int_error_text;
use crate::model::board::board_origin_kind_text;
use crate::model::board::drc_severity_text;
use crate::model::board::padstack_presence_text;
use crate::model::common::commit_action_text;
use crate::model::common::document_type_code;
use crate::model::common::document_type_text;
use crate::model::common::editor_frame_type_code;
use crate::model::common::editor_frame_type_text;
use crate::model::common::item_hit_test_result_text;
use crate::model::common::map_merge_mode_text;
verus! {

/// The inactive layer display each option text reads as: each spelling reads as
/// the mode it names, any other text is refused, and distinct texts read as
/// distinct modes.
pub proof fn lemma_inactive_layer_display_texts()
    ensures
        inactive_layer_display_from_text("normal"@) == Some(InactiveLayerDisplayMode::Normal),
        inactive_layer_display_from_text("dimmed"@) == Some(InactiveLayerDisplayMode::Dimmed),
        inactive_layer_display_from_text("hidden"@) == Some(InactiveLayerDisplayMode::Hidden),
        forall|t: Seq<char>| t != "normal"@ && t != "dimmed"@ && t != "hidden"@ ==> inactive_layer_display_from_text(t) is None,
        forall|a: Seq<char>, b: Seq<char>| inactive_layer_display_from_text(a) is Some && inactive_layer_display_from_text(a) == inactive_layer_display_from_text(b) ==> a == b,
{
    reveal_strlit("normal");
    assert("normal"@.len() == 6);
    reveal_strlit("dimmed");
    assert("dimmed"@.len() == 6);
    reveal_strlit("hidden");
    assert("hidden"@.len() == 6);
    assert("dimmed"@[0] != "normal"@[0]);
    assert("hidden"@[0] != "normal"@[0]);
    assert("hidden"@[0] != "dimmed"@[0]);
}

/// The net color display each option text reads as: each spelling reads as
/// the mode it names, any other text is refused, and distinct texts read as
/// distinct modes.
pub proof fn lemma_net_color_display_texts()
    ensures
        net_color_display_from_text("all"@) == Some(NetColorDisplayMode::All),
        net_color_display_from_text("ratsnest"@) == Some(NetColorDisplayMode::Ratsnest),
        net_color_display_from_text("off"@) == Some(NetColorDisplayMode::Off),
        forall|t: Seq<char>| t != "all"@ && t != "ratsnest"@ && t != "off"@ ==> net_color_display_from_text(t) is None,
        forall|a: Seq<char>, b: Seq<char>| net_color_display_from_text(a) is Some && net_color_display_from_text(a) == net_color_display_from_text(b) ==> a == b,
{
    reveal_strlit("all");
    assert("all"@.len() == 3);
    reveal_strlit("ratsnest");
    assert("ratsnest"@.len() == 8);
    reveal_strlit("off");
    assert("off"@.len() == 3);
    assert("off"@[0] != "all"@[0]);
}

/// The board flip each option text reads as: each spelling reads as
/// the mode it names, any other text is refused, and distinct texts read as
/// distinct modes.
pub proof fn lemma_board_flip_texts()
    ensures
        board_flip_from_text("normal"@) == Some(BoardFlipMode::Normal),
        board_flip_from_text("flipped-x"@) == Some(BoardFlipMode::FlippedX),
        forall|t: Seq<char>| t != "normal"@ && t != "flipped-x"@ ==> board_flip_from_text(t) is None,
        forall|a: Seq<char>, b: Seq<char>| board_flip_from_text(a) is Some && board_flip_from_text(a) == board_flip_from_text(b) ==> a == b,
{
    reveal_strlit("normal");
    assert("normal"@.len() == 6);
    reveal_strlit("flipped-x");
    assert("flipped-x"@.len() == 9);
}

/// The ratsnest display each option text reads as: each spelling reads as
/// the mode it names, any other text is refused, and distinct texts read as
/// distinct modes.
pub proof fn lemma_ratsnest_display_texts()
    ensures
        ratsnest_display_from_text("all-layers"@) == Some(RatsnestDisplayMode::AllLayers),
        ratsnest_display_from_text("visible-layers"@) == Some(RatsnestDisplayMode::VisibleLayers),
        forall|t: Seq<char>| t != "all-layers"@ && t != "visible-layers"@ ==> ratsnest_display_from_text(t) is None,
        forall|a: Seq<char>, b: Seq<char>| ratsnest_display_from_text(a) is Some && ratsnest_display_from_text(a) == ratsnest_display_from_text(b) ==> a == b,
{
    reveal_strlit("all-layers");
    assert("all-layers"@.len() == 10);
    reveal_strlit("visible-layers");
    assert("visible-layers"@.len() == 14);
}

/// The pad type each named wire value stands for: each named constant
/// reads as the variant of the same name, every other value as the
/// catch-all, and no two values read alike where the catch-all keeps the value.
pub proof fn lemma_pad_type_codes()
    ensures
        pad_type_from_code(proto::PT_PTH) == PcbPadType::Pth,
        pad_type_from_code(proto::PT_SMD) == PcbPadType::Smd,
        pad_type_from_code(proto::PT_EDGE_CONNECTOR) == PcbPadType::EdgeConnector,
        pad_type_from_code(proto::PT_NPTH) == PcbPadType::Npth,
        forall|v: i32| v != proto::PT_PTH && v != proto::PT_SMD && v != proto::PT_EDGE_CONNECTOR && v != proto::PT_NPTH ==> pad_type_from_code(v) == PcbPadType::Unknown(v),
        forall|a: i32, b: i32| pad_type_from_code(a) == pad_type_from_code(b) ==> a == b,
{
}

/// The zone type each named wire value stands for: each named constant
/// reads as the variant of the same name, every other value as the
/// catch-all, and no two values read alike where the catch-all keeps the value.
pub proof fn lemma_zone_type_codes()
    ensures
        zone_type_from_code(proto::ZT_COPPER) == PcbZoneType::Copper,
        zone_type_from_code(proto::ZT_GRAPHICAL) == PcbZoneType::Graphical,
        zone_type_from_code(proto::ZT_RULE_AREA) == PcbZoneType::RuleArea,
        zone_type_from_code(proto::ZT_TEARDROP) == PcbZoneType::Teardrop,
        forall|v: i32| v != proto::ZT_COPPER && v != proto::ZT_GRAPHICAL && v != proto::ZT_RULE_AREA && v != proto::ZT_TEARDROP ==> zone_type_from_code(v) == PcbZoneType::Unknown(v),
        forall|a: i32, b: i32| zone_type_from_code(a) == zone_type_from_code(b) ==> a == b,
{
}

/// The barcode kind each named wire value stands for: each named constant
/// reads as the variant of the same name, every other value as the
/// catch-all, and no two values read alike where the catch-all keeps the value.
pub proof fn lemma_barcode_kind_codes()
    ensures
        barcode_kind_from_code(proto::BK_UNKNOWN) == PcbBarcodeKind::Unknown,
        barcode_kind_from_code(proto::BK_CODE_39) == PcbBarcodeKind::Code39,
        barcode_kind_from_code(proto::BK_CODE_128) == PcbBarcodeKind::Code128,
        barcode_kind_from_code(proto::BK_DATA_MATRIX) == PcbBarcodeKind::DataMatrix,
        barcode_kind_from_code(proto::BK_QR_CODE) == PcbBarcodeKind::QrCode,
        barcode_kind_from_code(proto::BK_MICRO_QR_CODE) == PcbBarcodeKind::MicroQrCode,
        forall|v: i32| v != proto::BK_UNKNOWN && v != proto::BK_CODE_39 && v != proto::BK_CODE_128 && v != proto::BK_DATA_MATRIX && v != proto::BK_QR_CODE && v != proto::BK_MICRO_QR_CODE ==> barcode_kind_from_code(v) == PcbBarcodeKind::Unrecognized(v),
        forall|a: i32, b: i32| barcode_kind_from_code(a) == barcode_kind_from_code(b) ==> a == b,
{
}

/// The barcode error correction each named wire value stands for: each named constant
/// reads as the variant of the same name, every other value as the
/// catch-all, and no two values read alike where the catch-all keeps the value.
pub proof fn lemma_barcode_error_correction_codes()
    ensures
        barcode_error_correction_from_code(proto::BEC_UNKNOWN) == PcbBarcodeErrorCorrection::Unknown,
        barcode_error_correction_from_code(proto::BEC_L) == PcbBarcodeErrorCorrection::L,
        barcode_error_correction_from_code(proto::BEC_M) == PcbBarcodeErrorCorrection::M,
        barcode_error_correction_from_code(proto::BEC_Q) == PcbBarcodeErrorCorrection::Q,
        barcode_error_correction_from_code(proto::BEC_H) == PcbBarcodeErrorCorrection::H,
        forall|v: i32| v != proto::BEC_UNKNOWN && v != proto::BEC_L && v != proto::BEC_M && v != proto::BEC_Q && v != proto::BEC_H ==> barcode_error_correction_from_code(v) == PcbBarcodeErrorCorrection::Unrecognized(v),
        forall|a: i32, b: i32| barcode_error_correction_from_code(a) == barcode_error_correction_from_code(b) ==> a == b,
{
}

/// The horizontal alignment each named wire value stands for: each named constant
/// reads as the variant of the same name, every other value as the
/// catch-all, and no two values read alike where the catch-all keeps the value.
pub proof fn lemma_horizontal_alignment_codes()
    ensures
        horizontal_alignment_from_code(proto::HA_LEFT) == TextHorizontalAlignment::Left,
        horizontal_alignment_from_code(proto::HA_CENTER) == TextHorizontalAlignment::Center,
        horizontal_alignment_from_code(proto::HA_RIGHT) == TextHorizontalAlignment::Right,
        horizontal_alignment_from_code(proto::HA_INDETERMINATE) == TextHorizontalAlignment::Indeterminate,
        forall|v: i32| v != proto::HA_LEFT && v != proto::HA_CENTER && v != proto::HA_RIGHT && v != proto::HA_INDETERMINATE ==> horizontal_alignment_from_code(v) == TextHorizontalAlignment::Unknown,
{
}

/// The vertical alignment each named wire value stands for: each named constant
/// reads as the variant of the same name, every other value as the
/// catch-all, and no two values read alike where the catch-all keeps the value.
pub proof fn lemma_vertical_alignment_codes()
    ensures
        vertical_alignment_from_code(proto::VA_TOP) == TextVerticalAlignment::Top,
        vertical_alignment_from_code(proto::VA_CENTER) == TextVerticalAlignment::Center,
        vertical_alignment_from_code(proto::VA_BOTTOM) == TextVerticalAlignment::Bottom,
        vertical_alignment_from_code(proto::VA_INDETERMINATE) == TextVerticalAlignment::Indeterminate,
        forall|v: i32| v != proto::VA_TOP && v != proto::VA_CENTER && v != proto::VA_BOTTOM && v != proto::VA_INDETERMINATE ==> vertical_alignment_from_code(v) == TextVerticalAlignment::Unknown,
{
}

/// The lock state each named wire value stands for: each named constant
/// reads as the variant of the same name, every other value as the
/// catch-all, and no two values read alike where the catch-all keeps the value.
pub proof fn lemma_lock_state_codes()
    ensures
        lock_state_from_code(proto::LS_UNLOCKED) == ItemLockState::Unlocked,
        lock_state_from_code(proto::LS_LOCKED) == ItemLockState::Locked,
        forall|v: i32| v != proto::LS_UNLOCKED && v != proto::LS_LOCKED ==> lock_state_from_code(v) == ItemLockState::Unknown(v),
        forall|a: i32, b: i32| lock_state_from_code(a) == lock_state_from_code(b) ==> a == b,
{
}

/// The hit test result each named wire value stands for: each named constant
/// reads as the variant of the same name, every other value as the
/// catch-all, and no two values read alike where the catch-all keeps the value.
pub proof fn lemma_hit_test_result_codes()
    ensures
        hit_test_result_from_code(proto::HTR_HIT) == ItemHitTestResult::Hit,
        hit_test_result_from_code(proto::HTR_NO_HIT) == ItemHitTestResult::NoHit,
        forall|v: i32| v != proto::HTR_HIT && v != proto::HTR_NO_HIT ==> hit_test_result_from_code(v) == ItemHitTestResult::Unknown,
{
}

/// The run action status each named wire value stands for: each named constant
/// reads as the variant of the same name, every other value as the
/// catch-all, and no two values read alike where the catch-all keeps the value.
pub proof fn lemma_run_action_status_codes()
    ensures
        run_action_status_from_code(proto::RAS_OK) == RunActionStatus::Success,
        run_action_status_from_code(proto::RAS_INVALID) == RunActionStatus::Invalid,
        run_action_status_from_code(proto::RAS_FRAME_NOT_OPEN) == RunActionStatus::FrameNotOpen,
        forall|v: i32| v != proto::RAS_OK && v != proto::RAS_INVALID && v != proto::RAS_FRAME_NOT_OPEN ==> run_action_status_from_code(v) == RunActionStatus::Unknown(v),
        forall|a: i32, b: i32| run_action_status_from_code(a) == run_action_status_from_code(b) ==> a == b,
{
}

/// The padstack presence each named wire value stands for: each named constant
/// reads as the variant of the same name, every other value as the
/// catch-all, and no two values read alike where the catch-all keeps the value.
pub proof fn lemma_padstack_presence_codes()
    ensures
        padstack_presence_from_code(proto::PSP_PRESENT) == PadstackPresenceState::Present,
        padstack_presence_from_code(proto::PSP_NOT_PRESENT) == PadstackPresenceState::NotPresent,
        forall|v: i32| v != proto::PSP_PRESENT && v != proto::PSP_NOT_PRESENT ==> padstack_presence_from_code(v) == PadstackPresenceState::Unknown(v),
        forall|a: i32, b: i32| padstack_presence_from_code(a) == padstack_presence_from_code(b) ==> a == b,
{
}

/// The stackup layer type each named wire value stands for: each named constant
/// reads as the variant of the same name, every other value as the
/// catch-all, and no two values read alike where the catch-all keeps the value.
pub proof fn lemma_stackup_layer_type_codes()
    ensures
        stackup_layer_type_from_code(proto::BSLT_COPPER) == BoardStackupLayerType::Copper,
        stackup_layer_type_from_code(proto::BSLT_DIELECTRIC) == BoardStackupLayerType::Dielectric,
        stackup_layer_type_from_code(proto::BSLT_SILKSCREEN) == BoardStackupLayerType::Silkscreen,
        stackup_layer_type_from_code(proto::BSLT_SOLDERMASK) == BoardStackupLayerType::SolderMask,
        stackup_layer_type_from_code(proto::BSLT_SOLDERPASTE) == BoardStackupLayerType::SolderPaste,
        stackup_layer_type_from_code(proto::BSLT_UNDEFINED) == BoardStackupLayerType::Undefined,
        forall|v: i32| v != proto::BSLT_COPPER && v != proto::BSLT_DIELECTRIC && v != proto::BSLT_SILKSCREEN && v != proto::BSLT_SOLDERMASK && v != proto::BSLT_SOLDERPASTE && v != proto::BSLT_UNDEFINED ==> stackup_layer_type_from_code(v) == BoardStackupLayerType::Unknown(v),
        forall|a: i32, b: i32| stackup_layer_type_from_code(a) == stackup_layer_type_from_code(b) ==> a == b,
{
}

/// The layer class each named wire value stands for: each named constant
/// reads as the variant of the same name, every other value as the
/// catch-all, and no two values read alike where the catch-all keeps the value.
pub proof fn lemma_layer_class_codes()
    ensures
        layer_class_from_code(proto::BLC_SILKSCREEN) == BoardLayerClass::Silkscreen,
        layer_class_from_code(proto::BLC_COPPER) == BoardLayerClass::Copper,
        layer_class_from_code(proto::BLC_EDGES) == BoardLayerClass::Edges,
        layer_class_from_code(proto::BLC_COURTYARD) == BoardLayerClass::Courtyard,
        layer_class_from_code(proto::BLC_FABRICATION) == BoardLayerClass::Fabrication,
        layer_class_from_code(proto::BLC_OTHER) == BoardLayerClass::Other,
        forall|v: i32| v != proto::BLC_SILKSCREEN && v != proto::BLC_COPPER && v != proto::BLC_EDGES && v != proto::BLC_COURTYARD && v != proto::BLC_FABRICATION && v != proto::BLC_OTHER ==> layer_class_from_code(v) == BoardLayerClass::Unknown(v),
        forall|a: i32, b: i32| layer_class_from_code(a) == layer_class_from_code(b) ==> a == b,
{
}

/// The inactive layer display each named wire value stands for: each named constant
/// reads as the variant of the same name, every other value as the
/// catch-all, and no two values read alike where the catch-all keeps the value.
pub proof fn lemma_inactive_layer_display_codes()
    ensures
        inactive_layer_display_from_code(proto::ILDM_NORMAL) == InactiveLayerDisplayMode::Normal,
        inactive_layer_display_from_code(proto::ILDM_DIMMED) == InactiveLayerDisplayMode::Dimmed,
        inactive_layer_display_from_code(proto::ILDM_HIDDEN) == InactiveLayerDisplayMode::Hidden,
        forall|v: i32| v != proto::ILDM_NORMAL && v != proto::ILDM_DIMMED && v != proto::ILDM_HIDDEN ==> inactive_layer_display_from_code(v) == InactiveLayerDisplayMode::Unknown(v),
        forall|a: i32, b: i32| inactive_layer_display_from_code(a) == inactive_layer_display_from_code(b) ==> a == b,
{
}

/// The net color display each named wire value stands for: each named constant
/// reads as the variant of the same name, every other value as the
/// catch-all, and no two values read alike where the catch-all keeps the value.
pub proof fn lemma_net_color_display_codes()
    ensures
        net_color_display_from_code(proto::NCDM_ALL) == NetColorDisplayMode::All,
        net_color_display_from_code(proto::NCDM_RATSNEST) == NetColorDisplayMode::Ratsnest,
        net_color_display_from_code(proto::NCDM_OFF) == NetColorDisplayMode::Off,
        forall|v: i32| v != proto::NCDM_ALL && v != proto::NCDM_RATSNEST && v != proto::NCDM_OFF ==> net_color_display_from_code(v) == NetColorDisplayMode::Unknown(v),
        forall|a: i32, b: i32| net_color_display_from_code(a) == net_color_display_from_code(b) ==> a == b,
{
}

/// The board flip each named wire value stands for: each named constant
/// reads as the variant of the same name, every other value as the
/// catch-all, and no two values read alike where the catch-all keeps the value.
pub proof fn lemma_board_flip_codes()
    ensures
        board_flip_from_code(proto::BFM_NORMAL) == BoardFlipMode::Normal,
        board_flip_from_code(proto::BFM_FLIPPED_X) == BoardFlipMode::FlippedX,
        forall|v: i32| v != proto::BFM_NORMAL && v != proto::BFM_FLIPPED_X ==> board_flip_from_code(v) == BoardFlipMode::Unknown(v),
        forall|a: i32, b: i32| board_flip_from_code(a) == board_flip_from_code(b) ==> a == b,
{
}

/// The ratsnest display each named wire value stands for: each named constant
/// reads as the variant of the same name, every other value as the
/// catch-all, and no two values read alike where the catch-all keeps the value.
pub proof fn lemma_ratsnest_display_codes()
    ensures
        ratsnest_display_from_code(proto::RDM_ALL_LAYERS) == RatsnestDisplayMode::AllLayers,
        ratsnest_display_from_code(proto::RDM_VISIBLE_LAYERS) == RatsnestDisplayMode::VisibleLayers,
        forall|v: i32| v != proto::RDM_ALL_LAYERS && v != proto::RDM_VISIBLE_LAYERS ==> ratsnest_display_from_code(v) == RatsnestDisplayMode::Unknown(v),
        forall|a: i32, b: i32| ratsnest_display_from_code(a) == ratsnest_display_from_code(b) ==> a == b,
{
}

/// The net class type each named wire value stands for: each named constant
/// reads as the variant of the same name, every other value as the
/// catch-all, and no two values read alike where the catch-all keeps the value.
pub proof fn lemma_net_class_type_codes()
    ensures
        net_class_type_from_code(proto::NCT_EXPLICIT) == NetClassType::Explicit,
        net_class_type_from_code(proto::NCT_IMPLICIT) == NetClassType::Implicit,
        forall|v: i32| v != proto::NCT_EXPLICIT && v != proto::NCT_IMPLICIT ==> net_class_type_from_code(v) == NetClassType::Unknown(v),
        forall|a: i32, b: i32| net_class_type_from_code(a) == net_class_type_from_code(b) ==> a == b,
{
}

/// The via type each named wire value stands for: each named constant
/// reads as the variant of the same name, every other value as the
/// catch-all, and no two values read alike where the catch-all keeps the value.
pub proof fn lemma_via_type_codes()
    ensures
        via_type_from_code(proto::VT_THROUGH) == PcbViaType::Through,
        via_type_from_code(proto::VT_BLIND_BURIED) == PcbViaType::BlindBuried,
        via_type_from_code(proto::VT_MICRO) == PcbViaType::Micro,
        via_type_from_code(proto::VT_BLIND) == PcbViaType::Blind,
        via_type_from_code(proto::VT_BURIED) == PcbViaType::Buried,
        forall|v: i32| v != proto::VT_THROUGH && v != proto::VT_BLIND_BURIED && v != proto::VT_MICRO && v != proto::VT_BLIND && v != proto::VT_BURIED ==> via_type_from_code(v) == PcbViaType::Unknown(v),
        forall|a: i32, b: i32| via_type_from_code(a) == via_type_from_code(b) ==> a == b,
{
}

/// The board origin kind each option text reads as: each spelling reads as
/// the mode it names, any other text is refused, and distinct texts read as
/// distinct modes.
pub proof fn lemma_board_origin_kind_texts()
    ensures
        board_origin_kind_from_text("grid"@) == Some(BoardOriginKind::Grid),
        board_origin_kind_from_text("drill"@) == Some(BoardOriginKind::Drill),
        forall|t: Seq<char>| t != "grid"@ && t != "drill"@ ==> board_origin_kind_from_text(t) is None,
        forall|a: Seq<char>, b: Seq<char>| board_origin_kind_from_text(a) is Some && board_origin_kind_from_text(a) == board_origin_kind_from_text(b) ==> a == b,
{
    reveal_strlit("grid");
    assert("grid"@.len() == 4);
    reveal_strlit("drill");
    assert("drill"@.len() == 5);
}

/// The drc severity each option text reads as: each spelling reads as
/// the mode it names, any other text is refused, and distinct texts read as
/// distinct modes.
pub proof fn lemma_drc_severity_texts()
    ensures
        drc_severity_from_text("warning"@) == Some(DrcSeverity::Warning),
        drc_severity_from_text("error"@) == Some(DrcSeverity::Error),
        drc_severity_from_text("exclusion"@) == Some(DrcSeverity::Exclusion),
        drc_severity_from_text("ignore"@) == Some(DrcSeverity::Ignore),
        drc_severity_from_text("info"@) == Some(DrcSeverity::Info),
        drc_severity_from_text("action"@) == Some(DrcSeverity::Action),
        drc_severity_from_text("debug"@) == Some(DrcSeverity::Debug),
        drc_severity_from_text("undefined"@) == Some(DrcSeverity::Undefined),
        forall|t: Seq<char>| t != "warning"@ && t != "error"@ && t != "exclusion"@ && t != "ignore"@ && t != "info"@ && t != "action"@ && t != "debug"@ && t != "undefined"@ ==> drc_severity_from_text(t) is None,
        forall|a: Seq<char>, b: Seq<char>| drc_severity_from_text(a) is Some && drc_severity_from_text(a) == drc_severity_from_text(b) ==> a == b,
{
    reveal_strlit("warning");
    assert("warning"@.len() == 7);
    reveal_strlit("error");
    assert("error"@.len() == 5);
    reveal_strlit("exclusion");
    assert("exclusion"@.len() == 9);
    reveal_strlit("ignore");
    assert("ignore"@.len() == 6);
    reveal_strlit("info");
    assert("info"@.len() == 4);
    reveal_strlit("action");
    assert("action"@.len() == 6);
    reveal_strlit("debug");
    assert("debug"@.len() == 5);
    reveal_strlit("undefined");
    assert("undefined"@.len() == 9);
    assert("action"@[0] != "ignore"@[0]);
    assert("debug"@[0] != "error"@[0]);
    assert("undefined"@[0] != "exclusion"@[0]);
}

/// The editor frame type each option text reads as: each spelling reads as
/// the mode it names, any other text is refused, and distinct texts read as
/// distinct modes.
pub proof fn lemma_editor_frame_type_texts()
    ensures
        editor_frame_type_from_text("project-manager"@) == Some(EditorFrameType::ProjectManager),
        editor_frame_type_from_text("schematic"@) == Some(EditorFrameType::SchematicEditor),
        editor_frame_type_from_text("pcb"@) == Some(EditorFrameType::PcbEditor),
        editor_frame_type_from_text("spice"@) == Some(EditorFrameType::SpiceSimulator),
        editor_frame_type_from_text("symbol"@) == Some(EditorFrameType::SymbolEditor),
        editor_frame_type_from_text("footprint"@) == Some(EditorFrameType::FootprintEditor),
        editor_frame_type_from_text("drawing-sheet"@) == Some(EditorFrameType::DrawingSheetEditor),
        forall|t: Seq<char>| t != "project-manager"@ && t != "schematic"@ && t != "pcb"@ && t != "spice"@ && t != "symbol"@ && t != "footprint"@ && t != "drawing-sheet"@ ==> editor_frame_type_from_text(t) is None,
        forall|a: Seq<char>, b: Seq<char>| editor_frame_type_from_text(a) is Some && editor_frame_type_from_text(a) == editor_frame_type_from_text(b) ==> a == b,
{
    reveal_strlit("project-manager");
    assert("project-manager"@.len() == 15);
    reveal_strlit("schematic");
    assert("schematic"@.len() == 9);
    reveal_strlit("pcb");
    assert("pcb"@.len() == 3);
    reveal_strlit("spice");
    assert("spice"@.len() == 5);
    reveal_strlit("symbol");
    assert("symbol"@.len() == 6);
    reveal_strlit("footprint");
    assert("footprint"@.len() == 9);
    reveal_strlit("drawing-sheet");
    assert("drawing-sheet"@.len() == 13);
    assert("footprint"@[0] != "schematic"@[0]);
}

/// The document type each named wire value stands for: each named constant
/// reads as the variant of the same name, every other value as the
/// catch-all, and no two values read alike where the catch-all keeps the value.
pub proof fn lemma_document_type_codes()
    ensures
        document_type_from_code(proto::DOCTYPE_SCHEMATIC) == Some(DocumentType::Schematic),
        document_type_from_code(proto::DOCTYPE_SYMBOL) == Some(DocumentType::Symbol),
        document_type_from_code(proto::DOCTYPE_PCB) == Some(DocumentType::Pcb),
        document_type_from_code(proto::DOCTYPE_FOOTPRINT) == Some(DocumentType::Footprint),
        document_type_from_code(proto::DOCTYPE_DRAWING_SHEET) == Some(DocumentType::DrawingSheet),
        document_type_from_code(proto::DOCTYPE_PROJECT) == Some(DocumentType::Project),
        forall|v: i32| v != proto::DOCTYPE_SCHEMATIC && v != proto::DOCTYPE_SYMBOL && v != proto::DOCTYPE_PCB && v != proto::DOCTYPE_FOOTPRINT && v != proto::DOCTYPE_DRAWING_SHEET && v != proto::DOCTYPE_PROJECT ==> document_type_from_code(v) is None,
        forall|a: i32, b: i32| document_type_from_code(a) is Some && document_type_from_code(a) == document_type_from_code(b) ==> a == b,
{
}

/// The document type each option text reads as: each spelling reads as
/// the mode it names, any other text is refused, and distinct texts read as
/// distinct modes.
pub proof fn lemma_document_type_texts()
    ensures
        document_type_from_text("schematic"@) == Some(DocumentType::Schematic),
        document_type_from_text("symbol"@) == Some(DocumentType::Symbol),
        document_type_from_text("pcb"@) == Some(DocumentType::Pcb),
        document_type_from_text("footprint"@) == Some(DocumentType::Footprint),
        document_type_from_text("drawing-sheet"@) == Some(DocumentType::DrawingSheet),
        document_type_from_text("project"@) == Some(DocumentType::Project),
        forall|t: Seq<char>| t != "schematic"@ && t != "symbol"@ && t != "pcb"@ && t != "footprint"@ && t != "drawing-sheet"@ && t != "project"@ ==> document_type_from_text(t) is None,
        forall|a: Seq<char>, b: Seq<char>| document_type_from_text(a) is Some && document_type_from_text(a) == document_type_from_text(b) ==> a == b,
{
    reveal_strlit("schematic");
    assert("schematic"@.len() == 9);
    reveal_strlit("symbol");
    assert("symbol"@.len() == 6);
    reveal_strlit("pcb");
    assert("pcb"@.len() == 3);
    reveal_strlit("footprint");
    assert("footprint"@.len() == 9);
    reveal_strlit("drawing-sheet");
    assert("drawing-sheet"@.len() == 13);
    reveal_strlit("project");
    assert("project"@.len() == 7);
    assert("footprint"@[0] != "schematic"@[0]);
}

/// The map merge mode each option text reads as: each spelling reads as
/// the mode it names, any other text is refused, and distinct texts read as
/// distinct modes.
pub proof fn lemma_map_merge_mode_texts()
    ensures
        map_merge_mode_from_text("merge"@) == Some(MapMergeMode::Merge),
        map_merge_mode_from_text("replace"@) == Some(MapMergeMode::Replace),
        forall|t: Seq<char>| t != "merge"@ && t != "replace"@ ==> map_merge_mode_from_text(t) is None,
        forall|a: Seq<char>, b: Seq<char>| map_merge_mode_from_text(a) is Some && map_merge_mode_from_text(a) == map_merge_mode_from_text(b) ==> a == b,
{
    reveal_strlit("merge");
    assert("merge"@.len() == 5);
    reveal_strlit("replace");
    assert("replace"@.len() == 7);
}

/// The commit action each option text reads as: each spelling reads as
/// the mode it names, any other text is refused, and distinct texts read as
/// distinct modes.
pub proof fn lemma_commit_action_texts()
    ensures
        commit_action_from_text("commit"@) == Some(CommitAction::Commit),
        commit_action_from_text("drop"@) == Some(CommitAction::Drop),
        forall|t: Seq<char>| t != "commit"@ && t != "drop"@ ==> commit_action_from_text(t) is None,
        forall|a: Seq<char>, b: Seq<char>| commit_action_from_text(a) is Some && commit_action_from_text(a) == commit_action_from_text(b) ==> a == b,
{
    reveal_strlit("commit");
    assert("commit"@.len() == 6);
    reveal_strlit("drop");
    assert("drop"@.len() == 4);
}

/// The wire value each BoardOriginKind is written as: each variant as the named constant of the same
/// name, and no two variants alike.
pub proof fn lemma_board_origin_kind_code_table()
    ensures
        board_origin_kind_code(BoardOriginKind::Grid) == proto::BOT_GRID,
        board_origin_kind_code(BoardOriginKind::Drill) == proto::BOT_DRILL,
        forall|a: BoardOriginKind, b: BoardOriginKind| board_origin_kind_code(a) == board_origin_kind_code(b) ==> a == b,
{
}

/// The wire value each DrcSeverity is written as: each variant as the named constant of the same
/// name, and no two variants alike.
pub proof fn lemma_drc_severity_code_table()
    ensures
        drc_severity_code(DrcSeverity::Warning) == proto::DRS_WARNING,
        drc_severity_code(DrcSeverity::Error) == proto::DRS_ERROR,
        drc_severity_code(DrcSeverity::Exclusion) == proto::DRS_EXCLUSION,
        drc_severity_code(DrcSeverity::Ignore) == proto::DRS_IGNORE,
        drc_severity_code(DrcSeverity::Info) == proto::DRS_INFO,
        drc_severity_code(DrcSeverity::Action) == proto::DRS_ACTION,
        drc_severity_code(DrcSeverity::Debug) == proto::DRS_DEBUG,
        drc_severity_code(DrcSeverity::Undefined) == proto::DRS_UNDEFINED,
        forall|a: DrcSeverity, b: DrcSeverity| drc_severity_code(a) == drc_severity_code(b) ==> a == b,
{
}

/// The wire value each CommitAction is written as: each variant as the named constant of the same
/// name, and no two variants alike.
pub proof fn lemma_commit_action_code_table()
    ensures
        commit_action_code(CommitAction::Commit) == proto::CMA_COMMIT,
        commit_action_code(CommitAction::Drop) == proto::CMA_DROP,
        forall|a: CommitAction, b: CommitAction| commit_action_code(a) == commit_action_code(b) ==> a == b,
{
}

/// The wire value each MapMergeMode is written as: each variant as the named constant of the same
/// name, and no two variants alike.
pub proof fn lemma_map_merge_mode_code_table()
    ensures
        map_merge_mode_code(MapMergeMode::Merge) == proto::MMM_MERGE,
        map_merge_mode_code(MapMergeMode::Replace) == proto::MMM_REPLACE,
        forall|a: MapMergeMode, b: MapMergeMode| map_merge_mode_code(a) == map_merge_mode_code(b) ==> a == b,
{
}

/// The wire value each TextHorizontalAlignment is written as: each variant as the named constant of the same
/// name, and no two variants alike.
pub proof fn lemma_horizontal_alignment_code_table()
    ensures
        horizontal_alignment_code(TextHorizontalAlignment::Unknown) == proto::HA_UNKNOWN,
        horizontal_alignment_code(TextHorizontalAlignment::Left) == proto::HA_LEFT,
        horizontal_alignment_code(TextHorizontalAlignment::Center) == proto::HA_CENTER,
        horizontal_alignment_code(TextHorizontalAlignment::Right) == proto::HA_RIGHT,
        horizontal_alignment_code(TextHorizontalAlignment::Indeterminate) == proto::HA_INDETERMINATE,
        forall|a: TextHorizontalAlignment, b: TextHorizontalAlignment| horizontal_alignment_code(a) == horizontal_alignment_code(b) ==> a == b,
{
}

/// The wire value each TextVerticalAlignment is written as: each variant as the named constant of the same
/// name, and no two variants alike.
pub proof fn lemma_vertical_alignment_code_table()
    ensures
        vertical_alignment_code(TextVerticalAlignment::Unknown) == proto::VA_UNKNOWN,
        vertical_alignment_code(TextVerticalAlignment::Top) == proto::VA_TOP,
        vertical_alignment_code(TextVerticalAlignment::Center) == proto::VA_CENTER,
        vertical_alignment_code(TextVerticalAlignment::Bottom) == proto::VA_BOTTOM,
        vertical_alignment_code(TextVerticalAlignment::Indeterminate) == proto::VA_INDETERMINATE,
        forall|a: TextVerticalAlignment, b: TextVerticalAlignment| vertical_alignment_code(a) == vertical_alignment_code(b) ==> a == b,
{
}

/// The wire value each ItemLockState is written as: each variant as the named constant of the same
/// name.
pub proof fn lemma_lock_state_code_table()
    ensures
        lock_state_code(ItemLockState::Unlocked) == proto::LS_UNLOCKED,
        lock_state_code(ItemLockState::Locked) == proto::LS_LOCKED,
{
}

/// The wire value each BoardStackupLayerType is written as: each variant as the named constant of the same
/// name.
pub proof fn lemma_stackup_layer_type_code_table()
    ensures
        stackup_layer_type_code(BoardStackupLayerType::Copper) == proto::BSLT_COPPER,
        stackup_layer_type_code(BoardStackupLayerType::Dielectric) == proto::BSLT_DIELECTRIC,
        stackup_layer_type_code(BoardStackupLayerType::Silkscreen) == proto::BSLT_SILKSCREEN,
        stackup_layer_type_code(BoardStackupLayerType::SolderMask) == proto::BSLT_SOLDERMASK,
        stackup_layer_type_code(BoardStackupLayerType::SolderPaste) == proto::BSLT_SOLDERPASTE,
        stackup_layer_type_code(BoardStackupLayerType::Undefined) == proto::BSLT_UNDEFINED,
{
}

/// The wire value each InactiveLayerDisplayMode is written as: each variant as the named constant of the same
/// name.
pub proof fn lemma_inactive_layer_display_code_table()
    ensures
        inactive_layer_display_code(InactiveLayerDisplayMode::Normal) == proto::ILDM_NORMAL,
        inactive_layer_display_code(InactiveLayerDisplayMode::Dimmed) == proto::ILDM_DIMMED,
        inactive_layer_display_code(InactiveLayerDisplayMode::Hidden) == proto::ILDM_HIDDEN,
{
}

/// The wire value each NetColorDisplayMode is written as: each variant as the named constant of the same
/// name.
pub proof fn lemma_net_color_display_code_table()
    ensures
        net_color_display_code(NetColorDisplayMode::All) == proto::NCDM_ALL,
        net_color_display_code(NetColorDisplayMode::Ratsnest) == proto::NCDM_RATSNEST,
        net_color_display_code(NetColorDisplayMode::Off) == proto::NCDM_OFF,
{
}

/// The wire value each BoardFlipMode is written as: each variant as the named constant of the same
/// name.
pub proof fn lemma_board_flip_code_table()
    ensures
        board_flip_code(BoardFlipMode::Normal) == proto::BFM_NORMAL,
        board_flip_code(BoardFlipMode::FlippedX) == proto::BFM_FLIPPED_X,
{
}

/// The wire value each RatsnestDisplayMode is written as: each variant as the named constant of the same
/// name.
pub proof fn lemma_ratsnest_display_code_table()
    ensures
        ratsnest_display_code(RatsnestDisplayMode::AllLayers) == proto::RDM_ALL_LAYERS,
        ratsnest_display_code(RatsnestDisplayMode::VisibleLayers) == proto::RDM_VISIBLE_LAYERS,
{
}

/// The wire value each NetClassType is written as: each variant as the named constant of the same
/// name.
pub proof fn lemma_net_class_type_code_table()
    ensures
        net_class_type_code(NetClassType::Explicit) == proto::NCT_EXPLICIT,
        net_class_type_code(NetClassType::Implicit) == proto::NCT_IMPLICIT,
{
}

/// The text each IntErrorKind is written as: each variant as the spelling of the same
/// name.
pub proof fn lemma_int_error_text_table()
    ensures
        int_error_text(IntErrorKind::Empty) == "cannot parse integer from empty string"@,
        int_error_text(IntErrorKind::InvalidDigit) == "invalid digit found in string"@,
        int_error_text(IntErrorKind::PosOverflow) == "number too large to fit in target type"@,
        int_error_text(IntErrorKind::NegOverflow) == "number too small to fit in target type"@,
{
}

/// The text each BoardOriginKind is written as: each variant as the spelling of the same
/// name.
pub proof fn lemma_board_origin_kind_text_table()
    ensures
        board_origin_kind_text(BoardOriginKind::Grid) == "grid"@,
        board_origin_kind_text(BoardOriginKind::Drill) == "drill"@,
{
}

/// The text each PadstackPresenceState is written as: each variant as the spelling of the same
/// name.
pub proof fn lemma_padstack_presence_text_table()
    ensures
        padstack_presence_text(PadstackPresenceState::Present) == "PSP_PRESENT"@,
        padstack_presence_text(PadstackPresenceState::NotPresent) == "PSP_NOT_PRESENT"@,
{
}

/// The text each DrcSeverity is written as: each variant as the spelling of the same
/// name.
pub proof fn lemma_drc_severity_text_table()
    ensures
        drc_severity_text(DrcSeverity::Warning) == "warning"@,
        drc_severity_text(DrcSeverity::Error) == "error"@,
        drc_severity_text(DrcSeverity::Exclusion) == "exclusion"@,
        drc_severity_text(DrcSeverity::Ignore) == "ignore"@,
        drc_severity_text(DrcSeverity::Info) == "info"@,
        drc_severity_text(DrcSeverity::Action) == "action"@,
        drc_severity_text(DrcSeverity::Debug) == "debug"@,
        drc_severity_text(DrcSeverity::Undefined) == "undefined"@,
{
}

/// The wire value each EditorFrameType is written as: each variant as the named constant of the same
/// name, and no two variants alike.
pub proof fn lemma_editor_frame_type_code_table()
    ensures
        editor_frame_type_code(EditorFrameType::ProjectManager) == proto::FT_PROJECT_MANAGER,
        editor_frame_type_code(EditorFrameType::SchematicEditor) == proto::FT_SCHEMATIC_EDITOR,
        editor_frame_type_code(EditorFrameType::PcbEditor) == proto::FT_PCB_EDITOR,
        editor_frame_type_code(EditorFrameType::SpiceSimulator) == proto::FT_SPICE_SIMULATOR,
        editor_frame_type_code(EditorFrameType::SymbolEditor) == proto::FT_SYMBOL_EDITOR,
        editor_frame_type_code(EditorFrameType::FootprintEditor) == proto::FT_FOOTPRINT_EDITOR,
        editor_frame_type_code(EditorFrameType::DrawingSheetEditor) == proto::FT_DRAWING_SHEET_EDITOR,
        forall|a: EditorFrameType, b: EditorFrameType| editor_frame_type_code(a) == editor_frame_type_code(b) ==> a == b,
{
}

/// The text each EditorFrameType is written as: each variant as the spelling of the same
/// name.
pub proof fn lemma_editor_frame_type_text_table()
    ensures
        editor_frame_type_text(EditorFrameType::ProjectManager) == "project-manager"@,
        editor_frame_type_text(EditorFrameType::SchematicEditor) == "schematic"@,
        editor_frame_type_text(EditorFrameType::PcbEditor) == "pcb"@,
        editor_frame_type_text(EditorFrameType::SpiceSimulator) == "spice"@,
        editor_frame_type_text(EditorFrameType::SymbolEditor) == "symbol"@,
        editor_frame_type_text(EditorFrameType::FootprintEditor) == "footprint"@,
        editor_frame_type_text(EditorFrameType::DrawingSheetEditor) == "drawing-sheet"@,
{
}

/// The wire value each DocumentType is written as: each variant as the named constant of the same
/// name, and no two variants alike.
pub proof fn lemma_document_type_code_table()
    ensures
        document_type_code(DocumentType::Schematic) == proto::DOCTYPE_SCHEMATIC,
        document_type_code(DocumentType::Symbol) == proto::DOCTYPE_SYMBOL,
        document_type_code(DocumentType::Pcb) == proto::DOCTYPE_PCB,
        document_type_code(DocumentType::Footprint) == proto::DOCTYPE_FOOTPRINT,
        document_type_code(DocumentType::DrawingSheet) == proto::DOCTYPE_DRAWING_SHEET,
        document_type_code(DocumentType::Project) == proto::DOCTYPE_PROJECT,
        forall|a: DocumentType, b: DocumentType| document_type_code(a) == document_type_code(b) ==> a == b,
{
}

/// The text each DocumentType is written as: each variant as the spelling of the same
/// name.
pub proof fn lemma_document_type_text_table()
    ensures
        document_type_text(DocumentType::Schematic) == "schematic"@,
        document_type_text(DocumentType::Symbol) == "symbol"@,
        document_type_text(DocumentType::Pcb) == "pcb"@,
        document_type_text(DocumentType::Footprint) == "footprint"@,
        document_type_text(DocumentType::DrawingSheet) == "drawing-sheet"@,
        document_type_text(DocumentType::Project) == "project"@,
{
}

/// The text each MapMergeMode is written as: each variant as the spelling of the same
/// name.
pub proof fn lemma_map_merge_mode_text_table()
    ensures
        map_merge_mode_text(MapMergeMode::Merge) == "merge"@,
        map_merge_mode_text(MapMergeMode::Replace) == "replace"@,
{
}

/// The text each CommitAction is written as: each variant as the spelling of the same
/// name.
pub proof fn lemma_commit_action_text_table()
    ensures
        commit_action_text(CommitAction::Commit) == "commit"@,
        commit_action_text(CommitAction::Drop) == "drop"@,
{
}

/// The text each ItemHitTestResult is written as: each variant as the spelling of the same
/// name.
pub proof fn lemma_item_hit_test_result_text_table()
    ensures
        item_hit_test_result_text(ItemHitTestResult::Unknown) == "unknown"@,
        item_hit_test_result_text(ItemHitTestResult::NoHit) == "no-hit"@,
        item_hit_test_result_text(ItemHitTestResult::Hit) == "hit"@,
{
}

} // verus!
