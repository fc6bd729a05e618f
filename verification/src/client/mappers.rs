//! Conversions between the KiCad API's messages and the library's models.

use vstd::prelude::*;
use crate::envelope::{type_url, type_url_spec};
use crate::error::KiCadError;
use crate::model::board::{
    ArcStartMidEndNm, BoardEditorAppearanceSettings, BoardEnabledLayers, BoardFlipMode,
    BoardLayerClass, BoardLayerInfo, BoardNet, BoardOriginKind, BoardStackupLayerType, ColorRgba,
    DrcSeverity, InactiveLayerDisplayMode, ItemLockState, NetClassType, NetColorDisplayMode,
    PadstackPresenceState, PcbViaType, PolyLineNm, PolyLineNodeGeometryNm, PolygonWithHolesNm,
    RatsnestDisplayMode, Vector2Nm,
};
use crate::model::common::{
    CommitAction, CommitSession, ItemBoundingBox, ItemHitTestResult, MapMergeMode,
    RunActionStatus, TextHorizontalAlignment, TextVerticalAlignment,
};
use crate::proto;
use crate::proto_enums::{
    board_layer_name, board_layer_name_spec, item_deletion_status_name,
    item_deletion_status_name_spec, item_request_status_name, item_request_status_name_spec,
    item_status_code_name, item_status_code_name_spec,
};
use crate::text::{decimal_between, int_decimal, owned, push_str, string_is_empty};

verus! {

// ---------------------------------------------------------------------------
// Points, distances, colours and nets.
// ---------------------------------------------------------------------------
/// A point of the API as a model point.
pub open spec fn vector_nm(v: proto::Vector2) -> Vector2Nm {
    Vector2Nm { x_nm: v.x_nm, y_nm: v.y_nm }
}

/// An optional point of the API as an optional model point.
pub open spec fn opt_vector_nm(v: Option<proto::Vector2>) -> Option<Vector2Nm> {
    match v {
        Some(p) => Some(vector_nm(p)),
        None => None,
    }
}

/// A model point as a point of the API.
pub open spec fn vector_proto(v: Vector2Nm) -> proto::Vector2 {
    proto::Vector2 { x_nm: v.x_nm, y_nm: v.y_nm }
}

/// An optional model point as an optional point of the API.
pub open spec fn opt_vector_proto(v: Option<Vector2Nm>) -> Option<proto::Vector2> {
    match v {
        Some(p) => Some(vector_proto(p)),
        None => None,
    }
}

/// Converts an API point to a model point.
pub fn map_vector2_nm(value: proto::Vector2) -> (r: Vector2Nm)
    ensures
        r == vector_nm(value),
{
    Vector2Nm { x_nm: value.x_nm, y_nm: value.y_nm }
}

/// Converts a model point to an API point.
pub fn vector2_nm_to_proto(value: Vector2Nm) -> (r: proto::Vector2)
    ensures
        r == vector_proto(value),
{
    proto::Vector2 { x_nm: value.x_nm, y_nm: value.y_nm }
}

/// Converts an optional API point to an optional model point.
pub fn map_opt_vector2_nm(value: Option<proto::Vector2>) -> (r: Option<Vector2Nm>)
    ensures
        r == opt_vector_nm(value),
{
    match value {
        Some(p) => Some(map_vector2_nm(p)),
        None => None,
    }
}

/// Converts an optional model point to an optional API point.
pub fn opt_vector2_nm_to_proto(value: Option<Vector2Nm>) -> (r: Option<proto::Vector2>)
    ensures
        r == opt_vector_proto(value),
{
    match value {
        Some(p) => Some(vector2_nm_to_proto(p)),
        None => None,
    }
}

/// The length in nanometres that an optional distance holds.
pub open spec fn opt_distance_nm(d: Option<proto::Distance>) -> Option<i64> {
    match d {
        Some(v) => Some(v.value_nm),
        None => None,
    }
}

/// An optional length in nanometres as an optional distance.
pub open spec fn opt_distance_proto(d: Option<i64>) -> Option<proto::Distance> {
    match d {
        Some(v) => Some(proto::Distance { value_nm: v }),
        None => None,
    }
}

/// Returns the length in nanometres that an optional distance holds.
pub fn map_optional_distance_nm(distance: Option<proto::Distance>) -> (r: Option<i64>)
    ensures
        r == opt_distance_nm(distance),
{
    match distance {
        Some(value) => Some(value.value_nm),
        None => None,
    }
}

/// Wraps an optional length in nanometres as an optional distance.
pub fn optional_distance_to_proto(value: Option<i64>) -> (r: Option<proto::Distance>)
    ensures
        r == opt_distance_proto(value),
{
    match value {
        Some(value_nm) => Some(proto::Distance { value_nm }),
        None => None,
    }
}

/// An API colour as a model colour.
pub open spec fn color_model(c: proto::Color) -> ColorRgba {
    ColorRgba { r: c.r, g: c.g, b: c.b, a: c.a }
}

/// An optional API colour as an optional model colour.
pub open spec fn opt_color_model(c: Option<proto::Color>) -> Option<ColorRgba> {
    match c {
        Some(v) => Some(color_model(v)),
        None => None,
    }
}

/// An optional model colour as an optional API colour.
pub open spec fn opt_color_proto(c: Option<ColorRgba>) -> Option<proto::Color> {
    match c {
        Some(v) => Some(proto::Color { r: v.r, g: v.g, b: v.b, a: v.a }),
        None => None,
    }
}

/// Converts an optional API colour to an optional model colour.
pub fn map_optional_color(color: Option<proto::Color>) -> (r: Option<ColorRgba>)
    ensures
        r == opt_color_model(color),
{
    match color {
        Some(value) => Some(ColorRgba { r: value.r, g: value.g, b: value.b, a: value.a }),
        None => None,
    }
}

/// Converts an optional model colour to an optional API colour.
pub fn optional_color_to_proto(color: Option<ColorRgba>) -> (r: Option<proto::Color>)
    ensures
        r == opt_color_proto(color),
{
    match color {
        Some(value) => Some(proto::Color { r: value.r, g: value.g, b: value.b, a: value.a }),
        None => None,
    }
}

/// Whether `model` is the model of the optional API net `net`: absent for
/// absent, otherwise its name, and its code or `0` when it has none.
pub open spec fn net_model_of(net: Option<proto::Net>, model: Option<BoardNet>) -> bool {
    match (net, model) {
        (None, None) => true,
        (Some(n), Some(m)) => m.name@ == n.name@ && m.code == match n.code {
            Some(c) => c.value,
            None => 0i32,
        },
        _ => false,
    }
}

/// Converts an optional API net to an optional model net.
pub fn map_optional_net(net: &Option<proto::Net>) -> (r: Option<BoardNet>)
    ensures
        net_model_of(*net, r),
{
    match net {
        Some(value) => Some(
            BoardNet {
                code: match value.code {
                    Some(code) => code.value,
                    None => 0,
                },
                name: value.name.clone(),
            },
        ),
        None => None,
    }
}

/// Whether `net` is the API net of the model net `model`.
pub open spec fn net_proto_of(model: BoardNet, net: proto::Net) -> bool {
    net.code == Some(proto::NetCode { value: model.code }) && net.name@ == model.name@
}

/// Converts a model net to an API net with its code and name.
pub fn board_net_to_proto(net: &BoardNet) -> (r: proto::Net)
    ensures
        net_proto_of(*net, r),
{
    proto::Net { code: Some(proto::NetCode { value: net.code }), name: net.name.clone() }
}

// ---------------------------------------------------------------------------
// Layers.
// ---------------------------------------------------------------------------
/// The name a layer id is shown with: its `BoardLayer` enum name, or
/// `UNKNOWN_LAYER(<id>)` for an id the enumeration does not define.
pub open spec fn layer_name_text(id: i32) -> Seq<char> {
    match board_layer_name_spec(id) {
        Some(name) => name,
        None => "UNKNOWN_LAYER("@ + int_decimal(id as int) + ")"@,
    }
}

/// Whether `info` describes the layer with id `id`.
pub open spec fn layer_model_of(id: i32, info: BoardLayerInfo) -> bool {
    info.id == id && info.name@ == layer_name_text(id)
}

/// Describes a layer id by its enum name.
pub fn layer_to_model(layer_id: i32) -> (r: BoardLayerInfo)
    ensures
        layer_model_of(layer_id, r),
{
    let name = match board_layer_name(layer_id) {
        Some(name) => owned(name),
        None => decimal_between("UNKNOWN_LAYER(", layer_id as i64, ")"),
    };
    BoardLayerInfo { id: layer_id, name }
}

/// Whether `infos` describes the layer ids `ids`, one for one.
pub open spec fn layers_model_of(ids: Seq<i32>, infos: Seq<BoardLayerInfo>) -> bool {
    infos.len() == ids.len() && forall|i: int|
        0 <= i < ids.len() ==> #[trigger] layer_model_of(ids[i], infos[i])
}

/// Describes each of a list of layer ids.
pub fn layers_to_model(ids: &Vec<i32>) -> (r: Vec<BoardLayerInfo>)
    ensures
        layers_model_of(ids@, r@),
{
    let mut r: Vec<BoardLayerInfo> = Vec::new();
    let n = ids.len();
    let mut i: usize = 0;
    while i < n
        invariant
            n == ids@.len(),
            i <= n,
            r@.len() == i,
            forall|j: int| 0 <= j < i ==> #[trigger] layer_model_of(ids@[j], r@[j]),
        decreases n - i,
    {
        r.push(layer_to_model(ids[i]));
        i = i + 1;
    }
    r
}

/// Converts the enabled-layers response to the model.
pub fn map_board_enabled_layers_response(payload: &proto::BoardEnabledLayersResponse) -> (r:
    BoardEnabledLayers)
    ensures
        r.copper_layer_count == payload.copper_layer_count,
        layers_model_of(payload.layers@, r.layers@),
{
    BoardEnabledLayers {
        copper_layer_count: payload.copper_layer_count,
        layers: layers_to_model(&payload.layers),
    }
}

// ---------------------------------------------------------------------------
// Enumerations: model values to wire values and back.
// ---------------------------------------------------------------------------
/// The `BoardOriginType` wire value of a board origin kind.
pub open spec fn board_origin_kind_code(kind: BoardOriginKind) -> i32 {
    match kind {
        BoardOriginKind::Grid => proto::BOT_GRID,
        BoardOriginKind::Drill => proto::BOT_DRILL,
    }
}

/// Converts a board origin kind to its wire value.
pub fn board_origin_kind_to_proto(kind: BoardOriginKind) -> (r: i32)
    ensures
        r == board_origin_kind_code(kind),
{
    match kind {
        BoardOriginKind::Grid => proto::BOT_GRID,
        BoardOriginKind::Drill => proto::BOT_DRILL,
    }
}

/// The `DrcSeverity` wire value of a DRC severity.
pub open spec fn drc_severity_code(value: DrcSeverity) -> i32 {
    match value {
        DrcSeverity::Warning => proto::DRS_WARNING,
        DrcSeverity::Error => proto::DRS_ERROR,
        DrcSeverity::Exclusion => proto::DRS_EXCLUSION,
        DrcSeverity::Ignore => proto::DRS_IGNORE,
        DrcSeverity::Info => proto::DRS_INFO,
        DrcSeverity::Action => proto::DRS_ACTION,
        DrcSeverity::Debug => proto::DRS_DEBUG,
        DrcSeverity::Undefined => proto::DRS_UNDEFINED,
    }
}

/// Converts a DRC severity to its wire value.
pub fn drc_severity_to_proto(value: DrcSeverity) -> (r: i32)
    ensures
        r == drc_severity_code(value),
{
    match value {
        DrcSeverity::Warning => proto::DRS_WARNING,
        DrcSeverity::Error => proto::DRS_ERROR,
        DrcSeverity::Exclusion => proto::DRS_EXCLUSION,
        DrcSeverity::Ignore => proto::DRS_IGNORE,
        DrcSeverity::Info => proto::DRS_INFO,
        DrcSeverity::Action => proto::DRS_ACTION,
        DrcSeverity::Debug => proto::DRS_DEBUG,
        DrcSeverity::Undefined => proto::DRS_UNDEFINED,
    }
}

/// The `CommitAction` wire value of a commit action.
pub open spec fn commit_action_code(action: CommitAction) -> i32 {
    match action {
        CommitAction::Commit => proto::CMA_COMMIT,
        CommitAction::Drop => proto::CMA_DROP,
    }
}

/// Converts a commit action to its wire value.
pub fn commit_action_to_proto(action: CommitAction) -> (r: i32)
    ensures
        r == commit_action_code(action),
{
    match action {
        CommitAction::Commit => proto::CMA_COMMIT,
        CommitAction::Drop => proto::CMA_DROP,
    }
}

/// The `MapMergeMode` wire value of a merge mode.
pub open spec fn map_merge_mode_code(value: MapMergeMode) -> i32 {
    match value {
        MapMergeMode::Merge => proto::MMM_MERGE,
        MapMergeMode::Replace => proto::MMM_REPLACE,
    }
}

/// Converts a merge mode to its wire value.
pub fn map_merge_mode_to_proto(value: MapMergeMode) -> (r: i32)
    ensures
        r == map_merge_mode_code(value),
{
    match value {
        MapMergeMode::Merge => proto::MMM_MERGE,
        MapMergeMode::Replace => proto::MMM_REPLACE,
    }
}

/// The `HorizontalAlignment` wire value of a horizontal alignment.
pub open spec fn horizontal_alignment_code(value: TextHorizontalAlignment) -> i32 {
    match value {
        TextHorizontalAlignment::Unknown => proto::HA_UNKNOWN,
        TextHorizontalAlignment::Left => proto::HA_LEFT,
        TextHorizontalAlignment::Center => proto::HA_CENTER,
        TextHorizontalAlignment::Right => proto::HA_RIGHT,
        TextHorizontalAlignment::Indeterminate => proto::HA_INDETERMINATE,
    }
}

/// Converts a horizontal alignment to its wire value.
pub fn text_horizontal_alignment_to_proto(value: TextHorizontalAlignment) -> (r: i32)
    ensures
        r == horizontal_alignment_code(value),
{
    match value {
        TextHorizontalAlignment::Unknown => proto::HA_UNKNOWN,
        TextHorizontalAlignment::Left => proto::HA_LEFT,
        TextHorizontalAlignment::Center => proto::HA_CENTER,
        TextHorizontalAlignment::Right => proto::HA_RIGHT,
        TextHorizontalAlignment::Indeterminate => proto::HA_INDETERMINATE,
    }
}

/// The horizontal alignment a wire value stands for; values the
/// enumeration does not define stand for `Unknown`.
pub open spec fn horizontal_alignment_from_code(value: i32) -> TextHorizontalAlignment {
    if value == proto::HA_LEFT {
        TextHorizontalAlignment::Left
    } else if value == proto::HA_CENTER {
        TextHorizontalAlignment::Center
    } else if value == proto::HA_RIGHT {
        TextHorizontalAlignment::Right
    } else if value == proto::HA_INDETERMINATE {
        TextHorizontalAlignment::Indeterminate
    } else {
        TextHorizontalAlignment::Unknown
    }
}

/// Converts a horizontal alignment wire value to the model.
pub fn map_text_horizontal_alignment_from_proto(value: i32) -> (r: TextHorizontalAlignment)
    ensures
        r == horizontal_alignment_from_code(value),
{
    if value == proto::HA_LEFT {
        TextHorizontalAlignment::Left
    } else if value == proto::HA_CENTER {
        TextHorizontalAlignment::Center
    } else if value == proto::HA_RIGHT {
        TextHorizontalAlignment::Right
    } else if value == proto::HA_INDETERMINATE {
        TextHorizontalAlignment::Indeterminate
    } else {
        TextHorizontalAlignment::Unknown
    }
}

/// The `VerticalAlignment` wire value of a vertical alignment.
pub open spec fn vertical_alignment_code(value: TextVerticalAlignment) -> i32 {
    match value {
        TextVerticalAlignment::Unknown => proto::VA_UNKNOWN,
        TextVerticalAlignment::Top => proto::VA_TOP,
        TextVerticalAlignment::Center => proto::VA_CENTER,
        TextVerticalAlignment::Bottom => proto::VA_BOTTOM,
        TextVerticalAlignment::Indeterminate => proto::VA_INDETERMINATE,
    }
}

/// Converts a vertical alignment to its wire value.
pub fn text_vertical_alignment_to_proto(value: TextVerticalAlignment) -> (r: i32)
    ensures
        r == vertical_alignment_code(value),
{
    match value {
        TextVerticalAlignment::Unknown => proto::VA_UNKNOWN,
        TextVerticalAlignment::Top => proto::VA_TOP,
        TextVerticalAlignment::Center => proto::VA_CENTER,
        TextVerticalAlignment::Bottom => proto::VA_BOTTOM,
        TextVerticalAlignment::Indeterminate => proto::VA_INDETERMINATE,
    }
}

/// The vertical alignment a wire value stands for; values the enumeration
/// does not define stand for `Unknown`.
pub open spec fn vertical_alignment_from_code(value: i32) -> TextVerticalAlignment {
    if value == proto::VA_TOP {
        TextVerticalAlignment::Top
    } else if value == proto::VA_CENTER {
        TextVerticalAlignment::Center
    } else if value == proto::VA_BOTTOM {
        TextVerticalAlignment::Bottom
    } else if value == proto::VA_INDETERMINATE {
        TextVerticalAlignment::Indeterminate
    } else {
        TextVerticalAlignment::Unknown
    }
}

/// Converts a vertical alignment wire value to the model.
pub fn map_text_vertical_alignment_from_proto(value: i32) -> (r: TextVerticalAlignment)
    ensures
        r == vertical_alignment_from_code(value),
{
    if value == proto::VA_TOP {
        TextVerticalAlignment::Top
    } else if value == proto::VA_CENTER {
        TextVerticalAlignment::Center
    } else if value == proto::VA_BOTTOM {
        TextVerticalAlignment::Bottom
    } else if value == proto::VA_INDETERMINATE {
        TextVerticalAlignment::Indeterminate
    } else {
        TextVerticalAlignment::Unknown
    }
}

/// The `LockedState` wire value of a lock state.
pub open spec fn lock_state_code(value: ItemLockState) -> i32 {
    match value {
        ItemLockState::Unlocked => proto::LS_UNLOCKED,
        ItemLockState::Locked => proto::LS_LOCKED,
        ItemLockState::Unknown(v) => v,
    }
}

/// Converts a lock state to its wire value.
pub fn item_lock_state_to_proto(value: ItemLockState) -> (r: i32)
    ensures
        r == lock_state_code(value),
{
    match value {
        ItemLockState::Unlocked => proto::LS_UNLOCKED,
        ItemLockState::Locked => proto::LS_LOCKED,
        ItemLockState::Unknown(value) => value,
    }
}

/// The lock state a wire value stands for.
pub open spec fn lock_state_from_code(value: i32) -> ItemLockState {
    if value == proto::LS_UNLOCKED {
        ItemLockState::Unlocked
    } else if value == proto::LS_LOCKED {
        ItemLockState::Locked
    } else {
        ItemLockState::Unknown(value)
    }
}

/// Converts a lock state wire value to the model.
pub fn map_lock_state(value: i32) -> (r: ItemLockState)
    ensures
        r == lock_state_from_code(value),
{
    if value == proto::LS_UNLOCKED {
        ItemLockState::Unlocked
    } else if value == proto::LS_LOCKED {
        ItemLockState::Locked
    } else {
        ItemLockState::Unknown(value)
    }
}

/// The hit-test result a wire value stands for.
pub open spec fn hit_test_result_from_code(value: i32) -> ItemHitTestResult {
    if value == proto::HTR_HIT {
        ItemHitTestResult::Hit
    } else if value == proto::HTR_NO_HIT {
        ItemHitTestResult::NoHit
    } else {
        ItemHitTestResult::Unknown
    }
}

/// Converts a hit-test wire value to the model.
pub fn map_hit_test_result(value: i32) -> (r: ItemHitTestResult)
    ensures
        r == hit_test_result_from_code(value),
{
    if value == proto::HTR_HIT {
        ItemHitTestResult::Hit
    } else if value == proto::HTR_NO_HIT {
        ItemHitTestResult::NoHit
    } else {
        ItemHitTestResult::Unknown
    }
}

/// The run-action status a wire value stands for; values the enumeration
/// does not define, and `RAS_UNKNOWN`, keep their value.
pub open spec fn run_action_status_from_code(value: i32) -> RunActionStatus {
    if value == proto::RAS_OK {
        RunActionStatus::Success
    } else if value == proto::RAS_INVALID {
        RunActionStatus::Invalid
    } else if value == proto::RAS_FRAME_NOT_OPEN {
        RunActionStatus::FrameNotOpen
    } else {
        RunActionStatus::Unknown(value)
    }
}

/// Converts a run-action status wire value to the model.
pub fn map_run_action_status(value: i32) -> (r: RunActionStatus)
    ensures
        r == run_action_status_from_code(value),
{
    if value == proto::RAS_OK {
        RunActionStatus::Success
    } else if value == proto::RAS_INVALID {
        RunActionStatus::Invalid
    } else if value == proto::RAS_FRAME_NOT_OPEN {
        RunActionStatus::FrameNotOpen
    } else {
        RunActionStatus::Unknown(value)
    }
}

/// The padstack presence a wire value stands for.
pub open spec fn padstack_presence_from_code(value: i32) -> PadstackPresenceState {
    if value == proto::PSP_PRESENT {
        PadstackPresenceState::Present
    } else if value == proto::PSP_NOT_PRESENT {
        PadstackPresenceState::NotPresent
    } else {
        PadstackPresenceState::Unknown(value)
    }
}

/// Converts a padstack presence wire value to the model.
pub fn map_padstack_presence(value: i32) -> (r: PadstackPresenceState)
    ensures
        r == padstack_presence_from_code(value),
{
    if value == proto::PSP_PRESENT {
        PadstackPresenceState::Present
    } else if value == proto::PSP_NOT_PRESENT {
        PadstackPresenceState::NotPresent
    } else {
        PadstackPresenceState::Unknown(value)
    }
}

/// The stackup layer type a wire value stands for.
pub open spec fn stackup_layer_type_from_code(value: i32) -> BoardStackupLayerType {
    if value == proto::BSLT_COPPER {
        BoardStackupLayerType::Copper
    } else if value == proto::BSLT_DIELECTRIC {
        BoardStackupLayerType::Dielectric
    } else if value == proto::BSLT_SILKSCREEN {
        BoardStackupLayerType::Silkscreen
    } else if value == proto::BSLT_SOLDERMASK {
        BoardStackupLayerType::SolderMask
    } else if value == proto::BSLT_SOLDERPASTE {
        BoardStackupLayerType::SolderPaste
    } else if value == proto::BSLT_UNDEFINED {
        BoardStackupLayerType::Undefined
    } else {
        BoardStackupLayerType::Unknown(value)
    }
}

/// Converts a stackup layer type wire value to the model.
pub fn map_board_stackup_layer_type(value: i32) -> (r: BoardStackupLayerType)
    ensures
        r == stackup_layer_type_from_code(value),
{
    if value == proto::BSLT_COPPER {
        BoardStackupLayerType::Copper
    } else if value == proto::BSLT_DIELECTRIC {
        BoardStackupLayerType::Dielectric
    } else if value == proto::BSLT_SILKSCREEN {
        BoardStackupLayerType::Silkscreen
    } else if value == proto::BSLT_SOLDERMASK {
        BoardStackupLayerType::SolderMask
    } else if value == proto::BSLT_SOLDERPASTE {
        BoardStackupLayerType::SolderPaste
    } else if value == proto::BSLT_UNDEFINED {
        BoardStackupLayerType::Undefined
    } else {
        BoardStackupLayerType::Unknown(value)
    }
}

/// The wire value of a stackup layer type.
pub open spec fn stackup_layer_type_code(value: BoardStackupLayerType) -> i32 {
    match value {
        BoardStackupLayerType::Copper => proto::BSLT_COPPER,
        BoardStackupLayerType::Dielectric => proto::BSLT_DIELECTRIC,
        BoardStackupLayerType::Silkscreen => proto::BSLT_SILKSCREEN,
        BoardStackupLayerType::SolderMask => proto::BSLT_SOLDERMASK,
        BoardStackupLayerType::SolderPaste => proto::BSLT_SOLDERPASTE,
        BoardStackupLayerType::Undefined => proto::BSLT_UNDEFINED,
        BoardStackupLayerType::Unknown(v) => v,
    }
}

/// Converts a stackup layer type to its wire value.
pub fn board_stackup_layer_type_to_proto(value: BoardStackupLayerType) -> (r: i32)
    ensures
        r == stackup_layer_type_code(value),
{
    match value {
        BoardStackupLayerType::Copper => proto::BSLT_COPPER,
        BoardStackupLayerType::Dielectric => proto::BSLT_DIELECTRIC,
        BoardStackupLayerType::Silkscreen => proto::BSLT_SILKSCREEN,
        BoardStackupLayerType::SolderMask => proto::BSLT_SOLDERMASK,
        BoardStackupLayerType::SolderPaste => proto::BSLT_SOLDERPASTE,
        BoardStackupLayerType::Undefined => proto::BSLT_UNDEFINED,
        BoardStackupLayerType::Unknown(value) => value,
    }
}

/// The layer class a wire value stands for.
pub open spec fn layer_class_from_code(value: i32) -> BoardLayerClass {
    if value == proto::BLC_SILKSCREEN {
        BoardLayerClass::Silkscreen
    } else if value == proto::BLC_COPPER {
        BoardLayerClass::Copper
    } else if value == proto::BLC_EDGES {
        BoardLayerClass::Edges
    } else if value == proto::BLC_COURTYARD {
        BoardLayerClass::Courtyard
    } else if value == proto::BLC_FABRICATION {
        BoardLayerClass::Fabrication
    } else if value == proto::BLC_OTHER {
        BoardLayerClass::Other
    } else {
        BoardLayerClass::Unknown(value)
    }
}

/// Converts a layer class wire value to the model.
pub fn map_board_layer_class(value: i32) -> (r: BoardLayerClass)
    ensures
        r == layer_class_from_code(value),
{
    if value == proto::BLC_SILKSCREEN {
        BoardLayerClass::Silkscreen
    } else if value == proto::BLC_COPPER {
        BoardLayerClass::Copper
    } else if value == proto::BLC_EDGES {
        BoardLayerClass::Edges
    } else if value == proto::BLC_COURTYARD {
        BoardLayerClass::Courtyard
    } else if value == proto::BLC_FABRICATION {
        BoardLayerClass::Fabrication
    } else if value == proto::BLC_OTHER {
        BoardLayerClass::Other
    } else {
        BoardLayerClass::Unknown(value)
    }
}

/// The inactive-layer display mode a wire value stands for.
pub open spec fn inactive_layer_display_from_code(value: i32) -> InactiveLayerDisplayMode {
    if value == proto::ILDM_NORMAL {
        InactiveLayerDisplayMode::Normal
    } else if value == proto::ILDM_DIMMED {
        InactiveLayerDisplayMode::Dimmed
    } else if value == proto::ILDM_HIDDEN {
        InactiveLayerDisplayMode::Hidden
    } else {
        InactiveLayerDisplayMode::Unknown(value)
    }
}

/// Converts an inactive-layer display wire value to the model.
pub fn map_inactive_layer_display_mode(value: i32) -> (r: InactiveLayerDisplayMode)
    ensures
        r == inactive_layer_display_from_code(value),
{
    if value == proto::ILDM_NORMAL {
        InactiveLayerDisplayMode::Normal
    } else if value == proto::ILDM_DIMMED {
        InactiveLayerDisplayMode::Dimmed
    } else if value == proto::ILDM_HIDDEN {
        InactiveLayerDisplayMode::Hidden
    } else {
        InactiveLayerDisplayMode::Unknown(value)
    }
}

/// The wire value of an inactive-layer display mode.
pub open spec fn inactive_layer_display_code(value: InactiveLayerDisplayMode) -> i32 {
    match value {
        InactiveLayerDisplayMode::Normal => proto::ILDM_NORMAL,
        InactiveLayerDisplayMode::Dimmed => proto::ILDM_DIMMED,
        InactiveLayerDisplayMode::Hidden => proto::ILDM_HIDDEN,
        InactiveLayerDisplayMode::Unknown(v) => v,
    }
}

/// Converts an inactive-layer display mode to its wire value.
pub fn inactive_layer_display_mode_to_proto(value: InactiveLayerDisplayMode) -> (r: i32)
    ensures
        r == inactive_layer_display_code(value),
{
    match value {
        InactiveLayerDisplayMode::Normal => proto::ILDM_NORMAL,
        InactiveLayerDisplayMode::Dimmed => proto::ILDM_DIMMED,
        InactiveLayerDisplayMode::Hidden => proto::ILDM_HIDDEN,
        InactiveLayerDisplayMode::Unknown(value) => value,
    }
}

/// The net colour display mode a wire value stands for.
pub open spec fn net_color_display_from_code(value: i32) -> NetColorDisplayMode {
    if value == proto::NCDM_ALL {
        NetColorDisplayMode::All
    } else if value == proto::NCDM_RATSNEST {
        NetColorDisplayMode::Ratsnest
    } else if value == proto::NCDM_OFF {
        NetColorDisplayMode::Off
    } else {
        NetColorDisplayMode::Unknown(value)
    }
}

/// Converts a net colour display wire value to the model.
pub fn map_net_color_display_mode(value: i32) -> (r: NetColorDisplayMode)
    ensures
        r == net_color_display_from_code(value),
{
    if value == proto::NCDM_ALL {
        NetColorDisplayMode::All
    } else if value == proto::NCDM_RATSNEST {
        NetColorDisplayMode::Ratsnest
    } else if value == proto::NCDM_OFF {
        NetColorDisplayMode::Off
    } else {
        NetColorDisplayMode::Unknown(value)
    }
}

/// The wire value of a net colour display mode.
pub open spec fn net_color_display_code(value: NetColorDisplayMode) -> i32 {
    match value {
        NetColorDisplayMode::All => proto::NCDM_ALL,
        NetColorDisplayMode::Ratsnest => proto::NCDM_RATSNEST,
        NetColorDisplayMode::Off => proto::NCDM_OFF,
        NetColorDisplayMode::Unknown(v) => v,
    }
}

/// Converts a net colour display mode to its wire value.
pub fn net_color_display_mode_to_proto(value: NetColorDisplayMode) -> (r: i32)
    ensures
        r == net_color_display_code(value),
{
    match value {
        NetColorDisplayMode::All => proto::NCDM_ALL,
        NetColorDisplayMode::Ratsnest => proto::NCDM_RATSNEST,
        NetColorDisplayMode::Off => proto::NCDM_OFF,
        NetColorDisplayMode::Unknown(value) => value,
    }
}

/// The board flip mode a wire value stands for.
pub open spec fn board_flip_from_code(value: i32) -> BoardFlipMode {
    if value == proto::BFM_NORMAL {
        BoardFlipMode::Normal
    } else if value == proto::BFM_FLIPPED_X {
        BoardFlipMode::FlippedX
    } else {
        BoardFlipMode::Unknown(value)
    }
}

/// Converts a board flip wire value to the model.
pub fn map_board_flip_mode(value: i32) -> (r: BoardFlipMode)
    ensures
        r == board_flip_from_code(value),
{
    if value == proto::BFM_NORMAL {
        BoardFlipMode::Normal
    } else if value == proto::BFM_FLIPPED_X {
        BoardFlipMode::FlippedX
    } else {
        BoardFlipMode::Unknown(value)
    }
}

/// The wire value of a board flip mode.
pub open spec fn board_flip_code(value: BoardFlipMode) -> i32 {
    match value {
        BoardFlipMode::Normal => proto::BFM_NORMAL,
        BoardFlipMode::FlippedX => proto::BFM_FLIPPED_X,
        BoardFlipMode::Unknown(v) => v,
    }
}

/// Converts a board flip mode to its wire value.
pub fn board_flip_mode_to_proto(value: BoardFlipMode) -> (r: i32)
    ensures
        r == board_flip_code(value),
{
    match value {
        BoardFlipMode::Normal => proto::BFM_NORMAL,
        BoardFlipMode::FlippedX => proto::BFM_FLIPPED_X,
        BoardFlipMode::Unknown(value) => value,
    }
}

/// The ratsnest display mode a wire value stands for.
pub open spec fn ratsnest_display_from_code(value: i32) -> RatsnestDisplayMode {
    if value == proto::RDM_ALL_LAYERS {
        RatsnestDisplayMode::AllLayers
    } else if value == proto::RDM_VISIBLE_LAYERS {
        RatsnestDisplayMode::VisibleLayers
    } else {
        RatsnestDisplayMode::Unknown(value)
    }
}

/// Converts a ratsnest display wire value to the model.
pub fn map_ratsnest_display_mode(value: i32) -> (r: RatsnestDisplayMode)
    ensures
        r == ratsnest_display_from_code(value),
{
    if value == proto::RDM_ALL_LAYERS {
        RatsnestDisplayMode::AllLayers
    } else if value == proto::RDM_VISIBLE_LAYERS {
        RatsnestDisplayMode::VisibleLayers
    } else {
        RatsnestDisplayMode::Unknown(value)
    }
}

/// The wire value of a ratsnest display mode.
pub open spec fn ratsnest_display_code(value: RatsnestDisplayMode) -> i32 {
    match value {
        RatsnestDisplayMode::AllLayers => proto::RDM_ALL_LAYERS,
        RatsnestDisplayMode::VisibleLayers => proto::RDM_VISIBLE_LAYERS,
        RatsnestDisplayMode::Unknown(v) => v,
    }
}

/// Converts a ratsnest display mode to its wire value.
pub fn ratsnest_display_mode_to_proto(value: RatsnestDisplayMode) -> (r: i32)
    ensures
        r == ratsnest_display_code(value),
{
    match value {
        RatsnestDisplayMode::AllLayers => proto::RDM_ALL_LAYERS,
        RatsnestDisplayMode::VisibleLayers => proto::RDM_VISIBLE_LAYERS,
        RatsnestDisplayMode::Unknown(value) => value,
    }
}

/// The editor appearance settings that the API's settings stand for.
pub open spec fn appearance_from_proto(s: proto::BoardEditorAppearanceSettings) -> BoardEditorAppearanceSettings {
    BoardEditorAppearanceSettings {
        inactive_layer_display: inactive_layer_display_from_code(s.inactive_layer_display),
        net_color_display: net_color_display_from_code(s.net_color_display),
        board_flip: board_flip_from_code(s.board_flip),
        ratsnest_display: ratsnest_display_from_code(s.ratsnest_display),
    }
}

/// The API's form of editor appearance settings.
pub open spec fn appearance_to_proto(s: BoardEditorAppearanceSettings) -> proto::BoardEditorAppearanceSettings {
    proto::BoardEditorAppearanceSettings {
        inactive_layer_display: inactive_layer_display_code(s.inactive_layer_display),
        net_color_display: net_color_display_code(s.net_color_display),
        board_flip: board_flip_code(s.board_flip),
        ratsnest_display: ratsnest_display_code(s.ratsnest_display),
    }
}

/// Converts the API's editor appearance settings to the model.
pub fn map_board_editor_appearance_settings(settings: proto::BoardEditorAppearanceSettings) -> (r:
    BoardEditorAppearanceSettings)
    ensures
        r == appearance_from_proto(settings),
{
    BoardEditorAppearanceSettings {
        inactive_layer_display: map_inactive_layer_display_mode(settings.inactive_layer_display),
        net_color_display: map_net_color_display_mode(settings.net_color_display),
        board_flip: map_board_flip_mode(settings.board_flip),
        ratsnest_display: map_ratsnest_display_mode(settings.ratsnest_display),
    }
}

/// Converts editor appearance settings to the API's form.
pub fn board_editor_appearance_settings_to_proto(settings: BoardEditorAppearanceSettings) -> (r:
    proto::BoardEditorAppearanceSettings)
    ensures
        r == appearance_to_proto(settings),
{
    proto::BoardEditorAppearanceSettings {
        inactive_layer_display: inactive_layer_display_mode_to_proto(
            settings.inactive_layer_display,
        ),
        net_color_display: net_color_display_mode_to_proto(settings.net_color_display),
        board_flip: board_flip_mode_to_proto(settings.board_flip),
        ratsnest_display: ratsnest_display_mode_to_proto(settings.ratsnest_display),
    }
}

/// The wire value of a net class type.
pub open spec fn net_class_type_code(value: NetClassType) -> i32 {
    match value {
        NetClassType::Explicit => proto::NCT_EXPLICIT,
        NetClassType::Implicit => proto::NCT_IMPLICIT,
        NetClassType::Unknown(raw) => raw,
    }
}

/// Converts a net class type to its wire value.
pub fn net_class_type_to_proto(value: NetClassType) -> (r: i32)
    ensures
        r == net_class_type_code(value),
{
    match value {
        NetClassType::Explicit => proto::NCT_EXPLICIT,
        NetClassType::Implicit => proto::NCT_IMPLICIT,
        NetClassType::Unknown(raw) => raw,
    }
}

/// The net class type a wire value stands for.
pub open spec fn net_class_type_from_code(value: i32) -> NetClassType {
    if value == proto::NCT_EXPLICIT {
        NetClassType::Explicit
    } else if value == proto::NCT_IMPLICIT {
        NetClassType::Implicit
    } else {
        NetClassType::Unknown(value)
    }
}

/// Converts a net class type wire value to the model.
pub fn map_net_class_type(value: i32) -> (r: NetClassType)
    ensures
        r == net_class_type_from_code(value),
{
    if value == proto::NCT_EXPLICIT {
        NetClassType::Explicit
    } else if value == proto::NCT_IMPLICIT {
        NetClassType::Implicit
    } else {
        NetClassType::Unknown(value)
    }
}

/// The via type a wire value stands for.
pub open spec fn via_type_from_code(value: i32) -> PcbViaType {
    if value == proto::VT_THROUGH {
        PcbViaType::Through
    } else if value == proto::VT_BLIND_BURIED {
        PcbViaType::BlindBuried
    } else if value == proto::VT_MICRO {
        PcbViaType::Micro
    } else if value == proto::VT_BLIND {
        PcbViaType::Blind
    } else if value == proto::VT_BURIED {
        PcbViaType::Buried
    } else {
        PcbViaType::Unknown(value)
    }
}

/// Converts a via type wire value to the model.
pub fn map_via_type(value: i32) -> (r: PcbViaType)
    ensures
        r == via_type_from_code(value),
{
    if value == proto::VT_THROUGH {
        PcbViaType::Through
    } else if value == proto::VT_BLIND_BURIED {
        PcbViaType::BlindBuried
    } else if value == proto::VT_MICRO {
        PcbViaType::Micro
    } else if value == proto::VT_BLIND {
        PcbViaType::Blind
    } else if value == proto::VT_BURIED {
        PcbViaType::Buried
    } else {
        PcbViaType::Unknown(value)
    }
}

// ---------------------------------------------------------------------------
// Status checks.
// ---------------------------------------------------------------------------
/// The name an item request status is reported by: its enum name, with
/// values the enumeration does not define reported as `IRS_UNKNOWN`.
pub open spec fn item_request_status_text(status: i32) -> Seq<char> {
    match item_request_status_name_spec(status) {
        Some(name) => name,
        None => "IRS_UNKNOWN"@,
    }
}

/// Fails with the status name unless an item request status is `IRS_OK`.
pub fn ensure_item_request_ok(status: i32) -> (r: Result<(), KiCadError>)
    ensures
        r is Ok <==> status == proto::IRS_OK,
        r matches Err(e) ==> e matches KiCadError::ItemStatus { code } && code@
            == item_request_status_text(status),
{
    if status == proto::IRS_OK {
        return Ok(());
    }
    let code = match item_request_status_name(status) {
        Some(name) => owned(name),
        None => owned("IRS_UNKNOWN"),
    };
    Err(KiCadError::ItemStatus { code })
}

/// The name an item status code is reported by: its enum name, with values
/// the enumeration does not define reported as `ISC_UNKNOWN`.
pub open spec fn item_status_code_text(code: i32) -> Seq<char> {
    match item_status_code_name_spec(code) {
        Some(name) => name,
        None => "ISC_UNKNOWN"@,
    }
}

/// The code of an optional item status; an absent status has code `0`.
pub open spec fn item_status_code_of(status: Option<proto::ItemStatus>) -> i32 {
    match status {
        Some(s) => s.code,
        None => 0i32,
    }
}

/// The detail reported for a failed item status: the status name, followed
/// by `: ` and the error message when there is one.
pub open spec fn item_status_detail(status: Option<proto::ItemStatus>) -> Seq<char> {
    let name = item_status_code_text(item_status_code_of(status));
    let message = match status {
        Some(s) => s.error_message@,
        None => Seq::empty(),
    };
    if message.len() == 0 {
        name
    } else {
        name + ": "@ + message
    }
}

/// Fails with the status name and message unless an item status (absent
/// counts as code `0`) is `ISC_OK`.
pub fn ensure_item_status_ok(status: &Option<proto::ItemStatus>) -> (r: Result<(), KiCadError>)
    ensures
        r is Ok <==> item_status_code_of(*status) == proto::ISC_OK,
        r matches Err(e) ==> e matches KiCadError::ItemStatus { code } && code@
            == item_status_detail(*status),
{
    let code_value = match status {
        Some(s) => s.code,
        None => 0,
    };
    if code_value == proto::ISC_OK {
        return Ok(());
    }
    let name = match item_status_code_name(code_value) {
        Some(name) => name,
        None => "ISC_UNKNOWN",
    };
    let detail = match status {
        Some(s) => {
            if string_is_empty(&s.error_message) {
                owned(name)
            } else {
                let mut d = owned(name);
                push_str(&mut d, ": ");
                push_str(&mut d, s.error_message.as_str());
                d
            }
        },
        None => owned(name),
    };
    Err(KiCadError::ItemStatus { code: detail })
}

/// The name an item deletion status is reported by: its enum name, with
/// values the enumeration does not define reported as `IDS_UNKNOWN`.
pub open spec fn item_deletion_status_text(status: i32) -> Seq<char> {
    match item_deletion_status_name_spec(status) {
        Some(name) => name,
        None => "IDS_UNKNOWN"@,
    }
}

/// Fails with the status name unless an item deletion status is `IDS_OK`.
pub fn ensure_item_deletion_status_ok(status: i32) -> (r: Result<(), KiCadError>)
    ensures
        r is Ok <==> status == proto::IDS_OK,
        r matches Err(e) ==> e matches KiCadError::ItemStatus { code } && code@
            == item_deletion_status_text(status),
{
    if status == proto::IDS_OK {
        return Ok(());
    }
    let code = match item_deletion_status_name(status) {
        Some(name) => owned(name),
        None => owned("IDS_UNKNOWN"),
    };
    Err(KiCadError::ItemStatus { code })
}

/// Extracts the commit session of a begin-commit response; the response
/// must carry a non-empty id.
pub fn map_commit_session(response: proto::BeginCommitResponse) -> (r: Result<
    CommitSession,
    KiCadError,
>)
    ensures
        match response.id {
            Some(id) => if id.value@.len() == 0 {
                r matches Err(e) && e matches KiCadError::InvalidResponse { reason } && reason@
                    == "BeginCommit response returned empty commit id"@
            } else {
                r matches Ok(session) && session.id@ == id.value@
            },
            None => r matches Err(e) && e matches KiCadError::InvalidResponse { reason } && reason@
                == "BeginCommit response missing commit id"@,
        },
{
    match response.id {
        Some(id) => {
            if string_is_empty(&id.value) {
                Err(
                    KiCadError::InvalidResponse {
                        reason: owned("BeginCommit response returned empty commit id"),
                    },
                )
            } else {
                Ok(CommitSession { id: id.value })
            }
        },
        None => Err(
            KiCadError::InvalidResponse { reason: owned("BeginCommit response missing commit id") },
        ),
    }
}

/// Whether `b` is the bounding box that `bbox` gives for the item `id`.
pub open spec fn bounding_box_of(id: proto::Kiid, bbox: proto::Box2, b: ItemBoundingBox) -> bool {
    match (bbox.position, bbox.size) {
        (Some(p), Some(s)) => b.item_id@ == id.value@ && b.x_nm == p.x_nm && b.y_nm == p.y_nm
            && b.width_nm == s.x_nm && b.height_nm == s.y_nm,
        _ => false,
    }
}

/// Whether every box among the first `n` pairs has a position and a size.
pub open spec fn boxes_complete(boxes: Seq<proto::Box2>, n: int) -> bool {
    forall|i: int| 0 <= i < n ==> (#[trigger] boxes[i]).position is Some && boxes[i].size is Some
}

/// Pairs item ids with their bounding boxes, as far as both lists go; fails
/// on the first box without a position or a size.
pub fn map_item_bounding_boxes(item_ids: &Vec<proto::Kiid>, boxes: &Vec<proto::Box2>) -> (r:
    Result<Vec<ItemBoundingBox>, KiCadError>)
    ensures
        ({
            let n = if item_ids@.len() < boxes@.len() {
                item_ids@.len()
            } else {
                boxes@.len()
            };
            &&& r is Ok <==> boxes_complete(boxes@, n as int)
            &&& r matches Ok(mapped) ==> mapped@.len() == n && forall|i: int|
                0 <= i < n ==> #[trigger] bounding_box_of(item_ids@[i], boxes@[i], mapped@[i])
            &&& r matches Err(e) ==> e is InvalidResponse
        }),
{
    let n = if item_ids.len() < boxes.len() {
        item_ids.len()
    } else {
        boxes.len()
    };
    let mut mapped: Vec<ItemBoundingBox> = Vec::new();
    let mut i: usize = 0;
    while i < n
        invariant
            n <= item_ids@.len(),
            n <= boxes@.len(),
            n == (if item_ids@.len() < boxes@.len() {
                item_ids@.len()
            } else {
                boxes@.len()
            }),
            i <= n,
            boxes_complete(boxes@, i as int),
            mapped@.len() == i,
            forall|j: int|
                0 <= j < i ==> #[trigger] bounding_box_of(item_ids@[j], boxes@[j], mapped@[j]),
        decreases n - i,
    {
        let bbox = boxes[i];
        let position = match bbox.position {
            Some(p) => p,
            None => {
                let reason = message_for_item(
                    "missing bounding-box position for item `",
                    &item_ids[i].value,
                );
                return Err(KiCadError::InvalidResponse { reason });
            },
        };
        let size = match bbox.size {
            Some(s) => s,
            None => {
                let reason = message_for_item(
                    "missing bounding-box size for item `",
                    &item_ids[i].value,
                );
                return Err(KiCadError::InvalidResponse { reason });
            },
        };
        mapped.push(
            ItemBoundingBox {
                item_id: item_ids[i].value.clone(),
                x_nm: position.x_nm,
                y_nm: position.y_nm,
                width_nm: size.x_nm,
                height_nm: size.y_nm,
            },
        );
        i = i + 1;
    }
    Ok(mapped)
}

fn message_for_item(prefix: &str, id: &String) -> (r: String)
    ensures
        r@ == prefix@ + id@ + "`"@,
{
    let mut r = owned(prefix);
    push_str(&mut r, id.as_str());
    push_str(&mut r, "`");
    r
}

// ---------------------------------------------------------------------------
// Polygons.
// ---------------------------------------------------------------------------
/// The model node that an API polyline node stands for; `None` for a node
/// without geometry or an arc node missing one of its points.
pub open spec fn polyline_node_model(node: proto::PolyLineNode) -> Option<PolyLineNodeGeometryNm> {
    match node.geometry {
        Some(proto::PolyLineNodeGeometry::Point(p)) => Some(
            PolyLineNodeGeometryNm::Point(vector_nm(p)),
        ),
        Some(proto::PolyLineNodeGeometry::Arc(arc)) => match (arc.start, arc.mid, arc.end) {
            (Some(s), Some(m), Some(e)) => Some(
                PolyLineNodeGeometryNm::Arc(
                    ArcStartMidEndNm { start: vector_nm(s), mid: vector_nm(m), end: vector_nm(e) },
                ),
            ),
            _ => None,
        },
        None => None,
    }
}

/// The reason reported for an API polyline node that has no model.
pub open spec fn polyline_node_error(node: proto::PolyLineNode) -> Seq<char> {
    match node.geometry {
        Some(proto::PolyLineNodeGeometry::Arc(arc)) => if arc.start is None {
            "polyline arc node missing start point"@
        } else if arc.mid is None {
            "polyline arc node missing mid point"@
        } else {
            "polyline arc node missing end point"@
        },
        _ => "polyline node has no geometry"@,
    }
}

/// Converts one API polyline node to the model.
pub fn map_polyline_node(node: proto::PolyLineNode) -> (r: Result<
    PolyLineNodeGeometryNm,
    KiCadError,
>)
    ensures
        match polyline_node_model(node) {
            Some(m) => r == Ok::<PolyLineNodeGeometryNm, KiCadError>(m),
            None => r matches Err(e) && e matches KiCadError::InvalidResponse { reason } && reason@
                == polyline_node_error(node),
        },
{
    match node.geometry {
        Some(proto::PolyLineNodeGeometry::Point(point)) => Ok(
            PolyLineNodeGeometryNm::Point(map_vector2_nm(point)),
        ),
        Some(proto::PolyLineNodeGeometry::Arc(arc)) => {
            let start = match arc.start {
                Some(p) => p,
                None => {
                    return Err(
                        KiCadError::InvalidResponse {
                            reason: owned("polyline arc node missing start point"),
                        },
                    );
                },
            };
            let mid = match arc.mid {
                Some(p) => p,
                None => {
                    return Err(
                        KiCadError::InvalidResponse {
                            reason: owned("polyline arc node missing mid point"),
                        },
                    );
                },
            };
            let end = match arc.end {
                Some(p) => p,
                None => {
                    return Err(
                        KiCadError::InvalidResponse {
                            reason: owned("polyline arc node missing end point"),
                        },
                    );
                },
            };
            Ok(
                PolyLineNodeGeometryNm::Arc(
                    ArcStartMidEndNm {
                        start: map_vector2_nm(start),
                        mid: map_vector2_nm(mid),
                        end: map_vector2_nm(end),
                    },
                ),
            )
        },
        None => Err(KiCadError::InvalidResponse { reason: owned("polyline node has no geometry") }),
    }
}

/// Whether every node of a polyline has a model.
pub open spec fn polyline_valid(line: proto::PolyLine) -> bool {
    forall|i: int| 0 <= i < line.nodes@.len() ==> (#[trigger] polyline_node_model(line.nodes@[i])) is Some
}

/// Whether `m` is the model of the valid API polyline `line`.
pub open spec fn polyline_model_of(line: proto::PolyLine, m: PolyLineNm) -> bool {
    &&& m.closed == line.closed
    &&& m.nodes@.len() == line.nodes@.len()
    &&& forall|i: int|
        0 <= i < line.nodes@.len() ==> Some(#[trigger] m.nodes@[i]) == polyline_node_model(
            line.nodes@[i],
        )
}

/// Each field of the polyline read from the API comes from the field of the same
/// role: the relation holds field by field.
pub proof fn lemma_polyline_read_fields(line: proto::PolyLine, m: PolyLineNm)
    requires
        polyline_model_of(line, m),
    ensures
        (m.closed == line.closed),
        (m.nodes@.len() == line.nodes@.len()),
        (forall|i: int|
            0 <= i < line.nodes@.len() ==> Some(#[trigger] m.nodes@[i]) == polyline_node_model(
                line.nodes@[i],
            )),
{
}

/// Converts an API polyline to the model; fails on the first node without a
/// model.
pub fn map_polyline(line: &proto::PolyLine) -> (r: Result<PolyLineNm, KiCadError>)
    ensures
        r is Ok <==> polyline_valid(*line),
        r matches Ok(m) ==> polyline_model_of(*line, m),
        r matches Err(e) ==> e is InvalidResponse,
{
    let mut nodes: Vec<PolyLineNodeGeometryNm> = Vec::new();
    let n = line.nodes.len();
    let mut i: usize = 0;
    while i < n
        invariant
            n == line.nodes@.len(),
            i <= n,
            nodes@.len() == i,
            forall|j: int|
                0 <= j < i ==> Some(#[trigger] nodes@[j]) == polyline_node_model(line.nodes@[j]),
        decreases n - i,
    {
        match map_polyline_node(line.nodes[i]) {
            Ok(node) => nodes.push(node),
            Err(e) => {
                assert(polyline_node_model(line.nodes@[i as int]) is None);
                return Err(e);
            },
        }
        i = i + 1;
    }
    assert forall|j: int| 0 <= j < line.nodes@.len() implies (#[trigger] polyline_node_model(
        line.nodes@[j],
    )) is Some by {
        assert(Some(nodes@[j]) == polyline_node_model(line.nodes@[j]));
    }
    Ok(PolyLineNm { nodes, closed: line.closed })
}

/// Whether the outline and every hole of a polygon are valid polylines.
pub open spec fn polygon_valid(polygon: proto::PolygonWithHoles) -> bool {
    &&& (polygon.outline matches Some(o) ==> polyline_valid(o))
    &&& forall|i: int| 0 <= i < polygon.holes@.len() ==> polyline_valid(#[trigger] polygon.holes@[i])
}

/// Whether `m` is the model of the valid API polygon `polygon`.
pub open spec fn polygon_model_of(polygon: proto::PolygonWithHoles, m: PolygonWithHolesNm) -> bool {
    &&& match (polygon.outline, m.outline) {
        (None, None) => true,
        (Some(o), Some(mo)) => polyline_model_of(o, mo),
        _ => false,
    }
    &&& m.holes@.len() == polygon.holes@.len()
    &&& forall|i: int|
        0 <= i < polygon.holes@.len() ==> polyline_model_of(
            polygon.holes@[i],
            #[trigger] m.holes@[i],
        )
}

/// Each field of the polygon read from the API comes from the field of the same
/// role: the relation holds field by field.
pub proof fn lemma_polygon_read_fields(polygon: proto::PolygonWithHoles, m: PolygonWithHolesNm)
    requires
        polygon_model_of(polygon, m),
    ensures
        (match (polygon.outline, m.outline) {
            (None, None) => true,
            (Some(o), Some(mo)) => polyline_model_of(o, mo),
            _ => false,
        }),
        (m.holes@.len() == polygon.holes@.len()),
        (forall|i: int|
            0 <= i < polygon.holes@.len() ==> polyline_model_of(
                polygon.holes@[i],
                #[trigger] m.holes@[i],
            )),
{
}

/// Converts an API polygon with holes to the model; fails on the first
/// polyline node without a model.
pub fn map_polygon_with_holes(polygon: &proto::PolygonWithHoles) -> (r: Result<
    PolygonWithHolesNm,
    KiCadError,
>)
    ensures
        r is Ok <==> polygon_valid(*polygon),
        r matches Ok(m) ==> polygon_model_of(*polygon, m),
        r matches Err(e) ==> e is InvalidResponse,
{
    let outline = match &polygon.outline {
        Some(o) => Some(map_polyline(o)?),
        None => None,
    };
    let mut holes: Vec<PolyLineNm> = Vec::new();
    let n = polygon.holes.len();
    let mut i: usize = 0;
    while i < n
        invariant
            n == polygon.holes@.len(),
            i <= n,
            holes@.len() == i,
            forall|j: int| 0 <= j < i ==> polyline_valid(#[trigger] polygon.holes@[j]),
            forall|j: int|
                0 <= j < i ==> polyline_model_of(polygon.holes@[j], #[trigger] holes@[j]),
        decreases n - i,
    {
        let hole = map_polyline(&polygon.holes[i])?;
        holes.push(hole);
        i = i + 1;
    }
    Ok(PolygonWithHolesNm { outline, holes })
}

// ---------------------------------------------------------------------------
// Payload checks.
// ---------------------------------------------------------------------------
/// Checks that a payload carries the type URL of `expected_type_name`.
pub fn expect_payload_type(payload: &proto::Any, expected_type_name: &str) -> (r: Result<
    (),
    KiCadError,
>)
    ensures
        r is Ok <==> payload.type_url@ == type_url_spec(expected_type_name@),
        r matches Err(e) ==> e matches KiCadError::UnexpectedPayloadType {
            expected_type_url,
            actual_type_url,
        } && expected_type_url@ == type_url_spec(expected_type_name@) && actual_type_url@
            == payload.type_url@,
{
    let expected_type_url = type_url(expected_type_name);
    if crate::text::str_eq(payload.type_url.as_str(), expected_type_url.as_str()) {
        Ok(())
    } else {
        Err(
            KiCadError::UnexpectedPayloadType {
                expected_type_url,
                actual_type_url: payload.type_url.clone(),
            },
        )
    }
}

/// Takes the payload of a response, which must be present and carry the
/// type URL of `expected_type_name`.
pub fn response_payload_as_any(response: proto::ApiResponse, expected_type_name: &str) -> (r:
    Result<proto::Any, KiCadError>)
    ensures
        match response.message {
            Some(payload) => if payload.type_url@ == type_url_spec(expected_type_name@) {
                r == Ok::<proto::Any, KiCadError>(payload)
            } else {
                r matches Err(e) && e matches KiCadError::UnexpectedPayloadType {
                    expected_type_url,
                    actual_type_url,
                } && expected_type_url@ == type_url_spec(expected_type_name@)
                    && actual_type_url@ == payload.type_url@
            },
            None => r matches Err(e) && e matches KiCadError::MissingPayload { expected_type_url }
                && expected_type_url@ == type_url_spec(expected_type_name@),
        },
{
    let payload = match response.message {
        Some(payload) => payload,
        None => {
            return Err(KiCadError::MissingPayload { expected_type_url: type_url(expected_type_name) });
        },
    };
    match expect_payload_type(&payload, expected_type_name) {
        Ok(()) => Ok(payload),
        Err(e) => Err(e),
    }
}

} // verus!
