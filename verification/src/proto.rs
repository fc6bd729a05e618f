//! The KiCad API's protobuf messages, held as plain data: the fields that the
//! library's conversions read and write, with enumerations kept as their
//! numeric wire values (`i32`) as prost keeps them.
//!
//! Floating-point fields are carried as their IEEE-754 bit patterns
//! ([`F64Bits`]); the library copies them and never computes on them.

use vstd::prelude::*;

verus! {

/// An `f64` carried by its IEEE-754 bit pattern (`f64::to_bits`).
#[derive(Clone, Copy, Debug, PartialEq, Eq, Default, Structural)]
pub struct F64Bits {
    pub bits: u64,
}

/// `1.0`, the default line spacing of text attributes.
pub open spec fn f64_one() -> F64Bits {
    F64Bits { bits: 0x3FF0_0000_0000_0000 }
}

// ---------------------------------------------------------------------------
// Enumeration values used by the conversions.
// ---------------------------------------------------------------------------
pub const LS_UNKNOWN: i32 = 0;
pub const LS_UNLOCKED: i32 = 1;
pub const LS_LOCKED: i32 = 2;

pub const DOCTYPE_UNKNOWN: i32 = 0;
pub const DOCTYPE_SCHEMATIC: i32 = 1;
pub const DOCTYPE_SYMBOL: i32 = 2;
pub const DOCTYPE_PCB: i32 = 3;
pub const DOCTYPE_FOOTPRINT: i32 = 4;
pub const DOCTYPE_DRAWING_SHEET: i32 = 5;
pub const DOCTYPE_PROJECT: i32 = 6;

pub const FT_PROJECT_MANAGER: i32 = 1;
pub const FT_SCHEMATIC_EDITOR: i32 = 2;
pub const FT_PCB_EDITOR: i32 = 3;
pub const FT_SPICE_SIMULATOR: i32 = 4;
pub const FT_SYMBOL_EDITOR: i32 = 5;
pub const FT_FOOTPRINT_EDITOR: i32 = 6;
pub const FT_DRAWING_SHEET_EDITOR: i32 = 7;

pub const HA_UNKNOWN: i32 = 0;
pub const HA_LEFT: i32 = 1;
pub const HA_CENTER: i32 = 2;
pub const HA_RIGHT: i32 = 3;
pub const HA_INDETERMINATE: i32 = 4;

pub const VA_UNKNOWN: i32 = 0;
pub const VA_TOP: i32 = 1;
pub const VA_CENTER: i32 = 2;
pub const VA_BOTTOM: i32 = 3;
pub const VA_INDETERMINATE: i32 = 4;

pub const MMM_MERGE: i32 = 1;
pub const MMM_REPLACE: i32 = 2;

pub const IRS_UNKNOWN: i32 = 0;
pub const IRS_OK: i32 = 1;
pub const IRS_DOCUMENT_NOT_FOUND: i32 = 2;

pub const ISC_UNKNOWN: i32 = 0;
pub const ISC_OK: i32 = 1;
pub const ISC_INVALID_TYPE: i32 = 2;

pub const IDS_UNKNOWN: i32 = 0;
pub const IDS_OK: i32 = 1;
pub const IDS_NONEXISTENT: i32 = 2;

pub const CMA_COMMIT: i32 = 1;
pub const CMA_DROP: i32 = 2;

pub const HTR_UNKNOWN: i32 = 0;
pub const HTR_NO_HIT: i32 = 1;
pub const HTR_HIT: i32 = 2;

pub const RAS_UNKNOWN: i32 = 0;
pub const RAS_OK: i32 = 1;
pub const RAS_INVALID: i32 = 2;
pub const RAS_FRAME_NOT_OPEN: i32 = 3;

pub const BOT_GRID: i32 = 1;
pub const BOT_DRILL: i32 = 2;

pub const PSP_PRESENT: i32 = 1;
pub const PSP_NOT_PRESENT: i32 = 2;

pub const ILDM_NORMAL: i32 = 1;
pub const ILDM_DIMMED: i32 = 2;
pub const ILDM_HIDDEN: i32 = 3;

pub const NCDM_ALL: i32 = 1;
pub const NCDM_RATSNEST: i32 = 2;
pub const NCDM_OFF: i32 = 3;

pub const BFM_NORMAL: i32 = 1;
pub const BFM_FLIPPED_X: i32 = 2;

pub const RDM_ALL_LAYERS: i32 = 1;
pub const RDM_VISIBLE_LAYERS: i32 = 2;

pub const DRS_WARNING: i32 = 1;
pub const DRS_ERROR: i32 = 2;
pub const DRS_EXCLUSION: i32 = 3;
pub const DRS_IGNORE: i32 = 4;
pub const DRS_INFO: i32 = 5;
pub const DRS_ACTION: i32 = 6;
pub const DRS_DEBUG: i32 = 7;
pub const DRS_UNDEFINED: i32 = 8;

pub const BSLT_COPPER: i32 = 1;
pub const BSLT_DIELECTRIC: i32 = 2;
pub const BSLT_SILKSCREEN: i32 = 3;
pub const BSLT_SOLDERMASK: i32 = 4;
pub const BSLT_SOLDERPASTE: i32 = 5;
pub const BSLT_UNDEFINED: i32 = 6;

pub const BLC_SILKSCREEN: i32 = 1;
pub const BLC_COPPER: i32 = 2;
pub const BLC_EDGES: i32 = 3;
pub const BLC_COURTYARD: i32 = 4;
pub const BLC_FABRICATION: i32 = 5;
pub const BLC_OTHER: i32 = 6;

pub const NCT_EXPLICIT: i32 = 1;
pub const NCT_IMPLICIT: i32 = 2;

pub const VT_THROUGH: i32 = 1;
pub const VT_BLIND_BURIED: i32 = 2;
pub const VT_MICRO: i32 = 3;
pub const VT_BLIND: i32 = 4;
pub const VT_BURIED: i32 = 5;

pub const PT_PTH: i32 = 1;
pub const PT_SMD: i32 = 2;
pub const PT_EDGE_CONNECTOR: i32 = 3;
pub const PT_NPTH: i32 = 4;

pub const ZT_COPPER: i32 = 1;
pub const ZT_GRAPHICAL: i32 = 2;
pub const ZT_RULE_AREA: i32 = 3;
pub const ZT_TEARDROP: i32 = 4;

pub const BK_UNKNOWN: i32 = 0;
pub const BK_CODE_39: i32 = 1;
pub const BK_CODE_128: i32 = 2;
pub const BK_DATA_MATRIX: i32 = 3;
pub const BK_QR_CODE: i32 = 4;
pub const BK_MICRO_QR_CODE: i32 = 5;

pub const BEC_UNKNOWN: i32 = 0;
pub const BEC_L: i32 = 1;
pub const BEC_M: i32 = 2;
pub const BEC_Q: i32 = 3;
pub const BEC_H: i32 = 4;

pub const BL_F_CU: i32 = 3;
pub const BL_B_CU: i32 = 34;
pub const BL_F_SILKS: i32 = 40;
pub const BL_DWGS_USER: i32 = 43;

pub const KOT_PCB_FOOTPRINT: i32 = 1;
pub const KOT_PCB_PAD: i32 = 2;
pub const KOT_PCB_SHAPE: i32 = 3;
pub const KOT_PCB_REFERENCE_IMAGE: i32 = 4;
pub const KOT_PCB_FIELD: i32 = 5;
pub const KOT_PCB_GENERATOR: i32 = 6;
pub const KOT_PCB_TEXT: i32 = 7;
pub const KOT_PCB_TEXTBOX: i32 = 8;
pub const KOT_PCB_TABLE: i32 = 9;
pub const KOT_PCB_TABLECELL: i32 = 10;
pub const KOT_PCB_TRACE: i32 = 11;
pub const KOT_PCB_VIA: i32 = 12;
pub const KOT_PCB_ARC: i32 = 13;
pub const KOT_PCB_MARKER: i32 = 14;
pub const KOT_PCB_DIMENSION: i32 = 15;
pub const KOT_PCB_ZONE: i32 = 16;
pub const KOT_PCB_GROUP: i32 = 17;
pub const KOT_PCB_BARCODE: i32 = 46;

// ---------------------------------------------------------------------------
// Common types.
// ---------------------------------------------------------------------------
#[derive(Clone, Copy, Debug, PartialEq, Eq, Default, Structural)]
pub struct Vector2 {
    pub x_nm: i64,
    pub y_nm: i64,
}

#[derive(Clone, Copy, Debug, PartialEq, Eq, Default, Structural)]
pub struct Distance {
    pub value_nm: i64,
}

#[derive(Clone, Copy, Debug, PartialEq, Eq, Default, Structural)]
pub struct Angle {
    pub value_degrees: F64Bits,
}

#[derive(Clone, Copy, Debug, PartialEq, Eq, Default, Structural)]
pub struct Ratio {
    pub value: F64Bits,
}

#[derive(Clone, Copy, Debug, PartialEq, Eq, Default, Structural)]
pub struct Color {
    pub r: F64Bits,
    pub g: F64Bits,
    pub b: F64Bits,
    pub a: F64Bits,
}

#[derive(Clone, Copy, Debug, PartialEq, Eq, Default, Structural)]
pub struct TimeAs {
    pub value_as: i64,
}

#[derive(Clone, Debug, PartialEq, Eq, Default)]
pub struct Kiid {
    pub value: String,
}

#[derive(Clone, Debug, PartialEq, Eq, Default)]
pub struct TextAttributes {
    pub font_name: String,
    pub horizontal_alignment: i32,
    pub vertical_alignment: i32,
    pub angle: Option<Angle>,
    pub line_spacing: F64Bits,
    pub stroke_width: Option<Distance>,
    pub italic: bool,
    pub bold: bool,
    pub underlined: bool,
    pub visible: bool,
    pub mirrored: bool,
    pub multiline: bool,
    pub keep_upright: bool,
    pub size: Option<Vector2>,
}

#[derive(Clone, Debug, PartialEq, Eq, Default)]
pub struct Text {
    pub position: Option<Vector2>,
    pub attributes: Option<TextAttributes>,
    pub text: String,
    pub hyperlink: String,
}

#[derive(Clone, Debug, PartialEq, Eq, Default)]
pub struct TextBox {
    pub top_left: Option<Vector2>,
    pub bottom_right: Option<Vector2>,
    pub attributes: Option<TextAttributes>,
    pub text: String,
}

#[derive(Clone, Copy, Debug, PartialEq, Eq, Default, Structural)]
pub struct ArcStartMidEnd {
    pub start: Option<Vector2>,
    pub mid: Option<Vector2>,
    pub end: Option<Vector2>,
}

#[derive(Clone, Copy, Debug, PartialEq, Eq, Structural)]
pub enum PolyLineNodeGeometry {
    Point(Vector2),
    Arc(ArcStartMidEnd),
}

#[derive(Clone, Copy, Debug, PartialEq, Eq, Default, Structural)]
pub struct PolyLineNode {
    pub geometry: Option<PolyLineNodeGeometry>,
}

#[derive(Clone, Debug, PartialEq, Eq, Default)]
pub struct PolyLine {
    pub nodes: Vec<PolyLineNode>,
    pub closed: bool,
}

#[derive(Clone, Debug, PartialEq, Eq, Default)]
pub struct PolygonWithHoles {
    pub outline: Option<PolyLine>,
    pub holes: Vec<PolyLine>,
}

#[derive(Clone, Debug, PartialEq, Eq, Default)]
pub struct PolySet {
    pub polygons: Vec<PolygonWithHoles>,
}

#[derive(Clone, Copy, Debug, PartialEq, Eq, Default, Structural)]
pub struct GraphicSegment {
    pub start: Option<Vector2>,
    pub end: Option<Vector2>,
}

#[derive(Clone, Copy, Debug, PartialEq, Eq, Default, Structural)]
pub struct GraphicRectangle {
    pub top_left: Option<Vector2>,
    pub bottom_right: Option<Vector2>,
    pub corner_radius: Option<Distance>,
}

#[derive(Clone, Copy, Debug, PartialEq, Eq, Default, Structural)]
pub struct GraphicArc {
    pub start: Option<Vector2>,
    pub mid: Option<Vector2>,
    pub end: Option<Vector2>,
}

#[derive(Clone, Copy, Debug, PartialEq, Eq, Default, Structural)]
pub struct GraphicCircle {
    pub center: Option<Vector2>,
    pub radius_point: Option<Vector2>,
}

#[derive(Clone, Copy, Debug, PartialEq, Eq, Default, Structural)]
pub struct GraphicBezier {
    pub start: Option<Vector2>,
    pub control1: Option<Vector2>,
    pub control2: Option<Vector2>,
    pub end: Option<Vector2>,
}

#[derive(Clone, Debug, PartialEq, Eq)]
pub enum GraphicShapeGeometry {
    Segment(GraphicSegment),
    Rectangle(GraphicRectangle),
    Arc(GraphicArc),
    Circle(GraphicCircle),
    Polygon(PolySet),
    Bezier(GraphicBezier),
}

#[derive(Clone, Copy, Debug, PartialEq, Eq, Default, Structural)]
pub struct StrokeAttributes {
    pub width: Option<Distance>,
    pub style: i32,
    pub color: Option<Color>,
}

#[derive(Clone, Copy, Debug, PartialEq, Eq, Default, Structural)]
pub struct GraphicFillAttributes {
    pub fill_type: i32,
    pub color: Option<Color>,
}

#[derive(Clone, Copy, Debug, PartialEq, Eq, Default, Structural)]
pub struct GraphicAttributes {
    pub stroke: Option<StrokeAttributes>,
    pub fill: Option<GraphicFillAttributes>,
}

#[derive(Clone, Debug, PartialEq, Eq, Default)]
pub struct GraphicShape {
    pub geometry: Option<GraphicShapeGeometry>,
    pub attributes: Option<GraphicAttributes>,
}

#[derive(Clone, Copy, Debug, PartialEq, Eq, Default, Structural)]
pub struct Box2 {
    pub position: Option<Vector2>,
    pub size: Option<Vector2>,
}

#[derive(Clone, Debug, PartialEq, Eq, Default)]
pub struct ProjectSpecifier {
    pub name: String,
    pub path: String,
}

#[derive(Clone, Debug, PartialEq, Eq)]
pub enum DocumentIdentifier {
    LibId(String),
    SheetPath(Vec<Kiid>),
    BoardFilename(String),
}

#[derive(Clone, Debug, PartialEq, Eq, Default)]
pub struct DocumentSpecifier {
    pub doc_type: i32,
    pub project: Option<ProjectSpecifier>,
    pub identifier: Option<DocumentIdentifier>,
}

#[derive(Clone, Debug, PartialEq, Eq, Default)]
pub struct FieldMask {
    pub paths: Vec<String>,
}

#[derive(Clone, Debug, PartialEq, Eq, Default)]
pub struct ItemHeader {
    pub document: Option<DocumentSpecifier>,
    pub container: Option<Kiid>,
    pub field_mask: Option<FieldMask>,
}

// ---------------------------------------------------------------------------
// Board item types.
// ---------------------------------------------------------------------------
#[derive(Clone, Copy, Debug, PartialEq, Eq, Default, Structural)]
pub struct NetCode {
    pub value: i32,
}

#[derive(Clone, Debug, PartialEq, Eq, Default)]
pub struct Net {
    pub code: Option<NetCode>,
    pub name: String,
}

#[derive(Clone, Debug, PartialEq, Eq, Default)]
pub struct Track {
    pub id: Option<Kiid>,
    pub start: Option<Vector2>,
    pub end: Option<Vector2>,
    pub width: Option<Distance>,
    pub locked: i32,
    pub layer: i32,
    pub net: Option<Net>,
}

#[derive(Clone, Debug, PartialEq, Eq, Default)]
pub struct Arc {
    pub id: Option<Kiid>,
    pub start: Option<Vector2>,
    pub mid: Option<Vector2>,
    pub end: Option<Vector2>,
    pub width: Option<Distance>,
    pub locked: i32,
    pub layer: i32,
    pub net: Option<Net>,
}

#[derive(Clone, Copy, Debug, PartialEq, Eq, Default, Structural)]
pub struct DrillProperties {
    pub start_layer: i32,
    pub end_layer: i32,
    pub diameter: Option<Vector2>,
    pub shape: i32,
    pub capped: i32,
    pub filled: i32,
}

#[derive(Clone, Copy, Debug, PartialEq, Eq, Default, Structural)]
pub struct PadStackLayer {
    pub layer: i32,
}

#[derive(Clone, Copy, Debug, PartialEq, Eq, Default, Structural)]
pub struct PadStackOuterLayer {
    pub solder_mask_mode: i32,
}

#[derive(Clone, Copy, Debug, PartialEq, Eq, Default, Structural)]
pub struct ZoneConnectionSettings {
    pub zone_connection: i32,
}

#[derive(Clone, Copy, Debug, PartialEq, Eq, Default, Structural)]
pub struct PostMachiningProperties {
    pub mode: i32,
}

#[derive(Clone, Debug, PartialEq, Eq, Default)]
pub struct PadStack {
    pub stack_type: i32,
    pub layers: Vec<i32>,
    pub drill: Option<DrillProperties>,
    pub unconnected_layer_removal: i32,
    pub copper_layers: Vec<PadStackLayer>,
    pub front_outer_layers: Option<PadStackOuterLayer>,
    pub back_outer_layers: Option<PadStackOuterLayer>,
    pub zone_settings: Option<ZoneConnectionSettings>,
    pub secondary_drill: Option<DrillProperties>,
    pub tertiary_drill: Option<DrillProperties>,
    pub front_post_machining: Option<PostMachiningProperties>,
    pub back_post_machining: Option<PostMachiningProperties>,
}

#[derive(Clone, Debug, PartialEq, Eq, Default)]
pub struct Via {
    pub id: Option<Kiid>,
    pub position: Option<Vector2>,
    pub pad_stack: Option<PadStack>,
    pub locked: i32,
    pub net: Option<Net>,
    pub via_type: i32,
}

#[derive(Clone, Debug, PartialEq, Eq, Default)]
pub struct BoardText {
    pub id: Option<Kiid>,
    pub text: Option<Text>,
    pub layer: i32,
    pub knockout: bool,
    pub locked: i32,
}

#[derive(Clone, Debug, PartialEq, Eq, Default)]
pub struct BoardTextBox {
    pub id: Option<Kiid>,
    pub textbox: Option<TextBox>,
    pub layer: i32,
    pub locked: i32,
}

#[derive(Clone, Copy, Debug, PartialEq, Eq, Default, Structural)]
pub struct FieldId {
    pub id: i32,
}

#[derive(Clone, Debug, PartialEq, Eq, Default)]
pub struct Field {
    pub id: Option<FieldId>,
    pub name: String,
    pub text: Option<BoardText>,
    pub visible: bool,
}

#[derive(Clone, Debug, PartialEq, Eq, Default)]
pub struct SymbolPin {
    pub name: String,
    pub pin_type: i32,
    pub no_connect: bool,
}

#[derive(Clone, Debug, PartialEq, Eq, Default)]
pub struct Pad {
    pub id: Option<Kiid>,
    pub locked: i32,
    pub number: String,
    pub net: Option<Net>,
    pub pad_type: i32,
    pub pad_stack: Option<PadStack>,
    pub position: Option<Vector2>,
    pub copper_clearance_override: Option<Distance>,
    pub pad_to_die_length: Option<Distance>,
    pub symbol_pin: Option<SymbolPin>,
    pub pad_to_die_delay: Option<TimeAs>,
}

#[derive(Clone, Copy, Debug, PartialEq, Eq, Default, Structural)]
pub struct FootprintAttributes {
    pub exclude_from_bom: bool,
}

#[derive(Clone, Copy, Debug, PartialEq, Eq, Default, Structural)]
pub struct FootprintDesignRuleOverrides {
    pub zone_connection: i32,
}

#[derive(Clone, Debug, PartialEq, Eq, Default)]
pub struct SheetPath {
    pub path: Vec<Kiid>,
}

/// A footprint definition: its items are payloads of their own.
#[derive(Debug, PartialEq, Eq, Default)]
pub struct Footprint {
    pub anchor: Option<Vector2>,
    pub items: Vec<Any>,
}

#[derive(Debug, PartialEq, Eq, Default)]
pub struct FootprintInstance {
    pub id: Option<Kiid>,
    pub position: Option<Vector2>,
    pub orientation: Option<Angle>,
    pub layer: i32,
    pub locked: i32,
    pub definition: Option<Footprint>,
    pub reference_field: Option<Field>,
    pub value_field: Option<Field>,
    pub datasheet_field: Option<Field>,
    pub description_field: Option<Field>,
    pub attributes: Option<FootprintAttributes>,
    pub overrides: Option<FootprintDesignRuleOverrides>,
    pub symbol_path: Option<SheetPath>,
    pub symbol_sheet_name: String,
    pub symbol_sheet_filename: String,
    pub symbol_footprint_filters: String,
}

#[derive(Clone, Debug, PartialEq, Eq, Default)]
pub struct BoardGraphicShape {
    pub id: Option<Kiid>,
    pub shape: Option<GraphicShape>,
    pub layer: i32,
    pub net: Option<Net>,
    pub locked: i32,
}

#[derive(Clone, Copy, Debug, PartialEq, Eq, Structural)]
pub enum ZoneSettings {
    CopperSettings(i32),
    RuleAreaSettings(i32),
}

#[derive(Clone, Copy, Debug, PartialEq, Eq, Default, Structural)]
pub struct ZoneFilledPolygons {
    pub layer: i32,
}

#[derive(Clone, Copy, Debug, PartialEq, Eq, Default, Structural)]
pub struct ZoneBorderSettings {
    pub style: i32,
    pub pitch: Option<Distance>,
}

#[derive(Clone, Copy, Debug, PartialEq, Eq, Default, Structural)]
pub struct ZoneLayerProperties {
    pub layer: i32,
    pub hatching_offset: Option<Vector2>,
}

#[derive(Clone, Debug, PartialEq, Eq, Default)]
pub struct Zone {
    pub id: Option<Kiid>,
    pub zone_type: i32,
    pub layers: Vec<i32>,
    pub outline: Option<PolySet>,
    pub name: String,
    pub settings: Option<ZoneSettings>,
    pub priority: u32,
    pub filled: bool,
    pub filled_polygons: Vec<ZoneFilledPolygons>,
    pub border: Option<ZoneBorderSettings>,
    pub locked: i32,
    pub layer_properties: Vec<ZoneLayerProperties>,
}

#[derive(Clone, Copy, Debug, PartialEq, Eq, Default, Structural)]
pub struct AlignedDimensionAttributes {
    pub start: Option<Vector2>,
    pub end: Option<Vector2>,
    pub height: Option<Distance>,
    pub extension_height: Option<Distance>,
}

#[derive(Clone, Copy, Debug, PartialEq, Eq, Default, Structural)]
pub struct OrthogonalDimensionAttributes {
    pub start: Option<Vector2>,
    pub end: Option<Vector2>,
    pub height: Option<Distance>,
    pub extension_height: Option<Distance>,
    pub alignment: i32,
}

#[derive(Clone, Copy, Debug, PartialEq, Eq, Default, Structural)]
pub struct RadialDimensionAttributes {
    pub center: Option<Vector2>,
    pub radius_point: Option<Vector2>,
    pub leader_length: Option<Distance>,
}

#[derive(Clone, Copy, Debug, PartialEq, Eq, Default, Structural)]
pub struct LeaderDimensionAttributes {
    pub start: Option<Vector2>,
    pub end: Option<Vector2>,
    pub border_style: i32,
}

#[derive(Clone, Copy, Debug, PartialEq, Eq, Default, Structural)]
pub struct CenterDimensionAttributes {
    pub center: Option<Vector2>,
    pub end: Option<Vector2>,
}

#[derive(Clone, Copy, Debug, PartialEq, Eq, Structural)]
pub enum DimensionStyle {
    Aligned(AlignedDimensionAttributes),
    Orthogonal(OrthogonalDimensionAttributes),
    Radial(RadialDimensionAttributes),
    Leader(LeaderDimensionAttributes),
    Center(CenterDimensionAttributes),
}

#[derive(Clone, Debug, PartialEq, Eq, Default)]
pub struct Dimension {
    pub id: Option<Kiid>,
    pub locked: i32,
    pub layer: i32,
    pub text: Option<Text>,
    pub dimension_style: Option<DimensionStyle>,
    pub override_text_enabled: bool,
    pub override_text: String,
    pub prefix: String,
    pub suffix: String,
    pub unit: i32,
    pub unit_format: i32,
    pub arrow_direction: i32,
    pub precision: i32,
    pub suppress_trailing_zeroes: bool,
    pub line_thickness: Option<Distance>,
    pub arrow_length: Option<Distance>,
    pub extension_offset: Option<Distance>,
    pub text_position: i32,
    pub keep_text_aligned: bool,
}

#[derive(Clone, Debug, PartialEq, Eq, Default)]
pub struct ReferenceImage {
    pub id: Option<Kiid>,
    pub layer: i32,
    pub position: Option<Vector2>,
    pub transform_origin_offset: Option<Vector2>,
    pub image_scale: Option<Ratio>,
    pub image_data: Vec<u8>,
    pub locked: i32,
}

#[derive(Clone, Debug, PartialEq, Eq, Default)]
pub struct Barcode {
    pub id: Option<Kiid>,
    pub text: String,
    pub kind: i32,
    pub error_correction: i32,
    pub position: Option<Vector2>,
    pub orientation: Option<Angle>,
    pub layer: i32,
    pub width: Option<Distance>,
    pub height: Option<Distance>,
    pub show_text: bool,
    pub text_height: Option<Distance>,
    pub knockout: bool,
    pub knockout_margin: Option<Vector2>,
    pub locked: i32,
}

#[derive(Clone, Debug, PartialEq, Eq, Default)]
pub struct Group {
    pub id: Option<Kiid>,
    pub name: String,
    pub items: Vec<Kiid>,
}

// ---------------------------------------------------------------------------
// Packed payloads.
// ---------------------------------------------------------------------------
/// The contents of a packed payload: either its encoded bytes, for a message
/// the library holds no decoded form of, or one of the board item messages.
#[derive(Debug, PartialEq, Eq)]
pub enum AnyValue {
    Encoded(Vec<u8>),
    Track(Track),
    Arc(Arc),
    Via(Via),
    FootprintInstance(FootprintInstance),
    Pad(Pad),
    BoardGraphicShape(BoardGraphicShape),
    BoardText(BoardText),
    BoardTextBox(BoardTextBox),
    Field(Field),
    Zone(Zone),
    Dimension(Dimension),
    ReferenceImage(ReferenceImage),
    Barcode(Barcode),
    Group(Group),
}

impl Default for AnyValue {
    fn default() -> (r: Self)
        ensures
            r matches AnyValue::Encoded(bytes) && bytes@.len() == 0,
    {
        AnyValue::Encoded(Vec::new())
    }
}

/// A packed payload (`google.protobuf.Any`): a type URL and the message it
/// names.
#[derive(Debug, PartialEq, Eq, Default)]
pub struct Any {
    pub type_url: String,
    pub value: AnyValue,
}

// ---------------------------------------------------------------------------
// Board-level settings.
// ---------------------------------------------------------------------------
#[derive(Clone, Debug, PartialEq, Eq, Default)]
pub struct BoardFinish {
    pub name: String,
}

#[derive(Clone, Copy, Debug, PartialEq, Eq, Default, Structural)]
pub struct BoardImpedanceControl {
    pub is_controlled: bool,
}

#[derive(Clone, Copy, Debug, PartialEq, Eq, Default, Structural)]
pub struct BoardEdgeConnector {}

#[derive(Clone, Copy, Debug, PartialEq, Eq, Default, Structural)]
pub struct Castellation {
    pub has_castellated_pads: bool,
}

#[derive(Clone, Copy, Debug, PartialEq, Eq, Default, Structural)]
pub struct EdgePlating {
    pub has_edge_plating: bool,
}

#[derive(Clone, Copy, Debug, PartialEq, Eq, Default, Structural)]
pub struct BoardEdgeSettings {
    pub connector: Option<BoardEdgeConnector>,
    pub castellation: Option<Castellation>,
    pub plating: Option<EdgePlating>,
}

#[derive(Clone, Debug, PartialEq, Eq, Default)]
pub struct BoardStackupDielectricProperties {
    pub epsilon_r: F64Bits,
    pub loss_tangent: F64Bits,
    pub material_name: String,
    pub thickness: Option<Distance>,
}

#[derive(Clone, Debug, PartialEq, Eq, Default)]
pub struct BoardStackupDielectricLayer {
    pub layer: Vec<BoardStackupDielectricProperties>,
}

#[derive(Clone, Debug, PartialEq, Eq, Default)]
pub struct BoardStackupLayer {
    pub thickness: Option<Distance>,
    pub layer: i32,
    pub enabled: bool,
    pub layer_type: i32,
    pub dielectric: Option<BoardStackupDielectricLayer>,
    pub color: Option<Color>,
    pub material_name: String,
    pub user_name: String,
}

#[derive(Clone, Debug, PartialEq, Eq, Default)]
pub struct BoardStackup {
    pub finish: Option<BoardFinish>,
    pub impedance: Option<BoardImpedanceControl>,
    pub edge: Option<BoardEdgeSettings>,
    pub layers: Vec<BoardStackupLayer>,
}

#[derive(Clone, Debug, PartialEq, Eq, Default)]
pub struct BoardLayerGraphicsDefaults {
    pub layer: i32,
    pub line_thickness: Option<Distance>,
    pub text: Option<TextAttributes>,
}

#[derive(Clone, Debug, PartialEq, Eq, Default)]
pub struct GraphicsDefaults {
    pub layers: Vec<BoardLayerGraphicsDefaults>,
}

#[derive(Clone, Copy, Debug, PartialEq, Eq, Default, Structural)]
pub struct BoardEditorAppearanceSettings {
    pub inactive_layer_display: i32,
    pub net_color_display: i32,
    pub board_flip: i32,
    pub ratsnest_display: i32,
}

#[derive(Clone, Debug, PartialEq, Eq, Default)]
pub struct BoardEnabledLayersResponse {
    pub copper_layer_count: u32,
    pub layers: Vec<i32>,
}

#[derive(Clone, Copy, Debug, PartialEq, Eq, Default, Structural)]
pub struct NetClassSchematicSettings {
    pub line_style: i32,
}

#[derive(Clone, Debug, PartialEq, Eq, Default)]
pub struct NetClassBoardSettings {
    pub clearance: Option<Distance>,
    pub track_width: Option<Distance>,
    pub diff_pair_track_width: Option<Distance>,
    pub diff_pair_gap: Option<Distance>,
    pub diff_pair_via_gap: Option<Distance>,
    pub via_stack: Option<PadStack>,
    pub microvia_stack: Option<PadStack>,
    pub color: Option<Color>,
    pub tuning_profile: Option<String>,
}

#[derive(Clone, Debug, PartialEq, Eq, Default)]
pub struct NetClass {
    pub name: String,
    pub priority: Option<i32>,
    pub board: Option<NetClassBoardSettings>,
    pub schematic: Option<NetClassSchematicSettings>,
    pub class_type: i32,
    pub constituents: Vec<String>,
}

/// One entry of the `classes` map of a `NetClassForNetsResponse`.
#[derive(Clone, Debug, PartialEq, Eq, Default)]
pub struct NetClassForNet {
    pub net_name: String,
    pub net_class: NetClass,
}

#[derive(Clone, Debug, PartialEq, Eq, Default)]
pub struct NetClassForNetsResponse {
    pub classes: Vec<NetClassForNet>,
}

// ---------------------------------------------------------------------------
// Commands and responses.
// ---------------------------------------------------------------------------
#[derive(Clone, Debug, PartialEq, Eq, Default)]
pub struct GetItemsByNet {
    pub header: Option<ItemHeader>,
    pub types: Vec<i32>,
    pub nets: Vec<Net>,
}

#[derive(Clone, Debug, PartialEq, Eq, Default)]
pub struct GetConnectedItems {
    pub header: Option<ItemHeader>,
    pub items: Vec<Kiid>,
    pub types: Vec<i32>,
}

#[derive(Clone, Debug, PartialEq, Eq, Default)]
pub struct GetItemsByNetClass {
    pub header: Option<ItemHeader>,
    pub types: Vec<i32>,
    pub net_classes: Vec<String>,
}

#[derive(Clone, Debug, PartialEq, Eq, Default)]
pub struct GetNetClassForNets {
    pub net: Vec<Net>,
}

#[derive(Clone, Debug, PartialEq, Eq, Default)]
pub struct GetItems {
    pub header: Option<ItemHeader>,
    pub types: Vec<i32>,
}

#[derive(Debug, PartialEq, Eq, Default)]
pub struct GetItemsResponse {
    pub status: i32,
    pub items: Vec<Any>,
}

#[derive(Debug, PartialEq, Eq, Default)]
pub struct CreateItems {
    pub header: Option<ItemHeader>,
    pub items: Vec<Any>,
    pub container: Option<Kiid>,
}

#[derive(Debug, PartialEq, Eq, Default)]
pub struct ItemCreationResult {
    pub status: Option<ItemStatus>,
    pub item: Option<Any>,
}

#[derive(Debug, PartialEq, Eq, Default)]
pub struct CreateItemsResponse {
    pub status: i32,
    pub created_items: Vec<ItemCreationResult>,
}

#[derive(Debug, PartialEq, Eq, Default)]
pub struct UpdateItems {
    pub header: Option<ItemHeader>,
    pub items: Vec<Any>,
}

#[derive(Debug, PartialEq, Eq, Default)]
pub struct ItemUpdateResult {
    pub status: Option<ItemStatus>,
    pub item: Option<Any>,
}

#[derive(Debug, PartialEq, Eq, Default)]
pub struct UpdateItemsResponse {
    pub status: i32,
    pub updated_items: Vec<ItemUpdateResult>,
}

#[derive(Clone, Debug, PartialEq, Eq, Default)]
pub struct DeleteItems {
    pub header: Option<ItemHeader>,
    pub item_ids: Vec<Kiid>,
}

#[derive(Clone, Debug, PartialEq, Eq, Default)]
pub struct ParseAndCreateItemsFromString {
    pub document: Option<DocumentSpecifier>,
    pub contents: String,
}

#[derive(Clone, Debug, PartialEq, Eq, Default)]
pub struct EndCommit {
    pub id: Option<Kiid>,
    pub action: i32,
    pub message: String,
}

#[derive(Clone, Debug, PartialEq, Eq, Default)]
pub struct GetBoardLayerName {
    pub board: Option<DocumentSpecifier>,
    pub layer: i32,
}

#[derive(Clone, Debug, PartialEq, Eq, Default)]
pub struct BeginCommitResponse {
    pub id: Option<Kiid>,
}

#[derive(Clone, Debug, PartialEq, Eq, Default)]
pub struct ItemStatus {
    pub code: i32,
    pub error_message: String,
}

#[derive(Clone, Debug, PartialEq, Eq, Default)]
pub struct ItemDeletionResult {
    pub id: Option<Kiid>,
    pub status: i32,
}

#[derive(Clone, Debug, PartialEq, Eq, Default)]
pub struct DeleteItemsResponse {
    pub status: i32,
    pub deleted_items: Vec<ItemDeletionResult>,
}

#[derive(Clone, Debug, PartialEq, Eq)]
pub enum TextOrTextBoxInner {
    Text(Text),
    Textbox(TextBox),
}

#[derive(Clone, Debug, PartialEq, Eq, Default)]
pub struct TextOrTextBox {
    pub inner: Option<TextOrTextBoxInner>,
}

#[derive(Clone, Debug, PartialEq, Eq, Default)]
pub struct CompoundShape {
    pub shapes: Vec<GraphicShape>,
}

#[derive(Clone, Debug, PartialEq, Eq, Default)]
pub struct TextWithShapes {
    pub text: Option<TextOrTextBox>,
    pub shapes: Option<CompoundShape>,
}

#[derive(Clone, Debug, PartialEq, Eq, Default)]
pub struct ApiResponseHeader {
    pub kicad_token: String,
}

#[derive(Clone, Debug, PartialEq, Eq, Default)]
pub struct ApiResponseStatus {
    pub status: i32,
    pub error_message: String,
}

#[derive(Debug, PartialEq, Eq, Default)]
pub struct ApiResponse {
    pub header: Option<ApiResponseHeader>,
    pub status: Option<ApiResponseStatus>,
    pub message: Option<Any>,
}

} // verus!
