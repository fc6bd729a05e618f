//! Board-level models: nets, layers, items and editor settings.

use vstd::prelude::*;
use crate::model::common::{TextAttributesSpec, TextSpec};
use crate::proto::{F64Bits, BL_F_SILKS};
use crate::proto_enums::{board_layer_name, board_layer_name_spec};
use crate::model::layer_names::{
    canonical_layer_text, lemma_canonical_distinct, lemma_canonical_scan, lemma_layer_literal,
    lemma_no_proto_name, plain_layer_name,
};
use crate::text::{
    all_digits, all_whitespace, chars_of, chars_start_with, decimal_between, int_decimal, is_digit,
    lemma_trim_padded, owned, parse_i32, parse_i32_spec, push_char, push_str, seq_starts_with,
    str_eq, string_from_chars, trim_chars, trim_seq,
};

verus! {

/// KiCad net descriptor.
#[derive(Clone, Debug, PartialEq, Eq)]
pub struct BoardNet {
    /// Numeric net code (legacy identifier in KiCad 10.0.1+ APIs).
    pub code: i32,
    /// Net name (authoritative identifier for KiCad 10.0.1+ net queries).
    pub name: String,
}

/// Board layer descriptor.
#[derive(Clone, Debug, PartialEq, Eq)]
pub struct BoardLayerInfo {
    /// KiCad layer id.
    pub id: i32,
    /// Human-readable layer name.
    pub name: String,
}

/// `s` with every `_` replaced by `.`.
pub open spec fn underscores_to_dots(s: Seq<char>) -> Seq<char> {
    Seq::new(
        s.len(),
        |i: int|
            if s[i] == '_' {
                '.'
            } else {
                s[i]
            },
    )
}

/// The canonical file/UI name that a `BoardLayer` enum name stands for:
/// the name without its `BL_` prefix, with `_` written as `.`; `None` for
/// the placeholder layers.
pub open spec fn canonical_from_proto_name(name: Seq<char>) -> Option<Seq<char>> {
    if name == "BL_UNKNOWN"@ || name == "BL_UNDEFINED"@ || name == "BL_UNSELECTED"@ {
        None
    } else if seq_starts_with(name, "BL_"@) {
        Some(underscores_to_dots(name.skip(3)))
    } else {
        None
    }
}

/// The canonical name of the layer with id `id`, if it has one.
pub open spec fn canonical_layer_name(id: i32) -> Option<Seq<char>> {
    match board_layer_name_spec(id) {
        Some(name) => canonical_from_proto_name(name),
        None => None,
    }
}

/// The first layer id in `from..=128` whose `BoardLayer` enum name is `name`.
pub open spec fn first_layer_with_proto_name(name: Seq<char>, from: int) -> Option<i32>
    decreases 129 - from,
{
    if from > 128 || from < 0 {
        None
    } else if board_layer_name_spec(from as i32) == Some(name) {
        Some(from as i32)
    } else {
        first_layer_with_proto_name(name, from + 1)
    }
}

/// The first layer id in `from..=128` whose canonical name is `name`.
pub open spec fn first_layer_with_canonical_name(name: Seq<char>, from: int) -> Option<i32>
    decreases 129 - from,
{
    if from > 128 || from < 0 {
        None
    } else if canonical_layer_name(from as i32) == Some(name) {
        Some(from as i32)
    } else {
        first_layer_with_canonical_name(name, from + 1)
    }
}

/// What [`BoardLayerInfo::id_from_name`] resolves: after trimming, a decimal
/// id that the `BoardLayer` enumeration defines, else a `BoardLayer` enum
/// name, else a canonical layer name.
pub open spec fn layer_id_from_name_spec(value: Seq<char>) -> Option<i32> {
    let trimmed = trim_seq(value);
    match parse_i32_spec(trimmed) {
        Some(id) => if board_layer_name_spec(id) is Some {
            Some(id)
        } else {
            None
        },
        None => match first_layer_with_proto_name(trimmed, 0) {
            Some(id) => Some(id),
            None => first_layer_with_canonical_name(trimmed, 0),
        },
    }
}

fn replace_underscores(s: &[char], from: usize) -> (r: String)
    requires
        from <= s@.len(),
    ensures
        r@ == underscores_to_dots(s@.skip(from as int)),
{
    let mut r = String::new();
    let n = s.len();
    let mut i = from;
    while i < n
        invariant
            n == s@.len(),
            from <= i <= n,
            r@ == underscores_to_dots(s@.skip(from as int)).take(i - from),
        decreases n - i,
    {
        let c = if s[i] == '_' {
            '.'
        } else {
            s[i]
        };
        push_char(&mut r, c);
        assert(underscores_to_dots(s@.skip(from as int)).take(i + 1 - from) =~= underscores_to_dots(
            s@.skip(from as int),
        ).take(i - from).push(c));
        i = i + 1;
    }
    assert(underscores_to_dots(s@.skip(from as int)).take(n - from) =~= underscores_to_dots(
        s@.skip(from as int),
    ));
    r
}

fn canonical_from_name(name: &str) -> (r: Option<String>)
    ensures
        match r {
            Some(s) => canonical_from_proto_name(name@) == Some(s@),
            None => canonical_from_proto_name(name@) is None,
        },
{
    if str_eq(name, "BL_UNKNOWN") || str_eq(name, "BL_UNDEFINED") || str_eq(name, "BL_UNSELECTED") {
        return None;
    }
    let chars = chars_of(name);
    let prefix = chars_of("BL_");
    if chars_start_with(chars.as_slice(), prefix.as_slice()) {
        proof {
            reveal_strlit("BL_");
        }
        Some(replace_underscores(chars.as_slice(), 3))
    } else {
        None
    }
}

/// Reading a layer's canonical name back gives the layer: for every layer id
/// with a canonical name, [`BoardLayerInfo::id_from_name`] of that name, with
/// or without whitespace around it, is the id.
pub proof fn lemma_canonical_name_reads_back(id: i32, pre: Seq<char>, post: Seq<char>)
    requires
        0 <= id <= 128,
        canonical_layer_name(id) is Some,
        all_whitespace(pre),
        all_whitespace(post),
    ensures
        layer_id_from_name_spec(pre + canonical_layer_name(id)->0 + post) == Some(id),
{
    lemma_layer_literal(id);
    let n = canonical_layer_name(id)->0;
    assert(plain_layer_name(n));
    lemma_trim_padded(pre, n, post);
    assert(!all_digits(n)) by {
        assert(!is_digit(n[0]));
    }
    assert(parse_i32_spec(n) is None);
    lemma_no_proto_name(n, 0);
    assert forall|j: i32| 0 <= j < id implies #[trigger] canonical_layer_name(j) != Some(n) by {
        lemma_layer_literal(j);
        if canonical_layer_text(j) is Some {
            lemma_canonical_distinct(j, id);
        }
    }
    lemma_canonical_scan(n, 0, id);
}

impl BoardLayerInfo {
    /// Returns KiCad's canonical file/UI layer name for a layer id.
    ///
    /// Examples include `F.Cu`, `B.Cu`, `F.SilkS`, and `Edge.Cuts`.
    pub fn canonical_name_for_id(id: i32) -> (r: Option<String>)
        ensures
            match r {
                Some(s) => canonical_layer_name(id) == Some(s@),
                None => canonical_layer_name(id) is None,
            },
    {
        match board_layer_name(id) {
            Some(name) => canonical_from_name(name),
            None => None,
        }
    }

    /// Resolves a canonical KiCad layer name, proto enum name, or numeric id.
    ///
    /// Accepts values like `F.SilkS`, `BL_F_SilkS`, and `40`.
    pub fn id_from_name(value: &str) -> (r: Option<i32>)
        ensures
            r == layer_id_from_name_spec(value@),
    {
        let chars = chars_of(value);
        let trimmed = trim_chars(chars.as_slice());
        let ghost t = trimmed@;
        match parse_i32(trimmed.as_slice()) {
            Some(id) => {
                return if board_layer_name(id).is_some() {
                    Some(id)
                } else {
                    None
                };
            },
            None => {},
        }
        let text = string_from_chars(trimmed.as_slice());
        let mut id: i32 = 0;
        while id <= 128
            invariant
                0 <= id <= 129,
                text@ == t,
                t == trim_seq(value@),
                parse_i32_spec(t) is None,
                first_layer_with_proto_name(t, 0) == first_layer_with_proto_name(t, id as int),
            decreases 129 - id,
        {
            match board_layer_name(id) {
                Some(name) => {
                    if str_eq(name, text.as_str()) {
                        return Some(id);
                    }
                },
                None => {},
            }
            id = id + 1;
        }
        let mut id: i32 = 0;
        while id <= 128
            invariant
                0 <= id <= 129,
                text@ == t,
                t == trim_seq(value@),
                parse_i32_spec(t) is None,
                first_layer_with_proto_name(t, 0) is None,
                first_layer_with_canonical_name(t, 0) == first_layer_with_canonical_name(
                    t,
                    id as int,
                ),
            decreases 129 - id,
        {
            match Self::canonical_name_for_id(id) {
                Some(name) => {
                    if str_eq(name.as_str(), text.as_str()) {
                        return Some(id);
                    }
                },
                None => {},
            }
            id = id + 1;
        }
        None
    }
}

/// Enabled layer set for a board.
#[derive(Clone, Debug, PartialEq, Eq)]
pub struct BoardEnabledLayers {
    /// Number of copper layers configured in the board stack.
    pub copper_layer_count: u32,
    /// Enabled board layers.
    pub layers: Vec<BoardLayerInfo>,
}

/// Board origin kind.
#[derive(Clone, Copy, Debug, PartialEq, Eq, Structural)]
pub enum BoardOriginKind {
    /// Grid origin.
    Grid,
    /// Drill/place origin.
    Drill,
}

/// The board origin kind that a text names.
pub open spec fn board_origin_kind_from_text(value: Seq<char>) -> Option<BoardOriginKind> {
    if value == "grid"@ {
        Some(BoardOriginKind::Grid)
    } else if value == "drill"@ {
        Some(BoardOriginKind::Drill)
    } else {
        None
    }
}

/// The message for a text that names no board origin kind.
pub open spec fn board_origin_kind_parse_error(value: Seq<char>) -> Seq<char> {
    "unknown board origin kind `"@ + value + "`; expected `grid` or `drill`"@
}

/// The text that names a board origin kind.
pub open spec fn board_origin_kind_text(kind: BoardOriginKind) -> Seq<char> {
    match kind {
        BoardOriginKind::Grid => "grid"@,
        BoardOriginKind::Drill => "drill"@,
    }
}

/// `prefix`, `value`, then `suffix`, as one string.
pub fn message_with(prefix: &str, value: &str, suffix: &str) -> (r: String)
    ensures
        r@ == prefix@ + value@ + suffix@,
{
    let mut r = owned(prefix);
    push_str(&mut r, value);
    push_str(&mut r, suffix);
    r
}

impl BoardOriginKind {
    /// Parses `grid` or `drill`.
    pub fn parse(value: &str) -> (r: Result<Self, String>)
        ensures
            match r {
                Ok(kind) => board_origin_kind_from_text(value@) == Some(kind),
                Err(message) => board_origin_kind_from_text(value@) is None && message@ == board_origin_kind_parse_error(value@),
            },
    {
        if str_eq(value, "grid") {
            Ok(BoardOriginKind::Grid)
        } else if str_eq(value, "drill") {
            Ok(BoardOriginKind::Drill)
        } else {
            Err(
                message_with(
                    "unknown board origin kind `",
                    value,
                    "`; expected `grid` or `drill`",
                ),
            )
        }
    }

    /// The text this kind displays as.
    pub fn as_str(&self) -> (r: &'static str)
        ensures
            r@ == board_origin_kind_text(*self),
    {
        match self {
            BoardOriginKind::Grid => "grid",
            BoardOriginKind::Drill => "drill",
        }
    }
}

impl std::str::FromStr for BoardOriginKind {
    type Err = String;

    fn from_str(value: &str) -> (r: Result<Self, Self::Err>)
        ensures
            match r {
                Ok(kind) => board_origin_kind_from_text(value@) == Some(kind),
                Err(message) => board_origin_kind_from_text(value@) is None && message@
                    == board_origin_kind_parse_error(value@),
            },
    {
        Self::parse(value)
    }
}

/// 2D coordinate in nanometer units.
#[derive(Clone, Copy, Debug, PartialEq, Eq, Structural)]
pub struct Vector2Nm {
    /// X coordinate in nm.
    pub x_nm: i64,
    /// Y coordinate in nm.
    pub y_nm: i64,
}

/// Pad-to-net lookup row derived from footprint items.
#[derive(Clone, Debug, PartialEq, Eq)]
pub struct PadNetEntry {
    /// Footprint reference (e.g. `U1`) when available.
    pub footprint_reference: Option<String>,
    /// Footprint id when available.
    pub footprint_id: Option<String>,
    /// Pad item id when available.
    pub pad_id: Option<String>,
    /// Pad number/text as shown in KiCad.
    pub pad_number: String,
    /// Net code when connected.
    pub net_code: Option<i32>,
    /// Net name when connected.
    pub net_name: Option<String>,
}

/// Arc geometry in nanometer units.
#[derive(Clone, Copy, Debug, PartialEq, Eq, Structural)]
pub struct ArcStartMidEndNm {
    /// Arc start point.
    pub start: Vector2Nm,
    /// Arc midpoint.
    pub mid: Vector2Nm,
    /// Arc end point.
    pub end: Vector2Nm,
}

/// Polyline node geometry.
#[derive(Clone, Copy, Debug, PartialEq, Eq, Structural)]
pub enum PolyLineNodeGeometryNm {
    /// Straight segment point.
    Point(Vector2Nm),
    /// Arc segment node.
    Arc(ArcStartMidEndNm),
}

/// Polyline geometry.
#[derive(Clone, Debug, PartialEq, Eq)]
pub struct PolyLineNm {
    /// Ordered geometry nodes.
    pub nodes: Vec<PolyLineNodeGeometryNm>,
    /// Whether last node closes back to first.
    pub closed: bool,
}

/// Polygon with optional interior holes.
#[derive(Clone, Debug, PartialEq, Eq)]
pub struct PolygonWithHolesNm {
    /// Outer outline polygon.
    pub outline: Option<PolyLineNm>,
    /// Interior holes.
    pub holes: Vec<PolyLineNm>,
}

#[derive(Clone, Debug, PartialEq, Eq)]
pub struct PadShapeAsPolygonEntry {
    pub pad_id: String,
    pub layer_id: i32,
    pub layer_name: String,
    pub polygon: PolygonWithHolesNm,
}

#[derive(Clone, Debug, PartialEq, Eq)]
pub struct PadstackPresenceEntry {
    pub item_id: String,
    pub layer_id: i32,
    pub layer_name: String,
    pub presence: PadstackPresenceState,
}

#[derive(Clone, Copy, Debug, PartialEq, Eq, Structural)]
pub enum PadstackPresenceState {
    Present,
    NotPresent,
    Unknown(i32),
}

/// The text a padstack presence state displays as.
pub open spec fn padstack_presence_text(state: PadstackPresenceState) -> Seq<char> {
    match state {
        PadstackPresenceState::Present => "PSP_PRESENT"@,
        PadstackPresenceState::NotPresent => "PSP_NOT_PRESENT"@,
        PadstackPresenceState::Unknown(value) => "UNKNOWN("@ + int_decimal(value as int) + ")"@,
    }
}

impl PadstackPresenceState {
    /// The text this state displays as.
    pub fn display_string(&self) -> (r: String)
        ensures
            r@ == padstack_presence_text(*self),
    {
        match self {
            PadstackPresenceState::Present => owned("PSP_PRESENT"),
            PadstackPresenceState::NotPresent => owned("PSP_NOT_PRESENT"),
            PadstackPresenceState::Unknown(value) => decimal_between("UNKNOWN(", *value as i64, ")"),
        }
    }
}

/// RGBA colour; each channel is an `f64` carried by its bit pattern.
#[derive(Clone, Copy, Debug, PartialEq, Eq, Structural)]
pub struct ColorRgba {
    pub r: F64Bits,
    pub g: F64Bits,
    pub b: F64Bits,
    pub a: F64Bits,
}

#[derive(Clone, Copy, Debug, PartialEq, Eq, Structural)]
pub enum BoardStackupLayerType {
    Copper,
    Dielectric,
    Silkscreen,
    SolderMask,
    SolderPaste,
    Undefined,
    Unknown(i32),
}

#[derive(Clone, Debug, PartialEq, Eq)]
pub struct BoardStackupDielectricProperties {
    pub epsilon_r: F64Bits,
    pub loss_tangent: F64Bits,
    pub material_name: String,
    pub thickness_nm: Option<i64>,
}

#[derive(Clone, Debug, PartialEq, Eq)]
pub struct BoardStackupLayer {
    pub layer: BoardLayerInfo,
    pub user_name: String,
    pub material_name: String,
    pub enabled: bool,
    pub thickness_nm: Option<i64>,
    pub layer_type: BoardStackupLayerType,
    pub color: Option<ColorRgba>,
    pub dielectric_layers: Vec<BoardStackupDielectricProperties>,
}

#[derive(Clone, Debug, PartialEq, Eq)]
pub struct BoardStackup {
    pub finish_type_name: String,
    pub impedance_controlled: bool,
    pub edge_has_connector: bool,
    pub edge_has_castellated_pads: bool,
    pub edge_has_edge_plating: bool,
    pub layers: Vec<BoardStackupLayer>,
}

#[derive(Clone, Copy, Debug, PartialEq, Eq, Structural)]
pub enum BoardLayerClass {
    Silkscreen,
    Copper,
    Edges,
    Courtyard,
    Fabrication,
    Other,
    Unknown(i32),
}

#[derive(Clone, Debug, PartialEq, Eq)]
pub struct BoardLayerGraphicsDefault {
    pub layer_class: BoardLayerClass,
    pub line_thickness_nm: Option<i64>,
    pub text_font_name: Option<String>,
    pub text_size_nm: Option<Vector2Nm>,
    pub text_stroke_width_nm: Option<i64>,
}

#[derive(Clone, Debug, PartialEq, Eq)]
pub struct GraphicsDefaults {
    pub layers: Vec<BoardLayerGraphicsDefault>,
}

#[derive(Clone, Copy, Debug, PartialEq, Eq, Structural)]
pub enum InactiveLayerDisplayMode {
    Normal,
    Dimmed,
    Hidden,
    Unknown(i32),
}

#[derive(Clone, Copy, Debug, PartialEq, Eq, Structural)]
pub enum NetColorDisplayMode {
    All,
    Ratsnest,
    Off,
    Unknown(i32),
}

#[derive(Clone, Copy, Debug, PartialEq, Eq, Structural)]
pub enum BoardFlipMode {
    Normal,
    FlippedX,
    Unknown(i32),
}

#[derive(Clone, Copy, Debug, PartialEq, Eq, Structural)]
pub enum RatsnestDisplayMode {
    AllLayers,
    VisibleLayers,
    Unknown(i32),
}

#[derive(Clone, Copy, Debug, PartialEq, Eq, Structural)]
pub enum DrcSeverity {
    Warning,
    Error,
    Exclusion,
    Ignore,
    Info,
    Action,
    Debug,
    Undefined,
}

/// The text a DRC severity displays as, and parses from.
pub open spec fn drc_severity_text(value: DrcSeverity) -> Seq<char> {
    match value {
        DrcSeverity::Warning => "warning"@,
        DrcSeverity::Error => "error"@,
        DrcSeverity::Exclusion => "exclusion"@,
        DrcSeverity::Ignore => "ignore"@,
        DrcSeverity::Info => "info"@,
        DrcSeverity::Action => "action"@,
        DrcSeverity::Debug => "debug"@,
        DrcSeverity::Undefined => "undefined"@,
    }
}

/// The DRC severity that a text names.
pub open spec fn drc_severity_from_text(value: Seq<char>) -> Option<DrcSeverity> {
    if value == "warning"@ {
        Some(DrcSeverity::Warning)
    } else if value == "error"@ {
        Some(DrcSeverity::Error)
    } else if value == "exclusion"@ {
        Some(DrcSeverity::Exclusion)
    } else if value == "ignore"@ {
        Some(DrcSeverity::Ignore)
    } else if value == "info"@ {
        Some(DrcSeverity::Info)
    } else if value == "action"@ {
        Some(DrcSeverity::Action)
    } else if value == "debug"@ {
        Some(DrcSeverity::Debug)
    } else if value == "undefined"@ {
        Some(DrcSeverity::Undefined)
    } else {
        None
    }
}

/// The message for a text that names no DRC severity.
pub open spec fn drc_severity_parse_error(value: Seq<char>) -> Seq<char> {
    "unknown drc severity `"@ + value + "`; expected warning, error, exclusion, ignore, info, action, debug, or undefined"@
}

impl DrcSeverity {
    /// The text this severity displays as.
    pub fn as_str(&self) -> (r: &'static str)
        ensures
            r@ == drc_severity_text(*self),
    {
        match self {
            DrcSeverity::Warning => "warning",
            DrcSeverity::Error => "error",
            DrcSeverity::Exclusion => "exclusion",
            DrcSeverity::Ignore => "ignore",
            DrcSeverity::Info => "info",
            DrcSeverity::Action => "action",
            DrcSeverity::Debug => "debug",
            DrcSeverity::Undefined => "undefined",
        }
    }

    /// Parses a DRC severity from its display text.
    pub fn parse(value: &str) -> (r: Result<Self, String>)
        ensures
            match r {
                Ok(severity) => drc_severity_from_text(value@) == Some(severity),
                Err(message) => drc_severity_from_text(value@) is None && message@ == drc_severity_parse_error(value@),
            },
    {
        if str_eq(value, "warning") {
            Ok(DrcSeverity::Warning)
        } else if str_eq(value, "error") {
            Ok(DrcSeverity::Error)
        } else if str_eq(value, "exclusion") {
            Ok(DrcSeverity::Exclusion)
        } else if str_eq(value, "ignore") {
            Ok(DrcSeverity::Ignore)
        } else if str_eq(value, "info") {
            Ok(DrcSeverity::Info)
        } else if str_eq(value, "action") {
            Ok(DrcSeverity::Action)
        } else if str_eq(value, "debug") {
            Ok(DrcSeverity::Debug)
        } else if str_eq(value, "undefined") {
            Ok(DrcSeverity::Undefined)
        } else {
            Err(
                message_with(
                    "unknown drc severity `",
                    value,
                    "`; expected warning, error, exclusion, ignore, info, action, debug, or undefined",
                ),
            )
        }
    }
}

impl std::str::FromStr for DrcSeverity {
    type Err = String;

    fn from_str(value: &str) -> (r: Result<Self, Self::Err>)
        ensures
            match r {
                Ok(severity) => drc_severity_from_text(value@) == Some(severity),
                Err(message) => drc_severity_from_text(value@) is None && message@ == drc_severity_parse_error(value@),
            },
    {
        Self::parse(value)
    }
}

#[derive(Clone, Copy, Debug, PartialEq, Eq, Structural)]
pub struct BoardEditorAppearanceSettings {
    pub inactive_layer_display: InactiveLayerDisplayMode,
    pub net_color_display: NetColorDisplayMode,
    pub board_flip: BoardFlipMode,
    pub ratsnest_display: RatsnestDisplayMode,
}

#[derive(Clone, Copy, Debug, PartialEq, Eq, Structural)]
pub enum NetClassType {
    Explicit,
    Implicit,
    Unknown(i32),
}

#[derive(Clone, Debug, PartialEq, Eq)]
pub struct NetClassBoardSettings {
    pub clearance_nm: Option<i64>,
    pub track_width_nm: Option<i64>,
    pub diff_pair_track_width_nm: Option<i64>,
    pub diff_pair_gap_nm: Option<i64>,
    pub diff_pair_via_gap_nm: Option<i64>,
    pub color: Option<ColorRgba>,
    pub tuning_profile: Option<String>,
    pub has_via_stack: bool,
    pub has_microvia_stack: bool,
}

#[derive(Clone, Debug, PartialEq, Eq)]
pub struct NetClassInfo {
    pub name: String,
    pub priority: Option<i32>,
    pub class_type: NetClassType,
    pub constituents: Vec<String>,
    pub board: Option<NetClassBoardSettings>,
}

#[derive(Clone, Debug, PartialEq, Eq)]
pub struct NetClassForNetEntry {
    pub net_name: String,
    pub net_class: NetClassInfo,
}

#[derive(Clone, Copy, Debug, PartialEq, Eq, Structural)]
pub enum PcbViaType {
    Through,
    BlindBuried,
    Micro,
    Blind,
    Buried,
    Unknown(i32),
}

#[derive(Clone, Debug, PartialEq, Eq)]
pub struct PcbViaLayers {
    pub padstack_layers: Vec<BoardLayerInfo>,
    pub drill_start_layer: Option<BoardLayerInfo>,
    pub drill_end_layer: Option<BoardLayerInfo>,
}

#[derive(Clone, Copy, Debug, PartialEq, Eq, Structural)]
pub enum PcbPadType {
    Pth,
    Smd,
    EdgeConnector,
    Npth,
    Unknown(i32),
}

#[derive(Clone, Copy, Debug, PartialEq, Eq, Structural)]
pub enum PcbZoneType {
    Copper,
    Graphical,
    RuleArea,
    Teardrop,
    Unknown(i32),
}

#[derive(Clone, Copy, Debug, PartialEq, Eq, Structural)]
pub enum ItemLockState {
    Unlocked,
    Locked,
    Unknown(i32),
}

impl ItemLockState {
    /// Returns true when this lock state is locked.
    pub fn is_locked(self) -> (r: bool)
        ensures
            r == (self == ItemLockState::Locked),
    {
        match self {
            ItemLockState::Locked => true,
            _ => false,
        }
    }
}

/// Specification for creating a board text item through `CreateItems`.
///
/// This mirrors the official `kicad-python` `BoardText` wrapper: leave `id`
/// unset to let KiCad assign the KIID in the create response.
#[derive(Clone, Debug, PartialEq, Eq)]
pub struct BoardTextSpec {
    /// Optional KIID to request. Leave `None` for KiCad-assigned IDs.
    pub id: Option<String>,
    /// Text payload, position, attributes, and hyperlink.
    pub text: TextSpec,
    /// KiCad board layer id, for example `40` for `F.SilkS`.
    pub layer_id: i32,
    /// Whether to enable knockout rendering.
    pub knockout: bool,
    /// Requested item lock state.
    pub locked: ItemLockState,
}

impl BoardTextSpec {
    /// Creates a board text specification on the given layer.
    pub fn new(
        text: &str,
        position_nm: Vector2Nm,
        layer_id: i32,
        attributes: Option<TextAttributesSpec>,
    ) -> (r: Self)
        ensures
            r.id is None,
            r.text.text@ == text@,
            r.text.position_nm == Some(position_nm),
            r.text.attributes == attributes,
            r.text.hyperlink is None,
            r.layer_id == layer_id,
            !r.knockout,
            r.locked == ItemLockState::Unlocked,
    {
        BoardTextSpec {
            id: None,
            text: TextSpec {
                text: owned(text),
                position_nm: Some(position_nm),
                attributes,
                hyperlink: None,
            },
            layer_id,
            knockout: false,
            locked: ItemLockState::Unlocked,
        }
    }

    /// Creates a board text specification on the front silkscreen layer.
    pub fn front_silkscreen(
        text: &str,
        position_nm: Vector2Nm,
        attributes: Option<TextAttributesSpec>,
    ) -> (r: Self)
        ensures
            r.id is None,
            r.text.text@ == text@,
            r.text.position_nm == Some(position_nm),
            r.text.attributes == attributes,
            r.text.hyperlink is None,
            r.layer_id == BL_F_SILKS,
            !r.knockout,
            r.locked == ItemLockState::Unlocked,
    {
        Self::new(text, position_nm, BL_F_SILKS, attributes)
    }
}

#[derive(Clone, Debug, PartialEq, Eq)]
pub struct PcbPadstackDrill {
    pub start_layer: BoardLayerInfo,
    pub end_layer: BoardLayerInfo,
    pub diameter_nm: Option<Vector2Nm>,
    pub shape: Option<String>,
    pub capped: Option<String>,
    pub filled: Option<String>,
}

#[derive(Clone, Debug, PartialEq, Eq)]
pub struct PcbPadStack {
    pub stack_type: Option<String>,
    pub layers: Vec<BoardLayerInfo>,
    pub drill: Option<PcbPadstackDrill>,
    pub unconnected_layer_removal: Option<String>,
    pub copper_layer_count: usize,
    pub has_front_outer_layers: bool,
    pub has_back_outer_layers: bool,
    pub has_zone_settings: bool,
    pub secondary_drill: Option<PcbPadstackDrill>,
    pub tertiary_drill: Option<PcbPadstackDrill>,
    pub has_front_post_machining: bool,
    pub has_back_post_machining: bool,
}

#[derive(Clone, Debug, PartialEq, Eq)]
pub struct PcbSymbolPinInfo {
    pub name: String,
    pub pin_type: Option<String>,
    pub no_connect: bool,
}

#[derive(Clone, Debug, PartialEq, Eq)]
pub struct PcbTextAttributes {
    pub font_name: Option<String>,
    pub horizontal_alignment: Option<String>,
    pub vertical_alignment: Option<String>,
    pub stroke_width_nm: Option<i64>,
    pub italic: bool,
    pub bold: bool,
    pub underlined: bool,
    pub mirrored: bool,
    pub multiline: bool,
    pub keep_upright: bool,
    pub size_nm: Option<Vector2Nm>,
}

#[derive(Clone, Copy, Debug, PartialEq, Eq, Structural)]
pub enum PcbGraphicShapeGeometry {
    Segment { start_nm: Option<Vector2Nm>, end_nm: Option<Vector2Nm> },
    Rectangle {
        top_left_nm: Option<Vector2Nm>,
        bottom_right_nm: Option<Vector2Nm>,
        corner_radius_nm: Option<i64>,
    },
    Arc { start_nm: Option<Vector2Nm>, mid_nm: Option<Vector2Nm>, end_nm: Option<Vector2Nm> },
    Circle { center_nm: Option<Vector2Nm>, radius_point_nm: Option<Vector2Nm> },
    Polygon { polygon_count: usize },
    Bezier {
        start_nm: Option<Vector2Nm>,
        control1_nm: Option<Vector2Nm>,
        control2_nm: Option<Vector2Nm>,
        end_nm: Option<Vector2Nm>,
    },
}

#[derive(Clone, Debug, PartialEq, Eq)]
pub struct PcbZoneLayerProperty {
    pub layer: BoardLayerInfo,
    pub hatching_offset_nm: Option<Vector2Nm>,
}

#[derive(Clone, Debug, PartialEq, Eq)]
pub enum PcbDimensionStyle {
    Aligned {
        start_nm: Option<Vector2Nm>,
        end_nm: Option<Vector2Nm>,
        height_nm: Option<i64>,
        extension_height_nm: Option<i64>,
    },
    Orthogonal {
        start_nm: Option<Vector2Nm>,
        end_nm: Option<Vector2Nm>,
        height_nm: Option<i64>,
        extension_height_nm: Option<i64>,
        alignment: Option<String>,
    },
    Radial {
        center_nm: Option<Vector2Nm>,
        radius_point_nm: Option<Vector2Nm>,
        leader_length_nm: Option<i64>,
    },
    Leader { start_nm: Option<Vector2Nm>, end_nm: Option<Vector2Nm>, border_style: Option<String> },
    Center { center_nm: Option<Vector2Nm>, end_nm: Option<Vector2Nm> },
}

#[derive(Clone, Debug, PartialEq, Eq)]
pub struct PcbFootprintSymbolLink {
    pub has_symbol_path: bool,
    pub sheet_name: Option<String>,
    pub sheet_filename: Option<String>,
    pub footprint_filters: Option<String>,
}

#[derive(Clone, Debug, PartialEq, Eq)]
pub struct PcbTrack {
    pub id: Option<String>,
    pub start_nm: Option<Vector2Nm>,
    pub end_nm: Option<Vector2Nm>,
    pub width_nm: Option<i64>,
    pub locked: ItemLockState,
    pub layer: BoardLayerInfo,
    pub net: Option<BoardNet>,
}

#[derive(Clone, Debug, PartialEq, Eq)]
pub struct PcbArc {
    pub id: Option<String>,
    pub start_nm: Option<Vector2Nm>,
    pub mid_nm: Option<Vector2Nm>,
    pub end_nm: Option<Vector2Nm>,
    pub width_nm: Option<i64>,
    pub locked: ItemLockState,
    pub layer: BoardLayerInfo,
    pub net: Option<BoardNet>,
}

#[derive(Clone, Debug, PartialEq, Eq)]
pub struct PcbVia {
    pub id: Option<String>,
    pub position_nm: Option<Vector2Nm>,
    pub via_type: PcbViaType,
    pub locked: ItemLockState,
    pub layers: Option<PcbViaLayers>,
    pub pad_stack: Option<PcbPadStack>,
    pub net: Option<BoardNet>,
}

/// A placed footprint; its orientation is an `f64` in degrees carried by its
/// bit pattern.
#[derive(Clone, Debug, PartialEq, Eq)]
pub struct PcbFootprint {
    pub id: Option<String>,
    pub reference: Option<String>,
    pub position_nm: Option<Vector2Nm>,
    pub orientation_deg: Option<F64Bits>,
    pub layer: BoardLayerInfo,
    pub locked: ItemLockState,
    pub value: Option<String>,
    pub datasheet: Option<String>,
    pub description: Option<String>,
    pub has_attributes: bool,
    pub has_overrides: bool,
    pub has_definition: bool,
    pub definition_item_count: usize,
    pub symbol_link: Option<PcbFootprintSymbolLink>,
    pub pad_count: usize,
}

#[derive(Clone, Debug, PartialEq, Eq)]
pub struct PcbPad {
    pub id: Option<String>,
    pub locked: ItemLockState,
    pub number: String,
    pub pad_type: PcbPadType,
    pub position_nm: Option<Vector2Nm>,
    pub pad_stack: Option<PcbPadStack>,
    pub copper_clearance_override_nm: Option<i64>,
    pub pad_to_die_length_nm: Option<i64>,
    pub pad_to_die_delay_as: Option<i64>,
    pub symbol_pin: Option<PcbSymbolPinInfo>,
    pub net: Option<BoardNet>,
}

#[derive(Clone, Debug, PartialEq, Eq)]
pub struct PcbBoardGraphicShape {
    pub id: Option<String>,
    pub layer: BoardLayerInfo,
    pub locked: ItemLockState,
    pub net: Option<BoardNet>,
    pub geometry_kind: Option<String>,
    pub geometry: Option<PcbGraphicShapeGeometry>,
    pub stroke_width_nm: Option<i64>,
    pub stroke_style: Option<String>,
    pub fill_type: Option<String>,
}

#[derive(Clone, Debug, PartialEq, Eq)]
pub struct PcbBoardText {
    pub id: Option<String>,
    pub layer: BoardLayerInfo,
    pub text: Option<String>,
    pub position_nm: Option<Vector2Nm>,
    pub hyperlink: Option<String>,
    pub attributes: Option<PcbTextAttributes>,
    pub knockout: bool,
    pub locked: ItemLockState,
}

#[derive(Clone, Debug, PartialEq, Eq)]
pub struct PcbBoardTextBox {
    pub id: Option<String>,
    pub layer: BoardLayerInfo,
    pub text: Option<String>,
    pub top_left_nm: Option<Vector2Nm>,
    pub bottom_right_nm: Option<Vector2Nm>,
    pub attributes: Option<PcbTextAttributes>,
    pub locked: ItemLockState,
}

#[derive(Clone, Debug, PartialEq, Eq)]
pub struct PcbField {
    pub name: String,
    pub visible: bool,
    pub text: Option<String>,
}

#[derive(Clone, Debug, PartialEq, Eq)]
pub struct PcbZone {
    pub id: Option<String>,
    pub name: String,
    pub zone_type: PcbZoneType,
    pub layers: Vec<BoardLayerInfo>,
    pub layer_count: usize,
    pub priority: u32,
    pub locked: ItemLockState,
    pub filled: bool,
    pub polygon_count: usize,
    pub outline_polygon_count: usize,
    pub has_copper_settings: bool,
    pub has_rule_area_settings: bool,
    pub border_style: Option<String>,
    pub border_pitch_nm: Option<i64>,
    pub layer_properties: Vec<PcbZoneLayerProperty>,
}

#[derive(Clone, Debug, PartialEq, Eq)]
pub struct PcbDimension {
    pub id: Option<String>,
    pub layer: BoardLayerInfo,
    pub locked: ItemLockState,
    pub text: Option<String>,
    pub style_kind: Option<String>,
    pub style: Option<PcbDimensionStyle>,
    pub override_text_enabled: bool,
    pub override_text: Option<String>,
    pub prefix: Option<String>,
    pub suffix: Option<String>,
    pub unit: Option<String>,
    pub unit_format: Option<String>,
    pub arrow_direction: Option<String>,
    pub precision: Option<String>,
    pub suppress_trailing_zeroes: bool,
    pub line_thickness_nm: Option<i64>,
    pub arrow_length_nm: Option<i64>,
    pub extension_offset_nm: Option<i64>,
    pub text_position: Option<String>,
    pub keep_text_aligned: bool,
}

/// A reference image; its scale is an `f64` carried by its bit pattern.
#[derive(Clone, Debug, PartialEq, Eq)]
pub struct PcbReferenceImage {
    pub id: Option<String>,
    pub layer: BoardLayerInfo,
    pub position_nm: Option<Vector2Nm>,
    pub transform_origin_offset_nm: Option<Vector2Nm>,
    pub image_scale: Option<F64Bits>,
    pub image_data_len: usize,
    pub locked: ItemLockState,
}

#[derive(Clone, Copy, Debug, PartialEq, Eq, Structural)]
pub enum PcbBarcodeKind {
    Unknown,
    Code39,
    Code128,
    DataMatrix,
    QrCode,
    MicroQrCode,
    Unrecognized(i32),
}

#[derive(Clone, Copy, Debug, PartialEq, Eq, Structural)]
pub enum PcbBarcodeErrorCorrection {
    Unknown,
    L,
    M,
    Q,
    H,
    Unrecognized(i32),
}

/// A barcode; its orientation is an `f64` in degrees carried by its bit
/// pattern.
#[derive(Clone, Debug, PartialEq, Eq)]
pub struct PcbBarcode {
    pub id: Option<String>,
    pub text: String,
    pub kind: PcbBarcodeKind,
    pub error_correction: PcbBarcodeErrorCorrection,
    pub position_nm: Option<Vector2Nm>,
    pub orientation_deg: Option<F64Bits>,
    pub layer: BoardLayerInfo,
    pub width_nm: Option<i64>,
    pub height_nm: Option<i64>,
    pub show_text: bool,
    pub text_height_nm: Option<i64>,
    pub knockout: bool,
    pub knockout_margin_nm: Option<Vector2Nm>,
    pub locked: ItemLockState,
}

#[derive(Clone, Debug, PartialEq, Eq)]
pub struct PcbGroup {
    pub id: Option<String>,
    pub name: String,
    pub item_count: usize,
    pub item_ids: Vec<String>,
}

#[derive(Clone, Debug, PartialEq, Eq)]
pub struct PcbUnknownItem {
    pub type_url: String,
    pub raw_len: usize,
}

#[derive(Clone, Debug, PartialEq, Eq)]
pub enum PcbItem {
    Track(PcbTrack),
    Arc(PcbArc),
    Via(PcbVia),
    Footprint(PcbFootprint),
    Pad(PcbPad),
    BoardGraphicShape(PcbBoardGraphicShape),
    BoardText(PcbBoardText),
    BoardTextBox(PcbBoardTextBox),
    Field(PcbField),
    Zone(PcbZone),
    Dimension(PcbDimension),
    ReferenceImage(PcbReferenceImage),
    Barcode(PcbBarcode),
    Group(PcbGroup),
    Unknown(PcbUnknownItem),
}

} // verus!
