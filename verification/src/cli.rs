//! The command-line tool's own logic: its settings, the parsers of its
//! option values, hex payloads, and the summaries it prints.

use vstd::prelude::*;
use vstd::utf8::{encode_utf8, is_ascii_chars, is_ascii_chars_encode_utf8};
use crate::error::KiCadError;
use crate::model::board::{
    message_with, BoardFlipMode, BoardLayerInfo, DrcSeverity, InactiveLayerDisplayMode,
    NetColorDisplayMode, PolyLineNodeGeometryNm, PolyLineNm, PolygonWithHolesNm,
    RatsnestDisplayMode, drc_severity_from_text, drc_severity_parse_error,
};
use crate::text::{copy_string, owned, push_char, push_str, str_eq, strings_view};

verus! {

// ---------------------------------------------------------------------------
// Settings.
// ---------------------------------------------------------------------------
/// The command-line tool's connection settings.
#[derive(Clone, Debug, PartialEq, Eq)]
pub struct CliConfig {
    pub socket: Option<String>,
    pub token: Option<String>,
    pub client_name: Option<String>,
    pub timeout_ms: u64,
}

/// The tool's per-request timeout when none is given, in milliseconds.
pub const CLI_DEFAULT_TIMEOUT_MS: u64 = 15000;

/// The tool's settings when no option is given: no socket, token or client
/// name, and a timeout of fifteen seconds.
pub fn default_config() -> (r: CliConfig)
    ensures
        r.socket is None,
        r.token is None,
        r.client_name is None,
        r.timeout_ms == CLI_DEFAULT_TIMEOUT_MS,
{
    CliConfig { socket: None, token: None, client_name: None, timeout_ms: CLI_DEFAULT_TIMEOUT_MS }
}

// ---------------------------------------------------------------------------
// Option values.
// ---------------------------------------------------------------------------
/// The value that the option text `value` names.
pub open spec fn inactive_layer_display_from_text(value: Seq<char>) -> Option<InactiveLayerDisplayMode> {
    if value == "normal"@ {
        Some(InactiveLayerDisplayMode::Normal)
    } else if value == "dimmed"@ {
        Some(InactiveLayerDisplayMode::Dimmed)
    } else if value == "hidden"@ {
        Some(InactiveLayerDisplayMode::Hidden)
    } else {
        None
    }
}

/// The message for a text that names no inactive layer display.
pub open spec fn inactive_layer_display_parse_error(value: Seq<char>) -> Seq<char> {
    "unknown inactive layer display `"@ + value + "`; expected normal, dimmed, or hidden"@
}

/// Parses `normal`, `dimmed` or `hidden`.
pub fn parse_inactive_layer_display_mode(value: &str) -> (r: Result<InactiveLayerDisplayMode, String>)
    ensures
        match r {
            Ok(m) => inactive_layer_display_from_text(value@) == Some(m),
            Err(message) => inactive_layer_display_from_text(value@) is None && message@ == inactive_layer_display_parse_error(value@),
        },
{
    if str_eq(value, "normal") {
        Ok(InactiveLayerDisplayMode::Normal)
    } else if str_eq(value, "dimmed") {
        Ok(InactiveLayerDisplayMode::Dimmed)
    } else if str_eq(value, "hidden") {
        Ok(InactiveLayerDisplayMode::Hidden)
    } else {
        Err(
            message_with(
                "unknown inactive layer display `",
                value,
                "`; expected normal, dimmed, or hidden",
            ),
        )
    }
}

/// The value that the option text `value` names.
pub open spec fn net_color_display_from_text(value: Seq<char>) -> Option<NetColorDisplayMode> {
    if value == "all"@ {
        Some(NetColorDisplayMode::All)
    } else if value == "ratsnest"@ {
        Some(NetColorDisplayMode::Ratsnest)
    } else if value == "off"@ {
        Some(NetColorDisplayMode::Off)
    } else {
        None
    }
}

/// The message for a text that names no net color display.
pub open spec fn net_color_display_parse_error(value: Seq<char>) -> Seq<char> {
    "unknown net color display `"@ + value + "`; expected all, ratsnest, or off"@
}

/// Parses `all`, `ratsnest` or `off`.
pub fn parse_net_color_display_mode(value: &str) -> (r: Result<NetColorDisplayMode, String>)
    ensures
        match r {
            Ok(m) => net_color_display_from_text(value@) == Some(m),
            Err(message) => net_color_display_from_text(value@) is None && message@ == net_color_display_parse_error(value@),
        },
{
    if str_eq(value, "all") {
        Ok(NetColorDisplayMode::All)
    } else if str_eq(value, "ratsnest") {
        Ok(NetColorDisplayMode::Ratsnest)
    } else if str_eq(value, "off") {
        Ok(NetColorDisplayMode::Off)
    } else {
        Err(message_with("unknown net color display `", value, "`; expected all, ratsnest, or off"))
    }
}

/// The value that the option text `value` names.
pub open spec fn board_flip_from_text(value: Seq<char>) -> Option<BoardFlipMode> {
    if value == "normal"@ {
        Some(BoardFlipMode::Normal)
    } else if value == "flipped-x"@ {
        Some(BoardFlipMode::FlippedX)
    } else {
        None
    }
}

/// The message for a text that names no board flip mode.
pub open spec fn board_flip_parse_error(value: Seq<char>) -> Seq<char> {
    "unknown board flip mode `"@ + value + "`; expected normal or flipped-x"@
}

/// Parses `normal` or `flipped-x`.
pub fn parse_board_flip_mode(value: &str) -> (r: Result<BoardFlipMode, String>)
    ensures
        match r {
            Ok(m) => board_flip_from_text(value@) == Some(m),
            Err(message) => board_flip_from_text(value@) is None && message@ == board_flip_parse_error(value@),
        },
{
    if str_eq(value, "normal") {
        Ok(BoardFlipMode::Normal)
    } else if str_eq(value, "flipped-x") {
        Ok(BoardFlipMode::FlippedX)
    } else {
        Err(message_with("unknown board flip mode `", value, "`; expected normal or flipped-x"))
    }
}

/// The value that the option text `value` names.
pub open spec fn ratsnest_display_from_text(value: Seq<char>) -> Option<RatsnestDisplayMode> {
    if value == "all-layers"@ {
        Some(RatsnestDisplayMode::AllLayers)
    } else if value == "visible-layers"@ {
        Some(RatsnestDisplayMode::VisibleLayers)
    } else {
        None
    }
}

/// The message for a text that names no ratsnest display.
pub open spec fn ratsnest_display_parse_error(value: Seq<char>) -> Seq<char> {
    "unknown ratsnest display `"@ + value + "`; expected all-layers or visible-layers"@
}

/// Parses `all-layers` or `visible-layers`.
pub fn parse_ratsnest_display_mode(value: &str) -> (r: Result<RatsnestDisplayMode, String>)
    ensures
        match r {
            Ok(m) => ratsnest_display_from_text(value@) == Some(m),
            Err(message) => ratsnest_display_from_text(value@) is None && message@ == ratsnest_display_parse_error(value@),
        },
{
    if str_eq(value, "all-layers") {
        Ok(RatsnestDisplayMode::AllLayers)
    } else if str_eq(value, "visible-layers") {
        Ok(RatsnestDisplayMode::VisibleLayers)
    } else {
        Err(
            message_with(
                "unknown ratsnest display `",
                value,
                "`; expected all-layers or visible-layers",
            ),
        )
    }
}

/// Parses a DRC severity by its display text.
pub fn parse_drc_severity(value: &str) -> (r: Result<DrcSeverity, String>)
    ensures
        match r {
            Ok(severity) => drc_severity_from_text(value@) == Some(severity),
            Err(message) => drc_severity_from_text(value@) is None && message@ == drc_severity_parse_error(value@),
        },
{
    DrcSeverity::parse(value)
}

// ---------------------------------------------------------------------------
// Item ids.
// ---------------------------------------------------------------------------
/// The values of the `--id` options among the arguments from position `i`
/// on, in order; `None` when an `--id` has no value after it.
pub open spec fn scan_ids(args: Seq<Seq<char>>, i: int) -> Option<Seq<Seq<char>>>
    decreases args.len() - i,
{
    if i < 0 || i >= args.len() {
        Some(Seq::empty())
    } else if args[i] == "--id"@ {
        if i + 1 < args.len() {
            match scan_ids(args, i + 2) {
                Some(rest) => Some(seq![args[i + 1]] + rest),
                None => None,
            }
        } else {
            None
        }
    } else {
        scan_ids(args, i + 1)
    }
}

/// Collects the values of the `--id` options of a command's arguments;
/// fails when an `--id` has no value, and when there is none.
pub fn parse_item_ids(args: &[String], command_name: &str) -> (r: Result<Vec<String>, KiCadError>)
    ensures
        match scan_ids(strings_view(args@), 0) {
            None => r matches Err(KiCadError::Config { reason }) && reason@ == "missing value for "@
                + command_name@ + " --id"@,
            Some(ids) => if ids.len() == 0 {
                r matches Err(KiCadError::Config { reason }) && reason@ == command_name@
                    + " requires one or more `--id <uuid>` arguments"@
            } else {
                r matches Ok(v) && strings_view(v@) == ids
            },
        },
{
    let ghost view = strings_view(args@);
    let n = args.len();
    let mut item_ids: Vec<String> = Vec::new();
    let mut i: usize = 0;
    assert(strings_view(Seq::<String>::empty()) =~= Seq::<Seq<char>>::empty());
    while i < n
        invariant
            n == args@.len(),
            view == strings_view(args@),
            i <= n + 1,
            match scan_ids(view, i as int) {
                Some(rest) => scan_ids(view, 0) == Some(strings_view(item_ids@) + rest),
                None => scan_ids(view, 0) is None,
            },
        decreases n + 1 - i,
    {
        assert(view[i as int] == args@[i as int]@);
        if str_eq(args[i].as_str(), "--id") {
            if i + 1 >= n {
                let mut reason = owned("missing value for ");
                push_str(&mut reason, command_name);
                push_str(&mut reason, " --id");
                return Err(KiCadError::Config { reason });
            }
            let ghost before = item_ids@;
            item_ids.push(copy_string(&args[i + 1]));
            assert(view[i + 1] == args@[i + 1]@);
            assert(strings_view(item_ids@) =~= strings_view(before) + seq![view[i + 1]]);
            proof {
                match scan_ids(view, i + 2) {
                    Some(rest) => {
                        assert(strings_view(before) + (seq![view[i + 1]] + rest) =~= strings_view(
                            item_ids@,
                        ) + rest);
                    },
                    None => {},
                }
            }
            i = i + 2;
        } else {
            i = i + 1;
        }
    }
    assert(scan_ids(view, i as int) == Some(Seq::<Seq<char>>::empty()));
    assert(strings_view(item_ids@) + Seq::<Seq<char>>::empty() =~= strings_view(item_ids@));
    if item_ids.len() == 0 {
        let mut reason = owned(command_name);
        push_str(&mut reason, " requires one or more `--id <uuid>` arguments");
        return Err(KiCadError::Config { reason });
    }
    Ok(item_ids)
}

// ---------------------------------------------------------------------------
// Layer names.
// ---------------------------------------------------------------------------
/// The names of the layers joined by commas.
pub open spec fn joined_layer_names(layers: Seq<BoardLayerInfo>) -> Seq<char>
    decreases layers.len(),
{
    if layers.len() == 0 {
        Seq::empty()
    } else if layers.len() == 1 {
        layers[0].name@
    } else {
        joined_layer_names(layers.drop_last()) + ","@ + layers.last().name@
    }
}

/// The names of the layers joined by commas, or `-` for no layers.
pub fn format_layer_names_for_cli(layers: &[BoardLayerInfo]) -> (r: String)
    ensures
        r@ == if layers@.len() == 0 {
            "-"@
        } else {
            joined_layer_names(layers@)
        },
{
    let n = layers.len();
    if n == 0 {
        return owned("-");
    }
    let mut r = copy_string(&layers[0].name);
    let mut i: usize = 1;
    assert(layers@.take(1).drop_last() =~= Seq::<BoardLayerInfo>::empty());
    while i < n
        invariant
            n == layers@.len(),
            1 <= i <= n,
            r@ == joined_layer_names(layers@.take(i as int)),
        decreases n - i,
    {
        assert(layers@.take(i + 1).drop_last() =~= layers@.take(i as int));
        push_str(&mut r, ",");
        push_str(&mut r, layers[i].name.as_str());
        i = i + 1;
    }
    assert(layers@.take(n as int) =~= layers@);
    r
}

// ---------------------------------------------------------------------------
// Polygon summaries.
// ---------------------------------------------------------------------------
/// The node counts of a polygon with holes.
#[derive(Clone, Copy, Debug, PartialEq, Eq, Default, Structural)]
pub struct PolygonGeometrySummary {
    pub outline_nodes: usize,
    pub hole_count: usize,
    pub hole_nodes_total: usize,
    pub point_nodes: usize,
    pub arc_nodes: usize,
}

/// The number of point nodes among `nodes`.
pub open spec fn point_node_count(nodes: Seq<PolyLineNodeGeometryNm>) -> nat
    decreases nodes.len(),
{
    if nodes.len() == 0 {
        0
    } else {
        point_node_count(nodes.drop_last()) + if nodes.last() is Point {
            1nat
        } else {
            0nat
        }
    }
}

/// The nodes of the holes `holes`, all together.
pub open spec fn hole_nodes(holes: Seq<PolyLineNm>) -> Seq<PolyLineNodeGeometryNm>
    decreases holes.len(),
{
    if holes.len() == 0 {
        Seq::empty()
    } else {
        hole_nodes(holes.drop_last()) + holes.last().nodes@
    }
}

/// The nodes of a polygon's outline (none without an outline).
pub open spec fn outline_nodes_of(polygon: PolygonWithHolesNm) -> Seq<PolyLineNodeGeometryNm> {
    match polygon.outline {
        Some(o) => o.nodes@,
        None => Seq::empty(),
    }
}

/// The nodes of a polygon: its outline's, then its holes'.
pub open spec fn polygon_nodes(polygon: PolygonWithHolesNm) -> Seq<PolyLineNodeGeometryNm> {
    match polygon.outline {
        Some(o) => o.nodes@ + hole_nodes(polygon.holes@),
        None => hole_nodes(polygon.holes@),
    }
}

proof fn lemma_point_count_append(a: Seq<PolyLineNodeGeometryNm>, b: Seq<PolyLineNodeGeometryNm>)
    ensures
        point_node_count(a + b) == point_node_count(a) + point_node_count(b),
        point_node_count(a) <= a.len(),
    decreases b.len(),
{
    if b.len() == 0 {
        assert(a + b =~= a);
        lemma_point_count_le(a);
    } else {
        assert((a + b).drop_last() =~= a + b.drop_last());
        lemma_point_count_append(a, b.drop_last());
    }
}

proof fn lemma_point_count_le(a: Seq<PolyLineNodeGeometryNm>)
    ensures
        point_node_count(a) <= a.len(),
    decreases a.len(),
{
    if a.len() > 0 {
        lemma_point_count_le(a.drop_last());
    }
}

fn count_points(nodes: &Vec<PolyLineNodeGeometryNm>) -> (r: usize)
    ensures
        r == point_node_count(nodes@),
{
    let n = nodes.len();
    let mut count: usize = 0;
    let mut i: usize = 0;
    assert(nodes@.take(0) =~= Seq::<PolyLineNodeGeometryNm>::empty());
    while i < n
        invariant
            n == nodes@.len(),
            i <= n,
            count == point_node_count(nodes@.take(i as int)),
            count <= i,
        decreases n - i,
    {
        assert(nodes@.take(i + 1).drop_last() =~= nodes@.take(i as int));
        match nodes[i] {
            PolyLineNodeGeometryNm::Point(_) => {
                count = count + 1;
            },
            PolyLineNodeGeometryNm::Arc(_) => {},
        }
        i = i + 1;
    }
    assert(nodes@.take(n as int) =~= nodes@);
    count
}

/// Counts the nodes of a polygon: those of its outline, the number of holes
/// and of their nodes, and how many of all nodes are points and how many
/// arcs.
pub fn polygon_geometry_summary(polygon: &PolygonWithHolesNm) -> (r: PolygonGeometrySummary)
    requires
        polygon_nodes(*polygon).len() <= usize::MAX,
    ensures
        r.outline_nodes == match polygon.outline {
            Some(o) => o.nodes@.len(),
            None => 0,
        },
        r.hole_count == polygon.holes@.len(),
        r.hole_nodes_total == hole_nodes(polygon.holes@).len(),
        r.point_nodes == point_node_count(polygon_nodes(*polygon)),
        r.arc_nodes == polygon_nodes(*polygon).len() - point_node_count(polygon_nodes(*polygon)),
{
    let (outline_nodes, outline_points) = match &polygon.outline {
        Some(o) => (o.nodes.len(), count_points(&o.nodes)),
        None => (0, 0),
    };
    let ghost outline_seq = outline_nodes_of(*polygon);
    proof {
        assert(polygon_nodes(*polygon) =~= outline_seq + hole_nodes(polygon.holes@));
        lemma_point_count_append(outline_seq, hole_nodes(polygon.holes@));
        lemma_point_count_le(hole_nodes(polygon.holes@));
        if polygon.outline is None {
            assert(point_node_count(outline_seq) == 0);
        }
    }
    let holes = &polygon.holes;
    let m = holes.len();
    let mut hole_total: usize = 0;
    let mut hole_points: usize = 0;
    let mut j: usize = 0;
    assert(holes@.take(0) =~= Seq::<PolyLineNm>::empty());
    while j < m
        invariant
            m == holes@.len(),
            j <= m,
            hole_nodes(holes@).len() <= usize::MAX,
            hole_total == hole_nodes(holes@.take(j as int)).len(),
            hole_points == point_node_count(hole_nodes(holes@.take(j as int))),
            hole_points <= hole_total,
        decreases m - j,
    {
        let ghost prefix = hole_nodes(holes@.take(j as int));
        assert(holes@.take(j + 1).drop_last() =~= holes@.take(j as int));
        proof {
            lemma_hole_nodes_prefix(holes@, j + 1);
            lemma_point_count_append(prefix, holes@[j as int].nodes@);
            lemma_point_count_le(holes@[j as int].nodes@);
        }
        let count = count_points(&holes[j].nodes);
        hole_total = hole_total + holes[j].nodes.len();
        hole_points = hole_points + count;
        j = j + 1;
    }
    assert(holes@.take(m as int) =~= holes@);
    let total_points = outline_points + hole_points;
    PolygonGeometrySummary {
        outline_nodes,
        hole_count: m,
        hole_nodes_total: hole_total,
        point_nodes: total_points,
        arc_nodes: (outline_nodes + hole_total) - total_points,
    }
}

proof fn lemma_hole_nodes_prefix(holes: Seq<PolyLineNm>, k: int)
    requires
        0 <= k <= holes.len(),
    ensures
        hole_nodes(holes.take(k)).len() <= hole_nodes(holes).len(),
    decreases holes.len(),
{
    if k < holes.len() {
        assert(holes.drop_last().take(k) =~= holes.take(k));
        lemma_hole_nodes_prefix(holes.drop_last(), k);
    } else {
        assert(holes.take(k) =~= holes);
    }
}

// ---------------------------------------------------------------------------
// Hex payloads.
// ---------------------------------------------------------------------------
/// The lower-case hex digit of a value below sixteen, or `?`.
pub open spec fn hex_digit(value: u8) -> char {
    if value <= 9 {
        (('0' as u8) + value) as char
    } else if value <= 15 {
        (('a' as u8) + (value - 10)) as char
    } else {
        '?'
    }
}

/// The hex digit of a value below sixteen, or `?` for a larger value.
pub fn hex_char(value: u8) -> (r: char)
    ensures
        r == hex_digit(value),
{
    if value <= 9 {
        (48u8 + value) as char
    } else if value <= 15 {
        (97u8 + (value - 10)) as char
    } else {
        '?'
    }
}

/// Two lower-case hex digits per byte, high nibble first.
pub open spec fn hex_text(data: Seq<u8>) -> Seq<char> {
    Seq::new(
        2 * data.len(),
        |i: int|
            if i % 2 == 0 {
                hex_digit(data[i / 2] / 16)
            } else {
                hex_digit(data[i / 2] % 16)
            },
    )
}

/// Writes bytes as lower-case hex, two digits per byte.
pub fn bytes_to_hex(data: &[u8]) -> (r: String)
    ensures
        r@ == hex_text(data@),
{
    let mut out = String::new();
    let n = data.len();
    let mut i: usize = 0;
    while i < n
        invariant
            n == data@.len(),
            i <= n,
            out@ == hex_text(data@).take(2 * i),
        decreases n - i,
    {
        let byte = data[i];
        let high = (byte >> 4) & 0x0f;
        let low = byte & 0x0f;
        assert(high == byte / 16) by (bit_vector)
            requires
                high == (byte >> 4) & 0x0f,
        ;
        assert(low == byte % 16) by (bit_vector)
            requires
                low == byte & 0x0f,
        ;
        push_char(&mut out, hex_char(high));
        push_char(&mut out, hex_char(low));
        assert(hex_text(data@).take(2 * (i + 1)) =~= hex_text(data@).take(2 * i).push(
            hex_digit(high),
        ).push(hex_digit(low)));
        i = i + 1;
    }
    assert(hex_text(data@).take(2 * n) =~= hex_text(data@));
    out
}

/// The value of a hex digit (either case).
pub open spec fn nibble_value(c: char) -> Option<u8> {
    if '0' <= c && c <= '9' {
        Some(((c as u8) - ('0' as u8)) as u8)
    } else if 'a' <= c && c <= 'f' {
        Some(((c as u8) - ('a' as u8) + 10) as u8)
    } else if 'A' <= c && c <= 'F' {
        Some(((c as u8) - ('A' as u8) + 10) as u8)
    } else {
        None
    }
}

/// The error text for a character that is not a hex digit.
pub open spec fn invalid_hex_text(c: char) -> Seq<char> {
    "invalid hex character `"@ + seq![c] + "`"@
}

/// Reads a hex digit.
pub fn hex_nibble(c: char) -> (r: Result<u8, String>)
    ensures
        match r {
            Ok(v) => nibble_value(c) == Some(v),
            Err(m) => nibble_value(c) is None && m@ == invalid_hex_text(c),
        },
{
    if '0' <= c && c <= '9' {
        Ok((c as u8) - 48u8)
    } else if 'a' <= c && c <= 'f' {
        Ok((c as u8) - 97u8 + 10)
    } else if 'A' <= c && c <= 'F' {
        Ok((c as u8) - 65u8 + 10)
    } else {
        let mut m = owned("invalid hex character `");
        push_char(&mut m, c);
        push_str(&mut m, "`");
        Err(m)
    }
}

/// Whether every character of `s` is a hex digit.
pub open spec fn all_hex(s: Seq<char>) -> bool {
    forall|i: int| 0 <= i < s.len() ==> (#[trigger] nibble_value(s[i])) is Some
}

/// The bytes that a run of hex digits stands for, two digits per byte.
pub open spec fn hex_bytes(s: Seq<char>) -> Seq<u8> {
    Seq::new(
        s.len() / 2,
        |i: int| (nibble_value(s[2 * i])->0 * 16 + nibble_value(s[2 * i + 1])->0) as u8,
    )
}

/// The error text for a hex payload of an odd number of bytes.
pub open spec fn odd_hex_text() -> Seq<char> {
    "hex payload must have an even number of characters"@
}

/// The position of the first character of `s`, from `from` on, that is not
/// a hex digit.
pub open spec fn first_non_hex(s: Seq<char>, from: int) -> Option<int>
    decreases s.len() - from,
{
    if from < 0 || from >= s.len() {
        None
    } else if nibble_value(s[from]) is None {
        Some(from)
    } else {
        first_non_hex(s, from + 1)
    }
}

/// What reading the hex payload `s` gives: its bytes, or the error for an
/// odd number of UTF-8 bytes (counted as a `usize`, as `str::len` does), else
/// for its first character that is not a hex digit.
pub open spec fn hex_read(s: Seq<char>) -> Result<Seq<u8>, Seq<char>> {
    if (encode_utf8(s).len() as usize) % 2 == 1 {
        Err(odd_hex_text())
    } else {
        match first_non_hex(s, 0) {
            Some(k) => Err(invalid_hex_text(s[k])),
            None => Ok(hex_bytes(s)),
        }
    }
}

/// The first character that is not a hex digit, from `from` on, is the one
/// at `k` when those between are hex digits.
pub proof fn lemma_first_non_hex_at(s: Seq<char>, from: int, k: int)
    requires
        0 <= from <= k <= s.len(),
        forall|j: int| from <= j < k ==> (#[trigger] nibble_value(s[j])) is Some,
    ensures
        k < s.len() && nibble_value(s[k]) is None ==> first_non_hex(s, from) == Some(k),
        k == s.len() ==> first_non_hex(s, from) is None,
    decreases k - from,
{
    if from < k {
        lemma_first_non_hex_at(s, from + 1, k);
    }
}

/// Reads a hex payload: fails when it is an odd number of bytes long, and at the first character
/// that is not a hex digit.
pub fn hex_to_bytes(hex: &str) -> (r: Result<Vec<u8>, String>)
    ensures
        r is Ok <==> hex.len() % 2 == 0 && all_hex(hex@),
        r matches Ok(bytes) ==> bytes@ == hex_bytes(hex@),
        r matches Err(m) ==> if hex.len() % 2 == 1 {
            m@ == odd_hex_text()
        } else {
            exists|k: int|
                0 <= k < hex@.len() && (#[trigger] nibble_value(hex@[k])) is None && m@
                    == invalid_hex_text(hex@[k]) && forall|j: int|
                    0 <= j < k ==> (#[trigger] nibble_value(hex@[j])) is Some
        },
{
    if hex.len() % 2 != 0 {
        return Err(owned("hex payload must have an even number of characters"));
    }
    let chars = crate::text::chars_of(hex);
    let n = chars.len();
    let mut bytes: Vec<u8> = Vec::new();
    let mut i: usize = 0;
    while i < n
        invariant
            n == chars@.len(),
            chars@ == hex@,
            hex.len() % 2 == 0,
            i <= n,
            i % 2 == 0,
            forall|j: int| 0 <= j < i ==> (#[trigger] nibble_value(hex@[j])) is Some,
            bytes@ =~= hex_bytes(hex@.take(i as int)),
        decreases n - i,
    {
        let high = match hex_nibble(chars[i]) {
            Ok(v) => v,
            Err(m) => {
                return Err(m);
            },
        };
        if i + 1 >= n {
            proof {
                assert forall|j: int| 0 <= j < hex@.len() implies '\0' <= #[trigger] hex@[j]
                    <= '\u{7f}' by {
                    assert(nibble_value(hex@[j]) is Some);
                }
                assert(is_ascii_chars(hex@));
                is_ascii_chars_encode_utf8(hex@);
            }
            assert(false);
        }
        let low = match hex_nibble(chars[i + 1]) {
            Ok(v) => v,
            Err(m) => {
                return Err(m);
            },
        };
        bytes.push((high << 4) | low);
        assert(((high << 4) | low) == (high * 16 + low) as u8) by (bit_vector)
            requires
                high < 16,
                low < 16,
        ;
        assert(hex_bytes(hex@.take(i + 2)) =~= hex_bytes(hex@.take(i as int)).push(
            (high * 16 + low) as u8,
        ));
        i = i + 2;
    }
    assert(hex@.take(n as int) =~= hex@);
    proof {
        if n % 2 == 1 {
            assert(false);
        }
    }
    Ok(bytes)
}

/// Every value below sixteen reads back from its hex digit.
proof fn lemma_hex_digit_reads_back(v: u8)
    requires
        v < 16,
    ensures
        nibble_value(hex_digit(v)) == Some(v),
        '\0' <= hex_digit(v) <= '\u{7f}',
{
}

/// Reading back the hex text of bytes gives the bytes: the text is all hex
/// digits, an even number of ASCII characters, and decodes to the bytes.
pub proof fn lemma_hex_round_trip(data: Seq<u8>)
    ensures
        all_hex(hex_text(data)),
        encode_utf8(hex_text(data)).len() == hex_text(data).len(),
        hex_text(data).len() % 2 == 0,
        hex_bytes(hex_text(data)) == data,
{
    let t = hex_text(data);
    assert forall|i: int| 0 <= i < t.len() implies (#[trigger] nibble_value(t[i])) is Some
        && '\0' <= t[i] <= '\u{7f}' by {
        lemma_hex_digit_reads_back(data[i / 2] / 16);
        lemma_hex_digit_reads_back(data[i / 2] % 16);
    }
    assert(is_ascii_chars(t));
    is_ascii_chars_encode_utf8(t);
    assert forall|i: int| 0 <= i < data.len() implies #[trigger] hex_bytes(t)[i] == data[i] by {
        lemma_hex_digit_reads_back(data[i] / 16);
        lemma_hex_digit_reads_back(data[i] % 16);
        assert(t[2 * i] == hex_digit(data[i] / 16));
        assert(t[2 * i + 1] == hex_digit(data[i] % 16));
    }
    assert(hex_bytes(t) =~= data);
}


// ---------------------------------------------------------------------------
// Board-read coverage.
// ---------------------------------------------------------------------------
/// The board-read API commands with their coverage status and the methods
/// that cover them, as the tool lists them.
pub open spec fn board_read_coverage() -> Seq<(&'static str, &'static str, &'static str)> {
    seq![
        ("kiapi.board.commands.GetBoardStackup", "implemented", "get_board_stackup_raw/get_board_stackup"),
        ("kiapi.board.commands.GetBoardEnabledLayers", "implemented", "get_board_enabled_layers"),
        ("kiapi.board.commands.GetGraphicsDefaults", "implemented", "get_graphics_defaults_raw/get_graphics_defaults"),
        ("kiapi.board.commands.GetBoardOrigin", "implemented", "get_board_origin"),
        ("kiapi.board.commands.GetNets", "implemented", "get_nets"),
        ("kiapi.board.commands.GetItemsByNet", "implemented", "get_items_by_net_raw"),
        ("kiapi.board.commands.GetItemsByNetClass", "implemented", "get_items_by_net_class_raw"),
        ("kiapi.board.commands.GetNetClassForNets", "implemented", "get_netclass_for_nets_raw/get_netclass_for_nets"),
        ("kiapi.board.commands.GetPadShapeAsPolygon", "implemented", "get_pad_shape_as_polygon_raw/get_pad_shape_as_polygon"),
        ("kiapi.board.commands.CheckPadstackPresenceOnLayers", "implemented", "check_padstack_presence_on_layers_raw/check_padstack_presence_on_layers"),
        ("kiapi.board.commands.GetVisibleLayers", "implemented", "get_visible_layers"),
        ("kiapi.board.commands.GetActiveLayer", "implemented", "get_active_layer"),
        ("kiapi.board.commands.GetBoardLayerName", "implemented", "get_board_layer_name"),
        ("kiapi.board.commands.GetBoardEditorAppearanceSettings", "implemented", "get_board_editor_appearance_settings_raw/get_board_editor_appearance_settings"),
        ("kiapi.common.commands.GetOpenDocuments", "implemented", "get_open_documents"),
        ("kiapi.common.commands.GetNetClasses", "implemented", "get_net_classes_raw/get_net_classes"),
        ("kiapi.common.commands.GetTextVariables", "implemented", "get_text_variables_raw/get_text_variables"),
        ("kiapi.common.commands.ExpandTextVariables", "implemented", "expand_text_variables_raw/expand_text_variables"),
        ("kiapi.common.commands.GetTextExtents", "implemented", "get_text_extents_raw/get_text_extents"),
        ("kiapi.common.commands.GetTextAsShapes", "implemented", "get_text_as_shapes_raw/get_text_as_shapes"),
        ("kiapi.common.commands.GetItems", "implemented", "get_items_raw_by_type_codes"),
        ("kiapi.common.commands.GetItemsById", "implemented", "get_items_by_id_raw"),
        ("kiapi.common.commands.GetBoundingBox", "implemented", "get_item_bounding_boxes"),
        ("kiapi.common.commands.GetSelection", "implemented", "get_selection_raw/get_selection_details"),
        ("kiapi.common.commands.HitTest", "implemented", "hit_test_item"),
        ("kiapi.common.commands.GetTitleBlockInfo", "implemented", "get_title_block_info"),
        ("kiapi.common.commands.SaveDocumentToString", "implemented", "get_board_as_string"),
        ("kiapi.common.commands.SaveSelectionToString", "implemented", "get_selection_as_string"),
    ]
}

/// Lists the board-read API commands with their coverage status and the
/// methods that cover them.
pub fn proto_coverage_board_read_rows() -> (r: Vec<(&'static str, &'static str, &'static str)>)
    ensures
        r@ == board_read_coverage(),
{
    let r = vec![
        ("kiapi.board.commands.GetBoardStackup", "implemented", "get_board_stackup_raw/get_board_stackup"),
        ("kiapi.board.commands.GetBoardEnabledLayers", "implemented", "get_board_enabled_layers"),
        ("kiapi.board.commands.GetGraphicsDefaults", "implemented", "get_graphics_defaults_raw/get_graphics_defaults"),
        ("kiapi.board.commands.GetBoardOrigin", "implemented", "get_board_origin"),
        ("kiapi.board.commands.GetNets", "implemented", "get_nets"),
        ("kiapi.board.commands.GetItemsByNet", "implemented", "get_items_by_net_raw"),
        ("kiapi.board.commands.GetItemsByNetClass", "implemented", "get_items_by_net_class_raw"),
        ("kiapi.board.commands.GetNetClassForNets", "implemented", "get_netclass_for_nets_raw/get_netclass_for_nets"),
        ("kiapi.board.commands.GetPadShapeAsPolygon", "implemented", "get_pad_shape_as_polygon_raw/get_pad_shape_as_polygon"),
        ("kiapi.board.commands.CheckPadstackPresenceOnLayers", "implemented", "check_padstack_presence_on_layers_raw/check_padstack_presence_on_layers"),
        ("kiapi.board.commands.GetVisibleLayers", "implemented", "get_visible_layers"),
        ("kiapi.board.commands.GetActiveLayer", "implemented", "get_active_layer"),
        ("kiapi.board.commands.GetBoardLayerName", "implemented", "get_board_layer_name"),
        ("kiapi.board.commands.GetBoardEditorAppearanceSettings", "implemented", "get_board_editor_appearance_settings_raw/get_board_editor_appearance_settings"),
        ("kiapi.common.commands.GetOpenDocuments", "implemented", "get_open_documents"),
        ("kiapi.common.commands.GetNetClasses", "implemented", "get_net_classes_raw/get_net_classes"),
        ("kiapi.common.commands.GetTextVariables", "implemented", "get_text_variables_raw/get_text_variables"),
        ("kiapi.common.commands.ExpandTextVariables", "implemented", "expand_text_variables_raw/expand_text_variables"),
        ("kiapi.common.commands.GetTextExtents", "implemented", "get_text_extents_raw/get_text_extents"),
        ("kiapi.common.commands.GetTextAsShapes", "implemented", "get_text_as_shapes_raw/get_text_as_shapes"),
        ("kiapi.common.commands.GetItems", "implemented", "get_items_raw_by_type_codes"),
        ("kiapi.common.commands.GetItemsById", "implemented", "get_items_by_id_raw"),
        ("kiapi.common.commands.GetBoundingBox", "implemented", "get_item_bounding_boxes"),
        ("kiapi.common.commands.GetSelection", "implemented", "get_selection_raw/get_selection_details"),
        ("kiapi.common.commands.HitTest", "implemented", "hit_test_item"),
        ("kiapi.common.commands.GetTitleBlockInfo", "implemented", "get_title_block_info"),
        ("kiapi.common.commands.SaveDocumentToString", "implemented", "get_board_as_string"),
        ("kiapi.common.commands.SaveSelectionToString", "implemented", "get_selection_as_string"),
    ];
    assert(r@ =~= board_read_coverage());
    r
}

} // verus!
