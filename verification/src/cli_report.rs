//! The board read reconstruction report: which pads and layers to ask
//! about, and the markdown that sets out what the board reads gave.

use vstd::prelude::*;
use crate::cli::{
    board_read_coverage, hole_nodes, point_node_count, polygon_geometry_summary, polygon_nodes,
    proto_coverage_board_read_rows,
};
use crate::model::board::{
    padstack_presence_text, BoardEnabledLayers, BoardLayerInfo, BoardNet, PadNetEntry,
    PadShapeAsPolygonEntry, PadstackPresenceEntry, PadstackPresenceState, Vector2Nm,
};
use crate::model::common::{
    document_type_text, DocumentSpecifier, PcbObjectTypeCode, TitleBlockInfo, VersionInfo,
};
use crate::order::{holds_string, insert_sorted, lemma_seq_lt_irreflexive, strictly_sorted};
use crate::text::{
    chars_of, copy_string, int_decimal, push_char, push_decimal_i64, push_decimal_u64, push_str,
    strings_view,
};

verus! {

/// Pad-net rows the report lists before it only counts the rest.
pub const REPORT_MAX_PAD_NET_ROWS: usize = 2000;

/// Padstack presence rows the report lists before it only counts the rest.
pub const REPORT_MAX_PRESENCE_ROWS: usize = 2000;

/// Items of each type whose debug rendering the report shows.
pub const REPORT_MAX_ITEM_DEBUG_ROWS_PER_TYPE: usize = 5;

/// Characters of an item's debug rendering the report keeps.
pub const REPORT_MAX_ITEM_DEBUG_CHARS: usize = 8000;

/// Characters of the board file text the report keeps.
pub const REPORT_MAX_BOARD_SNAPSHOT_CHARS: usize = 750000;

/// One board item as the report shows it: its type URL, the length of its
/// encoded payload, and its debug rendering.
pub struct ReportItem {
    pub type_url: String,
    pub raw_len: u64,
    pub debug: String,
}

/// The items of one PCB object type that the board holds.
pub struct ReportItemType {
    pub object_type: PcbObjectTypeCode,
    pub items: Vec<ReportItem>,
}

/// Everything the board read report sets out, as read from the editor.
///
/// `layer_polygons[i]` holds the pad polygons read for the `i`-th enabled
/// layer; a layer without an entry has none. The `*_debug` fields hold the
/// debug renderings of the structures the report shows verbatim.
pub struct BoardReadData {
    pub version: VersionInfo,
    pub socket_uri: String,
    pub timeout_ms: u64,
    pub docs: Vec<DocumentSpecifier>,
    pub enabled: BoardEnabledLayers,
    pub visible_layers: Vec<BoardLayerInfo>,
    pub active_layer: BoardLayerInfo,
    pub grid_origin: Vector2Nm,
    pub drill_origin: Vector2Nm,
    pub nets: Vec<BoardNet>,
    pub pad_entries: Vec<PadNetEntry>,
    pub presence_rows: Vec<PadstackPresenceEntry>,
    pub layer_polygons: Vec<Vec<PadShapeAsPolygonEntry>>,
    pub title_block: TitleBlockInfo,
    pub stackup_debug: String,
    pub graphics_defaults_debug: String,
    pub appearance_debug: String,
    pub netclass_debug: String,
    pub item_types: Vec<ReportItemType>,
    pub board_text: String,
}

// ---------------------------------------------------------------------------
// Rows of text.
// ---------------------------------------------------------------------------
/// The lines `f(0, s[0])`, `f(1, s[1])`, ... one after another.
pub open spec fn rows_text<T>(s: Seq<T>, f: spec_fn(int, T) -> Seq<char>) -> Seq<char>
    decreases s.len(),
{
    if s.len() == 0 {
        Seq::empty()
    } else {
        rows_text(s.drop_last(), f) + f(s.len() - 1, s.last())
    }
}

proof fn lemma_rows_step<T>(s: Seq<T>, i: int, f: spec_fn(int, T) -> Seq<char>)
    requires
        0 <= i < s.len(),
    ensures
        rows_text(s.take(i + 1), f) == rows_text(s.take(i), f) + f(i, s[i]),
{
    assert(s.take(i + 1).drop_last() =~= s.take(i));
}

proof fn lemma_rows_all<T>(s: Seq<T>, f: spec_fn(int, T) -> Seq<char>)
    ensures
        rows_text(s.take(s.len() as int), f) == rows_text(s, f),
{
    assert(s.take(s.len() as int) =~= s);
}

/// The text, or `-` when there is none.
pub open spec fn or_dash(o: Option<String>) -> Seq<char> {
    match o {
        Some(s) => s@,
        None => "-"@,
    }
}

fn push_or_dash(out: &mut String, o: &Option<String>)
    ensures
        final(out)@ == old(out)@ + or_dash(*o),
{
    match o {
        Some(s) => push_str(out, s.as_str()),
        None => push_str(out, "-"),
    }
}

/// The first `n` characters of `s`, or all of them when it is shorter.
fn prefix_of(s: &str, n: usize) -> (r: String)
    ensures
        r@ == if s@.len() <= n {
            s@
        } else {
            s@.take(n as int)
        },
{
    let chars = chars_of(s);
    let m = if chars.len() <= n {
        chars.len()
    } else {
        n
    };
    let mut r = String::new();
    let mut i: usize = 0;
    while i < m
        invariant
            chars@ == s@,
            m <= chars@.len(),
            m == if s@.len() <= n {
                s@.len()
            } else {
                n as nat
            },
            i <= m,
            r@ == s@.take(i as int),
        decreases m - i,
    {
        push_char(&mut r, chars[i]);
        assert(s@.take(i + 1) =~= s@.take(i as int).push(s@[i as int]));
        i = i + 1;
    }
    assert(s@.take(s@.len() as int) =~= s@);
    r
}

// ---------------------------------------------------------------------------
// Pads to ask about.
// ---------------------------------------------------------------------------
/// Whether the pad-net entry `e` names the pad id `p`.
pub open spec fn names_pad(e: PadNetEntry, p: Seq<char>) -> bool {
    e.pad_id matches Some(id) && id@ == p
}

/// The pad ids that the pad-net entries name.
pub open spec fn pad_id_set(entries: Seq<PadNetEntry>) -> Set<Seq<char>> {
    Set::new(
        |p: Seq<char>|
            exists|i: int|
                0 <= i < entries.len() && #[trigger] names_pad(entries[i], p),
    )
}

/// The ids of the pads that `rows` report present on layer `layer_id`.
pub open spec fn present_id_set(rows: Seq<PadstackPresenceEntry>, layer_id: i32) -> Set<Seq<char>> {
    Set::new(
        |p: Seq<char>|
            exists|i: int|
                0 <= i < rows.len() && #[trigger] rows[i].layer_id == layer_id
                    && rows[i].presence is Present && rows[i].item_id@ == p,
    )
}

/// A strictly sorted list holds as many strings as the set of them.
proof fn lemma_sorted_count(v: Seq<String>, set: Set<Seq<char>>)
    requires
        strictly_sorted(v),
        forall|k: Seq<char>| #[trigger] set.contains(k) <==> holds_string(v, k),
    ensures
        set.finite(),
        set.len() == v.len(),
{
    let sv = strings_view(v);
    assert forall|i: int, j: int| 0 <= i < sv.len() && 0 <= j < sv.len() && i != j implies sv[i]
        != sv[j] by {
        if i < j {
            assert(crate::order::seq_lt(v[i]@, v[j]@));
            lemma_seq_lt_irreflexive(v[i]@);
        } else {
            assert(crate::order::seq_lt(v[j]@, v[i]@));
            lemma_seq_lt_irreflexive(v[j]@);
        }
    }
    assert(sv.no_duplicates());
    sv.unique_seq_to_set();
    assert forall|k: Seq<char>| sv.to_set().contains(k) <==> set.contains(k) by {
        if holds_string(v, k) {
            let i = choose|i: int| 0 <= i < v.len() && #[trigger] v[i]@ == k;
            assert(sv[i] == k);
        }
        if sv.to_set().contains(k) {
            let i = choose|i: int| 0 <= i < sv.len() && sv[i] == k;
            assert(v[i]@ == k);
        }
    }
    assert(sv.to_set() =~= set);
}

/// The distinct pad ids the pad-net entries name, in sorted order.
pub fn report_pad_ids(entries: &Vec<PadNetEntry>) -> (r: Vec<String>)
    ensures
        strictly_sorted(r@),
        forall|p: Seq<char>| #[trigger] holds_string(r@, p) <==> pad_id_set(entries@).contains(p),
{
    let mut r: Vec<String> = Vec::new();
    let n = entries.len();
    let mut i: usize = 0;
    while i < n
        invariant
            n == entries@.len(),
            i <= n,
            strictly_sorted(r@),
            forall|p: Seq<char>| #[trigger]
                holds_string(r@, p) <==> pad_id_set(entries@.take(i as int)).contains(p),
        decreases n - i,
    {
        let ghost taken = entries@.take(i as int);
        let ghost next = entries@.take(i + 1);
        assert forall|p: Seq<char>|
            pad_id_set(next).contains(p) <==> (pad_id_set(taken).contains(p) || names_pad(
            entries@[i as int],
            p,
        )) by {
            if pad_id_set(taken).contains(p) {
                let j = choose|j: int|
                    0 <= j < taken.len() && #[trigger] names_pad(taken[j], p);
                assert(next[j] == taken[j]);
            }
            if names_pad(entries@[i as int], p) {
                assert(next[i as int] == entries@[i as int]);
            }
            if pad_id_set(next).contains(p) {
                let j = choose|j: int|
                    0 <= j < next.len() && #[trigger] names_pad(next[j], p);
                if j < i {
                    assert(taken[j] == next[j]);
                }
            }
        }
        match &entries[i].pad_id {
            Some(id) => {
                insert_sorted(&mut r, copy_string(id));
            },
            None => {},
        }
        i = i + 1;
    }
    assert(entries@.take(n as int) =~= entries@);
    r
}

/// The distinct ids of the pads that `rows` report present on layer
/// `layer_id`, in sorted order.
pub fn present_pad_ids_on_layer(rows: &Vec<PadstackPresenceEntry>, layer_id: i32) -> (r: Vec<
    String,
>)
    ensures
        strictly_sorted(r@),
        forall|p: Seq<char>| #[trigger]
            holds_string(r@, p) <==> present_id_set(rows@, layer_id).contains(p),
{
    let mut r: Vec<String> = Vec::new();
    let n = rows.len();
    let mut i: usize = 0;
    while i < n
        invariant
            n == rows@.len(),
            i <= n,
            strictly_sorted(r@),
            forall|p: Seq<char>| #[trigger]
                holds_string(r@, p) <==> present_id_set(rows@.take(i as int), layer_id).contains(p),
        decreases n - i,
    {
        let ghost taken = rows@.take(i as int);
        let ghost next = rows@.take(i + 1);
        let row = &rows[i];
        assert forall|p: Seq<char>|
            present_id_set(next, layer_id).contains(p) <==> (present_id_set(taken, layer_id).contains(
                p,
            ) || (row.layer_id == layer_id && row.presence is Present && row.item_id@ == p)) by {
            if present_id_set(taken, layer_id).contains(p) {
                let j = choose|j: int|
                    0 <= j < taken.len() && #[trigger] taken[j].layer_id == layer_id
                        && taken[j].presence is Present && taken[j].item_id@ == p;
                assert(next[j] == taken[j]);
            }
            if row.layer_id == layer_id && row.presence is Present && row.item_id@ == p {
                assert(next[i as int] == *row);
            }
            if present_id_set(next, layer_id).contains(p) {
                let j = choose|j: int|
                    0 <= j < next.len() && #[trigger] next[j].layer_id == layer_id
                        && next[j].presence is Present && next[j].item_id@ == p;
                if j < i {
                    assert(taken[j] == next[j]);
                }
            }
        }
        let present = match row.presence {
            PadstackPresenceState::Present => true,
            _ => false,
        };
        if row.layer_id == layer_id && present {
            insert_sorted(&mut r, copy_string(&row.item_id));
        }
        i = i + 1;
    }
    assert(rows@.take(n as int) =~= rows@);
    r
}

// ---------------------------------------------------------------------------
// Session, documents, layers and nets.
// ---------------------------------------------------------------------------
/// The report's opening lines.
pub open spec fn intro_text() -> Seq<char> {
    "# Board Read Reconstruction Report\n\n"@ + "Generated by `kicad-ipc-cli board-read-report`.\n\n"@
        + "Goal: verify that non-mutating PCB API reads are sufficient to reconstruct board state.\n\n"@
}

/// The session section: editor version, socket and timeout.
pub open spec fn session_text(v: VersionInfo, socket_uri: Seq<char>, timeout_ms: u64) -> Seq<char> {
    "## Session\n\n"@ + "- KiCad version: "@ + int_decimal(v.major as int) + "."@ + int_decimal(
        v.minor as int,
    ) + "."@ + int_decimal(v.patch as int) + " ("@ + v.full_version@ + ")\n"@
        + "- Socket URI: `"@ + socket_uri + "`\n"@ + "- Timeout (ms): "@ + int_decimal(
        timeout_ms as int,
    ) + "\n\n"@
}

#[verifier::spinoff_prover]
#[verifier::rlimit(40)]
fn push_session(out: &mut String, v: &VersionInfo, socket_uri: &str, timeout_ms: u64)
    ensures
        final(out)@ == old(out)@ + intro_text() + session_text(*v, socket_uri@, timeout_ms),
{
    push_str(out, "# Board Read Reconstruction Report\n\n");
    push_str(out, "Generated by `kicad-ipc-cli board-read-report`.\n\n");
    push_str(
        out,
        "Goal: verify that non-mutating PCB API reads are sufficient to reconstruct board state.\n\n",
    );
    push_str(out, "## Session\n\n");
    push_str(out, "- KiCad version: ");
    push_decimal_u64(out, v.major as u64);
    push_str(out, ".");
    push_decimal_u64(out, v.minor as u64);
    push_str(out, ".");
    push_decimal_u64(out, v.patch as u64);
    push_str(out, " (");
    push_str(out, v.full_version.as_str());
    push_str(out, ")\n");
    push_str(out, "- Socket URI: `");
    push_str(out, socket_uri);
    push_str(out, "`\n");
    push_str(out, "- Timeout (ms): ");
    push_decimal_u64(out, timeout_ms);
    push_str(out, "\n\n");
}

/// One line of the open documents list.
pub open spec fn doc_row(i: int, d: DocumentSpecifier) -> Seq<char> {
    "- ["@ + int_decimal(i) + "] type="@ + document_type_text(d.document_type) + " board="@ + or_dash(
        d.board_filename,
    ) + " project_name="@ + or_dash(d.project.name) + " project_path="@ + or_dash(d.project.path)
        + "\n"@
}

pub open spec fn doc_row_fn() -> spec_fn(int, DocumentSpecifier) -> Seq<char> {
    |i: int, d: DocumentSpecifier| doc_row(i, d)
}

/// The open documents section.
pub open spec fn docs_text(docs: Seq<DocumentSpecifier>) -> Seq<char> {
    "## Open Documents\n\n"@ + if docs.len() == 0 {
        "- No open PCB docs\n\n"@
    } else {
        rows_text(docs, doc_row_fn()) + "\n"@
    }
}

#[verifier::spinoff_prover]
#[verifier::rlimit(40)]
fn push_doc_row(out: &mut String, i: usize, d: &DocumentSpecifier)
    ensures
        final(out)@ == old(out)@ + doc_row(i as int, *d),
{
    push_str(out, "- [");
    push_decimal_u64(out, i as u64);
    push_str(out, "] type=");
    push_str(out, d.document_type.as_str());
    push_str(out, " board=");
    push_or_dash(out, &d.board_filename);
    push_str(out, " project_name=");
    push_or_dash(out, &d.project.name);
    push_str(out, " project_path=");
    push_or_dash(out, &d.project.path);
    push_str(out, "\n");
}

fn push_docs(out: &mut String, docs: &Vec<DocumentSpecifier>)
    ensures
        final(out)@ == old(out)@ + docs_text(docs@),
{
    push_str(out, "## Open Documents\n\n");
    if docs.len() == 0 {
        push_str(out, "- No open PCB docs\n\n");
        return ;
    }
    let ghost start = out@;
    let n = docs.len();
    let mut i: usize = 0;
    while i < n
        invariant
            n == docs@.len(),
            i <= n,
            out@ == start + rows_text(docs@.take(i as int), doc_row_fn()),
        decreases n - i,
    {
        proof {
            lemma_rows_step(docs@, i as int, doc_row_fn());
        }
        push_doc_row(out, i, &docs[i]);
        i = i + 1;
    }
    proof {
        lemma_rows_all(docs@, doc_row_fn());
    }
    push_str(out, "\n");
}

/// One line of a layer list.
pub open spec fn layer_line(l: BoardLayerInfo) -> Seq<char> {
    "  - "@ + l.name@ + " ("@ + int_decimal(l.id as int) + ")\n"@
}

pub open spec fn layer_line_fn() -> spec_fn(int, BoardLayerInfo) -> Seq<char> {
    |i: int, l: BoardLayerInfo| layer_line(l)
}

fn push_layer_line(out: &mut String, l: &BoardLayerInfo)
    ensures
        final(out)@ == old(out)@ + layer_line(*l),
{
    push_str(out, "  - ");
    push_str(out, l.name.as_str());
    push_str(out, " (");
    push_decimal_i64(out, l.id as i64);
    push_str(out, ")\n");
}

fn push_layer_lines(out: &mut String, layers: &Vec<BoardLayerInfo>)
    ensures
        final(out)@ == old(out)@ + rows_text(layers@, layer_line_fn()),
{
    let ghost start = out@;
    let n = layers.len();
    let mut i: usize = 0;
    while i < n
        invariant
            n == layers@.len(),
            i <= n,
            out@ == start + rows_text(layers@.take(i as int), layer_line_fn()),
        decreases n - i,
    {
        proof {
            lemma_rows_step(layers@, i as int, layer_line_fn());
        }
        push_layer_line(out, &layers[i]);
        i = i + 1;
    }
    proof {
        lemma_rows_all(layers@, layer_line_fn());
    }
}

/// One line of the netlist.
pub open spec fn net_row(net: BoardNet) -> Seq<char> {
    "- code="@ + int_decimal(net.code as int) + " name="@ + net.name@ + "\n"@
}

pub open spec fn net_row_fn() -> spec_fn(int, BoardNet) -> Seq<char> {
    |i: int, net: BoardNet| net_row(net)
}

fn push_net_rows(out: &mut String, nets: &Vec<BoardNet>)
    ensures
        final(out)@ == old(out)@ + rows_text(nets@, net_row_fn()),
{
    let ghost start = out@;
    let n = nets.len();
    let mut i: usize = 0;
    while i < n
        invariant
            n == nets@.len(),
            i <= n,
            out@ == start + rows_text(nets@.take(i as int), net_row_fn()),
        decreases n - i,
    {
        proof {
            lemma_rows_step(nets@, i as int, net_row_fn());
        }
        push_str(out, "- code=");
        push_decimal_i64(out, nets[i].code as i64);
        push_str(out, " name=");
        push_str(out, nets[i].name.as_str());
        push_str(out, "\n");
        i = i + 1;
    }
    proof {
        lemma_rows_all(nets@, net_row_fn());
    }
}

/// The enabled and visible layer lists.
pub open spec fn layer_lists_text(d: BoardReadData) -> Seq<char> {
    "## Layer / Origin / Nets\n\n"@ + "- copper_layer_count: "@ + int_decimal(
        d.enabled.copper_layer_count as int,
    ) + "\n"@ + "- enabled_layers:\n"@ + rows_text(d.enabled.layers@, layer_line_fn())
        + "- visible_layers:\n"@ + rows_text(d.visible_layers@, layer_line_fn())
}

/// The active layer and the two origins.
pub open spec fn origins_text(d: BoardReadData) -> Seq<char> {
    "- active_layer: "@ + d.active_layer.name@ + " ("@ + int_decimal(d.active_layer.id as int)
        + ")\n"@ + "- grid_origin_nm: "@ + int_decimal(d.grid_origin.x_nm as int) + ","@
        + int_decimal(d.grid_origin.y_nm as int) + "\n"@ + "- drill_origin_nm: "@ + int_decimal(
        d.drill_origin.x_nm as int,
    ) + ","@ + int_decimal(d.drill_origin.y_nm as int) + "\n"@
}

/// The net count and the netlist.
pub open spec fn netlist_text(nets: Seq<BoardNet>) -> Seq<char> {
    "- net_count: "@ + int_decimal(nets.len() as int) + "\n"@ + "\n### Netlist\n\n"@ + rows_text(
        nets,
        net_row_fn(),
    ) + "\n"@
}

/// The layer, origin and net section.
pub open spec fn layers_text(d: BoardReadData) -> Seq<char> {
    layer_lists_text(d) + origins_text(d) + netlist_text(d.nets@)
}

#[verifier::spinoff_prover]
#[verifier::rlimit(40)]
fn push_layer_lists(out: &mut String, d: &BoardReadData)
    ensures
        final(out)@ == old(out)@ + layer_lists_text(*d),
{
    push_str(out, "## Layer / Origin / Nets\n\n");
    push_str(out, "- copper_layer_count: ");
    push_decimal_u64(out, d.enabled.copper_layer_count as u64);
    push_str(out, "\n");
    push_str(out, "- enabled_layers:\n");
    push_layer_lines(out, &d.enabled.layers);
    push_str(out, "- visible_layers:\n");
    push_layer_lines(out, &d.visible_layers);
}

#[verifier::spinoff_prover]
#[verifier::rlimit(40)]
fn push_origins(out: &mut String, d: &BoardReadData)
    ensures
        final(out)@ == old(out)@ + origins_text(*d),
{
    push_str(out, "- active_layer: ");
    push_str(out, d.active_layer.name.as_str());
    push_str(out, " (");
    push_decimal_i64(out, d.active_layer.id as i64);
    push_str(out, ")\n");
    push_str(out, "- grid_origin_nm: ");
    push_decimal_i64(out, d.grid_origin.x_nm);
    push_str(out, ",");
    push_decimal_i64(out, d.grid_origin.y_nm);
    push_str(out, "\n");
    push_str(out, "- drill_origin_nm: ");
    push_decimal_i64(out, d.drill_origin.x_nm);
    push_str(out, ",");
    push_decimal_i64(out, d.drill_origin.y_nm);
    push_str(out, "\n");
}

fn push_netlist(out: &mut String, nets: &Vec<BoardNet>)
    ensures
        final(out)@ == old(out)@ + netlist_text(nets@),
{
    push_str(out, "- net_count: ");
    push_decimal_u64(out, nets.len() as u64);
    push_str(out, "\n");
    push_str(out, "\n### Netlist\n\n");
    push_net_rows(out, nets);
    push_str(out, "\n");
}

fn push_layers(out: &mut String, d: &BoardReadData)
    ensures
        final(out)@ == old(out)@ + layers_text(*d),
{
    push_layer_lists(out, d);
    push_origins(out, d);
    push_netlist(out, &d.nets);
}

// ---------------------------------------------------------------------------
// Pads, presence and polygons.
// ---------------------------------------------------------------------------
/// The net code, or `-` for a pad on no net.
pub open spec fn opt_code_text(o: Option<i32>) -> Seq<char> {
    match o {
        Some(c) => int_decimal(c as int),
        None => "-"@,
    }
}

/// One line of the pad-level netlist.
pub open spec fn pad_row(e: PadNetEntry) -> Seq<char> {
    "- footprint_ref="@ + or_dash(e.footprint_reference) + " footprint_id="@ + or_dash(
        e.footprint_id,
    ) + " pad_id="@ + or_dash(e.pad_id) + " pad_number="@ + e.pad_number@ + " net_code="@
        + opt_code_text(e.net_code) + " net_name="@ + or_dash(e.net_name) + "\n"@
}

pub open spec fn pad_row_fn() -> spec_fn(int, PadNetEntry) -> Seq<char> {
    |i: int, e: PadNetEntry| pad_row(e)
}

/// How many of `len` rows a list capped at `cap` shows.
pub open spec fn shown_rows(len: nat, cap: nat) -> int {
    if len <= cap {
        len as int
    } else {
        cap as int
    }
}

/// The pad-level netlist section; it lists the first
/// [`REPORT_MAX_PAD_NET_ROWS`] entries and counts the rest.
pub open spec fn pads_text(entries: Seq<PadNetEntry>) -> Seq<char> {
    "### Pad-Level Netlist (Footprint/Pad/Net)\n\n"@ + "- pad_entry_count: "@ + int_decimal(
        entries.len() as int,
    ) + "\n"@ + rows_text(
        entries.take(shown_rows(entries.len(), REPORT_MAX_PAD_NET_ROWS as nat)),
        pad_row_fn(),
    ) + (if entries.len() > REPORT_MAX_PAD_NET_ROWS {
        "- ... omitted "@ + int_decimal(entries.len() - REPORT_MAX_PAD_NET_ROWS)
            + " additional pad net rows (use `netlist-pads` CLI command for full output)\n"@
    } else {
        Seq::empty()
    }) + "\n"@
}

#[verifier::spinoff_prover]
#[verifier::rlimit(40)]
fn push_pad_row(out: &mut String, e: &PadNetEntry)
    ensures
        final(out)@ == old(out)@ + pad_row(*e),
{
    push_str(out, "- footprint_ref=");
    push_or_dash(out, &e.footprint_reference);
    push_str(out, " footprint_id=");
    push_or_dash(out, &e.footprint_id);
    push_str(out, " pad_id=");
    push_or_dash(out, &e.pad_id);
    push_str(out, " pad_number=");
    push_str(out, e.pad_number.as_str());
    push_str(out, " net_code=");
    match e.net_code {
        Some(c) => push_decimal_i64(out, c as i64),
        None => push_str(out, "-"),
    }
    push_str(out, " net_name=");
    push_or_dash(out, &e.net_name);
    push_str(out, "\n");
}

#[verifier::spinoff_prover]
#[verifier::rlimit(40)]
fn push_pads(out: &mut String, entries: &Vec<PadNetEntry>)
    ensures
        final(out)@ == old(out)@ + pads_text(entries@),
{
    push_str(out, "### Pad-Level Netlist (Footprint/Pad/Net)\n\n");
    push_str(out, "- pad_entry_count: ");
    push_decimal_u64(out, entries.len() as u64);
    push_str(out, "\n");
    let ghost start = out@;
    let n = entries.len();
    let shown = if n <= REPORT_MAX_PAD_NET_ROWS {
        n
    } else {
        REPORT_MAX_PAD_NET_ROWS
    };
    let mut i: usize = 0;
    while i < shown
        invariant
            n == entries@.len(),
            shown == shown_rows(n as nat, REPORT_MAX_PAD_NET_ROWS as nat),
            i <= shown,
            out@ == start + rows_text(entries@.take(i as int), pad_row_fn()),
        decreases shown - i,
    {
        proof {
            lemma_rows_step(entries@, i as int, pad_row_fn());
        }
        push_pad_row(out, &entries[i]);
        i = i + 1;
    }
    if n > REPORT_MAX_PAD_NET_ROWS {
        push_str(out, "- ... omitted ");
        push_decimal_u64(out, (n - REPORT_MAX_PAD_NET_ROWS) as u64);
        push_str(
            out,
            " additional pad net rows (use `netlist-pads` CLI command for full output)\n",
        );
    }
    push_str(out, "\n");
}

/// One line of the padstack presence matrix.
pub open spec fn presence_row(r: PadstackPresenceEntry) -> Seq<char> {
    "- item_id="@ + r.item_id@ + " layer_id="@ + int_decimal(r.layer_id as int) + " layer_name="@
        + r.layer_name@ + " presence="@ + padstack_presence_text(r.presence) + "\n"@
}

pub open spec fn presence_row_fn() -> spec_fn(int, PadstackPresenceEntry) -> Seq<char> {
    |i: int, r: PadstackPresenceEntry| presence_row(r)
}

/// The head of the padstack presence section: the counts of distinct pad
/// ids, enabled layers and presence rows.
pub open spec fn presence_head_text(d: BoardReadData) -> Seq<char> {
    "### Padstack Presence Matrix (Pad IDs x Enabled Layers)\n\n"@ + "- unique_pad_id_count: "@
        + int_decimal(pad_id_set(d.pad_entries@).len() as int) + "\n- enabled_layer_count: "@
        + int_decimal(d.enabled.layers@.len() as int) + "\n"@ + "- presence_entry_count: "@
        + int_decimal(d.presence_rows@.len() as int) + "\n"@
}

/// The presence rows the report lists: the first
/// [`REPORT_MAX_PRESENCE_ROWS`], then a count of the rest.
pub open spec fn presence_rows_text(rows: Seq<PadstackPresenceEntry>) -> Seq<char> {
    rows_text(rows.take(shown_rows(rows.len(), REPORT_MAX_PRESENCE_ROWS as nat)), presence_row_fn())
        + (if rows.len() > REPORT_MAX_PRESENCE_ROWS {
        "- ... omitted "@ + int_decimal(rows.len() - REPORT_MAX_PRESENCE_ROWS)
            + " additional presence rows (use `padstack-presence` CLI command for full output)\n"@
    } else {
        Seq::empty()
    }) + "\n"@
}

/// The padstack presence section; it lists the first
/// [`REPORT_MAX_PRESENCE_ROWS`] rows and counts the rest.
pub open spec fn presence_text(d: BoardReadData) -> Seq<char> {
    presence_head_text(d) + presence_rows_text(d.presence_rows@)
}

fn push_presence_row(out: &mut String, r: &PadstackPresenceEntry)
    ensures
        final(out)@ == old(out)@ + presence_row(*r),
{
    push_str(out, "- item_id=");
    push_str(out, r.item_id.as_str());
    push_str(out, " layer_id=");
    push_decimal_i64(out, r.layer_id as i64);
    push_str(out, " layer_name=");
    push_str(out, r.layer_name.as_str());
    push_str(out, " presence=");
    let text = r.presence.display_string();
    push_str(out, text.as_str());
    push_str(out, "\n");
}

#[verifier::spinoff_prover]
#[verifier::rlimit(40)]
fn push_presence_head(out: &mut String, d: &BoardReadData)
    ensures
        final(out)@ == old(out)@ + presence_head_text(*d),
{
    let pad_ids = report_pad_ids(&d.pad_entries);
    proof {
        lemma_sorted_count(pad_ids@, pad_id_set(d.pad_entries@));
    }
    push_str(out, "### Padstack Presence Matrix (Pad IDs x Enabled Layers)\n\n");
    push_str(out, "- unique_pad_id_count: ");
    push_decimal_u64(out, pad_ids.len() as u64);
    push_str(out, "\n- enabled_layer_count: ");
    push_decimal_u64(out, d.enabled.layers.len() as u64);
    push_str(out, "\n");
    push_str(out, "- presence_entry_count: ");
    push_decimal_u64(out, d.presence_rows.len() as u64);
    push_str(out, "\n");
}

#[verifier::spinoff_prover]
#[verifier::rlimit(40)]
fn push_presence_rows(out: &mut String, rows: &Vec<PadstackPresenceEntry>)
    ensures
        final(out)@ == old(out)@ + presence_rows_text(rows@),
{
    let ghost start = out@;
    let n = rows.len();
    let shown = if n <= REPORT_MAX_PRESENCE_ROWS {
        n
    } else {
        REPORT_MAX_PRESENCE_ROWS
    };
    let mut i: usize = 0;
    while i < shown
        invariant
            n == rows@.len(),
            shown == shown_rows(n as nat, REPORT_MAX_PRESENCE_ROWS as nat),
            i <= shown,
            out@ == start + rows_text(rows@.take(i as int), presence_row_fn()),
        decreases shown - i,
    {
        proof {
            lemma_rows_step(rows@, i as int, presence_row_fn());
        }
        push_presence_row(out, &rows[i]);
        i = i + 1;
    }
    if n > REPORT_MAX_PRESENCE_ROWS {
        push_str(out, "- ... omitted ");
        push_decimal_u64(out, (n - REPORT_MAX_PRESENCE_ROWS) as u64);
        push_str(
            out,
            " additional presence rows (use `padstack-presence` CLI command for full output)\n",
        );
    }
    push_str(out, "\n");
}

fn push_presence(out: &mut String, d: &BoardReadData)
    ensures
        final(out)@ == old(out)@ + presence_text(*d),
{
    push_presence_head(out, d);
    push_presence_rows(out, &d.presence_rows);
}

/// The pad and layer a polygon line names.
pub open spec fn polygon_row_head(e: PadShapeAsPolygonEntry) -> Seq<char> {
    "- pad_id="@ + e.pad_id@ + " layer_id="@ + int_decimal(e.layer_id as int) + " layer_name="@
        + e.layer_name@
}

/// How many nodes of each kind a polygon has, as a polygon line sets out.
pub open spec fn polygon_counts_text(p: crate::model::board::PolygonWithHolesNm) -> Seq<char> {
    let nodes = polygon_nodes(p);
    " outline_nodes="@ + int_decimal(
        match p.outline {
            Some(o) => o.nodes@.len() as int,
            None => 0,
        },
    ) + " hole_count="@ + int_decimal(p.holes@.len() as int) + " hole_nodes_total="@ + int_decimal(
        hole_nodes(p.holes@).len() as int,
    ) + " point_nodes="@ + int_decimal(point_node_count(nodes) as int) + " arc_nodes="@
        + int_decimal(nodes.len() - point_node_count(nodes)) + "\n"@
}

/// One line of a layer's pad polygons: the pad, the layer and how many
/// nodes of each kind the polygon has.
pub open spec fn polygon_row(e: PadShapeAsPolygonEntry) -> Seq<char> {
    polygon_row_head(e) + polygon_counts_text(e.polygon)
}

pub open spec fn polygon_row_fn() -> spec_fn(int, PadShapeAsPolygonEntry) -> Seq<char> {
    |i: int, e: PadShapeAsPolygonEntry| polygon_row(e)
}

/// Whether the node count of every polygon fits in a `usize`.
pub open spec fn polygons_fit(d: BoardReadData) -> bool {
    forall|i: int, j: int|
        0 <= i < d.layer_polygons@.len() && 0 <= j < d.layer_polygons@[i]@.len() ==> polygon_nodes(
            #[trigger] d.layer_polygons@[i]@[j].polygon,
        ).len() <= usize::MAX
}

/// The pad polygons read for the `i`-th enabled layer.
pub open spec fn layer_polys(d: BoardReadData, i: int) -> Seq<PadShapeAsPolygonEntry> {
    if 0 <= i < d.layer_polygons@.len() {
        d.layer_polygons@[i]@
    } else {
        Seq::empty()
    }
}

/// The section of one enabled layer: how many pads are present on it and,
/// when any are, their polygons.
pub open spec fn layer_section(d: BoardReadData, i: int, l: BoardLayerInfo) -> Seq<char> {
    let count = present_id_set(d.presence_rows@, l.id).len();
    "#### Layer "@ + l.name@ + " ("@ + int_decimal(l.id as int) + ")\n\n- pad_count_present: "@
        + int_decimal(count as int) + "\n\n"@ + if count == 0 {
        Seq::empty()
    } else {
        "- polygon_entry_count: "@ + int_decimal(layer_polys(d, i).len() as int) + "\n\n"@
            + rows_text(layer_polys(d, i), polygon_row_fn()) + "\n"@
    }
}

pub open spec fn layer_section_fn(d: BoardReadData) -> spec_fn(int, BoardLayerInfo) -> Seq<char> {
    |i: int, l: BoardLayerInfo| layer_section(d, i, l)
}

/// The pad polygon section, one part for each enabled layer.
pub open spec fn polygons_text(d: BoardReadData) -> Seq<char> {
    "### Pad Shape Polygons (All Present Pad/Layer Pairs)\n\n"@
        + "For full per-node coordinate payloads, run `pad-shape-polygon --pad-id ... --layer-id ... --debug` for targeted pad/layer subsets.\n\n"@
        + rows_text(d.enabled.layers@, layer_section_fn(d))
}

#[verifier::spinoff_prover]
#[verifier::rlimit(40)]
fn push_polygon_counts(out: &mut String, p: &crate::model::board::PolygonWithHolesNm)
    requires
        polygon_nodes(*p).len() <= usize::MAX,
    ensures
        final(out)@ == old(out)@ + polygon_counts_text(*p),
{
    let summary = polygon_geometry_summary(p);
    let outline: u64 = summary.outline_nodes as u64;
    let holes: u64 = summary.hole_count as u64;
    let hole_total: u64 = summary.hole_nodes_total as u64;
    let points: u64 = summary.point_nodes as u64;
    let arcs: u64 = summary.arc_nodes as u64;
    push_str(out, " outline_nodes=");
    push_decimal_u64(out, outline);
    push_str(out, " hole_count=");
    push_decimal_u64(out, holes);
    push_str(out, " hole_nodes_total=");
    push_decimal_u64(out, hole_total);
    push_str(out, " point_nodes=");
    push_decimal_u64(out, points);
    push_str(out, " arc_nodes=");
    push_decimal_u64(out, arcs);
    push_str(out, "\n");
}

#[verifier::spinoff_prover]
#[verifier::rlimit(40)]
fn push_polygon_row(out: &mut String, e: &PadShapeAsPolygonEntry)
    requires
        polygon_nodes(e.polygon).len() <= usize::MAX,
    ensures
        final(out)@ == old(out)@ + polygon_row(*e),
{
    push_str(out, "- pad_id=");
    push_str(out, e.pad_id.as_str());
    push_str(out, " layer_id=");
    push_decimal_i64(out, e.layer_id as i64);
    push_str(out, " layer_name=");
    push_str(out, e.layer_name.as_str());
    push_polygon_counts(out, &e.polygon);
}

fn push_polygon_rows(out: &mut String, d: &BoardReadData, k: usize)
    requires
        k < d.layer_polygons@.len(),
        polygons_fit(*d),
    ensures
        final(out)@ == old(out)@ + rows_text(layer_polys(*d, k as int), polygon_row_fn()),
{
    let polys = &d.layer_polygons[k];
    let ghost start = out@;
    let n = polys.len();
    let mut i: usize = 0;
    while i < n
        invariant
            k < d.layer_polygons@.len(),
            polys@ == d.layer_polygons@[k as int]@,
            polygons_fit(*d),
            n == polys@.len(),
            i <= n,
            out@ == start + rows_text(polys@.take(i as int), polygon_row_fn()),
        decreases n - i,
    {
        proof {
            lemma_rows_step(polys@, i as int, polygon_row_fn());
            assert(polygon_nodes(d.layer_polygons@[k as int]@[i as int].polygon).len()
                <= usize::MAX);
        }
        push_polygon_row(out, &polys[i]);
        i = i + 1;
    }
    proof {
        lemma_rows_all(polys@, polygon_row_fn());
    }
}

#[verifier::spinoff_prover]
#[verifier::rlimit(40)]
fn push_layer_section(out: &mut String, d: &BoardReadData, k: usize)
    requires
        k < d.enabled.layers@.len(),
        polygons_fit(*d),
    ensures
        final(out)@ == old(out)@ + layer_section(*d, k as int, d.enabled.layers@[k as int]),
{
    let layer = &d.enabled.layers[k];
    let present = present_pad_ids_on_layer(&d.presence_rows, layer.id);
    proof {
        lemma_sorted_count(present@, present_id_set(d.presence_rows@, layer.id));
    }
    push_str(out, "#### Layer ");
    push_str(out, layer.name.as_str());
    push_str(out, " (");
    push_decimal_i64(out, layer.id as i64);
    push_str(out, ")\n\n- pad_count_present: ");
    push_decimal_u64(out, present.len() as u64);
    push_str(out, "\n\n");
    if present.len() == 0 {
        return ;
    }
    push_str(out, "- polygon_entry_count: ");
    if k < d.layer_polygons.len() {
        push_decimal_u64(out, d.layer_polygons[k].len() as u64);
        push_str(out, "\n\n");
        push_polygon_rows(out, d, k);
    } else {
        push_decimal_u64(out, 0);
        push_str(out, "\n\n");
    }
    push_str(out, "\n");
}

fn push_polygons(out: &mut String, d: &BoardReadData)
    requires
        polygons_fit(*d),
    ensures
        final(out)@ == old(out)@ + polygons_text(*d),
{
    push_str(out, "### Pad Shape Polygons (All Present Pad/Layer Pairs)\n\n");
    push_str(
        out,
        "For full per-node coordinate payloads, run `pad-shape-polygon --pad-id ... --layer-id ... --debug` for targeted pad/layer subsets.\n\n",
    );
    let ghost start = out@;
    let n = d.enabled.layers.len();
    let mut i: usize = 0;
    while i < n
        invariant
            n == d.enabled.layers@.len(),
            polygons_fit(*d),
            i <= n,
            out@ == start + rows_text(d.enabled.layers@.take(i as int), layer_section_fn(*d)),
        decreases n - i,
    {
        proof {
            lemma_rows_step(d.enabled.layers@, i as int, layer_section_fn(*d));
        }
        push_layer_section(out, d, i);
        i = i + 1;
    }
    proof {
        lemma_rows_all(d.enabled.layers@, layer_section_fn(*d));
    }
}

// ---------------------------------------------------------------------------
// Title block and editor structures.
// ---------------------------------------------------------------------------
/// One comment line of the title block, numbered from one.
pub open spec fn comment_row(i: int, c: String) -> Seq<char> {
    "- comment"@ + int_decimal(i + 1) + ": "@ + c@ + "\n"@
}

pub open spec fn comment_row_fn() -> spec_fn(int, String) -> Seq<char> {
    |i: int, c: String| comment_row(i, c)
}

/// The title block section.
pub open spec fn title_text(t: TitleBlockInfo) -> Seq<char> {
    "## Board/Editor Structures\n\n"@ + "### Title Block\n\n"@ + "- title: "@ + t.title@ + "\n"@
        + "- date: "@ + t.date@ + "\n"@ + "- revision: "@ + t.revision@ + "\n"@ + "- company: "@
        + t.company@ + "\n"@ + rows_text(t.comments@, comment_row_fn()) + "\n"@
}

#[verifier::spinoff_prover]
#[verifier::rlimit(40)]
fn push_title(out: &mut String, t: &TitleBlockInfo)
    ensures
        final(out)@ == old(out)@ + title_text(*t),
{
    push_str(out, "## Board/Editor Structures\n\n");
    push_str(out, "### Title Block\n\n");
    push_str(out, "- title: ");
    push_str(out, t.title.as_str());
    push_str(out, "\n");
    push_str(out, "- date: ");
    push_str(out, t.date.as_str());
    push_str(out, "\n");
    push_str(out, "- revision: ");
    push_str(out, t.revision.as_str());
    push_str(out, "\n");
    push_str(out, "- company: ");
    push_str(out, t.company.as_str());
    push_str(out, "\n");
    let ghost start = out@;
    let n = t.comments.len();
    let mut i: usize = 0;
    while i < n
        invariant
            n == t.comments@.len(),
            i <= n,
            out@ == start + rows_text(t.comments@.take(i as int), comment_row_fn()),
        decreases n - i,
    {
        proof {
            lemma_rows_step(t.comments@, i as int, comment_row_fn());
        }
        push_str(out, "- comment");
        push_decimal_u64(out, (i + 1) as u64);
        push_str(out, ": ");
        push_str(out, t.comments[i].as_str());
        push_str(out, "\n");
        i = i + 1;
    }
    proof {
        lemma_rows_all(t.comments@, comment_row_fn());
    }
    push_str(out, "\n");
}

/// A debug rendering set out as a block of text under a heading.
pub open spec fn debug_block(heading: Seq<char>, text: Seq<char>) -> Seq<char> {
    heading + "\n\n```text\n"@ + text + "\n```\n\n"@
}

/// The stackup, graphics defaults, editor appearance and net class map,
/// each as its debug rendering.
pub open spec fn structures_text(d: BoardReadData) -> Seq<char> {
    debug_block("### Stackup"@, d.stackup_debug@) + debug_block(
        "### Graphics Defaults"@,
        d.graphics_defaults_debug@,
    ) + debug_block("### Editor Appearance"@, d.appearance_debug@) + debug_block(
        "### NetClass Map"@,
        d.netclass_debug@,
    )
}

fn push_debug_block(out: &mut String, heading: &str, text: &str)
    ensures
        final(out)@ == old(out)@ + debug_block(heading@, text@),
{
    push_str(out, heading);
    push_str(out, "\n\n```text\n");
    push_str(out, text);
    push_str(out, "\n```\n\n");
}

fn push_structures(out: &mut String, d: &BoardReadData)
    ensures
        final(out)@ == old(out)@ + structures_text(*d),
{
    push_debug_block(out, "### Stackup", d.stackup_debug.as_str());
    push_debug_block(out, "### Graphics Defaults", d.graphics_defaults_debug.as_str());
    push_debug_block(out, "### Editor Appearance", d.appearance_debug.as_str());
    push_debug_block(out, "### NetClass Map", d.netclass_debug.as_str());
}

// ---------------------------------------------------------------------------
// Items, board text and coverage.
// ---------------------------------------------------------------------------
/// An item's debug rendering as the report shows it: its first
/// [`REPORT_MAX_ITEM_DEBUG_CHARS`] characters, marked when cut.
pub open spec fn debug_shown(t: Seq<char>) -> Seq<char> {
    if t.len() > REPORT_MAX_ITEM_DEBUG_CHARS {
        t.take(REPORT_MAX_ITEM_DEBUG_CHARS as int)
            + "\n...<truncated; use items-raw CLI for full payload>"@
    } else {
        t
    }
}

/// The part of the report on the `i`-th item of a type.
pub open spec fn item_row(i: int, it: ReportItem) -> Seq<char> {
    "#### item "@ + int_decimal(i) + "\n\n- type_url: `"@ + it.type_url@ + "`\n- raw_len: `"@
        + int_decimal(it.raw_len as int) + "`\n\n"@ + "```text\n"@ + debug_shown(it.debug@)
        + "\n```\n\n"@
}

pub open spec fn item_row_fn() -> spec_fn(int, ReportItem) -> Seq<char> {
    |i: int, it: ReportItem| item_row(i, it)
}

/// The part of the report on one object type: its count, the first
/// [`REPORT_MAX_ITEM_DEBUG_ROWS_PER_TYPE`] items, and how many it leaves out.
pub open spec fn type_section(t: ReportItemType) -> Seq<char> {
    let n = t.items@.len();
    "### "@ + t.object_type.name@ + " ("@ + int_decimal(t.object_type.code as int) + ")\n\n"@
        + "- status: ok\n- count: "@ + int_decimal(n as int) + "\n\n"@ + rows_text(
        t.items@.take(shown_rows(n, REPORT_MAX_ITEM_DEBUG_ROWS_PER_TYPE as nat)),
        item_row_fn(),
    ) + if n > REPORT_MAX_ITEM_DEBUG_ROWS_PER_TYPE {
        "- ... omitted "@ + int_decimal(n - REPORT_MAX_ITEM_DEBUG_ROWS_PER_TYPE)
            + " additional item debug rows for "@ + t.object_type.name@
            + " (use `items-raw --type-id "@ + int_decimal(t.object_type.code as int)
            + "` for full output)\n\n"@
    } else {
        Seq::empty()
    }
}

pub open spec fn type_section_fn() -> spec_fn(int, ReportItemType) -> Seq<char> {
    |i: int, t: ReportItemType| type_section(t)
}

/// The item coverage section, one part for each object type.
pub open spec fn items_text(types: Seq<ReportItemType>) -> Seq<char> {
    "## PCB Item Coverage (All KOT_PCB_* Types)\n\n"@ + rows_text(types, type_section_fn())
}

#[verifier::spinoff_prover]
#[verifier::rlimit(40)]
fn push_item_row(out: &mut String, i: usize, it: &ReportItem)
    ensures
        final(out)@ == old(out)@ + item_row(i as int, *it),
{
    push_str(out, "#### item ");
    push_decimal_u64(out, i as u64);
    push_str(out, "\n\n- type_url: `");
    push_str(out, it.type_url.as_str());
    push_str(out, "`\n- raw_len: `");
    push_decimal_u64(out, it.raw_len);
    push_str(out, "`\n\n");
    push_str(out, "```text\n");
    let len = chars_of(it.debug.as_str()).len();
    let shown = prefix_of(it.debug.as_str(), REPORT_MAX_ITEM_DEBUG_CHARS);
    push_str(out, shown.as_str());
    if len > REPORT_MAX_ITEM_DEBUG_CHARS {
        push_str(out, "\n...<truncated; use items-raw CLI for full payload>");
    }
    push_str(out, "\n```\n\n");
}

#[verifier::spinoff_prover]
#[verifier::rlimit(40)]
fn push_type_head(out: &mut String, t: &ReportItemType)
    ensures
        final(out)@ == old(out)@ + "### "@ + t.object_type.name@ + " ("@ + int_decimal(
            t.object_type.code as int,
        ) + ")\n\n"@ + "- status: ok\n- count: "@ + int_decimal(t.items@.len() as int) + "\n\n"@,
{
    push_str(out, "### ");
    push_str(out, t.object_type.name);
    push_str(out, " (");
    push_decimal_i64(out, t.object_type.code as i64);
    push_str(out, ")\n\n");
    push_str(out, "- status: ok\n- count: ");
    push_decimal_u64(out, t.items.len() as u64);
    push_str(out, "\n\n");
}

#[verifier::spinoff_prover]
#[verifier::rlimit(40)]
fn push_type_section(out: &mut String, t: &ReportItemType)
    ensures
        final(out)@ == old(out)@ + type_section(*t),
{
    push_type_head(out, t);
    let ghost start = out@;
    let n = t.items.len();
    let shown = if n <= REPORT_MAX_ITEM_DEBUG_ROWS_PER_TYPE {
        n
    } else {
        REPORT_MAX_ITEM_DEBUG_ROWS_PER_TYPE
    };
    let mut i: usize = 0;
    while i < shown
        invariant
            n == t.items@.len(),
            shown == shown_rows(n as nat, REPORT_MAX_ITEM_DEBUG_ROWS_PER_TYPE as nat),
            i <= shown,
            out@ == start + rows_text(t.items@.take(i as int), item_row_fn()),
        decreases shown - i,
    {
        proof {
            lemma_rows_step(t.items@, i as int, item_row_fn());
        }
        push_item_row(out, i, &t.items[i]);
        i = i + 1;
    }
    if n > REPORT_MAX_ITEM_DEBUG_ROWS_PER_TYPE {
        push_str(out, "- ... omitted ");
        push_decimal_u64(out, (n - REPORT_MAX_ITEM_DEBUG_ROWS_PER_TYPE) as u64);
        push_str(out, " additional item debug rows for ");
        push_str(out, t.object_type.name);
        push_str(out, " (use `items-raw --type-id ");
        push_decimal_i64(out, t.object_type.code as i64);
        push_str(out, "` for full output)\n\n");
    }
}

fn push_items(out: &mut String, types: &Vec<ReportItemType>)
    ensures
        final(out)@ == old(out)@ + items_text(types@),
{
    push_str(out, "## PCB Item Coverage (All KOT_PCB_* Types)\n\n");
    let ghost start = out@;
    let n = types.len();
    let mut i: usize = 0;
    while i < n
        invariant
            n == types@.len(),
            i <= n,
            out@ == start + rows_text(types@.take(i as int), type_section_fn()),
        decreases n - i,
    {
        proof {
            lemma_rows_step(types@, i as int, type_section_fn());
        }
        push_type_section(out, &types[i]);
        i = i + 1;
    }
    proof {
        lemma_rows_all(types@, type_section_fn());
    }
}

/// The line naming an object type of which the board holds no item (and
/// nothing for a type it holds items of).
pub open spec fn missing_row(t: ReportItemType) -> Seq<char> {
    if t.items@.len() == 0 {
        "- "@ + t.object_type.name@ + " ("@ + int_decimal(t.object_type.code as int)
            + ") had zero items in this board\n"@
    } else {
        Seq::empty()
    }
}

pub open spec fn missing_row_fn() -> spec_fn(int, ReportItemType) -> Seq<char> {
    |i: int, t: ReportItemType| missing_row(t)
}

/// Whether the board holds items of every listed object type.
pub open spec fn none_missing(types: Seq<ReportItemType>) -> bool {
    forall|j: int| 0 <= j < types.len() ==> (#[trigger] types[j]).items@.len() > 0
}

/// The section naming the object types of which the board holds no item.
pub open spec fn missing_text(types: Seq<ReportItemType>) -> Seq<char> {
    "## Missing Item Classes In Current Board\n\n"@ + if none_missing(types) {
        "- none\n\n"@
    } else {
        rows_text(types, missing_row_fn())
            + "\nIf these are important for your reconstruction target, open a denser board and rerun this report.\n\n"@
    }
}

#[verifier::spinoff_prover]
#[verifier::rlimit(40)]
fn push_missing(out: &mut String, types: &Vec<ReportItemType>)
    ensures
        final(out)@ == old(out)@ + missing_text(types@),
{
    push_str(out, "## Missing Item Classes In Current Board\n\n");
    let ghost head = out@;
    let n = types.len();
    let mut lines = String::new();
    let mut any_missing = false;
    let mut i: usize = 0;
    while i < n
        invariant
            n == types@.len(),
            i <= n,
            lines@ == rows_text(types@.take(i as int), missing_row_fn()),
            any_missing <==> !none_missing(types@.take(i as int)),
        decreases n - i,
    {
        proof {
            lemma_rows_step(types@, i as int, missing_row_fn());
        }
        let t = &types[i];
        if t.items.len() == 0 {
            any_missing = true;
            push_str(&mut lines, "- ");
            push_str(&mut lines, t.object_type.name);
            push_str(&mut lines, " (");
            push_decimal_i64(&mut lines, t.object_type.code as i64);
            push_str(&mut lines, ") had zero items in this board\n");
            assert(!none_missing(types@.take(i + 1))) by {
                assert(types@.take(i + 1)[i as int] == types@[i as int]);
            }
        } else {
            assert(none_missing(types@.take(i as int)) ==> none_missing(types@.take(i + 1))) by {
                if none_missing(types@.take(i as int)) {
                    assert forall|j: int| 0 <= j < i + 1 implies (#[trigger] types@.take(
                        i + 1,
                    )[j]).items@.len() > 0 by {
                        if j < i {
                            assert(types@.take(i + 1)[j] == types@.take(i as int)[j]);
                        }
                    }
                }
            }
            assert(!none_missing(types@.take(i as int)) ==> !none_missing(types@.take(i + 1))) by {
                if !none_missing(types@.take(i as int)) {
                    let j = choose|j: int|
                        !(0 <= j < i ==> (#[trigger] types@.take(i as int)[j]).items@.len() > 0);
                    assert(types@.take(i + 1)[j] == types@.take(i as int)[j]);
                }
            }
        }
        i = i + 1;
    }
    proof {
        lemma_rows_all(types@, missing_row_fn());
    }
    assert(types@.take(n as int) =~= types@);
    if any_missing {
        push_str(out, lines.as_str());
        push_str(
            out,
            "\nIf these are important for your reconstruction target, open a denser board and rerun this report.\n\n",
        );
    } else {
        push_str(out, "- none\n\n");
    }
}

/// The board file text as the report shows it: its first
/// [`REPORT_MAX_BOARD_SNAPSHOT_CHARS`] characters, marked when cut.
pub open spec fn board_shown(t: Seq<char>) -> Seq<char> {
    if t.len() > REPORT_MAX_BOARD_SNAPSHOT_CHARS {
        t.take(REPORT_MAX_BOARD_SNAPSHOT_CHARS as int)
            + "\n... ; <truncated board snapshot, rerun `board-as-string` command for full board text>\n"@
    } else {
        t
    }
}

/// The board file section.
pub open spec fn snapshot_text(t: Seq<char>) -> Seq<char> {
    "## Board File Snapshot (Raw)\n\n```scheme\n"@ + board_shown(t) + "\n```\n\n"@
}

#[verifier::spinoff_prover]
#[verifier::rlimit(40)]
fn push_snapshot(out: &mut String, t: &str)
    ensures
        final(out)@ == old(out)@ + snapshot_text(t@),
{
    push_str(out, "## Board File Snapshot (Raw)\n\n```scheme\n");
    let len = chars_of(t).len();
    let shown = prefix_of(t, REPORT_MAX_BOARD_SNAPSHOT_CHARS);
    push_str(out, shown.as_str());
    if len > REPORT_MAX_BOARD_SNAPSHOT_CHARS {
        push_str(
            out,
            "\n... ; <truncated board snapshot, rerun `board-as-string` command for full board text>\n",
        );
    }
    push_str(out, "\n```\n\n");
}

/// One line of the API coverage list.
pub open spec fn coverage_row(r: (&'static str, &'static str, &'static str)) -> Seq<char> {
    "- `"@ + r.0@ + "` -> `"@ + r.1@ + "` ("@ + r.2@ + ")\n"@
}

pub open spec fn coverage_row_fn() -> spec_fn(int, (&'static str, &'static str, &'static str)) -> Seq<
    char,
> {
    |i: int, r: (&'static str, &'static str, &'static str)| coverage_row(r)
}

/// The API coverage section.
pub open spec fn coverage_text() -> Seq<char> {
    "## Proto Coverage (Board Read)\n\n"@ + rows_text(board_read_coverage(), coverage_row_fn())
        + "\n"@
}

#[verifier::spinoff_prover]
#[verifier::rlimit(40)]
fn push_coverage(out: &mut String)
    ensures
        final(out)@ == old(out)@ + coverage_text(),
{
    push_str(out, "## Proto Coverage (Board Read)\n\n");
    let rows = proto_coverage_board_read_rows();
    let ghost start = out@;
    let n = rows.len();
    let mut i: usize = 0;
    while i < n
        invariant
            n == rows@.len(),
            rows@ == board_read_coverage(),
            i <= n,
            out@ == start + rows_text(rows@.take(i as int), coverage_row_fn()),
        decreases n - i,
    {
        proof {
            lemma_rows_step(rows@, i as int, coverage_row_fn());
        }
        let (command, status, note) = rows[i];
        push_str(out, "- `");
        push_str(out, command);
        push_str(out, "` -> `");
        push_str(out, status);
        push_str(out, "` (");
        push_str(out, note);
        push_str(out, ")\n");
        i = i + 1;
    }
    proof {
        lemma_rows_all(rows@, coverage_row_fn());
    }
    push_str(out, "\n");
}

// ---------------------------------------------------------------------------
// The report.
// ---------------------------------------------------------------------------
/// The markdown of the board read report on `d`, section by section.
pub open spec fn board_read_report_text(d: BoardReadData) -> Seq<char> {
    intro_text() + session_text(d.version, d.socket_uri@, d.timeout_ms) + docs_text(d.docs@)
        + layers_text(d) + pads_text(d.pad_entries@) + presence_text(d) + polygons_text(d)
        + title_text(d.title_block) + structures_text(d) + items_text(d.item_types@) + missing_text(
        d.item_types@,
    ) + snapshot_text(d.board_text@) + coverage_text()
}

/// Writes the board read report on what the board reads gave.
///
/// The pad-level netlist and the padstack presence matrix list at most
/// [`REPORT_MAX_PAD_NET_ROWS`] and [`REPORT_MAX_PRESENCE_ROWS`] rows and count
/// the rest; item debug renderings and the board file text are cut to
/// [`REPORT_MAX_ITEM_DEBUG_CHARS`] and [`REPORT_MAX_BOARD_SNAPSHOT_CHARS`]
/// characters.
#[verifier::spinoff_prover]
#[verifier::rlimit(40)]
pub fn board_read_report_markdown(d: &BoardReadData) -> (r: String)
    requires
        polygons_fit(*d),
    ensures
        r@ == board_read_report_text(*d),
{
    let mut out = String::new();
    push_session(&mut out, &d.version, d.socket_uri.as_str(), d.timeout_ms);
    push_docs(&mut out, &d.docs);
    push_layers(&mut out, d);
    push_pads(&mut out, &d.pad_entries);
    push_presence(&mut out, d);
    push_polygons(&mut out, d);
    push_title(&mut out, &d.title_block);
    push_structures(&mut out, d);
    push_items(&mut out, &d.item_types);
    push_missing(&mut out, &d.item_types);
    push_snapshot(&mut out, d.board_text.as_str());
    push_coverage(&mut out);
    out
}

} // verus!
