use kicad_ipc_rs::cli_report::{
    board_read_report_markdown, present_pad_ids_on_layer, report_pad_ids, BoardReadData,
    ReportItem, ReportItemType,
};
use kicad_ipc_rs::model::board::{
    ArcStartMidEndNm, BoardEnabledLayers, BoardLayerInfo, BoardNet, PadNetEntry,
    PadShapeAsPolygonEntry, PadstackPresenceEntry, PadstackPresenceState, PolyLineNm,
    PolyLineNodeGeometryNm, PolygonWithHolesNm, Vector2Nm,
};
use kicad_ipc_rs::model::common::{
    DocumentSpecifier, DocumentType, PcbObjectTypeCode, ProjectInfo, TitleBlockInfo, VersionInfo,
};

fn layer(id: i32, name: &str) -> BoardLayerInfo {
    BoardLayerInfo { id, name: name.to_string() }
}

fn pad_entry(pad_id: Option<&str>, number: &str) -> PadNetEntry {
    PadNetEntry {
        footprint_reference: Some("U1".to_string()),
        footprint_id: None,
        pad_id: pad_id.map(|id| id.to_string()),
        pad_number: number.to_string(),
        net_code: Some(3),
        net_name: None,
    }
}

fn presence(item_id: &str, layer_id: i32, state: PadstackPresenceState) -> PadstackPresenceEntry {
    PadstackPresenceEntry {
        item_id: item_id.to_string(),
        layer_id,
        layer_name: "F.Cu".to_string(),
        presence: state,
    }
}

fn point(x: i64) -> PolyLineNodeGeometryNm {
    PolyLineNodeGeometryNm::Point(Vector2Nm { x_nm: x, y_nm: 0 })
}

fn sample_data() -> BoardReadData {
    let arc = PolyLineNodeGeometryNm::Arc(ArcStartMidEndNm {
        start: Vector2Nm { x_nm: 0, y_nm: 0 },
        mid: Vector2Nm { x_nm: 1, y_nm: 1 },
        end: Vector2Nm { x_nm: 2, y_nm: 0 },
    });
    BoardReadData {
        version: VersionInfo { major: 9, minor: 0, patch: 2, full_version: "9.0.2".to_string() },
        socket_uri: "ipc:///tmp/kicad/api.sock".to_string(),
        timeout_ms: 60000,
        docs: vec![DocumentSpecifier {
            document_type: DocumentType::Pcb,
            board_filename: Some("demo.kicad_pcb".to_string()),
            project: ProjectInfo { name: Some("demo".to_string()), path: None },
        }],
        enabled: BoardEnabledLayers { copper_layer_count: 2, layers: vec![layer(3, "F.Cu"), layer(34, "B.Cu")] },
        visible_layers: vec![layer(3, "F.Cu")],
        active_layer: layer(3, "F.Cu"),
        grid_origin: Vector2Nm { x_nm: -5, y_nm: 7 },
        drill_origin: Vector2Nm { x_nm: 0, y_nm: 0 },
        nets: vec![BoardNet { code: 1, name: "GND".to_string() }],
        pad_entries: vec![pad_entry(Some("b"), "2"), pad_entry(Some("a"), "1"), pad_entry(Some("b"), "2"), pad_entry(None, "3")],
        presence_rows: vec![
            presence("a", 3, PadstackPresenceState::Present),
            presence("b", 3, PadstackPresenceState::Present),
            presence("a", 34, PadstackPresenceState::NotPresent),
        ],
        layer_polygons: vec![vec![PadShapeAsPolygonEntry {
            pad_id: "a".to_string(),
            layer_id: 3,
            layer_name: "F.Cu".to_string(),
            polygon: PolygonWithHolesNm {
                outline: Some(PolyLineNm { nodes: vec![point(0), point(1), arc], closed: true }),
                holes: vec![PolyLineNm { nodes: vec![point(5)], closed: true }],
            },
        }]],
        title_block: TitleBlockInfo {
            title: "Demo".to_string(),
            date: "2024-01-01".to_string(),
            revision: "A".to_string(),
            company: "ACME".to_string(),
            comments: vec!["first".to_string(), "".to_string()],
        },
        stackup_debug: "STACKUP".to_string(),
        graphics_defaults_debug: "GRAPHICS".to_string(),
        appearance_debug: "APPEARANCE".to_string(),
        netclass_debug: "NETCLASSES".to_string(),
        item_types: vec![
            ReportItemType {
                object_type: PcbObjectTypeCode::new_via(),
                items: vec![ReportItem { type_url: "type.googleapis.com/kiapi.board.types.Via".to_string(), raw_len: 12, debug: "Via { .. }".to_string() }],
            },
            ReportItemType { object_type: PcbObjectTypeCode::new_zone(), items: Vec::new() },
        ],
        board_text: "(kicad_pcb)".to_string(),
    }
}

#[test]
fn report_pad_ids_are_sorted_and_unique() {
    let entries = sample_data().pad_entries;
    assert_eq!(report_pad_ids(&entries), vec!["a".to_string(), "b".to_string()]);
}

#[test]
fn present_pad_ids_on_layer_keeps_present_rows_of_that_layer() {
    let rows = sample_data().presence_rows;
    assert_eq!(present_pad_ids_on_layer(&rows, 3), vec!["a".to_string(), "b".to_string()]);
    assert!(present_pad_ids_on_layer(&rows, 34).is_empty());
}

#[test]
fn board_read_report_sets_out_each_section() {
    let report = board_read_report_markdown(&sample_data());
    assert!(report.starts_with("# Board Read Reconstruction Report\n\n"));
    assert!(report.contains("- KiCad version: 9.0.2 (9.0.2)\n- Socket URI: `ipc:///tmp/kicad/api.sock`\n- Timeout (ms): 60000\n\n"));
    assert!(report.contains("- [0] type=pcb board=demo.kicad_pcb project_name=demo project_path=-\n"));
    assert!(report.contains("- enabled_layers:\n  - F.Cu (3)\n  - B.Cu (34)\n- visible_layers:\n  - F.Cu (3)\n- active_layer: F.Cu (3)\n"));
    assert!(report.contains("- grid_origin_nm: -5,7\n"));
    assert!(report.contains("- net_count: 1\n\n### Netlist\n\n- code=1 name=GND\n\n"));
    assert!(report.contains("- footprint_ref=U1 footprint_id=- pad_id=- pad_number=3 net_code=3 net_name=-\n"));
    assert!(report.contains("- unique_pad_id_count: 2\n- enabled_layer_count: 2\n- presence_entry_count: 3\n"));
    assert!(report.contains("- item_id=a layer_id=34 layer_name=F.Cu presence=PSP_NOT_PRESENT\n"));
    assert!(report.contains("#### Layer F.Cu (3)\n\n- pad_count_present: 2\n\n- polygon_entry_count: 1\n\n- pad_id=a layer_id=3 layer_name=F.Cu outline_nodes=3 hole_count=1 hole_nodes_total=1 point_nodes=3 arc_nodes=1\n\n"));
    assert!(report.contains("#### Layer B.Cu (34)\n\n- pad_count_present: 0\n\n## Board/Editor Structures"));
    assert!(report.contains("- comment1: first\n- comment2: \n\n"));
    assert!(report.contains("### Stackup\n\n```text\nSTACKUP\n```\n\n"));
    assert!(report.contains("### KOT_PCB_VIA (12)\n\n- status: ok\n- count: 1\n\n#### item 0\n\n- type_url: `type.googleapis.com/kiapi.board.types.Via`\n- raw_len: `12`\n\n```text\nVia { .. }\n```\n\n"));
    assert!(report.contains("## Missing Item Classes In Current Board\n\n- KOT_PCB_ZONE (16) had zero items in this board\n\nIf these are important"));
    assert!(report.contains("## Board File Snapshot (Raw)\n\n```scheme\n(kicad_pcb)\n```\n\n"));
    assert!(report.contains("- `kiapi.board.commands.GetBoardStackup` -> `implemented` (get_board_stackup_raw/get_board_stackup)\n"));
    assert!(report.ends_with(")\n\n"));
}

#[test]
fn board_read_report_caps_long_lists() {
    let mut data = sample_data();
    data.pad_entries = (0..2003).map(|i| pad_entry(Some(&format!("p{i}")), "1")).collect();
    data.presence_rows = (0..2001).map(|i| presence(&format!("p{i}"), 34, PadstackPresenceState::NotPresent)).collect();
    data.item_types[0].items = (0..7)
        .map(|_| ReportItem { type_url: "u".to_string(), raw_len: 0, debug: "x".repeat(8005) })
        .collect();
    data.item_types[1].items = vec![ReportItem { type_url: "u".to_string(), raw_len: 0, debug: String::new() }];
    data.board_text = "b".repeat(750_001);
    let report = board_read_report_markdown(&data);
    assert!(report.contains("- pad_entry_count: 2003\n"));
    assert_eq!(report.matches("- footprint_ref=").count(), 2000);
    assert!(report.contains("- ... omitted 3 additional pad net rows (use `netlist-pads` CLI command for full output)\n"));
    assert!(report.contains("- unique_pad_id_count: 2003\n"));
    assert_eq!(report.matches("- item_id=").count(), 2000);
    assert!(report.contains("- ... omitted 1 additional presence rows (use `padstack-presence` CLI command for full output)\n"));
    assert_eq!(report.matches("#### item ").count(), 6);
    assert!(report.contains("- ... omitted 2 additional item debug rows for KOT_PCB_VIA (use `items-raw --type-id 12` for full output)\n\n"));
    assert!(report.contains(&format!("{}\n...<truncated; use items-raw CLI for full payload>\n```", "x".repeat(8000))));
    assert!(report.contains("## Missing Item Classes In Current Board\n\n- none\n\n"));
    assert!(report.contains(&format!("{}\n... ; <truncated board snapshot, rerun `board-as-string` command for full board text>\n\n```\n\n", "b".repeat(750_000))));
}
