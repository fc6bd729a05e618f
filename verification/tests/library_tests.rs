use std::time::Duration;

use kicad_ipc_rs::blocking::KiCadClientBlockingBuilder;
use kicad_ipc_rs::cli::{
    bytes_to_hex, default_config, format_layer_names_for_cli, hex_char, hex_nibble,
    hex_to_bytes, parse_board_flip_mode, parse_drc_severity, parse_inactive_layer_display_mode,
    parse_item_ids, parse_net_color_display_mode, parse_ratsnest_display_mode,
    polygon_geometry_summary, PolygonGeometrySummary, CLI_DEFAULT_TIMEOUT_MS,
};
use kicad_ipc_rs::client::board_mappers::{
    map_net_class_info, map_netclass_for_nets_response, net_class_info_to_proto,
};
use kicad_ipc_rs::client::config::{
    ipc_path_from_uri, normalize_socket_uri, resolve_socket_uri, ClientBuilder, KiCadClient,
};
use kicad_ipc_rs::client::decode::decode_pcb_item;
use kicad_ipc_rs::client::documents::{project_path_from_value, resolve_current_project_path};
use kicad_ipc_rs::client::text_mappers::{
    board_text_spec_to_any, map_text_spec_from_proto, text_spec_to_proto,
};
use kicad_ipc_rs::envelope::type_url;
use kicad_ipc_rs::error::KiCadError;
use kicad_ipc_rs::model::board::{
    ArcStartMidEndNm, BoardFlipMode, BoardTextSpec, ItemLockState, PcbItem, BoardLayerInfo, BoardOriginKind, DrcSeverity,
    InactiveLayerDisplayMode, NetClassInfo, NetClassType, NetColorDisplayMode, PolyLineNm,
    PolyLineNodeGeometryNm, PolygonWithHolesNm, RatsnestDisplayMode, Vector2Nm,
};
use kicad_ipc_rs::model::common::{
    CommitAction, DocumentSpecifier, DocumentType, EditorFrameType, MapMergeMode, ProjectInfo,
    TextAttributesSpec, TextHorizontalAlignment, TextSpec, TextVerticalAlignment,
};
use kicad_ipc_rs::model::editable::wrappers::GroupItem;
use kicad_ipc_rs::model::editable::{EditablePcbItem, EditablePcbItemKind, LayerSet};
use kicad_ipc_rs::proto;
use kicad_ipc_rs::proto::{Any, AnyValue, F64Bits};

fn unhandled_open_documents() -> KiCadError {
    KiCadError::ApiStatus {
        code: "AS_UNHANDLED".to_string(),
        message: "no handler available for request of type kiapi.common.commands.GetOpenDocuments"
            .to_string(),
    }
}

fn strings(values: &[&str]) -> Vec<String> {
    values.iter().map(|v| v.to_string()).collect()
}

#[test]
fn resolve_current_project_path_reads_env_when_open_docs_unhandled() {
    let result =
        resolve_current_project_path(Err(unhandled_open_documents()), Some("/tmp/kicad-env-project"))
            .expect("KIPRJMOD fallback should resolve project path");
    assert_eq!(result, "/tmp/kicad-env-project");
}

#[test]
fn resolve_current_project_path_keeps_original_error_without_env() {
    let err = resolve_current_project_path(Err(unhandled_open_documents()), None)
        .expect_err("without env fallback should keep original unhandled error");
    assert!(matches!(err, KiCadError::ApiStatus { .. }));
}

#[test]
fn resolve_current_project_path_does_not_fallback_when_no_board_docs() {
    let err = resolve_current_project_path(Ok(Vec::new()), Some("/tmp/kicad-env-project"))
        .expect_err("no-board docs should remain BoardNotOpen");
    assert!(matches!(err, KiCadError::BoardNotOpen));
}

#[test]
fn project_path_from_environment_ignores_empty_values() {
    assert!(project_path_from_value(Some("   ")).is_none());
    assert!(project_path_from_value(None).is_none());
    assert_eq!(project_path_from_value(Some("  /tmp/p \t")), Some("/tmp/p".to_string()));
}

#[test]
fn resolve_current_project_path_passes_other_errors_on() {
    let err = resolve_current_project_path(Err(KiCadError::BoardNotOpen), Some("/tmp/x"))
        .expect_err("other errors are kept");
    assert_eq!(err, KiCadError::BoardNotOpen);

    let docs = vec![DocumentSpecifier {
        document_type: DocumentType::Pcb,
        board_filename: Some("a.kicad_pcb".to_string()),
        project: ProjectInfo { name: Some("a".to_string()), path: Some("/tmp/a".to_string()) },
    }];
    assert_eq!(resolve_current_project_path(Ok(docs), Some("/tmp/x")), Ok("/tmp/a".to_string()));
}

#[test]
fn hex_round_trip_and_exact_values() {
    assert_eq!(bytes_to_hex(&[0x00, 0x0f, 0xa5, 0xff]), "000fa5ff");
    assert_eq!(bytes_to_hex(&[]), "");
    assert_eq!(hex_to_bytes("000fa5ff"), Ok(vec![0x00, 0x0f, 0xa5, 0xff]));
    assert_eq!(hex_to_bytes("ABcd"), Ok(vec![0xab, 0xcd]));
    let data: Vec<u8> = (0u8..=255).collect();
    assert_eq!(hex_to_bytes(&bytes_to_hex(&data)), Ok(data));
    assert_eq!(hex_char(10), 'a');
    assert_eq!(hex_nibble('F'), Ok(15));
}

#[test]
fn hex_errors_name_the_problem() {
    assert_eq!(
        hex_to_bytes("abc"),
        Err("hex payload must have an even number of characters".to_string())
    );
    assert_eq!(hex_to_bytes("zz"), Err("invalid hex character `z`".to_string()));
    assert_eq!(hex_nibble('g'), Err("invalid hex character `g`".to_string()));
}

#[test]
fn item_ids_are_collected_from_id_options() {
    let args = strings(&["--id", "a", "--other", "--id", "b"]);
    assert_eq!(parse_item_ids(&args, "items-by-id"), Ok(strings(&["a", "b"])));

    let missing = strings(&["--id"]);
    assert_eq!(parse_item_ids(&missing, "items-by-id"), Err(KiCadError::Config {
        reason: "missing value for items-by-id --id".to_string(),
    }));

    let none = strings(&["--other"]);
    assert_eq!(parse_item_ids(&none, "items-by-id"), Err(KiCadError::Config {
        reason: "items-by-id requires one or more `--id <uuid>` arguments".to_string(),
    }));
}

#[test]
fn layer_names_are_joined_with_commas() {
    assert_eq!(format_layer_names_for_cli(&[]), "-");
    let layers = vec![
        BoardLayerInfo { id: 3, name: "F.Cu".to_string() },
        BoardLayerInfo { id: 34, name: "B.Cu".to_string() },
    ];
    assert_eq!(format_layer_names_for_cli(&layers), "F.Cu,B.Cu");
}

#[test]
fn option_values_parse_and_report_unknown_values() {
    assert_eq!(parse_inactive_layer_display_mode("dimmed"), Ok(InactiveLayerDisplayMode::Dimmed));
    assert_eq!(
        parse_inactive_layer_display_mode("faded"),
        Err("unknown inactive layer display `faded`; expected normal, dimmed, or hidden".to_string())
    );
    assert_eq!(parse_net_color_display_mode("ratsnest"), Ok(NetColorDisplayMode::Ratsnest));
    assert!(parse_net_color_display_mode("none").is_err());
    assert_eq!(parse_board_flip_mode("flipped-x"), Ok(BoardFlipMode::FlippedX));
    assert!(parse_board_flip_mode("flipped-y").is_err());
    assert_eq!(parse_ratsnest_display_mode("visible-layers"), Ok(RatsnestDisplayMode::VisibleLayers));
    assert!(parse_ratsnest_display_mode("some").is_err());
    assert_eq!(parse_drc_severity("warning"), Ok(DrcSeverity::Warning));
    assert_eq!(
        parse_drc_severity("fatal"),
        Err("unknown drc severity `fatal`; expected warning, error, exclusion, ignore, info, action, debug, or undefined".to_string())
    );
}

#[test]
fn cli_defaults() {
    let config = default_config();
    assert_eq!(config.timeout_ms, CLI_DEFAULT_TIMEOUT_MS);
    assert_eq!(config.timeout_ms, 15_000);
    assert!(config.socket.is_none() && config.token.is_none() && config.client_name.is_none());
}

#[test]
fn polygon_summary_counts_nodes() {
    let p = |x: i64| PolyLineNodeGeometryNm::Point(Vector2Nm { x_nm: x, y_nm: 0 });
    let arc = PolyLineNodeGeometryNm::Arc(ArcStartMidEndNm {
        start: Vector2Nm { x_nm: 0, y_nm: 0 },
        mid: Vector2Nm { x_nm: 1, y_nm: 1 },
        end: Vector2Nm { x_nm: 2, y_nm: 0 },
    });
    let polygon = PolygonWithHolesNm {
        outline: Some(PolyLineNm { nodes: vec![p(0), p(1), arc], closed: true }),
        holes: vec![
            PolyLineNm { nodes: vec![p(5), arc], closed: true },
            PolyLineNm { nodes: vec![p(6)], closed: false },
        ],
    };
    assert_eq!(polygon_geometry_summary(&polygon), PolygonGeometrySummary {
        outline_nodes: 3,
        hole_count: 2,
        hole_nodes_total: 3,
        point_nodes: 4,
        arc_nodes: 2,
    });
    let empty = PolygonWithHolesNm { outline: None, holes: vec![] };
    assert_eq!(polygon_geometry_summary(&empty), PolygonGeometrySummary::default());
}

#[test]
fn socket_uris_normalize_and_resolve() {
    let once = normalize_socket_uri("/tmp/a.sock");
    assert_eq!(normalize_socket_uri(&once), once);
    assert_eq!(ipc_path_from_uri("ipc:///tmp/a.sock"), Some("/tmp/a.sock".to_string()));
    assert_eq!(ipc_path_from_uri("tcp://host:1"), None);
    assert_eq!(ipc_path_from_uri(&normalize_socket_uri("/x/y")), Some("/x/y".to_string()));

    assert_eq!(resolve_socket_uri(Some("/a"), Some("/b"), "/c"), "ipc:///a");
    assert_eq!(resolve_socket_uri(None, Some("/b"), "/c"), "ipc:///b");
    assert_eq!(resolve_socket_uri(None, Some(""), "/c"), "ipc:///c");
    assert_eq!(resolve_socket_uri(None, None, "/c"), "ipc:///c");
}

#[test]
fn builder_settings_take_precedence_over_environment() {
    let client = KiCadClient::builder()
        .timeout(Duration::from_millis(250))
        .socket_path("/tmp/kicad/api.sock")
        .token("tok")
        .client_name("tester")
        .resolve(Some("/env.sock"), Some("env-token"), "/default.sock", "default-name".to_string());
    assert_eq!(client.timeout(), Duration::from_millis(250));
    assert_eq!(client.socket_uri(), "ipc:///tmp/kicad/api.sock");
    assert_eq!(client.token(), "tok");
    assert_eq!(client.client_name(), "tester");

    let fallback = ClientBuilder::new().resolve(
        Some("/env.sock"),
        Some("env-token"),
        "/default.sock",
        "default-name".to_string(),
    );
    assert_eq!(fallback.timeout(), Duration::from_millis(3_000));
    assert_eq!(fallback.socket_uri(), "ipc:///env.sock");
    assert_eq!(fallback.token(), "env-token");
    assert_eq!(fallback.client_name(), "default-name");

    let mut bare = ClientBuilder::default().resolve(None, None, "/default.sock", "n".to_string());
    assert_eq!(bare.socket_uri(), "ipc:///default.sock");
    assert_eq!(bare.token(), "");
    bare.set_token("learned");
    assert_eq!(bare.token(), "learned");
}

#[test]
fn blocking_builder_forwards_to_the_client_builder() {
    let client = KiCadClientBlockingBuilder::new()
        .timeout(Duration::from_millis(42))
        .socket_path("/s")
        .token("t")
        .client_name("c")
        .into_inner()
        .resolve(None, None, "/d", "x".to_string());
    assert_eq!(client.timeout(), Duration::from_millis(42));
    assert_eq!(client.socket_uri(), "ipc:///s");
    assert_eq!(client.token(), "t");
    assert_eq!(client.client_name(), "c");
}

#[test]
fn object_type_names_resolve_from_codes() {
    assert_eq!(KiCadClient::pcb_object_type_name(proto::KOT_PCB_VIA), Some("KOT_PCB_VIA"));
    assert_eq!(KiCadClient::pcb_object_type_name(-1), None);
    assert_eq!(KiCadClient::pcb_object_type_codes().len(), 18);
}

#[test]
fn enum_texts_round_trip() {
    for frame in [EditorFrameType::PcbEditor, EditorFrameType::SchematicEditor] {
        assert_eq!(frame.as_str().parse::<EditorFrameType>(), Ok(frame));
    }
    for t in [DocumentType::Pcb, DocumentType::Project, DocumentType::Schematic] {
        assert_eq!(t.as_str().parse::<DocumentType>(), Ok(t));
        assert_eq!(DocumentType::from_proto(t.to_proto()), Some(t));
    }
    for m in [MapMergeMode::Merge, MapMergeMode::Replace] {
        assert_eq!(m.as_str().parse::<MapMergeMode>(), Ok(m));
    }
    for a in [CommitAction::Commit, CommitAction::Drop] {
        assert_eq!(a.as_str().parse::<CommitAction>(), Ok(a));
    }
    for k in [BoardOriginKind::Grid, BoardOriginKind::Drill] {
        assert_eq!(k.as_str().parse::<BoardOriginKind>(), Ok(k));
    }
    for s in [DrcSeverity::Warning, DrcSeverity::Error, DrcSeverity::Debug] {
        assert_eq!(s.as_str().parse::<DrcSeverity>(), Ok(s));
    }
}

#[test]
fn net_class_round_trips_through_the_api_message() {
    let info = NetClassInfo {
        name: "Power".to_string(),
        priority: Some(3),
        class_type: NetClassType::Explicit,
        constituents: vec!["GND".to_string(), "VCC".to_string()],
        board: None,
    };
    let back = map_net_class_info(&net_class_info_to_proto(&info));
    assert_eq!(back, info);
}

#[test]
fn net_classes_for_nets_are_sorted_by_net_name() {
    let class = |name: &str| proto::NetClass { name: name.to_string(), ..Default::default() };
    let response = proto::NetClassForNetsResponse {
        classes: vec![
            proto::NetClassForNet { net_name: "VCC".to_string(), net_class: class("Power") },
            proto::NetClassForNet { net_name: "GND".to_string(), net_class: class("Ground") },
            proto::NetClassForNet { net_name: "A0".to_string(), net_class: class("Default") },
        ],
    };
    let rows = map_netclass_for_nets_response(&response);
    let names: Vec<&str> = rows.iter().map(|r| r.net_name.as_str()).collect();
    assert_eq!(names, vec!["A0", "GND", "VCC"]);
    assert_eq!(rows[1].net_class.name, "Ground");
}

#[test]
fn editable_track_layer_can_be_set_and_read() {
    let raw = Any {
        type_url: type_url("kiapi.board.types.Track"),
        value: AnyValue::Track(proto::Track { layer: proto::BL_F_CU, ..Default::default() }),
    };
    let mut item = EditablePcbItem::from_any(raw).expect("track decodes");
    assert_eq!(item.kind(), EditablePcbItemKind::Track);
    assert_eq!(item.layer_set(), LayerSet::Single(proto::BL_F_CU));
    item.set_layer_id(proto::BL_B_CU).expect("tracks have one layer");
    assert_eq!(item.layer_set(), LayerSet::Single(proto::BL_B_CU));
    let back = item.into_any();
    assert_eq!(back.value, AnyValue::Track(proto::Track { layer: proto::BL_B_CU, ..Default::default() }));
}

#[test]
fn editable_via_layer_cannot_be_set() {
    let raw = Any {
        type_url: type_url("kiapi.board.types.Via"),
        value: AnyValue::Via(proto::Via::default()),
    };
    let mut item = EditablePcbItem::from_any(raw).expect("via decodes");
    assert_eq!(item.layer_set(), LayerSet::Padstack);
    match item.set_layer_id(proto::BL_F_CU) {
        Err(KiCadError::InvalidResponse { reason }) => {
            assert!(reason.starts_with("set_layer_id is not supported for "));
        }
        other => panic!("unexpected result {other:?}"),
    }
}

#[test]
fn unknown_payloads_are_kept_as_they_came() {
    let raw = Any { type_url: "type.googleapis.com/x.Y".to_string(), value: AnyValue::Encoded(vec![1]) };
    let item = EditablePcbItem::from_any(raw).expect("unknown payloads are kept");
    assert_eq!(item.kind(), EditablePcbItemKind::Unknown);
    assert_eq!(item.layer_set(), LayerSet::NoLayer);
    let back = item.into_any();
    assert_eq!(back, Any { type_url: "type.googleapis.com/x.Y".to_string(), value: AnyValue::Encoded(vec![1]) });

    let bad = Any { type_url: type_url("kiapi.board.types.Track"), value: AnyValue::Encoded(vec![]) };
    assert!(matches!(EditablePcbItem::from_any(bad), Err(KiCadError::ProtobufDecode(_))));
}

#[test]
fn group_items_hold_name_and_members() {
    let mut group = GroupItem::new("g", strings(&["a", "b"]));
    assert_eq!(group.name(), "g");
    assert_eq!(group.member_ids(), vec!["a", "b"]);
    group.set_name("h");
    group.set_member_ids(strings(&["c"]));
    assert_eq!(group.name(), "h");
    assert_eq!(group.member_ids(), vec!["c"]);
}

fn sample_attributes() -> TextAttributesSpec {
    TextAttributesSpec {
        font_name: Some("KiCad Font".to_string()),
        horizontal_alignment: TextHorizontalAlignment::Right,
        vertical_alignment: TextVerticalAlignment::Bottom,
        line_spacing: Some(F64Bits { bits: 1.5f64.to_bits() }),
        stroke_width_nm: Some(120_000),
        italic: true,
        size_nm: Some(Vector2Nm { x_nm: 1_000_000, y_nm: 1_200_000 }),
        ..TextAttributesSpec::default()
    }
}

#[test]
fn text_specs_round_trip_through_the_api_message() {
    let spec = TextSpec {
        text: "REF**".to_string(),
        position_nm: Some(Vector2Nm { x_nm: 10, y_nm: -20 }),
        attributes: Some(sample_attributes()),
        hyperlink: Some("https://kicad.org".to_string()),
    };
    let back = map_text_spec_from_proto(&text_spec_to_proto(spec.clone()));
    assert_eq!(back, spec);

    let loose = TextSpec { hyperlink: Some(String::new()), ..TextSpec::plain("x") };
    let back = map_text_spec_from_proto(&text_spec_to_proto(loose));
    assert_eq!(back.hyperlink, None);
}

#[test]
fn board_text_reads_back_what_was_written() {
    let mut spec = BoardTextSpec::new(
        "HELLO",
        Vector2Nm { x_nm: 1_000, y_nm: 2_000 },
        proto::BL_DWGS_USER,
        Some(sample_attributes()),
    );
    spec.knockout = true;
    spec.locked = ItemLockState::Locked;
    spec.id = Some("id-1".to_string());
    match decode_pcb_item(board_text_spec_to_any(spec)).expect("board text decodes") {
        PcbItem::BoardText(text) => {
            assert_eq!(text.id.as_deref(), Some("id-1"));
            assert_eq!(text.text.as_deref(), Some("HELLO"));
            assert_eq!(text.position_nm, Some(Vector2Nm { x_nm: 1_000, y_nm: 2_000 }));
            assert_eq!(text.layer.id, proto::BL_DWGS_USER);
            assert!(text.knockout);
            assert_eq!(text.locked, ItemLockState::Locked);
        }
        other => panic!("unexpected item {other:?}"),
    }
}

#[test]
fn editable_items_convert_with_std_traits() {
    let raw = Any {
        type_url: type_url("kiapi.board.types.Track"),
        value: AnyValue::Track(proto::Track { layer: proto::BL_F_CU, ..Default::default() }),
    };
    let item = EditablePcbItem::try_from(raw).expect("track decodes");
    assert_eq!(item.kind(), EditablePcbItemKind::Track);
    let back: Any = item.into();
    assert_eq!(back, Any {
        type_url: type_url("kiapi.board.types.Track"),
        value: AnyValue::Track(proto::Track { layer: proto::BL_F_CU, ..Default::default() }),
    });
    let bad = Any { type_url: type_url("kiapi.board.types.Via"), value: AnyValue::Encoded(vec![]) };
    assert!(EditablePcbItem::try_from(bad).is_err());
}
