use kicad_ipc_rs::client::board_mappers::{board_stackup_to_proto, map_board_stackup};
use kicad_ipc_rs::client::commands::{
    CMD_BEGIN_COMMIT, CMD_CREATE_ITEMS, CMD_DELETE_ITEMS, CMD_END_COMMIT,
    CMD_GET_BOARD_LAYER_NAME, CMD_GET_NETS, CMD_GET_SELECTION, CMD_GET_VERSION, CMD_PING,
    RES_CREATE_ITEMS_RESPONSE, RES_DELETE_ITEMS_RESPONSE, RES_GET_NETS, RES_GET_VERSION,
    RES_BOARD_LAYER_NAME_RESPONSE, RES_PROTOBUF_EMPTY, RES_SELECTION_RESPONSE,
};
use kicad_ipc_rs::client::config::{normalize_socket_uri, KiCadClient};
use kicad_ipc_rs::client::decode::{decode_pcb_item, pad_netlist_from_footprint_items};
use kicad_ipc_rs::client::documents::{
    is_get_open_documents_unhandled, select_single_board_document, select_single_project_path,
};
use kicad_ipc_rs::client::items::{
    bucket_items_by_pcb_object_type, build_get_connected_items_command,
    build_get_items_by_net_command, deleted_item_ids_from_response, pcb_object_type_for_any,
};
use kicad_ipc_rs::client::mappers::{
    board_editor_appearance_settings_to_proto, commit_action_to_proto, drc_severity_to_proto,
    ensure_item_deletion_status_ok, ensure_item_request_ok, ensure_item_status_ok,
    layer_to_model, map_commit_session, map_hit_test_result, map_item_bounding_boxes,
    expect_payload_type, map_merge_mode_to_proto, map_polygon_with_holes,
    map_run_action_status, response_payload_as_any, text_horizontal_alignment_to_proto,
};
use kicad_ipc_rs::client::selection::summarize_selection;
use kicad_ipc_rs::client::text_mappers::{
    board_text_spec_to_proto, model_document_to_proto, project_document_proto, text_spec_to_proto,
};
use kicad_ipc_rs::envelope::type_url;
use kicad_ipc_rs::error::KiCadError;
use kicad_ipc_rs::model::board::{
    BoardEditorAppearanceSettings, BoardFlipMode, BoardLayerInfo, BoardNet, BoardStackup,
    BoardStackupLayer, BoardStackupLayerType, BoardTextSpec, DrcSeverity,
    InactiveLayerDisplayMode, ItemLockState, NetColorDisplayMode, PcbBarcodeErrorCorrection,
    PcbBarcodeKind, PcbItem, PcbViaType, RatsnestDisplayMode, Vector2Nm,
};
use kicad_ipc_rs::model::common::{
    CommitAction, DocumentSpecifier, DocumentType, ItemHitTestResult, MapMergeMode, ProjectInfo,
    RunActionStatus, TextAttributesSpec, TextHorizontalAlignment, TextSpec, TextVerticalAlignment,
};
use kicad_ipc_rs::proto;
use kicad_ipc_rs::proto::{Any, AnyValue, F64Bits};

fn kiid(value: &str) -> Option<proto::Kiid> {
    Some(proto::Kiid { value: value.to_string() })
}

fn packed(message_name: &str, value: AnyValue) -> Any {
    Any { type_url: type_url(message_name), value }
}

fn pcb_doc(board: &str, name: &str, path: &str) -> DocumentSpecifier {
    DocumentSpecifier {
        document_type: DocumentType::Pcb,
        board_filename: Some(board.to_string()),
        project: ProjectInfo { name: Some(name.to_string()), path: Some(path.to_string()) },
    }
}

#[test]
fn normalize_socket_uri_adds_ipc_scheme() {
    let normalized = normalize_socket_uri("/tmp/kicad/api.sock");
    assert_eq!(normalized, "ipc:///tmp/kicad/api.sock");
}

#[test]
fn normalize_socket_uri_preserves_existing_scheme() {
    let normalized = normalize_socket_uri("tcp://127.0.0.1:1234");
    assert_eq!(normalized, "tcp://127.0.0.1:1234");
}

#[test]
fn project_document_proto_uses_project_type() {
    let document = project_document_proto();
    assert_eq!(document.doc_type, DocumentType::Project.to_proto());
    assert!(document.identifier.is_none());
}

#[test]
fn select_single_project_path_picks_unique_path() {
    let docs = vec![pcb_doc("demo.kicad_pcb", "demo", "/tmp/demo")];
    let result = select_single_project_path(&docs)
        .expect("a single project path should be selected when exactly one path exists");
    assert_eq!(result, "/tmp/demo");
}

#[test]
fn select_single_project_path_errors_on_ambiguity() {
    let docs = vec![pcb_doc("a.kicad_pcb", "a", "/tmp/a"), pcb_doc("b.kicad_pcb", "b", "/tmp/b")];
    let result = select_single_project_path(&docs);
    assert!(matches!(result, Err(KiCadError::AmbiguousProjectPath { .. })));
}

#[test]
fn select_single_project_path_requires_open_board() {
    let docs: Vec<DocumentSpecifier> = Vec::new();
    let result = select_single_project_path(&docs);
    assert!(matches!(result, Err(KiCadError::BoardNotOpen)));
}

#[test]
fn is_get_open_documents_unhandled_matches_expected_shape() {
    let unhandled = KiCadError::ApiStatus { code: "AS_UNHANDLED".to_string(), message: String::new() };
    assert!(is_get_open_documents_unhandled(&unhandled));

    let other = KiCadError::ApiStatus {
        code: "AS_BAD_REQUEST".to_string(),
        message: "bad request".to_string(),
    };
    assert!(!is_get_open_documents_unhandled(&other));
}

#[test]
fn select_single_board_document_errors_on_multiple_open_boards() {
    let docs = vec![pcb_doc("a.kicad_pcb", "a", "/tmp/a"), pcb_doc("b.kicad_pcb", "b", "/tmp/b")];
    let result = select_single_board_document(&docs);
    assert!(matches!(result, Err(KiCadError::AmbiguousBoardSelection { .. })));
}

#[test]
fn layer_to_model_formats_unknown_id() {
    let layer = layer_to_model(999);
    assert_eq!(layer.name, "UNKNOWN_LAYER(999)");
    assert_eq!(layer.id, 999);
}

#[test]
fn model_document_to_proto_carries_board_filename_and_project() {
    let document = pcb_doc("demo.kicad_pcb", "demo", "/tmp/demo");
    let proto = model_document_to_proto(&document);
    assert_eq!(proto.doc_type, DocumentType::Pcb.to_proto());
    let identifier = proto.identifier.expect("identifier should be present");
    match identifier {
        proto::DocumentIdentifier::BoardFilename(filename) => {
            assert_eq!(filename, "demo.kicad_pcb")
        }
        other => panic!("unexpected identifier variant: {other:?}"),
    }
    let project = proto.project.expect("project should be present");
    assert_eq!(project.name, "demo");
    assert_eq!(project.path, "/tmp/demo");
}

#[test]
fn map_commit_session_maps_commit_id() {
    let response = proto::BeginCommitResponse { id: kiid("commit-123") };
    let session = map_commit_session(response).expect("commit id should map");
    assert_eq!(session.id, "commit-123");
}

#[test]
fn map_commit_session_requires_commit_id() {
    let response = proto::BeginCommitResponse { id: None };
    let err = map_commit_session(response).expect_err("missing id must fail");
    assert!(matches!(err, KiCadError::InvalidResponse { .. }));
}

#[test]
fn commit_action_to_proto_maps_known_variants() {
    assert_eq!(commit_action_to_proto(CommitAction::Commit), proto::CMA_COMMIT);
    assert_eq!(commit_action_to_proto(CommitAction::Drop), proto::CMA_DROP);
}

#[test]
fn map_merge_mode_to_proto_maps_known_variants() {
    assert_eq!(map_merge_mode_to_proto(MapMergeMode::Merge), proto::MMM_MERGE);
    assert_eq!(map_merge_mode_to_proto(MapMergeMode::Replace), proto::MMM_REPLACE);
}

#[test]
fn drc_severity_to_proto_maps_known_variants() {
    assert_eq!(drc_severity_to_proto(DrcSeverity::Warning), proto::DRS_WARNING);
    assert_eq!(drc_severity_to_proto(DrcSeverity::Error), proto::DRS_ERROR);
}

#[test]
fn board_editor_appearance_settings_to_proto_maps_known_variants() {
    let proto = board_editor_appearance_settings_to_proto(BoardEditorAppearanceSettings {
        inactive_layer_display: InactiveLayerDisplayMode::Hidden,
        net_color_display: NetColorDisplayMode::Ratsnest,
        board_flip: BoardFlipMode::FlippedX,
        ratsnest_display: RatsnestDisplayMode::VisibleLayers,
    });
    assert_eq!(proto.inactive_layer_display, proto::ILDM_HIDDEN);
    assert_eq!(proto.net_color_display, proto::NCDM_RATSNEST);
    assert_eq!(proto.board_flip, proto::BFM_FLIPPED_X);
    assert_eq!(proto.ratsnest_display, proto::RDM_VISIBLE_LAYERS);
}

#[test]
fn map_board_stackup_defaults_missing_optional_messages() {
    let mapped = map_board_stackup(&proto::BoardStackup::default());
    assert_eq!(mapped.finish_type_name, "");
    assert!(!mapped.impedance_controlled);
    assert!(!mapped.edge_has_connector);
    assert!(!mapped.edge_has_castellated_pads);
    assert!(!mapped.edge_has_edge_plating);
    assert!(mapped.layers.is_empty());
}

#[test]
fn map_board_stackup_maps_unknown_layer_type_enum() {
    let mapped = map_board_stackup(&proto::BoardStackup {
        finish: None,
        impedance: None,
        edge: None,
        layers: vec![proto::BoardStackupLayer {
            thickness: None,
            layer: proto::BL_F_CU,
            enabled: true,
            layer_type: 777,
            dielectric: None,
            color: None,
            material_name: String::new(),
            user_name: String::new(),
        }],
    });
    assert!(matches!(
        mapped.layers.first().map(|layer| layer.layer_type),
        Some(BoardStackupLayerType::Unknown(777))
    ));
}

#[test]
fn board_stackup_to_proto_maps_unknown_layer_type_and_missing_nested_messages() {
    let proto = board_stackup_to_proto(&BoardStackup {
        finish_type_name: String::new(),
        impedance_controlled: false,
        edge_has_connector: false,
        edge_has_castellated_pads: false,
        edge_has_edge_plating: false,
        layers: vec![BoardStackupLayer {
            layer: BoardLayerInfo { id: proto::BL_F_CU, name: "BL_F_Cu".to_string() },
            user_name: "F.Cu".to_string(),
            material_name: "Copper".to_string(),
            enabled: true,
            thickness_nm: None,
            layer_type: BoardStackupLayerType::Unknown(321),
            color: None,
            dielectric_layers: Vec::new(),
        }],
    });
    assert!(proto.finish.is_none());
    assert!(!proto.impedance.expect("impedance should always be present").is_controlled);
    let edge = proto.edge.expect("edge should always be present");
    assert!(edge.connector.is_none());
    assert!(!edge.castellation.expect("castellation should be present").has_castellated_pads);
    assert!(!edge.plating.expect("plating should be present").has_edge_plating);
    let layer = proto.layers.first().expect("one layer should be present");
    assert!(layer.thickness.is_none());
    assert_eq!(layer.layer_type, 321);
    assert!(layer.dielectric.is_none());
    assert!(layer.color.is_none());
}

#[test]
fn board_stackup_to_proto_preserves_edge_connector_presence() {
    let proto = board_stackup_to_proto(&BoardStackup {
        finish_type_name: "ENIG".to_string(),
        impedance_controlled: true,
        edge_has_connector: true,
        edge_has_castellated_pads: true,
        edge_has_edge_plating: true,
        layers: Vec::new(),
    });
    assert_eq!(proto.finish.expect("finish should be present").name, "ENIG");
    let edge = proto.edge.expect("edge should be present");
    assert!(edge.connector.is_some());
    assert!(edge.castellation.expect("castellation should be present").has_castellated_pads);
    assert!(edge.plating.expect("plating should be present").has_edge_plating);
}

#[test]
fn response_payload_as_any_validates_type_url() {
    let response = proto::ApiResponse {
        header: None,
        status: None,
        message: Some(packed("kiapi.common.commands.GetVersionResponse", AnyValue::Encoded(Vec::new()))),
    };
    let err = response_payload_as_any(response, "kiapi.common.commands.BeginCommitResponse")
        .expect_err("wrong type_url must fail");
    assert!(matches!(err, KiCadError::UnexpectedPayloadType { .. }));
}

#[test]
fn response_payload_as_any_accepts_google_protobuf_empty_type() {
    let response = proto::ApiResponse {
        header: None,
        status: None,
        message: Some(packed("google.protobuf.Empty", AnyValue::Encoded(Vec::new()))),
    };
    let payload = response_payload_as_any(response, "google.protobuf.Empty")
        .expect("google.protobuf.Empty payload type should be accepted");
    assert_eq!(payload.type_url, type_url("google.protobuf.Empty"));
}

#[test]
fn get_board_layer_name_command_type_url_matches_proto_name() {
    assert_eq!(type_url(CMD_GET_BOARD_LAYER_NAME), type_url("kiapi.board.commands.GetBoardLayerName"));
}

#[test]
fn summarize_selection_counts_payload_types() {
    let items = vec![
        Any {
            type_url: "type.googleapis.com/kiapi.board.types.Track".to_string(),
            value: AnyValue::Encoded(vec![1, 2, 3]),
        },
        Any {
            type_url: "type.googleapis.com/kiapi.board.types.Track".to_string(),
            value: AnyValue::Encoded(vec![9]),
        },
        Any {
            type_url: "type.googleapis.com/kiapi.board.types.Via".to_string(),
            value: AnyValue::Encoded(vec![7, 7]),
        },
    ];
    let summary = summarize_selection(&items);
    assert_eq!(summary.total_items, 3);
    assert_eq!(summary.type_url_counts.len(), 2);
    assert_eq!(summary.type_url_counts[0].count, 2);
    assert_eq!(summary.type_url_counts[0].type_url, "type.googleapis.com/kiapi.board.types.Track");
    assert_eq!(summary.type_url_counts[1].count, 1);
    assert_eq!(summary.type_url_counts[1].type_url, "type.googleapis.com/kiapi.board.types.Via");
}

#[test]
fn decode_pcb_item_maps_track_locked_state() {
    let track = proto::Track {
        id: kiid("track-id"),
        start: None,
        end: None,
        width: None,
        locked: proto::LS_LOCKED,
        layer: proto::BL_F_CU,
        net: None,
    };
    let parsed = decode_pcb_item(packed("kiapi.board.types.Track", AnyValue::Track(track)))
        .expect("track payload should decode");
    match parsed {
        PcbItem::Track(track) => {
            assert_eq!(track.id.as_deref(), Some("track-id"));
            assert_eq!(track.locked, ItemLockState::Locked);
        }
        other => panic!("expected track item, got {other:?}"),
    }
}

#[test]
fn decode_pcb_item_maps_via_layers() {
    let via = proto::Via {
        id: kiid("via-id"),
        position: Some(proto::Vector2 { x_nm: 100, y_nm: 200 }),
        pad_stack: Some(proto::PadStack {
            layers: vec![proto::BL_F_CU, proto::BL_B_CU],
            drill: Some(proto::DrillProperties {
                start_layer: proto::BL_F_CU,
                end_layer: proto::BL_B_CU,
                ..Default::default()
            }),
            ..Default::default()
        }),
        locked: 0,
        net: Some(proto::Net { code: Some(proto::NetCode { value: 7 }), name: "VCC".to_string() }),
        via_type: proto::VT_BLIND_BURIED,
    };
    let parsed = decode_pcb_item(packed("kiapi.board.types.Via", AnyValue::Via(via)))
        .expect("via payload should decode");
    match parsed {
        PcbItem::Via(via) => {
            assert_eq!(via.id.as_deref(), Some("via-id"));
            assert_eq!(via.via_type, PcbViaType::BlindBuried);
            let layers = via.layers.expect("via layers should decode");
            assert_eq!(layers.padstack_layers.len(), 2);
            assert_eq!(layers.padstack_layers[0].name, "BL_F_Cu");
            assert_eq!(layers.padstack_layers[1].name, "BL_B_Cu");
            assert_eq!(layers.drill_start_layer.as_ref().map(|l| l.name.as_str()), Some("BL_F_Cu"));
            assert_eq!(layers.drill_end_layer.as_ref().map(|l| l.name.as_str()), Some("BL_B_Cu"));
        }
        other => panic!("expected via item, got {other:?}"),
    }
}

#[test]
fn decode_pcb_item_maps_group_item_ids() {
    let group = proto::Group {
        id: kiid("group-id"),
        name: "group-a".to_string(),
        items: vec![
            proto::Kiid { value: "item-1".to_string() },
            proto::Kiid { value: "item-2".to_string() },
        ],
    };
    let parsed = decode_pcb_item(packed("kiapi.board.types.Group", AnyValue::Group(group)))
        .expect("group payload should decode");
    match parsed {
        PcbItem::Group(group) => {
            assert_eq!(group.id.as_deref(), Some("group-id"));
            assert_eq!(group.item_count, 2);
            assert_eq!(group.item_ids, vec!["item-1".to_string(), "item-2".to_string()]);
        }
        other => panic!("expected group item, got {other:?}"),
    }
}

#[test]
fn decode_pcb_item_maps_board_text_attributes() {
    let text = proto::BoardText {
        id: kiid("text-id"),
        text: Some(proto::Text {
            position: Some(proto::Vector2 { x_nm: 123, y_nm: 456 }),
            attributes: Some(proto::TextAttributes {
                font_name: "KiCad Font".to_string(),
                horizontal_alignment: proto::HA_CENTER,
                vertical_alignment: proto::VA_TOP,
                stroke_width: Some(proto::Distance { value_nm: 42 }),
                italic: true,
                bold: false,
                underlined: true,
                mirrored: false,
                multiline: true,
                keep_upright: true,
                size: Some(proto::Vector2 { x_nm: 777, y_nm: 888 }),
                ..Default::default()
            }),
            text: "HELLO".to_string(),
            hyperlink: "https://example.com".to_string(),
        }),
        layer: proto::BL_F_SILKS,
        knockout: true,
        locked: proto::LS_UNLOCKED,
    };
    let parsed = decode_pcb_item(packed("kiapi.board.types.BoardText", AnyValue::BoardText(text)))
        .expect("board text payload should decode");
    match parsed {
        PcbItem::BoardText(text) => {
            assert_eq!(text.id.as_deref(), Some("text-id"));
            assert_eq!(text.text.as_deref(), Some("HELLO"));
            assert_eq!(text.hyperlink.as_deref(), Some("https://example.com"));
            assert!(text.knockout);
            let attributes = text.attributes.expect("text attributes should map");
            assert_eq!(attributes.font_name.as_deref(), Some("KiCad Font"));
            assert_eq!(attributes.horizontal_alignment.as_deref(), Some("HA_CENTER"));
            assert_eq!(attributes.vertical_alignment.as_deref(), Some("VA_TOP"));
            assert_eq!(attributes.stroke_width_nm, Some(42));
            assert_eq!(attributes.size_nm.map(|v| (v.x_nm, v.y_nm)), Some((777, 888)));
        }
        other => panic!("expected board text item, got {other:?}"),
    }
}

#[test]
fn decode_pcb_item_maps_reference_image() {
    let reference_image = proto::ReferenceImage {
        id: kiid("ref-image-id"),
        layer: proto::BL_DWGS_USER,
        position: Some(proto::Vector2 { x_nm: 1000, y_nm: 2000 }),
        transform_origin_offset: Some(proto::Vector2 { x_nm: 10, y_nm: 20 }),
        image_scale: Some(proto::Ratio { value: F64Bits { bits: 1.25f64.to_bits() } }),
        image_data: vec![1, 2, 3, 4],
        locked: proto::LS_LOCKED,
    };
    let parsed = decode_pcb_item(packed(
        "kiapi.board.types.ReferenceImage",
        AnyValue::ReferenceImage(reference_image),
    ))
    .expect("reference image payload should decode");
    match parsed {
        PcbItem::ReferenceImage(reference_image) => {
            assert_eq!(reference_image.id.as_deref(), Some("ref-image-id"));
            assert_eq!(reference_image.layer.name, "BL_Dwgs_User");
            assert_eq!(reference_image.position_nm.map(|p| (p.x_nm, p.y_nm)), Some((1000, 2000)));
            assert_eq!(reference_image.image_scale.map(|s| f64::from_bits(s.bits)), Some(1.25));
            assert_eq!(reference_image.image_data_len, 4);
            assert_eq!(reference_image.locked, ItemLockState::Locked);
        }
        other => panic!("expected reference image item, got {other:?}"),
    }
}

#[test]
fn decode_pcb_item_maps_barcode() {
    let barcode = proto::Barcode {
        id: kiid("barcode-id"),
        text: "HELLO".to_string(),
        kind: proto::BK_QR_CODE,
        error_correction: proto::BEC_M,
        position: Some(proto::Vector2 { x_nm: 5, y_nm: 6 }),
        orientation: Some(proto::Angle { value_degrees: F64Bits { bits: 90.0f64.to_bits() } }),
        layer: proto::BL_F_SILKS,
        width: Some(proto::Distance { value_nm: 700 }),
        height: Some(proto::Distance { value_nm: 800 }),
        show_text: true,
        text_height: Some(proto::Distance { value_nm: 120 }),
        knockout: true,
        knockout_margin: Some(proto::Vector2 { x_nm: 3, y_nm: 4 }),
        locked: proto::LS_UNLOCKED,
    };
    let parsed = decode_pcb_item(packed("kiapi.board.types.Barcode", AnyValue::Barcode(barcode)))
        .expect("barcode payload should decode");
    match parsed {
        PcbItem::Barcode(barcode) => {
            assert_eq!(barcode.id.as_deref(), Some("barcode-id"));
            assert_eq!(barcode.text, "HELLO");
            assert_eq!(barcode.kind, PcbBarcodeKind::QrCode);
            assert_eq!(barcode.error_correction, PcbBarcodeErrorCorrection::M);
            assert_eq!(barcode.orientation_deg.map(|a| f64::from_bits(a.bits)), Some(90.0));
            assert!(barcode.show_text);
            assert!(barcode.knockout);
            assert_eq!(barcode.width_nm, Some(700));
            assert_eq!(barcode.height_nm, Some(800));
        }
        other => panic!("expected barcode item, got {other:?}"),
    }
}

#[test]
fn pad_netlist_from_footprint_items_extracts_pad_entries() {
    let pad = proto::Pad {
        id: kiid("pad-id"),
        locked: 0,
        number: "1".to_string(),
        net: Some(proto::Net { code: Some(proto::NetCode { value: 5 }), name: "Net-(P1-PM)".to_string() }),
        pad_type: proto::PT_PTH,
        pad_stack: None,
        position: None,
        copper_clearance_override: None,
        pad_to_die_length: None,
        symbol_pin: None,
        pad_to_die_delay: None,
    };
    let footprint = proto::FootprintInstance {
        id: kiid("fp-id"),
        layer: proto::BL_F_CU,
        definition: Some(proto::Footprint {
            anchor: None,
            items: vec![packed("kiapi.board.types.Pad", AnyValue::Pad(pad))],
        }),
        reference_field: Some(proto::Field {
            id: None,
            name: "Reference".to_string(),
            text: Some(proto::BoardText {
                id: None,
                text: Some(proto::Text {
                    position: None,
                    attributes: None,
                    text: "P1".to_string(),
                    hyperlink: String::new(),
                }),
                layer: 0,
                knockout: false,
                locked: 0,
            }),
            visible: true,
        }),
        ..Default::default()
    };
    let items = vec![packed(
        "kiapi.board.types.FootprintInstance",
        AnyValue::FootprintInstance(footprint),
    )];
    let netlist =
        pad_netlist_from_footprint_items(items).expect("pad netlist should decode from footprint");
    assert_eq!(netlist.len(), 1);
    let entry = &netlist[0];
    assert_eq!(entry.footprint_reference.as_deref(), Some("P1"));
    assert_eq!(entry.pad_number, "1");
    assert_eq!(entry.net_code, Some(5));
}

#[test]
fn ensure_item_request_ok_accepts_ok_and_rejects_non_ok() {
    assert!(ensure_item_request_ok(proto::IRS_OK).is_ok());
    assert!(ensure_item_request_ok(proto::IRS_DOCUMENT_NOT_FOUND).is_err());
}

#[test]
fn ensure_item_status_ok_accepts_ok_and_rejects_non_ok() {
    assert!(ensure_item_status_ok(&Some(proto::ItemStatus {
        code: proto::ISC_OK,
        error_message: String::new(),
    }))
    .is_ok());
    let err = ensure_item_status_ok(&Some(proto::ItemStatus {
        code: proto::ISC_INVALID_TYPE,
        error_message: "bad item type".to_string(),
    }))
    .expect_err("non-OK item status should fail");
    match err {
        KiCadError::ItemStatus { code } => assert!(code.contains("ISC_INVALID_TYPE")),
        _ => panic!("expected item status error"),
    }
}

#[test]
fn ensure_item_deletion_status_ok_accepts_ok_and_rejects_non_ok() {
    assert!(ensure_item_deletion_status_ok(proto::IDS_OK).is_ok());
    let err = ensure_item_deletion_status_ok(proto::IDS_NONEXISTENT)
        .expect_err("non-OK item deletion status should fail");
    match err {
        KiCadError::ItemStatus { code } => assert_eq!(code, "IDS_NONEXISTENT"),
        _ => panic!("expected item status error"),
    }
}

#[test]
fn map_item_bounding_boxes_maps_ids_and_dimensions() {
    let ids = vec![proto::Kiid { value: "id-1".to_string() }];
    let boxes = vec![proto::Box2 {
        position: Some(proto::Vector2 { x_nm: 10, y_nm: 20 }),
        size: Some(proto::Vector2 { x_nm: 30, y_nm: 40 }),
    }];
    let mapped = map_item_bounding_boxes(&ids, &boxes)
        .expect("box mapping should succeed when position and size are present");
    assert_eq!(mapped.len(), 1);
    assert_eq!(mapped[0].item_id, "id-1");
    assert_eq!(mapped[0].x_nm, 10);
    assert_eq!(mapped[0].y_nm, 20);
    assert_eq!(mapped[0].width_nm, 30);
    assert_eq!(mapped[0].height_nm, 40);
}

#[test]
fn map_hit_test_result_covers_known_variants() {
    assert_eq!(map_hit_test_result(proto::HTR_HIT), ItemHitTestResult::Hit);
    assert_eq!(map_hit_test_result(proto::HTR_NO_HIT), ItemHitTestResult::NoHit);
}

#[test]
fn map_run_action_status_covers_known_variants() {
    assert_eq!(map_run_action_status(proto::RAS_OK), RunActionStatus::Success);
    assert_eq!(map_run_action_status(proto::RAS_INVALID), RunActionStatus::Invalid);
    assert_eq!(map_run_action_status(proto::RAS_FRAME_NOT_OPEN), RunActionStatus::FrameNotOpen);
    assert_eq!(map_run_action_status(1234), RunActionStatus::Unknown(1234));
}

#[test]
fn text_horizontal_alignment_to_proto_covers_known_variants() {
    assert_eq!(text_horizontal_alignment_to_proto(TextHorizontalAlignment::Left), proto::HA_LEFT);
    assert_eq!(
        text_horizontal_alignment_to_proto(TextHorizontalAlignment::Indeterminate),
        proto::HA_INDETERMINATE
    );
}

#[test]
fn text_spec_to_proto_maps_optional_fields() {
    let spec = TextSpec {
        text: "R1".to_string(),
        position_nm: Some(Vector2Nm { x_nm: 1_000, y_nm: 2_000 }),
        attributes: Some(TextAttributesSpec {
            font_name: Some("KiCad Font".to_string()),
            horizontal_alignment: TextHorizontalAlignment::Center,
            ..TextAttributesSpec::default()
        }),
        hyperlink: Some("https://example.com".to_string()),
    };
    let proto = text_spec_to_proto(spec);
    assert_eq!(proto.text, "R1");
    assert_eq!(proto.hyperlink, "https://example.com");
    let position = proto.position.expect("position should be present");
    assert_eq!(position.x_nm, 1_000);
    assert_eq!(position.y_nm, 2_000);
    let attributes = proto.attributes.expect("attributes should be present");
    assert_eq!(attributes.font_name, "KiCad Font");
    assert_eq!(attributes.horizontal_alignment, proto::HA_CENTER);
}

#[test]
fn board_text_spec_to_proto_matches_kicad_python_defaults() {
    let spec = BoardTextSpec::front_silkscreen(
        "SILK",
        Vector2Nm { x_nm: 186_000_000, y_nm: 90_500_000 },
        Some(TextAttributesSpec {
            horizontal_alignment: TextHorizontalAlignment::Center,
            vertical_alignment: TextVerticalAlignment::Center,
            stroke_width_nm: Some(150_000),
            size_nm: Some(Vector2Nm { x_nm: 1_500_000, y_nm: 1_500_000 }),
            ..TextAttributesSpec::default()
        }),
    );
    let proto = board_text_spec_to_proto(spec);
    assert!(proto.id.is_none(), "unset IDs should let KiCad assign the created text KIID");
    assert_eq!(proto.layer, proto::BL_F_SILKS);
    assert_eq!(proto.locked, proto::LS_UNLOCKED);
    let text = proto.text.expect("text payload should be present");
    assert_eq!(text.text, "SILK");
    assert_eq!(text.position.map(|point| (point.x_nm, point.y_nm)), Some((186_000_000, 90_500_000)));
    let attributes = text.attributes.expect("attributes should be present");
    assert_eq!(attributes.horizontal_alignment, proto::HA_CENTER);
    assert_eq!(attributes.stroke_width.map(|width| width.value_nm), Some(150_000));
}

#[test]
fn bucket_items_by_pcb_object_type_groups_combined_get_items_response() {
    let rows = bucket_items_by_pcb_object_type(vec![
        packed("kiapi.board.types.Track", AnyValue::Track(proto::Track::default())),
        packed("kiapi.board.types.BoardText", AnyValue::BoardText(proto::BoardText::default())),
    ])
    .expect("known item types should bucket");
    let trace_bucket = rows
        .iter()
        .find(|(object_type, _)| object_type.name == "KOT_PCB_TRACE")
        .expect("trace bucket should exist");
    assert_eq!(trace_bucket.1.len(), 1);
    let text_bucket = rows
        .iter()
        .find(|(object_type, _)| object_type.name == "KOT_PCB_TEXT")
        .expect("text bucket should exist");
    assert_eq!(text_bucket.1.len(), 1);
    let total_bucketed: usize = rows.iter().map(|(_, items)| items.len()).sum();
    assert_eq!(total_bucketed, 2);
}

#[test]
fn bucket_items_by_pcb_object_type_rejects_unmapped_payloads() {
    let err = bucket_items_by_pcb_object_type(vec![packed(
        "kiapi.board.types.FutureThing",
        AnyValue::Encoded(Vec::new()),
    )])
    .expect_err("unknown returned item types should not be silently dropped");
    match err {
        KiCadError::InvalidResponse { reason } => {
            assert!(reason.contains("GetItems returned unmapped PCB item type"))
        }
        other => panic!("unexpected error {other:?}"),
    }
}

#[test]
fn deleted_item_ids_from_response_falls_back_to_requested_ids_for_empty_success_rows() {
    let ids = deleted_item_ids_from_response(
        vec!["item-1".to_string()],
        proto::DeleteItemsResponse { status: proto::IRS_OK, deleted_items: Vec::new() },
    )
    .expect("empty successful delete response should use requested ids");
    assert_eq!(ids, vec!["item-1".to_string()]);
}

#[test]
fn pcb_object_type_for_any_maps_board_text() {
    let item = packed("kiapi.board.types.BoardText", AnyValue::Encoded(Vec::new()));
    let object_type = pcb_object_type_for_any(&item).expect("board text should map");
    assert_eq!(object_type.name, "KOT_PCB_TEXT");
}

#[test]
fn pcb_object_type_catalog_contains_expected_trace_entry() {
    assert!(KiCadClient::pcb_object_type_codes()
        .iter()
        .any(|entry| entry.name == "KOT_PCB_TRACE" && entry.code == 11));
}

#[test]
fn map_polygon_with_holes_maps_points_and_arcs() {
    let polygon = proto::PolygonWithHoles {
        outline: Some(proto::PolyLine {
            nodes: vec![
                proto::PolyLineNode {
                    geometry: Some(proto::PolyLineNodeGeometry::Point(proto::Vector2 { x_nm: 10, y_nm: 20 })),
                },
                proto::PolyLineNode {
                    geometry: Some(proto::PolyLineNodeGeometry::Arc(proto::ArcStartMidEnd {
                        start: Some(proto::Vector2 { x_nm: 0, y_nm: 0 }),
                        mid: Some(proto::Vector2 { x_nm: 5, y_nm: 5 }),
                        end: Some(proto::Vector2 { x_nm: 10, y_nm: 0 }),
                    })),
                },
            ],
            closed: true,
        }),
        holes: vec![proto::PolyLine {
            nodes: vec![proto::PolyLineNode {
                geometry: Some(proto::PolyLineNodeGeometry::Point(proto::Vector2 { x_nm: 1, y_nm: 1 })),
            }],
            closed: true,
        }],
    };
    let mapped = map_polygon_with_holes(&polygon).expect("polygon mapping should succeed");
    let outline = mapped.outline.expect("outline should be present");
    assert_eq!(outline.nodes.len(), 2);
    assert!(outline.closed);
    assert_eq!(mapped.holes.len(), 1);
}

#[test]
fn map_polygon_with_holes_rejects_missing_arc_points() {
    let polygon = proto::PolygonWithHoles {
        outline: Some(proto::PolyLine {
            nodes: vec![proto::PolyLineNode {
                geometry: Some(proto::PolyLineNodeGeometry::Arc(proto::ArcStartMidEnd {
                    start: Some(proto::Vector2 { x_nm: 0, y_nm: 0 }),
                    mid: None,
                    end: Some(proto::Vector2 { x_nm: 10, y_nm: 0 }),
                })),
            }],
            closed: false,
        }),
        holes: Vec::new(),
    };
    let err = map_polygon_with_holes(&polygon).expect_err("missing arc point must fail");
    assert!(matches!(err, KiCadError::InvalidResponse { .. }));
}

#[test]
fn cmd_constants_use_kiapi_prefix() {
    let cmd_constants = [
        CMD_PING,
        CMD_GET_VERSION,
        CMD_GET_NETS,
        CMD_GET_SELECTION,
        CMD_CREATE_ITEMS,
        CMD_DELETE_ITEMS,
        CMD_BEGIN_COMMIT,
        CMD_END_COMMIT,
    ];
    for cmd in cmd_constants {
        assert!(cmd.starts_with("kiapi."), "CMD constant '{cmd}' should start with 'kiapi.'");
    }
}

#[test]
fn res_constants_use_expected_prefix() {
    let res_constants = [
        RES_GET_VERSION,
        RES_GET_NETS,
        RES_SELECTION_RESPONSE,
        RES_CREATE_ITEMS_RESPONSE,
        RES_DELETE_ITEMS_RESPONSE,
        RES_PROTOBUF_EMPTY,
    ];
    for res in res_constants {
        assert!(
            res.starts_with("kiapi.") || res.starts_with("google.protobuf."),
            "RES constant '{res}' should start with 'kiapi.' or 'google.protobuf.'"
        );
    }
}

#[test]
fn pcb_object_types_catalog_is_nonempty_and_valid() {
    let catalog = KiCadClient::pcb_object_type_codes();
    assert!(!catalog.is_empty(), "PCB_OBJECT_TYPES should contain at least one entry");
    for entry in catalog.iter() {
        assert!(!entry.name.is_empty(), "PCB object type name should not be empty");
        assert!(entry.code >= 0, "PCB object type code should be non-negative");
    }
}

#[test]
fn get_items_by_net_command_maps_names_and_codes() {
    let header = proto::ItemHeader {
        document: Some(proto::DocumentSpecifier::default()),
        container: None,
        field_mask: None,
    };
    let command = build_get_items_by_net_command(
        header,
        vec![11, 12],
        vec![
            BoardNet { code: 41, name: "Net-(U1-Pad1)".to_string() },
            BoardNet { code: 0, name: "GND".to_string() },
        ],
    );
    assert_eq!(command.types, vec![11, 12]);
    assert_eq!(command.nets.len(), 2);
    assert_eq!(command.nets[0].name, "Net-(U1-Pad1)");
    assert_eq!(command.nets[0].code.as_ref().map(|code| code.value), Some(41));
    assert_eq!(command.nets[1].name, "GND");
    assert_eq!(command.nets[1].code.as_ref().map(|code| code.value), Some(0));
}

#[test]
fn get_connected_items_command_maps_item_ids_and_types() {
    let header = proto::ItemHeader {
        document: Some(proto::DocumentSpecifier::default()),
        container: None,
        field_mask: None,
    };
    let command = build_get_connected_items_command(
        header,
        vec!["uuid-1".to_string(), "uuid-2".to_string()],
        vec![11, 12],
    );
    assert_eq!(command.types, vec![11, 12]);
    assert_eq!(command.items.len(), 2);
    assert_eq!(command.items[0].value, "uuid-1");
    assert_eq!(command.items[1].value, "uuid-2");
    assert!(command.header.is_some());
}

#[test]
fn get_board_layer_name_response_decodes_expected_type_url() {
    let payload = packed("kiapi.board.commands.BoardLayerNameResponse", AnyValue::Encoded(vec![10, 6]));
    assert!(expect_payload_type(&payload, RES_BOARD_LAYER_NAME_RESPONSE).is_ok());
}

#[test]
fn get_board_layer_name_response_rejects_wrong_type_url() {
    let payload = packed("kiapi.board.commands.BoardLayerResponse", AnyValue::Encoded(Vec::new()));
    let err = expect_payload_type(&payload, RES_BOARD_LAYER_NAME_RESPONSE)
        .expect_err("mismatched type_url should fail");
    assert!(matches!(err, KiCadError::UnexpectedPayloadType { .. }));
}
