use kicad_ipc_rs::client::requests::{
    annotate_command_error, board_item_header, board_texts_from_created_items,
    build_create_items_command, build_delete_items_command, build_end_commit_command,
    build_get_all_pcb_items_command, build_get_items_by_net_class_command,
    build_get_items_command, build_get_netclass_for_nets_command,
    build_parse_and_create_items_command, build_update_items_command, created_items_from_response,
    decode_item_buckets, editable_items_from_payloads, items_from_get_items_response,
    payloads_of_editable_items, raw_command_payload, take_created_board_text,
    token_from_response, updated_items_from_response, vias_of,
};
use kicad_ipc_rs::client::decode::decode_pcb_items;
use kicad_ipc_rs::client::items::pcb_object_types;
use kicad_ipc_rs::envelope::type_url;
use kicad_ipc_rs::error::KiCadError;
use kicad_ipc_rs::model::board::{BoardNet, PcbItem};
use kicad_ipc_rs::model::common::{CommitAction, CommitSession};
use kicad_ipc_rs::model::editable::EditablePcbItem;
use kicad_ipc_rs::proto;
use kicad_ipc_rs::proto::{Any, AnyValue};

fn packed(message_name: &str, value: AnyValue) -> Any {
    Any { type_url: type_url(message_name), value }
}

fn kiid(value: &str) -> Option<proto::Kiid> {
    Some(proto::Kiid { value: value.to_string() })
}

fn track(id: &str) -> Any {
    packed(
        "kiapi.board.types.Track",
        AnyValue::Track(proto::Track { id: kiid(id), ..Default::default() }),
    )
}

fn board_text(id: &str, text: &str) -> Any {
    packed(
        "kiapi.board.types.BoardText",
        AnyValue::BoardText(proto::BoardText {
            id: kiid(id),
            text: Some(proto::Text { text: text.to_string(), ..Default::default() }),
            layer: proto::BL_F_SILKS,
            ..Default::default()
        }),
    )
}

fn ok_status() -> Option<proto::ItemStatus> {
    Some(proto::ItemStatus { code: proto::ISC_OK, error_message: String::new() })
}

fn header() -> proto::ItemHeader {
    board_item_header(proto::DocumentSpecifier {
        doc_type: proto::DOCTYPE_PCB,
        ..Default::default()
    })
}

#[test]
fn board_item_header_names_only_the_document() {
    let h = header();
    assert_eq!(h.document.as_ref().map(|d| d.doc_type), Some(proto::DOCTYPE_PCB));
    assert!(h.container.is_none());
    assert!(h.field_mask.is_none());
}

#[test]
fn get_items_commands_carry_types_and_header() {
    let cmd = build_get_items_command(header(), vec![proto::KOT_PCB_TRACE, proto::KOT_PCB_VIA]);
    assert_eq!(cmd.types, vec![proto::KOT_PCB_TRACE, proto::KOT_PCB_VIA]);
    assert_eq!(cmd.header, Some(header()));

    let all = build_get_all_pcb_items_command(header());
    let catalog: Vec<i32> = pcb_object_types().iter().map(|t| t.code).collect();
    assert_eq!(all.types, catalog);
    assert_eq!(all.types.len(), 18);

    let by_class = build_get_items_by_net_class_command(
        header(),
        vec![proto::KOT_PCB_TRACE],
        vec!["Power".to_string(), "Default".to_string()],
    );
    assert_eq!(by_class.net_classes, vec!["Power".to_string(), "Default".to_string()]);
    assert_eq!(by_class.types, vec![proto::KOT_PCB_TRACE]);
}

#[test]
fn netclass_for_nets_command_maps_codes_and_names() {
    let cmd = build_get_netclass_for_nets_command(vec![
        BoardNet { code: 3, name: "GND".to_string() },
        BoardNet { code: 9, name: "VBUS".to_string() },
    ]);
    assert_eq!(cmd.net.len(), 2);
    assert_eq!(cmd.net[0].code, Some(proto::NetCode { value: 3 }));
    assert_eq!(cmd.net[1].name, "VBUS");
}

#[test]
fn create_update_delete_commands_keep_their_inputs() {
    let created = build_create_items_command(header(), vec![track("t1")], Some("grp".to_string()));
    assert_eq!(created.items, vec![track("t1")]);
    assert_eq!(created.container, kiid("grp"));
    let loose = build_create_items_command(header(), vec![], None);
    assert!(loose.container.is_none());

    let updated = build_update_items_command(header(), vec![track("t2"), track("t3")]);
    assert_eq!(updated.items, vec![track("t2"), track("t3")]);

    let deleted = build_delete_items_command(header(), vec!["a".to_string(), "b".to_string()]);
    assert_eq!(deleted.item_ids, vec![proto::Kiid { value: "a".to_string() }, proto::Kiid {
        value: "b".to_string(),
    }]);

    let parsed = build_parse_and_create_items_command(
        proto::DocumentSpecifier { doc_type: proto::DOCTYPE_PCB, ..Default::default() },
        "(gr_line)".to_string(),
    );
    assert_eq!(parsed.contents, "(gr_line)");
    assert!(parsed.document.is_some());
}

#[test]
fn end_commit_command_requires_session_id() {
    let err = build_end_commit_command(
        CommitSession { id: String::new() },
        CommitAction::Commit,
        "msg".to_string(),
    )
    .expect_err("empty session id must be refused");
    assert_eq!(err, KiCadError::Config {
        reason: "end_commit_raw requires a non-empty commit session id".to_string(),
    });

    let cmd = build_end_commit_command(
        CommitSession { id: "c-1".to_string() },
        CommitAction::Drop,
        "undo".to_string(),
    )
    .expect("session id present");
    assert_eq!(cmd.id, kiid("c-1"));
    assert_eq!(cmd.action, proto::CMA_DROP);
    assert_eq!(cmd.message, "undo");
}

#[test]
fn get_items_response_requires_ok_status() {
    let ok = items_from_get_items_response(proto::GetItemsResponse {
        status: proto::IRS_OK,
        items: vec![track("t1")],
    })
    .expect("ok response");
    assert_eq!(ok, vec![track("t1")]);

    let err = items_from_get_items_response(proto::GetItemsResponse { status: 2, items: vec![] })
        .expect_err("non-ok response");
    assert!(matches!(err, KiCadError::ItemStatus { .. }));
}

#[test]
fn created_items_are_taken_in_order_from_ok_rows() {
    let response = proto::CreateItemsResponse {
        status: proto::IRS_OK,
        created_items: vec![
            proto::ItemCreationResult { status: ok_status(), item: Some(track("a")) },
            proto::ItemCreationResult { status: ok_status(), item: Some(track("b")) },
        ],
    };
    let items = created_items_from_response(response).expect("all rows ok");
    assert_eq!(items, vec![track("a"), track("b")]);
}

#[test]
fn created_items_report_first_failing_row() {
    let missing = proto::CreateItemsResponse {
        status: proto::IRS_OK,
        created_items: vec![
            proto::ItemCreationResult { status: ok_status(), item: Some(track("a")) },
            proto::ItemCreationResult { status: ok_status(), item: None },
        ],
    };
    assert_eq!(created_items_from_response(missing), Err(KiCadError::InvalidResponse {
        reason: "CreateItemsResponse missing created item payload".to_string(),
    }));

    let failed = proto::CreateItemsResponse {
        status: proto::IRS_OK,
        created_items: vec![proto::ItemCreationResult { status: None, item: Some(track("a")) }],
    };
    assert!(matches!(created_items_from_response(failed), Err(KiCadError::ItemStatus { .. })));

    let refused = proto::CreateItemsResponse { status: 2, created_items: vec![] };
    assert!(matches!(created_items_from_response(refused), Err(KiCadError::ItemStatus { .. })));
}

#[test]
fn updated_items_follow_the_same_rules() {
    let response = proto::UpdateItemsResponse {
        status: proto::IRS_OK,
        updated_items: vec![proto::ItemUpdateResult { status: ok_status(), item: Some(track("a")) }],
    };
    assert_eq!(updated_items_from_response(response), Ok(vec![track("a")]));

    let missing = proto::UpdateItemsResponse {
        status: proto::IRS_OK,
        updated_items: vec![proto::ItemUpdateResult { status: ok_status(), item: None }],
    };
    assert_eq!(updated_items_from_response(missing), Err(KiCadError::InvalidResponse {
        reason: "UpdateItemsResponse missing updated item payload".to_string(),
    }));
}

#[test]
fn raw_command_payload_names_the_command_when_missing() {
    let with_payload = proto::ApiResponse { message: Some(track("a")), ..Default::default() };
    assert_eq!(raw_command_payload(with_payload, "type.googleapis.com/kiapi.common.commands.Ping"), Ok(track("a")));

    let without = proto::ApiResponse::default();
    assert_eq!(
        raw_command_payload(without, "type.googleapis.com/kiapi.common.commands.Ping"),
        Err(KiCadError::MissingPayload {
            expected_type_url:
                "response payload for `type.googleapis.com/kiapi.common.commands.Ping`".to_string(),
        })
    );
}

#[test]
fn command_errors_name_the_command() {
    let empty = annotate_command_error(
        KiCadError::ApiStatus { code: "AS_BAD_REQUEST".to_string(), message: String::new() },
        "type.googleapis.com/kiapi.common.commands.Ping",
    );
    assert_eq!(empty, KiCadError::ApiStatus {
        code: "AS_BAD_REQUEST".to_string(),
        message: "command `type.googleapis.com/kiapi.common.commands.Ping` failed".to_string(),
    });

    let with_message = annotate_command_error(
        KiCadError::ApiStatus { code: "AS_BUSY".to_string(), message: "busy".to_string() },
        "U",
    );
    assert_eq!(with_message, KiCadError::ApiStatus {
        code: "AS_BUSY".to_string(),
        message: "busy (command `U`)".to_string(),
    });

    let other = annotate_command_error(KiCadError::BoardNotOpen, "U");
    assert_eq!(other, KiCadError::BoardNotOpen);
}

#[test]
fn token_is_taken_only_when_none_was_held() {
    let response = proto::ApiResponse {
        header: Some(proto::ApiResponseHeader { kicad_token: "tok".to_string() }),
        ..Default::default()
    };
    assert_eq!(token_from_response("", &response), Some("tok".to_string()));
    assert_eq!(token_from_response("mine", &response), None);

    let blank = proto::ApiResponse {
        header: Some(proto::ApiResponseHeader { kicad_token: String::new() }),
        ..Default::default()
    };
    assert_eq!(token_from_response("", &blank), None);
    assert_eq!(token_from_response("", &proto::ApiResponse::default()), None);
}

#[test]
fn created_board_texts_decode_in_order() {
    let texts = board_texts_from_created_items(vec![board_text("t1", "A"), board_text("t2", "B")])
        .expect("board texts decode");
    assert_eq!(texts.len(), 2);
    assert_eq!(texts[0].id.as_deref(), Some("t1"));
    assert_eq!(texts[1].text.as_deref(), Some("B"));

    let last = take_created_board_text(texts).expect("one text at least");
    assert_eq!(last.id.as_deref(), Some("t2"));

    assert_eq!(take_created_board_text(vec![]), Err(KiCadError::InvalidResponse {
        reason: "CreateItems returned no board text item".to_string(),
    }));
}

#[test]
fn created_items_of_another_kind_are_refused() {
    let err = board_texts_from_created_items(vec![board_text("t1", "A"), track("x")])
        .expect_err("a track is no board text");
    match err {
        KiCadError::InvalidResponse { reason } => {
            assert!(reason.starts_with("CreateItems returned non-board-text item: "));
            assert!(reason.contains("Track"));
        }
        other => panic!("unexpected error {other:?}"),
    }

    let bad = packed("kiapi.board.types.BoardText", AnyValue::Encoded(vec![1, 2]));
    let err = board_texts_from_created_items(vec![bad]).expect_err("undecodable payload");
    assert!(matches!(err, KiCadError::ProtobufDecode(_)));
}

#[test]
fn vias_are_kept_in_order() {
    let via = |id: &str| {
        packed("kiapi.board.types.Via", AnyValue::Via(proto::Via { id: kiid(id), ..Default::default() }))
    };
    let items = decode_pcb_items(vec![via("v1"), track("t"), via("v2")]).expect("decodes");
    let vias = vias_of(items);
    assert_eq!(vias.len(), 2);
    assert_eq!(vias[0].id.as_deref(), Some("v1"));
    assert_eq!(vias[1].id.as_deref(), Some("v2"));
    assert!(vias_of(vec![]).is_empty());
}

#[test]
fn editable_items_round_trip_through_payloads() {
    let payloads = vec![track("t1"), board_text("b1", "X")];
    let editable = editable_items_from_payloads(payloads).expect("editable decode");
    assert!(matches!(editable[0], EditablePcbItem::Track(_)));
    assert!(matches!(editable[1], EditablePcbItem::BoardText(_)));
    let back = payloads_of_editable_items(editable);
    assert_eq!(back, vec![track("t1"), board_text("b1", "X")]);

    let bad = packed("kiapi.board.types.Track", AnyValue::Encoded(vec![9]));
    let err = editable_items_from_payloads(vec![track("t1"), bad]).expect_err("second fails");
    assert!(matches!(err, KiCadError::ProtobufDecode(_)));
}

#[test]
fn buckets_decode_with_their_types() {
    let types = pcb_object_types();
    let rows = vec![(types[10], vec![track("t1")]), (types[11], vec![])];
    let decoded = decode_item_buckets(rows).expect("decodes");
    assert_eq!(decoded.len(), 2);
    assert_eq!(decoded[0].0.code, proto::KOT_PCB_TRACE);
    assert!(matches!(decoded[0].1[0], PcbItem::Track(_)));
    assert!(decoded[1].1.is_empty());

    let bad = packed("kiapi.board.types.Via", AnyValue::Encoded(vec![]));
    let err = decode_item_buckets(vec![(types[11], vec![bad])]).expect_err("bad via");
    assert!(matches!(err, KiCadError::ProtobufDecode(_)));
}
