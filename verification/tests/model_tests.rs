use std::str::FromStr;

use kicad_ipc_rs::model::board::{BoardLayerInfo, BoardOriginKind, DrcSeverity};
use kicad_ipc_rs::model::common::{CommitAction, EditorFrameType, MapMergeMode, PcbObjectTypeCode};

#[test]
fn board_origin_kind_parses_known_values() {
    assert_eq!(BoardOriginKind::from_str("grid").expect("grid should parse"), BoardOriginKind::Grid);
    assert_eq!(
        BoardOriginKind::from_str("drill").expect("drill should parse"),
        BoardOriginKind::Drill
    );
}

#[test]
fn board_origin_kind_rejects_unknown_values() {
    let result = BoardOriginKind::from_str("other");
    assert!(result.is_err());
}

#[test]
fn board_layer_info_resolves_canonical_and_proto_names() {
    assert_eq!(BoardLayerInfo::id_from_name("F.SilkS"), Some(40));
    assert_eq!(BoardLayerInfo::id_from_name("BL_F_SilkS"), Some(40));
    assert_eq!(BoardLayerInfo::canonical_name_for_id(40).as_deref(), Some("F.SilkS"));
}

#[test]
fn drc_severity_parses_known_values() {
    assert_eq!(DrcSeverity::from_str("warning").expect("warning should parse"), DrcSeverity::Warning);
    assert_eq!(DrcSeverity::from_str("error").expect("error should parse"), DrcSeverity::Error);
}

#[test]
fn drc_severity_rejects_unknown_values() {
    let result = DrcSeverity::from_str("fatal");
    assert!(result.is_err());
}

#[test]
fn commit_action_parses_known_values() {
    assert_eq!(CommitAction::from_str("commit"), Ok(CommitAction::Commit));
    assert_eq!(CommitAction::from_str("drop"), Ok(CommitAction::Drop));
}

#[test]
fn commit_action_rejects_unknown_values() {
    assert!(CommitAction::from_str("rollback").is_err());
}

#[test]
fn editor_frame_type_parses_known_values() {
    assert_eq!(EditorFrameType::from_str("pcb"), Ok(EditorFrameType::PcbEditor));
    assert_eq!(EditorFrameType::from_str("project-manager"), Ok(EditorFrameType::ProjectManager));
}

#[test]
fn editor_frame_type_rejects_unknown_values() {
    assert!(EditorFrameType::from_str("layout").is_err());
}

#[test]
fn map_merge_mode_parses_known_values() {
    assert_eq!(MapMergeMode::from_str("merge"), Ok(MapMergeMode::Merge));
    assert_eq!(MapMergeMode::from_str("replace"), Ok(MapMergeMode::Replace));
}

#[test]
fn map_merge_mode_rejects_unknown_values() {
    assert!(MapMergeMode::from_str("upsert").is_err());
}

#[test]
fn pcb_object_type_code_resolves_friendly_names() {
    assert_eq!(
        PcbObjectTypeCode::from_name("track").map(|value| value.code),
        Some(PcbObjectTypeCode::new_trace().code)
    );
    assert_eq!(
        PcbObjectTypeCode::from_name("KOT_PCB_FOOTPRINT").map(|value| value.code),
        Some(PcbObjectTypeCode::new_footprint().code)
    );
}

#[test]
fn pcb_object_type_code_from_name_rejects_non_pcb_types() {
    assert_eq!(PcbObjectTypeCode::from_name("KOT_UNKNOWN"), None);
    assert_eq!(PcbObjectTypeCode::from_name("KOT_SCH_JUNCTION"), None);
    assert_eq!(
        PcbObjectTypeCode::from_name(" KOT_PCB_VIA ").map(|value| value.name),
        Some("KOT_PCB_VIA")
    );
}

#[test]
fn id_from_name_inverts_canonical_name_for_every_layer() {
    for id in 0..=128 {
        if let Some(name) = BoardLayerInfo::canonical_name_for_id(id) {
            assert_eq!(BoardLayerInfo::id_from_name(&name), Some(id), "{name}");
            assert_eq!(BoardLayerInfo::id_from_name(&format!("  {name} ")), Some(id), "{name}");
        }
    }
}

#[test]
fn catalog_types_resolve_by_code_and_by_name() {
    for entry in kicad_ipc_rs::client::config::KiCadClient::pcb_object_type_codes() {
        assert_eq!(PcbObjectTypeCode::from_code(entry.code), Some(entry));
        assert_eq!(PcbObjectTypeCode::from_name(entry.name), Some(entry));
    }
    assert_eq!(PcbObjectTypeCode::from_code(0), None);
    assert_eq!(
        PcbObjectTypeCode::from_name("KOT_PCB_FOOTPRINT"),
        Some(PcbObjectTypeCode::new_footprint())
    );
}
