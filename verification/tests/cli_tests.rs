use kicad_ipc_rs::cli_commands::{
    board_text_spec_from_lengths, parse_args_from, BoardTextArgs, Command, Length,
};
use kicad_ipc_rs::decimal::{
    int_error_message, parse_i32_text, parse_i64, parse_u32, parse_u64, IntErrorKind,
};
use kicad_ipc_rs::error::KiCadError;
use kicad_ipc_rs::model::board::{
    BoardFlipMode, BoardOriginKind, DrcSeverity, InactiveLayerDisplayMode, NetColorDisplayMode,
    RatsnestDisplayMode,
};
use kicad_ipc_rs::model::common::{CommitAction, DocumentType, EditorFrameType, MapMergeMode};
use kicad_ipc_rs::proto::AnyValue;

fn args(values: &[&str]) -> Vec<String> {
    values.iter().map(|v| v.to_string()).collect()
}

fn config_error(values: &[&str]) -> String {
    match parse_args_from(args(values)) {
        Err(KiCadError::Config { reason }) => reason,
        other => panic!("expected a configuration error, got {other:?}"),
    }
}

#[test]
fn parse_args_accepts_client_name_for_commit_flow() {
    let (config, command) = parse_args_from(vec![
        "--client-name".to_string(),
        "write-test".to_string(),
        "begin-commit".to_string(),
    ])
    .expect("client-name + begin-commit should parse");

    assert_eq!(config.client_name.as_deref(), Some("write-test"));
    assert!(matches!(command, Command::BeginCommit));
}

#[test]
fn parse_args_parses_end_commit_flags() {
    let (_, command) = parse_args_from(vec![
        "end-commit".to_string(),
        "--id".to_string(),
        "commit-1".to_string(),
        "--action".to_string(),
        "drop".to_string(),
        "--message".to_string(),
        "cleanup".to_string(),
    ])
    .expect("end-commit args should parse");

    match command {
        Command::EndCommit {
            id,
            action,
            message,
        } => {
            assert_eq!(id, "commit-1");
            assert_eq!(action, CommitAction::Drop);
            assert_eq!(message, "cleanup");
        }
        other => panic!("unexpected command variant: {other:?}"),
    }
}

#[test]
fn parse_args_parses_refresh_editor_frame() {
    let (_, command) = parse_args_from(vec![
        "refresh-editor".to_string(),
        "--frame".to_string(),
        "schematic".to_string(),
    ])
    .expect("refresh-editor args should parse");

    match command {
        Command::RefreshEditor { frame } => {
            assert_eq!(frame.as_str(), "schematic");
        }
        other => panic!("unexpected command variant: {other:?}"),
    }
}

#[test]
fn parse_args_parses_clear_selection() {
    let (_, command) = parse_args_from(vec!["clear-selection".to_string()])
        .expect("clear-selection should parse");
    assert!(matches!(command, Command::ClearSelection));
}

#[test]
fn parse_args_parses_add_to_selection() {
    let (_, command) = parse_args_from(vec![
        "add-to-selection".to_string(),
        "--id".to_string(),
        "zone-1".to_string(),
        "--id".to_string(),
        "zone-2".to_string(),
    ])
    .expect("add-to-selection args should parse");

    match command {
        Command::AddToSelection { item_ids } => {
            assert_eq!(item_ids, vec!["zone-1".to_string(), "zone-2".to_string()]);
        }
        other => panic!("unexpected command variant: {other:?}"),
    }
}

#[test]
fn parse_args_parses_remove_from_selection() {
    let (_, command) = parse_args_from(vec![
        "remove-from-selection".to_string(),
        "--id".to_string(),
        "zone-1".to_string(),
        "--id".to_string(),
        "zone-2".to_string(),
    ])
    .expect("remove-from-selection args should parse");

    match command {
        Command::RemoveFromSelection { item_ids } => {
            assert_eq!(item_ids, vec!["zone-1".to_string(), "zone-2".to_string()]);
        }
        other => panic!("unexpected command variant: {other:?}"),
    }
}

#[test]
fn parse_args_parses_set_active_layer() {
    let (_, command) = parse_args_from(vec![
        "set-active-layer".to_string(),
        "--layer-id".to_string(),
        "31".to_string(),
    ])
    .expect("set-active-layer args should parse");

    match command {
        Command::SetActiveLayer { layer_id } => assert_eq!(layer_id, 31),
        other => panic!("unexpected command variant: {other:?}"),
    }
}

#[test]
fn parse_args_parses_vias() {
    let (_, command) = parse_args_from(vec!["vias".to_string()]).expect("vias should parse");
    assert!(matches!(command, Command::Vias));
}

#[test]
fn parse_args_parses_kicad_binary_path() {
    let (_, command) = parse_args_from(vec![
        "kicad-binary-path".to_string(),
        "--binary-name".to_string(),
        "kicad-cli".to_string(),
    ])
    .expect("kicad-binary-path args should parse");

    match command {
        Command::KiCadBinaryPath { binary_name } => assert_eq!(binary_name, "kicad-cli"),
        other => panic!("unexpected command variant: {other:?}"),
    }
}

#[test]
fn parse_args_parses_plugin_settings_path() {
    let (_, command) = parse_args_from(vec![
        "plugin-settings-path".to_string(),
        "--identifier".to_string(),
        "com.example.test".to_string(),
    ])
    .expect("plugin-settings-path args should parse");

    match command {
        Command::PluginSettingsPath { identifier } => {
            assert_eq!(identifier, "com.example.test")
        }
        other => panic!("unexpected command variant: {other:?}"),
    }
}

#[test]
fn parse_args_parses_set_net_classes() {
    let (_, command) = parse_args_from(vec![
        "set-net-classes".to_string(),
        "--merge-mode".to_string(),
        "replace".to_string(),
    ])
    .expect("set-net-classes args should parse");

    match command {
        Command::SetNetClasses { merge_mode } => {
            assert_eq!(merge_mode, MapMergeMode::Replace)
        }
        other => panic!("unexpected command variant: {other:?}"),
    }
}

#[test]
fn parse_args_parses_set_text_variables() {
    let (_, command) = parse_args_from(vec![
        "set-text-variables".to_string(),
        "--merge-mode".to_string(),
        "replace".to_string(),
        "--var".to_string(),
        "REV=A".to_string(),
    ])
    .expect("set-text-variables args should parse");

    match command {
        Command::SetTextVariables {
            merge_mode,
            variables,
        } => {
            assert_eq!(merge_mode, MapMergeMode::Replace);
            assert_eq!(
                variables.iter().find(|(name, _)| name == "REV").map(|(_, value)| value.as_str()),
                Some("A")
            );
        }
        other => panic!("unexpected command variant: {other:?}"),
    }
}

#[test]
fn parse_args_parses_save_doc() {
    let (_, command) =
        parse_args_from(vec!["save-doc".to_string()]).expect("save-doc should parse");
    assert!(matches!(command, Command::SaveDoc));
}

#[test]
fn parse_args_parses_save_copy() {
    let (_, command) = parse_args_from(vec![
        "save-copy".to_string(),
        "--path".to_string(),
        "/tmp/example.kicad_pcb".to_string(),
        "--overwrite".to_string(),
        "--include-project".to_string(),
    ])
    .expect("save-copy args should parse");

    match command {
        Command::SaveCopy {
            path,
            overwrite,
            include_project,
        } => {
            assert_eq!(path, "/tmp/example.kicad_pcb");
            assert!(overwrite);
            assert!(include_project);
        }
        other => panic!("unexpected command variant: {other:?}"),
    }
}

#[test]
fn parse_args_parses_revert_doc() {
    let (_, command) =
        parse_args_from(vec!["revert-doc".to_string()]).expect("revert-doc should parse");
    assert!(matches!(command, Command::RevertDoc));
}

#[test]
fn parse_args_parses_run_action() {
    let (_, command) = parse_args_from(vec![
        "run-action".to_string(),
        "--action".to_string(),
        "pcbnew.InteractiveSelection.ClearSelection".to_string(),
    ])
    .expect("run-action args should parse");

    match command {
        Command::RunAction { action } => {
            assert_eq!(action, "pcbnew.InteractiveSelection.ClearSelection")
        }
        other => panic!("unexpected command variant: {other:?}"),
    }
}

#[test]
fn parse_args_parses_create_items() {
    let (_, command) = parse_args_from(vec![
        "create-items".to_string(),
        "--item".to_string(),
        "type.googleapis.com/kiapi.board.types.BoardText=0a00".to_string(),
        "--container-id".to_string(),
        "container-1".to_string(),
    ])
    .expect("create-items args should parse");

    match command {
        Command::CreateItems {
            items,
            container_id,
        } => {
            assert_eq!(items.len(), 1);
            assert_eq!(
                items[0].type_url,
                "type.googleapis.com/kiapi.board.types.BoardText"
            );
            assert_eq!(items[0].value, AnyValue::Encoded(vec![0x0a, 0x00]));
            assert_eq!(container_id.as_deref(), Some("container-1"));
        }
        other => panic!("unexpected command variant: {other:?}"),
    }
}

#[test]
fn parse_args_parses_update_items() {
    let (_, command) = parse_args_from(vec![
        "update-items".to_string(),
        "--item".to_string(),
        "type.googleapis.com/kiapi.board.types.BoardText=0a00".to_string(),
    ])
    .expect("update-items args should parse");

    match command {
        Command::UpdateItems { items } => {
            assert_eq!(items.len(), 1);
            assert_eq!(
                items[0].type_url,
                "type.googleapis.com/kiapi.board.types.BoardText"
            );
            assert_eq!(items[0].value, AnyValue::Encoded(vec![0x0a, 0x00]));
        }
        other => panic!("unexpected command variant: {other:?}"),
    }
}

#[test]
fn parse_args_parses_delete_items() {
    let (_, command) = parse_args_from(vec![
        "delete-items".to_string(),
        "--id".to_string(),
        "item-1".to_string(),
        "--id".to_string(),
        "item-2".to_string(),
    ])
    .expect("delete-items args should parse");

    match command {
        Command::DeleteItems { item_ids } => {
            assert_eq!(item_ids, vec!["item-1".to_string(), "item-2".to_string()]);
        }
        other => panic!("unexpected command variant: {other:?}"),
    }
}

#[test]
fn parse_args_parses_parse_create_items() {
    let (_, command) = parse_args_from(vec![
        "parse-create-items".to_string(),
        "--contents".to_string(),
        "(kicad_pcb (version 20240108))".to_string(),
    ])
    .expect("parse-create-items args should parse");

    match command {
        Command::ParseCreateItemsFromString { contents } => {
            assert_eq!(contents, "(kicad_pcb (version 20240108))");
        }
        other => panic!("unexpected command variant: {other:?}"),
    }
}

#[test]
fn parse_args_parses_set_enabled_layers() {
    let (_, command) = parse_args_from(vec![
        "set-enabled-layers".to_string(),
        "--copper-layer-count".to_string(),
        "2".to_string(),
        "--layer-id".to_string(),
        "47".to_string(),
        "--layer-id".to_string(),
        "52".to_string(),
    ])
    .expect("set-enabled-layers args should parse");

    match command {
        Command::SetEnabledLayers {
            copper_layer_count,
            layer_ids,
        } => {
            assert_eq!(copper_layer_count, 2);
            assert_eq!(layer_ids, vec![47, 52]);
        }
        other => panic!("unexpected command variant: {other:?}"),
    }
}

#[test]
fn parse_args_parses_set_visible_layers() {
    let (_, command) = parse_args_from(vec![
        "set-visible-layers".to_string(),
        "--layer-id".to_string(),
        "3".to_string(),
        "--layer-id".to_string(),
        "47".to_string(),
    ])
    .expect("set-visible-layers args should parse");

    match command {
        Command::SetVisibleLayers { layer_ids } => assert_eq!(layer_ids, vec![3, 47]),
        other => panic!("unexpected command variant: {other:?}"),
    }
}

#[test]
fn parse_args_parses_set_board_origin() {
    let (_, command) = parse_args_from(vec![
        "set-board-origin".to_string(),
        "--type".to_string(),
        "drill".to_string(),
        "--x-nm".to_string(),
        "123".to_string(),
        "--y-nm".to_string(),
        "456".to_string(),
    ])
    .expect("set-board-origin args should parse");

    match command {
        Command::SetBoardOrigin { kind, x_nm, y_nm } => {
            assert_eq!(kind, BoardOriginKind::Drill);
            assert_eq!(x_nm, 123);
            assert_eq!(y_nm, 456);
        }
        other => panic!("unexpected command variant: {other:?}"),
    }
}

#[test]
fn parse_args_parses_set_appearance() {
    let (_, command) = parse_args_from(vec![
        "set-appearance".to_string(),
        "--inactive-layer-display".to_string(),
        "hidden".to_string(),
        "--net-color-display".to_string(),
        "off".to_string(),
        "--board-flip".to_string(),
        "flipped-x".to_string(),
        "--ratsnest-display".to_string(),
        "visible-layers".to_string(),
    ])
    .expect("set-appearance args should parse");

    match command {
        Command::SetAppearance {
            inactive_layer_display,
            net_color_display,
            board_flip,
            ratsnest_display,
        } => {
            assert_eq!(inactive_layer_display, InactiveLayerDisplayMode::Hidden);
            assert_eq!(net_color_display, NetColorDisplayMode::Off);
            assert_eq!(board_flip, BoardFlipMode::FlippedX);
            assert_eq!(ratsnest_display, RatsnestDisplayMode::VisibleLayers);
        }
        other => panic!("unexpected command variant: {other:?}"),
    }
}

#[test]
fn parse_args_parses_inject_drc_error() {
    let (_, command) = parse_args_from(vec![
        "inject-drc-error".to_string(),
        "--severity".to_string(),
        "warning".to_string(),
        "--message".to_string(),
        "marker".to_string(),
        "--x-nm".to_string(),
        "100".to_string(),
        "--y-nm".to_string(),
        "200".to_string(),
    ])
    .expect("inject-drc-error args should parse");

    match command {
        Command::InjectDrcError {
            severity,
            message,
            x_nm,
            y_nm,
            item_ids,
        } => {
            assert_eq!(severity, DrcSeverity::Warning);
            assert_eq!(message, "marker");
            assert_eq!(x_nm, Some(100));
            assert_eq!(y_nm, Some(200));
            assert!(item_ids.is_empty());
        }
        other => panic!("unexpected command variant: {other:?}"),
    }
}

#[test]
fn parse_args_parses_refill_zones() {
    let (_, command) = parse_args_from(vec![
        "refill-zones".to_string(),
        "--zone-id".to_string(),
        "zone-1".to_string(),
        "--zone-id".to_string(),
        "zone-2".to_string(),
    ])
    .expect("refill-zones args should parse");

    match command {
        Command::RefillZones { zone_ids } => {
            assert_eq!(zone_ids, vec!["zone-1".to_string(), "zone-2".to_string()]);
        }
        other => panic!("unexpected command variant: {other:?}"),
    }
}

#[test]
fn parse_args_parses_update_stackup() {
    let (_, command) = parse_args_from(vec!["update-stackup".to_string()])
        .expect("update-stackup should parse");
    assert!(matches!(command, Command::UpdateStackup));
}

#[test]
fn parse_args_parses_interactive_move_items() {
    let (_, command) = parse_args_from(vec![
        "interactive-move".to_string(),
        "--id".to_string(),
        "item-1".to_string(),
        "--id".to_string(),
        "item-2".to_string(),
    ])
    .expect("interactive-move args should parse");

    match command {
        Command::InteractiveMoveItems { item_ids } => {
            assert_eq!(item_ids, vec!["item-1".to_string(), "item-2".to_string()]);
        }
        other => panic!("unexpected command variant: {other:?}"),
    }
}

#[test]
fn parse_args_without_arguments_is_help() {
    let (config, command) = parse_args_from(Vec::new()).expect("empty args parse");
    assert!(matches!(command, Command::Help));
    assert_eq!(config.timeout_ms, 15_000);
    let (_, command) = parse_args_from(args(&["--token", "t"])).expect("options only");
    assert!(matches!(command, Command::Help));
}

#[test]
fn global_options_are_taken_from_anywhere() {
    let (config, command) = parse_args_from(args(&[
        "ping",
        "--socket",
        "/tmp/k.sock",
        "--timeout-ms",
        "250",
        "--token",
        "abc",
    ]))
    .expect("globals after the command parse");
    assert!(matches!(command, Command::Ping));
    assert_eq!(config.socket.as_deref(), Some("/tmp/k.sock"));
    assert_eq!(config.token.as_deref(), Some("abc"));
    assert_eq!(config.timeout_ms, 250);
}

#[test]
fn global_option_errors_are_reported() {
    assert_eq!(config_error(&["--socket"]), "missing value for --socket");
    assert_eq!(
        config_error(&["--timeout-ms", "soon", "ping"]),
        "invalid --timeout-ms value `soon`: invalid digit found in string"
    );
    assert_eq!(
        config_error(&["--timeout-ms", "", "ping"]),
        "invalid --timeout-ms value ``: cannot parse integer from empty string"
    );
    assert_eq!(
        config_error(&["--timeout-ms", "99999999999999999999", "ping"]),
        "invalid --timeout-ms value `99999999999999999999`: number too large to fit in target type"
    );
    assert_eq!(config_error(&["frobnicate"]), "unknown command `frobnicate`");
}

#[test]
fn option_errors_name_the_command_and_option() {
    assert_eq!(config_error(&["set-active-layer", "--layer-id"]), "missing value for set-active-layer --layer-id");
    assert_eq!(
        config_error(&["set-active-layer", "--layer-id", "-"]),
        "invalid set-active-layer --layer-id `-`: invalid digit found in string"
    );
    assert_eq!(
        config_error(&["set-board-origin", "--x-nm", "-9223372036854775809", "--y-nm", "1"]),
        "invalid set-board-origin --x-nm `-9223372036854775809`: number too small to fit in target type"
    );
    assert_eq!(config_error(&["set-active-layer"]), "set-active-layer requires `--layer-id <i32>`");
    assert_eq!(
        config_error(&["set-net-classes", "--merge-mode", "mix"]),
        "unknown merge mode `mix`; expected `merge` or `replace`"
    );
    assert_eq!(
        config_error(&["set-text-variables", "--var", "REV"]),
        "set-text-variables --var requires `<name>=<value>`"
    );
    assert_eq!(
        config_error(&["create-items", "--item", "url=0g"]),
        "invalid hex character `g`"
    );
    assert_eq!(
        config_error(&["update-items", "--item", "url"]),
        "update-items --item requires `<type_url>=<hex>`"
    );
    assert_eq!(
        config_error(&["inject-drc-error", "--message", "m", "--x-nm", "1"]),
        "inject-drc-error requires both --x-nm and --y-nm when providing a position"
    );
    assert_eq!(
        config_error(&["delete-items"]),
        "delete-items requires one or more `--id <uuid>` arguments"
    );
    assert_eq!(config_error(&["items-by-id", "--id"]), "missing value for items-by-id --id");
}

#[test]
fn first_bad_value_wins() {
    assert_eq!(
        config_error(&["hit-test", "--x-nm", "x", "--tolerance-nm"]),
        "invalid hit-test --x-nm `x`: invalid digit found in string"
    );
}

#[test]
fn defaults_apply_when_options_are_absent() {
    let (_, command) = parse_args_from(args(&["kicad-binary-path"])).expect("parses");
    assert_eq!(command, Command::KiCadBinaryPath { binary_name: "kicad-cli".to_string() });
    let (_, command) = parse_args_from(args(&["open-docs"])).expect("parses");
    assert_eq!(command, Command::OpenDocs { document_type: DocumentType::Pcb });
    let (_, command) = parse_args_from(args(&["refresh-editor"])).expect("parses");
    assert_eq!(command, Command::RefreshEditor { frame: EditorFrameType::PcbEditor });
    let (_, command) = parse_args_from(args(&["board-read-report"])).expect("parses");
    assert_eq!(command, Command::BoardReadReport { output: "docs/BOARD_READ_REPORT.md".to_string() });
    let (_, command) = parse_args_from(args(&["end-commit", "--id", "c"])).expect("parses");
    assert_eq!(command, Command::EndCommit {
        id: "c".to_string(),
        action: CommitAction::Commit,
        message: String::new(),
    });
}

#[test]
fn text_variables_are_kept_by_name() {
    let (_, command) = parse_args_from(args(&[
        "set-text-variables",
        "--var",
        "REV=A",
        "--var",
        "DATE=today",
        "--var",
        "REV=B",
    ]))
    .expect("parses");
    match command {
        Command::SetTextVariables { merge_mode, variables } => {
            assert_eq!(merge_mode, MapMergeMode::Merge);
            assert_eq!(variables, vec![
                ("DATE".to_string(), "today".to_string()),
                ("REV".to_string(), "B".to_string()),
            ]);
        }
        other => panic!("unexpected command variant: {other:?}"),
    }
}

fn mm_to_nm(text: &str) -> i64 {
    (text.parse::<f64>().expect("millimetres") * 1_000_000.0).round() as i64
}

fn length_nm(length: &Length) -> i64 {
    match length {
        Length::Nm(nm) => *nm,
        Length::Mm(text) => mm_to_nm(text),
    }
}

#[test]
fn parse_args_parses_create_board_text() {
    let (_, command) = parse_args_from(vec![
        "create-board-text".to_string(),
        "--text".to_string(),
        "IPC OK".to_string(),
        "--x-mm".to_string(),
        "186".to_string(),
        "--y-mm".to_string(),
        "90.5".to_string(),
        "--layer".to_string(),
        "F.SilkS".to_string(),
        "--size-mm".to_string(),
        "1.5".to_string(),
        "--stroke-width-mm".to_string(),
        "0.15".to_string(),
    ])
    .expect("create-board-text args should parse");

    match command {
        Command::CreateBoardText { args } => {
            let spec = board_text_spec_from_lengths(
                &args,
                length_nm(&args.x),
                length_nm(&args.y),
                length_nm(&args.size),
                length_nm(&args.stroke_width),
            );
            assert_eq!(spec.text.text, "IPC OK");
            assert_eq!(
                spec.text.position_nm.map(|point| (point.x_nm, point.y_nm)),
                Some((186_000_000, 90_500_000))
            );
            assert_eq!(spec.layer_id, 40);
            assert_eq!(
                spec.text
                    .attributes
                    .and_then(|attributes| attributes.stroke_width_nm),
                Some(150_000)
            );
        }
        other => panic!("unexpected command variant: {other:?}"),
    }
}

#[test]
fn board_text_arguments_take_defaults() {
    let (_, command) = parse_args_from(args(&[
        "create-board-text", "--text", "X", "--x-mm", "1", "--y-nm", "-5", "--x-nm", "7", "--locked",
    ]))
    .expect("parses");
    assert_eq!(
        command,
        Command::CreateBoardText {
            args: BoardTextArgs {
                text: "X".to_string(),
                x: Length::Nm(7),
                y: Length::Nm(-5),
                layer_id: 40,
                size: Length::Nm(1_500_000),
                stroke_width: Length::Nm(150_000),
                knockout: false,
                locked: true,
            },
        }
    );
}

#[test]
fn board_text_arguments_are_checked() {
    assert_eq!(
        config_error(&["create-board-text", "--x-nm", "1", "--y-nm", "2"]),
        "create-board-text requires `--text <value>`"
    );
    assert_eq!(
        config_error(&["create-board-text", "--text", "X", "--y-nm", "2"]),
        "create-board-text requires `--x-mm <value>` or `--x-nm <value>`"
    );
    assert_eq!(
        config_error(&["create-board-text", "--text", "X", "--x-mm", "2"]),
        "create-board-text requires `--y-mm <value>` or `--y-nm <value>`"
    );
    assert_eq!(
        config_error(&["create-board-text", "--text", "X", "--layer", "Nope"]),
        "invalid create-board-text layer `Nope`; use e.g. F.SilkS, BL_F_SilkS, or 40"
    );
    assert_eq!(
        config_error(&["create-board-text", "--x-nm", "abc"]),
        "invalid create-board-text --x-nm `abc`: invalid digit found in string"
    );
    assert_eq!(
        config_error(&["create-board-text", "--text"]),
        "missing value for create-board-text --text"
    );
    assert_eq!(
        config_error(&["create-board-text", "--text", "X", "--layer-id"]),
        "missing value for create-board-text --layer-id"
    );
}

#[test]
fn board_read_coverage_lists_every_command_once() {
    let rows = kicad_ipc_rs::cli::proto_coverage_board_read_rows();
    assert_eq!(rows.len(), 28);
    assert_eq!(rows[0], (
        "kiapi.board.commands.GetBoardStackup",
        "implemented",
        "get_board_stackup_raw/get_board_stackup",
    ));
    let mut commands: Vec<&str> = rows.iter().map(|row| row.0).collect();
    commands.sort();
    commands.dedup();
    assert_eq!(commands.len(), rows.len());
}

#[test]
fn decimal_integers_read_as_std_reads_them() {
    for text in ["0", "+7", "42", "-0", "-17", "+", "-", "", "1_0", " 5", "4294967295", "4294967296", "99999999999999999999", "-2147483648", "-2147483649", "9223372036854775807", "-9223372036854775808"] {
        assert_eq!(parse_u64(text).ok(), text.parse::<u64>().ok(), "u64 {text:?}");
        assert_eq!(parse_u32(text).ok(), text.parse::<u32>().ok(), "u32 {text:?}");
        assert_eq!(parse_i32_text(text).ok(), text.parse::<i32>().ok(), "i32 {text:?}");
        assert_eq!(parse_i64(text).ok(), text.parse::<i64>().ok(), "i64 {text:?}");
        if let Err(kind) = parse_i64(text) {
            let expected = text.parse::<i64>().unwrap_err().to_string();
            assert_eq!(int_error_message(kind), expected, "i64 message {text:?}");
        }
        if let Err(kind) = parse_u32(text) {
            let expected = text.parse::<u32>().unwrap_err().to_string();
            assert_eq!(int_error_message(kind), expected, "u32 message {text:?}");
        }
    }
    assert_eq!(parse_u64("-5"), Err(IntErrorKind::InvalidDigit));
    assert_eq!(parse_i32_text("-2147483649"), Err(IntErrorKind::NegOverflow));
}
