//! The tool's commands: what each command's arguments read as, and the
//! arguments of the whole command line.

use vstd::prelude::*;
use crate::cli_args::{
    events_view, has_option, has_option_in, i32s_of, i32s_of_option, items_of, last_value,
    last_value_either, last_value_of, last_value_of_either, opt_i32, opt_i32_of, opt_i64, opt_i64_of, opt_text, opt_text_of, opt_u32,
    opt_u32_of, options_read, payloads_view, read_options, take_items_of_option,
    take_variables_of_option, text_or, text_or_default, texts_of, texts_of_option, value_view,
    variables_of, variables_view, OptionKind, OptionSpec, OptionValue, ValueView,
};
use crate::error::KiCadError;
use crate::model::board::{
    BoardFlipMode, BoardOriginKind, DrcSeverity, InactiveLayerDisplayMode, NetColorDisplayMode,
    RatsnestDisplayMode,
};
use crate::model::board::{BoardTextSpec, ItemLockState, Vector2Nm};
use crate::model::common::{
    CommitAction, DocumentType, EditorFrameType, MapMergeMode, TextAttributesSpec,
    TextHorizontalAlignment, TextVerticalAlignment,
};
use crate::proto;
use crate::cli::{default_config, parse_item_ids, scan_ids, CliConfig, CLI_DEFAULT_TIMEOUT_MS};
use crate::decimal::{int_error_message, int_error_text, int_parse, parse_u64};
use crate::text::{copy_string, opt_string_view, owned, push_str, str_eq, strings_view};

verus! {

/// A length as given on the command line: in nanometres, or as the text of a
/// millimetre value, which the caller reads as a floating-point number.
#[derive(Debug, PartialEq, Eq)]
pub enum Length {
    Nm(i64),
    Mm(String),
}

/// A length as the contracts see it.
pub ghost enum LengthView {
    Nm(i64),
    Mm(Seq<char>),
}

/// The view of a length.
pub open spec fn length_view(l: Length) -> LengthView {
    match l {
        Length::Nm(n) => LengthView::Nm(n),
        Length::Mm(t) => LengthView::Mm(t@),
    }
}

/// What `create-board-text` reads: the text, its position, layer, glyph size
/// and stroke width, and the knockout and locked switches.
#[derive(Debug, PartialEq, Eq)]
pub struct BoardTextArgs {
    pub text: String,
    pub x: Length,
    pub y: Length,
    pub layer_id: i32,
    pub size: Length,
    pub stroke_width: Length,
    pub knockout: bool,
    pub locked: bool,
}

/// A command of the tool, with the values its options gave.
#[derive(Debug, PartialEq, Eq)]
pub enum Command {
    Ping,
    Version,
    KiCadBinaryPath { binary_name: String },
    PluginSettingsPath { identifier: String },
    OpenDocs { document_type: DocumentType },
    ProjectPath,
    BoardOpen,
    NetClasses,
    SetNetClasses { merge_mode: MapMergeMode },
    TextVariables,
    SetTextVariables { merge_mode: MapMergeMode, variables: Vec<(String, String)> },
    ExpandTextVariables { text: Vec<String> },
    TextExtents { text: String },
    TextAsShapes { text: Vec<String> },
    Nets,
    Vias,
    EnabledLayers,
    SetEnabledLayers { copper_layer_count: u32, layer_ids: Vec<i32> },
    ActiveLayer,
    SetActiveLayer { layer_id: i32 },
    VisibleLayers,
    SetVisibleLayers { layer_ids: Vec<i32> },
    BoardOrigin { kind: BoardOriginKind },
    SetBoardOrigin { kind: BoardOriginKind, x_nm: i64, y_nm: i64 },
    InjectDrcError {
        severity: DrcSeverity,
        message: String,
        x_nm: Option<i64>,
        y_nm: Option<i64>,
        item_ids: Vec<String>,
    },
    RefreshEditor { frame: EditorFrameType },
    BeginCommit,
    EndCommit { id: String, action: CommitAction, message: String },
    SaveDoc,
    SaveCopy { path: String, overwrite: bool, include_project: bool },
    RevertDoc,
    RunAction { action: String },
    CreateItems { items: Vec<proto::Any>, container_id: Option<String> },
    CreateBoardText { args: BoardTextArgs },
    UpdateItems { items: Vec<proto::Any> },
    DeleteItems { item_ids: Vec<String> },
    ParseCreateItemsFromString { contents: String },
    AddToSelection { item_ids: Vec<String> },
    RemoveFromSelection { item_ids: Vec<String> },
    ClearSelection,
    SelectionSummary,
    SelectionDetails,
    SelectionRaw,
    NetlistPads,
    ItemsById { item_ids: Vec<String> },
    ItemBBox { item_ids: Vec<String>, include_child_text: bool },
    HitTest { item_id: String, x_nm: i64, y_nm: i64, tolerance_nm: i32 },
    PcbTypes,
    ItemsRaw { type_codes: Vec<i32>, include_debug: bool },
    ItemsRawAllPcb { include_debug: bool },
    PadShapePolygon { pad_ids: Vec<String>, layer_id: i32, include_debug: bool },
    PadstackPresence { item_ids: Vec<String>, layer_ids: Vec<i32>, include_debug: bool },
    TitleBlock,
    BoardAsString,
    SelectionAsString,
    Stackup,
    UpdateStackup,
    GraphicsDefaults,
    Appearance,
    SetAppearance {
        inactive_layer_display: InactiveLayerDisplayMode,
        net_color_display: NetColorDisplayMode,
        board_flip: BoardFlipMode,
        ratsnest_display: RatsnestDisplayMode,
    },
    RefillZones { zone_ids: Vec<String> },
    InteractiveMoveItems { item_ids: Vec<String> },
    NetClass,
    BoardReadReport { output: String },
    ProtoCoverageBoardRead,
    Smoke,
    Help,
}

/// A command as the contracts see it.
pub ghost enum CommandView {
    Ping,
    Version,
    KiCadBinaryPath { binary_name: Seq<char> },
    PluginSettingsPath { identifier: Seq<char> },
    OpenDocs { document_type: DocumentType },
    ProjectPath,
    BoardOpen,
    NetClasses,
    SetNetClasses { merge_mode: MapMergeMode },
    TextVariables,
    SetTextVariables { merge_mode: MapMergeMode, variables: Seq<(Seq<char>, Seq<char>)> },
    ExpandTextVariables { text: Seq<Seq<char>> },
    TextExtents { text: Seq<char> },
    TextAsShapes { text: Seq<Seq<char>> },
    Nets,
    Vias,
    EnabledLayers,
    SetEnabledLayers { copper_layer_count: u32, layer_ids: Seq<i32> },
    ActiveLayer,
    SetActiveLayer { layer_id: i32 },
    VisibleLayers,
    SetVisibleLayers { layer_ids: Seq<i32> },
    BoardOrigin { kind: BoardOriginKind },
    SetBoardOrigin { kind: BoardOriginKind, x_nm: i64, y_nm: i64 },
    InjectDrcError {
        severity: DrcSeverity,
        message: Seq<char>,
        x_nm: Option<i64>,
        y_nm: Option<i64>,
        item_ids: Seq<Seq<char>>,
    },
    RefreshEditor { frame: EditorFrameType },
    BeginCommit,
    EndCommit { id: Seq<char>, action: CommitAction, message: Seq<char> },
    SaveDoc,
    SaveCopy { path: Seq<char>, overwrite: bool, include_project: bool },
    RevertDoc,
    RunAction { action: Seq<char> },
    CreateItems { items: Seq<(Seq<char>, Option<Seq<u8>>)>, container_id: Option<Seq<char>> },
    CreateBoardText {
        text: Seq<char>,
        x: LengthView,
        y: LengthView,
        layer_id: i32,
        size: LengthView,
        stroke_width: LengthView,
        knockout: bool,
        locked: bool,
    },
    UpdateItems { items: Seq<(Seq<char>, Option<Seq<u8>>)> },
    DeleteItems { item_ids: Seq<Seq<char>> },
    ParseCreateItemsFromString { contents: Seq<char> },
    AddToSelection { item_ids: Seq<Seq<char>> },
    RemoveFromSelection { item_ids: Seq<Seq<char>> },
    ClearSelection,
    SelectionSummary,
    SelectionDetails,
    SelectionRaw,
    NetlistPads,
    ItemsById { item_ids: Seq<Seq<char>> },
    ItemBBox { item_ids: Seq<Seq<char>>, include_child_text: bool },
    HitTest { item_id: Seq<char>, x_nm: i64, y_nm: i64, tolerance_nm: i32 },
    PcbTypes,
    ItemsRaw { type_codes: Seq<i32>, include_debug: bool },
    ItemsRawAllPcb { include_debug: bool },
    PadShapePolygon { pad_ids: Seq<Seq<char>>, layer_id: i32, include_debug: bool },
    PadstackPresence { item_ids: Seq<Seq<char>>, layer_ids: Seq<i32>, include_debug: bool },
    TitleBlock,
    BoardAsString,
    SelectionAsString,
    Stackup,
    UpdateStackup,
    GraphicsDefaults,
    Appearance,
    SetAppearance {
        inactive_layer_display: InactiveLayerDisplayMode,
        net_color_display: NetColorDisplayMode,
        board_flip: BoardFlipMode,
        ratsnest_display: RatsnestDisplayMode,
    },
    RefillZones { zone_ids: Seq<Seq<char>> },
    InteractiveMoveItems { item_ids: Seq<Seq<char>> },
    NetClass,
    BoardReadReport { output: Seq<char> },
    ProtoCoverageBoardRead,
    Smoke,
    Help,
}

/// The view of a command.
pub open spec fn command_view(c: Command) -> CommandView {
    match c {
        Command::Ping => CommandView::Ping,
        Command::Version => CommandView::Version,
        Command::KiCadBinaryPath { binary_name } => CommandView::KiCadBinaryPath {
            binary_name: binary_name@
        },
        Command::PluginSettingsPath { identifier } => CommandView::PluginSettingsPath {
            identifier: identifier@
        },
        Command::OpenDocs { document_type } => CommandView::OpenDocs {
            document_type: document_type
        },
        Command::ProjectPath => CommandView::ProjectPath,
        Command::BoardOpen => CommandView::BoardOpen,
        Command::NetClasses => CommandView::NetClasses,
        Command::SetNetClasses { merge_mode } => CommandView::SetNetClasses {
            merge_mode: merge_mode
        },
        Command::TextVariables => CommandView::TextVariables,
        Command::SetTextVariables { merge_mode, variables } => CommandView::SetTextVariables {
            merge_mode: merge_mode,
            variables: variables_view(variables@),
        },
        Command::ExpandTextVariables { text } => CommandView::ExpandTextVariables {
            text: strings_view(text@)
        },
        Command::TextExtents { text } => CommandView::TextExtents { text: text@ },
        Command::TextAsShapes { text } => CommandView::TextAsShapes { text: strings_view(text@) },
        Command::Nets => CommandView::Nets,
        Command::Vias => CommandView::Vias,
        Command::EnabledLayers => CommandView::EnabledLayers,
        Command::SetEnabledLayers { copper_layer_count, layer_ids } => CommandView::SetEnabledLayers {
            copper_layer_count: copper_layer_count,
            layer_ids: layer_ids@,
        },
        Command::ActiveLayer => CommandView::ActiveLayer,
        Command::SetActiveLayer { layer_id } => CommandView::SetActiveLayer { layer_id: layer_id },
        Command::VisibleLayers => CommandView::VisibleLayers,
        Command::SetVisibleLayers { layer_ids } => CommandView::SetVisibleLayers {
            layer_ids: layer_ids@
        },
        Command::BoardOrigin { kind } => CommandView::BoardOrigin { kind: kind },
        Command::SetBoardOrigin { kind, x_nm, y_nm } => CommandView::SetBoardOrigin {
            kind: kind,
            x_nm: x_nm,
            y_nm: y_nm,
        },
        Command::InjectDrcError { severity, message, x_nm, y_nm, item_ids } => CommandView::InjectDrcError {
            severity: severity,
            message: message@,
            x_nm: x_nm,
            y_nm: y_nm,
            item_ids: strings_view(item_ids@),
        },
        Command::RefreshEditor { frame } => CommandView::RefreshEditor { frame: frame },
        Command::BeginCommit => CommandView::BeginCommit,
        Command::EndCommit { id, action, message } => CommandView::EndCommit {
            id: id@,
            action: action,
            message: message@,
        },
        Command::SaveDoc => CommandView::SaveDoc,
        Command::SaveCopy { path, overwrite, include_project } => CommandView::SaveCopy {
            path: path@,
            overwrite: overwrite,
            include_project: include_project,
        },
        Command::RevertDoc => CommandView::RevertDoc,
        Command::RunAction { action } => CommandView::RunAction { action: action@ },
        Command::CreateItems { items, container_id } => CommandView::CreateItems {
            items: payloads_view(items@),
            container_id: opt_string_view(container_id),
        },
        Command::CreateBoardText { args } => CommandView::CreateBoardText {
            text: args.text@,
            x: length_view(args.x),
            y: length_view(args.y),
            layer_id: args.layer_id,
            size: length_view(args.size),
            stroke_width: length_view(args.stroke_width),
            knockout: args.knockout,
            locked: args.locked,
        },
        Command::UpdateItems { items } => CommandView::UpdateItems { items: payloads_view(items@) },
        Command::DeleteItems { item_ids } => CommandView::DeleteItems {
            item_ids: strings_view(item_ids@)
        },
        Command::ParseCreateItemsFromString { contents } => CommandView::ParseCreateItemsFromString {
            contents: contents@
        },
        Command::AddToSelection { item_ids } => CommandView::AddToSelection {
            item_ids: strings_view(item_ids@)
        },
        Command::RemoveFromSelection { item_ids } => CommandView::RemoveFromSelection {
            item_ids: strings_view(item_ids@)
        },
        Command::ClearSelection => CommandView::ClearSelection,
        Command::SelectionSummary => CommandView::SelectionSummary,
        Command::SelectionDetails => CommandView::SelectionDetails,
        Command::SelectionRaw => CommandView::SelectionRaw,
        Command::NetlistPads => CommandView::NetlistPads,
        Command::ItemsById { item_ids } => CommandView::ItemsById {
            item_ids: strings_view(item_ids@)
        },
        Command::ItemBBox { item_ids, include_child_text } => CommandView::ItemBBox {
            item_ids: strings_view(item_ids@),
            include_child_text: include_child_text,
        },
        Command::HitTest { item_id, x_nm, y_nm, tolerance_nm } => CommandView::HitTest {
            item_id: item_id@,
            x_nm: x_nm,
            y_nm: y_nm,
            tolerance_nm: tolerance_nm,
        },
        Command::PcbTypes => CommandView::PcbTypes,
        Command::ItemsRaw { type_codes, include_debug } => CommandView::ItemsRaw {
            type_codes: type_codes@,
            include_debug: include_debug,
        },
        Command::ItemsRawAllPcb { include_debug } => CommandView::ItemsRawAllPcb {
            include_debug: include_debug
        },
        Command::PadShapePolygon { pad_ids, layer_id, include_debug } => CommandView::PadShapePolygon {
            pad_ids: strings_view(pad_ids@),
            layer_id: layer_id,
            include_debug: include_debug,
        },
        Command::PadstackPresence { item_ids, layer_ids, include_debug } => CommandView::PadstackPresence {
            item_ids: strings_view(item_ids@),
            layer_ids: layer_ids@,
            include_debug: include_debug,
        },
        Command::TitleBlock => CommandView::TitleBlock,
        Command::BoardAsString => CommandView::BoardAsString,
        Command::SelectionAsString => CommandView::SelectionAsString,
        Command::Stackup => CommandView::Stackup,
        Command::UpdateStackup => CommandView::UpdateStackup,
        Command::GraphicsDefaults => CommandView::GraphicsDefaults,
        Command::Appearance => CommandView::Appearance,
        Command::SetAppearance {
            inactive_layer_display,
            net_color_display,
            board_flip,
            ratsnest_display,
        } => CommandView::SetAppearance {
            inactive_layer_display: inactive_layer_display,
            net_color_display: net_color_display,
            board_flip: board_flip,
            ratsnest_display: ratsnest_display,
        },
        Command::RefillZones { zone_ids } => CommandView::RefillZones {
            zone_ids: strings_view(zone_ids@)
        },
        Command::InteractiveMoveItems { item_ids } => CommandView::InteractiveMoveItems {
            item_ids: strings_view(item_ids@)
        },
        Command::NetClass => CommandView::NetClass,
        Command::BoardReadReport { output } => CommandView::BoardReadReport { output: output@ },
        Command::ProtoCoverageBoardRead => CommandView::ProtoCoverageBoardRead,
        Command::Smoke => CommandView::Smoke,
        Command::Help => CommandView::Help,
    }
}

/// Whether `r` is what `s` describes: the command it views, or a
/// configuration error with its message.
pub open spec fn command_result_is(
    r: Result<Command, KiCadError>,
    s: Result<CommandView, Seq<char>>,
) -> bool {
    match r {
        Ok(c) => s == Ok::<CommandView, Seq<char>>(command_view(c)),
        Err(e) => e matches KiCadError::Config { reason } && s == Err::<CommandView, Seq<char>>(
            reason@,
        ),
    }
}

// ---------------------------------------------------------------------------
// Commands with options.
// ---------------------------------------------------------------------------
/// The options of `kicad-binary-path`.
pub open spec fn kicad_binary_path_options() -> Seq<OptionSpec> {
    seq![OptionSpec { name: "--binary-name", kind: OptionKind::Text }]
}

/// What `kicad-binary-path` reads: the binary name, `kicad-cli` by default.
pub open spec fn kicad_binary_path_read(args: Seq<Seq<char>>) -> Result<CommandView, Seq<char>> {
    match options_read(args, "kicad-binary-path"@, kicad_binary_path_options()) {
        Err(m) => Err(m),
        Ok(ev) => Ok(CommandView::KiCadBinaryPath { binary_name: text_or(ev, 0, "kicad-cli"@) }),
    }
}

fn read_kicad_binary_path(args: &[String]) -> (r: Result<Command, KiCadError>)
    ensures
        command_result_is(r, kicad_binary_path_read(strings_view(args@))),
{
    let table = vec![OptionSpec { name: "--binary-name", kind: OptionKind::Text }];
    assert(table@ =~= kicad_binary_path_options());
    let ev = match read_options(args, "kicad-binary-path", table.as_slice()) {
        Ok(ev) => ev,
        Err(reason) => {
            return Err(KiCadError::Config { reason });
        },
    };
    Ok(Command::KiCadBinaryPath { binary_name: text_or_default(&ev, 0, "kicad-cli") })
}

/// The options of `plugin-settings-path`.
pub open spec fn plugin_settings_path_options() -> Seq<OptionSpec> {
    seq![OptionSpec { name: "--identifier", kind: OptionKind::Text }]
}

/// What `plugin-settings-path` reads: the plugin identifier, `kicad-ipc-rust` by default.
pub open spec fn plugin_settings_path_read(args: Seq<Seq<char>>) -> Result<CommandView, Seq<char>> {
    match options_read(args, "plugin-settings-path"@, plugin_settings_path_options()) {
        Err(m) => Err(m),
        Ok(ev) => Ok(
            CommandView::PluginSettingsPath { identifier: text_or(ev, 0, "kicad-ipc-rust"@) },
        ),
    }
}

fn read_plugin_settings_path(args: &[String]) -> (r: Result<Command, KiCadError>)
    ensures
        command_result_is(r, plugin_settings_path_read(strings_view(args@))),
{
    let table = vec![OptionSpec { name: "--identifier", kind: OptionKind::Text }];
    assert(table@ =~= plugin_settings_path_options());
    let ev = match read_options(args, "plugin-settings-path", table.as_slice()) {
        Ok(ev) => ev,
        Err(reason) => {
            return Err(KiCadError::Config { reason });
        },
    };
    Ok(Command::PluginSettingsPath { identifier: text_or_default(&ev, 0, "kicad-ipc-rust") })
}

/// The options of `set-net-classes`.
pub open spec fn set_net_classes_options() -> Seq<OptionSpec> {
    seq![OptionSpec { name: "--merge-mode", kind: OptionKind::MergeMode }]
}

/// What `set-net-classes` reads: the merge mode, `merge` by default.
pub open spec fn set_net_classes_read(args: Seq<Seq<char>>) -> Result<CommandView, Seq<char>> {
    match options_read(args, "set-net-classes"@, set_net_classes_options()) {
        Err(m) => Err(m),
        Ok(ev) => Ok(
            CommandView::SetNetClasses {
                merge_mode: match last_value(ev, 0) {
                    Some(ValueView::MergeMode(v)) => v,
                    _ => MapMergeMode::Merge,
                }
            },
        ),
    }
}

fn read_set_net_classes(args: &[String]) -> (r: Result<Command, KiCadError>)
    ensures
        command_result_is(r, set_net_classes_read(strings_view(args@))),
{
    let table = vec![OptionSpec { name: "--merge-mode", kind: OptionKind::MergeMode }];
    assert(table@ =~= set_net_classes_options());
    let ev = match read_options(args, "set-net-classes", table.as_slice()) {
        Ok(ev) => ev,
        Err(reason) => {
            return Err(KiCadError::Config { reason });
        },
    };
    let merge_mode = match last_value_of(&ev, 0) {
        Some(OptionValue::MergeMode(v)) => *v,
        _ => MapMergeMode::Merge,
    };
    Ok(Command::SetNetClasses { merge_mode })
}

/// The options of `set-text-variables`.
pub open spec fn set_text_variables_options() -> Seq<OptionSpec> {
    seq![
        OptionSpec { name: "--merge-mode", kind: OptionKind::MergeMode },
        OptionSpec { name: "--var", kind: OptionKind::Variable },
    ]
}

/// What `set-text-variables` reads: the merge mode, `merge` by default, and the variables set by
/// `--var <name>=<value>`.
pub open spec fn set_text_variables_read(args: Seq<Seq<char>>) -> Result<CommandView, Seq<char>> {
    match options_read(args, "set-text-variables"@, set_text_variables_options()) {
        Err(m) => Err(m),
        Ok(ev) => Ok(
            CommandView::SetTextVariables {
                merge_mode: match last_value(ev, 0) {
                    Some(ValueView::MergeMode(v)) => v,
                    _ => MapMergeMode::Merge,
                },
                variables: variables_of(ev, 1),
            },
        ),
    }
}

fn read_set_text_variables(args: &[String]) -> (r: Result<Command, KiCadError>)
    ensures
        command_result_is(r, set_text_variables_read(strings_view(args@))),
{
    let table = vec![
        OptionSpec { name: "--merge-mode", kind: OptionKind::MergeMode },
        OptionSpec { name: "--var", kind: OptionKind::Variable },
    ];
    assert(table@ =~= set_text_variables_options());
    let ev = match read_options(args, "set-text-variables", table.as_slice()) {
        Ok(ev) => ev,
        Err(reason) => {
            return Err(KiCadError::Config { reason });
        },
    };
    let merge_mode = match last_value_of(&ev, 0) {
        Some(OptionValue::MergeMode(v)) => *v,
        _ => MapMergeMode::Merge,
    };
    let variables = take_variables_of_option(ev, 1);
    Ok(Command::SetTextVariables { merge_mode, variables })
}

/// The options of `expand-text-variables`.
pub open spec fn expand_text_variables_options() -> Seq<OptionSpec> {
    seq![OptionSpec { name: "--text", kind: OptionKind::Text }]
}

/// What `expand-text-variables` reads: the texts, one or more.
pub open spec fn expand_text_variables_read(args: Seq<Seq<char>>) -> Result<CommandView, Seq<char>> {
    match options_read(args, "expand-text-variables"@, expand_text_variables_options()) {
        Err(m) => Err(m),
        Ok(ev) => if texts_of(ev, 0).len() == 0 {
            Err("expand-text-variables requires one or more `--text <value>` arguments"@)
        } else { Ok(CommandView::ExpandTextVariables { text: texts_of(ev, 0) }) },
    }
}

fn read_expand_text_variables(args: &[String]) -> (r: Result<Command, KiCadError>)
    ensures
        command_result_is(r, expand_text_variables_read(strings_view(args@))),
{
    let table = vec![OptionSpec { name: "--text", kind: OptionKind::Text }];
    assert(table@ =~= expand_text_variables_options());
    let ev = match read_options(args, "expand-text-variables", table.as_slice()) {
        Ok(ev) => ev,
        Err(reason) => {
            return Err(KiCadError::Config { reason });
        },
    };
    let text = texts_of_option(&ev, 0);
    if text.len() == 0 {
        return Err(
            KiCadError::Config {
                reason: owned(
                    "expand-text-variables requires one or more `--text <value>` arguments",
                )
            },
        );
    }
    Ok(Command::ExpandTextVariables { text })
}

/// The options of `text-extents`.
pub open spec fn text_extents_options() -> Seq<OptionSpec> {
    seq![OptionSpec { name: "--text", kind: OptionKind::Text }]
}

/// What `text-extents` reads: the text, required.
pub open spec fn text_extents_read(args: Seq<Seq<char>>) -> Result<CommandView, Seq<char>> {
    match options_read(args, "text-extents"@, text_extents_options()) {
        Err(m) => Err(m),
        Ok(ev) => match opt_text(ev, 0) {
            Some(t) => Ok(CommandView::TextExtents { text: t }),
            None => Err("text-extents requires `--text <value>`"@),
        },
    }
}

fn read_text_extents(args: &[String]) -> (r: Result<Command, KiCadError>)
    ensures
        command_result_is(r, text_extents_read(strings_view(args@))),
{
    let table = vec![OptionSpec { name: "--text", kind: OptionKind::Text }];
    assert(table@ =~= text_extents_options());
    let ev = match read_options(args, "text-extents", table.as_slice()) {
        Ok(ev) => ev,
        Err(reason) => {
            return Err(KiCadError::Config { reason });
        },
    };
    match opt_text_of(&ev, 0) {
        Some(text) => Ok(Command::TextExtents { text }),
        None => Err(KiCadError::Config { reason: owned("text-extents requires `--text <value>`") }),
    }
}

/// The options of `text-as-shapes`.
pub open spec fn text_as_shapes_options() -> Seq<OptionSpec> {
    seq![OptionSpec { name: "--text", kind: OptionKind::Text }]
}

/// What `text-as-shapes` reads: the texts, one or more.
pub open spec fn text_as_shapes_read(args: Seq<Seq<char>>) -> Result<CommandView, Seq<char>> {
    match options_read(args, "text-as-shapes"@, text_as_shapes_options()) {
        Err(m) => Err(m),
        Ok(ev) => if texts_of(ev, 0).len() == 0 {
            Err("text-as-shapes requires one or more `--text <value>` arguments"@)
        } else { Ok(CommandView::TextAsShapes { text: texts_of(ev, 0) }) },
    }
}

fn read_text_as_shapes(args: &[String]) -> (r: Result<Command, KiCadError>)
    ensures
        command_result_is(r, text_as_shapes_read(strings_view(args@))),
{
    let table = vec![OptionSpec { name: "--text", kind: OptionKind::Text }];
    assert(table@ =~= text_as_shapes_options());
    let ev = match read_options(args, "text-as-shapes", table.as_slice()) {
        Ok(ev) => ev,
        Err(reason) => {
            return Err(KiCadError::Config { reason });
        },
    };
    let text = texts_of_option(&ev, 0);
    if text.len() == 0 {
        return Err(
            KiCadError::Config {
                reason: owned("text-as-shapes requires one or more `--text <value>` arguments")
            },
        );
    }
    Ok(Command::TextAsShapes { text })
}

/// The options of `set-enabled-layers`.
pub open spec fn set_enabled_layers_options() -> Seq<OptionSpec> {
    seq![
        OptionSpec { name: "--copper-layer-count", kind: OptionKind::U32 },
        OptionSpec { name: "--layer-id", kind: OptionKind::I32 },
    ]
}

/// What `set-enabled-layers` reads: the copper layer count, required, and the layer ids.
pub open spec fn set_enabled_layers_read(args: Seq<Seq<char>>) -> Result<CommandView, Seq<char>> {
    match options_read(args, "set-enabled-layers"@, set_enabled_layers_options()) {
        Err(m) => Err(m),
        Ok(ev) => match opt_u32(ev, 0) {
            Some(c) => Ok(
                CommandView::SetEnabledLayers { copper_layer_count: c, layer_ids: i32s_of(ev, 1) },
            ),
            None => Err("set-enabled-layers requires `--copper-layer-count <u32>`"@),
        },
    }
}

fn read_set_enabled_layers(args: &[String]) -> (r: Result<Command, KiCadError>)
    ensures
        command_result_is(r, set_enabled_layers_read(strings_view(args@))),
{
    let table = vec![
        OptionSpec { name: "--copper-layer-count", kind: OptionKind::U32 },
        OptionSpec { name: "--layer-id", kind: OptionKind::I32 },
    ];
    assert(table@ =~= set_enabled_layers_options());
    let ev = match read_options(args, "set-enabled-layers", table.as_slice()) {
        Ok(ev) => ev,
        Err(reason) => {
            return Err(KiCadError::Config { reason });
        },
    };
    let layer_ids = i32s_of_option(&ev, 1);
    match opt_u32_of(&ev, 0) {
        Some(copper_layer_count) => Ok(Command::SetEnabledLayers { copper_layer_count, layer_ids }),
        None => Err(
            KiCadError::Config {
                reason: owned("set-enabled-layers requires `--copper-layer-count <u32>`")
            },
        ),
    }
}

/// The options of `set-active-layer`.
pub open spec fn set_active_layer_options() -> Seq<OptionSpec> {
    seq![OptionSpec { name: "--layer-id", kind: OptionKind::I32 }]
}

/// What `set-active-layer` reads: the layer id, required.
pub open spec fn set_active_layer_read(args: Seq<Seq<char>>) -> Result<CommandView, Seq<char>> {
    match options_read(args, "set-active-layer"@, set_active_layer_options()) {
        Err(m) => Err(m),
        Ok(ev) => match opt_i32(ev, 0) {
            Some(l) => Ok(CommandView::SetActiveLayer { layer_id: l }),
            None => Err("set-active-layer requires `--layer-id <i32>`"@),
        },
    }
}

fn read_set_active_layer(args: &[String]) -> (r: Result<Command, KiCadError>)
    ensures
        command_result_is(r, set_active_layer_read(strings_view(args@))),
{
    let table = vec![OptionSpec { name: "--layer-id", kind: OptionKind::I32 }];
    assert(table@ =~= set_active_layer_options());
    let ev = match read_options(args, "set-active-layer", table.as_slice()) {
        Ok(ev) => ev,
        Err(reason) => {
            return Err(KiCadError::Config { reason });
        },
    };
    match opt_i32_of(&ev, 0) {
        Some(layer_id) => Ok(Command::SetActiveLayer { layer_id }),
        None => Err(
            KiCadError::Config { reason: owned("set-active-layer requires `--layer-id <i32>`") },
        ),
    }
}

/// The options of `set-visible-layers`.
pub open spec fn set_visible_layers_options() -> Seq<OptionSpec> {
    seq![OptionSpec { name: "--layer-id", kind: OptionKind::I32 }]
}

/// What `set-visible-layers` reads: the layer ids, one or more.
pub open spec fn set_visible_layers_read(args: Seq<Seq<char>>) -> Result<CommandView, Seq<char>> {
    match options_read(args, "set-visible-layers"@, set_visible_layers_options()) {
        Err(m) => Err(m),
        Ok(ev) => if i32s_of(ev, 0).len() == 0 {
            Err("set-visible-layers requires one or more `--layer-id <i32>` arguments"@)
        } else { Ok(CommandView::SetVisibleLayers { layer_ids: i32s_of(ev, 0) }) },
    }
}

fn read_set_visible_layers(args: &[String]) -> (r: Result<Command, KiCadError>)
    ensures
        command_result_is(r, set_visible_layers_read(strings_view(args@))),
{
    let table = vec![OptionSpec { name: "--layer-id", kind: OptionKind::I32 }];
    assert(table@ =~= set_visible_layers_options());
    let ev = match read_options(args, "set-visible-layers", table.as_slice()) {
        Ok(ev) => ev,
        Err(reason) => {
            return Err(KiCadError::Config { reason });
        },
    };
    let layer_ids = i32s_of_option(&ev, 0);
    if layer_ids.len() == 0 {
        return Err(
            KiCadError::Config {
                reason: owned(
                    "set-visible-layers requires one or more `--layer-id <i32>` arguments",
                )
            },
        );
    }
    Ok(Command::SetVisibleLayers { layer_ids })
}

/// The options of `board-origin`.
pub open spec fn board_origin_options() -> Seq<OptionSpec> {
    seq![OptionSpec { name: "--type", kind: OptionKind::OriginKind }]
}

/// What `board-origin` reads: the origin kind, `grid` by default.
pub open spec fn board_origin_read(args: Seq<Seq<char>>) -> Result<CommandView, Seq<char>> {
    match options_read(args, "board-origin"@, board_origin_options()) {
        Err(m) => Err(m),
        Ok(ev) => Ok(
            CommandView::BoardOrigin {
                kind: match last_value(ev, 0) {
                    Some(ValueView::OriginKind(v)) => v,
                    _ => BoardOriginKind::Grid,
                }
            },
        ),
    }
}

fn read_board_origin(args: &[String]) -> (r: Result<Command, KiCadError>)
    ensures
        command_result_is(r, board_origin_read(strings_view(args@))),
{
    let table = vec![OptionSpec { name: "--type", kind: OptionKind::OriginKind }];
    assert(table@ =~= board_origin_options());
    let ev = match read_options(args, "board-origin", table.as_slice()) {
        Ok(ev) => ev,
        Err(reason) => {
            return Err(KiCadError::Config { reason });
        },
    };
    let kind = match last_value_of(&ev, 0) {
        Some(OptionValue::OriginKind(v)) => *v,
        _ => BoardOriginKind::Grid,
    };
    Ok(Command::BoardOrigin { kind })
}

/// The options of `set-board-origin`.
pub open spec fn set_board_origin_options() -> Seq<OptionSpec> {
    seq![
        OptionSpec { name: "--type", kind: OptionKind::OriginKind },
        OptionSpec { name: "--x-nm", kind: OptionKind::I64 },
        OptionSpec { name: "--y-nm", kind: OptionKind::I64 },
    ]
}

/// What `set-board-origin` reads: the origin kind, `grid` by default, and the position, required.
pub open spec fn set_board_origin_read(args: Seq<Seq<char>>) -> Result<CommandView, Seq<char>> {
    match options_read(args, "set-board-origin"@, set_board_origin_options()) {
        Err(m) => Err(m),
        Ok(ev) => match opt_i64(ev, 1) {
            None => Err("set-board-origin requires `--x-nm <i64>`"@),
            Some(x) => match opt_i64(ev, 2) {
                None => Err("set-board-origin requires `--y-nm <i64>`"@),
                Some(y) => Ok(
                    CommandView::SetBoardOrigin {
                        kind: match last_value(ev, 0) {
                            Some(ValueView::OriginKind(v)) => v,
                            _ => BoardOriginKind::Grid,
                        },
                        x_nm: x,
                        y_nm: y,
                    },
                ),
            },
        },
    }
}

fn read_set_board_origin(args: &[String]) -> (r: Result<Command, KiCadError>)
    ensures
        command_result_is(r, set_board_origin_read(strings_view(args@))),
{
    let table = vec![
        OptionSpec { name: "--type", kind: OptionKind::OriginKind },
        OptionSpec { name: "--x-nm", kind: OptionKind::I64 },
        OptionSpec { name: "--y-nm", kind: OptionKind::I64 },
    ];
    assert(table@ =~= set_board_origin_options());
    let ev = match read_options(args, "set-board-origin", table.as_slice()) {
        Ok(ev) => ev,
        Err(reason) => {
            return Err(KiCadError::Config { reason });
        },
    };
    let kind = match last_value_of(&ev, 0) {
        Some(OptionValue::OriginKind(v)) => *v,
        _ => BoardOriginKind::Grid,
    };
    let x_nm = match opt_i64_of(&ev, 1) {
        Some(x) => x,
        None => {
            return Err(
                KiCadError::Config { reason: owned("set-board-origin requires `--x-nm <i64>`") },
            );
        },
    };
    let y_nm = match opt_i64_of(&ev, 2) {
        Some(y) => y,
        None => {
            return Err(
                KiCadError::Config { reason: owned("set-board-origin requires `--y-nm <i64>`") },
            );
        },
    };
    Ok(Command::SetBoardOrigin { kind, x_nm, y_nm })
}

/// The options of `inject-drc-error`.
pub open spec fn inject_drc_error_options() -> Seq<OptionSpec> {
    seq![
        OptionSpec { name: "--severity", kind: OptionKind::Severity },
        OptionSpec { name: "--message", kind: OptionKind::Text },
        OptionSpec { name: "--x-nm", kind: OptionKind::I64 },
        OptionSpec { name: "--y-nm", kind: OptionKind::I64 },
        OptionSpec { name: "--item-id", kind: OptionKind::Text },
    ]
}

/// What `inject-drc-error` reads: the severity, `error` by default, the message, required, a
/// position given by both coordinates or neither, and the item ids.
pub open spec fn inject_drc_error_read(args: Seq<Seq<char>>) -> Result<CommandView, Seq<char>> {
    match options_read(args, "inject-drc-error"@, inject_drc_error_options()) {
        Err(m) => Err(m),
        Ok(ev) => if opt_i64(ev, 2) is Some != opt_i64(ev, 3) is Some {
            Err("inject-drc-error requires both --x-nm and --y-nm when providing a position"@)
        } else {
            match opt_text(ev, 1) {
                None => Err("inject-drc-error requires `--message <text>`"@),
                Some(m) => Ok(
                    CommandView::InjectDrcError {
                        severity: match last_value(ev, 0) {
                            Some(ValueView::Severity(v)) => v,
                            _ => DrcSeverity::Error,
                        },
                        message: m,
                        x_nm: opt_i64(ev, 2),
                        y_nm: opt_i64(ev, 3),
                        item_ids: texts_of(ev, 4),
                    },
                ),
            }
        },
    }
}

fn read_inject_drc_error(args: &[String]) -> (r: Result<Command, KiCadError>)
    ensures
        command_result_is(r, inject_drc_error_read(strings_view(args@))),
{
    let table = vec![
        OptionSpec { name: "--severity", kind: OptionKind::Severity },
        OptionSpec { name: "--message", kind: OptionKind::Text },
        OptionSpec { name: "--x-nm", kind: OptionKind::I64 },
        OptionSpec { name: "--y-nm", kind: OptionKind::I64 },
        OptionSpec { name: "--item-id", kind: OptionKind::Text },
    ];
    assert(table@ =~= inject_drc_error_options());
    let ev = match read_options(args, "inject-drc-error", table.as_slice()) {
        Ok(ev) => ev,
        Err(reason) => {
            return Err(KiCadError::Config { reason });
        },
    };
    let severity = match last_value_of(&ev, 0) {
        Some(OptionValue::Severity(v)) => *v,
        _ => DrcSeverity::Error,
    };
    let x_nm = opt_i64_of(&ev, 2);
    let y_nm = opt_i64_of(&ev, 3);
    let item_ids = texts_of_option(&ev, 4);
    if x_nm.is_some() != y_nm.is_some() {
        return Err(
            KiCadError::Config {
                reason: owned(
                    "inject-drc-error requires both --x-nm and --y-nm when providing a position",
                )
            },
        );
    }
    match opt_text_of(&ev, 1) {
        Some(message) => Ok(Command::InjectDrcError { severity, message, x_nm, y_nm, item_ids }),
        None => Err(
            KiCadError::Config { reason: owned("inject-drc-error requires `--message <text>`") },
        ),
    }
}

/// The options of `refresh-editor`.
pub open spec fn refresh_editor_options() -> Seq<OptionSpec> {
    seq![OptionSpec { name: "--frame", kind: OptionKind::Frame }]
}

/// What `refresh-editor` reads: the editor frame, the PCB editor by default.
pub open spec fn refresh_editor_read(args: Seq<Seq<char>>) -> Result<CommandView, Seq<char>> {
    match options_read(args, "refresh-editor"@, refresh_editor_options()) {
        Err(m) => Err(m),
        Ok(ev) => Ok(
            CommandView::RefreshEditor {
                frame: match last_value(ev, 0) {
                    Some(ValueView::Frame(v)) => v,
                    _ => EditorFrameType::PcbEditor,
                }
            },
        ),
    }
}

fn read_refresh_editor(args: &[String]) -> (r: Result<Command, KiCadError>)
    ensures
        command_result_is(r, refresh_editor_read(strings_view(args@))),
{
    let table = vec![OptionSpec { name: "--frame", kind: OptionKind::Frame }];
    assert(table@ =~= refresh_editor_options());
    let ev = match read_options(args, "refresh-editor", table.as_slice()) {
        Ok(ev) => ev,
        Err(reason) => {
            return Err(KiCadError::Config { reason });
        },
    };
    let frame = match last_value_of(&ev, 0) {
        Some(OptionValue::Frame(v)) => *v,
        _ => EditorFrameType::PcbEditor,
    };
    Ok(Command::RefreshEditor { frame })
}

/// The options of `end-commit`.
pub open spec fn end_commit_options() -> Seq<OptionSpec> {
    seq![
        OptionSpec { name: "--id", kind: OptionKind::Text },
        OptionSpec { name: "--action", kind: OptionKind::Action },
        OptionSpec { name: "--message", kind: OptionKind::Text },
    ]
}

/// What `end-commit` reads: the session id, required, the action, `commit` by default, and the
/// message, empty by default.
pub open spec fn end_commit_read(args: Seq<Seq<char>>) -> Result<CommandView, Seq<char>> {
    match options_read(args, "end-commit"@, end_commit_options()) {
        Err(m) => Err(m),
        Ok(ev) => match opt_text(ev, 0) {
            None => Err("end-commit requires `--id <uuid>`"@),
            Some(id) => Ok(
                CommandView::EndCommit {
                    id: id,
                    action: match last_value(ev, 1) {
                        Some(ValueView::Action(v)) => v,
                        _ => CommitAction::Commit,
                    },
                    message: text_or(ev, 2, ""@),
                },
            ),
        },
    }
}

fn read_end_commit(args: &[String]) -> (r: Result<Command, KiCadError>)
    ensures
        command_result_is(r, end_commit_read(strings_view(args@))),
{
    let table = vec![
        OptionSpec { name: "--id", kind: OptionKind::Text },
        OptionSpec { name: "--action", kind: OptionKind::Action },
        OptionSpec { name: "--message", kind: OptionKind::Text },
    ];
    assert(table@ =~= end_commit_options());
    let ev = match read_options(args, "end-commit", table.as_slice()) {
        Ok(ev) => ev,
        Err(reason) => {
            return Err(KiCadError::Config { reason });
        },
    };
    let action = match last_value_of(&ev, 1) {
        Some(OptionValue::Action(v)) => *v,
        _ => CommitAction::Commit,
    };
    let message = text_or_default(&ev, 2, "");
    match opt_text_of(&ev, 0) {
        Some(id) => Ok(Command::EndCommit { id, action, message }),
        None => Err(KiCadError::Config { reason: owned("end-commit requires `--id <uuid>`") }),
    }
}

/// The options of `save-copy`.
pub open spec fn save_copy_options() -> Seq<OptionSpec> {
    seq![
        OptionSpec { name: "--path", kind: OptionKind::Text },
        OptionSpec { name: "--overwrite", kind: OptionKind::Flag },
        OptionSpec { name: "--include-project", kind: OptionKind::Flag },
    ]
}

/// What `save-copy` reads: the path, required, and the overwrite and include-project switches.
pub open spec fn save_copy_read(args: Seq<Seq<char>>) -> Result<CommandView, Seq<char>> {
    match options_read(args, "save-copy"@, save_copy_options()) {
        Err(m) => Err(m),
        Ok(ev) => match opt_text(ev, 0) {
            None => Err("save-copy requires `--path <path>`"@),
            Some(p) => Ok(
                CommandView::SaveCopy {
                    path: p,
                    overwrite: has_option(ev, 1),
                    include_project: has_option(ev, 2),
                },
            ),
        },
    }
}

fn read_save_copy(args: &[String]) -> (r: Result<Command, KiCadError>)
    ensures
        command_result_is(r, save_copy_read(strings_view(args@))),
{
    let table = vec![
        OptionSpec { name: "--path", kind: OptionKind::Text },
        OptionSpec { name: "--overwrite", kind: OptionKind::Flag },
        OptionSpec { name: "--include-project", kind: OptionKind::Flag },
    ];
    assert(table@ =~= save_copy_options());
    let ev = match read_options(args, "save-copy", table.as_slice()) {
        Ok(ev) => ev,
        Err(reason) => {
            return Err(KiCadError::Config { reason });
        },
    };
    let overwrite = has_option_in(&ev, 1);
    let include_project = has_option_in(&ev, 2);
    match opt_text_of(&ev, 0) {
        Some(path) => Ok(Command::SaveCopy { path, overwrite, include_project }),
        None => Err(KiCadError::Config { reason: owned("save-copy requires `--path <path>`") }),
    }
}

/// The options of `run-action`.
pub open spec fn run_action_options() -> Seq<OptionSpec> {
    seq![OptionSpec { name: "--action", kind: OptionKind::Text }]
}

/// What `run-action` reads: the action name, required.
pub open spec fn run_action_read(args: Seq<Seq<char>>) -> Result<CommandView, Seq<char>> {
    match options_read(args, "run-action"@, run_action_options()) {
        Err(m) => Err(m),
        Ok(ev) => match opt_text(ev, 0) {
            Some(a) => Ok(CommandView::RunAction { action: a }),
            None => Err("run-action requires `--action <name>`"@),
        },
    }
}

fn read_run_action(args: &[String]) -> (r: Result<Command, KiCadError>)
    ensures
        command_result_is(r, run_action_read(strings_view(args@))),
{
    let table = vec![OptionSpec { name: "--action", kind: OptionKind::Text }];
    assert(table@ =~= run_action_options());
    let ev = match read_options(args, "run-action", table.as_slice()) {
        Ok(ev) => ev,
        Err(reason) => {
            return Err(KiCadError::Config { reason });
        },
    };
    match opt_text_of(&ev, 0) {
        Some(action) => Ok(Command::RunAction { action }),
        None => Err(KiCadError::Config { reason: owned("run-action requires `--action <name>`") }),
    }
}

/// The options of `create-items`.
pub open spec fn create_items_options() -> Seq<OptionSpec> {
    seq![
        OptionSpec { name: "--item", kind: OptionKind::Item },
        OptionSpec { name: "--container-id", kind: OptionKind::Text },
    ]
}

/// What `create-items` reads: the item payloads, one or more, and the container id.
pub open spec fn create_items_read(args: Seq<Seq<char>>) -> Result<CommandView, Seq<char>> {
    match options_read(args, "create-items"@, create_items_options()) {
        Err(m) => Err(m),
        Ok(ev) => if items_of(ev, 0).len() == 0 {
            Err("create-items requires one or more `--item <type_url>=<hex>` values"@)
        } else {
            Ok(CommandView::CreateItems { items: items_of(ev, 0), container_id: opt_text(ev, 1) })
        },
    }
}

fn read_create_items(args: &[String]) -> (r: Result<Command, KiCadError>)
    ensures
        command_result_is(r, create_items_read(strings_view(args@))),
{
    let table = vec![
        OptionSpec { name: "--item", kind: OptionKind::Item },
        OptionSpec { name: "--container-id", kind: OptionKind::Text },
    ];
    assert(table@ =~= create_items_options());
    let ev = match read_options(args, "create-items", table.as_slice()) {
        Ok(ev) => ev,
        Err(reason) => {
            return Err(KiCadError::Config { reason });
        },
    };
    let container_id = opt_text_of(&ev, 1);
    let items = take_items_of_option(ev, 0);
    if items.len() == 0 {
        return Err(
            KiCadError::Config {
                reason: owned("create-items requires one or more `--item <type_url>=<hex>` values")
            },
        );
    }
    Ok(Command::CreateItems { items, container_id })
}

/// The options of `update-items`.
pub open spec fn update_items_options() -> Seq<OptionSpec> {
    seq![OptionSpec { name: "--item", kind: OptionKind::Item }]
}

/// What `update-items` reads: the item payloads, one or more.
pub open spec fn update_items_read(args: Seq<Seq<char>>) -> Result<CommandView, Seq<char>> {
    match options_read(args, "update-items"@, update_items_options()) {
        Err(m) => Err(m),
        Ok(ev) => if items_of(ev, 0).len() == 0 {
            Err("update-items requires one or more `--item <type_url>=<hex>` values"@)
        } else { Ok(CommandView::UpdateItems { items: items_of(ev, 0) }) },
    }
}

fn read_update_items(args: &[String]) -> (r: Result<Command, KiCadError>)
    ensures
        command_result_is(r, update_items_read(strings_view(args@))),
{
    let table = vec![OptionSpec { name: "--item", kind: OptionKind::Item }];
    assert(table@ =~= update_items_options());
    let ev = match read_options(args, "update-items", table.as_slice()) {
        Ok(ev) => ev,
        Err(reason) => {
            return Err(KiCadError::Config { reason });
        },
    };
    let items = take_items_of_option(ev, 0);
    if items.len() == 0 {
        return Err(
            KiCadError::Config {
                reason: owned("update-items requires one or more `--item <type_url>=<hex>` values")
            },
        );
    }
    Ok(Command::UpdateItems { items })
}

/// The options of `parse-create-items`.
pub open spec fn parse_create_items_options() -> Seq<OptionSpec> {
    seq![OptionSpec { name: "--contents", kind: OptionKind::Text }]
}

/// What `parse-create-items` reads: the item text, required.
pub open spec fn parse_create_items_read(args: Seq<Seq<char>>) -> Result<CommandView, Seq<char>> {
    match options_read(args, "parse-create-items"@, parse_create_items_options()) {
        Err(m) => Err(m),
        Ok(ev) => match opt_text(ev, 0) {
            Some(c) => Ok(CommandView::ParseCreateItemsFromString { contents: c }),
            None => Err("parse-create-items requires `--contents <sexpr>`"@),
        },
    }
}

fn read_parse_create_items(args: &[String]) -> (r: Result<Command, KiCadError>)
    ensures
        command_result_is(r, parse_create_items_read(strings_view(args@))),
{
    let table = vec![OptionSpec { name: "--contents", kind: OptionKind::Text }];
    assert(table@ =~= parse_create_items_options());
    let ev = match read_options(args, "parse-create-items", table.as_slice()) {
        Ok(ev) => ev,
        Err(reason) => {
            return Err(KiCadError::Config { reason });
        },
    };
    match opt_text_of(&ev, 0) {
        Some(contents) => Ok(Command::ParseCreateItemsFromString { contents }),
        None => Err(
            KiCadError::Config { reason: owned("parse-create-items requires `--contents <sexpr>`") },
        ),
    }
}

/// The options of `item-bbox`.
pub open spec fn item_bbox_options() -> Seq<OptionSpec> {
    seq![
        OptionSpec { name: "--id", kind: OptionKind::Text },
        OptionSpec { name: "--include-text", kind: OptionKind::Flag },
    ]
}

/// What `item-bbox` reads: the item ids, one or more, and whether child text counts.
pub open spec fn item_bbox_read(args: Seq<Seq<char>>) -> Result<CommandView, Seq<char>> {
    match options_read(args, "item-bbox"@, item_bbox_options()) {
        Err(m) => Err(m),
        Ok(ev) => if texts_of(ev, 0).len() == 0 {
            Err("item-bbox requires one or more `--id <uuid>` arguments"@)
        } else {
            Ok(
                CommandView::ItemBBox {
                    item_ids: texts_of(ev, 0),
                    include_child_text: has_option(ev, 1),
                },
            )
        },
    }
}

fn read_item_bbox(args: &[String]) -> (r: Result<Command, KiCadError>)
    ensures
        command_result_is(r, item_bbox_read(strings_view(args@))),
{
    let table = vec![
        OptionSpec { name: "--id", kind: OptionKind::Text },
        OptionSpec { name: "--include-text", kind: OptionKind::Flag },
    ];
    assert(table@ =~= item_bbox_options());
    let ev = match read_options(args, "item-bbox", table.as_slice()) {
        Ok(ev) => ev,
        Err(reason) => {
            return Err(KiCadError::Config { reason });
        },
    };
    let item_ids = texts_of_option(&ev, 0);
    let include_child_text = has_option_in(&ev, 1);
    if item_ids.len() == 0 {
        return Err(
            KiCadError::Config {
                reason: owned("item-bbox requires one or more `--id <uuid>` arguments")
            },
        );
    }
    Ok(Command::ItemBBox { item_ids, include_child_text })
}

/// The options of `hit-test`.
pub open spec fn hit_test_options() -> Seq<OptionSpec> {
    seq![
        OptionSpec { name: "--id", kind: OptionKind::Text },
        OptionSpec { name: "--x-nm", kind: OptionKind::I64 },
        OptionSpec { name: "--y-nm", kind: OptionKind::I64 },
        OptionSpec { name: "--tolerance-nm", kind: OptionKind::I32 },
    ]
}

/// What `hit-test` reads: the item id and position, required, and the tolerance, `0` by default.
pub open spec fn hit_test_read(args: Seq<Seq<char>>) -> Result<CommandView, Seq<char>> {
    match options_read(args, "hit-test"@, hit_test_options()) {
        Err(m) => Err(m),
        Ok(ev) => match opt_text(ev, 0) {
            None => Err("hit-test requires `--id <uuid>`"@),
            Some(id) => match opt_i64(ev, 1) {
                None => Err("hit-test requires `--x-nm <value>`"@),
                Some(x) => match opt_i64(ev, 2) {
                    None => Err("hit-test requires `--y-nm <value>`"@),
                    Some(y) => Ok(
                        CommandView::HitTest {
                            item_id: id,
                            x_nm: x,
                            y_nm: y,
                            tolerance_nm: match opt_i32(ev, 3) { Some(t) => t, None => 0i32 },
                        },
                    ),
                },
            },
        },
    }
}

fn read_hit_test(args: &[String]) -> (r: Result<Command, KiCadError>)
    ensures
        command_result_is(r, hit_test_read(strings_view(args@))),
{
    let table = vec![
        OptionSpec { name: "--id", kind: OptionKind::Text },
        OptionSpec { name: "--x-nm", kind: OptionKind::I64 },
        OptionSpec { name: "--y-nm", kind: OptionKind::I64 },
        OptionSpec { name: "--tolerance-nm", kind: OptionKind::I32 },
    ];
    assert(table@ =~= hit_test_options());
    let ev = match read_options(args, "hit-test", table.as_slice()) {
        Ok(ev) => ev,
        Err(reason) => {
            return Err(KiCadError::Config { reason });
        },
    };
    let tolerance_nm = match opt_i32_of(&ev, 3) { Some(t) => t, None => 0 };
    let item_id = match opt_text_of(&ev, 0) {
        Some(id) => id,
        None => {
            return Err(KiCadError::Config { reason: owned("hit-test requires `--id <uuid>`") });
        },
    };
    let x_nm = match opt_i64_of(&ev, 1) {
        Some(x) => x,
        None => {
            return Err(KiCadError::Config { reason: owned("hit-test requires `--x-nm <value>`") });
        },
    };
    let y_nm = match opt_i64_of(&ev, 2) {
        Some(y) => y,
        None => {
            return Err(KiCadError::Config { reason: owned("hit-test requires `--y-nm <value>`") });
        },
    };
    Ok(Command::HitTest { item_id, x_nm, y_nm, tolerance_nm })
}

/// The options of `items-raw`.
pub open spec fn items_raw_options() -> Seq<OptionSpec> {
    seq![
        OptionSpec { name: "--type-id", kind: OptionKind::I32 },
        OptionSpec { name: "--debug", kind: OptionKind::Flag },
    ]
}

/// What `items-raw` reads: the type codes, one or more, and the debug switch.
pub open spec fn items_raw_read(args: Seq<Seq<char>>) -> Result<CommandView, Seq<char>> {
    match options_read(args, "items-raw"@, items_raw_options()) {
        Err(m) => Err(m),
        Ok(ev) => if i32s_of(ev, 0).len() == 0 {
            Err("items-raw requires one or more `--type-id <i32>` arguments"@)
        } else {
            Ok(
                CommandView::ItemsRaw {
                    type_codes: i32s_of(ev, 0),
                    include_debug: has_option(ev, 1),
                },
            )
        },
    }
}

fn read_items_raw(args: &[String]) -> (r: Result<Command, KiCadError>)
    ensures
        command_result_is(r, items_raw_read(strings_view(args@))),
{
    let table = vec![
        OptionSpec { name: "--type-id", kind: OptionKind::I32 },
        OptionSpec { name: "--debug", kind: OptionKind::Flag },
    ];
    assert(table@ =~= items_raw_options());
    let ev = match read_options(args, "items-raw", table.as_slice()) {
        Ok(ev) => ev,
        Err(reason) => {
            return Err(KiCadError::Config { reason });
        },
    };
    let type_codes = i32s_of_option(&ev, 0);
    let include_debug = has_option_in(&ev, 1);
    if type_codes.len() == 0 {
        return Err(
            KiCadError::Config {
                reason: owned("items-raw requires one or more `--type-id <i32>` arguments")
            },
        );
    }
    Ok(Command::ItemsRaw { type_codes, include_debug })
}

/// The options of `items-raw-all-pcb`.
pub open spec fn items_raw_all_pcb_options() -> Seq<OptionSpec> {
    seq![OptionSpec { name: "--debug", kind: OptionKind::Flag }]
}

/// What `items-raw-all-pcb` reads: the debug switch.
pub open spec fn items_raw_all_pcb_read(args: Seq<Seq<char>>) -> Result<CommandView, Seq<char>> {
    match options_read(args, "items-raw-all-pcb"@, items_raw_all_pcb_options()) {
        Err(m) => Err(m),
        Ok(ev) => Ok(CommandView::ItemsRawAllPcb { include_debug: has_option(ev, 0) }),
    }
}

fn read_items_raw_all_pcb(args: &[String]) -> (r: Result<Command, KiCadError>)
    ensures
        command_result_is(r, items_raw_all_pcb_read(strings_view(args@))),
{
    let table = vec![OptionSpec { name: "--debug", kind: OptionKind::Flag }];
    assert(table@ =~= items_raw_all_pcb_options());
    let ev = match read_options(args, "items-raw-all-pcb", table.as_slice()) {
        Ok(ev) => ev,
        Err(reason) => {
            return Err(KiCadError::Config { reason });
        },
    };
    Ok(Command::ItemsRawAllPcb { include_debug: has_option_in(&ev, 0) })
}

/// The options of `pad-shape-polygon`.
pub open spec fn pad_shape_polygon_options() -> Seq<OptionSpec> {
    seq![
        OptionSpec { name: "--pad-id", kind: OptionKind::Text },
        OptionSpec { name: "--layer-id", kind: OptionKind::I32 },
        OptionSpec { name: "--debug", kind: OptionKind::Flag },
    ]
}

/// What `pad-shape-polygon` reads: the pad ids, one or more, the layer id, required, and the debug
/// switch.
pub open spec fn pad_shape_polygon_read(args: Seq<Seq<char>>) -> Result<CommandView, Seq<char>> {
    match options_read(args, "pad-shape-polygon"@, pad_shape_polygon_options()) {
        Err(m) => Err(m),
        Ok(ev) => if texts_of(ev, 0).len() == 0 {
            Err("pad-shape-polygon requires one or more `--pad-id <uuid>` arguments"@)
        } else {
            match opt_i32(ev, 1) {
                None => Err("pad-shape-polygon requires `--layer-id <i32>`"@),
                Some(l) => Ok(
                    CommandView::PadShapePolygon {
                        pad_ids: texts_of(ev, 0),
                        layer_id: l,
                        include_debug: has_option(ev, 2),
                    },
                ),
            }
        },
    }
}

fn read_pad_shape_polygon(args: &[String]) -> (r: Result<Command, KiCadError>)
    ensures
        command_result_is(r, pad_shape_polygon_read(strings_view(args@))),
{
    let table = vec![
        OptionSpec { name: "--pad-id", kind: OptionKind::Text },
        OptionSpec { name: "--layer-id", kind: OptionKind::I32 },
        OptionSpec { name: "--debug", kind: OptionKind::Flag },
    ];
    assert(table@ =~= pad_shape_polygon_options());
    let ev = match read_options(args, "pad-shape-polygon", table.as_slice()) {
        Ok(ev) => ev,
        Err(reason) => {
            return Err(KiCadError::Config { reason });
        },
    };
    let pad_ids = texts_of_option(&ev, 0);
    let include_debug = has_option_in(&ev, 2);
    if pad_ids.len() == 0 {
        return Err(
            KiCadError::Config {
                reason: owned("pad-shape-polygon requires one or more `--pad-id <uuid>` arguments")
            },
        );
    }
    match opt_i32_of(&ev, 1) {
        Some(layer_id) => Ok(Command::PadShapePolygon { pad_ids, layer_id, include_debug }),
        None => Err(
            KiCadError::Config { reason: owned("pad-shape-polygon requires `--layer-id <i32>`") },
        ),
    }
}

/// The options of `padstack-presence`.
pub open spec fn padstack_presence_options() -> Seq<OptionSpec> {
    seq![
        OptionSpec { name: "--item-id", kind: OptionKind::Text },
        OptionSpec { name: "--layer-id", kind: OptionKind::I32 },
        OptionSpec { name: "--debug", kind: OptionKind::Flag },
    ]
}

/// What `padstack-presence` reads: the item ids and the layer ids, one or more of each, and the
/// debug switch.
pub open spec fn padstack_presence_read(args: Seq<Seq<char>>) -> Result<CommandView, Seq<char>> {
    match options_read(args, "padstack-presence"@, padstack_presence_options()) {
        Err(m) => Err(m),
        Ok(ev) => if texts_of(ev, 0).len() == 0 {
            Err("padstack-presence requires one or more `--item-id <uuid>` arguments"@)
        } else if i32s_of(ev, 1).len() == 0 {
            Err("padstack-presence requires one or more `--layer-id <i32>` arguments"@)
        } else {
            Ok(
                CommandView::PadstackPresence {
                    item_ids: texts_of(ev, 0),
                    layer_ids: i32s_of(ev, 1),
                    include_debug: has_option(ev, 2),
                },
            )
        },
    }
}

fn read_padstack_presence(args: &[String]) -> (r: Result<Command, KiCadError>)
    ensures
        command_result_is(r, padstack_presence_read(strings_view(args@))),
{
    let table = vec![
        OptionSpec { name: "--item-id", kind: OptionKind::Text },
        OptionSpec { name: "--layer-id", kind: OptionKind::I32 },
        OptionSpec { name: "--debug", kind: OptionKind::Flag },
    ];
    assert(table@ =~= padstack_presence_options());
    let ev = match read_options(args, "padstack-presence", table.as_slice()) {
        Ok(ev) => ev,
        Err(reason) => {
            return Err(KiCadError::Config { reason });
        },
    };
    let item_ids = texts_of_option(&ev, 0);
    let layer_ids = i32s_of_option(&ev, 1);
    let include_debug = has_option_in(&ev, 2);
    if item_ids.len() == 0 {
        return Err(
            KiCadError::Config {
                reason: owned("padstack-presence requires one or more `--item-id <uuid>` arguments")
            },
        );
    }
    if layer_ids.len() == 0 {
        return Err(
            KiCadError::Config {
                reason: owned("padstack-presence requires one or more `--layer-id <i32>` arguments")
            },
        );
    }
    Ok(Command::PadstackPresence { item_ids, layer_ids, include_debug })
}

/// The options of `set-appearance`.
pub open spec fn set_appearance_options() -> Seq<OptionSpec> {
    seq![
        OptionSpec { name: "--inactive-layer-display", kind: OptionKind::InactiveLayers },
        OptionSpec { name: "--net-color-display", kind: OptionKind::NetColors },
        OptionSpec { name: "--board-flip", kind: OptionKind::Flip },
        OptionSpec { name: "--ratsnest-display", kind: OptionKind::Ratsnest },
    ]
}

/// What `set-appearance` reads: the four display settings, all required.
pub open spec fn set_appearance_read(args: Seq<Seq<char>>) -> Result<CommandView, Seq<char>> {
    match options_read(args, "set-appearance"@, set_appearance_options()) {
        Err(m) => Err(m),
        Ok(ev) => match last_value(ev, 0) {
            Some(ValueView::InactiveLayers(a)) => match last_value(ev, 1) {
                Some(ValueView::NetColors(b)) => match last_value(ev, 2) {
                    Some(ValueView::Flip(c)) => match last_value(ev, 3) {
                        Some(ValueView::Ratsnest(d)) => Ok(
                            CommandView::SetAppearance {
                                inactive_layer_display: a,
                                net_color_display: b,
                                board_flip: c,
                                ratsnest_display: d,
                            },
                        ),
                        _ => Err(
                            "set-appearance requires `--ratsnest-display <all-layers|visible-layers>`"@,
                        ),
                    },
                    _ => Err("set-appearance requires `--board-flip <normal|flipped-x>`"@),
                },
                _ => Err("set-appearance requires `--net-color-display <all|ratsnest|off>`"@),
            },
            _ => Err("set-appearance requires `--inactive-layer-display <normal|dimmed|hidden>`"@),
        },
    }
}

fn read_set_appearance(args: &[String]) -> (r: Result<Command, KiCadError>)
    ensures
        command_result_is(r, set_appearance_read(strings_view(args@))),
{
    let table = vec![
        OptionSpec { name: "--inactive-layer-display", kind: OptionKind::InactiveLayers },
        OptionSpec { name: "--net-color-display", kind: OptionKind::NetColors },
        OptionSpec { name: "--board-flip", kind: OptionKind::Flip },
        OptionSpec { name: "--ratsnest-display", kind: OptionKind::Ratsnest },
    ];
    assert(table@ =~= set_appearance_options());
    let ev = match read_options(args, "set-appearance", table.as_slice()) {
        Ok(ev) => ev,
        Err(reason) => {
            return Err(KiCadError::Config { reason });
        },
    };
    let inactive_layer_display = match last_value_of(&ev, 0) {
        Some(OptionValue::InactiveLayers(v)) => *v,
        _ => {
            return Err(
                KiCadError::Config {
                    reason: owned(
                        "set-appearance requires `--inactive-layer-display <normal|dimmed|hidden>`",
                    )
                },
            );
        },
    };
    let net_color_display = match last_value_of(&ev, 1) {
        Some(OptionValue::NetColors(v)) => *v,
        _ => {
            return Err(
                KiCadError::Config {
                    reason: owned(
                        "set-appearance requires `--net-color-display <all|ratsnest|off>`",
                    )
                },
            );
        },
    };
    let board_flip = match last_value_of(&ev, 2) {
        Some(OptionValue::Flip(v)) => *v,
        _ => {
            return Err(
                KiCadError::Config {
                    reason: owned("set-appearance requires `--board-flip <normal|flipped-x>`")
                },
            );
        },
    };
    let ratsnest_display = match last_value_of(&ev, 3) {
        Some(OptionValue::Ratsnest(v)) => *v,
        _ => {
            return Err(
                KiCadError::Config {
                    reason: owned(
                        "set-appearance requires `--ratsnest-display <all-layers|visible-layers>`",
                    )
                },
            );
        },
    };
    Ok(
        Command::SetAppearance {
            inactive_layer_display,
            net_color_display,
            board_flip,
            ratsnest_display,
        },
    )
}

/// The options of `refill-zones`.
pub open spec fn refill_zones_options() -> Seq<OptionSpec> {
    seq![OptionSpec { name: "--zone-id", kind: OptionKind::Text }]
}

/// What `refill-zones` reads: the zone ids.
pub open spec fn refill_zones_read(args: Seq<Seq<char>>) -> Result<CommandView, Seq<char>> {
    match options_read(args, "refill-zones"@, refill_zones_options()) {
        Err(m) => Err(m),
        Ok(ev) => Ok(CommandView::RefillZones { zone_ids: texts_of(ev, 0) }),
    }
}

fn read_refill_zones(args: &[String]) -> (r: Result<Command, KiCadError>)
    ensures
        command_result_is(r, refill_zones_read(strings_view(args@))),
{
    let table = vec![OptionSpec { name: "--zone-id", kind: OptionKind::Text }];
    assert(table@ =~= refill_zones_options());
    let ev = match read_options(args, "refill-zones", table.as_slice()) {
        Ok(ev) => ev,
        Err(reason) => {
            return Err(KiCadError::Config { reason });
        },
    };
    Ok(Command::RefillZones { zone_ids: texts_of_option(&ev, 0) })
}

/// The options of `interactive-move`.
pub open spec fn interactive_move_options() -> Seq<OptionSpec> {
    seq![OptionSpec { name: "--id", kind: OptionKind::Text }]
}

/// What `interactive-move` reads: the item ids, one or more.
pub open spec fn interactive_move_read(args: Seq<Seq<char>>) -> Result<CommandView, Seq<char>> {
    match options_read(args, "interactive-move"@, interactive_move_options()) {
        Err(m) => Err(m),
        Ok(ev) => if texts_of(ev, 0).len() == 0 {
            Err("interactive-move requires one or more `--id <uuid>` arguments"@)
        } else { Ok(CommandView::InteractiveMoveItems { item_ids: texts_of(ev, 0) }) },
    }
}

fn read_interactive_move(args: &[String]) -> (r: Result<Command, KiCadError>)
    ensures
        command_result_is(r, interactive_move_read(strings_view(args@))),
{
    let table = vec![OptionSpec { name: "--id", kind: OptionKind::Text }];
    assert(table@ =~= interactive_move_options());
    let ev = match read_options(args, "interactive-move", table.as_slice()) {
        Ok(ev) => ev,
        Err(reason) => {
            return Err(KiCadError::Config { reason });
        },
    };
    let item_ids = texts_of_option(&ev, 0);
    if item_ids.len() == 0 {
        return Err(
            KiCadError::Config {
                reason: owned("interactive-move requires one or more `--id <uuid>` arguments")
            },
        );
    }
    Ok(Command::InteractiveMoveItems { item_ids })
}

/// The options of `board-read-report`.
pub open spec fn board_read_report_options() -> Seq<OptionSpec> {
    seq![OptionSpec { name: "--out", kind: OptionKind::Text }]
}

/// What `board-read-report` reads: the report path, `docs/BOARD_READ_REPORT.md` by default.
pub open spec fn board_read_report_read(args: Seq<Seq<char>>) -> Result<CommandView, Seq<char>> {
    match options_read(args, "board-read-report"@, board_read_report_options()) {
        Err(m) => Err(m),
        Ok(ev) => Ok(
            CommandView::BoardReadReport { output: text_or(ev, 0, "docs/BOARD_READ_REPORT.md"@) },
        ),
    }
}

fn read_board_read_report(args: &[String]) -> (r: Result<Command, KiCadError>)
    ensures
        command_result_is(r, board_read_report_read(strings_view(args@))),
{
    let table = vec![OptionSpec { name: "--out", kind: OptionKind::Text }];
    assert(table@ =~= board_read_report_options());
    let ev = match read_options(args, "board-read-report", table.as_slice()) {
        Ok(ev) => ev,
        Err(reason) => {
            return Err(KiCadError::Config { reason });
        },
    };
    Ok(Command::BoardReadReport { output: text_or_default(&ev, 0, "docs/BOARD_READ_REPORT.md") })
}

/// The options of `open-docs`.
pub open spec fn open_docs_options() -> Seq<OptionSpec> {
    seq![OptionSpec { name: "--type", kind: OptionKind::DocType }]
}

/// What `open-docs` reads: the document type, `pcb` by default.
pub open spec fn open_docs_read(args: Seq<Seq<char>>) -> Result<CommandView, Seq<char>> {
    match options_read(args, "open-docs"@, open_docs_options()) {
        Err(m) => Err(m),
        Ok(ev) => Ok(
            CommandView::OpenDocs {
                document_type: match last_value(ev, 0) {
                    Some(ValueView::DocType(v)) => v,
                    _ => DocumentType::Pcb,
                }
            },
        ),
    }
}

fn read_open_docs(args: &[String]) -> (r: Result<Command, KiCadError>)
    ensures
        command_result_is(r, open_docs_read(strings_view(args@))),
{
    let table = vec![OptionSpec { name: "--type", kind: OptionKind::DocType }];
    assert(table@ =~= open_docs_options());
    let ev = match read_options(args, "open-docs", table.as_slice()) {
        Ok(ev) => ev,
        Err(reason) => {
            return Err(KiCadError::Config { reason });
        },
    };
    let document_type = match last_value_of(&ev, 0) {
        Some(OptionValue::DocType(v)) => *v,
        _ => DocumentType::Pcb,
    };
    Ok(Command::OpenDocs { document_type })
}

// ---------------------------------------------------------------------------
// Commands of item ids, and the board text command.
// ---------------------------------------------------------------------------
/// The item ids the `--id` options of the command `cmd` give: one or more,
/// each option having its value.
pub open spec fn item_ids_read(args: Seq<Seq<char>>, cmd: Seq<char>) -> Result<
    Seq<Seq<char>>,
    Seq<char>,
> {
    match scan_ids(args.skip(1), 0) {
        None => Err("missing value for "@ + cmd + " --id"@),
        Some(ids) => if ids.len() == 0 {
            Err(cmd + " requires one or more `--id <uuid>` arguments"@)
        } else {
            Ok(ids)
        },
    }
}

/// The layer a board text goes on when no layer is given: `F.SilkS`.
pub const DEFAULT_BOARD_TEXT_LAYER_ID: i32 = 40;

/// The glyph size of a board text when none is given, in nanometres.
pub const DEFAULT_BOARD_TEXT_SIZE_NM: i64 = 1500000;

/// The stroke width of a board text when none is given, in nanometres.
pub const DEFAULT_BOARD_TEXT_STROKE_WIDTH_NM: i64 = 150000;

/// The options of `create-board-text`.
pub open spec fn create_board_text_options() -> Seq<OptionSpec> {
    seq![
        OptionSpec { name: "--text", kind: OptionKind::Text },
        OptionSpec { name: "--x-nm", kind: OptionKind::I64 },
        OptionSpec { name: "--y-nm", kind: OptionKind::I64 },
        OptionSpec { name: "--x-mm", kind: OptionKind::Text },
        OptionSpec { name: "--y-mm", kind: OptionKind::Text },
        OptionSpec { name: "--layer", kind: OptionKind::Layer },
        OptionSpec { name: "--layer-id", kind: OptionKind::Layer },
        OptionSpec { name: "--size-mm", kind: OptionKind::Text },
        OptionSpec { name: "--stroke-width-mm", kind: OptionKind::Text },
        OptionSpec { name: "--thickness-mm", kind: OptionKind::Text },
        OptionSpec { name: "--knockout", kind: OptionKind::Flag },
        OptionSpec { name: "--locked", kind: OptionKind::Flag },
    ]
}

/// The length an option value gives: nanometres from an `--*-nm` option,
/// millimetre text from an `--*-mm` one.
pub open spec fn length_of(v: Option<ValueView>) -> Option<LengthView> {
    match v {
        Some(ValueView::I64(n)) => Some(LengthView::Nm(n)),
        Some(ValueView::Text(t)) => Some(LengthView::Mm(t)),
        _ => None,
    }
}

/// What `create-board-text` reads: the text and both coordinates, required
/// (the last of `--x-nm` and `--x-mm` given counts, and so for `y`); the
/// layer, `F.SilkS` by default; the glyph size and stroke width, 1.5 mm and
/// 0.15 mm by default; and the knockout and locked switches.
pub open spec fn create_board_text_read(args: Seq<Seq<char>>) -> Result<CommandView, Seq<char>> {
    match options_read(args, "create-board-text"@, create_board_text_options()) {
        Err(m) => Err(m),
        Ok(ev) => match opt_text(ev, 0) {
            None => Err("create-board-text requires `--text <value>`"@),
            Some(text) => match length_of(last_value_either(ev, 1, 3)) {
                None => Err("create-board-text requires `--x-mm <value>` or `--x-nm <value>`"@),
                Some(x) => match length_of(last_value_either(ev, 2, 4)) {
                    None => Err(
                        "create-board-text requires `--y-mm <value>` or `--y-nm <value>`"@,
                    ),
                    Some(y) => Ok(
                        CommandView::CreateBoardText {
                            text: text,
                            x: x,
                            y: y,
                            layer_id: match last_value_either(ev, 5, 6) {
                                Some(ValueView::Layer(id)) => id,
                                _ => DEFAULT_BOARD_TEXT_LAYER_ID,
                            },
                            size: match length_of(last_value(ev, 7)) {
                                Some(l) => l,
                                None => LengthView::Nm(DEFAULT_BOARD_TEXT_SIZE_NM),
                            },
                            stroke_width: match length_of(last_value_either(ev, 8, 9)) {
                                Some(l) => l,
                                None => LengthView::Nm(DEFAULT_BOARD_TEXT_STROKE_WIDTH_NM),
                            },
                            knockout: has_option(ev, 10),
                            locked: has_option(ev, 11),
                        },
                    ),
                },
            },
        },
    }
}

fn length_from(v: Option<&OptionValue>) -> (r: Option<Length>)
    ensures
        match r {
            Some(l) => length_of(
                match v {
                    Some(x) => Some(value_view(*x)),
                    None => None,
                },
            ) == Some(length_view(l)),
            None => length_of(
                match v {
                    Some(x) => Some(value_view(*x)),
                    None => None,
                },
            ) is None,
        },
{
    match v {
        Some(OptionValue::I64(n)) => Some(Length::Nm(*n)),
        Some(OptionValue::Text(t)) => Some(Length::Mm(copy_string(t))),
        _ => None,
    }
}

fn read_create_board_text(args: &[String]) -> (r: Result<Command, KiCadError>)
    ensures
        command_result_is(r, create_board_text_read(strings_view(args@))),
{
    let table = vec![
        OptionSpec { name: "--text", kind: OptionKind::Text },
        OptionSpec { name: "--x-nm", kind: OptionKind::I64 },
        OptionSpec { name: "--y-nm", kind: OptionKind::I64 },
        OptionSpec { name: "--x-mm", kind: OptionKind::Text },
        OptionSpec { name: "--y-mm", kind: OptionKind::Text },
        OptionSpec { name: "--layer", kind: OptionKind::Layer },
        OptionSpec { name: "--layer-id", kind: OptionKind::Layer },
        OptionSpec { name: "--size-mm", kind: OptionKind::Text },
        OptionSpec { name: "--stroke-width-mm", kind: OptionKind::Text },
        OptionSpec { name: "--thickness-mm", kind: OptionKind::Text },
        OptionSpec { name: "--knockout", kind: OptionKind::Flag },
        OptionSpec { name: "--locked", kind: OptionKind::Flag },
    ];
    assert(table@ =~= create_board_text_options());
    let ev = match read_options(args, "create-board-text", table.as_slice()) {
        Ok(ev) => ev,
        Err(reason) => {
            return Err(KiCadError::Config { reason });
        },
    };
    let text = match opt_text_of(&ev, 0) {
        Some(t) => t,
        None => {
            return Err(
                KiCadError::Config { reason: owned("create-board-text requires `--text <value>`") },
            );
        },
    };
    let x = match length_from(last_value_of_either(&ev, 1, 3)) {
        Some(l) => l,
        None => {
            return Err(
                KiCadError::Config {
                    reason: owned(
                        "create-board-text requires `--x-mm <value>` or `--x-nm <value>`",
                    ),
                },
            );
        },
    };
    let y = match length_from(last_value_of_either(&ev, 2, 4)) {
        Some(l) => l,
        None => {
            return Err(
                KiCadError::Config {
                    reason: owned(
                        "create-board-text requires `--y-mm <value>` or `--y-nm <value>`",
                    ),
                },
            );
        },
    };
    let layer_id = match last_value_of_either(&ev, 5, 6) {
        Some(OptionValue::Layer(id)) => *id,
        _ => DEFAULT_BOARD_TEXT_LAYER_ID,
    };
    let size = match length_from(last_value_of(&ev, 7)) {
        Some(l) => l,
        None => Length::Nm(DEFAULT_BOARD_TEXT_SIZE_NM),
    };
    let stroke_width = match length_from(last_value_of_either(&ev, 8, 9)) {
        Some(l) => l,
        None => Length::Nm(DEFAULT_BOARD_TEXT_STROKE_WIDTH_NM),
    };
    let knockout = has_option_in(&ev, 10);
    let locked = has_option_in(&ev, 11);
    Ok(
        Command::CreateBoardText {
            args: BoardTextArgs { text, x, y, layer_id, size, stroke_width, knockout, locked },
        },
    )
}

/// The bits of the `f64` value `1.0`, the line spacing of a board text.
pub const UNIT_LINE_SPACING_BITS: u64 = 0x3FF0000000000000;

/// The text attributes of a board text made by `create-board-text`: centred,
/// single line spacing, square glyphs of `size_nm`, strokes of
/// `stroke_width_nm`, and otherwise the defaults.
pub open spec fn board_text_attributes(size_nm: i64, stroke_width_nm: i64) -> TextAttributesSpec {
    TextAttributesSpec {
        font_name: None,
        horizontal_alignment: TextHorizontalAlignment::Center,
        vertical_alignment: TextVerticalAlignment::Center,
        angle_degrees: None,
        line_spacing: Some(proto::F64Bits { bits: UNIT_LINE_SPACING_BITS }),
        stroke_width_nm: Some(stroke_width_nm),
        italic: false,
        bold: false,
        underlined: false,
        mirrored: false,
        multiline: false,
        keep_upright: false,
        size_nm: Some(Vector2Nm { x_nm: size_nm, y_nm: size_nm }),
    }
}

/// The board text `create-board-text` makes from its arguments, once the
/// position, glyph size and stroke width are in nanometres.
pub fn board_text_spec_from_lengths(
    args: &BoardTextArgs,
    x_nm: i64,
    y_nm: i64,
    size_nm: i64,
    stroke_width_nm: i64,
) -> (r: BoardTextSpec)
    ensures
        r.id is None,
        r.text.text@ == args.text@,
        r.text.position_nm == Some(Vector2Nm { x_nm, y_nm }),
        r.text.attributes == Some(board_text_attributes(size_nm, stroke_width_nm)),
        r.text.hyperlink is None,
        r.layer_id == args.layer_id,
        r.knockout == args.knockout,
        r.locked == if args.locked {
            ItemLockState::Locked
        } else {
            ItemLockState::Unlocked
        },
{
    let attributes = TextAttributesSpec {
        font_name: None,
        horizontal_alignment: TextHorizontalAlignment::Center,
        vertical_alignment: TextVerticalAlignment::Center,
        angle_degrees: None,
        line_spacing: Some(proto::F64Bits { bits: UNIT_LINE_SPACING_BITS }),
        stroke_width_nm: Some(stroke_width_nm),
        italic: false,
        bold: false,
        underlined: false,
        mirrored: false,
        multiline: false,
        keep_upright: false,
        size_nm: Some(Vector2Nm { x_nm: size_nm, y_nm: size_nm }),
    };
    let mut spec = BoardTextSpec::new(
        args.text.as_str(),
        Vector2Nm { x_nm, y_nm },
        args.layer_id,
        Some(attributes),
    );
    spec.knockout = args.knockout;
    spec.locked = if args.locked {
        ItemLockState::Locked
    } else {
        ItemLockState::Unlocked
    };
    spec
}

/// Reads the item ids of the command `cmd`.
fn read_item_ids(args: &[String], cmd: &str) -> (r: Result<Vec<String>, KiCadError>)
    requires
        args@.len() > 0,
    ensures
        match r {
            Ok(v) => item_ids_read(strings_view(args@), cmd@) == Ok::<
                Seq<Seq<char>>,
                Seq<char>,
            >(strings_view(v@)),
            Err(e) => e matches KiCadError::Config { reason } && item_ids_read(
                strings_view(args@),
                cmd@,
            ) == Err::<Seq<Seq<char>>, Seq<char>>(reason@),
        },
{
    let n = args.len();
    let mut rest: Vec<String> = Vec::new();
    let mut i: usize = 1;
    while i < n
        invariant
            n == args@.len(),
            1 <= i <= n,
            strings_view(rest@) == strings_view(args@).subrange(1, i as int),
        decreases n - i,
    {
        rest.push(copy_string(&args[i]));
        assert(strings_view(args@).subrange(1, i + 1) =~= strings_view(args@).subrange(
            1,
            i as int,
        ).push(args@[i as int]@));
        i = i + 1;
    }
    assert(strings_view(args@).subrange(1, n as int) =~= strings_view(args@).skip(1));
    parse_item_ids(rest.as_slice(), cmd)
}

// ---------------------------------------------------------------------------
// The command.
// ---------------------------------------------------------------------------
/// What the command line `args`, its global options taken out, reads as:
/// the command its first argument names, with that command's options.
pub open spec fn command_read(args: Seq<Seq<char>>) -> Result<CommandView, Seq<char>>
    recommends
        args.len() > 0,
{
    let name = args[0];
    if name == "help"@ || name == "--help"@ || name == "-h"@ {
        Ok(CommandView::Help)
    } else if name == "ping"@ {
        Ok(CommandView::Ping)
    } else if name == "version"@ {
        Ok(CommandView::Version)
    } else if name == "kicad-binary-path"@ {
        kicad_binary_path_read(args)
    } else if name == "plugin-settings-path"@ {
        plugin_settings_path_read(args)
    } else if name == "project-path"@ {
        Ok(CommandView::ProjectPath)
    } else if name == "board-open"@ {
        Ok(CommandView::BoardOpen)
    } else if name == "net-classes"@ {
        Ok(CommandView::NetClasses)
    } else if name == "set-net-classes"@ {
        set_net_classes_read(args)
    } else if name == "text-variables"@ {
        Ok(CommandView::TextVariables)
    } else if name == "set-text-variables"@ {
        set_text_variables_read(args)
    } else if name == "expand-text-variables"@ {
        expand_text_variables_read(args)
    } else if name == "text-extents"@ {
        text_extents_read(args)
    } else if name == "text-as-shapes"@ {
        text_as_shapes_read(args)
    } else if name == "nets"@ {
        Ok(CommandView::Nets)
    } else if name == "vias"@ {
        Ok(CommandView::Vias)
    } else if name == "enabled-layers"@ {
        Ok(CommandView::EnabledLayers)
    } else if name == "set-enabled-layers"@ {
        set_enabled_layers_read(args)
    } else if name == "active-layer"@ {
        Ok(CommandView::ActiveLayer)
    } else if name == "set-active-layer"@ {
        set_active_layer_read(args)
    } else if name == "visible-layers"@ {
        Ok(CommandView::VisibleLayers)
    } else if name == "set-visible-layers"@ {
        set_visible_layers_read(args)
    } else if name == "board-origin"@ {
        board_origin_read(args)
    } else if name == "set-board-origin"@ {
        set_board_origin_read(args)
    } else if name == "inject-drc-error"@ {
        inject_drc_error_read(args)
    } else if name == "refresh-editor"@ {
        refresh_editor_read(args)
    } else if name == "begin-commit"@ {
        Ok(CommandView::BeginCommit)
    } else if name == "end-commit"@ {
        end_commit_read(args)
    } else if name == "save-doc"@ {
        Ok(CommandView::SaveDoc)
    } else if name == "save-copy"@ {
        save_copy_read(args)
    } else if name == "revert-doc"@ {
        Ok(CommandView::RevertDoc)
    } else if name == "run-action"@ {
        run_action_read(args)
    } else if name == "create-items"@ {
        create_items_read(args)
    } else if name == "create-board-text"@ {
        create_board_text_read(args)
    } else if name == "update-items"@ {
        update_items_read(args)
    } else if name == "delete-items"@ {
        match item_ids_read(args, "delete-items"@) {
            Ok(ids) => Ok(CommandView::DeleteItems { item_ids: ids }),
            Err(m) => Err(m),
        }
    } else if name == "parse-create-items"@ {
        parse_create_items_read(args)
    } else if name == "add-to-selection"@ {
        match item_ids_read(args, "add-to-selection"@) {
            Ok(ids) => Ok(CommandView::AddToSelection { item_ids: ids }),
            Err(m) => Err(m),
        }
    } else if name == "remove-from-selection"@ {
        match item_ids_read(args, "remove-from-selection"@) {
            Ok(ids) => Ok(CommandView::RemoveFromSelection { item_ids: ids }),
            Err(m) => Err(m),
        }
    } else if name == "clear-selection"@ {
        Ok(CommandView::ClearSelection)
    } else if name == "selection-summary"@ {
        Ok(CommandView::SelectionSummary)
    } else if name == "selection-details"@ {
        Ok(CommandView::SelectionDetails)
    } else if name == "selection-raw"@ {
        Ok(CommandView::SelectionRaw)
    } else if name == "netlist-pads"@ {
        Ok(CommandView::NetlistPads)
    } else if name == "items-by-id"@ {
        match item_ids_read(args, "items-by-id"@) {
            Ok(ids) => Ok(CommandView::ItemsById { item_ids: ids }),
            Err(m) => Err(m),
        }
    } else if name == "item-bbox"@ {
        item_bbox_read(args)
    } else if name == "hit-test"@ {
        hit_test_read(args)
    } else if name == "types-pcb"@ {
        Ok(CommandView::PcbTypes)
    } else if name == "items-raw"@ {
        items_raw_read(args)
    } else if name == "items-raw-all-pcb"@ {
        items_raw_all_pcb_read(args)
    } else if name == "pad-shape-polygon"@ {
        pad_shape_polygon_read(args)
    } else if name == "padstack-presence"@ {
        padstack_presence_read(args)
    } else if name == "title-block"@ {
        Ok(CommandView::TitleBlock)
    } else if name == "board-as-string"@ {
        Ok(CommandView::BoardAsString)
    } else if name == "selection-as-string"@ {
        Ok(CommandView::SelectionAsString)
    } else if name == "stackup"@ {
        Ok(CommandView::Stackup)
    } else if name == "update-stackup"@ {
        Ok(CommandView::UpdateStackup)
    } else if name == "graphics-defaults"@ {
        Ok(CommandView::GraphicsDefaults)
    } else if name == "appearance"@ {
        Ok(CommandView::Appearance)
    } else if name == "set-appearance"@ {
        set_appearance_read(args)
    } else if name == "refill-zones"@ {
        refill_zones_read(args)
    } else if name == "interactive-move"@ {
        interactive_move_read(args)
    } else if name == "netclass"@ {
        Ok(CommandView::NetClass)
    } else if name == "proto-coverage-board-read"@ {
        Ok(CommandView::ProtoCoverageBoardRead)
    } else if name == "board-read-report"@ {
        board_read_report_read(args)
    } else if name == "smoke"@ {
        Ok(CommandView::Smoke)
    } else if name == "open-docs"@ {
        open_docs_read(args)
    } else {
        Err("unknown command `"@ + name + "`"@)
    }
}

/// Reads the command the arguments name, with its options.
fn read_command(args: &[String]) -> (r: Result<Command, KiCadError>)
    requires
        args@.len() > 0,
    ensures
        command_result_is(r, command_read(strings_view(args@))),
{
    let ghost a = strings_view(args@);
    assert(a[0] == args@[0]@);
    let name = args[0].as_str();
    if str_eq(name, "help") || str_eq(name, "--help") || str_eq(name, "-h") {
        return Ok(Command::Help);
    }
    if str_eq(name, "ping") {
        return Ok(Command::Ping);
    }
    if str_eq(name, "version") {
        return Ok(Command::Version);
    }
    if str_eq(name, "kicad-binary-path") {
        return read_kicad_binary_path(args);
    }
    if str_eq(name, "plugin-settings-path") {
        return read_plugin_settings_path(args);
    }
    if str_eq(name, "project-path") {
        return Ok(Command::ProjectPath);
    }
    if str_eq(name, "board-open") {
        return Ok(Command::BoardOpen);
    }
    if str_eq(name, "net-classes") {
        return Ok(Command::NetClasses);
    }
    if str_eq(name, "set-net-classes") {
        return read_set_net_classes(args);
    }
    if str_eq(name, "text-variables") {
        return Ok(Command::TextVariables);
    }
    if str_eq(name, "set-text-variables") {
        return read_set_text_variables(args);
    }
    if str_eq(name, "expand-text-variables") {
        return read_expand_text_variables(args);
    }
    if str_eq(name, "text-extents") {
        return read_text_extents(args);
    }
    if str_eq(name, "text-as-shapes") {
        return read_text_as_shapes(args);
    }
    if str_eq(name, "nets") {
        return Ok(Command::Nets);
    }
    if str_eq(name, "vias") {
        return Ok(Command::Vias);
    }
    if str_eq(name, "enabled-layers") {
        return Ok(Command::EnabledLayers);
    }
    if str_eq(name, "set-enabled-layers") {
        return read_set_enabled_layers(args);
    }
    if str_eq(name, "active-layer") {
        return Ok(Command::ActiveLayer);
    }
    if str_eq(name, "set-active-layer") {
        return read_set_active_layer(args);
    }
    if str_eq(name, "visible-layers") {
        return Ok(Command::VisibleLayers);
    }
    if str_eq(name, "set-visible-layers") {
        return read_set_visible_layers(args);
    }
    if str_eq(name, "board-origin") {
        return read_board_origin(args);
    }
    if str_eq(name, "set-board-origin") {
        return read_set_board_origin(args);
    }
    if str_eq(name, "inject-drc-error") {
        return read_inject_drc_error(args);
    }
    if str_eq(name, "refresh-editor") {
        return read_refresh_editor(args);
    }
    if str_eq(name, "begin-commit") {
        return Ok(Command::BeginCommit);
    }
    if str_eq(name, "end-commit") {
        return read_end_commit(args);
    }
    if str_eq(name, "save-doc") {
        return Ok(Command::SaveDoc);
    }
    if str_eq(name, "save-copy") {
        return read_save_copy(args);
    }
    if str_eq(name, "revert-doc") {
        return Ok(Command::RevertDoc);
    }
    if str_eq(name, "run-action") {
        return read_run_action(args);
    }
    if str_eq(name, "create-items") {
        return read_create_items(args);
    }
    if str_eq(name, "create-board-text") {
        return read_create_board_text(args);
    }
    if str_eq(name, "update-items") {
        return read_update_items(args);
    }
    if str_eq(name, "delete-items") {
        return match read_item_ids(args, "delete-items") {
            Ok(item_ids) => Ok(Command::DeleteItems { item_ids }),
            Err(e) => Err(e),
        };
    }
    if str_eq(name, "parse-create-items") {
        return read_parse_create_items(args);
    }
    if str_eq(name, "add-to-selection") {
        return match read_item_ids(args, "add-to-selection") {
            Ok(item_ids) => Ok(Command::AddToSelection { item_ids }),
            Err(e) => Err(e),
        };
    }
    if str_eq(name, "remove-from-selection") {
        return match read_item_ids(args, "remove-from-selection") {
            Ok(item_ids) => Ok(Command::RemoveFromSelection { item_ids }),
            Err(e) => Err(e),
        };
    }
    if str_eq(name, "clear-selection") {
        return Ok(Command::ClearSelection);
    }
    if str_eq(name, "selection-summary") {
        return Ok(Command::SelectionSummary);
    }
    if str_eq(name, "selection-details") {
        return Ok(Command::SelectionDetails);
    }
    if str_eq(name, "selection-raw") {
        return Ok(Command::SelectionRaw);
    }
    if str_eq(name, "netlist-pads") {
        return Ok(Command::NetlistPads);
    }
    if str_eq(name, "items-by-id") {
        return match read_item_ids(args, "items-by-id") {
            Ok(item_ids) => Ok(Command::ItemsById { item_ids }),
            Err(e) => Err(e),
        };
    }
    if str_eq(name, "item-bbox") {
        return read_item_bbox(args);
    }
    if str_eq(name, "hit-test") {
        return read_hit_test(args);
    }
    if str_eq(name, "types-pcb") {
        return Ok(Command::PcbTypes);
    }
    if str_eq(name, "items-raw") {
        return read_items_raw(args);
    }
    if str_eq(name, "items-raw-all-pcb") {
        return read_items_raw_all_pcb(args);
    }
    if str_eq(name, "pad-shape-polygon") {
        return read_pad_shape_polygon(args);
    }
    if str_eq(name, "padstack-presence") {
        return read_padstack_presence(args);
    }
    if str_eq(name, "title-block") {
        return Ok(Command::TitleBlock);
    }
    if str_eq(name, "board-as-string") {
        return Ok(Command::BoardAsString);
    }
    if str_eq(name, "selection-as-string") {
        return Ok(Command::SelectionAsString);
    }
    if str_eq(name, "stackup") {
        return Ok(Command::Stackup);
    }
    if str_eq(name, "update-stackup") {
        return Ok(Command::UpdateStackup);
    }
    if str_eq(name, "graphics-defaults") {
        return Ok(Command::GraphicsDefaults);
    }
    if str_eq(name, "appearance") {
        return Ok(Command::Appearance);
    }
    if str_eq(name, "set-appearance") {
        return read_set_appearance(args);
    }
    if str_eq(name, "refill-zones") {
        return read_refill_zones(args);
    }
    if str_eq(name, "interactive-move") {
        return read_interactive_move(args);
    }
    if str_eq(name, "netclass") {
        return Ok(Command::NetClass);
    }
    if str_eq(name, "proto-coverage-board-read") {
        return Ok(Command::ProtoCoverageBoardRead);
    }
    if str_eq(name, "board-read-report") {
        return read_board_read_report(args);
    }
    if str_eq(name, "smoke") {
        return Ok(Command::Smoke);
    }
    if str_eq(name, "open-docs") {
        return read_open_docs(args);
    }
    let mut m = owned("unknown command `");
    push_str(&mut m, name);
    push_str(&mut m, "`");
    Err(KiCadError::Config { reason: m })
}


// ---------------------------------------------------------------------------
// The command line.
// ---------------------------------------------------------------------------
/// The tool's settings as the contracts see them.
pub ghost struct ConfigView {
    pub socket: Option<Seq<char>>,
    pub token: Option<Seq<char>>,
    pub client_name: Option<Seq<char>>,
    pub timeout_ms: u64,
}

/// The view of the tool's settings.
pub open spec fn config_view(c: CliConfig) -> ConfigView {
    ConfigView {
        socket: opt_string_view(c.socket),
        token: opt_string_view(c.token),
        client_name: opt_string_view(c.client_name),
        timeout_ms: c.timeout_ms,
    }
}

/// The settings when no global option is given.
pub open spec fn default_config_view() -> ConfigView {
    ConfigView { socket: None, token: None, client_name: None, timeout_ms: CLI_DEFAULT_TIMEOUT_MS }
}

/// The arguments without the two at positions `i` and `i + 1`.
pub open spec fn without_pair(args: Seq<Seq<char>>, i: int) -> Seq<Seq<char>> {
    args.take(i) + args.skip(i + 2)
}

/// The message for a timeout that is no `u64`.
pub open spec fn invalid_timeout_text(value: Seq<char>, kind: crate::decimal::IntErrorKind) -> Seq<
    char,
> {
    "invalid --timeout-ms value `"@ + value + "`: "@ + int_error_text(kind)
}

/// Takes the global options out of the arguments, from position `i` on:
/// `--socket`, `--token`, `--client-name` and `--timeout-ms`, wherever they
/// stand, each with the value after it, which a later one replaces. The
/// settings and the arguments left, or the message for an option without its
/// value or a timeout that is no `u64`.
pub open spec fn globals_from(args: Seq<Seq<char>>, i: int, cfg: ConfigView) -> Result<
    (ConfigView, Seq<Seq<char>>),
    Seq<char>,
>
    decreases args.len() - i,
{
    if i < 0 || i >= args.len() {
        Ok((cfg, args))
    } else if args[i] == "--socket"@ {
        if i + 1 >= args.len() {
            Err("missing value for --socket"@)
        } else {
            globals_from(without_pair(args, i), i, ConfigView { socket: Some(args[i + 1]), ..cfg })
        }
    } else if args[i] == "--token"@ {
        if i + 1 >= args.len() {
            Err("missing value for --token"@)
        } else {
            globals_from(without_pair(args, i), i, ConfigView { token: Some(args[i + 1]), ..cfg })
        }
    } else if args[i] == "--client-name"@ {
        if i + 1 >= args.len() {
            Err("missing value for --client-name"@)
        } else {
            globals_from(
                without_pair(args, i),
                i,
                ConfigView { client_name: Some(args[i + 1]), ..cfg },
            )
        }
    } else if args[i] == "--timeout-ms"@ {
        if i + 1 >= args.len() {
            Err("missing value for --timeout-ms"@)
        } else {
            match int_parse(args[i + 1], 0, u64::MAX as int) {
                Ok(n) => globals_from(
                    without_pair(args, i),
                    i,
                    ConfigView { timeout_ms: n as u64, ..cfg },
                ),
                Err(k) => Err(invalid_timeout_text(args[i + 1], k)),
            }
        }
    } else {
        globals_from(args, i + 1, cfg)
    }
}

/// What the command line `args` reads as: the settings its global options
/// give and the command the rest names; help when no argument is left.
pub open spec fn args_read(args: Seq<Seq<char>>) -> Result<(ConfigView, CommandView), Seq<char>> {
    if args.len() == 0 {
        Ok((default_config_view(), CommandView::Help))
    } else {
        match globals_from(args, 0, default_config_view()) {
            Err(m) => Err(m),
            Ok((cfg, rest)) => if rest.len() == 0 {
                Ok((cfg, CommandView::Help))
            } else {
                match command_read(rest) {
                    Ok(c) => Ok((cfg, c)),
                    Err(m) => Err(m),
                }
            },
        }
    }
}

/// Removes the arguments at positions `i` and `i + 1`.
fn remove_pair(args: &mut Vec<String>, i: usize)
    requires
        i + 1 < old(args)@.len(),
    ensures
        strings_view(final(args)@) == without_pair(strings_view(old(args)@), i as int),
{
    let ghost a = strings_view(args@);
    args.remove(i);
    args.remove(i);
    assert(strings_view(args@) =~= without_pair(a, i as int));
}

/// Reads the command line: the global options, then the command and its
/// options.
pub fn parse_args_from(args: Vec<String>) -> (r: Result<(CliConfig, Command), KiCadError>)
    ensures
        match r {
            Ok((cfg, c)) => args_read(strings_view(args@)) == Ok::<
                (ConfigView, CommandView),
                Seq<char>,
            >((config_view(cfg), command_view(c))),
            Err(e) => e matches KiCadError::Config { reason } && args_read(strings_view(args@))
                == Err::<(ConfigView, CommandView), Seq<char>>(reason@),
        },
{
    let ghost a0 = strings_view(args@);
    if args.len() == 0 {
        return Ok((default_config(), Command::Help));
    }
    let mut rest = args;
    let mut config = default_config();
    let mut index: usize = 0;
    while index < rest.len()
        invariant
            a0.len() > 0,
            a0 == strings_view(args@),
            globals_from(a0, 0, default_config_view()) == globals_from(
                strings_view(rest@),
                index as int,
                config_view(config),
            ),
        decreases rest@.len() - index,
    {
        let ghost a = strings_view(rest@);
        assert(a[index as int] == rest@[index as int]@);
        let is_socket = str_eq(rest[index].as_str(), "--socket");
        let is_token = str_eq(rest[index].as_str(), "--token");
        let is_client_name = str_eq(rest[index].as_str(), "--client-name");
        let is_timeout = str_eq(rest[index].as_str(), "--timeout-ms");
        if is_socket || is_token || is_client_name || is_timeout {
            if index + 1 >= rest.len() {
                let reason = if is_socket {
                    owned("missing value for --socket")
                } else if is_token {
                    owned("missing value for --token")
                } else if is_client_name {
                    owned("missing value for --client-name")
                } else {
                    owned("missing value for --timeout-ms")
                };
                return Err(KiCadError::Config { reason });
            }
            assert(a[index + 1] == rest@[index + 1]@);
            if is_socket {
                config.socket = Some(copy_string(&rest[index + 1]));
            } else if is_token {
                config.token = Some(copy_string(&rest[index + 1]));
            } else if is_client_name {
                config.client_name = Some(copy_string(&rest[index + 1]));
            } else {
                match parse_u64(rest[index + 1].as_str()) {
                    Ok(n) => {
                        config.timeout_ms = n;
                    },
                    Err(k) => {
                        let mut reason = owned("invalid --timeout-ms value `");
                        push_str(&mut reason, rest[index + 1].as_str());
                        push_str(&mut reason, "`: ");
                        push_str(&mut reason, int_error_message(k));
                        return Err(KiCadError::Config { reason });
                    },
                }
            }
            remove_pair(&mut rest, index);
        } else {
            index = index + 1;
        }
    }
    if rest.len() == 0 {
        return Ok((config, Command::Help));
    }
    match read_command(rest.as_slice()) {
        Ok(c) => Ok((config, c)),
        Err(e) => Err(e),
    }
}

} // verus!
