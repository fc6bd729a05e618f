//! Typed models and verified conversions for KiCad's IPC API.

pub mod blocking;
pub mod envelope;
pub mod cli;
pub mod cli_args;
pub mod cli_commands;
pub mod cli_report;
pub mod decimal;
pub mod client;
pub mod error;
pub mod field_laws;
pub mod model;
pub mod order;
pub mod pcb_item_type_urls;
pub mod proto;
pub mod proto_enums;
pub mod text;
pub mod wire_tables;

pub use crate::blocking::KiCadClientBlockingBuilder;
pub use crate::client::config::{ClientBuilder, KiCadClient};
pub use crate::error::KiCadError;
pub use crate::model::board::{
    ArcStartMidEndNm, BoardEditorAppearanceSettings, BoardEnabledLayers, BoardFlipMode,
    BoardLayerClass, BoardLayerGraphicsDefault, BoardLayerInfo, BoardNet, BoardOriginKind,
    BoardStackup, BoardStackupDielectricProperties, BoardStackupLayer, BoardStackupLayerType,
    BoardTextSpec, ColorRgba, DrcSeverity, GraphicsDefaults, InactiveLayerDisplayMode,
    ItemLockState, NetClassBoardSettings, NetClassForNetEntry, NetClassInfo, NetClassType,
    NetColorDisplayMode, PadNetEntry, PadShapeAsPolygonEntry, PadstackPresenceEntry,
    PadstackPresenceState, PcbArc, PcbBarcode, PcbBarcodeErrorCorrection, PcbBarcodeKind,
    PcbBoardGraphicShape, PcbBoardText, PcbBoardTextBox, PcbDimension, PcbDimensionStyle, PcbField,
    PcbFootprint, PcbFootprintSymbolLink, PcbGraphicShapeGeometry, PcbGroup, PcbItem, PcbPad,
    PcbPadStack, PcbPadType, PcbPadstackDrill, PcbReferenceImage, PcbSymbolPinInfo,
    PcbTextAttributes, PcbTrack, PcbUnknownItem, PcbVia, PcbViaLayers, PcbViaType, PcbZone,
    PcbZoneLayerProperty, PcbZoneType, PolyLineNm, PolyLineNodeGeometryNm, PolygonWithHolesNm,
    RatsnestDisplayMode, Vector2Nm,
};
pub use crate::model::common::{
    CommitAction, CommitSession, DocumentSpecifier, DocumentType, EditorFrameType, ItemBoundingBox,
    ItemHitTestResult, MapMergeMode, PcbObjectTypeCode, RunActionStatus, SelectionItemDetail,
    SelectionMutationResult, SelectionStringDump, SelectionSummary, SelectionTypeCount,
    TextAsShapesEntry, TextAttributesSpec, TextBoxSpec, TextExtents, TextHorizontalAlignment,
    TextObjectSpec, TextShape, TextShapeGeometry, TextSpec, TextVerticalAlignment, TitleBlockInfo,
    VersionInfo,
};
pub use crate::model::editable::{
    kind_debug_name, ArcItem, BarcodeItem, BoardGraphicShapeItem, BoardTextBoxItem,
    BoardTextItem, DimensionItem, EditablePcbItem, EditablePcbItemKind, FieldItem,
    FootprintInstanceItem, GroupItem, LayerSet, PadItem, RawPcbItem, ReferenceImageItem,
    TrackItem, ViaItem, ZoneItem,
};
