//! Names of the API's commands and responses, and of the environment
//! variables the client reads.

use vstd::prelude::*;

verus! {

pub const KICAD_API_SOCKET_ENV: &'static str = "KICAD_API_SOCKET";
pub const KICAD_API_TOKEN_ENV: &'static str = "KICAD_API_TOKEN";
pub const KIPRJMOD_ENV: &'static str = "KIPRJMOD";
pub const CMD_PING: &'static str = "kiapi.common.commands.Ping";
pub const CMD_GET_VERSION: &'static str = "kiapi.common.commands.GetVersion";
pub const CMD_GET_KICAD_BINARY_PATH: &'static str = "kiapi.common.commands.GetKiCadBinaryPath";
pub const CMD_GET_PLUGIN_SETTINGS_PATH: &'static str = "kiapi.common.commands.GetPluginSettingsPath";
pub const CMD_GET_NET_CLASSES: &'static str = "kiapi.common.commands.GetNetClasses";
pub const CMD_SET_NET_CLASSES: &'static str = "kiapi.common.commands.SetNetClasses";
pub const CMD_GET_TEXT_VARIABLES: &'static str = "kiapi.common.commands.GetTextVariables";
pub const CMD_SET_TEXT_VARIABLES: &'static str = "kiapi.common.commands.SetTextVariables";
pub const CMD_EXPAND_TEXT_VARIABLES: &'static str = "kiapi.common.commands.ExpandTextVariables";
pub const CMD_GET_TEXT_EXTENTS: &'static str = "kiapi.common.commands.GetTextExtents";
pub const CMD_GET_TEXT_AS_SHAPES: &'static str = "kiapi.common.commands.GetTextAsShapes";
pub const CMD_REFRESH_EDITOR: &'static str = "kiapi.common.commands.RefreshEditor";
pub const CMD_GET_OPEN_DOCUMENTS: &'static str = "kiapi.common.commands.GetOpenDocuments";
pub const CMD_RUN_ACTION: &'static str = "kiapi.common.commands.RunAction";
pub const CMD_GET_NETS: &'static str = "kiapi.board.commands.GetNets";
pub const CMD_GET_BOARD_ENABLED_LAYERS: &'static str = "kiapi.board.commands.GetBoardEnabledLayers";
pub const CMD_SET_BOARD_ENABLED_LAYERS: &'static str = "kiapi.board.commands.SetBoardEnabledLayers";
pub const CMD_GET_ACTIVE_LAYER: &'static str = "kiapi.board.commands.GetActiveLayer";
pub const CMD_SET_ACTIVE_LAYER: &'static str = "kiapi.board.commands.SetActiveLayer";
pub const CMD_GET_VISIBLE_LAYERS: &'static str = "kiapi.board.commands.GetVisibleLayers";
pub const CMD_SET_VISIBLE_LAYERS: &'static str = "kiapi.board.commands.SetVisibleLayers";
pub const CMD_GET_BOARD_LAYER_NAME: &'static str = "kiapi.board.commands.GetBoardLayerName";
pub const CMD_GET_BOARD_ORIGIN: &'static str = "kiapi.board.commands.GetBoardOrigin";
pub const CMD_SET_BOARD_ORIGIN: &'static str = "kiapi.board.commands.SetBoardOrigin";
pub const CMD_GET_BOARD_STACKUP: &'static str = "kiapi.board.commands.GetBoardStackup";
pub const CMD_UPDATE_BOARD_STACKUP: &'static str = "kiapi.board.commands.UpdateBoardStackup";
pub const CMD_GET_GRAPHICS_DEFAULTS: &'static str = "kiapi.board.commands.GetGraphicsDefaults";
pub const CMD_GET_BOARD_EDITOR_APPEARANCE_SETTINGS: &'static str = "kiapi.board.commands.GetBoardEditorAppearanceSettings";
pub const CMD_SET_BOARD_EDITOR_APPEARANCE_SETTINGS: &'static str = "kiapi.board.commands.SetBoardEditorAppearanceSettings";
pub const CMD_INTERACTIVE_MOVE_ITEMS: &'static str = "kiapi.board.commands.InteractiveMoveItems";
pub const CMD_GET_ITEMS_BY_NET: &'static str = "kiapi.board.commands.GetItemsByNet";
pub const CMD_GET_ITEMS_BY_NET_CLASS: &'static str = "kiapi.board.commands.GetItemsByNetClass";
pub const CMD_GET_CONNECTED_ITEMS: &'static str = "kiapi.board.commands.GetConnectedItems";
pub const CMD_GET_NETCLASS_FOR_NETS: &'static str = "kiapi.board.commands.GetNetClassForNets";
pub const CMD_REFILL_ZONES: &'static str = "kiapi.board.commands.RefillZones";
pub const CMD_GET_PAD_SHAPE_AS_POLYGON: &'static str = "kiapi.board.commands.GetPadShapeAsPolygon";
pub const CMD_CHECK_PADSTACK_PRESENCE_ON_LAYERS: &'static str = "kiapi.board.commands.CheckPadstackPresenceOnLayers";
pub const CMD_INJECT_DRC_ERROR: &'static str = "kiapi.board.commands.InjectDrcError";
pub const CMD_GET_SELECTION: &'static str = "kiapi.common.commands.GetSelection";
pub const CMD_ADD_TO_SELECTION: &'static str = "kiapi.common.commands.AddToSelection";
pub const CMD_REMOVE_FROM_SELECTION: &'static str = "kiapi.common.commands.RemoveFromSelection";
pub const CMD_CLEAR_SELECTION: &'static str = "kiapi.common.commands.ClearSelection";
pub const CMD_BEGIN_COMMIT: &'static str = "kiapi.common.commands.BeginCommit";
pub const CMD_END_COMMIT: &'static str = "kiapi.common.commands.EndCommit";
pub const CMD_CREATE_ITEMS: &'static str = "kiapi.common.commands.CreateItems";
pub const CMD_UPDATE_ITEMS: &'static str = "kiapi.common.commands.UpdateItems";
pub const CMD_DELETE_ITEMS: &'static str = "kiapi.common.commands.DeleteItems";
pub const CMD_PARSE_AND_CREATE_ITEMS_FROM_STRING: &'static str = "kiapi.common.commands.ParseAndCreateItemsFromString";
pub const CMD_GET_ITEMS: &'static str = "kiapi.common.commands.GetItems";
pub const CMD_GET_ITEMS_BY_ID: &'static str = "kiapi.common.commands.GetItemsById";
pub const CMD_GET_BOUNDING_BOX: &'static str = "kiapi.common.commands.GetBoundingBox";
pub const CMD_HIT_TEST: &'static str = "kiapi.common.commands.HitTest";
pub const CMD_GET_TITLE_BLOCK_INFO: &'static str = "kiapi.common.commands.GetTitleBlockInfo";
pub const CMD_SET_TITLE_BLOCK_INFO: &'static str = "kiapi.common.commands.SetTitleBlockInfo";
pub const CMD_SAVE_DOCUMENT: &'static str = "kiapi.common.commands.SaveDocument";
pub const CMD_SAVE_COPY_OF_DOCUMENT: &'static str = "kiapi.common.commands.SaveCopyOfDocument";
pub const CMD_REVERT_DOCUMENT: &'static str = "kiapi.common.commands.RevertDocument";
pub const CMD_SAVE_DOCUMENT_TO_STRING: &'static str = "kiapi.common.commands.SaveDocumentToString";
pub const CMD_SAVE_SELECTION_TO_STRING: &'static str = "kiapi.common.commands.SaveSelectionToString";
pub const RES_GET_VERSION: &'static str = "kiapi.common.commands.GetVersionResponse";
pub const RES_PATH_RESPONSE: &'static str = "kiapi.common.commands.PathResponse";
pub const RES_STRING_RESPONSE: &'static str = "kiapi.common.commands.StringResponse";
pub const RES_NET_CLASSES_RESPONSE: &'static str = "kiapi.common.commands.NetClassesResponse";
pub const RES_TEXT_VARIABLES: &'static str = "kiapi.common.project.TextVariables";
pub const RES_EXPAND_TEXT_VARIABLES_RESPONSE: &'static str = "kiapi.common.commands.ExpandTextVariablesResponse";
pub const RES_BOX2: &'static str = "kiapi.common.types.Box2";
pub const RES_GET_TEXT_AS_SHAPES_RESPONSE: &'static str = "kiapi.common.commands.GetTextAsShapesResponse";
pub const RES_GET_OPEN_DOCUMENTS: &'static str = "kiapi.common.commands.GetOpenDocumentsResponse";
pub const RES_RUN_ACTION_RESPONSE: &'static str = "kiapi.common.commands.RunActionResponse";
pub const RES_GET_NETS: &'static str = "kiapi.board.commands.NetsResponse";
pub const RES_GET_BOARD_ENABLED_LAYERS: &'static str = "kiapi.board.commands.BoardEnabledLayersResponse";
pub const RES_BOARD_LAYER_RESPONSE: &'static str = "kiapi.board.commands.BoardLayerResponse";
pub const RES_BOARD_LAYERS: &'static str = "kiapi.board.commands.BoardLayers";
pub const RES_BOARD_LAYER_NAME_RESPONSE: &'static str = "kiapi.board.commands.BoardLayerNameResponse";
pub const RES_BOARD_STACKUP_RESPONSE: &'static str = "kiapi.board.commands.BoardStackupResponse";
pub const RES_GRAPHICS_DEFAULTS_RESPONSE: &'static str = "kiapi.board.commands.GraphicsDefaultsResponse";
pub const RES_BOARD_EDITOR_APPEARANCE_SETTINGS: &'static str = "kiapi.board.commands.BoardEditorAppearanceSettings";
pub const RES_NETCLASS_FOR_NETS_RESPONSE: &'static str = "kiapi.board.commands.NetClassForNetsResponse";
pub const RES_PAD_SHAPE_AS_POLYGON_RESPONSE: &'static str = "kiapi.board.commands.PadShapeAsPolygonResponse";
pub const RES_PADSTACK_PRESENCE_RESPONSE: &'static str = "kiapi.board.commands.PadstackPresenceResponse";
pub const RES_INJECT_DRC_ERROR_RESPONSE: &'static str = "kiapi.board.commands.InjectDrcErrorResponse";
pub const RES_VECTOR2: &'static str = "kiapi.common.types.Vector2";
pub const RES_SELECTION_RESPONSE: &'static str = "kiapi.common.commands.SelectionResponse";
pub const RES_BEGIN_COMMIT_RESPONSE: &'static str = "kiapi.common.commands.BeginCommitResponse";
pub const RES_END_COMMIT_RESPONSE: &'static str = "kiapi.common.commands.EndCommitResponse";
pub const RES_CREATE_ITEMS_RESPONSE: &'static str = "kiapi.common.commands.CreateItemsResponse";
pub const RES_UPDATE_ITEMS_RESPONSE: &'static str = "kiapi.common.commands.UpdateItemsResponse";
pub const RES_DELETE_ITEMS_RESPONSE: &'static str = "kiapi.common.commands.DeleteItemsResponse";
pub const RES_GET_ITEMS_RESPONSE: &'static str = "kiapi.common.commands.GetItemsResponse";
pub const RES_GET_BOUNDING_BOX_RESPONSE: &'static str = "kiapi.common.commands.GetBoundingBoxResponse";
pub const RES_HIT_TEST_RESPONSE: &'static str = "kiapi.common.commands.HitTestResponse";
pub const RES_TITLE_BLOCK_INFO: &'static str = "kiapi.common.types.TitleBlockInfo";
pub const RES_SAVED_DOCUMENT_RESPONSE: &'static str = "kiapi.common.commands.SavedDocumentResponse";
pub const RES_SAVED_SELECTION_RESPONSE: &'static str = "kiapi.common.commands.SavedSelectionResponse";
pub const RES_PROTOBUF_EMPTY: &'static str = "google.protobuf.Empty";
pub const PAD_QUERY_CHUNK_SIZE: usize = 256;

} // verus!
