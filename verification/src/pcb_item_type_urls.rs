//! Full names of the board item message types.

use vstd::prelude::*;

verus! {

pub const TRACK: &'static str = "kiapi.board.types.Track";
pub const ARC: &'static str = "kiapi.board.types.Arc";
pub const VIA: &'static str = "kiapi.board.types.Via";
pub const FOOTPRINT_INSTANCE: &'static str = "kiapi.board.types.FootprintInstance";
pub const PAD: &'static str = "kiapi.board.types.Pad";
pub const BOARD_GRAPHIC_SHAPE: &'static str = "kiapi.board.types.BoardGraphicShape";
pub const BOARD_TEXT: &'static str = "kiapi.board.types.BoardText";
pub const BOARD_TEXT_BOX: &'static str = "kiapi.board.types.BoardTextBox";
pub const FIELD: &'static str = "kiapi.board.types.Field";
pub const ZONE: &'static str = "kiapi.board.types.Zone";
pub const DIMENSION: &'static str = "kiapi.board.types.Dimension";
pub const GROUP: &'static str = "kiapi.board.types.Group";
pub const REFERENCE_IMAGE: &'static str = "kiapi.board.types.ReferenceImage";
pub const BARCODE: &'static str = "kiapi.board.types.Barcode";

} // verus!
