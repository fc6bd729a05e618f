//! Kinds, layer sets and raw payloads of editable items.

use vstd::prelude::*;
use crate::proto;

verus! {

/// The kind of an editable PCB item.
#[derive(Clone, Copy, Debug, PartialEq, Eq, Structural)]
pub enum EditablePcbItemKind {
    /// A board track segment.
    Track,
    /// A board arc track segment.
    Arc,
    /// A via item.
    Via,
    /// A placed footprint instance.
    FootprintInstance,
    /// A footprint pad.
    Pad,
    /// A board graphic shape.
    BoardGraphicShape,
    /// A board text item.
    BoardText,
    /// A board text box item.
    BoardTextBox,
    /// A footprint field item.
    Field,
    /// A board zone.
    Zone,
    /// A board dimension.
    Dimension,
    /// A board group.
    Group,
    /// A board reference image.
    ReferenceImage,
    /// A board barcode.
    Barcode,
    /// A payload whose type URL is not recognized by this crate version.
    Unknown,
}

/// The layers an editable item is on.
#[derive(Clone, Debug, PartialEq, Eq)]
pub enum LayerSet {
    /// Exactly one board layer id.
    Single(i32),
    /// Several board layer ids.
    Multi(Vec<i32>),
    /// Layers given by a padstack definition.
    Padstack,
    /// No direct layer relationship.
    NoLayer,
}

/// An item payload of a type the library does not edit, kept as it came.
#[derive(Debug, PartialEq, Eq)]
pub struct RawPcbItem {
    /// The payload.
    pub raw: proto::Any,
}

} // verus!
