//! Editable board items: typed wrappers of item payloads that can be
//! changed and sent back.

use vstd::prelude::*;
use crate::client::config::opt_str;
use crate::client::decode::opt_kiid_value;
use crate::client::mappers::{vector_nm, vector_proto};
use crate::envelope::{type_url, type_url_spec};
use crate::error::KiCadError;
use crate::model::board::Vector2Nm;
use crate::pcb_item_type_urls as urls;
use crate::proto;
use crate::text::{copy_string, owned, push_str, str_eq};

pub mod item;
pub mod wrappers;

pub use item::{EditablePcbItemKind, LayerSet, RawPcbItem};
pub use wrappers::{
    ArcItem, BarcodeItem, BoardGraphicShapeItem, BoardTextBoxItem, BoardTextItem, DimensionItem,
    FieldItem, FootprintInstanceItem, GroupItem, PadItem, ReferenceImageItem, TrackItem, ViaItem,
    ZoneItem,
};

verus! {

/// An editable board item.
#[derive(Debug, PartialEq, Eq)]
pub enum EditablePcbItem {
    /// A Track item.
    Track(TrackItem),
    /// A Arc item.
    Arc(ArcItem),
    /// A Via item.
    Via(ViaItem),
    /// A FootprintInstance item.
    FootprintInstance(FootprintInstanceItem),
    /// A Pad item.
    Pad(PadItem),
    /// A BoardGraphicShape item.
    BoardGraphicShape(BoardGraphicShapeItem),
    /// A BoardText item.
    BoardText(BoardTextItem),
    /// A BoardTextBox item.
    BoardTextBox(BoardTextBoxItem),
    /// A Field item.
    Field(FieldItem),
    /// A Zone item.
    Zone(ZoneItem),
    /// A Dimension item.
    Dimension(DimensionItem),
    /// A Group item.
    Group(GroupItem),
    /// A ReferenceImage item.
    ReferenceImage(ReferenceImageItem),
    /// A Barcode item.
    Barcode(BarcodeItem),
    /// A payload of a type the library does not edit, kept as it came.
    Unknown(RawPcbItem),
}

// ---------------------------------------------------------------------------
// Decoding and encoding.
// ---------------------------------------------------------------------------
/// The error text for a payload that does not hold the message its type URL
/// names.
pub open spec fn item_decode_error_text(message_name: Seq<char>, url: Seq<char>) -> Seq<char> {
    "failed decoding `"@ + message_name + "` from `"@ + url + "`: payload does not hold that message"@
}

/// Whether `r` is the failure to decode a payload with type URL `url` as
/// the message `message_name`.
pub open spec fn item_decode_failure(
    message_name: Seq<char>,
    url: Seq<char>,
    r: Result<EditablePcbItem, KiCadError>,
) -> bool {
    r matches Err(KiCadError::ProtobufDecode(msg)) && msg@ == item_decode_error_text(message_name, url)
}

/// The decoding failure of the payload `raw` as the message `message_name`.
fn decode_item(raw: &proto::Any, message_name: &str) -> (e: KiCadError)
    ensures
        e matches KiCadError::ProtobufDecode(msg) && msg@ == item_decode_error_text(
            message_name@,
            raw.type_url@,
        ),
{
    let mut msg = owned("failed decoding `");
    push_str(&mut msg, message_name);
    push_str(&mut msg, "` from `");
    push_str(&mut msg, raw.type_url.as_str());
    push_str(&mut msg, "`: payload does not hold that message");
    KiCadError::ProtobufDecode(msg)
}

/// Whether a type URL names one of the board item messages the library edits.
pub open spec fn is_editable_url(url: Seq<char>) -> bool {
    url == type_url_spec(urls::TRACK@)
        || url == type_url_spec(urls::ARC@)
        || url == type_url_spec(urls::VIA@)
        || url == type_url_spec(urls::FOOTPRINT_INSTANCE@)
        || url == type_url_spec(urls::PAD@)
        || url == type_url_spec(urls::BOARD_GRAPHIC_SHAPE@)
        || url == type_url_spec(urls::BOARD_TEXT@)
        || url == type_url_spec(urls::BOARD_TEXT_BOX@)
        || url == type_url_spec(urls::FIELD@)
        || url == type_url_spec(urls::ZONE@)
        || url == type_url_spec(urls::DIMENSION@)
        || url == type_url_spec(urls::GROUP@)
        || url == type_url_spec(urls::REFERENCE_IMAGE@)
        || url == type_url_spec(urls::BARCODE@)
}

/// Whether `r` is the result of decoding the payload `raw` as an editable
/// item: the item its type URL names, wrapping the message it holds; a
/// decoding failure when it holds another; and the payload kept as it came
/// for any other type URL.
pub open spec fn editable_of(raw: proto::Any, r: Result<EditablePcbItem, KiCadError>) -> bool {
    let url = raw.type_url@;
    if url == type_url_spec(urls::TRACK@) {
        match raw.value {
            proto::AnyValue::Track(m) => (r matches Ok(EditablePcbItem::Track(item)) && item@ == m),
            _ => item_decode_failure(urls::TRACK@, url, r),
        }
    } else if url == type_url_spec(urls::ARC@) {
        match raw.value {
            proto::AnyValue::Arc(m) => (r matches Ok(EditablePcbItem::Arc(item)) && item@ == m),
            _ => item_decode_failure(urls::ARC@, url, r),
        }
    } else if url == type_url_spec(urls::VIA@) {
        match raw.value {
            proto::AnyValue::Via(m) => (r matches Ok(EditablePcbItem::Via(item)) && item@ == m),
            _ => item_decode_failure(urls::VIA@, url, r),
        }
    } else if url == type_url_spec(urls::FOOTPRINT_INSTANCE@) {
        match raw.value {
            proto::AnyValue::FootprintInstance(m) => (r matches Ok(EditablePcbItem::FootprintInstance(item)) && item@ == m),
            _ => item_decode_failure(urls::FOOTPRINT_INSTANCE@, url, r),
        }
    } else if url == type_url_spec(urls::PAD@) {
        match raw.value {
            proto::AnyValue::Pad(m) => (r matches Ok(EditablePcbItem::Pad(item)) && item@ == m),
            _ => item_decode_failure(urls::PAD@, url, r),
        }
    } else if url == type_url_spec(urls::BOARD_GRAPHIC_SHAPE@) {
        match raw.value {
            proto::AnyValue::BoardGraphicShape(m) => (r matches Ok(EditablePcbItem::BoardGraphicShape(item)) && item@ == m),
            _ => item_decode_failure(urls::BOARD_GRAPHIC_SHAPE@, url, r),
        }
    } else if url == type_url_spec(urls::BOARD_TEXT@) {
        match raw.value {
            proto::AnyValue::BoardText(m) => (r matches Ok(EditablePcbItem::BoardText(item)) && item@ == m),
            _ => item_decode_failure(urls::BOARD_TEXT@, url, r),
        }
    } else if url == type_url_spec(urls::BOARD_TEXT_BOX@) {
        match raw.value {
            proto::AnyValue::BoardTextBox(m) => (r matches Ok(EditablePcbItem::BoardTextBox(item)) && item@ == m),
            _ => item_decode_failure(urls::BOARD_TEXT_BOX@, url, r),
        }
    } else if url == type_url_spec(urls::FIELD@) {
        match raw.value {
            proto::AnyValue::Field(m) => (r matches Ok(EditablePcbItem::Field(item)) && item@ == m),
            _ => item_decode_failure(urls::FIELD@, url, r),
        }
    } else if url == type_url_spec(urls::ZONE@) {
        match raw.value {
            proto::AnyValue::Zone(m) => (r matches Ok(EditablePcbItem::Zone(item)) && item@ == m),
            _ => item_decode_failure(urls::ZONE@, url, r),
        }
    } else if url == type_url_spec(urls::DIMENSION@) {
        match raw.value {
            proto::AnyValue::Dimension(m) => (r matches Ok(EditablePcbItem::Dimension(item)) && item@ == m),
            _ => item_decode_failure(urls::DIMENSION@, url, r),
        }
    } else if url == type_url_spec(urls::GROUP@) {
        match raw.value {
            proto::AnyValue::Group(m) => (r matches Ok(EditablePcbItem::Group(item)) && item@ == m),
            _ => item_decode_failure(urls::GROUP@, url, r),
        }
    } else if url == type_url_spec(urls::REFERENCE_IMAGE@) {
        match raw.value {
            proto::AnyValue::ReferenceImage(m) => (r matches Ok(EditablePcbItem::ReferenceImage(item)) && item@ == m),
            _ => item_decode_failure(urls::REFERENCE_IMAGE@, url, r),
        }
    } else if url == type_url_spec(urls::BARCODE@) {
        match raw.value {
            proto::AnyValue::Barcode(m) => (r matches Ok(EditablePcbItem::Barcode(item)) && item@ == m),
            _ => item_decode_failure(urls::BARCODE@, url, r),
        }
    } else {
        r == Ok::<EditablePcbItem, KiCadError>(EditablePcbItem::Unknown(RawPcbItem { raw }))
    }
}

/// Whether `a` is the payload of the editable item `e`: the type URL of its
/// kind and its message, or, for an item of another type, its payload.
pub open spec fn any_of(e: EditablePcbItem, a: proto::Any) -> bool {
    match e {
        EditablePcbItem::Track(item) => a.type_url@ == type_url_spec(urls::TRACK@) && a.value
            == proto::AnyValue::Track(item@),
        EditablePcbItem::Arc(item) => a.type_url@ == type_url_spec(urls::ARC@) && a.value
            == proto::AnyValue::Arc(item@),
        EditablePcbItem::Via(item) => a.type_url@ == type_url_spec(urls::VIA@) && a.value
            == proto::AnyValue::Via(item@),
        EditablePcbItem::FootprintInstance(item) => a.type_url@ == type_url_spec(urls::FOOTPRINT_INSTANCE@) && a.value
            == proto::AnyValue::FootprintInstance(item@),
        EditablePcbItem::Pad(item) => a.type_url@ == type_url_spec(urls::PAD@) && a.value
            == proto::AnyValue::Pad(item@),
        EditablePcbItem::BoardGraphicShape(item) => a.type_url@ == type_url_spec(urls::BOARD_GRAPHIC_SHAPE@) && a.value
            == proto::AnyValue::BoardGraphicShape(item@),
        EditablePcbItem::BoardText(item) => a.type_url@ == type_url_spec(urls::BOARD_TEXT@) && a.value
            == proto::AnyValue::BoardText(item@),
        EditablePcbItem::BoardTextBox(item) => a.type_url@ == type_url_spec(urls::BOARD_TEXT_BOX@) && a.value
            == proto::AnyValue::BoardTextBox(item@),
        EditablePcbItem::Field(item) => a.type_url@ == type_url_spec(urls::FIELD@) && a.value
            == proto::AnyValue::Field(item@),
        EditablePcbItem::Zone(item) => a.type_url@ == type_url_spec(urls::ZONE@) && a.value
            == proto::AnyValue::Zone(item@),
        EditablePcbItem::Dimension(item) => a.type_url@ == type_url_spec(urls::DIMENSION@) && a.value
            == proto::AnyValue::Dimension(item@),
        EditablePcbItem::Group(item) => a.type_url@ == type_url_spec(urls::GROUP@) && a.value
            == proto::AnyValue::Group(item@),
        EditablePcbItem::ReferenceImage(item) => a.type_url@ == type_url_spec(urls::REFERENCE_IMAGE@) && a.value
            == proto::AnyValue::ReferenceImage(item@),
        EditablePcbItem::Barcode(item) => a.type_url@ == type_url_spec(urls::BARCODE@) && a.value
            == proto::AnyValue::Barcode(item@),
        EditablePcbItem::Unknown(raw) => a == raw.raw,
    }
}

impl EditablePcbItem {
    /// Decodes a payload into an editable item.
    pub fn from_any(raw: proto::Any) -> (r: Result<Self, KiCadError>)
        ensures
            editable_of(raw, r),
    {
        if str_eq(raw.type_url.as_str(), type_url(urls::TRACK).as_str()) {
            return match raw.value {
                proto::AnyValue::Track(m) => Ok(EditablePcbItem::Track(TrackItem::from_proto(m))),
                _ => Err(decode_item(&raw, urls::TRACK)),
            };
        }
        if str_eq(raw.type_url.as_str(), type_url(urls::ARC).as_str()) {
            return match raw.value {
                proto::AnyValue::Arc(m) => Ok(EditablePcbItem::Arc(ArcItem::from_proto(m))),
                _ => Err(decode_item(&raw, urls::ARC)),
            };
        }
        if str_eq(raw.type_url.as_str(), type_url(urls::VIA).as_str()) {
            return match raw.value {
                proto::AnyValue::Via(m) => Ok(EditablePcbItem::Via(ViaItem::from_proto(m))),
                _ => Err(decode_item(&raw, urls::VIA)),
            };
        }
        if str_eq(raw.type_url.as_str(), type_url(urls::FOOTPRINT_INSTANCE).as_str()) {
            return match raw.value {
                proto::AnyValue::FootprintInstance(m) => Ok(EditablePcbItem::FootprintInstance(FootprintInstanceItem::from_proto(m))),
                _ => Err(decode_item(&raw, urls::FOOTPRINT_INSTANCE)),
            };
        }
        if str_eq(raw.type_url.as_str(), type_url(urls::PAD).as_str()) {
            return match raw.value {
                proto::AnyValue::Pad(m) => Ok(EditablePcbItem::Pad(PadItem::from_proto(m))),
                _ => Err(decode_item(&raw, urls::PAD)),
            };
        }
        if str_eq(raw.type_url.as_str(), type_url(urls::BOARD_GRAPHIC_SHAPE).as_str()) {
            return match raw.value {
                proto::AnyValue::BoardGraphicShape(m) => Ok(EditablePcbItem::BoardGraphicShape(BoardGraphicShapeItem::from_proto(m))),
                _ => Err(decode_item(&raw, urls::BOARD_GRAPHIC_SHAPE)),
            };
        }
        if str_eq(raw.type_url.as_str(), type_url(urls::BOARD_TEXT).as_str()) {
            return match raw.value {
                proto::AnyValue::BoardText(m) => Ok(EditablePcbItem::BoardText(BoardTextItem::from_proto(m))),
                _ => Err(decode_item(&raw, urls::BOARD_TEXT)),
            };
        }
        if str_eq(raw.type_url.as_str(), type_url(urls::BOARD_TEXT_BOX).as_str()) {
            return match raw.value {
                proto::AnyValue::BoardTextBox(m) => Ok(EditablePcbItem::BoardTextBox(BoardTextBoxItem::from_proto(m))),
                _ => Err(decode_item(&raw, urls::BOARD_TEXT_BOX)),
            };
        }
        if str_eq(raw.type_url.as_str(), type_url(urls::FIELD).as_str()) {
            return match raw.value {
                proto::AnyValue::Field(m) => Ok(EditablePcbItem::Field(FieldItem::from_proto(m))),
                _ => Err(decode_item(&raw, urls::FIELD)),
            };
        }
        if str_eq(raw.type_url.as_str(), type_url(urls::ZONE).as_str()) {
            return match raw.value {
                proto::AnyValue::Zone(m) => Ok(EditablePcbItem::Zone(ZoneItem::from_proto(m))),
                _ => Err(decode_item(&raw, urls::ZONE)),
            };
        }
        if str_eq(raw.type_url.as_str(), type_url(urls::DIMENSION).as_str()) {
            return match raw.value {
                proto::AnyValue::Dimension(m) => Ok(EditablePcbItem::Dimension(DimensionItem::from_proto(m))),
                _ => Err(decode_item(&raw, urls::DIMENSION)),
            };
        }
        if str_eq(raw.type_url.as_str(), type_url(urls::GROUP).as_str()) {
            return match raw.value {
                proto::AnyValue::Group(m) => Ok(EditablePcbItem::Group(GroupItem::from_proto(m))),
                _ => Err(decode_item(&raw, urls::GROUP)),
            };
        }
        if str_eq(raw.type_url.as_str(), type_url(urls::REFERENCE_IMAGE).as_str()) {
            return match raw.value {
                proto::AnyValue::ReferenceImage(m) => Ok(EditablePcbItem::ReferenceImage(ReferenceImageItem::from_proto(m))),
                _ => Err(decode_item(&raw, urls::REFERENCE_IMAGE)),
            };
        }
        if str_eq(raw.type_url.as_str(), type_url(urls::BARCODE).as_str()) {
            return match raw.value {
                proto::AnyValue::Barcode(m) => Ok(EditablePcbItem::Barcode(BarcodeItem::from_proto(m))),
                _ => Err(decode_item(&raw, urls::BARCODE)),
            };
        }
        Ok(EditablePcbItem::Unknown(RawPcbItem { raw }))
    }

    /// Converts the item into a payload.
    pub fn into_any(self) -> (r: proto::Any)
        ensures
            any_of(self, r),
    {
        match self {
            EditablePcbItem::Track(item) => proto::Any {
                type_url: type_url(urls::TRACK),
                value: proto::AnyValue::Track(item.into_proto()),
            },
            EditablePcbItem::Arc(item) => proto::Any {
                type_url: type_url(urls::ARC),
                value: proto::AnyValue::Arc(item.into_proto()),
            },
            EditablePcbItem::Via(item) => proto::Any {
                type_url: type_url(urls::VIA),
                value: proto::AnyValue::Via(item.into_proto()),
            },
            EditablePcbItem::FootprintInstance(item) => proto::Any {
                type_url: type_url(urls::FOOTPRINT_INSTANCE),
                value: proto::AnyValue::FootprintInstance(item.into_proto()),
            },
            EditablePcbItem::Pad(item) => proto::Any {
                type_url: type_url(urls::PAD),
                value: proto::AnyValue::Pad(item.into_proto()),
            },
            EditablePcbItem::BoardGraphicShape(item) => proto::Any {
                type_url: type_url(urls::BOARD_GRAPHIC_SHAPE),
                value: proto::AnyValue::BoardGraphicShape(item.into_proto()),
            },
            EditablePcbItem::BoardText(item) => proto::Any {
                type_url: type_url(urls::BOARD_TEXT),
                value: proto::AnyValue::BoardText(item.into_proto()),
            },
            EditablePcbItem::BoardTextBox(item) => proto::Any {
                type_url: type_url(urls::BOARD_TEXT_BOX),
                value: proto::AnyValue::BoardTextBox(item.into_proto()),
            },
            EditablePcbItem::Field(item) => proto::Any {
                type_url: type_url(urls::FIELD),
                value: proto::AnyValue::Field(item.into_proto()),
            },
            EditablePcbItem::Zone(item) => proto::Any {
                type_url: type_url(urls::ZONE),
                value: proto::AnyValue::Zone(item.into_proto()),
            },
            EditablePcbItem::Dimension(item) => proto::Any {
                type_url: type_url(urls::DIMENSION),
                value: proto::AnyValue::Dimension(item.into_proto()),
            },
            EditablePcbItem::Group(item) => proto::Any {
                type_url: type_url(urls::GROUP),
                value: proto::AnyValue::Group(item.into_proto()),
            },
            EditablePcbItem::ReferenceImage(item) => proto::Any {
                type_url: type_url(urls::REFERENCE_IMAGE),
                value: proto::AnyValue::ReferenceImage(item.into_proto()),
            },
            EditablePcbItem::Barcode(item) => proto::Any {
                type_url: type_url(urls::BARCODE),
                value: proto::AnyValue::Barcode(item.into_proto()),
            },
            EditablePcbItem::Unknown(item) => item.raw,
        }
    }

    /// A payload of a copy of the item: the type URL of its kind and a copy
    /// of its message, or, for an item of another type, a copy of its
    /// payload.
    pub fn as_any(&self) -> (r: proto::Any)
        ensures
            any_kind_of(*self, r),
    {
        match self {
            EditablePcbItem::Track(item) => proto::Any {
                type_url: type_url(urls::TRACK),
                value: proto::AnyValue::Track(item.proto().clone()),
            },
            EditablePcbItem::Arc(item) => proto::Any {
                type_url: type_url(urls::ARC),
                value: proto::AnyValue::Arc(item.proto().clone()),
            },
            EditablePcbItem::Via(item) => proto::Any {
                type_url: type_url(urls::VIA),
                value: proto::AnyValue::Via(item.proto().clone()),
            },
            EditablePcbItem::FootprintInstance(item) => proto::Any {
                type_url: type_url(urls::FOOTPRINT_INSTANCE),
                value: proto::AnyValue::FootprintInstance(copy_footprint_instance(item.proto())),
            },
            EditablePcbItem::Pad(item) => proto::Any {
                type_url: type_url(urls::PAD),
                value: proto::AnyValue::Pad(item.proto().clone()),
            },
            EditablePcbItem::BoardGraphicShape(item) => proto::Any {
                type_url: type_url(urls::BOARD_GRAPHIC_SHAPE),
                value: proto::AnyValue::BoardGraphicShape(item.proto().clone()),
            },
            EditablePcbItem::BoardText(item) => proto::Any {
                type_url: type_url(urls::BOARD_TEXT),
                value: proto::AnyValue::BoardText(item.proto().clone()),
            },
            EditablePcbItem::BoardTextBox(item) => proto::Any {
                type_url: type_url(urls::BOARD_TEXT_BOX),
                value: proto::AnyValue::BoardTextBox(item.proto().clone()),
            },
            EditablePcbItem::Field(item) => proto::Any {
                type_url: type_url(urls::FIELD),
                value: proto::AnyValue::Field(item.proto().clone()),
            },
            EditablePcbItem::Zone(item) => proto::Any {
                type_url: type_url(urls::ZONE),
                value: proto::AnyValue::Zone(item.proto().clone()),
            },
            EditablePcbItem::Dimension(item) => proto::Any {
                type_url: type_url(urls::DIMENSION),
                value: proto::AnyValue::Dimension(item.proto().clone()),
            },
            EditablePcbItem::Group(item) => proto::Any {
                type_url: type_url(urls::GROUP),
                value: proto::AnyValue::Group(item.proto().clone()),
            },
            EditablePcbItem::ReferenceImage(item) => proto::Any {
                type_url: type_url(urls::REFERENCE_IMAGE),
                value: proto::AnyValue::ReferenceImage(item.proto().clone()),
            },
            EditablePcbItem::Barcode(item) => proto::Any {
                type_url: type_url(urls::BARCODE),
                value: proto::AnyValue::Barcode(item.proto().clone()),
            },
            EditablePcbItem::Unknown(item) => copy_any(&item.raw),
        }
    }

    /// The item's kind.
    pub fn kind(&self) -> (r: EditablePcbItemKind)
        ensures
            r == kind_of(*self),
    {
        match self {
            EditablePcbItem::Track(_) => EditablePcbItemKind::Track,
            EditablePcbItem::Arc(_) => EditablePcbItemKind::Arc,
            EditablePcbItem::Via(_) => EditablePcbItemKind::Via,
            EditablePcbItem::FootprintInstance(_) => EditablePcbItemKind::FootprintInstance,
            EditablePcbItem::Pad(_) => EditablePcbItemKind::Pad,
            EditablePcbItem::BoardGraphicShape(_) => EditablePcbItemKind::BoardGraphicShape,
            EditablePcbItem::BoardText(_) => EditablePcbItemKind::BoardText,
            EditablePcbItem::BoardTextBox(_) => EditablePcbItemKind::BoardTextBox,
            EditablePcbItem::Field(_) => EditablePcbItemKind::Field,
            EditablePcbItem::Zone(_) => EditablePcbItemKind::Zone,
            EditablePcbItem::Dimension(_) => EditablePcbItemKind::Dimension,
            EditablePcbItem::Group(_) => EditablePcbItemKind::Group,
            EditablePcbItem::ReferenceImage(_) => EditablePcbItemKind::ReferenceImage,
            EditablePcbItem::Barcode(_) => EditablePcbItemKind::Barcode,
            EditablePcbItem::Unknown(_) => EditablePcbItemKind::Unknown,
        }
    }

    /// The item's id, when its message has one; a field (whose id is a field
    /// id, not an item id) and an item of another type have none.
    pub fn id(&self) -> (r: Option<&str>)
        ensures
            opt_str(r) == item_id_of(*self),
    {
        match self {
            EditablePcbItem::Track(item) => item.id(),
            EditablePcbItem::Arc(item) => item.id(),
            EditablePcbItem::Via(item) => item.id(),
            EditablePcbItem::FootprintInstance(item) => item.id(),
            EditablePcbItem::Pad(item) => item.id(),
            EditablePcbItem::BoardGraphicShape(item) => item.id(),
            EditablePcbItem::BoardText(item) => item.id(),
            EditablePcbItem::BoardTextBox(item) => item.id(),
            EditablePcbItem::Field(_) => None,
            EditablePcbItem::Zone(item) => item.id(),
            EditablePcbItem::Dimension(item) => item.id(),
            EditablePcbItem::Group(item) => item.id(),
            EditablePcbItem::ReferenceImage(item) => item.id(),
            EditablePcbItem::Barcode(item) => item.id(),
            EditablePcbItem::Unknown(_) => None,
        }
    }

    /// The layers the item is on.
    pub fn layer_set(&self) -> (r: LayerSet)
        ensures
            layer_set_of(*self, r),
    {
        match self {
            EditablePcbItem::Track(item) => LayerSet::Single(item.layer_id()),
            EditablePcbItem::Arc(item) => LayerSet::Single(item.layer_id()),
            EditablePcbItem::Via(_) => LayerSet::Padstack,
            EditablePcbItem::FootprintInstance(item) => LayerSet::Single(item.layer_id()),
            EditablePcbItem::Pad(_) => LayerSet::Padstack,
            EditablePcbItem::BoardGraphicShape(item) => LayerSet::Single(item.layer_id()),
            EditablePcbItem::BoardText(item) => LayerSet::Single(item.layer_id()),
            EditablePcbItem::BoardTextBox(item) => LayerSet::Single(item.layer_id()),
            EditablePcbItem::Field(item) => match item.text() {
                Some(text) => LayerSet::Single(text.layer),
                None => LayerSet::NoLayer,
            },
            EditablePcbItem::Zone(item) => {
                let layers = item.layer_ids();
                let mut copy: Vec<i32> = Vec::new();
                let mut i: usize = 0;
                while i < layers.len()
                    invariant
                        i <= layers@.len(),
                        copy@ == layers@.take(i as int),
                    decreases layers@.len() - i,
                {
                    copy.push(layers[i]);
                    assert(layers@.take(i + 1) =~= layers@.take(i as int).push(layers@[i as int]));
                    i = i + 1;
                }
                assert(layers@.take(layers@.len() as int) =~= layers@);
                LayerSet::Multi(copy)
            },
            EditablePcbItem::Dimension(item) => LayerSet::Single(item.layer_id()),
            EditablePcbItem::Group(_) => LayerSet::NoLayer,
            EditablePcbItem::ReferenceImage(item) => LayerSet::Single(item.layer_id()),
            EditablePcbItem::Barcode(item) => LayerSet::Single(item.layer_id()),
            EditablePcbItem::Unknown(_) => LayerSet::NoLayer,
        }
    }

    /// Sets the layer of a single-layer item; fails for an item whose layers
    /// are given otherwise, and for a field without board text.
    pub fn set_layer_id(&mut self, layer_id: i32) -> (r: Result<(), KiCadError>)
        ensures
            set_layer_result(*old(self), *final(self), layer_id, r),
    {
        let mut taken = EditablePcbItem::Unknown(
            RawPcbItem {
                raw: proto::Any { type_url: String::new(), value: proto::AnyValue::Encoded(Vec::new()) },
            },
        );
        std::mem::swap(self, &mut taken);
        let (result, item) = match taken {
            EditablePcbItem::Track(mut item) => {
                item.set_layer_id(layer_id);
                (Ok(()), EditablePcbItem::Track(item))
            },
            EditablePcbItem::Arc(mut item) => {
                item.set_layer_id(layer_id);
                (Ok(()), EditablePcbItem::Arc(item))
            },
            EditablePcbItem::Via(item) => (unsupported_set_layer("via"), EditablePcbItem::Via(item)),
            EditablePcbItem::FootprintInstance(mut item) => {
                item.set_layer_id(layer_id);
                (Ok(()), EditablePcbItem::FootprintInstance(item))
            },
            EditablePcbItem::Pad(item) => (unsupported_set_layer("pad"), EditablePcbItem::Pad(item)),
            EditablePcbItem::BoardGraphicShape(mut item) => {
                item.set_layer_id(layer_id);
                (Ok(()), EditablePcbItem::BoardGraphicShape(item))
            },
            EditablePcbItem::BoardText(mut item) => {
                item.set_layer_id(layer_id);
                (Ok(()), EditablePcbItem::BoardText(item))
            },
            EditablePcbItem::BoardTextBox(mut item) => {
                item.set_layer_id(layer_id);
                (Ok(()), EditablePcbItem::BoardTextBox(item))
            },
            EditablePcbItem::Field(mut item) => {
                let r = item.set_layer_id(layer_id);
                (r, EditablePcbItem::Field(item))
            },
            EditablePcbItem::Zone(item) => (unsupported_set_layer("zone"), EditablePcbItem::Zone(item)),
            EditablePcbItem::Dimension(mut item) => {
                item.set_layer_id(layer_id);
                (Ok(()), EditablePcbItem::Dimension(item))
            },
            EditablePcbItem::Group(item) => (unsupported_set_layer("group"), EditablePcbItem::Group(item)),
            EditablePcbItem::ReferenceImage(mut item) => {
                item.set_layer_id(layer_id);
                (Ok(()), EditablePcbItem::ReferenceImage(item))
            },
            EditablePcbItem::Barcode(mut item) => {
                item.set_layer_id(layer_id);
                (Ok(()), EditablePcbItem::Barcode(item))
            },
            EditablePcbItem::Unknown(item) => (unsupported_set_layer("unknown"), EditablePcbItem::Unknown(item)),
        };
        *self = item;
        result
    }

    /// Replaces the layers of a zone; fails for any other item.
    pub fn set_layer_ids(&mut self, layer_ids: Vec<i32>) -> (r: Result<(), KiCadError>)
        ensures
            match *old(self) {
                EditablePcbItem::Zone(i) => r is Ok && (*final(self) matches EditablePcbItem::Zone(j)
                    && j@ == (proto::Zone { layers: layer_ids, ..i@ })),
                _ => *final(self) == *old(self) && (r matches Err(KiCadError::InvalidResponse { reason })
                    && reason@ == "set_layer_ids is not supported for "@ + kind_name(
                    kind_of(*old(self)),
                ) + " items"@),
            },
    {
        match self {
            EditablePcbItem::Zone(item) => {
                item.set_layer_ids(layer_ids);
                Ok(())
            },
            _ => {
                let mut reason = owned("set_layer_ids is not supported for ");
                push_str(&mut reason, kind_debug_name(self.kind()));
                push_str(&mut reason, " items");
                Err(KiCadError::InvalidResponse { reason })
            },
        }
    }
}

// ---------------------------------------------------------------------------
// What the accessors report.
// ---------------------------------------------------------------------------
/// Whether `a` is a payload of the kind of the editable item `e`: the type
/// URL of its kind and a message of that kind, or, for an item of another
/// type, its payload's type URL.
pub open spec fn any_kind_of(e: EditablePcbItem, a: proto::Any) -> bool {
    match e {
        EditablePcbItem::Track(_) => a.type_url@ == type_url_spec(urls::TRACK@) && a.value is Track,
        EditablePcbItem::Arc(_) => a.type_url@ == type_url_spec(urls::ARC@) && a.value is Arc,
        EditablePcbItem::Via(_) => a.type_url@ == type_url_spec(urls::VIA@) && a.value is Via,
        EditablePcbItem::FootprintInstance(_) => a.type_url@ == type_url_spec(urls::FOOTPRINT_INSTANCE@) && a.value is FootprintInstance,
        EditablePcbItem::Pad(_) => a.type_url@ == type_url_spec(urls::PAD@) && a.value is Pad,
        EditablePcbItem::BoardGraphicShape(_) => a.type_url@ == type_url_spec(urls::BOARD_GRAPHIC_SHAPE@) && a.value is BoardGraphicShape,
        EditablePcbItem::BoardText(_) => a.type_url@ == type_url_spec(urls::BOARD_TEXT@) && a.value is BoardText,
        EditablePcbItem::BoardTextBox(_) => a.type_url@ == type_url_spec(urls::BOARD_TEXT_BOX@) && a.value is BoardTextBox,
        EditablePcbItem::Field(_) => a.type_url@ == type_url_spec(urls::FIELD@) && a.value is Field,
        EditablePcbItem::Zone(_) => a.type_url@ == type_url_spec(urls::ZONE@) && a.value is Zone,
        EditablePcbItem::Dimension(_) => a.type_url@ == type_url_spec(urls::DIMENSION@) && a.value is Dimension,
        EditablePcbItem::Group(_) => a.type_url@ == type_url_spec(urls::GROUP@) && a.value is Group,
        EditablePcbItem::ReferenceImage(_) => a.type_url@ == type_url_spec(urls::REFERENCE_IMAGE@) && a.value is ReferenceImage,
        EditablePcbItem::Barcode(_) => a.type_url@ == type_url_spec(urls::BARCODE@) && a.value is Barcode,
        EditablePcbItem::Unknown(raw) => a.type_url@ == raw.raw.type_url@,
    }
}

/// Whether `b` is present exactly when `a` is, and then a clone of it.
pub open spec fn opt_cloned<T: Clone>(a: Option<T>, b: Option<T>) -> bool {
    match a {
        Some(x) => b matches Some(y) && cloned(x, y),
        None => b is None,
    }
}

/// Whether `r` is a copy of the payload `a`: the same type URL, and a copy
/// of its contents.
pub open spec fn any_copy_of(a: proto::Any, r: proto::Any) -> bool
    decreases a,
{
    &&& r.type_url@ == a.type_url@
    &&& value_copy_of(a.value, r.value)
}

/// Whether `r` is a copy of the payload contents `v`: the same bytes, or the
/// same kind of message holding a clone of `v`'s message (a footprint
/// instance copied field by field).
pub open spec fn value_copy_of(v: proto::AnyValue, r: proto::AnyValue) -> bool
    decreases v,
{
    match v {
        proto::AnyValue::Encoded(b) => r matches proto::AnyValue::Encoded(c) && c@ == b@,
        proto::AnyValue::Track(m) => r matches proto::AnyValue::Track(n) && cloned(m, n),
        proto::AnyValue::Arc(m) => r matches proto::AnyValue::Arc(n) && cloned(m, n),
        proto::AnyValue::Via(m) => r matches proto::AnyValue::Via(n) && cloned(m, n),
        proto::AnyValue::FootprintInstance(f) => r matches proto::AnyValue::FootprintInstance(g)
            && instance_copy_of(f, g),
        proto::AnyValue::Pad(m) => r matches proto::AnyValue::Pad(n) && cloned(m, n),
        proto::AnyValue::BoardGraphicShape(m) => r matches proto::AnyValue::BoardGraphicShape(n)
            && cloned(m, n),
        proto::AnyValue::BoardText(m) => r matches proto::AnyValue::BoardText(n) && cloned(m, n),
        proto::AnyValue::BoardTextBox(m) => r matches proto::AnyValue::BoardTextBox(n) && cloned(
            m,
            n,
        ),
        proto::AnyValue::Field(m) => r matches proto::AnyValue::Field(n) && cloned(m, n),
        proto::AnyValue::Zone(m) => r matches proto::AnyValue::Zone(n) && cloned(m, n),
        proto::AnyValue::Dimension(m) => r matches proto::AnyValue::Dimension(n) && cloned(m, n),
        proto::AnyValue::Group(m) => r matches proto::AnyValue::Group(n) && cloned(m, n),
        proto::AnyValue::ReferenceImage(m) => r matches proto::AnyValue::ReferenceImage(n)
            && cloned(m, n),
        proto::AnyValue::Barcode(m) => r matches proto::AnyValue::Barcode(n) && cloned(m, n),
    }
}

/// Whether `g` is a copy of the footprint definition `f`: the same anchor,
/// and a copy of each of its items, in order.
pub open spec fn footprint_copy_of(f: proto::Footprint, g: proto::Footprint) -> bool
    decreases f,
{
    &&& g.anchor == f.anchor
    &&& g.items@.len() == f.items@.len()
    &&& forall|j: int|
        0 <= j < f.items@.len() ==> any_copy_of(#[trigger] f.items@[j], g.items@[j])
}

/// Whether `g` is a copy of the footprint instance `f`: plain fields and
/// strings equal, the other messages cloned, and the definition copied.
pub open spec fn instance_copy_of(f: proto::FootprintInstance, g: proto::FootprintInstance) -> bool
    decreases f,
{
    &&& opt_cloned(f.id, g.id)
    &&& g.position == f.position
    &&& g.orientation == f.orientation
    &&& g.layer == f.layer
    &&& g.locked == f.locked
    &&& match f.definition {
        Some(d) => g.definition matches Some(e) && footprint_copy_of(d, e),
        None => g.definition is None,
    }
    &&& opt_cloned(f.reference_field, g.reference_field)
    &&& opt_cloned(f.value_field, g.value_field)
    &&& opt_cloned(f.datasheet_field, g.datasheet_field)
    &&& opt_cloned(f.description_field, g.description_field)
    &&& g.attributes == f.attributes
    &&& g.overrides == f.overrides
    &&& opt_cloned(f.symbol_path, g.symbol_path)
    &&& g.symbol_sheet_name@ == f.symbol_sheet_name@
    &&& g.symbol_sheet_filename@ == f.symbol_sheet_filename@
    &&& g.symbol_footprint_filters@ == f.symbol_footprint_filters@
}

/// Copies a payload: its type URL, and its contents.
fn copy_any(a: &proto::Any) -> (r: proto::Any)
    ensures
        r.type_url@ == a.type_url@,
        any_copy_of(*a, r),
    decreases a,
{
    proto::Any { type_url: copy_string(&a.type_url), value: copy_any_value(&a.value) }
}

fn copy_any_value(v: &proto::AnyValue) -> (r: proto::AnyValue)
    ensures
        value_copy_of(*v, r),
    decreases v,
{
    match v {
        proto::AnyValue::Encoded(bytes) => proto::AnyValue::Encoded(bytes.clone()),
        proto::AnyValue::Track(m) => proto::AnyValue::Track(m.clone()),
        proto::AnyValue::Arc(m) => proto::AnyValue::Arc(m.clone()),
        proto::AnyValue::Via(m) => proto::AnyValue::Via(m.clone()),
        proto::AnyValue::FootprintInstance(f) => proto::AnyValue::FootprintInstance(copy_footprint_instance(f)),
        proto::AnyValue::Pad(m) => proto::AnyValue::Pad(m.clone()),
        proto::AnyValue::BoardGraphicShape(m) => proto::AnyValue::BoardGraphicShape(m.clone()),
        proto::AnyValue::BoardText(m) => proto::AnyValue::BoardText(m.clone()),
        proto::AnyValue::BoardTextBox(m) => proto::AnyValue::BoardTextBox(m.clone()),
        proto::AnyValue::Field(m) => proto::AnyValue::Field(m.clone()),
        proto::AnyValue::Zone(m) => proto::AnyValue::Zone(m.clone()),
        proto::AnyValue::Dimension(m) => proto::AnyValue::Dimension(m.clone()),
        proto::AnyValue::Group(m) => proto::AnyValue::Group(m.clone()),
        proto::AnyValue::ReferenceImage(m) => proto::AnyValue::ReferenceImage(m.clone()),
        proto::AnyValue::Barcode(m) => proto::AnyValue::Barcode(m.clone()),
    }
}

fn copy_footprint(f: &proto::Footprint) -> (r: proto::Footprint)
    ensures
        footprint_copy_of(*f, r),
    decreases f,
{
    let mut items: Vec<proto::Any> = Vec::new();
    let n = f.items.len();
    let mut i: usize = 0;
    while i < n
        invariant
            n == f.items@.len(),
            i <= n,
            items@.len() == i,
            forall|j: int| 0 <= j < i ==> any_copy_of(#[trigger] f.items@[j], items@[j]),
        decreases n - i,
    {
        assert(decreases_to!(f => f.items@[i as int]));
        items.push(copy_any(&f.items[i]));
        i = i + 1;
    }
    proto::Footprint { anchor: f.anchor, items }
}

fn copy_footprint_instance(f: &proto::FootprintInstance) -> (r: proto::FootprintInstance)
    ensures
        instance_copy_of(*f, r),
    decreases f,
{
    let definition = match &f.definition {
        Some(d) => Some(copy_footprint(d)),
        None => None,
    };
    proto::FootprintInstance {
        id: f.id.clone(),
        position: f.position,
        orientation: f.orientation,
        layer: f.layer,
        locked: f.locked,
        definition,
        reference_field: f.reference_field.clone(),
        value_field: f.value_field.clone(),
        datasheet_field: f.datasheet_field.clone(),
        description_field: f.description_field.clone(),
        attributes: f.attributes,
        overrides: f.overrides,
        symbol_path: f.symbol_path.clone(),
        symbol_sheet_name: copy_string(&f.symbol_sheet_name),
        symbol_sheet_filename: copy_string(&f.symbol_sheet_filename),
        symbol_footprint_filters: copy_string(&f.symbol_footprint_filters),
    }
}

/// The kind of an editable item.
pub open spec fn kind_of(e: EditablePcbItem) -> EditablePcbItemKind {
    match e {
        EditablePcbItem::Track(_) => EditablePcbItemKind::Track,
        EditablePcbItem::Arc(_) => EditablePcbItemKind::Arc,
        EditablePcbItem::Via(_) => EditablePcbItemKind::Via,
        EditablePcbItem::FootprintInstance(_) => EditablePcbItemKind::FootprintInstance,
        EditablePcbItem::Pad(_) => EditablePcbItemKind::Pad,
        EditablePcbItem::BoardGraphicShape(_) => EditablePcbItemKind::BoardGraphicShape,
        EditablePcbItem::BoardText(_) => EditablePcbItemKind::BoardText,
        EditablePcbItem::BoardTextBox(_) => EditablePcbItemKind::BoardTextBox,
        EditablePcbItem::Field(_) => EditablePcbItemKind::Field,
        EditablePcbItem::Zone(_) => EditablePcbItemKind::Zone,
        EditablePcbItem::Dimension(_) => EditablePcbItemKind::Dimension,
        EditablePcbItem::Group(_) => EditablePcbItemKind::Group,
        EditablePcbItem::ReferenceImage(_) => EditablePcbItemKind::ReferenceImage,
        EditablePcbItem::Barcode(_) => EditablePcbItemKind::Barcode,
        EditablePcbItem::Unknown(_) => EditablePcbItemKind::Unknown,
    }
}

/// The name a kind is shown with (its `Debug` form).
pub open spec fn kind_name(k: EditablePcbItemKind) -> Seq<char> {
    match k {
        EditablePcbItemKind::Track => "Track"@,
        EditablePcbItemKind::Arc => "Arc"@,
        EditablePcbItemKind::Via => "Via"@,
        EditablePcbItemKind::FootprintInstance => "FootprintInstance"@,
        EditablePcbItemKind::Pad => "Pad"@,
        EditablePcbItemKind::BoardGraphicShape => "BoardGraphicShape"@,
        EditablePcbItemKind::BoardText => "BoardText"@,
        EditablePcbItemKind::BoardTextBox => "BoardTextBox"@,
        EditablePcbItemKind::Field => "Field"@,
        EditablePcbItemKind::Zone => "Zone"@,
        EditablePcbItemKind::Dimension => "Dimension"@,
        EditablePcbItemKind::Group => "Group"@,
        EditablePcbItemKind::ReferenceImage => "ReferenceImage"@,
        EditablePcbItemKind::Barcode => "Barcode"@,
        EditablePcbItemKind::Unknown => "Unknown"@,
    }
}

/// Names a kind as its `Debug` form does.
pub fn kind_debug_name(k: EditablePcbItemKind) -> (r: &'static str)
    ensures
        r@ == kind_name(k),
{
    match k {
        EditablePcbItemKind::Track => "Track",
        EditablePcbItemKind::Arc => "Arc",
        EditablePcbItemKind::Via => "Via",
        EditablePcbItemKind::FootprintInstance => "FootprintInstance",
        EditablePcbItemKind::Pad => "Pad",
        EditablePcbItemKind::BoardGraphicShape => "BoardGraphicShape",
        EditablePcbItemKind::BoardText => "BoardText",
        EditablePcbItemKind::BoardTextBox => "BoardTextBox",
        EditablePcbItemKind::Field => "Field",
        EditablePcbItemKind::Zone => "Zone",
        EditablePcbItemKind::Dimension => "Dimension",
        EditablePcbItemKind::Group => "Group",
        EditablePcbItemKind::ReferenceImage => "ReferenceImage",
        EditablePcbItemKind::Barcode => "Barcode",
        EditablePcbItemKind::Unknown => "Unknown",
    }
}

/// The item id of an editable item, if its message has one.
pub open spec fn item_id_of(e: EditablePcbItem) -> Option<Seq<char>> {
    match e {
        EditablePcbItem::Track(item) => opt_kiid_value(item@.id),
        EditablePcbItem::Arc(item) => opt_kiid_value(item@.id),
        EditablePcbItem::Via(item) => opt_kiid_value(item@.id),
        EditablePcbItem::FootprintInstance(item) => opt_kiid_value(item@.id),
        EditablePcbItem::Pad(item) => opt_kiid_value(item@.id),
        EditablePcbItem::BoardGraphicShape(item) => opt_kiid_value(item@.id),
        EditablePcbItem::BoardText(item) => opt_kiid_value(item@.id),
        EditablePcbItem::BoardTextBox(item) => opt_kiid_value(item@.id),
        EditablePcbItem::Field(_) => None,
        EditablePcbItem::Zone(item) => opt_kiid_value(item@.id),
        EditablePcbItem::Dimension(item) => opt_kiid_value(item@.id),
        EditablePcbItem::Group(item) => opt_kiid_value(item@.id),
        EditablePcbItem::ReferenceImage(item) => opt_kiid_value(item@.id),
        EditablePcbItem::Barcode(item) => opt_kiid_value(item@.id),
        EditablePcbItem::Unknown(_) => None,
    }
}

/// Whether `s` is the layer set of `e`: one layer for the single-layer
/// items (a field's is its text's, when it has text); the padstack for vias
/// and pads; a zone's layers; none for groups and other items.
pub open spec fn layer_set_of(e: EditablePcbItem, s: LayerSet) -> bool {
    match e {
        EditablePcbItem::Track(item) => s == LayerSet::Single(item@.layer),
        EditablePcbItem::Arc(item) => s == LayerSet::Single(item@.layer),
        EditablePcbItem::Via(_) => s == LayerSet::Padstack,
        EditablePcbItem::FootprintInstance(item) => s == LayerSet::Single(item@.layer),
        EditablePcbItem::Pad(_) => s == LayerSet::Padstack,
        EditablePcbItem::BoardGraphicShape(item) => s == LayerSet::Single(item@.layer),
        EditablePcbItem::BoardText(item) => s == LayerSet::Single(item@.layer),
        EditablePcbItem::BoardTextBox(item) => s == LayerSet::Single(item@.layer),
        EditablePcbItem::Field(item) => match item@.text {
            Some(t) => s == LayerSet::Single(t.layer),
            None => s == LayerSet::NoLayer,
        },
        EditablePcbItem::Zone(item) => s matches LayerSet::Multi(v) && v@ == item@.layers@,
        EditablePcbItem::Dimension(item) => s == LayerSet::Single(item@.layer),
        EditablePcbItem::Group(_) => s == LayerSet::NoLayer,
        EditablePcbItem::ReferenceImage(item) => s == LayerSet::Single(item@.layer),
        EditablePcbItem::Barcode(item) => s == LayerSet::Single(item@.layer),
        EditablePcbItem::Unknown(_) => s == LayerSet::NoLayer,
    }
}

/// The error text for setting the layer of an item of the kind `kind`.
pub open spec fn unsupported_set_layer_text(kind: Seq<char>) -> Seq<char> {
    "set_layer_id is not supported for "@ + kind + " items"@
}

/// Whether setting the layer of `old` to `layer_id` gave `new` and `r`.
pub open spec fn set_layer_result(
    old: EditablePcbItem,
    new: EditablePcbItem,
    layer_id: i32,
    r: Result<(), KiCadError>,
) -> bool {
    match old {
        EditablePcbItem::Track(i) => r is Ok && (new matches EditablePcbItem::Track(j) && j@ == (proto::Track {
            layer: layer_id,
            ..i@
        })),
        EditablePcbItem::Arc(i) => r is Ok && (new matches EditablePcbItem::Arc(j) && j@ == (proto::Arc {
            layer: layer_id,
            ..i@
        })),
        EditablePcbItem::Via(_) => new == old && (r matches Err(KiCadError::InvalidResponse { reason })
            && reason@ == unsupported_set_layer_text("via"@)),
        EditablePcbItem::FootprintInstance(i) => r is Ok && (new matches EditablePcbItem::FootprintInstance(j) && j@ == (proto::FootprintInstance {
            layer: layer_id,
            ..i@
        })),
        EditablePcbItem::Pad(_) => new == old && (r matches Err(KiCadError::InvalidResponse { reason })
            && reason@ == unsupported_set_layer_text("pad"@)),
        EditablePcbItem::BoardGraphicShape(i) => r is Ok && (new matches EditablePcbItem::BoardGraphicShape(j) && j@ == (proto::BoardGraphicShape {
            layer: layer_id,
            ..i@
        })),
        EditablePcbItem::BoardText(i) => r is Ok && (new matches EditablePcbItem::BoardText(j) && j@ == (proto::BoardText {
            layer: layer_id,
            ..i@
        })),
        EditablePcbItem::BoardTextBox(i) => r is Ok && (new matches EditablePcbItem::BoardTextBox(j) && j@ == (proto::BoardTextBox {
            layer: layer_id,
            ..i@
        })),
        EditablePcbItem::Field(i) => match i@.text {
            Some(t) => r is Ok && (new matches EditablePcbItem::Field(j) && j@ == (proto::Field {
                text: Some(proto::BoardText { layer: layer_id, ..t }),
                ..i@
            })),
            None => (new matches EditablePcbItem::Field(j) && j@ == i@) && (r matches Err(
                KiCadError::InvalidResponse { reason },
            ) && reason@ == "field has no nested board text; cannot set layer"@),
        },
        EditablePcbItem::Zone(_) => new == old && (r matches Err(KiCadError::InvalidResponse { reason })
            && reason@ == unsupported_set_layer_text("zone"@)),
        EditablePcbItem::Dimension(i) => r is Ok && (new matches EditablePcbItem::Dimension(j) && j@ == (proto::Dimension {
            layer: layer_id,
            ..i@
        })),
        EditablePcbItem::Group(_) => new == old && (r matches Err(KiCadError::InvalidResponse { reason })
            && reason@ == unsupported_set_layer_text("group"@)),
        EditablePcbItem::ReferenceImage(i) => r is Ok && (new matches EditablePcbItem::ReferenceImage(j) && j@ == (proto::ReferenceImage {
            layer: layer_id,
            ..i@
        })),
        EditablePcbItem::Barcode(i) => r is Ok && (new matches EditablePcbItem::Barcode(j) && j@ == (proto::Barcode {
            layer: layer_id,
            ..i@
        })),
        EditablePcbItem::Unknown(_) => new == old && (r matches Err(KiCadError::InvalidResponse { reason })
            && reason@ == unsupported_set_layer_text("unknown"@)),
    }
}

// ---------------------------------------------------------------------------
// Helpers.
// ---------------------------------------------------------------------------
/// Converts a model point to an API point.
pub(crate) fn vector2_to_proto(value: Vector2Nm) -> (r: proto::Vector2)
    ensures
        r == vector_proto(value),
{
    proto::Vector2 { x_nm: value.x_nm, y_nm: value.y_nm }
}

/// Converts an API point to a model point.
pub(crate) fn vector2_from_proto(value: proto::Vector2) -> (r: Vector2Nm)
    ensures
        r == vector_nm(value),
{
    Vector2Nm { x_nm: value.x_nm, y_nm: value.y_nm }
}

/// The value of an optional item id.
pub(crate) fn kiid_value(kiid: &Option<proto::Kiid>) -> (r: Option<&str>)
    ensures
        opt_str(r) == opt_kiid_value(*kiid),
{
    match kiid {
        Some(id) => Some(id.value.as_str()),
        None => None,
    }
}

/// The failure to set the layer of an item of the kind `item_kind`.
fn unsupported_set_layer(item_kind: &str) -> (r: Result<(), KiCadError>)
    ensures
        r matches Err(KiCadError::InvalidResponse { reason }) && reason@
            == unsupported_set_layer_text(item_kind@),
{
    let mut reason = owned("set_layer_id is not supported for ");
    push_str(&mut reason, item_kind);
    push_str(&mut reason, " items");
    Err(KiCadError::InvalidResponse { reason })
}

impl TryFrom<proto::Any> for EditablePcbItem {
    type Error = KiCadError;

    /// Decodes a payload into an editable item, as [`EditablePcbItem::from_any`].
    fn try_from(value: proto::Any) -> (r: Result<Self, KiCadError>)
        ensures
            editable_of(value, r),
    {
        Self::from_any(value)
    }
}

impl vstd::std_specs::convert::TryFromSpecImpl<proto::Any> for EditablePcbItem {
    /// The decoding is stated by `editable_of`, a relation: the message of a
    /// decoding error is given by its text alone.
    open spec fn obeys_try_from_spec() -> bool {
        false
    }

    open spec fn try_from_spec(v: proto::Any) -> Result<Self, KiCadError> {
        choose|r: Result<Self, KiCadError>| editable_of(v, r)
    }
}

impl From<EditablePcbItem> for proto::Any {
    /// Converts an editable item to its payload, as
    /// [`EditablePcbItem::into_any`].
    fn from(value: EditablePcbItem) -> (r: proto::Any)
        ensures
            any_of(value, r),
    {
        value.into_any()
    }
}

impl vstd::std_specs::convert::FromSpecImpl<EditablePcbItem> for proto::Any {
    /// The payload is stated by `any_of`, a relation: its type URL is given
    /// by its text alone.
    open spec fn obeys_from_spec() -> bool {
        false
    }

    open spec fn from_spec(v: EditablePcbItem) -> proto::Any {
        choose|a: proto::Any| any_of(v, a)
    }
}

// ---------------------------------------------------------------------------
// Laws.
// ---------------------------------------------------------------------------
/// Decoding a payload into an editable item and converting the item back
/// gives the payload again (its type URL and its message).
pub proof fn lemma_payload_round_trip(raw: proto::Any, e: EditablePcbItem)
    requires
        editable_of(raw, Ok(e)),
    ensures
        any_of(e, raw),
{
}

/// The type URLs of the edited item types differ from one another.
pub proof fn lemma_editable_urls_distinct()
    ensures
        type_url_spec(urls::TRACK@) != type_url_spec(urls::ARC@),
        type_url_spec(urls::TRACK@) != type_url_spec(urls::VIA@),
        type_url_spec(urls::TRACK@) != type_url_spec(urls::FOOTPRINT_INSTANCE@),
        type_url_spec(urls::TRACK@) != type_url_spec(urls::PAD@),
        type_url_spec(urls::TRACK@) != type_url_spec(urls::BOARD_GRAPHIC_SHAPE@),
        type_url_spec(urls::TRACK@) != type_url_spec(urls::BOARD_TEXT@),
        type_url_spec(urls::TRACK@) != type_url_spec(urls::BOARD_TEXT_BOX@),
        type_url_spec(urls::TRACK@) != type_url_spec(urls::FIELD@),
        type_url_spec(urls::TRACK@) != type_url_spec(urls::ZONE@),
        type_url_spec(urls::TRACK@) != type_url_spec(urls::DIMENSION@),
        type_url_spec(urls::TRACK@) != type_url_spec(urls::GROUP@),
        type_url_spec(urls::TRACK@) != type_url_spec(urls::REFERENCE_IMAGE@),
        type_url_spec(urls::TRACK@) != type_url_spec(urls::BARCODE@),
        type_url_spec(urls::ARC@) != type_url_spec(urls::VIA@),
        type_url_spec(urls::ARC@) != type_url_spec(urls::FOOTPRINT_INSTANCE@),
        type_url_spec(urls::ARC@) != type_url_spec(urls::PAD@),
        type_url_spec(urls::ARC@) != type_url_spec(urls::BOARD_GRAPHIC_SHAPE@),
        type_url_spec(urls::ARC@) != type_url_spec(urls::BOARD_TEXT@),
        type_url_spec(urls::ARC@) != type_url_spec(urls::BOARD_TEXT_BOX@),
        type_url_spec(urls::ARC@) != type_url_spec(urls::FIELD@),
        type_url_spec(urls::ARC@) != type_url_spec(urls::ZONE@),
        type_url_spec(urls::ARC@) != type_url_spec(urls::DIMENSION@),
        type_url_spec(urls::ARC@) != type_url_spec(urls::GROUP@),
        type_url_spec(urls::ARC@) != type_url_spec(urls::REFERENCE_IMAGE@),
        type_url_spec(urls::ARC@) != type_url_spec(urls::BARCODE@),
        type_url_spec(urls::VIA@) != type_url_spec(urls::FOOTPRINT_INSTANCE@),
        type_url_spec(urls::VIA@) != type_url_spec(urls::PAD@),
        type_url_spec(urls::VIA@) != type_url_spec(urls::BOARD_GRAPHIC_SHAPE@),
        type_url_spec(urls::VIA@) != type_url_spec(urls::BOARD_TEXT@),
        type_url_spec(urls::VIA@) != type_url_spec(urls::BOARD_TEXT_BOX@),
        type_url_spec(urls::VIA@) != type_url_spec(urls::FIELD@),
        type_url_spec(urls::VIA@) != type_url_spec(urls::ZONE@),
        type_url_spec(urls::VIA@) != type_url_spec(urls::DIMENSION@),
        type_url_spec(urls::VIA@) != type_url_spec(urls::GROUP@),
        type_url_spec(urls::VIA@) != type_url_spec(urls::REFERENCE_IMAGE@),
        type_url_spec(urls::VIA@) != type_url_spec(urls::BARCODE@),
        type_url_spec(urls::FOOTPRINT_INSTANCE@) != type_url_spec(urls::PAD@),
        type_url_spec(urls::FOOTPRINT_INSTANCE@) != type_url_spec(urls::BOARD_GRAPHIC_SHAPE@),
        type_url_spec(urls::FOOTPRINT_INSTANCE@) != type_url_spec(urls::BOARD_TEXT@),
        type_url_spec(urls::FOOTPRINT_INSTANCE@) != type_url_spec(urls::BOARD_TEXT_BOX@),
        type_url_spec(urls::FOOTPRINT_INSTANCE@) != type_url_spec(urls::FIELD@),
        type_url_spec(urls::FOOTPRINT_INSTANCE@) != type_url_spec(urls::ZONE@),
        type_url_spec(urls::FOOTPRINT_INSTANCE@) != type_url_spec(urls::DIMENSION@),
        type_url_spec(urls::FOOTPRINT_INSTANCE@) != type_url_spec(urls::GROUP@),
        type_url_spec(urls::FOOTPRINT_INSTANCE@) != type_url_spec(urls::REFERENCE_IMAGE@),
        type_url_spec(urls::FOOTPRINT_INSTANCE@) != type_url_spec(urls::BARCODE@),
        type_url_spec(urls::PAD@) != type_url_spec(urls::BOARD_GRAPHIC_SHAPE@),
        type_url_spec(urls::PAD@) != type_url_spec(urls::BOARD_TEXT@),
        type_url_spec(urls::PAD@) != type_url_spec(urls::BOARD_TEXT_BOX@),
        type_url_spec(urls::PAD@) != type_url_spec(urls::FIELD@),
        type_url_spec(urls::PAD@) != type_url_spec(urls::ZONE@),
        type_url_spec(urls::PAD@) != type_url_spec(urls::DIMENSION@),
        type_url_spec(urls::PAD@) != type_url_spec(urls::GROUP@),
        type_url_spec(urls::PAD@) != type_url_spec(urls::REFERENCE_IMAGE@),
        type_url_spec(urls::PAD@) != type_url_spec(urls::BARCODE@),
        type_url_spec(urls::BOARD_GRAPHIC_SHAPE@) != type_url_spec(urls::BOARD_TEXT@),
        type_url_spec(urls::BOARD_GRAPHIC_SHAPE@) != type_url_spec(urls::BOARD_TEXT_BOX@),
        type_url_spec(urls::BOARD_GRAPHIC_SHAPE@) != type_url_spec(urls::FIELD@),
        type_url_spec(urls::BOARD_GRAPHIC_SHAPE@) != type_url_spec(urls::ZONE@),
        type_url_spec(urls::BOARD_GRAPHIC_SHAPE@) != type_url_spec(urls::DIMENSION@),
        type_url_spec(urls::BOARD_GRAPHIC_SHAPE@) != type_url_spec(urls::GROUP@),
        type_url_spec(urls::BOARD_GRAPHIC_SHAPE@) != type_url_spec(urls::REFERENCE_IMAGE@),
        type_url_spec(urls::BOARD_GRAPHIC_SHAPE@) != type_url_spec(urls::BARCODE@),
        type_url_spec(urls::BOARD_TEXT@) != type_url_spec(urls::BOARD_TEXT_BOX@),
        type_url_spec(urls::BOARD_TEXT@) != type_url_spec(urls::FIELD@),
        type_url_spec(urls::BOARD_TEXT@) != type_url_spec(urls::ZONE@),
        type_url_spec(urls::BOARD_TEXT@) != type_url_spec(urls::DIMENSION@),
        type_url_spec(urls::BOARD_TEXT@) != type_url_spec(urls::GROUP@),
        type_url_spec(urls::BOARD_TEXT@) != type_url_spec(urls::REFERENCE_IMAGE@),
        type_url_spec(urls::BOARD_TEXT@) != type_url_spec(urls::BARCODE@),
        type_url_spec(urls::BOARD_TEXT_BOX@) != type_url_spec(urls::FIELD@),
        type_url_spec(urls::BOARD_TEXT_BOX@) != type_url_spec(urls::ZONE@),
        type_url_spec(urls::BOARD_TEXT_BOX@) != type_url_spec(urls::DIMENSION@),
        type_url_spec(urls::BOARD_TEXT_BOX@) != type_url_spec(urls::GROUP@),
        type_url_spec(urls::BOARD_TEXT_BOX@) != type_url_spec(urls::REFERENCE_IMAGE@),
        type_url_spec(urls::BOARD_TEXT_BOX@) != type_url_spec(urls::BARCODE@),
        type_url_spec(urls::FIELD@) != type_url_spec(urls::ZONE@),
        type_url_spec(urls::FIELD@) != type_url_spec(urls::DIMENSION@),
        type_url_spec(urls::FIELD@) != type_url_spec(urls::GROUP@),
        type_url_spec(urls::FIELD@) != type_url_spec(urls::REFERENCE_IMAGE@),
        type_url_spec(urls::FIELD@) != type_url_spec(urls::BARCODE@),
        type_url_spec(urls::ZONE@) != type_url_spec(urls::DIMENSION@),
        type_url_spec(urls::ZONE@) != type_url_spec(urls::GROUP@),
        type_url_spec(urls::ZONE@) != type_url_spec(urls::REFERENCE_IMAGE@),
        type_url_spec(urls::ZONE@) != type_url_spec(urls::BARCODE@),
        type_url_spec(urls::DIMENSION@) != type_url_spec(urls::GROUP@),
        type_url_spec(urls::DIMENSION@) != type_url_spec(urls::REFERENCE_IMAGE@),
        type_url_spec(urls::DIMENSION@) != type_url_spec(urls::BARCODE@),
        type_url_spec(urls::GROUP@) != type_url_spec(urls::REFERENCE_IMAGE@),
        type_url_spec(urls::GROUP@) != type_url_spec(urls::BARCODE@),
        type_url_spec(urls::REFERENCE_IMAGE@) != type_url_spec(urls::BARCODE@),
{
    reveal_strlit("kiapi.board.types.Track");
    reveal_strlit("kiapi.board.types.Arc");
    reveal_strlit("kiapi.board.types.Via");
    reveal_strlit("kiapi.board.types.FootprintInstance");
    reveal_strlit("kiapi.board.types.Pad");
    reveal_strlit("kiapi.board.types.BoardGraphicShape");
    reveal_strlit("kiapi.board.types.BoardText");
    reveal_strlit("kiapi.board.types.BoardTextBox");
    reveal_strlit("kiapi.board.types.Field");
    reveal_strlit("kiapi.board.types.Zone");
    reveal_strlit("kiapi.board.types.Dimension");
    reveal_strlit("kiapi.board.types.Group");
    reveal_strlit("kiapi.board.types.ReferenceImage");
    reveal_strlit("kiapi.board.types.Barcode");
    reveal_strlit("type.googleapis.com/");
    assert(type_url_spec(urls::TRACK@).len() != type_url_spec(urls::ARC@).len());
    assert(type_url_spec(urls::TRACK@).len() != type_url_spec(urls::VIA@).len());
    assert(type_url_spec(urls::TRACK@).len() != type_url_spec(urls::FOOTPRINT_INSTANCE@).len());
    assert(type_url_spec(urls::TRACK@).len() != type_url_spec(urls::PAD@).len());
    assert(type_url_spec(urls::TRACK@).len() != type_url_spec(urls::BOARD_GRAPHIC_SHAPE@).len());
    assert(type_url_spec(urls::TRACK@).len() != type_url_spec(urls::BOARD_TEXT@).len());
    assert(type_url_spec(urls::TRACK@).len() != type_url_spec(urls::BOARD_TEXT_BOX@).len());
    assert(type_url_spec(urls::TRACK@)[38] != type_url_spec(urls::FIELD@)[38]);
    assert(type_url_spec(urls::TRACK@).len() != type_url_spec(urls::ZONE@).len());
    assert(type_url_spec(urls::TRACK@).len() != type_url_spec(urls::DIMENSION@).len());
    assert(type_url_spec(urls::TRACK@)[38] != type_url_spec(urls::GROUP@)[38]);
    assert(type_url_spec(urls::TRACK@).len() != type_url_spec(urls::REFERENCE_IMAGE@).len());
    assert(type_url_spec(urls::TRACK@).len() != type_url_spec(urls::BARCODE@).len());
    assert(type_url_spec(urls::ARC@)[38] != type_url_spec(urls::VIA@)[38]);
    assert(type_url_spec(urls::ARC@).len() != type_url_spec(urls::FOOTPRINT_INSTANCE@).len());
    assert(type_url_spec(urls::ARC@)[38] != type_url_spec(urls::PAD@)[38]);
    assert(type_url_spec(urls::ARC@).len() != type_url_spec(urls::BOARD_GRAPHIC_SHAPE@).len());
    assert(type_url_spec(urls::ARC@).len() != type_url_spec(urls::BOARD_TEXT@).len());
    assert(type_url_spec(urls::ARC@).len() != type_url_spec(urls::BOARD_TEXT_BOX@).len());
    assert(type_url_spec(urls::ARC@).len() != type_url_spec(urls::FIELD@).len());
    assert(type_url_spec(urls::ARC@).len() != type_url_spec(urls::ZONE@).len());
    assert(type_url_spec(urls::ARC@).len() != type_url_spec(urls::DIMENSION@).len());
    assert(type_url_spec(urls::ARC@).len() != type_url_spec(urls::GROUP@).len());
    assert(type_url_spec(urls::ARC@).len() != type_url_spec(urls::REFERENCE_IMAGE@).len());
    assert(type_url_spec(urls::ARC@).len() != type_url_spec(urls::BARCODE@).len());
    assert(type_url_spec(urls::VIA@).len() != type_url_spec(urls::FOOTPRINT_INSTANCE@).len());
    assert(type_url_spec(urls::VIA@)[38] != type_url_spec(urls::PAD@)[38]);
    assert(type_url_spec(urls::VIA@).len() != type_url_spec(urls::BOARD_GRAPHIC_SHAPE@).len());
    assert(type_url_spec(urls::VIA@).len() != type_url_spec(urls::BOARD_TEXT@).len());
    assert(type_url_spec(urls::VIA@).len() != type_url_spec(urls::BOARD_TEXT_BOX@).len());
    assert(type_url_spec(urls::VIA@).len() != type_url_spec(urls::FIELD@).len());
    assert(type_url_spec(urls::VIA@).len() != type_url_spec(urls::ZONE@).len());
    assert(type_url_spec(urls::VIA@).len() != type_url_spec(urls::DIMENSION@).len());
    assert(type_url_spec(urls::VIA@).len() != type_url_spec(urls::GROUP@).len());
    assert(type_url_spec(urls::VIA@).len() != type_url_spec(urls::REFERENCE_IMAGE@).len());
    assert(type_url_spec(urls::VIA@).len() != type_url_spec(urls::BARCODE@).len());
    assert(type_url_spec(urls::FOOTPRINT_INSTANCE@).len() != type_url_spec(urls::PAD@).len());
    assert(type_url_spec(urls::FOOTPRINT_INSTANCE@)[38] != type_url_spec(urls::BOARD_GRAPHIC_SHAPE@)[38]);
    assert(type_url_spec(urls::FOOTPRINT_INSTANCE@).len() != type_url_spec(urls::BOARD_TEXT@).len());
    assert(type_url_spec(urls::FOOTPRINT_INSTANCE@).len() != type_url_spec(urls::BOARD_TEXT_BOX@).len());
    assert(type_url_spec(urls::FOOTPRINT_INSTANCE@).len() != type_url_spec(urls::FIELD@).len());
    assert(type_url_spec(urls::FOOTPRINT_INSTANCE@).len() != type_url_spec(urls::ZONE@).len());
    assert(type_url_spec(urls::FOOTPRINT_INSTANCE@).len() != type_url_spec(urls::DIMENSION@).len());
    assert(type_url_spec(urls::FOOTPRINT_INSTANCE@).len() != type_url_spec(urls::GROUP@).len());
    assert(type_url_spec(urls::FOOTPRINT_INSTANCE@).len() != type_url_spec(urls::REFERENCE_IMAGE@).len());
    assert(type_url_spec(urls::FOOTPRINT_INSTANCE@).len() != type_url_spec(urls::BARCODE@).len());
    assert(type_url_spec(urls::PAD@).len() != type_url_spec(urls::BOARD_GRAPHIC_SHAPE@).len());
    assert(type_url_spec(urls::PAD@).len() != type_url_spec(urls::BOARD_TEXT@).len());
    assert(type_url_spec(urls::PAD@).len() != type_url_spec(urls::BOARD_TEXT_BOX@).len());
    assert(type_url_spec(urls::PAD@).len() != type_url_spec(urls::FIELD@).len());
    assert(type_url_spec(urls::PAD@).len() != type_url_spec(urls::ZONE@).len());
    assert(type_url_spec(urls::PAD@).len() != type_url_spec(urls::DIMENSION@).len());
    assert(type_url_spec(urls::PAD@).len() != type_url_spec(urls::GROUP@).len());
    assert(type_url_spec(urls::PAD@).len() != type_url_spec(urls::REFERENCE_IMAGE@).len());
    assert(type_url_spec(urls::PAD@).len() != type_url_spec(urls::BARCODE@).len());
    assert(type_url_spec(urls::BOARD_GRAPHIC_SHAPE@).len() != type_url_spec(urls::BOARD_TEXT@).len());
    assert(type_url_spec(urls::BOARD_GRAPHIC_SHAPE@).len() != type_url_spec(urls::BOARD_TEXT_BOX@).len());
    assert(type_url_spec(urls::BOARD_GRAPHIC_SHAPE@).len() != type_url_spec(urls::FIELD@).len());
    assert(type_url_spec(urls::BOARD_GRAPHIC_SHAPE@).len() != type_url_spec(urls::ZONE@).len());
    assert(type_url_spec(urls::BOARD_GRAPHIC_SHAPE@).len() != type_url_spec(urls::DIMENSION@).len());
    assert(type_url_spec(urls::BOARD_GRAPHIC_SHAPE@).len() != type_url_spec(urls::GROUP@).len());
    assert(type_url_spec(urls::BOARD_GRAPHIC_SHAPE@).len() != type_url_spec(urls::REFERENCE_IMAGE@).len());
    assert(type_url_spec(urls::BOARD_GRAPHIC_SHAPE@).len() != type_url_spec(urls::BARCODE@).len());
    assert(type_url_spec(urls::BOARD_TEXT@).len() != type_url_spec(urls::BOARD_TEXT_BOX@).len());
    assert(type_url_spec(urls::BOARD_TEXT@).len() != type_url_spec(urls::FIELD@).len());
    assert(type_url_spec(urls::BOARD_TEXT@).len() != type_url_spec(urls::ZONE@).len());
    assert(type_url_spec(urls::BOARD_TEXT@)[38] != type_url_spec(urls::DIMENSION@)[38]);
    assert(type_url_spec(urls::BOARD_TEXT@).len() != type_url_spec(urls::GROUP@).len());
    assert(type_url_spec(urls::BOARD_TEXT@).len() != type_url_spec(urls::REFERENCE_IMAGE@).len());
    assert(type_url_spec(urls::BOARD_TEXT@).len() != type_url_spec(urls::BARCODE@).len());
    assert(type_url_spec(urls::BOARD_TEXT_BOX@).len() != type_url_spec(urls::FIELD@).len());
    assert(type_url_spec(urls::BOARD_TEXT_BOX@).len() != type_url_spec(urls::ZONE@).len());
    assert(type_url_spec(urls::BOARD_TEXT_BOX@).len() != type_url_spec(urls::DIMENSION@).len());
    assert(type_url_spec(urls::BOARD_TEXT_BOX@).len() != type_url_spec(urls::GROUP@).len());
    assert(type_url_spec(urls::BOARD_TEXT_BOX@).len() != type_url_spec(urls::REFERENCE_IMAGE@).len());
    assert(type_url_spec(urls::BOARD_TEXT_BOX@).len() != type_url_spec(urls::BARCODE@).len());
    assert(type_url_spec(urls::FIELD@).len() != type_url_spec(urls::ZONE@).len());
    assert(type_url_spec(urls::FIELD@).len() != type_url_spec(urls::DIMENSION@).len());
    assert(type_url_spec(urls::FIELD@)[38] != type_url_spec(urls::GROUP@)[38]);
    assert(type_url_spec(urls::FIELD@).len() != type_url_spec(urls::REFERENCE_IMAGE@).len());
    assert(type_url_spec(urls::FIELD@).len() != type_url_spec(urls::BARCODE@).len());
    assert(type_url_spec(urls::ZONE@).len() != type_url_spec(urls::DIMENSION@).len());
    assert(type_url_spec(urls::ZONE@).len() != type_url_spec(urls::GROUP@).len());
    assert(type_url_spec(urls::ZONE@).len() != type_url_spec(urls::REFERENCE_IMAGE@).len());
    assert(type_url_spec(urls::ZONE@).len() != type_url_spec(urls::BARCODE@).len());
    assert(type_url_spec(urls::DIMENSION@).len() != type_url_spec(urls::GROUP@).len());
    assert(type_url_spec(urls::DIMENSION@).len() != type_url_spec(urls::REFERENCE_IMAGE@).len());
    assert(type_url_spec(urls::DIMENSION@).len() != type_url_spec(urls::BARCODE@).len());
    assert(type_url_spec(urls::GROUP@).len() != type_url_spec(urls::REFERENCE_IMAGE@).len());
    assert(type_url_spec(urls::GROUP@).len() != type_url_spec(urls::BARCODE@).len());
    assert(type_url_spec(urls::REFERENCE_IMAGE@).len() != type_url_spec(urls::BARCODE@).len());
}

/// Converting an editable item to a payload and decoding the payload gives
/// the item back, for every item except a payload kept as it came whose
/// type URL names an edited item type.
pub proof fn lemma_item_round_trip(e: EditablePcbItem, a: proto::Any)
    requires
        any_of(e, a),
        e matches EditablePcbItem::Unknown(raw) ==> !is_editable_url(raw.raw.type_url@),
    ensures
        editable_of(a, Ok(e)),
{
    lemma_editable_urls_distinct();
}

/// Setting the layer of an item, when it succeeds, puts the item on exactly
/// that layer.
pub proof fn lemma_set_layer_then_layer_set(
    old: EditablePcbItem,
    new: EditablePcbItem,
    layer_id: i32,
)
    requires
        set_layer_result(old, new, layer_id, Ok(())),
    ensures
        layer_set_of(new, LayerSet::Single(layer_id)),
{
}

} // verus!
