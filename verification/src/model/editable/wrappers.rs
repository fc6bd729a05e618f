//! Typed editable wrappers of board item messages: each keeps the whole
//! message and offers typed access to the fields an edit touches.

use vstd::prelude::*;
use crate::client::config::opt_str;
use crate::client::decode::opt_kiid_value;
use crate::client::mappers::{opt_vector_nm, vector_proto};
use crate::error::KiCadError;
use crate::model::board::Vector2Nm;
use crate::model::editable::{kiid_value, vector2_from_proto, vector2_to_proto};
use crate::proto;
use crate::text::{copy_string, owned};

verus! {
/// Editable track: the whole `Track` message, with typed access to it.
#[derive(Clone, Debug, PartialEq, Eq)]
pub struct TrackItem {
    proto: proto::Track,
}

impl View for TrackItem {
    type V = proto::Track;

    closed spec fn view(&self) -> proto::Track {
        self.proto
    }
}

impl TrackItem {
    /// Wraps a decoded message.
    pub fn from_proto(proto: proto::Track) -> (r: Self)
        ensures
            r@ == proto,
    {
        TrackItem { proto }
    }

    /// The wrapped message.
    pub fn proto(&self) -> (r: &proto::Track)
        ensures
            *r == self@,
    {
        &self.proto
    }

    /// Mutable access to the wrapped message.
    pub fn proto_mut(&mut self) -> (r: &mut proto::Track)
        ensures
            *r == old(self)@,
            final(self)@ == *final(r),
    {
        &mut self.proto
    }

    /// Unwraps the message.
    pub fn into_proto(self) -> (r: proto::Track)
        ensures
            r == self@,
    {
        self.proto
    }

    /// The track's item id, if it has one.
    pub fn id(&self) -> (r: Option<&str>)
        ensures
            opt_str(r) == opt_kiid_value(self@.id),
    {
        kiid_value(&self.proto.id)
    }

    /// The track's layer id.
    pub fn layer_id(&self) -> (r: i32)
        ensures
            r == self@.layer,
    {
        self.proto.layer
    }

    /// Sets the track's layer id.
    pub fn set_layer_id(&mut self, layer_id: i32)
        ensures
            final(self)@ == (proto::Track { layer: layer_id, ..old(self)@ }),
    {
        self.proto.layer = layer_id;
    }

    /// The start point in nanometres, if present.
    pub fn start_nm(&self) -> (r: Option<Vector2Nm>)
        ensures
            r == opt_vector_nm(self@.start),
    {
        match self.proto.start {
            Some(v) => Some(vector2_from_proto(v)),
            None => None,
        }
    }

    /// The end point in nanometres, if present.
    pub fn end_nm(&self) -> (r: Option<Vector2Nm>)
        ensures
            r == opt_vector_nm(self@.end),
    {
        match self.proto.end {
            Some(v) => Some(vector2_from_proto(v)),
            None => None,
        }
    }

    /// Sets the start point.
    pub fn set_start_nm(&mut self, value: Vector2Nm)
        ensures
            final(self)@ == (proto::Track { start: Some(vector_proto(value)), ..old(self)@ }),
    {
        self.proto.start = Some(vector2_to_proto(value));
    }

    /// Sets the end point.
    pub fn set_end_nm(&mut self, value: Vector2Nm)
        ensures
            final(self)@ == (proto::Track { end: Some(vector_proto(value)), ..old(self)@ }),
    {
        self.proto.end = Some(vector2_to_proto(value));
    }
}
/// Editable arc: the whole `Arc` message, with typed access to it.
#[derive(Clone, Debug, PartialEq, Eq)]
pub struct ArcItem {
    proto: proto::Arc,
}

impl View for ArcItem {
    type V = proto::Arc;

    closed spec fn view(&self) -> proto::Arc {
        self.proto
    }
}

impl ArcItem {
    /// Wraps a decoded message.
    pub fn from_proto(proto: proto::Arc) -> (r: Self)
        ensures
            r@ == proto,
    {
        ArcItem { proto }
    }

    /// The wrapped message.
    pub fn proto(&self) -> (r: &proto::Arc)
        ensures
            *r == self@,
    {
        &self.proto
    }

    /// Mutable access to the wrapped message.
    pub fn proto_mut(&mut self) -> (r: &mut proto::Arc)
        ensures
            *r == old(self)@,
            final(self)@ == *final(r),
    {
        &mut self.proto
    }

    /// Unwraps the message.
    pub fn into_proto(self) -> (r: proto::Arc)
        ensures
            r == self@,
    {
        self.proto
    }

    /// The arc's item id, if it has one.
    pub fn id(&self) -> (r: Option<&str>)
        ensures
            opt_str(r) == opt_kiid_value(self@.id),
    {
        kiid_value(&self.proto.id)
    }

    /// The arc's layer id.
    pub fn layer_id(&self) -> (r: i32)
        ensures
            r == self@.layer,
    {
        self.proto.layer
    }

    /// Sets the arc's layer id.
    pub fn set_layer_id(&mut self, layer_id: i32)
        ensures
            final(self)@ == (proto::Arc { layer: layer_id, ..old(self)@ }),
    {
        self.proto.layer = layer_id;
    }

    /// The start point in nanometres, if present.
    pub fn start_nm(&self) -> (r: Option<Vector2Nm>)
        ensures
            r == opt_vector_nm(self@.start),
    {
        match self.proto.start {
            Some(v) => Some(vector2_from_proto(v)),
            None => None,
        }
    }

    /// The midpoint in nanometres, if present.
    pub fn mid_nm(&self) -> (r: Option<Vector2Nm>)
        ensures
            r == opt_vector_nm(self@.mid),
    {
        match self.proto.mid {
            Some(v) => Some(vector2_from_proto(v)),
            None => None,
        }
    }

    /// The end point in nanometres, if present.
    pub fn end_nm(&self) -> (r: Option<Vector2Nm>)
        ensures
            r == opt_vector_nm(self@.end),
    {
        match self.proto.end {
            Some(v) => Some(vector2_from_proto(v)),
            None => None,
        }
    }

    /// Sets the start point.
    pub fn set_start_nm(&mut self, value: Vector2Nm)
        ensures
            final(self)@ == (proto::Arc { start: Some(vector_proto(value)), ..old(self)@ }),
    {
        self.proto.start = Some(vector2_to_proto(value));
    }

    /// Sets the midpoint.
    pub fn set_mid_nm(&mut self, value: Vector2Nm)
        ensures
            final(self)@ == (proto::Arc { mid: Some(vector_proto(value)), ..old(self)@ }),
    {
        self.proto.mid = Some(vector2_to_proto(value));
    }

    /// Sets the end point.
    pub fn set_end_nm(&mut self, value: Vector2Nm)
        ensures
            final(self)@ == (proto::Arc { end: Some(vector_proto(value)), ..old(self)@ }),
    {
        self.proto.end = Some(vector2_to_proto(value));
    }
}
/// Editable via: the whole `Via` message, with typed access to it.
#[derive(Clone, Debug, PartialEq, Eq)]
pub struct ViaItem {
    proto: proto::Via,
}

impl View for ViaItem {
    type V = proto::Via;

    closed spec fn view(&self) -> proto::Via {
        self.proto
    }
}

impl ViaItem {
    /// Wraps a decoded message.
    pub fn from_proto(proto: proto::Via) -> (r: Self)
        ensures
            r@ == proto,
    {
        ViaItem { proto }
    }

    /// The wrapped message.
    pub fn proto(&self) -> (r: &proto::Via)
        ensures
            *r == self@,
    {
        &self.proto
    }

    /// Mutable access to the wrapped message.
    pub fn proto_mut(&mut self) -> (r: &mut proto::Via)
        ensures
            *r == old(self)@,
            final(self)@ == *final(r),
    {
        &mut self.proto
    }

    /// Unwraps the message.
    pub fn into_proto(self) -> (r: proto::Via)
        ensures
            r == self@,
    {
        self.proto
    }

    /// The via's item id, if it has one.
    pub fn id(&self) -> (r: Option<&str>)
        ensures
            opt_str(r) == opt_kiid_value(self@.id),
    {
        kiid_value(&self.proto.id)
    }

    /// The position in nanometres, if present.
    pub fn position_nm(&self) -> (r: Option<Vector2Nm>)
        ensures
            r == opt_vector_nm(self@.position),
    {
        match self.proto.position {
            Some(v) => Some(vector2_from_proto(v)),
            None => None,
        }
    }

    /// Sets the position.
    pub fn set_position_nm(&mut self, value: Vector2Nm)
        ensures
            final(self)@ == (proto::Via { position: Some(vector_proto(value)), ..old(self)@ }),
    {
        self.proto.position = Some(vector2_to_proto(value));
    }
}
/// Editable footprint instance: the whole `FootprintInstance` message, with typed access to it.
#[derive(Debug, PartialEq, Eq)]
pub struct FootprintInstanceItem {
    proto: proto::FootprintInstance,
}

impl View for FootprintInstanceItem {
    type V = proto::FootprintInstance;

    closed spec fn view(&self) -> proto::FootprintInstance {
        self.proto
    }
}

impl FootprintInstanceItem {
    /// Wraps a decoded message.
    pub fn from_proto(proto: proto::FootprintInstance) -> (r: Self)
        ensures
            r@ == proto,
    {
        FootprintInstanceItem { proto }
    }

    /// The wrapped message.
    pub fn proto(&self) -> (r: &proto::FootprintInstance)
        ensures
            *r == self@,
    {
        &self.proto
    }

    /// Mutable access to the wrapped message.
    pub fn proto_mut(&mut self) -> (r: &mut proto::FootprintInstance)
        ensures
            *r == old(self)@,
            final(self)@ == *final(r),
    {
        &mut self.proto
    }

    /// Unwraps the message.
    pub fn into_proto(self) -> (r: proto::FootprintInstance)
        ensures
            r == self@,
    {
        self.proto
    }

    /// The footprint instance's item id, if it has one.
    pub fn id(&self) -> (r: Option<&str>)
        ensures
            opt_str(r) == opt_kiid_value(self@.id),
    {
        kiid_value(&self.proto.id)
    }

    /// The footprint instance's layer id.
    pub fn layer_id(&self) -> (r: i32)
        ensures
            r == self@.layer,
    {
        self.proto.layer
    }

    /// Sets the footprint instance's layer id.
    pub fn set_layer_id(&mut self, layer_id: i32)
        ensures
            final(self)@ == (proto::FootprintInstance { layer: layer_id, ..old(self)@ }),
    {
        self.proto.layer = layer_id;
    }
}
/// Editable pad: the whole `Pad` message, with typed access to it.
#[derive(Clone, Debug, PartialEq, Eq)]
pub struct PadItem {
    proto: proto::Pad,
}

impl View for PadItem {
    type V = proto::Pad;

    closed spec fn view(&self) -> proto::Pad {
        self.proto
    }
}

impl PadItem {
    /// Wraps a decoded message.
    pub fn from_proto(proto: proto::Pad) -> (r: Self)
        ensures
            r@ == proto,
    {
        PadItem { proto }
    }

    /// The wrapped message.
    pub fn proto(&self) -> (r: &proto::Pad)
        ensures
            *r == self@,
    {
        &self.proto
    }

    /// Mutable access to the wrapped message.
    pub fn proto_mut(&mut self) -> (r: &mut proto::Pad)
        ensures
            *r == old(self)@,
            final(self)@ == *final(r),
    {
        &mut self.proto
    }

    /// Unwraps the message.
    pub fn into_proto(self) -> (r: proto::Pad)
        ensures
            r == self@,
    {
        self.proto
    }

    /// The pad's item id, if it has one.
    pub fn id(&self) -> (r: Option<&str>)
        ensures
            opt_str(r) == opt_kiid_value(self@.id),
    {
        kiid_value(&self.proto.id)
    }
}
/// Editable board graphic shape: the whole `BoardGraphicShape` message, with typed access to it.
#[derive(Clone, Debug, PartialEq, Eq)]
pub struct BoardGraphicShapeItem {
    proto: proto::BoardGraphicShape,
}

impl View for BoardGraphicShapeItem {
    type V = proto::BoardGraphicShape;

    closed spec fn view(&self) -> proto::BoardGraphicShape {
        self.proto
    }
}

impl BoardGraphicShapeItem {
    /// Wraps a decoded message.
    pub fn from_proto(proto: proto::BoardGraphicShape) -> (r: Self)
        ensures
            r@ == proto,
    {
        BoardGraphicShapeItem { proto }
    }

    /// The wrapped message.
    pub fn proto(&self) -> (r: &proto::BoardGraphicShape)
        ensures
            *r == self@,
    {
        &self.proto
    }

    /// Mutable access to the wrapped message.
    pub fn proto_mut(&mut self) -> (r: &mut proto::BoardGraphicShape)
        ensures
            *r == old(self)@,
            final(self)@ == *final(r),
    {
        &mut self.proto
    }

    /// Unwraps the message.
    pub fn into_proto(self) -> (r: proto::BoardGraphicShape)
        ensures
            r == self@,
    {
        self.proto
    }

    /// The board graphic shape's item id, if it has one.
    pub fn id(&self) -> (r: Option<&str>)
        ensures
            opt_str(r) == opt_kiid_value(self@.id),
    {
        kiid_value(&self.proto.id)
    }

    /// The board graphic shape's layer id.
    pub fn layer_id(&self) -> (r: i32)
        ensures
            r == self@.layer,
    {
        self.proto.layer
    }

    /// Sets the board graphic shape's layer id.
    pub fn set_layer_id(&mut self, layer_id: i32)
        ensures
            final(self)@ == (proto::BoardGraphicShape { layer: layer_id, ..old(self)@ }),
    {
        self.proto.layer = layer_id;
    }
}
/// Editable board text: the whole `BoardText` message, with typed access to it.
#[derive(Clone, Debug, PartialEq, Eq)]
pub struct BoardTextItem {
    proto: proto::BoardText,
}

impl View for BoardTextItem {
    type V = proto::BoardText;

    closed spec fn view(&self) -> proto::BoardText {
        self.proto
    }
}

impl BoardTextItem {
    /// Wraps a decoded message.
    pub fn from_proto(proto: proto::BoardText) -> (r: Self)
        ensures
            r@ == proto,
    {
        BoardTextItem { proto }
    }

    /// The wrapped message.
    pub fn proto(&self) -> (r: &proto::BoardText)
        ensures
            *r == self@,
    {
        &self.proto
    }

    /// Mutable access to the wrapped message.
    pub fn proto_mut(&mut self) -> (r: &mut proto::BoardText)
        ensures
            *r == old(self)@,
            final(self)@ == *final(r),
    {
        &mut self.proto
    }

    /// Unwraps the message.
    pub fn into_proto(self) -> (r: proto::BoardText)
        ensures
            r == self@,
    {
        self.proto
    }

    /// The board text's item id, if it has one.
    pub fn id(&self) -> (r: Option<&str>)
        ensures
            opt_str(r) == opt_kiid_value(self@.id),
    {
        kiid_value(&self.proto.id)
    }

    /// The board text's layer id.
    pub fn layer_id(&self) -> (r: i32)
        ensures
            r == self@.layer,
    {
        self.proto.layer
    }

    /// Sets the board text's layer id.
    pub fn set_layer_id(&mut self, layer_id: i32)
        ensures
            final(self)@ == (proto::BoardText { layer: layer_id, ..old(self)@ }),
    {
        self.proto.layer = layer_id;
    }
}
/// Editable board text box: the whole `BoardTextBox` message, with typed access to it.
#[derive(Clone, Debug, PartialEq, Eq)]
pub struct BoardTextBoxItem {
    proto: proto::BoardTextBox,
}

impl View for BoardTextBoxItem {
    type V = proto::BoardTextBox;

    closed spec fn view(&self) -> proto::BoardTextBox {
        self.proto
    }
}

impl BoardTextBoxItem {
    /// Wraps a decoded message.
    pub fn from_proto(proto: proto::BoardTextBox) -> (r: Self)
        ensures
            r@ == proto,
    {
        BoardTextBoxItem { proto }
    }

    /// The wrapped message.
    pub fn proto(&self) -> (r: &proto::BoardTextBox)
        ensures
            *r == self@,
    {
        &self.proto
    }

    /// Mutable access to the wrapped message.
    pub fn proto_mut(&mut self) -> (r: &mut proto::BoardTextBox)
        ensures
            *r == old(self)@,
            final(self)@ == *final(r),
    {
        &mut self.proto
    }

    /// Unwraps the message.
    pub fn into_proto(self) -> (r: proto::BoardTextBox)
        ensures
            r == self@,
    {
        self.proto
    }

    /// The board text box's item id, if it has one.
    pub fn id(&self) -> (r: Option<&str>)
        ensures
            opt_str(r) == opt_kiid_value(self@.id),
    {
        kiid_value(&self.proto.id)
    }

    /// The board text box's layer id.
    pub fn layer_id(&self) -> (r: i32)
        ensures
            r == self@.layer,
    {
        self.proto.layer
    }

    /// Sets the board text box's layer id.
    pub fn set_layer_id(&mut self, layer_id: i32)
        ensures
            final(self)@ == (proto::BoardTextBox { layer: layer_id, ..old(self)@ }),
    {
        self.proto.layer = layer_id;
    }
}
/// Editable field: the whole `Field` message, with typed access to it.
#[derive(Clone, Debug, PartialEq, Eq)]
pub struct FieldItem {
    proto: proto::Field,
}

impl View for FieldItem {
    type V = proto::Field;

    closed spec fn view(&self) -> proto::Field {
        self.proto
    }
}

impl FieldItem {
    /// Wraps a decoded message.
    pub fn from_proto(proto: proto::Field) -> (r: Self)
        ensures
            r@ == proto,
    {
        FieldItem { proto }
    }

    /// The wrapped message.
    pub fn proto(&self) -> (r: &proto::Field)
        ensures
            *r == self@,
    {
        &self.proto
    }

    /// Mutable access to the wrapped message.
    pub fn proto_mut(&mut self) -> (r: &mut proto::Field)
        ensures
            *r == old(self)@,
            final(self)@ == *final(r),
    {
        &mut self.proto
    }

    /// Unwraps the message.
    pub fn into_proto(self) -> (r: proto::Field)
        ensures
            r == self@,
    {
        self.proto
    }

    /// The field's id value, if present.
    pub fn field_id(&self) -> (r: Option<i32>)
        ensures
            r == match self@.id {
                Some(f) => Some(f.id),
                None => None,
            },
    {
        match self.proto.id {
            Some(f) => Some(f.id),
            None => None,
        }
    }

    /// The field's board text, if present.
    pub fn text(&self) -> (r: Option<&proto::BoardText>)
        ensures
            match r {
                Some(t) => self@.text == Some(*t),
                None => self@.text is None,
            },
    {
        match &self.proto.text {
            Some(t) => Some(t),
            None => None,
        }
    }

    /// Mutable access to the field's board text, if present.
    pub fn text_mut(&mut self) -> (r: Option<&mut proto::BoardText>)
        ensures
            old(self)@.text is None ==> r is None && final(self)@ == old(self)@,
            old(self)@.text is Some ==> r is Some && *r->0 == old(self)@.text->0
                && final(self)@ == (proto::Field { text: Some(*final(r->0)), ..old(self)@ }),
    {
        match &mut self.proto.text {
            Some(t) => Some(t),
            None => None,
        }
    }

    /// Sets the layer of the field's board text; fails when the field has
    /// none.
    pub fn set_layer_id(&mut self, layer_id: i32) -> (r: Result<(), KiCadError>)
        ensures
            r is Ok <==> old(self)@.text is Some,
            r is Ok ==> final(self)@ == (proto::Field {
                text: Some(proto::BoardText { layer: layer_id, ..old(self)@.text->0 }),
                ..old(self)@
            }),
            r matches Err(e) ==> final(self)@ == old(self)@ && (e matches KiCadError::InvalidResponse { reason } && reason@
                == "field has no nested board text; cannot set layer"@),
    {
        match &mut self.proto.text {
            Some(t) => {
                t.layer = layer_id;
                Ok(())
            },
            None => Err(
                KiCadError::InvalidResponse {
                    reason: owned("field has no nested board text; cannot set layer"),
                },
            ),
        }
    }
}
/// Editable zone: the whole `Zone` message, with typed access to it.
#[derive(Clone, Debug, PartialEq, Eq)]
pub struct ZoneItem {
    proto: proto::Zone,
}

impl View for ZoneItem {
    type V = proto::Zone;

    closed spec fn view(&self) -> proto::Zone {
        self.proto
    }
}

impl ZoneItem {
    /// Wraps a decoded message.
    pub fn from_proto(proto: proto::Zone) -> (r: Self)
        ensures
            r@ == proto,
    {
        ZoneItem { proto }
    }

    /// The wrapped message.
    pub fn proto(&self) -> (r: &proto::Zone)
        ensures
            *r == self@,
    {
        &self.proto
    }

    /// Mutable access to the wrapped message.
    pub fn proto_mut(&mut self) -> (r: &mut proto::Zone)
        ensures
            *r == old(self)@,
            final(self)@ == *final(r),
    {
        &mut self.proto
    }

    /// Unwraps the message.
    pub fn into_proto(self) -> (r: proto::Zone)
        ensures
            r == self@,
    {
        self.proto
    }

    /// The zone's item id, if it has one.
    pub fn id(&self) -> (r: Option<&str>)
        ensures
            opt_str(r) == opt_kiid_value(self@.id),
    {
        kiid_value(&self.proto.id)
    }

    /// The zone's layer ids.
    pub fn layer_ids(&self) -> (r: &[i32])
        ensures
            r@ == self@.layers@,
    {
        self.proto.layers.as_slice()
    }

    /// Replaces the zone's layer ids.
    pub fn set_layer_ids(&mut self, layer_ids: Vec<i32>)
        ensures
            final(self)@ == (proto::Zone { layers: layer_ids, ..old(self)@ }),
    {
        self.proto.layers = layer_ids;
    }
}
/// Editable dimension: the whole `Dimension` message, with typed access to it.
#[derive(Clone, Debug, PartialEq, Eq)]
pub struct DimensionItem {
    proto: proto::Dimension,
}

impl View for DimensionItem {
    type V = proto::Dimension;

    closed spec fn view(&self) -> proto::Dimension {
        self.proto
    }
}

impl DimensionItem {
    /// Wraps a decoded message.
    pub fn from_proto(proto: proto::Dimension) -> (r: Self)
        ensures
            r@ == proto,
    {
        DimensionItem { proto }
    }

    /// The wrapped message.
    pub fn proto(&self) -> (r: &proto::Dimension)
        ensures
            *r == self@,
    {
        &self.proto
    }

    /// Mutable access to the wrapped message.
    pub fn proto_mut(&mut self) -> (r: &mut proto::Dimension)
        ensures
            *r == old(self)@,
            final(self)@ == *final(r),
    {
        &mut self.proto
    }

    /// Unwraps the message.
    pub fn into_proto(self) -> (r: proto::Dimension)
        ensures
            r == self@,
    {
        self.proto
    }

    /// The dimension's item id, if it has one.
    pub fn id(&self) -> (r: Option<&str>)
        ensures
            opt_str(r) == opt_kiid_value(self@.id),
    {
        kiid_value(&self.proto.id)
    }

    /// The dimension's layer id.
    pub fn layer_id(&self) -> (r: i32)
        ensures
            r == self@.layer,
    {
        self.proto.layer
    }

    /// Sets the dimension's layer id.
    pub fn set_layer_id(&mut self, layer_id: i32)
        ensures
            final(self)@ == (proto::Dimension { layer: layer_id, ..old(self)@ }),
    {
        self.proto.layer = layer_id;
    }
}
/// Editable group: the whole `Group` message, with typed access to it.
#[derive(Clone, Debug, PartialEq, Eq)]
pub struct GroupItem {
    proto: proto::Group,
}

impl View for GroupItem {
    type V = proto::Group;

    closed spec fn view(&self) -> proto::Group {
        self.proto
    }
}

impl GroupItem {
    /// Wraps a decoded message.
    pub fn from_proto(proto: proto::Group) -> (r: Self)
        ensures
            r@ == proto,
    {
        GroupItem { proto }
    }

    /// The wrapped message.
    pub fn proto(&self) -> (r: &proto::Group)
        ensures
            *r == self@,
    {
        &self.proto
    }

    /// Mutable access to the wrapped message.
    pub fn proto_mut(&mut self) -> (r: &mut proto::Group)
        ensures
            *r == old(self)@,
            final(self)@ == *final(r),
    {
        &mut self.proto
    }

    /// Unwraps the message.
    pub fn into_proto(self) -> (r: proto::Group)
        ensures
            r == self@,
    {
        self.proto
    }

    /// The group's item id, if it has one.
    pub fn id(&self) -> (r: Option<&str>)
        ensures
            opt_str(r) == opt_kiid_value(self@.id),
    {
        kiid_value(&self.proto.id)
    }

    /// Builds a group with no id, the name `name` and the given members.
    pub fn new(name: &str, member_ids: Vec<String>) -> (r: Self)
        ensures
            r@.id is None,
            r@.name@ == name@,
            r@.items@.len() == member_ids@.len(),
            forall|i: int| 0 <= i < member_ids@.len() ==> #[trigger] r@.items@[i].value@ == member_ids@[i]@,
    {
        GroupItem { proto: proto::Group { id: None, name: owned(name), items: kiids_of(member_ids) } }
    }

    /// The ids of the group's members, in order.
    pub fn member_ids(&self) -> (r: Vec<&str>)
        ensures
            r@.len() == self@.items@.len(),
            forall|i: int| 0 <= i < r@.len() ==> #[trigger] r@[i]@ == self@.items@[i].value@,
    {
        let mut r: Vec<&str> = Vec::new();
        let n = self.proto.items.len();
        let mut i: usize = 0;
        while i < n
            invariant
                n == self.proto.items@.len(),
                i <= n,
                r@.len() == i,
                forall|j: int| 0 <= j < i ==> #[trigger] r@[j]@ == self.proto.items@[j].value@,
            decreases n - i,
        {
            r.push(self.proto.items[i].value.as_str());
            i = i + 1;
        }
        r
    }

    /// The group's name.
    pub fn name(&self) -> (r: &str)
        ensures
            r@ == self@.name@,
    {
        self.proto.name.as_str()
    }

    /// Sets the group's name.
    pub fn set_name(&mut self, name: &str)
        ensures
            final(self)@.name@ == name@,
            final(self)@.id == old(self)@.id,
            final(self)@.items == old(self)@.items,
    {
        self.proto.name = owned(name);
    }

    /// Replaces the group's members.
    pub fn set_member_ids(&mut self, member_ids: Vec<String>)
        ensures
            final(self)@.id == old(self)@.id,
            final(self)@.name == old(self)@.name,
            final(self)@.items@.len() == member_ids@.len(),
            forall|i: int|
                0 <= i < member_ids@.len() ==> #[trigger] final(self)@.items@[i].value@ == member_ids@[i]@,
    {
        self.proto.items = kiids_of(member_ids);
    }
}
/// Editable reference image: the whole `ReferenceImage` message, with typed access to it.
#[derive(Clone, Debug, PartialEq, Eq)]
pub struct ReferenceImageItem {
    proto: proto::ReferenceImage,
}

impl View for ReferenceImageItem {
    type V = proto::ReferenceImage;

    closed spec fn view(&self) -> proto::ReferenceImage {
        self.proto
    }
}

impl ReferenceImageItem {
    /// Wraps a decoded message.
    pub fn from_proto(proto: proto::ReferenceImage) -> (r: Self)
        ensures
            r@ == proto,
    {
        ReferenceImageItem { proto }
    }

    /// The wrapped message.
    pub fn proto(&self) -> (r: &proto::ReferenceImage)
        ensures
            *r == self@,
    {
        &self.proto
    }

    /// Mutable access to the wrapped message.
    pub fn proto_mut(&mut self) -> (r: &mut proto::ReferenceImage)
        ensures
            *r == old(self)@,
            final(self)@ == *final(r),
    {
        &mut self.proto
    }

    /// Unwraps the message.
    pub fn into_proto(self) -> (r: proto::ReferenceImage)
        ensures
            r == self@,
    {
        self.proto
    }

    /// The reference image's item id, if it has one.
    pub fn id(&self) -> (r: Option<&str>)
        ensures
            opt_str(r) == opt_kiid_value(self@.id),
    {
        kiid_value(&self.proto.id)
    }

    /// The reference image's layer id.
    pub fn layer_id(&self) -> (r: i32)
        ensures
            r == self@.layer,
    {
        self.proto.layer
    }

    /// Sets the reference image's layer id.
    pub fn set_layer_id(&mut self, layer_id: i32)
        ensures
            final(self)@ == (proto::ReferenceImage { layer: layer_id, ..old(self)@ }),
    {
        self.proto.layer = layer_id;
    }
}
/// Editable barcode: the whole `Barcode` message, with typed access to it.
#[derive(Clone, Debug, PartialEq, Eq)]
pub struct BarcodeItem {
    proto: proto::Barcode,
}

impl View for BarcodeItem {
    type V = proto::Barcode;

    closed spec fn view(&self) -> proto::Barcode {
        self.proto
    }
}

impl BarcodeItem {
    /// Wraps a decoded message.
    pub fn from_proto(proto: proto::Barcode) -> (r: Self)
        ensures
            r@ == proto,
    {
        BarcodeItem { proto }
    }

    /// The wrapped message.
    pub fn proto(&self) -> (r: &proto::Barcode)
        ensures
            *r == self@,
    {
        &self.proto
    }

    /// Mutable access to the wrapped message.
    pub fn proto_mut(&mut self) -> (r: &mut proto::Barcode)
        ensures
            *r == old(self)@,
            final(self)@ == *final(r),
    {
        &mut self.proto
    }

    /// Unwraps the message.
    pub fn into_proto(self) -> (r: proto::Barcode)
        ensures
            r == self@,
    {
        self.proto
    }

    /// The barcode's item id, if it has one.
    pub fn id(&self) -> (r: Option<&str>)
        ensures
            opt_str(r) == opt_kiid_value(self@.id),
    {
        kiid_value(&self.proto.id)
    }

    /// The barcode's layer id.
    pub fn layer_id(&self) -> (r: i32)
        ensures
            r == self@.layer,
    {
        self.proto.layer
    }

    /// Sets the barcode's layer id.
    pub fn set_layer_id(&mut self, layer_id: i32)
        ensures
            final(self)@ == (proto::Barcode { layer: layer_id, ..old(self)@ }),
    {
        self.proto.layer = layer_id;
    }
}
/// Wraps each id as an item id.
pub(crate) fn kiids_of(ids: Vec<String>) -> (r: Vec<proto::Kiid>)
    ensures
        r@.len() == ids@.len(),
        forall|i: int| 0 <= i < ids@.len() ==> #[trigger] r@[i].value@ == ids@[i]@,
{
    let mut r: Vec<proto::Kiid> = Vec::new();
    let n = ids.len();
    let mut i: usize = 0;
    while i < n
        invariant
            n == ids@.len(),
            i <= n,
            r@.len() == i,
            forall|j: int| 0 <= j < i ==> #[trigger] r@[j].value@ == ids@[j]@,
        decreases n - i,
    {
        r.push(proto::Kiid { value: copy_string(&ids[i]) });
        i = i + 1;
    }
    r
}

} // verus!
