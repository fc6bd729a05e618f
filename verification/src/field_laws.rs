//! Which field of an API message each field of a model comes from, and the
//! other way round, stated against the messages' own fields.

use vstd::prelude::*;
use crate::client::board_mappers::{net_class_board_model_of, net_class_board_proto_of};
use crate::client::decode::zone_layer_property_model_of;
use crate::client::mappers::{
    bounding_box_of, layer_model_of, net_model_of, net_proto_of, opt_distance_nm,
    opt_distance_proto, opt_vector_nm, vector_nm, vector_proto,
};
use crate::client::text_mappers::text_shape_geometry_model_of;
use crate::model::board::{BoardLayerInfo, BoardNet, NetClassBoardSettings, PcbZoneLayerProperty, Vector2Nm};
use crate::model::common::{ItemBoundingBox, TextShapeGeometry};
use crate::proto;

verus! {

/// Whether the model point `dst` is the API point `src`: present exactly
/// when it is, with the same coordinates.
pub open spec fn keeps_point(src: Option<proto::Vector2>, dst: Option<Vector2Nm>) -> bool {
    match (src, dst) {
        (Some(a), Some(b)) => b.x_nm == a.x_nm && b.y_nm == a.y_nm,
        (None, None) => true,
        _ => false,
    }
}

/// Whether the model length `dst` is the API distance `src`: present
/// exactly when it is, with the same number of nanometres.
pub open spec fn keeps_length(src: Option<proto::Distance>, dst: Option<i64>) -> bool {
    match (src, dst) {
        (Some(a), Some(b)) => b == a.value_nm,
        (None, None) => true,
        _ => false,
    }
}

/// A point read from the API keeps its coordinates, `x` as `x` and `y` as
/// `y`, and so does a model point written to the API.
pub proof fn lemma_points_keep_coordinates(p: proto::Vector2, v: Vector2Nm)
    ensures
        vector_nm(p).x_nm == p.x_nm,
        vector_nm(p).y_nm == p.y_nm,
        vector_proto(v).x_nm == v.x_nm,
        vector_proto(v).y_nm == v.y_nm,
        forall|o: Option<proto::Vector2>| #[trigger] keeps_point(o, opt_vector_nm(o)),
        forall|o: Option<proto::Distance>| #[trigger] keeps_length(o, opt_distance_nm(o)),
        forall|o: Option<i64>| #[trigger] keeps_length(opt_distance_proto(o), o),
{
}

/// The geometry of a rendered text shape keeps the shape's own points: a
/// segment its start as start and its end as end, an arc its start, middle
/// and end, a circle its centre and radius point, a rectangle its corners
/// and corner radius, a Bézier curve its end and control points, each in
/// the same role.
pub proof fn lemma_text_shape_geometry_keeps_points(shape: proto::GraphicShape, g: TextShapeGeometry)
    requires
        text_shape_geometry_model_of(shape, g),
    ensures
        match shape.geometry {
            Some(proto::GraphicShapeGeometry::Segment(s)) => g matches TextShapeGeometry::Segment {
                start_nm,
                end_nm,
            } && keeps_point(s.start, start_nm) && keeps_point(s.end, end_nm),
            Some(proto::GraphicShapeGeometry::Rectangle(r)) => g matches TextShapeGeometry::Rectangle {
                top_left_nm,
                bottom_right_nm,
                corner_radius_nm,
            } && keeps_point(r.top_left, top_left_nm) && keeps_point(r.bottom_right, bottom_right_nm)
                && keeps_length(r.corner_radius, corner_radius_nm),
            Some(proto::GraphicShapeGeometry::Arc(a)) => g matches TextShapeGeometry::Arc {
                start_nm,
                mid_nm,
                end_nm,
            } && keeps_point(a.start, start_nm) && keeps_point(a.mid, mid_nm) && keeps_point(
                a.end,
                end_nm,
            ),
            Some(proto::GraphicShapeGeometry::Circle(c)) => g matches TextShapeGeometry::Circle {
                center_nm,
                radius_point_nm,
            } && keeps_point(c.center, center_nm) && keeps_point(c.radius_point, radius_point_nm),
            Some(proto::GraphicShapeGeometry::Polygon(_)) => g is Polygon,
            Some(proto::GraphicShapeGeometry::Bezier(b)) => g matches TextShapeGeometry::Bezier {
                start_nm,
                control1_nm,
                control2_nm,
                end_nm,
            } && keeps_point(b.start, start_nm) && keeps_point(b.control1, control1_nm)
                && keeps_point(b.control2, control2_nm) && keeps_point(b.end, end_nm),
            None => g is Unknown,
        },
{
}

/// The board settings of a net class read from the API keep each distance
/// in its own field (clearance as clearance, track width as track width,
/// and the differential-pair widths and gaps as themselves), and record
/// which via stacks are present.
pub proof fn lemma_net_class_board_read_fields(p: proto::NetClassBoardSettings, m: NetClassBoardSettings)
    requires
        net_class_board_model_of(p, m),
    ensures
        keeps_length(p.clearance, m.clearance_nm),
        keeps_length(p.track_width, m.track_width_nm),
        keeps_length(p.diff_pair_track_width, m.diff_pair_track_width_nm),
        keeps_length(p.diff_pair_gap, m.diff_pair_gap_nm),
        keeps_length(p.diff_pair_via_gap, m.diff_pair_via_gap_nm),
        m.has_via_stack <==> p.via_stack is Some,
        m.has_microvia_stack <==> p.microvia_stack is Some,
{
}

/// The board settings of a net class written to the API put each distance
/// in its own field, whatever the read direction does, and write a via
/// stack exactly where the model records one.
pub proof fn lemma_net_class_board_write_fields(m: NetClassBoardSettings, p: proto::NetClassBoardSettings)
    requires
        net_class_board_proto_of(m, p),
    ensures
        keeps_length(p.clearance, m.clearance_nm),
        keeps_length(p.track_width, m.track_width_nm),
        keeps_length(p.diff_pair_track_width, m.diff_pair_track_width_nm),
        keeps_length(p.diff_pair_gap, m.diff_pair_gap_nm),
        keeps_length(p.diff_pair_via_gap, m.diff_pair_via_gap_nm),
        m.has_via_stack <==> p.via_stack is Some,
        m.has_microvia_stack <==> p.microvia_stack is Some,
{
}

/// A bounding box read from the API takes its corner from the box's
/// position (`x` as `x`, `y` as `y`) and its width and height from the
/// box's size, and names the item it was asked for.
pub proof fn lemma_bounding_box_fields(id: proto::Kiid, bbox: proto::Box2, b: ItemBoundingBox)
    requires
        bounding_box_of(id, bbox, b),
    ensures
        bbox.position is Some && bbox.size is Some,
        b.x_nm == bbox.position->0.x_nm && b.y_nm == bbox.position->0.y_nm,
        b.width_nm == bbox.size->0.x_nm && b.height_nm == bbox.size->0.y_nm,
        b.item_id@ == id.value@,
{
}

/// A net read from the API keeps its name and takes its code from the
/// message's code (zero when it has none); a net written to the API carries
/// the model's code and name.
pub proof fn lemma_net_fields(net: Option<proto::Net>, model: Option<BoardNet>, m: BoardNet, p: proto::Net)
    ensures
        net_model_of(net, model) ==> (net is Some <==> model is Some),
        net_model_of(net, model) && net is Some ==> model->0.name@ == net->0.name@
            && model->0.code == match net->0.code {
            Some(c) => c.value,
            None => 0i32,
        },
        net_proto_of(m, p) ==> p.code == Some(proto::NetCode { value: m.code }) && p.name@
            == m.name@,
{
}

/// A layer read from the API keeps its id, and a zone's layer property keeps
/// its hatching offset.
pub proof fn lemma_layer_fields(
    id: i32,
    info: BoardLayerInfo,
    zp: proto::ZoneLayerProperties,
    zm: PcbZoneLayerProperty,
)
    ensures
        layer_model_of(id, info) ==> info.id == id,
        zone_layer_property_model_of(zp, zm) ==> zm.layer.id == zp.layer && keeps_point(
            zp.hatching_offset,
            zm.hatching_offset_nm,
        ),
{
}

} // verus!
