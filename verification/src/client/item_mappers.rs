//! Conversions of the parts of board items: padstacks, drills, text
//! attributes, shape geometry and dimension styles.

use vstd::prelude::*;
use crate::client::mappers::{
    layer_model_of, layer_to_model, layers_model_of, layers_to_model, map_opt_vector2_nm,
    map_optional_distance_nm, opt_distance_nm, opt_vector_nm,
};
use crate::model::board::{
    PcbDimensionStyle, PcbGraphicShapeGeometry, PcbPadStack, PcbPadstackDrill, PcbTextAttributes,
    PcbViaLayers,
};
use crate::proto;
use crate::proto_enums::{
    axis_alignment_name, axis_alignment_name_spec, dimension_text_border_style_name,
    dimension_text_border_style_name_spec, drill_shape_name, drill_shape_name_spec,
    horizontal_alignment_name, horizontal_alignment_name_spec, pad_stack_type_name,
    pad_stack_type_name_spec, unconnected_layer_removal_name, unconnected_layer_removal_name_spec,
    vertical_alignment_name, vertical_alignment_name_spec, via_drill_capping_mode_name,
    via_drill_capping_mode_name_spec, via_drill_filling_mode_name,
    via_drill_filling_mode_name_spec,
};
use crate::text::{
    decimal_between, int_decimal, non_empty, non_empty_string, opt_string_view, owned,
};

use crate::field_laws::{keeps_length, keeps_point};
verus! {

// ---------------------------------------------------------------------------
// Enumeration values as text.
// ---------------------------------------------------------------------------
/// The view of an optional string slice.
pub open spec fn opt_str_view(s: Option<&str>) -> Option<Seq<char>> {
    match s {
        Some(v) => Some(v@),
        None => None,
    }
}

/// The text an enumeration value is reported with: its symbolic name, or
/// `UNKNOWN(<value>)` for a value the enumeration does not define.
pub open spec fn enum_text(name: Option<Seq<char>>, value: i32) -> Seq<char> {
    match name {
        Some(n) => n,
        None => "UNKNOWN("@ + int_decimal(value as int) + ")"@,
    }
}

/// Renders an enumeration value: `name`, its symbolic name if it has one,
/// or `UNKNOWN(<value>)`.
pub fn enum_text_of(name: Option<&'static str>, value: i32) -> (r: String)
    ensures
        r@ == enum_text(opt_str_view(name), value),
{
    match name {
        Some(s) => owned(s),
        None => decimal_between("UNKNOWN(", value as i64, ")"),
    }
}

/// A symbolic name as an owned optional string.
pub fn name_of(name: Option<&'static str>) -> (r: Option<String>)
    ensures
        opt_string_view(r) == opt_str_view(name),
{
    match name {
        Some(s) => Some(owned(s)),
        None => None,
    }
}

// ---------------------------------------------------------------------------
// Drills, padstacks and via layers.
// ---------------------------------------------------------------------------
/// Whether `m` is the model of the drill properties `p`.
pub open spec fn drill_model_of(p: proto::DrillProperties, m: PcbPadstackDrill) -> bool {
    &&& layer_model_of(p.start_layer, m.start_layer)
    &&& layer_model_of(p.end_layer, m.end_layer)
    &&& m.diameter_nm == opt_vector_nm(p.diameter)
    &&& opt_string_view(m.shape) == Some(enum_text(drill_shape_name_spec(p.shape), p.shape))
    &&& opt_string_view(m.capped) == Some(
        enum_text(via_drill_capping_mode_name_spec(p.capped), p.capped),
    )
    &&& opt_string_view(m.filled) == Some(
        enum_text(via_drill_filling_mode_name_spec(p.filled), p.filled),
    )
}

/// Each field of the drill read from the API comes from the field of the same
/// role: the relation holds field by field.
pub proof fn lemma_drill_read_fields(p: proto::DrillProperties, m: PcbPadstackDrill)
    requires
        drill_model_of(p, m),
    ensures
        (layer_model_of(p.start_layer, m.start_layer)),
        (layer_model_of(p.end_layer, m.end_layer)),
        keeps_point(p.diameter, m.diameter_nm),
        (opt_string_view(m.shape) == Some(enum_text(drill_shape_name_spec(p.shape), p.shape))),
        (opt_string_view(m.capped) == Some(
            enum_text(via_drill_capping_mode_name_spec(p.capped), p.capped),
        )),
        (opt_string_view(m.filled) == Some(
            enum_text(via_drill_filling_mode_name_spec(p.filled), p.filled),
        )),
{
}

/// Whether `m` models the optional drill properties `p`.
pub open spec fn opt_drill_model_of(
    p: Option<proto::DrillProperties>,
    m: Option<PcbPadstackDrill>,
) -> bool {
    match (p, m) {
        (None, None) => true,
        (Some(d), Some(e)) => drill_model_of(d, e),
        _ => false,
    }
}

/// Converts drill properties to the model.
pub fn map_padstack_drill(drill: proto::DrillProperties) -> (r: PcbPadstackDrill)
    ensures
        drill_model_of(drill, r),
{
    PcbPadstackDrill {
        start_layer: layer_to_model(drill.start_layer),
        end_layer: layer_to_model(drill.end_layer),
        diameter_nm: map_opt_vector2_nm(drill.diameter),
        shape: Some(enum_text_of(drill_shape_name(drill.shape), drill.shape)),
        capped: Some(enum_text_of(via_drill_capping_mode_name(drill.capped), drill.capped)),
        filled: Some(enum_text_of(via_drill_filling_mode_name(drill.filled), drill.filled)),
    }
}

fn map_opt_drill(drill: Option<proto::DrillProperties>) -> (r: Option<PcbPadstackDrill>)
    ensures
        opt_drill_model_of(drill, r),
{
    match drill {
        Some(d) => Some(map_padstack_drill(d)),
        None => None,
    }
}

/// Whether `m` is the model of the padstack `p`.
pub open spec fn pad_stack_model_of(p: proto::PadStack, m: PcbPadStack) -> bool {
    &&& opt_string_view(m.stack_type) == Some(
        enum_text(pad_stack_type_name_spec(p.stack_type), p.stack_type),
    )
    &&& layers_model_of(p.layers@, m.layers@)
    &&& opt_drill_model_of(p.drill, m.drill)
    &&& opt_string_view(m.unconnected_layer_removal) == Some(
        enum_text(
            unconnected_layer_removal_name_spec(p.unconnected_layer_removal),
            p.unconnected_layer_removal,
        ),
    )
    &&& m.copper_layer_count == p.copper_layers@.len()
    &&& m.has_front_outer_layers == (p.front_outer_layers is Some)
    &&& m.has_back_outer_layers == (p.back_outer_layers is Some)
    &&& m.has_zone_settings == (p.zone_settings is Some)
    &&& opt_drill_model_of(p.secondary_drill, m.secondary_drill)
    &&& opt_drill_model_of(p.tertiary_drill, m.tertiary_drill)
    &&& m.has_front_post_machining == (p.front_post_machining is Some)
    &&& m.has_back_post_machining == (p.back_post_machining is Some)
}

/// Each field of the pad stack read from the API comes from the field of the same
/// role: the relation holds field by field.
pub proof fn lemma_pad_stack_read_fields(p: proto::PadStack, m: PcbPadStack)
    requires
        pad_stack_model_of(p, m),
    ensures
        (opt_string_view(m.stack_type) == Some(
            enum_text(pad_stack_type_name_spec(p.stack_type), p.stack_type),
        )),
        (layers_model_of(p.layers@, m.layers@)),
        (opt_drill_model_of(p.drill, m.drill)),
        (opt_string_view(m.unconnected_layer_removal) == Some(
            enum_text(
                unconnected_layer_removal_name_spec(p.unconnected_layer_removal),
                p.unconnected_layer_removal,
            ),
        )),
        (m.copper_layer_count == p.copper_layers@.len()),
        (m.has_front_outer_layers == (p.front_outer_layers is Some)),
        (m.has_back_outer_layers == (p.back_outer_layers is Some)),
        (m.has_zone_settings == (p.zone_settings is Some)),
        (opt_drill_model_of(p.secondary_drill, m.secondary_drill)),
        (opt_drill_model_of(p.tertiary_drill, m.tertiary_drill)),
        (m.has_front_post_machining == (p.front_post_machining is Some)),
        (m.has_back_post_machining == (p.back_post_machining is Some)),
{
}

/// Whether `m` models the optional padstack `p`.
pub open spec fn opt_pad_stack_model_of(p: Option<proto::PadStack>, m: Option<PcbPadStack>) -> bool {
    match (p, m) {
        (None, None) => true,
        (Some(s), Some(t)) => pad_stack_model_of(s, t),
        _ => false,
    }
}

/// Converts an optional padstack to the model.
pub fn map_pad_stack(pad_stack: &Option<proto::PadStack>) -> (r: Option<PcbPadStack>)
    ensures
        opt_pad_stack_model_of(*pad_stack, r),
{
    let pad_stack = match pad_stack {
        Some(p) => p,
        None => {
            return None;
        },
    };
    Some(
        PcbPadStack {
            stack_type: Some(enum_text_of(pad_stack_type_name(pad_stack.stack_type), pad_stack.stack_type)),
            layers: layers_to_model(&pad_stack.layers),
            drill: map_opt_drill(pad_stack.drill),
            unconnected_layer_removal: Some(
                enum_text_of(
                    unconnected_layer_removal_name(pad_stack.unconnected_layer_removal),
                    pad_stack.unconnected_layer_removal,
                ),
            ),
            copper_layer_count: pad_stack.copper_layers.len(),
            has_front_outer_layers: pad_stack.front_outer_layers.is_some(),
            has_back_outer_layers: pad_stack.back_outer_layers.is_some(),
            has_zone_settings: pad_stack.zone_settings.is_some(),
            secondary_drill: map_opt_drill(pad_stack.secondary_drill),
            tertiary_drill: map_opt_drill(pad_stack.tertiary_drill),
            has_front_post_machining: pad_stack.front_post_machining.is_some(),
            has_back_post_machining: pad_stack.back_post_machining.is_some(),
        },
    )
}

/// Whether `m` is the layer span of a via with padstack `p`: the padstack's
/// layers, and the drill's start and end layers when it has a drill.
pub open spec fn via_layers_model_of(p: proto::PadStack, m: PcbViaLayers) -> bool {
    &&& layers_model_of(p.layers@, m.padstack_layers@)
    &&& match p.drill {
        Some(d) => {
            &&& m.drill_start_layer matches Some(s) && layer_model_of(d.start_layer, s)
            &&& m.drill_end_layer matches Some(e) && layer_model_of(d.end_layer, e)
        },
        None => m.drill_start_layer is None && m.drill_end_layer is None,
    }
}

/// Each field of the via layers read from the API comes from the field of the same
/// role: the relation holds field by field.
pub proof fn lemma_via_layers_read_fields(p: proto::PadStack, m: PcbViaLayers)
    requires
        via_layers_model_of(p, m),
    ensures
        (layers_model_of(p.layers@, m.padstack_layers@)),
        (match p.drill {
            Some(d) => {
                &&& m.drill_start_layer matches Some(s) && layer_model_of(d.start_layer, s)
                &&& m.drill_end_layer matches Some(e) && layer_model_of(d.end_layer, e)
            },
            None => m.drill_start_layer is None && m.drill_end_layer is None,
        }),
{
}

/// Whether `m` models the via layers of the optional padstack `p`.
pub open spec fn opt_via_layers_model_of(p: Option<proto::PadStack>, m: Option<PcbViaLayers>) -> bool {
    match (p, m) {
        (None, None) => true,
        (Some(s), Some(l)) => via_layers_model_of(s, l),
        _ => false,
    }
}

/// The layer span of a via with the given padstack.
pub fn map_via_layers(pad_stack: &Option<proto::PadStack>) -> (r: Option<PcbViaLayers>)
    ensures
        opt_via_layers_model_of(*pad_stack, r),
{
    let pad_stack = match pad_stack {
        Some(p) => p,
        None => {
            return None;
        },
    };
    let (drill_start_layer, drill_end_layer) = match pad_stack.drill {
        Some(drill) => (Some(layer_to_model(drill.start_layer)), Some(layer_to_model(drill.end_layer))),
        None => (None, None),
    };
    Some(
        PcbViaLayers {
            padstack_layers: layers_to_model(&pad_stack.layers),
            drill_start_layer,
            drill_end_layer,
        },
    )
}

// ---------------------------------------------------------------------------
// Text attributes.
// ---------------------------------------------------------------------------
/// Whether `m` is the model of the text attributes `p`: an empty font name
/// reads as none, and an alignment as its symbolic name, or as none for a
/// value the enumeration does not define.
pub open spec fn pcb_text_attributes_model_of(p: proto::TextAttributes, m: PcbTextAttributes) -> bool {
    &&& opt_string_view(m.font_name) == non_empty(p.font_name@)
    &&& opt_string_view(m.horizontal_alignment) == horizontal_alignment_name_spec(
        p.horizontal_alignment,
    )
    &&& opt_string_view(m.vertical_alignment) == vertical_alignment_name_spec(p.vertical_alignment)
    &&& m.stroke_width_nm == opt_distance_nm(p.stroke_width)
    &&& m.italic == p.italic
    &&& m.bold == p.bold
    &&& m.underlined == p.underlined
    &&& m.mirrored == p.mirrored
    &&& m.multiline == p.multiline
    &&& m.keep_upright == p.keep_upright
    &&& m.size_nm == opt_vector_nm(p.size)
}

/// Each field of the pcb text attributes read from the API comes from the field of the same
/// role: the relation holds field by field.
pub proof fn lemma_pcb_text_attributes_read_fields(p: proto::TextAttributes, m: PcbTextAttributes)
    requires
        pcb_text_attributes_model_of(p, m),
    ensures
        (opt_string_view(m.font_name) == non_empty(p.font_name@)),
        (opt_string_view(m.horizontal_alignment) == horizontal_alignment_name_spec(
            p.horizontal_alignment,
        )),
        (opt_string_view(m.vertical_alignment) == vertical_alignment_name_spec(p.vertical_alignment)),
        keeps_length(p.stroke_width, m.stroke_width_nm),
        (m.italic == p.italic),
        (m.bold == p.bold),
        (m.underlined == p.underlined),
        (m.mirrored == p.mirrored),
        (m.multiline == p.multiline),
        (m.keep_upright == p.keep_upright),
        keeps_point(p.size, m.size_nm),
{
}

/// Whether `m` models the optional text attributes `p`.
pub open spec fn opt_pcb_text_attributes_model_of(
    p: Option<proto::TextAttributes>,
    m: Option<PcbTextAttributes>,
) -> bool {
    match (p, m) {
        (None, None) => true,
        (Some(a), Some(b)) => pcb_text_attributes_model_of(a, b),
        _ => false,
    }
}

/// Converts optional text attributes to the model.
pub fn map_text_attributes(attributes: &Option<proto::TextAttributes>) -> (r: Option<
    PcbTextAttributes,
>)
    ensures
        opt_pcb_text_attributes_model_of(*attributes, r),
{
    let attributes = match attributes {
        Some(a) => a,
        None => {
            return None;
        },
    };
    Some(
        PcbTextAttributes {
            font_name: non_empty_string(&attributes.font_name),
            horizontal_alignment: name_of(horizontal_alignment_name(attributes.horizontal_alignment)),
            vertical_alignment: name_of(vertical_alignment_name(attributes.vertical_alignment)),
            stroke_width_nm: map_optional_distance_nm(attributes.stroke_width),
            italic: attributes.italic,
            bold: attributes.bold,
            underlined: attributes.underlined,
            mirrored: attributes.mirrored,
            multiline: attributes.multiline,
            keep_upright: attributes.keep_upright,
            size_nm: map_opt_vector2_nm(attributes.size),
        },
    )
}

// ---------------------------------------------------------------------------
// Shape geometry.
// ---------------------------------------------------------------------------
/// The model of a shape's geometry; a polygon set is reported by its number
/// of polygons.
pub open spec fn geometry_model(g: proto::GraphicShapeGeometry) -> PcbGraphicShapeGeometry {
    match g {
        proto::GraphicShapeGeometry::Segment(s) => PcbGraphicShapeGeometry::Segment {
            start_nm: opt_vector_nm(s.start),
            end_nm: opt_vector_nm(s.end),
        },
        proto::GraphicShapeGeometry::Rectangle(r) => PcbGraphicShapeGeometry::Rectangle {
            top_left_nm: opt_vector_nm(r.top_left),
            bottom_right_nm: opt_vector_nm(r.bottom_right),
            corner_radius_nm: opt_distance_nm(r.corner_radius),
        },
        proto::GraphicShapeGeometry::Arc(a) => PcbGraphicShapeGeometry::Arc {
            start_nm: opt_vector_nm(a.start),
            mid_nm: opt_vector_nm(a.mid),
            end_nm: opt_vector_nm(a.end),
        },
        proto::GraphicShapeGeometry::Circle(c) => PcbGraphicShapeGeometry::Circle {
            center_nm: opt_vector_nm(c.center),
            radius_point_nm: opt_vector_nm(c.radius_point),
        },
        proto::GraphicShapeGeometry::Polygon(p) => PcbGraphicShapeGeometry::Polygon {
            polygon_count: p.polygons@.len() as usize,
        },
        proto::GraphicShapeGeometry::Bezier(b) => PcbGraphicShapeGeometry::Bezier {
            start_nm: opt_vector_nm(b.start),
            control1_nm: opt_vector_nm(b.control1),
            control2_nm: opt_vector_nm(b.control2),
            end_nm: opt_vector_nm(b.end),
        },
    }
}

/// The geometry of an optional shape, if it has one.
pub open spec fn shape_geometry(shape: Option<proto::GraphicShape>) -> Option<
    proto::GraphicShapeGeometry,
> {
    match shape {
        Some(s) => s.geometry,
        None => None,
    }
}

/// The model of the geometry of an optional shape.
pub open spec fn opt_geometry_model(shape: Option<proto::GraphicShape>) -> Option<
    PcbGraphicShapeGeometry,
> {
    match shape_geometry(shape) {
        Some(g) => Some(geometry_model(g)),
        None => None,
    }
}

/// Converts the geometry of an optional shape to the model.
pub fn map_graphic_shape_geometry(shape: &Option<proto::GraphicShape>) -> (r: Option<
    PcbGraphicShapeGeometry,
>)
    ensures
        r == opt_geometry_model(*shape),
{
    let geometry = match shape {
        Some(s) => match &s.geometry {
            Some(g) => g,
            None => {
                return None;
            },
        },
        None => {
            return None;
        },
    };
    match geometry {
        proto::GraphicShapeGeometry::Segment(s) => Some(
            PcbGraphicShapeGeometry::Segment {
                start_nm: map_opt_vector2_nm(s.start),
                end_nm: map_opt_vector2_nm(s.end),
            },
        ),
        proto::GraphicShapeGeometry::Rectangle(r) => Some(
            PcbGraphicShapeGeometry::Rectangle {
                top_left_nm: map_opt_vector2_nm(r.top_left),
                bottom_right_nm: map_opt_vector2_nm(r.bottom_right),
                corner_radius_nm: map_optional_distance_nm(r.corner_radius),
            },
        ),
        proto::GraphicShapeGeometry::Arc(a) => Some(
            PcbGraphicShapeGeometry::Arc {
                start_nm: map_opt_vector2_nm(a.start),
                mid_nm: map_opt_vector2_nm(a.mid),
                end_nm: map_opt_vector2_nm(a.end),
            },
        ),
        proto::GraphicShapeGeometry::Circle(c) => Some(
            PcbGraphicShapeGeometry::Circle {
                center_nm: map_opt_vector2_nm(c.center),
                radius_point_nm: map_opt_vector2_nm(c.radius_point),
            },
        ),
        proto::GraphicShapeGeometry::Polygon(p) => Some(
            PcbGraphicShapeGeometry::Polygon { polygon_count: p.polygons.len() },
        ),
        proto::GraphicShapeGeometry::Bezier(b) => Some(
            PcbGraphicShapeGeometry::Bezier {
                start_nm: map_opt_vector2_nm(b.start),
                control1_nm: map_opt_vector2_nm(b.control1),
                control2_nm: map_opt_vector2_nm(b.control2),
                end_nm: map_opt_vector2_nm(b.end),
            },
        ),
    }
}

/// The name of a kind of geometry.
pub open spec fn geometry_kind_name(g: proto::GraphicShapeGeometry) -> Seq<char> {
    match g {
        proto::GraphicShapeGeometry::Segment(_) => "SEGMENT"@,
        proto::GraphicShapeGeometry::Rectangle(_) => "RECTANGLE"@,
        proto::GraphicShapeGeometry::Arc(_) => "ARC"@,
        proto::GraphicShapeGeometry::Circle(_) => "CIRCLE"@,
        proto::GraphicShapeGeometry::Polygon(_) => "POLYGON"@,
        proto::GraphicShapeGeometry::Bezier(_) => "BEZIER"@,
    }
}

/// The name of the kind of geometry an optional shape has, if it has one.
pub open spec fn opt_geometry_kind(shape: Option<proto::GraphicShape>) -> Option<Seq<char>> {
    match shape_geometry(shape) {
        Some(g) => Some(geometry_kind_name(g)),
        None => None,
    }
}

/// Names the kind of geometry of an optional shape.
pub fn map_graphic_shape_kind(shape: &Option<proto::GraphicShape>) -> (r: Option<String>)
    ensures
        opt_string_view(r) == opt_geometry_kind(*shape),
{
    let geometry = match shape {
        Some(s) => match &s.geometry {
            Some(g) => g,
            None => {
                return None;
            },
        },
        None => {
            return None;
        },
    };
    let name = match geometry {
        proto::GraphicShapeGeometry::Segment(_) => "SEGMENT",
        proto::GraphicShapeGeometry::Rectangle(_) => "RECTANGLE",
        proto::GraphicShapeGeometry::Arc(_) => "ARC",
        proto::GraphicShapeGeometry::Circle(_) => "CIRCLE",
        proto::GraphicShapeGeometry::Polygon(_) => "POLYGON",
        proto::GraphicShapeGeometry::Bezier(_) => "BEZIER",
    };
    Some(owned(name))
}

// ---------------------------------------------------------------------------
// Dimension styles.
// ---------------------------------------------------------------------------
/// Whether `m` is the model of the dimension style `p`.
pub open spec fn dimension_style_model_of(p: proto::DimensionStyle, m: PcbDimensionStyle) -> bool {
    match (p, m) {
        (
            proto::DimensionStyle::Aligned(a),
            PcbDimensionStyle::Aligned { start_nm, end_nm, height_nm, extension_height_nm },
        ) => {
            &&& start_nm == opt_vector_nm(a.start)
            &&& end_nm == opt_vector_nm(a.end)
            &&& height_nm == opt_distance_nm(a.height)
            &&& extension_height_nm == opt_distance_nm(a.extension_height)
        },
        (
            proto::DimensionStyle::Orthogonal(o),
            PcbDimensionStyle::Orthogonal {
                start_nm,
                end_nm,
                height_nm,
                extension_height_nm,
                alignment,
            },
        ) => {
            &&& start_nm == opt_vector_nm(o.start)
            &&& end_nm == opt_vector_nm(o.end)
            &&& height_nm == opt_distance_nm(o.height)
            &&& extension_height_nm == opt_distance_nm(o.extension_height)
            &&& opt_string_view(alignment) == Some(
                enum_text(axis_alignment_name_spec(o.alignment), o.alignment),
            )
        },
        (
            proto::DimensionStyle::Radial(r),
            PcbDimensionStyle::Radial { center_nm, radius_point_nm, leader_length_nm },
        ) => {
            &&& center_nm == opt_vector_nm(r.center)
            &&& radius_point_nm == opt_vector_nm(r.radius_point)
            &&& leader_length_nm == opt_distance_nm(r.leader_length)
        },
        (
            proto::DimensionStyle::Leader(l),
            PcbDimensionStyle::Leader { start_nm, end_nm, border_style },
        ) => {
            &&& start_nm == opt_vector_nm(l.start)
            &&& end_nm == opt_vector_nm(l.end)
            &&& opt_string_view(border_style) == Some(
                enum_text(dimension_text_border_style_name_spec(l.border_style), l.border_style),
            )
        },
        (proto::DimensionStyle::Center(c), PcbDimensionStyle::Center { center_nm, end_nm }) => {
            &&& center_nm == opt_vector_nm(c.center)
            &&& end_nm == opt_vector_nm(c.end)
        },
        _ => false,
    }
}

/// Whether `m` models the optional dimension style `p`.
pub open spec fn opt_dimension_style_model_of(
    p: Option<proto::DimensionStyle>,
    m: Option<PcbDimensionStyle>,
) -> bool {
    match (p, m) {
        (None, None) => true,
        (Some(a), Some(b)) => dimension_style_model_of(a, b),
        _ => false,
    }
}

/// Converts an optional dimension style to the model.
pub fn map_dimension_style(style: Option<proto::DimensionStyle>) -> (r: Option<PcbDimensionStyle>)
    ensures
        opt_dimension_style_model_of(style, r),
{
    let style = match style {
        Some(s) => s,
        None => {
            return None;
        },
    };
    match style {
        proto::DimensionStyle::Aligned(a) => Some(
            PcbDimensionStyle::Aligned {
                start_nm: map_opt_vector2_nm(a.start),
                end_nm: map_opt_vector2_nm(a.end),
                height_nm: map_optional_distance_nm(a.height),
                extension_height_nm: map_optional_distance_nm(a.extension_height),
            },
        ),
        proto::DimensionStyle::Orthogonal(o) => Some(
            PcbDimensionStyle::Orthogonal {
                start_nm: map_opt_vector2_nm(o.start),
                end_nm: map_opt_vector2_nm(o.end),
                height_nm: map_optional_distance_nm(o.height),
                extension_height_nm: map_optional_distance_nm(o.extension_height),
                alignment: Some(enum_text_of(axis_alignment_name(o.alignment), o.alignment)),
            },
        ),
        proto::DimensionStyle::Radial(r) => Some(
            PcbDimensionStyle::Radial {
                center_nm: map_opt_vector2_nm(r.center),
                radius_point_nm: map_opt_vector2_nm(r.radius_point),
                leader_length_nm: map_optional_distance_nm(r.leader_length),
            },
        ),
        proto::DimensionStyle::Leader(l) => Some(
            PcbDimensionStyle::Leader {
                start_nm: map_opt_vector2_nm(l.start),
                end_nm: map_opt_vector2_nm(l.end),
                border_style: Some(
                    enum_text_of(dimension_text_border_style_name(l.border_style), l.border_style),
                ),
            },
        ),
        proto::DimensionStyle::Center(c) => Some(
            PcbDimensionStyle::Center {
                center_nm: map_opt_vector2_nm(c.center),
                end_nm: map_opt_vector2_nm(c.end),
            },
        ),
    }
}

/// The name of a kind of dimension style.
pub open spec fn dimension_style_kind_name(s: proto::DimensionStyle) -> Seq<char> {
    match s {
        proto::DimensionStyle::Aligned(_) => "ALIGNED"@,
        proto::DimensionStyle::Orthogonal(_) => "ORTHOGONAL"@,
        proto::DimensionStyle::Radial(_) => "RADIAL"@,
        proto::DimensionStyle::Leader(_) => "LEADER"@,
        proto::DimensionStyle::Center(_) => "CENTER"@,
    }
}

/// Names the kind of an optional dimension style.
pub fn dimension_style_kind(style: &Option<proto::DimensionStyle>) -> (r: Option<String>)
    ensures
        opt_string_view(r) == match *style {
            Some(s) => Some(dimension_style_kind_name(s)),
            None => None,
        },
{
    match style {
        Some(s) => {
            let name = match s {
                proto::DimensionStyle::Aligned(_) => "ALIGNED",
                proto::DimensionStyle::Orthogonal(_) => "ORTHOGONAL",
                proto::DimensionStyle::Radial(_) => "RADIAL",
                proto::DimensionStyle::Leader(_) => "LEADER",
                proto::DimensionStyle::Center(_) => "CENTER",
            };
            Some(owned(name))
        },
        None => None,
    }
}

} // verus!
