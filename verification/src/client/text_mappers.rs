//! Conversions of texts, documents and board text specifications.

use vstd::prelude::*;
use crate::client::mappers::{
    horizontal_alignment_code, horizontal_alignment_from_code, lock_state_code,
    map_opt_vector2_nm, map_optional_color, map_optional_distance_nm,
    map_polygon_with_holes, map_text_horizontal_alignment_from_proto,
    map_text_vertical_alignment_from_proto, opt_color_model, opt_distance_nm, opt_distance_proto,
    opt_vector2_nm_to_proto, opt_vector_nm, opt_vector_proto, optional_distance_to_proto,
    polygon_model_of, polygon_valid, text_horizontal_alignment_to_proto,
    text_vertical_alignment_to_proto, vertical_alignment_code, vertical_alignment_from_code,
    item_lock_state_to_proto,
};
use crate::envelope::{type_url, type_url_spec};
use crate::error::KiCadError;
use crate::model::board::BoardTextSpec;
use crate::model::common::{
    document_type_code, DocumentSpecifier, DocumentType, TextAsShapesEntry, TextAttributesSpec,
    TextBoxSpec, TextObjectSpec, TextShape, TextShapeGeometry, TextSpec,
};
use crate::model::board::PolygonWithHolesNm;
use crate::pcb_item_type_urls;
use crate::proto;
use crate::proto::F64Bits;
use crate::text::{
    non_empty, non_empty_string, opt_string_view, string_or_empty, unwrap_or_empty,
};

use crate::field_laws::{keeps_length, keeps_point};
verus! {

/// Whether `p` is the API form of the text attributes `a`: an absent font
/// is the empty font name, an absent line spacing is `1.0`, and the text is
/// visible.
pub open spec fn text_attributes_proto_of(a: TextAttributesSpec, p: proto::TextAttributes) -> bool {
    &&& p.font_name@ == string_or_empty(a.font_name)
    &&& p.horizontal_alignment == horizontal_alignment_code(a.horizontal_alignment)
    &&& p.vertical_alignment == vertical_alignment_code(a.vertical_alignment)
    &&& p.angle == match a.angle_degrees {
        Some(d) => Some(proto::Angle { value_degrees: d }),
        None => None,
    }
    &&& p.line_spacing == match a.line_spacing {
        Some(s) => s,
        None => proto::f64_one(),
    }
    &&& p.stroke_width == opt_distance_proto(a.stroke_width_nm)
    &&& p.italic == a.italic
    &&& p.bold == a.bold
    &&& p.underlined == a.underlined
    &&& p.visible
    &&& p.mirrored == a.mirrored
    &&& p.multiline == a.multiline
    &&& p.keep_upright == a.keep_upright
    &&& p.size == opt_vector_proto(a.size_nm)
}

/// Each field of the text attributes written to the API comes from the field of the same
/// role: the relation holds field by field.
pub proof fn lemma_text_attributes_write_fields(a: TextAttributesSpec, p: proto::TextAttributes)
    requires
        text_attributes_proto_of(a, p),
    ensures
        (p.font_name@ == string_or_empty(a.font_name)),
        (p.horizontal_alignment == horizontal_alignment_code(a.horizontal_alignment)),
        (p.vertical_alignment == vertical_alignment_code(a.vertical_alignment)),
        (p.angle == match a.angle_degrees {
            Some(d) => Some(proto::Angle { value_degrees: d }),
            None => None,
        }),
        (p.line_spacing == match a.line_spacing {
            Some(s) => s,
            None => proto::f64_one(),
        }),
        keeps_length(p.stroke_width, a.stroke_width_nm),
        (p.italic == a.italic),
        (p.bold == a.bold),
        (p.underlined == a.underlined),
        (p.visible),
        (p.mirrored == a.mirrored),
        (p.multiline == a.multiline),
        (p.keep_upright == a.keep_upright),
        keeps_point(p.size, a.size_nm),
{
}

/// Converts text attributes to the API's form.
pub fn text_attributes_spec_to_proto(attributes: TextAttributesSpec) -> (r: proto::TextAttributes)
    ensures
        text_attributes_proto_of(attributes, r),
{
    proto::TextAttributes {
        font_name: unwrap_or_empty(&attributes.font_name),
        horizontal_alignment: text_horizontal_alignment_to_proto(attributes.horizontal_alignment),
        vertical_alignment: text_vertical_alignment_to_proto(attributes.vertical_alignment),
        angle: match attributes.angle_degrees {
            Some(value_degrees) => Some(proto::Angle { value_degrees }),
            None => None,
        },
        line_spacing: match attributes.line_spacing {
            Some(s) => s,
            None => F64Bits { bits: 0x3FF0_0000_0000_0000 },
        },
        stroke_width: optional_distance_to_proto(attributes.stroke_width_nm),
        italic: attributes.italic,
        bold: attributes.bold,
        underlined: attributes.underlined,
        visible: true,
        mirrored: attributes.mirrored,
        multiline: attributes.multiline,
        keep_upright: attributes.keep_upright,
        size: opt_vector2_nm_to_proto(attributes.size_nm),
    }
}

/// Whether `a` is the model of the API text attributes `p`: an empty font
/// name is no font, and the line spacing is always present.
pub open spec fn text_attributes_model_of(p: proto::TextAttributes, a: TextAttributesSpec) -> bool {
    &&& opt_string_view(a.font_name) == non_empty(p.font_name@)
    &&& a.horizontal_alignment == horizontal_alignment_from_code(p.horizontal_alignment)
    &&& a.vertical_alignment == vertical_alignment_from_code(p.vertical_alignment)
    &&& a.angle_degrees == match p.angle {
        Some(angle) => Some(angle.value_degrees),
        None => None,
    }
    &&& a.line_spacing == Some(p.line_spacing)
    &&& a.stroke_width_nm == opt_distance_nm(p.stroke_width)
    &&& a.italic == p.italic
    &&& a.bold == p.bold
    &&& a.underlined == p.underlined
    &&& a.mirrored == p.mirrored
    &&& a.multiline == p.multiline
    &&& a.keep_upright == p.keep_upright
    &&& a.size_nm == opt_vector_nm(p.size)
}

/// Each field of the text attributes read from the API comes from the field of the same
/// role: the relation holds field by field.
pub proof fn lemma_text_attributes_read_fields(p: proto::TextAttributes, a: TextAttributesSpec)
    requires
        text_attributes_model_of(p, a),
    ensures
        (opt_string_view(a.font_name) == non_empty(p.font_name@)),
        (a.horizontal_alignment == horizontal_alignment_from_code(p.horizontal_alignment)),
        (a.vertical_alignment == vertical_alignment_from_code(p.vertical_alignment)),
        (a.angle_degrees == match p.angle {
            Some(angle) => Some(angle.value_degrees),
            None => None,
        }),
        (a.line_spacing == Some(p.line_spacing)),
        keeps_length(p.stroke_width, a.stroke_width_nm),
        (a.italic == p.italic),
        (a.bold == p.bold),
        (a.underlined == p.underlined),
        (a.mirrored == p.mirrored),
        (a.multiline == p.multiline),
        (a.keep_upright == p.keep_upright),
        keeps_point(p.size, a.size_nm),
{
}

/// Converts the API's text attributes to the model.
pub fn map_text_attributes_spec_from_proto(attributes: &proto::TextAttributes) -> (r:
    TextAttributesSpec)
    ensures
        text_attributes_model_of(*attributes, r),
{
    TextAttributesSpec {
        font_name: non_empty_string(&attributes.font_name),
        horizontal_alignment: map_text_horizontal_alignment_from_proto(
            attributes.horizontal_alignment,
        ),
        vertical_alignment: map_text_vertical_alignment_from_proto(attributes.vertical_alignment),
        angle_degrees: match attributes.angle {
            Some(angle) => Some(angle.value_degrees),
            None => None,
        },
        line_spacing: Some(attributes.line_spacing),
        stroke_width_nm: map_optional_distance_nm(attributes.stroke_width),
        italic: attributes.italic,
        bold: attributes.bold,
        underlined: attributes.underlined,
        mirrored: attributes.mirrored,
        multiline: attributes.multiline,
        keep_upright: attributes.keep_upright,
        size_nm: map_opt_vector2_nm(attributes.size),
    }
}

/// Whether the optional API attributes `p` are the API form of `a`.
pub open spec fn opt_text_attributes_proto_of(
    a: Option<TextAttributesSpec>,
    p: Option<proto::TextAttributes>,
) -> bool {
    match (a, p) {
        (None, None) => true,
        (Some(x), Some(y)) => text_attributes_proto_of(x, y),
        _ => false,
    }
}

/// Whether the optional model attributes `a` are the model of `p`.
pub open spec fn opt_text_attributes_model_of(
    p: Option<proto::TextAttributes>,
    a: Option<TextAttributesSpec>,
) -> bool {
    match (p, a) {
        (None, None) => true,
        (Some(x), Some(y)) => text_attributes_model_of(x, y),
        _ => false,
    }
}

fn opt_attributes_to_proto(a: Option<TextAttributesSpec>) -> (r: Option<proto::TextAttributes>)
    ensures
        opt_text_attributes_proto_of(a, r),
{
    match a {
        Some(a) => Some(text_attributes_spec_to_proto(a)),
        None => None,
    }
}

fn opt_attributes_from_proto(p: &Option<proto::TextAttributes>) -> (r: Option<TextAttributesSpec>)
    ensures
        opt_text_attributes_model_of(*p, r),
{
    match p {
        Some(p) => Some(map_text_attributes_spec_from_proto(p)),
        None => None,
    }
}

/// Whether `p` is the API form of the text `t`; an absent hyperlink is the
/// empty hyperlink.
pub open spec fn text_proto_of(t: TextSpec, p: proto::Text) -> bool {
    &&& p.position == opt_vector_proto(t.position_nm)
    &&& opt_text_attributes_proto_of(t.attributes, p.attributes)
    &&& p.text@ == t.text@
    &&& p.hyperlink@ == string_or_empty(t.hyperlink)
}

/// Each field of the text written to the API comes from the field of the same
/// role: the relation holds field by field.
pub proof fn lemma_text_write_fields(t: TextSpec, p: proto::Text)
    requires
        text_proto_of(t, p),
    ensures
        keeps_point(p.position, t.position_nm),
        (opt_text_attributes_proto_of(t.attributes, p.attributes)),
        (p.text@ == t.text@),
        (p.hyperlink@ == string_or_empty(t.hyperlink)),
{
}

/// Converts a text to the API's form.
pub fn text_spec_to_proto(text: TextSpec) -> (r: proto::Text)
    ensures
        text_proto_of(text, r),
{
    proto::Text {
        position: opt_vector2_nm_to_proto(text.position_nm),
        attributes: opt_attributes_to_proto(text.attributes),
        hyperlink: unwrap_or_empty(&text.hyperlink),
        text: text.text,
    }
}

/// Whether `t` is the model of the API text `p`; an empty hyperlink is no
/// hyperlink.
pub open spec fn text_model_of(p: proto::Text, t: TextSpec) -> bool {
    &&& t.text@ == p.text@
    &&& t.position_nm == opt_vector_nm(p.position)
    &&& opt_text_attributes_model_of(p.attributes, t.attributes)
    &&& opt_string_view(t.hyperlink) == non_empty(p.hyperlink@)
}

/// Each field of the text read from the API comes from the field of the same
/// role: the relation holds field by field.
pub proof fn lemma_text_read_fields(p: proto::Text, t: TextSpec)
    requires
        text_model_of(p, t),
    ensures
        (t.text@ == p.text@),
        keeps_point(p.position, t.position_nm),
        (opt_text_attributes_model_of(p.attributes, t.attributes)),
        (opt_string_view(t.hyperlink) == non_empty(p.hyperlink@)),
{
}

/// Converts the API's text to the model.
pub fn map_text_spec_from_proto(text: &proto::Text) -> (r: TextSpec)
    ensures
        text_model_of(*text, r),
{
    TextSpec {
        text: text.text.clone(),
        position_nm: map_opt_vector2_nm(text.position),
        attributes: opt_attributes_from_proto(&text.attributes),
        hyperlink: non_empty_string(&text.hyperlink),
    }
}

/// Whether `p` is the API form of the text box `t`.
pub open spec fn text_box_proto_of(t: TextBoxSpec, p: proto::TextBox) -> bool {
    &&& p.top_left == opt_vector_proto(t.top_left_nm)
    &&& p.bottom_right == opt_vector_proto(t.bottom_right_nm)
    &&& opt_text_attributes_proto_of(t.attributes, p.attributes)
    &&& p.text@ == t.text@
}

/// Each field of the text box written to the API comes from the field of the same
/// role: the relation holds field by field.
pub proof fn lemma_text_box_write_fields(t: TextBoxSpec, p: proto::TextBox)
    requires
        text_box_proto_of(t, p),
    ensures
        keeps_point(p.top_left, t.top_left_nm),
        keeps_point(p.bottom_right, t.bottom_right_nm),
        (opt_text_attributes_proto_of(t.attributes, p.attributes)),
        (p.text@ == t.text@),
{
}

/// Converts a text box to the API's form.
pub fn text_box_spec_to_proto(text: TextBoxSpec) -> (r: proto::TextBox)
    ensures
        text_box_proto_of(text, r),
{
    proto::TextBox {
        top_left: opt_vector2_nm_to_proto(text.top_left_nm),
        bottom_right: opt_vector2_nm_to_proto(text.bottom_right_nm),
        attributes: opt_attributes_to_proto(text.attributes),
        text: text.text,
    }
}

/// Whether `t` is the model of the API text box `p`.
pub open spec fn text_box_model_of(p: proto::TextBox, t: TextBoxSpec) -> bool {
    &&& t.text@ == p.text@
    &&& t.top_left_nm == opt_vector_nm(p.top_left)
    &&& t.bottom_right_nm == opt_vector_nm(p.bottom_right)
    &&& opt_text_attributes_model_of(p.attributes, t.attributes)
}

/// Each field of the text box read from the API comes from the field of the same
/// role: the relation holds field by field.
pub proof fn lemma_text_box_read_fields(p: proto::TextBox, t: TextBoxSpec)
    requires
        text_box_model_of(p, t),
    ensures
        (t.text@ == p.text@),
        keeps_point(p.top_left, t.top_left_nm),
        keeps_point(p.bottom_right, t.bottom_right_nm),
        (opt_text_attributes_model_of(p.attributes, t.attributes)),
{
}

/// Converts the API's text box to the model.
pub fn map_text_box_spec_from_proto(text: &proto::TextBox) -> (r: TextBoxSpec)
    ensures
        text_box_model_of(*text, r),
{
    TextBoxSpec {
        text: text.text.clone(),
        top_left_nm: map_opt_vector2_nm(text.top_left),
        bottom_right_nm: map_opt_vector2_nm(text.bottom_right),
        attributes: opt_attributes_from_proto(&text.attributes),
    }
}

/// Converts a text or text box to the API's form.
pub fn text_object_spec_to_proto(text: TextObjectSpec) -> (r: proto::TextOrTextBox)
    ensures
        match text {
            TextObjectSpec::Text(t) => r.inner matches Some(proto::TextOrTextBoxInner::Text(p))
                && text_proto_of(t, p),
            TextObjectSpec::TextBox(t) => r.inner matches Some(
                proto::TextOrTextBoxInner::Textbox(p),
            ) && text_box_proto_of(t, p),
        },
{
    let inner = match text {
        TextObjectSpec::Text(value) => proto::TextOrTextBoxInner::Text(text_spec_to_proto(value)),
        TextObjectSpec::TextBox(value) => proto::TextOrTextBoxInner::Textbox(
            text_box_spec_to_proto(value),
        ),
    };
    proto::TextOrTextBox { inner: Some(inner) }
}

/// Converts the API's text or text box to the model; `None` when it holds
/// neither.
pub fn map_text_object_spec_from_proto(text: &proto::TextOrTextBox) -> (r: Option<TextObjectSpec>)
    ensures
        match text.inner {
            Some(proto::TextOrTextBoxInner::Text(p)) => r matches Some(TextObjectSpec::Text(t))
                && text_model_of(p, t),
            Some(proto::TextOrTextBoxInner::Textbox(p)) => r matches Some(
                TextObjectSpec::TextBox(t),
            ) && text_box_model_of(p, t),
            None => r is None,
        },
{
    match &text.inner {
        Some(proto::TextOrTextBoxInner::Text(value)) => Some(
            TextObjectSpec::Text(map_text_spec_from_proto(value)),
        ),
        Some(proto::TextOrTextBoxInner::Textbox(value)) => Some(
            TextObjectSpec::TextBox(map_text_box_spec_from_proto(value)),
        ),
        None => None,
    }
}

/// Whether every polygon of a polygon set is valid.
pub open spec fn polygons_valid(polygons: Seq<proto::PolygonWithHoles>) -> bool {
    forall|i: int| 0 <= i < polygons.len() ==> polygon_valid(#[trigger] polygons[i])
}

/// Whether `m` is the model of the valid polygons `polygons`, one for one.
pub open spec fn polygons_model_of(polygons: Seq<proto::PolygonWithHoles>, m: Seq<PolygonWithHolesNm>) -> bool {
    m.len() == polygons.len() && forall|i: int|
        0 <= i < polygons.len() ==> polygon_model_of(polygons[i], #[trigger] m[i])
}

/// Converts a list of API polygons to the model; fails on the first polyline
/// node without a model.
pub fn map_polygons(polygons: &Vec<proto::PolygonWithHoles>) -> (r: Result<
    Vec<PolygonWithHolesNm>,
    KiCadError,
>)
    ensures
        r is Ok <==> polygons_valid(polygons@),
        r matches Ok(m) ==> polygons_model_of(polygons@, m@),
        r matches Err(e) ==> e is InvalidResponse,
{
    let mut out: Vec<PolygonWithHolesNm> = Vec::new();
    let n = polygons.len();
    let mut i: usize = 0;
    while i < n
        invariant
            n == polygons@.len(),
            i <= n,
            out@.len() == i,
            forall|j: int| 0 <= j < i ==> polygon_valid(#[trigger] polygons@[j]),
            forall|j: int| 0 <= j < i ==> polygon_model_of(polygons@[j], #[trigger] out@[j]),
        decreases n - i,
    {
        let p = map_polygon_with_holes(&polygons[i])?;
        out.push(p);
        i = i + 1;
    }
    Ok(out)
}

/// Whether a shape's geometry can be converted: only a polygon set can fail.
pub open spec fn text_shape_geometry_valid(shape: proto::GraphicShape) -> bool {
    match shape.geometry {
        Some(proto::GraphicShapeGeometry::Polygon(set)) => polygons_valid(set.polygons@),
        _ => true,
    }
}

/// Whether `g` is the model of the geometry of the valid shape `shape`.
pub open spec fn text_shape_geometry_model_of(shape: proto::GraphicShape, g: TextShapeGeometry) -> bool {
    match shape.geometry {
        Some(proto::GraphicShapeGeometry::Segment(s)) => g == TextShapeGeometry::Segment {
            start_nm: opt_vector_nm(s.start),
            end_nm: opt_vector_nm(s.end),
        },
        Some(proto::GraphicShapeGeometry::Rectangle(rect)) => g == TextShapeGeometry::Rectangle {
            top_left_nm: opt_vector_nm(rect.top_left),
            bottom_right_nm: opt_vector_nm(rect.bottom_right),
            corner_radius_nm: opt_distance_nm(rect.corner_radius),
        },
        Some(proto::GraphicShapeGeometry::Arc(arc)) => g == TextShapeGeometry::Arc {
            start_nm: opt_vector_nm(arc.start),
            mid_nm: opt_vector_nm(arc.mid),
            end_nm: opt_vector_nm(arc.end),
        },
        Some(proto::GraphicShapeGeometry::Circle(c)) => g == TextShapeGeometry::Circle {
            center_nm: opt_vector_nm(c.center),
            radius_point_nm: opt_vector_nm(c.radius_point),
        },
        Some(proto::GraphicShapeGeometry::Polygon(set)) => g matches TextShapeGeometry::Polygon {
            polygons,
        } && polygons_model_of(set.polygons@, polygons@),
        Some(proto::GraphicShapeGeometry::Bezier(b)) => g == TextShapeGeometry::Bezier {
            start_nm: opt_vector_nm(b.start),
            control1_nm: opt_vector_nm(b.control1),
            control2_nm: opt_vector_nm(b.control2),
            end_nm: opt_vector_nm(b.end),
        },
        None => g == TextShapeGeometry::Unknown,
    }
}

/// Converts the geometry of a rendered text shape to the model.
pub fn map_text_shape_geometry(shape: &proto::GraphicShape) -> (r: Result<
    TextShapeGeometry,
    KiCadError,
>)
    ensures
        r is Ok <==> text_shape_geometry_valid(*shape),
        r matches Ok(g) ==> text_shape_geometry_model_of(*shape, g),
        r matches Err(e) ==> e is InvalidResponse,
{
    match &shape.geometry {
        Some(proto::GraphicShapeGeometry::Segment(segment)) => Ok(
            TextShapeGeometry::Segment {
                start_nm: map_opt_vector2_nm(segment.start),
                end_nm: map_opt_vector2_nm(segment.end),
            },
        ),
        Some(proto::GraphicShapeGeometry::Rectangle(rectangle)) => Ok(
            TextShapeGeometry::Rectangle {
                top_left_nm: map_opt_vector2_nm(rectangle.top_left),
                bottom_right_nm: map_opt_vector2_nm(rectangle.bottom_right),
                corner_radius_nm: map_optional_distance_nm(rectangle.corner_radius),
            },
        ),
        Some(proto::GraphicShapeGeometry::Arc(arc)) => Ok(
            TextShapeGeometry::Arc {
                start_nm: map_opt_vector2_nm(arc.start),
                mid_nm: map_opt_vector2_nm(arc.mid),
                end_nm: map_opt_vector2_nm(arc.end),
            },
        ),
        Some(proto::GraphicShapeGeometry::Circle(circle)) => Ok(
            TextShapeGeometry::Circle {
                center_nm: map_opt_vector2_nm(circle.center),
                radius_point_nm: map_opt_vector2_nm(circle.radius_point),
            },
        ),
        Some(proto::GraphicShapeGeometry::Polygon(polygon)) => {
            let polygons = map_polygons(&polygon.polygons)?;
            Ok(TextShapeGeometry::Polygon { polygons })
        },
        Some(proto::GraphicShapeGeometry::Bezier(bezier)) => Ok(
            TextShapeGeometry::Bezier {
                start_nm: map_opt_vector2_nm(bezier.start),
                control1_nm: map_opt_vector2_nm(bezier.control1),
                control2_nm: map_opt_vector2_nm(bezier.control2),
                end_nm: map_opt_vector2_nm(bezier.end),
            },
        ),
        None => Ok(TextShapeGeometry::Unknown),
    }
}

/// The attributes of a shape, with absent attributes standing for none set.
pub open spec fn shape_attributes(shape: proto::GraphicShape) -> proto::GraphicAttributes {
    match shape.attributes {
        Some(a) => a,
        None => proto::GraphicAttributes { stroke: None, fill: None },
    }
}

/// Whether `t` is the model of the valid rendered text shape `shape`.
pub open spec fn text_shape_model_of(shape: proto::GraphicShape, t: TextShape) -> bool {
    let attributes = shape_attributes(shape);
    &&& text_shape_geometry_model_of(shape, t.geometry)
    &&& t.stroke_width_nm == match attributes.stroke {
        Some(s) => opt_distance_nm(s.width),
        None => None,
    }
    &&& t.stroke_style == match attributes.stroke {
        Some(s) => Some(s.style),
        None => None,
    }
    &&& t.stroke_color == match attributes.stroke {
        Some(s) => opt_color_model(s.color),
        None => None,
    }
    &&& t.fill_type == match attributes.fill {
        Some(f) => Some(f.fill_type),
        None => None,
    }
    &&& t.fill_color == match attributes.fill {
        Some(f) => opt_color_model(f.color),
        None => None,
    }
}

/// Converts a rendered text shape to the model.
pub fn map_text_shape(shape: &proto::GraphicShape) -> (r: Result<TextShape, KiCadError>)
    ensures
        r is Ok <==> text_shape_geometry_valid(*shape),
        r matches Ok(t) ==> text_shape_model_of(*shape, t),
        r matches Err(e) ==> e is InvalidResponse,
{
    let geometry = map_text_shape_geometry(shape)?;
    let attributes = match shape.attributes {
        Some(a) => a,
        None => proto::GraphicAttributes { stroke: None, fill: None },
    };
    let stroke = attributes.stroke;
    let fill = attributes.fill;
    Ok(
        TextShape {
            geometry,
            stroke_width_nm: match stroke {
                Some(s) => map_optional_distance_nm(s.width),
                None => None,
            },
            stroke_style: match stroke {
                Some(s) => Some(s.style),
                None => None,
            },
            stroke_color: match stroke {
                Some(s) => map_optional_color(s.color),
                None => None,
            },
            fill_type: match fill {
                Some(f) => Some(f.fill_type),
                None => None,
            },
            fill_color: match fill {
                Some(f) => map_optional_color(f.color),
                None => None,
            },
        },
    )
}

/// The shapes of a text-with-shapes row, absent shapes standing for none.
pub open spec fn row_shapes(row: proto::TextWithShapes) -> Seq<proto::GraphicShape> {
    match row.shapes {
        Some(compound) => compound.shapes@,
        None => Seq::empty(),
    }
}

/// Converts a text rendered as shapes to the model; fails when one of its
/// shapes holds a polygon with an invalid node.
pub fn map_text_with_shapes(row: &proto::TextWithShapes) -> (r: Result<TextAsShapesEntry, KiCadError>)
    ensures
        r is Ok <==> forall|i: int|
            0 <= i < row_shapes(*row).len() ==> text_shape_geometry_valid(
                #[trigger] row_shapes(*row)[i],
            ),
        r matches Ok(entry) ==> {
            &&& match row.text {
                Some(t) => match t.inner {
                    Some(proto::TextOrTextBoxInner::Text(p)) => entry.source matches Some(
                        TextObjectSpec::Text(s),
                    ) && text_model_of(p, s),
                    Some(proto::TextOrTextBoxInner::Textbox(p)) => entry.source matches Some(
                        TextObjectSpec::TextBox(s),
                    ) && text_box_model_of(p, s),
                    None => entry.source is None,
                },
                None => entry.source is None,
            }
            &&& entry.shapes@.len() == row_shapes(*row).len()
            &&& forall|i: int|
                0 <= i < row_shapes(*row).len() ==> text_shape_model_of(
                    row_shapes(*row)[i],
                    #[trigger] entry.shapes@[i],
                )
        },
        r matches Err(e) ==> e is InvalidResponse,
{
    let source = match &row.text {
        Some(t) => map_text_object_spec_from_proto(t),
        None => None,
    };
    let mut shapes: Vec<TextShape> = Vec::new();
    match &row.shapes {
        Some(compound) => {
            let n = compound.shapes.len();
            let mut i: usize = 0;
            while i < n
                invariant
                    n == compound.shapes@.len(),
                    row_shapes(*row) == compound.shapes@,
                    i <= n,
                    shapes@.len() == i,
                    forall|j: int|
                        0 <= j < i ==> text_shape_geometry_valid(#[trigger] compound.shapes@[j]),
                    forall|j: int|
                        0 <= j < i ==> text_shape_model_of(
                            compound.shapes@[j],
                            #[trigger] shapes@[j],
                        ),
                decreases n - i,
            {
                let shape = map_text_shape(&compound.shapes[i])?;
                shapes.push(shape);
                i = i + 1;
            }
        },
        None => {},
    }
    Ok(TextAsShapesEntry { source, shapes })
}

/// Whether `p` is the API form of the board text specification `spec`.
pub open spec fn board_text_proto_of(spec: BoardTextSpec, p: proto::BoardText) -> bool {
    &&& match (spec.id, p.id) {
        (None, None) => true,
        (Some(i), Some(k)) => k.value@ == i@,
        _ => false,
    }
    &&& p.text matches Some(t) && text_proto_of(spec.text, t)
    &&& p.layer == spec.layer_id
    &&& p.knockout == spec.knockout
    &&& p.locked == lock_state_code(spec.locked)
}

/// Each field of the board text written to the API comes from the field of the same
/// role: the relation holds field by field.
pub proof fn lemma_board_text_write_fields(spec: BoardTextSpec, p: proto::BoardText)
    requires
        board_text_proto_of(spec, p),
    ensures
        (match (spec.id, p.id) {
            (None, None) => true,
            (Some(i), Some(k)) => k.value@ == i@,
            _ => false,
        }),
        (p.text matches Some(t) && text_proto_of(spec.text, t)),
        (p.layer == spec.layer_id),
        (p.knockout == spec.knockout),
        (p.locked == lock_state_code(spec.locked)),
{
}

/// Converts a board text specification to the API's board text.
pub fn board_text_spec_to_proto(spec: BoardTextSpec) -> (r: proto::BoardText)
    ensures
        board_text_proto_of(spec, r),
{
    proto::BoardText {
        id: match spec.id {
            Some(value) => Some(proto::Kiid { value }),
            None => None,
        },
        text: Some(text_spec_to_proto(spec.text)),
        layer: spec.layer_id,
        knockout: spec.knockout,
        locked: item_lock_state_to_proto(spec.locked),
    }
}

/// Packs a board text specification as a board text payload.
pub fn board_text_spec_to_any(spec: BoardTextSpec) -> (r: proto::Any)
    ensures
        r.type_url@ == type_url_spec(pcb_item_type_urls::BOARD_TEXT@),
        r.value matches proto::AnyValue::BoardText(p) && board_text_proto_of(spec, p),
{
    proto::Any {
        type_url: type_url(pcb_item_type_urls::BOARD_TEXT),
        value: proto::AnyValue::BoardText(board_text_spec_to_proto(spec)),
    }
}

/// Converts a document descriptor to the API's form: the project always
/// present (absent name and path as empty texts), and the board filename as
/// the identifier when there is one.
pub fn model_document_to_proto(document: &DocumentSpecifier) -> (r: proto::DocumentSpecifier)
    ensures
        r.doc_type == document_type_code(document.document_type),
        r.project matches Some(p) && p.name@ == string_or_empty(document.project.name) && p.path@
            == string_or_empty(document.project.path),
        match document.board_filename {
            Some(f) => r.identifier matches Some(proto::DocumentIdentifier::BoardFilename(g))
                && g@ == f@,
            None => r.identifier is None,
        },
{
    let identifier = match &document.board_filename {
        Some(filename) => Some(proto::DocumentIdentifier::BoardFilename(filename.clone())),
        None => None,
    };
    let project = proto::ProjectSpecifier {
        name: unwrap_or_empty(&document.project.name),
        path: unwrap_or_empty(&document.project.path),
    };
    proto::DocumentSpecifier {
        doc_type: document.document_type.to_proto(),
        project: Some(project),
        identifier,
    }
}

/// The document descriptor of the project: project type, an empty project
/// specifier, and no identifier.
pub fn project_document_proto() -> (r: proto::DocumentSpecifier)
    ensures
        r.doc_type == document_type_code(DocumentType::Project),
        r.project matches Some(p) && p.name@.len() == 0 && p.path@.len() == 0,
        r.identifier is None,
{
    proto::DocumentSpecifier {
        doc_type: DocumentType::Project.to_proto(),
        project: Some(proto::ProjectSpecifier { name: String::new(), path: String::new() }),
        identifier: None,
    }
}

} // verus!
