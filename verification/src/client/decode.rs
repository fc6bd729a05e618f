//! Decoding of board item payloads into typed [`PcbItem`]s.

use vstd::prelude::*;
use crate::client::item_mappers::{
    dimension_style_kind, dimension_style_kind_name, enum_text, enum_text_of, map_dimension_style,
    map_graphic_shape_geometry, map_graphic_shape_kind, map_pad_stack, map_text_attributes,
    map_via_layers, opt_dimension_style_model_of, opt_geometry_kind, opt_geometry_model,
    opt_pad_stack_model_of, opt_pcb_text_attributes_model_of, opt_via_layers_model_of,
};
use crate::client::mappers::{
    layer_model_of, layer_to_model, layers_model_of, layers_to_model, lock_state_from_code,
    map_lock_state, map_opt_vector2_nm, map_optional_distance_nm, map_optional_net, map_via_type,
    net_model_of, opt_distance_nm, opt_vector_nm, via_type_from_code,
};
use crate::envelope::{type_url, type_url_spec};
use crate::error::KiCadError;
use crate::model::board::{
    PadNetEntry, PcbArc, PcbBarcode, PcbBarcodeErrorCorrection, PcbBarcodeKind, PcbBoardGraphicShape,
    PcbBoardText, PcbBoardTextBox, PcbDimension, PcbField, PcbFootprint, PcbFootprintSymbolLink,
    PcbGroup, PcbItem, PcbPad, PcbPadType, PcbReferenceImage, PcbSymbolPinInfo, PcbTrack,
    PcbUnknownItem, PcbVia, PcbZone, PcbZoneLayerProperty, PcbZoneType,
};
use crate::pcb_item_type_urls as urls;
use crate::proto;
use crate::proto_enums::{
    dimension_arrow_direction_name, dimension_arrow_direction_name_spec, dimension_precision_name,
    dimension_precision_name_spec, dimension_text_position_name, dimension_text_position_name_spec,
    dimension_unit_format_name, dimension_unit_format_name_spec, dimension_unit_name,
    dimension_unit_name_spec, electrical_pin_type_name, electrical_pin_type_name_spec,
    graphic_fill_type_name, graphic_fill_type_name_spec, stroke_line_style_name,
    stroke_line_style_name_spec, zone_border_style_name, zone_border_style_name_spec,
};
use crate::text::{
    copy_opt_string, copy_string, non_empty, non_empty_string, opt_string_view, owned, push_str, str_eq,
};

use crate::field_laws::{keeps_length, keeps_point};
verus! {

// ---------------------------------------------------------------------------
// Enumerations.
// ---------------------------------------------------------------------------
/// The pad type a wire value stands for.
pub open spec fn pad_type_from_code(value: i32) -> PcbPadType {
    if value == proto::PT_PTH {
        PcbPadType::Pth
    } else if value == proto::PT_SMD {
        PcbPadType::Smd
    } else if value == proto::PT_EDGE_CONNECTOR {
        PcbPadType::EdgeConnector
    } else if value == proto::PT_NPTH {
        PcbPadType::Npth
    } else {
        PcbPadType::Unknown(value)
    }
}

/// Converts a pad type wire value to the model.
pub fn map_pad_type(value: i32) -> (r: PcbPadType)
    ensures
        r == pad_type_from_code(value),
{
    if value == proto::PT_PTH {
        PcbPadType::Pth
    } else if value == proto::PT_SMD {
        PcbPadType::Smd
    } else if value == proto::PT_EDGE_CONNECTOR {
        PcbPadType::EdgeConnector
    } else if value == proto::PT_NPTH {
        PcbPadType::Npth
    } else {
        PcbPadType::Unknown(value)
    }
}

/// The zone type a wire value stands for.
pub open spec fn zone_type_from_code(value: i32) -> PcbZoneType {
    if value == proto::ZT_COPPER {
        PcbZoneType::Copper
    } else if value == proto::ZT_GRAPHICAL {
        PcbZoneType::Graphical
    } else if value == proto::ZT_RULE_AREA {
        PcbZoneType::RuleArea
    } else if value == proto::ZT_TEARDROP {
        PcbZoneType::Teardrop
    } else {
        PcbZoneType::Unknown(value)
    }
}

/// Converts a zone type wire value to the model.
pub fn map_zone_type(value: i32) -> (r: PcbZoneType)
    ensures
        r == zone_type_from_code(value),
{
    if value == proto::ZT_COPPER {
        PcbZoneType::Copper
    } else if value == proto::ZT_GRAPHICAL {
        PcbZoneType::Graphical
    } else if value == proto::ZT_RULE_AREA {
        PcbZoneType::RuleArea
    } else if value == proto::ZT_TEARDROP {
        PcbZoneType::Teardrop
    } else {
        PcbZoneType::Unknown(value)
    }
}

/// The barcode kind a wire value stands for.
pub open spec fn barcode_kind_from_code(value: i32) -> PcbBarcodeKind {
    if value == proto::BK_UNKNOWN {
        PcbBarcodeKind::Unknown
    } else if value == proto::BK_CODE_39 {
        PcbBarcodeKind::Code39
    } else if value == proto::BK_CODE_128 {
        PcbBarcodeKind::Code128
    } else if value == proto::BK_DATA_MATRIX {
        PcbBarcodeKind::DataMatrix
    } else if value == proto::BK_QR_CODE {
        PcbBarcodeKind::QrCode
    } else if value == proto::BK_MICRO_QR_CODE {
        PcbBarcodeKind::MicroQrCode
    } else {
        PcbBarcodeKind::Unrecognized(value)
    }
}

/// Converts a barcode kind wire value to the model.
pub fn map_barcode_kind(value: i32) -> (r: PcbBarcodeKind)
    ensures
        r == barcode_kind_from_code(value),
{
    if value == proto::BK_UNKNOWN {
        PcbBarcodeKind::Unknown
    } else if value == proto::BK_CODE_39 {
        PcbBarcodeKind::Code39
    } else if value == proto::BK_CODE_128 {
        PcbBarcodeKind::Code128
    } else if value == proto::BK_DATA_MATRIX {
        PcbBarcodeKind::DataMatrix
    } else if value == proto::BK_QR_CODE {
        PcbBarcodeKind::QrCode
    } else if value == proto::BK_MICRO_QR_CODE {
        PcbBarcodeKind::MicroQrCode
    } else {
        PcbBarcodeKind::Unrecognized(value)
    }
}

/// The barcode error correction level a wire value stands for.
pub open spec fn barcode_error_correction_from_code(value: i32) -> PcbBarcodeErrorCorrection {
    if value == proto::BEC_UNKNOWN {
        PcbBarcodeErrorCorrection::Unknown
    } else if value == proto::BEC_L {
        PcbBarcodeErrorCorrection::L
    } else if value == proto::BEC_M {
        PcbBarcodeErrorCorrection::M
    } else if value == proto::BEC_Q {
        PcbBarcodeErrorCorrection::Q
    } else if value == proto::BEC_H {
        PcbBarcodeErrorCorrection::H
    } else {
        PcbBarcodeErrorCorrection::Unrecognized(value)
    }
}

/// Converts a barcode error correction wire value to the model.
pub fn map_barcode_error_correction(value: i32) -> (r: PcbBarcodeErrorCorrection)
    ensures
        r == barcode_error_correction_from_code(value),
{
    if value == proto::BEC_UNKNOWN {
        PcbBarcodeErrorCorrection::Unknown
    } else if value == proto::BEC_L {
        PcbBarcodeErrorCorrection::L
    } else if value == proto::BEC_M {
        PcbBarcodeErrorCorrection::M
    } else if value == proto::BEC_Q {
        PcbBarcodeErrorCorrection::Q
    } else if value == proto::BEC_H {
        PcbBarcodeErrorCorrection::H
    } else {
        PcbBarcodeErrorCorrection::Unrecognized(value)
    }
}

// ---------------------------------------------------------------------------
// Shared pieces.
// ---------------------------------------------------------------------------
/// The value of an optional item id.
pub open spec fn opt_kiid_value(id: Option<proto::Kiid>) -> Option<Seq<char>> {
    match id {
        Some(k) => Some(k.value@),
        None => None,
    }
}

/// Copies the value of an optional item id.
pub fn kiid_value_of(id: &Option<proto::Kiid>) -> (r: Option<String>)
    ensures
        opt_string_view(r) == opt_kiid_value(*id),
{
    match id {
        Some(k) => Some(copy_string(&k.value)),
        None => None,
    }
}

/// The shown text of an optional footprint field, if it has a non-empty one.
pub open spec fn field_text(field: Option<proto::Field>) -> Option<Seq<char>> {
    match field {
        Some(f) => match f.text {
            Some(bt) => match bt.text {
                Some(t) => non_empty(t.text@),
                None => None,
            },
            None => None,
        },
        None => None,
    }
}

fn field_text_of(field: &Option<proto::Field>) -> (r: Option<String>)
    ensures
        opt_string_view(r) == field_text(*field),
{
    match field {
        Some(f) => match &f.text {
            Some(bt) => match &bt.text {
                Some(t) => non_empty_string(&t.text),
                None => None,
            },
            None => None,
        },
        None => None,
    }
}

// ---------------------------------------------------------------------------
// Tracks, arcs and vias.
// ---------------------------------------------------------------------------
/// Whether `m` is the model of the track `p`.
pub open spec fn track_model_of(p: proto::Track, m: PcbTrack) -> bool {
    &&& opt_string_view(m.id) == opt_kiid_value(p.id)
    &&& m.start_nm == opt_vector_nm(p.start)
    &&& m.end_nm == opt_vector_nm(p.end)
    &&& m.width_nm == opt_distance_nm(p.width)
    &&& m.locked == lock_state_from_code(p.locked)
    &&& layer_model_of(p.layer, m.layer)
    &&& net_model_of(p.net, m.net)
}

/// Each field of the track read from the API comes from the field of the same
/// role: the relation holds field by field.
pub proof fn lemma_track_read_fields(p: proto::Track, m: PcbTrack)
    requires
        track_model_of(p, m),
    ensures
        (opt_string_view(m.id) == opt_kiid_value(p.id)),
        keeps_point(p.start, m.start_nm),
        keeps_point(p.end, m.end_nm),
        keeps_length(p.width, m.width_nm),
        (m.locked == lock_state_from_code(p.locked)),
        (layer_model_of(p.layer, m.layer)),
        (net_model_of(p.net, m.net)),
{
}

fn decode_track(p: &proto::Track) -> (m: PcbTrack)
    ensures
        track_model_of(*p, m),
{
    PcbTrack {
        id: kiid_value_of(&p.id),
        start_nm: map_opt_vector2_nm(p.start),
        end_nm: map_opt_vector2_nm(p.end),
        width_nm: map_optional_distance_nm(p.width),
        locked: map_lock_state(p.locked),
        layer: layer_to_model(p.layer),
        net: map_optional_net(&p.net),
    }
}

/// Whether `m` is the model of the arc `p`.
pub open spec fn arc_model_of(p: proto::Arc, m: PcbArc) -> bool {
    &&& opt_string_view(m.id) == opt_kiid_value(p.id)
    &&& m.start_nm == opt_vector_nm(p.start)
    &&& m.mid_nm == opt_vector_nm(p.mid)
    &&& m.end_nm == opt_vector_nm(p.end)
    &&& m.width_nm == opt_distance_nm(p.width)
    &&& m.locked == lock_state_from_code(p.locked)
    &&& layer_model_of(p.layer, m.layer)
    &&& net_model_of(p.net, m.net)
}

/// Each field of the arc read from the API comes from the field of the same
/// role: the relation holds field by field.
pub proof fn lemma_arc_read_fields(p: proto::Arc, m: PcbArc)
    requires
        arc_model_of(p, m),
    ensures
        (opt_string_view(m.id) == opt_kiid_value(p.id)),
        keeps_point(p.start, m.start_nm),
        keeps_point(p.mid, m.mid_nm),
        keeps_point(p.end, m.end_nm),
        keeps_length(p.width, m.width_nm),
        (m.locked == lock_state_from_code(p.locked)),
        (layer_model_of(p.layer, m.layer)),
        (net_model_of(p.net, m.net)),
{
}

fn decode_arc(p: &proto::Arc) -> (m: PcbArc)
    ensures
        arc_model_of(*p, m),
{
    PcbArc {
        id: kiid_value_of(&p.id),
        start_nm: map_opt_vector2_nm(p.start),
        mid_nm: map_opt_vector2_nm(p.mid),
        end_nm: map_opt_vector2_nm(p.end),
        width_nm: map_optional_distance_nm(p.width),
        locked: map_lock_state(p.locked),
        layer: layer_to_model(p.layer),
        net: map_optional_net(&p.net),
    }
}

/// Whether `m` is the model of the via `p`.
pub open spec fn via_model_of(p: proto::Via, m: PcbVia) -> bool {
    &&& opt_string_view(m.id) == opt_kiid_value(p.id)
    &&& m.position_nm == opt_vector_nm(p.position)
    &&& m.via_type == via_type_from_code(p.via_type)
    &&& m.locked == lock_state_from_code(p.locked)
    &&& opt_via_layers_model_of(p.pad_stack, m.layers)
    &&& opt_pad_stack_model_of(p.pad_stack, m.pad_stack)
    &&& net_model_of(p.net, m.net)
}

/// Each field of the via read from the API comes from the field of the same
/// role: the relation holds field by field.
pub proof fn lemma_via_read_fields(p: proto::Via, m: PcbVia)
    requires
        via_model_of(p, m),
    ensures
        (opt_string_view(m.id) == opt_kiid_value(p.id)),
        keeps_point(p.position, m.position_nm),
        (m.via_type == via_type_from_code(p.via_type)),
        (m.locked == lock_state_from_code(p.locked)),
        (opt_via_layers_model_of(p.pad_stack, m.layers)),
        (opt_pad_stack_model_of(p.pad_stack, m.pad_stack)),
        (net_model_of(p.net, m.net)),
{
}

fn decode_via(p: &proto::Via) -> (m: PcbVia)
    ensures
        via_model_of(*p, m),
{
    PcbVia {
        id: kiid_value_of(&p.id),
        position_nm: map_opt_vector2_nm(p.position),
        via_type: map_via_type(p.via_type),
        locked: map_lock_state(p.locked),
        layers: map_via_layers(&p.pad_stack),
        pad_stack: map_pad_stack(&p.pad_stack),
        net: map_optional_net(&p.net),
    }
}

// ---------------------------------------------------------------------------
// Footprints and pads.
// ---------------------------------------------------------------------------
/// Whether a payload is a pad: it carries the pad type URL and a pad.
pub open spec fn is_pad_payload(a: proto::Any) -> bool {
    a.type_url@ == type_url_spec(urls::PAD@) && a.value is Pad
}

/// The number of pads among the payloads `items`.
pub open spec fn pad_payload_count(items: Seq<proto::Any>) -> nat
    decreases items.len(),
{
    if items.len() == 0 {
        0
    } else {
        pad_payload_count(items.drop_last()) + if is_pad_payload(items.last()) {
            1nat
        } else {
            0nat
        }
    }
}

/// The payloads of a footprint definition (none when it has no definition).
pub open spec fn definition_items(d: Option<proto::Footprint>) -> Seq<proto::Any> {
    match d {
        Some(f) => f.items@,
        None => Seq::empty(),
    }
}

/// Whether `link` is the symbol link of the footprint `p`: present exactly
/// when the footprint has a symbol path or a non-empty sheet name, sheet file
/// name or footprint filter.
pub open spec fn symbol_link_model_of(
    p: proto::FootprintInstance,
    link: Option<PcbFootprintSymbolLink>,
) -> bool {
    let sheet_name = non_empty(p.symbol_sheet_name@);
    let sheet_filename = non_empty(p.symbol_sheet_filename@);
    let filters = non_empty(p.symbol_footprint_filters@);
    let present = p.symbol_path is Some || sheet_name is Some || sheet_filename is Some
        || filters is Some;
    match link {
        Some(l) => {
            &&& present
            &&& l.has_symbol_path == (p.symbol_path is Some)
            &&& opt_string_view(l.sheet_name) == sheet_name
            &&& opt_string_view(l.sheet_filename) == sheet_filename
            &&& opt_string_view(l.footprint_filters) == filters
        },
        None => !present,
    }
}

/// Whether `m` is the model of the footprint `p`: its fields' texts, and
/// the number of items and of pads its definition holds.
pub open spec fn footprint_model_of(p: proto::FootprintInstance, m: PcbFootprint) -> bool {
    &&& opt_string_view(m.id) == opt_kiid_value(p.id)
    &&& opt_string_view(m.reference) == field_text(p.reference_field)
    &&& m.position_nm == opt_vector_nm(p.position)
    &&& m.orientation_deg == match p.orientation {
        Some(a) => Some(a.value_degrees),
        None => None,
    }
    &&& layer_model_of(p.layer, m.layer)
    &&& m.locked == lock_state_from_code(p.locked)
    &&& opt_string_view(m.value) == field_text(p.value_field)
    &&& opt_string_view(m.datasheet) == field_text(p.datasheet_field)
    &&& opt_string_view(m.description) == field_text(p.description_field)
    &&& m.has_attributes == (p.attributes is Some)
    &&& m.has_overrides == (p.overrides is Some)
    &&& m.has_definition == (p.definition is Some)
    &&& m.definition_item_count == definition_items(p.definition).len()
    &&& m.pad_count == pad_payload_count(definition_items(p.definition))
    &&& symbol_link_model_of(p, m.symbol_link)
}

/// Each field of the footprint read from the API comes from the field of the same
/// role: the relation holds field by field.
pub proof fn lemma_footprint_read_fields(p: proto::FootprintInstance, m: PcbFootprint)
    requires
        footprint_model_of(p, m),
    ensures
        (opt_string_view(m.id) == opt_kiid_value(p.id)),
        (opt_string_view(m.reference) == field_text(p.reference_field)),
        keeps_point(p.position, m.position_nm),
        (m.orientation_deg == match p.orientation {
            Some(a) => Some(a.value_degrees),
            None => None,
        }),
        (layer_model_of(p.layer, m.layer)),
        (m.locked == lock_state_from_code(p.locked)),
        (opt_string_view(m.value) == field_text(p.value_field)),
        (opt_string_view(m.datasheet) == field_text(p.datasheet_field)),
        (opt_string_view(m.description) == field_text(p.description_field)),
        (m.has_attributes == (p.attributes is Some)),
        (m.has_overrides == (p.overrides is Some)),
        (m.has_definition == (p.definition is Some)),
        (m.definition_item_count == definition_items(p.definition).len()),
        (m.pad_count == pad_payload_count(definition_items(p.definition))),
        (symbol_link_model_of(p, m.symbol_link)),
{
}

/// Counts the pads among a list of payloads.
pub fn count_pad_payloads(items: &Vec<proto::Any>) -> (r: usize)
    ensures
        r == pad_payload_count(items@),
{
    let pad_url = type_url(urls::PAD);
    let n = items.len();
    let mut count: usize = 0;
    let mut i: usize = 0;
    assert(items@.take(0) =~= Seq::<proto::Any>::empty());
    while i < n
        invariant
            n == items@.len(),
            i <= n,
            pad_url@ == type_url_spec(urls::PAD@),
            count == pad_payload_count(items@.take(i as int)),
            count <= i,
        decreases n - i,
    {
        let item = &items[i];
        let is_pad = str_eq(item.type_url.as_str(), pad_url.as_str()) && match item.value {
            proto::AnyValue::Pad(_) => true,
            _ => false,
        };
        assert(items@.take(i + 1).drop_last() =~= items@.take(i as int));
        if is_pad {
            count = count + 1;
        }
        i = i + 1;
    }
    assert(items@.take(n as int) =~= items@);
    count
}

fn decode_footprint(p: &proto::FootprintInstance) -> (m: PcbFootprint)
    ensures
        footprint_model_of(*p, m),
{
    let (definition_item_count, pad_count) = match &p.definition {
        Some(d) => (d.items.len(), count_pad_payloads(&d.items)),
        None => (0, 0),
    };
    let sheet_name = non_empty_string(&p.symbol_sheet_name);
    let sheet_filename = non_empty_string(&p.symbol_sheet_filename);
    let footprint_filters = non_empty_string(&p.symbol_footprint_filters);
    let has_symbol_path = p.symbol_path.is_some();
    let symbol_link = if has_symbol_path || sheet_name.is_some() || sheet_filename.is_some()
        || footprint_filters.is_some() {
        Some(PcbFootprintSymbolLink { has_symbol_path, sheet_name, sheet_filename, footprint_filters })
    } else {
        None
    };
    PcbFootprint {
        id: kiid_value_of(&p.id),
        reference: field_text_of(&p.reference_field),
        position_nm: map_opt_vector2_nm(p.position),
        orientation_deg: match p.orientation {
            Some(a) => Some(a.value_degrees),
            None => None,
        },
        layer: layer_to_model(p.layer),
        locked: map_lock_state(p.locked),
        value: field_text_of(&p.value_field),
        datasheet: field_text_of(&p.datasheet_field),
        description: field_text_of(&p.description_field),
        has_attributes: p.attributes.is_some(),
        has_overrides: p.overrides.is_some(),
        has_definition: p.definition.is_some(),
        definition_item_count,
        symbol_link,
        pad_count,
    }
}

/// Whether `m` is the model of the symbol pin `p` of a pad.
pub open spec fn symbol_pin_model_of(p: Option<proto::SymbolPin>, m: Option<PcbSymbolPinInfo>) -> bool {
    match (p, m) {
        (None, None) => true,
        (Some(q), Some(s)) => {
            &&& s.name@ == q.name@
            &&& opt_string_view(s.pin_type) == Some(
                enum_text(electrical_pin_type_name_spec(q.pin_type), q.pin_type),
            )
            &&& s.no_connect == q.no_connect
        },
        _ => false,
    }
}

/// Whether `m` is the model of the pad `p`.
pub open spec fn pad_model_of(p: proto::Pad, m: PcbPad) -> bool {
    &&& opt_string_view(m.id) == opt_kiid_value(p.id)
    &&& m.locked == lock_state_from_code(p.locked)
    &&& m.number@ == p.number@
    &&& m.pad_type == pad_type_from_code(p.pad_type)
    &&& m.position_nm == opt_vector_nm(p.position)
    &&& opt_pad_stack_model_of(p.pad_stack, m.pad_stack)
    &&& m.copper_clearance_override_nm == opt_distance_nm(p.copper_clearance_override)
    &&& m.pad_to_die_length_nm == opt_distance_nm(p.pad_to_die_length)
    &&& m.pad_to_die_delay_as == match p.pad_to_die_delay {
        Some(t) => Some(t.value_as),
        None => None,
    }
    &&& symbol_pin_model_of(p.symbol_pin, m.symbol_pin)
    &&& net_model_of(p.net, m.net)
}

/// Each field of the pad read from the API comes from the field of the same
/// role: the relation holds field by field.
pub proof fn lemma_pad_read_fields(p: proto::Pad, m: PcbPad)
    requires
        pad_model_of(p, m),
    ensures
        (opt_string_view(m.id) == opt_kiid_value(p.id)),
        (m.locked == lock_state_from_code(p.locked)),
        (m.number@ == p.number@),
        (m.pad_type == pad_type_from_code(p.pad_type)),
        keeps_point(p.position, m.position_nm),
        (opt_pad_stack_model_of(p.pad_stack, m.pad_stack)),
        keeps_length(p.copper_clearance_override, m.copper_clearance_override_nm),
        keeps_length(p.pad_to_die_length, m.pad_to_die_length_nm),
        (m.pad_to_die_delay_as == match p.pad_to_die_delay {
            Some(t) => Some(t.value_as),
            None => None,
        }),
        (symbol_pin_model_of(p.symbol_pin, m.symbol_pin)),
        (net_model_of(p.net, m.net)),
{
}

fn decode_pad(p: &proto::Pad) -> (m: PcbPad)
    ensures
        pad_model_of(*p, m),
{
    let symbol_pin = match &p.symbol_pin {
        Some(pin) => Some(
            PcbSymbolPinInfo {
                name: copy_string(&pin.name),
                pin_type: Some(enum_text_of(electrical_pin_type_name(pin.pin_type), pin.pin_type)),
                no_connect: pin.no_connect,
            },
        ),
        None => None,
    };
    PcbPad {
        id: kiid_value_of(&p.id),
        locked: map_lock_state(p.locked),
        number: copy_string(&p.number),
        pad_type: map_pad_type(p.pad_type),
        position_nm: map_opt_vector2_nm(p.position),
        pad_stack: map_pad_stack(&p.pad_stack),
        copper_clearance_override_nm: map_optional_distance_nm(p.copper_clearance_override),
        pad_to_die_length_nm: map_optional_distance_nm(p.pad_to_die_length),
        pad_to_die_delay_as: match p.pad_to_die_delay {
            Some(t) => Some(t.value_as),
            None => None,
        },
        symbol_pin,
        net: map_optional_net(&p.net),
    }
}

// ---------------------------------------------------------------------------
// Shapes, texts and fields.
// ---------------------------------------------------------------------------
/// The stroke settings of an optional shape, if it has any.
pub open spec fn shape_stroke(shape: Option<proto::GraphicShape>) -> Option<proto::StrokeAttributes> {
    match shape {
        Some(s) => match s.attributes {
            Some(a) => a.stroke,
            None => None,
        },
        None => None,
    }
}

/// The fill settings of an optional shape, if it has any.
pub open spec fn shape_fill(shape: Option<proto::GraphicShape>) -> Option<
    proto::GraphicFillAttributes,
> {
    match shape {
        Some(s) => match s.attributes {
            Some(a) => a.fill,
            None => None,
        },
        None => None,
    }
}

/// Whether `m` is the model of the board graphic shape `p`.
pub open spec fn graphic_shape_model_of(p: proto::BoardGraphicShape, m: PcbBoardGraphicShape) -> bool {
    &&& opt_string_view(m.id) == opt_kiid_value(p.id)
    &&& layer_model_of(p.layer, m.layer)
    &&& m.locked == lock_state_from_code(p.locked)
    &&& net_model_of(p.net, m.net)
    &&& opt_string_view(m.geometry_kind) == opt_geometry_kind(p.shape)
    &&& m.geometry == opt_geometry_model(p.shape)
    &&& m.stroke_width_nm == match shape_stroke(p.shape) {
        Some(st) => opt_distance_nm(st.width),
        None => None,
    }
    &&& opt_string_view(m.stroke_style) == match shape_stroke(p.shape) {
        Some(st) => Some(enum_text(stroke_line_style_name_spec(st.style), st.style)),
        None => None,
    }
    &&& opt_string_view(m.fill_type) == match shape_fill(p.shape) {
        Some(f) => Some(enum_text(graphic_fill_type_name_spec(f.fill_type), f.fill_type)),
        None => None,
    }
}

/// Each field of the graphic shape read from the API comes from the field of the same
/// role: the relation holds field by field.
pub proof fn lemma_graphic_shape_read_fields(p: proto::BoardGraphicShape, m: PcbBoardGraphicShape)
    requires
        graphic_shape_model_of(p, m),
    ensures
        (opt_string_view(m.id) == opt_kiid_value(p.id)),
        (layer_model_of(p.layer, m.layer)),
        (m.locked == lock_state_from_code(p.locked)),
        (net_model_of(p.net, m.net)),
        (opt_string_view(m.geometry_kind) == opt_geometry_kind(p.shape)),
        (m.geometry == opt_geometry_model(p.shape)),
        (m.stroke_width_nm == match shape_stroke(p.shape) {
            Some(st) => opt_distance_nm(st.width),
            None => None,
        }),
        (opt_string_view(m.stroke_style) == match shape_stroke(p.shape) {
            Some(st) => Some(enum_text(stroke_line_style_name_spec(st.style), st.style)),
            None => None,
        }),
        (opt_string_view(m.fill_type) == match shape_fill(p.shape) {
            Some(f) => Some(enum_text(graphic_fill_type_name_spec(f.fill_type), f.fill_type)),
            None => None,
        }),
{
}

fn decode_graphic_shape(p: &proto::BoardGraphicShape) -> (m: PcbBoardGraphicShape)
    ensures
        graphic_shape_model_of(*p, m),
{
    let attributes = match &p.shape {
        Some(s) => s.attributes,
        None => None,
    };
    let stroke = match attributes {
        Some(a) => a.stroke,
        None => None,
    };
    let fill = match attributes {
        Some(a) => a.fill,
        None => None,
    };
    PcbBoardGraphicShape {
        id: kiid_value_of(&p.id),
        layer: layer_to_model(p.layer),
        locked: map_lock_state(p.locked),
        net: map_optional_net(&p.net),
        geometry_kind: map_graphic_shape_kind(&p.shape),
        geometry: map_graphic_shape_geometry(&p.shape),
        stroke_width_nm: match stroke {
            Some(st) => map_optional_distance_nm(st.width),
            None => None,
        },
        stroke_style: match stroke {
            Some(st) => Some(enum_text_of(stroke_line_style_name(st.style), st.style)),
            None => None,
        },
        fill_type: match fill {
            Some(f) => Some(enum_text_of(graphic_fill_type_name(f.fill_type), f.fill_type)),
            None => None,
        },
    }
}

/// Whether `m` is the model of the board text `p`: an empty body or
/// hyperlink reads as none.
pub open spec fn board_text_model_of(p: proto::BoardText, m: PcbBoardText) -> bool {
    &&& opt_string_view(m.id) == opt_kiid_value(p.id)
    &&& layer_model_of(p.layer, m.layer)
    &&& match p.text {
        Some(t) => {
            &&& opt_string_view(m.text) == non_empty(t.text@)
            &&& m.position_nm == opt_vector_nm(t.position)
            &&& opt_string_view(m.hyperlink) == non_empty(t.hyperlink@)
            &&& opt_pcb_text_attributes_model_of(t.attributes, m.attributes)
        },
        None => m.text is None && m.position_nm is None && m.hyperlink is None
            && m.attributes is None,
    }
    &&& m.knockout == p.knockout
    &&& m.locked == lock_state_from_code(p.locked)
}

/// Each field of the board text read from the API comes from the field of the same
/// role: the relation holds field by field.
pub proof fn lemma_board_text_read_fields(p: proto::BoardText, m: PcbBoardText)
    requires
        board_text_model_of(p, m),
    ensures
        (opt_string_view(m.id) == opt_kiid_value(p.id)),
        (layer_model_of(p.layer, m.layer)),
        (match p.text {
            Some(t) => {
                &&& opt_string_view(m.text) == non_empty(t.text@)
                &&& m.position_nm == opt_vector_nm(t.position)
                &&& opt_string_view(m.hyperlink) == non_empty(t.hyperlink@)
                &&& opt_pcb_text_attributes_model_of(t.attributes, m.attributes)
            },
            None => m.text is None && m.position_nm is None && m.hyperlink is None
                && m.attributes is None,
        }),
        (m.knockout == p.knockout),
        (m.locked == lock_state_from_code(p.locked)),
{
}

fn decode_board_text(p: &proto::BoardText) -> (m: PcbBoardText)
    ensures
        board_text_model_of(*p, m),
{
    let (text, position_nm, hyperlink, attributes) = match &p.text {
        Some(t) => (
            non_empty_string(&t.text),
            map_opt_vector2_nm(t.position),
            non_empty_string(&t.hyperlink),
            map_text_attributes(&t.attributes),
        ),
        None => (None, None, None, None),
    };
    PcbBoardText {
        id: kiid_value_of(&p.id),
        layer: layer_to_model(p.layer),
        text,
        position_nm,
        hyperlink,
        attributes,
        knockout: p.knockout,
        locked: map_lock_state(p.locked),
    }
}

/// Whether `m` is the model of the board text box `p`: an empty body reads
/// as none.
pub open spec fn board_text_box_model_of(p: proto::BoardTextBox, m: PcbBoardTextBox) -> bool {
    &&& opt_string_view(m.id) == opt_kiid_value(p.id)
    &&& layer_model_of(p.layer, m.layer)
    &&& match p.textbox {
        Some(t) => {
            &&& opt_string_view(m.text) == non_empty(t.text@)
            &&& m.top_left_nm == opt_vector_nm(t.top_left)
            &&& m.bottom_right_nm == opt_vector_nm(t.bottom_right)
            &&& opt_pcb_text_attributes_model_of(t.attributes, m.attributes)
        },
        None => m.text is None && m.top_left_nm is None && m.bottom_right_nm is None
            && m.attributes is None,
    }
    &&& m.locked == lock_state_from_code(p.locked)
}

/// Each field of the board text box read from the API comes from the field of the same
/// role: the relation holds field by field.
pub proof fn lemma_board_text_box_read_fields(p: proto::BoardTextBox, m: PcbBoardTextBox)
    requires
        board_text_box_model_of(p, m),
    ensures
        (opt_string_view(m.id) == opt_kiid_value(p.id)),
        (layer_model_of(p.layer, m.layer)),
        (match p.textbox {
            Some(t) => {
                &&& opt_string_view(m.text) == non_empty(t.text@)
                &&& m.top_left_nm == opt_vector_nm(t.top_left)
                &&& m.bottom_right_nm == opt_vector_nm(t.bottom_right)
                &&& opt_pcb_text_attributes_model_of(t.attributes, m.attributes)
            },
            None => m.text is None && m.top_left_nm is None && m.bottom_right_nm is None
                && m.attributes is None,
        }),
        (m.locked == lock_state_from_code(p.locked)),
{
}

fn decode_board_text_box(p: &proto::BoardTextBox) -> (m: PcbBoardTextBox)
    ensures
        board_text_box_model_of(*p, m),
{
    let (text, top_left_nm, bottom_right_nm, attributes) = match &p.textbox {
        Some(t) => (
            non_empty_string(&t.text),
            map_opt_vector2_nm(t.top_left),
            map_opt_vector2_nm(t.bottom_right),
            map_text_attributes(&t.attributes),
        ),
        None => (None, None, None, None),
    };
    PcbBoardTextBox {
        id: kiid_value_of(&p.id),
        layer: layer_to_model(p.layer),
        text,
        top_left_nm,
        bottom_right_nm,
        attributes,
        locked: map_lock_state(p.locked),
    }
}

/// Whether `m` is the model of the field `p`.
pub open spec fn field_model_of(p: proto::Field, m: PcbField) -> bool {
    &&& m.name@ == p.name@
    &&& m.visible == p.visible
    &&& opt_string_view(m.text) == match p.text {
        Some(bt) => match bt.text {
            Some(t) => Some(t.text@),
            None => None,
        },
        None => None,
    }
}

/// Each field of the field read from the API comes from the field of the same
/// role: the relation holds field by field.
pub proof fn lemma_field_read_fields(p: proto::Field, m: PcbField)
    requires
        field_model_of(p, m),
    ensures
        (m.name@ == p.name@),
        (m.visible == p.visible),
        (opt_string_view(m.text) == match p.text {
            Some(bt) => match bt.text {
                Some(t) => Some(t.text@),
                None => None,
            },
            None => None,
        }),
{
}

fn decode_field(p: &proto::Field) -> (m: PcbField)
    ensures
        field_model_of(*p, m),
{
    let text = match &p.text {
        Some(bt) => match &bt.text {
            Some(t) => Some(copy_string(&t.text)),
            None => None,
        },
        None => None,
    };
    PcbField { name: copy_string(&p.name), visible: p.visible, text }
}

// ---------------------------------------------------------------------------
// Zones, dimensions, images, barcodes and groups.
// ---------------------------------------------------------------------------
/// Whether `m` is the model of the per-layer zone properties `p`.
pub open spec fn zone_layer_property_model_of(
    p: proto::ZoneLayerProperties,
    m: PcbZoneLayerProperty,
) -> bool {
    layer_model_of(p.layer, m.layer) && m.hatching_offset_nm == opt_vector_nm(p.hatching_offset)
}

/// Whether `m` is the model of the zone `p`.
pub open spec fn zone_model_of(p: proto::Zone, m: PcbZone) -> bool {
    &&& opt_string_view(m.id) == opt_kiid_value(p.id)
    &&& m.name@ == p.name@
    &&& m.zone_type == zone_type_from_code(p.zone_type)
    &&& layers_model_of(p.layers@, m.layers@)
    &&& m.layer_count == p.layers@.len()
    &&& m.priority == p.priority
    &&& m.locked == lock_state_from_code(p.locked)
    &&& m.filled == p.filled
    &&& m.polygon_count == p.filled_polygons@.len()
    &&& m.outline_polygon_count == match p.outline {
        Some(o) => o.polygons@.len(),
        None => 0,
    }
    &&& m.has_copper_settings == (p.settings matches Some(proto::ZoneSettings::CopperSettings(_)))
    &&& m.has_rule_area_settings == (p.settings matches Some(
        proto::ZoneSettings::RuleAreaSettings(_),
    ))
    &&& opt_string_view(m.border_style) == match p.border {
        Some(b) => Some(enum_text(zone_border_style_name_spec(b.style), b.style)),
        None => None,
    }
    &&& m.border_pitch_nm == match p.border {
        Some(b) => opt_distance_nm(b.pitch),
        None => None,
    }
    &&& m.layer_properties@.len() == p.layer_properties@.len()
    &&& forall|i: int|
        0 <= i < p.layer_properties@.len() ==> #[trigger] zone_layer_property_model_of(
            p.layer_properties@[i],
            m.layer_properties@[i],
        )
}

/// Each field of the zone read from the API comes from the field of the same
/// role: the relation holds field by field.
pub proof fn lemma_zone_read_fields(p: proto::Zone, m: PcbZone)
    requires
        zone_model_of(p, m),
    ensures
        (opt_string_view(m.id) == opt_kiid_value(p.id)),
        (m.name@ == p.name@),
        (m.zone_type == zone_type_from_code(p.zone_type)),
        (layers_model_of(p.layers@, m.layers@)),
        (m.layer_count == p.layers@.len()),
        (m.priority == p.priority),
        (m.locked == lock_state_from_code(p.locked)),
        (m.filled == p.filled),
        (m.polygon_count == p.filled_polygons@.len()),
        (m.outline_polygon_count == match p.outline {
            Some(o) => o.polygons@.len(),
            None => 0,
        }),
        (m.has_copper_settings == (p.settings matches Some(proto::ZoneSettings::CopperSettings(_)))),
        (m.has_rule_area_settings == (p.settings matches Some(
            proto::ZoneSettings::RuleAreaSettings(_),
        ))),
        (opt_string_view(m.border_style) == match p.border {
            Some(b) => Some(enum_text(zone_border_style_name_spec(b.style), b.style)),
            None => None,
        }),
        (m.border_pitch_nm == match p.border {
            Some(b) => opt_distance_nm(b.pitch),
            None => None,
        }),
        (m.layer_properties@.len() == p.layer_properties@.len()),
        (forall|i: int|
            0 <= i < p.layer_properties@.len() ==> #[trigger] zone_layer_property_model_of(
                p.layer_properties@[i],
                m.layer_properties@[i],
            )),
{
}

fn decode_zone(p: &proto::Zone) -> (m: PcbZone)
    ensures
        zone_model_of(*p, m),
{
    let mut layer_properties: Vec<PcbZoneLayerProperty> = Vec::new();
    let n = p.layer_properties.len();
    let mut i: usize = 0;
    while i < n
        invariant
            n == p.layer_properties@.len(),
            i <= n,
            layer_properties@.len() == i,
            forall|j: int|
                0 <= j < i ==> #[trigger] zone_layer_property_model_of(
                    p.layer_properties@[j],
                    layer_properties@[j],
                ),
        decreases n - i,
    {
        let entry = p.layer_properties[i];
        layer_properties.push(
            PcbZoneLayerProperty {
                layer: layer_to_model(entry.layer),
                hatching_offset_nm: map_opt_vector2_nm(entry.hatching_offset),
            },
        );
        i = i + 1;
    }
    let has_copper_settings = match p.settings {
        Some(proto::ZoneSettings::CopperSettings(_)) => true,
        _ => false,
    };
    let has_rule_area_settings = match p.settings {
        Some(proto::ZoneSettings::RuleAreaSettings(_)) => true,
        _ => false,
    };
    PcbZone {
        id: kiid_value_of(&p.id),
        name: copy_string(&p.name),
        zone_type: map_zone_type(p.zone_type),
        layers: layers_to_model(&p.layers),
        layer_count: p.layers.len(),
        priority: p.priority,
        locked: map_lock_state(p.locked),
        filled: p.filled,
        polygon_count: p.filled_polygons.len(),
        outline_polygon_count: match &p.outline {
            Some(o) => o.polygons.len(),
            None => 0,
        },
        has_copper_settings,
        has_rule_area_settings,
        border_style: match p.border {
            Some(b) => Some(enum_text_of(zone_border_style_name(b.style), b.style)),
            None => None,
        },
        border_pitch_nm: match p.border {
            Some(b) => map_optional_distance_nm(b.pitch),
            None => None,
        },
        layer_properties,
    }
}

/// Whether `m` is the model of the dimension `p`: empty override text,
/// prefix and suffix read as none, and each enumeration as its text.
pub open spec fn dimension_model_of(p: proto::Dimension, m: PcbDimension) -> bool {
    &&& opt_string_view(m.id) == opt_kiid_value(p.id)
    &&& layer_model_of(p.layer, m.layer)
    &&& m.locked == lock_state_from_code(p.locked)
    &&& opt_string_view(m.text) == match p.text {
        Some(t) => Some(t.text@),
        None => None,
    }
    &&& opt_string_view(m.style_kind) == match p.dimension_style {
        Some(s) => Some(dimension_style_kind_name(s)),
        None => None,
    }
    &&& opt_dimension_style_model_of(p.dimension_style, m.style)
    &&& m.override_text_enabled == p.override_text_enabled
    &&& opt_string_view(m.override_text) == non_empty(p.override_text@)
    &&& opt_string_view(m.prefix) == non_empty(p.prefix@)
    &&& opt_string_view(m.suffix) == non_empty(p.suffix@)
    &&& opt_string_view(m.unit) == Some(enum_text(dimension_unit_name_spec(p.unit), p.unit))
    &&& opt_string_view(m.unit_format) == Some(
        enum_text(dimension_unit_format_name_spec(p.unit_format), p.unit_format),
    )
    &&& opt_string_view(m.arrow_direction) == Some(
        enum_text(dimension_arrow_direction_name_spec(p.arrow_direction), p.arrow_direction),
    )
    &&& opt_string_view(m.precision) == Some(
        enum_text(dimension_precision_name_spec(p.precision), p.precision),
    )
    &&& m.suppress_trailing_zeroes == p.suppress_trailing_zeroes
    &&& m.line_thickness_nm == opt_distance_nm(p.line_thickness)
    &&& m.arrow_length_nm == opt_distance_nm(p.arrow_length)
    &&& m.extension_offset_nm == opt_distance_nm(p.extension_offset)
    &&& opt_string_view(m.text_position) == Some(
        enum_text(dimension_text_position_name_spec(p.text_position), p.text_position),
    )
    &&& m.keep_text_aligned == p.keep_text_aligned
}

/// Each field of the dimension read from the API comes from the field of the same
/// role: the relation holds field by field.
pub proof fn lemma_dimension_read_fields(p: proto::Dimension, m: PcbDimension)
    requires
        dimension_model_of(p, m),
    ensures
        (opt_string_view(m.id) == opt_kiid_value(p.id)),
        (layer_model_of(p.layer, m.layer)),
        (m.locked == lock_state_from_code(p.locked)),
        (opt_string_view(m.text) == match p.text {
            Some(t) => Some(t.text@),
            None => None,
        }),
        (opt_string_view(m.style_kind) == match p.dimension_style {
            Some(s) => Some(dimension_style_kind_name(s)),
            None => None,
        }),
        (opt_dimension_style_model_of(p.dimension_style, m.style)),
        (m.override_text_enabled == p.override_text_enabled),
        (opt_string_view(m.override_text) == non_empty(p.override_text@)),
        (opt_string_view(m.prefix) == non_empty(p.prefix@)),
        (opt_string_view(m.suffix) == non_empty(p.suffix@)),
        (opt_string_view(m.unit) == Some(enum_text(dimension_unit_name_spec(p.unit), p.unit))),
        (opt_string_view(m.unit_format) == Some(
            enum_text(dimension_unit_format_name_spec(p.unit_format), p.unit_format),
        )),
        (opt_string_view(m.arrow_direction) == Some(
            enum_text(dimension_arrow_direction_name_spec(p.arrow_direction), p.arrow_direction),
        )),
        (opt_string_view(m.precision) == Some(
            enum_text(dimension_precision_name_spec(p.precision), p.precision),
        )),
        (m.suppress_trailing_zeroes == p.suppress_trailing_zeroes),
        keeps_length(p.line_thickness, m.line_thickness_nm),
        keeps_length(p.arrow_length, m.arrow_length_nm),
        keeps_length(p.extension_offset, m.extension_offset_nm),
        (opt_string_view(m.text_position) == Some(
            enum_text(dimension_text_position_name_spec(p.text_position), p.text_position),
        )),
        (m.keep_text_aligned == p.keep_text_aligned),
{
}

fn decode_dimension(p: &proto::Dimension) -> (m: PcbDimension)
    ensures
        dimension_model_of(*p, m),
{
    PcbDimension {
        id: kiid_value_of(&p.id),
        layer: layer_to_model(p.layer),
        locked: map_lock_state(p.locked),
        text: match &p.text {
            Some(t) => Some(copy_string(&t.text)),
            None => None,
        },
        style_kind: dimension_style_kind(&p.dimension_style),
        style: map_dimension_style(p.dimension_style),
        override_text_enabled: p.override_text_enabled,
        override_text: non_empty_string(&p.override_text),
        prefix: non_empty_string(&p.prefix),
        suffix: non_empty_string(&p.suffix),
        unit: Some(enum_text_of(dimension_unit_name(p.unit), p.unit)),
        unit_format: Some(enum_text_of(dimension_unit_format_name(p.unit_format), p.unit_format)),
        arrow_direction: Some(
            enum_text_of(dimension_arrow_direction_name(p.arrow_direction), p.arrow_direction),
        ),
        precision: Some(enum_text_of(dimension_precision_name(p.precision), p.precision)),
        suppress_trailing_zeroes: p.suppress_trailing_zeroes,
        line_thickness_nm: map_optional_distance_nm(p.line_thickness),
        arrow_length_nm: map_optional_distance_nm(p.arrow_length),
        extension_offset_nm: map_optional_distance_nm(p.extension_offset),
        text_position: Some(
            enum_text_of(dimension_text_position_name(p.text_position), p.text_position),
        ),
        keep_text_aligned: p.keep_text_aligned,
    }
}

/// Whether `m` is the model of the reference image `p`.
pub open spec fn reference_image_model_of(p: proto::ReferenceImage, m: PcbReferenceImage) -> bool {
    &&& opt_string_view(m.id) == opt_kiid_value(p.id)
    &&& layer_model_of(p.layer, m.layer)
    &&& m.position_nm == opt_vector_nm(p.position)
    &&& m.transform_origin_offset_nm == opt_vector_nm(p.transform_origin_offset)
    &&& m.image_scale == match p.image_scale {
        Some(r) => Some(r.value),
        None => None,
    }
    &&& m.image_data_len == p.image_data@.len()
    &&& m.locked == lock_state_from_code(p.locked)
}

/// Each field of the reference image read from the API comes from the field of the same
/// role: the relation holds field by field.
pub proof fn lemma_reference_image_read_fields(p: proto::ReferenceImage, m: PcbReferenceImage)
    requires
        reference_image_model_of(p, m),
    ensures
        (opt_string_view(m.id) == opt_kiid_value(p.id)),
        (layer_model_of(p.layer, m.layer)),
        keeps_point(p.position, m.position_nm),
        keeps_point(p.transform_origin_offset, m.transform_origin_offset_nm),
        (m.image_scale == match p.image_scale {
            Some(r) => Some(r.value),
            None => None,
        }),
        (m.image_data_len == p.image_data@.len()),
        (m.locked == lock_state_from_code(p.locked)),
{
}

fn decode_reference_image(p: &proto::ReferenceImage) -> (m: PcbReferenceImage)
    ensures
        reference_image_model_of(*p, m),
{
    PcbReferenceImage {
        id: kiid_value_of(&p.id),
        layer: layer_to_model(p.layer),
        position_nm: map_opt_vector2_nm(p.position),
        transform_origin_offset_nm: map_opt_vector2_nm(p.transform_origin_offset),
        image_scale: match p.image_scale {
            Some(r) => Some(r.value),
            None => None,
        },
        image_data_len: p.image_data.len(),
        locked: map_lock_state(p.locked),
    }
}

/// Whether `m` is the model of the barcode `p`.
pub open spec fn barcode_model_of(p: proto::Barcode, m: PcbBarcode) -> bool {
    &&& opt_string_view(m.id) == opt_kiid_value(p.id)
    &&& m.text@ == p.text@
    &&& m.kind == barcode_kind_from_code(p.kind)
    &&& m.error_correction == barcode_error_correction_from_code(p.error_correction)
    &&& m.position_nm == opt_vector_nm(p.position)
    &&& m.orientation_deg == match p.orientation {
        Some(a) => Some(a.value_degrees),
        None => None,
    }
    &&& layer_model_of(p.layer, m.layer)
    &&& m.width_nm == opt_distance_nm(p.width)
    &&& m.height_nm == opt_distance_nm(p.height)
    &&& m.show_text == p.show_text
    &&& m.text_height_nm == opt_distance_nm(p.text_height)
    &&& m.knockout == p.knockout
    &&& m.knockout_margin_nm == opt_vector_nm(p.knockout_margin)
    &&& m.locked == lock_state_from_code(p.locked)
}

/// Each field of the barcode read from the API comes from the field of the same
/// role: the relation holds field by field.
pub proof fn lemma_barcode_read_fields(p: proto::Barcode, m: PcbBarcode)
    requires
        barcode_model_of(p, m),
    ensures
        (opt_string_view(m.id) == opt_kiid_value(p.id)),
        (m.text@ == p.text@),
        (m.kind == barcode_kind_from_code(p.kind)),
        (m.error_correction == barcode_error_correction_from_code(p.error_correction)),
        keeps_point(p.position, m.position_nm),
        (m.orientation_deg == match p.orientation {
            Some(a) => Some(a.value_degrees),
            None => None,
        }),
        (layer_model_of(p.layer, m.layer)),
        keeps_length(p.width, m.width_nm),
        keeps_length(p.height, m.height_nm),
        (m.show_text == p.show_text),
        keeps_length(p.text_height, m.text_height_nm),
        (m.knockout == p.knockout),
        keeps_point(p.knockout_margin, m.knockout_margin_nm),
        (m.locked == lock_state_from_code(p.locked)),
{
}

fn decode_barcode(p: &proto::Barcode) -> (m: PcbBarcode)
    ensures
        barcode_model_of(*p, m),
{
    PcbBarcode {
        id: kiid_value_of(&p.id),
        text: copy_string(&p.text),
        kind: map_barcode_kind(p.kind),
        error_correction: map_barcode_error_correction(p.error_correction),
        position_nm: map_opt_vector2_nm(p.position),
        orientation_deg: match p.orientation {
            Some(a) => Some(a.value_degrees),
            None => None,
        },
        layer: layer_to_model(p.layer),
        width_nm: map_optional_distance_nm(p.width),
        height_nm: map_optional_distance_nm(p.height),
        show_text: p.show_text,
        text_height_nm: map_optional_distance_nm(p.text_height),
        knockout: p.knockout,
        knockout_margin_nm: map_opt_vector2_nm(p.knockout_margin),
        locked: map_lock_state(p.locked),
    }
}

/// Whether `m` is the model of the group `p`: its members' ids in order.
pub open spec fn group_model_of(p: proto::Group, m: PcbGroup) -> bool {
    &&& opt_string_view(m.id) == opt_kiid_value(p.id)
    &&& m.name@ == p.name@
    &&& m.item_count == p.items@.len()
    &&& m.item_ids@.len() == p.items@.len()
    &&& forall|i: int| 0 <= i < p.items@.len() ==> #[trigger] m.item_ids@[i]@ == p.items@[i].value@
}

/// Each field of the group read from the API comes from the field of the same
/// role: the relation holds field by field.
pub proof fn lemma_group_read_fields(p: proto::Group, m: PcbGroup)
    requires
        group_model_of(p, m),
    ensures
        (opt_string_view(m.id) == opt_kiid_value(p.id)),
        (m.name@ == p.name@),
        (m.item_count == p.items@.len()),
        (m.item_ids@.len() == p.items@.len()),
        (forall|i: int| 0 <= i < p.items@.len() ==> #[trigger] m.item_ids@[i]@ == p.items@[i].value@),
{
}

fn decode_group(p: &proto::Group) -> (m: PcbGroup)
    ensures
        group_model_of(*p, m),
{
    let mut item_ids: Vec<String> = Vec::new();
    let n = p.items.len();
    let mut i: usize = 0;
    while i < n
        invariant
            n == p.items@.len(),
            i <= n,
            item_ids@.len() == i,
            forall|j: int| 0 <= j < i ==> #[trigger] item_ids@[j]@ == p.items@[j].value@,
        decreases n - i,
    {
        item_ids.push(copy_string(&p.items[i].value));
        i = i + 1;
    }
    PcbGroup { id: kiid_value_of(&p.id), name: copy_string(&p.name), item_count: n, item_ids }
}

// ---------------------------------------------------------------------------
// Decoding a payload.
// ---------------------------------------------------------------------------
/// The error text for a payload that does not hold the message its type URL
/// names.
pub open spec fn decode_error_text(name: Seq<char>) -> Seq<char> {
    "payload does not hold a valid "@ + name + " message"@
}

/// Whether `r` is the failure to decode a payload as the message `name`.
pub open spec fn decode_failure(name: Seq<char>, r: Result<PcbItem, KiCadError>) -> bool {
    r matches Err(KiCadError::ProtobufDecode(msg)) && msg@ == decode_error_text(name)
}

fn decode_error(name: &str) -> (e: KiCadError)
    ensures
        e matches KiCadError::ProtobufDecode(msg) && msg@ == decode_error_text(name@),
{
    let mut msg = owned("payload does not hold a valid ");
    push_str(&mut msg, name);
    push_str(&mut msg, " message");
    KiCadError::ProtobufDecode(msg)
}

/// The number of encoded bytes a payload carries (none when it carries a
/// decoded message).
pub open spec fn encoded_len(v: proto::AnyValue) -> nat {
    match v {
        proto::AnyValue::Encoded(b) => b@.len(),
        _ => 0,
    }
}

/// Whether a payload decodes: when its type URL names one of the board item
/// messages, it holds that message.
pub open spec fn item_decodes(item: proto::Any) -> bool {
    let url = item.type_url@;
    if url == type_url_spec(urls::TRACK@) {
        item.value is Track
    } else if url == type_url_spec(urls::ARC@) {
        item.value is Arc
    } else if url == type_url_spec(urls::VIA@) {
        item.value is Via
    } else if url == type_url_spec(urls::FOOTPRINT_INSTANCE@) {
        item.value is FootprintInstance
    } else if url == type_url_spec(urls::PAD@) {
        item.value is Pad
    } else if url == type_url_spec(urls::BOARD_GRAPHIC_SHAPE@) {
        item.value is BoardGraphicShape
    } else if url == type_url_spec(urls::BOARD_TEXT@) {
        item.value is BoardText
    } else if url == type_url_spec(urls::BOARD_TEXT_BOX@) {
        item.value is BoardTextBox
    } else if url == type_url_spec(urls::FIELD@) {
        item.value is Field
    } else if url == type_url_spec(urls::ZONE@) {
        item.value is Zone
    } else if url == type_url_spec(urls::DIMENSION@) {
        item.value is Dimension
    } else if url == type_url_spec(urls::REFERENCE_IMAGE@) {
        item.value is ReferenceImage
    } else if url == type_url_spec(urls::BARCODE@) {
        item.value is Barcode
    } else if url == type_url_spec(urls::GROUP@) {
        item.value is Group
    } else {
        true
    }
}

/// Whether `r` is the result of decoding the payload `item`: the board item
/// its type URL names, modelled from the message it holds; a decoding failure
/// when it holds another; and an unknown item, with its type URL and encoded
/// length, for any other type URL.
pub open spec fn decoded_item(item: proto::Any, r: Result<PcbItem, KiCadError>) -> bool {
    let url = item.type_url@;
    if url == type_url_spec(urls::TRACK@) {
        match item.value {
            proto::AnyValue::Track(p) => r matches Ok(PcbItem::Track(m)) && track_model_of(p, m),
            _ => decode_failure(urls::TRACK@, r),
        }
    } else if url == type_url_spec(urls::ARC@) {
        match item.value {
            proto::AnyValue::Arc(p) => r matches Ok(PcbItem::Arc(m)) && arc_model_of(p, m),
            _ => decode_failure(urls::ARC@, r),
        }
    } else if url == type_url_spec(urls::VIA@) {
        match item.value {
            proto::AnyValue::Via(p) => r matches Ok(PcbItem::Via(m)) && via_model_of(p, m),
            _ => decode_failure(urls::VIA@, r),
        }
    } else if url == type_url_spec(urls::FOOTPRINT_INSTANCE@) {
        match item.value {
            proto::AnyValue::FootprintInstance(p) => r matches Ok(PcbItem::Footprint(m)) && footprint_model_of(p, m),
            _ => decode_failure(urls::FOOTPRINT_INSTANCE@, r),
        }
    } else if url == type_url_spec(urls::PAD@) {
        match item.value {
            proto::AnyValue::Pad(p) => r matches Ok(PcbItem::Pad(m)) && pad_model_of(p, m),
            _ => decode_failure(urls::PAD@, r),
        }
    } else if url == type_url_spec(urls::BOARD_GRAPHIC_SHAPE@) {
        match item.value {
            proto::AnyValue::BoardGraphicShape(p) => r matches Ok(PcbItem::BoardGraphicShape(m)) && graphic_shape_model_of(p, m),
            _ => decode_failure(urls::BOARD_GRAPHIC_SHAPE@, r),
        }
    } else if url == type_url_spec(urls::BOARD_TEXT@) {
        match item.value {
            proto::AnyValue::BoardText(p) => r matches Ok(PcbItem::BoardText(m)) && board_text_model_of(p, m),
            _ => decode_failure(urls::BOARD_TEXT@, r),
        }
    } else if url == type_url_spec(urls::BOARD_TEXT_BOX@) {
        match item.value {
            proto::AnyValue::BoardTextBox(p) => r matches Ok(PcbItem::BoardTextBox(m)) && board_text_box_model_of(p, m),
            _ => decode_failure(urls::BOARD_TEXT_BOX@, r),
        }
    } else if url == type_url_spec(urls::FIELD@) {
        match item.value {
            proto::AnyValue::Field(p) => r matches Ok(PcbItem::Field(m)) && field_model_of(p, m),
            _ => decode_failure(urls::FIELD@, r),
        }
    } else if url == type_url_spec(urls::ZONE@) {
        match item.value {
            proto::AnyValue::Zone(p) => r matches Ok(PcbItem::Zone(m)) && zone_model_of(p, m),
            _ => decode_failure(urls::ZONE@, r),
        }
    } else if url == type_url_spec(urls::DIMENSION@) {
        match item.value {
            proto::AnyValue::Dimension(p) => r matches Ok(PcbItem::Dimension(m)) && dimension_model_of(p, m),
            _ => decode_failure(urls::DIMENSION@, r),
        }
    } else if url == type_url_spec(urls::REFERENCE_IMAGE@) {
        match item.value {
            proto::AnyValue::ReferenceImage(p) => r matches Ok(PcbItem::ReferenceImage(m)) && reference_image_model_of(p, m),
            _ => decode_failure(urls::REFERENCE_IMAGE@, r),
        }
    } else if url == type_url_spec(urls::BARCODE@) {
        match item.value {
            proto::AnyValue::Barcode(p) => r matches Ok(PcbItem::Barcode(m)) && barcode_model_of(p, m),
            _ => decode_failure(urls::BARCODE@, r),
        }
    } else if url == type_url_spec(urls::GROUP@) {
        match item.value {
            proto::AnyValue::Group(p) => r matches Ok(PcbItem::Group(m)) && group_model_of(p, m),
            _ => decode_failure(urls::GROUP@, r),
        }
    } else {
        r matches Ok(PcbItem::Unknown(u)) && u.type_url@ == url && u.raw_len == encoded_len(
            item.value,
        )
    }
}

/// Decodes a board item payload.
pub fn decode_pcb_item(item: proto::Any) -> (r: Result<PcbItem, KiCadError>)
    ensures
        decoded_item(item, r),
        r is Ok <==> item_decodes(item),
{
    decode_item_ref(&item)
}

fn decode_item_ref(item: &proto::Any) -> (r: Result<PcbItem, KiCadError>)
    ensures
        decoded_item(*item, r),
        r is Ok <==> item_decodes(*item),
{
    let url = item.type_url.as_str();
    if str_eq(url, type_url(urls::TRACK).as_str()) {
        return match &item.value {
            proto::AnyValue::Track(p) => Ok(PcbItem::Track(decode_track(p))),
            _ => Err(decode_error(urls::TRACK)),
        };
    }
    if str_eq(url, type_url(urls::ARC).as_str()) {
        return match &item.value {
            proto::AnyValue::Arc(p) => Ok(PcbItem::Arc(decode_arc(p))),
            _ => Err(decode_error(urls::ARC)),
        };
    }
    if str_eq(url, type_url(urls::VIA).as_str()) {
        return match &item.value {
            proto::AnyValue::Via(p) => Ok(PcbItem::Via(decode_via(p))),
            _ => Err(decode_error(urls::VIA)),
        };
    }
    if str_eq(url, type_url(urls::FOOTPRINT_INSTANCE).as_str()) {
        return match &item.value {
            proto::AnyValue::FootprintInstance(p) => Ok(PcbItem::Footprint(decode_footprint(p))),
            _ => Err(decode_error(urls::FOOTPRINT_INSTANCE)),
        };
    }
    if str_eq(url, type_url(urls::PAD).as_str()) {
        return match &item.value {
            proto::AnyValue::Pad(p) => Ok(PcbItem::Pad(decode_pad(p))),
            _ => Err(decode_error(urls::PAD)),
        };
    }
    if str_eq(url, type_url(urls::BOARD_GRAPHIC_SHAPE).as_str()) {
        return match &item.value {
            proto::AnyValue::BoardGraphicShape(p) => Ok(PcbItem::BoardGraphicShape(decode_graphic_shape(p))),
            _ => Err(decode_error(urls::BOARD_GRAPHIC_SHAPE)),
        };
    }
    if str_eq(url, type_url(urls::BOARD_TEXT).as_str()) {
        return match &item.value {
            proto::AnyValue::BoardText(p) => Ok(PcbItem::BoardText(decode_board_text(p))),
            _ => Err(decode_error(urls::BOARD_TEXT)),
        };
    }
    if str_eq(url, type_url(urls::BOARD_TEXT_BOX).as_str()) {
        return match &item.value {
            proto::AnyValue::BoardTextBox(p) => Ok(PcbItem::BoardTextBox(decode_board_text_box(p))),
            _ => Err(decode_error(urls::BOARD_TEXT_BOX)),
        };
    }
    if str_eq(url, type_url(urls::FIELD).as_str()) {
        return match &item.value {
            proto::AnyValue::Field(p) => Ok(PcbItem::Field(decode_field(p))),
            _ => Err(decode_error(urls::FIELD)),
        };
    }
    if str_eq(url, type_url(urls::ZONE).as_str()) {
        return match &item.value {
            proto::AnyValue::Zone(p) => Ok(PcbItem::Zone(decode_zone(p))),
            _ => Err(decode_error(urls::ZONE)),
        };
    }
    if str_eq(url, type_url(urls::DIMENSION).as_str()) {
        return match &item.value {
            proto::AnyValue::Dimension(p) => Ok(PcbItem::Dimension(decode_dimension(p))),
            _ => Err(decode_error(urls::DIMENSION)),
        };
    }
    if str_eq(url, type_url(urls::REFERENCE_IMAGE).as_str()) {
        return match &item.value {
            proto::AnyValue::ReferenceImage(p) => Ok(PcbItem::ReferenceImage(decode_reference_image(p))),
            _ => Err(decode_error(urls::REFERENCE_IMAGE)),
        };
    }
    if str_eq(url, type_url(urls::BARCODE).as_str()) {
        return match &item.value {
            proto::AnyValue::Barcode(p) => Ok(PcbItem::Barcode(decode_barcode(p))),
            _ => Err(decode_error(urls::BARCODE)),
        };
    }
    if str_eq(url, type_url(urls::GROUP).as_str()) {
        return match &item.value {
            proto::AnyValue::Group(p) => Ok(PcbItem::Group(decode_group(p))),
            _ => Err(decode_error(urls::GROUP)),
        };
    }
    let raw_len = match &item.value {
        proto::AnyValue::Encoded(bytes) => bytes.len(),
        _ => 0,
    };
    Ok(PcbItem::Unknown(PcbUnknownItem { type_url: copy_string(&item.type_url), raw_len }))
}

/// Decodes a list of board item payloads, in order; fails with the error of
/// the first payload that does not decode.
pub fn decode_pcb_items(items: Vec<proto::Any>) -> (r: Result<Vec<PcbItem>, KiCadError>)
    ensures
        r is Ok <==> forall|i: int| 0 <= i < items@.len() ==> #[trigger] item_decodes(items@[i]),
        r matches Ok(v) ==> v@.len() == items@.len() && forall|i: int|
            0 <= i < items@.len() ==> #[trigger] decoded_item(
                items@[i],
                Ok::<PcbItem, KiCadError>(v@[i]),
            ),
        r matches Err(e) ==> exists|k: int|
            0 <= k < items@.len() && #[trigger] decoded_item(
                items@[k],
                Err::<PcbItem, KiCadError>(e),
            ) && !item_decodes(items@[k]) && forall|j: int|
                0 <= j < k ==> #[trigger] item_decodes(items@[j]),
{
    let n = items.len();
    let mut out: Vec<PcbItem> = Vec::new();
    let mut i: usize = 0;
    while i < n
        invariant
            n == items@.len(),
            i <= n,
            out@.len() == i,
            forall|j: int| 0 <= j < i ==> #[trigger] item_decodes(items@[j]),
            forall|j: int|
                0 <= j < i ==> #[trigger] decoded_item(
                    items@[j],
                    Ok::<PcbItem, KiCadError>(out@[j]),
                ),
        decreases n - i,
    {
        match decode_item_ref(&items[i]) {
            Ok(item) => {
                out.push(item);
            },
            Err(e) => {
                assert(decoded_item(items@[i as int], Err::<PcbItem, KiCadError>(e)));
                return Err(e);
            },
        }
        i = i + 1;
    }
    Ok(out)
}

// ---------------------------------------------------------------------------
// Pad netlist.
// ---------------------------------------------------------------------------
/// Whether `e` is the netlist row of pad `p` of the footprint with reference
/// `reference` and id `id`: an empty net name reads as none.
pub open spec fn pad_net_entry_of(
    reference: Option<Seq<char>>,
    id: Option<Seq<char>>,
    p: proto::Pad,
    e: PadNetEntry,
) -> bool {
    &&& opt_string_view(e.footprint_reference) == reference
    &&& opt_string_view(e.footprint_id) == id
    &&& opt_string_view(e.pad_id) == opt_kiid_value(p.id)
    &&& e.pad_number@ == p.number@
    &&& e.net_code == match p.net {
        Some(n) => match n.code {
            Some(c) => Some(c.value),
            None => None,
        },
        None => None,
    }
    &&& opt_string_view(e.net_name) == match p.net {
        Some(n) => non_empty(n.name@),
        None => None,
    }
}

/// Whether every payload of a footprint definition that carries the pad type
/// URL holds a pad.
pub open spec fn pad_payloads_decode(items: Seq<proto::Any>) -> bool {
    forall|i: int|
        0 <= i < items.len() && (#[trigger] items[i]).type_url@ == type_url_spec(urls::PAD@)
            ==> items[i].value is Pad
}

/// Whether `rows` are the netlist rows of the pads among the definition
/// payloads `items` of a footprint with reference `reference` and id `id`,
/// in order.
pub open spec fn pad_rows_of(
    reference: Option<Seq<char>>,
    id: Option<Seq<char>>,
    items: Seq<proto::Any>,
    rows: Seq<PadNetEntry>,
) -> bool
    decreases items.len(),
{
    if items.len() == 0 {
        rows.len() == 0
    } else if is_pad_payload(items.last()) {
        match items.last().value {
            proto::AnyValue::Pad(p) => {
                &&& rows.len() > 0
                &&& pad_rows_of(reference, id, items.drop_last(), rows.drop_last())
                &&& pad_net_entry_of(reference, id, p, rows.last())
            },
            _ => false,
        }
    } else {
        pad_rows_of(reference, id, items.drop_last(), rows)
    }
}

/// The rows of a footprint's pads are as many as its pads.
pub proof fn lemma_pad_rows_len(
    reference: Option<Seq<char>>,
    id: Option<Seq<char>>,
    items: Seq<proto::Any>,
    rows: Seq<PadNetEntry>,
)
    requires
        pad_rows_of(reference, id, items, rows),
    ensures
        rows.len() == pad_payload_count(items),
    decreases items.len(),
{
    if items.len() > 0 {
        if is_pad_payload(items.last()) {
            lemma_pad_rows_len(reference, id, items.drop_last(), rows.drop_last());
        } else {
            lemma_pad_rows_len(reference, id, items.drop_last(), rows);
        }
    }
}

/// Whether a payload carries the footprint type URL.
pub open spec fn is_footprint_url(a: proto::Any) -> bool {
    a.type_url@ == type_url_spec(urls::FOOTPRINT_INSTANCE@)
}

/// Whether every footprint among `items` decodes, and so do its pads.
pub open spec fn netlist_decodes(items: Seq<proto::Any>) -> bool {
    forall|i: int|
        0 <= i < items.len() && is_footprint_url(#[trigger] items[i]) ==> match items[i].value {
            proto::AnyValue::FootprintInstance(fp) => pad_payloads_decode(
                definition_items(fp.definition),
            ),
            _ => false,
        }
}

/// Whether `rows` is the pad netlist of the payloads `items`: the rows of the
/// pads of each footprint among them, footprint by footprint, in order;
/// other payloads contribute nothing.
pub open spec fn netlist_rows_of(items: Seq<proto::Any>, rows: Seq<PadNetEntry>) -> bool
    decreases items.len(),
{
    if items.len() == 0 {
        rows.len() == 0
    } else if is_footprint_url(items.last()) {
        match items.last().value {
            proto::AnyValue::FootprintInstance(fp) => {
                let c = pad_payload_count(definition_items(fp.definition));
                let k = rows.len() - c;
                &&& rows.len() >= c
                &&& netlist_rows_of(items.drop_last(), rows.take(k))
                &&& pad_rows_of(
                    field_text(fp.reference_field),
                    opt_kiid_value(fp.id),
                    definition_items(fp.definition),
                    rows.skip(k),
                )
            },
            _ => false,
        }
    } else {
        netlist_rows_of(items.drop_last(), rows)
    }
}

/// Lists, for each footprint among the payloads, the net of each of its pads.
pub fn pad_netlist_from_footprint_items(footprint_items: Vec<proto::Any>) -> (r: Result<
    Vec<PadNetEntry>,
    KiCadError,
>)
    ensures
        r is Ok <==> netlist_decodes(footprint_items@),
        r matches Ok(rows) ==> netlist_rows_of(footprint_items@, rows@),
        r matches Err(e) ==> e is ProtobufDecode,
{
    let items = &footprint_items;
    let footprint_url = type_url(urls::FOOTPRINT_INSTANCE);
    let pad_url = type_url(urls::PAD);
    let n = items.len();
    let mut entries: Vec<PadNetEntry> = Vec::new();
    let mut i: usize = 0;
    assert(items@.take(0) =~= Seq::<proto::Any>::empty());
    while i < n
        invariant
            n == items@.len(),
            items@ == footprint_items@,
            i <= n,
            footprint_url@ == type_url_spec(urls::FOOTPRINT_INSTANCE@),
            pad_url@ == type_url_spec(urls::PAD@),
            netlist_decodes(items@.take(i as int)),
            netlist_rows_of(items@.take(i as int), entries@),
        decreases n - i,
    {
        let item = &items[i];
        assert(items@.take(i + 1).drop_last() =~= items@.take(i as int));
        assert(items@.take(i + 1).last() == items@[i as int]);
        if !str_eq(item.type_url.as_str(), footprint_url.as_str()) {
            assert(netlist_decodes(items@.take(i + 1))) by {
                assert forall|j: int|
                    0 <= j < i + 1 && is_footprint_url(#[trigger] items@.take(i + 1)[j]) implies match items@.take(i + 1)[j].value {
                    proto::AnyValue::FootprintInstance(fp) => pad_payloads_decode(
                        definition_items(fp.definition),
                    ),
                    _ => false,
                } by {
                    assert(items@.take(i + 1)[j] == items@.take(i as int)[j]);
                }
            }
            i = i + 1;
            continue;
        }
        let footprint = match &item.value {
            proto::AnyValue::FootprintInstance(fp) => fp,
            _ => {
                assert(!netlist_decodes(footprint_items@)) by {
                    assert(is_footprint_url(footprint_items@[i as int]));
                }
                return Err(decode_error(urls::FOOTPRINT_INSTANCE));
            },
        };
        assert(is_footprint_url(items@[i as int]));
        let reference = field_text_of(&footprint.reference_field);
        let footprint_id = kiid_value_of(&footprint.id);
        let ghost start = entries@;
        let ghost def_items = definition_items(footprint.definition);
        match &footprint.definition {
            Some(definition) => {
                let m = definition.items.len();
                let mut j: usize = 0;
                assert(def_items.take(0) =~= Seq::<proto::Any>::empty());
                assert(entries@.skip(start.len() as int) =~= Seq::<PadNetEntry>::empty());
                while j < m
                    invariant
                        n == items@.len(),
                        items@ == footprint_items@,
                        items@[i as int].value == proto::AnyValue::FootprintInstance(*footprint),
                        is_footprint_url(items@[i as int]),
                        i < n,
                        m == def_items.len(),
                        def_items == definition.items@,
                        def_items == definition_items(footprint.definition),
                        j <= m,
                        pad_url@ == type_url_spec(urls::PAD@),
                        entries@.len() >= start.len(),
                        entries@.take(start.len() as int) == start,
                        pad_payloads_decode(def_items.take(j as int)),
                        pad_rows_of(
                            opt_string_view(reference),
                            opt_string_view(footprint_id),
                            def_items.take(j as int),
                            entries@.skip(start.len() as int),
                        ),
                    decreases m - j,
                {
                    let sub = &definition.items[j];
                    assert(def_items.take(j + 1).drop_last() =~= def_items.take(j as int));
                    assert(def_items.take(j + 1).last() == def_items[j as int]);
                    if str_eq(sub.type_url.as_str(), pad_url.as_str()) {
                        let pad = match &sub.value {
                            proto::AnyValue::Pad(p) => p,
                            _ => {
                                assert(!pad_payloads_decode(def_items)) by {
                                    assert(def_items[j as int].type_url@ == type_url_spec(urls::PAD@));
                                    assert(!(def_items[j as int].value is Pad));
                                }
                                assert(!netlist_decodes(footprint_items@)) by {
                                    assert(is_footprint_url(footprint_items@[i as int]));
                                }
                                return Err(decode_error(urls::PAD));
                            },
                        };
                        let (net_code, net_name) = match &pad.net {
                            Some(net) => (
                                match net.code {
                                    Some(c) => Some(c.value),
                                    None => None,
                                },
                                non_empty_string(&net.name),
                            ),
                            None => (None, None),
                        };
                        let ghost before = entries@;
                        entries.push(
                            PadNetEntry {
                                footprint_reference: copy_opt_string(&reference),
                                footprint_id: copy_opt_string(&footprint_id),
                                pad_id: kiid_value_of(&pad.id),
                                pad_number: copy_string(&pad.number),
                                net_code,
                                net_name,
                            },
                        );
                        assert(entries@.skip(start.len() as int).drop_last() =~= before.skip(
                            start.len() as int,
                        ));
                        assert(entries@.take(start.len() as int) =~= before.take(start.len() as int));
                    } else {
                        assert(!is_pad_payload(def_items[j as int]));
                    }
                    assert(pad_payloads_decode(def_items.take(j + 1))) by {
                        assert forall|k: int|
                            0 <= k < j + 1 && (#[trigger] def_items.take(j + 1)[k]).type_url@
                                == type_url_spec(urls::PAD@) implies def_items.take(j + 1)[k].value is Pad by {
                            if k < j {
                                assert(def_items.take(j + 1)[k] == def_items.take(j as int)[k]);
                            }
                        }
                    }
                    j = j + 1;
                }
                assert(def_items.take(m as int) =~= def_items);
            },
            None => {
                assert(def_items =~= Seq::<proto::Any>::empty());
                assert(entries@.skip(start.len() as int) =~= Seq::<PadNetEntry>::empty());
            },
        }
        proof {
            lemma_pad_rows_len(
                opt_string_view(reference),
                opt_string_view(footprint_id),
                def_items,
                entries@.skip(start.len() as int),
            );
            assert(entries@.take(entries@.len() - pad_payload_count(def_items)) =~= start);
            assert(netlist_decodes(items@.take(i + 1))) by {
                assert forall|k: int|
                    0 <= k < i + 1 && is_footprint_url(#[trigger] items@.take(i + 1)[k]) implies match items@.take(i + 1)[k].value {
                    proto::AnyValue::FootprintInstance(fp) => pad_payloads_decode(
                        definition_items(fp.definition),
                    ),
                    _ => false,
                } by {
                    if k < i {
                        assert(items@.take(i + 1)[k] == items@.take(i as int)[k]);
                    }
                }
            }
        }
        i = i + 1;
    }
    assert(items@.take(n as int) =~= items@);
    Ok(entries)
}

} // verus!
