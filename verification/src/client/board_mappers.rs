//! Conversions of board-level settings: the layer stackup, graphics defaults
//! and net classes.

use vstd::prelude::*;
use crate::client::mappers::{
    board_stackup_layer_type_to_proto, layer_class_from_code, layer_model_of,
    layer_to_model, map_board_layer_class, map_board_stackup_layer_type, map_net_class_type,
    map_opt_vector2_nm, map_optional_color, map_optional_distance_nm, net_class_type_code,
    net_class_type_from_code, net_class_type_to_proto, opt_color_model, opt_color_proto,
    opt_distance_nm, opt_distance_proto, opt_vector_nm, optional_color_to_proto,
    optional_distance_to_proto, stackup_layer_type_code, stackup_layer_type_from_code,
};
use crate::model::board::{
    BoardLayerGraphicsDefault, BoardStackup, BoardStackupDielectricProperties, BoardStackupLayer,
    BoardStackupLayerType, GraphicsDefaults, NetClassBoardSettings, NetClassForNetEntry, NetClassInfo, NetClassType,
};
use crate::order::{is_permutation, keeps_ties_in_order, orders_keys, seq_lt, sorted_order};
use crate::proto;
use crate::text::{
    copy_opt_string, copy_string, copy_strings, non_empty, non_empty_string, opt_string_view,
    string_is_empty, strings_view,
};

use crate::field_laws::{keeps_length};
verus! {

// ---------------------------------------------------------------------------
// Stackup: from the API.
// ---------------------------------------------------------------------------
/// Whether `m` is the model of the dielectric properties `p`.
pub open spec fn dielectric_model_of(
    p: proto::BoardStackupDielectricProperties,
    m: BoardStackupDielectricProperties,
) -> bool {
    &&& m.epsilon_r == p.epsilon_r
    &&& m.loss_tangent == p.loss_tangent
    &&& m.material_name@ == p.material_name@
    &&& m.thickness_nm == opt_distance_nm(p.thickness)
}

/// Each field of the dielectric read from the API comes from the field of the same
/// role: the relation holds field by field.
pub proof fn lemma_dielectric_read_fields(p: proto::BoardStackupDielectricProperties, m: BoardStackupDielectricProperties)
    requires
        dielectric_model_of(p, m),
    ensures
        (m.epsilon_r == p.epsilon_r),
        (m.loss_tangent == p.loss_tangent),
        (m.material_name@ == p.material_name@),
        keeps_length(p.thickness, m.thickness_nm),
{
}

/// The dielectric sub-layers that a stackup layer carries (none when the
/// message is absent).
pub open spec fn dielectric_entries(d: Option<proto::BoardStackupDielectricLayer>) -> Seq<
    proto::BoardStackupDielectricProperties,
> {
    match d {
        Some(x) => x.layer@,
        None => Seq::empty(),
    }
}

/// Whether `m` models the dielectric sub-layers `p`, one for one.
pub open spec fn dielectrics_model_of(
    p: Seq<proto::BoardStackupDielectricProperties>,
    m: Seq<BoardStackupDielectricProperties>,
) -> bool {
    &&& p.len() == m.len()
    &&& forall|i: int| 0 <= i < p.len() ==> #[trigger] dielectric_model_of(p[i], m[i])
}

/// Each field of the dielectrics read from the API comes from the field of the same
/// role: the relation holds field by field.
pub proof fn lemma_dielectrics_read_fields(p: Seq<proto::BoardStackupDielectricProperties>, m: Seq<BoardStackupDielectricProperties>)
    requires
        dielectrics_model_of(p, m),
    ensures
        (p.len() == m.len()),
        (forall|i: int| 0 <= i < p.len() ==> #[trigger] dielectric_model_of(p[i], m[i])),
{
}

/// Whether `m` is the model of the stackup layer `p`.
pub open spec fn stackup_layer_model_of(p: proto::BoardStackupLayer, m: BoardStackupLayer) -> bool {
    &&& layer_model_of(p.layer, m.layer)
    &&& m.user_name@ == p.user_name@
    &&& m.material_name@ == p.material_name@
    &&& m.enabled == p.enabled
    &&& m.thickness_nm == opt_distance_nm(p.thickness)
    &&& m.layer_type == stackup_layer_type_from_code(p.layer_type)
    &&& m.color == opt_color_model(p.color)
    &&& dielectrics_model_of(dielectric_entries(p.dielectric), m.dielectric_layers@)
}

/// Each field of the stackup layer read from the API comes from the field of the same
/// role: the relation holds field by field.
pub proof fn lemma_stackup_layer_read_fields(p: proto::BoardStackupLayer, m: BoardStackupLayer)
    requires
        stackup_layer_model_of(p, m),
    ensures
        (layer_model_of(p.layer, m.layer)),
        (m.user_name@ == p.user_name@),
        (m.material_name@ == p.material_name@),
        (m.enabled == p.enabled),
        keeps_length(p.thickness, m.thickness_nm),
        (m.layer_type == stackup_layer_type_from_code(p.layer_type)),
        (m.color == opt_color_model(p.color)),
        (dielectrics_model_of(dielectric_entries(p.dielectric), m.dielectric_layers@)),
{
}

/// The finish name a stackup carries (empty when it has no finish).
pub open spec fn finish_name(p: proto::BoardStackup) -> Seq<char> {
    match p.finish {
        Some(f) => f.name@,
        None => Seq::empty(),
    }
}

/// The edge settings of a stackup, or the defaults when it has none.
pub open spec fn edge_or_default(p: proto::BoardStackup) -> proto::BoardEdgeSettings {
    match p.edge {
        Some(e) => e,
        None => proto::BoardEdgeSettings { connector: None, castellation: None, plating: None },
    }
}

/// Whether `m` is the model of the stackup `p`.
pub open spec fn stackup_model_of(p: proto::BoardStackup, m: BoardStackup) -> bool {
    &&& m.finish_type_name@ == finish_name(p)
    &&& m.impedance_controlled == match p.impedance {
        Some(i) => i.is_controlled,
        None => false,
    }
    &&& m.edge_has_connector == (edge_or_default(p).connector is Some)
    &&& m.edge_has_castellated_pads == match edge_or_default(p).castellation {
        Some(c) => c.has_castellated_pads,
        None => false,
    }
    &&& m.edge_has_edge_plating == match edge_or_default(p).plating {
        Some(c) => c.has_edge_plating,
        None => false,
    }
    &&& p.layers@.len() == m.layers@.len()
    &&& forall|i: int|
        0 <= i < p.layers@.len() ==> #[trigger] stackup_layer_model_of(p.layers@[i], m.layers@[i])
}

/// Each field of the stackup read from the API comes from the field of the same
/// role: the relation holds field by field.
pub proof fn lemma_stackup_read_fields(p: proto::BoardStackup, m: BoardStackup)
    requires
        stackup_model_of(p, m),
    ensures
        (m.finish_type_name@ == finish_name(p)),
        (m.impedance_controlled == match p.impedance {
            Some(i) => i.is_controlled,
            None => false,
        }),
        (m.edge_has_connector == (edge_or_default(p).connector is Some)),
        (m.edge_has_castellated_pads == match edge_or_default(p).castellation {
            Some(c) => c.has_castellated_pads,
            None => false,
        }),
        (m.edge_has_edge_plating == match edge_or_default(p).plating {
            Some(c) => c.has_edge_plating,
            None => false,
        }),
        (p.layers@.len() == m.layers@.len()),
        (forall|i: int|
            0 <= i < p.layers@.len() ==> #[trigger] stackup_layer_model_of(p.layers@[i], m.layers@[i])),
{
}

fn map_dielectric(d: &proto::BoardStackupDielectricProperties) -> (r:
    BoardStackupDielectricProperties)
    ensures
        dielectric_model_of(*d, r),
{
    BoardStackupDielectricProperties {
        epsilon_r: d.epsilon_r,
        loss_tangent: d.loss_tangent,
        material_name: copy_string(&d.material_name),
        thickness_nm: map_optional_distance_nm(d.thickness),
    }
}

fn map_dielectrics(d: &Option<proto::BoardStackupDielectricLayer>) -> (r: Vec<
    BoardStackupDielectricProperties,
>)
    ensures
        dielectrics_model_of(dielectric_entries(*d), r@),
{
    let mut r: Vec<BoardStackupDielectricProperties> = Vec::new();
    match d {
        Some(layer) => {
            let n = layer.layer.len();
            let mut i: usize = 0;
            while i < n
                invariant
                    n == layer.layer@.len(),
                    i <= n,
                    r@.len() == i,
                    forall|j: int| 0 <= j < i ==> #[trigger] dielectric_model_of(layer.layer@[j], r@[j]),
                decreases n - i,
            {
                r.push(map_dielectric(&layer.layer[i]));
                i = i + 1;
            }
        },
        None => {},
    }
    r
}

fn map_stackup_layer(layer: &proto::BoardStackupLayer) -> (r: BoardStackupLayer)
    ensures
        stackup_layer_model_of(*layer, r),
{
    BoardStackupLayer {
        layer: layer_to_model(layer.layer),
        user_name: copy_string(&layer.user_name),
        material_name: copy_string(&layer.material_name),
        enabled: layer.enabled,
        thickness_nm: map_optional_distance_nm(layer.thickness),
        layer_type: map_board_stackup_layer_type(layer.layer_type),
        color: map_optional_color(layer.color),
        dielectric_layers: map_dielectrics(&layer.dielectric),
    }
}

/// Converts the board stackup to the model.
pub fn map_board_stackup(stackup: &proto::BoardStackup) -> (r: BoardStackup)
    ensures
        stackup_model_of(*stackup, r),
{
    let finish_type_name = match &stackup.finish {
        Some(finish) => copy_string(&finish.name),
        None => String::new(),
    };
    let impedance_controlled = match stackup.impedance {
        Some(impedance) => impedance.is_controlled,
        None => false,
    };
    let edge = match stackup.edge {
        Some(e) => e,
        None => proto::BoardEdgeSettings { connector: None, castellation: None, plating: None },
    };
    let edge_has_connector = edge.connector.is_some();
    let edge_has_castellated_pads = match edge.castellation {
        Some(c) => c.has_castellated_pads,
        None => false,
    };
    let edge_has_edge_plating = match edge.plating {
        Some(p) => p.has_edge_plating,
        None => false,
    };
    let mut layers: Vec<BoardStackupLayer> = Vec::new();
    let n = stackup.layers.len();
    let mut i: usize = 0;
    while i < n
        invariant
            n == stackup.layers@.len(),
            i <= n,
            layers@.len() == i,
            forall|j: int|
                0 <= j < i ==> #[trigger] stackup_layer_model_of(stackup.layers@[j], layers@[j]),
        decreases n - i,
    {
        layers.push(map_stackup_layer(&stackup.layers[i]));
        i = i + 1;
    }
    BoardStackup {
        finish_type_name,
        impedance_controlled,
        edge_has_connector,
        edge_has_castellated_pads,
        edge_has_edge_plating,
        layers,
    }
}

// ---------------------------------------------------------------------------
// Stackup: to the API.
// ---------------------------------------------------------------------------
/// Whether `p` is the API form of the dielectric properties `m`.
pub open spec fn dielectric_proto_of(
    m: BoardStackupDielectricProperties,
    p: proto::BoardStackupDielectricProperties,
) -> bool {
    &&& p.epsilon_r == m.epsilon_r
    &&& p.loss_tangent == m.loss_tangent
    &&& p.material_name@ == m.material_name@
    &&& p.thickness == opt_distance_proto(m.thickness_nm)
}

/// Each field of the dielectric written to the API comes from the field of the same
/// role: the relation holds field by field.
pub proof fn lemma_dielectric_write_fields(m: BoardStackupDielectricProperties, p: proto::BoardStackupDielectricProperties)
    requires
        dielectric_proto_of(m, p),
    ensures
        (p.epsilon_r == m.epsilon_r),
        (p.loss_tangent == m.loss_tangent),
        (p.material_name@ == m.material_name@),
        keeps_length(p.thickness, m.thickness_nm),
{
}

/// Whether `p` is the API form of the stackup layer `m`: the dielectric
/// message is present exactly when the layer has dielectric sub-layers.
pub open spec fn stackup_layer_proto_of(m: BoardStackupLayer, p: proto::BoardStackupLayer) -> bool {
    &&& p.thickness == opt_distance_proto(m.thickness_nm)
    &&& p.layer == m.layer.id
    &&& p.enabled == m.enabled
    &&& p.layer_type == stackup_layer_type_code(m.layer_type)
    &&& (p.dielectric is Some <==> m.dielectric_layers@.len() > 0)
    &&& dielectric_entries(p.dielectric).len() == m.dielectric_layers@.len()
    &&& forall|i: int|
        0 <= i < m.dielectric_layers@.len() ==> #[trigger] dielectric_proto_of(
            m.dielectric_layers@[i],
            dielectric_entries(p.dielectric)[i],
        )
    &&& p.color == opt_color_proto(m.color)
    &&& p.material_name@ == m.material_name@
    &&& p.user_name@ == m.user_name@
}

/// Each field of the stackup layer written to the API comes from the field of the same
/// role: the relation holds field by field.
pub proof fn lemma_stackup_layer_write_fields(m: BoardStackupLayer, p: proto::BoardStackupLayer)
    requires
        stackup_layer_proto_of(m, p),
    ensures
        keeps_length(p.thickness, m.thickness_nm),
        (p.layer == m.layer.id),
        (p.enabled == m.enabled),
        (p.layer_type == stackup_layer_type_code(m.layer_type)),
        ((p.dielectric is Some <==> m.dielectric_layers@.len() > 0)),
        (dielectric_entries(p.dielectric).len() == m.dielectric_layers@.len()),
        (forall|i: int|
            0 <= i < m.dielectric_layers@.len() ==> #[trigger] dielectric_proto_of(
                m.dielectric_layers@[i],
                dielectric_entries(p.dielectric)[i],
            )),
        (p.color == opt_color_proto(m.color)),
        (p.material_name@ == m.material_name@),
        (p.user_name@ == m.user_name@),
{
}

/// Whether `p` is the API form of the stackup `m`: the finish is present
/// exactly when it has a name; impedance, castellation and plating are always
/// written; the edge connector is present exactly when the board has one.
pub open spec fn stackup_proto_of(m: BoardStackup, p: proto::BoardStackup) -> bool {
    &&& (p.finish is Some <==> m.finish_type_name@.len() > 0)
    &&& finish_name(p) == m.finish_type_name@
    &&& p.impedance == Some(proto::BoardImpedanceControl { is_controlled: m.impedance_controlled })
    &&& p.edge == Some(
        proto::BoardEdgeSettings {
            connector: if m.edge_has_connector {
                Some(proto::BoardEdgeConnector {  })
            } else {
                None
            },
            castellation: Some(
                proto::Castellation { has_castellated_pads: m.edge_has_castellated_pads },
            ),
            plating: Some(proto::EdgePlating { has_edge_plating: m.edge_has_edge_plating }),
        },
    )
    &&& p.layers@.len() == m.layers@.len()
    &&& forall|i: int|
        0 <= i < m.layers@.len() ==> #[trigger] stackup_layer_proto_of(m.layers@[i], p.layers@[i])
}

/// Each field of the stackup written to the API comes from the field of the same
/// role: the relation holds field by field.
pub proof fn lemma_stackup_write_fields(m: BoardStackup, p: proto::BoardStackup)
    requires
        stackup_proto_of(m, p),
    ensures
        ((p.finish is Some <==> m.finish_type_name@.len() > 0)),
        (finish_name(p) == m.finish_type_name@),
        (p.impedance == Some(proto::BoardImpedanceControl { is_controlled: m.impedance_controlled })),
        (p.edge == Some(
            proto::BoardEdgeSettings {
                connector: if m.edge_has_connector {
                    Some(proto::BoardEdgeConnector {  })
                } else {
                    None
                },
                castellation: Some(
                    proto::Castellation { has_castellated_pads: m.edge_has_castellated_pads },
                ),
                plating: Some(proto::EdgePlating { has_edge_plating: m.edge_has_edge_plating }),
            },
        )),
        (p.layers@.len() == m.layers@.len()),
        (forall|i: int|
            0 <= i < m.layers@.len() ==> #[trigger] stackup_layer_proto_of(m.layers@[i], p.layers@[i])),
{
}

fn dielectric_to_proto(d: &BoardStackupDielectricProperties) -> (r:
    proto::BoardStackupDielectricProperties)
    ensures
        dielectric_proto_of(*d, r),
{
    proto::BoardStackupDielectricProperties {
        epsilon_r: d.epsilon_r,
        loss_tangent: d.loss_tangent,
        material_name: copy_string(&d.material_name),
        thickness: optional_distance_to_proto(d.thickness_nm),
    }
}

/// Converts a model stackup layer to the API.
pub fn board_stackup_layer_to_proto(layer: &BoardStackupLayer) -> (r: proto::BoardStackupLayer)
    ensures
        stackup_layer_proto_of(*layer, r),
{
    let dielectric = if layer.dielectric_layers.len() == 0 {
        None
    } else {
        let mut entries: Vec<proto::BoardStackupDielectricProperties> = Vec::new();
        let n = layer.dielectric_layers.len();
        let mut i: usize = 0;
        while i < n
            invariant
                n == layer.dielectric_layers@.len(),
                i <= n,
                entries@.len() == i,
                forall|j: int|
                    0 <= j < i ==> #[trigger] dielectric_proto_of(
                        layer.dielectric_layers@[j],
                        entries@[j],
                    ),
            decreases n - i,
        {
            entries.push(dielectric_to_proto(&layer.dielectric_layers[i]));
            i = i + 1;
        }
        Some(proto::BoardStackupDielectricLayer { layer: entries })
    };
    proto::BoardStackupLayer {
        thickness: optional_distance_to_proto(layer.thickness_nm),
        layer: layer.layer.id,
        enabled: layer.enabled,
        layer_type: board_stackup_layer_type_to_proto(layer.layer_type),
        dielectric,
        color: optional_color_to_proto(layer.color),
        material_name: copy_string(&layer.material_name),
        user_name: copy_string(&layer.user_name),
    }
}

/// Converts a model stackup to the API.
pub fn board_stackup_to_proto(stackup: &BoardStackup) -> (r: proto::BoardStackup)
    ensures
        stackup_proto_of(*stackup, r),
{
    let finish = if string_is_empty(&stackup.finish_type_name) {
        assert(stackup.finish_type_name@ =~= Seq::<char>::empty());
        None
    } else {
        Some(proto::BoardFinish { name: copy_string(&stackup.finish_type_name) })
    };
    let mut layers: Vec<proto::BoardStackupLayer> = Vec::new();
    let n = stackup.layers.len();
    let mut i: usize = 0;
    while i < n
        invariant
            n == stackup.layers@.len(),
            i <= n,
            layers@.len() == i,
            forall|j: int|
                0 <= j < i ==> #[trigger] stackup_layer_proto_of(stackup.layers@[j], layers@[j]),
        decreases n - i,
    {
        layers.push(board_stackup_layer_to_proto(&stackup.layers[i]));
        i = i + 1;
    }
    proto::BoardStackup {
        finish,
        impedance: Some(proto::BoardImpedanceControl { is_controlled: stackup.impedance_controlled }),
        edge: Some(
            proto::BoardEdgeSettings {
                connector: if stackup.edge_has_connector {
                    Some(proto::BoardEdgeConnector {  })
                } else {
                    None
                },
                castellation: Some(
                    proto::Castellation { has_castellated_pads: stackup.edge_has_castellated_pads },
                ),
                plating: Some(proto::EdgePlating { has_edge_plating: stackup.edge_has_edge_plating }),
            },
        ),
        layers,
    }
}

// ---------------------------------------------------------------------------
// Graphics defaults.
// ---------------------------------------------------------------------------
/// Whether `m` is the model of the per-layer graphics defaults `p`: the text
/// settings read as absent when the message has none, and an empty font name
/// as no font.
pub open spec fn graphics_layer_model_of(
    p: proto::BoardLayerGraphicsDefaults,
    m: BoardLayerGraphicsDefault,
) -> bool {
    &&& m.layer_class == layer_class_from_code(p.layer)
    &&& m.line_thickness_nm == opt_distance_nm(p.line_thickness)
    &&& opt_string_view(m.text_font_name) == match p.text {
        Some(t) => non_empty(t.font_name@),
        None => None,
    }
    &&& m.text_size_nm == match p.text {
        Some(t) => opt_vector_nm(t.size),
        None => None,
    }
    &&& m.text_stroke_width_nm == match p.text {
        Some(t) => opt_distance_nm(t.stroke_width),
        None => None,
    }
}

/// Each field of the graphics layer read from the API comes from the field of the same
/// role: the relation holds field by field.
pub proof fn lemma_graphics_layer_read_fields(p: proto::BoardLayerGraphicsDefaults, m: BoardLayerGraphicsDefault)
    requires
        graphics_layer_model_of(p, m),
    ensures
        (m.layer_class == layer_class_from_code(p.layer)),
        keeps_length(p.line_thickness, m.line_thickness_nm),
        (opt_string_view(m.text_font_name) == match p.text {
            Some(t) => non_empty(t.font_name@),
            None => None,
        }),
        (m.text_size_nm == match p.text {
            Some(t) => opt_vector_nm(t.size),
            None => None,
        }),
        (m.text_stroke_width_nm == match p.text {
            Some(t) => opt_distance_nm(t.stroke_width),
            None => None,
        }),
{
}

fn map_graphics_layer(layer: &proto::BoardLayerGraphicsDefaults) -> (r: BoardLayerGraphicsDefault)
    ensures
        graphics_layer_model_of(*layer, r),
{
    let (text_font_name, text_size_nm, text_stroke_width_nm) = match &layer.text {
        Some(text) => (
            non_empty_string(&text.font_name),
            map_opt_vector2_nm(text.size),
            map_optional_distance_nm(text.stroke_width),
        ),
        None => (None, None, None),
    };
    BoardLayerGraphicsDefault {
        layer_class: map_board_layer_class(layer.layer),
        line_thickness_nm: map_optional_distance_nm(layer.line_thickness),
        text_font_name,
        text_size_nm,
        text_stroke_width_nm,
    }
}

/// Converts the board's graphics defaults to the model, layer class by layer
/// class in the order given.
pub fn map_graphics_defaults(defaults: &proto::GraphicsDefaults) -> (r: GraphicsDefaults)
    ensures
        r.layers@.len() == defaults.layers@.len(),
        forall|i: int|
            0 <= i < r.layers@.len() ==> #[trigger] graphics_layer_model_of(
                defaults.layers@[i],
                r.layers@[i],
            ),
{
    let mut layers: Vec<BoardLayerGraphicsDefault> = Vec::new();
    let n = defaults.layers.len();
    let mut i: usize = 0;
    while i < n
        invariant
            n == defaults.layers@.len(),
            i <= n,
            layers@.len() == i,
            forall|j: int|
                0 <= j < i ==> #[trigger] graphics_layer_model_of(defaults.layers@[j], layers@[j]),
        decreases n - i,
    {
        layers.push(map_graphics_layer(&defaults.layers[i]));
        i = i + 1;
    }
    GraphicsDefaults { layers }
}

// ---------------------------------------------------------------------------
// Net classes.
// ---------------------------------------------------------------------------
/// Whether `p` is a padstack with every field at its default.
pub open spec fn pad_stack_is_default(p: proto::PadStack) -> bool {
    &&& p.stack_type == 0
    &&& p.layers@.len() == 0
    &&& p.drill is None
    &&& p.unconnected_layer_removal == 0
    &&& p.copper_layers@.len() == 0
    &&& p.front_outer_layers is None
    &&& p.back_outer_layers is None
    &&& p.zone_settings is None
    &&& p.secondary_drill is None
    &&& p.tertiary_drill is None
    &&& p.front_post_machining is None
    &&& p.back_post_machining is None
}

/// Whether `p` is an optional padstack that is present exactly when
/// `present` holds, and then at its defaults.
pub open spec fn default_stack_if(present: bool, p: Option<proto::PadStack>) -> bool {
    match p {
        Some(s) => present && pad_stack_is_default(s),
        None => !present,
    }
}

fn default_pad_stack() -> (r: proto::PadStack)
    ensures
        pad_stack_is_default(r),
{
    proto::PadStack {
        stack_type: 0,
        layers: Vec::new(),
        drill: None,
        unconnected_layer_removal: 0,
        copper_layers: Vec::new(),
        front_outer_layers: None,
        back_outer_layers: None,
        zone_settings: None,
        secondary_drill: None,
        tertiary_drill: None,
        front_post_machining: None,
        back_post_machining: None,
    }
}

/// Whether `p` is the API form of the board settings of a net class; the
/// via stacks, which the model only records the presence of, are written as
/// default padstacks.
pub open spec fn net_class_board_proto_of(m: NetClassBoardSettings, p: proto::NetClassBoardSettings) -> bool {
    &&& p.clearance == opt_distance_proto(m.clearance_nm)
    &&& p.track_width == opt_distance_proto(m.track_width_nm)
    &&& p.diff_pair_track_width == opt_distance_proto(m.diff_pair_track_width_nm)
    &&& p.diff_pair_gap == opt_distance_proto(m.diff_pair_gap_nm)
    &&& p.diff_pair_via_gap == opt_distance_proto(m.diff_pair_via_gap_nm)
    &&& default_stack_if(m.has_via_stack, p.via_stack)
    &&& default_stack_if(m.has_microvia_stack, p.microvia_stack)
    &&& p.color == opt_color_proto(m.color)
    &&& opt_string_view(p.tuning_profile) == opt_string_view(m.tuning_profile)
}

/// Whether `p` is the API form of the net class `m` (with no schematic
/// settings).
pub open spec fn net_class_proto_of(m: NetClassInfo, p: proto::NetClass) -> bool {
    &&& p.name@ == m.name@
    &&& p.priority == m.priority
    &&& match (m.board, p.board) {
        (None, None) => true,
        (Some(mb), Some(pb)) => net_class_board_proto_of(mb, pb),
        _ => false,
    }
    &&& p.schematic is None
    &&& p.class_type == net_class_type_code(m.class_type)
    &&& strings_view(p.constituents@) == strings_view(m.constituents@)
}

/// Each field of the net class written to the API comes from the field of the same
/// role: the relation holds field by field.
pub proof fn lemma_net_class_write_fields(m: NetClassInfo, p: proto::NetClass)
    requires
        net_class_proto_of(m, p),
    ensures
        (p.name@ == m.name@),
        (p.priority == m.priority),
        (match (m.board, p.board) {
            (None, None) => true,
            (Some(mb), Some(pb)) => net_class_board_proto_of(mb, pb),
            _ => false,
        }),
        (p.schematic is None),
        (p.class_type == net_class_type_code(m.class_type)),
        (strings_view(p.constituents@) == strings_view(m.constituents@)),
{
}

fn net_class_board_to_proto(board: &NetClassBoardSettings) -> (r: proto::NetClassBoardSettings)
    ensures
        net_class_board_proto_of(*board, r),
{
    proto::NetClassBoardSettings {
        clearance: optional_distance_to_proto(board.clearance_nm),
        track_width: optional_distance_to_proto(board.track_width_nm),
        diff_pair_track_width: optional_distance_to_proto(board.diff_pair_track_width_nm),
        diff_pair_gap: optional_distance_to_proto(board.diff_pair_gap_nm),
        diff_pair_via_gap: optional_distance_to_proto(board.diff_pair_via_gap_nm),
        via_stack: if board.has_via_stack {
            Some(default_pad_stack())
        } else {
            None
        },
        microvia_stack: if board.has_microvia_stack {
            Some(default_pad_stack())
        } else {
            None
        },
        color: optional_color_to_proto(board.color),
        tuning_profile: copy_opt_string(&board.tuning_profile),
    }
}

/// Converts a model net class to the API.
pub fn net_class_info_to_proto(value: &NetClassInfo) -> (r: proto::NetClass)
    ensures
        net_class_proto_of(*value, r),
{
    let board = match &value.board {
        Some(board) => Some(net_class_board_to_proto(board)),
        None => None,
    };
    proto::NetClass {
        name: copy_string(&value.name),
        priority: value.priority,
        board,
        schematic: None,
        class_type: net_class_type_to_proto(value.class_type),
        constituents: copy_strings(&value.constituents),
    }
}

/// Whether `m` is the model of the board settings `p` of a net class; an
/// empty tuning profile reads as none.
pub open spec fn net_class_board_model_of(p: proto::NetClassBoardSettings, m: NetClassBoardSettings) -> bool {
    &&& m.clearance_nm == opt_distance_nm(p.clearance)
    &&& m.track_width_nm == opt_distance_nm(p.track_width)
    &&& m.diff_pair_track_width_nm == opt_distance_nm(p.diff_pair_track_width)
    &&& m.diff_pair_gap_nm == opt_distance_nm(p.diff_pair_gap)
    &&& m.diff_pair_via_gap_nm == opt_distance_nm(p.diff_pair_via_gap)
    &&& m.color == opt_color_model(p.color)
    &&& opt_string_view(m.tuning_profile) == match p.tuning_profile {
        Some(t) => non_empty(t@),
        None => None,
    }
    &&& m.has_via_stack == (p.via_stack is Some)
    &&& m.has_microvia_stack == (p.microvia_stack is Some)
}

/// Whether `m` is the model of the net class `p`.
pub open spec fn net_class_model_of(p: proto::NetClass, m: NetClassInfo) -> bool {
    &&& m.name@ == p.name@
    &&& m.priority == p.priority
    &&& m.class_type == net_class_type_from_code(p.class_type)
    &&& strings_view(m.constituents@) == strings_view(p.constituents@)
    &&& match (p.board, m.board) {
        (None, None) => true,
        (Some(pb), Some(mb)) => net_class_board_model_of(pb, mb),
        _ => false,
    }
}

/// Each field of the net class read from the API comes from the field of the same
/// role: the relation holds field by field.
pub proof fn lemma_net_class_read_fields(p: proto::NetClass, m: NetClassInfo)
    requires
        net_class_model_of(p, m),
    ensures
        (m.name@ == p.name@),
        (m.priority == p.priority),
        (m.class_type == net_class_type_from_code(p.class_type)),
        (strings_view(m.constituents@) == strings_view(p.constituents@)),
        (match (p.board, m.board) {
            (None, None) => true,
            (Some(pb), Some(mb)) => net_class_board_model_of(pb, mb),
            _ => false,
        }),
{
}

fn map_net_class_board(board: &proto::NetClassBoardSettings) -> (r: NetClassBoardSettings)
    ensures
        net_class_board_model_of(*board, r),
{
    let tuning_profile = match &board.tuning_profile {
        Some(t) => non_empty_string(t),
        None => None,
    };
    NetClassBoardSettings {
        clearance_nm: map_optional_distance_nm(board.clearance),
        track_width_nm: map_optional_distance_nm(board.track_width),
        diff_pair_track_width_nm: map_optional_distance_nm(board.diff_pair_track_width),
        diff_pair_gap_nm: map_optional_distance_nm(board.diff_pair_gap),
        diff_pair_via_gap_nm: map_optional_distance_nm(board.diff_pair_via_gap),
        color: map_optional_color(board.color),
        tuning_profile,
        has_via_stack: board.via_stack.is_some(),
        has_microvia_stack: board.microvia_stack.is_some(),
    }
}

/// Converts an API net class to the model.
pub fn map_net_class_info(net_class: &proto::NetClass) -> (r: NetClassInfo)
    ensures
        net_class_model_of(*net_class, r),
{
    let board = match &net_class.board {
        Some(board) => Some(map_net_class_board(board)),
        None => None,
    };
    NetClassInfo {
        name: copy_string(&net_class.name),
        priority: net_class.priority,
        class_type: map_net_class_type(net_class.class_type),
        constituents: copy_strings(&net_class.constituents),
        board,
    }
}

/// Whether `m` is the model of one entry of the net-class-for-nets map.
pub open spec fn net_class_entry_model_of(p: proto::NetClassForNet, m: NetClassForNetEntry) -> bool {
    m.net_name@ == p.net_name@ && net_class_model_of(p.net_class, m.net_class)
}

/// Converts the net-class-for-nets response to the model: one entry per net,
/// ordered by net name (equal names keep the order they came in).
pub fn map_netclass_for_nets_response(response: &proto::NetClassForNetsResponse) -> (r: Vec<
    NetClassForNetEntry,
>)
    ensures
        exists|order: Seq<usize>|
            is_permutation(order, response.classes@.len()) && (forall|k: int|
                0 <= k < r@.len() ==> #[trigger] net_class_entry_model_of(
                    response.classes@[order[k] as int],
                    r@[k],
                )) && (forall|j: int, k: int|
                #![trigger order[j], order[k]]
                0 <= j < k < r@.len() && r@[j].net_name@ == r@[k].net_name@ ==> order[j]
                    < order[k]),
        forall|j: int, k: int|
            #![trigger r@[j], r@[k]]
            0 <= j < k < r@.len() ==> !seq_lt(r@[k].net_name@, r@[j].net_name@),
{
    let n = response.classes.len();
    let mut names: Vec<String> = Vec::new();
    let mut i: usize = 0;
    while i < n
        invariant
            n == response.classes@.len(),
            i <= n,
            names@.len() == i,
            forall|j: int| 0 <= j < i ==> #[trigger] names@[j]@ == response.classes@[j].net_name@,
        decreases n - i,
    {
        names.push(copy_string(&response.classes[i].net_name));
        i = i + 1;
    }
    let order = sorted_order(&names);
    let mut rows: Vec<NetClassForNetEntry> = Vec::new();
    let mut k: usize = 0;
    while k < n
        invariant
            n == response.classes@.len(),
            n == names@.len(),
            forall|j: int| 0 <= j < n ==> #[trigger] names@[j]@ == response.classes@[j].net_name@,
            is_permutation(order@, n as nat),
            orders_keys(names@, order@),
            keeps_ties_in_order(names@, order@),
            k <= n,
            rows@.len() == k,
            forall|j: int|
                0 <= j < k ==> #[trigger] net_class_entry_model_of(
                    response.classes@[order@[j] as int],
                    rows@[j],
                ),
        decreases n - k,
    {
        let entry = &response.classes[order[k]];
        rows.push(
            NetClassForNetEntry {
                net_name: copy_string(&entry.net_name),
                net_class: map_net_class_info(&entry.net_class),
            },
        );
        k = k + 1;
    }
    proof {
        assert forall|j: int, k: int|
            #![trigger order@[j], order@[k]]
            0 <= j < k < rows@.len() && rows@[j].net_name@ == rows@[k].net_name@ implies order@[j]
                < order@[k] by {
            assert(net_class_entry_model_of(response.classes@[order@[j] as int], rows@[j]));
            assert(net_class_entry_model_of(response.classes@[order@[k] as int], rows@[k]));
            assert(names@[order@[j] as int]@ == response.classes@[order@[j] as int].net_name@);
            assert(names@[order@[k] as int]@ == response.classes@[order@[k] as int].net_name@);
        }
        assert forall|j: int, k: int|
            #![trigger rows@[j], rows@[k]]
            0 <= j < k < rows@.len() implies !seq_lt(rows@[k].net_name@, rows@[j].net_name@) by {
            assert(net_class_entry_model_of(response.classes@[order@[j] as int], rows@[j]));
            assert(net_class_entry_model_of(response.classes@[order@[k] as int], rows@[k]));
            assert(names@[order@[j] as int]@ == response.classes@[order@[j] as int].net_name@);
            assert(names@[order@[k] as int]@ == response.classes@[order@[k] as int].net_name@);
        }
    }
    rows
}

// ---------------------------------------------------------------------------
// Laws.
// ---------------------------------------------------------------------------
/// Whether a stackup layer type is one that its wire value reads back as:
/// every named type, and `Unknown` of a value that names no type.
pub open spec fn stackup_layer_type_reads_back(t: BoardStackupLayerType) -> bool {
    match t {
        BoardStackupLayerType::Unknown(v) => stackup_layer_type_from_code(v)
            == BoardStackupLayerType::Unknown(v),
        _ => true,
    }
}

/// Writing a stackup to the API and reading the message back gives the same
/// stackup, for a stackup whose layers are described as the API describes
/// them and whose layer types read back.
pub proof fn lemma_stackup_round_trip(s: BoardStackup, p: proto::BoardStackup)
    requires
        stackup_proto_of(s, p),
        forall|i: int|
            0 <= i < s.layers@.len() ==> {
                &&& layer_model_of(#[trigger] s.layers@[i].layer.id, s.layers@[i].layer)
                &&& stackup_layer_type_reads_back(s.layers@[i].layer_type)
            },
    ensures
        stackup_model_of(p, s),
{
    assert forall|i: int| 0 <= i < p.layers@.len() implies #[trigger] stackup_layer_model_of(
        p.layers@[i],
        s.layers@[i],
    ) by {
        let m = s.layers@[i];
        let q = p.layers@[i];
        assert(stackup_layer_proto_of(m, q));
        assert(layer_model_of(m.layer.id, m.layer));
        assert(stackup_layer_type_reads_back(m.layer_type));
        assert forall|j: int| 0 <= j < m.dielectric_layers@.len() implies #[trigger] dielectric_model_of(
            dielectric_entries(q.dielectric)[j],
            m.dielectric_layers@[j],
        ) by {
            assert(dielectric_proto_of(m.dielectric_layers@[j], dielectric_entries(q.dielectric)[j]));
        }
    }
}

/// Whether a net class type is one that its wire value reads back as:
/// every named type, and `Unknown` of a value that names no type.
pub open spec fn net_class_type_reads_back(t: NetClassType) -> bool {
    match t {
        NetClassType::Unknown(v) => net_class_type_from_code(v) == NetClassType::Unknown(v),
        _ => true,
    }
}

/// Writing a net class to the API and reading the message back gives the same
/// net class, for a net class whose type reads back and whose tuning profile,
/// if it has one, is not empty.
pub proof fn lemma_net_class_round_trip(m: NetClassInfo, p: proto::NetClass)
    requires
        net_class_proto_of(m, p),
        net_class_type_reads_back(m.class_type),
        match m.board {
            Some(b) => match b.tuning_profile {
                Some(t) => t@.len() > 0,
                None => true,
            },
            None => true,
        },
    ensures
        net_class_model_of(p, m),
{
}

} // verus!
