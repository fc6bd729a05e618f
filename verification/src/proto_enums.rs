//! Symbolic names of the KiCad API's protobuf enumerations, as the generated
//! code's `as_str_name` gives them, keyed by their numeric wire values.

use vstd::prelude::*;

verus! {

/// The symbolic name of a `BoardLayer` value; `None` for a value that the
/// enumeration does not define.
pub open spec fn board_layer_name_spec(value: i32) -> Option<Seq<char>> {
    if value == 0 {
        Some("BL_UNKNOWN"@)
    } else if value == 1 {
        Some("BL_UNDEFINED"@)
    } else if value == 2 {
        Some("BL_UNSELECTED"@)
    } else if value == 3 {
        Some("BL_F_Cu"@)
    } else if value == 4 {
        Some("BL_In1_Cu"@)
    } else if value == 5 {
        Some("BL_In2_Cu"@)
    } else if value == 6 {
        Some("BL_In3_Cu"@)
    } else if value == 7 {
        Some("BL_In4_Cu"@)
    } else if value == 8 {
        Some("BL_In5_Cu"@)
    } else if value == 9 {
        Some("BL_In6_Cu"@)
    } else if value == 10 {
        Some("BL_In7_Cu"@)
    } else if value == 11 {
        Some("BL_In8_Cu"@)
    } else if value == 12 {
        Some("BL_In9_Cu"@)
    } else if value == 13 {
        Some("BL_In10_Cu"@)
    } else if value == 14 {
        Some("BL_In11_Cu"@)
    } else if value == 15 {
        Some("BL_In12_Cu"@)
    } else if value == 16 {
        Some("BL_In13_Cu"@)
    } else if value == 17 {
        Some("BL_In14_Cu"@)
    } else if value == 18 {
        Some("BL_In15_Cu"@)
    } else if value == 19 {
        Some("BL_In16_Cu"@)
    } else if value == 20 {
        Some("BL_In17_Cu"@)
    } else if value == 21 {
        Some("BL_In18_Cu"@)
    } else if value == 22 {
        Some("BL_In19_Cu"@)
    } else if value == 23 {
        Some("BL_In20_Cu"@)
    } else if value == 24 {
        Some("BL_In21_Cu"@)
    } else if value == 25 {
        Some("BL_In22_Cu"@)
    } else if value == 26 {
        Some("BL_In23_Cu"@)
    } else if value == 27 {
        Some("BL_In24_Cu"@)
    } else if value == 28 {
        Some("BL_In25_Cu"@)
    } else if value == 29 {
        Some("BL_In26_Cu"@)
    } else if value == 30 {
        Some("BL_In27_Cu"@)
    } else if value == 31 {
        Some("BL_In28_Cu"@)
    } else if value == 32 {
        Some("BL_In29_Cu"@)
    } else if value == 33 {
        Some("BL_In30_Cu"@)
    } else if value == 34 {
        Some("BL_B_Cu"@)
    } else if value == 35 {
        Some("BL_B_Adhes"@)
    } else if value == 36 {
        Some("BL_F_Adhes"@)
    } else if value == 37 {
        Some("BL_B_Paste"@)
    } else if value == 38 {
        Some("BL_F_Paste"@)
    } else if value == 39 {
        Some("BL_B_SilkS"@)
    } else if value == 40 {
        Some("BL_F_SilkS"@)
    } else if value == 41 {
        Some("BL_B_Mask"@)
    } else if value == 42 {
        Some("BL_F_Mask"@)
    } else if value == 43 {
        Some("BL_Dwgs_User"@)
    } else if value == 44 {
        Some("BL_Cmts_User"@)
    } else if value == 45 {
        Some("BL_Eco1_User"@)
    } else if value == 46 {
        Some("BL_Eco2_User"@)
    } else if value == 47 {
        Some("BL_Edge_Cuts"@)
    } else if value == 48 {
        Some("BL_Margin"@)
    } else if value == 49 {
        Some("BL_B_CrtYd"@)
    } else if value == 50 {
        Some("BL_F_CrtYd"@)
    } else if value == 51 {
        Some("BL_B_Fab"@)
    } else if value == 52 {
        Some("BL_F_Fab"@)
    } else if value == 53 {
        Some("BL_User_1"@)
    } else if value == 54 {
        Some("BL_User_2"@)
    } else if value == 55 {
        Some("BL_User_3"@)
    } else if value == 56 {
        Some("BL_User_4"@)
    } else if value == 57 {
        Some("BL_User_5"@)
    } else if value == 58 {
        Some("BL_User_6"@)
    } else if value == 59 {
        Some("BL_User_7"@)
    } else if value == 60 {
        Some("BL_User_8"@)
    } else if value == 61 {
        Some("BL_User_9"@)
    } else if value == 62 {
        Some("BL_Rescue"@)
    } else if value == 63 {
        Some("BL_User_10"@)
    } else if value == 64 {
        Some("BL_User_11"@)
    } else if value == 65 {
        Some("BL_User_12"@)
    } else if value == 66 {
        Some("BL_User_13"@)
    } else if value == 67 {
        Some("BL_User_14"@)
    } else if value == 68 {
        Some("BL_User_15"@)
    } else if value == 69 {
        Some("BL_User_16"@)
    } else if value == 70 {
        Some("BL_User_17"@)
    } else if value == 71 {
        Some("BL_User_18"@)
    } else if value == 72 {
        Some("BL_User_19"@)
    } else if value == 73 {
        Some("BL_User_20"@)
    } else if value == 74 {
        Some("BL_User_21"@)
    } else if value == 75 {
        Some("BL_User_22"@)
    } else if value == 76 {
        Some("BL_User_23"@)
    } else if value == 77 {
        Some("BL_User_24"@)
    } else if value == 78 {
        Some("BL_User_25"@)
    } else if value == 79 {
        Some("BL_User_26"@)
    } else if value == 80 {
        Some("BL_User_27"@)
    } else if value == 81 {
        Some("BL_User_28"@)
    } else if value == 82 {
        Some("BL_User_29"@)
    } else if value == 83 {
        Some("BL_User_30"@)
    } else if value == 84 {
        Some("BL_User_31"@)
    } else if value == 85 {
        Some("BL_User_32"@)
    } else if value == 86 {
        Some("BL_User_33"@)
    } else if value == 87 {
        Some("BL_User_34"@)
    } else if value == 88 {
        Some("BL_User_35"@)
    } else if value == 89 {
        Some("BL_User_36"@)
    } else if value == 90 {
        Some("BL_User_37"@)
    } else if value == 91 {
        Some("BL_User_38"@)
    } else if value == 92 {
        Some("BL_User_39"@)
    } else if value == 93 {
        Some("BL_User_40"@)
    } else if value == 94 {
        Some("BL_User_41"@)
    } else if value == 95 {
        Some("BL_User_42"@)
    } else if value == 96 {
        Some("BL_User_43"@)
    } else if value == 97 {
        Some("BL_User_44"@)
    } else if value == 98 {
        Some("BL_User_45"@)
    } else {
        None
    }
}

/// Looks up the symbolic name of a `BoardLayer` value.
pub fn board_layer_name(value: i32) -> (r: Option<&'static str>)
    ensures
        match r {
            Some(s) => board_layer_name_spec(value) == Some(s@),
            None => board_layer_name_spec(value) is None,
        },
{
    if value == 0 {
        Some("BL_UNKNOWN")
    } else if value == 1 {
        Some("BL_UNDEFINED")
    } else if value == 2 {
        Some("BL_UNSELECTED")
    } else if value == 3 {
        Some("BL_F_Cu")
    } else if value == 4 {
        Some("BL_In1_Cu")
    } else if value == 5 {
        Some("BL_In2_Cu")
    } else if value == 6 {
        Some("BL_In3_Cu")
    } else if value == 7 {
        Some("BL_In4_Cu")
    } else if value == 8 {
        Some("BL_In5_Cu")
    } else if value == 9 {
        Some("BL_In6_Cu")
    } else if value == 10 {
        Some("BL_In7_Cu")
    } else if value == 11 {
        Some("BL_In8_Cu")
    } else if value == 12 {
        Some("BL_In9_Cu")
    } else if value == 13 {
        Some("BL_In10_Cu")
    } else if value == 14 {
        Some("BL_In11_Cu")
    } else if value == 15 {
        Some("BL_In12_Cu")
    } else if value == 16 {
        Some("BL_In13_Cu")
    } else if value == 17 {
        Some("BL_In14_Cu")
    } else if value == 18 {
        Some("BL_In15_Cu")
    } else if value == 19 {
        Some("BL_In16_Cu")
    } else if value == 20 {
        Some("BL_In17_Cu")
    } else if value == 21 {
        Some("BL_In18_Cu")
    } else if value == 22 {
        Some("BL_In19_Cu")
    } else if value == 23 {
        Some("BL_In20_Cu")
    } else if value == 24 {
        Some("BL_In21_Cu")
    } else if value == 25 {
        Some("BL_In22_Cu")
    } else if value == 26 {
        Some("BL_In23_Cu")
    } else if value == 27 {
        Some("BL_In24_Cu")
    } else if value == 28 {
        Some("BL_In25_Cu")
    } else if value == 29 {
        Some("BL_In26_Cu")
    } else if value == 30 {
        Some("BL_In27_Cu")
    } else if value == 31 {
        Some("BL_In28_Cu")
    } else if value == 32 {
        Some("BL_In29_Cu")
    } else if value == 33 {
        Some("BL_In30_Cu")
    } else if value == 34 {
        Some("BL_B_Cu")
    } else if value == 35 {
        Some("BL_B_Adhes")
    } else if value == 36 {
        Some("BL_F_Adhes")
    } else if value == 37 {
        Some("BL_B_Paste")
    } else if value == 38 {
        Some("BL_F_Paste")
    } else if value == 39 {
        Some("BL_B_SilkS")
    } else if value == 40 {
        Some("BL_F_SilkS")
    } else if value == 41 {
        Some("BL_B_Mask")
    } else if value == 42 {
        Some("BL_F_Mask")
    } else if value == 43 {
        Some("BL_Dwgs_User")
    } else if value == 44 {
        Some("BL_Cmts_User")
    } else if value == 45 {
        Some("BL_Eco1_User")
    } else if value == 46 {
        Some("BL_Eco2_User")
    } else if value == 47 {
        Some("BL_Edge_Cuts")
    } else if value == 48 {
        Some("BL_Margin")
    } else if value == 49 {
        Some("BL_B_CrtYd")
    } else if value == 50 {
        Some("BL_F_CrtYd")
    } else if value == 51 {
        Some("BL_B_Fab")
    } else if value == 52 {
        Some("BL_F_Fab")
    } else if value == 53 {
        Some("BL_User_1")
    } else if value == 54 {
        Some("BL_User_2")
    } else if value == 55 {
        Some("BL_User_3")
    } else if value == 56 {
        Some("BL_User_4")
    } else if value == 57 {
        Some("BL_User_5")
    } else if value == 58 {
        Some("BL_User_6")
    } else if value == 59 {
        Some("BL_User_7")
    } else if value == 60 {
        Some("BL_User_8")
    } else if value == 61 {
        Some("BL_User_9")
    } else if value == 62 {
        Some("BL_Rescue")
    } else if value == 63 {
        Some("BL_User_10")
    } else if value == 64 {
        Some("BL_User_11")
    } else if value == 65 {
        Some("BL_User_12")
    } else if value == 66 {
        Some("BL_User_13")
    } else if value == 67 {
        Some("BL_User_14")
    } else if value == 68 {
        Some("BL_User_15")
    } else if value == 69 {
        Some("BL_User_16")
    } else if value == 70 {
        Some("BL_User_17")
    } else if value == 71 {
        Some("BL_User_18")
    } else if value == 72 {
        Some("BL_User_19")
    } else if value == 73 {
        Some("BL_User_20")
    } else if value == 74 {
        Some("BL_User_21")
    } else if value == 75 {
        Some("BL_User_22")
    } else if value == 76 {
        Some("BL_User_23")
    } else if value == 77 {
        Some("BL_User_24")
    } else if value == 78 {
        Some("BL_User_25")
    } else if value == 79 {
        Some("BL_User_26")
    } else if value == 80 {
        Some("BL_User_27")
    } else if value == 81 {
        Some("BL_User_28")
    } else if value == 82 {
        Some("BL_User_29")
    } else if value == 83 {
        Some("BL_User_30")
    } else if value == 84 {
        Some("BL_User_31")
    } else if value == 85 {
        Some("BL_User_32")
    } else if value == 86 {
        Some("BL_User_33")
    } else if value == 87 {
        Some("BL_User_34")
    } else if value == 88 {
        Some("BL_User_35")
    } else if value == 89 {
        Some("BL_User_36")
    } else if value == 90 {
        Some("BL_User_37")
    } else if value == 91 {
        Some("BL_User_38")
    } else if value == 92 {
        Some("BL_User_39")
    } else if value == 93 {
        Some("BL_User_40")
    } else if value == 94 {
        Some("BL_User_41")
    } else if value == 95 {
        Some("BL_User_42")
    } else if value == 96 {
        Some("BL_User_43")
    } else if value == 97 {
        Some("BL_User_44")
    } else if value == 98 {
        Some("BL_User_45")
    } else {
        None
    }
}

/// The symbolic name of a `KiCadObjectType` value; `None` for a value that the
/// enumeration does not define.
pub open spec fn kicad_object_type_name_spec(value: i32) -> Option<Seq<char>> {
    if value == 0 {
        Some("KOT_UNKNOWN"@)
    } else if value == 1 {
        Some("KOT_PCB_FOOTPRINT"@)
    } else if value == 2 {
        Some("KOT_PCB_PAD"@)
    } else if value == 3 {
        Some("KOT_PCB_SHAPE"@)
    } else if value == 4 {
        Some("KOT_PCB_REFERENCE_IMAGE"@)
    } else if value == 5 {
        Some("KOT_PCB_FIELD"@)
    } else if value == 6 {
        Some("KOT_PCB_GENERATOR"@)
    } else if value == 7 {
        Some("KOT_PCB_TEXT"@)
    } else if value == 8 {
        Some("KOT_PCB_TEXTBOX"@)
    } else if value == 9 {
        Some("KOT_PCB_TABLE"@)
    } else if value == 10 {
        Some("KOT_PCB_TABLECELL"@)
    } else if value == 11 {
        Some("KOT_PCB_TRACE"@)
    } else if value == 12 {
        Some("KOT_PCB_VIA"@)
    } else if value == 13 {
        Some("KOT_PCB_ARC"@)
    } else if value == 14 {
        Some("KOT_PCB_MARKER"@)
    } else if value == 15 {
        Some("KOT_PCB_DIMENSION"@)
    } else if value == 16 {
        Some("KOT_PCB_ZONE"@)
    } else if value == 17 {
        Some("KOT_PCB_GROUP"@)
    } else if value == 18 {
        Some("KOT_SCH_MARKER"@)
    } else if value == 19 {
        Some("KOT_SCH_JUNCTION"@)
    } else if value == 20 {
        Some("KOT_SCH_NO_CONNECT"@)
    } else if value == 21 {
        Some("KOT_SCH_BUS_WIRE_ENTRY"@)
    } else if value == 22 {
        Some("KOT_SCH_BUS_BUS_ENTRY"@)
    } else if value == 23 {
        Some("KOT_SCH_LINE"@)
    } else if value == 24 {
        Some("KOT_SCH_SHAPE"@)
    } else if value == 25 {
        Some("KOT_SCH_BITMAP"@)
    } else if value == 26 {
        Some("KOT_SCH_TEXTBOX"@)
    } else if value == 27 {
        Some("KOT_SCH_TEXT"@)
    } else if value == 28 {
        Some("KOT_SCH_TABLE"@)
    } else if value == 29 {
        Some("KOT_SCH_TABLECELL"@)
    } else if value == 30 {
        Some("KOT_SCH_LABEL"@)
    } else if value == 31 {
        Some("KOT_SCH_GLOBAL_LABEL"@)
    } else if value == 32 {
        Some("KOT_SCH_HIER_LABEL"@)
    } else if value == 33 {
        Some("KOT_SCH_DIRECTIVE_LABEL"@)
    } else if value == 34 {
        Some("KOT_SCH_FIELD"@)
    } else if value == 35 {
        Some("KOT_SCH_SYMBOL"@)
    } else if value == 36 {
        Some("KOT_SCH_SHEET_PIN"@)
    } else if value == 37 {
        Some("KOT_SCH_SHEET"@)
    } else if value == 38 {
        Some("KOT_SCH_PIN"@)
    } else if value == 39 {
        Some("KOT_LIB_SYMBOL"@)
    } else if value == 40 {
        Some("KOT_WSG_LINE"@)
    } else if value == 41 {
        Some("KOT_WSG_RECT"@)
    } else if value == 42 {
        Some("KOT_WSG_POLY"@)
    } else if value == 43 {
        Some("KOT_WSG_TEXT"@)
    } else if value == 44 {
        Some("KOT_WSG_BITMAP"@)
    } else if value == 45 {
        Some("KOT_WSG_PAGE"@)
    } else if value == 46 {
        Some("KOT_PCB_BARCODE"@)
    } else {
        None
    }
}

/// Looks up the symbolic name of a `KiCadObjectType` value.
pub fn kicad_object_type_name(value: i32) -> (r: Option<&'static str>)
    ensures
        match r {
            Some(s) => kicad_object_type_name_spec(value) == Some(s@),
            None => kicad_object_type_name_spec(value) is None,
        },
{
    if value == 0 {
        Some("KOT_UNKNOWN")
    } else if value == 1 {
        Some("KOT_PCB_FOOTPRINT")
    } else if value == 2 {
        Some("KOT_PCB_PAD")
    } else if value == 3 {
        Some("KOT_PCB_SHAPE")
    } else if value == 4 {
        Some("KOT_PCB_REFERENCE_IMAGE")
    } else if value == 5 {
        Some("KOT_PCB_FIELD")
    } else if value == 6 {
        Some("KOT_PCB_GENERATOR")
    } else if value == 7 {
        Some("KOT_PCB_TEXT")
    } else if value == 8 {
        Some("KOT_PCB_TEXTBOX")
    } else if value == 9 {
        Some("KOT_PCB_TABLE")
    } else if value == 10 {
        Some("KOT_PCB_TABLECELL")
    } else if value == 11 {
        Some("KOT_PCB_TRACE")
    } else if value == 12 {
        Some("KOT_PCB_VIA")
    } else if value == 13 {
        Some("KOT_PCB_ARC")
    } else if value == 14 {
        Some("KOT_PCB_MARKER")
    } else if value == 15 {
        Some("KOT_PCB_DIMENSION")
    } else if value == 16 {
        Some("KOT_PCB_ZONE")
    } else if value == 17 {
        Some("KOT_PCB_GROUP")
    } else if value == 18 {
        Some("KOT_SCH_MARKER")
    } else if value == 19 {
        Some("KOT_SCH_JUNCTION")
    } else if value == 20 {
        Some("KOT_SCH_NO_CONNECT")
    } else if value == 21 {
        Some("KOT_SCH_BUS_WIRE_ENTRY")
    } else if value == 22 {
        Some("KOT_SCH_BUS_BUS_ENTRY")
    } else if value == 23 {
        Some("KOT_SCH_LINE")
    } else if value == 24 {
        Some("KOT_SCH_SHAPE")
    } else if value == 25 {
        Some("KOT_SCH_BITMAP")
    } else if value == 26 {
        Some("KOT_SCH_TEXTBOX")
    } else if value == 27 {
        Some("KOT_SCH_TEXT")
    } else if value == 28 {
        Some("KOT_SCH_TABLE")
    } else if value == 29 {
        Some("KOT_SCH_TABLECELL")
    } else if value == 30 {
        Some("KOT_SCH_LABEL")
    } else if value == 31 {
        Some("KOT_SCH_GLOBAL_LABEL")
    } else if value == 32 {
        Some("KOT_SCH_HIER_LABEL")
    } else if value == 33 {
        Some("KOT_SCH_DIRECTIVE_LABEL")
    } else if value == 34 {
        Some("KOT_SCH_FIELD")
    } else if value == 35 {
        Some("KOT_SCH_SYMBOL")
    } else if value == 36 {
        Some("KOT_SCH_SHEET_PIN")
    } else if value == 37 {
        Some("KOT_SCH_SHEET")
    } else if value == 38 {
        Some("KOT_SCH_PIN")
    } else if value == 39 {
        Some("KOT_LIB_SYMBOL")
    } else if value == 40 {
        Some("KOT_WSG_LINE")
    } else if value == 41 {
        Some("KOT_WSG_RECT")
    } else if value == 42 {
        Some("KOT_WSG_POLY")
    } else if value == 43 {
        Some("KOT_WSG_TEXT")
    } else if value == 44 {
        Some("KOT_WSG_BITMAP")
    } else if value == 45 {
        Some("KOT_WSG_PAGE")
    } else if value == 46 {
        Some("KOT_PCB_BARCODE")
    } else {
        None
    }
}

/// The symbolic name of a `ItemRequestStatus` value; `None` for a value that the
/// enumeration does not define.
pub open spec fn item_request_status_name_spec(value: i32) -> Option<Seq<char>> {
    if value == 0 {
        Some("IRS_UNKNOWN"@)
    } else if value == 1 {
        Some("IRS_OK"@)
    } else if value == 2 {
        Some("IRS_DOCUMENT_NOT_FOUND"@)
    } else if value == 3 {
        Some("IRS_FIELD_MASK_INVALID"@)
    } else {
        None
    }
}

/// Looks up the symbolic name of a `ItemRequestStatus` value.
pub fn item_request_status_name(value: i32) -> (r: Option<&'static str>)
    ensures
        match r {
            Some(s) => item_request_status_name_spec(value) == Some(s@),
            None => item_request_status_name_spec(value) is None,
        },
{
    if value == 0 {
        Some("IRS_UNKNOWN")
    } else if value == 1 {
        Some("IRS_OK")
    } else if value == 2 {
        Some("IRS_DOCUMENT_NOT_FOUND")
    } else if value == 3 {
        Some("IRS_FIELD_MASK_INVALID")
    } else {
        None
    }
}

/// The symbolic name of a `ItemStatusCode` value; `None` for a value that the
/// enumeration does not define.
pub open spec fn item_status_code_name_spec(value: i32) -> Option<Seq<char>> {
    if value == 0 {
        Some("ISC_UNKNOWN"@)
    } else if value == 1 {
        Some("ISC_OK"@)
    } else if value == 2 {
        Some("ISC_INVALID_TYPE"@)
    } else if value == 3 {
        Some("ISC_EXISTING"@)
    } else if value == 4 {
        Some("ISC_NONEXISTENT"@)
    } else if value == 5 {
        Some("ISC_IMMUTABLE"@)
    } else if value == 7 {
        Some("ISC_INVALID_DATA"@)
    } else {
        None
    }
}

/// Looks up the symbolic name of a `ItemStatusCode` value.
pub fn item_status_code_name(value: i32) -> (r: Option<&'static str>)
    ensures
        match r {
            Some(s) => item_status_code_name_spec(value) == Some(s@),
            None => item_status_code_name_spec(value) is None,
        },
{
    if value == 0 {
        Some("ISC_UNKNOWN")
    } else if value == 1 {
        Some("ISC_OK")
    } else if value == 2 {
        Some("ISC_INVALID_TYPE")
    } else if value == 3 {
        Some("ISC_EXISTING")
    } else if value == 4 {
        Some("ISC_NONEXISTENT")
    } else if value == 5 {
        Some("ISC_IMMUTABLE")
    } else if value == 7 {
        Some("ISC_INVALID_DATA")
    } else {
        None
    }
}

/// The symbolic name of a `ItemDeletionStatus` value; `None` for a value that the
/// enumeration does not define.
pub open spec fn item_deletion_status_name_spec(value: i32) -> Option<Seq<char>> {
    if value == 0 {
        Some("IDS_UNKNOWN"@)
    } else if value == 1 {
        Some("IDS_OK"@)
    } else if value == 2 {
        Some("IDS_NONEXISTENT"@)
    } else if value == 3 {
        Some("IDS_IMMUTABLE"@)
    } else {
        None
    }
}

/// Looks up the symbolic name of a `ItemDeletionStatus` value.
pub fn item_deletion_status_name(value: i32) -> (r: Option<&'static str>)
    ensures
        match r {
            Some(s) => item_deletion_status_name_spec(value) == Some(s@),
            None => item_deletion_status_name_spec(value) is None,
        },
{
    if value == 0 {
        Some("IDS_UNKNOWN")
    } else if value == 1 {
        Some("IDS_OK")
    } else if value == 2 {
        Some("IDS_NONEXISTENT")
    } else if value == 3 {
        Some("IDS_IMMUTABLE")
    } else {
        None
    }
}

/// The symbolic name of a `HorizontalAlignment` value; `None` for a value that the
/// enumeration does not define.
pub open spec fn horizontal_alignment_name_spec(value: i32) -> Option<Seq<char>> {
    if value == 0 {
        Some("HA_UNKNOWN"@)
    } else if value == 1 {
        Some("HA_LEFT"@)
    } else if value == 2 {
        Some("HA_CENTER"@)
    } else if value == 3 {
        Some("HA_RIGHT"@)
    } else if value == 4 {
        Some("HA_INDETERMINATE"@)
    } else {
        None
    }
}

/// Looks up the symbolic name of a `HorizontalAlignment` value.
pub fn horizontal_alignment_name(value: i32) -> (r: Option<&'static str>)
    ensures
        match r {
            Some(s) => horizontal_alignment_name_spec(value) == Some(s@),
            None => horizontal_alignment_name_spec(value) is None,
        },
{
    if value == 0 {
        Some("HA_UNKNOWN")
    } else if value == 1 {
        Some("HA_LEFT")
    } else if value == 2 {
        Some("HA_CENTER")
    } else if value == 3 {
        Some("HA_RIGHT")
    } else if value == 4 {
        Some("HA_INDETERMINATE")
    } else {
        None
    }
}

/// The symbolic name of a `VerticalAlignment` value; `None` for a value that the
/// enumeration does not define.
pub open spec fn vertical_alignment_name_spec(value: i32) -> Option<Seq<char>> {
    if value == 0 {
        Some("VA_UNKNOWN"@)
    } else if value == 1 {
        Some("VA_TOP"@)
    } else if value == 2 {
        Some("VA_CENTER"@)
    } else if value == 3 {
        Some("VA_BOTTOM"@)
    } else if value == 4 {
        Some("VA_INDETERMINATE"@)
    } else {
        None
    }
}

/// Looks up the symbolic name of a `VerticalAlignment` value.
pub fn vertical_alignment_name(value: i32) -> (r: Option<&'static str>)
    ensures
        match r {
            Some(s) => vertical_alignment_name_spec(value) == Some(s@),
            None => vertical_alignment_name_spec(value) is None,
        },
{
    if value == 0 {
        Some("VA_UNKNOWN")
    } else if value == 1 {
        Some("VA_TOP")
    } else if value == 2 {
        Some("VA_CENTER")
    } else if value == 3 {
        Some("VA_BOTTOM")
    } else if value == 4 {
        Some("VA_INDETERMINATE")
    } else {
        None
    }
}

/// The symbolic name of a `DrillShape` value; `None` for a value that the
/// enumeration does not define.
pub open spec fn drill_shape_name_spec(value: i32) -> Option<Seq<char>> {
    if value == 0 {
        Some("DS_UNKNOWN"@)
    } else if value == 1 {
        Some("DS_CIRCLE"@)
    } else if value == 2 {
        Some("DS_OBLONG"@)
    } else if value == 3 {
        Some("DS_UNDEFINED"@)
    } else {
        None
    }
}

/// Looks up the symbolic name of a `DrillShape` value.
pub fn drill_shape_name(value: i32) -> (r: Option<&'static str>)
    ensures
        match r {
            Some(s) => drill_shape_name_spec(value) == Some(s@),
            None => drill_shape_name_spec(value) is None,
        },
{
    if value == 0 {
        Some("DS_UNKNOWN")
    } else if value == 1 {
        Some("DS_CIRCLE")
    } else if value == 2 {
        Some("DS_OBLONG")
    } else if value == 3 {
        Some("DS_UNDEFINED")
    } else {
        None
    }
}

/// The symbolic name of a `ViaDrillCappingMode` value; `None` for a value that the
/// enumeration does not define.
pub open spec fn via_drill_capping_mode_name_spec(value: i32) -> Option<Seq<char>> {
    if value == 0 {
        Some("VDCM_UNKNOWN"@)
    } else if value == 1 {
        Some("VDCM_FROM_DESIGN_RULES"@)
    } else if value == 2 {
        Some("VDCM_CAPPED"@)
    } else if value == 3 {
        Some("VDCM_UNCAPPED"@)
    } else {
        None
    }
}

/// Looks up the symbolic name of a `ViaDrillCappingMode` value.
pub fn via_drill_capping_mode_name(value: i32) -> (r: Option<&'static str>)
    ensures
        match r {
            Some(s) => via_drill_capping_mode_name_spec(value) == Some(s@),
            None => via_drill_capping_mode_name_spec(value) is None,
        },
{
    if value == 0 {
        Some("VDCM_UNKNOWN")
    } else if value == 1 {
        Some("VDCM_FROM_DESIGN_RULES")
    } else if value == 2 {
        Some("VDCM_CAPPED")
    } else if value == 3 {
        Some("VDCM_UNCAPPED")
    } else {
        None
    }
}

/// The symbolic name of a `ViaDrillFillingMode` value; `None` for a value that the
/// enumeration does not define.
pub open spec fn via_drill_filling_mode_name_spec(value: i32) -> Option<Seq<char>> {
    if value == 0 {
        Some("VDFM_UNKNOWN"@)
    } else if value == 1 {
        Some("VDFM_FROM_DESIGN_RULES"@)
    } else if value == 2 {
        Some("VDFM_FILLED"@)
    } else if value == 3 {
        Some("VDFM_UNFILLED"@)
    } else {
        None
    }
}

/// Looks up the symbolic name of a `ViaDrillFillingMode` value.
pub fn via_drill_filling_mode_name(value: i32) -> (r: Option<&'static str>)
    ensures
        match r {
            Some(s) => via_drill_filling_mode_name_spec(value) == Some(s@),
            None => via_drill_filling_mode_name_spec(value) is None,
        },
{
    if value == 0 {
        Some("VDFM_UNKNOWN")
    } else if value == 1 {
        Some("VDFM_FROM_DESIGN_RULES")
    } else if value == 2 {
        Some("VDFM_FILLED")
    } else if value == 3 {
        Some("VDFM_UNFILLED")
    } else {
        None
    }
}

/// The symbolic name of a `PadStackType` value; `None` for a value that the
/// enumeration does not define.
pub open spec fn pad_stack_type_name_spec(value: i32) -> Option<Seq<char>> {
    if value == 0 {
        Some("PST_UNKNOWN"@)
    } else if value == 1 {
        Some("PST_NORMAL"@)
    } else if value == 2 {
        Some("PST_FRONT_INNER_BACK"@)
    } else if value == 3 {
        Some("PST_CUSTOM"@)
    } else {
        None
    }
}

/// Looks up the symbolic name of a `PadStackType` value.
pub fn pad_stack_type_name(value: i32) -> (r: Option<&'static str>)
    ensures
        match r {
            Some(s) => pad_stack_type_name_spec(value) == Some(s@),
            None => pad_stack_type_name_spec(value) is None,
        },
{
    if value == 0 {
        Some("PST_UNKNOWN")
    } else if value == 1 {
        Some("PST_NORMAL")
    } else if value == 2 {
        Some("PST_FRONT_INNER_BACK")
    } else if value == 3 {
        Some("PST_CUSTOM")
    } else {
        None
    }
}

/// The symbolic name of a `UnconnectedLayerRemoval` value; `None` for a value that the
/// enumeration does not define.
pub open spec fn unconnected_layer_removal_name_spec(value: i32) -> Option<Seq<char>> {
    if value == 0 {
        Some("ULR_UNKNOWN"@)
    } else if value == 1 {
        Some("ULR_KEEP"@)
    } else if value == 2 {
        Some("ULR_REMOVE"@)
    } else if value == 3 {
        Some("ULR_REMOVE_EXCEPT_START_AND_END"@)
    } else {
        None
    }
}

/// Looks up the symbolic name of a `UnconnectedLayerRemoval` value.
pub fn unconnected_layer_removal_name(value: i32) -> (r: Option<&'static str>)
    ensures
        match r {
            Some(s) => unconnected_layer_removal_name_spec(value) == Some(s@),
            None => unconnected_layer_removal_name_spec(value) is None,
        },
{
    if value == 0 {
        Some("ULR_UNKNOWN")
    } else if value == 1 {
        Some("ULR_KEEP")
    } else if value == 2 {
        Some("ULR_REMOVE")
    } else if value == 3 {
        Some("ULR_REMOVE_EXCEPT_START_AND_END")
    } else {
        None
    }
}

/// The symbolic name of a `AxisAlignment` value; `None` for a value that the
/// enumeration does not define.
pub open spec fn axis_alignment_name_spec(value: i32) -> Option<Seq<char>> {
    if value == 0 {
        Some("AA_UNKNOWN"@)
    } else if value == 1 {
        Some("AA_X_AXIS"@)
    } else if value == 2 {
        Some("AA_Y_AXIS"@)
    } else {
        None
    }
}

/// Looks up the symbolic name of a `AxisAlignment` value.
pub fn axis_alignment_name(value: i32) -> (r: Option<&'static str>)
    ensures
        match r {
            Some(s) => axis_alignment_name_spec(value) == Some(s@),
            None => axis_alignment_name_spec(value) is None,
        },
{
    if value == 0 {
        Some("AA_UNKNOWN")
    } else if value == 1 {
        Some("AA_X_AXIS")
    } else if value == 2 {
        Some("AA_Y_AXIS")
    } else {
        None
    }
}

/// The symbolic name of a `DimensionTextBorderStyle` value; `None` for a value that the
/// enumeration does not define.
pub open spec fn dimension_text_border_style_name_spec(value: i32) -> Option<Seq<char>> {
    if value == 0 {
        Some("DTBS_UNKNOWN"@)
    } else if value == 1 {
        Some("DTBS_NONE"@)
    } else if value == 2 {
        Some("DTBS_RECTANGLE"@)
    } else if value == 3 {
        Some("DTBS_CIRCLE"@)
    } else if value == 4 {
        Some("DTBS_ROUNDRECT"@)
    } else {
        None
    }
}

/// Looks up the symbolic name of a `DimensionTextBorderStyle` value.
pub fn dimension_text_border_style_name(value: i32) -> (r: Option<&'static str>)
    ensures
        match r {
            Some(s) => dimension_text_border_style_name_spec(value) == Some(s@),
            None => dimension_text_border_style_name_spec(value) is None,
        },
{
    if value == 0 {
        Some("DTBS_UNKNOWN")
    } else if value == 1 {
        Some("DTBS_NONE")
    } else if value == 2 {
        Some("DTBS_RECTANGLE")
    } else if value == 3 {
        Some("DTBS_CIRCLE")
    } else if value == 4 {
        Some("DTBS_ROUNDRECT")
    } else {
        None
    }
}

/// The symbolic name of a `ElectricalPinType` value; `None` for a value that the
/// enumeration does not define.
pub open spec fn electrical_pin_type_name_spec(value: i32) -> Option<Seq<char>> {
    if value == 0 {
        Some("EPT_UNKNOWN"@)
    } else if value == 1 {
        Some("EPT_INPUT"@)
    } else if value == 2 {
        Some("EPT_OUTPUT"@)
    } else if value == 3 {
        Some("EPT_BIDIRECTIONAL"@)
    } else if value == 4 {
        Some("EPT_TRISTATE"@)
    } else if value == 5 {
        Some("EPT_PASSIVE"@)
    } else if value == 6 {
        Some("EPT_FREE"@)
    } else if value == 7 {
        Some("EPT_UNSPECIFIED"@)
    } else if value == 8 {
        Some("EPT_POWER_INPUT"@)
    } else if value == 9 {
        Some("EPT_POWER_OUTPUT"@)
    } else if value == 10 {
        Some("EPT_OPEN_COLLECTOR"@)
    } else if value == 11 {
        Some("EPT_OPEN_EMITTER"@)
    } else if value == 12 {
        Some("EPT_NO_CONNECT"@)
    } else {
        None
    }
}

/// Looks up the symbolic name of a `ElectricalPinType` value.
pub fn electrical_pin_type_name(value: i32) -> (r: Option<&'static str>)
    ensures
        match r {
            Some(s) => electrical_pin_type_name_spec(value) == Some(s@),
            None => electrical_pin_type_name_spec(value) is None,
        },
{
    if value == 0 {
        Some("EPT_UNKNOWN")
    } else if value == 1 {
        Some("EPT_INPUT")
    } else if value == 2 {
        Some("EPT_OUTPUT")
    } else if value == 3 {
        Some("EPT_BIDIRECTIONAL")
    } else if value == 4 {
        Some("EPT_TRISTATE")
    } else if value == 5 {
        Some("EPT_PASSIVE")
    } else if value == 6 {
        Some("EPT_FREE")
    } else if value == 7 {
        Some("EPT_UNSPECIFIED")
    } else if value == 8 {
        Some("EPT_POWER_INPUT")
    } else if value == 9 {
        Some("EPT_POWER_OUTPUT")
    } else if value == 10 {
        Some("EPT_OPEN_COLLECTOR")
    } else if value == 11 {
        Some("EPT_OPEN_EMITTER")
    } else if value == 12 {
        Some("EPT_NO_CONNECT")
    } else {
        None
    }
}

/// The symbolic name of a `StrokeLineStyle` value; `None` for a value that the
/// enumeration does not define.
pub open spec fn stroke_line_style_name_spec(value: i32) -> Option<Seq<char>> {
    if value == 0 {
        Some("SLS_UNKNOWN"@)
    } else if value == 1 {
        Some("SLS_DEFAULT"@)
    } else if value == 2 {
        Some("SLS_SOLID"@)
    } else if value == 3 {
        Some("SLS_DASH"@)
    } else if value == 4 {
        Some("SLS_DOT"@)
    } else if value == 5 {
        Some("SLS_DASHDOT"@)
    } else if value == 6 {
        Some("SLS_DASHDOTDOT"@)
    } else {
        None
    }
}

/// Looks up the symbolic name of a `StrokeLineStyle` value.
pub fn stroke_line_style_name(value: i32) -> (r: Option<&'static str>)
    ensures
        match r {
            Some(s) => stroke_line_style_name_spec(value) == Some(s@),
            None => stroke_line_style_name_spec(value) is None,
        },
{
    if value == 0 {
        Some("SLS_UNKNOWN")
    } else if value == 1 {
        Some("SLS_DEFAULT")
    } else if value == 2 {
        Some("SLS_SOLID")
    } else if value == 3 {
        Some("SLS_DASH")
    } else if value == 4 {
        Some("SLS_DOT")
    } else if value == 5 {
        Some("SLS_DASHDOT")
    } else if value == 6 {
        Some("SLS_DASHDOTDOT")
    } else {
        None
    }
}

/// The symbolic name of a `GraphicFillType` value; `None` for a value that the
/// enumeration does not define.
pub open spec fn graphic_fill_type_name_spec(value: i32) -> Option<Seq<char>> {
    if value == 0 {
        Some("GFT_UNKNOWN"@)
    } else if value == 1 {
        Some("GFT_UNFILLED"@)
    } else if value == 2 {
        Some("GFT_FILLED"@)
    } else {
        None
    }
}

/// Looks up the symbolic name of a `GraphicFillType` value.
pub fn graphic_fill_type_name(value: i32) -> (r: Option<&'static str>)
    ensures
        match r {
            Some(s) => graphic_fill_type_name_spec(value) == Some(s@),
            None => graphic_fill_type_name_spec(value) is None,
        },
{
    if value == 0 {
        Some("GFT_UNKNOWN")
    } else if value == 1 {
        Some("GFT_UNFILLED")
    } else if value == 2 {
        Some("GFT_FILLED")
    } else {
        None
    }
}

/// The symbolic name of a `ZoneBorderStyle` value; `None` for a value that the
/// enumeration does not define.
pub open spec fn zone_border_style_name_spec(value: i32) -> Option<Seq<char>> {
    if value == 0 {
        Some("ZBS_UNKNOWN"@)
    } else if value == 1 {
        Some("ZBS_SOLID"@)
    } else if value == 2 {
        Some("ZBS_DIAGONAL_FULL"@)
    } else if value == 3 {
        Some("ZBS_DIAGONAL_EDGE"@)
    } else if value == 4 {
        Some("ZBS_INVISIBLE"@)
    } else {
        None
    }
}

/// Looks up the symbolic name of a `ZoneBorderStyle` value.
pub fn zone_border_style_name(value: i32) -> (r: Option<&'static str>)
    ensures
        match r {
            Some(s) => zone_border_style_name_spec(value) == Some(s@),
            None => zone_border_style_name_spec(value) is None,
        },
{
    if value == 0 {
        Some("ZBS_UNKNOWN")
    } else if value == 1 {
        Some("ZBS_SOLID")
    } else if value == 2 {
        Some("ZBS_DIAGONAL_FULL")
    } else if value == 3 {
        Some("ZBS_DIAGONAL_EDGE")
    } else if value == 4 {
        Some("ZBS_INVISIBLE")
    } else {
        None
    }
}

/// The symbolic name of a `DimensionUnit` value; `None` for a value that the
/// enumeration does not define.
pub open spec fn dimension_unit_name_spec(value: i32) -> Option<Seq<char>> {
    if value == 0 {
        Some("DU_UNKNOWN"@)
    } else if value == 1 {
        Some("DU_INCHES"@)
    } else if value == 2 {
        Some("DU_MILS"@)
    } else if value == 3 {
        Some("DU_MILLIMETERS"@)
    } else if value == 4 {
        Some("DU_AUTOMATIC"@)
    } else {
        None
    }
}

/// Looks up the symbolic name of a `DimensionUnit` value.
pub fn dimension_unit_name(value: i32) -> (r: Option<&'static str>)
    ensures
        match r {
            Some(s) => dimension_unit_name_spec(value) == Some(s@),
            None => dimension_unit_name_spec(value) is None,
        },
{
    if value == 0 {
        Some("DU_UNKNOWN")
    } else if value == 1 {
        Some("DU_INCHES")
    } else if value == 2 {
        Some("DU_MILS")
    } else if value == 3 {
        Some("DU_MILLIMETERS")
    } else if value == 4 {
        Some("DU_AUTOMATIC")
    } else {
        None
    }
}

/// The symbolic name of a `DimensionUnitFormat` value; `None` for a value that the
/// enumeration does not define.
pub open spec fn dimension_unit_format_name_spec(value: i32) -> Option<Seq<char>> {
    if value == 0 {
        Some("DUF_UNKNOWN"@)
    } else if value == 1 {
        Some("DUF_NO_SUFFIX"@)
    } else if value == 2 {
        Some("DUF_BARE_SUFFIX"@)
    } else if value == 3 {
        Some("DUF_PAREN_SUFFIX"@)
    } else {
        None
    }
}

/// Looks up the symbolic name of a `DimensionUnitFormat` value.
pub fn dimension_unit_format_name(value: i32) -> (r: Option<&'static str>)
    ensures
        match r {
            Some(s) => dimension_unit_format_name_spec(value) == Some(s@),
            None => dimension_unit_format_name_spec(value) is None,
        },
{
    if value == 0 {
        Some("DUF_UNKNOWN")
    } else if value == 1 {
        Some("DUF_NO_SUFFIX")
    } else if value == 2 {
        Some("DUF_BARE_SUFFIX")
    } else if value == 3 {
        Some("DUF_PAREN_SUFFIX")
    } else {
        None
    }
}

/// The symbolic name of a `DimensionArrowDirection` value; `None` for a value that the
/// enumeration does not define.
pub open spec fn dimension_arrow_direction_name_spec(value: i32) -> Option<Seq<char>> {
    if value == 0 {
        Some("DAD_UNKNOWN"@)
    } else if value == 1 {
        Some("DAD_INWARD"@)
    } else if value == 2 {
        Some("DAD_OUTWARD"@)
    } else {
        None
    }
}

/// Looks up the symbolic name of a `DimensionArrowDirection` value.
pub fn dimension_arrow_direction_name(value: i32) -> (r: Option<&'static str>)
    ensures
        match r {
            Some(s) => dimension_arrow_direction_name_spec(value) == Some(s@),
            None => dimension_arrow_direction_name_spec(value) is None,
        },
{
    if value == 0 {
        Some("DAD_UNKNOWN")
    } else if value == 1 {
        Some("DAD_INWARD")
    } else if value == 2 {
        Some("DAD_OUTWARD")
    } else {
        None
    }
}

/// The symbolic name of a `DimensionPrecision` value; `None` for a value that the
/// enumeration does not define.
pub open spec fn dimension_precision_name_spec(value: i32) -> Option<Seq<char>> {
    if value == 0 {
        Some("DP_UNKNOWN"@)
    } else if value == 1 {
        Some("DP_FIXED_0"@)
    } else if value == 2 {
        Some("DP_FIXED_1"@)
    } else if value == 3 {
        Some("DP_FIXED_2"@)
    } else if value == 4 {
        Some("DP_FIXED_3"@)
    } else if value == 5 {
        Some("DP_FIXED_4"@)
    } else if value == 6 {
        Some("DP_FIXED_5"@)
    } else if value == 7 {
        Some("DP_SCALED_IN_2"@)
    } else if value == 8 {
        Some("DP_SCALED_IN_3"@)
    } else if value == 9 {
        Some("DP_SCALED_IN_4"@)
    } else if value == 10 {
        Some("DP_SCALED_IN_5"@)
    } else {
        None
    }
}

/// Looks up the symbolic name of a `DimensionPrecision` value.
pub fn dimension_precision_name(value: i32) -> (r: Option<&'static str>)
    ensures
        match r {
            Some(s) => dimension_precision_name_spec(value) == Some(s@),
            None => dimension_precision_name_spec(value) is None,
        },
{
    if value == 0 {
        Some("DP_UNKNOWN")
    } else if value == 1 {
        Some("DP_FIXED_0")
    } else if value == 2 {
        Some("DP_FIXED_1")
    } else if value == 3 {
        Some("DP_FIXED_2")
    } else if value == 4 {
        Some("DP_FIXED_3")
    } else if value == 5 {
        Some("DP_FIXED_4")
    } else if value == 6 {
        Some("DP_FIXED_5")
    } else if value == 7 {
        Some("DP_SCALED_IN_2")
    } else if value == 8 {
        Some("DP_SCALED_IN_3")
    } else if value == 9 {
        Some("DP_SCALED_IN_4")
    } else if value == 10 {
        Some("DP_SCALED_IN_5")
    } else {
        None
    }
}

/// The symbolic name of a `DimensionTextPosition` value; `None` for a value that the
/// enumeration does not define.
pub open spec fn dimension_text_position_name_spec(value: i32) -> Option<Seq<char>> {
    if value == 0 {
        Some("DTP_UNKNOWN"@)
    } else if value == 1 {
        Some("DTP_OUTSIDE"@)
    } else if value == 2 {
        Some("DTP_INLINE"@)
    } else if value == 3 {
        Some("DTP_MANUAL"@)
    } else {
        None
    }
}

/// Looks up the symbolic name of a `DimensionTextPosition` value.
pub fn dimension_text_position_name(value: i32) -> (r: Option<&'static str>)
    ensures
        match r {
            Some(s) => dimension_text_position_name_spec(value) == Some(s@),
            None => dimension_text_position_name_spec(value) is None,
        },
{
    if value == 0 {
        Some("DTP_UNKNOWN")
    } else if value == 1 {
        Some("DTP_OUTSIDE")
    } else if value == 2 {
        Some("DTP_INLINE")
    } else if value == 3 {
        Some("DTP_MANUAL")
    } else {
        None
    }
}

/// The symbolic name of a `ViaType` value; `None` for a value that the
/// enumeration does not define.
pub open spec fn via_type_name_spec(value: i32) -> Option<Seq<char>> {
    if value == 0 {
        Some("VT_UNKNOWN"@)
    } else if value == 1 {
        Some("VT_THROUGH"@)
    } else if value == 2 {
        Some("VT_BLIND_BURIED"@)
    } else if value == 3 {
        Some("VT_MICRO"@)
    } else if value == 4 {
        Some("VT_BLIND"@)
    } else if value == 5 {
        Some("VT_BURIED"@)
    } else {
        None
    }
}

/// Looks up the symbolic name of a `ViaType` value.
pub fn via_type_name(value: i32) -> (r: Option<&'static str>)
    ensures
        match r {
            Some(s) => via_type_name_spec(value) == Some(s@),
            None => via_type_name_spec(value) is None,
        },
{
    if value == 0 {
        Some("VT_UNKNOWN")
    } else if value == 1 {
        Some("VT_THROUGH")
    } else if value == 2 {
        Some("VT_BLIND_BURIED")
    } else if value == 3 {
        Some("VT_MICRO")
    } else if value == 4 {
        Some("VT_BLIND")
    } else if value == 5 {
        Some("VT_BURIED")
    } else {
        None
    }
}

} // verus!
