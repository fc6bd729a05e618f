//! Item queries: the catalog of PCB object types, bucketing of fetched
//! payloads by type, and the commands and responses of item operations.

use vstd::prelude::*;
use crate::client::mappers::{
    ensure_item_deletion_status_ok, ensure_item_request_ok, item_deletion_status_text,
    item_request_status_text, net_proto_of, board_net_to_proto,
};
use crate::error::KiCadError;
use crate::model::board::BoardNet;
use crate::model::common::{
    is_pcb_object_code, lemma_pcb_name_resolves, object_type_code_from_name, PcbObjectTypeCode,
};
use crate::pcb_item_type_urls as urls;
use crate::proto;
use crate::proto_enums::{kicad_object_type_name, kicad_object_type_name_spec};
use crate::text::{
    chars_from, chars_of, chars_start_with, copy_string, owned, push_str, seq_starts_with,
    str_eq, string_from_chars, strings_view,
};

verus! {

// ---------------------------------------------------------------------------
// The catalog of PCB object types.
// ---------------------------------------------------------------------------
/// The PCB object type codes the library handles, in catalog order.
pub open spec fn pcb_object_type_catalog() -> Seq<i32> {
    seq![
        proto::KOT_PCB_FOOTPRINT,
        proto::KOT_PCB_PAD,
        proto::KOT_PCB_SHAPE,
        proto::KOT_PCB_REFERENCE_IMAGE,
        proto::KOT_PCB_FIELD,
        proto::KOT_PCB_GENERATOR,
        proto::KOT_PCB_TEXT,
        proto::KOT_PCB_TEXTBOX,
        proto::KOT_PCB_TABLE,
        proto::KOT_PCB_TABLECELL,
        proto::KOT_PCB_TRACE,
        proto::KOT_PCB_VIA,
        proto::KOT_PCB_ARC,
        proto::KOT_PCB_MARKER,
        proto::KOT_PCB_DIMENSION,
        proto::KOT_PCB_ZONE,
        proto::KOT_PCB_GROUP,
        proto::KOT_PCB_BARCODE,
    ]
}

/// Whether `entries` is the catalog: one entry per catalog code, in order,
/// each named by its enum name.
pub open spec fn is_object_type_catalog(entries: Seq<PcbObjectTypeCode>) -> bool {
    &&& entries.len() == pcb_object_type_catalog().len()
    &&& forall|i: int|
        0 <= i < entries.len() ==> {
            &&& (#[trigger] entries[i]).code == pcb_object_type_catalog()[i]
            &&& kicad_object_type_name_spec(entries[i].code) == Some(entries[i].name@)
        }
}

pub(crate) fn catalog_codes() -> (r: Vec<i32>)
    ensures
        r@ == pcb_object_type_catalog(),
{
    let r = vec![
        proto::KOT_PCB_FOOTPRINT,
        proto::KOT_PCB_PAD,
        proto::KOT_PCB_SHAPE,
        proto::KOT_PCB_REFERENCE_IMAGE,
        proto::KOT_PCB_FIELD,
        proto::KOT_PCB_GENERATOR,
        proto::KOT_PCB_TEXT,
        proto::KOT_PCB_TEXTBOX,
        proto::KOT_PCB_TABLE,
        proto::KOT_PCB_TABLECELL,
        proto::KOT_PCB_TRACE,
        proto::KOT_PCB_VIA,
        proto::KOT_PCB_ARC,
        proto::KOT_PCB_MARKER,
        proto::KOT_PCB_DIMENSION,
        proto::KOT_PCB_ZONE,
        proto::KOT_PCB_GROUP,
        proto::KOT_PCB_BARCODE,
    ];
    assert(r@ =~= pcb_object_type_catalog());
    r
}

/// The known PCB object types, in catalog order.
pub fn pcb_object_types() -> (r: Vec<PcbObjectTypeCode>)
    ensures
        is_object_type_catalog(r@),
{
    let codes = catalog_codes();
    let mut r: Vec<PcbObjectTypeCode> = Vec::new();
    let mut i: usize = 0;
    while i < codes.len()
        invariant
            codes@ == pcb_object_type_catalog(),
            i <= codes@.len(),
            r@.len() == i,
            forall|j: int|
                0 <= j < i ==> {
                    &&& (#[trigger] r@[j]).code == pcb_object_type_catalog()[j]
                    &&& kicad_object_type_name_spec(r@[j].code) == Some(r@[j].name@)
                },
        decreases codes@.len() - i,
    {
        let code = codes[i];
        assert(kicad_object_type_name_spec(code) is Some);
        let name = kicad_object_type_name(code).unwrap();
        r.push(PcbObjectTypeCode { code, name });
        i = i + 1;
    }
    r
}

/// The catalog name of a code: the enum name when the code is in the
/// catalog.
pub open spec fn catalog_name(code: i32) -> Option<Seq<char>> {
    if pcb_object_type_catalog().contains(code) {
        kicad_object_type_name_spec(code)
    } else {
        None
    }
}

/// Looks up the catalog name of a PCB object type code.
pub fn catalog_object_type_name(type_code: i32) -> (r: Option<&'static str>)
    ensures
        match r {
            Some(s) => catalog_name(type_code) == Some(s@),
            None => catalog_name(type_code) is None,
        },
{
    let entries = pcb_object_types();
    let mut i: usize = 0;
    while i < entries.len()
        invariant
            is_object_type_catalog(entries@),
            i <= entries@.len(),
            forall|j: int| 0 <= j < i ==> pcb_object_type_catalog()[j] != type_code,
        decreases entries@.len() - i,
    {
        if entries[i].code == type_code {
            assert(pcb_object_type_catalog()[i as int] == type_code);
            return Some(entries[i].name);
        }
        i = i + 1;
    }
    assert(!pcb_object_type_catalog().contains(type_code));
    None
}

// ---------------------------------------------------------------------------
// Object type of a payload.
// ---------------------------------------------------------------------------
/// The message name a type URL carries: the URL without its
/// `type.googleapis.com/` prefix, or the whole URL when it has none.
pub open spec fn type_name_of_url(url: Seq<char>) -> Seq<char> {
    if seq_starts_with(url, "type.googleapis.com/"@) {
        url.skip(20)
    } else {
        url
    }
}

/// The object type code of a board item message name.
pub open spec fn object_code_of_type_name(name: Seq<char>) -> Option<i32> {
    if name == urls::FOOTPRINT_INSTANCE@ {
        Some(proto::KOT_PCB_FOOTPRINT)
    } else if name == urls::PAD@ {
        Some(proto::KOT_PCB_PAD)
    } else if name == urls::BOARD_GRAPHIC_SHAPE@ {
        Some(proto::KOT_PCB_SHAPE)
    } else if name == urls::REFERENCE_IMAGE@ {
        Some(proto::KOT_PCB_REFERENCE_IMAGE)
    } else if name == urls::FIELD@ {
        Some(proto::KOT_PCB_FIELD)
    } else if name == urls::BOARD_TEXT@ {
        Some(proto::KOT_PCB_TEXT)
    } else if name == urls::BOARD_TEXT_BOX@ {
        Some(proto::KOT_PCB_TEXTBOX)
    } else if name == urls::TRACK@ {
        Some(proto::KOT_PCB_TRACE)
    } else if name == urls::VIA@ {
        Some(proto::KOT_PCB_VIA)
    } else if name == urls::ARC@ {
        Some(proto::KOT_PCB_ARC)
    } else if name == urls::DIMENSION@ {
        Some(proto::KOT_PCB_DIMENSION)
    } else if name == urls::ZONE@ {
        Some(proto::KOT_PCB_ZONE)
    } else if name == urls::GROUP@ {
        Some(proto::KOT_PCB_GROUP)
    } else if name == urls::BARCODE@ {
        Some(proto::KOT_PCB_BARCODE)
    } else {
        None
    }
}

/// The object type code of a payload, by its type URL.
pub open spec fn payload_object_code(item: proto::Any) -> Option<i32> {
    object_code_of_type_name(type_name_of_url(item.type_url@))
}

fn object_code_of_name(name: &str) -> (r: Option<i32>)
    ensures
        r == object_code_of_type_name(name@),
{
    if str_eq(name, urls::FOOTPRINT_INSTANCE) {
        Some(proto::KOT_PCB_FOOTPRINT)
    } else if str_eq(name, urls::PAD) {
        Some(proto::KOT_PCB_PAD)
    } else if str_eq(name, urls::BOARD_GRAPHIC_SHAPE) {
        Some(proto::KOT_PCB_SHAPE)
    } else if str_eq(name, urls::REFERENCE_IMAGE) {
        Some(proto::KOT_PCB_REFERENCE_IMAGE)
    } else if str_eq(name, urls::FIELD) {
        Some(proto::KOT_PCB_FIELD)
    } else if str_eq(name, urls::BOARD_TEXT) {
        Some(proto::KOT_PCB_TEXT)
    } else if str_eq(name, urls::BOARD_TEXT_BOX) {
        Some(proto::KOT_PCB_TEXTBOX)
    } else if str_eq(name, urls::TRACK) {
        Some(proto::KOT_PCB_TRACE)
    } else if str_eq(name, urls::VIA) {
        Some(proto::KOT_PCB_VIA)
    } else if str_eq(name, urls::ARC) {
        Some(proto::KOT_PCB_ARC)
    } else if str_eq(name, urls::DIMENSION) {
        Some(proto::KOT_PCB_DIMENSION)
    } else if str_eq(name, urls::ZONE) {
        Some(proto::KOT_PCB_ZONE)
    } else if str_eq(name, urls::GROUP) {
        Some(proto::KOT_PCB_GROUP)
    } else if str_eq(name, urls::BARCODE) {
        Some(proto::KOT_PCB_BARCODE)
    } else {
        None
    }
}

fn object_code_of_payload(item: &proto::Any) -> (r: Option<i32>)
    ensures
        r == payload_object_code(*item),
{
    let url = chars_of(item.type_url.as_str());
    let prefix = chars_of("type.googleapis.com/");
    proof {
        reveal_strlit("type.googleapis.com/");
    }
    let name = if chars_start_with(url.as_slice(), prefix.as_slice()) {
        string_from_chars(chars_from(url.as_slice(), 20).as_slice())
    } else {
        string_from_chars(url.as_slice())
    };
    object_code_of_name(name.as_str())
}

/// The PCB object type of a board item payload, by its type URL.
pub fn pcb_object_type_for_any(item: &proto::Any) -> (r: Option<PcbObjectTypeCode>)
    ensures
        r is Some <==> payload_object_code(*item) is Some,
        r matches Some(t) ==> Some(t.code) == payload_object_code(*item)
            && kicad_object_type_name_spec(t.code) == Some(t.name@),
{
    match object_code_of_payload(item) {
        Some(code) => {
            assert(kicad_object_type_name_spec(code) is Some);
            Some(PcbObjectTypeCode { code, name: kicad_object_type_name(code).unwrap() })
        },
        None => None,
    }
}

/// The catalog's codes are distinct.
pub proof fn lemma_catalog_distinct()
    ensures
        forall|i: int, j: int|
            0 <= i < j < pcb_object_type_catalog().len() ==> pcb_object_type_catalog()[i]
                != pcb_object_type_catalog()[j],
{
    let c = pcb_object_type_catalog();
    assert forall|i: int| 0 <= i < c.len() implies (i < 17 ==> c[i] == i + 1) && (i == 17 ==> c[i]
        == 46) by {
        if i == 0 {
        } else if i == 1 {
        } else if i == 2 {
        } else if i == 3 {
        } else if i == 4 {
        } else if i == 5 {
        } else if i == 6 {
        } else if i == 7 {
        } else if i == 8 {
        } else if i == 9 {
        } else if i == 10 {
        } else if i == 11 {
        } else if i == 12 {
        } else if i == 13 {
        } else if i == 14 {
        } else if i == 15 {
        } else if i == 16 {
        }
    }
}

/// A code of the catalog names a PCB object type.
proof fn lemma_catalog_code_is_pcb(code: i32)
    requires
        pcb_object_type_catalog().contains(code),
    ensures
        is_pcb_object_code(code),
{
    reveal_strlit("KOT_PCB_");
    let c = pcb_object_type_catalog();
    let i = choose|i: int| 0 <= i < c.len() && c[i] == code;
    assert((i < 17 ==> code == i + 1) && (i == 17 ==> code == 46)) by {
        if i == 0 {
        } else if i == 1 {
        } else if i == 2 {
        } else if i == 3 {
        } else if i == 4 {
        } else if i == 5 {
        } else if i == 6 {
        } else if i == 7 {
        } else if i == 8 {
        } else if i == 9 {
        } else if i == 10 {
        } else if i == 11 {
        } else if i == 12 {
        } else if i == 13 {
        } else if i == 14 {
        } else if i == 15 {
        } else if i == 16 {
        }
    }
    if code == 1 {
        reveal_strlit("KOT_PCB_FOOTPRINT");
        assert("KOT_PCB_FOOTPRINT"@.take(8) =~= "KOT_PCB_"@);
    } else if code == 2 {
        reveal_strlit("KOT_PCB_PAD");
        assert("KOT_PCB_PAD"@.take(8) =~= "KOT_PCB_"@);
    } else if code == 3 {
        reveal_strlit("KOT_PCB_SHAPE");
        assert("KOT_PCB_SHAPE"@.take(8) =~= "KOT_PCB_"@);
    } else if code == 4 {
        reveal_strlit("KOT_PCB_REFERENCE_IMAGE");
        assert("KOT_PCB_REFERENCE_IMAGE"@.take(8) =~= "KOT_PCB_"@);
    } else if code == 5 {
        reveal_strlit("KOT_PCB_FIELD");
        assert("KOT_PCB_FIELD"@.take(8) =~= "KOT_PCB_"@);
    } else if code == 6 {
        reveal_strlit("KOT_PCB_GENERATOR");
        assert("KOT_PCB_GENERATOR"@.take(8) =~= "KOT_PCB_"@);
    } else if code == 7 {
        reveal_strlit("KOT_PCB_TEXT");
        assert("KOT_PCB_TEXT"@.take(8) =~= "KOT_PCB_"@);
    } else if code == 8 {
        reveal_strlit("KOT_PCB_TEXTBOX");
        assert("KOT_PCB_TEXTBOX"@.take(8) =~= "KOT_PCB_"@);
    } else if code == 9 {
        reveal_strlit("KOT_PCB_TABLE");
        assert("KOT_PCB_TABLE"@.take(8) =~= "KOT_PCB_"@);
    } else if code == 10 {
        reveal_strlit("KOT_PCB_TABLECELL");
        assert("KOT_PCB_TABLECELL"@.take(8) =~= "KOT_PCB_"@);
    } else if code == 11 {
        reveal_strlit("KOT_PCB_TRACE");
        assert("KOT_PCB_TRACE"@.take(8) =~= "KOT_PCB_"@);
    } else if code == 12 {
        reveal_strlit("KOT_PCB_VIA");
        assert("KOT_PCB_VIA"@.take(8) =~= "KOT_PCB_"@);
    } else if code == 13 {
        reveal_strlit("KOT_PCB_ARC");
        assert("KOT_PCB_ARC"@.take(8) =~= "KOT_PCB_"@);
    } else if code == 14 {
        reveal_strlit("KOT_PCB_MARKER");
        assert("KOT_PCB_MARKER"@.take(8) =~= "KOT_PCB_"@);
    } else if code == 15 {
        reveal_strlit("KOT_PCB_DIMENSION");
        assert("KOT_PCB_DIMENSION"@.take(8) =~= "KOT_PCB_"@);
    } else if code == 16 {
        reveal_strlit("KOT_PCB_ZONE");
        assert("KOT_PCB_ZONE"@.take(8) =~= "KOT_PCB_"@);
    } else if code == 17 {
        reveal_strlit("KOT_PCB_GROUP");
        assert("KOT_PCB_GROUP"@.take(8) =~= "KOT_PCB_"@);
    } else if code == 46 {
        reveal_strlit("KOT_PCB_BARCODE");
        assert("KOT_PCB_BARCODE"@.take(8) =~= "KOT_PCB_"@);
    }
}

/// Every type of the catalog is a PCB object type, so
/// [`PcbObjectTypeCode::from_code`] resolves each catalog code to the
/// catalog's entry.
pub proof fn lemma_catalog_codes_are_pcb_types()
    ensures
        forall|i: int|
            0 <= i < pcb_object_type_catalog().len() ==> is_pcb_object_code(
                #[trigger] pcb_object_type_catalog()[i],
            ),
{
    assert forall|i: int| 0 <= i < pcb_object_type_catalog().len() implies is_pcb_object_code(
        #[trigger] pcb_object_type_catalog()[i],
    ) by {
        lemma_catalog_code_is_pcb(pcb_object_type_catalog()[i]);
    }
}

/// Every type of the catalog is resolved by its enum name:
/// [`PcbObjectTypeCode::from_name`] of an entry's name gives that entry.
pub proof fn lemma_catalog_names_resolve()
    ensures
        forall|i: int|
            0 <= i < pcb_object_type_catalog().len() ==> (kicad_object_type_name_spec(
                #[trigger] pcb_object_type_catalog()[i],
            ) matches Some(n) && object_type_code_from_name(n) == Some(
                pcb_object_type_catalog()[i],
            )),
{
    let c0 = pcb_object_type_catalog();
    assert forall|i: int| 0 <= i < c0.len() implies (kicad_object_type_name_spec(
        #[trigger] c0[i],
    ) matches Some(n) && object_type_code_from_name(n) == Some(c0[i])) by {
        let c = c0[i];
        assert((i < 17 ==> c == i + 1) && (i == 17 ==> c == 46)) by {
            if i == 0 {
            } else if i == 1 {
            } else if i == 2 {
            } else if i == 3 {
            } else if i == 4 {
            } else if i == 5 {
            } else if i == 6 {
            } else if i == 7 {
            } else if i == 8 {
            } else if i == 9 {
            } else if i == 10 {
            } else if i == 11 {
            } else if i == 12 {
            } else if i == 13 {
            } else if i == 14 {
            } else if i == 15 {
            } else if i == 16 {
            }
        }
        assert(c == 1 || c == 2 || c == 3 || c == 4 || c == 5 || c == 6 || c == 7 || c == 8 || c == 9 || c == 10 || c == 11 || c == 12 || c == 13 || c == 14 || c == 15 || c == 16 || c == 17 || c == 46);
        lemma_catalog_code_is_pcb(c);
        lemma_pcb_name_resolves(c);
    }
}

/// Finds the catalog position of a code that is in the catalog.
fn catalog_index(types: &Vec<PcbObjectTypeCode>, code: i32) -> (r: usize)
    requires
        is_object_type_catalog(types@),
        pcb_object_type_catalog().contains(code),
    ensures
        r < types@.len(),
        types@[r as int].code == code,
        forall|t: int| 0 <= t < types@.len() && t != r ==> types@[t].code != code,
{
    proof {
        lemma_catalog_distinct();
    }
    let mut i: usize = 0;
    while i < types.len()
        invariant
            is_object_type_catalog(types@),
            pcb_object_type_catalog().contains(code),
            i <= types@.len(),
            forall|t: int| 0 <= t < i ==> types@[t].code != code,
        decreases types@.len() - i,
    {
        if types[i].code == code {
            proof {
                assert forall|t: int| 0 <= t < types@.len() && t != i implies types@[t].code != code by {
                    assert(types@[t].code == pcb_object_type_catalog()[t]);
                    assert(types@[i as int].code == pcb_object_type_catalog()[i as int]);
                }
            }
            return i;
        }
        i = i + 1;
    }
    proof {
        let w = choose|w: int| 0 <= w < pcb_object_type_catalog().len() && pcb_object_type_catalog()[w] == code;
        assert(types@[w].code == code);
    }
    i
}

/// Every object type a payload can have is in the catalog.
proof fn lemma_payload_codes_in_catalog(item: proto::Any)
    ensures
        payload_object_code(item) matches Some(code) ==> pcb_object_type_catalog().contains(code),
{
    let c = pcb_object_type_catalog();
    assert(c[0] == proto::KOT_PCB_FOOTPRINT);
    assert(c[1] == proto::KOT_PCB_PAD);
    assert(c[2] == proto::KOT_PCB_SHAPE);
    assert(c[3] == proto::KOT_PCB_REFERENCE_IMAGE);
    assert(c[4] == proto::KOT_PCB_FIELD);
    assert(c[6] == proto::KOT_PCB_TEXT);
    assert(c[7] == proto::KOT_PCB_TEXTBOX);
    assert(c[10] == proto::KOT_PCB_TRACE);
    assert(c[11] == proto::KOT_PCB_VIA);
    assert(c[12] == proto::KOT_PCB_ARC);
    assert(c[14] == proto::KOT_PCB_DIMENSION);
    assert(c[15] == proto::KOT_PCB_ZONE);
    assert(c[16] == proto::KOT_PCB_GROUP);
    assert(c[17] == proto::KOT_PCB_BARCODE);
}

// ---------------------------------------------------------------------------
// Bucketing payloads by object type.
// ---------------------------------------------------------------------------
/// The payloads among `items` whose object type is `code`, in order.
pub open spec fn items_of_type(items: Seq<proto::Any>, code: i32) -> Seq<proto::Any>
    decreases items.len(),
{
    if items.len() == 0 {
        Seq::empty()
    } else if payload_object_code(items.last()) == Some(code) {
        items_of_type(items.drop_last(), code).push(items.last())
    } else {
        items_of_type(items.drop_last(), code)
    }
}

/// The error text for a payload whose type URL names no PCB object type.
pub open spec fn unmapped_type_text(url: Seq<char>) -> Seq<char> {
    "GetItems returned unmapped PCB item type `"@ + url + "`"@
}

/// Sorts fetched payloads into one bucket per catalog object type, in
/// catalog order, each bucket keeping the payloads' order; fails on the first
/// payload whose type URL names no PCB object type, naming its type URL.
pub fn bucket_items_by_pcb_object_type(items: Vec<proto::Any>) -> (r: Result<
    Vec<(PcbObjectTypeCode, Vec<proto::Any>)>,
    KiCadError,
>)
    ensures
        r is Ok <==> forall|i: int| 0 <= i < items@.len() ==> (#[trigger] payload_object_code(
            items@[i],
        )) is Some,
        r matches Ok(rows) ==> {
            &&& rows@.len() == pcb_object_type_catalog().len()
            &&& forall|k: int|
                0 <= k < rows@.len() ==> {
                    &&& (#[trigger] rows@[k]).0.code == pcb_object_type_catalog()[k]
                    &&& kicad_object_type_name_spec(rows@[k].0.code) == Some(rows@[k].0.name@)
                    &&& rows@[k].1@ == items_of_type(items@, rows@[k].0.code)
                }
        },
        r matches Err(e) ==> exists|i: int|
            0 <= i < items@.len() && (#[trigger] payload_object_code(items@[i])) is None && (
            e matches KiCadError::InvalidResponse { reason } && reason@ == unmapped_type_text(
                items@[i].type_url@,
            )) && forall|j: int| 0 <= j < i ==> (#[trigger] payload_object_code(items@[j])) is Some,
{
    let types = pcb_object_types();
    let mut rows: Vec<(PcbObjectTypeCode, Vec<proto::Any>)> = Vec::new();
    let mut k: usize = 0;
    while k < types.len()
        invariant
            is_object_type_catalog(types@),
            k <= types@.len(),
            rows@.len() == k,
            forall|j: int|
                0 <= j < k ==> (#[trigger] rows@[j]).0 == types@[j] && rows@[j].1@.len() == 0,
        decreases types@.len() - k,
    {
        rows.push((types[k], Vec::new()));
        k = k + 1;
    }
    let ghost all = items@;
    let mut rest = items;
    let total = rest.len();
    let mut done: usize = 0;
    assert(all.take(0) =~= Seq::<proto::Any>::empty());
    assert forall|j: int| 0 <= j < rows@.len() implies (#[trigger] rows@[j]).1@ == items_of_type(
        all.take(0),
        rows@[j].0.code,
    ) by {
        assert(rows@[j].1@ =~= Seq::<proto::Any>::empty());
    }
    while rest.len() > 0
        invariant
            is_object_type_catalog(types@),
            rows@.len() == types@.len(),
            all == items@,
            total == all.len(),
            done + rest@.len() == all.len(),
            rest@ == all.skip(done as int),
            forall|i: int| 0 <= i < done ==> (#[trigger] payload_object_code(all[i])) is Some,
            forall|j: int|
                0 <= j < rows@.len() ==> (#[trigger] rows@[j]).0 == types@[j]
                    && rows@[j].1@ == items_of_type(all.take(done as int), rows@[j].0.code),
        decreases rest@.len(),
    {
        let item = rest.remove(0);
        assert(item == all[done as int]);
        let code = match object_code_of_payload(&item) {
            Some(code) => code,
            None => {
                let mut reason = owned("GetItems returned unmapped PCB item type `");
                push_str(&mut reason, item.type_url.as_str());
                push_str(&mut reason, "`");
                assert(payload_object_code(all[done as int]) is None);
                return Err(KiCadError::InvalidResponse { reason });
            },
        };
        proof {
            lemma_payload_codes_in_catalog(item);
        }
        let idx = catalog_index(&types, code);
        let ghost before = rows@;
        let (row_type, mut bucket) = rows.remove(idx);
        bucket.push(item);
        rows.insert(idx, (row_type, bucket));
        assert forall|t: int| 0 <= t < rows@.len() implies (#[trigger] rows@[t]).0 == types@[t]
            && rows@[t].1@ == items_of_type(all.take(done + 1), rows@[t].0.code) by {
            assert(all.take(done + 1).drop_last() =~= all.take(done as int));
            assert(all.take(done + 1).last() == item);
            if t != idx {
                assert(rows@[t] == before[t]);
            }
        }
        assert(all.take(done + 1).drop_last() =~= all.take(done as int));
        done = done + 1;
        assert(rest@ =~= all.skip(done as int));
    }
    assert(all.take(done as int) =~= all);
    Ok(rows)
}

// ---------------------------------------------------------------------------
// Deleting items.
// ---------------------------------------------------------------------------
/// Whether a deletion row is OK and names the deleted item.
pub open spec fn deletion_row_ok(row: proto::ItemDeletionResult) -> bool {
    row.status == proto::IDS_OK && row.id is Some
}

/// Whether `e` is the error a failed deletion row is reported with: its
/// status name, or the missing id.
pub open spec fn deletion_row_error(row: proto::ItemDeletionResult, e: KiCadError) -> bool {
    if row.status != proto::IDS_OK {
        e matches KiCadError::ItemStatus { code } && code@ == item_deletion_status_text(row.status)
    } else {
        e matches KiCadError::InvalidResponse { reason } && reason@
            == "DeleteItemsResponse missing deleted item id"@
    }
}

/// The ids a delete-items response reports as deleted. A response without
/// per-item rows (as KiCad 10.0 sends) is taken as accepting the requested
/// ids; otherwise every row must be OK and name its item.
pub fn deleted_item_ids_from_response(
    requested_item_ids: Vec<String>,
    response: proto::DeleteItemsResponse,
) -> (r: Result<Vec<String>, KiCadError>)
    ensures
        r is Ok <==> response.status == proto::IRS_OK && forall|i: int|
            0 <= i < response.deleted_items@.len() ==> #[trigger] deletion_row_ok(
                response.deleted_items@[i],
            ),
        r matches Ok(ids) ==> if response.deleted_items@.len() == 0 {
            strings_view(ids@) == strings_view(requested_item_ids@)
        } else {
            &&& ids@.len() == response.deleted_items@.len()
            &&& forall|i: int|
                0 <= i < ids@.len() ==> Some(#[trigger] ids@[i]@) == match response.deleted_items@[i].id {
                    Some(k) => Some(k.value@),
                    None => None,
                }
        },
        r matches Err(e) ==> if response.status != proto::IRS_OK {
            e matches KiCadError::ItemStatus { code } && code@ == item_request_status_text(
                response.status,
            )
        } else {
            exists|k: int|
                0 <= k < response.deleted_items@.len() && !deletion_row_ok(
                    #[trigger] response.deleted_items@[k],
                ) && deletion_row_error(response.deleted_items@[k], e) && forall|j: int|
                    0 <= j < k ==> #[trigger] deletion_row_ok(response.deleted_items@[j])
        },
{
    ensure_item_request_ok(response.status)?;
    let rows = &response.deleted_items;
    let n = rows.len();
    if n == 0 {
        return Ok(requested_item_ids);
    }
    let mut ids: Vec<String> = Vec::new();
    let mut i: usize = 0;
    while i < n
        invariant
            n == rows@.len(),
            rows@ == response.deleted_items@,
            response.status == proto::IRS_OK,
            i <= n,
            ids@.len() == i,
            forall|j: int| 0 <= j < i ==> #[trigger] deletion_row_ok(rows@[j]),
            forall|j: int|
                0 <= j < i ==> Some(#[trigger] ids@[j]@) == match rows@[j].id {
                    Some(k) => Some(k.value@),
                    None => None,
                },
        decreases n - i,
    {
        let row = &rows[i];
        match ensure_item_deletion_status_ok(row.status) {
            Ok(()) => {},
            Err(e) => {
                assert(deletion_row_error(rows@[i as int], e));
                assert(!deletion_row_ok(rows@[i as int]));
                return Err(e);
            },
        }
        match &row.id {
            Some(id) => {
                ids.push(copy_string(&id.value));
            },
            None => {
                let e = KiCadError::InvalidResponse {
                    reason: owned("DeleteItemsResponse missing deleted item id"),
                };
                assert(deletion_row_error(rows@[i as int], e));
                assert(!deletion_row_ok(rows@[i as int]));
                return Err(e);
            },
        }
        i = i + 1;
    }
    Ok(ids)
}

// ---------------------------------------------------------------------------
// Query commands.
// ---------------------------------------------------------------------------
/// Converts model nets to API nets, each with its code and name.
pub fn board_nets_to_proto(nets: Vec<BoardNet>) -> (r: Vec<proto::Net>)
    ensures
        r@.len() == nets@.len(),
        forall|i: int| 0 <= i < r@.len() ==> #[trigger] net_proto_of(nets@[i], r@[i]),
{
    let mut r: Vec<proto::Net> = Vec::new();
    let n = nets.len();
    let mut i: usize = 0;
    while i < n
        invariant
            n == nets@.len(),
            i <= n,
            r@.len() == i,
            forall|j: int| 0 <= j < i ==> #[trigger] net_proto_of(nets@[j], r@[j]),
        decreases n - i,
    {
        r.push(board_net_to_proto(&nets[i]));
        i = i + 1;
    }
    r
}

/// Builds the command that fetches the items of the given types on the given
/// nets.
pub fn build_get_items_by_net_command(
    header: proto::ItemHeader,
    type_codes: Vec<i32>,
    nets: Vec<BoardNet>,
) -> (r: proto::GetItemsByNet)
    ensures
        r.header == Some(header),
        r.types@ == type_codes@,
        r.nets@.len() == nets@.len(),
        forall|i: int| 0 <= i < r.nets@.len() ==> #[trigger] net_proto_of(nets@[i], r.nets@[i]),
{
    let nets = board_nets_to_proto(nets);
    proto::GetItemsByNet { header: Some(header), types: type_codes, nets }
}

/// Builds the command that fetches the items of the given types connected to
/// the given items.
pub fn build_get_connected_items_command(
    header: proto::ItemHeader,
    item_ids: Vec<String>,
    type_codes: Vec<i32>,
) -> (r: proto::GetConnectedItems)
    ensures
        r.header == Some(header),
        r.types@ == type_codes@,
        r.items@.len() == item_ids@.len(),
        forall|i: int| 0 <= i < r.items@.len() ==> #[trigger] r.items@[i].value@ == item_ids@[i]@,
{
    let mut items: Vec<proto::Kiid> = Vec::new();
    let n = item_ids.len();
    let mut i: usize = 0;
    while i < n
        invariant
            n == item_ids@.len(),
            i <= n,
            items@.len() == i,
            forall|j: int| 0 <= j < i ==> #[trigger] items@[j].value@ == item_ids@[j]@,
        decreases n - i,
    {
        items.push(proto::Kiid { value: copy_string(&item_ids[i]) });
        i = i + 1;
    }
    proto::GetConnectedItems { header: Some(header), items, types: type_codes }
}

} // verus!
