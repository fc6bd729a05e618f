//! The requests that the item commands send, and what is read from their
//! responses: everything those commands decide apart from the exchange with
//! KiCad itself.

use vstd::prelude::*;
use crate::client::items::{board_nets_to_proto, catalog_codes, pcb_object_type_catalog};
use crate::client::mappers::{
    commit_action_code, commit_action_to_proto, ensure_item_request_ok, ensure_item_status_ok,
    item_request_status_text, item_status_code_of, item_status_detail, net_proto_of,
};
use crate::error::KiCadError;
use crate::client::decode::{decode_pcb_item, decode_pcb_items, decoded_item, item_decodes};
use crate::envelope::type_url_spec;
use crate::model::board::{BoardNet, PcbBoardText, PcbItem, PcbVia};
use crate::model::editable::{any_of, editable_of, lemma_editable_urls_distinct, EditablePcbItem};
use crate::pcb_item_type_urls as urls;
use crate::model::common::{CommitAction, CommitSession, PcbObjectTypeCode};
use crate::model::editable::wrappers::kiids_of;
use crate::proto;
use crate::text::{owned, push_str, seq_starts_with, string_is_empty};

verus! {

// ---------------------------------------------------------------------------
// Requests.
// ---------------------------------------------------------------------------
/// The header of an item request on the board document `document`: that
/// document, with no container and no field mask.
pub fn board_item_header(document: proto::DocumentSpecifier) -> (r: proto::ItemHeader)
    ensures
        r.document == Some(document),
        r.container is None,
        r.field_mask is None,
{
    proto::ItemHeader { document: Some(document), container: None, field_mask: None }
}

/// Builds the command that fetches the items of the given types.
pub fn build_get_items_command(header: proto::ItemHeader, types: Vec<i32>) -> (r: proto::GetItems)
    ensures
        r.header == Some(header),
        r.types@ == types@,
{
    proto::GetItems { header: Some(header), types }
}

/// Builds the command that fetches the items of every type in the catalog of
/// PCB object types, in catalog order.
pub fn build_get_all_pcb_items_command(header: proto::ItemHeader) -> (r: proto::GetItems)
    ensures
        r.header == Some(header),
        r.types@ == pcb_object_type_catalog(),
{
    build_get_items_command(header, catalog_codes())
}

/// Builds the command that fetches the items of the given types in the given
/// net classes.
pub fn build_get_items_by_net_class_command(
    header: proto::ItemHeader,
    types: Vec<i32>,
    net_classes: Vec<String>,
) -> (r: proto::GetItemsByNetClass)
    ensures
        r.header == Some(header),
        r.types@ == types@,
        r.net_classes@ == net_classes@,
{
    proto::GetItemsByNetClass { header: Some(header), types, net_classes }
}

/// Builds the command that asks for the net class of each of the given nets.
pub fn build_get_netclass_for_nets_command(nets: Vec<BoardNet>) -> (r: proto::GetNetClassForNets)
    ensures
        r.net@.len() == nets@.len(),
        forall|i: int| 0 <= i < r.net@.len() ==> #[trigger] net_proto_of(nets@[i], r.net@[i]),
{
    proto::GetNetClassForNets { net: board_nets_to_proto(nets) }
}

/// Builds the command that creates `items`, inside the container with id
/// `container_id` when one is given.
pub fn build_create_items_command(
    header: proto::ItemHeader,
    items: Vec<proto::Any>,
    container_id: Option<String>,
) -> (r: proto::CreateItems)
    ensures
        r.header == Some(header),
        r.items@ == items@,
        match container_id {
            Some(id) => r.container matches Some(k) && k.value@ == id@,
            None => r.container is None,
        },
{
    let container = match container_id {
        Some(value) => Some(proto::Kiid { value }),
        None => None,
    };
    proto::CreateItems { header: Some(header), items, container }
}

/// Builds the command that replaces existing items by `items`.
pub fn build_update_items_command(header: proto::ItemHeader, items: Vec<proto::Any>) -> (r:
    proto::UpdateItems)
    ensures
        r.header == Some(header),
        r.items@ == items@,
{
    proto::UpdateItems { header: Some(header), items }
}

/// Builds the command that deletes the items with the given ids.
pub fn build_delete_items_command(header: proto::ItemHeader, item_ids: Vec<String>) -> (r:
    proto::DeleteItems)
    ensures
        r.header == Some(header),
        r.item_ids@.len() == item_ids@.len(),
        forall|i: int| 0 <= i < r.item_ids@.len() ==> #[trigger] r.item_ids@[i].value@ == item_ids@[i]@,
{
    proto::DeleteItems { header: Some(header), item_ids: kiids_of(item_ids) }
}

/// Builds the command that parses `contents` as KiCad item text and creates
/// the items in `document`.
pub fn build_parse_and_create_items_command(
    document: proto::DocumentSpecifier,
    contents: String,
) -> (r: proto::ParseAndCreateItemsFromString)
    ensures
        r.document == Some(document),
        r.contents@ == contents@,
{
    proto::ParseAndCreateItemsFromString { document: Some(document), contents }
}

/// The reason an end-commit request without a session id is refused with.
pub open spec fn empty_commit_id_reason() -> Seq<char> {
    "end_commit_raw requires a non-empty commit session id"@
}

/// Builds the command that ends the commit session `session` with `action`
/// and `message`; a session with an empty id is refused.
pub fn build_end_commit_command(session: CommitSession, action: CommitAction, message: String) -> (r:
    Result<proto::EndCommit, KiCadError>)
    ensures
        session.id@.len() == 0 ==> (r matches Err(e) && e matches KiCadError::Config { reason }
            && reason@ == empty_commit_id_reason()),
        session.id@.len() != 0 ==> (r matches Ok(c) && c.id matches Some(k) && k.value@
            == session.id@ && c.action == commit_action_code(action) && c.message@ == message@),
{
    if string_is_empty(&session.id) {
        return Err(KiCadError::Config { reason: owned("end_commit_raw requires a non-empty commit session id") });
    }
    Ok(
        proto::EndCommit {
            id: Some(proto::Kiid { value: session.id }),
            action: commit_action_to_proto(action),
            message,
        },
    )
}

// ---------------------------------------------------------------------------
// Responses.
// ---------------------------------------------------------------------------
/// The items of a get-items response, which must report success.
pub fn items_from_get_items_response(response: proto::GetItemsResponse) -> (r: Result<
    Vec<proto::Any>,
    KiCadError,
>)
    ensures
        response.status == proto::IRS_OK ==> r == Ok::<Vec<proto::Any>, KiCadError>(
            response.items,
        ),
        response.status != proto::IRS_OK ==> (r matches Err(e) && e matches KiCadError::ItemStatus {
            code,
        } && code@ == item_request_status_text(response.status)),
{
    match ensure_item_request_ok(response.status) {
        Ok(()) => Ok(response.items),
        Err(e) => Err(e),
    }
}

/// Whether a row of a create-items response is OK and holds its item.
pub open spec fn creation_row_ok(row: proto::ItemCreationResult) -> bool {
    item_status_code_of(row.status) == proto::ISC_OK && row.item is Some
}

/// Whether a row of an update-items response is OK and holds its item.
pub open spec fn update_row_ok(row: proto::ItemUpdateResult) -> bool {
    item_status_code_of(row.status) == proto::ISC_OK && row.item is Some
}

/// Whether `e` is the error a failed result row with status `status` is
/// reported with: its status, or, for an OK row, the missing item.
pub open spec fn result_row_error(
    status: Option<proto::ItemStatus>,
    missing_reason: Seq<char>,
    e: KiCadError,
) -> bool {
    if item_status_code_of(status) != proto::ISC_OK {
        e matches KiCadError::ItemStatus { code } && code@ == item_status_detail(status)
    } else {
        e matches KiCadError::InvalidResponse { reason } && reason@ == missing_reason
    }
}

/// The reason a create-items row without its item is reported with.
pub open spec fn missing_created_item_reason() -> Seq<char> {
    "CreateItemsResponse missing created item payload"@
}

/// The reason an update-items row without its item is reported with.
pub open spec fn missing_updated_item_reason() -> Seq<char> {
    "UpdateItemsResponse missing updated item payload"@
}

/// The items a create-items response reports as created, in order. The
/// request must have succeeded and every row must be OK and hold its item;
/// otherwise the error of the request, or of the first failing row.
pub fn created_items_from_response(response: proto::CreateItemsResponse) -> (r: Result<
    Vec<proto::Any>,
    KiCadError,
>)
    ensures
        r is Ok <==> response.status == proto::IRS_OK && forall|i: int|
            0 <= i < response.created_items@.len() ==> #[trigger] creation_row_ok(
                response.created_items@[i],
            ),
        r matches Ok(items) ==> items@.len() == response.created_items@.len() && forall|i: int|
            0 <= i < items@.len() ==> Some(#[trigger] items@[i]) == response.created_items@[i].item,
        r matches Err(e) ==> if response.status != proto::IRS_OK {
            e matches KiCadError::ItemStatus { code } && code@ == item_request_status_text(
                response.status,
            )
        } else {
            exists|k: int|
                0 <= k < response.created_items@.len() && !creation_row_ok(
                    #[trigger] response.created_items@[k],
                ) && result_row_error(
                    response.created_items@[k].status,
                    missing_created_item_reason(),
                    e,
                ) && forall|j: int|
                    0 <= j < k ==> #[trigger] creation_row_ok(response.created_items@[j])
        },
{
    ensure_item_request_ok(response.status)?;
    let ghost rows0 = response.created_items@;
    let mut rows = response.created_items;
    let n = rows.len();
    let mut out: Vec<proto::Any> = Vec::new();
    let mut i: usize = 0;
    while i < n
        invariant
            response.status == proto::IRS_OK,
            rows0 == response.created_items@,
            n == rows0.len(),
            i <= n,
            rows@ == rows0.subrange(i as int, n as int),
            out@.len() == i,
            forall|j: int| 0 <= j < i ==> #[trigger] creation_row_ok(rows0[j]),
            forall|j: int| 0 <= j < i ==> Some(#[trigger] out@[j]) == rows0[j].item,
        decreases n - i,
    {
        let row = rows.remove(0);
        assert(row == rows0[i as int]);
        match ensure_item_status_ok(&row.status) {
            Ok(()) => {},
            Err(e) => {
                assert(!creation_row_ok(rows0[i as int]));
                assert(result_row_error(rows0[i as int].status, missing_created_item_reason(), e));
                return Err(e);
            },
        }
        match row.item {
            Some(item) => {
                out.push(item);
            },
            None => {
                let e = KiCadError::InvalidResponse {
                    reason: owned("CreateItemsResponse missing created item payload"),
                };
                assert(!creation_row_ok(rows0[i as int]));
                assert(result_row_error(rows0[i as int].status, missing_created_item_reason(), e));
                return Err(e);
            },
        }
        i = i + 1;
    }
    Ok(out)
}

/// The items an update-items response reports as updated, in order. The
/// request must have succeeded and every row must be OK and hold its item;
/// otherwise the error of the request, or of the first failing row.
pub fn updated_items_from_response(response: proto::UpdateItemsResponse) -> (r: Result<
    Vec<proto::Any>,
    KiCadError,
>)
    ensures
        r is Ok <==> response.status == proto::IRS_OK && forall|i: int|
            0 <= i < response.updated_items@.len() ==> #[trigger] update_row_ok(
                response.updated_items@[i],
            ),
        r matches Ok(items) ==> items@.len() == response.updated_items@.len() && forall|i: int|
            0 <= i < items@.len() ==> Some(#[trigger] items@[i]) == response.updated_items@[i].item,
        r matches Err(e) ==> if response.status != proto::IRS_OK {
            e matches KiCadError::ItemStatus { code } && code@ == item_request_status_text(
                response.status,
            )
        } else {
            exists|k: int|
                0 <= k < response.updated_items@.len() && !update_row_ok(
                    #[trigger] response.updated_items@[k],
                ) && result_row_error(
                    response.updated_items@[k].status,
                    missing_updated_item_reason(),
                    e,
                ) && forall|j: int|
                    0 <= j < k ==> #[trigger] update_row_ok(response.updated_items@[j])
        },
{
    ensure_item_request_ok(response.status)?;
    let ghost rows0 = response.updated_items@;
    let mut rows = response.updated_items;
    let n = rows.len();
    let mut out: Vec<proto::Any> = Vec::new();
    let mut i: usize = 0;
    while i < n
        invariant
            response.status == proto::IRS_OK,
            rows0 == response.updated_items@,
            n == rows0.len(),
            i <= n,
            rows@ == rows0.subrange(i as int, n as int),
            out@.len() == i,
            forall|j: int| 0 <= j < i ==> #[trigger] update_row_ok(rows0[j]),
            forall|j: int| 0 <= j < i ==> Some(#[trigger] out@[j]) == rows0[j].item,
        decreases n - i,
    {
        let row = rows.remove(0);
        assert(row == rows0[i as int]);
        match ensure_item_status_ok(&row.status) {
            Ok(()) => {},
            Err(e) => {
                assert(!update_row_ok(rows0[i as int]));
                assert(result_row_error(rows0[i as int].status, missing_updated_item_reason(), e));
                return Err(e);
            },
        }
        match row.item {
            Some(item) => {
                out.push(item);
            },
            None => {
                let e = KiCadError::InvalidResponse {
                    reason: owned("UpdateItemsResponse missing updated item payload"),
                };
                assert(!update_row_ok(rows0[i as int]));
                assert(result_row_error(rows0[i as int].status, missing_updated_item_reason(), e));
                return Err(e);
            },
        }
        i = i + 1;
    }
    Ok(out)
}

/// The text that names the missing payload of a raw command's response.
pub open spec fn raw_payload_label(command_type_url: Seq<char>) -> Seq<char> {
    "response payload for `"@ + command_type_url + "`"@
}

/// The payload of the response to a raw command whose type URL is
/// `command_type_url`; a response without one is reported as missing it.
pub fn raw_command_payload(response: proto::ApiResponse, command_type_url: &str) -> (r: Result<
    proto::Any,
    KiCadError,
>)
    ensures
        match response.message {
            Some(payload) => r == Ok::<proto::Any, KiCadError>(payload),
            None => r matches Err(e) && e matches KiCadError::MissingPayload { expected_type_url }
                && expected_type_url@ == raw_payload_label(command_type_url@),
        },
{
    match response.message {
        Some(payload) => Ok(payload),
        None => {
            let mut label = owned("response payload for `");
            push_str(&mut label, command_type_url);
            push_str(&mut label, "`");
            Err(KiCadError::MissingPayload { expected_type_url: label })
        },
    }
}

/// The message of a failed command's API status once it names the command:
/// `command `URL` failed` for an empty message, else the message followed by
/// ` (command `URL`)`.
pub open spec fn command_status_message(message: Seq<char>, command_type_url: Seq<char>) -> Seq<
    char,
> {
    if message.len() == 0 {
        "command `"@ + command_type_url + "` failed"@
    } else {
        message + " (command `"@ + command_type_url + "`)"@
    }
}

/// Names the command with type URL `command_type_url` in the error its
/// response's status reported: an API status error keeps its code and gets
/// the message of [`command_status_message`]; any other error is unchanged.
pub fn annotate_command_error(err: KiCadError, command_type_url: &str) -> (r: KiCadError)
    ensures
        match err {
            KiCadError::ApiStatus { code, message } => r matches KiCadError::ApiStatus {
                code: c2,
                message: m2,
            } && c2@ == code@ && m2@ == command_status_message(message@, command_type_url@),
            _ => r == err,
        },
{
    match err {
        KiCadError::ApiStatus { code, message } => {
            let text = if string_is_empty(&message) {
                let mut t = owned("command `");
                push_str(&mut t, command_type_url);
                push_str(&mut t, "` failed");
                t
            } else {
                let mut t = message;
                push_str(&mut t, " (command `");
                push_str(&mut t, command_type_url);
                push_str(&mut t, "`)");
                t
            };
            KiCadError::ApiStatus { code, message: text }
        },
        other => other,
    }
}

/// The session token a response hands over: KiCad's token, when no token was
/// held before the request and the response's header carries a non-empty one.
pub open spec fn handed_over_token(held: Seq<char>, response: proto::ApiResponse) -> Option<
    Seq<char>,
> {
    if held.len() == 0 {
        match response.header {
            Some(h) => if h.kicad_token@.len() != 0 {
                Some(h.kicad_token@)
            } else {
                None
            },
            None => None,
        }
    } else {
        None
    }
}

/// The token to keep after `response` when `held` was sent with the request:
/// `Some` with KiCad's token when one is handed over, `None` to keep `held`.
pub fn token_from_response(held: &str, response: &proto::ApiResponse) -> (r: Option<String>)
    ensures
        match r {
            Some(t) => handed_over_token(held@, *response) == Some(t@),
            None => handed_over_token(held@, *response) is None,
        },
{
    if !held.is_empty() {
        return None;
    }
    match &response.header {
        Some(h) => {
            if string_is_empty(&h.kicad_token) {
                None
            } else {
                Some(h.kicad_token.clone())
            }
        },
        None => None,
    }
}

// ---------------------------------------------------------------------------
// Typed results.
// ---------------------------------------------------------------------------
/// Renders an item in its derived `Debug` format, through `format!`. The
/// contract states nothing of the text.
#[verifier::external_body]
fn debug_text(item: &PcbItem) -> String {
    format!("{item:?}")
}

/// Whether a payload is a board text: it carries the board text type URL and
/// holds a board text message.
pub open spec fn is_board_text_payload(item: proto::Any) -> bool {
    item.type_url@ == type_url_spec(urls::BOARD_TEXT@) && item.value is BoardText
}

/// The text every error for a created item that is no board text starts
/// with; the item's debug rendering follows it.
pub open spec fn non_board_text_prefix() -> Seq<char> {
    "CreateItems returned non-board-text item: "@
}

/// Decodes the items a create request returned for board texts, in order.
/// Each must decode to a board text; otherwise the decoding error of the
/// first that does not decode, or, for the first that decodes to another
/// kind of item, an invalid-response error naming it.
pub fn board_texts_from_created_items(items: Vec<proto::Any>) -> (r: Result<
    Vec<PcbBoardText>,
    KiCadError,
>)
    ensures
        r is Ok <==> forall|i: int| 0 <= i < items@.len() ==> #[trigger] is_board_text_payload(items@[i]),
        r matches Ok(texts) ==> texts@.len() == items@.len() && forall|i: int|
            0 <= i < texts@.len() ==> #[trigger] decoded_item(
                items@[i],
                Ok::<PcbItem, KiCadError>(PcbItem::BoardText(texts@[i])),
            ),
        r matches Err(e) ==> exists|k: int|
            0 <= k < items@.len() && !is_board_text_payload(#[trigger] items@[k]) && (if item_decodes(
                items@[k],
            ) {
                e matches KiCadError::InvalidResponse { reason } && seq_starts_with(
                    reason@,
                    non_board_text_prefix(),
                )
            } else {
                decoded_item(items@[k], Err::<PcbItem, KiCadError>(e))
            }) && forall|j: int| 0 <= j < k ==> #[trigger] is_board_text_payload(items@[j]),
{
    let ghost items0 = items@;
    let mut rest = items;
    let n = rest.len();
    let mut out: Vec<PcbBoardText> = Vec::new();
    let mut i: usize = 0;
    while i < n
        invariant
            items0 == items@,
            n == items0.len(),
            i <= n,
            rest@ == items0.subrange(i as int, n as int),
            out@.len() == i,
            forall|j: int| 0 <= j < i ==> #[trigger] is_board_text_payload(items0[j]),
            forall|j: int|
                0 <= j < i ==> #[trigger] decoded_item(
                    items0[j],
                    Ok::<PcbItem, KiCadError>(PcbItem::BoardText(out@[j])),
                ),
        decreases n - i,
    {
        let item = rest.remove(0);
        assert(item == items0[i as int]);
        proof {
            lemma_editable_urls_distinct();
        }
        match decode_pcb_item(item) {
            Ok(PcbItem::BoardText(text)) => {
                out.push(text);
            },
            Ok(other) => {
                let mut reason = owned("CreateItems returned non-board-text item: ");
                let detail = debug_text(&other);
                push_str(&mut reason, detail.as_str());
                assert(reason@.take(non_board_text_prefix().len() as int) =~= non_board_text_prefix());
                assert(!is_board_text_payload(items0[i as int]));
                return Err(KiCadError::InvalidResponse { reason });
            },
            Err(e) => {
                assert(!is_board_text_payload(items0[i as int]));
                return Err(e);
            },
        }
        i = i + 1;
    }
    Ok(out)
}

/// The reason a create request that returned no board text is reported with.
pub open spec fn no_board_text_reason() -> Seq<char> {
    "CreateItems returned no board text item"@
}

/// The board text a single-text create request produced: the last one
/// returned; none is an invalid response.
pub fn take_created_board_text(created: Vec<PcbBoardText>) -> (r: Result<PcbBoardText, KiCadError>)
    ensures
        created@.len() == 0 ==> (r matches Err(e) && e matches KiCadError::InvalidResponse { reason }
            && reason@ == no_board_text_reason()),
        created@.len() > 0 ==> r == Ok::<PcbBoardText, KiCadError>(created@.last()),
{
    let mut created = created;
    match created.pop() {
        Some(text) => Ok(text),
        None => Err(KiCadError::InvalidResponse { reason: owned("CreateItems returned no board text item") }),
    }
}

/// The vias among `items`, in order.
pub open spec fn vias_in(items: Seq<PcbItem>) -> Seq<PcbVia>
    decreases items.len(),
{
    if items.len() == 0 {
        Seq::empty()
    } else {
        let before = vias_in(items.drop_last());
        match items.last() {
            PcbItem::Via(via) => before.push(via),
            _ => before,
        }
    }
}

/// Keeps the vias of a list of items, in order.
pub fn vias_of(items: Vec<PcbItem>) -> (r: Vec<PcbVia>)
    ensures
        r@ == vias_in(items@),
{
    let ghost items0 = items@;
    let mut rest = items;
    let n = rest.len();
    let mut out: Vec<PcbVia> = Vec::new();
    let mut i: usize = 0;
    while i < n
        invariant
            n == items0.len(),
            i <= n,
            rest@ == items0.subrange(i as int, n as int),
            out@ == vias_in(items0.subrange(0, i as int)),
        decreases n - i,
    {
        let item = rest.remove(0);
        assert(items0.subrange(0, i as int + 1).drop_last() =~= items0.subrange(0, i as int));
        assert(items0.subrange(0, i as int + 1).last() == item);
        match item {
            PcbItem::Via(via) => {
                out.push(via);
            },
            _ => {},
        }
        i = i + 1;
    }
    assert(items0.subrange(0, n as int) =~= items0);
    out
}

/// Decodes payloads into editable items, in order; fails with the error of
/// the first payload that does not decode.
pub fn editable_items_from_payloads(items: Vec<proto::Any>) -> (r: Result<
    Vec<EditablePcbItem>,
    KiCadError,
>)
    ensures
        r is Ok <==> forall|i: int| 0 <= i < items@.len() ==> #[trigger] item_decodes(items@[i]),
        r matches Ok(v) ==> v@.len() == items@.len() && forall|i: int|
            0 <= i < v@.len() ==> #[trigger] editable_of(
                items@[i],
                Ok::<EditablePcbItem, KiCadError>(v@[i]),
            ),
        r matches Err(e) ==> exists|k: int|
            0 <= k < items@.len() && !item_decodes(#[trigger] items@[k]) && editable_of(
                items@[k],
                Err::<EditablePcbItem, KiCadError>(e),
            ) && forall|j: int| 0 <= j < k ==> #[trigger] item_decodes(items@[j]),
{
    let ghost items0 = items@;
    let mut rest = items;
    let n = rest.len();
    let mut out: Vec<EditablePcbItem> = Vec::new();
    let mut i: usize = 0;
    while i < n
        invariant
            items0 == items@,
            n == items0.len(),
            i <= n,
            rest@ == items0.subrange(i as int, n as int),
            out@.len() == i,
            forall|j: int| 0 <= j < i ==> #[trigger] item_decodes(items0[j]),
            forall|j: int|
                0 <= j < i ==> #[trigger] editable_of(
                    items0[j],
                    Ok::<EditablePcbItem, KiCadError>(out@[j]),
                ),
        decreases n - i,
    {
        let item = rest.remove(0);
        assert(item == items0[i as int]);
        proof {
            lemma_editable_urls_distinct();
        }
        match EditablePcbItem::from_any(item) {
            Ok(e) => {
                out.push(e);
            },
            Err(e) => {
                assert(!item_decodes(items0[i as int]));
                return Err(e);
            },
        }
        i = i + 1;
    }
    Ok(out)
}

/// Converts editable items back to their payloads, in order.
pub fn payloads_of_editable_items(items: Vec<EditablePcbItem>) -> (r: Vec<proto::Any>)
    ensures
        r@.len() == items@.len(),
        forall|i: int| 0 <= i < r@.len() ==> #[trigger] any_of(items@[i], r@[i]),
{
    let ghost items0 = items@;
    let mut rest = items;
    let n = rest.len();
    let mut out: Vec<proto::Any> = Vec::new();
    let mut i: usize = 0;
    while i < n
        invariant
            n == items0.len(),
            i <= n,
            rest@ == items0.subrange(i as int, n as int),
            out@.len() == i,
            forall|j: int| 0 <= j < i ==> #[trigger] any_of(items0[j], out@[j]),
        decreases n - i,
    {
        let item = rest.remove(0);
        assert(item == items0[i as int]);
        out.push(item.into_any());
        i = i + 1;
    }
    out
}

/// Decoding payloads into editable items and converting the items back gives
/// the payloads again, in order: each with its type URL and its message.
pub proof fn lemma_payload_list_round_trip(
    raw: Seq<proto::Any>,
    items: Seq<EditablePcbItem>,
    back: Seq<proto::Any>,
)
    requires
        items.len() == raw.len(),
        back.len() == items.len(),
        forall|i: int|
            0 <= i < raw.len() ==> #[trigger] editable_of(
                raw[i],
                Ok::<EditablePcbItem, KiCadError>(items[i]),
            ),
        forall|i: int| 0 <= i < items.len() ==> #[trigger] any_of(items[i], back[i]),
    ensures
        forall|i: int|
            0 <= i < raw.len() ==> (#[trigger] back[i]).type_url@ == raw[i].type_url@ && back[i].value
                == raw[i].value,
{
    assert forall|i: int| 0 <= i < raw.len() implies (#[trigger] back[i]).type_url@
        == raw[i].type_url@ && back[i].value == raw[i].value by {
        assert(editable_of(raw[i], Ok::<EditablePcbItem, KiCadError>(items[i])));
        assert(any_of(items[i], back[i]));
        crate::model::editable::lemma_payload_round_trip(raw[i], items[i]);
    }
}

/// Whether every payload of a list decodes.
pub open spec fn all_decode(items: Seq<proto::Any>) -> bool {
    forall|i: int| 0 <= i < items.len() ==> #[trigger] item_decodes(items[i])
}

/// Whether `e` is the error decoding `items` fails with: that of the first
/// payload that does not decode.
pub open spec fn first_decode_error(items: Seq<proto::Any>, e: KiCadError) -> bool {
    exists|k: int|
        0 <= k < items.len() && #[trigger] decoded_item(items[k], Err::<PcbItem, KiCadError>(e))
            && !item_decodes(items[k]) && forall|j: int| 0 <= j < k ==> #[trigger] item_decodes(items[j])
}

/// Decodes each bucket of payloads of a fetch of all PCB items, keeping each
/// bucket's object type; fails with the error of the first bucket holding a
/// payload that does not decode.
pub fn decode_item_buckets(rows: Vec<(PcbObjectTypeCode, Vec<proto::Any>)>) -> (r: Result<
    Vec<(PcbObjectTypeCode, Vec<PcbItem>)>,
    KiCadError,
>)
    ensures
        r is Ok <==> forall|b: int| 0 <= b < rows@.len() ==> #[trigger] all_decode(rows@[b].1@),
        r matches Ok(v) ==> v@.len() == rows@.len() && forall|b: int|
            0 <= b < v@.len() ==> {
                &&& (#[trigger] v@[b]).0 == rows@[b].0
                &&& v@[b].1@.len() == rows@[b].1@.len()
                &&& forall|i: int|
                    0 <= i < v@[b].1@.len() ==> #[trigger] decoded_item(
                        rows@[b].1@[i],
                        Ok::<PcbItem, KiCadError>(v@[b].1@[i]),
                    )
            },
        r matches Err(e) ==> exists|b: int|
            0 <= b < rows@.len() && !all_decode(#[trigger] rows@[b].1@) && first_decode_error(
                rows@[b].1@,
                e,
            ) && forall|c: int| 0 <= c < b ==> #[trigger] all_decode(rows@[c].1@),
{
    let ghost rows0 = rows@;
    let mut rest = rows;
    let n = rest.len();
    let mut out: Vec<(PcbObjectTypeCode, Vec<PcbItem>)> = Vec::new();
    let mut b: usize = 0;
    while b < n
        invariant
            rows0 == rows@,
            n == rows0.len(),
            b <= n,
            rest@ == rows0.subrange(b as int, n as int),
            out@.len() == b,
            forall|c: int| 0 <= c < b ==> #[trigger] all_decode(rows0[c].1@),
            forall|c: int|
                0 <= c < b ==> {
                    &&& (#[trigger] out@[c]).0 == rows0[c].0
                    &&& out@[c].1@.len() == rows0[c].1@.len()
                    &&& forall|i: int|
                        0 <= i < out@[c].1@.len() ==> #[trigger] decoded_item(
                            rows0[c].1@[i],
                            Ok::<PcbItem, KiCadError>(out@[c].1@[i]),
                        )
                },
        decreases n - b,
    {
        let (object_type, items) = rest.remove(0);
        assert(object_type == rows0[b as int].0 && items@ == rows0[b as int].1@);
        match decode_pcb_items(items) {
            Ok(decoded) => {
                out.push((object_type, decoded));
            },
            Err(e) => {
                assert(!all_decode(rows0[b as int].1@));
                assert(first_decode_error(rows0[b as int].1@, e));
                return Err(e);
            },
        }
        b = b + 1;
    }
    Ok(out)
}

} // verus!
