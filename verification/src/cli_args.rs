//! The command-line tool's arguments: the options each command reads, the
//! global connection options, and the command they name.

use vstd::prelude::*;
use vstd::utf8::encode_utf8;
use crate::cli::{
    board_flip_from_text, board_flip_parse_error, first_non_hex, hex_read, hex_to_bytes,
    inactive_layer_display_from_text, inactive_layer_display_parse_error,
    lemma_first_non_hex_at, net_color_display_from_text, net_color_display_parse_error,
    nibble_value, parse_board_flip_mode, parse_drc_severity, parse_inactive_layer_display_mode,
    parse_net_color_display_mode, parse_ratsnest_display_mode, ratsnest_display_from_text,
    ratsnest_display_parse_error,
};
use crate::decimal::{
    int_error_message, int_error_text, int_parse, parse_i32_text, parse_i64, parse_u32,
    IntErrorKind,
};
use crate::model::board::{
    board_origin_kind_from_text, board_origin_kind_parse_error, drc_severity_from_text,
    drc_severity_parse_error, layer_id_from_name_spec, BoardFlipMode, BoardLayerInfo,
    BoardOriginKind, DrcSeverity,
    InactiveLayerDisplayMode, NetColorDisplayMode, RatsnestDisplayMode,
};
use crate::model::common::{
    commit_action_from_text, commit_action_parse_error, document_type_from_text,
    document_type_parse_error, editor_frame_type_from_text, editor_frame_type_parse_error,
    map_merge_mode_from_text, map_merge_mode_parse_error, CommitAction, DocumentType,
    EditorFrameType, MapMergeMode,
};
use crate::order::{
    lemma_seq_lt_irreflexive, lemma_seq_lt_total, lemma_seq_lt_transitive, seq_lt, str_lt,
};
use crate::proto;
use crate::text::{
    chars_of, copy_string, opt_string_view, owned, push_char, push_str, str_eq, strings_view,
};

verus! {

// ---------------------------------------------------------------------------
// Options and their values.
// ---------------------------------------------------------------------------
/// How a command reads one of its options.
#[derive(Clone, Copy, Debug, PartialEq, Eq, Structural)]
pub enum OptionKind {
    /// A switch without a value.
    Flag,
    /// A value kept as it is.
    Text,
    /// An `i32` value.
    I32,
    /// An `i64` value.
    I64,
    /// A `u32` value.
    U32,
    /// A text-variable merge mode.
    MergeMode,
    /// A board origin kind.
    OriginKind,
    /// A DRC severity.
    Severity,
    /// An editor frame.
    Frame,
    /// A commit action.
    Action,
    /// A document type.
    DocType,
    /// An inactive layer display mode.
    InactiveLayers,
    /// A net color display mode.
    NetColors,
    /// A board flip mode.
    Flip,
    /// A ratsnest display mode.
    Ratsnest,
    /// A text variable written `<name>=<value>`.
    Variable,
    /// An item payload written `<type_url>=<hex>`.
    Item,
    /// A board layer, by name or id.
    Layer,
}

/// An option of a command: its name and how its value is read.
#[derive(Clone, Copy, Debug)]
pub struct OptionSpec {
    pub name: &'static str,
    pub kind: OptionKind,
}

/// The value read for an option.
#[derive(Debug, PartialEq, Eq)]
pub enum OptionValue {
    Flag,
    Text(String),
    I32(i32),
    I64(i64),
    U32(u32),
    MergeMode(MapMergeMode),
    OriginKind(BoardOriginKind),
    Severity(DrcSeverity),
    Frame(EditorFrameType),
    Action(CommitAction),
    DocType(DocumentType),
    InactiveLayers(InactiveLayerDisplayMode),
    NetColors(NetColorDisplayMode),
    Flip(BoardFlipMode),
    Ratsnest(RatsnestDisplayMode),
    Variable(String, String),
    Item(proto::Any),
    Layer(i32),
}

/// An option value as the contracts see it.
pub ghost enum ValueView {
    Flag,
    Text(Seq<char>),
    I32(i32),
    I64(i64),
    U32(u32),
    MergeMode(MapMergeMode),
    OriginKind(BoardOriginKind),
    Severity(DrcSeverity),
    Frame(EditorFrameType),
    Action(CommitAction),
    DocType(DocumentType),
    InactiveLayers(InactiveLayerDisplayMode),
    NetColors(NetColorDisplayMode),
    Flip(BoardFlipMode),
    Ratsnest(RatsnestDisplayMode),
    Variable(Seq<char>, Seq<char>),
    Item(Seq<char>, Option<Seq<u8>>),
    Layer(i32),
}

/// The type URL and, for an encoded payload, the bytes of an item payload.
pub open spec fn item_payload_view(a: proto::Any) -> (Seq<char>, Option<Seq<u8>>) {
    (
        a.type_url@,
        match a.value {
            proto::AnyValue::Encoded(b) => Some(b@),
            _ => None,
        },
    )
}

/// The view of an option value.
pub open spec fn value_view(v: OptionValue) -> ValueView {
    match v {
        OptionValue::Flag => ValueView::Flag,
        OptionValue::Text(t) => ValueView::Text(t@),
        OptionValue::I32(n) => ValueView::I32(n),
        OptionValue::I64(n) => ValueView::I64(n),
        OptionValue::U32(n) => ValueView::U32(n),
        OptionValue::MergeMode(m) => ValueView::MergeMode(m),
        OptionValue::OriginKind(k) => ValueView::OriginKind(k),
        OptionValue::Severity(s) => ValueView::Severity(s),
        OptionValue::Frame(f) => ValueView::Frame(f),
        OptionValue::Action(a) => ValueView::Action(a),
        OptionValue::DocType(d) => ValueView::DocType(d),
        OptionValue::InactiveLayers(m) => ValueView::InactiveLayers(m),
        OptionValue::NetColors(m) => ValueView::NetColors(m),
        OptionValue::Flip(m) => ValueView::Flip(m),
        OptionValue::Ratsnest(m) => ValueView::Ratsnest(m),
        OptionValue::Variable(n, t) => ValueView::Variable(n@, t@),
        OptionValue::Item(a) => ValueView::Item(item_payload_view(a).0, item_payload_view(a).1),
        OptionValue::Layer(id) => ValueView::Layer(id),
    }
}

/// The position of the first `c` in `s` from `from` on.
pub open spec fn first_index_of(s: Seq<char>, c: char, from: int) -> Option<int>
    decreases s.len() - from,
{
    if from < 0 || from >= s.len() {
        None
    } else if s[from] == c {
        Some(from)
    } else {
        first_index_of(s, c, from + 1)
    }
}

/// The message for a value that is no number of the option's type.
pub open spec fn invalid_number_text(
    cmd: Seq<char>,
    opt: Seq<char>,
    value: Seq<char>,
    kind: IntErrorKind,
) -> Seq<char> {
    "invalid "@ + cmd + " "@ + opt + " `"@ + value + "`: "@ + int_error_text(kind)
}

/// The value the option `opt` of the command `cmd`, read as `kind`, takes
/// from the text `v`, or the message of why it cannot.
pub open spec fn value_read(kind: OptionKind, cmd: Seq<char>, opt: Seq<char>, v: Seq<char>) -> Result<
    ValueView,
    Seq<char>,
> {
    match kind {
        OptionKind::Flag => Ok(ValueView::Flag),
        OptionKind::Text => Ok(ValueView::Text(v)),
        OptionKind::I32 => match int_parse(v, i32::MIN as int, i32::MAX as int) {
            Ok(n) => Ok(ValueView::I32(n as i32)),
            Err(k) => Err(invalid_number_text(cmd, opt, v, k)),
        },
        OptionKind::I64 => match int_parse(v, i64::MIN as int, i64::MAX as int) {
            Ok(n) => Ok(ValueView::I64(n as i64)),
            Err(k) => Err(invalid_number_text(cmd, opt, v, k)),
        },
        OptionKind::U32 => match int_parse(v, 0, u32::MAX as int) {
            Ok(n) => Ok(ValueView::U32(n as u32)),
            Err(k) => Err(invalid_number_text(cmd, opt, v, k)),
        },
        OptionKind::MergeMode => match map_merge_mode_from_text(v) {
            Some(m) => Ok(ValueView::MergeMode(m)),
            None => Err(map_merge_mode_parse_error(v)),
        },
        OptionKind::OriginKind => match board_origin_kind_from_text(v) {
            Some(k) => Ok(ValueView::OriginKind(k)),
            None => Err(board_origin_kind_parse_error(v)),
        },
        OptionKind::Severity => match drc_severity_from_text(v) {
            Some(s) => Ok(ValueView::Severity(s)),
            None => Err(drc_severity_parse_error(v)),
        },
        OptionKind::Frame => match editor_frame_type_from_text(v) {
            Some(f) => Ok(ValueView::Frame(f)),
            None => Err(editor_frame_type_parse_error(v)),
        },
        OptionKind::Action => match commit_action_from_text(v) {
            Some(a) => Ok(ValueView::Action(a)),
            None => Err(commit_action_parse_error(v)),
        },
        OptionKind::DocType => match document_type_from_text(v) {
            Some(d) => Ok(ValueView::DocType(d)),
            None => Err(document_type_parse_error(v)),
        },
        OptionKind::InactiveLayers => match inactive_layer_display_from_text(v) {
            Some(m) => Ok(ValueView::InactiveLayers(m)),
            None => Err(inactive_layer_display_parse_error(v)),
        },
        OptionKind::NetColors => match net_color_display_from_text(v) {
            Some(m) => Ok(ValueView::NetColors(m)),
            None => Err(net_color_display_parse_error(v)),
        },
        OptionKind::Flip => match board_flip_from_text(v) {
            Some(m) => Ok(ValueView::Flip(m)),
            None => Err(board_flip_parse_error(v)),
        },
        OptionKind::Ratsnest => match ratsnest_display_from_text(v) {
            Some(m) => Ok(ValueView::Ratsnest(m)),
            None => Err(ratsnest_display_parse_error(v)),
        },
        OptionKind::Variable => match first_index_of(v, '=', 0) {
            Some(i) => Ok(ValueView::Variable(v.take(i), v.skip(i + 1))),
            None => Err(cmd + " "@ + opt + " requires `<name>=<value>`"@),
        },
        OptionKind::Item => match first_index_of(v, '=', 0) {
            Some(i) => match hex_read(v.skip(i + 1)) {
                Ok(bytes) => Ok(ValueView::Item(v.take(i), Some(bytes))),
                Err(m) => Err(m),
            },
            None => Err(cmd + " "@ + opt + " requires `<type_url>=<hex>`"@),
        },
        OptionKind::Layer => match layer_id_from_name_spec(v) {
            Some(id) => Ok(ValueView::Layer(id)),
            None => Err(invalid_layer_text(cmd, v)),
        },
    }
}

/// The message for a value that names no board layer.
pub open spec fn invalid_layer_text(cmd: Seq<char>, value: Seq<char>) -> Seq<char> {
    "invalid "@ + cmd + " layer `"@ + value + "`; use e.g. F.SilkS, BL_F_SilkS, or 40"@
}

/// Finds the first `c` in `s`.
fn find_char(s: &[char], c: char) -> (r: Option<usize>)
    ensures
        match r {
            Some(i) => first_index_of(s@, c, 0) == Some(i as int),
            None => first_index_of(s@, c, 0) is None,
        },
        r matches Some(i) ==> i < s@.len() && s@[i as int] == c,
{
    let n = s.len();
    let mut i: usize = 0;
    while i < n
        invariant
            n == s@.len(),
            i <= n,
            first_index_of(s@, c, 0) == first_index_of(s@, c, i as int),
        decreases n - i,
    {
        if s[i] == c {
            return Some(i);
        }
        i = i + 1;
    }
    None
}

/// The characters of `s` from `from` up to `to`, as a string.
fn string_of_range(s: &[char], from: usize, to: usize) -> (r: String)
    requires
        from <= to <= s@.len(),
    ensures
        r@ == s@.subrange(from as int, to as int),
{
    let mut r = String::new();
    let mut i = from;
    while i < to
        invariant
            from <= i <= to <= s@.len(),
            r@ == s@.subrange(from as int, i as int),
        decreases to - i,
    {
        push_char(&mut r, s[i]);
        assert(s@.subrange(from as int, i + 1) =~= s@.subrange(from as int, i as int).push(s@[i as int]));
        i = i + 1;
    }
    r
}

/// The message for a value that is no number, built from its parts.
fn invalid_number_message(cmd: &str, opt: &str, value: &str, kind: IntErrorKind) -> (r: String)
    ensures
        r@ == invalid_number_text(cmd@, opt@, value@, kind),
{
    let mut r = owned("invalid ");
    push_str(&mut r, cmd);
    push_str(&mut r, " ");
    push_str(&mut r, opt);
    push_str(&mut r, " `");
    push_str(&mut r, value);
    push_str(&mut r, "`: ");
    push_str(&mut r, int_error_message(kind));
    r
}

/// Reads a text variable written `<name>=<value>`.
fn read_variable(cmd: &str, opt: &str, value: &str) -> (r: Result<OptionValue, String>)
    ensures
        match r {
            Ok(v) => value_read(OptionKind::Variable, cmd@, opt@, value@) == Ok::<
                ValueView,
                Seq<char>,
            >(value_view(v)),
            Err(m) => value_read(OptionKind::Variable, cmd@, opt@, value@) == Err::<
                ValueView,
                Seq<char>,
            >(m@),
        },
{
    let chars = chars_of(value);
    match find_char(chars.as_slice(), '=') {
        Some(i) => {
            assert(i < chars@.len());
            let name = string_of_range(chars.as_slice(), 0, i);
            let text = string_of_range(chars.as_slice(), i + 1, chars.len());
            assert(name@ =~= value@.take(i as int));
            assert(text@ =~= value@.skip(i + 1));
            Ok(OptionValue::Variable(name, text))
        },
        None => {
            let mut m = owned(cmd);
            push_str(&mut m, " ");
            push_str(&mut m, opt);
            push_str(&mut m, " requires `<name>=<value>`");
            Err(m)
        },
    }
    
}

/// Reads an item payload written `<type_url>=<hex>`.
fn read_item(cmd: &str, opt: &str, value: &str) -> (r: Result<OptionValue, String>)
    ensures
        match r {
            Ok(v) => value_read(OptionKind::Item, cmd@, opt@, value@) == Ok::<ValueView, Seq<char>>(
                value_view(v),
            ),
            Err(m) => value_read(OptionKind::Item, cmd@, opt@, value@) == Err::<
                ValueView,
                Seq<char>,
            >(m@),
        },
{
    let chars = chars_of(value);
    match find_char(chars.as_slice(), '=') {
        Some(i) => {
            assert(i < chars@.len());
            let type_url = string_of_range(chars.as_slice(), 0, i);
            let hex = string_of_range(chars.as_slice(), i + 1, chars.len());
            assert(type_url@ =~= value@.take(i as int));
            assert(hex@ =~= value@.skip(i + 1));
            let read = hex_to_bytes(hex.as_str());
            let ghost h = hex@;
            match read {
                Ok(bytes) => {
                    proof {
                        lemma_first_non_hex_at(h, 0, h.len() as int);
                    }
                    Ok(
                        OptionValue::Item(
                            proto::Any { type_url, value: proto::AnyValue::Encoded(bytes) },
                        ),
                    )
                },
                Err(m) => {
                    proof {
                        if (encode_utf8(h).len() as usize) % 2 == 0 {
                            let k = choose|k: int|
                                0 <= k < h.len() && (#[trigger] nibble_value(h[k])) is None
                                    && m@ == crate::cli::invalid_hex_text(h[k]) && forall|j: int|
                                    0 <= j < k ==> (#[trigger] nibble_value(h[j])) is Some;
                            lemma_first_non_hex_at(h, 0, k);
                        }
                    }
                    Err(m)
                },
            }
        },
        None => {
            let mut m = owned(cmd);
            push_str(&mut m, " ");
            push_str(&mut m, opt);
            push_str(&mut m, " requires `<type_url>=<hex>`");
            Err(m)
        },
    }
    
}

/// Reads the value `value` of the option `opt` of the command `cmd` as
/// `kind`.
fn read_value(kind: OptionKind, cmd: &str, opt: &str, value: &str) -> (r: Result<
    OptionValue,
    String,
>)
    ensures
        match r {
            Ok(v) => value_read(kind, cmd@, opt@, value@) == Ok::<ValueView, Seq<char>>(
                value_view(v),
            ),
            Err(m) => value_read(kind, cmd@, opt@, value@) == Err::<ValueView, Seq<char>>(m@),
        },
{
    match kind {
        OptionKind::Flag => Ok(OptionValue::Flag),
        OptionKind::Text => Ok(OptionValue::Text(owned(value))),
        OptionKind::I32 => match parse_i32_text(value) {
            Ok(n) => Ok(OptionValue::I32(n)),
            Err(k) => Err(invalid_number_message(cmd, opt, value, k)),
        },
        OptionKind::I64 => match parse_i64(value) {
            Ok(n) => Ok(OptionValue::I64(n)),
            Err(k) => Err(invalid_number_message(cmd, opt, value, k)),
        },
        OptionKind::U32 => match parse_u32(value) {
            Ok(n) => Ok(OptionValue::U32(n)),
            Err(k) => Err(invalid_number_message(cmd, opt, value, k)),
        },
        OptionKind::MergeMode => match MapMergeMode::parse(value) {
            Ok(m) => Ok(OptionValue::MergeMode(m)),
            Err(m) => Err(m),
        },
        OptionKind::OriginKind => match BoardOriginKind::parse(value) {
            Ok(k) => Ok(OptionValue::OriginKind(k)),
            Err(m) => Err(m),
        },
        OptionKind::Severity => match parse_drc_severity(value) {
            Ok(s) => Ok(OptionValue::Severity(s)),
            Err(m) => Err(m),
        },
        OptionKind::Frame => match EditorFrameType::parse(value) {
            Ok(f) => Ok(OptionValue::Frame(f)),
            Err(m) => Err(m),
        },
        OptionKind::Action => match CommitAction::parse(value) {
            Ok(a) => Ok(OptionValue::Action(a)),
            Err(m) => Err(m),
        },
        OptionKind::DocType => match DocumentType::parse(value) {
            Ok(d) => Ok(OptionValue::DocType(d)),
            Err(m) => Err(m),
        },
        OptionKind::InactiveLayers => match parse_inactive_layer_display_mode(value) {
            Ok(m) => Ok(OptionValue::InactiveLayers(m)),
            Err(m) => Err(m),
        },
        OptionKind::NetColors => match parse_net_color_display_mode(value) {
            Ok(m) => Ok(OptionValue::NetColors(m)),
            Err(m) => Err(m),
        },
        OptionKind::Flip => match parse_board_flip_mode(value) {
            Ok(m) => Ok(OptionValue::Flip(m)),
            Err(m) => Err(m),
        },
        OptionKind::Ratsnest => match parse_ratsnest_display_mode(value) {
            Ok(m) => Ok(OptionValue::Ratsnest(m)),
            Err(m) => Err(m),
        },
        OptionKind::Variable => read_variable(cmd, opt, value),
        OptionKind::Item => read_item(cmd, opt, value),
        OptionKind::Layer => match BoardLayerInfo::id_from_name(value) {
            Some(id) => Ok(OptionValue::Layer(id)),
            None => {
                let mut m = owned("invalid ");
                push_str(&mut m, cmd);
                push_str(&mut m, " layer `");
                push_str(&mut m, value);
                push_str(&mut m, "`; use e.g. F.SilkS, BL_F_SilkS, or 40");
                Err(m)
            },
        },
    }
}

// ---------------------------------------------------------------------------
// Reading a command's options.
// ---------------------------------------------------------------------------
/// The position in `table`, from `from` on, of the option named `arg`.
pub open spec fn option_index(table: Seq<OptionSpec>, arg: Seq<char>, from: int) -> Option<int>
    decreases table.len() - from,
{
    if from < 0 || from >= table.len() {
        None
    } else if table[from].name@ == arg {
        Some(from)
    } else {
        option_index(table, arg, from + 1)
    }
}

/// The message for an option given without its value.
pub open spec fn missing_value_text(cmd: Seq<char>, opt: Seq<char>) -> Seq<char> {
    "missing value for "@ + cmd + " "@ + opt
}

/// `prefix` followed by what `r` read, or the error of `r`.
pub open spec fn join_read(prefix: Seq<(int, ValueView)>, r: Result<Seq<(int, ValueView)>, Seq<char>>) -> Result<
    Seq<(int, ValueView)>,
    Seq<char>,
> {
    match r {
        Ok(rest) => Ok(prefix + rest),
        Err(m) => Err(m),
    }
}

/// The options of the command `cmd` read from its arguments `args`, from
/// position `i` on: for each argument that names an option of `table`, in
/// order, the option's position in `table` and its value, the argument after
/// a valued option being its value; other arguments are passed over. A
/// valued option without a following argument, and the first value that
/// does not read, end the reading with their message.
pub open spec fn options_read_from(
    args: Seq<Seq<char>>,
    i: int,
    cmd: Seq<char>,
    table: Seq<OptionSpec>,
) -> Result<Seq<(int, ValueView)>, Seq<char>>
    decreases args.len() - i,
{
    if i < 0 || i >= args.len() {
        Ok(Seq::empty())
    } else {
        match option_index(table, args[i], 0) {
            None => options_read_from(args, i + 1, cmd, table),
            Some(k) => if table[k].kind == OptionKind::Flag {
                join_read(seq![(k, ValueView::Flag)], options_read_from(args, i + 1, cmd, table))
            } else if i + 1 >= args.len() {
                Err(missing_value_text(cmd, table[k].name@))
            } else {
                match value_read(table[k].kind, cmd, table[k].name@, args[i + 1]) {
                    Err(m) => Err(m),
                    Ok(v) => join_read(seq![(k, v)], options_read_from(args, i + 2, cmd, table)),
                }
            },
        }
    }
}

/// The options of the command `cmd` read from its arguments, the command's
/// name at position `0` being passed over.
pub open spec fn options_read(args: Seq<Seq<char>>, cmd: Seq<char>, table: Seq<OptionSpec>) -> Result<
    Seq<(int, ValueView)>,
    Seq<char>,
> {
    options_read_from(args, 1, cmd, table)
}

/// The view of read options.
pub open spec fn events_view(ev: Seq<(usize, OptionValue)>) -> Seq<(int, ValueView)> {
    ev.map_values(|e: (usize, OptionValue)| (e.0 as int, value_view(e.1)))
}

/// Finds the option of `table` named `arg`.
fn find_option(table: &[OptionSpec], arg: &str) -> (r: Option<usize>)
    ensures
        match r {
            Some(k) => option_index(table@, arg@, 0) == Some(k as int) && k < table@.len(),
            None => option_index(table@, arg@, 0) is None,
        },
{
    let n = table.len();
    let mut k: usize = 0;
    while k < n
        invariant
            n == table@.len(),
            k <= n,
            option_index(table@, arg@, 0) == option_index(table@, arg@, k as int),
        decreases n - k,
    {
        if str_eq(table[k].name, arg) {
            return Some(k);
        }
        k = k + 1;
    }
    None
}

/// Reads the options of the command `cmd` from its arguments `args`.
pub fn read_options(args: &[String], cmd: &str, table: &[OptionSpec]) -> (r: Result<
    Vec<(usize, OptionValue)>,
    String,
>)
    ensures
        match r {
            Ok(ev) => options_read(strings_view(args@), cmd@, table@) == Ok::<
                Seq<(int, ValueView)>,
                Seq<char>,
            >(events_view(ev@)),
            Err(m) => options_read(strings_view(args@), cmd@, table@) == Err::<
                Seq<(int, ValueView)>,
                Seq<char>,
            >(m@),
        },
{
    let ghost a = strings_view(args@);
    let n = args.len();
    let mut ev: Vec<(usize, OptionValue)> = Vec::new();
    let mut i: usize = 1;
    assert(events_view(ev@) =~= Seq::<(int, ValueView)>::empty());
    while i < n
        invariant
            n == args@.len(),
            a == strings_view(args@),
            1 <= i,
            options_read(a, cmd@, table@) == join_read(
                events_view(ev@),
                options_read_from(a, i as int, cmd@, table@),
            ),
        decreases n - i,
    {
        assert(a[i as int] == args@[i as int]@);
        match find_option(table, args[i].as_str()) {
            None => {
                i = i + 1;
            },
            Some(k) => {
                let opt = table[k];
                if opt.kind == OptionKind::Flag {
                    let ghost before = events_view(ev@);
                    ev.push((k, OptionValue::Flag));
                    assert(events_view(ev@) =~= before + seq![(k as int, ValueView::Flag)]);
                    assert forall|rest: Seq<(int, ValueView)>|
                        #![auto]
                        before + (seq![(k as int, ValueView::Flag)] + rest) =~= (before + seq![
                            (k as int, ValueView::Flag),
                        ]) + rest by {}
                    i = i + 1;
                } else {
                    if i + 1 >= n {
                        let mut m = owned("missing value for ");
                        push_str(&mut m, cmd);
                        push_str(&mut m, " ");
                        push_str(&mut m, opt.name);
                        return Err(m);
                    }
                    assert(a[i + 1] == args@[i + 1]@);
                    match read_value(opt.kind, cmd, opt.name, args[i + 1].as_str()) {
                        Err(m) => {
                            return Err(m);
                        },
                        Ok(v) => {
                            let ghost before = events_view(ev@);
                            let ghost vv = value_view(v);
                            ev.push((k, v));
                            assert(events_view(ev@) =~= before + seq![(k as int, vv)]);
                            assert forall|rest: Seq<(int, ValueView)>|
                                #![auto]
                                before + (seq![(k as int, vv)] + rest) =~= (before + seq![
                                    (k as int, vv),
                                ]) + rest by {}
                            i = i + 2;
                        },
                    }
                }
            },
        }
    }
    assert(events_view(ev@) + Seq::<(int, ValueView)>::empty() =~= events_view(ev@));
    Ok(ev)
}

// ---------------------------------------------------------------------------
// What the read options give.
// ---------------------------------------------------------------------------
/// The last value read for the option at position `k` of the table.
pub open spec fn last_value(ev: Seq<(int, ValueView)>, k: int) -> Option<ValueView>
    decreases ev.len(),
{
    if ev.len() == 0 {
        None
    } else if ev.last().0 == k {
        Some(ev.last().1)
    } else {
        last_value(ev.drop_last(), k)
    }
}

/// The value of whichever of the options at positions `a` and `b` of the
/// table was given last.
pub open spec fn last_value_either(ev: Seq<(int, ValueView)>, a: int, b: int) -> Option<ValueView>
    decreases ev.len(),
{
    if ev.len() == 0 {
        None
    } else if ev.last().0 == a || ev.last().0 == b {
        Some(ev.last().1)
    } else {
        last_value_either(ev.drop_last(), a, b)
    }
}

/// Whether the option at position `k` of the table was given.
pub open spec fn has_option(ev: Seq<(int, ValueView)>, k: int) -> bool {
    last_value(ev, k) is Some
}

/// The texts given for the option at position `k`, in order.
pub open spec fn texts_of(ev: Seq<(int, ValueView)>, k: int) -> Seq<Seq<char>>
    decreases ev.len(),
{
    if ev.len() == 0 {
        Seq::empty()
    } else {
        let before = texts_of(ev.drop_last(), k);
        match ev.last().1 {
            ValueView::Text(t) => if ev.last().0 == k {
                before.push(t)
            } else {
                before
            },
            _ => before,
        }
    }
}

/// The `i32` values given for the option at position `k`, in order.
pub open spec fn i32s_of(ev: Seq<(int, ValueView)>, k: int) -> Seq<i32>
    decreases ev.len(),
{
    if ev.len() == 0 {
        Seq::empty()
    } else {
        let before = i32s_of(ev.drop_last(), k);
        match ev.last().1 {
            ValueView::I32(n) => if ev.last().0 == k {
                before.push(n)
            } else {
                before
            },
            _ => before,
        }
    }
}

/// The item payloads given for the option at position `k`, in order: each
/// type URL with its bytes.
pub open spec fn items_of(ev: Seq<(int, ValueView)>, k: int) -> Seq<(Seq<char>, Option<Seq<u8>>)>
    decreases ev.len(),
{
    if ev.len() == 0 {
        Seq::empty()
    } else {
        let before = items_of(ev.drop_last(), k);
        match ev.last().1 {
            ValueView::Item(url, bytes) => if ev.last().0 == k {
                before.push((url, bytes))
            } else {
                before
            },
            _ => before,
        }
    }
}

/// Sets the variable `name` to `value` in the variables `vs`, kept in
/// increasing order of name: replaces the value of a variable of that name,
/// else inserts the variable before the first one with a greater name.
pub open spec fn var_insert(
    vs: Seq<(Seq<char>, Seq<char>)>,
    name: Seq<char>,
    value: Seq<char>,
) -> Seq<(Seq<char>, Seq<char>)>
    decreases vs.len(),
{
    if vs.len() == 0 {
        seq![(name, value)]
    } else if vs[0].0 == name {
        seq![(name, value)] + vs.drop_first()
    } else if seq_lt(name, vs[0].0) {
        seq![(name, value)] + vs
    } else {
        seq![vs[0]] + var_insert(vs.drop_first(), name, value)
    }
}

/// The variables given for the option at position `k`: each set in turn,
/// a later value of a name replacing an earlier one, listed by name.
pub open spec fn variables_of(ev: Seq<(int, ValueView)>, k: int) -> Seq<(Seq<char>, Seq<char>)>
    decreases ev.len(),
{
    if ev.len() == 0 {
        Seq::empty()
    } else {
        let before = variables_of(ev.drop_last(), k);
        match ev.last().1 {
            ValueView::Variable(n, t) => if ev.last().0 == k {
                var_insert(before, n, t)
            } else {
                before
            },
            _ => before,
        }
    }
}

/// The view of a list of variables.
pub open spec fn variables_view(vs: Seq<(String, String)>) -> Seq<(Seq<char>, Seq<char>)> {
    vs.map_values(|p: (String, String)| (p.0@, p.1@))
}

/// Finds the last value read for the option at position `k`.
pub fn last_value_of(ev: &Vec<(usize, OptionValue)>, k: usize) -> (r: Option<&OptionValue>)
    ensures
        match r {
            Some(v) => last_value(events_view(ev@), k as int) == Some(value_view(*v)),
            None => last_value(events_view(ev@), k as int) is None,
        },
{
    let mut n = ev.len();
    assert(ev@.take(n as int) =~= ev@);
    while n > 0
        invariant
            n <= ev@.len(),
            last_value(events_view(ev@), k as int) == last_value(
                events_view(ev@.take(n as int)),
                k as int,
            ),
        decreases n,
    {
        assert(events_view(ev@.take(n as int)).drop_last() =~= events_view(ev@.take(n - 1)));
        if ev[n - 1].0 == k {
            return Some(&ev[n - 1].1);
        }
        n = n - 1;
    }
    None
}

/// The value of whichever of the options at positions `a` and `b` was given
/// last.
pub fn last_value_of_either(ev: &Vec<(usize, OptionValue)>, a: usize, b: usize) -> (r: Option<
    &OptionValue,
>)
    ensures
        match r {
            Some(v) => last_value_either(events_view(ev@), a as int, b as int) == Some(
                value_view(*v),
            ),
            None => last_value_either(events_view(ev@), a as int, b as int) is None,
        },
{
    let mut n = ev.len();
    assert(ev@.take(n as int) =~= ev@);
    while n > 0
        invariant
            n <= ev@.len(),
            last_value_either(events_view(ev@), a as int, b as int) == last_value_either(
                events_view(ev@.take(n as int)),
                a as int,
                b as int,
            ),
        decreases n,
    {
        assert(events_view(ev@.take(n as int)).drop_last() =~= events_view(ev@.take(n - 1)));
        if ev[n - 1].0 == a || ev[n - 1].0 == b {
            return Some(&ev[n - 1].1);
        }
        n = n - 1;
    }
    None
}

/// Whether the option at position `k` was given.
pub fn has_option_in(ev: &Vec<(usize, OptionValue)>, k: usize) -> (r: bool)
    ensures
        r == has_option(events_view(ev@), k as int),
{
    last_value_of(ev, k).is_some()
}

/// Collects the texts given for the option at position `k`.
pub fn texts_of_option(ev: &Vec<(usize, OptionValue)>, k: usize) -> (r: Vec<String>)
    ensures
        strings_view(r@) == texts_of(events_view(ev@), k as int),
{
    let n = ev.len();
    let mut r: Vec<String> = Vec::new();
    let mut i: usize = 0;
    while i < n
        invariant
            n == ev@.len(),
            i <= n,
            strings_view(r@) == texts_of(events_view(ev@.take(i as int)), k as int),
        decreases n - i,
    {
        assert(events_view(ev@.take(i + 1)).drop_last() =~= events_view(ev@.take(i as int)));
        let ghost before = r@;
        match &ev[i].1 {
            OptionValue::Text(t) => {
                if ev[i].0 == k {
                    r.push(copy_string(t));
                    assert(strings_view(r@) =~= strings_view(before).push(t@));
                }
            },
            _ => {},
        }
        i = i + 1;
    }
    assert(ev@.take(n as int) =~= ev@);
    r
}

/// Collects the `i32` values given for the option at position `k`.
pub fn i32s_of_option(ev: &Vec<(usize, OptionValue)>, k: usize) -> (r: Vec<i32>)
    ensures
        r@ == i32s_of(events_view(ev@), k as int),
{
    let n = ev.len();
    let mut r: Vec<i32> = Vec::new();
    let mut i: usize = 0;
    while i < n
        invariant
            n == ev@.len(),
            i <= n,
            r@ == i32s_of(events_view(ev@.take(i as int)), k as int),
        decreases n - i,
    {
        assert(events_view(ev@.take(i + 1)).drop_last() =~= events_view(ev@.take(i as int)));
        match &ev[i].1 {
            OptionValue::I32(v) => {
                if ev[i].0 == k {
                    r.push(*v);
                }
            },
            _ => {},
        }
        i = i + 1;
    }
    assert(ev@.take(n as int) =~= ev@);
    r
}

/// The view of a list of item payloads.
pub open spec fn payloads_view(items: Seq<proto::Any>) -> Seq<(Seq<char>, Option<Seq<u8>>)> {
    items.map_values(|a: proto::Any| item_payload_view(a))
}

/// Takes the item payloads given for the option at position `k`.
pub fn take_items_of_option(ev: Vec<(usize, OptionValue)>, k: usize) -> (r: Vec<proto::Any>)
    ensures
        payloads_view(r@) == items_of(events_view(ev@), k as int),
{
    let ghost all = ev@;
    let mut rest = ev;
    let n = rest.len();
    let mut r: Vec<proto::Any> = Vec::new();
    let mut i: usize = 0;
    while i < n
        invariant
            n == all.len(),
            i <= n,
            rest@ == all.subrange(i as int, n as int),
            payloads_view(r@) == items_of(events_view(all.take(i as int)), k as int),
        decreases n - i,
    {
        assert(events_view(all.take(i + 1)).drop_last() =~= events_view(all.take(i as int)));
        let (j, v) = rest.remove(0);
        assert((j, v) == all[i as int]);
        let ghost before = r@;
        match v {
            OptionValue::Item(a) => {
                if j == k {
                    r.push(a);
                    assert(payloads_view(r@) =~= payloads_view(before).push(item_payload_view(a)));
                }
            },
            _ => {},
        }
        i = i + 1;
    }
    assert(all.take(n as int) =~= all);
    r
}

/// Setting a variable is the same whatever the variables before the first
/// one at or after its name.
proof fn lemma_var_insert_skip(vs: Seq<(Seq<char>, Seq<char>)>, j: int, name: Seq<char>, value: Seq<char>)
    requires
        0 <= j <= vs.len(),
        forall|i: int| 0 <= i < j ==> vs[i].0 != name && !seq_lt(name, #[trigger] vs[i].0),
    ensures
        var_insert(vs, name, value) == vs.take(j) + var_insert(vs.skip(j), name, value),
    decreases j,
{
    if j == 0 {
        assert(vs.skip(0) =~= vs);
        assert(vs.take(0) + var_insert(vs, name, value) =~= var_insert(vs, name, value));
    } else {
        lemma_var_insert_skip(vs.drop_first(), j - 1, name, value);
        assert(vs.drop_first().skip(j - 1) =~= vs.skip(j));
        assert(vs.take(j) =~= seq![vs[0]] + vs.drop_first().take(j - 1));
        assert(vs[0].0 != name && !seq_lt(name, vs[0].0));
    }
}

/// Sets the variable `name` to `value` in variables kept by name.
fn set_variable(vs: &mut Vec<(String, String)>, name: String, value: String)
    ensures
        variables_view(final(vs)@) == var_insert(variables_view(old(vs)@), name@, value@),
{
    let ghost v0 = variables_view(vs@);
    let n = vs.len();
    let mut j: usize = 0;
    let mut at_name = false;
    let mut before_name = false;
    while j < n && !at_name && !before_name
        invariant
            n == vs@.len(),
            j <= n,
            v0 == variables_view(vs@),
            forall|i: int| 0 <= i < j ==> v0[i].0 != name@ && !seq_lt(name@, #[trigger] v0[i].0),
            at_name ==> j < n && v0[j as int].0 == name@,
            before_name ==> j < n && v0[j as int].0 != name@ && seq_lt(name@, v0[j as int].0),
        decreases n - j + if at_name || before_name {
            0int
        } else {
            1int
        },
    {
        if str_eq(vs[j].0.as_str(), name.as_str()) {
            at_name = true;
        } else if str_lt(name.as_str(), vs[j].0.as_str()) {
            before_name = true;
        } else {
            j = j + 1;
        }
    }
    proof {
        lemma_var_insert_skip(v0, j as int, name@, value@);
    }
    let ghost tail = v0.skip(j as int);
    if at_name {
        assert(tail[0].0 == name@);
        assert(tail.drop_first() =~= v0.skip(j + 1));
        vs.remove(j);
        vs.insert(j, (name, value));
        assert(variables_view(vs@) =~= v0.take(j as int) + (seq![(name@, value@)] + v0.skip(j + 1)));
    } else {
        if before_name {
            assert(seq_lt(name@, tail[0].0));
        } else {
            assert(tail =~= Seq::<(Seq<char>, Seq<char>)>::empty());
        }
        vs.insert(j, (name, value));
        assert(variables_view(vs@) =~= v0.take(j as int) + (seq![(name@, value@)] + tail));
    }
}

/// Takes the variables given for the option at position `k`, setting each
/// in turn.
pub fn take_variables_of_option(ev: Vec<(usize, OptionValue)>, k: usize) -> (r: Vec<(String, String)>)
    ensures
        variables_view(r@) == variables_of(events_view(ev@), k as int),
{
    let ghost all = ev@;
    let mut rest = ev;
    let n = rest.len();
    let mut r: Vec<(String, String)> = Vec::new();
    let mut i: usize = 0;
    assert(variables_view(r@) =~= Seq::<(Seq<char>, Seq<char>)>::empty());
    while i < n
        invariant
            n == all.len(),
            i <= n,
            rest@ == all.subrange(i as int, n as int),
            variables_view(r@) == variables_of(events_view(all.take(i as int)), k as int),
        decreases n - i,
    {
        assert(events_view(all.take(i + 1)).drop_last() =~= events_view(all.take(i as int)));
        let (j, v) = rest.remove(0);
        assert((j, v) == all[i as int]);
        match v {
            OptionValue::Variable(name, text) => {
                if j == k {
                    set_variable(&mut r, name, text);
                }
            },
            _ => {},
        }
        i = i + 1;
    }
    assert(all.take(n as int) =~= all);
    r
}

/// The last text given for the option at position `k`, or `d`.
pub open spec fn text_or(ev: Seq<(int, ValueView)>, k: int, d: Seq<char>) -> Seq<char> {
    match last_value(ev, k) {
        Some(ValueView::Text(t)) => t,
        _ => d,
    }
}

/// The last text given for the option at position `k`, if any.
pub open spec fn opt_text(ev: Seq<(int, ValueView)>, k: int) -> Option<Seq<char>> {
    match last_value(ev, k) {
        Some(ValueView::Text(t)) => Some(t),
        _ => None,
    }
}

/// Returns the last text given for the option at position `k`, or `d`.
pub fn text_or_default(ev: &Vec<(usize, OptionValue)>, k: usize, d: &str) -> (r: String)
    ensures
        r@ == text_or(events_view(ev@), k as int, d@),
{
    match last_value_of(ev, k) {
        Some(OptionValue::Text(t)) => copy_string(t),
        _ => owned(d),
    }
}

/// Returns the last text given for the option at position `k`, if any.
pub fn opt_text_of(ev: &Vec<(usize, OptionValue)>, k: usize) -> (r: Option<String>)
    ensures
        opt_string_view(r) == opt_text(events_view(ev@), k as int),
{
    match last_value_of(ev, k) {
        Some(OptionValue::Text(t)) => Some(copy_string(t)),
        _ => None,
    }
}

/// The last `i32` given for the option at position `k`, if any.
pub open spec fn opt_i32(ev: Seq<(int, ValueView)>, k: int) -> Option<i32> {
    match last_value(ev, k) {
        Some(ValueView::I32(n)) => Some(n),
        _ => None,
    }
}

/// Returns the last `i32` given for the option at position `k`, if any.
pub fn opt_i32_of(ev: &Vec<(usize, OptionValue)>, k: usize) -> (r: Option<i32>)
    ensures
        r == opt_i32(events_view(ev@), k as int),
{
    match last_value_of(ev, k) {
        Some(OptionValue::I32(n)) => Some(*n),
        _ => None,
    }
}

/// The last `i64` given for the option at position `k`, if any.
pub open spec fn opt_i64(ev: Seq<(int, ValueView)>, k: int) -> Option<i64> {
    match last_value(ev, k) {
        Some(ValueView::I64(n)) => Some(n),
        _ => None,
    }
}

/// Returns the last `i64` given for the option at position `k`, if any.
pub fn opt_i64_of(ev: &Vec<(usize, OptionValue)>, k: usize) -> (r: Option<i64>)
    ensures
        r == opt_i64(events_view(ev@), k as int),
{
    match last_value_of(ev, k) {
        Some(OptionValue::I64(n)) => Some(*n),
        _ => None,
    }
}

/// The last `u32` given for the option at position `k`, if any.
pub open spec fn opt_u32(ev: Seq<(int, ValueView)>, k: int) -> Option<u32> {
    match last_value(ev, k) {
        Some(ValueView::U32(n)) => Some(n),
        _ => None,
    }
}

/// Returns the last `u32` given for the option at position `k`, if any.
pub fn opt_u32_of(ev: &Vec<(usize, OptionValue)>, k: usize) -> (r: Option<u32>)
    ensures
        r == opt_u32(events_view(ev@), k as int),
{
    match last_value_of(ev, k) {
        Some(OptionValue::U32(n)) => Some(*n),
        _ => None,
    }
}


/// Whether the names of the variables strictly increase: each name occurs
/// once, in order.
pub open spec fn names_increasing(vs: Seq<(Seq<char>, Seq<char>)>) -> bool {
    forall|i: int, j: int|
        #![trigger vs[i], vs[j]]
        0 <= i < j < vs.len() ==> seq_lt(vs[i].0, vs[j].0)
}

/// Setting a variable keeps every name above a bound that the name and the
/// names before were above.
proof fn lemma_var_insert_above(
    vs: Seq<(Seq<char>, Seq<char>)>,
    name: Seq<char>,
    value: Seq<char>,
    b: Seq<char>,
)
    requires
        seq_lt(b, name),
        forall|j: int| 0 <= j < vs.len() ==> seq_lt(b, #[trigger] vs[j].0),
    ensures
        forall|k: int|
            0 <= k < var_insert(vs, name, value).len() ==> seq_lt(
                b,
                #[trigger] var_insert(vs, name, value)[k].0,
            ),
    decreases vs.len(),
{
    if vs.len() > 0 && vs[0].0 != name && !seq_lt(name, vs[0].0) {
        lemma_var_insert_above(vs.drop_first(), name, value, b);
        let r = var_insert(vs, name, value);
        let t = var_insert(vs.drop_first(), name, value);
        assert(r == seq![vs[0]] + t);
        assert forall|k: int| 0 <= k < r.len() implies seq_lt(b, #[trigger] r[k].0) by {
            if k > 0 {
                assert(r[k] == t[k - 1]);
            }
        }
    }
}

/// Setting a variable in variables listed by increasing name keeps them so.
pub proof fn lemma_var_insert_keeps_order(
    vs: Seq<(Seq<char>, Seq<char>)>,
    name: Seq<char>,
    value: Seq<char>,
)
    requires
        names_increasing(vs),
    ensures
        names_increasing(var_insert(vs, name, value)),
    decreases vs.len(),
{
    let r = var_insert(vs, name, value);
    if vs.len() == 0 {
    } else if vs[0].0 == name {
        assert forall|i: int, j: int| #![trigger r[i], r[j]] 0 <= i < j < r.len() implies seq_lt(
            r[i].0,
            r[j].0,
        ) by {
            assert(r[j] == vs[j]);
            if i > 0 {
                assert(r[i] == vs[i]);
            } else {
                assert(seq_lt(vs[0].0, vs[j].0));
            }
        }
    } else if seq_lt(name, vs[0].0) {
        assert forall|i: int, j: int| #![trigger r[i], r[j]] 0 <= i < j < r.len() implies seq_lt(
            r[i].0,
            r[j].0,
        ) by {
            assert(r[j] == vs[j - 1]);
            if i > 0 {
                assert(r[i] == vs[i - 1]);
            } else if j > 1 {
                assert(seq_lt(vs[0].0, vs[j - 1].0));
                lemma_seq_lt_transitive(name, vs[0].0, vs[j - 1].0);
            }
        }
    } else {
        lemma_seq_lt_total(name, vs[0].0);
        let rest = vs.drop_first();
        assert(names_increasing(rest)) by {
            assert forall|i: int, j: int|
                #![trigger rest[i], rest[j]]
                0 <= i < j < rest.len() implies seq_lt(rest[i].0, rest[j].0) by {
                assert(rest[i] == vs[i + 1] && rest[j] == vs[j + 1]);
            }
        }
        lemma_var_insert_keeps_order(rest, name, value);
        assert forall|j: int| 0 <= j < rest.len() implies seq_lt(vs[0].0, #[trigger] rest[j].0) by {
            assert(rest[j] == vs[j + 1]);
        }
        lemma_var_insert_above(rest, name, value, vs[0].0);
        let t = var_insert(rest, name, value);
        assert(r == seq![vs[0]] + t);
        assert forall|i: int, j: int| #![trigger r[i], r[j]] 0 <= i < j < r.len() implies seq_lt(
            r[i].0,
            r[j].0,
        ) by {
            assert(r[j] == t[j - 1]);
            if i > 0 {
                assert(r[i] == t[i - 1]);
            }
        }
    }
}

/// The variables a command reads are listed by increasing name, each name
/// once, as in a map ordered by name.
pub proof fn lemma_variables_in_name_order(ev: Seq<(int, ValueView)>, k: int)
    ensures
        names_increasing(variables_of(ev, k)),
    decreases ev.len(),
{
    if ev.len() > 0 {
        lemma_variables_in_name_order(ev.drop_last(), k);
        match ev.last().1 {
            ValueView::Variable(n, t) => {
                if ev.last().0 == k {
                    lemma_var_insert_keeps_order(variables_of(ev.drop_last(), k), n, t);
                }
            },
            _ => {},
        }
    }
}


/// The value of the variable `n` among `vs`: that of the first of that name.
pub open spec fn var_lookup(vs: Seq<(Seq<char>, Seq<char>)>, n: Seq<char>) -> Option<Seq<char>>
    decreases vs.len(),
{
    if vs.len() == 0 {
        None
    } else if vs[0].0 == n {
        Some(vs[0].1)
    } else {
        var_lookup(vs.drop_first(), n)
    }
}

/// After a variable is set, it has the value it was set to, and every other
/// variable keeps its value.
pub proof fn lemma_var_insert_lookup(
    vs: Seq<(Seq<char>, Seq<char>)>,
    name: Seq<char>,
    value: Seq<char>,
    n: Seq<char>,
)
    ensures
        var_lookup(var_insert(vs, name, value), n) == if n == name {
            Some(value)
        } else {
            var_lookup(vs, n)
        },
    decreases vs.len(),
{
    let r = var_insert(vs, name, value);
    if vs.len() == 0 {
        assert(r.drop_first() =~= Seq::<(Seq<char>, Seq<char>)>::empty());
        assert(r[0] == (name, value));
        assert(var_lookup(r.drop_first(), n) is None);
        assert(var_lookup(vs, n) is None);
    } else if vs[0].0 == name {
        assert(r.drop_first() =~= vs.drop_first());
        assert(r[0] == (name, value));
    } else if seq_lt(name, vs[0].0) {
        assert(r.drop_first() =~= vs);
        assert(r[0] == (name, value));
    } else {
        lemma_var_insert_lookup(vs.drop_first(), name, value, n);
        assert(r.drop_first() =~= var_insert(vs.drop_first(), name, value));
        assert(r[0] == vs[0]);
    }
}

} // verus!
