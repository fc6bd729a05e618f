//! Open documents: reading document descriptors, and choosing the board or
//! project the client works on.

use vstd::prelude::*;
use crate::error::KiCadError;
use crate::model::common::{document_type_from_code, DocumentSpecifier, DocumentType, ProjectInfo};
use crate::order::{holds_string, insert_sorted, strictly_sorted};
use crate::proto;
use crate::text::{
    chars_of, copy_string, non_empty, non_empty_string, opt_string_view, owned,
    str_eq, string_from_chars, trim_chars, trim_seq,
};

verus! {

// ---------------------------------------------------------------------------
// Document descriptors.
// ---------------------------------------------------------------------------
/// The board filename a document descriptor names, if any.
pub open spec fn board_filename_of(source: proto::DocumentSpecifier) -> Option<Seq<char>> {
    match source.identifier {
        Some(proto::DocumentIdentifier::BoardFilename(f)) => Some(f@),
        _ => None,
    }
}

/// Whether `d` is the model of the document descriptor `source`: its type,
/// board filename, and project name and path, empty texts read as none.
pub open spec fn document_model_of(source: proto::DocumentSpecifier, d: DocumentSpecifier) -> bool {
    &&& Some(d.document_type) == document_type_from_code(source.doc_type)
    &&& opt_string_view(d.board_filename) == board_filename_of(source)
    &&& opt_string_view(d.project.name) == match source.project {
        Some(p) => non_empty(p.name@),
        None => None,
    }
    &&& opt_string_view(d.project.path) == match source.project {
        Some(p) => non_empty(p.path@),
        None => None,
    }
}

/// Each field of the document read from the API comes from the field of the same
/// role: the relation holds field by field.
pub proof fn lemma_document_read_fields(source: proto::DocumentSpecifier, d: DocumentSpecifier)
    requires
        document_model_of(source, d),
    ensures
        (Some(d.document_type) == document_type_from_code(source.doc_type)),
        (opt_string_view(d.board_filename) == board_filename_of(source)),
        (opt_string_view(d.project.name) == match source.project {
            Some(p) => non_empty(p.name@),
            None => None,
        }),
        (opt_string_view(d.project.path) == match source.project {
            Some(p) => non_empty(p.path@),
            None => None,
        }),
{
}

/// Converts a document descriptor to the model; `None` for a document type
/// the model does not know.
pub fn map_document_specifier(source: proto::DocumentSpecifier) -> (r: Option<DocumentSpecifier>)
    ensures
        r is Some <==> document_type_from_code(source.doc_type) is Some,
        r matches Some(d) ==> document_model_of(source, d),
{
    let document_type = match DocumentType::from_proto(source.doc_type) {
        Some(t) => t,
        None => {
            return None;
        },
    };
    let board_filename = match &source.identifier {
        Some(proto::DocumentIdentifier::BoardFilename(filename)) => Some(copy_string(filename)),
        _ => None,
    };
    let (name, path) = match &source.project {
        Some(p) => (non_empty_string(&p.name), non_empty_string(&p.path)),
        None => (None, None),
    };
    Some(DocumentSpecifier { document_type, board_filename, project: ProjectInfo { name, path } })
}

// ---------------------------------------------------------------------------
// Choosing the board.
// ---------------------------------------------------------------------------
/// The name a board is listed under when several are open: its filename,
/// or `<unknown>`.
pub open spec fn board_label(d: DocumentSpecifier) -> Seq<char> {
    match d.board_filename {
        Some(f) => f@,
        None => "<unknown>"@,
    }
}

/// Picks the one open board document: fails when none is open, and when
/// several are, listing them.
pub fn select_single_board_document(docs: &[DocumentSpecifier]) -> (r: Result<
    &DocumentSpecifier,
    KiCadError,
>)
    ensures
        docs@.len() == 0 <==> r matches Err(KiCadError::BoardNotOpen),
        docs@.len() == 1 <==> r is Ok,
        r matches Ok(d) ==> *d == docs@[0],
        docs@.len() > 1 ==> (r matches Err(KiCadError::AmbiguousBoardSelection { boards })
            && boards@.len() == docs@.len() && forall|i: int|
            0 <= i < docs@.len() ==> #[trigger] boards@[i]@ == board_label(docs@[i])),
{
    let n = docs.len();
    if n == 0 {
        return Err(KiCadError::BoardNotOpen);
    }
    if n > 1 {
        let mut boards: Vec<String> = Vec::new();
        let mut i: usize = 0;
        while i < n
            invariant
                n == docs@.len(),
                i <= n,
                boards@.len() == i,
                forall|j: int| 0 <= j < i ==> #[trigger] boards@[j]@ == board_label(docs@[j]),
            decreases n - i,
        {
            let label = match &docs[i].board_filename {
                Some(f) => copy_string(f),
                None => owned("<unknown>"),
            };
            boards.push(label);
            i = i + 1;
        }
        return Err(KiCadError::AmbiguousBoardSelection { boards });
    }
    Ok(&docs[0])
}

// ---------------------------------------------------------------------------
// Choosing the project.
// ---------------------------------------------------------------------------
/// Whether one of `docs` belongs to a project at path `path`.
pub open spec fn has_project_path(docs: Seq<DocumentSpecifier>, path: Seq<char>) -> bool {
    exists|i: int|
        0 <= i < docs.len() && opt_string_view((#[trigger] docs[i]).project.path) == Some(path)
}

/// Whether `paths` lists, strictly in order, exactly the project paths of
/// `docs`.
pub open spec fn lists_project_paths(docs: Seq<DocumentSpecifier>, paths: Seq<String>) -> bool {
    &&& strictly_sorted(paths)
    &&& forall|p: Seq<char>| #[trigger] holds_string(paths, p) <==> has_project_path(docs, p)
}

/// Picks the one project path of the open documents: fails when no document
/// names a project path, and when they name several, listing them in order.
pub fn select_single_project_path(docs: &[DocumentSpecifier]) -> (r: Result<String, KiCadError>)
    ensures
        r matches Err(KiCadError::BoardNotOpen) <==> forall|p: Seq<char>| !has_project_path(docs@, p),
        r matches Ok(path) ==> forall|p: Seq<char>| has_project_path(docs@, p) <==> p == path@,
        r matches Err(KiCadError::AmbiguousProjectPath { paths }) ==> paths@.len() > 1
            && lists_project_paths(docs@, paths@),
        r matches Err(e) ==> e is BoardNotOpen || e is AmbiguousProjectPath,
        (exists|p: Seq<char>, q: Seq<char>|
            has_project_path(docs@, p) && has_project_path(docs@, q) && p != q) ==> r is Err,
{
    let n = docs.len();
    let mut paths: Vec<String> = Vec::new();
    let mut i: usize = 0;
    while i < n
        invariant
            n == docs@.len(),
            i <= n,
            lists_project_paths(docs@.take(i as int), paths@),
        decreases n - i,
    {
        let ghost before = paths@;
        match &docs[i].project.path {
            Some(path) => {
                insert_sorted(&mut paths, copy_string(path));
            },
            None => {},
        }
        assert forall|p: Seq<char>| #[trigger]
            holds_string(paths@, p) <==> has_project_path(docs@.take(i + 1), p) by {
            let cur = docs@.take(i + 1);
            let prev = docs@.take(i as int);
            if has_project_path(cur, p) {
                let w = choose|w: int|
                    0 <= w < cur.len() && opt_string_view((#[trigger] cur[w]).project.path) == Some(p);
                if w < i {
                    assert(prev[w] == cur[w]);
                    assert(has_project_path(prev, p));
                }
            }
            if has_project_path(prev, p) {
                let w = choose|w: int|
                    0 <= w < prev.len() && opt_string_view((#[trigger] prev[w]).project.path) == Some(p);
                assert(prev[w] == cur[w]);
            }
            if opt_string_view(docs@[i as int].project.path) == Some(p) {
                assert(cur[i as int] == docs@[i as int]);
            }
        }
        i = i + 1;
    }
    assert(docs@.take(n as int) =~= docs@);
    let count = paths.len();
    if count == 0 {
        assert forall|p: Seq<char>| !has_project_path(docs@, p) by {
            if has_project_path(docs@, p) {
                assert(holds_string(paths@, p));
            }
        }
        return Err(KiCadError::BoardNotOpen);
    }
    if count > 1 {
        proof {
            assert(holds_string(paths@, paths@[0]@));
            assert(holds_string(paths@, paths@[1]@));
            assert(has_project_path(docs@, paths@[0]@));
            assert(has_project_path(docs@, paths@[1]@));
        }
        return Err(KiCadError::AmbiguousProjectPath { paths });
    }
    let path = copy_string(&paths[0]);
    proof {
        assert(holds_string(paths@, paths@[0]@));
        assert forall|p: Seq<char>| has_project_path(docs@, p) <==> p == path@ by {
            if has_project_path(docs@, p) {
                assert(holds_string(paths@, p));
            }
        }
    }
    Ok(path)
}

/// Whether an error is KiCad's answer that it has no handler for a request
/// (`AS_UNHANDLED`), as older versions answer `GetOpenDocuments`.
pub open spec fn is_unhandled(err: KiCadError) -> bool {
    err matches KiCadError::ApiStatus { code, .. } && code@ == "AS_UNHANDLED"@
}

/// Tests whether an error is KiCad's `AS_UNHANDLED` status.
pub fn is_get_open_documents_unhandled(err: &KiCadError) -> (r: bool)
    ensures
        r == is_unhandled(*err),
{
    match err {
        KiCadError::ApiStatus { code, .. } => str_eq(code.as_str(), "AS_UNHANDLED"),
        _ => false,
    }
}

/// The project path an environment value names: the value trimmed of
/// whitespace, when that leaves something.
pub open spec fn project_path_from_value_spec(value: Option<Seq<char>>) -> Option<Seq<char>> {
    match value {
        Some(v) => non_empty(trim_seq(v)),
        None => None,
    }
}

/// Reads a project path from the value of the project environment variable
/// (`KIPRJMOD`), if it is set.
pub fn project_path_from_value(value: Option<&str>) -> (r: Option<String>)
    ensures
        opt_string_view(r) == project_path_from_value_spec(
            match value {
                Some(v) => Some(v@),
                None => None,
            },
        ),
{
    let value = match value {
        Some(v) => v,
        None => {
            return None;
        },
    };
    let chars = chars_of(value);
    let trimmed = trim_chars(chars.as_slice());
    if trimmed.len() == 0 {
        None
    } else {
        Some(string_from_chars(trimmed.as_slice()))
    }
}

/// Resolves the project path of the current session from the open
/// documents; when KiCad has no handler for listing them, from the project
/// environment variable's value `env_value`, failing with KiCad's error when
/// that names no path. Any other error is passed on.
pub fn resolve_current_project_path(
    docs_result: Result<Vec<DocumentSpecifier>, KiCadError>,
    env_value: Option<&str>,
) -> (r: Result<String, KiCadError>)
    ensures
        match docs_result {
            Ok(docs) => match r {
                Ok(path) => forall|p: Seq<char>| has_project_path(docs@, p) <==> p == path@,
                Err(KiCadError::BoardNotOpen) => forall|p: Seq<char>| !has_project_path(docs@, p),
                Err(KiCadError::AmbiguousProjectPath { paths }) => paths@.len() > 1
                    && lists_project_paths(docs@, paths@),
                Err(_) => false,
            },
            Err(err) => if is_unhandled(err) {
                match project_path_from_value_spec(
                    match env_value {
                        Some(v) => Some(v@),
                        None => None,
                    },
                ) {
                    Some(p) => r matches Ok(path) && path@ == p,
                    None => r == Err::<String, KiCadError>(err),
                }
            } else {
                r == Err::<String, KiCadError>(err)
            },
        },
{
    match docs_result {
        Ok(docs) => select_single_project_path(docs.as_slice()),
        Err(err) => {
            if is_get_open_documents_unhandled(&err) {
                match project_path_from_value(env_value) {
                    Some(path) => Ok(path),
                    None => Err(err),
                }
            } else {
                Err(err)
            }
        },
    }
}

} // verus!
