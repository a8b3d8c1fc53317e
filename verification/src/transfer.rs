//! Validated transfer of a single document between the store and an external
//! file: export (store to outside path) and import (outside path to store).
//! The shell reads and writes the external files; the core decides, and on
//! import admits only syntactically valid JSON, leaving the store untouched
//! otherwise.

use vstd::prelude::*;

use crate::doc::{parse_doc_name_spec, DocName};
use crate::error::StoreError;
use crate::store::DocumentStore;

verus! {

/// Whether a text is one syntactically valid JSON value (surrounding
/// whitespace allowed), as serde_json's grammar defines it.
pub uninterp spec fn is_json_text(s: Seq<char>) -> bool;

/// Relies on serde_json::from_str::<serde_json::Value>: it returns `Ok`
/// exactly when the input is one syntactically valid JSON value, a function
/// of the text alone.
#[verifier::external_body]
fn json_is_valid(s: &str) -> (r: bool)
    ensures
        r == is_json_text(s@),
{
    serde_json::from_str::<serde_json::Value>(s).is_ok()
}

/// Content to copy out for the named document type: the document's current
/// bytes, or the error export owes for that selector and store state.
pub open spec fn export_result(m: Map<DocName, Seq<char>>, selector: Seq<char>) -> Result<
    Seq<char>,
    StoreError,
> {
    match parse_doc_name_spec(selector) {
        None => Err(StoreError::UnknownType),
        Some(n) => if m.dom().contains(n) {
            Ok(m[n])
        } else {
            Err(StoreError::NotFound)
        },
    }
}

/// Resolves an export request: the selector must be one of the four known
/// names and the document must exist; the returned content is a verbatim copy
/// for the shell to write at the destination path. On any error no content is
/// handed out, so no destination file is created.
pub fn export(store: &DocumentStore, data_type: &str) -> (r: Result<String, StoreError>)
    ensures
        match r {
            Ok(content) => export_result(store@, data_type@) == Ok::<Seq<char>, StoreError>(
                content@,
            ),
            Err(e) => export_result(store@, data_type@) == Err::<Seq<char>, StoreError>(e),
        },
{
    match DocName::parse(data_type) {
        None => Err(StoreError::UnknownType),
        Some(n) => {
            if store.contains(n) {
                Ok(store.get_clone(n))
            } else {
                Err(StoreError::NotFound)
            }
        },
    }
}

/// Store state after an import of `source` (the source file's content, `None`
/// where the file is absent) under `selector`: the raw text replaces the
/// target document only when the selector is known, the source exists, and
/// its content is valid JSON; otherwise the store is unchanged.
pub open spec fn import_next(
    m: Map<DocName, Seq<char>>,
    selector: Seq<char>,
    source: Option<Seq<char>>,
) -> Map<DocName, Seq<char>> {
    match parse_doc_name_spec(selector) {
        Some(n) => match source {
            Some(c) => if is_json_text(c) {
                m.insert(n, c)
            } else {
                m
            },
            None => m,
        },
        None => m,
    }
}

/// Outcome an import owes: `UnknownType` for a selector outside the four
/// names, then `NotFound` for an absent source, then `Validation` for content
/// that is not valid JSON, in that order; success otherwise.
pub open spec fn import_result(selector: Seq<char>, source: Option<Seq<char>>) -> Result<
    (),
    StoreError,
> {
    match parse_doc_name_spec(selector) {
        None => Err(StoreError::UnknownType),
        Some(n) => match source {
            None => Err(StoreError::NotFound),
            Some(c) => if is_json_text(c) {
                Ok(())
            } else {
                Err(StoreError::Validation)
            },
        },
    }
}

/// Performs an import. `source` carries the source file's content, `None`
/// where the shell found no file at the source path. The content is validated
/// as JSON before it may overwrite the target document, and is stored as raw
/// text, byte layout preserved; on any error the store is left untouched.
pub fn import(store: &mut DocumentStore, data_type: &str, source: Option<String>) -> (r: Result<
    (),
    StoreError,
>)
    ensures
        r == import_result(
            data_type@,
            match source {
                Some(c) => Some(c@),
                None => None,
            },
        ),
        final(store)@ == import_next(
            old(store)@,
            data_type@,
            match source {
                Some(c) => Some(c@),
                None => None,
            },
        ),
{
    match DocName::parse(data_type) {
        None => Err(StoreError::UnknownType),
        Some(n) => match source {
            None => Err(StoreError::NotFound),
            Some(content) => {
                if json_is_valid(content.as_str()) {
                    store.write(n, content);
                    Ok(())
                } else {
                    Err(StoreError::Validation)
                }
            },
        },
    }
}

} // verus!
