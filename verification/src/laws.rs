//! The store's laws, stated over the spec-level transitions that the
//! executable operations are proved against: default seeding on first read,
//! the non-persisted `activities` default, write/read and import/read round
//! trips, rejected imports leaving the store untouched, exports of absent
//! documents failing, and backups of a lone document holding exactly it.

use vstd::prelude::*;

use crate::backup::{backup_entries_spec, opt_entry};
use crate::doc::{default_is_persisted, default_payload_spec, file_name_spec, parse_doc_name_spec, DocName};
use crate::error::StoreError;
use crate::store::{read_next, read_result, StoreView};
use crate::transfer::{export_result, import_next, import_result, is_json_text};

verus! {

/// Reading a document with a persisted default when it is absent returns
/// exactly that default and leaves the document present with that content.
pub proof fn lemma_read_absent_seeds_default(m: StoreView, n: DocName)
    requires
        !m.dom().contains(n),
        default_is_persisted(n),
    ensures
        read_result(m, n) == default_payload_spec(n),
        read_next(m, n).dom().contains(n),
        read_next(m, n)[n] == default_payload_spec(n),
{
}

/// Reading `activities` when it is absent returns the empty array and leaves
/// the store — hence the disk — without that document.
pub proof fn lemma_read_absent_activities(m: StoreView)
    requires
        !m.dom().contains(DocName::Activities),
    ensures
        read_result(m, DocName::Activities) == "[]"@,
        read_next(m, DocName::Activities) == m,
{
}

/// Round trip: writing any content, then reading the same document, returns
/// exactly that content and changes nothing further.
pub proof fn lemma_write_read_roundtrip(m: StoreView, n: DocName, x: Seq<char>)
    ensures
        read_result(m.insert(n, x), n) == x,
        read_next(m.insert(n, x), n) == m.insert(n, x),
{
}

/// An import whose source is not valid JSON fails with a validation error and
/// leaves every document — the target included — unchanged.
pub proof fn lemma_import_invalid_unchanged(m: StoreView, selector: Seq<char>, c: Seq<char>)
    requires
        parse_doc_name_spec(selector) is Some,
        !is_json_text(c),
    ensures
        import_result(selector, Some(c)) == Err::<(), StoreError>(StoreError::Validation),
        import_next(m, selector, Some(c)) == m,
{
}

/// A valid import succeeds, and a subsequent read of the imported document
/// returns exactly the source's raw text.
pub proof fn lemma_import_valid_then_read(m: StoreView, selector: Seq<char>, c: Seq<char>)
    requires
        parse_doc_name_spec(selector) is Some,
        is_json_text(c),
    ensures
        import_result(selector, Some(c)) == Ok::<(), StoreError>(()),
        read_result(import_next(m, selector, Some(c)), parse_doc_name_spec(selector)->0) == c,
{
}

/// Exporting a known document type that does not exist fails with a not-found
/// error, so no content is handed out and no destination file is created.
pub proof fn lemma_export_absent_fails(m: StoreView, selector: Seq<char>)
    requires
        parse_doc_name_spec(selector) is Some,
        !m.dom().contains(parse_doc_name_spec(selector)->0),
    ensures
        export_result(m, selector) == Err::<Seq<char>, StoreError>(StoreError::NotFound),
{
}

/// A backup taken when only `profiles` exists holds exactly one file: a
/// verbatim copy of `profiles.json`, and no entries for the other names.
pub proof fn lemma_backup_only_profiles(m: StoreView)
    requires
        m.dom() =~= set![DocName::Profiles],
    ensures
        backup_entries_spec(m) == seq![(file_name_spec(DocName::Profiles), m[DocName::Profiles])],
{
    assert(opt_entry(m, DocName::Profiles) == seq![
        (file_name_spec(DocName::Profiles), m[DocName::Profiles]),
    ]);
    assert(!m.dom().contains(DocName::Activities));
    assert(!m.dom().contains(DocName::Settings));
    assert(!m.dom().contains(DocName::Todos));
    assert(backup_entries_spec(m) =~= seq![
        (file_name_spec(DocName::Profiles), m[DocName::Profiles]),
    ]);
}

} // verus!
