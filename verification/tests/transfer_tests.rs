use focus_store::doc::DocName;
use focus_store::error::StoreError;
use focus_store::store::DocumentStore;
use focus_store::transfer::{export, import};

#[test]
fn import_rejects_invalid_json_and_keeps_target() {
    let mut s = DocumentStore::new();
    s.write(DocName::Settings, String::from("{\"keep\":true}"));
    let r = import(&mut s, "settings", Some(String::from("not json")));
    assert_eq!(r, Err(StoreError::Validation));
    let (content, _) = s.read(DocName::Settings);
    assert_eq!(content, "{\"keep\":true}");
}

#[test]
fn import_accepts_valid_json_and_read_returns_it_verbatim() {
    let mut s = DocumentStore::new();
    let r = import(&mut s, "profiles", Some(String::from("{\"a\":1}")));
    assert_eq!(r, Ok(()));
    let (content, _) = s.read(DocName::Profiles);
    assert_eq!(content, "{\"a\":1}");
}

#[test]
fn import_preserves_byte_layout_of_the_source() {
    let mut s = DocumentStore::new();
    let raw = String::from("{ \"b\" :  [1, 2,\n   3] }");
    let r = import(&mut s, "todos", Some(raw.clone()));
    assert_eq!(r, Ok(()));
    let (content, _) = s.read(DocName::Todos);
    assert_eq!(content, raw);
}

#[test]
fn import_unknown_type_is_rejected_before_anything_else() {
    let mut s = DocumentStore::new();
    let r = import(&mut s, "notes", Some(String::from("{}")));
    assert_eq!(r, Err(StoreError::UnknownType));
    assert_eq!(s.get(DocName::Profiles), None);
}

#[test]
fn import_missing_source_is_not_found() {
    let mut s = DocumentStore::new();
    let r = import(&mut s, "activities", None);
    assert_eq!(r, Err(StoreError::NotFound));
    assert_eq!(s.get(DocName::Activities), None);
}

#[test]
fn export_of_absent_document_is_not_found_and_yields_no_content() {
    let s = DocumentStore::new();
    let r = export(&s, "profiles");
    assert_eq!(r, Err(StoreError::NotFound));
}

#[test]
fn export_of_unknown_type_is_rejected() {
    let s = DocumentStore::new();
    let r = export(&s, "bogus");
    assert_eq!(r, Err(StoreError::UnknownType));
}

#[test]
fn export_hands_out_the_document_verbatim() {
    let mut s = DocumentStore::new();
    s.write(DocName::Activities, String::from("[ 1,2,  3 ]"));
    let r = export(&s, "activities");
    assert_eq!(r, Ok(String::from("[ 1,2,  3 ]")));
}

#[test]
fn every_default_payload_is_valid_json() {
    for name in [DocName::Profiles, DocName::Activities, DocName::Settings, DocName::Todos] {
        let mut s = DocumentStore::new();
        let selector = match name {
            DocName::Profiles => "profiles",
            DocName::Activities => "activities",
            DocName::Settings => "settings",
            DocName::Todos => "todos",
        };
        let r = import(&mut s, selector, Some(name.default_payload()));
        assert_eq!(r, Ok(()), "default payload of {:?} must parse as JSON", name);
    }
}

#[test]
fn error_messages_are_descriptive() {
    assert_eq!(StoreError::UnknownType.message(), "invalid data type");
    assert_eq!(StoreError::Validation.message(), "invalid JSON format");
    assert_eq!(
        StoreError::NotFound.message(),
        "referenced document or source file not found"
    );
    assert_eq!(StoreError::Io.message(), "filesystem operation failed");
    assert_eq!(StoreError::Window.message(), "main window handle unavailable");
}
