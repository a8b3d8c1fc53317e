use focus_store::doc::DocName;
use focus_store::store::DocumentStore;

#[test]
fn read_profiles_absent_returns_default_and_seeds_it() {
    let mut s = DocumentStore::new();
    let (content, seeded) = s.read(DocName::Profiles);
    let expected = DocName::Profiles.default_payload();
    assert_eq!(content, expected);
    assert!(seeded);
    assert_eq!(s.get(DocName::Profiles), Some(&expected));
}

#[test]
fn read_settings_absent_returns_default_and_seeds_it() {
    let mut s = DocumentStore::new();
    let (content, seeded) = s.read(DocName::Settings);
    let expected = DocName::Settings.default_payload();
    assert_eq!(content, expected);
    assert!(seeded);
    assert_eq!(s.get(DocName::Settings), Some(&expected));
}

#[test]
fn read_todos_absent_returns_default_and_seeds_it() {
    let mut s = DocumentStore::new();
    let (content, seeded) = s.read(DocName::Todos);
    assert_eq!(content, "{\"lists\": []}");
    assert!(seeded);
    assert_eq!(s.get(DocName::Todos).map(|c| c.as_str()), Some("{\"lists\": []}"));
}

#[test]
fn read_activities_absent_returns_empty_array_without_seeding() {
    let mut s = DocumentStore::new();
    let (content, seeded) = s.read(DocName::Activities);
    assert_eq!(content, "[]");
    assert!(!seeded);
    assert_eq!(s.get(DocName::Activities), None);
}

#[test]
fn write_then_read_is_byte_identical() {
    let mut s = DocumentStore::new();
    let payload = String::from("  { \"k\" :\t[1,2 ,3] }\n// not normalized\r\n");
    s.write(DocName::Activities, payload.clone());
    let (content, seeded) = s.read(DocName::Activities);
    assert_eq!(content, payload);
    assert!(!seeded);
}

#[test]
fn write_overwrites_previous_content() {
    let mut s = DocumentStore::new();
    s.write(DocName::Profiles, String::from("first"));
    s.write(DocName::Profiles, String::from("second"));
    let (content, _) = s.read(DocName::Profiles);
    assert_eq!(content, "second");
}

#[test]
fn with_docs_seeds_exactly_the_given_documents() {
    let s = DocumentStore::with_docs(
        Some(String::from("p")),
        None,
        Some(String::from("s")),
        None,
    );
    assert_eq!(s.get(DocName::Profiles).map(|c| c.as_str()), Some("p"));
    assert_eq!(s.get(DocName::Activities), None);
    assert_eq!(s.get(DocName::Settings).map(|c| c.as_str()), Some("s"));
    assert_eq!(s.get(DocName::Todos), None);
    assert!(s.contains(DocName::Profiles));
    assert!(!s.contains(DocName::Todos));
}

#[test]
fn reset_all_removes_all_four_and_is_safe_to_repeat() {
    let mut s = DocumentStore::with_docs(
        Some(String::from("p")),
        Some(String::from("a")),
        Some(String::from("se")),
        Some(String::from("t")),
    );
    s.reset_all();
    assert_eq!(s.get(DocName::Profiles), None);
    assert_eq!(s.get(DocName::Activities), None);
    assert_eq!(s.get(DocName::Settings), None);
    assert_eq!(s.get(DocName::Todos), None);
    s.reset_all();
    assert_eq!(s.get(DocName::Profiles), None);
    assert_eq!(s.get(DocName::Activities), None);
    assert_eq!(s.get(DocName::Settings), None);
    assert_eq!(s.get(DocName::Todos), None);
}

#[test]
fn file_names_follow_the_document_names() {
    assert_eq!(DocName::Profiles.file_name(), "profiles.json");
    assert_eq!(DocName::Activities.file_name(), "activities.json");
    assert_eq!(DocName::Settings.file_name(), "settings.json");
    assert_eq!(DocName::Todos.file_name(), "todos.json");
}

#[test]
fn parse_accepts_the_four_names_and_nothing_else() {
    assert_eq!(DocName::parse("profiles"), Some(DocName::Profiles));
    assert_eq!(DocName::parse("activities"), Some(DocName::Activities));
    assert_eq!(DocName::parse("settings"), Some(DocName::Settings));
    assert_eq!(DocName::parse("todos"), Some(DocName::Todos));
    assert_eq!(DocName::parse("Profiles"), None);
    assert_eq!(DocName::parse("profiles.json"), None);
    assert_eq!(DocName::parse(""), None);
}
