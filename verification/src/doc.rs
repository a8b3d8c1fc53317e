//! The fixed set of document names, their file names, and their default
//! payloads. This four-way default table is the store's only built-in domain
//! knowledge; `activities` is the one name whose default is not persisted on
//! first read.

use vstd::prelude::*;

verus! {

/// The four documents the store manages.
#[derive(Clone, Copy, Debug, PartialEq, Eq, Structural)]
pub enum DocName {
    Profiles,
    Activities,
    Settings,
    Todos,
}

/// File name (within the data directory) of each document.
pub open spec fn file_name_spec(n: DocName) -> Seq<char> {
    match n {
        DocName::Profiles => "profiles.json"@,
        DocName::Activities => "activities.json"@,
        DocName::Settings => "settings.json"@,
        DocName::Todos => "todos.json"@,
    }
}

/// Default payload returned (and, except for `activities`, persisted) when a
/// document is read before it was ever written.
pub open spec fn default_payload_spec(n: DocName) -> Seq<char> {
    match n {
        DocName::Profiles => "[{\"id\":\"default\",\"name\":\"Default\",\"focusMinutes\":25,\"breakMinutes\":5}]"@,
        DocName::Activities => "[]"@,
        DocName::Settings => "{\"theme\":\"light\",\"notifications\":true,\"alwaysOnTop\":false}"@,
        DocName::Todos => "{\"lists\": []}"@,
    }
}

/// True for the names whose default is written to disk on first read;
/// `activities` alone returns its default without persisting it.
pub open spec fn default_is_persisted(n: DocName) -> bool {
    n != DocName::Activities
}

/// The type selector accepted by export/import, mapped to a document name.
pub open spec fn parse_doc_name_spec(s: Seq<char>) -> Option<DocName> {
    if s == "profiles"@ {
        Some(DocName::Profiles)
    } else if s == "activities"@ {
        Some(DocName::Activities)
    } else if s == "settings"@ {
        Some(DocName::Settings)
    } else if s == "todos"@ {
        Some(DocName::Todos)
    } else {
        None
    }
}

/// String equality by view, via owned copies.
fn str_eq(a: &str, b: &str) -> (r: bool)
    ensures
        r == (a@ == b@),
{
    let sa: String = a.to_owned();
    let sb: String = b.to_owned();
    sa == sb
}

impl DocName {
    /// File name of this document within the data directory.
    pub fn file_name(self) -> (s: String)
        ensures
            s@ == file_name_spec(self),
    {
        match self {
            DocName::Profiles => String::from_str("profiles.json"),
            DocName::Activities => String::from_str("activities.json"),
            DocName::Settings => String::from_str("settings.json"),
            DocName::Todos => String::from_str("todos.json"),
        }
    }

    /// Default payload of this document.
    pub fn default_payload(self) -> (s: String)
        ensures
            s@ == default_payload_spec(self),
    {
        match self {
            DocName::Profiles => String::from_str("[{\"id\":\"default\",\"name\":\"Default\",\"focusMinutes\":25,\"breakMinutes\":5}]"),
            DocName::Activities => String::from_str("[]"),
            DocName::Settings => String::from_str("{\"theme\":\"light\",\"notifications\":true,\"alwaysOnTop\":false}"),
            DocName::Todos => String::from_str("{\"lists\": []}"),
        }
    }

    /// Maps the export/import type selector to a document name; `None` for a
    /// selector outside the four known names.
    pub fn parse(s: &str) -> (r: Option<DocName>)
        ensures
            r == parse_doc_name_spec(s@),
    {
        if str_eq(s, "profiles") {
            Some(DocName::Profiles)
        } else if str_eq(s, "activities") {
            Some(DocName::Activities)
        } else if str_eq(s, "settings") {
            Some(DocName::Settings)
        } else if str_eq(s, "todos") {
            Some(DocName::Todos)
        } else {
            None
        }
    }
}

} // verus!
