//! In-memory mirror of the document directory: one optional content string
//! per document name, with read (default-seeding), write, and full reset.
//! Each operation's effect on the mirror is stated over a `Map` view; the
//! shell keeps the directory on disk in step with that view.

use vstd::prelude::*;

use crate::doc::{default_is_persisted, default_payload_spec, DocName};

verus! {

/// What the store holds: each present document's content, keyed by name.
pub type StoreView = Map<DocName, Seq<char>>;

/// The in-memory document store.
pub struct DocumentStore {
    profiles: Option<String>,
    activities: Option<String>,
    settings: Option<String>,
    todos: Option<String>,
}

/// Content returned by `read`: the stored content when the document is
/// present, its default payload otherwise.
pub open spec fn read_result(m: StoreView, n: DocName) -> Seq<char> {
    if m.dom().contains(n) {
        m[n]
    } else {
        default_payload_spec(n)
    }
}

/// Store state after `read`: unchanged when the document is present or when
/// its default is not persisted; otherwise the default is seeded.
pub open spec fn read_next(m: StoreView, n: DocName) -> StoreView {
    if m.dom().contains(n) || !default_is_persisted(n) {
        m
    } else {
        m.insert(n, default_payload_spec(n))
    }
}

impl DocumentStore {
    /// Content of each document, `None` where it was never written.
    pub closed spec fn doc_opt(self, n: DocName) -> Option<Seq<char>> {
        let field = match n {
            DocName::Profiles => self.profiles,
            DocName::Activities => self.activities,
            DocName::Settings => self.settings,
            DocName::Todos => self.todos,
        };
        match field {
            Some(s) => Some(s@),
            None => None,
        }
    }

    /// An empty store: no document present.
    pub fn new() -> (s: Self)
        ensures
            s@ == StoreView::empty(),
    {
        let s = DocumentStore { profiles: None, activities: None, settings: None, todos: None };
        proof {
            assert(s@ =~= StoreView::empty());
        }
        s
    }

    /// A store seeded with the documents found on disk, in name order.
    pub fn with_docs(
        profiles: Option<String>,
        activities: Option<String>,
        settings: Option<String>,
        todos: Option<String>,
    ) -> (s: Self)
        ensures
            s@.dom().contains(DocName::Profiles) == profiles is Some,
            s@.dom().contains(DocName::Activities) == activities is Some,
            s@.dom().contains(DocName::Settings) == settings is Some,
            s@.dom().contains(DocName::Todos) == todos is Some,
            profiles is Some ==> s@[DocName::Profiles] == profiles->0@,
            activities is Some ==> s@[DocName::Activities] == activities->0@,
            settings is Some ==> s@[DocName::Settings] == settings->0@,
            todos is Some ==> s@[DocName::Todos] == todos->0@,
    {
        DocumentStore { profiles, activities, settings, todos }
    }

    /// Whether the named document is present.
    pub fn contains(&self, n: DocName) -> (r: bool)
        ensures
            r == self@.dom().contains(n),
    {
        match n {
            DocName::Profiles => self.profiles.is_some(),
            DocName::Activities => self.activities.is_some(),
            DocName::Settings => self.settings.is_some(),
            DocName::Todos => self.todos.is_some(),
        }
    }

    /// The named document's content, `None` where it is absent.
    pub fn get(&self, n: DocName) -> (r: Option<&String>)
        ensures
            r is Some == self@.dom().contains(n),
            r is Some ==> r->0@ == self@[n],
    {
        match n {
            DocName::Profiles => self.profiles.as_ref(),
            DocName::Activities => self.activities.as_ref(),
            DocName::Settings => self.settings.as_ref(),
            DocName::Todos => self.todos.as_ref(),
        }
    }

    /// A copy of the named document's content; the document must be present.
    pub fn get_clone(&self, n: DocName) -> (r: String)
        requires
            self@.dom().contains(n),
        ensures
            r@ == self@[n],
    {
        match self.get(n) {
            Some(s) => s.clone(),
            None => String::new(),
        }
    }

    /// Stores `content` under `n`, replacing any previous content. This is
    /// the `write` operation: the given bytes are kept verbatim.
    pub fn write(&mut self, n: DocName, content: String)
        ensures
            final(self)@ == old(self)@.insert(n, content@),
    {
        let ghost prev = self@;
        match n {
            DocName::Profiles => self.profiles = Some(content),
            DocName::Activities => self.activities = Some(content),
            DocName::Settings => self.settings = Some(content),
            DocName::Todos => self.todos = Some(content),
        }
        proof {
            assert(self@ =~= prev.insert(n, self@[n]));
        }
    }

    /// Reads the named document. Returns its content when present; otherwise
    /// returns the default payload, seeding it into the store except for
    /// `activities`, whose default is never persisted by a read. The second
    /// component is true exactly when the default was seeded, so the shell
    /// knows a file must be written.
    pub fn read(&mut self, n: DocName) -> (r: (String, bool))
        ensures
            r.0@ == read_result(old(self)@, n),
            final(self)@ == read_next(old(self)@, n),
            r.1 == (!old(self)@.dom().contains(n) && default_is_persisted(n)),
    {
        if self.contains(n) {
            (self.get_clone(n), false)
        } else {
            let d = n.default_payload();
            match n {
                DocName::Activities => (d, false),
                _ => {
                    self.write(n, d.clone());
                    (d, true)
                },
            }
        }
    }

    /// Removes every present document. Absence is not an error: resetting an
    /// already-empty store succeeds and leaves it empty.
    pub fn reset_all(&mut self)
        ensures
            final(self)@ == StoreView::empty(),
    {
        self.profiles = None;
        self.activities = None;
        self.settings = None;
        self.todos = None;
        proof {
            assert(self@ =~= StoreView::empty());
        }
    }
}

impl View for DocumentStore {
    type V = StoreView;

    open spec fn view(&self) -> StoreView {
        Map::new(|n: DocName| self.doc_opt(n) is Some, |n: DocName| self.doc_opt(n)->0)
    }
}

} // verus!
