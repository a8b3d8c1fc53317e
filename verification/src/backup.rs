//! Timestamped backup plans: the folder name `<base>_<YYYYMMDD_HHMMSS>` and
//! the verbatim copies of every document present at capture time, in name
//! order. All four document names take part, `todos` included. A document
//! that is absent is skipped, not an error. The shell creates the folder and
//! writes each copy; a failure partway leaves the copies already written
//! (backups are supplementary, not transactional).

use vstd::prelude::*;

use crate::clock::{now_local, LocalTime};
use crate::doc::{file_name_spec, DocName};
use crate::store::DocumentStore;
use crate::timefmt::{timestamp_seq, timestamp_string};

verus! {

/// One file of a backup: its name within the backup folder and its content.
pub struct BackupEntry {
    pub file_name: String,
    pub content: String,
}

/// A computed backup: the folder name (relative to the backups directory)
/// and the files to write into it.
pub struct BackupPlan {
    pub folder_name: String,
    pub entries: Vec<BackupEntry>,
}

impl BackupEntry {
    /// The entry as the pair of its file name and content.
    pub open spec fn view(self) -> (Seq<char>, Seq<char>) {
        (self.file_name@, self.content@)
    }
}

/// The single entry for document `n`, or nothing where it is absent.
pub open spec fn opt_entry(m: Map<DocName, Seq<char>>, n: DocName) -> Seq<(Seq<char>, Seq<char>)> {
    if m.dom().contains(n) {
        seq![(file_name_spec(n), m[n])]
    } else {
        Seq::empty()
    }
}

/// The files a backup of store state `m` holds: exactly the documents present
/// in `m`, verbatim, in the fixed name order.
pub open spec fn backup_entries_spec(m: Map<DocName, Seq<char>>) -> Seq<(Seq<char>, Seq<char>)> {
    opt_entry(m, DocName::Profiles) + opt_entry(m, DocName::Activities) + opt_entry(
        m,
        DocName::Settings,
    ) + opt_entry(m, DocName::Todos)
}

/// The folder name a backup taken at `t` under `base` carries.
pub open spec fn backup_folder_spec(base: Seq<char>, t: LocalTime) -> Seq<char> {
    base + seq!['_'] + timestamp_seq(t)
}

/// Computes the backup of the store's current documents as of local time `t`:
/// folder name `<base_name>_<YYYYMMDD_HHMMSS>`, and one verbatim copy of each
/// document that exists, in name order; absent documents are skipped.
pub fn plan_backup(store: &DocumentStore, base_name: &str, t: &LocalTime) -> (p: BackupPlan)
    requires
        t.wf(),
    ensures
        p.folder_name@ == backup_folder_spec(base_name@, *t),
        p.entries@.map_values(|e: BackupEntry| e@) == backup_entries_spec(store@),
{
    let mut folder = base_name.to_owned();
    proof {
        reveal_strlit("_");
        assert("_"@ =~= seq!['_']);
    }
    folder.append("_");
    let stamp = timestamp_string(t);
    folder.append(stamp.as_str());

    let mut entries: Vec<BackupEntry> = Vec::new();
    if store.contains(DocName::Profiles) {
        entries.push(
            BackupEntry {
                file_name: DocName::Profiles.file_name(),
                content: store.get_clone(DocName::Profiles),
            },
        );
    }
    if store.contains(DocName::Activities) {
        entries.push(
            BackupEntry {
                file_name: DocName::Activities.file_name(),
                content: store.get_clone(DocName::Activities),
            },
        );
    }
    if store.contains(DocName::Settings) {
        entries.push(
            BackupEntry {
                file_name: DocName::Settings.file_name(),
                content: store.get_clone(DocName::Settings),
            },
        );
    }
    if store.contains(DocName::Todos) {
        entries.push(
            BackupEntry {
                file_name: DocName::Todos.file_name(),
                content: store.get_clone(DocName::Todos),
            },
        );
    }
    proof {
        assert(entries@.map_values(|e: BackupEntry| e@) =~= backup_entries_spec(store@));
    }
    BackupPlan { folder_name: folder, entries }
}

/// Computes a backup of the store as of the current local wall-clock time.
/// The folder name is `<base_name>_` followed by some well-formed timestamp
/// (which reading the clock chose); the entries are exactly the documents
/// present, verbatim, in name order.
pub fn plan_backup_now(store: &DocumentStore, base_name: &str) -> (p: BackupPlan)
    ensures
        exists|t: LocalTime|
            t.wf() && p.folder_name@ == backup_folder_spec(base_name@, t),
        p.entries@.map_values(|e: BackupEntry| e@) == backup_entries_spec(store@),
{
    let t = now_local();
    let p = plan_backup(store, base_name, &t);
    proof {
        assert(t.wf() && p.folder_name@ == backup_folder_spec(base_name@, t));
    }
    p
}

} // verus!
