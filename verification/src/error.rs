//! Error taxonomy of the store and its batch operations. Filesystem failures
//! (`Io`) arise only in the shell that touches the disk; the verified core
//! produces the other variants.

use vstd::prelude::*;

verus! {

/// Why a store or transfer operation was refused.
#[derive(Clone, Copy, Debug, PartialEq, Eq, Structural)]
pub enum StoreError {
    /// A filesystem create/read/write/copy/remove failed (shell-side only).
    Io,
    /// A referenced document or source file is absent where it must exist.
    NotFound,
    /// A transfer type selector outside the four known document names.
    UnknownType,
    /// An import source whose content is not syntactically valid JSON.
    Validation,
    /// The main window handle is unavailable for an operation that needs it.
    Window,
}

/// Descriptive message of each error variant.
pub open spec fn message_spec(e: StoreError) -> Seq<char> {
    match e {
        StoreError::Io => "filesystem operation failed"@,
        StoreError::NotFound => "referenced document or source file not found"@,
        StoreError::UnknownType => "invalid data type"@,
        StoreError::Validation => "invalid JSON format"@,
        StoreError::Window => "main window handle unavailable"@,
    }
}

impl StoreError {
    /// The caller-facing message for this error.
    pub fn message(self) -> (s: String)
        ensures
            s@ == message_spec(self),
    {
        match self {
            StoreError::Io => String::from_str("filesystem operation failed"),
            StoreError::NotFound => String::from_str("referenced document or source file not found"),
            StoreError::UnknownType => String::from_str("invalid data type"),
            StoreError::Validation => String::from_str("invalid JSON format"),
            StoreError::Window => String::from_str("main window handle unavailable"),
        }
    }
}

} // verus!
