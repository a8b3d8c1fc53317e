//! Verified core of a local JSON document store for a desktop productivity
//! application: four named documents with default seeding, validated
//! import/export, timestamped backup plans, full reset, and the tray/window
//! event controller that mediates between tray events and the main window.
//!
//! All state-changing logic is modelled over an in-memory mirror of the
//! document directory; the shell applies the resulting effects to disk.

pub mod backup;
pub mod clock;
pub mod doc;
pub mod error;
pub mod laws;
pub mod store;
pub mod timefmt;
pub mod transfer;
pub mod tray;
pub mod window;

pub use doc::DocName;
pub use error::StoreError;
pub use store::DocumentStore;
