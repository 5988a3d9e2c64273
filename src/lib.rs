//! Local mirror of a versioned remote game catalog.
//!
//! - `json`: the untyped catalog document as plain values.
//! - `schema`: checked construction of catalog entries from that document.
//! - `games`: the entry model (links, archive, game) and its views.
//! - `reconcile`: revision-based reconciliation of one entry.
//! - `catalog`: the shared catalog keyed by id, its listing and lookups.
//! - `bootstrap`: startup merging of the remote catalog with local fallback.
//! - `download`: the download session state machine and progress figures.
//! - `guard`: at most one running download per game.
//! - `tray`: decisions of the tray menu.
//! - `errors`, `text`: error kinds with their messages, and text helpers.
//! - `laws`: properties across calls, proved over the models.

pub mod bootstrap;
pub mod catalog;
pub mod download;
pub mod errors;
pub mod games;
pub mod guard;
pub mod json;
pub mod laws;
pub mod reconcile;
pub mod schema;
pub mod text;
pub mod tray;

pub use errors::Verror;
pub use text::{generate_download_complete_message, greet, retain_alphanumeric};
