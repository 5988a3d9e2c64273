//! The error kinds that requests report, each with a short message for display.

use vstd::prelude::*;
use crate::text::{decimal, decimal_text};

verus! {

/// A failure of one request, identifying the game or the phase that failed.
#[derive(Debug, Clone, PartialEq, Eq)]
pub enum Verror {
    /// A filesystem operation failed.
    IoError(String),
    /// An HTTP transfer failed: transport error, unsuccessful status, missing
    /// content length, or fewer bytes than announced.
    TransferError(String),
    /// The fetched archive could not be unpacked.
    ExtractionError(String),
    /// A catalog record or document does not follow the schema; the paths of
    /// the offending fields, in schema order.
    SchemaError(Vec<String>),
    /// The game id is unknown, or its archive is not on disk yet.
    NotFound(u8),
    /// A download of this game is already running.
    DownloadInProgress(u8),
    /// The game's process could not be started or waited for.
    LaunchFailed(u8, String),
    /// The persistent store could not be opened or written.
    StoreAccessError(String),
}

pub open spec fn strings_view(v: Seq<String>) -> Seq<Seq<char>> {
    v.map_values(|s: String| s@)
}

/// `parts` separated by `", "`.
pub open spec fn joined(parts: Seq<Seq<char>>) -> Seq<char>
    decreases parts.len(),
{
    if parts.len() == 0 {
        Seq::empty()
    } else if parts.len() == 1 {
        parts[0]
    } else {
        joined(parts.drop_last()) + ", "@ + parts.last()
    }
}

/// The display message of each error.
pub open spec fn message_of(e: Verror) -> Seq<char> {
    match e {
        Verror::IoError(m) => "I/O error: "@ + m@,
        Verror::TransferError(m) => "Transfer failed: "@ + m@,
        Verror::ExtractionError(m) => "Extraction failed: "@ + m@,
        Verror::SchemaError(f) => "Invalid catalog data in fields: "@ + joined(strings_view(f@)),
        Verror::NotFound(id) => "Game with id "@ + decimal(id as nat) + " not found"@,
        Verror::DownloadInProgress(id) => "A download of game "@ + decimal(id as nat)
            + " is already in progress"@,
        Verror::LaunchFailed(id, m) => "Failed to launch game "@ + decimal(id as nat) + ": "@ + m@,
        Verror::StoreAccessError(m) => "Store access failed: "@ + m@,
    }
}

/// Joins the strings with `", "` between them.
pub fn join_text(parts: &Vec<String>) -> (r: String)
    ensures
        r@ == joined(strings_view(parts@)),
{
    let mut out = String::new();
    let mut i: usize = 0;
    while i < parts.len()
        invariant
            i <= parts@.len(),
            out@ == joined(strings_view(parts@.subrange(0, i as int))),
        decreases parts@.len() - i,
    {
        let ghost before = strings_view(parts@.subrange(0, i as int));
        assert(strings_view(parts@.subrange(0, i + 1)).drop_last() =~= before);
        if i > 0 {
            out.append(", ");
        }
        out.append(parts[i].as_str());
        i = i + 1;
    }
    assert(parts@.subrange(0, parts@.len() as int) =~= parts@);
    out
}

impl Verror {
    /// A short human-readable message for display.
    pub fn message(&self) -> (r: String)
        ensures
            r@ == message_of(*self),
    {
        match self {
            Verror::IoError(m) => {
                let mut s = String::from_str("I/O error: ");
                s.append(m.as_str());
                s
            },
            Verror::TransferError(m) => {
                let mut s = String::from_str("Transfer failed: ");
                s.append(m.as_str());
                s
            },
            Verror::ExtractionError(m) => {
                let mut s = String::from_str("Extraction failed: ");
                s.append(m.as_str());
                s
            },
            Verror::SchemaError(f) => {
                let mut s = String::from_str("Invalid catalog data in fields: ");
                let j = join_text(f);
                s.append(j.as_str());
                s
            },
            Verror::NotFound(id) => {
                let mut s = String::from_str("Game with id ");
                let d = decimal_text(*id as u128);
                s.append(d.as_str());
                s.append(" not found");
                s
            },
            Verror::DownloadInProgress(id) => {
                let mut s = String::from_str("A download of game ");
                let d = decimal_text(*id as u128);
                s.append(d.as_str());
                s.append(" is already in progress");
                s
            },
            Verror::LaunchFailed(id, m) => {
                let mut s = String::from_str("Failed to launch game ");
                let d = decimal_text(*id as u128);
                s.append(d.as_str());
                s.append(": ");
                s.append(m.as_str());
                s
            },
            Verror::StoreAccessError(m) => {
                let mut s = String::from_str("Store access failed: ");
                s.append(m.as_str());
                s
            },
        }
    }
}

} // verus!
