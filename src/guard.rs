//! The per-game download marker: at most one download session per game id at
//! a time.

use vstd::prelude::*;
use std::collections::HashSet;
use crate::errors::Verror;

verus! {

broadcast use vstd::std_specs::hash::group_hash_axioms;

/// The ids of the games whose download is running.
pub struct DownloadGuard {
    in_flight: HashSet<u8>,
}

/// The marker set after a download request for `id`: a request for a game
/// that is not running is admitted and marks it.
pub open spec fn after_begin(s: Set<u8>, id: u8) -> Set<u8> {
    if s.contains(id) {
        s
    } else {
        s.insert(id)
    }
}

impl View for DownloadGuard {
    type V = Set<u8>;

    closed spec fn view(&self) -> Set<u8> {
        self.in_flight@
    }
}

impl DownloadGuard {
    /// No download is running.
    pub fn new() -> (r: DownloadGuard)
        ensures
            r@ == Set::<u8>::empty(),
    {
        DownloadGuard { in_flight: HashSet::new() }
    }

    /// Checks and marks `id` in one step: a download of a game that is not
    /// running is admitted, another one is refused with `DownloadInProgress`.
    pub fn try_begin(&mut self, id: u8) -> (r: Result<(), Verror>)
        ensures
            r is Ok <==> !old(self)@.contains(id),
            r is Err ==> r == Err::<(), Verror>(Verror::DownloadInProgress(id)),
            final(self)@ == after_begin(old(self)@, id),
    {
        if self.in_flight.contains(&id) {
            Err(Verror::DownloadInProgress(id))
        } else {
            self.in_flight.insert(id);
            Ok(())
        }
    }

    /// Clears the mark of `id` once its session has completed or failed.
    pub fn finish(&mut self, id: u8)
        ensures
            final(self)@ == old(self)@.remove(id),
    {
        self.in_flight.remove(&id);
        assert(self@ =~= old(self)@.remove(id));
    }

    /// Whether a download of `id` is running.
    pub fn is_active(&self, id: u8) -> (r: bool)
        ensures
            r == self@.contains(id),
    {
        self.in_flight.contains(&id)
    }
}

} // verus!
