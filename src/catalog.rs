//! The shared catalog: games keyed by id, the single source of truth that
//! queries, downloads and launches read, and that reconciliation and a
//! completed download change.

use vstd::prelude::*;
use std::collections::HashMap;
use crate::errors::{strings_view, Verror};
use crate::games::{Game, GameView, LinkType};
use crate::reconcile::{fetches_of, game_reconciled, placeholder, stale_files_of, with_local_path, ResourcePlan};

verus! {

broadcast use vstd::std_specs::hash::group_hash_axioms;

/// The games of the local mirror, keyed by id.
pub struct Catalog {
    games: HashMap<u8, Game>,
}

/// The entry that reconciliation starts from: the local one, or a placeholder
/// with nothing on disk for a game that is new.
pub open spec fn base_entry(c: Map<u8, GameView>, remote: GameView) -> GameView {
    if c.contains_key(remote.id) {
        c[remote.id]
    } else {
        placeholder(remote)
    }
}

/// The catalog after reconciling one remote entry into it.
pub open spec fn merge_entry(c: Map<u8, GameView>, remote: GameView) -> Map<u8, GameView> {
    c.insert(remote.id, game_reconciled(base_entry(c, remote), remote))
}

/// `p` is the plan of reconciling `remote` into the catalog `c`.
pub open spec fn plan_matches(p: ResourcePlan, c: Map<u8, GameView>, remote: GameView) -> bool {
    &&& p.game_id == remote.id
    &&& strings_view(p.stale_files@) == stale_files_of(base_entry(c, remote), remote)
    &&& p.fetch@ == fetches_of(base_entry(c, remote), remote)
}

/// Entries listed in this order: higher weight first, then lower id.
pub open spec fn listed_before(a: GameView, b: GameView) -> bool {
    a.weight > b.weight || (a.weight == b.weight && a.id < b.id)
}

/// Every entry is stored under its own id.
pub open spec fn keyed_by_id(c: Map<u8, GameView>) -> bool {
    forall|k: u8| #[trigger] c.contains_key(k) ==> c[k].id == k
}

/// The catalog that a sequence of stored entries loads into; a later entry
/// replaces an earlier one with the same id.
pub open spec fn loaded(gs: Seq<GameView>) -> Map<u8, GameView>
    decreases gs.len(),
{
    if gs.len() == 0 {
        Map::empty()
    } else {
        loaded(gs.drop_last()).insert(gs.last().id, gs.last())
    }
}

/// Each entry of `s` is listed before every later one.
pub open spec fn listing_sorted(s: Seq<Game>) -> bool {
    forall|i: int, j: int| 0 <= i < j < s.len() ==> listed_before(#[trigger] s[i]@, #[trigger] s[j]@)
}

proof fn lemma_insert_keeps_sorted(before: Seq<Game>, pos: int, g: Game)
    requires
        0 <= pos <= before.len(),
        listing_sorted(before),
        forall|i: int| 0 <= i < pos ==> listed_before(#[trigger] before[i]@, g@),
        forall|j: int| pos <= j < before.len() ==> listed_before(g@, #[trigger] before[j]@),
    ensures
        listing_sorted(before.insert(pos, g)),
{
    let after = before.insert(pos, g);
    before.insert_ensures(pos, g);
    assert forall|i: int, j: int| 0 <= i < j < after.len() implies listed_before(
        #[trigger] after[i]@,
        #[trigger] after[j]@,
    ) by {
        if j < pos {
            assert(listed_before(before[i]@, before[j]@));
        } else if j == pos {
        } else if i < pos {
            assert(after[j] == before[j - 1]);
            assert(listed_before(before[i]@, g@));
            assert(listed_before(g@, before[j - 1]@));
        } else if i == pos {
            assert(after[j] == before[j - 1]);
        } else {
            assert(after[j] == before[j - 1]);
            assert(after[i] == before[i - 1]);
            assert(listed_before(before[i - 1]@, before[j - 1]@));
        }
    }
}

/// Inserts `g` into a sorted listing at the place that keeps it sorted.
fn insert_listed(list: &mut Vec<Game>, g: Game) -> (pos: usize)
    requires
        listing_sorted(old(list)@),
        forall|i: int| 0 <= i < old(list)@.len() ==> (#[trigger] old(list)@[i]).id != g.id,
    ensures
        pos <= old(list)@.len(),
        final(list)@ == old(list)@.insert(pos as int, g),
        listing_sorted(final(list)@),
{
    let mut pos: usize = 0;
    while pos < list.len() && !(g.weight > list[pos].weight || (g.weight == list[pos].weight
        && g.id < list[pos].id))
        invariant
            pos <= list@.len(),
            list@ == old(list)@,
            forall|i: int| 0 <= i < list@.len() ==> (#[trigger] list@[i]).id != g.id,
            forall|i: int| 0 <= i < pos ==> listed_before(#[trigger] list@[i]@, g@),
        decreases list@.len() - pos,
    {
        assert(list@[pos as int].id != g.id);
        pos = pos + 1;
    }
    let ghost before = list@;
    proof {
        assert forall|j: int| pos <= j < before.len() implies listed_before(g@, #[trigger] before[j]@) by {
            assert(listed_before(g@, before[pos as int]@));
            if j > pos {
                assert(listed_before(before[pos as int]@, before[j]@));
            }
        }
        lemma_insert_keeps_sorted(before, pos as int, g);
    }
    list.insert(pos, g);
    pos
}

impl View for Catalog {
    type V = Map<u8, GameView>;

    closed spec fn view(&self) -> Map<u8, GameView> {
        self.games@.map_values(|g: Game| g@)
    }
}

impl Catalog {
    /// The catalog is keyed by id.
    pub open spec fn wf(&self) -> bool {
        keyed_by_id(self@)
    }

    /// An empty catalog.
    pub fn new() -> (r: Catalog)
        ensures
            r@ == Map::<u8, GameView>::empty(),
            r.wf(),
    {
        let r = Catalog { games: HashMap::new() };
        assert(r@ =~= Map::<u8, GameView>::empty());
        r
    }

    /// Loads stored entries, each under its id; a later entry replaces an
    /// earlier one with the same id.
    pub fn from_games(games: &Vec<Game>) -> (r: Catalog)
        ensures
            r@ == loaded(games@.map_values(|g: Game| g@)),
            r.wf(),
    {
        let mut c = Catalog::new();
        let mut i: usize = 0;
        while i < games.len()
            invariant
                i <= games@.len(),
                c@ == loaded(games@.subrange(0, i as int).map_values(|g: Game| g@)),
                c.wf(),
            decreases games@.len() - i,
        {
            let ghost prefix = games@.subrange(0, i + 1).map_values(|g: Game| g@);
            assert(prefix.drop_last() =~= games@.subrange(0, i as int).map_values(|g: Game| g@));
            let g = games[i].duplicate();
            c.put(g);
            i = i + 1;
        }
        assert(games@.subrange(0, games@.len() as int) =~= games@);
        c
    }

    /// Stores `g` under its id.
    fn put(&mut self, g: Game)
        requires
            old(self).wf(),
        ensures
            final(self)@ == old(self)@.insert(g.id, g@),
            final(self).wf(),
    {
        let ghost gv = g@;
        self.games.insert(g.id, g);
        assert(self@ =~= old(self)@.insert(gv.id, gv));
    }

    /// The games, higher weight first and, among equal weights, lower id
    /// first: each entry of the catalog exactly once.
    pub fn get_game_list(&self) -> (r: Vec<Game>)
        requires
            self.wf(),
        ensures
            listing_sorted(r@),
            forall|i: int| 0 <= i < r@.len() ==> self@.contains_key(#[trigger] r@[i].id) && self@[r@[i].id] == r@[i]@,
            forall|k: u8| #[trigger] self@.contains_key(k) ==> exists|i: int| 0 <= i < r@.len() && r@[i].id == k,
    {
        let mut list: Vec<Game> = Vec::new();
        let mut k: u16 = 0;
        while k < 256
            invariant
                k <= 256,
                self.wf(),
                listing_sorted(list@),
                forall|i: int| 0 <= i < list@.len() ==> (#[trigger] list@[i]).id < k && self@.contains_key(list@[i].id)
                    && self@[list@[i].id] == list@[i]@,
                forall|id: u8| id < k && #[trigger] self@.contains_key(id) ==> exists|i: int| 0 <= i < list@.len() && list@[i].id == id,
            decreases 256 - k,
        {
            let id = k as u8;
            match self.games.get(&id) {
                Some(g) => {
                    let d = g.duplicate();
                    assert(self@.contains_key(id) && self@[id] == d@);
                    let ghost before = list@;
                    let pos = insert_listed(&mut list, d);
                    proof {
                        before.insert_ensures(pos as int, d);
                        assert forall|x: u8| x < k + 1 && #[trigger] self@.contains_key(x) implies exists|i: int| 0 <= i < list@.len() && list@[i].id == x by {
                            if x == id {
                                assert(list@[pos as int].id == x);
                            } else {
                                let j = choose|j: int| 0 <= j < before.len() && before[j].id == x;
                                if j < pos {
                                    assert(list@[j].id == x);
                                } else {
                                    assert(list@[j + 1].id == x);
                                }
                            }
                        }
                        assert forall|i: int| 0 <= i < list@.len() implies (#[trigger] list@[i]).id < k + 1 && self@.contains_key(list@[i].id)
                            && self@[list@[i].id] == list@[i]@ by {
                            if i < pos {
                            } else if i == pos {
                            } else {
                                assert(list@[i] == before[i - 1]);
                            }
                        }
                    }
                },
                None => {
                    assert(!self@.contains_key(id));
                },
            }
            k = k + 1;
        }
        list
    }

    /// Whether no game is known.
    pub fn is_empty(&self) -> (r: bool)
        ensures
            r == (self@.dom().len() == 0),
    {
        let r = self.games.is_empty();
        assert(self@.dom() =~= self.games@.dom());
        proof {
            if self.games@.dom().len() == 0 {
                assert(self.games@ =~= Map::<u8, Game>::empty());
            } else {
                assert(!(self.games@ =~= Map::<u8, Game>::empty()));
            }
        }
        r
    }

    /// A copy of the entry of game `id`, or `NotFound`.
    pub fn get_game(&self, id: u8) -> (r: Result<Game, Verror>)
        ensures
            self@.contains_key(id) ==> (r matches Ok(g) && g@ == self@[id]),
            !self@.contains_key(id) ==> r == Err::<Game, Verror>(Verror::NotFound(id)),
    {
        match self.games.get(&id) {
            Some(g) => Ok(g.duplicate()),
            None => Err(Verror::NotFound(id)),
        }
    }

    /// The stored path of game `id`'s executable, or `NotFound` when the game
    /// is unknown or its archive is not on disk.
    pub fn launch_target(&self, id: u8) -> (r: Result<String, Verror>)
        ensures
            (self@.contains_key(id) && self@[id].game_archive.link.local_path is Some) ==> (r matches Ok(
                p,
            ) && Some(p@) == self@[id].game_archive.link.local_path),
            !(self@.contains_key(id) && self@[id].game_archive.link.local_path is Some) ==> r
                == Err::<String, Verror>(Verror::NotFound(id)),
    {
        match self.games.get(&id) {
            Some(g) => match &g.game_archive.link.local_path {
                Some(p) => Ok(p.clone()),
                None => Err(Verror::NotFound(id)),
            },
            None => Err(Verror::NotFound(id)),
        }
    }

    /// Records that resource `kind` of game `id` is stored at `path`; for the
    /// archive this completes a download. `NotFound` leaves the catalog as it
    /// was.
    pub fn set_local_path(&mut self, id: u8, kind: LinkType, path: String) -> (r: Result<(), Verror>)
        requires
            old(self).wf(),
        ensures
            final(self).wf(),
            old(self)@.contains_key(id) ==> r is Ok && final(self)@ == old(self)@.insert(
                id,
                with_local_path(old(self)@[id], kind, path@),
            ),
            !old(self)@.contains_key(id) ==> r == Err::<(), Verror>(Verror::NotFound(id))
                && final(self)@ == old(self)@,
    {
        match self.games.get(&id) {
            Some(g) => {
                let mut updated = g.duplicate();
                updated.set_local_path(kind, path);
                self.put(updated);
                Ok(())
            },
            None => Err(Verror::NotFound(id)),
        }
    }

    /// Reconciles one remote entry into the catalog: against the local entry
    /// of the same id, or against a placeholder with nothing on disk when the
    /// game is new. Returns what is left to do on disk and over the network.
    pub fn reconcile_entry(&mut self, remote: &Game) -> (plan: ResourcePlan)
        requires
            old(self).wf(),
        ensures
            final(self).wf(),
            final(self)@ == merge_entry(old(self)@, remote@),
            plan_matches(plan, old(self)@, remote@),
    {
        let mut local = match self.games.get(&remote.id) {
            Some(g) => g.duplicate(),
            None => Game::fresh_from_remote(remote),
        };
        let plan = local.update_game(remote);
        self.put(local);
        plan
    }
}

} // verus!
