//! Startup reconciliation: merging the fetched remote catalog document into
//! the local catalog, record by record, with the local catalog as fallback
//! when the remote one cannot be had.

use vstd::prelude::*;
use crate::catalog::{merge_entry, plan_matches, Catalog};
use crate::errors::{strings_view, Verror};
use crate::games::GameView;
use crate::json::{member, JsonValue};
use crate::reconcile::ResourcePlan;
use crate::games::Game;
use crate::schema::{game_faults, game_of};

verus! {

/// How startup went.
#[derive(Debug, Clone, PartialEq, Eq)]
pub enum Bootstrap {
    /// The remote catalog was merged: one outcome per remote record, in
    /// document order, a plan for an accepted record and the schema error of
    /// a rejected one.
    Merged(Vec<Result<ResourcePlan, Verror>>),
    /// The remote catalog could not be had or read; the local catalog is kept
    /// unchanged. Holds the failure.
    KeptLocal(Verror),
}

/// The records of a remote catalog document `{"games": [...]}`.
pub open spec fn remote_items(doc: JsonValue) -> Option<Seq<JsonValue>> {
    match member(Some(doc), "games"@) {
        Some(JsonValue::Array(items)) => Some(items@),
        _ => None,
    }
}

/// The catalog after merging the records in order; a rejected record changes
/// nothing.
pub open spec fn merged(c: Map<u8, GameView>, items: Seq<JsonValue>) -> Map<u8, GameView>
    decreases items.len(),
{
    if items.len() == 0 {
        c
    } else {
        let prev = merged(c, items.drop_last());
        if game_faults(items.last()).len() == 0 {
            merge_entry(prev, game_of(items.last()))
        } else {
            prev
        }
    }
}

/// The outcome of merging `item` into the catalog `c`.
pub open spec fn outcome_matches(o: Result<ResourcePlan, Verror>, c: Map<u8, GameView>, item: JsonValue) -> bool {
    if game_faults(item).len() == 0 {
        o matches Ok(p) && plan_matches(p, c, game_of(item))
    } else {
        o matches Err(e) && e matches Verror::SchemaError(f) && strings_view(f@) == game_faults(item)
    }
}

/// The records of the fetched document, when it was fetched and has them.
pub open spec fn fetched_items(fetched: Result<JsonValue, Verror>) -> Option<Seq<JsonValue>> {
    match fetched {
        Ok(doc) => remote_items(doc),
        Err(_) => None,
    }
}

/// `e` reports why the fetched document gave no records: the fetch error, or
/// a schema error at `games`.
pub open spec fn is_remote_failure(fetched: Result<JsonValue, Verror>, e: Verror) -> bool {
    match fetched {
        Err(f) => e == f,
        Ok(_) => e matches Verror::SchemaError(f) && strings_view(f@) == seq!["games"@],
    }
}

impl Catalog {
    /// Merges the remote records in order. A record that fails the schema is
    /// skipped and reported; the others are reconciled into the catalog.
    pub fn merge_remote_games(&mut self, items: &Vec<JsonValue>) -> (outcomes: Vec<Result<ResourcePlan, Verror>>)
        requires
            old(self).wf(),
        ensures
            final(self).wf(),
            final(self)@ == merged(old(self)@, items@),
            outcomes@.len() == items@.len(),
            forall|j: int| 0 <= j < items@.len() ==> outcome_matches(
                #[trigger] outcomes@[j],
                merged(old(self)@, items@.subrange(0, j)),
                items@[j],
            ),
    {
        let ghost c0 = self@;
        let mut outcomes: Vec<Result<ResourcePlan, Verror>> = Vec::new();
        let mut i: usize = 0;
        while i < items.len()
            invariant
                i <= items@.len(),
                self.wf(),
                c0 == old(self)@,
                self@ == merged(c0, items@.subrange(0, i as int)),
                outcomes@.len() == i,
                forall|j: int| 0 <= j < i ==> outcome_matches(
                    #[trigger] outcomes@[j],
                    merged(c0, items@.subrange(0, j)),
                    items@[j],
                ),
            decreases items@.len() - i,
        {
            let ghost prefix = items@.subrange(0, i + 1);
            assert(prefix.drop_last() =~= items@.subrange(0, i as int));
            assert(prefix.last() == items@[i as int]);
            match Game::initialize_game_from_json(&items[i]) {
                Ok(g) => {
                    let plan = self.reconcile_entry(&g);
                    outcomes.push(Ok(plan));
                },
                Err(e) => {
                    outcomes.push(Err(e));
                },
            }
            i = i + 1;
        }
        assert(items@.subrange(0, items@.len() as int) =~= items@);
        outcomes
    }

    /// Startup reconciliation. `fetched` is the remote catalog document, or
    /// why it could not be fetched or parsed. A document with a `games` array
    /// is merged record by record. Otherwise the local catalog is kept when it
    /// has entries, and the failure is returned when it has none.
    pub fn bootstrap(&mut self, fetched: Result<JsonValue, Verror>) -> (r: Result<Bootstrap, Verror>)
        requires
            old(self).wf(),
        ensures
            final(self).wf(),
            match fetched_items(fetched) {
                Some(items) => r matches Ok(Bootstrap::Merged(outcomes)) && final(self)@ == merged(
                    old(self)@,
                    items,
                ) && outcomes@.len() == items.len() && forall|j: int|
                    0 <= j < items.len() ==> outcome_matches(
                        #[trigger] outcomes@[j],
                        merged(old(self)@, items.subrange(0, j)),
                        items[j],
                    ),
                None => final(self)@ == old(self)@ && (old(self)@.dom().len() > 0 ==> (r matches Ok(
                    Bootstrap::KeptLocal(e),
                ) && is_remote_failure(fetched, e))) && (old(self)@.dom().len() == 0 ==> (r matches Err(
                    e,
                ) && is_remote_failure(fetched, e))),
            },
    {
        let failure = match fetched {
            Ok(doc) => {
                match doc.get("games") {
                    Some(g) => match g.as_array() {
                        Some(items) => {
                            let outcomes = self.merge_remote_games(items);
                            return Ok(Bootstrap::Merged(outcomes));
                        },
                        None => {},
                    },
                    None => {},
                }
                let mut fields: Vec<String> = Vec::new();
                fields.push(String::from_str("games"));
                assert(strings_view(fields@) =~= seq!["games"@]);
                Verror::SchemaError(fields)
            },
            Err(e) => e,
        };
        if self.is_empty() {
            Err(failure)
        } else {
            Ok(Bootstrap::KeptLocal(failure))
        }
    }
}

} // verus!
