//! Properties that hold across calls, stated over the models that the
//! functions' contracts use, and proved.

use vstd::prelude::*;
use crate::download::{count_chunk, percent_text};
use crate::games::{GameView, LinkType, LinkView};
use crate::guard::after_begin;
use crate::reconcile::{fetches_of, game_reconciled, link_reconciled, with_local_path};
use crate::text::{decimal, two_digits};

verus! {

/// Revisions only move forward: a strictly newer remote revision is adopted
/// and leaves the link without a stored file until it is fetched again; an
/// equal or older one changes nothing, whatever the urls say.
pub proof fn lemma_revision_monotonicity(local: LinkView, remote: LinkView)
    ensures
        remote.revision > local.revision ==> link_reconciled(local, remote).revision == remote.revision
            && link_reconciled(local, remote).local_path is None,
        remote.revision <= local.revision ==> link_reconciled(local, remote).local_path
            == local.local_path && link_reconciled(local, remote).url == local.url,
        link_reconciled(local, remote).revision >= local.revision,
{
}

/// Reconciling never fetches an archive: when its revision went up, the
/// entry is only flagged for update, and the resources to fetch are the
/// background image and the icon at most.
pub proof fn lemma_archive_fetch_never_automatic(local: GameView, remote: GameView)
    ensures
        remote.game_archive.link.revision > local.game_archive.link.revision ==> game_reconciled(
            local,
            remote,
        ).game_archive.need_update,
        !fetches_of(local, remote).contains(LinkType::GameArchiveLink),
{
    let f = fetches_of(local, remote);
    assert forall|i: int| 0 <= i < f.len() implies f[i] != LinkType::GameArchiveLink by {}
}

/// Committing the same download twice leaves the catalog as one commit does;
/// the commit keeps what the executable path is computed from.
pub proof fn lemma_download_idempotent(c: Map<u8, GameView>, id: u8, path: Seq<char>)
    requires
        c.contains_key(id),
    ensures
        ({
            let once = c.insert(id, with_local_path(c[id], LinkType::GameArchiveLink, path));
            let twice = once.insert(id, with_local_path(once[id], LinkType::GameArchiveLink, path));
            &&& twice == once
            &&& once[id].title == c[id].title
            &&& once[id].game_archive.path_to_executable == c[id].game_archive.path_to_executable
            &&& once[id].game_archive.link.revision == c[id].game_archive.link.revision
        }),
{
    let once = c.insert(id, with_local_path(c[id], LinkType::GameArchiveLink, path));
    let twice = once.insert(id, with_local_path(once[id], LinkType::GameArchiveLink, path));
    assert(twice =~= once);
}

/// The byte counts reported after each chunk of a transfer.
pub open spec fn progress_trace(start: u64, file_size: u64, chunks: Seq<u64>) -> Seq<u64>
    decreases chunks.len(),
{
    if chunks.len() == 0 {
        Seq::empty()
    } else {
        let prev = progress_trace(start, file_size, chunks.drop_last());
        let last = if prev.len() == 0 {
            start
        } else {
            prev.last()
        };
        prev.push(count_chunk(last, file_size, chunks.last()))
    }
}

/// Over any sequence of chunks, the reported byte counts never decrease and
/// never exceed the announced size.
pub proof fn lemma_progress_monotonic_bounded(start: u64, file_size: u64, chunks: Seq<u64>)
    requires
        start <= file_size,
    ensures
        progress_trace(start, file_size, chunks).len() == chunks.len(),
        forall|i: int| #![trigger progress_trace(start, file_size, chunks)[i]]
            0 <= i < chunks.len() ==> start <= progress_trace(start, file_size, chunks)[i] <= file_size,
        forall|i: int, j: int|
            0 <= i < j < chunks.len() ==> #[trigger] progress_trace(start, file_size, chunks)[i]
                <= #[trigger] progress_trace(start, file_size, chunks)[j],
    decreases chunks.len(),
{
    if chunks.len() > 0 {
        lemma_progress_monotonic_bounded(start, file_size, chunks.drop_last());
        let prev = progress_trace(start, file_size, chunks.drop_last());
        let t = progress_trace(start, file_size, chunks);
        assert forall|i: int| 0 <= i < prev.len() implies t[i] == prev[i] by {}
    }
}

/// A transfer that received every announced byte reports `100.00%`.
pub proof fn lemma_complete_transfer_full_percentage(file_size: u64)
    ensures
        percent_text(file_size, file_size) == "100.00%"@,
{
    if file_size > 0 {
        vstd::arithmetic::div_mod::lemma_div_by_multiple(10000, file_size as int);
        assert((file_size as int) * 10000 == 10000 * (file_size as int));
    }
    reveal_strlit("100.00%");
    reveal_strlit(".");
    reveal_strlit("%");
    assert(decimal(1) == seq!['1']);
    assert(decimal(10) == seq!['1', '0']);
    assert(decimal(100) == seq!['1', '0', '0']);
    assert(two_digits(0) == seq!['0', '0']);
    assert(percent_text(file_size, file_size) =~= "100.00%"@);
}

/// Of two download requests for the same game, at most the first is
/// admitted: once admitted, the game is marked and the second is refused.
/// A game that is not running admits the first.
pub proof fn lemma_single_download_per_game(s: Set<u8>, id: u8)
    ensures
        after_begin(s, id).contains(id),
        !s.contains(id) ==> after_begin(s, id) == s.insert(id),
        after_begin(after_begin(s, id), id) == after_begin(s, id),
        !after_begin(s, id).remove(id).contains(id),
{
}

} // verus!
