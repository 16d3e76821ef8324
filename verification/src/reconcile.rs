//! Reconciliation of the ledger with what the daemon reports and with what
//! lies in the destination directories.
//!
//! Each sighting is taken in turn. An entry that waits for its copy while its
//! files are already at its destination becomes `Copied`; a torrent that the
//! ledger does not know, and whose files are found at a destination, is
//! adopted as a new `Copied` entry. Nothing else is touched.

use vstd::prelude::*;
use crate::ledger::{
    find_entry, first_match, lemma_first_match, lemma_first_match_is, unique_identities, views,
};
use crate::prober::{
    check_already_copied, detect_destination, detected, exists_at, sighting_views, Sighting,
    SightingView,
};
use crate::wire::{ConfigView, CopyState, DownloadEntry, EntryView, TransmissionConfig};

verus! {

/// The ledger after one sighting was taken into account.
pub open spec fn reconcile_one(ledger: Seq<EntryView>, config: ConfigView, s: SightingView) -> Seq<
    EntryView,
> {
    if s.torrent.hash_string.is_some() && s.torrent.name.is_some() {
        let hash = s.torrent.hash_string.unwrap();
        let name = s.torrent.name.unwrap();
        match first_match(ledger, hash) {
            Some(i) => if ledger[i].copy_state.is_pending() && exists_at(
                config,
                ledger[i].destination,
                s.found,
            ) {
                ledger.update(i, EntryView { copy_state: CopyState::Copied, ..ledger[i] })
            } else {
                ledger
            },
            None => match detected(config, s.found) {
                Some(hit) => ledger.push(
                    EntryView { info_hash: hash, name: name, destination: hit.0, copy_state: hit.1 },
                ),
                None => ledger,
            },
        }
    } else {
        ledger
    }
}

/// The ledger after the first `n` sightings were taken into account, in order.
pub open spec fn reconciled(
    ledger: Seq<EntryView>,
    config: ConfigView,
    sightings: Seq<SightingView>,
    n: int,
) -> Seq<EntryView>
    decreases n,
{
    if n <= 0 {
        ledger
    } else {
        reconcile_one(reconciled(ledger, config, sightings, n - 1), config, sightings[n - 1])
    }
}

/// The ledger after all sightings were taken into account.
pub open spec fn reconciliation(
    ledger: Seq<EntryView>,
    config: ConfigView,
    sightings: Seq<SightingView>,
) -> Seq<EntryView> {
    reconciled(ledger, config, sightings, sightings.len() as int)
}

/// An entry as reconciliation may leave it: identity, name and destination
/// are kept, and the state is kept or has gone from waiting to `Copied`.
pub open spec fn carried(before: EntryView, after: EntryView) -> bool {
    &&& after.info_hash == before.info_hash
    &&& after.name == before.name
    &&& after.destination == before.destination
    &&& (after.copy_state == before.copy_state || (before.copy_state.is_pending()
        && after.copy_state == CopyState::Copied))
}

/// A ledger as reconciliation may leave it: every entry is carried over in
/// its place, and what was added behind them is `Copied`.
pub open spec fn extends(before: Seq<EntryView>, after: Seq<EntryView>) -> bool {
    &&& before.len() <= after.len()
    &&& forall|i: int| 0 <= i < before.len() ==> carried(before[i], #[trigger] after[i])
    &&& forall|i: int|
        before.len() <= i < after.len() ==> (#[trigger] after[i]).copy_state == CopyState::Copied
}

/// Taking one sighting into account extends the ledger.
pub proof fn lemma_one_extends(ledger: Seq<EntryView>, config: ConfigView, s: SightingView)
    ensures
        extends(ledger, reconcile_one(ledger, config, s)),
{
    if s.torrent.hash_string.is_some() {
        lemma_first_match(ledger, s.torrent.hash_string.unwrap());
    }
}

/// What extends an extension extends the first ledger too.
pub proof fn lemma_extends_transitive(a: Seq<EntryView>, b: Seq<EntryView>, c: Seq<EntryView>)
    requires
        extends(a, b),
        extends(b, c),
    ensures
        extends(a, c),
{
}

/// Taking more sightings into account extends what the first of them gave.
pub proof fn lemma_reconciled_extends(
    ledger: Seq<EntryView>,
    config: ConfigView,
    sightings: Seq<SightingView>,
    n: int,
    m: int,
)
    requires
        0 <= n <= m,
    ensures
        extends(
            reconciled(ledger, config, sightings, n),
            reconciled(ledger, config, sightings, m),
        ),
    decreases m - n,
{
    if n < m {
        lemma_reconciled_extends(ledger, config, sightings, n, m - 1);
        lemma_one_extends(reconciled(ledger, config, sightings, m - 1), config, sightings[m - 1]);
    }
}

/// Reconciles the ledger with the sightings of one cycle, and says whether
/// the ledger was changed and so has to be saved.
pub fn reconcile(
    ledger: &mut Vec<DownloadEntry>,
    config: &TransmissionConfig,
    sightings: &Vec<Sighting>,
) -> (changed: bool)
    ensures
        views(final(ledger)@) == reconciliation(
            views(old(ledger)@),
            config@,
            sighting_views(sightings@),
        ),
        extends(views(old(ledger)@), views(final(ledger)@)),
        changed == (views(final(ledger)@) != views(old(ledger)@)),
{
    let ghost start = views(ledger@);
    let ghost seen = sighting_views(sightings@);
    let mut changed = false;
    let mut k: usize = 0;
    while k < sightings.len()
        invariant
            k <= sightings.len(),
            seen == sighting_views(sightings@),
            views(ledger@) == reconciled(start, config@, seen, k as int),
            extends(start, views(ledger@)),
            changed == (views(ledger@) != start),
        decreases sightings.len() - k,
    {
        let ghost before = views(ledger@);
        let s = &sightings[k];
        match &s.torrent.hash_string {
            Some(hash) => {
                match &s.torrent.name {
                    Some(name) => {
                        proof {
                            lemma_first_match(before, hash@);
                        }
                        match find_entry(ledger, hash.as_str()) {
                            Some(i) => {
                                if ledger[i].copy_state.pending() && check_already_copied(
                                    config,
                                    ledger[i].destination,
                                    &s.found,
                                ) {
                                    ledger[i].copy_state = CopyState::Copied;
                                    changed = true;
                                }
                            },
                            None => {
                                match detect_destination(config, &s.found) {
                                    Some(hit) => {
                                        ledger.push(
                                            DownloadEntry {
                                                info_hash: hash.clone(),
                                                name: name.clone(),
                                                destination: hit.0,
                                                copy_state: hit.1,
                                            },
                                        );
                                        changed = true;
                                    },
                                    None => {},
                                }
                            },
                        }
                    },
                    None => {},
                }
            },
            None => {},
        }
        proof {
            lemma_extends_transitive(start, before, views(ledger@));
        }
        k += 1;
    }
    changed
}

/// A sighting has nothing more to say to a ledger that it leaves as it is.
pub open spec fn settled(ledger: Seq<EntryView>, config: ConfigView, s: SightingView) -> bool {
    reconcile_one(ledger, config, s) == ledger
}

/// Once a sighting was taken into account, taking it into account again
/// changes nothing.
pub proof fn lemma_one_settles(ledger: Seq<EntryView>, config: ConfigView, s: SightingView)
    ensures
        settled(reconcile_one(ledger, config, s), config, s),
{
    if s.torrent.hash_string.is_some() && s.torrent.name.is_some() {
        let hash = s.torrent.hash_string.unwrap();
        let after = reconcile_one(ledger, config, s);
        lemma_first_match(ledger, hash);
        match first_match(ledger, hash) {
            Some(i) => {
                lemma_first_match_is(after, hash, i);
            },
            None => {
                if detected(config, s.found).is_some() {
                    let last = ledger.len() as int;
                    lemma_first_match_is(after, hash, last);
                }
            },
        }
    }
}

/// A sighting that has nothing more to say to a ledger has nothing to say to
/// any extension of it either.
pub proof fn lemma_settled_carries(
    ledger: Seq<EntryView>,
    later: Seq<EntryView>,
    config: ConfigView,
    s: SightingView,
)
    requires
        settled(ledger, config, s),
        extends(ledger, later),
    ensures
        settled(later, config, s),
{
    if s.torrent.hash_string.is_some() && s.torrent.name.is_some() {
        let hash = s.torrent.hash_string.unwrap();
        lemma_first_match(ledger, hash);
        match first_match(ledger, hash) {
            Some(i) => {
                lemma_first_match_is(later, hash, i);
            },
            None => {},
        }
    }
}

/// Taking the same sightings into account once more leaves the reconciled
/// ledger as it is, for any number of them.
pub proof fn lemma_reconciled_again(
    ledger: Seq<EntryView>,
    config: ConfigView,
    sightings: Seq<SightingView>,
    n: int,
)
    requires
        0 <= n <= sightings.len(),
    ensures
        reconciled(reconciliation(ledger, config, sightings), config, sightings, n)
            == reconciliation(ledger, config, sightings),
    decreases n,
{
    if n > 0 {
        let done = reconciliation(ledger, config, sightings);
        lemma_reconciled_again(ledger, config, sightings, n - 1);
        let s = sightings[n - 1];
        lemma_one_settles(reconciled(ledger, config, sightings, n - 1), config, s);
        lemma_reconciled_extends(ledger, config, sightings, n, sightings.len() as int);
        lemma_settled_carries(reconciled(ledger, config, sightings, n), done, config, s);
    }
}

/// Reconciliation is idempotent: a second run over the same sightings
/// changes nothing in the ledger that the first run left.
pub proof fn lemma_reconcile_idempotent(
    ledger: Seq<EntryView>,
    config: ConfigView,
    sightings: Seq<SightingView>,
)
    ensures
        reconciliation(reconciliation(ledger, config, sightings), config, sightings)
            == reconciliation(ledger, config, sightings),
{
    lemma_reconciled_again(ledger, config, sightings, sightings.len() as int);
}

/// Reconciliation never takes an entry out of `Copying` or `Copied`, never
/// changes a destination, a name or an identity, and never drops an entry.
pub proof fn lemma_reconcile_extends(
    ledger: Seq<EntryView>,
    config: ConfigView,
    sightings: Seq<SightingView>,
)
    ensures
        extends(ledger, reconciliation(ledger, config, sightings)),
{
    lemma_reconciled_extends(ledger, config, sightings, 0, sightings.len() as int);
}

/// An entry is adopted only for a torrent whose files were found: every
/// entry that reconciliation has added carries the identity and the name of
/// one of the sightings, and the destination at which that sighting's files
/// lie, which has a non-empty directory configured.
pub proof fn lemma_adopted_were_found(
    ledger: Seq<EntryView>,
    config: ConfigView,
    sightings: Seq<SightingView>,
    n: int,
    j: int,
)
    requires
        0 <= n <= sightings.len(),
        ledger.len() <= j < reconciled(ledger, config, sightings, n).len(),
    ensures
        exists|k: int|
            0 <= k < n && adopted_from(reconciled(ledger, config, sightings, n)[j], config, #[trigger] sightings[k]),
    decreases n,
{
    let before = reconciled(ledger, config, sightings, n - 1);
    let s = sightings[n - 1];
    if s.torrent.hash_string.is_some() {
        lemma_first_match(before, s.torrent.hash_string.unwrap());
    }
    if j < before.len() {
        lemma_adopted_were_found(ledger, config, sightings, n - 1, j);
    }
}

/// The entry is what adopting the sighting gives: its identity and name are
/// the sighting's, its files were found at its destination, for which a
/// non-empty directory is configured, and it is `Copied`.
pub open spec fn adopted_from(entry: EntryView, config: ConfigView, s: SightingView) -> bool {
    &&& s.torrent.hash_string == Some(entry.info_hash)
    &&& s.torrent.name == Some(entry.name)
    &&& exists_at(config, entry.destination, s.found)
    &&& config.target_dir(entry.destination).is_some()
    &&& entry.copy_state == CopyState::Copied
}

/// Reconciliation keeps the identities of a ledger distinct.
pub proof fn lemma_reconcile_keeps_unique(
    ledger: Seq<EntryView>,
    config: ConfigView,
    sightings: Seq<SightingView>,
    n: int,
)
    requires
        unique_identities(ledger),
        0 <= n <= sightings.len(),
    ensures
        unique_identities(reconciled(ledger, config, sightings, n)),
    decreases n,
{
    if n > 0 {
        lemma_reconcile_keeps_unique(ledger, config, sightings, n - 1);
        let before = reconciled(ledger, config, sightings, n - 1);
        let s = sightings[n - 1];
        if s.torrent.hash_string.is_some() {
            let hash = s.torrent.hash_string.unwrap();
            lemma_first_match(before, hash);
        }
    }
}

/// Where the files of no unfinished torrent lie at a destination, no
/// unfinished torrent is adopted: every entry that reconciliation has added
/// comes from a sighting of a complete torrent.
pub proof fn lemma_no_adoption_of_unfinished(
    ledger: Seq<EntryView>,
    config: ConfigView,
    sightings: Seq<SightingView>,
    j: int,
)
    requires
        forall|k: int|
            0 <= k < sightings.len() && !(#[trigger] sightings[k]).torrent.complete ==> detected(
                config,
                sightings[k].found,
            ).is_none(),
        ledger.len() <= j < reconciliation(ledger, config, sightings).len(),
    ensures
        exists|k: int|
            0 <= k < sightings.len() && adopted_from(
                reconciliation(ledger, config, sightings)[j],
                config,
                #[trigger] sightings[k],
            ) && sightings[k].torrent.complete,
{
    lemma_adopted_were_found(ledger, config, sightings, sightings.len() as int, j);
}

/// Reconciliation over all sightings keeps the identities of a ledger
/// distinct.
pub proof fn lemma_reconciliation_keeps_unique(
    ledger: Seq<EntryView>,
    config: ConfigView,
    sightings: Seq<SightingView>,
)
    requires
        unique_identities(ledger),
    ensures
        unique_identities(reconciliation(ledger, config, sightings)),
{
    lemma_reconcile_keeps_unique(ledger, config, sightings, sightings.len() as int);
}

} // verus!
