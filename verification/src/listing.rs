//! What the list of downloads shows for each torrent of the daemon.

use vstd::prelude::*;
use crate::ledger::{find_entry, first_match, lemma_first_match, views};
use crate::prober::{
    check_already_copied, detect_destination, detected, exists_at, sighting_views, Presence,
    Sighting, SightingView,
};
use crate::wire::{
    ConfigView, CopyState, Destination, DownloadEntry, EntryView, TransmissionConfig,
};

verus! {

/// The destination and the copy state shown for a torrent. A torrent of the
/// ledger shows its entry's destination, and its entry's state unless the
/// entry waits while the files are already at the destination: then it
/// shows `Copied`. A torrent that the ledger does not know shows where its
/// files were found, if anywhere.
pub open spec fn shown_marks(
    ledger: Seq<EntryView>,
    config: ConfigView,
    hash: Seq<char>,
    found: Presence,
) -> (Option<Destination>, CopyState) {
    match first_match(ledger, hash) {
        Some(i) => (
            Some(ledger[i].destination),
            if ledger[i].copy_state.is_pending() && exists_at(config, ledger[i].destination, found) {
                CopyState::Copied
            } else {
                ledger[i].copy_state
            },
        ),
        None => match detected(config, found) {
            Some(hit) => (Some(hit.0), hit.1),
            None => (None, CopyState::NotCopied),
        },
    }
}

/// The identity under which a sighting is looked up: the one that the
/// daemon reports, or the empty one.
pub open spec fn shown_identity(s: SightingView) -> Seq<char> {
    match s.torrent.hash_string {
        Some(h) => h,
        None => Seq::<char>::empty(),
    }
}

/// Works out the destination and the copy state to show for a torrent.
pub fn ledger_marks(
    ledger: &Vec<DownloadEntry>,
    config: &TransmissionConfig,
    hash_string: &str,
    found: &Presence,
) -> (r: (Option<Destination>, CopyState))
    ensures
        r == shown_marks(views(ledger@), config@, hash_string@, *found),
{
    proof {
        lemma_first_match(views(ledger@), hash_string@);
    }
    match find_entry(ledger, hash_string) {
        Some(i) => {
            let entry = &ledger[i];
            let state = if entry.copy_state.pending() && check_already_copied(
                config,
                entry.destination,
                found,
            ) {
                CopyState::Copied
            } else {
                entry.copy_state
            };
            (Some(entry.destination), state)
        },
        None => match detect_destination(config, found) {
            Some(hit) => (Some(hit.0), hit.1),
            None => (None, CopyState::NotCopied),
        },
    }
}

/// Works out, for each torrent of the daemon in turn, the destination and
/// the copy state to show.
pub fn listing_marks(
    ledger: &Vec<DownloadEntry>,
    config: &TransmissionConfig,
    sightings: &Vec<Sighting>,
) -> (r: Vec<(Option<Destination>, CopyState)>)
    ensures
        r@.len() == sightings@.len(),
        forall|k: int|
            0 <= k < sightings@.len() ==> #[trigger] r@[k] == shown_marks(
                views(ledger@),
                config@,
                shown_identity(sighting_views(sightings@)[k]),
                sighting_views(sightings@)[k].found,
            ),
{
    let mut marks: Vec<(Option<Destination>, CopyState)> = Vec::new();
    let mut k: usize = 0;
    while k < sightings.len()
        invariant
            k <= sightings.len(),
            marks@.len() == k,
            forall|j: int|
                0 <= j < k ==> #[trigger] marks@[j] == shown_marks(
                    views(ledger@),
                    config@,
                    shown_identity(sighting_views(sightings@)[j]),
                    sighting_views(sightings@)[j].found,
                ),
        decreases sightings.len() - k,
    {
        let s = &sightings[k];
        let mark = match &s.torrent.hash_string {
            Some(h) => ledger_marks(ledger, config, h.as_str(), &s.found),
            None => ledger_marks(ledger, config, "", &s.found),
        };
        proof {
            reveal_strlit("");
            assert(""@ =~= Seq::<char>::empty());
        }
        marks.push(mark);
        k += 1;
    }
    marks
}

} // verus!
