//! The ledger: the downloads that are followed, in the order in which they were added.
//!
//! No two entries of a well-formed ledger share an identity, where identities
//! are compared without regard to the case of ASCII letters.

use vstd::prelude::*;
use crate::text::{identity_matches, same_identity};
use crate::wire::{CopyState, Destination, DownloadEntry, EntryView};

verus! {

/// The entries of a ledger as plain values.
pub open spec fn views(entries: Seq<DownloadEntry>) -> Seq<EntryView> {
    Seq::new(entries.len(), |i: int| entries[i]@)
}

/// The position of the first entry whose identity matches `hash`, searching
/// from `start`.
pub open spec fn first_match_from(ledger: Seq<EntryView>, hash: Seq<char>, start: int) -> Option<int>
    decreases ledger.len() - start,
{
    if start < 0 || start >= ledger.len() {
        None
    } else if same_identity(ledger[start].info_hash, hash) {
        Some(start)
    } else {
        first_match_from(ledger, hash, start + 1)
    }
}

/// The position of the first entry whose identity matches `hash`.
pub open spec fn first_match(ledger: Seq<EntryView>, hash: Seq<char>) -> Option<int> {
    first_match_from(ledger, hash, 0)
}

/// No two entries share an identity.
pub open spec fn unique_identities(ledger: Seq<EntryView>) -> bool {
    forall|i: int, j: int|
        0 <= i < j < ledger.len() ==> !same_identity(
            #[trigger] ledger[i].info_hash,
            #[trigger] ledger[j].info_hash,
        )
}

/// What a search from `start` returns: the first matching position at or after
/// `start`, or nothing when no entry from there on matches.
pub proof fn lemma_first_match_from(ledger: Seq<EntryView>, hash: Seq<char>, start: int)
    requires
        0 <= start,
    ensures
        match first_match_from(ledger, hash, start) {
            Some(i) => start <= i < ledger.len() && same_identity(ledger[i].info_hash, hash)
                && forall|j: int| start <= j < i ==> !same_identity(#[trigger] ledger[j].info_hash, hash),
            None => forall|j: int|
                start <= j < ledger.len() ==> !same_identity(#[trigger] ledger[j].info_hash, hash),
        },
    decreases ledger.len() - start,
{
    if start < ledger.len() && !same_identity(ledger[start].info_hash, hash) {
        lemma_first_match_from(ledger, hash, start + 1);
    }
}

/// What a search returns: the first matching position, or nothing when no
/// entry matches.
pub proof fn lemma_first_match(ledger: Seq<EntryView>, hash: Seq<char>)
    ensures
        match first_match(ledger, hash) {
            Some(i) => 0 <= i < ledger.len() && same_identity(ledger[i].info_hash, hash)
                && forall|j: int| 0 <= j < i ==> !same_identity(#[trigger] ledger[j].info_hash, hash),
            None => forall|j: int|
                0 <= j < ledger.len() ==> !same_identity(#[trigger] ledger[j].info_hash, hash),
        },
{
    lemma_first_match_from(ledger, hash, 0);
}

/// A position that matches, with none before it that does, is the one that a
/// search returns.
pub proof fn lemma_first_match_is(ledger: Seq<EntryView>, hash: Seq<char>, i: int)
    requires
        0 <= i < ledger.len(),
        same_identity(ledger[i].info_hash, hash),
        forall|j: int| 0 <= j < i ==> !same_identity(#[trigger] ledger[j].info_hash, hash),
    ensures
        first_match(ledger, hash) == Some(i),
{
    lemma_first_match(ledger, hash);
}

/// A ledger without a matching entry gives a search nothing.
pub proof fn lemma_first_match_none(ledger: Seq<EntryView>, hash: Seq<char>)
    requires
        forall|j: int| 0 <= j < ledger.len() ==> !same_identity(#[trigger] ledger[j].info_hash, hash),
    ensures
        first_match(ledger, hash).is_none(),
{
    lemma_first_match(ledger, hash);
}

/// Finds the first entry whose identity matches `hash`.
pub fn find_entry(ledger: &Vec<DownloadEntry>, hash: &str) -> (r: Option<usize>)
    ensures
        match r {
            Some(i) => first_match(views(ledger@), hash@) == Some(i as int),
            None => first_match(views(ledger@), hash@).is_none(),
        },
{
    let mut i: usize = 0;
    while i < ledger.len()
        invariant
            i <= ledger.len(),
            forall|j: int| 0 <= j < i ==> !same_identity(#[trigger] views(ledger@)[j].info_hash, hash@),
        decreases ledger.len() - i,
    {
        if identity_matches(ledger[i].info_hash.as_str(), hash) {
            proof {
                lemma_first_match_is(views(ledger@), hash@, i as int);
            }
            return Some(i);
        }
        i += 1;
    }
    proof {
        lemma_first_match_none(views(ledger@), hash@);
    }
    None
}

/// The ledger after a download was added or assigned anew: an entry that is
/// already known under this identity gets the destination and waits for its
/// copy once more; otherwise a new entry is put at the end.
pub open spec fn enrolled(
    ledger: Seq<EntryView>,
    info_hash: Seq<char>,
    name: Seq<char>,
    destination: Destination,
) -> Seq<EntryView> {
    match first_match(ledger, info_hash) {
        Some(i) => ledger.update(
            i,
            EntryView { destination: destination, copy_state: CopyState::NotCopied, ..ledger[i] },
        ),
        None => ledger.push(
            EntryView {
                info_hash: info_hash,
                name: name,
                destination: destination,
                copy_state: CopyState::NotCopied,
            },
        ),
    }
}

/// Tracks a download with the destination chosen for it.
pub fn add_download(
    ledger: &mut Vec<DownloadEntry>,
    info_hash: String,
    name: String,
    destination: Destination,
)
    ensures
        views(final(ledger)@) == enrolled(views(old(ledger)@), info_hash@, name@, destination),
{
    match find_entry(ledger, info_hash.as_str()) {
        Some(i) => {
            proof {
                lemma_first_match(views(ledger@), info_hash@);
            }
            ledger[i].destination = destination;
            ledger[i].copy_state = CopyState::NotCopied;
        },
        None => {
            ledger.push(DownloadEntry { info_hash, name, destination, copy_state: CopyState::NotCopied });
        },
    }
}

/// Tracking a download keeps the identities of a ledger distinct.
pub proof fn lemma_enrolled_keeps_unique(
    ledger: Seq<EntryView>,
    info_hash: Seq<char>,
    name: Seq<char>,
    destination: Destination,
)
    requires
        unique_identities(ledger),
    ensures
        unique_identities(enrolled(ledger, info_hash, name, destination)),
{
    lemma_first_match(ledger, info_hash);
}

} // verus!
