//! Which entries are due for a copy, and from where to where each goes.

use vstd::prelude::*;
use crate::prober::{live_views, target_dir, LiveView, Sighting};
use crate::text::{identity_matches, same_identity};
use crate::wire::{ConfigView, DownloadEntry, EntryView, TransmissionConfig};
use crate::ledger::views;

verus! {

/// From where to where the files of one download are copied, as plain values.
pub struct RouteView {
    pub source_dir: Seq<char>,
    pub dest_dir: Seq<char>,
    pub name: Seq<char>,
}

/// From where to where the files of one download are copied: the item
/// `name` under `source_dir` goes to `name` under `dest_dir`.
#[derive(Clone, Debug, PartialEq)]
pub struct Route {
    /// The directory in which the daemon keeps the files.
    pub source_dir: String,
    /// The directory configured for the entry's destination.
    pub dest_dir: String,
    /// The name of the item in both directories.
    pub name: String,
}

impl View for Route {
    type V = RouteView;

    open spec fn view(&self) -> RouteView {
        RouteView { source_dir: self.source_dir@, dest_dir: self.dest_dir@, name: self.name@ }
    }
}

/// The position of the first torrent, from `start` on, that reports an
/// identity matching `hash`.
pub open spec fn live_match_from(torrents: Seq<LiveView>, hash: Seq<char>, start: int) -> Option<int>
    decreases torrents.len() - start,
{
    if start < 0 || start >= torrents.len() {
        None
    } else if torrents[start].hash_string.is_some() && same_identity(
        torrents[start].hash_string.unwrap(),
        hash,
    ) {
        Some(start)
    } else {
        live_match_from(torrents, hash, start + 1)
    }
}

/// The position of the first torrent that reports an identity matching `hash`.
pub open spec fn live_match(torrents: Seq<LiveView>, hash: Seq<char>) -> Option<int> {
    live_match_from(torrents, hash, 0)
}

/// The route of an entry's files: it exists when the first torrent that
/// matches the entry's identity is complete and reports its directory, and a
/// non-empty directory is configured for the entry's destination. The item
/// goes by the name that the daemon reports, or by the entry's where the
/// daemon reports none.
pub open spec fn route_of(entry: EntryView, config: ConfigView, torrents: Seq<LiveView>) -> Option<
    RouteView,
> {
    match live_match(torrents, entry.info_hash) {
        Some(k) => {
            let t = torrents[k];
            if t.complete && t.download_dir.is_some() && config.target_dir(
                entry.destination,
            ).is_some() {
                Some(
                    RouteView {
                        source_dir: t.download_dir.unwrap(),
                        dest_dir: config.target_dir(entry.destination).unwrap(),
                        name: if t.name.is_some() {
                            t.name.unwrap()
                        } else {
                            entry.name
                        },
                    },
                )
            } else {
                None
            }
        },
        None => None,
    }
}

/// An entry is due for a copy when it waits for one and has a route. An
/// entry that is shown as `Copying` is not due: one that was left in that
/// state when the process ended in the middle of its copy stays as it is
/// until the download is assigned anew.
pub open spec fn eligible(entry: EntryView, config: ConfigView, torrents: Seq<LiveView>) -> bool {
    entry.copy_state.is_pending() && route_of(entry, config, torrents).is_some()
}

/// The position of the first entry, from `start` on, that is due for a copy.
pub open spec fn next_eligible(
    ledger: Seq<EntryView>,
    config: ConfigView,
    torrents: Seq<LiveView>,
    start: int,
) -> Option<int>
    decreases ledger.len() - start,
{
    if start < 0 || start >= ledger.len() {
        None
    } else if eligible(ledger[start], config, torrents) {
        Some(start)
    } else {
        next_eligible(ledger, config, torrents, start + 1)
    }
}

/// A search for the next entry that is due returns a position within the
/// ledger, at or after the start, of an entry that is due, with none due
/// between the start and it; it returns nothing only if none is due from
/// the start on.
pub proof fn lemma_next_eligible(
    ledger: Seq<EntryView>,
    config: ConfigView,
    torrents: Seq<LiveView>,
    start: int,
)
    requires
        0 <= start,
    ensures
        match next_eligible(ledger, config, torrents, start) {
            Some(i) => start <= i < ledger.len() && eligible(ledger[i], config, torrents)
                && forall|j: int| start <= j < i ==> !eligible(#[trigger] ledger[j], config, torrents),
            None => forall|j: int|
                start <= j < ledger.len() ==> !eligible(#[trigger] ledger[j], config, torrents),
        },
    decreases ledger.len() - start,
{
    if start < ledger.len() && !eligible(ledger[start], config, torrents) {
        lemma_next_eligible(ledger, config, torrents, start + 1);
    }
}

/// Finds the first torrent that reports an identity matching `hash`.
pub fn find_live(sightings: &Vec<Sighting>, hash: &str) -> (r: Option<usize>)
    ensures
        match r {
            Some(k) => live_match(live_views(sightings@), hash@) == Some(k as int) && k
                < sightings.len(),
            None => live_match(live_views(sightings@), hash@).is_none(),
        },
{
    let ghost torrents = live_views(sightings@);
    let mut k: usize = 0;
    while k < sightings.len()
        invariant
            k <= sightings.len(),
            torrents == live_views(sightings@),
            live_match(torrents, hash@) == live_match_from(torrents, hash@, k as int),
        decreases sightings.len() - k,
    {
        match &sightings[k].torrent.hash_string {
            Some(h) => {
                if identity_matches(h.as_str(), hash) {
                    return Some(k);
                }
            },
            None => {},
        }
        k += 1;
    }
    None
}

/// Works out the route of an entry's files, if it has one.
pub fn route_for(entry: &DownloadEntry, config: &TransmissionConfig, sightings: &Vec<Sighting>) -> (r:
    Option<Route>)
    ensures
        match r {
            Some(route) => route_of(entry@, config@, live_views(sightings@)) == Some(route@),
            None => route_of(entry@, config@, live_views(sightings@)).is_none(),
        },
{
    match find_live(sightings, entry.info_hash.as_str()) {
        Some(k) => {
            let t = &sightings[k].torrent;
            if !t.complete {
                return None;
            }
            let source_dir = match &t.download_dir {
                Some(d) => d.clone(),
                None => {
                    return None;
                },
            };
            let dest_dir = match target_dir(config, entry.destination) {
                Some(d) => String::from_str(d),
                None => {
                    return None;
                },
            };
            let name = match &t.name {
                Some(n) => n.clone(),
                None => entry.name.clone(),
            };
            Some(Route { source_dir, dest_dir, name })
        },
        None => None,
    }
}

/// Finds the first entry, from `start` on, that is due for a copy, and its
/// route.
pub fn next_job(
    ledger: &Vec<DownloadEntry>,
    config: &TransmissionConfig,
    sightings: &Vec<Sighting>,
    start: usize,
) -> (r: Option<(usize, Route)>)
    ensures
        match r {
            Some(job) => next_eligible(views(ledger@), config@, live_views(sightings@), start as int)
                == Some(job.0 as int) && job.0 < ledger.len() && route_of(
                views(ledger@)[job.0 as int],
                config@,
                live_views(sightings@),
            ) == Some(job.1@),
            None => next_eligible(
                views(ledger@),
                config@,
                live_views(sightings@),
                start as int,
            ).is_none(),
        },
{
    let ghost entries = views(ledger@);
    let ghost torrents = live_views(sightings@);
    let mut i: usize = start;
    while i < ledger.len()
        invariant
            start <= i,
            entries == views(ledger@),
            torrents == live_views(sightings@),
            next_eligible(entries, config@, torrents, start as int) == next_eligible(
                entries,
                config@,
                torrents,
                i as int,
            ),
        decreases ledger.len() - i,
    {
        if ledger[i].copy_state.pending() {
            match route_for(&ledger[i], config, sightings) {
                Some(route) => {
                    return Some((i, route));
                },
                None => {},
            }
        }
        i += 1;
    }
    None
}

} // verus!
