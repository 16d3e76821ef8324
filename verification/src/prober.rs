//! What was found in the destination directories, and what follows from it.
//!
//! The caller looks into the directories; this module decides what to look
//! for and what a finding means.

use vstd::prelude::*;
use crate::wire::{ConfigView, CopyState, Destination, TransmissionConfig, opt_text};

verus! {

/// Whether an item of one name was found directly under the directory of
/// each destination. A flag for a destination without a directory means
/// nothing and is ignored.
#[derive(Clone, Copy, Debug, PartialEq, Eq, Structural)]
pub struct Presence {
    pub movies: bool,
    pub shows: bool,
}

impl Presence {
    /// Nothing was found anywhere.
    pub fn nowhere() -> (r: Self)
        ensures
            r == (Presence { movies: false, shows: false }),
    {
        Presence { movies: false, shows: false }
    }

    /// Whether the item was found under the directory of `dest`.
    pub open spec fn at(self, dest: Destination) -> bool {
        match dest {
            Destination::Movies => self.movies,
            Destination::Shows => self.shows,
        }
    }

    /// Whether the item was found under the directory of `dest`.
    pub fn found_at(&self, dest: Destination) -> (r: bool)
        ensures
            r == self.at(dest),
    {
        match dest {
            Destination::Movies => self.movies,
            Destination::Shows => self.shows,
        }
    }
}

/// What the daemon reports of one torrent, as plain values.
pub struct LiveView {
    pub hash_string: Option<Seq<char>>,
    pub name: Option<Seq<char>>,
    pub complete: bool,
    pub download_dir: Option<Seq<char>>,
}

/// A snapshot of one torrent from the daemon. It is not kept between cycles.
#[derive(Clone, Debug, PartialEq)]
pub struct LiveTorrent {
    /// The identity of the content.
    pub hash_string: Option<String>,
    /// The name under which the files lie on disk.
    pub name: Option<String>,
    /// Whether the download has reached its full size.
    pub complete: bool,
    /// The directory in which the daemon keeps the files.
    pub download_dir: Option<String>,
}

impl View for LiveTorrent {
    type V = LiveView;

    open spec fn view(&self) -> LiveView {
        LiveView {
            hash_string: opt_text(self.hash_string),
            name: opt_text(self.name),
            complete: self.complete,
            download_dir: opt_text(self.download_dir),
        }
    }
}

/// A torrent and what was found for its name, as plain values.
pub struct SightingView {
    pub torrent: LiveView,
    pub found: Presence,
}

/// A torrent from the daemon together with what a look into the destination
/// directories found for its name.
#[derive(Clone, Debug, PartialEq)]
pub struct Sighting {
    pub torrent: LiveTorrent,
    pub found: Presence,
}

impl View for Sighting {
    type V = SightingView;

    open spec fn view(&self) -> SightingView {
        SightingView { torrent: self.torrent@, found: self.found }
    }
}

/// The sightings of a cycle as plain values.
pub open spec fn sighting_views(sightings: Seq<Sighting>) -> Seq<SightingView> {
    Seq::new(sightings.len(), |i: int| sightings[i]@)
}

/// The torrents among the sightings.
pub open spec fn torrents_of(sightings: Seq<SightingView>) -> Seq<LiveView> {
    Seq::new(sightings.len(), |i: int| sightings[i].torrent)
}

/// The torrents of a cycle as plain values.
pub open spec fn live_views(sightings: Seq<Sighting>) -> Seq<LiveView> {
    Seq::new(sightings.len(), |i: int| sightings[i]@.torrent)
}

/// The torrents of a cycle are the torrents among its sightings.
pub proof fn lemma_live_views(sightings: Seq<Sighting>)
    ensures
        live_views(sightings) == torrents_of(sighting_views(sightings)),
{
}

/// An item is at a destination when a non-empty directory is configured for
/// the destination and the item was found under it.
pub open spec fn exists_at(config: ConfigView, dest: Destination, seen: Presence) -> bool {
    config.target_dir(dest).is_some() && seen.at(dest)
}

/// The destination at which an item was found, `Movies` before `Shows`,
/// together with the state that such an item is adopted in.
pub open spec fn detected(config: ConfigView, seen: Presence) -> Option<(Destination, CopyState)> {
    if exists_at(config, Destination::Movies, seen) {
        Some((Destination::Movies, CopyState::Copied))
    } else if exists_at(config, Destination::Shows, seen) {
        Some((Destination::Shows, CopyState::Copied))
    } else {
        None
    }
}

/// The directory under which to look for the items of a destination, and to
/// which its copies go: the configured one, unless it is missing or empty.
pub fn target_dir(config: &TransmissionConfig, dest: Destination) -> (r: Option<&str>)
    ensures
        match r {
            Some(d) => config@.target_dir(dest) == Some(d@),
            None => config@.target_dir(dest).is_none(),
        },
{
    match config.dir_for(dest) {
        Some(d) => {
            if d.unicode_len() > 0 {
                Some(d)
            } else {
                None
            }
        },
        None => None,
    }
}

/// Whether a torrent's files are already at the destination.
pub fn check_already_copied(config: &TransmissionConfig, dest: Destination, seen: &Presence) -> (r: bool)
    ensures
        r == exists_at(config@, dest, *seen),
{
    match target_dir(config, dest) {
        Some(_) => seen.found_at(dest),
        None => false,
    }
}

/// Detects at which destination a torrent's files already are, looking at
/// `Movies` first and at `Shows` second.
pub fn detect_destination(config: &TransmissionConfig, seen: &Presence) -> (r: Option<(Destination, CopyState)>)
    ensures
        r == detected(config@, *seen),
{
    if check_already_copied(config, Destination::Movies, seen) {
        Some((Destination::Movies, CopyState::Copied))
    } else if check_already_copied(config, Destination::Shows, seen) {
        Some((Destination::Shows, CopyState::Copied))
    } else {
        None
    }
}

/// A finding counts only where a directory is configured: without one for
/// either destination nothing is detected, whatever the flags say.
pub proof fn lemma_nothing_detected_without_directories(config: ConfigView, seen: Presence)
    requires
        config.target_dir(Destination::Movies).is_none(),
        config.target_dir(Destination::Shows).is_none(),
    ensures
        detected(config, seen).is_none(),
{
}

} // verus!
