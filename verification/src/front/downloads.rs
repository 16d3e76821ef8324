//! The table of downloads: how its rows are coloured and when it is built
//! anew.

use vstd::prelude::*;
use crate::wire::{Destination, TransmissionStatus};

verus! {

/// The colour scheme of a badge or a bar.
#[derive(Clone, Copy, Debug, PartialEq, Eq, Structural)]
pub enum Flavor {
    Primary,
    Secondary,
    Success,
    Danger,
    Warning,
    Info,
}

/// The flavor in which a status is shown.
pub open spec fn flavor_of_status(status: TransmissionStatus) -> Flavor {
    match status {
        TransmissionStatus::Downloading => Flavor::Primary,
        TransmissionStatus::Seeding => Flavor::Success,
        TransmissionStatus::Stopped => Flavor::Secondary,
        TransmissionStatus::QueuedDownload => Flavor::Warning,
        TransmissionStatus::QueuedSeed => Flavor::Warning,
        TransmissionStatus::Verifying => Flavor::Info,
        TransmissionStatus::QueuedVerify => Flavor::Info,
    }
}

/// The flavor in which a status is shown.
pub fn status_flavor(status: &TransmissionStatus) -> (r: Flavor)
    ensures
        r == flavor_of_status(*status),
{
    match status {
        TransmissionStatus::Downloading => Flavor::Primary,
        TransmissionStatus::Seeding => Flavor::Success,
        TransmissionStatus::Stopped => Flavor::Secondary,
        TransmissionStatus::QueuedDownload => Flavor::Warning,
        TransmissionStatus::QueuedSeed => Flavor::Warning,
        TransmissionStatus::Verifying => Flavor::Info,
        TransmissionStatus::QueuedVerify => Flavor::Info,
    }
}

/// The flavor in which a destination is shown.
pub fn dest_flavor(dest: &Destination) -> (r: Flavor)
    ensures
        r == match *dest {
            Destination::Movies => Flavor::Info,
            Destination::Shows => Flavor::Warning,
        },
{
    match dest {
        Destination::Movies => Flavor::Info,
        Destination::Shows => Flavor::Warning,
    }
}

/// Whether the assign buttons are shown for a torrent: they are while it
/// has no destination.
pub fn shows_assign_buttons(destination: Option<Destination>) -> (r: bool)
    ensures
        r == destination.is_none(),
{
    destination.is_none()
}

/// Whether the rows of the table have to be built anew: they have to when
/// the daemon reports another number of torrents, or another torrent in
/// some row. Otherwise the rows are updated in place.
pub fn needs_rebuild(rows: &Vec<i64>, torrents: &Vec<i64>) -> (r: bool)
    ensures
        r == (rows@ != torrents@),
{
    if rows.len() != torrents.len() {
        return true;
    }
    let mut i: usize = 0;
    while i < rows.len()
        invariant
            rows.len() == torrents.len(),
            i <= rows.len(),
            forall|k: int| 0 <= k < i ==> rows@[k] == torrents@[k],
        decreases rows.len() - i,
    {
        if rows[i] != torrents[i] {
            return true;
        }
        i += 1;
    }
    assert(rows@ =~= torrents@);
    false
}

} // verus!
