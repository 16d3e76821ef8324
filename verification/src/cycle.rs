//! One cycle of the background task, as a state machine.
//!
//! The caller does the outside work: it waits, reads the files, talks to the
//! daemon, looks into directories, copies and removes. After each piece of
//! work it reports what happened, and the machine changes the ledger and
//! says what to do next. The ledger is handed to the machine at every step,
//! so nothing of it is kept here between steps.

use vstd::prelude::*;
use crate::daemon::{
    auth_view, chosen_auth, endpoint_for, rpc_address, url_judgement, url_parse_error, Endpoint,
};
use crate::error::TransmissionError;
use crate::ledger::{unique_identities, views};
use crate::prober::{
    lemma_live_views, live_views, sighting_views, torrents_of, LiveView, Sighting, SightingView,
};
use crate::reconcile::{
    lemma_reconcile_extends, lemma_reconciliation_keeps_unique, reconcile, reconciliation,
};
use crate::route::{lemma_next_eligible, next_eligible, next_job, route_for, route_of, Route};
use crate::wire::{
    ConfigView, CopyState, DownloadEntry, EntryView, ErrorKind, TransmissionConfig, opt_text,
};

verus! {

/// Where a cycle stands: which report the machine waits for.
#[derive(Clone, Copy, Debug, PartialEq, Eq, Structural)]
pub enum Phase {
    /// Between cycles: waiting to be woken.
    Idle,
    /// The daemon was asked for its torrents.
    Fetching,
    /// The reconciled ledger is being saved.
    SavingReconciled,
    /// The destination of the entry at `index` is being looked at.
    ProbingDest { index: usize },
    /// The source of the entry at `index` is being looked at.
    ProbingSource { index: usize },
    /// The ledger that shows the entry at `index` as `Copying` is being saved.
    Announcing { index: usize },
    /// The files of the entry at `index` are being copied.
    Transferring { index: usize },
    /// What a failed copy of the entry at `index` left behind is being removed.
    Cleaning { index: usize },
    /// The ledger that shows the outcome for the entry at `index` is being saved.
    Recording { index: usize },
}

/// What the caller reports after it has done what it was told.
#[derive(Clone, Copy, Debug, PartialEq, Eq, Structural)]
pub enum Event {
    /// The timer ran out or a wake signal came, and configuration and ledger
    /// were read from disk.
    Woke,
    /// The daemon answered; the sightings handed over with this report are
    /// its torrents and what was found for each.
    Fetched,
    /// The daemon could not be reached, or answered with a failure.
    FetchFailed,
    /// The path looked at exists, or does not.
    Probed(bool),
    /// The ledger was written, or the attempt was logged as failed.
    Saved,
    /// The copy ran to its end, or broke off with an error.
    CopyDone(bool),
    /// What was at the destination path is gone.
    Removed,
}

/// What the caller is told to do next.
#[derive(Clone, Debug, PartialEq)]
pub enum Action {
    /// Wait for the timer or a wake signal, read configuration and ledger
    /// from disk, and report `Woke`.
    Wait,
    /// Log the error, then do as for `Wait`.
    Abort(TransmissionError),
    /// Ask the daemon at this endpoint for its torrents, look into the
    /// destination directories for each, and report `Fetched` or `FetchFailed`.
    Fetch(Endpoint),
    /// Write the ledger to disk and report `Saved`.
    Save,
    /// Report whether `name` exists under `dir`, the destination directory.
    ProbeDestination { dir: String, name: String },
    /// Report whether `name` exists under `dir`, the daemon's directory.
    ProbeSource { dir: String, name: String },
    /// Copy `name` under `source_dir` to `name` under `dest_dir`, and report
    /// `CopyDone`.
    Copy { source_dir: String, dest_dir: String, name: String },
    /// Remove `name` under `dir`, whatever it is, and report `Removed`.
    RemovePartial { dir: String, name: String },
}

/// An action as plain values.
pub enum ActionView {
    Wait,
    Abort { kind: ErrorKind, text: Seq<char> },
    Fetch { address: Seq<char>, auth: Option<(Seq<char>, Seq<char>)> },
    Save,
    ProbeDestination { dir: Seq<char>, name: Seq<char> },
    ProbeSource { dir: Seq<char>, name: Seq<char> },
    Copy { source_dir: Seq<char>, dest_dir: Seq<char>, name: Seq<char> },
    RemovePartial { dir: Seq<char>, name: Seq<char> },
}

impl View for Action {
    type V = ActionView;

    open spec fn view(&self) -> ActionView {
        match *self {
            Action::Wait => ActionView::Wait,
            Action::Abort(e) => ActionView::Abort { kind: e.kind(), text: e.text() },
            Action::Fetch(endpoint) => ActionView::Fetch {
                address: endpoint.address@,
                auth: auth_view(endpoint.auth),
            },
            Action::Save => ActionView::Save,
            Action::ProbeDestination { dir, name } => ActionView::ProbeDestination {
                dir: dir@,
                name: name@,
            },
            Action::ProbeSource { dir, name } => ActionView::ProbeSource { dir: dir@, name: name@ },
            Action::Copy { source_dir, dest_dir, name } => ActionView::Copy {
                source_dir: source_dir@,
                dest_dir: dest_dir@,
                name: name@,
            },
            Action::RemovePartial { dir, name } => ActionView::RemovePartial {
                dir: dir@,
                name: name@,
            },
        }
    }
}

/// What a step gives: the ledger after it, the phase after it, and what to
/// do next.
pub struct Outcome {
    pub ledger: Seq<EntryView>,
    pub phase: Phase,
    pub action: ActionView,
}

/// The ledger with the state of the entry at `i` replaced.
pub open spec fn with_state(ledger: Seq<EntryView>, i: int, state: CopyState) -> Seq<EntryView> {
    ledger.update(i, EntryView { copy_state: state, ..ledger[i] })
}

/// The step that turns to the next entry that is due, from `start` on: its
/// destination is looked at first. With none left the cycle is over.
pub open spec fn turn_to_next(
    ledger: Seq<EntryView>,
    config: ConfigView,
    torrents: Seq<LiveView>,
    start: int,
) -> Outcome {
    match next_eligible(ledger, config, torrents, start) {
        Some(i) => {
            let route = route_of(ledger[i], config, torrents).unwrap();
            Outcome {
                ledger: ledger,
                phase: Phase::ProbingDest { index: i as usize },
                action: ActionView::ProbeDestination { dir: route.dest_dir, name: route.name },
            }
        },
        None => Outcome { ledger: ledger, phase: Phase::Idle, action: ActionView::Wait },
    }
}

/// The step that gives the cycle up: the ledger stays as it is.
pub open spec fn give_up(ledger: Seq<EntryView>) -> Outcome {
    Outcome { ledger: ledger, phase: Phase::Idle, action: ActionView::Wait }
}

/// The entry at `i` waits for its copy and has a route.
pub open spec fn due(ledger: Seq<EntryView>, config: ConfigView, torrents: Seq<LiveView>, i: int) -> bool {
    0 <= i < ledger.len() && ledger[i].copy_state.is_pending() && route_of(
        ledger[i],
        config,
        torrents,
    ).is_some()
}

/// The entry at `i` is shown as `Copying` and has a route.
pub open spec fn in_flight(
    ledger: Seq<EntryView>,
    config: ConfigView,
    torrents: Seq<LiveView>,
    i: int,
) -> bool {
    0 <= i < ledger.len() && ledger[i].copy_state == CopyState::Copying && route_of(
        ledger[i],
        config,
        torrents,
    ).is_some()
}

/// One step of the cycle.
///
/// `fault` is the parser's judgement of the daemon's address; it matters
/// only when the machine is woken. A report that the phase does not wait
/// for gives the cycle up.
pub open spec fn step(
    ledger: Seq<EntryView>,
    config: ConfigView,
    sightings: Seq<SightingView>,
    fault: Option<Seq<char>>,
    phase: Phase,
    event: Event,
) -> Outcome {
    let torrents = torrents_of(sightings);
    match (phase, event) {
        (Phase::Idle, Event::Woke) => match fault {
            Some(reason) => Outcome {
                ledger: ledger,
                phase: Phase::Idle,
                action: ActionView::Abort {
                    kind: ErrorKind::InvalidUrl,
                    text: "Invalid Transmission URL '"@ + rpc_address(config) + "': "@ + reason,
                },
            },
            None => Outcome {
                ledger: ledger,
                phase: Phase::Fetching,
                action: ActionView::Fetch { address: rpc_address(config), auth: chosen_auth(config) },
            },
        },
        (Phase::Fetching, Event::Fetched) => {
            let after = reconciliation(ledger, config, sightings);
            if after != ledger {
                Outcome { ledger: after, phase: Phase::SavingReconciled, action: ActionView::Save }
            } else {
                turn_to_next(after, config, torrents, 0)
            }
        },
        (Phase::SavingReconciled, Event::Saved) => turn_to_next(ledger, config, torrents, 0),
        (Phase::ProbingDest { index }, Event::Probed(present)) => {
            if !due(ledger, config, torrents, index as int) {
                turn_to_next(ledger, config, torrents, index + 1)
            } else if present {
                Outcome {
                    ledger: with_state(ledger, index as int, CopyState::Copied),
                    phase: Phase::Recording { index: index },
                    action: ActionView::Save,
                }
            } else {
                let route = route_of(ledger[index as int], config, torrents).unwrap();
                Outcome {
                    ledger: ledger,
                    phase: Phase::ProbingSource { index: index },
                    action: ActionView::ProbeSource { dir: route.source_dir, name: route.name },
                }
            }
        },
        (Phase::ProbingSource { index }, Event::Probed(present)) => {
            if !due(ledger, config, torrents, index as int) || !present {
                turn_to_next(ledger, config, torrents, index + 1)
            } else {
                Outcome {
                    ledger: with_state(ledger, index as int, CopyState::Copying),
                    phase: Phase::Announcing { index: index },
                    action: ActionView::Save,
                }
            }
        },
        (Phase::Announcing { index }, Event::Saved) => {
            if !in_flight(ledger, config, torrents, index as int) {
                turn_to_next(ledger, config, torrents, index + 1)
            } else {
                let route = route_of(ledger[index as int], config, torrents).unwrap();
                Outcome {
                    ledger: ledger,
                    phase: Phase::Transferring { index: index },
                    action: ActionView::Copy {
                        source_dir: route.source_dir,
                        dest_dir: route.dest_dir,
                        name: route.name,
                    },
                }
            }
        },
        (Phase::Transferring { index }, Event::CopyDone(ok)) => {
            if !in_flight(ledger, config, torrents, index as int) {
                turn_to_next(ledger, config, torrents, index + 1)
            } else if ok {
                Outcome {
                    ledger: with_state(ledger, index as int, CopyState::Copied),
                    phase: Phase::Recording { index: index },
                    action: ActionView::Save,
                }
            } else {
                let route = route_of(ledger[index as int], config, torrents).unwrap();
                Outcome {
                    ledger: with_state(ledger, index as int, CopyState::Failed),
                    phase: Phase::Cleaning { index: index },
                    action: ActionView::RemovePartial { dir: route.dest_dir, name: route.name },
                }
            }
        },
        (Phase::Cleaning { index }, Event::Removed) => Outcome {
            ledger: ledger,
            phase: Phase::Recording { index: index },
            action: ActionView::Save,
        },
        (Phase::Recording { index }, Event::Saved) => turn_to_next(
            ledger,
            config,
            torrents,
            index + 1,
        ),
        _ => give_up(ledger),
    }
}

/// Turns to the next entry that is due, from `start` on.
fn turn(
    ledger: &Vec<DownloadEntry>,
    config: &TransmissionConfig,
    sightings: &Vec<Sighting>,
    start: usize,
) -> (r: (Phase, Action))
    ensures
        ({
            let o = turn_to_next(views(ledger@), config@, live_views(sightings@), start as int);
            r.0 == o.phase && r.1@ == o.action
        }),
{
    match next_job(ledger, config, sightings, start) {
        Some(job) => (
            Phase::ProbingDest { index: job.0 },
            Action::ProbeDestination { dir: job.1.dest_dir, name: job.1.name },
        ),
        None => (Phase::Idle, Action::Wait),
    }
}

/// Turns to the next entry that is due behind the one at `index`.
fn turn_behind(
    ledger: &Vec<DownloadEntry>,
    config: &TransmissionConfig,
    sightings: &Vec<Sighting>,
    index: usize,
) -> (r: (Phase, Action))
    ensures
        ({
            let o = turn_to_next(views(ledger@), config@, live_views(sightings@), index + 1);
            r.0 == o.phase && r.1@ == o.action
        }),
{
    if index < ledger.len() {
        turn(ledger, config, sightings, index + 1)
    } else {
        (Phase::Idle, Action::Wait)
    }
}

/// The route of the entry at `index`, if the entry exists, is in one of the
/// two states given and has a route.
fn route_at(
    ledger: &Vec<DownloadEntry>,
    config: &TransmissionConfig,
    sightings: &Vec<Sighting>,
    index: usize,
    waiting: bool,
) -> (r: Option<Route>)
    ensures
        match r {
            Some(route) => index < ledger.len() && route_of(
                views(ledger@)[index as int],
                config@,
                live_views(sightings@),
            ) == Some(route@),
            None => true,
        },
        waiting ==> (r.is_some() <==> due(views(ledger@), config@, live_views(sightings@), index as int)),
        !waiting ==> (r.is_some() <==> in_flight(
            views(ledger@),
            config@,
            live_views(sightings@),
            index as int,
        )),
{
    if index >= ledger.len() {
        return None;
    }
    let state = ledger[index].copy_state;
    let fits = if waiting {
        state.pending()
    } else {
        state == CopyState::Copying
    };
    if fits {
        route_for(&ledger[index], config, sightings)
    } else {
        None
    }
}

/// Takes one step of the cycle, given the parser's judgement of the
/// daemon's address.
pub fn cycle_step_with(
    ledger: &mut Vec<DownloadEntry>,
    config: &TransmissionConfig,
    sightings: &Vec<Sighting>,
    fault: Option<String>,
    phase: Phase,
    event: Event,
) -> (r: (Phase, Action))
    ensures
        ({
            let o = step(
                views(old(ledger)@),
                config@,
                sighting_views(sightings@),
                opt_text(fault),
                phase,
                event,
            );
            views(final(ledger)@) == o.ledger && r.0 == o.phase && r.1@ == o.action
        }),
{
    proof {
        lemma_live_views(sightings@);
    }
    match phase {
        Phase::Idle => match event {
            Event::Woke => match endpoint_for(config, fault) {
                Ok(endpoint) => (Phase::Fetching, Action::Fetch(endpoint)),
                Err(e) => (Phase::Idle, Action::Abort(e)),
            },
            _ => (Phase::Idle, Action::Wait),
        },
        Phase::Fetching => match event {
            Event::Fetched => {
                if reconcile(ledger, config, sightings) {
                    (Phase::SavingReconciled, Action::Save)
                } else {
                    turn(ledger, config, sightings, 0)
                }
            },
            _ => (Phase::Idle, Action::Wait),
        },
        Phase::SavingReconciled => match event {
            Event::Saved => turn(ledger, config, sightings, 0),
            _ => (Phase::Idle, Action::Wait),
        },
        Phase::ProbingDest { index } => match event {
            Event::Probed(present) => match route_at(ledger, config, sightings, index, true) {
                Some(route) => {
                    if present {
                        ledger[index].copy_state = CopyState::Copied;
                        (Phase::Recording { index }, Action::Save)
                    } else {
                        (
                            Phase::ProbingSource { index },
                            Action::ProbeSource { dir: route.source_dir, name: route.name },
                        )
                    }
                },
                None => turn_behind(ledger, config, sightings, index),
            },
            _ => (Phase::Idle, Action::Wait),
        },
        Phase::ProbingSource { index } => match event {
            Event::Probed(present) => match route_at(ledger, config, sightings, index, true) {
                Some(_) => {
                    if present {
                        ledger[index].copy_state = CopyState::Copying;
                        (Phase::Announcing { index }, Action::Save)
                    } else {
                        turn_behind(ledger, config, sightings, index)
                    }
                },
                None => turn_behind(ledger, config, sightings, index),
            },
            _ => (Phase::Idle, Action::Wait),
        },
        Phase::Announcing { index } => match event {
            Event::Saved => match route_at(ledger, config, sightings, index, false) {
                Some(route) => (
                    Phase::Transferring { index },
                    Action::Copy {
                        source_dir: route.source_dir,
                        dest_dir: route.dest_dir,
                        name: route.name,
                    },
                ),
                None => turn_behind(ledger, config, sightings, index),
            },
            _ => (Phase::Idle, Action::Wait),
        },
        Phase::Transferring { index } => match event {
            Event::CopyDone(ok) => match route_at(ledger, config, sightings, index, false) {
                Some(route) => {
                    if ok {
                        ledger[index].copy_state = CopyState::Copied;
                        (Phase::Recording { index }, Action::Save)
                    } else {
                        ledger[index].copy_state = CopyState::Failed;
                        (
                            Phase::Cleaning { index },
                            Action::RemovePartial { dir: route.dest_dir, name: route.name },
                        )
                    }
                },
                None => turn_behind(ledger, config, sightings, index),
            },
            _ => (Phase::Idle, Action::Wait),
        },
        Phase::Cleaning { index } => match event {
            Event::Removed => (Phase::Recording { index }, Action::Save),
            _ => (Phase::Idle, Action::Wait),
        },
        Phase::Recording { index } => match event {
            Event::Saved => turn_behind(ledger, config, sightings, index),
            _ => (Phase::Idle, Action::Wait),
        },
    }
}

/// Takes one step of the cycle.
///
/// When the machine is woken it has the daemon's address judged by the URL
/// parser; an address that is no URL ends the cycle at once, with the ledger
/// as it was.
pub fn cycle_step(
    ledger: &mut Vec<DownloadEntry>,
    config: &TransmissionConfig,
    sightings: &Vec<Sighting>,
    phase: Phase,
    event: Event,
) -> (r: (Phase, Action))
    ensures
        ({
            let o = step(
                views(old(ledger)@),
                config@,
                sighting_views(sightings@),
                url_parse_error(rpc_address(config@)),
                phase,
                event,
            );
            views(final(ledger)@) == o.ledger && r.0 == o.phase && r.1@ == o.action
        }),
{
    let woken = match phase {
        Phase::Idle => match event {
            Event::Woke => true,
            _ => false,
        },
        _ => false,
    };
    let fault = if woken {
        url_judgement(config)
    } else {
        None
    };
    cycle_step_with(ledger, config, sightings, fault, phase, event)
}

/// The steps of the copy state machine: a waiting or failed entry starts
/// to copy, and a copy ends in `Copied` or in `Failed`.
pub open spec fn listed_edge(a: CopyState, b: CopyState) -> bool {
    ||| (a == CopyState::NotCopied && b == CopyState::Copying)
    ||| (a == CopyState::Copying && b == CopyState::Copied)
    ||| (a == CopyState::Copying && b == CopyState::Failed)
    ||| (a == CopyState::Failed && b == CopyState::Copying)
}

/// Some entry went from waiting straight to `Copied`, as it does when its
/// files are found at the destination.
pub open spec fn jumps_to_copied(before: Seq<EntryView>, after: Seq<EntryView>) -> bool {
    exists|i: int|
        0 <= i < before.len() && i < after.len() && (#[trigger] before[i]).copy_state.is_pending()
            && after[i].copy_state == CopyState::Copied
}

/// Whatever is reported in whatever phase, a step drops no entry and
/// changes no identity, name or destination; and each state stays as it is,
/// moves along a step of the copy state machine, or goes from waiting
/// straight to `Copied`.
pub proof fn lemma_step_keeps_entries(
    ledger: Seq<EntryView>,
    config: ConfigView,
    sightings: Seq<SightingView>,
    fault: Option<Seq<char>>,
    phase: Phase,
    event: Event,
)
    ensures
        ({
            let after = step(ledger, config, sightings, fault, phase, event).ledger;
            &&& ledger.len() <= after.len()
            &&& forall|i: int|
                0 <= i < ledger.len() ==> {
                    &&& (#[trigger] after[i]).info_hash == ledger[i].info_hash
                    &&& after[i].name == ledger[i].name
                    &&& after[i].destination == ledger[i].destination
                    &&& (after[i].copy_state == ledger[i].copy_state || listed_edge(
                        ledger[i].copy_state,
                        after[i].copy_state,
                    ) || (ledger[i].copy_state.is_pending() && after[i].copy_state
                        == CopyState::Copied))
                }
        }),
{
    if phase == Phase::Fetching && event == Event::Fetched {
        lemma_reconcile_extends(ledger, config, sightings);
    }
}

/// An entry that is `Copied` stays `Copied`, whatever is reported in
/// whatever phase.
pub proof fn lemma_copied_never_regresses(
    ledger: Seq<EntryView>,
    config: ConfigView,
    sightings: Seq<SightingView>,
    fault: Option<Seq<char>>,
    phase: Phase,
    event: Event,
    i: int,
)
    requires
        0 <= i < ledger.len(),
        ledger[i].copy_state == CopyState::Copied,
    ensures
        step(ledger, config, sightings, fault, phase, event).ledger[i].copy_state
            == CopyState::Copied,
{
    lemma_step_keeps_entries(ledger, config, sightings, fault, phase, event);
}

/// Unless an entry's files are found at the destination, so that it goes
/// from waiting straight to `Copied`, every state that a step changes moves
/// along a step of the copy state machine.
pub proof fn lemma_states_move_along_edges(
    ledger: Seq<EntryView>,
    config: ConfigView,
    sightings: Seq<SightingView>,
    fault: Option<Seq<char>>,
    phase: Phase,
    event: Event,
    i: int,
)
    requires
        0 <= i < ledger.len(),
        !jumps_to_copied(ledger, step(ledger, config, sightings, fault, phase, event).ledger),
    ensures
        ({
            let after = step(ledger, config, sightings, fault, phase, event).ledger;
            after[i].copy_state == ledger[i].copy_state || listed_edge(
                ledger[i].copy_state,
                after[i].copy_state,
            )
        }),
{
    lemma_step_keeps_entries(ledger, config, sightings, fault, phase, event);
}

/// An entry whose destination path exists counts as copied: the step that
/// learns of it makes the entry `Copied` and asks for the ledger to be
/// saved, and the step after the save turns to the entries behind it. No
/// copy is asked for.
pub proof fn lemma_existing_destination_is_success(
    ledger: Seq<EntryView>,
    config: ConfigView,
    sightings: Seq<SightingView>,
    fault: Option<Seq<char>>,
    index: usize,
)
    requires
        due(ledger, config, torrents_of(sightings), index as int),
    ensures
        ({
            let found = step(
                ledger,
                config,
                sightings,
                fault,
                Phase::ProbingDest { index: index },
                Event::Probed(true),
            );
            let saved = step(found.ledger, config, sightings, fault, found.phase, Event::Saved);
            &&& found.ledger == with_state(ledger, index as int, CopyState::Copied)
            &&& found.phase == Phase::Recording { index: index }
            &&& found.action == ActionView::Save
            &&& saved == turn_to_next(found.ledger, config, torrents_of(sightings), index + 1)
            &&& !(saved.action is Copy)
            &&& saved.ledger == found.ledger
        }),
{
}

/// A copy that broke off leaves the entry `Failed`, and what it wrote is
/// removed before the ledger is saved: the step that learns of the failure
/// asks for the removal of the very path that the copy was to write, and
/// the step after the removal asks for the save, with the entry still
/// `Failed`.
pub proof fn lemma_failed_copy_is_cleaned(
    ledger: Seq<EntryView>,
    config: ConfigView,
    sightings: Seq<SightingView>,
    fault: Option<Seq<char>>,
    index: usize,
)
    requires
        in_flight(ledger, config, torrents_of(sightings), index as int),
    ensures
        ({
            let route = route_of(ledger[index as int], config, torrents_of(sightings)).unwrap();
            let started = step(
                ledger,
                config,
                sightings,
                fault,
                Phase::Announcing { index: index },
                Event::Saved,
            );
            let failed = step(
                ledger,
                config,
                sightings,
                fault,
                Phase::Transferring { index: index },
                Event::CopyDone(false),
            );
            let removed = step(failed.ledger, config, sightings, fault, failed.phase, Event::Removed);
            &&& started.action == (ActionView::Copy {
                source_dir: route.source_dir,
                dest_dir: route.dest_dir,
                name: route.name,
            })
            &&& failed.ledger == with_state(ledger, index as int, CopyState::Failed)
            &&& failed.action == (ActionView::RemovePartial { dir: route.dest_dir, name: route.name })
            &&& removed.action == ActionView::Save
            &&& removed.ledger == failed.ledger
            &&& removed.ledger[index as int].copy_state == CopyState::Failed
        }),
{
}

/// Connection parameters that make no URL end the cycle as soon as it
/// begins: the ledger stays as it is, the error is handed over to be
/// logged, and the machine waits for the next wake.
pub proof fn lemma_malformed_address_aborts(
    ledger: Seq<EntryView>,
    config: ConfigView,
    sightings: Seq<SightingView>,
    reason: Seq<char>,
)
    ensures
        ({
            let o = step(ledger, config, sightings, Some(reason), Phase::Idle, Event::Woke);
            &&& o.ledger == ledger
            &&& o.phase == Phase::Idle
            &&& o.action is Abort
            &&& o.action->Abort_kind == ErrorKind::InvalidUrl
        }),
{
}

/// A cycle copies only what is due: the entry that a step turns to waits
/// for its copy, its torrent is complete and reports its directory, and a
/// non-empty directory is configured for its destination.
pub proof fn lemma_turns_only_to_due(
    ledger: Seq<EntryView>,
    config: ConfigView,
    torrents: Seq<LiveView>,
    start: int,
)
    requires
        0 <= start,
        ledger.len() <= usize::MAX,
    ensures
        match turn_to_next(ledger, config, torrents, start).phase {
            Phase::ProbingDest { index } => due(ledger, config, torrents, index as int) && start
                <= index,
            Phase::Idle => forall|j: int|
                start <= j < ledger.len() ==> !due(ledger, config, torrents, j),
            _ => false,
        },
{
    lemma_next_eligible(ledger, config, torrents, start);
}

/// A step keeps the identities of a ledger distinct.
pub proof fn lemma_step_keeps_unique(
    ledger: Seq<EntryView>,
    config: ConfigView,
    sightings: Seq<SightingView>,
    fault: Option<Seq<char>>,
    phase: Phase,
    event: Event,
)
    requires
        unique_identities(ledger),
    ensures
        unique_identities(step(ledger, config, sightings, fault, phase, event).ledger),
{
    if phase == Phase::Fetching && event == Event::Fetched {
        lemma_reconciliation_keeps_unique(ledger, config, sightings);
    }
}

/// How many steps a cycle may still take, at most, before it is over,
/// once the daemon has answered: six for each entry from the one at work
/// on, less what was done for that one.
pub open spec fn steps_left(phase: Phase, entries: nat) -> nat {
    match phase {
        Phase::Idle => 0,
        Phase::Fetching => 6 * entries + 2,
        Phase::SavingReconciled => 6 * entries + 1,
        Phase::ProbingDest { index } => behind(index, entries, 0),
        Phase::ProbingSource { index } => behind(index, entries, 1),
        Phase::Announcing { index } => behind(index, entries, 2),
        Phase::Transferring { index } => behind(index, entries, 3),
        Phase::Cleaning { index } => behind(index, entries, 4),
        Phase::Recording { index } => behind(index, entries, 5),
    }
}

/// Six steps for each entry from the one at `index` on, less the steps
/// that were taken for that one. An index beyond the entries counts as the
/// last one.
pub open spec fn behind(index: usize, entries: nat, taken: nat) -> nat
    recommends
        taken < 6,
{
    if index < entries {
        (6 * (entries - index) - taken) as nat
    } else {
        (6 - taken) as nat
    }
}

/// A cycle comes to its end: once the daemon has answered, every step
/// keeps the number of entries and either ends the cycle or leaves fewer
/// steps to take.
pub proof fn lemma_cycle_makes_progress(
    ledger: Seq<EntryView>,
    config: ConfigView,
    sightings: Seq<SightingView>,
    fault: Option<Seq<char>>,
    phase: Phase,
    event: Event,
)
    requires
        phase != Phase::Idle,
        phase != Phase::Fetching,
        ledger.len() <= usize::MAX,
    ensures
        ({
            let o = step(ledger, config, sightings, fault, phase, event);
            &&& o.ledger.len() == ledger.len()
            &&& (o.phase == Phase::Idle || steps_left(o.phase, ledger.len()) < steps_left(
                phase,
                ledger.len(),
            ))
        }),
{
    let torrents = torrents_of(sightings);
    match phase {
        Phase::SavingReconciled => {
            lemma_next_eligible(ledger, config, torrents, 0);
        },
        Phase::ProbingDest { index } => {
            lemma_next_eligible(ledger, config, torrents, index + 1);
        },
        Phase::ProbingSource { index } => {
            lemma_next_eligible(ledger, config, torrents, index + 1);
        },
        Phase::Announcing { index } => {
            lemma_next_eligible(ledger, config, torrents, index + 1);
        },
        Phase::Transferring { index } => {
            lemma_next_eligible(ledger, config, torrents, index + 1);
        },
        Phase::Recording { index } => {
            lemma_next_eligible(ledger, config, torrents, index + 1);
        },
        _ => {},
    }
}

/// Reconciliation is over and saved before any copy begins, and every
/// change of a state is saved before the next entry is turned to: a step
/// that changes the ledger asks for a save, or, after a copy that failed,
/// for the removal of what it left, which the save follows.
pub proof fn lemma_every_change_is_saved(
    ledger: Seq<EntryView>,
    config: ConfigView,
    sightings: Seq<SightingView>,
    fault: Option<Seq<char>>,
    phase: Phase,
    event: Event,
)
    ensures
        ({
            let o = step(ledger, config, sightings, fault, phase, event);
            o.ledger != ledger ==> o.action == ActionView::Save || (o.action is RemovePartial && step(
                o.ledger,
                config,
                sightings,
                fault,
                o.phase,
                Event::Removed,
            ).action == ActionView::Save)
        }),
{
}

} // verus!
