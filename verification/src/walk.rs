//! The copy of a directory tree, as a state machine over a worklist.
//!
//! The caller does the file work and keeps the paths; the machine decides
//! what is done in which order. Items are known by numbers: the root of the
//! copy is item 0, and the entries that a listing of a directory finds get
//! the next free numbers, in the order of the listing. A directory is made
//! at the destination before its entries are copied, entries are taken in
//! the order of the listing, depth first, and the first failure ends the
//! copy.

use vstd::prelude::*;

verus! {

/// Which report the machine waits for.
#[derive(Clone, Copy, Debug, PartialEq, Eq, Structural)]
pub enum WalkPhase {
    /// Nothing was asked for yet.
    Ready,
    /// Whether the current item is a directory.
    Classifying,
    /// The directory of the current item is being made at the destination.
    MakingDir,
    /// The current item, a directory, is being listed.
    Listing,
    /// The directory above the current item is being made at the destination.
    MakingParent,
    /// The current item, a file, is being copied.
    CopyingFile,
    /// The copy is over.
    Finished,
}

/// What the caller reports.
#[derive(Clone, Copy, Debug, PartialEq, Eq, Structural)]
pub enum WalkEvent {
    /// The copy shall begin.
    Begin,
    /// The current item is a directory, or is not.
    Classified { is_dir: bool },
    /// The directory asked for exists now.
    Made,
    /// The listing found `count` entries, which are the items with the next
    /// `count` free numbers.
    Listed { count: usize },
    /// The file was copied.
    Copied,
    /// What was asked for could not be done.
    Failed,
}

/// What the caller is told to do next.
#[derive(Clone, Copy, Debug, PartialEq, Eq, Structural)]
pub enum WalkAction {
    /// Report whether the item is a directory.
    Classify { item: usize },
    /// Make the item's directory at the destination, with all above it.
    MakeDir { item: usize },
    /// List the item's entries at the source and number them.
    List { item: usize },
    /// Make the directory above the item at the destination, with all above it.
    MakeParent { item: usize },
    /// Copy the item, a file, to the destination.
    CopyFile { item: usize },
    /// The copy is over: everything was copied, or something failed.
    Finish { ok: bool },
}

/// The state of a copy.
#[derive(Clone, Debug, PartialEq)]
pub struct Walk {
    /// The items that are still to be copied; the last one is next.
    pub pending: Vec<usize>,
    /// The item that is being worked on.
    pub current: usize,
    /// How many items are known: the next free number.
    pub known: usize,
    pub phase: WalkPhase,
}

/// The state of a copy as plain values.
pub struct WalkView {
    pub pending: Seq<usize>,
    pub current: usize,
    pub known: usize,
    pub phase: WalkPhase,
}

impl View for Walk {
    type V = WalkView;

    open spec fn view(&self) -> WalkView {
        WalkView {
            pending: self.pending@,
            current: self.current,
            known: self.known,
            phase: self.phase,
        }
    }
}

/// The numbers of the `count` entries of a listing made when `known` items
/// were known, the last entry first: put on the worklist in this order, the
/// first entry is taken first.
pub open spec fn listed_items(known: usize, count: usize) -> Seq<usize> {
    Seq::new(count as nat, |i: int| (known + count - 1 - i) as usize)
}

/// The step that takes the next item from the worklist, or ends the copy
/// with success when none is left.
pub open spec fn take_next(w: WalkView, pending: Seq<usize>, known: usize) -> (WalkView, WalkAction) {
    if pending.len() == 0 {
        (
            WalkView { pending: pending, current: w.current, known: known, phase: WalkPhase::Finished },
            WalkAction::Finish { ok: true },
        )
    } else {
        (
            WalkView {
                pending: pending.drop_last(),
                current: pending.last(),
                known: known,
                phase: WalkPhase::Classifying,
            },
            WalkAction::Classify { item: pending.last() },
        )
    }
}

/// The step that ends the copy with a failure: what was pending is dropped.
pub open spec fn fail(w: WalkView) -> (WalkView, WalkAction) {
    (
        WalkView {
            pending: Seq::<usize>::empty(),
            current: w.current,
            known: w.known,
            phase: WalkPhase::Finished,
        },
        WalkAction::Finish { ok: false },
    )
}

/// The step that stays with the current item in another phase.
pub open spec fn go_on(w: WalkView, phase: WalkPhase, action: WalkAction) -> (WalkView, WalkAction) {
    (WalkView { pending: w.pending, current: w.current, known: w.known, phase: phase }, action)
}

/// One step of the copy. A report of failure, a report that the phase does
/// not wait for, and a listing with more entries than there are numbers
/// left end the copy with a failure.
pub open spec fn walk_step(w: WalkView, event: WalkEvent) -> (WalkView, WalkAction) {
    match (w.phase, event) {
        (WalkPhase::Ready, WalkEvent::Begin) => take_next(w, w.pending, w.known),
        (WalkPhase::Classifying, WalkEvent::Classified { is_dir }) => if is_dir {
            go_on(w, WalkPhase::MakingDir, WalkAction::MakeDir { item: w.current })
        } else {
            go_on(w, WalkPhase::MakingParent, WalkAction::MakeParent { item: w.current })
        },
        (WalkPhase::MakingDir, WalkEvent::Made) => go_on(
            w,
            WalkPhase::Listing,
            WalkAction::List { item: w.current },
        ),
        (WalkPhase::Listing, WalkEvent::Listed { count }) => if w.known + count > usize::MAX {
            fail(w)
        } else {
            take_next(w, w.pending + listed_items(w.known, count), (w.known + count) as usize)
        },
        (WalkPhase::MakingParent, WalkEvent::Made) => go_on(
            w,
            WalkPhase::CopyingFile,
            WalkAction::CopyFile { item: w.current },
        ),
        (WalkPhase::CopyingFile, WalkEvent::Copied) => take_next(w, w.pending, w.known),
        _ => fail(w),
    }
}

/// The state before the copy begins: the root is the one item known, and
/// it is pending.
pub open spec fn initial() -> WalkView {
    WalkView { pending: seq![0usize], current: 0, known: 1, phase: WalkPhase::Ready }
}

/// Every item of the worklist and the current one are known, and no item
/// stands in the worklist twice or beside being the current one once the
/// copy is under way.
pub open spec fn well_formed(w: WalkView) -> bool {
    &&& forall|i: int| 0 <= i < w.pending.len() ==> (#[trigger] w.pending[i]) < w.known
    &&& forall|i: int, j: int|
        0 <= i < j < w.pending.len() ==> (#[trigger] w.pending[i]) != (#[trigger] w.pending[j])
    &&& w.current < w.known
    &&& w.phase != WalkPhase::Ready ==> forall|i: int|
        0 <= i < w.pending.len() ==> (#[trigger] w.pending[i]) != w.current
}

impl Walk {
    /// The state before the copy begins.
    pub fn new() -> (r: Self)
        ensures
            r@ == initial(),
    {
        let mut pending: Vec<usize> = Vec::new();
        pending.push(0);
        assert(pending@ =~= seq![0usize]);
        Walk { pending, current: 0, known: 1, phase: WalkPhase::Ready }
    }

    /// Takes the next item from the worklist.
    fn advance(&mut self) -> (r: WalkAction)
        ensures
            (final(self)@, r) == take_next(old(self)@, old(self)@.pending, old(self)@.known),
    {
        match self.pending.pop() {
            Some(item) => {
                self.current = item;
                self.phase = WalkPhase::Classifying;
                WalkAction::Classify { item }
            },
            None => {
                self.phase = WalkPhase::Finished;
                WalkAction::Finish { ok: true }
            },
        }
    }

    /// Ends the copy with a failure.
    fn give_up(&mut self) -> (r: WalkAction)
        ensures
            (final(self)@, r) == fail(old(self)@),
    {
        self.pending.clear();
        self.phase = WalkPhase::Finished;
        assert(self.pending@ =~= Seq::<usize>::empty());
        WalkAction::Finish { ok: false }
    }

    /// Puts the entries of a listing on the worklist.
    fn enlist(&mut self, count: usize)
        requires
            old(self).known + count <= usize::MAX,
        ensures
            final(self)@ == (WalkView {
                pending: old(self)@.pending + listed_items(old(self).known, count),
                known: (old(self).known + count) as usize,
                ..old(self)@
            }),
    {
        let base: usize = self.known;
        let ghost before = self.pending@;
        let mut i: usize = 0;
        while i < count
            invariant
                i <= count,
                base + count <= usize::MAX,
                self.known == base,
                self.current == old(self).current,
                self.phase == old(self).phase,
                self.pending@ == before + listed_items(base, count).subrange(0, i as int),
            decreases count - i,
        {
            self.pending.push(base + (count - 1 - i));
            assert(self.pending@ =~= before + listed_items(base, count).subrange(0, i + 1));
            i += 1;
        }
        assert(listed_items(base, count).subrange(0, count as int) =~= listed_items(base, count));
        self.known = base + count;
    }

    /// Takes one step of the copy.
    pub fn step(&mut self, event: WalkEvent) -> (r: WalkAction)
        ensures
            (final(self)@, r) == walk_step(old(self)@, event),
    {
        match self.phase {
            WalkPhase::Ready => match event {
                WalkEvent::Begin => self.advance(),
                _ => self.give_up(),
            },
            WalkPhase::Classifying => match event {
                WalkEvent::Classified { is_dir } => {
                    if is_dir {
                        self.phase = WalkPhase::MakingDir;
                        WalkAction::MakeDir { item: self.current }
                    } else {
                        self.phase = WalkPhase::MakingParent;
                        WalkAction::MakeParent { item: self.current }
                    }
                },
                _ => self.give_up(),
            },
            WalkPhase::MakingDir => match event {
                WalkEvent::Made => {
                    self.phase = WalkPhase::Listing;
                    WalkAction::List { item: self.current }
                },
                _ => self.give_up(),
            },
            WalkPhase::Listing => match event {
                WalkEvent::Listed { count } => {
                    if count > usize::MAX - self.known {
                        self.give_up()
                    } else {
                        self.enlist(count);
                        self.advance()
                    }
                },
                _ => self.give_up(),
            },
            WalkPhase::MakingParent => match event {
                WalkEvent::Made => {
                    self.phase = WalkPhase::CopyingFile;
                    WalkAction::CopyFile { item: self.current }
                },
                _ => self.give_up(),
            },
            WalkPhase::CopyingFile => match event {
                WalkEvent::Copied => self.advance(),
                _ => self.give_up(),
            },
            WalkPhase::Finished => self.give_up(),
        }
    }
}

/// The first failure ends the copy: whatever the phase, a report of
/// failure leaves nothing pending and finishes without success.
pub proof fn lemma_failure_ends_the_walk(w: WalkView)
    ensures
        walk_step(w, WalkEvent::Failed).1 == (WalkAction::Finish { ok: false }),
        walk_step(w, WalkEvent::Failed).0.phase == WalkPhase::Finished,
        walk_step(w, WalkEvent::Failed).0.pending.len() == 0,
{
}

/// No item is copied twice: a step keeps the worklist well formed, the
/// item that it turns to is known and was pending, and the items that a
/// listing adds were not known before.
pub proof fn lemma_step_keeps_well_formed(w: WalkView, event: WalkEvent)
    requires
        well_formed(w),
    ensures
        well_formed(walk_step(w, event).0),
        w.known <= walk_step(w, event).0.known,
{
    let after = walk_step(w, event).0;
    match (w.phase, event) {
        (WalkPhase::Listing, WalkEvent::Listed { count }) => {
            if w.known + count <= usize::MAX {
                let added = listed_items(w.known, count);
                let all = w.pending + added;
                assert forall|i: int| 0 <= i < all.len() implies (#[trigger] all[i]) < w.known
                    + count by {
                    if i >= w.pending.len() {
                        assert(all[i] == added[i - w.pending.len()]);
                    } else {
                        assert(all[i] == w.pending[i]);
                    }
                }
                assert forall|i: int, j: int| 0 <= i < j < all.len() implies (#[trigger] all[i]) != (
                #[trigger] all[j]) by {
                    if i >= w.pending.len() {
                        assert(all[i] == added[i - w.pending.len()]);
                        assert(all[j] == added[j - w.pending.len()]);
                    } else if j >= w.pending.len() {
                        assert(all[i] == w.pending[i]);
                        assert(all[j] == added[j - w.pending.len()]);
                    } else {
                        assert(all[i] == w.pending[i]);
                        assert(all[j] == w.pending[j]);
                    }
                }
                if all.len() > 0 {
                    assert(after.current == all[all.len() - 1]);
                    assert forall|i: int| 0 <= i < after.pending.len() implies (
                    #[trigger] after.pending[i]) != after.current by {
                        assert(after.pending[i] == all[i]);
                    }
                    assert forall|i: int| 0 <= i < after.pending.len() implies (
                    #[trigger] after.pending[i]) < after.known by {
                        assert(after.pending[i] == all[i]);
                    }
                    assert forall|i: int, j: int| 0 <= i < j < after.pending.len() implies (
                    #[trigger] after.pending[i]) != (#[trigger] after.pending[j]) by {
                        assert(after.pending[i] == all[i]);
                        assert(after.pending[j] == all[j]);
                    }
                } else {
                    assert(after.pending.len() == 0);
                }
            }
        },
        (WalkPhase::Ready, WalkEvent::Begin) | (WalkPhase::CopyingFile, WalkEvent::Copied) => {
            if w.pending.len() > 0 {
                let last = w.pending.len() - 1;
                assert(after.current == w.pending[last]);
                assert forall|i: int| 0 <= i < after.pending.len() implies (
                #[trigger] after.pending[i]) != after.current by {
                    assert(after.pending[i] == w.pending[i]);
                }
                assert forall|i: int| 0 <= i < after.pending.len() implies (
                #[trigger] after.pending[i]) < after.known by {
                    assert(after.pending[i] == w.pending[i]);
                }
                assert forall|i: int, j: int| 0 <= i < j < after.pending.len() implies (
                #[trigger] after.pending[i]) != (#[trigger] after.pending[j]) by {
                    assert(after.pending[i] == w.pending[i]);
                    assert(after.pending[j] == w.pending[j]);
                }
            }
        },
        _ => {},
    }
}

/// What a copy has done so far: the directories that were made and
/// listed, and the files that were copied.
pub struct Progress {
    pub made: Set<usize>,
    pub copied: Set<usize>,
}

/// Whether the machine is at work on its current item.
pub open spec fn at_work(phase: WalkPhase) -> bool {
    phase != WalkPhase::Ready && phase != WalkPhase::Finished
}

/// What a copy has done after a step: a listing that is taken completes
/// the current directory, and a report of a copied file completes the
/// current file.
pub open spec fn progress_after(w: WalkView, event: WalkEvent, p: Progress) -> Progress {
    match (w.phase, event) {
        (WalkPhase::Listing, WalkEvent::Listed { count }) => if w.known + count > usize::MAX {
            p
        } else {
            Progress { made: p.made.insert(w.current), copied: p.copied }
        },
        (WalkPhase::CopyingFile, WalkEvent::Copied) => Progress {
            made: p.made,
            copied: p.copied.insert(w.current),
        },
        _ => p,
    }
}

/// Whether an item is still to be done: it is pending, or the machine is
/// at work on it.
pub open spec fn outstanding(w: WalkView, item: usize) -> bool {
    w.pending.contains(item) || (at_work(w.phase) && item == w.current)
}

/// Every known item is accounted for: it is either done, as a directory
/// or as a file, or still to be done, and never both.
pub open spec fn accounted(w: WalkView, p: Progress) -> bool {
    &&& well_formed(w)
    &&& forall|item: usize|
        item < w.known ==> ((p.made.contains(item) || p.copied.contains(item)) <==> !(
        #[trigger] outstanding(w, item)))
    &&& forall|item: usize| #[trigger]
        handled(p, item) ==> item < w.known
}

/// Whether an item is done, as a directory or as a file.
pub open spec fn handled(p: Progress, item: usize) -> bool {
    p.made.contains(item) || p.copied.contains(item)
}

/// Before the copy begins nothing is done, and the root is accounted for.
pub proof fn lemma_initially_accounted()
    ensures
        accounted(initial(), Progress { made: Set::empty(), copied: Set::empty() }),
{
    let w = initial();
    assert(w.pending[0] == 0usize);
    assert(w.pending.contains(0usize));
}

/// As long as nothing fails, a step loses no item: every known item stays
/// accounted for, the entries of a listing included.
pub proof fn lemma_step_keeps_accounted(w: WalkView, event: WalkEvent, p: Progress)
    requires
        accounted(w, p),
        walk_step(w, event).1 != (WalkAction::Finish { ok: false }),
    ensures
        accounted(walk_step(w, event).0, progress_after(w, event, p)),
{
    let after = walk_step(w, event).0;
    let q = progress_after(w, event, p);
    lemma_step_keeps_well_formed(w, event);
    lemma_current_not_pending(w);
    let list = match (w.phase, event) {
        (WalkPhase::Listing, WalkEvent::Listed { count }) => w.pending + listed_items(w.known, count),
        _ => w.pending,
    };
    assert forall|item: usize| item < after.known implies ((q.made.contains(item)
        || q.copied.contains(item)) <==> !(#[trigger] outstanding(after, item))) by {
        lemma_taken_item(list, item);
        if item < w.known {
            assert(handled(p, item) <==> !outstanding(w, item));
        } else {
            assert(!handled(p, item));
            assert(!w.pending.contains(item)) by {
                if w.pending.contains(item) {
                    let i = choose|i: int| 0 <= i < w.pending.len() && w.pending[i] == item;
                    assert(w.pending[i] < w.known);
                }
            }
        }
        match (w.phase, event) {
            (WalkPhase::Listing, WalkEvent::Listed { count }) => {
                lemma_listed(w.pending, w.known, count, item);
            },
            _ => {},
        }
    }
    assert forall|item: usize| #[trigger] handled(q, item) implies item < after.known by {
        if !handled(p, item) {
            assert(item == w.current);
        }
    }
}

/// The item that the machine is at work on is not pending.
proof fn lemma_current_not_pending(w: WalkView)
    requires
        well_formed(w),
    ensures
        w.phase != WalkPhase::Ready ==> !w.pending.contains(w.current),
{
    if w.phase != WalkPhase::Ready && w.pending.contains(w.current) {
        let i = choose|i: int| 0 <= i < w.pending.len() && w.pending[i] == w.current;
        assert(w.pending[i] != w.current);
    }
}

/// What is on a worklist is its last item or on the rest of it.
proof fn lemma_taken_item(pending: Seq<usize>, item: usize)
    ensures
        pending.len() > 0 ==> (pending.contains(item) <==> (pending.drop_last().contains(item) || item
            == pending.last())),
        pending.len() == 0 ==> !pending.contains(item),
{
    if pending.len() > 0 {
        let rest = pending.drop_last();
        if pending.contains(item) {
            let i = choose|i: int| 0 <= i < pending.len() && pending[i] == item;
            if i < pending.len() - 1 {
                assert(rest[i] == item);
            }
        }
        if rest.contains(item) {
            let i = choose|i: int| 0 <= i < rest.len() && rest[i] == item;
            assert(pending[i] == item);
        }
        assert(pending[pending.len() - 1] == pending.last());
    }
}

/// What is on a worklist after a listing was put on it: what was on it
/// before, and the items that were not known before the listing.
proof fn lemma_listed(pending: Seq<usize>, known: usize, count: usize, item: usize)
    requires
        known + count <= usize::MAX,
    ensures
        (pending + listed_items(known, count)).contains(item) <==> (pending.contains(item) || known
            <= item < known + count),
{
    let added = listed_items(known, count);
    let all = pending + added;
    if all.contains(item) {
        let i = choose|i: int| 0 <= i < all.len() && all[i] == item;
        if i < pending.len() {
            assert(pending[i] == item);
        } else {
            assert(added[i - pending.len()] == item);
        }
    }
    if pending.contains(item) {
        let i = choose|i: int| 0 <= i < pending.len() && pending[i] == item;
        assert(all[i] == item);
    }
    if known <= item < known + count {
        let k = known + count - 1 - item;
        assert(added[k] == item);
        assert(all[pending.len() + k] == item);
    }
}

/// A copy that ends with success has left nothing out: every item that
/// was ever known, the root and all that the listings found, was made as a
/// directory or copied as a file.
pub proof fn lemma_success_leaves_nothing_out(w: WalkView, event: WalkEvent, p: Progress, item: usize)
    requires
        accounted(w, p),
        walk_step(w, event).1 == (WalkAction::Finish { ok: true }),
        item < walk_step(w, event).0.known,
    ensures
        progress_after(w, event, p).made.contains(item) || progress_after(
            w,
            event,
            p,
        ).copied.contains(item),
{
    lemma_step_keeps_accounted(w, event, p);
    let after = walk_step(w, event).0;
    lemma_taken_item(after.pending, item);
    assert(!outstanding(after, item));
}

} // verus!
