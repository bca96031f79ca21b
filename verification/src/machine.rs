//! The batch as a state machine: what the executor knows, what it asks of its
//! driver and how each answer changes it. The functions here are the
//! mathematical account of the executor; the executable one follows them step
//! by step.

use crate::batch::{
    Completion, ConflictEntry, FileOperation, ItemStatus, TransferError, TransferItemOutcome,
};
use crate::conflict::{policy_after, resolution_of, standing_of, Policy, ReplaceOrSkip, Resolution};
use crate::progress::{advance_of, lemma_counting_is_monotonic, ProgressCounts};
use crate::usage::DiskUsageSnapshot;
use vstd::prelude::*;

verus! {

/// One thing to do: a source and the directory it goes to.
#[derive(Debug, PartialEq, Eq)]
pub struct WorkItem {
    pub source: String,
    /// The directory that receives the item; none for delete and trash.
    pub dest_dir: Option<String>,
    /// A directory whose contents were queued ahead of it: it is removed
    /// without another look inside.
    pub emptied: bool,
}

/// Where a batch stands.
#[derive(Debug, Clone, Copy, PartialEq, Eq, Structural)]
pub enum Phase {
    Planning,
    Measuring,
    Executing,
    ResolvingConflicts,
    Finished(Completion),
}

/// What the executor is waiting for.
#[derive(Debug, PartialEq, Eq)]
pub enum Stage {
    /// Nothing: it is between items.
    Idle,
    /// To hear what the item is.
    Inspecting(WorkItem),
    /// To hear what the directory holds.
    Listing(WorkItem),
    /// To hear how the operation on the item ended.
    Transferring { item: WorkItem, overwrite: bool },
    /// To hear what the user wants done with the conflict.
    Prompting(ConflictEntry),
}

/// What was found at an item's source and destination.
#[derive(Debug, Clone, Copy, PartialEq, Eq, Structural)]
pub enum Inspection {
    /// Not a directory. `dest_exists`: its name is taken in the destination by
    /// something other than the item itself.
    File { dest_exists: bool },
    Directory,
}

/// A directory that was entered.
#[derive(Debug, PartialEq, Eq)]
pub struct Listing {
    /// The directory that receives the children; none for delete.
    pub dest_dir: Option<String>,
    /// The paths of the children, in the order in which they are processed.
    pub children: Vec<String>,
}

/// How the operation on one item ended.
#[derive(Debug, PartialEq, Eq)]
pub enum ItemResult {
    Done,
    Cancelled,
    Failed(String),
}

/// What the driver does next.
#[derive(Debug, PartialEq, Eq)]
pub enum Action {
    /// Measure the sources and report with `measured`.
    Measure,
    /// The batch is paused: wait for the resume signal, then ask again.
    WaitForResume,
    /// Look at the item and report with `inspected`.
    Inspect(WorkItem),
    /// Make sure the directory exists in the destination, list the source's
    /// children and report with `listed`.
    EnterDirectory(WorkItem),
    /// Perform the operation on the item; report progress with `progressed`
    /// and the end with `item_done`.
    Run { item: WorkItem, overwrite: bool },
    /// Ask the user about the conflict and report with `decided`.
    Prompt(ConflictEntry),
    /// Nothing to do outside: ask again.
    Continue,
    /// The batch has ended: release its token.
    Finish(Completion),
}

/// What ended a batch as a whole.
#[derive(Debug, Clone, Copy, PartialEq, Eq, Structural)]
pub enum Fatal {
    /// The sources could not be measured.
    MeasurementFailure,
    /// The user abandoned the open conflicts.
    ConflictAborted,
}

/// What the driver removes after an item has ended.
#[derive(Debug, PartialEq, Eq)]
pub enum Cleanup {
    Nothing,
    /// What the item has written to its destination so far.
    RemovePartial(WorkItem),
}

/// The state of one batch.
pub struct ExecutorModel {
    pub operation: FileOperation,
    pub phase: Phase,
    pub stage: Stage,
    /// Items that have not started, the next one first.
    pub queue: Seq<WorkItem>,
    /// Conflicts that are still open, in the order in which they were found.
    pub conflicts: Seq<ConflictEntry>,
    pub policy: Policy,
    pub progress: ProgressCounts,
    /// The bytes that the item in flight reported last.
    pub last_reported: i64,
    /// The items that have ended, in the order in which they ended.
    pub outcomes: Seq<TransferItemOutcome>,
    /// Whether anything has failed.
    pub failed: bool,
    /// What ended the batch as a whole, if anything did.
    pub fatal: Option<Fatal>,
}

/// The work item of a source of the batch.
pub open spec fn source_item(source: String, to: Option<String>) -> WorkItem {
    WorkItem { source, dest_dir: to, emptied: false }
}

/// The work items of `sources`, each going to `to`.
pub open spec fn source_items(sources: Seq<String>, to: Option<String>) -> Seq<WorkItem> {
    Seq::new(sources.len(), |i: int| source_item(sources[i], to))
}

/// The work item that replaces the destination of a conflict.
pub open spec fn item_of(entry: ConflictEntry) -> WorkItem {
    WorkItem { source: entry.source_path, dest_dir: entry.dest_dir, emptied: false }
}

/// The conflict that an item has run into.
pub open spec fn entry_of(item: WorkItem) -> ConflictEntry {
    ConflictEntry { source_path: item.source, dest_dir: item.dest_dir }
}

/// The directory itself, to be removed after what it held.
pub open spec fn emptied_item(item: WorkItem) -> WorkItem {
    WorkItem { source: item.source, dest_dir: item.dest_dir, emptied: true }
}

/// The outcome of an item that was skipped.
pub open spec fn skipped(entry: ConflictEntry) -> TransferItemOutcome {
    TransferItemOutcome { source_path: entry.source_path, status: ItemStatus::Skipped }
}

/// The outcomes of conflicts that were all skipped.
pub open spec fn all_skipped(entries: Seq<ConflictEntry>) -> Seq<TransferItemOutcome> {
    Seq::new(entries.len(), |i: int| skipped(entries[i]))
}

/// The outcome of an item with a status.
pub open spec fn outcome(item: WorkItem, status: ItemStatus) -> TransferItemOutcome {
    TransferItemOutcome { source_path: item.source, status }
}

/// Whether an action starts work on an item or asks the user about one.
pub open spec fn starts_something(action: Action) -> bool {
    action is Inspect || action is EnterDirectory || action is Run || action is Prompt
}

impl ExecutorModel {
    /// The batch for `operation` on `sources`. A batch without sources has
    /// nothing to do and is finished from the start.
    pub open spec fn planned(
        operation: FileOperation,
        sources: Seq<String>,
        to: Option<String>,
    ) -> ExecutorModel {
        ExecutorModel {
            operation,
            phase: if sources.len() == 0 {
                Phase::Finished(Completion::Completed)
            } else {
                Phase::Planning
            },
            stage: Stage::Idle,
            queue: source_items(sources, to),
            conflicts: Seq::empty(),
            policy: Policy::Ask,
            progress: ProgressCounts {
                processed_bytes: 0,
                processed_items: 0,
                total_bytes: 0,
                total_items: 0,
            },
            last_reported: 0,
            outcomes: Seq::empty(),
            failed: false,
            fatal: None,
        }
    }

    pub open spec fn finished(self) -> bool {
        self.phase is Finished
    }

    /// How a batch ends that has gone through all its items.
    pub open spec fn natural_completion(self) -> Completion {
        if self.failed {
            Completion::CompletedWithFailures
        } else {
            Completion::Completed
        }
    }

    /// The batch after its last item: finished, and with progress set to the
    /// totals where nothing failed.
    pub open spec fn wound_up(self) -> ExecutorModel {
        ExecutorModel {
            phase: Phase::Finished(self.natural_completion()),
            stage: Stage::Idle,
            progress: if self.failed {
                self.progress
            } else {
                self.progress.completed()
            },
            ..self
        }
    }

    /// Progress after an item has ended without success. Where progress is
    /// counted in items, every end of an item counts, whatever the end.
    pub open spec fn counted_ended(self) -> ProgressCounts {
        if self.operation.counts_bytes() {
            self.progress
        } else {
            self.progress.plus_item()
        }
    }

    /// The action that the stage is waiting on.
    pub open spec fn pending(self) -> Action {
        match self.stage {
            Stage::Idle => Action::Continue,
            Stage::Inspecting(item) => Action::Inspect(item),
            Stage::Listing(item) => Action::EnterDirectory(item),
            Stage::Transferring { item, overwrite } => Action::Run { item, overwrite },
            Stage::Prompting(entry) => Action::Prompt(entry),
        }
    }

    /// The next item of the queue is started.
    pub open spec fn start_next_item(self) -> (ExecutorModel, Action) {
        let item = self.queue[0];
        let rest = self.queue.subrange(1, self.queue.len() as int);
        if self.operation == FileOperation::Trash || item.emptied {
            (
                ExecutorModel {
                    stage: Stage::Transferring { item, overwrite: false },
                    queue: rest,
                    last_reported: 0,
                    ..self
                },
                Action::Run { item, overwrite: false },
            )
        } else {
            (
                ExecutorModel { stage: Stage::Inspecting(item), queue: rest, ..self },
                Action::Inspect(item),
            )
        }
    }

    /// The next open conflict is taken up: under a settled policy it is
    /// resolved at once, else the user is asked.
    pub open spec fn take_up_conflict(self) -> (ExecutorModel, Action) {
        let entry = self.conflicts[0];
        let rest = self.conflicts.subrange(1, self.conflicts.len() as int);
        match standing_of(self.policy) {
            None => (
                ExecutorModel {
                    phase: Phase::ResolvingConflicts,
                    stage: Stage::Prompting(entry),
                    conflicts: rest,
                    ..self
                },
                Action::Prompt(entry),
            ),
            Some(Resolution::Replace) => (
                ExecutorModel {
                    phase: Phase::ResolvingConflicts,
                    stage: Stage::Transferring { item: item_of(entry), overwrite: true },
                    conflicts: rest,
                    last_reported: 0,
                    ..self
                },
                Action::Run { item: item_of(entry), overwrite: true },
            ),
            Some(Resolution::Skip) => (
                ExecutorModel {
                    phase: Phase::ResolvingConflicts,
                    conflicts: rest,
                    outcomes: self.outcomes.push(skipped(entry)),
                    ..self
                },
                Action::Continue,
            ),
            Some(Resolution::Abort) => (
                ExecutorModel {
                    phase: Phase::Finished(self.natural_completion()),
                    fatal: Some(Fatal::ConflictAborted),
                    ..self
                },
                Action::Finish(self.natural_completion()),
            ),
        }
    }

    /// What the executor asks for next, between items. `cancelled` and
    /// `paused` are the token and the pause flag as the driver sees them now.
    pub open spec fn next_action(self, cancelled: bool, paused: bool) -> (ExecutorModel, Action) {
        if let Phase::Finished(completion) = self.phase {
            (self, Action::Finish(completion))
        } else if !(self.stage is Idle) {
            (self, self.pending())
        } else if self.phase is Planning {
            (ExecutorModel { phase: Phase::Measuring, ..self }, Action::Measure)
        } else if self.phase is Measuring {
            (self, Action::Measure)
        } else if cancelled {
            (
                ExecutorModel { phase: Phase::Finished(Completion::CancelledEarly), ..self },
                Action::Finish(Completion::CancelledEarly),
            )
        } else if paused {
            (self, Action::WaitForResume)
        } else if self.phase is Executing && self.queue.len() > 0 {
            self.start_next_item()
        } else if self.conflicts.len() > 0 {
            self.take_up_conflict()
        } else {
            (self.wound_up(), Action::Finish(self.natural_completion()))
        }
    }

    /// The sources were measured, or could not be.
    pub open spec fn measured(self, usage: Result<DiskUsageSnapshot, TransferError>) -> ExecutorModel {
        if !(self.phase is Measuring) {
            self
        } else {
            match usage {
                Ok(snapshot) => ExecutorModel {
                    phase: Phase::Executing,
                    progress: ProgressCounts::starting(snapshot),
                    ..self
                },
                Err(_) => ExecutorModel {
                    phase: Phase::Finished(Completion::CompletedWithFailures),
                    stage: Stage::Idle,
                    failed: true,
                    fatal: Some(Fatal::MeasurementFailure),
                    ..self
                },
            }
        }
    }

    /// The driver has looked at the item. A directory is entered; a file whose
    /// name is taken in the destination is put aside as a conflict; any other
    /// item is run.
    pub open spec fn inspected(self, found: Inspection) -> (ExecutorModel, Action) {
        if self.finished() {
            (self, Action::Continue)
        } else {
            match self.stage {
                Stage::Inspecting(item) => match found {
                    Inspection::Directory => (
                        ExecutorModel { stage: Stage::Listing(item), ..self },
                        Action::EnterDirectory(item),
                    ),
                    Inspection::File { dest_exists } => if dest_exists
                        && self.operation.needs_destination() {
                        (
                            ExecutorModel {
                                stage: Stage::Idle,
                                conflicts: self.conflicts.push(entry_of(item)),
                                ..self
                            },
                            Action::Continue,
                        )
                    } else {
                        (
                            ExecutorModel {
                                stage: Stage::Transferring { item, overwrite: false },
                                last_reported: 0,
                                ..self
                            },
                            Action::Run { item, overwrite: false },
                        )
                    },
                },
                _ => (self, Action::Continue),
            }
        }
    }

    /// The directory was entered, or could not be. Its children go to the head
    /// of the queue in their order; a directory that is being deleted follows
    /// them.
    pub open spec fn listed(self, listing: Result<Listing, String>) -> ExecutorModel {
        if self.finished() {
            self
        } else {
            match self.stage {
                Stage::Listing(item) => match listing {
                    Ok(l) => ExecutorModel {
                        stage: Stage::Idle,
                        queue: source_items(l.children@, l.dest_dir) + (if self.operation
                            == FileOperation::Delete {
                            seq![emptied_item(item)]
                        } else {
                            Seq::<WorkItem>::empty()
                        }) + self.queue,
                        ..self
                    },
                    Err(message) => ExecutorModel {
                        stage: Stage::Idle,
                        outcomes: self.outcomes.push(outcome(item, ItemStatus::Failed(message))),
                        progress: self.counted_ended(),
                        failed: true,
                        ..self
                    },
                },
                _ => self,
            }
        }
    }

    /// The item in flight reports `done` of its bytes. Only what it has gained
    /// over its last report is counted.
    pub open spec fn progressed(self, done: i64) -> ExecutorModel {
        if !self.finished() && self.stage is Transferring && self.operation.counts_bytes() {
            ExecutorModel {
                progress: self.progress.plus_bytes(advance_of(self.last_reported, done)),
                last_reported: done,
                ..self
            }
        } else {
            self
        }
    }

    /// The operation on the item in flight has ended. A success counts as one
    /// item processed; where progress is counted in items, so does every other
    /// end.
    pub open spec fn item_done(self, result: ItemResult) -> (ExecutorModel, Cleanup) {
        if self.finished() {
            (self, Cleanup::Nothing)
        } else {
            match self.stage {
                Stage::Transferring { item, overwrite } => match result {
                    ItemResult::Done => if item.emptied {
                        (ExecutorModel { stage: Stage::Idle, ..self }, Cleanup::Nothing)
                    } else {
                        (
                            ExecutorModel {
                                stage: Stage::Idle,
                                outcomes: self.outcomes.push(outcome(item, ItemStatus::Success)),
                                progress: self.progress.plus_item(),
                                ..self
                            },
                            Cleanup::Nothing,
                        )
                    },
                    ItemResult::Cancelled => (
                        ExecutorModel {
                            phase: Phase::Finished(Completion::CancelledEarly),
                            stage: Stage::Idle,
                            outcomes: self.outcomes.push(outcome(item, ItemStatus::Cancelled)),
                            progress: self.counted_ended(),
                            ..self
                        },
                        if self.operation.needs_destination() {
                            Cleanup::RemovePartial(item)
                        } else {
                            Cleanup::Nothing
                        },
                    ),
                    ItemResult::Failed(message) => (
                        ExecutorModel {
                            stage: Stage::Idle,
                            outcomes: self.outcomes.push(
                                outcome(item, ItemStatus::Failed(message)),
                            ),
                            progress: self.counted_ended(),
                            failed: true,
                            ..self
                        },
                        Cleanup::Nothing,
                    ),
                },
                _ => (self, Cleanup::Nothing),
            }
        }
    }

    /// The user has answered for the conflict that was asked about.
    pub open spec fn decided(self, answer: ReplaceOrSkip) -> (ExecutorModel, Action) {
        if self.finished() {
            (self, Action::Continue)
        } else {
            match self.stage {
                Stage::Prompting(entry) => {
                    let policy = policy_after(self.policy, answer);
                    match resolution_of(self.policy, answer) {
                        Resolution::Replace => (
                            ExecutorModel {
                                stage: Stage::Transferring { item: item_of(entry), overwrite: true },
                                policy,
                                last_reported: 0,
                                ..self
                            },
                            Action::Run { item: item_of(entry), overwrite: true },
                        ),
                        Resolution::Skip => if policy == Policy::SkipAll {
                            (
                                ExecutorModel {
                                    stage: Stage::Idle,
                                    policy,
                                    conflicts: Seq::empty(),
                                    outcomes: self.outcomes.push(skipped(entry)) + all_skipped(
                                        self.conflicts,
                                    ),
                                    ..self
                                },
                                Action::Continue,
                            )
                        } else {
                            (
                                ExecutorModel {
                                    stage: Stage::Idle,
                                    policy,
                                    outcomes: self.outcomes.push(skipped(entry)),
                                    ..self
                                },
                                Action::Continue,
                            )
                        },
                        Resolution::Abort => (
                            ExecutorModel {
                                phase: Phase::Finished(self.natural_completion()),
                                stage: Stage::Idle,
                                policy,
                                conflicts: seq![entry] + self.conflicts,
                                fatal: Some(Fatal::ConflictAborted),
                                ..self
                            },
                            Action::Finish(self.natural_completion()),
                        ),
                    }
                },
                _ => (self, Action::Continue),
            }
        }
    }
}

/// Whether the outcome at `i` is the first failure among `outcomes`.
pub open spec fn is_first_failure(outcomes: Seq<TransferItemOutcome>, i: int) -> bool {
    &&& 0 <= i < outcomes.len()
    &&& outcomes[i].status is Failed
    &&& forall|j: int| 0 <= j < i ==> !(#[trigger] outcomes[j].status is Failed)
}

/// Whether any of `outcomes` is a failure.
pub open spec fn any_failure(outcomes: Seq<TransferItemOutcome>) -> bool {
    exists|i: int| 0 <= i < outcomes.len() && #[trigger] outcomes[i].status is Failed
}

/// Anything that can happen to a batch.
pub enum Event {
    /// The driver asks what to do next.
    Next { cancelled: bool, paused: bool },
    Measured(Result<DiskUsageSnapshot, TransferError>),
    Inspected(Inspection),
    Listed(Result<Listing, String>),
    Progressed { done: i64 },
    ItemDone(ItemResult),
    Decided(ReplaceOrSkip),
}

impl ExecutorModel {
    /// The batch after `event`.
    pub open spec fn step(self, event: Event) -> ExecutorModel {
        match event {
            Event::Next { cancelled, paused } => self.next_action(cancelled, paused).0,
            Event::Measured(usage) => self.measured(usage),
            Event::Inspected(found) => self.inspected(found).0,
            Event::Listed(listing) => self.listed(listing),
            Event::Progressed { done } => self.progressed(done),
            Event::ItemDone(result) => self.item_done(result).0,
            Event::Decided(answer) => self.decided(answer).0,
        }
    }

    /// What the driver is told to do on `event`.
    pub open spec fn told(self, event: Event) -> Action {
        match event {
            Event::Next { cancelled, paused } => self.next_action(cancelled, paused).1,
            Event::Inspected(found) => self.inspected(found).1,
            Event::Decided(answer) => self.decided(answer).1,
            _ => Action::Continue,
        }
    }

    /// What holds of a batch at all times: progress is within its totals,
    /// nothing counts as processed before the sources are measured, and a
    /// batch that is planning, measuring or finished waits for nothing.
    pub open spec fn consistent(self) -> bool {
        &&& self.progress.within_totals()
        &&& (self.phase is Planning || self.phase is Measuring) ==> {
            &&& self.progress.processed_bytes == 0
            &&& self.progress.processed_items == 0
        }
        &&& (self.phase is Planning || self.phase is Measuring || self.finished())
            ==> self.stage is Idle
    }
}

/// A batch starts out consistent.
pub proof fn lemma_planned_is_consistent(
    operation: FileOperation,
    sources: Seq<String>,
    to: Option<String>,
)
    ensures
        ExecutorModel::planned(operation, sources, to).consistent(),
{
}

/// Whatever happens to a batch, it stays consistent, the bytes and the items
/// that count as processed do not decrease, and neither passes its total.
pub proof fn lemma_progress_never_recedes(s: ExecutorModel, event: Event)
    requires
        s.consistent(),
    ensures
        s.step(event).consistent(),
        s.progress.processed_bytes <= s.step(event).progress.processed_bytes,
        s.progress.processed_items <= s.step(event).progress.processed_items,
        s.step(event).progress.processed_bytes <= s.step(event).progress.total_bytes,
        s.step(event).progress.processed_items <= s.step(event).progress.total_items,
{
    match event {
        Event::Progressed { done } => {
            lemma_counting_is_monotonic(s.progress, advance_of(s.last_reported, done));
        },
        _ => {
            lemma_counting_is_monotonic(s.progress, 0);
        },
    }
}

/// Once cancellation is observed between two items, the batch is finished as
/// cancelled: the driver is told to finish, and what was queued or put aside
/// stays as it was.
pub proof fn lemma_cancellation_stops_the_batch(s: ExecutorModel, paused: bool)
    requires
        s.phase is Executing || s.phase is ResolvingConflicts,
        s.stage is Idle,
    ensures
        s.next_action(true, paused).1 == Action::Finish(Completion::CancelledEarly),
        s.next_action(true, paused).0.phase == Phase::Finished(Completion::CancelledEarly),
        s.next_action(true, paused).0.queue == s.queue,
        s.next_action(true, paused).0.conflicts == s.conflicts,
        s.next_action(true, paused).0.outcomes == s.outcomes,
{
}

/// A finished batch stays as it is whatever happens, and never tells the
/// driver to start an item or to ask the user.
pub proof fn lemma_finished_batch_starts_nothing(s: ExecutorModel, event: Event)
    requires
        s.finished(),
    ensures
        s.step(event) == s,
        !starts_something(s.told(event)),
        event matches Event::ItemDone(result) ==> s.item_done(result).1 == Cleanup::Nothing,
{
}

/// An item that is cancelled while it writes to a destination ends the batch,
/// and the driver is told to remove what the item has written.
pub proof fn lemma_cancelled_item_leaves_nothing(s: ExecutorModel, item: WorkItem, overwrite: bool)
    requires
        !s.finished(),
        s.stage == (Stage::Transferring { item, overwrite }),
        s.operation.needs_destination(),
    ensures
        s.item_done(ItemResult::Cancelled).1 == Cleanup::RemovePartial(item),
        s.item_done(ItemResult::Cancelled).0.phase == Phase::Finished(Completion::CancelledEarly),
        s.item_done(ItemResult::Cancelled).0.outcomes == s.outcomes.push(
            outcome(item, ItemStatus::Cancelled),
        ),
{
}

/// When the user answers "skip all", the conflict asked about and every
/// conflict still open are recorded as skipped, in their order, and none stays
/// open.
pub proof fn lemma_skip_all_skips_the_rest(s: ExecutorModel, entry: ConflictEntry)
    requires
        !s.finished(),
        s.stage == Stage::Prompting(entry),
        s.policy == Policy::Ask,
    ensures
        s.decided(ReplaceOrSkip::SkipAll).1 == Action::Continue,
        s.decided(ReplaceOrSkip::SkipAll).0.policy == Policy::SkipAll,
        s.decided(ReplaceOrSkip::SkipAll).0.conflicts.len() == 0,
        s.decided(ReplaceOrSkip::SkipAll).0.outcomes == s.outcomes + all_skipped(
            seq![entry] + s.conflicts,
        ),
{
    let t = s.decided(ReplaceOrSkip::SkipAll).0;
    assert(t.outcomes =~= s.outcomes + all_skipped(seq![entry] + s.conflicts));
}

/// Under a policy that is settled the user is not asked again: no event makes
/// the executor prompt, and the policy stays what it is.
pub proof fn lemma_settled_policy_never_prompts(s: ExecutorModel, event: Event)
    requires
        s.policy != Policy::Ask,
        !(s.stage is Prompting),
    ensures
        !(s.told(event) is Prompt),
        !(s.step(event).stage is Prompting),
        s.step(event).policy == s.policy,
{
}

/// Conflicts wait for the main pass: while items are queued, the next item is
/// started and nobody is asked; a conflict that is found joins the end of
/// those that are open.
pub proof fn lemma_conflicts_wait_for_the_main_pass(s: ExecutorModel, item: WorkItem)
    requires
        s.phase is Executing,
    ensures
        s.stage is Idle && s.queue.len() > 0 ==> {
            &&& !(s.next_action(false, false).1 is Prompt)
            &&& s.next_action(false, false).0.conflicts == s.conflicts
            &&& s.next_action(false, false).0.queue == s.queue.subrange(1, s.queue.len() as int)
        },
        s.stage == Stage::Inspecting(item) && s.operation.needs_destination() ==> s.inspected(
            Inspection::File { dest_exists: true },
        ).0.conflicts == s.conflicts.push(entry_of(item)),
{
}

impl ExecutorModel {
    /// The batch after `events`, one after the other.
    pub open spec fn after(self, events: Seq<Event>) -> ExecutorModel
        decreases events.len(),
    {
        if events.len() == 0 {
            self
        } else {
            self.after(events.drop_last()).step(events.last())
        }
    }
}

/// Over the whole life of a batch, whatever happens to it and in whatever
/// order: it stays consistent, and what counts as processed after the first
/// `k` events is no more than what counts as processed after all of them.
pub proof fn lemma_progress_over_time(s: ExecutorModel, events: Seq<Event>, k: int)
    requires
        s.consistent(),
        0 <= k <= events.len(),
    ensures
        s.after(events).consistent(),
        s.after(events.take(k)).progress.processed_bytes <= s.after(
            events,
        ).progress.processed_bytes,
        s.after(events.take(k)).progress.processed_items <= s.after(
            events,
        ).progress.processed_items,
        s.after(events).progress.processed_bytes <= s.after(events).progress.total_bytes,
        s.after(events).progress.processed_items <= s.after(events).progress.total_items,
    decreases events.len(),
{
    if events.len() == 0 {
        assert(events.take(k) =~= events);
    } else {
        let earlier = events.drop_last();
        if k == events.len() {
            assert(events.take(k) =~= events);
            lemma_progress_over_time(s, earlier, 0);
        } else {
            assert(earlier.take(k) =~= events.take(k));
            lemma_progress_over_time(s, earlier, k);
        }
        lemma_progress_never_recedes(s.after(earlier), events.last());
    }
}

/// A batch that has finished, be it by cancellation or otherwise, is never
/// changed again, and none of the events that follow makes it start an item or
/// ask the user.
pub proof fn lemma_nothing_follows_the_end(s: ExecutorModel, events: Seq<Event>, k: int)
    requires
        s.finished(),
        0 <= k < events.len(),
    ensures
        s.after(events) == s,
        !starts_something(s.after(events.take(k)).told(events[k])),
    decreases events.len(),
{
    let earlier = events.drop_last();
    if earlier.len() > 0 {
        lemma_nothing_follows_the_end(s, earlier, 0);
    }
    lemma_finished_batch_starts_nothing(s, events.last());
    if k < earlier.len() {
        assert(earlier.take(k) =~= events.take(k));
        lemma_nothing_follows_the_end(s, earlier, k);
    } else {
        assert(events.take(k) =~= earlier);
    }
}

/// Once the policy is settled, by "skip all" or otherwise, the user is not
/// asked again for the rest of the batch: none of the events that follow
/// makes the executor prompt.
pub proof fn lemma_never_asked_again(s: ExecutorModel, events: Seq<Event>, k: int)
    requires
        s.policy != Policy::Ask,
        !(s.stage is Prompting),
        0 <= k < events.len(),
    ensures
        s.after(events).policy == s.policy,
        !(s.after(events).stage is Prompting),
        !(s.after(events.take(k)).told(events[k]) is Prompt),
    decreases events.len(),
{
    let earlier = events.drop_last();
    if earlier.len() > 0 {
        lemma_never_asked_again(s, earlier, 0);
    }
    lemma_settled_policy_never_prompts(s.after(earlier), events.last());
    if k < earlier.len() {
        assert(earlier.take(k) =~= events.take(k));
        lemma_never_asked_again(s, earlier, k);
    } else {
        assert(events.take(k) =~= earlier);
    }
}

} // verus!
