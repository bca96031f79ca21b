//! The executor of one batch. It performs no operation itself: it tells its
//! driver what to do next and takes in what came of it.

use crate::batch::{
    Completion, ConflictEntry, FileOperation, ItemStatus, TransferError, TransferItemOutcome,
};
use crate::conflict::{ConflictResolver, Policy, ReplaceOrSkip, Resolution};
use crate::machine::{
    all_skipped, any_failure, is_first_failure, source_items, Action, Cleanup, ExecutorModel, Fatal,
    Inspection, ItemResult, Listing, Phase, Stage, WorkItem,
};
use crate::progress::{positive_delta, ProgressCounts, ProgressState};
use crate::usage::DiskUsageSnapshot;
use std::collections::VecDeque;
use vstd::prelude::*;

verus! {

/// One batch on its way from planning to its end.
pub struct TransferExecutor {
    operation: FileOperation,
    phase: Phase,
    stage: Stage,
    queue: VecDeque<WorkItem>,
    conflicts: VecDeque<ConflictEntry>,
    resolver: ConflictResolver,
    progress: ProgressState,
    last_reported: i64,
    outcomes: Vec<TransferItemOutcome>,
    failed: bool,
    fatal: Option<Fatal>,
}

impl View for TransferExecutor {
    type V = ExecutorModel;

    closed spec fn view(&self) -> ExecutorModel {
        ExecutorModel {
            operation: self.operation,
            phase: self.phase,
            stage: self.stage,
            queue: self.queue@,
            conflicts: self.conflicts@,
            policy: self.resolver@,
            progress: self.progress@,
            last_reported: self.last_reported,
            outcomes: self.outcomes@,
            failed: self.failed,
            fatal: self.fatal,
        }
    }
}

fn copy_of_path(path: &Option<String>) -> (copy: Option<String>)
    ensures
        copy == *path,
{
    match path {
        Some(p) => Some(p.clone()),
        None => None,
    }
}

fn copy_of_item(item: &WorkItem) -> (copy: WorkItem)
    ensures
        copy == *item,
{
    WorkItem {
        source: item.source.clone(),
        dest_dir: copy_of_path(&item.dest_dir),
        emptied: item.emptied,
    }
}

fn copy_of_entry(entry: &ConflictEntry) -> (copy: ConflictEntry)
    ensures
        copy == *entry,
{
    ConflictEntry {
        source_path: entry.source_path.clone(),
        dest_dir: copy_of_path(&entry.dest_dir),
    }
}

/// Puts the work items of `sources` at the head of `queue`, in their order.
fn queue_ahead(queue: &mut VecDeque<WorkItem>, sources: &Vec<String>, to: &Option<String>)
    ensures
        final(queue)@ == source_items(sources@, *to) + old(queue)@,
{
    let mut k: usize = sources.len();
    while k > 0
        invariant
            0 <= k <= sources.len(),
            queue@ == source_items(sources@, *to).subrange(k as int, sources.len() as int) + old(
                queue,
            )@,
        decreases k,
    {
        k = k - 1;
        let item = WorkItem {
            source: sources[k].clone(),
            dest_dir: copy_of_path(to),
            emptied: false,
        };
        queue.push_front(item);
        assert(queue@ =~= source_items(sources@, *to).subrange(k as int, sources.len() as int)
            + old(queue)@);
    }
    assert(queue@ =~= source_items(sources@, *to) + old(queue)@);
}

/// Records every open conflict as skipped and leaves none open.
fn skip_remaining(conflicts: &mut VecDeque<ConflictEntry>, outcomes: &mut Vec<TransferItemOutcome>)
    ensures
        final(conflicts)@ == Seq::<ConflictEntry>::empty(),
        final(outcomes)@ == old(outcomes)@ + all_skipped(old(conflicts)@),
{
    let ghost done: int = 0;
    loop
        invariant
            0 <= done <= old(conflicts)@.len(),
            conflicts@ == old(conflicts)@.subrange(done, old(conflicts)@.len() as int),
            outcomes@ == old(outcomes)@ + all_skipped(old(conflicts)@.subrange(0, done)),
        ensures
            conflicts@ == Seq::<ConflictEntry>::empty(),
            outcomes@ == old(outcomes)@ + all_skipped(old(conflicts)@),
        decreases conflicts@.len(),
    {
        match conflicts.pop_front() {
            Some(entry) => {
                outcomes.push(
                    TransferItemOutcome { source_path: entry.source_path, status: ItemStatus::Skipped },
                );
                proof {
                    done = done + 1;
                    assert(conflicts@ =~= old(conflicts)@.subrange(
                        done,
                        old(conflicts)@.len() as int,
                    ));
                    assert(outcomes@ =~= old(outcomes)@ + all_skipped(
                        old(conflicts)@.subrange(0, done),
                    ));
                }
            },
            None => {
                proof {
                    assert(old(conflicts)@.subrange(0, done) =~= old(conflicts)@);
                    assert(conflicts@ =~= Seq::<ConflictEntry>::empty());
                }
                break;
            },
        }
    }
}

/// Plans the batch that performs `operation` on `froms`, into the directory
/// `to`. Copy and move need a destination, delete and trash take none. Nothing
/// has been measured or started; without sources there is nothing to do and
/// the batch is finished.
pub fn execute_file_operation(operation: FileOperation, froms: Vec<String>, to: Option<String>) -> (executor:
    TransferExecutor)
    requires
        to is Some == operation.needs_destination(),
    ensures
        executor@ == ExecutorModel::planned(operation, froms@, to),
{
    let mut queue: VecDeque<WorkItem> = VecDeque::new();
    queue_ahead(&mut queue, &froms, &to);
    let phase = if froms.len() == 0 {
        Phase::Finished(Completion::Completed)
    } else {
        Phase::Planning
    };
    let executor = TransferExecutor {
        operation,
        phase,
        stage: Stage::Idle,
        queue,
        conflicts: VecDeque::new(),
        resolver: ConflictResolver::new(),
        progress: ProgressState::new(DiskUsageSnapshot { total_bytes: 0, total_items: 0 }),
        last_reported: 0,
        outcomes: Vec::new(),
        failed: false,
        fatal: None,
    };
    assert(executor@.queue =~= source_items(froms@, to));
    executor
}

impl TransferExecutor {
    /// Where the batch stands.
    pub fn phase(&self) -> (phase: Phase)
        ensures
            phase == self@.phase,
    {
        self.phase
    }

    /// The operation of the batch.
    pub fn operation(&self) -> (operation: FileOperation)
        ensures
            operation == self@.operation,
    {
        self.operation
    }

    /// How far the batch has come. Neither count is past its total.
    pub fn progress(&self) -> (counts: ProgressCounts)
        ensures
            counts == self@.progress,
            counts.within_totals(),
    {
        self.progress.counts()
    }

    /// The title of the progress display.
    pub fn title(&self) -> (text: String)
        ensures
            text@ == crate::text::decimal(self@.progress.percent(self@.operation)) + "% complete"@,
    {
        self.progress.title(self.operation)
    }

    /// The line below the title of the progress display.
    pub fn message(&self) -> (text: String)
        ensures
            text@ == crate::progress::verb_of(self@.operation) + " "@ + crate::text::decimal(
                self@.progress.processed_items as nat,
            ) + "/"@ + crate::text::decimal(self@.progress.total_items as nat) + " items "@,
    {
        self.progress.message(self.operation)
    }

    /// The items that have ended, in the order in which they ended.
    pub fn outcomes(&self) -> (outcomes: &Vec<TransferItemOutcome>)
        ensures
            outcomes@ == self@.outcomes,
    {
        &self.outcomes
    }

    /// Number of conflicts that are still open.
    pub fn open_conflicts(&self) -> (n: usize)
        ensures
            n == self@.conflicts.len(),
    {
        self.conflicts.len()
    }

    /// Says what the driver does next. To be asked between items, with the
    /// batch's token and pause flag as they are now: a cancelled batch ends
    /// before another item starts, a paused one waits.
    pub fn next_action(&mut self, cancelled: bool, paused: bool) -> (action: Action)
        ensures
            final(self)@ == old(self)@.next_action(cancelled, paused).0,
            action == old(self)@.next_action(cancelled, paused).1,
    {
        if let Phase::Finished(completion) = self.phase {
            return Action::Finish(completion);
        }
        match &self.stage {
            Stage::Idle => {},
            Stage::Inspecting(item) => {
                return Action::Inspect(copy_of_item(item));
            },
            Stage::Listing(item) => {
                return Action::EnterDirectory(copy_of_item(item));
            },
            Stage::Transferring { item, overwrite } => {
                return Action::Run { item: copy_of_item(item), overwrite: *overwrite };
            },
            Stage::Prompting(entry) => {
                return Action::Prompt(copy_of_entry(entry));
            },
        }
        match self.phase {
            Phase::Planning => {
                self.phase = Phase::Measuring;
                return Action::Measure;
            },
            Phase::Measuring => {
                return Action::Measure;
            },
            _ => {},
        }
        if cancelled {
            self.phase = Phase::Finished(Completion::CancelledEarly);
            return Action::Finish(Completion::CancelledEarly);
        }
        if paused {
            return Action::WaitForResume;
        }
        if self.phase == Phase::Executing && self.queue.len() > 0 {
            return self.start_next_item();
        }
        if self.conflicts.len() > 0 {
            return self.take_up_conflict();
        }
        let completion = if self.failed {
            Completion::CompletedWithFailures
        } else {
            self.progress.clamp_complete();
            Completion::Completed
        };
        self.phase = Phase::Finished(completion);
        self.stage = Stage::Idle;
        Action::Finish(completion)
    }

    fn start_next_item(&mut self) -> (action: Action)
        requires
            old(self)@.queue.len() > 0,
        ensures
            final(self)@ == old(self)@.start_next_item().0,
            action == old(self)@.start_next_item().1,
    {
        let item = self.queue.pop_front().unwrap();
        if self.operation == FileOperation::Trash || item.emptied {
            let action = Action::Run { item: copy_of_item(&item), overwrite: false };
            self.stage = Stage::Transferring { item, overwrite: false };
            self.last_reported = 0;
            action
        } else {
            let action = Action::Inspect(copy_of_item(&item));
            self.stage = Stage::Inspecting(item);
            action
        }
    }

    fn take_up_conflict(&mut self) -> (action: Action)
        requires
            old(self)@.conflicts.len() > 0,
        ensures
            final(self)@ == old(self)@.take_up_conflict().0,
            action == old(self)@.take_up_conflict().1,
    {
        match self.resolver.standing() {
            None => {
                let entry = self.conflicts.pop_front().unwrap();
                let action = Action::Prompt(copy_of_entry(&entry));
                self.phase = Phase::ResolvingConflicts;
                self.stage = Stage::Prompting(entry);
                action
            },
            Some(Resolution::Replace) => {
                let entry = self.conflicts.pop_front().unwrap();
                let item = WorkItem {
                    source: entry.source_path,
                    dest_dir: entry.dest_dir,
                    emptied: false,
                };
                let action = Action::Run { item: copy_of_item(&item), overwrite: true };
                self.phase = Phase::ResolvingConflicts;
                self.stage = Stage::Transferring { item, overwrite: true };
                self.last_reported = 0;
                action
            },
            Some(Resolution::Skip) => {
                let entry = self.conflicts.pop_front().unwrap();
                self.phase = Phase::ResolvingConflicts;
                self.outcomes.push(
                    TransferItemOutcome { source_path: entry.source_path, status: ItemStatus::Skipped },
                );
                Action::Continue
            },
            Some(Resolution::Abort) => {
                let completion = if self.failed {
                    Completion::CompletedWithFailures
                } else {
                    Completion::Completed
                };
                self.phase = Phase::Finished(completion);
                self.fatal = Some(Fatal::ConflictAborted);
                Action::Finish(completion)
            },
        }
    }

    /// Takes in the measurement of the sources. A failure ends the batch before
    /// anything is transferred.
    pub fn measured(&mut self, usage: Result<DiskUsageSnapshot, TransferError>)
        ensures
            final(self)@ == old(self)@.measured(usage),
    {
        if self.phase == Phase::Measuring {
            match usage {
                Ok(snapshot) => {
                    self.phase = Phase::Executing;
                    self.progress = ProgressState::new(snapshot);
                },
                Err(_) => {
                    self.phase = Phase::Finished(Completion::CompletedWithFailures);
                    self.stage = Stage::Idle;
                    self.failed = true;
                    self.fatal = Some(Fatal::MeasurementFailure);
                },
            }
        }
    }

    /// Takes in what the item is and says what is done with it.
    pub fn inspected(&mut self, found: Inspection) -> (action: Action)
        ensures
            final(self)@ == old(self)@.inspected(found).0,
            action == old(self)@.inspected(found).1,
    {
        if let Phase::Finished(_) = self.phase {
            return Action::Continue;
        }
        let mut stage = Stage::Idle;
        std::mem::swap(&mut self.stage, &mut stage);
        match stage {
            Stage::Inspecting(item) => match found {
                Inspection::Directory => {
                    let action = Action::EnterDirectory(copy_of_item(&item));
                    self.stage = Stage::Listing(item);
                    action
                },
                Inspection::File { dest_exists } => {
                    if dest_exists && self.operation.needs_destination() {
                        self.conflicts.push_back(
                            ConflictEntry { source_path: item.source, dest_dir: item.dest_dir },
                        );
                        Action::Continue
                    } else {
                        let action = Action::Run { item: copy_of_item(&item), overwrite: false };
                        self.stage = Stage::Transferring { item, overwrite: false };
                        self.last_reported = 0;
                        action
                    }
                },
            },
            other => {
                self.stage = other;
                Action::Continue
            },
        }
    }

    /// Takes in what a directory holds, or that it could not be entered.
    pub fn listed(&mut self, listing: Result<Listing, String>)
        ensures
            final(self)@ == old(self)@.listed(listing),
    {
        if let Phase::Finished(_) = self.phase {
            return;
        }
        let mut stage = Stage::Idle;
        std::mem::swap(&mut self.stage, &mut stage);
        match stage {
            Stage::Listing(item) => match listing {
                Ok(l) => {
                    if self.operation == FileOperation::Delete {
                        self.queue.push_front(
                            WorkItem { source: item.source, dest_dir: item.dest_dir, emptied: true },
                        );
                    }
                    queue_ahead(&mut self.queue, &l.children, &l.dest_dir);
                    assert(self@.queue =~= old(self)@.listed(listing).queue);
                },
                Err(message) => {
                    self.outcomes.push(
                        TransferItemOutcome {
                            source_path: item.source,
                            status: ItemStatus::Failed(message),
                        },
                    );
                    self.failed = true;
                    if !self.operation.counts_bytes() {
                        self.progress.add_item();
                    }
                },
            },
            other => {
                self.stage = other;
            },
        }
    }

    /// Takes in a progress report of the item in flight: `done` bytes of
    /// `total`. Only what the item has gained since its last report is
    /// counted.
    pub fn progressed(&mut self, done: i64, total: i64)
        ensures
            final(self)@ == old(self)@.progressed(done),
    {
        if let Phase::Finished(_) = self.phase {
            return;
        }
        let in_flight = match &self.stage {
            Stage::Transferring { .. } => true,
            _ => false,
        };
        if in_flight && self.operation.counts_bytes() {
            let delta = positive_delta(self.last_reported, done);
            self.progress.add_bytes(delta);
            self.last_reported = done;
        }
    }

    /// Takes in the end of the operation on the item in flight and says what is
    /// to be removed. An item that was cancelled while it wrote to a
    /// destination leaves nothing there.
    pub fn item_done(&mut self, result: ItemResult) -> (cleanup: Cleanup)
        ensures
            final(self)@ == old(self)@.item_done(result).0,
            cleanup == old(self)@.item_done(result).1,
    {
        if let Phase::Finished(_) = self.phase {
            return Cleanup::Nothing;
        }
        let mut stage = Stage::Idle;
        std::mem::swap(&mut self.stage, &mut stage);
        match stage {
            Stage::Transferring { item, overwrite } => match result {
                ItemResult::Done => {
                    if !item.emptied {
                        self.outcomes.push(
                            TransferItemOutcome { source_path: item.source, status: ItemStatus::Success },
                        );
                        self.progress.add_item();
                    }
                    Cleanup::Nothing
                },
                ItemResult::Cancelled => {
                    self.phase = Phase::Finished(Completion::CancelledEarly);
                    self.outcomes.push(
                        TransferItemOutcome {
                            source_path: item.source.clone(),
                            status: ItemStatus::Cancelled,
                        },
                    );
                    if !self.operation.counts_bytes() {
                        self.progress.add_item();
                    }
                    if self.operation.needs_destination() {
                        Cleanup::RemovePartial(item)
                    } else {
                        Cleanup::Nothing
                    }
                },
                ItemResult::Failed(message) => {
                    self.outcomes.push(
                        TransferItemOutcome {
                            source_path: item.source,
                            status: ItemStatus::Failed(message),
                        },
                    );
                    self.failed = true;
                    if !self.operation.counts_bytes() {
                        self.progress.add_item();
                    }
                    Cleanup::Nothing
                },
            },
            other => {
                self.stage = other;
                Cleanup::Nothing
            },
        }
    }

    /// Takes in the user's answer for the conflict that was asked about and
    /// says what is done. An answer for all conflicts is remembered; "skip all"
    /// skips every open conflict at once.
    pub fn decided(&mut self, answer: ReplaceOrSkip) -> (action: Action)
        ensures
            final(self)@ == old(self)@.decided(answer).0,
            action == old(self)@.decided(answer).1,
    {
        if let Phase::Finished(_) = self.phase {
            return Action::Continue;
        }
        let mut stage = Stage::Idle;
        std::mem::swap(&mut self.stage, &mut stage);
        match stage {
            Stage::Prompting(entry) => match self.resolver.decide(answer) {
                Resolution::Replace => {
                    let item = WorkItem {
                        source: entry.source_path,
                        dest_dir: entry.dest_dir,
                        emptied: false,
                    };
                    let action = Action::Run { item: copy_of_item(&item), overwrite: true };
                    self.stage = Stage::Transferring { item, overwrite: true };
                    self.last_reported = 0;
                    action
                },
                Resolution::Skip => {
                    self.outcomes.push(
                        TransferItemOutcome { source_path: entry.source_path, status: ItemStatus::Skipped },
                    );
                    if self.resolver.policy() == Policy::SkipAll {
                        skip_remaining(&mut self.conflicts, &mut self.outcomes);
                    }
                    Action::Continue
                },
                Resolution::Abort => {
                    let completion = if self.failed {
                        Completion::CompletedWithFailures
                    } else {
                        Completion::Completed
                    };
                    self.conflicts.push_front(entry);
                    self.fatal = Some(Fatal::ConflictAborted);
                    self.phase = Phase::Finished(completion);
                    Action::Finish(completion)
                },
            },
            other => {
                self.stage = other;
                Action::Continue
            },
        }
    }

    /// The result of the batch as a whole. A batch that was cancelled stopped
    /// cleanly. Otherwise what ended the batch is reported, or else the first
    /// item that failed.
    pub fn result(&self) -> (result: Result<(), TransferError>)
        ensures
            self@.phase == Phase::Finished(Completion::CancelledEarly) ==> result is Ok,
            self@.phase != Phase::Finished(Completion::CancelledEarly) ==> match self@.fatal {
                Some(Fatal::MeasurementFailure) => result matches Err(
                    TransferError::MeasurementFailure,
                ),
                Some(Fatal::ConflictAborted) => result matches Err(TransferError::ConflictAborted),
                None => match result {
                    Ok(_) => !any_failure(self@.outcomes),
                    Err(TransferError::NativeIoError { path, message }) => exists|i: int|
                        is_first_failure(self@.outcomes, i) && path == (
                        #[trigger] self@.outcomes[i]).source_path && self@.outcomes[i].status
                            == ItemStatus::Failed(message),
                    Err(_) => false,
                },
            },
    {
        if self.phase == Phase::Finished(Completion::CancelledEarly) {
            return Ok(());
        }
        match self.fatal {
            Some(Fatal::MeasurementFailure) => Err(TransferError::MeasurementFailure),
            Some(Fatal::ConflictAborted) => Err(TransferError::ConflictAborted),
            None => {
                let mut i: usize = 0;
                while i < self.outcomes.len()
                    invariant
                        0 <= i <= self.outcomes.len(),
                        self@.phase != Phase::Finished(Completion::CancelledEarly),
                        self@.fatal is None,
                        forall|j: int| 0 <= j < i ==> !(#[trigger] self.outcomes@[j].status is Failed),
                    decreases self.outcomes.len() - i,
                {
                    if let ItemStatus::Failed(message) = &self.outcomes[i].status {
                        assert(is_first_failure(self@.outcomes, i as int));
                        return Err(
                            TransferError::NativeIoError {
                                path: self.outcomes[i].source_path.clone(),
                                message: message.clone(),
                            },
                        );
                    }
                    i = i + 1;
                }
                Ok(())
            },
        }
    }
}

} // verus!
