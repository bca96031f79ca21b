//! Submitting batches: copy, move, delete and trash of one path or many.
//!
//! A batch is planned here and then driven by its caller, who performs each
//! action and reports what came of it. A batch that was given a token ends as
//! soon as the token is seen cancelled between two items, and releases the
//! token when it ends.

use crate::batch::FileOperation;
use crate::conflict::ReplaceOrSkip;
use crate::executor::{execute_file_operation, TransferExecutor};
use crate::machine::{Action, ExecutorModel};
use crate::registry::{
    all_taken, clean_up, counter_after, is_cancelled, is_next_free, register_cancellable,
    reserve_cancellable, CancellationRegistry,
};
use vstd::prelude::*;

verus! {

/// What a caller asks for: an operation, its sources in order, and the
/// directory that receives them where the operation has one.
#[derive(Debug)]
pub struct TransferRequest {
    pub operation: FileOperation,
    pub sources: Vec<String>,
    pub destination: Option<String>,
}

impl TransferRequest {
    /// Copy and move name a destination, delete and trash name none.
    pub open spec fn well_formed(&self) -> bool {
        self.destination is Some == self.operation.needs_destination()
    }

    /// Whether the request names a destination where its operation needs one,
    /// and none where it does not. Only such a request can be submitted.
    pub fn is_well_formed(&self) -> (ok: bool)
        ensures
            ok == self.well_formed(),
    {
        self.destination.is_some() == self.operation.needs_destination()
    }
}

/// A batch with the token that can cancel it.
pub struct Batch {
    pub cancel_id: Option<u32>,
    pub executor: TransferExecutor,
}

/// Whether the token of a batch is seen cancelled. A batch without a token
/// cannot be cancelled.
pub open spec fn seen_cancelled(registry: CancellationRegistry, cancel_id: Option<u32>) -> bool {
    match cancel_id {
        Some(id) => registry.is_live(id) && registry@[id],
        None => false,
    }
}

/// The tokens after a batch was submitted under `cancel_id`.
pub open spec fn tokens_with(tokens: Map<u32, bool>, cancel_id: Option<u32>) -> Map<u32, bool> {
    match cancel_id {
        Some(id) => tokens.insert(id, false),
        None => tokens,
    }
}

/// The tokens after the batch of `cancel_id` has ended.
pub open spec fn tokens_without(tokens: Map<u32, bool>, cancel_id: Option<u32>) -> Map<u32, bool> {
    match cancel_id {
        Some(id) => tokens.remove(id),
        None => tokens,
    }
}

/// Plans the batch of `request`. With an id the batch gets a fresh token under
/// that id, through which it can be cancelled.
pub fn submit(registry: &mut CancellationRegistry, request: TransferRequest, cancel_id: Option<u32>) -> (batch:
    Batch)
    requires
        request.well_formed(),
    ensures
        batch.cancel_id == cancel_id,
        batch.executor@ == ExecutorModel::planned(
            request.operation,
            request.sources@,
            request.destination,
        ),
        final(registry)@ == tokens_with(old(registry)@, cancel_id),
        final(registry).next_id() == old(registry).next_id(),
{
    if let Some(id) = cancel_id {
        register_cancellable(registry, id);
    }
    Batch {
        cancel_id,
        executor: execute_file_operation(request.operation, request.sources, request.destination),
    }
}

/// Plans the batch of `request` under a token that is reserved for it: the
/// first id from the counter on that names no live token.
pub fn submit_cancellable(registry: &mut CancellationRegistry, request: TransferRequest) -> (batch:
    Batch)
    requires
        request.well_formed(),
    ensures
        batch.executor@ == ExecutorModel::planned(
            request.operation,
            request.sources@,
            request.destination,
        ),
        batch.cancel_id matches Some(id) && {
            &&& !all_taken(old(registry)@) ==> is_next_free(
                old(registry)@,
                old(registry).next_id(),
                id,
            )
            &&& all_taken(old(registry)@) ==> id == old(registry).next_id()
            &&& final(registry)@ == old(registry)@.insert(id, false)
            &&& final(registry).next_id() == counter_after(id)
        },
{
    let id = reserve_cancellable(registry);
    Batch {
        cancel_id: Some(id),
        executor: execute_file_operation(request.operation, request.sources, request.destination),
    }
}

impl Batch {
    /// Says what the driver does next, looking at the batch's token first. When
    /// the batch has ended, its token is released.
    pub fn next_action(&mut self, registry: &mut CancellationRegistry, paused: bool) -> (action:
        Action)
        ensures
            final(self).cancel_id == old(self).cancel_id,
            final(self).executor@ == old(self).executor@.next_action(
                seen_cancelled(*old(registry), old(self).cancel_id),
                paused,
            ).0,
            action == old(self).executor@.next_action(
                seen_cancelled(*old(registry), old(self).cancel_id),
                paused,
            ).1,
            final(registry)@ == if action is Finish {
                tokens_without(old(registry)@, old(self).cancel_id)
            } else {
                old(registry)@
            },
            final(registry).next_id() == old(registry).next_id(),
    {
        let cancelled = match self.cancel_id {
            Some(id) => is_cancelled(registry, id),
            None => false,
        };
        let action = self.executor.next_action(cancelled, paused);
        if let Action::Finish(_) = &action {
            clean_up(registry, self.cancel_id);
        }
        action
    }

    /// Takes in the user's answer for the conflict that was asked about and
    /// says what is done. When the answer ends the batch, its token is
    /// released.
    pub fn decided(&mut self, registry: &mut CancellationRegistry, answer: ReplaceOrSkip) -> (action:
        Action)
        ensures
            final(self).cancel_id == old(self).cancel_id,
            final(self).executor@ == old(self).executor@.decided(answer).0,
            action == old(self).executor@.decided(answer).1,
            final(registry)@ == if action is Finish {
                tokens_without(old(registry)@, old(self).cancel_id)
            } else {
                old(registry)@
            },
            final(registry).next_id() == old(registry).next_id(),
    {
        let action = self.executor.decided(answer);
        if let Action::Finish(_) = &action {
            clean_up(registry, self.cancel_id);
        }
        action
    }
}

fn single(path: String) -> (paths: Vec<String>)
    ensures
        paths@ == seq![path],
{
    let mut paths: Vec<String> = Vec::new();
    paths.push(path);
    paths
}

/// The request to move `from` into the directory `to`.
pub fn mv(from: String, to: String) -> (request: TransferRequest)
    ensures
        request.operation == FileOperation::Move,
        request.sources@ == seq![from],
        request.destination == Some(to),
        request.well_formed(),
{
    TransferRequest { operation: FileOperation::Move, sources: single(from), destination: Some(to) }
}

/// The request to move `froms`, in their order, into the directory `to`.
pub fn mv_all(froms: Vec<String>, to: String) -> (request: TransferRequest)
    ensures
        request.operation == FileOperation::Move,
        request.sources == froms,
        request.destination == Some(to),
        request.well_formed(),
{
    TransferRequest { operation: FileOperation::Move, sources: froms, destination: Some(to) }
}

/// The request to copy `from` into the directory `to`.
pub fn copy(from: String, to: String) -> (request: TransferRequest)
    ensures
        request.operation == FileOperation::Copy,
        request.sources@ == seq![from],
        request.destination == Some(to),
        request.well_formed(),
{
    TransferRequest { operation: FileOperation::Copy, sources: single(from), destination: Some(to) }
}

/// The request to copy `froms`, in their order, into the directory `to`.
pub fn copy_all(froms: Vec<String>, to: String) -> (request: TransferRequest)
    ensures
        request.operation == FileOperation::Copy,
        request.sources == froms,
        request.destination == Some(to),
        request.well_formed(),
{
    TransferRequest { operation: FileOperation::Copy, sources: froms, destination: Some(to) }
}

/// The request to delete `file_path` and what is below it.
pub fn delete(file_path: String) -> (request: TransferRequest)
    ensures
        request.operation == FileOperation::Delete,
        request.sources@ == seq![file_path],
        request.destination is None,
        request.well_formed(),
{
    TransferRequest { operation: FileOperation::Delete, sources: single(file_path), destination: None }
}

/// The request to delete `file_paths`, in their order.
pub fn delete_all(file_paths: Vec<String>) -> (request: TransferRequest)
    ensures
        request.operation == FileOperation::Delete,
        request.sources == file_paths,
        request.destination is None,
        request.well_formed(),
{
    TransferRequest { operation: FileOperation::Delete, sources: file_paths, destination: None }
}

/// The request to move `file` to the recycle bin.
pub fn trash(file: String) -> (request: TransferRequest)
    ensures
        request.operation == FileOperation::Trash,
        request.sources@ == seq![file],
        request.destination is None,
        request.well_formed(),
{
    TransferRequest { operation: FileOperation::Trash, sources: single(file), destination: None }
}

/// The request to move `files`, in their order, to the recycle bin.
pub fn trash_all(files: Vec<String>) -> (request: TransferRequest)
    ensures
        request.operation == FileOperation::Trash,
        request.sources == files,
        request.destination is None,
        request.well_formed(),
{
    TransferRequest { operation: FileOperation::Trash, sources: files, destination: None }
}

} // verus!
