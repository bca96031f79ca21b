//! The vocabulary of a batch: what is asked for, what can go wrong, and what
//! each item ended as.

use vstd::prelude::*;

verus! {

/// What a batch does to each of its sources.
#[derive(Debug, Clone, Copy, PartialEq, Eq, Structural)]
pub enum FileOperation {
    Copy,
    Move,
    Delete,
    Trash,
}

impl FileOperation {
    /// Copy and move write to a destination; delete and trash do not.
    pub open spec fn spec_needs_destination(self) -> bool {
        self == FileOperation::Copy || self == FileOperation::Move
    }

    /// Whether the operation writes to a destination directory.
    #[verifier::when_used_as_spec(spec_needs_destination)]
    pub fn needs_destination(self) -> (needed: bool)
        ensures
            needed == self.spec_needs_destination(),
    {
        match self {
            FileOperation::Copy => true,
            FileOperation::Move => true,
            FileOperation::Delete => false,
            FileOperation::Trash => false,
        }
    }

    /// Progress of copy and move is counted in bytes, that of delete and trash
    /// in items.
    pub open spec fn spec_counts_bytes(self) -> bool {
        self.spec_needs_destination()
    }

    /// Whether progress of this operation is counted in bytes.
    #[verifier::when_used_as_spec(spec_counts_bytes)]
    pub fn counts_bytes(self) -> (bytes: bool)
        ensures
            bytes == self.spec_counts_bytes(),
    {
        self.needs_destination()
    }
}

/// Why a batch, or one item of it, did not do what was asked.
#[derive(Debug, PartialEq, Eq)]
pub enum TransferError {
    /// Cancellation was observed. A batch that ends this way stopped cleanly.
    Cancelled,
    /// The operating system refused the operation on one item.
    NativeIoError { path: String, message: String },
    /// The sources could not be measured; nothing was transferred.
    MeasurementFailure,
    /// The user abandoned the conflicts that were still open.
    ConflictAborted,
    /// A request to restore named nothing that is in the recycle bin.
    UnmatchedUndeleteRequest,
}

/// How one item ended.
#[derive(Debug, PartialEq, Eq)]
pub enum ItemStatus {
    Success,
    Skipped,
    Cancelled,
    Failed(String),
}

/// The end of one item of a batch.
#[derive(Debug, PartialEq, Eq)]
pub struct TransferItemOutcome {
    pub source_path: String,
    pub status: ItemStatus,
}

/// An item that was put aside because its destination already exists.
#[derive(Debug, PartialEq, Eq)]
pub struct ConflictEntry {
    pub source_path: String,
    /// The directory in which the item's name is already taken.
    pub dest_dir: Option<String>,
}

/// How a batch ended.
#[derive(Debug, Clone, Copy, PartialEq, Eq, Structural)]
pub enum Completion {
    Completed,
    CancelledEarly,
    CompletedWithFailures,
}

impl TransferItemOutcome {
    /// What went wrong with the item, in the terms in which errors are
    /// reported: nothing for an item that succeeded or was skipped.
    pub fn error(&self) -> (error: Option<TransferError>)
        ensures
            match self.status {
                ItemStatus::Success => error is None,
                ItemStatus::Skipped => error is None,
                ItemStatus::Cancelled => error == Some(TransferError::Cancelled),
                ItemStatus::Failed(reason) => error matches Some(
                    TransferError::NativeIoError { path, message },
                ) && path == self.source_path && message == reason,
            },
    {
        match &self.status {
            ItemStatus::Success => None,
            ItemStatus::Skipped => None,
            ItemStatus::Cancelled => Some(TransferError::Cancelled),
            ItemStatus::Failed(reason) => Some(
                TransferError::NativeIoError {
                    path: self.source_path.clone(),
                    message: reason.clone(),
                },
            ),
        }
    }
}

} // verus!
