//! Moving several files as one operation: one running total over all of them,
//! and what an error on one of them means for the rest.

use crate::registry::{is_cancelled, CancellationRegistry};
use vstd::prelude::*;
use vstd::string::StringExecFns;

verus! {

/// What the progress callback answers to go on.
pub const PROGRESS_CONTINUE: u32 = 0;

/// What the progress callback answers to cancel the copy.
pub const PROGRESS_CANCEL: u32 = 1;

/// The bytes of all files of a bulk move, and how many of them are across.
#[derive(Debug, Clone, Copy, PartialEq, Eq, Structural)]
pub struct ProgressData {
    /// Bytes of all files.
    pub total: i64,
    /// What the file in flight reported last.
    pub prev: i64,
    /// Bytes across so far, over all files.
    pub processed: i64,
}

/// The sum of `sizes`.
pub open spec fn sum_of(sizes: Seq<u64>) -> nat
    decreases sizes.len(),
{
    if sizes.len() == 0 {
        0
    } else {
        sum_of(sizes.drop_last()) + sizes.last() as nat
    }
}

/// A number, or the largest `i64` where it is larger.
pub open spec fn capped(n: int) -> i64 {
    if n > i64::MAX {
        i64::MAX
    } else {
        n as i64
    }
}

/// The progress after a report of `transferred` bytes of the file in flight:
/// what the file has gained over its last report is added, a report that has
/// not gained adds nothing, and the count stops at the largest `i64`.
pub open spec fn after_report(data: ProgressData, transferred: i64) -> ProgressData {
    ProgressData {
        total: data.total,
        prev: transferred,
        processed: if transferred > data.prev {
            capped(data.processed + (transferred - data.prev))
        } else {
            data.processed
        },
    }
}

/// Starts a bulk move of files of these sizes into a directory. Refused where
/// the destination is a file. The total is the sum of the sizes, as far as an
/// `i64` holds it.
pub fn mv_bulk(source_sizes: &Vec<u64>, dest_is_file: bool) -> (result: Result<ProgressData, String>)
    ensures
        result is Err == dest_is_file,
        result matches Err(message) ==> message@ == "Destination is file"@,
        result matches Ok(data) ==> data == (ProgressData {
            total: capped(sum_of(source_sizes@) as int),
            prev: 0,
            processed: 0,
        }),
{
    if dest_is_file {
        return Err("Destination is file".to_owned());
    }
    let mut total: u64 = 0;
    let mut i: usize = 0;
    let cap: u64 = 0x7FFF_FFFF_FFFF_FFFF;
    while i < source_sizes.len()
        invariant
            0 <= i <= source_sizes.len(),
            cap == i64::MAX,
            total <= cap,
            total == capped(sum_of(source_sizes@.take(i as int)) as int),
        decreases source_sizes.len() - i,
    {
        proof {
            assert(source_sizes@.take(i + 1).drop_last() =~= source_sizes@.take(i as int));
        }
        let size = source_sizes[i];
        total = if size > cap - total {
            cap
        } else {
            total + size
        };
        i = i + 1;
    }
    proof {
        assert(source_sizes@.take(i as int) =~= source_sizes@);
    }
    Ok(ProgressData { total: total as i64, prev: 0, processed: 0 })
}

/// Takes in a progress report of the file in flight and returns what the
/// callback is told: the bytes across so far, then the total.
pub fn move_files_progress(data: &mut ProgressData, transferred: i64) -> (told: (i64, i64))
    ensures
        *final(data) == after_report(*old(data), transferred),
        told == (final(data).processed, final(data).total),
{
    if transferred > data.prev {
        let gained: i128 = transferred as i128 - data.prev as i128;
        let sum: i128 = data.processed as i128 + gained;
        data.processed = if sum > i64::MAX as i128 {
            i64::MAX
        } else {
            sum as i64
        };
    }
    data.prev = transferred;
    (data.processed, data.total)
}

/// What the progress callback answers: to cancel where the operation's token
/// is seen cancelled, else to go on. An operation without a token goes on.
pub fn move_progress(registry: &CancellationRegistry, cancel_id: Option<u32>) -> (answer: u32)
    ensures
        answer == if crate::fs::seen_cancelled(*registry, cancel_id) {
            PROGRESS_CANCEL
        } else {
            PROGRESS_CONTINUE
        },
{
    match cancel_id {
        Some(id) => if is_cancelled(registry, id) {
            PROGRESS_CANCEL
        } else {
            PROGRESS_CONTINUE
        },
        None => PROGRESS_CONTINUE,
    }
}

/// What an error on one file means. An error other than cancellation is
/// reported with the file's name. A cancellation is no error: in a bulk move
/// (`treat_cancel_as_error`) it stops the files that follow, `Ok(false)`; in
/// a single move there is nothing to stop, `Ok(true)`.
pub fn handel_error(cancelled: bool, source: &String, message: &String, treat_cancel_as_error: bool) -> (result:
    Result<bool, String>)
    ensures
        result is Err == !cancelled,
        result matches Err(text) ==> text@ == "File: "@ + source@ + ", Message: "@ + message@,
        result matches Ok(go_on) ==> go_on == !treat_cancel_as_error,
{
    if !cancelled {
        let mut text = String::new();
        text.append("File: ");
        text.append(source.as_str());
        text.append(", Message: ");
        text.append(message.as_str());
        assert(text@ =~= "File: "@ + source@ + ", Message: "@ + message@);
        return Err(text);
    }
    if treat_cancel_as_error {
        return Ok(false);
    }
    Ok(true)
}

/// Why a copy did not come through.
#[derive(Debug)]
pub struct CopyFailure {
    /// The copy was cancelled.
    pub cancelled: bool,
    pub message: String,
}

/// What remains to be done after the copy of a move.
#[derive(Debug)]
pub struct MoveFollowUp {
    /// The source is deleted: the copy is complete.
    pub delete_source: bool,
    /// What the copy has written is deleted, if anything is there.
    pub delete_partial: bool,
    /// The token of the move is released: the move has ended, however it
    /// ended.
    pub release_token: bool,
    /// What the move reports, if what remains to be done succeeds.
    pub result: Result<(), String>,
}

/// Decides what follows the copy of a move. After a complete copy the source
/// goes. After a copy that failed, what was written goes; a cancelled copy is
/// no error, any other failure is reported. Either way the move has ended and
/// its token is released.
pub fn cancellable_move(failure: Option<CopyFailure>) -> (next: MoveFollowUp)
    ensures
        next.delete_source == failure is None,
        next.release_token,
        next.delete_partial == failure is Some,
        match failure {
            Some(f) => if f.cancelled {
                next.result is Ok
            } else {
                next.result == Err::<(), String>(f.message)
            },
            None => next.result is Ok,
        },
{
    match failure {
        None => MoveFollowUp {
            delete_source: true,
            delete_partial: false,
            release_token: true,
            result: Ok(()),
        },
        Some(f) => MoveFollowUp {
            delete_source: false,
            delete_partial: true,
            release_token: true,
            result: if f.cancelled {
                Ok(())
            } else {
                Err(f.message)
            },
        },
    }
}

} // verus!
