//! Finding in the recycle bin what a request to restore means.
//!
//! The entries are a fresh listing of the bin, handed in by the caller. An entry
//! is known by where it was deleted from and when: one path may have been
//! deleted several times.

use crate::batch::TransferError;
use crate::FileAttribute;
use vstd::prelude::*;

verus! {

/// One item in the recycle bin, as the bin lists it.
#[derive(Debug)]
pub struct RecycleBinEntry {
    /// The name under which the bin keeps the item.
    pub trash_identifier: String,
    /// Where the item was deleted from.
    pub original_path: String,
    /// When it was deleted, in milliseconds since 1970.
    pub deleted_at: u64,
    pub attributes: FileAttribute,
    pub mime_type: String,
}

/// Names one deletion of one path.
#[derive(Debug)]
pub struct UndeleteRequest {
    pub original_path: String,
    pub deleted_at: u64,
}

/// Whether `path` is one of `paths`.
pub open spec fn requested(paths: Seq<String>, path: Seq<char>) -> bool {
    exists|k: int| 0 <= k < paths.len() && (#[trigger] paths[k])@ == path
}

/// Whether entry `j` speaks against restoring entry `i`: it was deleted from
/// the same path later, or at the same time and is listed earlier.
pub open spec fn outranks(entries: Seq<RecycleBinEntry>, j: int, i: int) -> bool {
    &&& entries[j].original_path@ == entries[i].original_path@
    &&& (entries[j].deleted_at > entries[i].deleted_at || (entries[j].deleted_at
        == entries[i].deleted_at && j < i))
}

/// Whether entry `i` is the one to restore for its path: the path is asked
/// for, and of all entries deleted from it this is the latest, the first
/// listed among those deleted at the same time.
pub open spec fn restores_latest(entries: Seq<RecycleBinEntry>, paths: Seq<String>, i: int) -> bool {
    &&& 0 <= i < entries.len()
    &&& requested(paths, entries[i].original_path@)
    &&& forall|j: int| 0 <= j < entries.len() ==> !#[trigger] outranks(entries, j, i)
}

/// Whether entry `i` is named by one of `requests`: same path, same time.
pub open spec fn named_by_time(
    entries: Seq<RecycleBinEntry>,
    requests: Seq<UndeleteRequest>,
    i: int,
) -> bool {
    &&& 0 <= i < entries.len()
    &&& exists|r: int|
        0 <= r < requests.len() && (#[trigger] requests[r]).original_path@
            == entries[i].original_path@ && requests[r].deleted_at == entries[i].deleted_at
}

/// Whether `picks` are positions in ascending order.
pub open spec fn ascending(picks: Seq<usize>) -> bool {
    forall|a: int, b: int| 0 <= a < b < picks.len() ==> picks[a] < picks[b]
}

fn is_requested(paths: &Vec<String>, path: &String) -> (found: bool)
    ensures
        found == requested(paths@, path@),
{
    let mut k: usize = 0;
    while k < paths.len()
        invariant
            0 <= k <= paths.len(),
            forall|m: int| 0 <= m < k ==> (#[trigger] paths@[m])@ != path@,
        decreases paths.len() - k,
    {
        if paths[k] == *path {
            return true;
        }
        k = k + 1;
    }
    false
}

fn is_outranked(entries: &Vec<RecycleBinEntry>, i: usize) -> (outranked: bool)
    requires
        i < entries.len(),
    ensures
        outranked == exists|j: int| 0 <= j < entries.len() && #[trigger] outranks(entries@, j, i as int),
{
    let mut j: usize = 0;
    while j < entries.len()
        invariant
            0 <= j <= entries.len(),
            i < entries.len(),
            forall|m: int| 0 <= m < j ==> !#[trigger] outranks(entries@, m, i as int),
        decreases entries.len() - j,
    {
        if entries[j].original_path == entries[i].original_path && (entries[j].deleted_at
            > entries[i].deleted_at || (entries[j].deleted_at == entries[i].deleted_at && j < i)) {
            assert(outranks(entries@, j as int, i as int));
            return true;
        }
        j = j + 1;
    }
    false
}

fn is_named(requests: &Vec<UndeleteRequest>, entry: &RecycleBinEntry) -> (named: bool)
    ensures
        named == exists|r: int|
            0 <= r < requests.len() && (#[trigger] requests@[r]).original_path@
                == entry.original_path@ && requests@[r].deleted_at == entry.deleted_at,
{
    let mut r: usize = 0;
    while r < requests.len()
        invariant
            0 <= r <= requests.len(),
            forall|m: int|
                0 <= m < r ==> !((#[trigger] requests@[m]).original_path@ == entry.original_path@
                    && requests@[m].deleted_at == entry.deleted_at),
        decreases requests.len() - r,
    {
        if requests[r].original_path == entry.original_path && requests[r].deleted_at
            == entry.deleted_at {
            return true;
        }
        r = r + 1;
    }
    false
}

/// Picks what to restore for `file_paths`: for each path that has entries, the
/// one that was deleted last. A path without entries picks nothing. The
/// result holds the positions of the picked entries, in ascending order.
pub fn undelete(entries: &Vec<RecycleBinEntry>, file_paths: &Vec<String>) -> (picks: Vec<usize>)
    ensures
        ascending(picks@),
        forall|i: usize| #[trigger] picks@.contains(i) <==> restores_latest(entries@, file_paths@, i as int),
{
    let mut picks: Vec<usize> = Vec::new();
    let mut i: usize = 0;
    while i < entries.len()
        invariant
            0 <= i <= entries.len(),
            ascending(picks@),
            forall|a: int| 0 <= a < picks.len() ==> picks@[a] < i,
            forall|m: usize| #[trigger] picks@.contains(m) <==> m < i && restores_latest(entries@, file_paths@, m as int),
        decreases entries.len() - i,
    {
        let take = is_requested(file_paths, &entries[i].original_path) && !is_outranked(entries, i);
        let ghost before = picks@;
        if take {
            picks.push(i);
        }
        proof {
            assert forall|m: usize| #[trigger] picks@.contains(m) <==> m < i + 1 && restores_latest(entries@, file_paths@, m as int) by {
                if take {
                    assert(picks@ == before.push(i));
                    assert(picks@[before.len() as int] == i);
                    if picks@.contains(m) {
                        let a = choose|a: int| 0 <= a < picks@.len() && picks@[a] == m;
                        if a < before.len() {
                            assert(before[a] == m);
                            assert(before.contains(m));
                        }
                    }
                    if m < i && restores_latest(entries@, file_paths@, m as int) {
                        assert(before.contains(m));
                        let a = choose|a: int| 0 <= a < before.len() && before[a] == m;
                        assert(picks@[a] == m);
                    }
                } else {
                    assert(picks@ == before);
                }
            }
        }
        i = i + 1;
    }
    picks
}

/// Picks the entries that `requests` name: deleted from the path of a request
/// at the time of that request. A request that names no entry picks nothing.
/// The result holds the positions of the picked entries, in ascending order.
pub fn undelete_by_time(entries: &Vec<RecycleBinEntry>, requests: &Vec<UndeleteRequest>) -> (picks:
    Vec<usize>)
    ensures
        ascending(picks@),
        forall|i: usize| #[trigger] picks@.contains(i) <==> named_by_time(entries@, requests@, i as int),
{
    let mut picks: Vec<usize> = Vec::new();
    let mut i: usize = 0;
    while i < entries.len()
        invariant
            0 <= i <= entries.len(),
            ascending(picks@),
            forall|a: int| 0 <= a < picks.len() ==> picks@[a] < i,
            forall|m: usize| #[trigger] picks@.contains(m) <==> m < i && named_by_time(entries@, requests@, m as int),
        decreases entries.len() - i,
    {
        let take = is_named(requests, &entries[i]);
        let ghost before = picks@;
        if take {
            picks.push(i);
        }
        proof {
            assert forall|m: usize| #[trigger] picks@.contains(m) <==> m < i + 1 && named_by_time(entries@, requests@, m as int) by {
                if take {
                    assert(picks@ == before.push(i));
                    assert(picks@[before.len() as int] == i);
                    if picks@.contains(m) {
                        let a = choose|a: int| 0 <= a < picks@.len() && picks@[a] == m;
                        if a < before.len() {
                            assert(before[a] == m);
                            assert(before.contains(m));
                        }
                    }
                    if m < i && named_by_time(entries@, requests@, m as int) {
                        assert(before.contains(m));
                        let a = choose|a: int| 0 <= a < before.len() && before[a] == m;
                        assert(picks@[a] == m);
                    }
                } else {
                    assert(picks@ == before);
                }
            }
        }
        i = i + 1;
    }
    picks
}

/// Whether entry `i` is the first listed that `request` names.
pub open spec fn first_named(entries: Seq<RecycleBinEntry>, request: UndeleteRequest, i: int) -> bool {
    &&& named_by_time(entries, seq![request], i)
    &&& forall|k: int| 0 <= k < i ==> !named_by_time(entries, seq![request], k)
}

/// Finds the entry that a request names: the first listed that was deleted
/// from the request's path at the request's time. A request that names none
/// is reported as unmatched; whether that is an error is the caller's to say.
pub fn locate(entries: &Vec<RecycleBinEntry>, request: &UndeleteRequest) -> (found: Result<
    usize,
    TransferError,
>)
    ensures
        match found {
            Ok(i) => first_named(entries@, *request, i as int),
            Err(e) => e is UnmatchedUndeleteRequest && forall|i: int|
                !named_by_time(entries@, seq![*request], i),
        },
{
    let ghost requests = seq![*request];
    assert(requests[0] == *request);
    let mut i: usize = 0;
    while i < entries.len()
        invariant
            0 <= i <= entries.len(),
            requests == seq![*request],
            forall|k: int| 0 <= k < i ==> !named_by_time(entries@, requests, k),
        decreases entries.len() - i,
    {
        if entries[i].original_path == request.original_path && entries[i].deleted_at
            == request.deleted_at {
            assert(requests[0] == *request);
            assert(named_by_time(entries@, requests, i as int));
            return Ok(i);
        }
        assert(!named_by_time(entries@, requests, i as int)) by {
            if named_by_time(entries@, requests, i as int) {
                let r = choose|r: int|
                    0 <= r < requests.len() && (#[trigger] requests[r]).original_path@
                        == entries@[i as int].original_path@ && requests[r].deleted_at
                        == entries@[i as int].deleted_at;
                assert(requests[r] == *request);
            }
        }
        i = i + 1;
    }
    Err(TransferError::UnmatchedUndeleteRequest)
}

/// Picks the entries to delete for good: those that `requests` name by path
/// and time, as `undelete_by_time` picks them.
pub fn delete_permanently(entries: &Vec<RecycleBinEntry>, requests: &Vec<UndeleteRequest>) -> (picks:
    Vec<usize>)
    ensures
        ascending(picks@),
        forall|i: usize| #[trigger] picks@.contains(i) <==> named_by_time(entries@, requests@, i as int),
{
    undelete_by_time(entries, requests)
}

/// Of two deletions of one path the earlier one is never restored by path.
pub proof fn lemma_later_deletion_wins(
    entries: Seq<RecycleBinEntry>,
    paths: Seq<String>,
    earlier: int,
    later: int,
)
    requires
        0 <= earlier < entries.len(),
        0 <= later < entries.len(),
        entries[earlier].original_path@ == entries[later].original_path@,
        entries[earlier].deleted_at < entries[later].deleted_at,
    ensures
        !restores_latest(entries, paths, earlier),
{
    assert(outranks(entries, later, earlier));
}

/// For a path that is asked for and has an entry, an entry of that path is
/// restored, and none of the path's entries was deleted after it.
pub proof fn lemma_latest_is_restored(entries: Seq<RecycleBinEntry>, paths: Seq<String>, i: int) -> (k:
    int)
    requires
        0 <= i < entries.len(),
        requested(paths, entries[i].original_path@),
    ensures
        restores_latest(entries, paths, k),
        entries[k].original_path@ == entries[i].original_path@,
        entries[k].deleted_at >= entries[i].deleted_at,
    decreases u64::MAX - entries[i].deleted_at, i,
{
    if exists|j: int| 0 <= j < entries.len() && #[trigger] outranks(entries, j, i) {
        let j = choose|j: int| 0 <= j < entries.len() && #[trigger] outranks(entries, j, i);
        lemma_latest_is_restored(entries, paths, j)
    } else {
        i
    }
}

/// No path has two entries restored.
pub proof fn lemma_one_restored_per_path(
    entries: Seq<RecycleBinEntry>,
    paths: Seq<String>,
    i: int,
    k: int,
)
    requires
        restores_latest(entries, paths, i),
        restores_latest(entries, paths, k),
        entries[i].original_path@ == entries[k].original_path@,
    ensures
        i == k,
{
    if i != k {
        assert(outranks(entries, i, k) || outranks(entries, k, i));
    }
}

/// A request by time restores the deletion it names and leaves every other
/// deletion of the path in the bin.
pub proof fn lemma_request_names_one_deletion(
    entries: Seq<RecycleBinEntry>,
    request: UndeleteRequest,
    i: int,
)
    requires
        0 <= i < entries.len(),
        entries[i].original_path@ == request.original_path@,
    ensures
        named_by_time(entries, seq![request], i) <==> entries[i].deleted_at == request.deleted_at,
{
    let requests = seq![request];
    assert(requests[0] == request);
}

} // verus!
