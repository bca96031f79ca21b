use nonstd::batch::{Completion, FileOperation, ItemStatus, TransferError, TransferItemOutcome};
use nonstd::conflict::ReplaceOrSkip;
use nonstd::executor::{execute_file_operation, TransferExecutor};
use nonstd::machine::{Action, Cleanup, Inspection, ItemResult, Listing, Phase, WorkItem};
use nonstd::progress::ProgressCounts;
use nonstd::usage::{measure_size, SourceNode};
use std::collections::{BTreeMap, BTreeSet};

/// A file system in memory: files with their contents, and directories.
struct Disk {
    files: BTreeMap<String, String>,
    dirs: BTreeSet<String>,
}

fn name_of(path: &str) -> &str {
    match path.rfind('/') {
        Some(at) => &path[at + 1..],
        None => path,
    }
}

fn join(dir: &str, name: &str) -> String {
    format!("{}/{}", dir, name)
}

impl Disk {
    fn new() -> Disk {
        Disk { files: BTreeMap::new(), dirs: BTreeSet::new() }
    }

    fn file(mut self, path: &str, content: &str) -> Disk {
        self.files.insert(path.to_string(), content.to_string());
        self
    }

    fn dir(mut self, path: &str) -> Disk {
        self.dirs.insert(path.to_string());
        self
    }

    fn children(&self, dir: &str) -> Vec<String> {
        let prefix = format!("{}/", dir);
        let mut found = Vec::new();
        for path in self.files.keys().chain(self.dirs.iter()) {
            if let Some(rest) = path.strip_prefix(&prefix) {
                if !rest.contains('/') {
                    found.push(path.clone());
                }
            }
        }
        found.sort();
        found
    }

    fn node(&self, path: &str) -> SourceNode {
        if self.dirs.contains(path) {
            SourceNode::Directory(self.children(path).iter().map(|c| self.node(c)).collect())
        } else {
            match self.files.get(path) {
                Some(content) => SourceNode::Leaf(content.len() as u64),
                None => SourceNode::Vanished,
            }
        }
    }
}

/// Drives a batch on a disk to its end. `answers` are given to the prompts in
/// their order; the token counts as cancelled from the `cancel_at`-th question
/// for the next action on. Returns every action in its order.
fn drive(
    executor: &mut TransferExecutor,
    disk: &mut Disk,
    sources: &[&str],
    answers: &[ReplaceOrSkip],
    cancel_at: Option<usize>,
) -> Vec<Action> {
    let mut log = Vec::new();
    let mut answered = 0;
    let mut asked = 0;
    let mut action = executor.next_action(false, false);
    loop {
        asked += 1;
        assert!(asked < 1000);
        let next = match &action {
            Action::Measure => {
                let tree: Vec<SourceNode> = sources.iter().map(|s| disk.node(s)).collect();
                executor.measured(measure_size(&tree));
                None
            }
            Action::WaitForResume => None,
            Action::Inspect(item) => {
                if disk.dirs.contains(&item.source) {
                    Some(executor.inspected(Inspection::Directory))
                } else {
                    let dest_exists = match &item.dest_dir {
                        Some(dir) => disk.files.contains_key(&join(dir, name_of(&item.source))),
                        None => false,
                    };
                    Some(executor.inspected(Inspection::File { dest_exists }))
                }
            }
            Action::EnterDirectory(item) => {
                let dest_dir = item.dest_dir.as_ref().map(|dir| join(dir, name_of(&item.source)));
                if let Some(dir) = &dest_dir {
                    disk.dirs.insert(dir.clone());
                }
                executor.listed(Ok(Listing { dest_dir, children: disk.children(&item.source) }));
                None
            }
            Action::Run { item, overwrite: _ } => {
                let size = disk.files.get(&item.source).map(|c| c.len() as i64);
                let result = match executor.operation() {
                    FileOperation::Copy | FileOperation::Move => match disk.files.get(&item.source) {
                        Some(content) => {
                            let content = content.clone();
                            let dest = join(item.dest_dir.as_ref().unwrap(), name_of(&item.source));
                            disk.files.insert(dest, content);
                            if executor.operation() == FileOperation::Move {
                                disk.files.remove(&item.source);
                            }
                            ItemResult::Done
                        }
                        None => ItemResult::Failed("No such file".to_string()),
                    },
                    FileOperation::Delete | FileOperation::Trash => {
                        if disk.files.remove(&item.source).is_some() || disk.dirs.remove(&item.source)
                        {
                            ItemResult::Done
                        } else {
                            ItemResult::Failed("No such file".to_string())
                        }
                    }
                };
                if let (ItemResult::Done, Some(size)) = (&result, size) {
                    executor.progressed(size / 2, size);
                    executor.progressed(size, size);
                    executor.progressed(size, size);
                }
                assert_eq!(executor.item_done(result), Cleanup::Nothing);
                None
            }
            Action::Prompt(_) => {
                let answer = answers[answered];
                answered += 1;
                Some(executor.decided(answer))
            }
            Action::Continue => None,
            Action::Finish(_) => {
                log.push(action);
                return log;
            }
        };
        log.push(action);
        action = match next {
            Some(told) => told,
            None => executor.next_action(cancel_at.map_or(false, |at| asked >= at), false),
        };
    }
}

fn paths(list: &[&str]) -> Vec<String> {
    list.iter().map(|p| p.to_string()).collect()
}

fn item(source: &str, dest_dir: Option<&str>) -> WorkItem {
    WorkItem { source: source.to_string(), dest_dir: dest_dir.map(|d| d.to_string()), emptied: false }
}

fn outcome(path: &str, status: ItemStatus) -> TransferItemOutcome {
    TransferItemOutcome { source_path: path.to_string(), status }
}

fn disk_a() -> Disk {
    Disk::new()
        .dir("/a")
        .file("/a/x.txt", "0123456789")
        .dir("/a/sub")
        .file("/a/sub/y.txt", "01234567890123456789")
        .dir("/b")
}

#[test]
fn copy_of_a_directory_tree() {
    let mut disk = disk_a();
    let mut executor = execute_file_operation(FileOperation::Copy, paths(&["/a"]), Some("/b".to_string()));
    assert_eq!(executor.phase(), Phase::Planning);
    let log = drive(&mut executor, &mut disk, &["/a"], &[], None);
    assert_eq!(executor.phase(), Phase::Finished(Completion::Completed));
    assert_eq!(
        executor.progress(),
        ProgressCounts { processed_bytes: 30, processed_items: 2, total_bytes: 30, total_items: 2 }
    );
    assert!(disk.dirs.contains("/b/a"));
    assert!(disk.dirs.contains("/b/a/sub"));
    assert_eq!(disk.files.get("/b/a/x.txt").unwrap(), "0123456789");
    assert_eq!(disk.files.get("/b/a/sub/y.txt").unwrap(), "01234567890123456789");
    assert!(disk.files.contains_key("/a/x.txt"));
    assert_eq!(
        log,
        vec![
            Action::Measure,
            Action::Inspect(item("/a", Some("/b"))),
            Action::EnterDirectory(item("/a", Some("/b"))),
            Action::Inspect(item("/a/sub", Some("/b/a"))),
            Action::EnterDirectory(item("/a/sub", Some("/b/a"))),
            Action::Inspect(item("/a/sub/y.txt", Some("/b/a/sub"))),
            Action::Run { item: item("/a/sub/y.txt", Some("/b/a/sub")), overwrite: false },
            Action::Inspect(item("/a/x.txt", Some("/b/a"))),
            Action::Run { item: item("/a/x.txt", Some("/b/a")), overwrite: false },
            Action::Finish(Completion::Completed),
        ]
    );
    assert_eq!(
        executor.outcomes(),
        &vec![outcome("/a/sub/y.txt", ItemStatus::Success), outcome("/a/x.txt", ItemStatus::Success)]
    );
    assert_eq!(executor.result(), Ok(()));
    assert_eq!(executor.title(), "100% complete");
    assert_eq!(executor.message(), "Copying 2/2 items ");
}

#[test]
fn move_onto_an_existing_file_replaces_it_when_told() {
    let mut disk = Disk::new().dir("/a").file("/a/x.txt", "new").dir("/b").file("/b/x.txt", "old");
    let mut executor =
        execute_file_operation(FileOperation::Move, paths(&["/a/x.txt"]), Some("/b".to_string()));
    let log = drive(&mut executor, &mut disk, &["/a/x.txt"], &[ReplaceOrSkip::Replace], None);
    assert_eq!(disk.files.get("/b/x.txt").unwrap(), "new");
    assert!(!disk.files.contains_key("/a/x.txt"));
    assert_eq!(
        log,
        vec![
            Action::Measure,
            Action::Inspect(item("/a/x.txt", Some("/b"))),
            Action::Continue,
            Action::Prompt(nonstd::batch::ConflictEntry {
                source_path: "/a/x.txt".to_string(),
                dest_dir: Some("/b".to_string()),
            }),
            Action::Run { item: item("/a/x.txt", Some("/b")), overwrite: true },
            Action::Finish(Completion::Completed),
        ]
    );
    assert_eq!(executor.outcomes(), &vec![outcome("/a/x.txt", ItemStatus::Success)]);
    assert_eq!(executor.result(), Ok(()));
}

#[test]
fn conflicts_wait_until_the_other_items_are_done() {
    let mut disk = Disk::new()
        .dir("/a")
        .file("/a/1", "one")
        .file("/a/2", "two")
        .file("/a/3", "three")
        .dir("/b")
        .file("/b/1", "old one")
        .file("/b/3", "old three");
    let mut executor = execute_file_operation(
        FileOperation::Copy,
        paths(&["/a/1", "/a/2", "/a/3"]),
        Some("/b".to_string()),
    );
    let log = drive(
        &mut executor,
        &mut disk,
        &["/a/1", "/a/2", "/a/3"],
        &[ReplaceOrSkip::Skip, ReplaceOrSkip::Replace],
        None,
    );
    assert_eq!(disk.files.get("/b/1").unwrap(), "old one");
    assert_eq!(disk.files.get("/b/2").unwrap(), "two");
    assert_eq!(disk.files.get("/b/3").unwrap(), "three");
    assert_eq!(
        executor.outcomes(),
        &vec![
            outcome("/a/2", ItemStatus::Success),
            outcome("/a/1", ItemStatus::Skipped),
            outcome("/a/3", ItemStatus::Success),
        ]
    );
    let prompts: Vec<&Action> = log.iter().filter(|a| matches!(a, Action::Prompt(_))).collect();
    assert_eq!(prompts.len(), 2);
    assert_eq!(executor.phase(), Phase::Finished(Completion::Completed));
}

#[test]
fn skip_all_skips_every_open_conflict_without_asking_again() {
    let mut disk = Disk::new()
        .dir("/a")
        .file("/a/1", "one")
        .file("/a/2", "two")
        .file("/a/3", "three")
        .dir("/b")
        .file("/b/1", "old one")
        .file("/b/2", "old two")
        .file("/b/3", "old three");
    let mut executor = execute_file_operation(
        FileOperation::Copy,
        paths(&["/a/1", "/a/2", "/a/3"]),
        Some("/b".to_string()),
    );
    let log = drive(&mut executor, &mut disk, &["/a/1", "/a/2", "/a/3"], &[ReplaceOrSkip::SkipAll], None);
    let prompts: Vec<&Action> = log.iter().filter(|a| matches!(a, Action::Prompt(_))).collect();
    assert_eq!(prompts.len(), 1);
    assert_eq!(
        executor.outcomes(),
        &vec![
            outcome("/a/1", ItemStatus::Skipped),
            outcome("/a/2", ItemStatus::Skipped),
            outcome("/a/3", ItemStatus::Skipped),
        ]
    );
    assert_eq!(executor.open_conflicts(), 0);
    assert_eq!(disk.files.get("/b/1").unwrap(), "old one");
    assert_eq!(disk.files.get("/b/2").unwrap(), "old two");
    assert_eq!(disk.files.get("/b/3").unwrap(), "old three");
    assert_eq!(executor.phase(), Phase::Finished(Completion::Completed));
}

#[test]
fn replace_all_replaces_every_open_conflict_without_asking_again() {
    let mut disk = Disk::new()
        .dir("/a")
        .file("/a/1", "one")
        .file("/a/2", "two")
        .dir("/b")
        .file("/b/1", "old one")
        .file("/b/2", "old two");
    let mut executor =
        execute_file_operation(FileOperation::Move, paths(&["/a/1", "/a/2"]), Some("/b".to_string()));
    let log = drive(&mut executor, &mut disk, &["/a/1", "/a/2"], &[ReplaceOrSkip::ReplaceAll], None);
    let prompts: Vec<&Action> = log.iter().filter(|a| matches!(a, Action::Prompt(_))).collect();
    assert_eq!(prompts.len(), 1);
    assert_eq!(disk.files.get("/b/1").unwrap(), "one");
    assert_eq!(disk.files.get("/b/2").unwrap(), "two");
    assert!(!disk.files.contains_key("/a/1"));
    assert!(!disk.files.contains_key("/a/2"));
    assert_eq!(
        executor.outcomes(),
        &vec![outcome("/a/1", ItemStatus::Success), outcome("/a/2", ItemStatus::Success)]
    );
}

#[test]
fn abort_leaves_open_conflicts_untouched() {
    let mut disk = Disk::new()
        .dir("/a")
        .file("/a/1", "one")
        .file("/a/2", "two")
        .dir("/b")
        .file("/b/1", "old one")
        .file("/b/2", "old two");
    let mut executor =
        execute_file_operation(FileOperation::Copy, paths(&["/a/1", "/a/2"]), Some("/b".to_string()));
    let log = drive(&mut executor, &mut disk, &["/a/1", "/a/2"], &[ReplaceOrSkip::Abort], None);
    assert_eq!(log.last(), Some(&Action::Finish(Completion::Completed)));
    assert_eq!(executor.open_conflicts(), 2);
    assert!(executor.outcomes().is_empty());
    assert_eq!(disk.files.get("/b/1").unwrap(), "old one");
    assert_eq!(disk.files.get("/b/2").unwrap(), "old two");
    assert_eq!(executor.result(), Err(TransferError::ConflictAborted));
}

#[test]
fn cancellation_between_items_starts_no_further_item() {
    let mut disk = Disk::new().dir("/a").file("/a/1", "one").file("/a/2", "two").file("/a/3", "three").dir("/b");
    let mut executor = execute_file_operation(
        FileOperation::Copy,
        paths(&["/a/1", "/a/2", "/a/3"]),
        Some("/b".to_string()),
    );
    let log = drive(&mut executor, &mut disk, &["/a/1", "/a/2", "/a/3"], &[], Some(3));
    assert_eq!(
        log,
        vec![
            Action::Measure,
            Action::Inspect(item("/a/1", Some("/b"))),
            Action::Run { item: item("/a/1", Some("/b")), overwrite: false },
            Action::Finish(Completion::CancelledEarly),
        ]
    );
    assert_eq!(executor.phase(), Phase::Finished(Completion::CancelledEarly));
    assert!(disk.files.contains_key("/b/1"));
    assert!(!disk.files.contains_key("/b/2"));
    assert!(!disk.files.contains_key("/b/3"));
    assert_eq!(executor.outcomes(), &vec![outcome("/a/1", ItemStatus::Success)]);
    assert_eq!(executor.result(), Ok(()));
    assert_eq!(executor.next_action(false, false), Action::Finish(Completion::CancelledEarly));
    assert_eq!(executor.inspected(Inspection::Directory), Action::Continue);
    assert_eq!(executor.decided(ReplaceOrSkip::Replace), Action::Continue);
    assert_eq!(executor.item_done(ItemResult::Done), Cleanup::Nothing);
    assert_eq!(executor.outcomes().len(), 1);
}

#[test]
fn item_cancelled_in_flight_is_cleaned_up() {
    let mut executor =
        execute_file_operation(FileOperation::Copy, paths(&["/a/1", "/a/2"]), Some("/b".to_string()));
    assert_eq!(executor.next_action(false, false), Action::Measure);
    executor.measured(Ok(nonstd::usage::DiskUsageSnapshot { total_bytes: 100, total_items: 2 }));
    assert_eq!(executor.next_action(false, false), Action::Inspect(item("/a/1", Some("/b"))));
    assert_eq!(
        executor.inspected(Inspection::File { dest_exists: false }),
        Action::Run { item: item("/a/1", Some("/b")), overwrite: false }
    );
    executor.progressed(40, 50);
    assert_eq!(executor.progress().processed_bytes, 40);
    assert_eq!(
        executor.item_done(ItemResult::Cancelled),
        Cleanup::RemovePartial(item("/a/1", Some("/b")))
    );
    assert_eq!(executor.phase(), Phase::Finished(Completion::CancelledEarly));
    assert_eq!(executor.outcomes(), &vec![outcome("/a/1", ItemStatus::Cancelled)]);
    assert_eq!(executor.next_action(false, false), Action::Finish(Completion::CancelledEarly));
    assert_eq!(executor.result(), Ok(()));
}

#[test]
fn cancelled_delete_has_nothing_to_clean_up() {
    let mut executor = execute_file_operation(FileOperation::Trash, paths(&["/a/1"]), None);
    assert_eq!(executor.next_action(false, false), Action::Measure);
    executor.measured(Ok(nonstd::usage::DiskUsageSnapshot { total_bytes: 1, total_items: 1 }));
    assert_eq!(
        executor.next_action(false, false),
        Action::Run { item: item("/a/1", None), overwrite: false }
    );
    assert_eq!(executor.item_done(ItemResult::Cancelled), Cleanup::Nothing);
    assert_eq!(executor.phase(), Phase::Finished(Completion::CancelledEarly));
}

#[test]
fn failed_item_does_not_stop_the_batch() {
    let mut disk = Disk::new().dir("/a").file("/a/1", "one").file("/a/3", "three").dir("/b");
    let mut executor = execute_file_operation(
        FileOperation::Copy,
        paths(&["/a/1", "/a/2", "/a/3"]),
        Some("/b".to_string()),
    );
    let log = drive(&mut executor, &mut disk, &["/a/1", "/a/2", "/a/3"], &[], None);
    assert_eq!(log.last(), Some(&Action::Finish(Completion::CompletedWithFailures)));
    assert_eq!(
        executor.outcomes(),
        &vec![
            outcome("/a/1", ItemStatus::Success),
            outcome("/a/2", ItemStatus::Failed("No such file".to_string())),
            outcome("/a/3", ItemStatus::Success),
        ]
    );
    assert!(disk.files.contains_key("/b/1"));
    assert!(disk.files.contains_key("/b/3"));
    assert_eq!(
        executor.result(),
        Err(TransferError::NativeIoError {
            path: "/a/2".to_string(),
            message: "No such file".to_string()
        })
    );
    assert_eq!(executor.progress().processed_items, 2);
    assert_eq!(executor.progress().processed_bytes, 8);
}

#[test]
fn measurement_failure_ends_the_batch_before_it_starts() {
    let mut executor =
        execute_file_operation(FileOperation::Copy, paths(&["/a/1"]), Some("/b".to_string()));
    assert_eq!(executor.next_action(false, false), Action::Measure);
    assert_eq!(executor.phase(), Phase::Measuring);
    assert_eq!(executor.next_action(true, true), Action::Measure);
    executor.measured(measure_size(&vec![SourceNode::Unreadable]));
    assert_eq!(executor.phase(), Phase::Finished(Completion::CompletedWithFailures));
    assert_eq!(
        executor.next_action(false, false),
        Action::Finish(Completion::CompletedWithFailures)
    );
    assert!(executor.outcomes().is_empty());
    assert_eq!(executor.result(), Err(TransferError::MeasurementFailure));
}

#[test]
fn batch_without_sources_is_finished_at_once() {
    let mut executor = execute_file_operation(FileOperation::Delete, Vec::new(), None);
    assert_eq!(executor.phase(), Phase::Finished(Completion::Completed));
    assert_eq!(executor.next_action(false, false), Action::Finish(Completion::Completed));
    assert_eq!(executor.result(), Ok(()));
}

#[test]
fn paused_batch_waits() {
    let mut executor = execute_file_operation(FileOperation::Trash, paths(&["/a/1"]), None);
    assert_eq!(executor.next_action(false, true), Action::Measure);
    executor.measured(Ok(nonstd::usage::DiskUsageSnapshot { total_bytes: 1, total_items: 1 }));
    assert_eq!(executor.next_action(false, true), Action::WaitForResume);
    assert_eq!(executor.next_action(false, true), Action::WaitForResume);
    assert_eq!(executor.phase(), Phase::Executing);
    assert_eq!(
        executor.next_action(false, false),
        Action::Run { item: item("/a/1", None), overwrite: false }
    );
    assert_eq!(
        executor.next_action(false, true),
        Action::Run { item: item("/a/1", None), overwrite: false }
    );
}

#[test]
fn delete_of_a_directory_removes_children_first() {
    let mut disk = disk_a();
    let mut executor = execute_file_operation(FileOperation::Delete, paths(&["/a"]), None);
    let log = drive(&mut executor, &mut disk, &["/a"], &[], None);
    assert!(disk.files.keys().all(|p| !p.starts_with("/a")));
    assert!(!disk.dirs.contains("/a"));
    assert!(!disk.dirs.contains("/a/sub"));
    assert!(disk.dirs.contains("/b"));
    let runs: Vec<String> = log
        .iter()
        .filter_map(|a| match a {
            Action::Run { item, .. } => Some(item.source.clone()),
            _ => None,
        })
        .collect();
    assert_eq!(runs, vec!["/a/sub/y.txt", "/a/sub", "/a/x.txt", "/a"]);
    assert_eq!(
        executor.outcomes(),
        &vec![outcome("/a/sub/y.txt", ItemStatus::Success), outcome("/a/x.txt", ItemStatus::Success)]
    );
    assert_eq!(executor.progress().processed_items, 2);
    assert_eq!(executor.message(), "Deleting 2/2 items ");
    assert_eq!(executor.phase(), Phase::Finished(Completion::Completed));
}

#[test]
fn trash_of_a_directory_is_one_operation_and_ends_complete() {
    let mut disk = disk_a();
    let mut executor = execute_file_operation(FileOperation::Trash, paths(&["/a"]), None);
    let log = drive(&mut executor, &mut disk, &["/a"], &[], None);
    assert_eq!(
        log,
        vec![
            Action::Measure,
            Action::Run { item: item("/a", None), overwrite: false },
            Action::Finish(Completion::Completed),
        ]
    );
    assert_eq!(
        executor.progress(),
        ProgressCounts { processed_bytes: 30, processed_items: 2, total_bytes: 30, total_items: 2 }
    );
    assert_eq!(executor.title(), "100% complete");
}

#[test]
fn progress_reports_count_only_what_was_gained() {
    let mut executor =
        execute_file_operation(FileOperation::Copy, paths(&["/a/1", "/a/2"]), Some("/b".to_string()));
    executor.next_action(false, false);
    executor.measured(Ok(nonstd::usage::DiskUsageSnapshot { total_bytes: 100, total_items: 2 }));
    executor.progressed(50, 50);
    assert_eq!(executor.progress().processed_bytes, 0);
    executor.next_action(false, false);
    executor.inspected(Inspection::File { dest_exists: false });
    executor.progressed(20, 50);
    executor.progressed(50, 50);
    executor.progressed(50, 50);
    executor.progressed(10, 50);
    assert_eq!(executor.progress().processed_bytes, 50);
    assert_eq!(executor.title(), "50% complete");
    executor.item_done(ItemResult::Done);
    executor.next_action(false, false);
    executor.inspected(Inspection::File { dest_exists: false });
    executor.progressed(30, 50);
    assert_eq!(executor.progress().processed_bytes, 80);
    executor.progressed(5000, 50);
    assert_eq!(executor.progress().processed_bytes, 100);
    assert_eq!(executor.progress().processed_items, 1);
}

#[test]
fn directory_that_cannot_be_entered_fails_as_an_item() {
    let mut executor =
        execute_file_operation(FileOperation::Copy, paths(&["/a", "/c"]), Some("/b".to_string()));
    executor.next_action(false, false);
    executor.measured(Ok(nonstd::usage::DiskUsageSnapshot { total_bytes: 0, total_items: 0 }));
    executor.next_action(false, false);
    assert_eq!(
        executor.inspected(Inspection::Directory),
        Action::EnterDirectory(item("/a", Some("/b")))
    );
    executor.listed(Err("Permission denied".to_string()));
    assert_eq!(
        executor.outcomes(),
        &vec![outcome("/a", ItemStatus::Failed("Permission denied".to_string()))]
    );
    assert_eq!(executor.next_action(false, false), Action::Inspect(item("/c", Some("/b"))));
}

#[test]
fn answers_out_of_turn_change_nothing() {
    let mut executor =
        execute_file_operation(FileOperation::Copy, paths(&["/a/1"]), Some("/b".to_string()));
    assert_eq!(executor.inspected(Inspection::Directory), Action::Continue);
    assert_eq!(executor.decided(ReplaceOrSkip::SkipAll), Action::Continue);
    assert_eq!(executor.item_done(ItemResult::Failed("x".to_string())), Cleanup::Nothing);
    executor.listed(Ok(Listing { dest_dir: None, children: paths(&["/z"]) }));
    executor.measured(Ok(nonstd::usage::DiskUsageSnapshot { total_bytes: 9, total_items: 9 }));
    assert_eq!(executor.phase(), Phase::Planning);
    assert!(executor.outcomes().is_empty());
    assert_eq!(executor.progress().total_bytes, 0);
    assert_eq!(executor.next_action(false, false), Action::Measure);
}

#[test]
fn outcomes_name_their_errors() {
    assert_eq!(outcome("/a", ItemStatus::Success).error(), None);
    assert_eq!(outcome("/a", ItemStatus::Skipped).error(), None);
    assert_eq!(outcome("/a", ItemStatus::Cancelled).error(), Some(TransferError::Cancelled));
    assert_eq!(
        outcome("/a", ItemStatus::Failed("Permission denied".to_string())).error(),
        Some(TransferError::NativeIoError {
            path: "/a".to_string(),
            message: "Permission denied".to_string()
        })
    );
}

#[test]
fn failed_delete_counts_as_an_item_that_has_ended() {
    let mut disk = Disk::new().dir("/a").file("/a/1", "one").file("/a/3", "three");
    let mut executor =
        execute_file_operation(FileOperation::Delete, paths(&["/a/1", "/a/2", "/a/3"]), None);
    assert_eq!(executor.next_action(false, false), Action::Measure);
    executor.measured(Ok(nonstd::usage::DiskUsageSnapshot { total_bytes: 9, total_items: 3 }));
    let log = drive(&mut executor, &mut disk, &["/a/1", "/a/2", "/a/3"], &[], None);
    assert_eq!(log.last(), Some(&Action::Finish(Completion::CompletedWithFailures)));
    assert!(!disk.files.contains_key("/a/1"));
    assert!(!disk.files.contains_key("/a/3"));
    assert_eq!(
        executor.outcomes(),
        &vec![
            outcome("/a/1", ItemStatus::Success),
            outcome("/a/2", ItemStatus::Failed("No such file".to_string())),
            outcome("/a/3", ItemStatus::Success),
        ]
    );
    assert_eq!(executor.progress().processed_items, 3);
    assert_eq!(executor.message(), "Deleting 3/3 items ");
    assert_eq!(
        executor.result(),
        Err(TransferError::NativeIoError {
            path: "/a/2".to_string(),
            message: "No such file".to_string()
        })
    );
}

#[test]
fn cancelled_trash_counts_as_an_item_that_has_ended() {
    let mut executor = execute_file_operation(FileOperation::Trash, paths(&["/a/1", "/a/2"]), None);
    executor.next_action(false, false);
    executor.measured(Ok(nonstd::usage::DiskUsageSnapshot { total_bytes: 2, total_items: 2 }));
    executor.next_action(false, false);
    assert_eq!(executor.item_done(ItemResult::Cancelled), Cleanup::Nothing);
    assert_eq!(executor.progress().processed_items, 1);
}

#[test]
fn failed_copy_counts_no_item() {
    let mut executor =
        execute_file_operation(FileOperation::Copy, paths(&["/a/1"]), Some("/b".to_string()));
    executor.next_action(false, false);
    executor.measured(Ok(nonstd::usage::DiskUsageSnapshot { total_bytes: 2, total_items: 1 }));
    executor.next_action(false, false);
    executor.inspected(Inspection::File { dest_exists: false });
    executor.item_done(ItemResult::Failed("denied".to_string()));
    assert_eq!(executor.progress().processed_items, 0);
}
