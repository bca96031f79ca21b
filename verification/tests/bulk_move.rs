use nonstd::bulk_move::{
    handel_error, move_files_progress, move_progress, mv_bulk, ProgressData, PROGRESS_CANCEL,
    PROGRESS_CONTINUE,
};
use nonstd::registry::{cancel, reserve_cancellable, CancellationRegistry};

#[test]
fn bulk_move_totals_the_sizes() {
    assert_eq!(
        mv_bulk(&vec![10, 20, 30], false),
        Ok(ProgressData { total: 60, prev: 0, processed: 0 })
    );
    assert_eq!(mv_bulk(&Vec::new(), false), Ok(ProgressData { total: 0, prev: 0, processed: 0 }));
    assert_eq!(
        mv_bulk(&vec![u64::MAX, 5], false),
        Ok(ProgressData { total: i64::MAX, prev: 0, processed: 0 })
    );
    assert_eq!(
        mv_bulk(&vec![i64::MAX as u64 - 1, 1], false),
        Ok(ProgressData { total: i64::MAX, prev: 0, processed: 0 })
    );
}

#[test]
fn bulk_move_into_a_file_is_refused() {
    assert_eq!(mv_bulk(&vec![10], true), Err("Destination is file".to_string()));
    assert_eq!(mv_bulk(&Vec::new(), true), Err("Destination is file".to_string()));
}

#[test]
fn bulk_progress_runs_over_all_files() {
    let mut data = mv_bulk(&vec![100, 50], false).unwrap();
    assert_eq!(move_files_progress(&mut data, 0), (0, 150));
    assert_eq!(move_files_progress(&mut data, 60), (60, 150));
    assert_eq!(move_files_progress(&mut data, 100), (100, 150));
    assert_eq!(move_files_progress(&mut data, 100), (100, 150));
    // The next file starts again from zero.
    assert_eq!(move_files_progress(&mut data, 0), (100, 150));
    assert_eq!(move_files_progress(&mut data, 50), (150, 150));
    assert_eq!(data, ProgressData { total: 150, prev: 50, processed: 150 });
}

#[test]
fn bulk_progress_stops_at_the_largest_number() {
    let mut data = ProgressData { total: 0, prev: i64::MIN, processed: i64::MAX - 1 };
    assert_eq!(move_files_progress(&mut data, i64::MAX), (i64::MAX, 0));
    assert_eq!(data.prev, i64::MAX);
}

#[test]
fn progress_callback_cancels_for_a_cancelled_token() {
    let mut registry = CancellationRegistry::new();
    let id = reserve_cancellable(&mut registry);
    assert_eq!(move_progress(&registry, Some(id)), PROGRESS_CONTINUE);
    assert_eq!(move_progress(&registry, None), PROGRESS_CONTINUE);
    assert_eq!(move_progress(&registry, Some(id + 1)), PROGRESS_CONTINUE);
    cancel(&mut registry, id);
    assert_eq!(move_progress(&registry, Some(id)), PROGRESS_CANCEL);
    assert_eq!(move_progress(&registry, None), PROGRESS_CONTINUE);
}

#[test]
fn error_on_a_file_is_reported_with_its_name() {
    assert_eq!(
        handel_error(false, &"C:\\a.txt".to_string(), &"Access is denied.".to_string(), false),
        Err("File: C:\\a.txt, Message: Access is denied.".to_string())
    );
    assert_eq!(
        handel_error(false, &"a".to_string(), &"b".to_string(), true),
        Err("File: a, Message: b".to_string())
    );
}

#[test]
fn cancellation_is_no_error() {
    assert_eq!(handel_error(true, &"a".to_string(), &"b".to_string(), false), Ok(true));
    assert_eq!(handel_error(true, &"a".to_string(), &"b".to_string(), true), Ok(false));
}

#[test]
fn complete_copy_removes_the_source() {
    let next = nonstd::bulk_move::cancellable_move(None);
    assert!(next.delete_source);
    assert!(next.release_token);
    assert!(!next.delete_partial);
    assert_eq!(next.result, Ok(()));
}

#[test]
fn failed_copy_removes_what_was_written() {
    let next = nonstd::bulk_move::cancellable_move(Some(nonstd::bulk_move::CopyFailure {
        cancelled: false,
        message: "No space left".to_string(),
    }));
    assert!(!next.delete_source);
    assert!(next.release_token);
    assert!(next.delete_partial);
    assert_eq!(next.result, Err("No space left".to_string()));
}

#[test]
fn cancelled_copy_is_no_error() {
    let next = nonstd::bulk_move::cancellable_move(Some(nonstd::bulk_move::CopyFailure {
        cancelled: true,
        message: "Operation was cancelled".to_string(),
    }));
    assert!(!next.delete_source);
    assert!(next.release_token);
    assert!(next.delete_partial);
    assert_eq!(next.result, Ok(()));
}
