use nonstd::registry::{
    cancel, clean_up, is_cancelled, register_cancellable, release, reserve_cancellable,
    CancellationRegistry,
};

#[test]
fn reserved_ids_count_up_from_zero() {
    let mut registry = CancellationRegistry::new();
    assert_eq!(reserve_cancellable(&mut registry), 0);
    assert_eq!(reserve_cancellable(&mut registry), 1);
    assert_eq!(reserve_cancellable(&mut registry), 2);
    assert_eq!(registry.len(), 3);
}

#[test]
fn cancel_marks_a_live_token_and_reports_unknown_ids() {
    let mut registry = CancellationRegistry::new();
    let id = reserve_cancellable(&mut registry);
    assert!(!is_cancelled(&registry, id));
    assert!(cancel(&mut registry, id));
    assert!(is_cancelled(&registry, id));
    assert!(cancel(&mut registry, id));
    assert!(!cancel(&mut registry, id + 1));
    assert!(!is_cancelled(&registry, id + 1));
}

#[test]
fn released_token_is_gone() {
    let mut registry = CancellationRegistry::new();
    let id = reserve_cancellable(&mut registry);
    release(&mut registry, id);
    assert_eq!(registry.len(), 0);
    assert!(!cancel(&mut registry, id));
    let next = reserve_cancellable(&mut registry);
    assert!(next != id);
}

#[test]
fn clean_up_without_token_changes_nothing() {
    let mut registry = CancellationRegistry::new();
    register_cancellable(&mut registry, 7);
    clean_up(&mut registry, None);
    assert_eq!(registry.len(), 1);
    clean_up(&mut registry, Some(7));
    assert_eq!(registry.len(), 0);
}

#[test]
fn reserved_id_skips_ids_that_are_live() {
    let mut registry = CancellationRegistry::new();
    register_cancellable(&mut registry, 0);
    register_cancellable(&mut registry, 1);
    register_cancellable(&mut registry, 3);
    assert!(cancel(&mut registry, 0));
    assert_eq!(reserve_cancellable(&mut registry), 2);
    assert_eq!(reserve_cancellable(&mut registry), 4);
    assert!(is_cancelled(&registry, 0));
    assert!(!is_cancelled(&registry, 1));
    assert_eq!(registry.len(), 5);
}

#[test]
fn reserving_does_not_touch_a_token_chosen_by_the_caller() {
    let mut registry = CancellationRegistry::new();
    register_cancellable(&mut registry, 0);
    assert!(cancel(&mut registry, 0));
    let id = reserve_cancellable(&mut registry);
    assert_eq!(id, 1);
    assert!(is_cancelled(&registry, 0));
    assert!(!is_cancelled(&registry, id));
}

#[test]
fn id_is_not_handed_out_again_while_it_is_live() {
    let mut registry = CancellationRegistry::new();
    let kept = reserve_cancellable(&mut registry);
    let mut seen = vec![kept];
    for _ in 0..50 {
        let id = reserve_cancellable(&mut registry);
        assert!(!seen.contains(&id));
        assert!(id > *seen.last().unwrap());
        seen.push(id);
        if id % 3 == 0 {
            release(&mut registry, id);
        }
        if id % 5 == 0 {
            cancel(&mut registry, id);
        }
    }
    assert!(!is_cancelled(&registry, kept));
}
