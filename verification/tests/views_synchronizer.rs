use readyset::views_synchronizer::{
    migrated_queries, next_action, parsed_queries, updates_after_poll, SyncAction, SyncEvent,
    ViewsSynchronizer,
};
use std::time::Duration;

#[test]
fn ticks_poll_and_shutdown_stops() {
    assert_eq!(next_action(SyncEvent::Tick), SyncAction::Poll);
    assert_eq!(next_action(SyncEvent::Shutdown), SyncAction::Stop);
}

#[test]
fn only_parsed_queries_are_kept_in_order() {
    let pending = vec![Some("a"), None, Some("b"), None];
    assert_eq!(parsed_queries(pending), vec!["a", "b"]);
    assert_eq!(parsed_queries(Vec::<Option<u8>>::new()), Vec::<u8>::new());
}

#[test]
fn migrated_queries_follow_their_statuses() {
    assert_eq!(migrated_queries(vec![1, 2, 3], &vec![true, false, true]), vec![1, 3]);
    assert_eq!(migrated_queries(vec![1, 2, 3], &vec![false, false, false]), Vec::<i32>::new());
    assert_eq!(migrated_queries(vec![1, 2, 3], &vec![true, true, true]), vec![1, 2, 3]);
    // statuses are paired with queries as `zip` pairs them: the shorter list decides
    assert_eq!(migrated_queries(vec![1, 2, 3], &vec![true]), vec![1]);
    assert_eq!(migrated_queries(vec![1], &vec![false, true]), Vec::<i32>::new());
}

#[test]
fn a_failed_poll_updates_nothing() {
    assert_eq!(updates_after_poll(vec![1, 2], Err::<Vec<bool>, &str>("leader gone")), Vec::<i32>::new());
    assert_eq!(updates_after_poll(vec![1, 2], Ok::<Vec<bool>, &str>(vec![false, true])), vec![2]);
}

#[test]
fn new_keeps_its_parts() {
    let s = ViewsSynchronizer::new("controller", 7u8, Duration::from_millis(250), "mysql", ());
    assert_eq!(s.controller, "controller");
    assert_eq!(s.query_status_cache, 7u8);
    assert_eq!(s.poll_interval, Duration::from_millis(250));
    assert_eq!(s.dialect, "mysql");
}

#[test]
fn when_all_pending_queries_parse_all_are_kept() {
    assert_eq!(parsed_queries(vec![Some(3), Some(1), Some(2)]), vec![3, 1, 2]);
}

#[test]
fn no_more_updates_than_queries() {
    assert!(migrated_queries(vec![1, 2], &vec![true, true, true, true]).len() <= 2);
    assert_eq!(migrated_queries(Vec::<i32>::new(), &vec![true]), Vec::<i32>::new());
}
