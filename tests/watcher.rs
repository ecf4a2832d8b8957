use git_watch::watcher::{
    event_qualifies, is_change_kind, path_components, should_emit_event, start_watching,
    stop_watching, Debouncer, EventKind, WatcherState, DEBOUNCE_MS,
};

#[test]
fn paths_outside_git_dir_emit() {
    assert!(should_emit_event("/home/u/repo/src/main.rs"));
    assert!(should_emit_event("/home/u/repo/.gitignore"));
    assert!(should_emit_event("/home/u/repo/.github/workflows/ci.yml"));
    assert!(should_emit_event(""));
}

#[test]
fn git_internal_paths_are_filtered() {
    assert!(!should_emit_event("/home/u/repo/.git/objects/ab/cdef"));
    assert!(!should_emit_event("/home/u/repo/.git/HEAD"));
    assert!(!should_emit_event("/home/u/repo/.git/index.lock"));
    assert!(!should_emit_event("/home/u/repo/.git/refs/heads/main"));
}

#[test]
fn git_index_file_emits() {
    assert!(should_emit_event("/home/u/repo/.git/index"));
    assert!(should_emit_event("/r/.git//index"));
    assert!(should_emit_event("/r/./.git/./index"));
    assert!(should_emit_event(".git/index"));
}

#[test]
fn filter_goes_by_components() {
    assert!(!should_emit_event(".git/HEAD"));
    assert!(!should_emit_event("repo/.git/refs/heads/main"));
    assert!(should_emit_event("/x/.git/"));
    assert!(should_emit_event("/x/.git"));
    assert!(should_emit_event("/x/my.git/config"));
    assert!(!should_emit_event("/x/.git/index/extra"));
}

#[test]
fn components_skip_empty_and_dot_parts() {
    assert_eq!(path_components("/a//b/./c/"), vec!["a", "b", "c"]);
    assert_eq!(path_components(""), Vec::<String>::new());
    assert_eq!(path_components("./.."), vec![".."]);
}

#[test]
fn change_kinds() {
    assert!(is_change_kind(EventKind::Create));
    assert!(is_change_kind(EventKind::Modify));
    assert!(is_change_kind(EventKind::Remove));
    assert!(is_change_kind(EventKind::Any));
    assert!(is_change_kind(EventKind::Other));
    assert!(!is_change_kind(EventKind::Access));
}

#[test]
fn event_qualifies_when_one_path_passes() {
    let paths = vec![
        "/r/.git/objects/aa/bb".to_string(),
        "/r/src/lib.rs".to_string(),
    ];
    assert!(event_qualifies(EventKind::Modify, &paths));
    assert!(!event_qualifies(EventKind::Access, &paths));
    let internal = vec!["/r/.git/HEAD".to_string(), "/r/.git/ORIG_HEAD".to_string()];
    assert!(!event_qualifies(EventKind::Create, &internal));
    assert!(event_qualifies(EventKind::Any, &paths));
    assert!(!event_qualifies(EventKind::Modify, &Vec::new()));
    let index = vec!["/r/.git/index".to_string()];
    assert!(event_qualifies(EventKind::Modify, &index));
}

#[test]
fn two_quick_changes_give_one_signal_after_the_window() {
    let mut d = Debouncer::new();
    d.record(1000, true);
    d.record(1050, true);
    assert_eq!(d.deadline(), Some(1050 + DEBOUNCE_MS));
    assert!(!d.poll(1100, true));
    assert!(!d.poll(1349, true));
    assert!(d.poll(1350, true));
    assert!(!d.poll(1351, true));
    assert!(!d.poll(5000, true));
    assert_eq!(d.deadline(), None);
}

#[test]
fn many_events_in_one_batch_give_one_signal() {
    let mut d = Debouncer::new();
    let mut t: u64 = 0;
    for _ in 0..50 {
        d.record(t, true);
        assert!(!d.poll(t, true));
        t += 10;
    }
    let mut signals = 0;
    for step in 0..100u64 {
        if d.poll(t + step * 10, true) {
            signals += 1;
        }
    }
    assert_eq!(signals, 1);
}

#[test]
fn each_new_event_restarts_the_window() {
    let mut d = Debouncer::new();
    d.record(0, true);
    assert!(!d.poll(250, true));
    d.record(250, true);
    assert!(!d.poll(300, true));
    assert!(!d.poll(549, true));
    assert!(d.poll(550, true));
}

#[test]
fn events_that_do_not_qualify_start_no_batch() {
    let mut d = Debouncer::new();
    d.record(0, false);
    assert!(!d.is_pending());
    assert_eq!(d.deadline(), None);
    assert!(!d.poll(1000, true));
    d.record(10, true);
    d.record(200, false);
    assert_eq!(d.deadline(), Some(310));
}

#[test]
fn disabled_reactivity_suppresses_and_does_not_replay() {
    let mut d = Debouncer::new();
    d.record(0, true);
    assert!(!d.poll(400, false));
    assert!(!d.is_pending());
    assert!(!d.poll(800, true));
    d.record(900, true);
    assert!(!d.poll(1300, false));
    d.record(1400, true);
    assert!(d.poll(1700, true));
}

#[test]
fn deadline_saturates_at_clock_end() {
    let mut d = Debouncer::new();
    d.record(u64::MAX - 5, true);
    assert_eq!(d.deadline(), Some(u64::MAX));
    assert!(!d.poll(u64::MAX, true));
}

#[test]
fn session_starts_idle_and_enabled() {
    let s: WatcherState<u8> = WatcherState::default();
    assert!(s.is_enabled());
    assert!(!s.is_watching());
}

#[test]
fn start_replaces_previous_watch() {
    let mut s: WatcherState<u8> = WatcherState::default();
    assert_eq!(start_watching(&mut s, Ok(1)), Ok(()));
    assert!(s.is_watching());
    assert_eq!(start_watching(&mut s, Ok(2)), Ok(()));
    assert!(s.is_watching());
}

#[test]
fn failed_start_leaves_no_watch() {
    let mut s: WatcherState<u8> = WatcherState::default();
    start_watching(&mut s, Ok(1)).unwrap();
    let r = start_watching(&mut s, Err("Failed to watch path".to_string()));
    assert_eq!(r, Err("Failed to watch path".to_string()));
    assert!(!s.is_watching());
}

#[test]
fn stop_twice_is_stop_once() {
    let mut s: WatcherState<u8> = WatcherState::default();
    start_watching(&mut s, Ok(7)).unwrap();
    stop_watching(&mut s);
    assert!(!s.is_watching());
    stop_watching(&mut s);
    assert!(!s.is_watching());
    assert!(s.is_enabled());
}

#[test]
fn reactivity_persists_across_restart() {
    let mut s: WatcherState<u8> = WatcherState::default();
    s.set_enabled(false);
    assert!(!s.is_enabled());
    start_watching(&mut s, Ok(3)).unwrap();
    assert!(!s.is_enabled());
    s.set_enabled(true);
    assert!(s.is_enabled());
    assert!(s.is_watching());
}
