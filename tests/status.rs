use git_watch::status::{
    get_repository_status, status_entries, status_from, FileStatus, RawStatus, StatusKind, INDEX_DELETED,
    INDEX_MODIFIED, INDEX_NEW, INDEX_RENAMED, WT_DELETED, WT_MODIFIED, WT_NEW, WT_RENAMED,
};

fn raw(path: &str, bits: u32) -> RawStatus {
    RawStatus { path: Some(path.to_string()), bits }
}

fn same(f: &FileStatus, path: &str, kind: StatusKind, staged: bool) -> bool {
    f.path == path && f.status == kind && f.staged == staged
}

#[test]
fn not_a_repository_is_an_empty_success() {
    let s = get_repository_status("/nonexistent/dir/that/holds/no/repository").unwrap();
    assert!(!s.is_repo);
    assert!(s.branch.is_none());
    assert!(s.files.is_empty());
}

#[test]
fn workdir_only_modification_gives_one_record() {
    let files = status_entries(&vec![raw("f.txt", WT_MODIFIED)]);
    assert_eq!(files.len(), 1);
    assert!(same(&files[0], "f.txt", StatusKind::Modified, false));
}

#[test]
fn staged_and_unstaged_modification_give_two_records() {
    let files = status_entries(&vec![raw("a.rs", INDEX_MODIFIED | WT_MODIFIED)]);
    assert_eq!(files.len(), 2);
    assert!(same(&files[0], "a.rs", StatusKind::Modified, true));
    assert!(same(&files[1], "a.rs", StatusKind::Modified, false));
}

#[test]
fn staged_side_precedence() {
    let files = status_entries(&vec![
        raw("a", INDEX_NEW | INDEX_MODIFIED),
        raw("b", INDEX_MODIFIED | INDEX_DELETED),
        raw("c", INDEX_DELETED | INDEX_RENAMED),
        raw("d", INDEX_RENAMED),
    ]);
    assert_eq!(files.len(), 4);
    assert!(same(&files[0], "a", StatusKind::Added, true));
    assert!(same(&files[1], "b", StatusKind::Modified, true));
    assert!(same(&files[2], "c", StatusKind::Deleted, true));
    assert!(same(&files[3], "d", StatusKind::Renamed, true));
}

#[test]
fn unstaged_side_precedence() {
    let files = status_entries(&vec![
        raw("a", WT_MODIFIED | WT_DELETED),
        raw("b", WT_DELETED | WT_RENAMED),
        raw("c", WT_RENAMED | WT_NEW),
        raw("d", WT_NEW),
    ]);
    assert_eq!(files.len(), 4);
    assert!(same(&files[0], "a", StatusKind::Modified, false));
    assert!(same(&files[1], "b", StatusKind::Deleted, false));
    assert!(same(&files[2], "c", StatusKind::Renamed, false));
    assert!(same(&files[3], "d", StatusKind::Untracked, false));
}

#[test]
fn untracked_is_never_staged() {
    let files = status_entries(&vec![raw("n.txt", WT_NEW), raw("m.txt", INDEX_NEW | WT_NEW)]);
    assert_eq!(files.len(), 3);
    for f in &files {
        if f.status == StatusKind::Untracked {
            assert!(!f.staged);
        }
    }
    assert!(same(&files[1], "m.txt", StatusKind::Added, true));
    assert!(same(&files[2], "m.txt", StatusKind::Untracked, false));
}

#[test]
fn clean_and_unnamed_paths() {
    let files = status_entries(&vec![
        raw("clean", 0),
        RawStatus { path: None, bits: WT_MODIFIED },
        raw("ignored", 1 << 14),
    ]);
    assert_eq!(files.len(), 1);
    assert!(same(&files[0], "", StatusKind::Modified, false));
}

#[test]
fn no_raw_statuses_no_records() {
    assert!(status_entries(&Vec::new()).is_empty());
}

#[test]
fn kind_names() {
    assert_eq!(StatusKind::Added.as_str(), "added");
    assert_eq!(StatusKind::Modified.as_str(), "modified");
    assert_eq!(StatusKind::Deleted.as_str(), "deleted");
    assert_eq!(StatusKind::Renamed.as_str(), "renamed");
    assert_eq!(StatusKind::Untracked.as_str(), "untracked");
}

#[test]
fn status_from_unopened_directory() {
    let s = status_from(false, Some("main".to_string()), Err("x".to_string())).unwrap();
    assert!(!s.is_repo);
    assert!(s.branch.is_none());
    assert!(s.files.is_empty());
}

#[test]
fn status_from_opened_repository() {
    let s = status_from(true, Some("main".to_string()), Ok(vec![raw("f.txt", WT_NEW)])).unwrap();
    assert!(s.is_repo);
    assert_eq!(s.branch.as_deref(), Some("main"));
    assert_eq!(s.files.len(), 1);
    assert!(same(&s.files[0], "f.txt", StatusKind::Untracked, false));
    let e = status_from(true, None, Err("corrupt index".to_string()));
    assert_eq!(e.unwrap_err(), "corrupt index");
}
