use git_watch::diff::get_file_diff;
use git_watch::status::{get_repository_status, StatusKind};
use std::time::{SystemTime, UNIX_EPOCH};

fn fresh_path(name: &str) -> String {
    let nanos = SystemTime::now().duration_since(UNIX_EPOCH).unwrap().as_nanos();
    format!("/tmp/git_watch_{}_{}", name, nanos)
}

fn tree_with(repo: &git2::Repository, files: &[(&str, &str)]) -> git2::Oid {
    let mut builder = repo.treebuilder(None).unwrap();
    for (name, text) in files {
        let blob = repo.blob(text.as_bytes()).unwrap();
        builder.insert(name, blob, 0o100644).unwrap();
    }
    builder.write().unwrap()
}

fn commit(repo: &git2::Repository, tree: git2::Oid, update_head: bool) -> git2::Oid {
    let tree = repo.find_tree(tree).unwrap();
    let sig = git2::Signature::now("Tester", "tester@example.com").unwrap();
    let parent = repo.head().ok().and_then(|h| h.peel_to_commit().ok());
    let parents: Vec<&git2::Commit> = parent.iter().collect();
    let head = if update_head { Some("HEAD") } else { None };
    repo.commit(head, &sig, &sig, "change", &tree, &parents).unwrap()
}

fn force_checkout(repo: &git2::Repository, commit_id: git2::Oid) {
    let object = repo.find_object(commit_id, None).unwrap();
    let mut opts = git2::build::CheckoutBuilder::new();
    opts.force();
    repo.checkout_tree(&object, Some(&mut opts)).unwrap();
}

/// A repository whose HEAD and index hold `f.txt` as `old`, and whose
/// working directory holds it as `new`; returns its path.
fn repo_with_workdir_change(name: &str, old: &str, new: &str, extra: &[(&str, &str)]) -> String {
    let path = fresh_path(name);
    let repo = git2::Repository::init(&path).unwrap();
    let first = commit(&repo, tree_with(&repo, &[("f.txt", old)]), true);
    force_checkout(&repo, first);
    let mut changed = vec![("f.txt", new)];
    changed.extend_from_slice(extra);
    let second = commit(&repo, tree_with(&repo, &changed), false);
    force_checkout(&repo, second);
    let head = repo.find_object(first, None).unwrap();
    repo.reset(&head, git2::ResetType::Mixed, None).unwrap();
    path
}

#[test]
fn missing_directory_is_not_a_repository() {
    let s = get_repository_status(&fresh_path("missing")).unwrap();
    assert!(!s.is_repo);
    assert!(s.branch.is_none());
    assert!(s.files.is_empty());
}

#[test]
fn repository_with_one_modified_file() {
    let path = repo_with_workdir_change("modified", "one\n", "two\n", &[]);
    let s = get_repository_status(&path).unwrap();
    assert!(s.is_repo);
    assert!(s.branch.is_some());
    assert_eq!(s.files.len(), 1);
    assert_eq!(s.files[0].path, "f.txt");
    assert_eq!(s.files[0].status, StatusKind::Modified);
    assert!(!s.files[0].staged);
}

#[test]
fn unstaged_diff_of_a_real_file() {
    let path = repo_with_workdir_change("diff", "one\n", "two\n", &[]);
    let d = get_file_diff(&path, "f.txt", false, Some("two\n".to_string())).unwrap();
    assert_eq!(d.diff, "-one\n+two\n");
    assert!(!d.is_new && !d.is_deleted);
    assert_eq!(d.old_content.as_deref(), Some("one\n"));
    assert_eq!(d.new_content.as_deref(), Some("two\n"));
}

#[test]
fn untracked_real_file_falls_back_to_added_lines() {
    let path = repo_with_workdir_change("untracked", "one\n", "one\n", &[("n.txt", "a\nb\n")]);
    let s = get_repository_status(&path).unwrap();
    assert_eq!(s.files.len(), 1);
    assert_eq!(s.files[0].path, "n.txt");
    assert_eq!(s.files[0].status, StatusKind::Untracked);
    let d = get_file_diff(&path, "n.txt", false, Some("a\nb\n".to_string())).unwrap();
    assert_eq!(d.diff, "+a\n+b\n");
    assert!(d.is_new);
    assert_eq!(d.old_content, None);
    assert_eq!(d.new_content.as_deref(), Some("a\nb\n"));
}

#[test]
fn odd_file_paths_do_not_panic() {
    let path = repo_with_workdir_change("odd", "one\n", "two\n", &[]);
    assert!(get_file_diff(&path, "f\0.txt", false, None).is_err());
    assert!(get_file_diff(&path, "f\0.txt", true, None).is_err());
    for odd in ["", "/abs", "./f.txt", "../f.txt", "."] {
        let d = get_file_diff(&path, odd, false, None);
        if let Ok(d) = d {
            assert!(!(d.is_new && d.is_deleted));
        }
    }
}
