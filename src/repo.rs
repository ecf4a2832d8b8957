//! The repository reads that the library relies on git2 for.
use vstd::prelude::*;
use crate::diff::{DeltaKind, DiffLine};
use crate::status::RawStatus;
use crate::text::{has_nul, is_repo_path};

verus! {

#[verifier::external_type_specification]
#[verifier::external_body]
pub struct ExRepository(git2::Repository);

#[verifier::external_type_specification]
#[verifier::external_body]
pub struct ExGitError(git2::Error);

/// Relies on `git2::Repository::open`: opens the repository rooted at `path`.
#[verifier::external_body]
pub(crate) fn open_repository(path: &str) -> (r: Result<git2::Repository, git2::Error>) {
    git2::Repository::open(path)
}

/// Relies on the `Display` impl of `git2::Error`: the error's message.
#[verifier::external_body]
pub(crate) fn error_text(e: &git2::Error) -> (r: String) {
    e.to_string()
}

#[verifier::external_type_specification]
#[verifier::external_body]
pub struct ExReference<'a>(git2::Reference<'a>);

/// Relies on `git2::Repository::head`: the reference HEAD resolves to, if
/// it resolves.
#[verifier::external_body]
pub(crate) fn repo_head(repo: &git2::Repository) -> (r: Option<git2::Reference<'_>>) {
    repo.head().ok()
}

/// Relies on `git2::Reference::shorthand`: the reference's short name, if it
/// is valid UTF-8.
#[verifier::external_body]
pub(crate) fn reference_shorthand(r: &git2::Reference<'_>) -> (s: Option<String>) {
    r.shorthand().ok().map(|s| s.to_string())
}

/// Relies on `git2::Reference::peel_to_tree`: the tree of the commit the
/// reference points at, if it peels to one.
#[verifier::external_body]
pub(crate) fn reference_tree<'a>(r: &git2::Reference<'a>) -> (t: Option<git2::Tree<'a>>) {
    r.peel_to_tree().ok()
}

/// Relies on `git2::Repository::statuses` with `git2::StatusOptions`: the
/// reported paths, each with its name and its status bits.
#[verifier::external_body]
pub(crate) fn status_list(
    repo: &git2::Repository,
    include_untracked: bool,
    recurse_untracked_dirs: bool,
    include_ignored: bool,
) -> (r: Result<Vec<RawStatus>, git2::Error>) {
    let mut opts = git2::StatusOptions::new();
    opts.include_untracked(include_untracked).recurse_untracked_dirs(recurse_untracked_dirs)
        .include_ignored(include_ignored);
    let statuses = repo.statuses(Some(&mut opts))?;
    Ok(statuses.iter().map(|e| RawStatus {
        path: e.path().ok().map(|p| p.to_string()),
        bits: e.status().bits(),
    }).collect())
}

#[verifier::external_type_specification]
#[verifier::external_body]
pub struct ExTree<'a>(git2::Tree<'a>);

#[verifier::external_type_specification]
#[verifier::external_body]
pub struct ExDiff<'a>(git2::Diff<'a>);

#[verifier::external_type_specification]
#[verifier::external_body]
pub struct ExDelta(git2::Delta);

/// Relies on `git2::Repository::diff_tree_to_index`, restricted to
/// `pathspec`; no tree stands for the empty tree. `DiffOptions::pathspec`
/// panics on a NUL.
#[verifier::external_body]
pub(crate) fn diff_tree_to_index<'a>(
    repo: &'a git2::Repository,
    tree: Option<&git2::Tree<'_>>,
    pathspec: &str,
) -> (r: Result<git2::Diff<'a>, git2::Error>)
    requires
        !has_nul(pathspec@),
{
    let mut opts = git2::DiffOptions::new();
    opts.pathspec(pathspec);
    repo.diff_tree_to_index(tree, None, Some(&mut opts))
}

/// Relies on `git2::Repository::diff_index_to_workdir`, restricted to
/// `pathspec`. `DiffOptions::pathspec` panics on a NUL.
#[verifier::external_body]
pub(crate) fn diff_index_to_workdir<'a>(repo: &'a git2::Repository, pathspec: &str) -> (r: Result<
    git2::Diff<'a>,
    git2::Error,
>)
    requires
        !has_nul(pathspec@),
{
    let mut opts = git2::DiffOptions::new();
    opts.pathspec(pathspec);
    repo.diff_index_to_workdir(None, Some(&mut opts))
}

/// Relies on the variants of `git2::Delta`: the same variant, one for one.
#[verifier::external_body]
fn delta_kind(d: git2::Delta) -> (r: DeltaKind) {
    match d {
        git2::Delta::Unmodified => DeltaKind::Unmodified,
        git2::Delta::Added => DeltaKind::Added,
        git2::Delta::Deleted => DeltaKind::Deleted,
        git2::Delta::Modified => DeltaKind::Modified,
        git2::Delta::Renamed => DeltaKind::Renamed,
        git2::Delta::Copied => DeltaKind::Copied,
        git2::Delta::Ignored => DeltaKind::Ignored,
        git2::Delta::Untracked => DeltaKind::Untracked,
        git2::Delta::Typechange => DeltaKind::Typechange,
        git2::Delta::Unreadable => DeltaKind::Unreadable,
        git2::Delta::Conflicted => DeltaKind::Conflicted,
    }
}

/// Relies on `git2::Diff::print` in patch format: every printed line, in
/// order, with its file's change kind, its origin and its bytes.
#[verifier::external_body]
pub(crate) fn patch_lines(diff: &git2::Diff<'_>) -> (r: Result<Vec<DiffLine>, git2::Error>) {
    let mut lines = Vec::new();
    diff.print(git2::DiffFormat::Patch, |delta, _hunk, line| {
        let kind = delta_kind(delta.status());
        lines.push(DiffLine { delta: kind, origin: line.origin(), content: line.content().to_vec() });
        true
    })?;
    Ok(lines)
}

/// Relies on `git2::Tree::get_path`, `git2::TreeEntry::to_object`,
/// `git2::Object::peel_to_blob` and `git2::Blob::content`: the bytes of the
/// blob at `path` in `tree`, if there is one.
#[verifier::external_body]
pub(crate) fn tree_blob(repo: &git2::Repository, tree: &git2::Tree<'_>, path: &str) -> (r: Option<
    Vec<u8>,
>) {
    let entry = tree.get_path(std::path::Path::new(path)).ok()?;
    let blob = entry.to_object(repo).ok()?.peel_to_blob().ok()?;
    Some(blob.content().to_vec())
}

/// Relies on `git2::Repository::index`, `git2::Index::get_path` (stage 0),
/// `git2::Repository::find_blob` and `git2::Blob::content`: the bytes of the
/// index entry at `path`, if there is one. `Index::get_path` panics on a
/// path that is not a relative repository path.
#[verifier::external_body]
pub(crate) fn index_blob(repo: &git2::Repository, path: &str) -> (r: Option<Vec<u8>>)
    requires
        is_repo_path(path@),
{
    let index = repo.index().ok()?;
    let entry = index.get_path(std::path::Path::new(path), 0)?;
    let blob = repo.find_blob(entry.id).ok()?;
    Some(blob.content().to_vec())
}

} // verus!
