//! The diff of one file: patch text, change classification and the old and
//! new contents.
use vstd::prelude::*;
use crate::repo::{
    diff_index_to_workdir, diff_tree_to_index, error_text, index_blob, open_repository, patch_lines,
    reference_tree, repo_head, tree_blob,
};
use crate::text::{
    added_lines_patch, added_patch, check_repo_path, contains_nul, decode_utf8, has_nul, utf8_text,
};

verus! {

/// The kind of change of the file that a diff line belongs to.
#[derive(Clone, Copy, Debug, PartialEq, Eq, Structural)]
pub enum DeltaKind {
    Unmodified,
    Added,
    Deleted,
    Modified,
    Renamed,
    Copied,
    Ignored,
    Untracked,
    Typechange,
    Unreadable,
    Conflicted,
}

/// One line of a printed patch: the change kind of its file, its origin
/// marker and its raw bytes.
#[derive(Clone, Debug)]
pub struct DiffLine {
    pub delta: DeltaKind,
    pub origin: char,
    pub content: Vec<u8>,
}

/// The diff of one file.
#[derive(Clone, Debug)]
pub struct FileDiff {
    pub path: String,
    pub diff: String,
    pub is_new: bool,
    pub is_deleted: bool,
    pub old_content: Option<String>,
    pub new_content: Option<String>,
}

/// The mathematical value of a [`FileDiff`].
pub struct FileDiffView {
    pub path: Seq<char>,
    pub diff: Seq<char>,
    pub is_new: bool,
    pub is_deleted: bool,
    pub old_content: Option<Seq<char>>,
    pub new_content: Option<Seq<char>>,
}

/// The view of an optional text.
pub open spec fn opt_text(o: Option<String>) -> Option<Seq<char>> {
    match o {
        Some(s) => Some(s@),
        None => None,
    }
}

impl View for FileDiff {
    type V = FileDiffView;

    open spec fn view(&self) -> FileDiffView {
        FileDiffView {
            path: self.path@,
            diff: self.diff@,
            is_new: self.is_new,
            is_deleted: self.is_deleted,
            old_content: opt_text(self.old_content),
            new_content: opt_text(self.new_content),
        }
    }
}

/// The marker a line's origin puts before its content: the origin itself for
/// added, removed and context lines, `\ ` for the end-of-file newline
/// notes.
pub open spec fn origin_prefix(origin: char) -> Seq<char> {
    if origin == '+' || origin == '-' || origin == ' ' {
        seq![origin]
    } else if origin == '>' || origin == '<' || origin == '=' {
        seq!['\\', ' ']
    } else {
        Seq::<char>::empty()
    }
}

/// Lines of these origins carry file content or the end-of-file newline
/// note; file headers, hunk headers and binary notes do not.
pub open spec fn carries_content(origin: char) -> bool {
    origin == '+' || origin == '-' || origin == ' ' || origin == '>' || origin == '<' || origin
        == '='
}

/// The text of one patch line: for a line that carries content, its marker,
/// then its content where that is valid UTF-8; nothing for the others.
pub open spec fn line_text(l: DiffLine) -> Seq<char> {
    if carries_content(l.origin) {
        origin_prefix(l.origin) + match utf8_text(l.content@) {
            Some(t) => t,
            None => Seq::<char>::empty(),
        }
    } else {
        Seq::<char>::empty()
    }
}

/// The patch text of a sequence of lines.
pub open spec fn patch_text(lines: Seq<DiffLine>) -> Seq<char>
    decreases lines.len(),
{
    if lines.len() == 0 {
        Seq::<char>::empty()
    } else {
        patch_text(lines.drop_last()) + line_text(lines.last())
    }
}

/// Some line belongs to a file whose change kind is `k`.
pub open spec fn any_delta(lines: Seq<DiffLine>, k: DeltaKind) -> bool {
    exists|i: int| 0 <= i < lines.len() && #[trigger] lines[i].delta == k
}

/// The diff of `path` from the printed lines, the working-directory text
/// and the texts at HEAD and in the index.
///
/// An empty patch with a readable working-directory file becomes a patch
/// in which every line is added, and marks the file new. A new file has no
/// old content; a deleted one has no new content.
pub open spec fn diff_outcome(
    path: Seq<char>,
    staged: bool,
    lines: Seq<DiffLine>,
    workdir: Option<Seq<char>>,
    head: Option<Seq<char>>,
    index: Option<Seq<char>>,
) -> FileDiffView {
    let text = patch_text(lines);
    let fallback = text.len() == 0 && workdir is Some;
    let is_new = fallback || any_delta(lines, DeltaKind::Added);
    let is_deleted = !is_new && any_delta(lines, DeltaKind::Deleted);
    let old0 = if staged {
        head
    } else if index is Some {
        index
    } else {
        head
    };
    let new0 = if staged {
        index
    } else {
        workdir
    };
    FileDiffView {
        path,
        diff: if fallback {
            added_patch(workdir->0)
        } else {
            text
        },
        is_new,
        is_deleted,
        old_content: if is_new {
            None
        } else {
            old0
        },
        new_content: if is_new {
            if new0 is Some {
                new0
            } else {
                workdir
            }
        } else if is_deleted {
            None
        } else {
            new0
        },
    }
}

/// A diff is never both new and deleted; a new one has no old content and
/// a deleted one no new content.
pub open spec fn consistent(d: FileDiffView) -> bool {
    &&& !(d.is_new && d.is_deleted)
    &&& d.is_new ==> d.old_content is None
    &&& d.is_deleted ==> d.new_content is None
}

/// Every computed diff is consistent: new and deleted exclude each other,
/// a new file has no old content and a deleted one no new content.
pub proof fn lemma_diff_consistent(
    path: Seq<char>,
    staged: bool,
    lines: Seq<DiffLine>,
    workdir: Option<Seq<char>>,
    head: Option<Seq<char>>,
    index: Option<Seq<char>>,
)
    ensures
        consistent(diff_outcome(path, staged, lines, workdir, head, index)),
{
}

/// A file that no diff line speaks of, read from the working directory,
/// is shown with every line added and is marked new.
pub proof fn lemma_untracked_fallback(
    path: Seq<char>,
    lines: Seq<DiffLine>,
    content: Seq<char>,
    head: Option<Seq<char>>,
    index: Option<Seq<char>>,
)
    requires
        lines.len() == 0,
    ensures
        diff_outcome(path, false, lines, Some(content), head, index).is_new,
        diff_outcome(path, false, lines, Some(content), head, index).diff == added_patch(content),
        diff_outcome(path, false, lines, Some(content), head, index).old_content is None,
        diff_outcome(path, false, lines, Some(content), head, index).new_content == Some(content),
{
}

/// Appends the marker of `origin`.
fn push_origin(out: &mut String, origin: char)
    requires
        carries_content(origin),
    ensures
        final(out)@ == old(out)@ + origin_prefix(origin),
{
    proof {
        reveal_strlit("+");
        reveal_strlit("-");
        reveal_strlit(" ");
        reveal_strlit("\\ ");
    }
    if origin == '+' {
        out.append("+");
    } else if origin == '-' {
        out.append("-");
    } else if origin == ' ' {
        out.append(" ");
    } else {
        out.append("\\ ");
    }
}

/// The patch text of `lines`, and whether some line belongs to an added,
/// and some to a deleted, file.
pub fn render_patch(lines: &Vec<DiffLine>) -> (r: (String, bool, bool))
    ensures
        r.0@ == patch_text(lines@),
        r.1 == any_delta(lines@, DeltaKind::Added),
        r.2 == any_delta(lines@, DeltaKind::Deleted),
{
    let mut out = String::new();
    let mut added = false;
    let mut deleted = false;
    let mut i: usize = 0;
    while i < lines.len()
        invariant
            i <= lines@.len(),
            out@ == patch_text(lines@.subrange(0, i as int)),
            added == any_delta(lines@.subrange(0, i as int), DeltaKind::Added),
            deleted == any_delta(lines@.subrange(0, i as int), DeltaKind::Deleted),
        decreases lines@.len() - i,
    {
        let line = &lines[i];
        let ghost before = out@;
        let o = line.origin;
        if o == '+' || o == '-' || o == ' ' || o == '>' || o == '<' || o == '=' {
            push_origin(&mut out, o);
            match decode_utf8(&line.content) {
                Some(t) => out.append(t.as_str()),
                None => {},
            }
        }
        let ghost sub = lines@.subrange(0, i + 1);
        proof {
            assert(sub.drop_last() =~= lines@.subrange(0, i as int));
            assert(sub.last() == lines@[i as int]);
            assert(out@ =~= before + line_text(lines@[i as int]));
        }
        match line.delta {
            DeltaKind::Added => added = true,
            DeltaKind::Deleted => deleted = true,
            _ => {},
        }
        proof {
            assert(sub[i as int] == lines@[i as int]);
            assert forall|k: DeltaKind|
                any_delta(sub, k) == (any_delta(lines@.subrange(0, i as int), k)
                    || lines@[i as int].delta == k) by {
                if any_delta(sub, k) {
                    let j = choose|j: int| 0 <= j < sub.len() && #[trigger] sub[j].delta == k;
                    if j < i {
                        assert(lines@.subrange(0, i as int)[j] == sub[j]);
                    }
                }
                if any_delta(lines@.subrange(0, i as int), k) {
                    let j = choose|j: int|
                        0 <= j < i && #[trigger] lines@.subrange(0, i as int)[j].delta == k;
                    assert(sub[j] == lines@.subrange(0, i as int)[j]);
                }
            }
        }
        i = i + 1;
    }
    assert(lines@.subrange(0, lines@.len() as int) =~= lines@);
    (out, added, deleted)
}

/// The diff of `path` from its printed patch lines, the text of the file in
/// the working directory and its texts at HEAD and in the index.
pub fn assemble_file_diff(
    path: &str,
    staged: bool,
    lines: &Vec<DiffLine>,
    workdir: Option<String>,
    head: Option<String>,
    index: Option<String>,
) -> (r: FileDiff)
    ensures
        r@ == diff_outcome(
            path@,
            staged,
            lines@,
            opt_text(workdir),
            opt_text(head),
            opt_text(index),
        ),
        consistent(r@),
{
    let (text, added, deleted) = render_patch(lines);
    let empty = text.as_str().is_empty();
    let fallback = empty && workdir.is_some();
    let diff = match &workdir {
        Some(c) if empty => added_lines_patch(c.as_str()),
        _ => text,
    };
    let is_new = fallback || added;
    let is_deleted = !is_new && deleted;
    let (old0, new0, rest) = if staged {
        (head, index, workdir)
    } else {
        let old0 = if index.is_some() {
            index
        } else {
            head
        };
        (old0, workdir.clone(), workdir)
    };
    let old_content = if is_new {
        None
    } else {
        old0
    };
    let new_content = if is_new {
        if new0.is_some() {
            new0
        } else {
            rest
        }
    } else if is_deleted {
        None
    } else {
        new0
    };
    FileDiff {
        path: path.to_owned(),
        diff,
        is_new,
        is_deleted,
        old_content,
        new_content,
    }
}

/// Some bytes decode to `t`.
pub open spec fn is_decoded(t: Option<Seq<char>>) -> bool {
    t matches Some(x) ==> exists|b: Seq<u8>| #[trigger] utf8_text(b) == Some(x)
}

/// The text of some bytes, if there are bytes and they are valid UTF-8.
fn blob_text(bytes: Option<Vec<u8>>) -> (r: Option<String>)
    ensures
        bytes is None ==> r is None,
        bytes matches Some(b) ==> opt_text(r) == utf8_text(b@),
        is_decoded(opt_text(r)),
{
    match bytes {
        Some(b) => decode_utf8(&b),
        None => None,
    }
}

/// The text of `file_path` in the HEAD commit, if it is there and is text.
fn get_blob_content_from_head(repo: &git2::Repository, file_path: &str) -> (r: Option<String>)
    ensures
        is_decoded(opt_text(r)),
{
    match head_tree(repo) {
        Some(tree) => blob_text(tree_blob(repo, &tree, file_path)),
        None => None,
    }
}

/// The tree of the commit HEAD points at, if HEAD resolves to one.
fn head_tree(repo: &git2::Repository) -> (r: Option<git2::Tree<'_>>) {
    match repo_head(repo) {
        Some(head) => reference_tree(&head),
        None => None,
    }
}

/// The text of `file_path` in the index, if it is there and is text. A
/// path that cannot name an index entry has none.
fn get_blob_content_from_index(repo: &git2::Repository, file_path: &str) -> (r: Option<String>)
    ensures
        is_decoded(opt_text(r)),
{
    if check_repo_path(file_path) {
        blob_text(index_blob(repo, file_path))
    } else {
        None
    }
}

/// The diff of `file_path` in the repository at `repo_path`: HEAD against
/// the index when `staged`, the index against the working directory
/// otherwise. `workdir` is the file's text in the working directory, if it
/// could be read as text.
///
/// Fails only when the repository cannot be opened or the diff cannot be
/// computed, as for a path holding a NUL; the result is otherwise the diff of whatever lines the diff printed
/// and whatever texts HEAD and the index hold.
pub fn get_file_diff(repo_path: &str, file_path: &str, staged: bool, workdir: Option<String>) -> (r:
    Result<FileDiff, String>)
    ensures
        r matches Ok(d) ==> exists|
            lines: Seq<DiffLine>,
            head: Option<Seq<char>>,
            index: Option<Seq<char>>,
        |
            d@ == #[trigger] diff_outcome(
                file_path@,
                staged,
                lines,
                opt_text(workdir),
                head,
                index,
            ),
        r matches Ok(d) ==> consistent(d@),
        r matches Ok(d) ==> d.path@ == file_path@,
        has_nul(file_path@) ==> r is Err,
{
    let repo = match open_repository(repo_path) {
        Ok(repo) => repo,
        Err(e) => return Err(error_text(&e)),
    };
    if contains_nul(file_path) {
        return Err(String::from_str("file path holds a NUL character"));
    }
    let printed = if staged {
        let tree = head_tree(&repo);
        match diff_tree_to_index(&repo, tree.as_ref(), file_path) {
            Ok(diff) => patch_lines(&diff),
            Err(e) => Err(e),
        }
    } else {
        match diff_index_to_workdir(&repo, file_path) {
            Ok(diff) => patch_lines(&diff),
            Err(e) => Err(e),
        }
    };
    let lines = match printed {
        Ok(lines) => lines,
        Err(e) => return Err(error_text(&e)),
    };
    let head = get_blob_content_from_head(&repo, file_path);
    let index = get_blob_content_from_index(&repo, file_path);
    Ok(assemble_file_diff(file_path, staged, &lines, workdir, head, index))
}

} // verus!
