//! Repository status: the staged and unstaged records of every reported path.
use vstd::prelude::*;
use crate::repo::{error_text, open_repository, reference_shorthand, repo_head, status_list};

verus! {

/// Status bit: the path is new in the index.
pub const INDEX_NEW: u32 = 1;
/// Status bit: the path is modified in the index.
pub const INDEX_MODIFIED: u32 = 2;
/// Status bit: the path is deleted from the index.
pub const INDEX_DELETED: u32 = 4;
/// Status bit: the path is renamed in the index.
pub const INDEX_RENAMED: u32 = 8;
/// Status bit: the path is untracked in the working directory.
pub const WT_NEW: u32 = 128;
/// Status bit: the path is modified in the working directory.
pub const WT_MODIFIED: u32 = 256;
/// Status bit: the path is deleted from the working directory.
pub const WT_DELETED: u32 = 512;
/// Status bit: the path is renamed in the working directory.
pub const WT_RENAMED: u32 = 2048;

/// The kind of change recorded for one side of a path.
#[derive(Clone, Copy, Debug, PartialEq, Eq, Structural)]
pub enum StatusKind {
    Added,
    Modified,
    Deleted,
    Renamed,
    Untracked,
}

impl StatusKind {
    /// The lower-case name of the kind.
    pub fn as_str(&self) -> (r: &'static str)
        ensures
            *self == StatusKind::Added ==> r@ == "added"@,
            *self == StatusKind::Modified ==> r@ == "modified"@,
            *self == StatusKind::Deleted ==> r@ == "deleted"@,
            *self == StatusKind::Renamed ==> r@ == "renamed"@,
            *self == StatusKind::Untracked ==> r@ == "untracked"@,
    {
        proof {
            reveal_strlit("added");
            reveal_strlit("modified");
            reveal_strlit("deleted");
            reveal_strlit("renamed");
            reveal_strlit("untracked");
        }
        match self {
            StatusKind::Added => "added",
            StatusKind::Modified => "modified",
            StatusKind::Deleted => "deleted",
            StatusKind::Renamed => "renamed",
            StatusKind::Untracked => "untracked",
        }
    }
}

/// One fact about one path: its change kind on the staged or unstaged side.
#[derive(Clone, Debug)]
pub struct FileStatus {
    pub path: String,
    pub status: StatusKind,
    pub staged: bool,
}

/// The mathematical value of a [`FileStatus`].
pub struct FileStatusView {
    pub path: Seq<char>,
    pub status: StatusKind,
    pub staged: bool,
}

impl View for FileStatus {
    type V = FileStatusView;

    open spec fn view(&self) -> FileStatusView {
        FileStatusView { path: self.path@, status: self.status, staged: self.staged }
    }
}

/// The status of a directory: whether it is a repository, its branch, and
/// the records of its changed paths.
#[derive(Clone, Debug)]
pub struct GitStatus {
    pub is_repo: bool,
    pub branch: Option<String>,
    pub files: Vec<FileStatus>,
}

/// One path as the status enumeration reports it: its name, if that is
/// valid UTF-8, and its status bits.
#[derive(Clone, Debug)]
pub struct RawStatus {
    pub path: Option<String>,
    pub bits: u32,
}

/// Whether the bit `f` is set in `bits`.
pub open spec fn flag(bits: u32, f: u32) -> bool {
    bits & f != 0
}

/// The staged-side kind of a path: first match of added, modified,
/// deleted, renamed.
pub open spec fn staged_kind(bits: u32) -> Option<StatusKind> {
    if flag(bits, INDEX_NEW) {
        Some(StatusKind::Added)
    } else if flag(bits, INDEX_MODIFIED) {
        Some(StatusKind::Modified)
    } else if flag(bits, INDEX_DELETED) {
        Some(StatusKind::Deleted)
    } else if flag(bits, INDEX_RENAMED) {
        Some(StatusKind::Renamed)
    } else {
        None
    }
}

/// The unstaged-side kind of a path: first match of modified, deleted,
/// renamed, untracked.
pub open spec fn unstaged_kind(bits: u32) -> Option<StatusKind> {
    if flag(bits, WT_MODIFIED) {
        Some(StatusKind::Modified)
    } else if flag(bits, WT_DELETED) {
        Some(StatusKind::Deleted)
    } else if flag(bits, WT_RENAMED) {
        Some(StatusKind::Renamed)
    } else if flag(bits, WT_NEW) {
        Some(StatusKind::Untracked)
    } else {
        None
    }
}

/// The path of a raw status; a name that is not valid UTF-8 reads as empty.
pub open spec fn raw_path(r: RawStatus) -> Seq<char> {
    match r.path {
        Some(p) => p@,
        None => Seq::<char>::empty(),
    }
}

/// The record of one side, if that side has a kind.
pub open spec fn side_record(path: Seq<char>, kind: Option<StatusKind>, staged: bool) -> Seq<
    FileStatusView,
> {
    match kind {
        Some(k) => seq![FileStatusView { path, status: k, staged }],
        None => Seq::<FileStatusView>::empty(),
    }
}

/// The records of one path: the staged one first, then the unstaged one.
pub open spec fn entry_records(path: Seq<char>, bits: u32) -> Seq<FileStatusView> {
    side_record(path, staged_kind(bits), true) + side_record(path, unstaged_kind(bits), false)
}

/// The records of a sequence of raw statuses, in order.
pub open spec fn records_of(raw: Seq<RawStatus>) -> Seq<FileStatusView>
    decreases raw.len(),
{
    if raw.len() == 0 {
        Seq::<FileStatusView>::empty()
    } else {
        records_of(raw.drop_last()) + entry_records(raw_path(raw.last()), raw.last().bits)
    }
}

/// The views of a sequence of records.
pub open spec fn views(files: Seq<FileStatus>) -> Seq<FileStatusView> {
    files.map_values(|f: FileStatus| f@)
}

/// No record is untracked on the staged side.
pub open spec fn untracked_unstaged(files: Seq<FileStatusView>) -> bool {
    forall|k: int|
        0 <= k < files.len() && #[trigger] files[k].status == StatusKind::Untracked
            ==> !files[k].staged
}

/// Every computed record list keeps untracked records on the unstaged side.
pub proof fn lemma_untracked_never_staged(raw: Seq<RawStatus>)
    ensures
        untracked_unstaged(records_of(raw)),
    decreases raw.len(),
{
    if raw.len() > 0 {
        lemma_untracked_never_staged(raw.drop_last());
        let a = records_of(raw.drop_last());
        let r = raw.last();
        let b = entry_records(raw_path(r), r.bits);
        assert(records_of(raw) == a + b);
        assert forall|k: int|
            0 <= k < (a + b).len() && #[trigger] (a + b)[k].status == StatusKind::Untracked
                implies !(a + b)[k].staged by {
            if k >= a.len() {
                let p = raw_path(r);
                let s = side_record(p, staged_kind(r.bits), true);
                if k - a.len() < s.len() {
                    assert(b[k - a.len()] == s[k - a.len()]);
                }
            }
        }
    }
}

fn push_record(files: &mut Vec<FileStatus>, path: &String, status: StatusKind, staged: bool)
    ensures
        views(final(files)@) == views(old(files)@).push(
            FileStatusView { path: path@, status, staged },
        ),
{
    files.push(FileStatus { path: path.clone(), status, staged });
    assert(views(final(files)@) =~= views(old(files)@).push(
        FileStatusView { path: path@, status, staged },
    ));
}

fn staged_side(bits: u32) -> (r: Option<StatusKind>)
    ensures
        r == staged_kind(bits),
{
    if bits & INDEX_NEW != 0 {
        Some(StatusKind::Added)
    } else if bits & INDEX_MODIFIED != 0 {
        Some(StatusKind::Modified)
    } else if bits & INDEX_DELETED != 0 {
        Some(StatusKind::Deleted)
    } else if bits & INDEX_RENAMED != 0 {
        Some(StatusKind::Renamed)
    } else {
        None
    }
}

fn unstaged_side(bits: u32) -> (r: Option<StatusKind>)
    ensures
        r == unstaged_kind(bits),
{
    if bits & WT_MODIFIED != 0 {
        Some(StatusKind::Modified)
    } else if bits & WT_DELETED != 0 {
        Some(StatusKind::Deleted)
    } else if bits & WT_RENAMED != 0 {
        Some(StatusKind::Renamed)
    } else if bits & WT_NEW != 0 {
        Some(StatusKind::Untracked)
    } else {
        None
    }
}

/// The status records of the raw statuses, in order: for each path its
/// staged record, if any, then its unstaged record, if any.
pub fn status_entries(raw: &Vec<RawStatus>) -> (r: Vec<FileStatus>)
    ensures
        views(r@) == records_of(raw@),
        untracked_unstaged(views(r@)),
{
    let mut files: Vec<FileStatus> = Vec::new();
    let mut i: usize = 0;
    while i < raw.len()
        invariant
            i <= raw@.len(),
            views(files@) == records_of(raw@.subrange(0, i as int)),
        decreases raw@.len() - i,
    {
        let entry = &raw[i];
        let path = match &entry.path {
            Some(p) => p.clone(),
            None => String::new(),
        };
        let ghost before = views(files@);
        match staged_side(entry.bits) {
            Some(k) => push_record(&mut files, &path, k, true),
            None => {},
        }
        match unstaged_side(entry.bits) {
            Some(k) => push_record(&mut files, &path, k, false),
            None => {},
        }
        proof {
            let sub = raw@.subrange(0, i + 1);
            assert(sub.drop_last() =~= raw@.subrange(0, i as int));
            assert(sub.last() == raw@[i as int]);
            assert(path@ == raw_path(raw@[i as int]));
            assert(views(files@) =~= before + entry_records(path@, entry.bits));
        }
        i = i + 1;
    }
    assert(raw@.subrange(0, raw@.len() as int) =~= raw@);
    proof {
        lemma_untracked_never_staged(raw@);
    }
    files
}

/// Every record of one path is in the records of the whole list, at some
/// offset.
pub proof fn lemma_records_contain(raw: Seq<RawStatus>, i: int)
    requires
        0 <= i < raw.len(),
    ensures
        exists|j: int|
            0 <= j && j + entry_records(raw_path(raw[i]), raw[i].bits).len() <= records_of(
                raw,
            ).len() && #[trigger] records_of(raw).subrange(
                j,
                j + entry_records(raw_path(raw[i]), raw[i].bits).len(),
            ) == entry_records(raw_path(raw[i]), raw[i].bits),
    decreases raw.len(),
{
    let a = records_of(raw.drop_last());
    let e = entry_records(raw_path(raw[i]), raw[i].bits);
    if i == raw.len() - 1 {
        let j = a.len() as int;
        assert(records_of(raw).subrange(j, j + e.len()) =~= e);
    } else {
        lemma_records_contain(raw.drop_last(), i);
        assert(raw.drop_last()[i] == raw[i]);
        let j = choose|j: int|
            0 <= j && j + e.len() <= a.len() && #[trigger] a.subrange(j, j + e.len()) == e;
        assert(records_of(raw).subrange(j, j + e.len()) =~= a.subrange(j, j + e.len()));
    }
}

/// A path modified in the index and modified again in the working
/// directory gets two records, next to each other: a staged one and an
/// unstaged one saying it is modified.
pub proof fn lemma_status_duality(raw: Seq<RawStatus>, i: int)
    requires
        0 <= i < raw.len(),
        flag(raw[i].bits, INDEX_MODIFIED),
        flag(raw[i].bits, WT_MODIFIED),
    ensures
        exists|j: int|
            0 <= j && j + 1 < records_of(raw).len() && #[trigger] records_of(raw)[j].staged
                && records_of(raw)[j].path == raw_path(raw[i]) && records_of(raw)[j + 1]
                == (FileStatusView {
                path: raw_path(raw[i]),
                status: StatusKind::Modified,
                staged: false,
            }),
{
    lemma_records_contain(raw, i);
    let e = entry_records(raw_path(raw[i]), raw[i].bits);
    assert(staged_kind(raw[i].bits) is Some);
    assert(e.len() == 2);
    let j = choose|j: int|
        0 <= j && j + e.len() <= records_of(raw).len() && #[trigger] records_of(raw).subrange(
            j,
            j + e.len(),
        ) == e;
    assert(records_of(raw).subrange(j, j + e.len())[0] == records_of(raw)[j]);
    assert(records_of(raw).subrange(j, j + e.len())[1] == records_of(raw)[j + 1]);
    assert(e[0].staged);
    assert(records_of(raw)[j].staged);
    assert(e[1] == (FileStatusView {
        path: raw_path(raw[i]),
        status: StatusKind::Modified,
        staged: false,
    }));
}

/// The status that follows from the repository reads: whether the
/// directory opened as a repository, the branch HEAD names and the status
/// listing. A directory that did not open is no repository, which is a
/// success; an opened one fails exactly when the listing failed.
pub fn status_from(opened: bool, branch: Option<String>, listed: Result<Vec<RawStatus>, String>) -> (r:
    Result<GitStatus, String>)
    ensures
        !opened ==> (r matches Ok(s) && !s.is_repo && s.branch is None && s.files@.len() == 0),
        opened ==> (r is Err <==> listed is Err),
        opened ==> (listed matches Err(e) ==> r == Err::<GitStatus, String>(e)),
        opened ==> (listed matches Ok(raw) ==> (r matches Ok(s) && s.is_repo && s.branch == branch
            && views(s.files@) == records_of(raw@))),
        r matches Ok(s) ==> untracked_unstaged(views(s.files@)),
{
    if !opened {
        let files: Vec<FileStatus> = Vec::new();
        assert(views(files@) =~= Seq::<FileStatusView>::empty());
        return Ok(GitStatus { is_repo: false, branch: None, files });
    }
    match listed {
        Ok(raw) => {
            let files = status_entries(&raw);
            Ok(GitStatus { is_repo: true, branch, files })
        },
        Err(e) => Err(e),
    }
}

/// The status of the directory at `path`.
///
/// A directory that does not open as a repository yields `is_repo == false`,
/// no branch and no records; that is a success. Otherwise the result is
/// `status_from` of the branch HEAD names and whatever the status listing
/// (untracked files included, ignored ones not) reported.
pub fn get_repository_status(path: &str) -> (r: Result<GitStatus, String>)
    ensures
        r matches Ok(s) ==> (!s.is_repo ==> s.branch is None && s.files@.len() == 0),
        r matches Ok(s) ==> (s.is_repo ==> exists|raw: Seq<RawStatus>|
            views(s.files@) == #[trigger] records_of(raw)),
        r matches Ok(s) ==> untracked_unstaged(views(s.files@)),
{
    match open_repository(path) {
        Err(_) => status_from(false, None, Ok(Vec::new())),
        Ok(repo) => {
            let branch = match repo_head(&repo) {
                Some(head) => reference_shorthand(&head),
                None => None,
            };
            let listed = match status_list(&repo, true, true, false) {
                Ok(raw) => Ok(raw),
                Err(e) => Err(error_text(&e)),
            };
            status_from(true, branch, listed)
        },
    }
}

} // verus!
