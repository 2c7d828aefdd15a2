//! Git worktrees, as the window is told of them.

use crate::commands::reply::{coded_reply, IpcResult};
use crate::outside::{json_string_list, json_strings};
use crate::text::concat2;
use vstd::prelude::*;
use vstd::std_specs::convert::FromSpecImpl;

verus! {

/// A worktree as git lists it.
#[derive(Debug, Clone)]
pub struct GitWorktreeEntry {
    pub name: String,
    pub branch: String,
    pub path: String,
    pub head_commit: String,
}

/// A worktree as the window is told of it.
#[derive(Debug, Clone)]
pub struct WorktreeInfo {
    pub name: String,
    pub branch: String,
    pub path: String,
    pub head_commit: String,
}

/// What the window is told of a worktree.
pub open spec fn worktree_told(entry: GitWorktreeEntry) -> WorktreeInfo {
    WorktreeInfo {
        name: entry.name,
        branch: entry.branch,
        path: entry.path,
        head_commit: entry.head_commit,
    }
}

impl From<GitWorktreeEntry> for WorktreeInfo {
    fn from(entry: GitWorktreeEntry) -> (r: Self) {
        WorktreeInfo {
            name: entry.name,
            branch: entry.branch,
            path: entry.path,
            head_commit: entry.head_commit,
        }
    }
}

impl FromSpecImpl<GitWorktreeEntry> for WorktreeInfo {
    open spec fn obeys_from_spec() -> bool {
        true
    }

    open spec fn from_spec(entry: GitWorktreeEntry) -> Self {
        worktree_told(entry)
    }
}

/// A branch as git lists it.
#[derive(Debug, Clone)]
pub struct BranchEntry {
    pub name: String,
    pub is_remote: bool,
    pub is_current: bool,
    pub upstream: Option<String>,
    pub has_other_worktree: bool,
}

/// A branch as the window is told of it.
#[derive(Debug, Clone)]
pub struct BranchInfo {
    pub name: String,
    pub is_remote: bool,
    pub is_current: bool,
    pub upstream: Option<String>,
    pub has_other_worktree: bool,
}

/// What the window is told of a branch.
pub open spec fn branch_told(entry: BranchEntry) -> BranchInfo {
    BranchInfo {
        name: entry.name,
        is_remote: entry.is_remote,
        is_current: entry.is_current,
        upstream: entry.upstream,
        has_other_worktree: entry.has_other_worktree,
    }
}

impl From<BranchEntry> for BranchInfo {
    fn from(entry: BranchEntry) -> (r: Self) {
        BranchInfo {
            name: entry.name,
            is_remote: entry.is_remote,
            is_current: entry.is_current,
            upstream: entry.upstream,
            has_other_worktree: entry.has_other_worktree,
        }
    }
}

impl FromSpecImpl<BranchEntry> for BranchInfo {
    open spec fn obeys_from_spec() -> bool {
        true
    }

    open spec fn from_spec(entry: BranchEntry) -> Self {
        branch_told(entry)
    }
}

/// A directory that git ignores, and whether it is there.
#[derive(Debug, Clone)]
pub struct GitignoreDirInfo {
    pub dir_name: String,
    pub exists: bool,
}

/// What came of linking a directory into a worktree.
#[derive(Debug, Clone)]
pub struct SymlinkResultInfo {
    pub path: String,
    pub target: String,
    pub status: String,
    pub reason: Option<String>,
}

/// What a merge would change.
#[derive(Debug, Clone)]
pub struct MergePreviewInfo {
    pub direction: String,
    pub source_branch: String,
    pub target_branch: String,
    pub conflict_files: Vec<ConflictFileInfo>,
    pub changed_files: Vec<String>,
    pub total_changes: usize,
    pub detection_mode: String,
}

/// A file in which a merge would conflict.
#[derive(Debug, Clone)]
pub struct ConflictFileInfo {
    pub path: String,
    pub severity: String,
    pub conflict_count: usize,
    pub is_lock_file: bool,
}

/// A failure of work on worktrees: its text and its code.
#[derive(Debug, Clone)]
pub struct WorktreeFailure {
    pub message: String,
    pub code: String,
}

/// The reply of a command on worktrees. `path` is the directory that the window
/// names, once it was checked, or why it was refused; `work` is what the work
/// there came to, and counts only where the directory was not refused.
pub fn worktree_reply<T>(path: Result<String, String>, work: Result<T, WorktreeFailure>) -> (r:
    IpcResult<T>)
    ensures
        r.well_formed(),
        match path {
            Err(reason) => r.fails_with(reason@, "PATH_VALIDATION_FAILED"@),
            Ok(_) => match work {
                Ok(data) => r.succeeds_with(data),
                Err(failure) => r.fails_with(failure.message@, failure.code@),
            },
        },
{
    match path {
        Err(reason) => IpcResult::error(reason, "PATH_VALIDATION_FAILED"),
        Ok(_) => match work {
            Ok(data) => coded_reply(Ok(data)),
            Err(failure) => coded_reply(Err((failure.message, failure.code))),
        },
    }
}

/// The worktrees as the window is told of them, in the order in which git lists
/// them.
pub fn worktree_list(entries: Vec<GitWorktreeEntry>) -> (r: Vec<WorktreeInfo>)
    ensures
        r@ == entries@.map_values(|entry: GitWorktreeEntry| worktree_told(entry)),
{
    let ghost all = entries@;
    let mut r: Vec<WorktreeInfo> = Vec::new();
    for entry in it: entries
        invariant
            it.seq() == all,
            r.len() == it.index(),
            forall|i: int| 0 <= i < r.len() ==> #[trigger] r@[i] == worktree_told(all[i]),
    {
        r.push(WorktreeInfo::from(entry));
    }
    assert(r@ =~= all.map_values(|entry: GitWorktreeEntry| worktree_told(entry)));
    r
}

/// The branches as the window is told of them, in the order in which git lists
/// them.
pub fn worktree_branches(entries: Vec<BranchEntry>) -> (r: Vec<BranchInfo>)
    ensures
        r@ == entries@.map_values(|entry: BranchEntry| branch_told(entry)),
{
    let ghost all = entries@;
    let mut r: Vec<BranchInfo> = Vec::new();
    for entry in it: entries
        invariant
            it.seq() == all,
            r.len() == it.index(),
            forall|i: int| 0 <= i < r.len() ==> #[trigger] r@[i] == branch_told(all[i]),
    {
        r.push(BranchInfo::from(entry));
    }
    assert(r@ =~= all.map_values(|entry: BranchEntry| branch_told(entry)));
    r
}

// ==================== Directories to link ====================

/// What is made of the list of directories to link, once it was parsed: the
/// directories, or a failure.
pub fn parsed_symlink_dirs(parsed: Result<Vec<String>, String>) -> (r: Result<
    Vec<String>,
    WorktreeFailure,
>)
    ensures
        match parsed {
            Ok(dirs) => r matches Ok(list) && list == dirs,
            Err(reason) => r matches Err(failure) && failure.message@
                == "Failed to parse symlink_dirs: "@ + reason@ && failure.code@
                == "PARSE_FAILED"@,
        },
{
    match parsed {
        Ok(dirs) => Ok(dirs),
        Err(reason) => Err(
            WorktreeFailure {
                message: concat2("Failed to parse symlink_dirs: ", &reason),
                code: "PARSE_FAILED".to_string(),
            },
        ),
    }
}

/// The directories to link that the window lists as a JSON array, or a failure.
pub fn symlink_dirs(json: &str) -> (r: Result<Vec<String>, WorktreeFailure>)
    ensures
        match json_strings(json@) {
            Ok(dirs) => r matches Ok(list) && list.deep_view() == dirs,
            Err(reason) => r matches Err(failure) && failure.message@
                == "Failed to parse symlink_dirs: "@ + reason && failure.code@ == "PARSE_FAILED"@,
        },
{
    parsed_symlink_dirs(json_string_list(json))
}

// ==================== Laws ====================

/// A worktree is told as git lists it, field by field.
pub proof fn law_worktree_is_told_as_listed(entry: GitWorktreeEntry)
    ensures
        worktree_told(entry).name == entry.name,
        worktree_told(entry).branch == entry.branch,
        worktree_told(entry).path == entry.path,
        worktree_told(entry).head_commit == entry.head_commit,
{
}

/// A branch is told as git lists it, field by field.
pub proof fn law_branch_is_told_as_listed(entry: BranchEntry)
    ensures
        branch_told(entry).name == entry.name,
        branch_told(entry).is_remote == entry.is_remote,
        branch_told(entry).is_current == entry.is_current,
        branch_told(entry).upstream == entry.upstream,
        branch_told(entry).has_other_worktree == entry.has_other_worktree,
{
}

} // verus!
