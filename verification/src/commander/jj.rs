//! The arguments of the jj commands that change the repository.
use vstd::prelude::*;

use crate::commander::branches::Branch;
use crate::commander::bookmarks::{ref_text, Bookmark};
use crate::commander::ids::CommitId;
use crate::strings::{args_from, owned, views};

verus! {

/// `jj new <revision>`: a new change after a revision.
pub fn new_args(revision: &str) -> (r: Vec<String>)
    ensures
        views(r@) == seq!["new"@, revision@],
{
    let r = args_from(&["new", revision]);
    r
}

/// `jj edit <revision>`: edit a change.
pub fn edit_args(revision: &str) -> (r: Vec<String>)
    ensures
        views(r@) == seq!["edit"@, revision@],
{
    args_from(&["edit", revision])
}

/// `jj abandon <commit>`: abandon a change.
pub fn abandon_args(commit_id: &CommitId) -> (r: Vec<String>)
    ensures
        views(r@) == seq!["abandon"@, commit_id@],
{
    args_from(&["abandon", commit_id.as_str()])
}

/// `jj describe <revision> -m <message>`: set a change's description.
pub fn describe_args(revision: &str, message: &str) -> (r: Vec<String>)
    ensures
        views(r@) == seq!["describe"@, revision@, "-m"@, message@],
{
    args_from(&["describe", revision, "-m", message])
}

/// `jj branch create <name>`: a branch at the working copy.
pub fn create_branch_args(name: &str) -> (r: Vec<String>)
    ensures
        views(r@) == seq!["branch"@, "create"@, name@],
{
    args_from(&["branch", "create", name])
}

/// `jj branch create <name> -r <commit>`: a branch at a commit.
pub fn create_branch_commit_args(name: &str, commit_id: &CommitId) -> (r: Vec<String>)
    ensures
        views(r@) == seq!["branch"@, "create"@, name@, "-r"@, commit_id@],
{
    args_from(&["branch", "create", name, "-r", commit_id.as_str()])
}

/// The branch that `jj branch create` makes: jj only creates local branches.
pub fn created_branch(name: &str) -> (r: Branch)
    ensures
        r@ == (name@, None::<Seq<char>>, true),
{
    Branch { name: owned(name), remote: None, present: true }
}

/// `jj branch set <name> -r <commit> --allow-backwards`: move a branch.
pub fn set_branch_commit_args(name: &str, commit_id: &CommitId) -> (r: Vec<String>)
    ensures
        views(r@) == seq!["branch"@, "set"@, name@, "-r"@, commit_id@, "--allow-backwards"@],
{
    args_from(&["branch", "set", name, "-r", commit_id.as_str(), "--allow-backwards"])
}

/// `jj branch rename <old> <new>`.
pub fn rename_branch_args(old: &str, new: &str) -> (r: Vec<String>)
    ensures
        views(r@) == seq!["branch"@, "rename"@, old@, new@],
{
    args_from(&["branch", "rename", old, new])
}

/// `jj branch delete <name>`.
pub fn delete_branch_args(name: &str) -> (r: Vec<String>)
    ensures
        views(r@) == seq!["branch"@, "delete"@, name@],
{
    args_from(&["branch", "delete", name])
}

/// `jj branch forget <name>`.
pub fn forget_branch_args(name: &str) -> (r: Vec<String>)
    ensures
        views(r@) == seq!["branch"@, "forget"@, name@],
{
    args_from(&["branch", "forget", name])
}

/// `jj branch track <branch>@<remote>`.
pub fn track_branch_args(branch: &Branch) -> (r: Vec<String>)
    ensures
        views(r@) == seq!["branch"@, "track"@, ref_text(branch@)],
{
    let b = branch.to_string();
    args_from(&["branch", "track", b.as_str()])
}

/// `jj branch untrack <branch>@<remote>`.
pub fn untrack_branch_args(branch: &Branch) -> (r: Vec<String>)
    ensures
        views(r@) == seq!["branch"@, "untrack"@, ref_text(branch@)],
{
    let b = branch.to_string();
    args_from(&["branch", "untrack", b.as_str()])
}

/// `jj git push`: all branches, or the branches of one commit.
pub fn git_push_args(all_branches: bool, commit_id: &CommitId) -> (r: Vec<String>)
    ensures
        views(r@) == if all_branches {
            seq!["git"@, "push"@, "--all"@]
        } else {
            seq!["git"@, "push"@, "-r"@, commit_id@]
        },
{
    if all_branches {
        args_from(&["git", "push", "--all"])
    } else {
        args_from(&["git", "push", "-r", commit_id.as_str()])
    }
}

/// `jj git fetch`, from all remotes when asked.
pub fn git_fetch_args(all_remotes: bool) -> (r: Vec<String>)
    ensures
        views(r@) == if all_remotes {
            seq!["git"@, "fetch"@, "--all-remotes"@]
        } else {
            seq!["git"@, "fetch"@]
        },
{
    if all_remotes {
        args_from(&["git", "fetch", "--all-remotes"])
    } else {
        args_from(&["git", "fetch"])
    }
}


/// `jj bookmark <verb> <name>`: create, delete or forget a bookmark.
pub fn bookmark_args(verb: &str, name: &str) -> (r: Vec<String>)
    ensures
        views(r@) == seq!["bookmark"@, verb@, name@],
{
    args_from(&["bookmark", verb, name])
}

/// `jj bookmark rename <old> <new>`.
pub fn rename_bookmark_args(old: &str, new: &str) -> (r: Vec<String>)
    ensures
        views(r@) == seq!["bookmark"@, "rename"@, old@, new@],
{
    args_from(&["bookmark", "rename", old, new])
}

/// `jj bookmark track|untrack <name>@<remote>`.
pub fn track_bookmark_args(bookmark: &Bookmark, track: bool) -> (r: Vec<String>)
    ensures
        views(r@) == seq!["bookmark"@, if track { "track"@ } else { "untrack"@ }, ref_text(bookmark@)],
{
    let verb: &str = if track { "track" } else { "untrack" };
    let mut r = args_from(&["bookmark", verb]);
    let t = bookmark.to_string();
    let ghost before = r@;
    r.push(t);
    assert(views(before) == seq!["bookmark"@, verb@]);
    assert(views(r@) =~= views(before).push(ref_text(bookmark@)));
    r
}

/// `jj bookmark set <name> -r <commit>`, moving it backwards if needed.
pub fn set_bookmark_args(name: &str, commit_id: &CommitId) -> (r: Vec<String>)
    ensures
        views(r@) == seq!["bookmark"@, "set"@, name@, "-r"@, commit_id@, "--allow-backwards"@],
{
    args_from(&["bookmark", "set", name, "-r", commit_id.as_str(), "--allow-backwards"])
}

/// The flag that lets a command change an immutable change, when asked.
pub open spec fn immutable_flag(ignore_immutable: bool) -> Seq<Seq<char>> {
    if ignore_immutable { seq!["--ignore-immutable"@] } else { seq![] }
}

/// `jj edit <revision>`, on an immutable change too when asked.
pub fn edit_ignoring_args(revision: &str, ignore_immutable: bool) -> (r: Vec<String>)
    ensures
        views(r@) == seq!["edit"@, revision@] + immutable_flag(ignore_immutable),
{
    if ignore_immutable {
        args_from(&["edit", revision, "--ignore-immutable"])
    } else {
        args_from(&["edit", revision])
    }
}

/// `jj squash --into <revision>`: the working copy into a change, an
/// immutable one too when asked.
pub fn squash_args(revision: &str, ignore_immutable: bool) -> (r: Vec<String>)
    ensures
        views(r@) == seq!["squash"@, "--into"@, revision@] + immutable_flag(ignore_immutable),
{
    if ignore_immutable {
        args_from(&["squash", "--into", revision, "--ignore-immutable"])
    } else {
        args_from(&["squash", "--into", revision])
    }
}

/// `jj git push`: every bookmark, or those of a commit; new bookmarks too
/// when allowed.
pub fn push_args(all_bookmarks: bool, allow_new: bool, commit_id: &CommitId) -> (r: Vec<String>)
    ensures
        views(r@) == (if all_bookmarks {
            seq!["git"@, "push"@, "--all"@]
        } else {
            seq!["git"@, "push"@, "-r"@, commit_id@]
        }) + (if allow_new { seq!["--allow-new"@] } else { seq![] }),
{
    let mut r = if all_bookmarks {
        args_from(&["git", "push", "--all"])
    } else {
        args_from(&["git", "push", "-r", commit_id.as_str()])
    };
    let ghost before = views(r@);
    if allow_new {
        r.push(owned("--allow-new"));
    }
    assert(views(r@) =~= before + (if allow_new { seq!["--allow-new"@] } else { seq![] }));
    r
}

} // verus!
