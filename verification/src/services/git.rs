//! Paths and arguments of the Git operations on the applications root.
use vstd::prelude::*;
use crate::paths::{join, join_path, path_strip_prefix, strip_path_prefix};
use crate::text::{owned, string_views};

verus! {

/// `full` relative to `root`, or `full` itself when it is not under `root`.
pub open spec fn relative_path_spec(root: Seq<char>, full: Seq<char>) -> Seq<char> {
    match path_strip_prefix(root, full) {
        Some(rel) => rel,
        None => full,
    }
}

/// `full_path` relative to the repository root `repo_root`, or unchanged
/// when it is not under it.
pub fn relative_path(repo_root: &str, full_path: &str) -> (r: String)
    ensures
        r@ == relative_path_spec(repo_root@, full_path@),
{
    match strip_path_prefix(repo_root, full_path) {
        Some(rel) => rel,
        None => owned(full_path),
    }
}

/// The arguments of `git` that stage `target` in the repository `repo_root`.
pub open spec fn git_add_args_spec(repo_root: Seq<char>, target: Seq<char>) -> Seq<Seq<char>> {
    seq!["-C"@, repo_root, "add"@, relative_path_spec(repo_root, target)]
}

/// The arguments of `git` that stage `target` in the repository `repo_root`.
pub fn git_add_args(repo_root: &str, target: &str) -> (r: Vec<String>)
    ensures
        string_views(r@) == git_add_args_spec(repo_root@, target@),
{
    let r = vec![owned("-C"), owned(repo_root), owned("add"), relative_path(repo_root, target)];
    assert(string_views(r@) =~= git_add_args_spec(repo_root@, target@));
    r
}

/// The arguments of `git` that remove `target` recursively from the
/// repository `repo_root`, from the index only when `cached`.
pub open spec fn git_rm_args_spec(repo_root: Seq<char>, target: Seq<char>, cached: bool) -> Seq<Seq<char>> {
    let head = seq!["-C"@, repo_root, "rm"@, "-r"@];
    let flags = if cached {
        seq!["--cached"@]
    } else {
        Seq::empty()
    };
    head + flags + seq![relative_path_spec(repo_root, target)]
}

/// The arguments of `git` that remove `target` recursively.
pub fn git_rm_args(repo_root: &str, target: &str, cached: bool) -> (r: Vec<String>)
    ensures
        string_views(r@) == git_rm_args_spec(repo_root@, target@, cached),
{
    let mut r = vec![owned("-C"), owned(repo_root), owned("rm"), owned("-r")];
    if cached {
        r.push(owned("--cached"));
    }
    r.push(relative_path(repo_root, target));
    assert(string_views(r@) =~= git_rm_args_spec(repo_root@, target@, cached));
    r
}

/// The `.git` directory whose presence marks `path` as a repository.
pub fn git_dir(path: &str) -> (r: String)
    ensures
        r@ == join_path(path@, ".git"@),
{
    join(path, ".git")
}

/// The arguments of `git` that create a repository in `path`.
pub fn git_init_args(path: &str) -> (r: Vec<String>)
    ensures
        string_views(r@) == seq!["-C"@, path@, "init"@],
{
    let r = vec![owned("-C"), owned(path), owned("init")];
    assert(string_views(r@) =~= seq!["-C"@, path@, "init"@]);
    r
}

/// The arguments of `git` that commit in `repo_root` with `message`.
pub fn git_commit_args(repo_root: &str, message: &str) -> (r: Vec<String>)
    ensures
        string_views(r@) == seq!["-C"@, repo_root@, "commit"@, "-m"@, message@],
{
    let r = vec![owned("-C"), owned(repo_root), owned("commit"), owned("-m"), owned(message)];
    assert(string_views(r@) =~= seq!["-C"@, repo_root@, "commit"@, "-m"@, message@]);
    r
}

/// The commit message of an operation on an application:
/// `homespace: <operation> <name>`.
pub fn commit_message(operation: &str, app_name: &str) -> (r: String)
    ensures
        r@ == "homespace: "@ + operation@ + " "@ + app_name@,
{
    let mut r = owned("homespace: ");
    r.append(operation);
    r.append(" ");
    r.append(app_name);
    r
}

} // verus!
