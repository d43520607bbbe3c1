//! The command surface: one operation per supported action, each stateless
//! and independently invocable. Every operation resolves its own repository
//! handle and returns a plain result or a descriptive error.

use vstd::prelude::*;
use vstd::string::*;

use crate::errors::Error;
use crate::git;
use crate::git::BranchInfo;
use crate::git::LogEntry;
use crate::git::StatusEntry;
use crate::git_raw;

verus! {

/// Static descriptor of the running application.
#[derive(Debug)]
pub struct AppInfo {
    pub name: String,
    pub version: String,
    pub tauri_version: String,
}

/// Assemble the application descriptor: the fixed application name and the
/// given build and host-runtime versions.
pub fn app_info(version: String, tauri_version: String) -> (a: AppInfo)
    ensures
        a.name@ == "Gorgon Desktop"@,
        a.version == version,
        a.tauri_version == tauri_version,
{
    AppInfo { name: String::from_str("Gorgon Desktop"), version, tauri_version }
}

/// Report the repository status at `repo_path`.
pub fn git_status(repo_path: String) -> (r: Result<Vec<StatusEntry>, Error>)
    ensures
        r matches Ok(v) ==> forall|i: int|
            0 <= i < v@.len() ==> git::wf_status_entry(#[trigger] v@[i]),
        r matches Err(e) ==> e == Error::NoRepository || e is Git,
{
    let repo = match git::open_repo(repo_path.as_str()) {
        Ok(repo) => repo,
        Err(e) => return Err(e),
    };
    git::get_status(&repo)
}

/// Produce the patch text for the staged or unstaged changes at `repo_path`.
pub fn git_diff(repo_path: String, staged: bool) -> (r: Result<String, Error>)
    ensures
        r matches Err(e) ==> e == Error::NoRepository || e is Git,
{
    let repo = match git::open_repo(repo_path.as_str()) {
        Ok(repo) => repo,
        Err(e) => return Err(e),
    };
    git::get_diff(&repo, staged)
}

/// Commit the index at `repo_path`; on success the new commit's full
/// 40-character lowercase hex id.
pub fn git_commit(repo_path: String, message: String) -> (r: Result<String, Error>)
    ensures
        r matches Ok(id) ==> id@.len() == 40 && forall|i: int|
            0 <= i < 40 ==> git::is_lower_hex(#[trigger] id@[i]),
        r matches Err(e) ==> e == Error::NoRepository || e is Git || (e matches Error::Custom(m)
            && m@ == git::missing_identity_message()),
{
    let repo = match git::open_repo(repo_path.as_str()) {
        Ok(repo) => repo,
        Err(e) => return Err(e),
    };
    git::create_commit(&repo, message.as_str())
}

/// List all branches of the repository at `repo_path`.
pub fn git_branch(repo_path: String) -> (r: Result<Vec<BranchInfo>, Error>)
    ensures
        r matches Ok(v) ==> git::wf_branch_listing(v@),
        r matches Err(e) ==> e == Error::NoRepository || e is Git,
{
    let repo = match git::open_repo(repo_path.as_str()) {
        Ok(repo) => repo,
        Err(e) => return Err(e),
    };
    git::list_branches(&repo)
}

/// Check out the named local branch at `repo_path`.
pub fn git_checkout(repo_path: String, branch_name: String) -> (r: Result<(), Error>)
    ensures
        r matches Err(e) ==> e == Error::NoRepository || e is Git || (e matches Error::Custom(m)
            && m@ == git::invalid_reference_message()),
{
    let repo = match git::open_repo(repo_path.as_str()) {
        Ok(repo) => repo,
        Err(e) => return Err(e),
    };
    git::checkout_branch(&repo, branch_name.as_str())
}

/// The message when no current branch can be determined.
pub open spec fn no_current_branch_message() -> Seq<char> {
    "Cannot determine current branch"@
}

/// The remote a push or pull uses: the given one, `origin` by default.
pub fn resolve_remote(remote: Option<String>) -> (r: String)
    ensures
        r@ == match remote {
            Some(s) => s@,
            None => "origin"@,
        },
{
    match remote {
        Some(s) => s,
        None => String::from_str("origin"),
    }
}

/// Push the given (or current) branch to the given (or default) remote at
/// `repo_path`.
pub fn git_push(repo_path: String, remote: Option<String>, branch: Option<String>) -> (r: Result<
    (),
    Error,
>)
    ensures
        r matches Err(e) ==> e == Error::NoRepository || e is Git || (e matches Error::Custom(m)
            && m@ == no_current_branch_message()),
{
    let repo = match git::open_repo(repo_path.as_str()) {
        Ok(repo) => repo,
        Err(e) => return Err(e),
    };
    let remote_name = resolve_remote(remote);
    let branch_name = match branch {
        Some(b) => b,
        None => match git_raw::head_shorthand(&repo) {
            Ok(Some(h)) => h,
            Ok(None) => {
                return Err(Error::Custom(String::from_str("Cannot determine current branch")));
            },
            Err(e) => return Err(Error::Git(e)),
        },
    };
    git::push_branch(&repo, remote_name.as_str(), branch_name.as_str())
}

/// Pull the given (or current) branch from the given (or default) remote
/// at `repo_path`: fetch, then fast-forward or refuse.
pub fn git_pull(repo_path: String, remote: Option<String>, branch: Option<String>) -> (r: Result<
    (),
    Error,
>)
    ensures
        r matches Err(e) ==> e == Error::NoRepository || e is Git || (e matches Error::Custom(m)
            && (m@ == no_current_branch_message() || m@ == git::manual_merge_message())),
{
    let repo = match git::open_repo(repo_path.as_str()) {
        Ok(repo) => repo,
        Err(e) => return Err(e),
    };
    let remote_name = resolve_remote(remote);
    let branch_name = match branch {
        Some(b) => b,
        None => match git_raw::head_shorthand(&repo) {
            Ok(Some(h)) => h,
            Ok(None) => {
                return Err(Error::Custom(String::from_str("Cannot determine current branch")));
            },
            Err(e) => return Err(Error::Git(e)),
        },
    };
    git::pull_branch(&repo, remote_name.as_str(), branch_name.as_str())
}

/// The number of log entries a request asks for: the given count, 20 by
/// default.
pub open spec fn spec_log_count(count: Option<usize>) -> int {
    match count {
        Some(c) => c as int,
        None => 20,
    }
}

/// Walk the log at `repo_path`, newest first, at most the requested count
/// of entries (20 when unspecified).
pub fn git_log(repo_path: String, count: Option<usize>) -> (r: Result<Vec<LogEntry>, Error>)
    ensures
        r matches Ok(v) ==> v@.len() <= spec_log_count(count),
        r matches Err(e) ==> e == Error::NoRepository || e is Git,
{
    let repo = match git::open_repo(repo_path.as_str()) {
        Ok(repo) => repo,
        Err(e) => return Err(e),
    };
    let n: usize = match count {
        Some(c) => c,
        None => 20,
    };
    git::get_log(&repo, n)
}

/// Create a new local branch at `repo_path`'s current HEAD commit.
pub fn git_create_branch(repo_path: String, branch_name: String) -> (r: Result<(), Error>)
    ensures
        r matches Err(e) ==> e == Error::NoRepository || e is Git,
{
    let repo = match git::open_repo(repo_path.as_str()) {
        Ok(repo) => repo,
        Err(e) => return Err(e),
    };
    git::create_branch(&repo, branch_name.as_str())
}

} // verus!
