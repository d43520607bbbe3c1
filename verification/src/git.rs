//! The git facade: status, diff, commit, log, branches, checkout, push
//! and pull over a repository handle, each operation independent of the
//! others. All decision logic — flag classification, the pull decision,
//! name defaulting, refspec construction — is verified here; the calls
//! into the git library stand behind the trusted wrappers of `git_raw`.

use vstd::prelude::*;
use vstd::string::*;

use crate::errors::Error;
use crate::git_raw;
use crate::text::contains_seq;
use crate::text::matches_at;

verus! {

/// One changed path in a repository.
#[derive(Debug)]
pub struct StatusEntry {
    pub path: String,
    pub status: String,
    pub staged: bool,
}

/// One commit of the log.
#[derive(Debug)]
pub struct LogEntry {
    pub id: String,
    pub message: String,
    pub author: String,
    pub time: i64,
}

/// One branch, local or remote.
#[derive(Debug)]
pub struct BranchInfo {
    pub name: String,
    pub is_current: bool,
    pub is_remote: bool,
}

/// The plain flag bits of one status entry, as the git library exposes
/// them through its accessors.
#[derive(Debug, Clone, Copy, PartialEq, Eq, Structural)]
pub struct StatusFlags {
    pub index_new: bool,
    pub index_modified: bool,
    pub index_deleted: bool,
    pub index_renamed: bool,
    pub wt_new: bool,
    pub wt_modified: bool,
    pub wt_deleted: bool,
    pub wt_renamed: bool,
    pub conflicted: bool,
}

/// The two merge-analysis outcomes the pull decision reads.
#[derive(Debug, Clone, Copy, PartialEq, Eq, Structural)]
pub struct MergeFlags {
    pub fast_forward: bool,
    pub normal: bool,
}

/// A lowercase hexadecimal digit.
pub open spec fn is_lower_hex(c: char) -> bool {
    ('0' <= c && c <= '9') || ('a' <= c && c <= 'f')
}

/// The status label of an entry, by the classification precedence:
/// new in the index, then modified, deleted, renamed (index or worktree),
/// then worktree-new as untracked, then conflicted, else unknown.
pub open spec fn spec_status_label(f: StatusFlags) -> Seq<char> {
    if f.index_new {
        "new"@
    } else if f.index_modified || f.wt_modified {
        "modified"@
    } else if f.index_deleted || f.wt_deleted {
        "deleted"@
    } else if f.index_renamed || f.wt_renamed {
        "renamed"@
    } else if f.wt_new {
        "untracked"@
    } else if f.conflicted {
        "conflicted"@
    } else {
        "unknown"@
    }
}

/// An entry is staged exactly when it is new, modified, deleted or renamed
/// in the index.
pub open spec fn spec_staged(f: StatusFlags) -> bool {
    f.index_new || f.index_modified || f.index_deleted || f.index_renamed
}

/// Classify one entry's flags into its status label.
pub fn status_label(f: StatusFlags) -> (r: &'static str)
    ensures
        r@ == spec_status_label(f),
{
    if f.index_new {
        "new"
    } else if f.index_modified || f.wt_modified {
        "modified"
    } else if f.index_deleted || f.wt_deleted {
        "deleted"
    } else if f.index_renamed || f.wt_renamed {
        "renamed"
    } else if f.wt_new {
        "untracked"
    } else if f.conflicted {
        "conflicted"
    } else {
        "unknown"
    }
}

/// The view of an optional string, the empty sequence when absent.
pub open spec fn spec_opt_str(s: Option<String>) -> Seq<char> {
    match s {
        Some(p) => p@,
        None => Seq::<char>::empty(),
    }
}

/// The given string, or empty when absent.
fn opt_or_empty(s: Option<String>) -> (r: String)
    ensures
        r@ == spec_opt_str(s),
{
    match s {
        Some(p) => p,
        None => String::new(),
    }
}

/// A status entry is well formed when its label and staged flag are the
/// classification of one and the same set of flags.
pub open spec fn wf_status_entry(e: StatusEntry) -> bool {
    exists|f: StatusFlags|
        e.status@ == spec_status_label(f) && e.staged == spec_staged(f)
}

/// Build one status entry from an entry's path and flags.
pub fn status_entry_from(path: Option<String>, f: StatusFlags) -> (e: StatusEntry)
    ensures
        e.path@ == spec_opt_str(path),
        e.status@ == spec_status_label(f),
        e.staged == spec_staged(f),
        wf_status_entry(e),
{
    let e = StatusEntry {
        path: opt_or_empty(path),
        status: String::from_str(status_label(f)),
        staged: f.index_new || f.index_modified || f.index_deleted || f.index_renamed,
    };
    proof {
        assert(e.status@ == spec_status_label(f) && e.staged == spec_staged(f));
    }
    e
}

/// Discover the repository enclosing `path`.
///
/// The only failure is that no repository encloses the path.
pub fn open_repo(path: &str) -> (r: Result<git2::Repository, Error>)
    ensures
        r matches Err(e) ==> e == Error::NoRepository,
{
    match git_raw::discover_repo(path) {
        Ok(repo) => Ok(repo),
        Err(_) => Err(Error::NoRepository),
    }
}

/// Enumerate working-tree and index changes, untracked files included,
/// ignored files excluded. Every returned entry carries the label and
/// staged flag classified from one set of underlying status flags.
pub fn get_status(repo: &git2::Repository) -> (r: Result<Vec<StatusEntry>, Error>)
    ensures
        r matches Ok(v) ==> forall|i: int| 0 <= i < v@.len() ==> wf_status_entry(#[trigger] v@[i]),
        r matches Err(e) ==> e is Git,
{
    let raw = match git_raw::status_raw(repo) {
        Ok(raw) => raw,
        Err(e) => return Err(Error::Git(e)),
    };
    let mut entries: Vec<StatusEntry> = Vec::new();
    let mut i: usize = 0;
    let n = raw.len();
    while i < n
        invariant
            n == raw@.len(),
            i <= n,
            forall|k: int| 0 <= k < entries@.len() ==> wf_status_entry(#[trigger] entries@[k]),
        decreases n - i,
    {
        let (path, flags) = read_status_item(&raw, i);
        entries.push(status_entry_from(path, flags));
        i += 1;
    }
    Ok(entries)
}

/// Copy the `i`-th raw status item out of the vector.
fn read_status_item(
    raw: &Vec<(Option<String>, StatusFlags)>,
    i: usize,
) -> (r: (Option<String>, StatusFlags))
    requires
        i < raw@.len(),
    ensures
        r == raw@[i as int],
{
    let item = &raw[i];
    (clone_opt_string(&item.0), item.1)
}

/// Clone an optional string; the value is preserved exactly.
fn clone_opt_string(s: &Option<String>) -> (r: Option<String>)
    ensures
        r == *s,
{
    match s {
        Some(x) => Some(x.clone()),
        None => None,
    }
}

/// The prefix a printed diff line carries, by its origin marker: content
/// lines keep their `+`, `-` or space marker, other line kinds none.
pub open spec fn spec_diff_line_prefix(origin: char) -> Seq<char> {
    if origin == '+' {
        "+"@
    } else if origin == '-' {
        "-"@
    } else if origin == ' ' {
        " "@
    } else {
        ""@
    }
}

/// Choose the prefix for one printed diff line.
pub fn diff_line_prefix(origin: char) -> (r: &'static str)
    ensures
        r@ == spec_diff_line_prefix(origin),
{
    if origin == '+' {
        "+"
    } else if origin == '-' {
        "-"
    } else if origin == ' ' {
        " "
    } else {
        ""
    }
}

/// Produce a unified patch text: HEAD tree against index when `staged`,
/// otherwise index against working directory with untracked files.
pub fn get_diff(repo: &git2::Repository, staged: bool) -> (r: Result<String, Error>)
    ensures
        r matches Err(e) ==> e is Git,
{
    let text = if staged {
        git_raw::diff_staged_text(repo)
    } else {
        git_raw::diff_workdir_text(repo)
    };
    match text {
        Ok(s) => Ok(s),
        Err(e) => Err(Error::Git(e)),
    }
}

/// The error message when no author identity is configured.
pub open spec fn missing_identity_message() -> Seq<char> {
    "Git user not configured. Run 'git config user.name' and 'git config user.email'"@
}

/// The missing-identity error names the configuration: its message
/// contains the word `config`.
pub proof fn lemma_missing_identity_mentions_config()
    ensures
        contains_seq(missing_identity_message(), "config"@),
{
    reveal_strlit("Git user not configured. Run 'git config user.name' and 'git config user.email'");
    reveal_strlit("config");
    assert(matches_at(missing_identity_message(), "config"@, 13)) by {
        assert(missing_identity_message().subrange(13, 19) =~= "config"@);
    }
}

/// Commit the current index on HEAD.
///
/// Fails with a configuration message when no author identity is
/// configured; on success returns the new commit's full 40-character
/// lowercase hex id.
pub fn create_commit(repo: &git2::Repository, message: &str) -> (r: Result<String, Error>)
    ensures
        r matches Ok(id) ==> id@.len() == 40 && forall|i: int|
            0 <= i < 40 ==> is_lower_hex(#[trigger] id@[i]),
        r matches Err(e) ==> e is Git || (e matches Error::Custom(m) && m@
            == missing_identity_message()),
{
    let sig = match git_raw::signature_of(repo) {
        Ok(s) => s,
        Err(_) => {
            return Err(Error::Custom(String::from_str(
                "Git user not configured. Run 'git config user.name' and 'git config user.email'",
            )));
        },
    };
    match git_raw::commit_on_head(repo, &sig, message) {
        Ok(oid) => Ok(git_raw::oid_hex(&oid)),
        Err(e) => Err(Error::Git(e)),
    }
}

/// The first eight characters of a full commit id.
pub fn short_id(full: &str) -> (r: String)
    requires
        full@.len() >= 8,
    ensures
        r@ == full@.subrange(0, 8),
{
    String::from_str(full.substring_char(0, 8))
}

/// A log entry's id is an abbreviated commit id: exactly eight lowercase
/// hexadecimal characters.
pub open spec fn wf_log_entry(e: LogEntry) -> bool {
    e.id@.len() == 8 && forall|j: int| 0 <= j < 8 ==> is_lower_hex(#[trigger] e.id@[j])
}

/// Walk the log from HEAD, newest first in the library's traversal order,
/// stopping after `count` entries. Each entry's id is the first eight hex
/// characters of its commit id; summary and author default to empty.
pub fn get_log(repo: &git2::Repository, count: usize) -> (r: Result<Vec<LogEntry>, Error>)
    ensures
        r matches Ok(v) ==> v@.len() <= count && forall|i: int|
            0 <= i < v@.len() ==> wf_log_entry(#[trigger] v@[i]),
        r matches Err(e) ==> e is Git,
{
    let oids = match git_raw::head_oids(repo) {
        Ok(o) => o,
        Err(e) => return Err(Error::Git(e)),
    };
    let n = if count < oids.len() {
        count
    } else {
        oids.len()
    };
    let mut entries: Vec<LogEntry> = Vec::new();
    let mut i: usize = 0;
    while i < n
        invariant
            n <= count,
            n <= oids@.len(),
            i <= n,
            entries@.len() == i,
            forall|k: int| 0 <= k < entries@.len() ==> wf_log_entry(#[trigger] entries@[k]),
        decreases n - i,
    {
        let oid = oids[i];
        let (summary, author, time) = match git_raw::commit_info(repo, oid) {
            Ok(info) => info,
            Err(e) => return Err(Error::Git(e)),
        };
        let full = git_raw::oid_hex(&oid);
        let entry = LogEntry {
            id: short_id(full.as_str()),
            message: opt_or_empty(summary),
            author: opt_or_empty(author),
            time,
        };
        proof {
            assert(forall|j: int| 0 <= j < 8 ==> entry.id@[j] == full@.subrange(0, 8)[j]);
            assert(wf_log_entry(entry));
        }
        entries.push(entry);
        i += 1;
    }
    Ok(entries)
}

/// Build one branch description: a branch is current exactly when it is
/// local and its name equals the current head name.
pub fn branch_info_from(name: Option<String>, is_remote: bool, current: &String) -> (b: BranchInfo)
    ensures
        b.name@ == spec_opt_str(name),
        b.is_remote == is_remote,
        b.is_current == (!is_remote && spec_opt_str(name) == current@),
{
    let n = opt_or_empty(name);
    let is_current = !is_remote && n == *current;
    BranchInfo { name: n, is_current, is_remote }
}

/// A branch listing is governed by one head name `cur`: an entry is
/// current exactly when it is local and its name equals `cur`; so remote
/// branches are never current.
pub open spec fn branches_consistent(v: Seq<BranchInfo>, cur: Seq<char>) -> bool {
    forall|i: int|
        0 <= i < v.len() ==> (#[trigger] v[i]).is_current == (!v[i].is_remote && v[i].name@ == cur)
}

/// A branch listing is well formed when one head name governs it all.
pub open spec fn wf_branch_listing(v: Seq<BranchInfo>) -> bool {
    exists|cur: Seq<char>| branches_consistent(v, cur)
}

/// Enumerate all local and remote branches. One head name governs the
/// whole listing; remote branches are never current.
pub fn list_branches(repo: &git2::Repository) -> (r: Result<Vec<BranchInfo>, Error>)
    ensures
        r matches Ok(v) ==> wf_branch_listing(v@),
        r matches Err(e) ==> e is Git,
{
    let raw = match git_raw::branch_list_raw(repo) {
        Ok(raw) => raw,
        Err(e) => return Err(Error::Git(e)),
    };
    let current = opt_or_empty(match git_raw::head_shorthand(repo) {
        Ok(name) => name,
        Err(_) => None,
    });
    let mut infos: Vec<BranchInfo> = Vec::new();
    let n = raw.len();
    let mut i: usize = 0;
    while i < n
        invariant
            n == raw@.len(),
            i <= n,
            forall|k: int| 0 <= k < infos@.len() ==> (#[trigger] infos@[k]).is_current == (
            !infos@[k].is_remote && infos@[k].name@ == current@),
        decreases n - i,
    {
        let (name, is_remote) = read_branch_item(&raw, i);
        infos.push(branch_info_from(name, is_remote, &current));
        i += 1;
    }
    proof {
        assert(wf_branch_listing(infos@)) by {
            assert(branches_consistent(infos@, current@));
        }
    }
    Ok(infos)
}

/// Copy the `i`-th raw branch item out of the vector.
fn read_branch_item(raw: &Vec<(Option<String>, bool)>, i: usize) -> (r: (Option<String>, bool))
    requires
        i < raw@.len(),
    ensures
        r == raw@[i as int],
{
    let item = &raw[i];
    (clone_opt_string(&item.0), item.1)
}

/// The message when a branch reference has no valid name.
pub open spec fn invalid_reference_message() -> Seq<char> {
    "Invalid branch reference"@
}

/// Check out a local branch: update the working tree to its tree, then
/// repoint HEAD at its reference.
pub fn checkout_branch(repo: &git2::Repository, branch_name: &str) -> (r: Result<(), Error>)
    ensures
        r matches Err(e) ==> e is Git || (e matches Error::Custom(m) && m@
            == invalid_reference_message()),
{
    let reference = match git_raw::find_local_branch_ref(repo, branch_name) {
        Ok(reference) => reference,
        Err(e) => return Err(Error::Git(e)),
    };
    if let Err(e) = git_raw::checkout_ref_tree(repo, &reference) {
        return Err(Error::Git(e));
    }
    let refname = match git_raw::reference_name(&reference) {
        Some(n) => n,
        None => return Err(Error::Custom(String::from_str("Invalid branch reference"))),
    };
    match git_raw::set_head_ref(repo, refname.as_str()) {
        Ok(()) => Ok(()),
        Err(e) => Err(Error::Git(e)),
    }
}

/// Create a new local branch at the current HEAD commit; fails when a
/// branch with that name already exists.
pub fn create_branch(repo: &git2::Repository, branch_name: &str) -> (r: Result<(), Error>)
    ensures
        r matches Err(e) ==> e is Git,
{
    match git_raw::create_branch_raw(repo, branch_name) {
        Ok(()) => Ok(()),
        Err(e) => Err(Error::Git(e)),
    }
}

/// The full reference name of a local branch.
pub open spec fn spec_branch_refname(branch: Seq<char>) -> Seq<char> {
    "refs/heads/"@ + branch
}

/// The same-name refspec a push uses.
pub open spec fn spec_refspec(branch: Seq<char>) -> Seq<char> {
    "refs/heads/"@ + branch + ":refs/heads/"@ + branch
}

/// Build the full reference name of a local branch.
pub fn branch_refname(branch: &str) -> (r: String)
    ensures
        r@ == spec_branch_refname(branch@),
{
    let mut r = String::from_str("refs/heads/");
    r.append(branch);
    r
}

/// Build the same-name refspec for a branch.
pub fn make_refspec(branch: &str) -> (r: String)
    ensures
        r@ == spec_refspec(branch@),
{
    let mut r = String::from_str("refs/heads/");
    r.append(branch);
    r.append(":refs/heads/");
    r.append(branch);
    r
}

/// Push the named branch to the named remote under a same-name refspec.
pub fn push_branch(repo: &git2::Repository, remote_name: &str, branch_name: &str) -> (r: Result<
    (),
    Error,
>)
    ensures
        r matches Err(e) ==> e is Git,
{
    let refspec = make_refspec(branch_name);
    match git_raw::remote_push(repo, remote_name, refspec.as_str()) {
        Ok(()) => Ok(()),
        Err(e) => Err(Error::Git(e)),
    }
}

/// What a pull does once the merge analysis is known.
#[derive(Debug, Clone, Copy, PartialEq, Eq, Structural)]
pub enum PullAction {
    /// Move the local branch reference to the fetched commit and force the
    /// working tree to match.
    FastForward,
    /// Refuse: a normal merge would be required, which pull never attempts.
    RejectManualMerge,
    /// Nothing to do (already up to date, or nothing applicable).
    NoOp,
}

/// The pull decision: fast-forward when possible; an explicit refusal when
/// a normal merge would be required; otherwise a no-op.
pub open spec fn spec_decide_pull(f: MergeFlags) -> PullAction {
    if f.fast_forward {
        PullAction::FastForward
    } else if f.normal {
        PullAction::RejectManualMerge
    } else {
        PullAction::NoOp
    }
}

/// Decide what a pull does from the merge-analysis flags.
pub fn decide_pull(f: MergeFlags) -> (a: PullAction)
    ensures
        a == spec_decide_pull(f),
{
    if f.fast_forward {
        PullAction::FastForward
    } else if f.normal {
        PullAction::RejectManualMerge
    } else {
        PullAction::NoOp
    }
}

/// The message a rejected non-fast-forward pull carries.
pub open spec fn manual_merge_message() -> Seq<char> {
    "Manual merge required - non-fast-forward"@
}

/// Fetch the named branch from the named remote, then fast-forward the
/// local branch when possible; a normal (non-fast-forward) merge is
/// refused with an explicit message rather than attempted.
pub fn pull_branch(repo: &git2::Repository, remote_name: &str, branch_name: &str) -> (r: Result<
    (),
    Error,
>)
    ensures
        r matches Err(e) ==> e is Git || (e matches Error::Custom(m) && m@
            == manual_merge_message()),
{
    if let Err(e) = git_raw::remote_fetch(repo, remote_name, branch_name) {
        return Err(Error::Git(e));
    }
    let fetched = match git_raw::fetch_head_commit(repo) {
        Ok(c) => c,
        Err(e) => return Err(Error::Git(e)),
    };
    let flags = match git_raw::merge_analysis_flags(repo, &fetched) {
        Ok(f) => f,
        Err(e) => return Err(Error::Git(e)),
    };
    match decide_pull(flags) {
        PullAction::FastForward => {
            let refname = branch_refname(branch_name);
            let oid = git_raw::annotated_oid(&fetched);
            if let Err(e) = git_raw::fast_forward_ref(repo, refname.as_str(), oid, "Fast-forward") {
                return Err(Error::Git(e));
            }
            match git_raw::checkout_head_force(repo) {
                Ok(()) => Ok(()),
                Err(e) => Err(Error::Git(e)),
            }
        },
        PullAction::RejectManualMerge => Err(Error::Custom(String::from_str(
            "Manual merge required - non-fast-forward",
        ))),
        PullAction::NoOp => Ok(()),
    }
}

} // verus!
