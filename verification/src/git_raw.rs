//! Trusted surface over the git library: opaque type declarations and thin
//! call wrappers. Each wrapper's body holds one call sequence of the library
//! and the conversions of its arguments and result, nothing else; a failure
//! is converted to the library's own display text. Each contract states
//! only what the library's source shows of the call.

use vstd::prelude::*;

use crate::git::MergeFlags;
use crate::git::StatusFlags;
use crate::git::is_lower_hex;

verus! {

#[verifier::external_type_specification]
#[verifier::external_body]
pub struct ExRepository(git2::Repository);

#[verifier::external_type_specification]
#[verifier::external_body]
pub struct ExOid(git2::Oid);

#[verifier::external_type_specification]
#[verifier::external_body]
pub struct ExSignature<'a>(git2::Signature<'a>);

#[verifier::external_type_specification]
#[verifier::external_body]
pub struct ExReference<'a>(git2::Reference<'a>);

#[verifier::external_type_specification]
#[verifier::external_body]
pub struct ExAnnotatedCommit<'a>(git2::AnnotatedCommit<'a>);

/// Relies on `git2::Repository::discover`: walks upward from the given path
/// to the nearest enclosing repository.
#[verifier::external_body]
pub(crate) fn discover_repo(path: &str) -> Result<git2::Repository, String> {
    git2::Repository::discover(path).map_err(|e| e.to_string())
}

/// Relies on `git2::Repository::statuses` with untracked files included
/// (recursing into untracked directories) and ignored files excluded; each
/// entry is converted to its path and the plain flag bits the library
/// exposes through the `is_*` accessors of `git2::Status`.
#[verifier::external_body]
pub(crate) fn status_raw(
    repo: &git2::Repository,
) -> Result<Vec<(Option<String>, StatusFlags)>, String> {
    let mut opts = git2::StatusOptions::new();
    opts.include_untracked(true).recurse_untracked_dirs(true).include_ignored(false);
    let mut out = Vec::new();
    for e in repo.statuses(Some(&mut opts)).map_err(|e| e.to_string())?.iter() {
        let s = e.status();
        out.push((e.path().ok().map(str::to_string), StatusFlags {
            index_new: s.is_index_new(), index_modified: s.is_index_modified(),
            index_deleted: s.is_index_deleted(), index_renamed: s.is_index_renamed(),
            wt_new: s.is_wt_new(), wt_modified: s.is_wt_modified(),
            wt_deleted: s.is_wt_deleted(), wt_renamed: s.is_wt_renamed(),
            conflicted: s.is_conflicted() }));
    }
    Ok(out)
}

/// Relies on `git2::Repository::diff_tree_to_index` between the HEAD tree
/// and the index, printed in patch format; each content line is prefixed
/// by `crate::git::diff_line_prefix` of its origin.
#[verifier::external_body]
pub(crate) fn diff_staged_text(repo: &git2::Repository) -> Result<String, String> {
    let mut opts = git2::DiffOptions::new();
    opts.include_untracked(true);
    let mut out = String::new();
    let head = repo.head().and_then(|h| h.peel_to_tree()).map_err(|e| e.to_string())?;
    let index = repo.index().map_err(|e| e.to_string())?;
    let diff = repo.diff_tree_to_index(Some(&head), Some(&index), Some(&mut opts))
        .map_err(|e| e.to_string())?;
    diff.print(git2::DiffFormat::Patch, |_d, _h, line| {
        out.push_str(crate::git::diff_line_prefix(line.origin()));
        out.push_str(&String::from_utf8_lossy(line.content()));
        true
    }).map_err(|e| e.to_string())?;
    Ok(out)
}

/// Relies on `git2::Repository::diff_index_to_workdir` with untracked files
/// included, printed in patch format; each content line is prefixed by
/// `crate::git::diff_line_prefix` of its origin.
#[verifier::external_body]
pub(crate) fn diff_workdir_text(repo: &git2::Repository) -> Result<String, String> {
    let mut opts = git2::DiffOptions::new();
    opts.include_untracked(true);
    let mut out = String::new();
    repo.diff_index_to_workdir(None, Some(&mut opts))
        .and_then(|diff| {
            diff.print(git2::DiffFormat::Patch, |_d, _h, line| {
                out.push_str(crate::git::diff_line_prefix(line.origin()));
                out.push_str(&String::from_utf8_lossy(line.content()));
                true
            })
        })
        .map_err(|e| e.to_string())?;
    Ok(out)
}

/// Relies on `git2::Repository::signature`: the configured author identity,
/// an error when name or email is not configured.
#[verifier::external_body]
pub(crate) fn signature_of(
    repo: &git2::Repository,
) -> Result<git2::Signature<'static>, String> {
    repo.signature().map_err(|e| e.to_string())
}

/// Relies on `git2::Index::write_tree`, `git2::Repository::find_tree`,
/// `git2::Repository::commit`: writes the index as a tree and commits it
/// on HEAD with the current HEAD commit as sole parent, the given identity
/// as both author and committer.
#[verifier::external_body]
pub(crate) fn commit_on_head(
    repo: &git2::Repository,
    sig: &git2::Signature<'_>,
    message: &str,
) -> Result<git2::Oid, String> {
    repo.index()
        .and_then(|mut index| index.write_tree())
        .and_then(|tree_id| {
            let tree = repo.find_tree(tree_id)?;
            let parent = repo.head()?.peel_to_commit()?;
            repo.commit(Some("HEAD"), sig, sig, message, &tree, &[&parent])
        })
        .map_err(|e| e.to_string())
}

/// Relies on `git2::Oid`'s hex formatting: an object id renders as exactly
/// 40 lowercase hexadecimal characters.
#[verifier::external_body]
pub(crate) fn oid_hex(oid: &git2::Oid) -> (r: String)
    ensures
        r@.len() == 40,
        forall|i: int| 0 <= i < 40 ==> is_lower_hex(#[trigger] r@[i]),
{
    oid.to_string()
}

/// Relies on `git2::Repository::revwalk` pushed at HEAD: the walked commit
/// ids, in the library's default traversal order.
#[verifier::external_body]
pub(crate) fn head_oids(repo: &git2::Repository) -> Result<Vec<git2::Oid>, String> {
    repo.revwalk()
        .and_then(|mut rw| {
            rw.push_head()?;
            rw.collect::<Result<Vec<git2::Oid>, git2::Error>>()
        })
        .map_err(|e| e.to_string())
}

/// Relies on `git2::Repository::find_commit`: the commit's one-line summary,
/// its author's display name, and its commit time in epoch seconds.
#[verifier::external_body]
pub(crate) fn commit_info(
    repo: &git2::Repository,
    oid: git2::Oid,
) -> Result<(Option<String>, Option<String>, i64), String> {
    let c = repo.find_commit(oid).map_err(|e| e.to_string())?;
    let summary = c.summary().ok().flatten().map(str::to_string);
    let author = c.author().name().ok().map(str::to_string);
    let time = c.time().seconds();
    Ok((summary, author, time))
}

/// Relies on `git2::Repository::branches` over both local and remote
/// branches; each is converted to its name and whether it is remote.
#[verifier::external_body]
pub(crate) fn branch_list_raw(
    repo: &git2::Repository,
) -> Result<Vec<(Option<String>, bool)>, String> {
    let mut out = Vec::new();
    for b in repo.branches(None).map_err(|e| e.to_string())? {
        let (branch, ty) = b.map_err(|e| e.to_string())?;
        let name = branch.name().map_err(|e| e.to_string())?;
        out.push((name.map(str::to_string), ty == git2::BranchType::Remote));
    }
    Ok(out)
}

/// Relies on `git2::Repository::head` and `git2::Reference::shorthand`:
/// the head reference's short name; an error when HEAD is unresolvable,
/// absent when the name is not valid UTF-8.
#[verifier::external_body]
pub(crate) fn head_shorthand(repo: &git2::Repository) -> Result<Option<String>, String> {
    let h = repo.head().map_err(|e| e.to_string())?;
    Ok(h.shorthand().ok().map(str::to_string))
}

/// Relies on `git2::Repository::find_branch` over local branches, taken as
/// its underlying reference.
#[verifier::external_body]
pub(crate) fn find_local_branch_ref<'r>(
    repo: &'r git2::Repository,
    name: &str,
) -> Result<git2::Reference<'r>, String> {
    repo.find_branch(name, git2::BranchType::Local)
        .map(|b| b.into_reference())
        .map_err(|e| e.to_string())
}

/// Relies on `git2::Reference::peel_to_tree` and
/// `git2::Repository::checkout_tree`: updates the working tree to the
/// reference's tree with default checkout options.
#[verifier::external_body]
pub(crate) fn checkout_ref_tree(
    repo: &git2::Repository,
    reference: &git2::Reference<'_>,
) -> Result<(), String> {
    reference
        .peel_to_tree()
        .and_then(|tree| repo.checkout_tree(tree.as_object(), None))
        .map_err(|e| e.to_string())
}

/// Relies on `git2::Reference::name`: the reference's full name, when it
/// is valid UTF-8.
#[verifier::external_body]
pub(crate) fn reference_name(reference: &git2::Reference<'_>) -> Option<String> {
    reference.name().ok().map(str::to_string)
}

/// Relies on `git2::Repository::set_head`: repoints HEAD at the named
/// reference.
#[verifier::external_body]
pub(crate) fn set_head_ref(repo: &git2::Repository, refname: &str) -> Result<(), String> {
    repo.set_head(refname).map_err(|e| e.to_string())
}

/// Relies on `git2::Repository::head` peeled to a commit and
/// `git2::Repository::branch` with `force` off: creates a new local branch
/// at the current HEAD commit, an error when the name already exists.
#[verifier::external_body]
pub(crate) fn create_branch_raw(repo: &git2::Repository, name: &str) -> Result<(), String> {
    repo.head()
        .and_then(|h| h.peel_to_commit())
        .and_then(|parent| repo.branch(name, &parent, false))
        .map(|_| ())
        .map_err(|e| e.to_string())
}

/// Relies on `git2::Remote::push` with the given refspec, authenticating
/// through the caller's SSH agent with the remote URL's username, `git`
/// when it names none.
#[verifier::external_body]
pub(crate) fn remote_push(
    repo: &git2::Repository,
    remote_name: &str,
    refspec: &str,
) -> Result<(), String> {
    let mut remote = repo.find_remote(remote_name).map_err(|e| e.to_string())?;
    let mut callbacks = git2::RemoteCallbacks::new();
    callbacks.credentials(|_url, username_from_url, _allowed| {
        git2::Cred::ssh_key_from_agent(username_from_url.unwrap_or("git"))
    });
    let mut opts = git2::PushOptions::new();
    opts.remote_callbacks(callbacks);
    remote.push(&[refspec], Some(&mut opts)).map_err(|e| e.to_string())
}

/// Relies on `git2::Remote::fetch` of the named branch, authenticating
/// through the caller's SSH agent with the remote URL's username, `git`
/// when it names none.
#[verifier::external_body]
pub(crate) fn remote_fetch(
    repo: &git2::Repository,
    remote_name: &str,
    branch: &str,
) -> Result<(), String> {
    let mut remote = repo.find_remote(remote_name).map_err(|e| e.to_string())?;
    let mut callbacks = git2::RemoteCallbacks::new();
    callbacks.credentials(|_url, username_from_url, _allowed| {
        git2::Cred::ssh_key_from_agent(username_from_url.unwrap_or("git"))
    });
    let mut opts = git2::FetchOptions::new();
    opts.remote_callbacks(callbacks);
    remote.fetch(&[branch], Some(&mut opts), None).map_err(|e| e.to_string())
}

/// Relies on `git2::Repository::find_reference` of `FETCH_HEAD` and
/// `git2::Repository::reference_to_annotated_commit`: the commit the last
/// fetch brought.
#[verifier::external_body]
pub(crate) fn fetch_head_commit<'r>(
    repo: &'r git2::Repository,
) -> Result<git2::AnnotatedCommit<'r>, String> {
    repo.find_reference("FETCH_HEAD")
        .and_then(|r| repo.reference_to_annotated_commit(&r))
        .map_err(|e| e.to_string())
}

/// Relies on `git2::Repository::merge_analysis` against the given commit;
/// the analysis bits are converted to the two flags the pull decision reads.
#[verifier::external_body]
pub(crate) fn merge_analysis_flags(
    repo: &git2::Repository,
    commit: &git2::AnnotatedCommit<'_>,
) -> Result<MergeFlags, String> {
    let (analysis, _) = repo.merge_analysis(&[commit]).map_err(|e| e.to_string())?;
    Ok(MergeFlags {
        fast_forward: analysis.is_fast_forward(),
        normal: analysis.is_normal(),
    })
}

/// Relies on `git2::AnnotatedCommit::id`: the commit id of the fetched head.
#[verifier::external_body]
pub(crate) fn annotated_oid(commit: &git2::AnnotatedCommit<'_>) -> git2::Oid {
    commit.id()
}

/// Relies on `git2::Reference::set_target`: moves the named reference to
/// the given commit, recording the given reflog message.
#[verifier::external_body]
pub(crate) fn fast_forward_ref(
    repo: &git2::Repository,
    refname: &str,
    oid: git2::Oid,
    log_message: &str,
) -> Result<(), String> {
    repo.find_reference(refname)
        .and_then(|mut r| r.set_target(oid, log_message))
        .map(|_| ())
        .map_err(|e| e.to_string())
}

/// Relies on `git2::Repository::checkout_head` with the `force` option:
/// makes the working tree match the new HEAD.
#[verifier::external_body]
pub(crate) fn checkout_head_force(repo: &git2::Repository) -> Result<(), String> {
    let mut cb = git2::build::CheckoutBuilder::default();
    cb.force();
    repo.checkout_head(Some(&mut cb)).map_err(|e| e.to_string())
}

} // verus!
