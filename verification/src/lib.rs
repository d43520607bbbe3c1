//! Desktop backend library: a guarded filesystem facade and a git facade.
//!
//! Every operation is stateless: it validates its inputs, performs one
//! action against the filesystem or a git repository, and returns a plain
//! result or a descriptive error.

use vstd::prelude::*;

mod commands;
mod errors;
mod git;
mod git_raw;
mod listing;
mod path_guard;
mod text;

pub use commands::AppInfo;
pub use commands::app_info;
pub use commands::git_branch;
pub use commands::git_checkout;
pub use commands::git_commit;
pub use commands::git_create_branch;
pub use commands::git_diff;
pub use commands::git_log;
pub use commands::git_pull;
pub use commands::git_push;
pub use commands::git_status;
pub use commands::no_current_branch_message;
pub use commands::resolve_remote;
pub use commands::spec_log_count;

pub use errors::Error;

pub use git::BranchInfo;
pub use git::LogEntry;
pub use git::MergeFlags;
pub use git::PullAction;
pub use git::StatusEntry;
pub use git::StatusFlags;
pub use git::branch_info_from;
pub use git::branches_consistent;
pub use git::checkout_branch;
pub use git::create_branch;
pub use git::create_commit;
pub use git::decide_pull;
pub use git::diff_line_prefix;
pub use git::get_diff;
pub use git::get_log;
pub use git::get_status;
pub use git::is_lower_hex;
pub use git::lemma_missing_identity_mentions_config;
pub use git::list_branches;
pub use git::make_refspec;
pub use git::manual_merge_message;
pub use git::missing_identity_message;
pub use git::open_repo;
pub use git::pull_branch;
pub use git::push_branch;
pub use git::short_id;
pub use git::spec_decide_pull;
pub use git::spec_staged;
pub use git::spec_status_label;
pub use git::status_entry_from;
pub use git::status_label;
pub use git::wf_branch_listing;
pub use git::wf_log_entry;
pub use git::wf_status_entry;

pub use listing::DirectoryEntry;
pub use listing::entries_sorted;
pub use listing::entry_le;
pub use listing::lemma_sorted_directories_first;
pub use listing::lemma_sorted_group_order;
pub use listing::lex_le;
pub use listing::sort_entries;

pub use path_guard::denial_message;
pub use path_guard::denied;
pub use path_guard::denylist;
pub use path_guard::first_hit;
pub use path_guard::validate_path;

pub use text::contains_seq;
pub use text::contains_str;
pub use text::lower_of;
pub use text::matches_at;

verus! {

} // verus!
