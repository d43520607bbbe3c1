//! Tests of the pure git decision logic: status classification, the pull
//! decision, refspec construction, id shortening and name defaulting.

use gorgon_desktop::AppInfo;
use gorgon_desktop::MergeFlags;
use gorgon_desktop::PullAction;
use gorgon_desktop::StatusFlags;
use gorgon_desktop::app_info;
use gorgon_desktop::branch_info_from;
use gorgon_desktop::decide_pull;
use gorgon_desktop::diff_line_prefix;
use gorgon_desktop::make_refspec;
use gorgon_desktop::resolve_remote;
use gorgon_desktop::short_id;
use gorgon_desktop::status_entry_from;
use gorgon_desktop::status_label;

fn flags() -> StatusFlags {
    StatusFlags {
        index_new: false,
        index_modified: false,
        index_deleted: false,
        index_renamed: false,
        wt_new: false,
        wt_modified: false,
        wt_deleted: false,
        wt_renamed: false,
        conflicted: false,
    }
}

#[test]
fn classification_follows_the_precedence() {
    assert_eq!(status_label(StatusFlags { index_new: true, ..flags() }), "new");
    assert_eq!(status_label(StatusFlags { index_modified: true, ..flags() }), "modified");
    assert_eq!(status_label(StatusFlags { wt_modified: true, ..flags() }), "modified");
    assert_eq!(status_label(StatusFlags { index_deleted: true, ..flags() }), "deleted");
    assert_eq!(status_label(StatusFlags { wt_deleted: true, ..flags() }), "deleted");
    assert_eq!(status_label(StatusFlags { index_renamed: true, ..flags() }), "renamed");
    assert_eq!(status_label(StatusFlags { wt_renamed: true, ..flags() }), "renamed");
    assert_eq!(status_label(StatusFlags { wt_new: true, ..flags() }), "untracked");
    assert_eq!(status_label(StatusFlags { conflicted: true, ..flags() }), "conflicted");
    assert_eq!(status_label(flags()), "unknown");
}

#[test]
fn index_new_wins_over_worktree_flags() {
    let f = StatusFlags { index_new: true, wt_modified: true, wt_new: true, ..flags() };
    assert_eq!(status_label(f), "new");
}

#[test]
fn staged_means_index_change_only() {
    let e = status_entry_from(Some(String::from("a.txt")), StatusFlags {
        index_modified: true,
        ..flags()
    });
    assert_eq!(e.path, "a.txt");
    assert_eq!(e.status, "modified");
    assert!(e.staged);

    let e = status_entry_from(None, StatusFlags { wt_new: true, ..flags() });
    assert_eq!(e.path, "");
    assert_eq!(e.status, "untracked");
    assert!(!e.staged);

    let e = status_entry_from(Some(String::from("b")), StatusFlags { wt_modified: true, ..flags() });
    assert!(!e.staged);
}

#[test]
fn pull_decision_prefers_fast_forward() {
    let ff = MergeFlags { fast_forward: true, normal: false };
    assert_eq!(decide_pull(ff), PullAction::FastForward);
    let both = MergeFlags { fast_forward: true, normal: true };
    assert_eq!(decide_pull(both), PullAction::FastForward);
    let normal = MergeFlags { fast_forward: false, normal: true };
    assert_eq!(decide_pull(normal), PullAction::RejectManualMerge);
    let neither = MergeFlags { fast_forward: false, normal: false };
    assert_eq!(decide_pull(neither), PullAction::NoOp);
}

#[test]
fn refspec_is_same_name_on_both_sides() {
    assert_eq!(make_refspec("main"), "refs/heads/main:refs/heads/main");
    assert_eq!(make_refspec("feature/x"), "refs/heads/feature/x:refs/heads/feature/x");
}

#[test]
fn short_id_is_first_eight_characters() {
    assert_eq!(short_id("0123456789abcdef0123456789abcdef01234567"), "01234567");
    assert_eq!(short_id("deadbeef"), "deadbeef");
}

#[test]
fn diff_prefix_keeps_content_markers_only() {
    assert_eq!(diff_line_prefix('+'), "+");
    assert_eq!(diff_line_prefix('-'), "-");
    assert_eq!(diff_line_prefix(' '), " ");
    assert_eq!(diff_line_prefix('F'), "");
    assert_eq!(diff_line_prefix('H'), "");
}

#[test]
fn remote_defaults_to_origin() {
    assert_eq!(resolve_remote(None), "origin");
    assert_eq!(resolve_remote(Some(String::from("upstream"))), "upstream");
}

#[test]
fn branch_info_current_needs_local_and_matching_name() {
    let cur = String::from("main");
    let b = branch_info_from(Some(String::from("main")), false, &cur);
    assert!(b.is_current && !b.is_remote);
    let b = branch_info_from(Some(String::from("main")), true, &cur);
    assert!(!b.is_current && b.is_remote);
    let b = branch_info_from(Some(String::from("dev")), false, &cur);
    assert!(!b.is_current);
    let b = branch_info_from(None, false, &cur);
    assert_eq!(b.name, "");
    assert!(!b.is_current);
}

#[test]
fn app_info_carries_fixed_name_and_given_versions() {
    let a: AppInfo = app_info(String::from("1.2.3"), String::from("9.9"));
    assert_eq!(a.name, "Gorgon Desktop");
    assert_eq!(a.version, "1.2.3");
    assert_eq!(a.tauri_version, "9.9");
}
