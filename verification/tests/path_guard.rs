//! Tests of the path guard: denylisted paths are rejected, others pass.

use gorgon_desktop::Error;
use gorgon_desktop::contains_str;
use gorgon_desktop::validate_path;

#[test]
fn rejects_each_denylisted_pattern() {
    let denied = [
        "/home/u/.ssh/id_rsa",
        "/home/u/.gnupg/keys",
        "/home/u/.config/app.toml",
        "/etc/passwd",
        "/home/u/.env",
        "project/.env",
        "/home/u/credentials",
        "dir/credentials.json",
        "/srv/secrets",
    ];
    for path in denied {
        assert!(validate_path(path).is_err(), "{} should be rejected", path);
    }
}

#[test]
fn rejection_reports_first_matching_pattern() {
    let err = validate_path("/home/u/.ssh/id_rsa").unwrap_err();
    match err {
        Error::NotAllowed(m) => {
            assert_eq!(m, "Access to path containing '/.ssh/' is not allowed");
        }
        other => panic!("expected NotAllowed, got {:?}", other),
    }
}

#[test]
fn rejection_message_carries_class_prefix() {
    let err = validate_path("/etc/hosts").unwrap_err();
    assert_eq!(
        err.message(),
        "Operation not allowed: Access to path containing '/etc/' is not allowed"
    );
}

#[test]
fn matching_is_case_insensitive() {
    assert!(validate_path("/home/u/.SSH/id_rsa").is_err());
    assert!(validate_path("/Project/Credentials.JSON").is_err());
    assert!(validate_path("/ETC/passwd").is_err());
}

#[test]
fn allows_ordinary_paths() {
    assert!(validate_path("/home/u/project/src/main.rs").is_ok());
    assert!(validate_path("relative/notes.txt").is_ok());
    assert!(validate_path("").is_ok());
}

#[test]
fn over_blocks_paths_with_embedded_words() {
    // The guard is a substring heuristic: a legitimate path containing a
    // denylisted word is rejected too.
    assert!(validate_path("/data/secretsauce/recipe.txt").is_err());
    assert!(validate_path("/code/dotenv/.env.example").is_err());
}

#[test]
fn substring_search_agrees_with_containment() {
    assert!(contains_str("hello world", "lo wo"));
    assert!(contains_str("hello", "hello"));
    assert!(contains_str("hello", ""));
    assert!(!contains_str("hello", "world"));
    assert!(!contains_str("hi", "hello"));
    assert!(!contains_str("", "a"));
}

#[test]
fn error_messages_carry_their_class() {
    assert_eq!(Error::Io(String::from("boom")).message(), "IO error: boom");
    assert_eq!(Error::Git(String::from("bad ref")).message(), "Git error: bad ref");
    assert_eq!(
        Error::Serde(String::from("eof")).message(),
        "Serialization error: eof"
    );
    assert_eq!(
        Error::InvalidPath(String::from("p")).message(),
        "Path error: p"
    );
    assert_eq!(
        Error::NoRepository.message(),
        "Git repository not found at path"
    );
    assert_eq!(Error::Custom(String::from("just this")).message(), "just this");
}
