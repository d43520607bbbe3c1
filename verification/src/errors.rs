//! The error taxonomy of the backend.
//!
//! Every failure is terminal for the operation that raised it and collapses
//! to a single human-readable message string at the boundary.

use vstd::prelude::*;
use vstd::string::*;

verus! {

/// One error class per failure source: filesystem, git library,
/// serialization, path validation, denylist rejection, repository
/// discovery, and contextual errors built from a plain message.
#[derive(Debug)]
pub enum Error {
    /// A filesystem operation failed; the payload is the underlying message.
    Io(String),
    /// The git library reported an error; the payload is its message.
    Git(String),
    /// Serializing a result for the caller failed.
    Serde(String),
    /// A path argument was malformed (reserved; no operation raises it yet).
    InvalidPath(String),
    /// The path guard rejected the path; the payload names the matched pattern.
    NotAllowed(String),
    /// No git repository encloses the given path.
    NoRepository,
    /// A contextual error; the payload is the whole message.
    Custom(String),
}

impl Error {
    /// The message a caller sees, with the class prefix the boundary uses.
    pub open spec fn spec_message(&self) -> Seq<char> {
        match self {
            Error::Io(s) => "IO error: "@ + s@,
            Error::Git(s) => "Git error: "@ + s@,
            Error::Serde(s) => "Serialization error: "@ + s@,
            Error::InvalidPath(s) => "Path error: "@ + s@,
            Error::NotAllowed(s) => "Operation not allowed: "@ + s@,
            Error::NoRepository => "Git repository not found at path"@,
            Error::Custom(s) => s@,
        }
    }

    /// Render the error as the single string that crosses the boundary.
    pub fn message(&self) -> (m: String)
        ensures
            m@ == self.spec_message(),
    {
        match self {
            Error::Io(s) => prefixed("IO error: ", s),
            Error::Git(s) => prefixed("Git error: ", s),
            Error::Serde(s) => prefixed("Serialization error: ", s),
            Error::InvalidPath(s) => prefixed("Path error: ", s),
            Error::NotAllowed(s) => prefixed("Operation not allowed: ", s),
            Error::NoRepository => String::from_str("Git repository not found at path"),
            Error::Custom(s) => s.clone(),
        }
    }
}

/// Concatenate a class prefix and a payload message.
fn prefixed(prefix: &str, payload: &String) -> (m: String)
    ensures
        m@ == prefix@ + payload@,
{
    let mut m = String::from_str(prefix);
    m.append(payload.as_str());
    m
}

} // verus!
