//! The path guard: a denylist heuristic over lowercased path strings.
//!
//! A path is rejected when its lowercased form contains any of a fixed set
//! of sensitive substrings. Matching is substring-based and case-insensitive,
//! evaluated in listed order; the first match is reported. No canonicalization
//! or symlink resolution is attempted: this is a heuristic, not a sandbox.

use vstd::prelude::*;
use vstd::string::*;

use crate::errors::Error;
use crate::text::contains_seq;
use crate::text::contains_str;
use crate::text::lower_of;
use crate::text::to_lower;

verus! {

/// The fixed denylist of sensitive path substrings, in evaluation order.
pub open spec fn denylist() -> Seq<Seq<char>> {
    seq![
        "/.ssh/"@,
        "/.gnupg/"@,
        "/.config/"@,
        "/etc/"@,
        "/.env"@,
        ".env"@,
        "/credentials"@,
        "credentials.json"@,
        "/secrets"@,
    ]
}

/// The `k`-th denylist pattern as an executable string.
fn pattern(k: usize) -> (p: &'static str)
    requires
        k < 9,
    ensures
        p@ == denylist()[k as int],
{
    if k == 0 {
        "/.ssh/"
    } else if k == 1 {
        "/.gnupg/"
    } else if k == 2 {
        "/.config/"
    } else if k == 3 {
        "/etc/"
    } else if k == 4 {
        "/.env"
    } else if k == 5 {
        ".env"
    } else if k == 6 {
        "/credentials"
    } else if k == 7 {
        "credentials.json"
    } else {
        "/secrets"
    }
}

/// A lowercased path is denied when it contains any denylisted substring.
pub open spec fn denied(low: Seq<char>) -> bool {
    exists|k: int| 0 <= k < denylist().len() && contains_seq(low, denylist()[k])
}

/// The index of the first denylist pattern at or after `k` contained in
/// `low`, or -1 when none is.
pub open spec fn first_hit_from(low: Seq<char>, k: int) -> int
    decreases denylist().len() - k,
{
    if k < 0 || k >= denylist().len() {
        -1
    } else if contains_seq(low, denylist()[k]) {
        k
    } else {
        first_hit_from(low, k + 1)
    }
}

/// The index of the first denylist pattern contained in `low`, or -1.
pub open spec fn first_hit(low: Seq<char>) -> int {
    first_hit_from(low, 0)
}

/// The guard's rejection message for the matched pattern `pat`.
pub open spec fn denial_message(pat: Seq<char>) -> Seq<char> {
    "Access to path containing '"@ + pat + "' is not allowed"@
}

proof fn lemma_first_hit_none(low: Seq<char>, k: int)
    requires
        0 <= k <= denylist().len(),
    ensures
        first_hit_from(low, k) == -1 <==> (forall|j: int|
            k <= j < denylist().len() ==> !contains_seq(low, denylist()[j])),
    decreases denylist().len() - k,
{
    if k < denylist().len() {
        lemma_first_hit_none(low, k + 1);
    }
}

/// Validate a path against the denylist before a filesystem operation.
///
/// Succeeds exactly when the lowercased path contains no denylisted
/// substring; otherwise reports the first matching pattern.
pub fn validate_path(path: &str) -> (r: Result<(), Error>)
    ensures
        r is Ok <==> !denied(lower_of(path@)),
        r matches Err(e) ==> ({
            let k = first_hit(lower_of(path@));
            &&& 0 <= k < denylist().len()
            &&& contains_seq(lower_of(path@), denylist()[k])
            &&& (e matches Error::NotAllowed(m) && m@ == denial_message(denylist()[k]))
        }),
{
    let low = to_lower(path);
    let mut k: usize = 0;
    while k < 9
        invariant
            low@ == lower_of(path@),
            k <= 9,
            forall|j: int| 0 <= j < k ==> !contains_seq(low@, denylist()[j]),
            first_hit(low@) == first_hit_from(low@, k as int),
        decreases 9 - k,
    {
        if contains_str(low.as_str(), pattern(k)) {
            assert(first_hit(low@) == k as int);
            assert(denied(low@)) by {
                assert(contains_seq(low@, denylist()[k as int]));
            }
            let mut m = String::from_str("Access to path containing '");
            m.append(pattern(k));
            m.append("' is not allowed");
            return Err(Error::NotAllowed(m));
        }
        k += 1;
    }
    proof {
        lemma_first_hit_none(low@, 0);
    }
    Ok(())
}

} // verus!
