//! Directory listings: the entry shape and the listing order.
//!
//! A listing is ordered with directories before files and, within each
//! group, case-insensitively by name.

use vstd::prelude::*;
use vstd::seq_lib::group_to_multiset_ensures;

use crate::text::lower_of;
use crate::text::to_lower;

verus! {

/// One child of a listed directory.
#[derive(Debug)]
pub struct DirectoryEntry {
    pub name: String,
    pub path: String,
    pub is_directory: bool,
    pub size: u64,
}

/// Lexicographic order on character sequences, by code point.
pub open spec fn lex_le(a: Seq<char>, b: Seq<char>) -> bool
    decreases a.len(),
{
    if a.len() == 0 {
        true
    } else if b.len() == 0 {
        false
    } else if (a[0] as u32) < (b[0] as u32) {
        true
    } else if (a[0] as u32) > (b[0] as u32) {
        false
    } else {
        lex_le(a.skip(1), b.skip(1))
    }
}

/// The listing order: directories before files; within each group,
/// case-insensitive lexicographic by name.
pub open spec fn entry_le(a: DirectoryEntry, b: DirectoryEntry) -> bool {
    if a.is_directory != b.is_directory {
        a.is_directory
    } else {
        lex_le(lower_of(a.name@), lower_of(b.name@))
    }
}

/// A listing is sorted when every pair of positions respects the order.
pub open spec fn entries_sorted(s: Seq<DirectoryEntry>) -> bool {
    forall|i: int, j: int| 0 <= i < j < s.len() ==> entry_le(s[i], s[j])
}

/// The listing order is total.
pub proof fn lemma_lex_le_total(a: Seq<char>, b: Seq<char>)
    ensures
        lex_le(a, b) || lex_le(b, a),
    decreases a.len(),
{
    if a.len() > 0 && b.len() > 0 && (a[0] as u32) == (b[0] as u32) {
        lemma_lex_le_total(a.skip(1), b.skip(1));
    }
}

/// The listing order is transitive.
pub proof fn lemma_lex_le_trans(a: Seq<char>, b: Seq<char>, c: Seq<char>)
    requires
        lex_le(a, b),
        lex_le(b, c),
    ensures
        lex_le(a, c),
    decreases a.len(),
{
    if a.len() > 0 && b.len() > 0 && c.len() > 0 && (a[0] as u32) == (b[0] as u32)
        && (b[0] as u32) == (c[0] as u32) {
        lemma_lex_le_trans(a.skip(1), b.skip(1), c.skip(1));
    }
}

/// The entry order is total.
pub proof fn lemma_entry_le_total(a: DirectoryEntry, b: DirectoryEntry)
    ensures
        entry_le(a, b) || entry_le(b, a),
{
    if a.is_directory == b.is_directory {
        lemma_lex_le_total(lower_of(a.name@), lower_of(b.name@));
    }
}

/// The entry order is transitive.
pub proof fn lemma_entry_le_trans(a: DirectoryEntry, b: DirectoryEntry, c: DirectoryEntry)
    requires
        entry_le(a, b),
        entry_le(b, c),
    ensures
        entry_le(a, c),
{
    if a.is_directory == b.is_directory && b.is_directory == c.is_directory {
        lemma_lex_le_trans(lower_of(a.name@), lower_of(b.name@), lower_of(c.name@));
    }
}

/// In a sorted listing every directory stands before every file: nothing
/// after a file is a directory.
pub proof fn lemma_sorted_directories_first(s: Seq<DirectoryEntry>, i: int, j: int)
    requires
        entries_sorted(s),
        0 <= i < j < s.len(),
        !s[i].is_directory,
    ensures
        !s[j].is_directory,
{
    assert(entry_le(s[i], s[j]));
}

/// Within one group of a sorted listing, names stand in case-insensitive
/// lexicographic order.
pub proof fn lemma_sorted_group_order(s: Seq<DirectoryEntry>, i: int, j: int)
    requires
        entries_sorted(s),
        0 <= i < j < s.len(),
        s[i].is_directory == s[j].is_directory,
    ensures
        lex_le(lower_of(s[i].name@), lower_of(s[j].name@)),
{
    assert(entry_le(s[i], s[j]));
}

/// Compare two character sequences by the listing order.
fn lex_le_exec(a: &str, b: &str) -> (r: bool)
    ensures
        r == lex_le(a@, b@),
{
    let alen = a.unicode_len();
    let blen = b.unicode_len();
    let mut i: usize = 0;
    proof {
        assert(a@.skip(0) =~= a@);
        assert(b@.skip(0) =~= b@);
    }
    loop
        invariant
            alen == a@.len(),
            blen == b@.len(),
            i <= alen,
            i <= blen,
            lex_le(a@, b@) == lex_le(a@.skip(i as int), b@.skip(i as int)),
        decreases alen - i,
    {
        if i >= alen {
            return true;
        }
        if i >= blen {
            return false;
        }
        let ca = a.get_char(i) as u32;
        let cb = b.get_char(i) as u32;
        if ca < cb {
            return true;
        }
        if ca > cb {
            return false;
        }
        proof {
            assert(a@.skip(i as int).skip(1) =~= a@.skip(i as int + 1));
            assert(b@.skip(i as int).skip(1) =~= b@.skip(i as int + 1));
        }
        i += 1;
    }
}

/// Compare two entries by the listing order.
fn entry_le_exec(a: &DirectoryEntry, b: &DirectoryEntry) -> (r: bool)
    ensures
        r == entry_le(*a, *b),
{
    if a.is_directory != b.is_directory {
        a.is_directory
    } else {
        let la = to_lower(a.name.as_str());
        let lb = to_lower(b.name.as_str());
        lex_le_exec(la.as_str(), lb.as_str())
    }
}

/// Inserting an element anywhere in a sequence inserts it into the multiset.
proof fn lemma_to_multiset_insert<A>(s: Seq<A>, pos: int, x: A)
    requires
        0 <= pos <= s.len(),
    ensures
        s.insert(pos, x).to_multiset() =~= s.to_multiset().insert(x),
{
    broadcast use group_to_multiset_ensures;

    let t = s.insert(pos, x);
    assert(t[pos] == x);
    assert(t.remove(pos) =~= s);
    assert(t.remove(pos).to_multiset() =~= t.to_multiset().remove(x));
    assert(t.to_multiset().contains(x));
    assert forall|y: A| t.to_multiset().count(y) == s.to_multiset().insert(x).count(y) by {
        if y == x {
            assert(s.to_multiset().count(x) == t.to_multiset().remove(x).count(x));
        }
    }
}

/// Sort a listing: directories first, then case-insensitively by name.
///
/// The result is a permutation of the input, sorted by the listing order.
pub fn sort_entries(entries: Vec<DirectoryEntry>) -> (r: Vec<DirectoryEntry>)
    ensures
        entries_sorted(r@),
        r@.to_multiset() == entries@.to_multiset(),
        r@.len() == entries@.len(),
{
    broadcast use group_to_multiset_ensures;

    let mut input = entries;
    let mut r: Vec<DirectoryEntry> = Vec::new();
    let n = input.len();
    let mut i: usize = 0;
    while i < n
        invariant
            n == input@.len(),
            i <= n,
            entries_sorted(r@),
            r@.len() == i,
            r@.to_multiset() == input@.subrange(0, i as int).to_multiset(),
            input@ == entries@,
        decreases n - i,
    {
        let ghost prev = r@;
        let e = clone_entry(&input, i);
        let pos = insertion_point(&r, &e);
        proof {
            lemma_to_multiset_insert(r@, pos as int, input@[i as int]);
            assert(input@.subrange(0, i as int + 1) =~= input@.subrange(0, i as int).push(
                input@[i as int],
            ));
        }
        r.insert(pos, e);
        proof {
            lemma_sorted_after_insert(prev, pos as int, input@[i as int]);
            assert(r@.to_multiset() =~= prev.to_multiset().insert(input@[i as int]));
            vstd::seq_lib::to_multiset_build(
                input@.subrange(0, i as int),
                input@[i as int],
            );
        }
        i += 1;
    }
    proof {
        assert(input@.subrange(0, n as int) =~= input@);
    }
    r
}

/// Clone the `i`-th entry of a listing.
fn clone_entry(v: &Vec<DirectoryEntry>, i: usize) -> (e: DirectoryEntry)
    requires
        i < v@.len(),
    ensures
        e == v@[i as int],
{
    let x = &v[i];
    DirectoryEntry {
        name: x.name.clone(),
        path: x.path.clone(),
        is_directory: x.is_directory,
        size: x.size,
    }
}

/// The position where `e` belongs in the sorted listing `r`: everything
/// before it is at most `e`, and `e` is at most everything from it on.
fn insertion_point(r: &Vec<DirectoryEntry>, e: &DirectoryEntry) -> (pos: usize)
    requires
        entries_sorted(r@),
    ensures
        pos <= r@.len(),
        forall|k: int| 0 <= k < pos ==> entry_le(r@[k], *e),
        forall|k: int| pos <= k < r@.len() ==> entry_le(*e, r@[k]),
{
    let n = r.len();
    let mut pos: usize = 0;
    while pos < n
        invariant
            n == r@.len(),
            pos <= n,
            entries_sorted(r@),
            forall|k: int| 0 <= k < pos ==> entry_le(r@[k], *e),
        decreases n - pos,
    {
        if !entry_le_exec(&r[pos], e) {
            proof {
                lemma_entry_le_total(r@[pos as int], *e);
                assert forall|k: int| pos <= k < r@.len() implies entry_le(*e, r@[k]) by {
                    if k > pos {
                        lemma_entry_le_trans(*e, r@[pos as int], r@[k]);
                    }
                }
            }
            return pos;
        }
        pos += 1;
    }
    pos
}

/// Inserting at the returned position keeps the listing sorted.
proof fn lemma_sorted_after_insert(s: Seq<DirectoryEntry>, pos: int, x: DirectoryEntry)
    requires
        entries_sorted(s),
        0 <= pos <= s.len(),
        forall|k: int| 0 <= k < pos ==> entry_le(s[k], x),
        forall|k: int| pos <= k < s.len() ==> entry_le(x, s[k]),
    ensures
        entries_sorted(s.insert(pos, x)),
{
    let t = s.insert(pos, x);
    assert forall|i: int, j: int| 0 <= i < j < t.len() implies entry_le(t[i], t[j]) by {
        if i < pos && j == pos {
        } else if i == pos && j > pos {
        } else if i < pos && j > pos {
            lemma_entry_le_trans(t[i], x, t[j]);
        }
    }
}

} // verus!
