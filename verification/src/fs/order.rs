//! The canonical order of a directory listing: directories come before
//! everything else, and within each of the two groups the names ascend.
//! Names are compared character by character, by code point, which is the
//! order of their UTF-8 bytes.

use vstd::prelude::*;
use vstd::std_specs::iter::IteratorSpec;
use vstd::string::*;
use crate::fs::entry::{DirNode, Entry};

verus! {

/// Lexicographic order of two names, looking only at the characters from
/// position `from` on: the first character in which they differ decides,
/// and a name that ends before the other differs from it comes first.
pub open spec fn name_le_from(a: Seq<char>, b: Seq<char>, from: int) -> bool
    decreases a.len() - from,
{
    if from >= a.len() {
        true
    } else if from >= b.len() {
        false
    } else if a[from] != b[from] {
        a[from] < b[from]
    } else {
        name_le_from(a, b, from + 1)
    }
}

/// The name `a` comes no later than the name `b`.
pub open spec fn name_le(a: Seq<char>, b: Seq<char>) -> bool {
    name_le_from(a, b, 0)
}

/// The entry `a` may stand before the entry `b` in a listing.
pub open spec fn entry_le(a: Entry, b: Entry) -> bool {
    if a.is_dir() != b.is_dir() {
        a.is_dir()
    } else {
        name_le(a.name@, b.name@)
    }
}

/// Every node of `s` may stand before all that follow it.
pub open spec fn is_sorted(s: Seq<DirNode>) -> bool {
    forall|i: int, j: int| 0 <= i < j < s.len() ==> entry_le(#[trigger] s[i].entry, #[trigger] s[j].entry)
}

/// `x` put into the sorted sequence `s`, behind every node that may stand
/// before it.
pub open spec fn insert_sorted(s: Seq<DirNode>, x: DirNode) -> Seq<DirNode>
    decreases s.len(),
{
    if s.len() == 0 || entry_le(s.last().entry, x.entry) {
        s.push(x)
    } else {
        insert_sorted(s.drop_last(), x).push(s.last())
    }
}

/// The nodes of `s` in canonical order: one after the other they are put
/// into what is sorted so far, each behind every node that may stand before
/// it.
pub open spec fn sort_listing(s: Seq<DirNode>) -> Seq<DirNode>
    decreases s.len(),
{
    if s.len() == 0 {
        Seq::empty()
    } else {
        insert_sorted(sort_listing(s.drop_last()), s.last())
    }
}

/// Of two names, one comes no later than the other.
pub proof fn lemma_name_le_total(a: Seq<char>, b: Seq<char>, from: int)
    requires
        0 <= from,
    ensures
        name_le_from(a, b, from) || name_le_from(b, a, from),
    decreases a.len() - from,
{
    if from < a.len() && from < b.len() && a[from] == b[from] {
        lemma_name_le_total(a, b, from + 1);
    }
}

/// A name that comes no later than a second comes no later than any that
/// the second comes no later than.
pub proof fn lemma_name_le_transitive(a: Seq<char>, b: Seq<char>, c: Seq<char>, from: int)
    requires
        0 <= from,
        name_le_from(a, b, from),
        name_le_from(b, c, from),
    ensures
        name_le_from(a, c, from),
    decreases a.len() - from,
{
    if from < a.len() && a[from] == b[from] && b[from] == c[from] {
        lemma_name_le_transitive(a, b, c, from + 1);
    }
}

/// Of two entries, one may stand before the other.
pub proof fn lemma_entry_le_total(a: Entry, b: Entry)
    ensures
        entry_le(a, b) || entry_le(b, a),
{
    lemma_name_le_total(a.name@, b.name@, 0);
}

/// An entry that may stand before a second may stand before any that the
/// second may stand before.
pub proof fn lemma_entry_le_transitive(a: Entry, b: Entry, c: Entry)
    requires
        entry_le(a, b),
        entry_le(b, c),
    ensures
        entry_le(a, c),
{
    if a.is_dir() == b.is_dir() && b.is_dir() == c.is_dir() {
        lemma_name_le_transitive(a.name@, b.name@, c.name@, 0);
    }
}

/// Putting a node into a sorted sequence keeps it sorted and adds exactly
/// that node.
pub proof fn lemma_insert_sorted(s: Seq<DirNode>, x: DirNode)
    requires
        is_sorted(s),
    ensures
        is_sorted(insert_sorted(s, x)),
        insert_sorted(s, x).len() == s.len() + 1,
        insert_sorted(s, x).to_multiset() == s.to_multiset().insert(x),
    decreases s.len(),
{
    broadcast use vstd::seq_lib::group_to_multiset_ensures;

    let r = insert_sorted(s, x);
    if s.len() == 0 || entry_le(s.last().entry, x.entry) {
        assert forall|i: int, j: int| 0 <= i < j < r.len() implies entry_le(
            #[trigger] r[i].entry,
            #[trigger] r[j].entry,
        ) by {
            if j == s.len() && i < s.len() - 1 {
                lemma_entry_le_transitive(s[i].entry, s.last().entry, x.entry);
            }
        }
    } else {
        let front = s.drop_last();
        let mid = insert_sorted(front, x);
        lemma_insert_sorted(front, x);
        lemma_entry_le_total(s.last().entry, x.entry);
        assert(s == front.push(s.last()));
        // Every node of `mid` is `x` or a node of `front`.
        assert forall|i: int| 0 <= i < mid.len() implies entry_le(
            (#[trigger] mid[i]).entry,
            s.last().entry,
        ) by {
            assert(mid.to_multiset().count(mid[i]) > 0);
            if mid[i] != x {
                assert(front.to_multiset().count(mid[i]) > 0);
                assert(front.contains(mid[i]));
                let k = choose|k: int| 0 <= k < front.len() && front[k] == mid[i];
                assert(entry_le(s[k].entry, s[s.len() - 1].entry));
            }
        }
        assert(r.to_multiset() == s.to_multiset().insert(x));
    }
}

/// The canonical order is sorted and holds the nodes it was given, each as
/// often as it was given.
pub proof fn lemma_sort_listing(s: Seq<DirNode>)
    ensures
        is_sorted(sort_listing(s)),
        sort_listing(s).len() == s.len(),
        sort_listing(s).to_multiset() == s.to_multiset(),
    decreases s.len(),
{
    broadcast use vstd::seq_lib::group_to_multiset_ensures;

    if s.len() > 0 {
        lemma_sort_listing(s.drop_last());
        lemma_insert_sorted(sort_listing(s.drop_last()), s.last());
        assert(s == s.drop_last().push(s.last()));
    }
}

/// Whether the name `a` comes no later than the name `b`.
pub fn name_le_exec(a: &str, b: &str) -> (le: bool)
    ensures
        le == name_le(a@, b@),
{
    let mut left = a.chars();
    let mut right = b.chars();
    let ghost mut at: int = 0;
    loop
        invariant
            0 <= at <= a@.len(),
            at <= b@.len(),
            left.remaining() == a@.skip(at),
            right.remaining() == b@.skip(at),
            name_le_from(a@, b@, at) == name_le(a@, b@),
        decreases a@.len() - at,
    {
        let x = match left.next() {
            Some(x) => x,
            None => {
                return true;
            },
        };
        let y = match right.next() {
            Some(y) => y,
            None => {
                return false;
            },
        };
        if x != y {
            return x < y;
        }
        proof {
            at = at + 1;
        }
    }
}

/// Whether the entry `a` may stand before the entry `b`.
pub fn entry_le_exec(a: &Entry, b: &Entry) -> (le: bool)
    ensures
        le == entry_le(*a, *b),
{
    let a_dir = a.is_dir();
    if a_dir != b.is_dir() {
        a_dir
    } else {
        name_le_exec(a.name.as_str(), b.name.as_str())
    }
}

} // verus!
