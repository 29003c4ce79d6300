//! Putting a listing into canonical order, by merging.

use vstd::prelude::*;
use crate::fs::entry::DirNode;
use crate::fs::order::{
    entry_le, entry_le_exec, insert_sorted, lemma_entry_le_total, lemma_entry_le_transitive,
    sort_listing,
};

verus! {

/// Two sequences merged into one, from their ends: the last node of the
/// result is the last of `right` where that may stand behind the last of
/// `left`, and the last of `left` otherwise.
pub open spec fn merged(left: Seq<DirNode>, right: Seq<DirNode>) -> Seq<DirNode>
    decreases left.len() + right.len(),
{
    if right.len() == 0 {
        left
    } else if left.len() == 0 {
        right
    } else if entry_le(left.last().entry, right.last().entry) {
        merged(left, right.drop_last()).push(right.last())
    } else {
        merged(left.drop_last(), right).push(left.last())
    }
}

/// Putting a node into a merged sequence is putting it into the right one
/// before merging.
proof fn lemma_insert_merged(left: Seq<DirNode>, right: Seq<DirNode>, x: DirNode)
    ensures
        insert_sorted(merged(left, right), x) == merged(left, insert_sorted(right, x)),
    decreases left.len() + right.len(),
{
    let with_x = insert_sorted(right, x);
    if left.len() == 0 {
        assert(merged(left, with_x) == with_x);
    } else if right.len() == 0 {
        assert(with_x == seq![x]);
        assert(with_x.drop_last() == right);
        assert(with_x.last() == x);
        if !entry_le(left.last().entry, x.entry) {
            lemma_insert_merged(left.drop_last(), right, x);
        }
    } else if entry_le(right.last().entry, x.entry) {
        assert(with_x.drop_last() == right);
        assert(with_x.last() == x);
        if entry_le(left.last().entry, x.entry) {
        } else {
            if entry_le(left.last().entry, right.last().entry) {
                lemma_entry_le_transitive(left.last().entry, right.last().entry, x.entry);
            }
            let rest = merged(left.drop_last(), right);
            assert(merged(left, right) == rest.push(left.last()));
            assert(rest.push(left.last()).drop_last() == rest);
            lemma_insert_merged(left.drop_last(), right, x);
        }
    } else {
        let short = insert_sorted(right.drop_last(), x);
        assert(with_x == short.push(right.last()));
        assert(with_x.drop_last() == short);
        assert(with_x.last() == right.last());
        if entry_le(left.last().entry, right.last().entry) {
            let rest = merged(left, right.drop_last());
            assert(merged(left, right) == rest.push(right.last()));
            assert(rest.push(right.last()).drop_last() == rest);
            lemma_insert_merged(left, right.drop_last(), x);
        } else {
            if entry_le(left.last().entry, x.entry) {
                lemma_entry_le_total(left.last().entry, right.last().entry);
                lemma_entry_le_transitive(right.last().entry, left.last().entry, x.entry);
            }
            let rest = merged(left.drop_last(), right);
            assert(merged(left, right) == rest.push(left.last()));
            assert(rest.push(left.last()).drop_last() == rest);
            lemma_insert_merged(left.drop_last(), right, x);
        }
    }
}

/// Sorting two halves and merging them sorts the whole.
proof fn lemma_sort_halves(left: Seq<DirNode>, right: Seq<DirNode>)
    ensures
        sort_listing(left + right) == merged(sort_listing(left), sort_listing(right)),
    decreases right.len(),
{
    if right.len() == 0 {
        assert(left + right == left);
    } else {
        let whole = left + right;
        assert(whole.drop_last() == left + right.drop_last());
        assert(whole.last() == right.last());
        lemma_sort_halves(left, right.drop_last());
        lemma_insert_merged(sort_listing(left), sort_listing(right.drop_last()), right.last());
    }
}

/// Merges two sequences.
fn merge(left: Vec<DirNode>, right: Vec<DirNode>) -> (both: Vec<DirNode>)
    ensures
        both@ == merged(left@, right@),
{
    let mut left = left;
    let mut right = right;
    let ghost whole = merged(left@, right@);
    // The nodes that are taken off the ends, the last of the result first.
    let mut taken: Vec<DirNode> = Vec::new();
    while left.len() > 0 && right.len() > 0
        invariant
            whole == merged(left@, right@) + taken@.reverse(),
        decreases left.len() + right.len(),
    {
        let ghost before = merged(left@, right@);
        let ghost had = taken@;
        let from_right = entry_le_exec(&left[left.len() - 1].entry, &right[right.len() - 1].entry);
        let node = if from_right {
            right.pop().unwrap()
        } else {
            left.pop().unwrap()
        };
        taken.push(node);
        proof {
            assert(before == merged(left@, right@).push(node));
            assert(taken@.reverse() =~= seq![node] + had.reverse());
            assert(merged(left@, right@).push(node) + had.reverse() =~= merged(left@, right@) + (
            seq![node] + had.reverse()));
        }
    }
    let mut both = if left.len() > 0 {
        left
    } else {
        right
    };
    while taken.len() > 0
        invariant
            whole == both@ + taken@.reverse(),
        decreases taken.len(),
    {
        let ghost had = taken@;
        let ghost so_far = both@;
        let node = taken.pop().unwrap();
        both.push(node);
        proof {
            assert(had.reverse() =~= seq![node] + taken@.reverse());
            assert(so_far + (seq![node] + taken@.reverse()) =~= so_far.push(node) + taken@.reverse());
        }
    }
    assert(both@ + taken@.reverse() =~= both@);
    both
}

/// Puts the nodes of a listing into canonical order.
pub fn sort_nodes(nodes: Vec<DirNode>) -> (sorted: Vec<DirNode>)
    ensures
        sorted@ == sort_listing(nodes@),
    decreases nodes.len(),
{
    let len = nodes.len();
    if len <= 1 {
        proof {
            if len == 1 {
                assert(nodes@.drop_last() =~= Seq::<DirNode>::empty());
                assert(sort_listing(nodes@.drop_last()) =~= Seq::<DirNode>::empty());
                assert(Seq::<DirNode>::empty().push(nodes@.last()) =~= nodes@);
            }
        }
        return nodes;
    }
    let mut left = nodes;
    let right = left.split_off(len / 2);
    proof {
        assert(nodes@ =~= left@ + right@);
        lemma_sort_halves(left@, right@);
    }
    let left = sort_nodes(left);
    let right = sort_nodes(right);
    merge(left, right)
}

} // verus!
