//! The size of what was read, by which the walk down a listing ends.

use vstd::prelude::*;
use crate::fs::entry::{readable, DirNode, IoError, Listing};
use crate::fs::order::{entry_le, insert_sorted, sort_listing};

verus! {

/// How many nodes a listing holds, all levels counted, and one more for
/// each directory that was read. The definitions that walk down a listing
/// decrease by it.
pub open spec fn listing_weight(listing: Listing) -> nat
    decreases listing,
{
    match listing {
        Ok(items) => 1 + items_weight(items@),
        Err(_) => 0,
    }
}

/// The weight of the items of one listing.
pub open spec fn items_weight(items: Seq<Result<DirNode, IoError>>) -> nat
    decreases items,
{
    if items.len() == 0 {
        0
    } else {
        items_weight(items.drop_last()) + match items.last() {
            Ok(node) => 1 + listing_weight(node.children),
            Err(_) => 0,
        }
    }
}

/// The weight of a sequence of nodes.
pub open spec fn nodes_weight(nodes: Seq<DirNode>) -> nat
    decreases nodes.len(),
{
    if nodes.len() == 0 {
        0
    } else {
        nodes_weight(nodes.drop_last()) + 1 + listing_weight(nodes.last().children)
    }
}

/// Leaving out what could not be read does not change the weight.
pub proof fn lemma_readable_weight(items: Seq<Result<DirNode, IoError>>)
    ensures
        nodes_weight(readable(items)) == items_weight(items),
    decreases items.len(),
{
    if items.len() > 0 {
        lemma_readable_weight(items.drop_last());
        match items.last() {
            Ok(node) => {
                assert(readable(items).drop_last() == readable(items.drop_last()));
            },
            Err(_) => {},
        }
    }
}

/// Putting a node into a sequence adds its weight.
pub proof fn lemma_insert_weight(s: Seq<DirNode>, x: DirNode)
    ensures
        nodes_weight(insert_sorted(s, x)) == nodes_weight(s) + 1 + listing_weight(x.children),
    decreases s.len(),
{
    if s.len() == 0 || entry_le(s.last().entry, x.entry) {
        assert(s.push(x).drop_last() == s);
    } else {
        lemma_insert_weight(s.drop_last(), x);
        assert(insert_sorted(s, x).drop_last() == insert_sorted(s.drop_last(), x));
    }
}

/// Sorting does not change the weight.
pub proof fn lemma_sort_weight(s: Seq<DirNode>)
    ensures
        nodes_weight(sort_listing(s)) == nodes_weight(s),
    decreases s.len(),
{
    if s.len() > 0 {
        lemma_sort_weight(s.drop_last());
        lemma_insert_weight(sort_listing(s.drop_last()), s.last());
    }
}

/// Each node weighs less than the sequence it stands in.
pub proof fn lemma_node_weight(nodes: Seq<DirNode>, i: int)
    requires
        0 <= i < nodes.len(),
    ensures
        listing_weight(nodes[i].children) < nodes_weight(nodes),
    decreases nodes.len(),
{
    if i < nodes.len() - 1 {
        lemma_node_weight(nodes.drop_last(), i);
    }
}

} // verus!
