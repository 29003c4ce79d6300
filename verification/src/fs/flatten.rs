//! The tree below a directory as the lines of a listing.

use vstd::prelude::*;
use crate::app::state::TreeEntry;
use crate::fs::entry::{readable, DirNode, Listing};
use crate::fs::order::sort_listing;
use crate::fs::weight::{
    lemma_readable_weight, lemma_sort_weight, listing_weight, nodes_weight,
};
use crate::tree::{lemma_preorder_append, preorder};

verus! {

/// The flattened tree below a directory whose read gave `listing`, with the
/// children of that directory at `depth`: each child in canonical order,
/// and directly behind each directory what lies below it, one level deeper.
/// A directory that could not be read adds nothing.
pub open spec fn tree_lines(listing: Listing, depth: usize) -> Seq<TreeEntry>
    decreases listing_weight(listing), 0nat,
    via tree_lines_decreases
{
    match listing {
        Ok(items) => flatten(sort_listing(readable(items@)), depth),
        Err(_) => Seq::empty(),
    }
}

/// The nodes in the order given, each followed by what lies below it.
pub open spec fn flatten(nodes: Seq<DirNode>, depth: usize) -> Seq<TreeEntry>
    decreases nodes_weight(nodes), 1nat,
{
    if nodes.len() == 0 {
        Seq::empty()
    } else {
        flatten(nodes.drop_last(), depth) + branch(nodes.last(), depth)
    }
}

/// A node at `depth` and, if it is a directory, what lies below it. No
/// line lies deeper than the machine can count: a directory at the largest
/// depth is shown without what lies below it.
pub open spec fn branch(node: DirNode, depth: usize) -> Seq<TreeEntry>
    decreases 1 + listing_weight(node.children), 0nat,
{
    seq![TreeEntry { entry: node.entry, depth }] + if node.entry.is_dir() && depth < usize::MAX {
        tree_lines(node.children, (depth + 1) as usize)
    } else {
        Seq::empty()
    }
}

/// What lies below a directory at `depth` whose read gave `children`: its
/// flattened tree, one level deeper.
pub open spec fn below(children: Listing, depth: usize) -> Seq<TreeEntry> {
    if depth < usize::MAX {
        tree_lines(children, (depth + 1) as usize)
    } else {
        Seq::empty()
    }
}

#[via_fn]
proof fn tree_lines_decreases(listing: Listing, depth: usize) {
    match listing {
        Ok(items) => {
            lemma_readable_weight(items@);
            lemma_sort_weight(readable(items@));
        },
        Err(_) => {},
    }
}

/// What a recursive listing builds is a forest flattened in pre-order, with
/// its roots at `depth`.
pub proof fn lemma_tree_preorder(listing: Listing, depth: usize)
    ensures
        preorder(tree_lines(listing, depth), depth as nat),
    decreases listing_weight(listing), 0nat,
{
    match listing {
        Ok(items) => {
            lemma_readable_weight(items@);
            lemma_sort_weight(readable(items@));
            lemma_flatten_preorder(sort_listing(readable(items@)), depth);
        },
        Err(_) => {},
    }
}

/// The same of a sequence of nodes that is flattened in the order given.
pub proof fn lemma_flatten_preorder(nodes: Seq<DirNode>, depth: usize)
    ensures
        preorder(flatten(nodes, depth), depth as nat),
    decreases nodes_weight(nodes), 1nat,
{
    if nodes.len() > 0 {
        let front = flatten(nodes.drop_last(), depth);
        let node = nodes.last();
        let root = TreeEntry { entry: node.entry, depth };
        let below = if node.entry.is_dir() && depth < usize::MAX {
            tree_lines(node.children, (depth + 1) as usize)
        } else {
            Seq::empty()
        };
        assert(branch(node, depth) == seq![root] + below);
        assert(flatten(nodes, depth) =~= front + seq![root] + below);
        lemma_flatten_preorder(nodes.drop_last(), depth);
        if node.entry.is_dir() && depth < usize::MAX {
            lemma_tree_preorder(node.children, (depth + 1) as usize);
        }
        lemma_preorder_append(front, root, below, depth as nat);
    }
}

} // verus!
