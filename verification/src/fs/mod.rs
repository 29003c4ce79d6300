//! Scanning: from what one read of a directory gave to a listing in
//! canonical order, and from there to the flattened tree.

use vstd::prelude::*;
use vstd::string::*;
use crate::app::state::TreeEntry;
use crate::fs::entry::{keep_readable, readable, DirNode, Entry, IoError, Listing};
use crate::fs::flatten::{branch, flatten, lemma_tree_preorder, tree_lines};
use crate::fs::info::{
    entry_info, kind_name, line, push_line, push_mode_line, push_size_line, push_time_line,
};
use crate::fs::order::{is_sorted, lemma_sort_listing, sort_listing};
use crate::fs::sort::sort_nodes;
use crate::fs::weight::{
    lemma_node_weight, lemma_readable_weight, lemma_sort_weight, listing_weight, nodes_weight,
};
use crate::tree::preorder;

pub mod entry;
pub mod flatten;
pub mod info;
pub mod order;
pub mod path;
pub mod sort;
pub mod weight;

verus! {

/// The children of a directory in canonical order; none where the directory
/// could not be read.
pub open spec fn scan(listing: Listing) -> Seq<DirNode> {
    match listing {
        Ok(items) => sort_listing(readable(items@)),
        Err(_) => Seq::empty(),
    }
}

/// The nodes as lines of a flat listing.
pub open spec fn flat_lines(nodes: Seq<DirNode>) -> Seq<TreeEntry> {
    Seq::new(nodes.len(), |i: int| TreeEntry { entry: nodes[i].entry, depth: 0 })
}

/// Turns what one read of a directory gave into its listing: the items that
/// could not be read are left out, and the others are put into canonical
/// order. Fails exactly where the directory itself could not be read.
pub fn read_dir_entries(listing: Listing) -> (result: Result<Vec<DirNode>, IoError>)
    ensures
        match listing {
            Ok(items) => result is Ok && result->Ok_0@ == sort_listing(readable(items@)),
            Err(e) => result == Err::<Vec<DirNode>, IoError>(e),
        },
        result is Ok ==> result->Ok_0@ == scan(listing) && is_sorted(result->Ok_0@),
{
    match listing {
        Ok(items) => {
            proof {
                lemma_sort_listing(readable(items@));
            }
            Ok(sort_nodes(keep_readable(items)))
        },
        Err(e) => Err(e),
    }
}

/// Appends to `entries_list` the flattened tree below a directory whose read
/// gave `listing`, with the children of that directory at `current_depth`.
/// Fails, and appends nothing, exactly where the directory itself could not
/// be read; a directory further down that could not be read is shown
/// without children.
pub fn build_recursive_tree(
    listing: Listing,
    current_depth: usize,
    entries_list: &mut Vec<TreeEntry>,
) -> (result: Result<(), IoError>)
    ensures
        final(entries_list)@ == old(entries_list)@ + tree_lines(listing, current_depth),
        preorder(tree_lines(listing, current_depth), current_depth as nat),
        match listing {
            Ok(_) => result is Ok,
            Err(e) => result == Err::<(), IoError>(e),
        },
    decreases listing_weight(listing),
{
    let ghost before = entries_list@;
    proof {
        lemma_tree_preorder(listing, current_depth);
    }
    let entries = match read_dir_entries(listing) {
        Ok(entries) => entries,
        Err(e) => {
            assert(before + tree_lines(listing, current_depth) == before);
            return Err(e);
        },
    };
    let ghost sorted = entries@;
    proof {
        lemma_readable_weight(listing->Ok_0@);
        lemma_sort_weight(readable(listing->Ok_0@));
        assert(flatten(sorted.take(0), current_depth) == Seq::<TreeEntry>::empty());
        assert(before + Seq::<TreeEntry>::empty() == before);
    }
    for node in it: entries
        invariant
            it.seq() == sorted,
            nodes_weight(sorted) < listing_weight(listing),
            entries_list@ == before + flatten(sorted.take(it.index() as int), current_depth),
    {
        let ghost i = it.index() as int;
        let ghost so_far = entries_list@;
        proof {
            assert(sorted.take(i + 1).drop_last() == sorted.take(i));
            assert(sorted.take(i + 1).last() == sorted[i]);
            lemma_node_weight(sorted, i);
        }
        let DirNode { entry, children } = node;
        let is_dir = entry.is_dir();
        entries_list.push(TreeEntry { entry, depth: current_depth });
        if is_dir && current_depth < usize::MAX {
            let _below = build_recursive_tree(children, current_depth + 1, entries_list);
        }
        proof {
            assert(entries_list@ == so_far + branch(sorted[i], current_depth));
            assert(entries_list@ == before + flatten(sorted.take(i + 1), current_depth));
        }
    }
    proof {
        assert(sorted.take(sorted.len() as int) == sorted);
    }
    Ok(())
}

/// Writes the summary of an entry.
pub fn get_entry_info(entry: &Entry) -> (info: String)
    ensures
        info@ == entry_info(*entry),
{
    let mut info = String::new();
    push_line(&mut info, "Name: ", entry.name.as_str());
    assert(info@ =~= line("Name: "@, entry.name@));
    match &entry.metadata {
        Some(metadata) => {
            push_line(&mut info, "Type: ", kind_name(entry.kind));
            push_size_line(&mut info, entry.kind, metadata);
            push_time_line(&mut info, metadata);
            push_mode_line(&mut info, metadata);
        },
        None => {
            info.append("Could not read metadata.\n");
        },
    }
    info
}

} // verus!
