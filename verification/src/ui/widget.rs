//! The text of one line of a panel.

use vstd::prelude::*;
use vstd::string::*;
use crate::app::state::TreeEntry;
use crate::fs::entry::Entry;

verus! {

/// The sign that stands before the name of an entry.
pub open spec fn icon(is_dir: bool) -> Seq<char> {
    if is_dir {
        "\u{1F4C1} "@
    } else {
        "\u{1F4C4} "@
    }
}

/// Two spaces for each level of depth.
pub open spec fn indent(depth: nat) -> Seq<char> {
    Seq::new(2 * depth, |i: int| ' ')
}

/// The line of an entry in the parent panel: its sign and its name.
pub open spec fn flat_label(entry: Entry) -> Seq<char> {
    icon(entry.is_dir()) + entry.name@
}

/// The line of an entry in the current panel: indented by its depth, then
/// its sign and its name.
pub open spec fn tree_label(line: TreeEntry) -> Seq<char> {
    indent(line.depth as nat) + icon(line.entry.is_dir()) + line.entry.name@
}

fn icon_of(is_dir: bool) -> (text: &'static str)
    ensures
        text@ == icon(is_dir),
{
    if is_dir {
        "\u{1F4C1} "
    } else {
        "\u{1F4C4} "
    }
}

/// Writes the line of an entry in the current panel.
pub fn format_entry_tree(tree_entry: &TreeEntry) -> (label: String)
    ensures
        label@ == tree_label(*tree_entry),
{
    let mut label = String::new();
    let mut level: usize = 0;
    while level < tree_entry.depth
        invariant
            level <= tree_entry.depth,
            label@ == indent(level as nat),
        decreases tree_entry.depth - level,
    {
        proof {
            reveal_strlit("  ");
        }
        label.append("  ");
        level += 1;
        assert(label@ =~= indent(level as nat));
    }
    label.append(icon_of(tree_entry.entry.is_dir()));
    label.append(tree_entry.entry.name.as_str());
    label
}

/// Writes the line of an entry in the parent panel.
pub fn format_entry_flat(entry: &Entry) -> (label: String)
    ensures
        label@ == flat_label(*entry),
{
    let mut label = String::new();
    label.append(icon_of(entry.is_dir()));
    label.append(entry.name.as_str());
    assert(label@ =~= flat_label(*entry));
    label
}

} // verus!
