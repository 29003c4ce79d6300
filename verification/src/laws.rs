//! What holds of the library as a whole, proved from the definitions that
//! the contracts of its functions use.

use vstd::prelude::*;
use crate::app::handler::Command;
use crate::app::model::{listed, preview_for};
use crate::app::request::RequestView;
use crate::app::state::{selection_fits, AppView, TreeEntry};
use crate::fs::entry::{readable, Listing};
use crate::fs::flatten::{below, lemma_tree_preorder, tree_lines};
use crate::fs::order::{entry_le, lemma_sort_listing, name_le};
use crate::fs::{flat_lines, scan};
use crate::tree::{
    block_end, is_unfolded, lemma_collapse_preorder, lemma_expand_collapse, lemma_expand_preorder,
    lemma_run_end, preorder, step_fits,
};

verus! {

/// A listing comes out of a scan in canonical order: no directory stands
/// behind an entry that is none, and of two entries that are both
/// directories, or both none, the one with the smaller name stands first.
/// It holds what was read of the directory, each node as often as it was
/// read.
pub proof fn law_scan_order(listing: Listing)
    ensures
        ({
            let out = scan(listing);
            &&& forall|i: int, j: int|
                0 <= i < j < out.len() && (#[trigger] out[j]).entry.is_dir() ==> (
                #[trigger] out[i]).entry.is_dir()
            &&& forall|i: int, j: int|
                0 <= i < j < out.len() && out[i].entry.is_dir() == out[j].entry.is_dir()
                    ==> name_le((#[trigger] out[i]).entry.name@, (#[trigger] out[j]).entry.name@)
            &&& listing matches Ok(items) ==> out.to_multiset() == readable(items@).to_multiset()
        }),
{
    let out = scan(listing);
    match listing {
        Ok(items) => {
            lemma_sort_listing(readable(items@));
            assert forall|i: int, j: int| 0 <= i < j < out.len() implies entry_le(
                (#[trigger] out[i]).entry,
                (#[trigger] out[j]).entry,
            ) by {}
        },
        Err(_) => {},
    }
}

/// In a flattened forest the lines below a line form one block: it begins
/// directly behind the line, all of its lines are deeper than the line,
/// and it ends where the next line that is not deeper stands, or where the
/// listing ends. The block is itself a flattened forest with its roots one
/// level below the line, and only a directory has one.
pub open spec fn blocks_fit(s: Seq<TreeEntry>, i: int) -> bool {
    let end = block_end(s, i);
    &&& i < end <= s.len()
    &&& forall|j: int| i < j < end ==> (#[trigger] s[j]).depth > s[i].depth
    &&& end < s.len() ==> s[end].depth <= s[i].depth
    &&& preorder(s.subrange(i + 1, end), (s[i].depth + 1) as nat)
    &&& end > i + 1 ==> s[i].entry.is_dir()
}

/// Every listing that is built is a flattened forest, and every line of it
/// has its block, as `blocks_fit` says.
pub proof fn law_blocks(listing: Listing, depth: usize, i: int)
    requires
        0 <= i < tree_lines(listing, depth).len(),
    ensures
        preorder(tree_lines(listing, depth), depth as nat),
        blocks_fit(tree_lines(listing, depth), i),
{
    lemma_tree_preorder(listing, depth);
    lemma_block(tree_lines(listing, depth), depth as nat, i);
}

/// The same of any flattened forest, and so of the listing after any
/// folding and unfolding.
pub proof fn lemma_block(s: Seq<TreeEntry>, base: nat, i: int)
    requires
        preorder(s, base),
        0 <= i < s.len(),
    ensures
        blocks_fit(s, i),
{
    let end = block_end(s, i);
    let block = s.subrange(i + 1, end);
    lemma_run_end(s, s[i].depth as int, i + 1);
    if end > i + 1 {
        assert(step_fits(s, i));
        assert(s[i + 1].depth > s[i].depth);
    }
    assert forall|k: int| 0 <= k < block.len() - 1 implies #[trigger] step_fits(block, k) by {
        assert(step_fits(s, i + 1 + k));
    }
    assert forall|k: int| 0 <= k < block.len() implies (#[trigger] block[k]).depth >= s[i].depth
        + 1 by {
        assert(s[i + 1 + k].depth > s[i].depth);
    }
}

/// Unfolding a folded directory and folding it again gives back the state
/// as it was: the same lines in the same order, and the same selection,
/// whatever was read below the directory.
pub proof fn law_fold_unfold(app: AppView, listing: Listing)
    requires
        app.folded_selected() is Some,
    ensures
        app.unfold_selected(listing).toggle_fold() == app,
        app.unfold_selected(listing).current_selected == app.current_selected,
{
    let line = app.folded_selected()->0;
    let i = app.current_selected->0 as int;
    let put_in = below(listing, line.depth);
    let unfolded = app.unfold_selected(listing);
    if line.depth < usize::MAX {
        lemma_tree_preorder(listing, (line.depth + 1) as usize);
    }
    lemma_expand_collapse(app.current_entries, i, put_in);
    assert(unfolded.current_entries[i] == line);
    if put_in.len() == 0 {
        assert(unfolded.current_entries =~= app.current_entries);
    } else {
        assert(unfolded.current_entries[i + 1] == put_in[0]);
        assert(is_unfolded(unfolded.current_entries, i));
    }
}

/// A command leaves the selection fitting the listing: there is none
/// exactly when the listing is empty, and otherwise it names one of the
/// lines. It leaves the listing a flattened forest too.
pub proof fn law_selection_bounds(app: AppView, command: Command)
    requires
        app.wf(),
    ensures
        selection_fits(app.after(command).current_selected, app.after(command).current_entries.len()),
        app.after(command).wf(),
{
    if command == Command::ToggleFold && app.directory_selected() is Some {
        let i = app.current_selected->0 as int;
        lemma_collapse_preorder(app.current_entries, 0, i);
        lemma_run_end(app.current_entries, app.current_entries[i].depth as int, i + 1);
    }
}

/// Taking what was read leaves the state well-formed too, as long as the
/// new listing fits the machine's numbers: the selection fits the listing,
/// and the listing is a flattened forest.
pub proof fn law_answers_keep_selection(
    app: AppView,
    listing: Listing,
    parent: Option<Listing>,
    file: Result<Seq<char>, Seq<char>>,
)
    requires
        app.wf(),
    ensures
        listed(app.recursive_view, listing).len() <= usize::MAX ==> app.update_panels(
            listing,
            parent,
        ).wf(),
        app.unfold_selected(listing).current_entries.len() <= usize::MAX ==> app.unfold_selected(
            listing,
        ).wf(),
        app.show_file(file).wf(),
{
    lemma_tree_preorder(listing, 0);
    let flat = flat_lines(scan(listing));
    assert forall|i: int| 0 <= i < flat.len() - 1 implies #[trigger] step_fits(flat, i) by {}
    if let Some(line) = app.folded_selected() {
        let i = app.current_selected->0 as int;
        if line.depth < usize::MAX {
            lemma_tree_preorder(listing, (line.depth + 1) as usize);
        }
        lemma_expand_preorder(app.current_entries, 0, i, below(listing, line.depth));
    }
}

/// The selection goes round: from the last line the next is the first, and
/// from the first line the previous is the last.
pub proof fn law_wraparound(app: AppView)
    requires
        1 <= app.current_entries.len() <= usize::MAX,
    ensures
        app.current_selected matches Some(last) && last == app.current_entries.len() - 1
            ==> app.select_next().current_selected == Some(0usize),
        app.current_selected == Some(0usize) ==> (app.select_previous().current_selected
            matches Some(last) && last == app.current_entries.len() - 1),
{
}

/// Going into a directory and taking what was read of it gives the flat
/// listing of that directory, with its first line selected, whatever the
/// view was before.
pub proof fn law_enter_lists_flat(app: AppView, listing: Listing, parent: Option<Listing>)
    requires
        app.directory_selected() is Some,
    ensures
        ({
            let entered = app.enter_directory().update_panels(listing, parent);
            &&& !entered.recursive_view
            &&& entered.current_path == app.directory_selected()->0.entry.path@
            &&& entered.current_entries == flat_lines(scan(listing))
            &&& entered.current_selected == if scan(listing).len() == 0 {
                None
            } else {
                Some(0usize)
            }
        }),
{
}

/// The two halves of recomputing the preview make one whole: where no read
/// is asked for, the first half alone gives the preview of the selected
/// line; where one is, the first half and the outcome of the read do. Either
/// way the preview ends scrolled to the top.
pub proof fn law_preview(app: AppView, file: Result<Seq<char>, Seq<char>>)
    ensures
        app.preview_request() == RequestView::Nothing ==> app.update_preview().preview_content
            == preview_for(app.selected_entry(), file),
        app.preview_request() != RequestView::Nothing ==> app.update_preview().show_file(
            file,
        ).preview_content == preview_for(app.selected_entry(), file),
        app.update_preview().preview_scroll_offset == 0,
        app.update_preview().show_file(file).preview_scroll_offset == 0,
{
}

} // verus!
