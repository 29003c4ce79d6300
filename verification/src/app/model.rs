//! What each operation does, stated on the model of the state.

use vstd::prelude::*;
use crate::app::request::RequestView;
use crate::app::state::{AppView, PreviewView, TreeEntry};
use crate::fs::entry::{entries_of, Listing};
use crate::fs::path::{is_markdown, path_parent};
use crate::fs::flatten::{below, tree_lines};
use crate::fs::info::entry_info;
use crate::fs::{flat_lines, scan};
use crate::tree::{collapse, expand, is_unfolded};

verus! {

/// The line behind line `i` of `len`, the first behind the last.
pub open spec fn next_index(i: usize, len: nat) -> usize {
    if i + 1 >= len {
        0
    } else {
        (i + 1) as usize
    }
}

/// The line before line `i` of `len`, the last before the first.
pub open spec fn previous_index(i: usize, len: nat) -> usize {
    if i == 0 {
        (len - 1) as usize
    } else {
        (i - 1) as usize
    }
}

/// Where a selection stands in a new listing of `len` lines: where it was,
/// or on the last line if the listing has become too short for that; on the
/// first line if there was none.
pub open spec fn clamp_selection(selected: Option<usize>, len: nat) -> Option<usize> {
    if len == 0 {
        None
    } else {
        match selected {
            Some(i) => Some(
                if i < len {
                    i
                } else {
                    (len - 1) as usize
                },
            ),
            None => Some(0),
        }
    }
}

/// The lines of the current panel for what was read of the directory:
/// the whole tree, or its first level only.
pub open spec fn listed(recursive: bool, listing: Listing) -> Seq<TreeEntry> {
    if recursive {
        tree_lines(listing, 0)
    } else {
        flat_lines(scan(listing))
    }
}

/// The entries of the parent panel for what was read of the parent; none
/// where there is no parent or it could not be read.
pub open spec fn parent_listed(parent: Option<Listing>) -> Seq<crate::fs::entry::Entry> {
    match parent {
        Some(listing) => entries_of(scan(listing)),
        None => Seq::empty(),
    }
}

/// The text shown for a file that could not be read.
pub open spec fn read_failure(message: Seq<char>) -> Seq<char> {
    "Error reading file:\n"@ + message
}

/// A line stands for a Markdown file: it is no directory and its name has
/// the extension `md`, in upper or lower case.
pub open spec fn is_markdown_file(line: TreeEntry) -> bool {
    !line.entry.is_dir() && is_markdown(line.entry.name@)
}

/// The preview of a line, given the outcome of reading its file: empty
/// where there is no line; for a directory the summary of the entry; for a
/// Markdown file its source, or why it could not be read; for any other
/// entry the summary again.
pub open spec fn preview_for(
    selected: Option<TreeEntry>,
    file: Result<Seq<char>, Seq<char>>,
) -> PreviewView {
    match selected {
        None => PreviewView::Empty,
        Some(line) => if line.entry.is_dir() {
            PreviewView::Text(entry_info(line.entry))
        } else if is_markdown(line.entry.name@) {
            match file {
                Ok(source) => PreviewView::Markdown(source),
                Err(message) => PreviewView::Text(read_failure(message)),
            }
        } else {
            PreviewView::Text(entry_info(line.entry))
        },
    }
}

impl AppView {
    /// The state of a browser that has just been pointed at `path`.
    pub open spec fn initial(path: Seq<char>) -> AppView {
        AppView {
            should_quit: false,
            recursive_view: false,
            current_path: path,
            current_entries: Seq::empty(),
            current_selected: None,
            parent_entries: Seq::empty(),
            parent_selected: None,
            preview_content: PreviewView::Empty,
            preview_scroll_offset: 0,
        }
    }

    /// The selected line where it stands for a Markdown file.
    pub open spec fn markdown_selected(self) -> Option<TreeEntry> {
        match self.selected_entry() {
            Some(line) if is_markdown_file(line) => Some(line),
            _ => None,
        }
    }

    /// The selected line where it is a directory.
    pub open spec fn directory_selected(self) -> Option<TreeEntry> {
        match self.selected_entry() {
            Some(line) if line.entry.is_dir() => Some(line),
            _ => None,
        }
    }

    /// The selected line where it is a directory that does not show what
    /// lies below it.
    pub open spec fn folded_selected(self) -> Option<TreeEntry> {
        match self.directory_selected() {
            Some(line) if !is_unfolded(self.current_entries, self.current_selected->0 as int) => Some(
                line,
            ),
            _ => None,
        }
    }

    /// The preview of the selected line as far as it needs no read: empty
    /// where nothing is selected and for a Markdown file, whose text is
    /// still to come; the summary of the entry otherwise.
    pub open spec fn summary(self) -> PreviewView {
        match self.selected_entry() {
            None => PreviewView::Empty,
            Some(line) => if is_markdown_file(line) {
                PreviewView::Empty
            } else {
                PreviewView::Text(entry_info(line.entry))
            },
        }
    }

    /// The first half of recomputing the preview.
    pub open spec fn update_preview(self) -> AppView {
        AppView { preview_content: self.summary(), preview_scroll_offset: 0, ..self }
    }

    /// The read that the preview is waiting for.
    pub open spec fn preview_request(self) -> RequestView {
        match self.markdown_selected() {
            Some(line) => RequestView::File { path: line.entry.path@ },
            None => RequestView::Nothing,
        }
    }

    /// The second half of recomputing the preview: the text of the selected
    /// Markdown file, or why it could not be read.
    pub open spec fn show_file(self, file: Result<Seq<char>, Seq<char>>) -> AppView {
        match self.markdown_selected() {
            Some(_) => AppView {
                preview_content: match file {
                    Ok(source) => PreviewView::Markdown(source),
                    Err(message) => PreviewView::Text(read_failure(message)),
                },
                preview_scroll_offset: 0,
                ..self
            },
            None => self,
        }
    }

    /// The read that fills both panels.
    pub open spec fn panels_request(self) -> RequestView {
        RequestView::Panels {
            path: self.current_path,
            recursive: self.recursive_view,
            parent: path_parent(self.current_path),
        }
    }

    /// Both panels rebuilt from what was read.
    pub open spec fn update_panels(self, listing: Listing, parent: Option<Listing>) -> AppView {
        let entries = listed(self.recursive_view, listing);
        AppView {
            current_entries: entries,
            current_selected: clamp_selection(self.current_selected, entries.len()),
            parent_entries: parent_listed(parent),
            parent_selected: Some(0),
            ..self
        }.update_preview()
    }

    /// The view switched; the listing follows when `update_panels` takes
    /// what was read for it.
    pub open spec fn toggle_recursive_view(self) -> AppView {
        AppView { recursive_view: !self.recursive_view, ..self }
    }

    /// A selected directory that shows what lies below it is folded; nothing
    /// else changes.
    pub open spec fn toggle_fold(self) -> AppView {
        match self.directory_selected() {
            Some(_) if is_unfolded(self.current_entries, self.current_selected->0 as int) => AppView {
                current_entries: collapse(self.current_entries, self.current_selected->0 as int),
                ..self
            },
            _ => self,
        }
    }

    /// The read that unfolding the selected directory waits for.
    pub open spec fn fold_request(self) -> RequestView {
        match self.folded_selected() {
            Some(line) => RequestView::Subtree { path: line.entry.path@ },
            None => RequestView::Nothing,
        }
    }

    /// What was read below the selected, folded directory is put in behind
    /// it, one level deeper.
    pub open spec fn unfold_selected(self, listing: Listing) -> AppView {
        match self.folded_selected() {
            Some(line) => AppView {
                current_entries: expand(
                    self.current_entries,
                    self.current_selected->0 as int,
                    below(listing, line.depth),
                ),
                ..self
            },
            None => self,
        }
    }

    /// The browser pointed at another directory, before anything of it has
    /// been read.
    pub open spec fn set_directory(self, path: Seq<char>) -> AppView {
        AppView {
            current_path: path,
            recursive_view: false,
            current_entries: Seq::empty(),
            current_selected: None,
            preview_content: PreviewView::Empty,
            preview_scroll_offset: 0,
            ..self
        }
    }

    /// The browser pointed at the selected directory; unchanged where none
    /// is selected.
    pub open spec fn enter_directory(self) -> AppView {
        match self.directory_selected() {
            Some(line) => self.set_directory(line.entry.path@),
            None => self,
        }
    }

    /// The read that going into the selected directory waits for.
    pub open spec fn enter_request(self) -> RequestView {
        match self.directory_selected() {
            Some(line) => self.set_directory(line.entry.path@).panels_request(),
            None => RequestView::Nothing,
        }
    }

    /// The browser pointed at the parent of its directory; unchanged where
    /// that has none.
    pub open spec fn leave_directory(self) -> AppView {
        match path_parent(self.current_path) {
            Some(parent) => self.set_directory(parent),
            None => self,
        }
    }

    /// The read that going up waits for.
    pub open spec fn leave_request(self) -> RequestView {
        match path_parent(self.current_path) {
            Some(parent) => self.set_directory(parent).panels_request(),
            None => RequestView::Nothing,
        }
    }

    /// The selection moved to `selected`, and the first half of the preview
    /// recomputed.
    pub open spec fn select(self, selected: usize) -> AppView {
        AppView { current_selected: Some(selected), ..self }.update_preview()
    }

    /// The selection one line down, on the first line from the last;
    /// unchanged where the listing is empty.
    pub open spec fn select_next(self) -> AppView {
        if self.current_entries.len() == 0 {
            self
        } else {
            self.select(
                match self.current_selected {
                    Some(i) => next_index(i, self.current_entries.len()),
                    None => 0,
                },
            )
        }
    }

    /// The selection one line up, on the last line from the first;
    /// unchanged where the listing is empty.
    pub open spec fn select_previous(self) -> AppView {
        if self.current_entries.len() == 0 {
            self
        } else {
            self.select(
                match self.current_selected {
                    Some(i) => previous_index(i, self.current_entries.len()),
                    None => 0,
                },
            )
        }
    }

    /// The preview one line further down, as far as the offset can count.
    pub open spec fn scroll_preview_down(self) -> AppView {
        AppView {
            preview_scroll_offset: if self.preview_scroll_offset == u16::MAX {
                u16::MAX
            } else {
                (self.preview_scroll_offset + 1) as u16
            },
            ..self
        }
    }

    /// The preview one line further up, not above the top.
    pub open spec fn scroll_preview_up(self) -> AppView {
        AppView {
            preview_scroll_offset: if self.preview_scroll_offset == 0 {
                0
            } else {
                (self.preview_scroll_offset - 1) as u16
            },
            ..self
        }
    }
}

} // verus!
