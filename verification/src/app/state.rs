//! The state of the browser: the listing of the current directory with its
//! selection, the listing of its parent, and the preview of what is selected.

use vstd::prelude::*;
use crate::fs::entry::Entry;
use crate::tree::preorder;

verus! {

/// What the preview panel shows.
#[derive(Debug, Clone, PartialEq, Eq)]
pub enum PreviewState {
    /// Nothing is selected, or the text to show has not been handed in yet.
    Empty,
    /// Plain text: a summary of the entry, or why its text could not be read.
    Text(String),
    /// The source of a Markdown file.
    Markdown(String),
}

/// A preview as a value of the model.
pub enum PreviewView {
    Empty,
    Text(Seq<char>),
    Markdown(Seq<char>),
}

impl View for PreviewState {
    type V = PreviewView;

    open spec fn view(&self) -> PreviewView {
        match self {
            PreviewState::Empty => PreviewView::Empty,
            PreviewState::Text(text) => PreviewView::Text(text@),
            PreviewState::Markdown(source) => PreviewView::Markdown(source@),
        }
    }
}

/// One line of the current panel: an entry and how deep it lies below the
/// directory that is browsed. The children of that directory have depth 0.
#[derive(Debug, Clone, PartialEq, Eq)]
pub struct TreeEntry {
    pub entry: Entry,
    pub depth: usize,
}

/// All that the browser holds between two commands.
#[derive(Debug, Clone, PartialEq, Eq)]
pub struct App {
    /// For the shell to set where it wants the session to end. No command
    /// sets it.
    pub should_quit: bool,
    /// Whether the current panel lists the whole subtree.
    pub recursive_view: bool,
    /// The directory that is browsed.
    pub current_path: String,
    /// The current panel, a tree flattened in pre-order.
    pub current_entries: Vec<TreeEntry>,
    /// The selected line of the current panel.
    pub current_selected: Option<usize>,
    /// The parent panel: the children of the parent of `current_path`.
    pub parent_entries: Vec<Entry>,
    /// The highlighted line of the parent panel. Nothing acts on it.
    pub parent_selected: Option<usize>,
    pub preview_content: PreviewState,
    /// How many lines the preview is scrolled down.
    pub preview_scroll_offset: u16,
}

/// The state as a value of the model.
pub struct AppView {
    pub should_quit: bool,
    pub recursive_view: bool,
    pub current_path: Seq<char>,
    pub current_entries: Seq<TreeEntry>,
    pub current_selected: Option<usize>,
    pub parent_entries: Seq<Entry>,
    pub parent_selected: Option<usize>,
    pub preview_content: PreviewView,
    pub preview_scroll_offset: u16,
}

impl View for App {
    type V = AppView;

    open spec fn view(&self) -> AppView {
        AppView {
            should_quit: self.should_quit,
            recursive_view: self.recursive_view,
            current_path: self.current_path@,
            current_entries: self.current_entries@,
            current_selected: self.current_selected,
            parent_entries: self.parent_entries@,
            parent_selected: self.parent_selected,
            preview_content: self.preview_content@,
            preview_scroll_offset: self.preview_scroll_offset,
        }
    }
}

/// A selection fits a listing of `len` lines: there is none exactly when the
/// listing is empty, and otherwise it names one of the lines.
pub open spec fn selection_fits(selected: Option<usize>, len: nat) -> bool {
    match selected {
        None => len == 0,
        Some(i) => i < len,
    }
}

impl AppView {
    /// What every operation expects and leaves behind.
    pub open spec fn wf(self) -> bool {
        &&& self.current_entries.len() <= usize::MAX
        &&& selection_fits(self.current_selected, self.current_entries.len())
        &&& preorder(self.current_entries, 0)
    }

    /// The selected line, if there is one.
    pub open spec fn selected_entry(self) -> Option<TreeEntry> {
        match self.current_selected {
            Some(i) if i < self.current_entries.len() => Some(self.current_entries[i as int]),
            _ => None,
        }
    }
}

impl App {
    /// What every operation expects and leaves behind.
    pub open spec fn wf(&self) -> bool {
        self@.wf()
    }
}

} // verus!
