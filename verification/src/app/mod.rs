//! The operations of the browser. Each takes the state from one well-formed
//! value to the next and says in its result what is to be read for it.

use vstd::prelude::*;
use vstd::string::*;
use crate::app::model::read_failure;
use crate::app::request::{Request, RequestView};
use crate::app::state::{App, AppView, PreviewState, TreeEntry};
use crate::fs::entry::{Entry, IoError, Listing};
use crate::fs::entry::{entries_of, DirNode};
use crate::fs::path::{is_markdown_name, parent_of, path_parent};
use crate::fs::flatten::tree_lines;
use crate::fs::{build_recursive_tree, flat_lines, get_entry_info, read_dir_entries, scan};
use crate::tree::{collapse, expand, is_flat, lemma_collapse_preorder, lemma_expand_preorder, subtree_end};

pub mod handler;
pub mod model;
pub mod request;
pub mod state;

verus! {

/// The text of the outcome of reading a file.
pub open spec fn file_text(file: Result<String, IoError>) -> Result<Seq<char>, Seq<char>> {
    match file {
        Ok(source) => Ok(source@),
        Err(e) => Err(e.message@),
    }
}

/// The first level of what was read as lines of a flat listing.
fn flat_entries(listing: Listing) -> (lines: Vec<TreeEntry>)
    ensures
        lines@ == flat_lines(scan(listing)),
{
    let mut lines: Vec<TreeEntry> = Vec::new();
    match read_dir_entries(listing) {
        Ok(nodes) => {
            let ghost all = nodes@;
            for node in it: nodes
                invariant
                    it.seq() == all,
                    lines@ == flat_lines(all.take(it.index() as int)),
            {
                let DirNode { entry, children: _ } = node;
                lines.push(TreeEntry { entry, depth: 0 });
                assert(lines@ =~= flat_lines(all.take(it.index() + 1)));
            }
            assert(all.take(all.len() as int) == all);
        },
        Err(_) => {},
    }
    assert(lines@ =~= flat_lines(scan(listing)));
    lines
}

/// The entries of what was read of the parent.
fn parent_entries(listing: Listing) -> (entries: Vec<Entry>)
    ensures
        entries@ == entries_of(scan(listing)),
{
    let mut entries: Vec<Entry> = Vec::new();
    match read_dir_entries(listing) {
        Ok(nodes) => {
            let ghost all = nodes@;
            for node in it: nodes
                invariant
                    it.seq() == all,
                    entries@ == entries_of(all.take(it.index() as int)),
            {
                let DirNode { entry, children: _ } = node;
                entries.push(entry);
                assert(entries@ =~= entries_of(all.take(it.index() + 1)));
            }
            assert(all.take(all.len() as int) == all);
        },
        Err(_) => {},
    }
    assert(entries@ =~= entries_of(scan(listing)));
    entries
}

impl App {
    /// A browser pointed at `current_path`, with nothing read yet:
    /// `panels_request` says what to read for it.
    pub fn new(current_path: String) -> (app: App)
        ensures
            app@ == AppView::initial(current_path@),
            app.wf(),
    {
        App {
            should_quit: false,
            recursive_view: false,
            current_path,
            current_entries: Vec::new(),
            current_selected: None,
            parent_entries: Vec::new(),
            parent_selected: None,
            preview_content: PreviewState::Empty,
            preview_scroll_offset: 0,
        }
    }

    /// The position of the selected line, where the selection names one.
    fn selected_index(&self) -> (index: Option<usize>)
        ensures
            match index {
                Some(i) => self.current_selected == Some(i) && i < self.current_entries.len()
                    && self@.selected_entry() == Some(self.current_entries@[i as int]),
                None => self@.selected_entry() is None,
            },
    {
        match self.current_selected {
            Some(i) => if i < self.current_entries.len() {
                Some(i)
            } else {
                None
            },
            None => None,
        }
    }

    /// The selected entry, if there is one.
    pub fn get_selected_entry(&self) -> (entry: Option<&Entry>)
        ensures
            match entry {
                Some(entry) => self@.selected_entry() matches Some(line) && line.entry == *entry,
                None => self@.selected_entry() is None,
            },
    {
        match self.selected_index() {
            Some(i) => Some(&self.current_entries[i].entry),
            None => None,
        }
    }

    /// Recomputes the preview for the selected line as far as that needs no
    /// read, and scrolls it to the top. For a Markdown file the preview
    /// stays empty and the result asks for the text of the file, which
    /// `show_file` takes.
    pub fn update_preview(&mut self) -> (request: Request)
        ensures
            final(self)@ == old(self)@.update_preview(),
            request@ == old(self)@.preview_request(),
            old(self).wf() ==> final(self).wf(),
    {
        self.preview_scroll_offset = 0;
        match self.selected_index() {
            None => {
                self.preview_content = PreviewState::Empty;
                Request::Nothing
            },
            Some(i) => {
                let entry = &self.current_entries[i].entry;
                if !entry.is_dir() && is_markdown_name(entry.name.as_str()) {
                    let path = entry.path.clone();
                    self.preview_content = PreviewState::Empty;
                    Request::File { path }
                } else {
                    let info = get_entry_info(entry);
                    self.preview_content = PreviewState::Text(info);
                    Request::Nothing
                }
            },
        }
    }

    /// Takes the outcome of reading the selected Markdown file: the preview
    /// shows its source, or why it could not be read. Where the selected
    /// line is no Markdown file, nothing changes.
    pub fn show_file(&mut self, file: Result<String, IoError>)
        ensures
            final(self)@ == old(self)@.show_file(file_text(file)),
            old(self).wf() ==> final(self).wf(),
    {
        match self.selected_index() {
            None => {},
            Some(i) => {
                let entry = &self.current_entries[i].entry;
                if !entry.is_dir() && is_markdown_name(entry.name.as_str()) {
                    self.preview_scroll_offset = 0;
                    match file {
                        Ok(source) => {
                            self.preview_content = PreviewState::Markdown(source);
                        },
                        Err(e) => {
                            let mut text = String::new();
                            text.append("Error reading file:\n");
                            text.append(e.message.as_str());
                            assert(text@ =~= read_failure(e.message@));
                            self.preview_content = PreviewState::Text(text);
                        },
                    }
                }
            },
        }
    }

    /// What is to be read to fill both panels: the directory that is
    /// browsed, as deep as the view shows it, and its parent if it has one.
    pub fn panels_request(&self) -> (request: Request)
        ensures
            request@ == self@.panels_request(),
    {
        Request::Panels {
            path: self.current_path.clone(),
            recursive: self.recursive_view,
            parent: parent_of(self.current_path.as_str()),
        }
    }

    /// Rebuilds both panels from what was read: the current panel from
    /// `listing`, as a tree where the view is recursive and as its first
    /// level where it is flat, and the parent panel from `parent`. A
    /// directory that could not be read gives an empty panel. The selection
    /// stays where it was, or moves to the last line if the listing has
    /// become too short, or to the first if there was none. The preview is
    /// recomputed as `update_preview` does.
    pub fn update_panels(&mut self, listing: Listing, parent: Option<Listing>) -> (request: Request)
        ensures
            final(self)@ == old(self)@.update_panels(listing, parent),
            request@ == final(self)@.preview_request(),
            final(self).wf(),
            !old(self).recursive_view ==> is_flat(final(self).current_entries@),
    {
        let mut entries: Vec<TreeEntry> = Vec::new();
        if self.recursive_view {
            let _built = build_recursive_tree(listing, 0, &mut entries);
            assert(entries@ =~= tree_lines(listing, 0));
        } else {
            entries = flat_entries(listing);
        }
        self.current_entries = entries;
        let len = self.current_entries.len();
        self.current_selected = if len == 0 {
            None
        } else {
            match self.current_selected {
                Some(i) => Some(if i < len { i } else { len - 1 }),
                None => Some(0),
            }
        };
        self.parent_entries = match parent {
            Some(parent) => parent_entries(parent),
            None => Vec::new(),
        };
        self.parent_selected = Some(0);
        self.update_preview()
    }

    /// Switches between the flat and the recursive view. The listing is
    /// rebuilt by `update_panels` from what the result asks for.
    pub fn toggle_recursive_view(&mut self) -> (request: Request)
        ensures
            final(self)@ == old(self)@.toggle_recursive_view(),
            request@ == final(self)@.panels_request(),
            old(self).wf() ==> final(self).wf(),
    {
        self.recursive_view = !self.recursive_view;
        self.panels_request()
    }

    /// Folds or unfolds the selected directory. One that shows what lies
    /// below it is folded: the lines below it leave the listing. For one
    /// that does not, the result asks for what lies below it, which
    /// `unfold_selected` takes. Nothing happens where no directory is
    /// selected. The selection stays on its line.
    pub fn toggle_fold(&mut self) -> (request: Request)
        ensures
            final(self)@ == old(self)@.toggle_fold(),
            request@ == old(self)@.fold_request(),
            old(self).wf() ==> final(self).wf(),
            final(self).current_selected == old(self).current_selected,
    {
        let i = match self.selected_index() {
            Some(i) => i,
            None => {
                return Request::Nothing;
            },
        };
        if !self.current_entries[i].entry.is_dir() {
            return Request::Nothing;
        }
        let depth = self.current_entries[i].depth;
        let unfolded = i + 1 < self.current_entries.len() && self.current_entries[i + 1].depth > depth;
        if unfolded {
            let end = subtree_end(&self.current_entries, i);
            let mut tail = self.current_entries.split_off(end);
            self.current_entries.truncate(i + 1);
            self.current_entries.append(&mut tail);
            proof {
                assert(self.current_entries@ =~= collapse(old(self).current_entries@, i as int));
                if old(self).wf() {
                    lemma_collapse_preorder(old(self).current_entries@, 0, i as int);
                }
            }
            Request::Nothing
        } else {
            Request::Subtree { path: self.current_entries[i].entry.path.clone() }
        }
    }

    /// Takes what was read below the selected directory and puts it into
    /// the listing directly behind that directory, one level deeper. Where
    /// nothing was found or the directory could not be read, and where the
    /// selected line is no folded directory, nothing changes. The selection
    /// stays on its line.
    pub fn unfold_selected(&mut self, listing: Listing)
        ensures
            final(self)@ == old(self)@.unfold_selected(listing),
            old(self).wf() ==> final(self).wf(),
            final(self).current_selected == old(self).current_selected,
    {
        let i = match self.selected_index() {
            Some(i) => i,
            None => {
                return ;
            },
        };
        if !self.current_entries[i].entry.is_dir() {
            return ;
        }
        let depth = self.current_entries[i].depth;
        if i + 1 < self.current_entries.len() && self.current_entries[i + 1].depth > depth {
            return ;
        }
        if depth == usize::MAX {
            assert(expand(self.current_entries@, i as int, Seq::empty()) =~= self.current_entries@);
            return ;
        }
        let mut tail = self.current_entries.split_off(i + 1);
        let _built = build_recursive_tree(listing, depth + 1, &mut self.current_entries);
        self.current_entries.append(&mut tail);
        let filled: usize = self.current_entries.len();
        proof {
            let before = old(self).current_entries@;
            let under = tree_lines(listing, (depth + 1) as usize);
            assert(self.current_entries@ =~= expand(before, i as int, under));
            if old(self).wf() {
                lemma_expand_preorder(before, 0, i as int, under);
            }
        }
    }

    /// Points the browser at `path`: the view becomes flat, and the current
    /// panel and the preview are empty until `update_panels` has taken what
    /// the result asks for. The selection then stands on the first line.
    pub fn set_directory(&mut self, path: String) -> (request: Request)
        ensures
            final(self)@ == old(self)@.set_directory(path@),
            request@ == final(self)@.panels_request(),
            final(self).wf(),
    {
        self.current_path = path;
        self.recursive_view = false;
        self.current_entries = Vec::new();
        self.current_selected = None;
        self.preview_content = PreviewState::Empty;
        self.preview_scroll_offset = 0;
        self.panels_request()
    }

    /// Goes into the selected directory, as `set_directory` does. Nothing
    /// happens where no directory is selected.
    pub fn enter_directory(&mut self) -> (request: Request)
        ensures
            final(self)@ == old(self)@.enter_directory(),
            request@ == old(self)@.enter_request(),
            old(self).wf() ==> final(self).wf(),
    {
        match self.selected_index() {
            Some(i) => {
                if self.current_entries[i].entry.is_dir() {
                    let path = self.current_entries[i].entry.path.clone();
                    self.set_directory(path)
                } else {
                    Request::Nothing
                }
            },
            None => Request::Nothing,
        }
    }

    /// Goes up to the parent of the directory that is browsed, as
    /// `set_directory` does. Nothing happens where it has no parent.
    pub fn leave_directory(&mut self) -> (request: Request)
        ensures
            final(self)@ == old(self)@.leave_directory(),
            request@ == old(self)@.leave_request(),
            old(self).wf() ==> final(self).wf(),
            path_parent(old(self).current_path@) is None ==> *final(self) == *old(self),
    {
        let parent = parent_of(self.current_path.as_str());
        self.leave_directory_to(parent)
    }

    /// Goes up to `parent`, as `set_directory` does. Nothing happens where
    /// there is none.
    pub fn leave_directory_to(&mut self, parent: Option<String>) -> (request: Request)
        ensures
            match parent {
                Some(parent) => {
                    &&& final(self)@ == old(self)@.set_directory(parent@)
                    &&& request@ == final(self)@.panels_request()
                },
                None => {
                    &&& *final(self) == *old(self)
                    &&& request@ == RequestView::Nothing
                },
            },
            old(self).wf() ==> final(self).wf(),
    {
        match parent {
            Some(parent) => self.set_directory(parent),
            None => Request::Nothing,
        }
    }

    /// Moves the selection one line down, from the last line to the first,
    /// and recomputes the preview as `update_preview` does. Nothing changes
    /// where the listing is empty.
    pub fn select_next(&mut self) -> (request: Request)
        ensures
            final(self)@ == old(self)@.select_next(),
            request@ == final(self)@.preview_request(),
            old(self).wf() ==> final(self).wf(),
            old(self).current_selected matches Some(i) && i + 1 == old(self).current_entries.len()
                ==> final(self).current_selected == Some(0usize),
    {
        let len = self.current_entries.len();
        if len == 0 {
            return Request::Nothing;
        }
        let i = match self.current_selected {
            Some(i) => if i >= len - 1 {
                0
            } else {
                i + 1
            },
            None => 0,
        };
        self.current_selected = Some(i);
        self.update_preview()
    }

    /// Moves the selection one line up, from the first line to the last,
    /// and recomputes the preview as `update_preview` does. Nothing changes
    /// where the listing is empty.
    pub fn select_previous(&mut self) -> (request: Request)
        ensures
            final(self)@ == old(self)@.select_previous(),
            request@ == final(self)@.preview_request(),
            old(self).wf() ==> final(self).wf(),
            old(self).current_selected == Some(0usize) && old(self).current_entries.len() >= 1 ==> (
            final(self).current_selected matches Some(last) && last == old(self).current_entries.len()
                - 1),
    {
        let len = self.current_entries.len();
        if len == 0 {
            return Request::Nothing;
        }
        let i = match self.current_selected {
            Some(i) => if i == 0 {
                len - 1
            } else {
                i - 1
            },
            None => 0,
        };
        self.current_selected = Some(i);
        self.update_preview()
    }

    /// Scrolls the preview one line down. Where the text ends is for the
    /// renderer to know.
    pub fn scroll_preview_down(&mut self)
        ensures
            final(self)@ == old(self)@.scroll_preview_down(),
            old(self).wf() ==> final(self).wf(),
    {
        if self.preview_scroll_offset < u16::MAX {
            self.preview_scroll_offset = self.preview_scroll_offset + 1;
        }
    }

    /// Scrolls the preview one line up, not above the top.
    pub fn scroll_preview_up(&mut self)
        ensures
            final(self)@ == old(self)@.scroll_preview_up(),
            old(self).wf() ==> final(self).wf(),
    {
        if self.preview_scroll_offset > 0 {
            self.preview_scroll_offset = self.preview_scroll_offset - 1;
        }
    }
}

} // verus!
