//! What the browser asks of the shell around it. The core reads nothing
//! itself: an operation that needs something from the disk says so in its
//! result, and the shell hands what it read to the operation named there.

use vstd::prelude::*;

verus! {

/// A read that the shell is asked to make.
#[derive(Debug, Clone, PartialEq, Eq)]
pub enum Request {
    /// Nothing is to be read.
    Nothing,
    /// Read the directory `path`, with all that lies below it where
    /// `recursive` is set, and the directory `parent` where one is named;
    /// hand both to `App::update_panels`.
    Panels { path: String, recursive: bool, parent: Option<String> },
    /// Read the directory `path` with all that lies below it; hand it to
    /// `App::unfold_selected`.
    Subtree { path: String },
    /// Read the file `path` as text; hand it to `App::show_file`.
    File { path: String },
}

/// A request as a value of the model.
pub enum RequestView {
    Nothing,
    Panels { path: Seq<char>, recursive: bool, parent: Option<Seq<char>> },
    Subtree { path: Seq<char> },
    File { path: Seq<char> },
}

/// The text of a path that may be absent.
pub open spec fn text_of(path: Option<String>) -> Option<Seq<char>> {
    match path {
        Some(path) => Some(path@),
        None => None,
    }
}

impl View for Request {
    type V = RequestView;

    open spec fn view(&self) -> RequestView {
        match self {
            Request::Nothing => RequestView::Nothing,
            Request::Panels { path, recursive, parent } => RequestView::Panels {
                path: path@,
                recursive: *recursive,
                parent: text_of(*parent),
            },
            Request::Subtree { path } => RequestView::Subtree { path: path@ },
            Request::File { path } => RequestView::File { path: path@ },
        }
    }
}

} // verus!
