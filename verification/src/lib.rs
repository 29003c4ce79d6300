//! The core of a file browser with three panels: the parent directory, the
//! current directory as a list or as a tree that folds, and a preview of
//! what is selected.
//!
//! The core never touches the disk or the terminal. It takes keys and what
//! was read, keeps the state, and says what is to be read next; a shell
//! around it does the reading and the drawing.

pub mod app;
pub mod fs;
pub mod laws;
pub mod tree;
pub mod ui;
pub mod utils;

pub use app::handler::HandlerResult;
pub use app::state::{App, PreviewState, TreeEntry};
