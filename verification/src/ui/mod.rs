//! What the renderer is told besides the state itself.

use vstd::prelude::*;

pub mod widget;

verus! {

/// The title of the current panel, which names the view and the key that
/// switches it.
pub open spec fn title_text(recursive_view: bool) -> Seq<char> {
    if recursive_view {
        "Current (Recursive 'e')"@
    } else {
        "Current (Flat 'e')"@
    }
}

/// The title of the current panel.
pub fn current_title(recursive_view: bool) -> (title: &'static str)
    ensures
        title@ == title_text(recursive_view),
{
    if recursive_view {
        "Current (Recursive 'e')"
    } else {
        "Current (Flat 'e')"
    }
}

} // verus!
