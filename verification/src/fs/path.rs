//! Paths and names: the parent of a path, and the extension of a file name.

use vstd::prelude::*;
use vstd::string::*;

verus! {

/// The parent of a path as `std::path::Path::parent` gives it on this
/// platform: the path without its last component, or `None` where the path
/// ends in a root or is empty.
pub uninterp spec fn path_parent(path: Seq<char>) -> Option<Seq<char>>;

/// Calls `std::path::Path::parent` on `path`. The contract claims only that
/// what comes back depends on the text of the path and on nothing else;
/// `path_parent` is the name of that result.
#[verifier::external_body]
pub(crate) fn parent_of(path: &str) -> (parent: Option<String>)
    ensures
        match parent {
            Some(p) => path_parent(path@) == Some(p@),
            None => path_parent(path@) is None,
        },
{
    match std::path::Path::new(path).parent() {
        Some(parent) => Some(parent.to_string_lossy().into_owned()),
        None => None,
    }
}

/// The position of the last dot in `name`, or -1 where it has none.
pub open spec fn last_dot(name: Seq<char>) -> int
    decreases name.len(),
{
    if name.len() == 0 {
        -1
    } else if name.last() == '.' {
        name.len() - 1
    } else {
        last_dot(name.drop_last())
    }
}

/// The extension of a file name: what follows its last dot. A name without
/// a dot has none, and neither has one whose only dot is its first
/// character.
pub open spec fn extension(name: Seq<char>) -> Option<Seq<char>> {
    let dot = last_dot(name);
    if dot <= 0 {
        None
    } else {
        Some(name.subrange(dot + 1, name.len() as int))
    }
}

/// `ext` is `md` in upper or lower case.
pub open spec fn is_md(ext: Seq<char>) -> bool {
    &&& ext.len() == 2
    &&& ext[0] == 'm' || ext[0] == 'M'
    &&& ext[1] == 'd' || ext[1] == 'D'
}

/// A file of this name holds Markdown.
pub open spec fn is_markdown(name: Seq<char>) -> bool {
    extension(name) matches Some(ext) && is_md(ext)
}

/// What `last_dot` finds: a dot, with no dot behind it.
pub proof fn lemma_last_dot(name: Seq<char>)
    ensures
        -1 <= last_dot(name) < name.len(),
        last_dot(name) >= 0 ==> name[last_dot(name)] == '.',
        forall|j: int| last_dot(name) < j < name.len() ==> name[j] != '.',
    decreases name.len(),
{
    if name.len() > 0 && name.last() != '.' {
        let front = name.drop_last();
        lemma_last_dot(front);
        assert forall|j: int| last_dot(name) < j < name.len() implies name[j] != '.' by {
            if j < front.len() {
                assert(front[j] == name[j]);
            }
        }
        if last_dot(name) >= 0 {
            assert(front[last_dot(front)] == name[last_dot(name)]);
        }
    }
}

/// Whether a file of this name holds Markdown.
pub fn is_markdown_name(name: &str) -> (md: bool)
    ensures
        md == is_markdown(name@),
{
    proof {
        lemma_last_dot(name@);
    }
    let len = name.unicode_len();
    if len < 4 {
        return false;
    }
    let dot = name.get_char(len - 3);
    let m = name.get_char(len - 2);
    let d = name.get_char(len - 1);
    dot == '.' && (m == 'm' || m == 'M') && (d == 'd' || d == 'D')
}

} // verus!
