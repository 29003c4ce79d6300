//! What the browser knows of the file system: plain values that the shell
//! fills in from what it read, and that the core never changes.

use vstd::prelude::*;

verus! {

/// Why a directory, an entry of it or a file could not be read.
#[derive(Debug, Clone, PartialEq, Eq)]
pub struct IoError {
    /// The message of the failed read, as the operating system worded it.
    pub message: String,
}

/// The kind of a directory entry. A link is not followed to find it.
#[derive(Debug, Clone, Copy, PartialEq, Eq, Structural)]
pub enum EntryKind {
    Directory,
    File,
    Symlink,
    Other,
}

/// The metadata of an entry, where it could be had.
#[derive(Debug, Clone, PartialEq, Eq)]
pub struct Metadata {
    /// Length in bytes.
    pub size: u64,
    /// Time of the last change, in whole seconds since the Unix epoch.
    pub modified: Option<u64>,
    /// The mode bits, on platforms that have them.
    pub mode: Option<u32>,
}

/// One child of a directory.
#[derive(Debug, Clone, PartialEq, Eq)]
pub struct Entry {
    /// The last component of `path`.
    pub name: String,
    /// Where the entry lives.
    pub path: String,
    pub kind: EntryKind,
    /// `None` where the metadata could not be read.
    pub metadata: Option<Metadata>,
}

/// What one read of a directory gave: the directory could not be opened, or
/// it gave one item per child, in no particular order, each of which may have
/// failed on its own.
pub type Listing = Result<Vec<Result<DirNode, IoError>>, IoError>;

/// An entry together with what lies below it.
#[derive(Debug, PartialEq, Eq)]
pub struct DirNode {
    pub entry: Entry,
    /// What reading `entry.path` as a directory gave. It is looked at only
    /// where `entry` is a directory, and only by a recursive listing.
    pub children: Listing,
}

impl Entry {
    pub open spec fn spec_is_dir(&self) -> bool {
        self.kind == EntryKind::Directory
    }

    /// Whether the entry is a directory.
    #[verifier::when_used_as_spec(spec_is_dir)]
    pub fn is_dir(&self) -> (dir: bool)
        ensures
            dir == self.spec_is_dir(),
    {
        self.kind == EntryKind::Directory
    }
}

/// The items of a listing that were read, in the order of the listing.
pub open spec fn readable(items: Seq<Result<DirNode, IoError>>) -> Seq<DirNode>
    decreases items.len(),
{
    if items.len() == 0 {
        Seq::empty()
    } else {
        match items.last() {
            Ok(node) => readable(items.drop_last()).push(node),
            Err(_) => readable(items.drop_last()),
        }
    }
}

/// The entries of a sequence of nodes, in order.
pub open spec fn entries_of(nodes: Seq<DirNode>) -> Seq<Entry> {
    Seq::new(nodes.len(), |i: int| nodes[i].entry)
}

/// Drops the items of a listing that could not be read.
pub fn keep_readable(items: Vec<Result<DirNode, IoError>>) -> (nodes: Vec<DirNode>)
    ensures
        nodes@ == readable(items@),
{
    let mut nodes: Vec<DirNode> = Vec::new();
    let ghost all = items@;
    for item in it: items
        invariant
            nodes@ == readable(all.take(it.index() as int)),
            it.seq() == all,
    {
        proof {
            let i = it.index() as int;
            assert(all.take(i + 1).drop_last() == all.take(i));
            assert(all.take(i + 1).last() == all[i]);
        }
        match item {
            Ok(node) => {
                nodes.push(node);
            },
            Err(_) => {},
        }
    }
    proof {
        assert(all.take(all.len() as int) == all);
    }
    nodes
}

} // verus!
