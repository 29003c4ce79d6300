//! The summary of an entry that the preview shows.

use vstd::prelude::*;
use vstd::string::*;
use crate::fs::entry::{Entry, EntryKind, Metadata};
use crate::utils::{decimal, format_decimal, format_octal, format_size, octal};

verus! {

/// What a kind is called in the summary of an entry.
pub open spec fn kind_label(kind: EntryKind) -> Seq<char> {
    match kind {
        EntryKind::Directory => "Directory"@,
        EntryKind::File => "File"@,
        EntryKind::Symlink => "Symlink"@,
        EntryKind::Other => "Other"@,
    }
}

/// One line of the summary: a label, a value and a line feed.
pub open spec fn line(label: Seq<char>, value: Seq<char>) -> Seq<char> {
    label + value + "\n"@
}

/// The line that gives the size, which only a file has.
pub open spec fn size_line(kind: EntryKind, metadata: Metadata) -> Seq<char> {
    if kind == EntryKind::File {
        line("Size: "@, decimal(metadata.size as nat))
    } else {
        Seq::empty()
    }
}

/// The line that gives the time of the last change, where it is known.
pub open spec fn time_line(metadata: Metadata) -> Seq<char> {
    match metadata.modified {
        Some(seconds) => line("Modified (epoch): "@, decimal(seconds as nat)),
        None => Seq::empty(),
    }
}

/// The line that gives the permission bits, where the platform has them:
/// the lowest nine bits of the mode, in octal.
pub open spec fn mode_line(metadata: Metadata) -> Seq<char> {
    match metadata.mode {
        Some(mode) => line("Perms: "@, octal((mode & 0o777) as nat)),
        None => Seq::empty(),
    }
}

/// The summary of an entry that the preview shows: its name, and below it
/// what its metadata says or that there is none.
pub open spec fn entry_info(entry: Entry) -> Seq<char> {
    match entry.metadata {
        Some(metadata) => line("Name: "@, entry.name@) + line("Type: "@, kind_label(entry.kind))
            + size_line(entry.kind, metadata) + time_line(metadata) + mode_line(metadata),
        None => line("Name: "@, entry.name@) + "Could not read metadata.\n"@,
    }
}

/// The name of a kind.
pub(crate) fn kind_name(kind: EntryKind) -> (name: &'static str)
    ensures
        name@ == kind_label(kind),
{
    match kind {
        EntryKind::Directory => "Directory",
        EntryKind::File => "File",
        EntryKind::Symlink => "Symlink",
        EntryKind::Other => "Other",
    }
}

/// Appends one line of the summary.
pub(crate) fn push_line(text: &mut String, label: &str, value: &str)
    ensures
        final(text)@ == old(text)@ + line(label@, value@),
{
    text.append(label);
    text.append(value);
    text.append("\n");
    assert(text@ =~= old(text)@ + line(label@, value@));
}

/// Appends the line that gives the size.
pub(crate) fn push_size_line(text: &mut String, kind: EntryKind, metadata: &Metadata)
    ensures
        final(text)@ == old(text)@ + size_line(kind, *metadata),
{
    if kind == EntryKind::File {
        let size = format_size(metadata.size);
        push_line(text, "Size: ", size.as_str());
    } else {
        assert(text@ =~= old(text)@ + Seq::<char>::empty());
    }
}

/// Appends the line that gives the time of the last change.
pub(crate) fn push_time_line(text: &mut String, metadata: &Metadata)
    ensures
        final(text)@ == old(text)@ + time_line(*metadata),
{
    match metadata.modified {
        Some(seconds) => {
            let value = format_decimal(seconds);
            push_line(text, "Modified (epoch): ", value.as_str());
        },
        None => {
            assert(text@ =~= old(text)@ + Seq::<char>::empty());
        },
    }
}

/// Appends the line that gives the permission bits.
pub(crate) fn push_mode_line(text: &mut String, metadata: &Metadata)
    ensures
        final(text)@ == old(text)@ + mode_line(*metadata),
{
    match metadata.mode {
        Some(mode) => {
            let value = format_octal((mode & 0o777) as u64);
            push_line(text, "Perms: ", value.as_str());
        },
        None => {
            assert(text@ =~= old(text)@ + Seq::<char>::empty());
        },
    }
}

} // verus!
