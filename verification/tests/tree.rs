use greenmerald_markdown_renderer::fs::build_recursive_tree;
use greenmerald_markdown_renderer::fs::entry::{DirNode, Entry, EntryKind, IoError};
use greenmerald_markdown_renderer::TreeEntry;

type Items = Result<Vec<Result<DirNode, IoError>>, IoError>;

fn failed(message: &str) -> Items {
    Err(IoError { message: message.to_string() })
}

fn file(base: &str, name: &str) -> Result<DirNode, IoError> {
    Ok(DirNode {
        entry: Entry {
            name: name.to_string(),
            path: format!("{}/{}", base, name),
            kind: EntryKind::File,
            metadata: None,
        },
        children: failed("not a directory"),
    })
}

fn dir(base: &str, name: &str, children: Items) -> Result<DirNode, IoError> {
    Ok(DirNode {
        entry: Entry {
            name: name.to_string(),
            path: format!("{}/{}", base, name),
            kind: EntryKind::Directory,
            metadata: None,
        },
        children,
    })
}

fn shape(lines: &[TreeEntry]) -> Vec<(String, usize)> {
    lines.iter().map(|l| (l.entry.path.clone(), l.depth)).collect()
}

fn pairs(list: &[(&str, usize)]) -> Vec<(String, usize)> {
    list.iter().map(|(p, d)| (p.to_string(), *d)).collect()
}

fn sample() -> Items {
    Ok(vec![
        file("/r", "z.txt"),
        dir(
            "/r",
            "src",
            Ok(vec![
                file("/r/src", "main.rs"),
                dir("/r/src", "app", Ok(vec![file("/r/src/app", "mod.rs")])),
                file("/r/src", "lib.rs"),
            ]),
        ),
        dir("/r", "docs", Ok(vec![])),
        file("/r", "a.txt"),
    ])
}

#[test]
fn a_tree_is_flattened_in_pre_order() {
    let mut out = Vec::new();
    assert_eq!(build_recursive_tree(sample(), 0, &mut out), Ok(()));
    assert_eq!(
        shape(&out),
        pairs(&[
            ("/r/docs", 0),
            ("/r/src", 0),
            ("/r/src/app", 1),
            ("/r/src/app/mod.rs", 2),
            ("/r/src/lib.rs", 1),
            ("/r/src/main.rs", 1),
            ("/r/a.txt", 0),
            ("/r/z.txt", 0),
        ])
    );
}

#[test]
fn every_line_lies_at_most_one_level_below_the_line_before() {
    let mut out = Vec::new();
    build_recursive_tree(sample(), 0, &mut out).unwrap();
    assert_eq!(out[0].depth, 0);
    for i in 0..out.len() - 1 {
        assert!(out[i + 1].depth <= out[i].depth + 1);
        if out[i + 1].depth > out[i].depth {
            assert_eq!(out[i].entry.kind, EntryKind::Directory);
        }
    }
}

#[test]
fn the_tree_is_appended_to_what_the_list_holds() {
    let mut out = Vec::new();
    build_recursive_tree(Ok(vec![dir("/r", "d", failed("later"))]), 0, &mut out).unwrap();
    build_recursive_tree(Ok(vec![file("/r/d", "y"), file("/r/d", "x")]), 1, &mut out).unwrap();
    assert_eq!(shape(&out), pairs(&[("/r/d", 0), ("/r/d/x", 1), ("/r/d/y", 1)]));
}

#[test]
fn a_directory_below_that_could_not_be_read_has_no_children() {
    let listing = Ok(vec![
        dir("/r", "locked", failed("permission denied")),
        dir("/r", "open", Ok(vec![file("/r/open", "f")])),
    ]);
    let mut out = Vec::new();
    assert_eq!(build_recursive_tree(listing, 0, &mut out), Ok(()));
    assert_eq!(shape(&out), pairs(&[("/r/locked", 0), ("/r/open", 0), ("/r/open/f", 1)]));
}

#[test]
fn a_root_that_could_not_be_read_fails_and_adds_nothing() {
    let mut out = vec![TreeEntry {
        entry: Entry {
            name: "kept".to_string(),
            path: "/kept".to_string(),
            kind: EntryKind::File,
            metadata: None,
        },
        depth: 0,
    }];
    let result = build_recursive_tree(failed("no such directory"), 0, &mut out);
    assert_eq!(result, Err(IoError { message: "no such directory".to_string() }));
    assert_eq!(shape(&out), pairs(&[("/kept", 0)]));
}

#[test]
fn what_is_listed_below_a_file_or_a_link_is_not_shown() {
    let mut link = dir("/r", "link", Ok(vec![file("/r/link", "inside")])).unwrap();
    link.entry.kind = EntryKind::Symlink;
    let mut plain = dir("/r", "plain", Ok(vec![file("/r/plain", "inside")])).unwrap();
    plain.entry.kind = EntryKind::File;
    let mut out = Vec::new();
    build_recursive_tree(Ok(vec![Ok(link), Ok(plain)]), 0, &mut out).unwrap();
    assert_eq!(shape(&out), pairs(&[("/r/link", 0), ("/r/plain", 0)]));
}

#[test]
fn items_that_could_not_be_read_are_left_out_at_every_level() {
    let listing = Ok(vec![
        Err(IoError { message: "gone".to_string() }),
        dir(
            "/r",
            "d",
            Ok(vec![Err(IoError { message: "gone".to_string() }), file("/r/d", "f")]),
        ),
    ]);
    let mut out = Vec::new();
    build_recursive_tree(listing, 0, &mut out).unwrap();
    assert_eq!(shape(&out), pairs(&[("/r/d", 0), ("/r/d/f", 1)]));
}

#[test]
fn a_deep_chain_of_directories_counts_its_depth() {
    let mut listing: Items = Ok(vec![file("/deep", "leaf")]);
    for level in (0..50).rev() {
        listing = Ok(vec![dir("/deep", &format!("d{}", level), listing)]);
    }
    let mut out = Vec::new();
    build_recursive_tree(listing, 0, &mut out).unwrap();
    assert_eq!(out.len(), 51);
    for (i, line) in out.iter().enumerate() {
        assert_eq!(line.depth, i);
    }
    assert_eq!(out[50].entry.name, "leaf");
}
