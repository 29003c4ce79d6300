use greenmerald_markdown_renderer::app::request::Request;
use greenmerald_markdown_renderer::fs::build_recursive_tree;
use greenmerald_markdown_renderer::fs::entry::{DirNode, Entry, EntryKind, IoError};
use greenmerald_markdown_renderer::{App, TreeEntry};

type Items = Result<Vec<Result<DirNode, IoError>>, IoError>;

struct Dice(u64);

impl Dice {
    fn roll(&mut self, sides: u64) -> u64 {
        self.0 = self.0.wrapping_mul(6364136223846793005).wrapping_add(1442695040888963407);
        (self.0 >> 33) % sides
    }
}

fn grow(dice: &mut Dice, base: &str, levels: u32) -> Items {
    if dice.roll(8) == 0 {
        return Err(IoError { message: "permission denied".to_string() });
    }
    let count = dice.roll(5);
    let mut items = Vec::new();
    for i in 0..count {
        if dice.roll(10) == 0 {
            items.push(Err(IoError { message: "gone".to_string() }));
            continue;
        }
        let name = format!("n{}_{}", dice.roll(1000), i);
        let path = format!("{}/{}", base, name);
        let is_dir = levels > 0 && dice.roll(2) == 0;
        let children = if is_dir {
            grow(dice, &path, levels - 1)
        } else {
            Err(IoError { message: "not a directory".to_string() })
        };
        items.push(Ok(DirNode {
            entry: Entry {
                name,
                path,
                kind: if is_dir { EntryKind::Directory } else { EntryKind::File },
                metadata: None,
            },
            children,
        }));
    }
    Ok(items)
}

fn copy(items: &Items) -> Items {
    match items {
        Err(e) => Err(e.clone()),
        Ok(list) => Ok(list
            .iter()
            .map(|item| match item {
                Err(e) => Err(e.clone()),
                Ok(node) => Ok(DirNode { entry: node.entry.clone(), children: copy(&node.children) }),
            })
            .collect()),
    }
}

fn walk(items: &Items, depth: usize, out: &mut Vec<TreeEntry>) {
    if let Ok(list) = items {
        let mut nodes: Vec<&DirNode> = list.iter().filter_map(|item| item.as_ref().ok()).collect();
        nodes.sort_by_key(|node| (node.entry.kind != EntryKind::Directory, node.entry.name.clone()));
        for node in nodes {
            out.push(TreeEntry { entry: node.entry.clone(), depth });
            if node.entry.kind == EntryKind::Directory {
                walk(&node.children, depth + 1, out);
            }
        }
    }
}

fn below(items: &Items, path: &str) -> Option<Items> {
    if let Ok(list) = items {
        for node in list.iter().flatten() {
            if node.entry.path == path {
                return Some(copy(&node.children));
            }
            if let Some(found) = below(&node.children, path) {
                return Some(found);
            }
        }
    }
    None
}

fn well_formed(app: &App) -> bool {
    let lines = &app.current_entries;
    let selection = match app.current_selected {
        None => lines.is_empty(),
        Some(i) => i < lines.len(),
    };
    let first = lines.first().map_or(true, |line| line.depth == 0);
    let steps = lines.windows(2).all(|pair| {
        pair[1].depth <= pair[0].depth + 1
            && (pair[1].depth <= pair[0].depth || pair[0].entry.kind == EntryKind::Directory)
    });
    selection && first && steps
}

#[test]
fn built_trees_agree_with_a_plain_walk() {
    let mut dice = Dice(7);
    for _ in 0..200 {
        let sample = grow(&mut dice, "/s", 4);
        let mut expected = Vec::new();
        walk(&sample, 3, &mut expected);
        let mut built = Vec::new();
        let result = build_recursive_tree(copy(&sample), 3, &mut built);
        assert_eq!(result.is_err(), sample.is_err());
        assert_eq!(built, expected);
    }
}

#[test]
fn folding_and_unfolding_every_directory_gives_the_tree_back() {
    let mut dice = Dice(11);
    for _ in 0..60 {
        let sample = grow(&mut dice, "/s", 3);
        let mut app = App::new("/s".to_string());
        app.toggle_recursive_view();
        app.update_panels(copy(&sample), None);
        assert!(well_formed(&app));
        let full = app.current_entries.clone();
        for _ in 0..full.len() {
            let at = app.current_selected.unwrap();
            let line = app.current_entries[at].clone();
            let before = app.clone();
            match app.toggle_fold() {
                Request::Nothing => {
                    assert!(well_formed(&app));
                    if line.entry.kind == EntryKind::Directory {
                        assert!(app.current_entries.len() < before.current_entries.len());
                        let request = app.toggle_fold();
                        assert_eq!(request, Request::Subtree { path: line.entry.path.clone() });
                        app.unfold_selected(below(&sample, &line.entry.path).unwrap());
                    }
                    assert_eq!(app, before);
                }
                Request::Subtree { path } => {
                    assert_eq!(path, line.entry.path);
                    assert_eq!(app, before);
                    app.unfold_selected(below(&sample, &path).unwrap());
                    assert_eq!(app, before);
                }
                other => panic!("{:?}", other),
            }
            assert_eq!(app.current_selected, Some(at));
            app.select_next();
        }
        assert_eq!(app.current_entries, full);
    }
}

#[test]
fn a_flat_listing_unfolds_into_the_tree_step_by_step() {
    let mut dice = Dice(13);
    for _ in 0..60 {
        let sample = grow(&mut dice, "/s", 3);
        let mut expected = Vec::new();
        walk(&sample, 0, &mut expected);
        let mut app = App::new("/s".to_string());
        app.update_panels(copy(&sample), None);
        let mut at = 0;
        while at < app.current_entries.len() {
            app.current_selected = Some(at);
            let folded = at + 1 == app.current_entries.len()
                || app.current_entries[at + 1].depth <= app.current_entries[at].depth;
            if folded {
                if let Request::Subtree { path } = app.toggle_fold() {
                    app.unfold_selected(below(&sample, &path).unwrap());
                }
            }
            assert!(well_formed(&app));
            at += 1;
        }
        assert_eq!(app.current_entries, expected);
    }
}
