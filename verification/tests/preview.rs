use greenmerald_markdown_renderer::app::request::Request;
use greenmerald_markdown_renderer::fs::entry::{DirNode, Entry, EntryKind, IoError, Metadata};
use greenmerald_markdown_renderer::fs::get_entry_info;
use greenmerald_markdown_renderer::fs::path::is_markdown_name;
use greenmerald_markdown_renderer::{App, PreviewState};

type Items = Result<Vec<Result<DirNode, IoError>>, IoError>;

fn failed(message: &str) -> Items {
    Err(IoError { message: message.to_string() })
}

fn item(name: &str, kind: EntryKind, metadata: Option<Metadata>) -> Result<DirNode, IoError> {
    Ok(DirNode {
        entry: Entry { name: name.to_string(), path: format!("/docs/{}", name), kind, metadata },
        children: failed("not read"),
    })
}

fn showing(name: &str, kind: EntryKind, metadata: Option<Metadata>) -> (App, Request) {
    let mut app = App::new("/docs".to_string());
    let request = app.update_panels(Ok(vec![item(name, kind, metadata)]), None);
    (app, request)
}

#[test]
fn scenario_c_a_markdown_file_shows_its_source() {
    let (mut app, request) = showing("readme.md", EntryKind::File, None);
    assert_eq!(request, Request::File { path: "/docs/readme.md".to_string() });
    assert_eq!(app.preview_content, PreviewState::Empty);
    app.scroll_preview_down();
    app.show_file(Ok("# Hi".to_string()));
    assert_eq!(app.preview_content, PreviewState::Markdown("# Hi".to_string()));
    assert_eq!(app.preview_scroll_offset, 0);
}

#[test]
fn a_markdown_file_that_could_not_be_read_shows_why() {
    let (mut app, request) = showing("notes.MD", EntryKind::File, None);
    assert_eq!(request, Request::File { path: "/docs/notes.MD".to_string() });
    app.show_file(Err(IoError { message: "Permission denied (os error 13)".to_string() }));
    assert_eq!(
        app.preview_content,
        PreviewState::Text("Error reading file:\nPermission denied (os error 13)".to_string())
    );
    assert_eq!(app.preview_scroll_offset, 0);
}

#[test]
fn selecting_a_markdown_file_asks_for_its_text() {
    let mut app = App::new("/docs".to_string());
    let first = app.update_panels(
        Ok(vec![item("a.txt", EntryKind::File, None), item("b.md", EntryKind::File, None)]),
        None,
    );
    assert_eq!(first, Request::Nothing);
    assert!(matches!(app.preview_content, PreviewState::Text(_)));
    assert_eq!(app.select_next(), Request::File { path: "/docs/b.md".to_string() });
    assert_eq!(app.preview_content, PreviewState::Empty);
    app.show_file(Ok("text".to_string()));
    assert_eq!(app.preview_content, PreviewState::Markdown("text".to_string()));
    assert_eq!(app.select_previous(), Request::Nothing);
    assert_eq!(app.preview_content, PreviewState::Text("Name: a.txt\nCould not read metadata.\n".to_string()));
    assert_eq!(app.select_previous(), Request::File { path: "/docs/b.md".to_string() });
}

#[test]
fn a_directory_with_a_markdown_name_shows_its_summary() {
    let (mut app, request) = showing("book.md", EntryKind::Directory, None);
    assert_eq!(request, Request::Nothing);
    let summary = PreviewState::Text("Name: book.md\nCould not read metadata.\n".to_string());
    assert_eq!(app.preview_content, summary);
    app.show_file(Ok("# not shown".to_string()));
    assert_eq!(app.preview_content, summary);
}

#[test]
fn a_link_with_a_markdown_name_is_read_as_markdown() {
    let (_, request) = showing("link.md", EntryKind::Symlink, None);
    assert_eq!(request, Request::File { path: "/docs/link.md".to_string() });
}

#[test]
fn text_handed_in_for_another_file_is_not_shown() {
    let (mut app, request) = showing("plain.txt", EntryKind::File, None);
    assert_eq!(request, Request::Nothing);
    app.scroll_preview_down();
    let before = app.clone();
    app.show_file(Ok("# Hi".to_string()));
    assert_eq!(app, before);
    app.show_file(Err(IoError { message: "gone".to_string() }));
    assert_eq!(app, before);
}

#[test]
fn text_handed_in_without_a_selection_is_not_shown() {
    let mut app = App::new("/docs".to_string());
    app.show_file(Ok("# Hi".to_string()));
    assert_eq!(app.preview_content, PreviewState::Empty);
    assert_eq!(app.update_preview(), Request::Nothing);
    assert_eq!(app.preview_content, PreviewState::Empty);
}

#[test]
fn the_extension_md_is_told_in_any_case() {
    for name in ["a.md", "a.MD", "a.Md", "a.mD", "x.y.md", "..md", ".a.md", "\u{e9}.md", "a b.md"] {
        assert!(is_markdown_name(name), "{:?}", name);
    }
    for name in [
        "", "md", ".md", "amd", "a.mdx", "a.md.txt", "a.md.", "a.m", "a.d", "a.txt", "a.nd", "a.me", "a_md", "a.md ",
        "a..", "readme",
    ] {
        assert!(!is_markdown_name(name), "{:?}", name);
    }
}

#[test]
fn the_summary_of_a_file_gives_size_time_and_permissions() {
    let entry = Entry {
        name: "a.txt".to_string(),
        path: "/docs/a.txt".to_string(),
        kind: EntryKind::File,
        metadata: Some(Metadata { size: 1234, modified: Some(1_700_000_000), mode: Some(0o100644) }),
    };
    assert_eq!(
        get_entry_info(&entry),
        "Name: a.txt\nType: File\nSize: 1234\nModified (epoch): 1700000000\nPerms: 644\n"
    );
}

#[test]
fn the_summary_of_a_directory_leaves_out_the_size() {
    let entry = Entry {
        name: "src".to_string(),
        path: "/docs/src".to_string(),
        kind: EntryKind::Directory,
        metadata: Some(Metadata { size: 4096, modified: Some(0), mode: Some(0o40755) }),
    };
    assert_eq!(get_entry_info(&entry), "Name: src\nType: Directory\nModified (epoch): 0\nPerms: 755\n");
}

#[test]
fn the_summary_names_links_and_other_kinds() {
    let mut entry = Entry {
        name: "l".to_string(),
        path: "/docs/l".to_string(),
        kind: EntryKind::Symlink,
        metadata: Some(Metadata { size: 7, modified: None, mode: None }),
    };
    assert_eq!(get_entry_info(&entry), "Name: l\nType: Symlink\n");
    entry.kind = EntryKind::Other;
    entry.metadata = Some(Metadata { size: 7, modified: None, mode: Some(0o7777) });
    assert_eq!(get_entry_info(&entry), "Name: l\nType: Other\nPerms: 777\n");
    entry.metadata = Some(Metadata { size: 7, modified: Some(5), mode: Some(0) });
    assert_eq!(get_entry_info(&entry), "Name: l\nType: Other\nModified (epoch): 5\nPerms: 0\n");
}

#[test]
fn the_summary_says_where_there_is_no_metadata() {
    let entry = Entry {
        name: "ghost".to_string(),
        path: "/docs/ghost".to_string(),
        kind: EntryKind::File,
        metadata: None,
    };
    assert_eq!(get_entry_info(&entry), "Name: ghost\nCould not read metadata.\n");
}

#[test]
fn the_preview_of_a_file_is_its_summary() {
    let metadata = Metadata { size: 0, modified: Some(12), mode: Some(0o600) };
    let (app, request) = showing("empty.bin", EntryKind::File, Some(metadata));
    assert_eq!(request, Request::Nothing);
    assert_eq!(
        app.preview_content,
        PreviewState::Text("Name: empty.bin\nType: File\nSize: 0\nModified (epoch): 12\nPerms: 600\n".to_string())
    );
}

#[test]
fn scrolling_stops_at_the_top() {
    let (mut app, _) = showing("a.txt", EntryKind::File, None);
    assert_eq!(app.preview_scroll_offset, 0);
    app.scroll_preview_up();
    assert_eq!(app.preview_scroll_offset, 0);
    app.scroll_preview_down();
    app.scroll_preview_down();
    assert_eq!(app.preview_scroll_offset, 2);
    app.scroll_preview_up();
    assert_eq!(app.preview_scroll_offset, 1);
    app.scroll_preview_up();
    app.scroll_preview_up();
    assert_eq!(app.preview_scroll_offset, 0);
}

#[test]
fn scrolling_stops_at_the_largest_offset() {
    let (mut app, _) = showing("a.txt", EntryKind::File, None);
    app.preview_scroll_offset = u16::MAX - 1;
    app.scroll_preview_down();
    assert_eq!(app.preview_scroll_offset, u16::MAX);
    app.scroll_preview_down();
    assert_eq!(app.preview_scroll_offset, u16::MAX);
}

#[test]
fn moving_the_selection_scrolls_the_preview_to_the_top() {
    let mut app = App::new("/docs".to_string());
    app.update_panels(
        Ok(vec![item("a.txt", EntryKind::File, None), item("b.txt", EntryKind::File, None)]),
        None,
    );
    app.scroll_preview_down();
    app.scroll_preview_down();
    app.select_next();
    assert_eq!(app.preview_scroll_offset, 0);
    app.scroll_preview_down();
    app.select_previous();
    assert_eq!(app.preview_scroll_offset, 0);
    app.scroll_preview_down();
    app.update_panels(Ok(vec![item("a.txt", EntryKind::File, None)]), None);
    assert_eq!(app.preview_scroll_offset, 0);
}
