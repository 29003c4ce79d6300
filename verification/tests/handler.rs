use greenmerald_markdown_renderer::app::handler::{key_command, Command, Key, KeyPress, CONTROL};
use greenmerald_markdown_renderer::app::request::Request;
use greenmerald_markdown_renderer::fs::entry::{DirNode, Entry, EntryKind, IoError};
use greenmerald_markdown_renderer::{App, HandlerResult};

type Items = Result<Vec<Result<DirNode, IoError>>, IoError>;

fn failed(message: &str) -> Items {
    Err(IoError { message: message.to_string() })
}

fn item(name: &str, kind: EntryKind) -> Result<DirNode, IoError> {
    Ok(DirNode {
        entry: Entry { name: name.to_string(), path: format!("/w/{}", name), kind, metadata: None },
        children: failed("not read"),
    })
}

fn plain(key: Key) -> KeyPress {
    KeyPress { key, modifiers: 0 }
}

fn browser() -> App {
    let mut app = App::new("/w".to_string());
    app.update_panels(
        Ok(vec![item("d", EntryKind::Directory), item("f", EntryKind::File), item("g.md", EntryKind::File)]),
        None,
    );
    app
}

#[test]
fn each_key_stands_for_its_command() {
    let table = [
        (Key::Char('q'), Some(Command::Quit)),
        (Key::Char('e'), Some(Command::ToggleRecursiveView)),
        (Key::Char('t'), Some(Command::ToggleFold)),
        (Key::Char('j'), Some(Command::SelectNext)),
        (Key::Down, Some(Command::SelectNext)),
        (Key::Char('k'), Some(Command::SelectPrevious)),
        (Key::Up, Some(Command::SelectPrevious)),
        (Key::Char('h'), Some(Command::LeaveDirectory)),
        (Key::Backspace, Some(Command::LeaveDirectory)),
        (Key::Left, Some(Command::LeaveDirectory)),
        (Key::Char('l'), Some(Command::EnterDirectory)),
        (Key::Enter, Some(Command::EnterDirectory)),
        (Key::Right, Some(Command::EnterDirectory)),
        (Key::Char('x'), None),
        (Key::Char('Q'), None),
        (Key::Char('J'), None),
        (Key::Other, None),
    ];
    for (key, command) in table {
        assert_eq!(key_command(plain(key)), command, "{:?}", key);
    }
}

#[test]
fn control_alone_turns_j_and_k_into_scrolling() {
    assert_eq!(key_command(KeyPress { key: Key::Char('j'), modifiers: CONTROL }), Some(Command::ScrollPreviewDown));
    assert_eq!(key_command(KeyPress { key: Key::Char('k'), modifiers: CONTROL }), Some(Command::ScrollPreviewUp));
    assert_eq!(key_command(KeyPress { key: Key::Char('j'), modifiers: CONTROL | 1 }), Some(Command::SelectNext));
    assert_eq!(key_command(KeyPress { key: Key::Char('k'), modifiers: CONTROL | 4 }), Some(Command::SelectPrevious));
    assert_eq!(key_command(KeyPress { key: Key::Char('j'), modifiers: 1 }), Some(Command::SelectNext));
    assert_eq!(key_command(KeyPress { key: Key::Down, modifiers: CONTROL }), Some(Command::SelectNext));
    assert_eq!(key_command(KeyPress { key: Key::Char('q'), modifiers: CONTROL }), Some(Command::Quit));
    assert_eq!(key_command(KeyPress { key: Key::Char('e'), modifiers: CONTROL }), Some(Command::ToggleRecursiveView));
}

#[test]
fn q_quits_and_changes_nothing() {
    let mut app = browser();
    let before = app.clone();
    assert_eq!(app.handle_key_event(plain(Key::Char('q'))), (HandlerResult::Quit, Request::Nothing));
    assert_eq!(app, before);
    assert!(!app.should_quit);
}

#[test]
fn a_key_without_a_command_changes_nothing() {
    let mut app = browser();
    let before = app.clone();
    assert_eq!(app.handle_key_event(plain(Key::Char('z'))), (HandlerResult::Continue, Request::Nothing));
    assert_eq!(app.handle_key_event(plain(Key::Other)), (HandlerResult::Continue, Request::Nothing));
    assert_eq!(app, before);
}

#[test]
fn keys_move_the_selection_and_ask_for_the_preview() {
    let mut app = browser();
    assert_eq!(app.handle_key_event(plain(Key::Char('j'))), (HandlerResult::Continue, Request::Nothing));
    assert_eq!(app.current_selected, Some(1));
    assert_eq!(
        app.handle_key_event(plain(Key::Down)),
        (HandlerResult::Continue, Request::File { path: "/w/g.md".to_string() })
    );
    assert_eq!(app.current_selected, Some(2));
    assert_eq!(app.handle_key_event(plain(Key::Char('k'))), (HandlerResult::Continue, Request::Nothing));
    assert_eq!(app.current_selected, Some(1));
    assert_eq!(app.handle_key_event(plain(Key::Up)), (HandlerResult::Continue, Request::Nothing));
    assert_eq!(app.current_selected, Some(0));
}

#[test]
fn keys_scroll_the_preview() {
    let mut app = browser();
    let down = KeyPress { key: Key::Char('j'), modifiers: CONTROL };
    let up = KeyPress { key: Key::Char('k'), modifiers: CONTROL };
    assert_eq!(app.handle_key_event(down), (HandlerResult::Continue, Request::Nothing));
    assert_eq!(app.handle_key_event(down), (HandlerResult::Continue, Request::Nothing));
    assert_eq!(app.preview_scroll_offset, 2);
    assert_eq!(app.current_selected, Some(0));
    assert_eq!(app.handle_key_event(up), (HandlerResult::Continue, Request::Nothing));
    assert_eq!(app.preview_scroll_offset, 1);
}

#[test]
fn keys_fold_switch_enter_and_leave() {
    let mut app = browser();
    assert_eq!(
        app.handle_key_event(plain(Key::Char('t'))),
        (HandlerResult::Continue, Request::Subtree { path: "/w/d".to_string() })
    );
    assert_eq!(
        app.handle_key_event(plain(Key::Char('e'))),
        (
            HandlerResult::Continue,
            Request::Panels { path: "/w".to_string(), recursive: true, parent: Some("/".to_string()) }
        )
    );
    assert!(app.recursive_view);
    assert_eq!(
        app.handle_key_event(plain(Key::Enter)),
        (
            HandlerResult::Continue,
            Request::Panels { path: "/w/d".to_string(), recursive: false, parent: Some("/w".to_string()) }
        )
    );
    assert_eq!(app.current_path, "/w/d");
    assert_eq!(
        app.handle_key_event(plain(Key::Backspace)),
        (
            HandlerResult::Continue,
            Request::Panels { path: "/w".to_string(), recursive: false, parent: Some("/".to_string()) }
        )
    );
    assert_eq!(app.current_path, "/w");
}

#[test]
fn a_command_does_what_its_operation_does() {
    let mut by_command = browser();
    let mut by_call = browser();
    assert_eq!(by_command.run_command(Command::SelectPrevious).1, by_call.select_previous());
    assert_eq!(by_command, by_call);
    assert_eq!(by_command.run_command(Command::ToggleRecursiveView).1, by_call.toggle_recursive_view());
    assert_eq!(by_command, by_call);
    assert_eq!(by_command.run_command(Command::LeaveDirectory).1, by_call.leave_directory());
    assert_eq!(by_command, by_call);
    assert_eq!(by_command.run_command(Command::Quit).0, HandlerResult::Quit);
    assert_eq!(by_command.run_command(Command::ScrollPreviewDown).0, HandlerResult::Continue);
}
