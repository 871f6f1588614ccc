use todo_tui::editor::App;
use todo_tui::input::{Action, Key, KeyInput};
use todo_tui::item::TodoItem;
use todo_tui::mode::Mode;
use todo_tui::persist::items_to_save;

fn press(app: &mut App, code: Key) -> Action {
    app.handle_key(KeyInput::press(code))
}

fn texts(app: &App) -> Vec<String> {
    app.todo_list.items.iter().map(|i| i.text.clone()).collect()
}

#[test]
fn session_starts_browsing() {
    let app = App::new(vec![TodoItem::_new("a", false)]);
    assert_eq!(app.current_mode, Mode::Browsing);
    assert_eq!(app.todo_list.selected, None);
    assert_eq!(app.todo_list.items.len(), 1);
}

#[test]
fn new_item_on_empty_list_starts_editing() {
    let mut app = App::new(Vec::new());
    assert_eq!(press(&mut app, Key::Enter), Action::Continue);
    assert_eq!(app.current_mode, Mode::Selecting);
    assert_eq!(press(&mut app, Key::Char('n')), Action::Continue);
    assert_eq!(app.todo_list.items.len(), 1);
    assert_eq!(app.todo_list.items[0].text, "");
    assert!(!app.todo_list.items[0].status);
    assert_eq!(app.current_mode, Mode::Editing);
    assert_eq!(app.todo_list.selected, Some(0));
}

#[test]
fn toggle_complete_keeps_selection() {
    let mut app = App::new(vec![
        TodoItem::_new("buy milk", false),
        TodoItem::_new("walk dog", true),
    ]);
    app.current_mode = Mode::Selecting;
    app.todo_list.selected = Some(0);
    press(&mut app, Key::Char('c'));
    assert!(app.todo_list.items[0].status);
    assert!(app.todo_list.items[1].status);
    assert_eq!(app.todo_list.selected, Some(0));
    assert_eq!(app.current_mode, Mode::Selecting);
}

#[test]
fn delete_last_of_three() {
    let mut app = App::new(vec![
        TodoItem::_new("a", false),
        TodoItem::_new("b", false),
        TodoItem::_new("c", false),
    ]);
    app.current_mode = Mode::Selecting;
    app.todo_list.selected = Some(2);
    press(&mut app, Key::Char('d'));
    assert_eq!(texts(&app), vec!["a", "b"]);
    assert_eq!(app.todo_list.selected, Some(1));
}

#[test]
fn exit_selecting_removes_empty_item() {
    let mut app = App::new(vec![TodoItem::_new("", false)]);
    app.current_mode = Mode::Selecting;
    app.todo_list.selected = Some(0);
    assert_eq!(press(&mut app, Key::Esc), Action::Continue);
    assert!(app.todo_list.items.is_empty());
    assert_eq!(app.todo_list.selected, None);
    assert_eq!(app.current_mode, Mode::Browsing);
}

#[test]
fn force_quit_while_editing_saves_current_items() {
    let mut app = App::new(vec![TodoItem::_new("a", true)]);
    press(&mut app, Key::Enter);
    press(&mut app, Key::Char('n'));
    press(&mut app, Key::Char('h'));
    press(&mut app, Key::Char('i'));
    assert_eq!(app.current_mode, Mode::Editing);
    let r = app.handle_key(KeyInput::ctrl_press(Key::Char('c')));
    assert_eq!(r, Action::Quit);
    assert_eq!(app.current_mode, Mode::Editing);
    let saved = items_to_save(app.todo_list);
    assert_eq!(saved, vec![TodoItem::_new("a", true), TodoItem::_new("hi", false)]);
}

#[test]
fn force_quit_from_every_mode() {
    for mode in [Mode::Browsing, Mode::Selecting, Mode::ConfirmExit] {
        let mut app = App::new(Vec::new());
        app.current_mode = mode;
        assert_eq!(app.handle_key(KeyInput::ctrl_press(Key::Char('C'))), Action::Quit);
        assert_eq!(app.current_mode, mode);
    }
}

#[test]
fn quitting_asks_for_confirmation() {
    let mut app = App::new(Vec::new());
    assert_eq!(press(&mut app, Key::Char('q')), Action::Continue);
    assert_eq!(app.current_mode, Mode::ConfirmExit);
    assert_eq!(press(&mut app, Key::Char('x')), Action::Continue);
    assert_eq!(app.current_mode, Mode::ConfirmExit);
    assert_eq!(press(&mut app, Key::Esc), Action::Continue);
    assert_eq!(app.current_mode, Mode::Browsing);
    press(&mut app, Key::Char('q'));
    assert_eq!(press(&mut app, Key::Char('y')), Action::Quit);
}

#[test]
fn key_releases_are_ignored() {
    let mut app = App::new(Vec::new());
    let release = KeyInput { code: Key::Enter, ctrl: false, release: true };
    assert_eq!(app.handle_key(release), Action::Continue);
    assert_eq!(app.current_mode, Mode::Browsing);
}

#[test]
fn typing_and_erasing_while_editing() {
    let mut app = App::new(vec![TodoItem::_new("ab", false)]);
    press(&mut app, Key::Enter);
    press(&mut app, Key::Down);
    press(&mut app, Key::Enter);
    assert_eq!(app.current_mode, Mode::Editing);
    press(&mut app, Key::Char('q'));
    press(&mut app, Key::Backspace);
    press(&mut app, Key::Backspace);
    press(&mut app, Key::Char('X'));
    assert_eq!(texts(&app), vec!["aX"]);
    press(&mut app, Key::Enter);
    assert_eq!(app.current_mode, Mode::Selecting);
}

#[test]
fn enter_on_empty_list_creates_item_to_edit() {
    let mut app = App::new(Vec::new());
    press(&mut app, Key::Enter);
    press(&mut app, Key::Enter);
    assert_eq!(app.current_mode, Mode::Editing);
    assert_eq!(app.todo_list.items.len(), 1);
    assert_eq!(app.todo_list.selected, Some(0));
}

#[test]
fn enter_without_selection_stays_selecting() {
    let mut app = App::new(vec![TodoItem::_new("a", false)]);
    press(&mut app, Key::Enter);
    press(&mut app, Key::Enter);
    assert_eq!(app.current_mode, Mode::Selecting);
    assert_eq!(app.todo_list.selected, None);
}

#[test]
fn delete_all_completed_from_selecting() {
    let mut app = App::new(vec![
        TodoItem::_new("a", true),
        TodoItem::_new("b", false),
    ]);
    press(&mut app, Key::Enter);
    press(&mut app, Key::Char('j'));
    press(&mut app, Key::Char('j'));
    press(&mut app, Key::Char('D'));
    assert_eq!(texts(&app), vec!["b"]);
    assert_eq!(app.todo_list.selected, Some(0));
}

#[test]
fn navigation_keys_move_and_unselect() {
    let mut app = App::new(vec![
        TodoItem::_new("a", false),
        TodoItem::_new("b", false),
    ]);
    press(&mut app, Key::Right);
    press(&mut app, Key::Char('j'));
    press(&mut app, Key::Char('j'));
    assert_eq!(app.todo_list.selected, Some(1));
    press(&mut app, Key::Up);
    assert_eq!(app.todo_list.selected, Some(0));
    press(&mut app, Key::Char('h'));
    assert_eq!(app.todo_list.selected, None);
    press(&mut app, Key::Char('k'));
    assert_eq!(app.todo_list.selected, Some(0));
    press(&mut app, Key::Left);
    assert_eq!(app.current_mode, Mode::Browsing);
}
