use todo_tui::item::TodoItem;
use todo_tui::list::TodoList;
use todo_tui::persist::{items_to_save, loaded_items};

#[test]
fn save_drops_blank_items_in_order() {
    let list = TodoList::from_items(vec![
        TodoItem::_new("one", false),
        TodoItem::_new("", true),
        TodoItem::_new("two", true),
        TodoItem::_new("   ", false),
        TodoItem::_new("three", false),
    ]);
    let saved = items_to_save(list);
    assert_eq!(
        saved,
        vec![
            TodoItem::_new("one", false),
            TodoItem::_new("two", true),
            TodoItem::_new("three", false),
        ]
    );
}

#[test]
fn load_of_saved_items_round_trips() {
    let items = vec![
        TodoItem::_new("x", true),
        TodoItem::_new("", false),
        TodoItem::_new("y", false),
    ];
    let saved = items_to_save(TodoList::from_items(items));
    let loaded = loaded_items(Some(saved));
    assert_eq!(loaded, vec![TodoItem::_new("x", true), TodoItem::_new("y", false)]);
    let again = items_to_save(TodoList::from_items(loaded));
    assert_eq!(again, vec![TodoItem::_new("x", true), TodoItem::_new("y", false)]);
}

#[test]
fn failed_load_gives_empty_list() {
    assert!(loaded_items(None).is_empty());
}

#[test]
fn load_drops_blank_entries() {
    let loaded = loaded_items(Some(vec![TodoItem::_new(" ", false), TodoItem::_new("a", false)]));
    assert_eq!(loaded, vec![TodoItem::_new("a", false)]);
}

#[test]
fn save_of_empty_list_is_empty() {
    assert!(items_to_save(TodoList::_new()).is_empty());
}

