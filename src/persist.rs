//! What the persistence gateway keeps when the list is saved or loaded.
//!
//! Reading and writing the file is the host's part; here are the rules on
//! which items are written and which loaded ones are accepted. An item with
//! blank text is never stored.
use vstd::prelude::*;

use crate::item::{ItemView, TodoItem};
use crate::list::{keep_filled, keep_filled_items, lemma_filter_idempotent, filled, view_items, TodoList};

verus! {

/// The items written on save: those with non-blank text, in order.
pub open spec fn save_of(items: Seq<ItemView>) -> Seq<ItemView> {
    keep_filled(items)
}

/// The items a session starts with, given what was read from storage
/// (`None` when the file was missing or could not be read or parsed).
pub open spec fn load_of(parsed: Option<Seq<ItemView>>) -> Seq<ItemView> {
    match parsed {
        Some(items) => keep_filled(items),
        None => Seq::empty(),
    }
}

/// The items to write for a list that is being saved.
pub fn items_to_save(todo_list: TodoList) -> (r: Vec<TodoItem>)
    ensures
        view_items(r@) == save_of(view_items(todo_list.items@)),
{
    keep_filled_items(todo_list.items)
}

/// The items to start a session with, from what was read from storage.
/// A failed read gives an empty list; entries with blank text are dropped.
pub fn loaded_items(parsed: Option<Vec<TodoItem>>) -> (r: Vec<TodoItem>)
    ensures
        view_items(r@) == load_of(
            match parsed {
                Some(v) => Some(view_items(v@)),
                None => None,
            },
        ),
{
    match parsed {
        Some(items) => keep_filled_items(items),
        None => {
            let r: Vec<TodoItem> = Vec::new();
            assert(view_items(r@) =~= Seq::empty());
            r
        },
    }
}

/// Loading what was saved gives back the items with non-blank text, in
/// their order; saving what was loaded writes the same items again.
pub proof fn lemma_save_load_round_trip(items: Seq<ItemView>)
    ensures
        load_of(Some(save_of(items))) == keep_filled(items),
        save_of(load_of(Some(items))) == load_of(Some(items)),
{
    lemma_filter_idempotent(items, |it: ItemView| filled(it));
}

} // verus!
