//! A single to-do entry.
use vstd::prelude::*;

use crate::mode::Mode;

verus! {

/// The mathematical content of an item: its text and whether it is done.
pub struct ItemView {
    pub text: Seq<char>,
    pub status: bool,
}

/// One to-do entry: its text, and `status` is true once it is completed.
#[derive(Debug, PartialEq, Eq)]
pub struct TodoItem {
    pub text: String,
    pub status: bool,
}

impl View for TodoItem {
    type V = ItemView;

    open spec fn view(&self) -> ItemView {
        ItemView { text: self.text@, status: self.status }
    }
}

/// The item that a "new item" request creates: empty and not completed.
pub open spec fn empty_item() -> ItemView {
    ItemView { text: Seq::empty(), status: false }
}

/// The text shown for an item in the list: a completion mark, the text, and a
/// trailing cursor while this item is the one being edited.
pub open spec fn list_line_of(it: ItemView, editing_this: bool) -> Seq<char> {
    (if it.status { " ✓ "@ } else { " ☐ "@ }) + it.text + (if editing_this { "_"@ } else { Seq::empty() })
}

impl TodoItem {
    /// An item with the given text and completion flag.
    pub fn _new(item: &str, status: bool) -> (r: TodoItem)
        ensures
            r@ == (ItemView { text: item@, status }),
    {
        TodoItem { text: String::from_str(item), status }
    }

    /// An empty, incomplete item.
    pub fn empty() -> (r: TodoItem)
        ensures
            r@ == empty_item(),
    {
        TodoItem { text: String::new(), status: false }
    }

    /// Flips the completion flag.
    pub fn change_status(&mut self)
        ensures
            final(self)@ == (ItemView { text: old(self)@.text, status: !old(self)@.status }),
    {
        self.status = !self.status;
    }

    /// The line that shows this item at `item_idx` in the list, given the
    /// current selection and mode: the cursor is drawn only on the selected
    /// item while it is being edited.
    pub fn list_line(&self, selected_idx: Option<usize>, item_idx: usize, mode: Mode) -> (r: String)
        ensures
            r@ == list_line_of(self@, selected_idx == Some(item_idx) && mode == Mode::Editing),
    {
        let mut line = if self.status {
            String::from_str(" ✓ ")
        } else {
            String::from_str(" ☐ ")
        };
        line.append(self.text.as_str());
        let editing_this = match selected_idx {
            Some(i) => i == item_idx && mode == Mode::Editing,
            None => false,
        };
        if editing_this {
            line.append("_");
        }
        proof {
            if !editing_this {
                assert(line@ == line@ + Seq::<char>::empty());
            }
        }
        line
    }
}

} // verus!
