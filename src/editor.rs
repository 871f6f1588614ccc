//! The mode state machine and the input dispatcher.
//!
//! Keys, by mode (a control-modified `c` quits at once in every mode):
//! - Browsing: Enter, `l` or Right focuses the list; `q` or Esc asks to quit.
//! - Selecting: `j`/Down and `k`/Up move, `c` toggles completion, `h`
//!   unselects, `n` creates an item and edits it, Enter edits the selected
//!   item (creating one in an empty list), `d` deletes the selected item, `D`
//!   deletes every completed item, and `q`, Esc or Left leaves the list,
//!   removing blank items.
//! - Editing: characters are typed, Backspace/Delete erase, Enter or Esc
//!   stops editing.
//! - ConfirmExit: `y` or Enter quits, `n` or Esc goes back.
use vstd::prelude::*;

use crate::input::{Action, Key, KeyInput};
use crate::item::TodoItem;
use crate::list::{
    append_of, backspace_of, delete_selected_of, insert_new_of, next_of, previous_of,
    remove_completed_of, remove_empty_of, toggle_of, unselect_of, view_items, ListView, TodoList,
};
use crate::mode::Mode;

verus! {

/// The mathematical state of the editor: the active mode and the list.
pub struct AppView {
    pub mode: Mode,
    pub list: ListView,
}

impl AppView {
    /// The list is well formed, and an item is selected whenever one is
    /// being edited.
    pub open spec fn wf(self) -> bool {
        &&& self.list.wf()
        &&& self.mode == Mode::Editing ==> self.list.selected is Some
    }
}

/// The editor in `mode` over `list`.
pub open spec fn in_mode(mode: Mode, list: ListView) -> AppView {
    AppView { mode, list }
}

/// The override that quits from every mode without confirmation.
pub open spec fn is_force_quit(k: KeyInput) -> bool {
    k.ctrl && (k.code == Key::Char('c') || k.code == Key::Char('C'))
}

/// A key pressed while browsing.
pub open spec fn browsing_step(l: ListView, k: Key) -> AppView {
    match k {
        Key::Enter | Key::Char('l') | Key::Right => in_mode(Mode::Selecting, l),
        Key::Esc | Key::Char('q') => in_mode(Mode::ConfirmExit, l),
        _ => in_mode(Mode::Browsing, l),
    }
}

/// A key pressed while the list has focus.
pub open spec fn selecting_step(l: ListView, k: Key) -> AppView {
    match k {
        Key::Char('j') | Key::Down => in_mode(Mode::Selecting, next_of(l)),
        Key::Char('k') | Key::Up => in_mode(Mode::Selecting, previous_of(l)),
        Key::Char('c') => in_mode(Mode::Selecting, toggle_of(l)),
        Key::Char('h') => in_mode(Mode::Selecting, unselect_of(l)),
        Key::Char('n') => in_mode(Mode::Editing, insert_new_of(l)),
        Key::Enter => if l.selected is Some {
            in_mode(Mode::Editing, l)
        } else if l.items.len() == 0 {
            in_mode(Mode::Editing, insert_new_of(l))
        } else {
            in_mode(Mode::Selecting, l)
        },
        Key::Char('d') => in_mode(Mode::Selecting, delete_selected_of(l)),
        Key::Char('D') => in_mode(Mode::Selecting, remove_completed_of(l)),
        Key::Esc | Key::Char('q') | Key::Left => in_mode(Mode::Browsing, remove_empty_of(l)),
        _ => in_mode(Mode::Selecting, l),
    }
}

/// A key pressed while an item is edited.
pub open spec fn editing_step(l: ListView, k: Key) -> AppView {
    match k {
        Key::Esc | Key::Enter => in_mode(Mode::Selecting, l),
        Key::Backspace | Key::Delete => in_mode(Mode::Editing, backspace_of(l)),
        Key::Char(c) => in_mode(Mode::Editing, append_of(l, c)),
        _ => in_mode(Mode::Editing, l),
    }
}

/// A key pressed while confirmation to quit is asked.
pub open spec fn confirm_step(l: ListView, k: Key) -> (AppView, Action) {
    match k {
        Key::Char('y') | Key::Enter => (in_mode(Mode::ConfirmExit, l), Action::Quit),
        Key::Char('n') | Key::Esc => (in_mode(Mode::Browsing, l), Action::Continue),
        _ => (in_mode(Mode::ConfirmExit, l), Action::Continue),
    }
}

/// The editor's response to one key event: the next state and what the host
/// should do. Key releases change nothing.
pub open spec fn step(a: AppView, k: KeyInput) -> (AppView, Action) {
    if k.release {
        (a, Action::Continue)
    } else if is_force_quit(k) {
        (a, Action::Quit)
    } else {
        match a.mode {
            Mode::Browsing => (browsing_step(a.list, k.code), Action::Continue),
            Mode::Selecting => (selecting_step(a.list, k.code), Action::Continue),
            Mode::Editing => (editing_step(a.list, k.code), Action::Continue),
            Mode::ConfirmExit => confirm_step(a.list, k.code),
        }
    }
}

/// Every key event keeps the editor well formed: the selection stays in
/// range, and editing always has an item to edit.
pub proof fn lemma_step_preserves_wf(a: AppView, k: KeyInput)
    requires
        a.wf(),
    ensures
        step(a, k).0.wf(),
{
}

/// The editor: the active mode and the list it works on.
#[derive(Debug)]
pub struct App {
    pub current_mode: Mode,
    pub todo_list: TodoList,
}

impl View for App {
    type V = AppView;

    open spec fn view(&self) -> AppView {
        AppView { mode: self.current_mode, list: self.todo_list@ }
    }
}

impl App {
    pub open spec fn wf(&self) -> bool {
        self@.wf()
    }

    /// A fresh session over the given items: browsing, nothing selected.
    pub fn new(items: Vec<TodoItem>) -> (r: App)
        ensures
            r@ == in_mode(
                Mode::Browsing,
                ListView { items: view_items(items@), selected: None, last_selected: None },
            ),
            r.todo_list.items@ == items@,
            r.wf(),
    {
        App { current_mode: Mode::Browsing, todo_list: TodoList::from_items(items) }
    }

    /// Handles one key event: updates the mode and the list, and tells the
    /// host whether to go on or to quit.
    pub fn handle_key(&mut self, key: KeyInput) -> (r: Action)
        requires
            old(self).wf(),
        ensures
            (final(self)@, r) == step(old(self)@, key),
            final(self).wf(),
    {
        if key.release {
            return Action::Continue;
        }
        if key.ctrl && (key.code == Key::Char('c') || key.code == Key::Char('C')) {
            return Action::Quit;
        }
        match self.current_mode {
            Mode::Browsing => {
                self.browse(key.code);
                Action::Continue
            },
            Mode::Selecting => {
                self.select(key.code);
                Action::Continue
            },
            Mode::Editing => {
                self.edit(key.code);
                Action::Continue
            },
            Mode::ConfirmExit => self.confirm(key.code),
        }
    }

    fn browse(&mut self, k: Key)
        requires
            old(self).wf(),
            old(self).current_mode == Mode::Browsing,
        ensures
            final(self)@ == browsing_step(old(self)@.list, k),
            final(self).wf(),
    {
        match k {
            Key::Enter | Key::Char('l') | Key::Right => self.current_mode = Mode::Selecting,
            Key::Esc | Key::Char('q') => self.current_mode = Mode::ConfirmExit,
            _ => {},
        }
    }

    fn select(&mut self, k: Key)
        requires
            old(self).wf(),
            old(self).current_mode == Mode::Selecting,
        ensures
            final(self)@ == selecting_step(old(self)@.list, k),
            final(self).wf(),
    {
        match k {
            Key::Char('j') | Key::Down => self.todo_list.next(),
            Key::Char('k') | Key::Up => self.todo_list.previous(),
            Key::Char('c') => self.todo_list.toggle_completed(),
            Key::Char('h') => self.todo_list.unselect(),
            Key::Char('n') => {
                self.todo_list.insert_new();
                self.current_mode = Mode::Editing;
            },
            Key::Enter => {
                if self.todo_list.selected.is_some() {
                    self.current_mode = Mode::Editing;
                } else if self.todo_list.items.len() == 0 {
                    self.todo_list.insert_new();
                    self.current_mode = Mode::Editing;
                }
            },
            Key::Char('d') => self.todo_list.delete_selected(),
            Key::Char('D') => self.todo_list.remove_completed(),
            Key::Esc | Key::Char('q') | Key::Left => {
                self.todo_list.remove_empty();
                self.current_mode = Mode::Browsing;
            },
            _ => {},
        }
    }

    fn edit(&mut self, k: Key)
        requires
            old(self).wf(),
            old(self).current_mode == Mode::Editing,
        ensures
            final(self)@ == editing_step(old(self)@.list, k),
            final(self).wf(),
    {
        match k {
            Key::Esc | Key::Enter => self.current_mode = Mode::Selecting,
            Key::Backspace | Key::Delete => self.todo_list.edit_backspace(),
            Key::Char(c) => self.todo_list.edit_append(c),
            _ => {},
        }
    }

    fn confirm(&mut self, k: Key) -> (r: Action)
        requires
            old(self).wf(),
            old(self).current_mode == Mode::ConfirmExit,
        ensures
            (final(self)@, r) == confirm_step(old(self)@.list, k),
            final(self).wf(),
    {
        match k {
            Key::Char('y') | Key::Enter => Action::Quit,
            Key::Char('n') | Key::Esc => {
                self.current_mode = Mode::Browsing;
                Action::Continue
            },
            _ => Action::Continue,
        }
    }
}

} // verus!
