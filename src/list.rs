//! The list store: the ordered items and the selection cursor over them.
//!
//! Navigation clamps at both ends of the list: moving past the last item or
//! before the first one keeps the selection where it is.
use vstd::prelude::*;

use crate::item::{empty_item, ItemView, TodoItem};
use crate::text::{blank, is_blank, pop_char, push_char};

verus! {

/// The items of a vector as mathematical values.
pub open spec fn view_items(v: Seq<TodoItem>) -> Seq<ItemView> {
    v.map_values(|t: TodoItem| t@)
}

/// The mathematical content of a list store.
pub struct ListView {
    pub items: Seq<ItemView>,
    pub selected: Option<usize>,
    pub last_selected: Option<usize>,
}

impl ListView {
    /// The selection, when present, is a valid index; an empty list has none.
    pub open spec fn wf(self) -> bool {
        match self.selected {
            Some(i) => i < self.items.len(),
            None => true,
        }
    }
}

/// `j` brought into the index range of a list of `n > 0` items.
pub open spec fn clamp_index(j: usize, n: nat) -> usize {
    if j < n {
        j
    } else {
        (n - 1) as usize
    }
}

/// Where navigation starts when nothing is selected: the remembered
/// selection, brought into range, else the first item.
pub open spec fn restored_index(l: ListView) -> usize {
    match l.last_selected {
        Some(j) => clamp_index(j, l.items.len()),
        None => 0,
    }
}

/// `l` with its selection replaced by `s`.
pub open spec fn with_selected(l: ListView, s: Option<usize>) -> ListView {
    ListView { items: l.items, selected: s, last_selected: l.last_selected }
}

/// One step down; stays on the last item.
pub open spec fn next_of(l: ListView) -> ListView {
    if l.items.len() == 0 {
        l
    } else {
        let i = match l.selected {
            Some(i) => if i + 1 < l.items.len() {
                (i + 1) as usize
            } else {
                (l.items.len() - 1) as usize
            },
            None => restored_index(l),
        };
        with_selected(l, Some(i))
    }
}

/// One step up; stays on the first item.
pub open spec fn previous_of(l: ListView) -> ListView {
    if l.items.len() == 0 {
        l
    } else {
        let i = match l.selected {
            Some(i) => if i == 0 {
                0
            } else {
                clamp_index((i - 1) as usize, l.items.len())
            },
            None => restored_index(l),
        };
        with_selected(l, Some(i))
    }
}

/// Drops the selection and remembers it.
pub open spec fn unselect_of(l: ListView) -> ListView {
    ListView { items: l.items, selected: None, last_selected: l.selected }
}

/// Appends an empty item and selects it.
pub open spec fn insert_new_of(l: ListView) -> ListView {
    ListView {
        items: l.items.push(empty_item()),
        selected: Some(l.items.len() as usize),
        last_selected: l.selected,
    }
}

/// Removes the selected item. The selection then stays at the same index,
/// moves to the new last item when the last one was removed, and is dropped
/// when the list becomes empty.
pub open spec fn delete_selected_of(l: ListView) -> ListView {
    match l.selected {
        Some(i) if i < l.items.len() => {
            let items = l.items.remove(i as int);
            let selected = if items.len() == 0 {
                None
            } else if i == items.len() {
                Some((i - 1) as usize)
            } else {
                Some(i)
            };
            ListView { items, selected, last_selected: l.last_selected }
        },
        _ => l,
    }
}

/// `l` with the selected item replaced by `it`.
pub open spec fn update_selected(l: ListView, it: ItemView) -> ListView {
    match l.selected {
        Some(i) if i < l.items.len() => ListView {
            items: l.items.update(i as int, it),
            selected: l.selected,
            last_selected: l.last_selected,
        },
        _ => l,
    }
}

/// The selected item, if any.
pub open spec fn selected_item(l: ListView) -> ItemView {
    l.items[l.selected.unwrap() as int]
}

/// Flips the completion flag of the selected item.
pub open spec fn toggle_of(l: ListView) -> ListView {
    let it = selected_item(l);
    update_selected(l, ItemView { text: it.text, status: !it.status })
}

/// Types one character at the end of the selected item's text.
pub open spec fn append_of(l: ListView, c: char) -> ListView {
    let it = selected_item(l);
    update_selected(l, ItemView { text: it.text.push(c), status: it.status })
}

/// Erases the last character of the selected item's text, if there is one.
pub open spec fn backspace_of(l: ListView) -> ListView {
    let it = selected_item(l);
    if it.text.len() == 0 {
        l
    } else {
        update_selected(l, ItemView { text: it.text.drop_last(), status: it.status })
    }
}

/// An item worth keeping: its text is not blank.
pub open spec fn filled(it: ItemView) -> bool {
    !blank(it.text)
}

/// The items whose text is not blank, in their order.
pub open spec fn keep_filled(s: Seq<ItemView>) -> Seq<ItemView> {
    s.filter(|it: ItemView| filled(it))
}

/// The items not yet completed, in their order.
pub open spec fn keep_open(s: Seq<ItemView>) -> Seq<ItemView> {
    s.filter(|it: ItemView| !it.status)
}

/// Brings a selection that fell past the end back onto the last item, or
/// drops it when no item is left.
pub open spec fn reclamp(l: ListView) -> ListView {
    match l.selected {
        Some(i) if i >= l.items.len() => with_selected(
            l,
            if l.items.len() == 0 {
                None
            } else {
                Some((l.items.len() - 1) as usize)
            },
        ),
        _ => l,
    }
}

/// Removes every item with blank text, then re-clamps the selection.
pub open spec fn remove_empty_of(l: ListView) -> ListView {
    reclamp(ListView { items: keep_filled(l.items), selected: l.selected, last_selected: l.last_selected })
}

/// Removes every completed item, then re-clamps the selection.
pub open spec fn remove_completed_of(l: ListView) -> ListView {
    reclamp(ListView { items: keep_open(l.items), selected: l.selected, last_selected: l.last_selected })
}

/// Filtering a sequence extended by one element.
pub proof fn lemma_filter_push(s: Seq<ItemView>, x: ItemView, p: spec_fn(ItemView) -> bool)
    ensures
        s.push(x).filter(p) == (if p(x) {
            s.filter(p).push(x)
        } else {
            s.filter(p)
        }),
{
    reveal(Seq::filter);
    assert(s.push(x).drop_last() =~= s);
}

proof fn lemma_view_items_push(v: Seq<TodoItem>, t: TodoItem)
    ensures
        view_items(v.push(t)) == view_items(v).push(t@),
{
    assert(view_items(v.push(t)) =~= view_items(v).push(t@));
}

/// The items of `items` whose text is not blank, in their order.
pub fn keep_filled_items(items: Vec<TodoItem>) -> (r: Vec<TodoItem>)
    ensures
        view_items(r@) == keep_filled(view_items(items@)),
{
    let ghost orig = items@;
    let mut kept: Vec<TodoItem> = Vec::new();
    for it in iter: items.into_iter()
        invariant
            iter.seq() == orig,
            view_items(kept@) == keep_filled(view_items(orig.take(iter.index() as int))),
    {
        proof {
            let k = iter.index() as int;
            assert(orig.take(k + 1) =~= orig.take(k).push(orig[k]));
            lemma_view_items_push(orig.take(k), orig[k]);
            lemma_filter_push(view_items(orig.take(k)), orig[k]@, |it: ItemView| filled(it));
        }
        let keep = !is_blank(it.text.as_str());
        if keep {
            proof {
                lemma_view_items_push(kept@, it);
            }
            kept.push(it);
        }
    }
    assert(orig.take(orig.len() as int) =~= orig);
    kept
}

/// The items of `items` not yet completed, in their order.
pub fn keep_open_items(items: Vec<TodoItem>) -> (r: Vec<TodoItem>)
    ensures
        view_items(r@) == keep_open(view_items(items@)),
{
    let ghost orig = items@;
    let mut kept: Vec<TodoItem> = Vec::new();
    for it in iter: items.into_iter()
        invariant
            iter.seq() == orig,
            view_items(kept@) == keep_open(view_items(orig.take(iter.index() as int))),
    {
        proof {
            let k = iter.index() as int;
            assert(orig.take(k + 1) =~= orig.take(k).push(orig[k]));
            lemma_view_items_push(orig.take(k), orig[k]);
            lemma_filter_push(view_items(orig.take(k)), orig[k]@, |it: ItemView| !it.status);
        }
        if !it.status {
            proof {
                lemma_view_items_push(kept@, it);
            }
            kept.push(it);
        }
    }
    assert(orig.take(orig.len() as int) =~= orig);
    kept
}

/// A navigation key: one step down or one step up the list.
pub enum Move {
    Down,
    Up,
}

/// The list after the given navigation steps, taken in order.
pub open spec fn navigate(l: ListView, moves: Seq<Move>) -> ListView
    decreases moves.len(),
{
    if moves.len() == 0 {
        l
    } else {
        let before = navigate(l, moves.drop_last());
        match moves.last() {
            Move::Down => next_of(before),
            Move::Up => previous_of(before),
        }
    }
}

/// On a non-empty list, navigation never leaves the selection out of range:
/// after any non-empty sequence of steps an item is selected and its index
/// is valid, and a valid selection stays valid. The items are untouched.
pub proof fn lemma_navigation_keeps_selection_valid(l: ListView, moves: Seq<Move>)
    requires
        l.items.len() > 0,
    ensures
        navigate(l, moves).items == l.items,
        l.wf() ==> navigate(l, moves).wf(),
        moves.len() > 0 ==> navigate(l, moves).selected is Some && navigate(l, moves).wf(),
    decreases moves.len(),
{
    if moves.len() > 0 {
        lemma_navigation_keeps_selection_valid(l, moves.drop_last());
    }
}

/// Deleting the last item of a list moves the selection to the new last
/// item, or drops it when the list becomes empty.
pub proof fn lemma_delete_last_selects_new_last(l: ListView, i: usize)
    requires
        l.selected == Some(i),
        i + 1 == l.items.len(),
    ensures
        delete_selected_of(l).items == l.items.remove(i as int),
        delete_selected_of(l).items.len() == 0 ==> delete_selected_of(l).selected is None,
        delete_selected_of(l).items.len() > 0 ==> (delete_selected_of(l).selected matches Some(j)
            && j + 1 == delete_selected_of(l).items.len()),
{
}

/// Filtering twice by the same predicate is filtering once.
pub proof fn lemma_filter_idempotent(s: Seq<ItemView>, p: spec_fn(ItemView) -> bool)
    ensures
        s.filter(p).filter(p) == s.filter(p),
    decreases s.len(),
{
    reveal(Seq::filter);
    if s.len() > 0 {
        let t = s.drop_last().filter(p);
        lemma_filter_idempotent(s.drop_last(), p);
        lemma_filter_push(t, s.last(), p);
    }
}

/// Removing blank items a second time changes nothing.
pub proof fn lemma_remove_empty_idempotent(l: ListView)
    ensures
        remove_empty_of(remove_empty_of(l)) == remove_empty_of(l),
{
    lemma_filter_idempotent(l.items, |it: ItemView| filled(it));
}

/// A list store: the items in display order, the current selection, and the
/// selection remembered by the last `unselect`.
#[derive(Debug)]
pub struct TodoList {
    pub items: Vec<TodoItem>,
    pub selected: Option<usize>,
    pub last_selected: Option<usize>,
}

impl View for TodoList {
    type V = ListView;

    open spec fn view(&self) -> ListView {
        ListView {
            items: view_items(self.items@),
            selected: self.selected,
            last_selected: self.last_selected,
        }
    }
}

impl TodoList {
    pub open spec fn wf(&self) -> bool {
        self@.wf()
    }

    /// An empty list with nothing selected.
    pub fn _new() -> (r: TodoList)
        ensures
            r@ == (ListView { items: Seq::empty(), selected: None, last_selected: None }),
    {
        let r = TodoList { items: Vec::new(), selected: None, last_selected: None };
        assert(view_items(r.items@) =~= Seq::empty());
        r
    }

    /// A list of the given items with nothing selected.
    pub fn from_items(items: Vec<TodoItem>) -> (r: TodoList)
        ensures
            r@ == (ListView { items: view_items(items@), selected: None, last_selected: None }),
            r.items@ == items@,
    {
        TodoList { items, selected: None, last_selected: None }
    }

    /// Moves the selection one item down, stopping at the last item. With
    /// nothing selected it restores the remembered selection. No-op on an
    /// empty list.
    pub fn next(&mut self)
        ensures
            final(self)@ == next_of(old(self)@),
    {
        if self.items.len() == 0 {
            return ;
        }
        let n = self.items.len();
        let i = match self.selected {
            Some(i) => if i >= n - 1 {
                n - 1
            } else {
                i + 1
            },
            None => self.restored_index(),
        };
        self.selected = Some(i);
    }

    /// Moves the selection one item up, stopping at the first item. With
    /// nothing selected it restores the remembered selection. No-op on an
    /// empty list.
    pub fn previous(&mut self)
        ensures
            final(self)@ == previous_of(old(self)@),
    {
        if self.items.len() == 0 {
            return ;
        }
        let n = self.items.len();
        let i = match self.selected {
            Some(i) => if i == 0 {
                0
            } else if i - 1 < n {
                i - 1
            } else {
                n - 1
            },
            None => self.restored_index(),
        };
        self.selected = Some(i);
    }

    fn restored_index(&self) -> (r: usize)
        requires
            self.items.len() > 0,
        ensures
            r == restored_index(self@),
    {
        match self.last_selected {
            Some(j) => if j < self.items.len() {
                j
            } else {
                self.items.len() - 1
            },
            None => 0,
        }
    }

    /// Drops the selection, remembering it for the next navigation.
    pub fn unselect(&mut self)
        ensures
            final(self)@ == unselect_of(old(self)@),
    {
        self.last_selected = self.selected;
        self.selected = None;
    }

    /// Appends an empty item and selects it.
    pub fn insert_new(&mut self)
        ensures
            final(self)@ == insert_new_of(old(self)@),
    {
        self.items.push(TodoItem::empty());
        self.last_selected = self.selected;
        self.selected = Some(self.items.len() - 1);
        assert(view_items(self.items@) =~= view_items(old(self).items@).push(empty_item()));
    }

    /// Removes the selected item; no-op when nothing is selected.
    pub fn delete_selected(&mut self)
        requires
            old(self).wf(),
        ensures
            final(self)@ == delete_selected_of(old(self)@),
            final(self).wf(),
    {
        if let Some(i) = self.selected {
            self.items.remove(i);
            assert(view_items(self.items@) =~= view_items(old(self).items@).remove(i as int));
            if self.items.len() == 0 {
                self.selected = None;
            } else if i == self.items.len() {
                self.selected = Some(i - 1);
            }
        }
    }

    /// Flips the completion flag of the selected item; no-op when nothing is
    /// selected.
    pub fn toggle_completed(&mut self)
        requires
            old(self).wf(),
        ensures
            final(self)@ == toggle_of(old(self)@),
    {
        if let Some(i) = self.selected {
            self.items[i].change_status();
            assert(view_items(self.items@) =~= view_items(old(self).items@).update(
                i as int,
                ItemView { text: old(self)@.items[i as int].text, status: !old(self)@.items[i as int].status },
            ));
        }
    }

    /// Types `c` at the end of the selected item's text.
    pub fn edit_append(&mut self, c: char)
        requires
            old(self).wf(),
            old(self).selected is Some,
        ensures
            final(self)@ == append_of(old(self)@, c),
    {
        let i = self.selected.unwrap();
        push_char(&mut self.items[i].text, c);
        assert(view_items(self.items@) =~= view_items(old(self).items@).update(
            i as int,
            ItemView { text: old(self)@.items[i as int].text.push(c), status: old(self)@.items[i as int].status },
        ));
    }

    /// Erases the last character of the selected item's text, if any.
    pub fn edit_backspace(&mut self)
        requires
            old(self).wf(),
            old(self).selected is Some,
        ensures
            final(self)@ == backspace_of(old(self)@),
    {
        let i = self.selected.unwrap();
        let _ = pop_char(&mut self.items[i].text);
        proof {
            let it = old(self)@.items[i as int];
            if it.text.len() == 0 {
                assert(view_items(self.items@) =~= view_items(old(self).items@));
            } else {
                assert(view_items(self.items@) =~= view_items(old(self).items@).update(
                    i as int,
                    ItemView { text: it.text.drop_last(), status: it.status },
                ));
            }
        }
    }
    fn reclamp(&mut self)
        ensures
            final(self)@ == reclamp(old(self)@),
            final(self).wf(),
    {
        if let Some(i) = self.selected {
            if i >= self.items.len() {
                self.selected = if self.items.len() == 0 {
                    None
                } else {
                    Some(self.items.len() - 1)
                };
            }
        }
    }

    /// Removes every item whose text is blank, then brings the selection
    /// back into range.
    pub fn remove_empty(&mut self)
        ensures
            final(self)@ == remove_empty_of(old(self)@),
            final(self).wf(),
    {
        let mut items: Vec<TodoItem> = Vec::new();
        std::mem::swap(&mut items, &mut self.items);
        self.items = keep_filled_items(items);
        self.reclamp();
    }

    /// Removes every completed item, then brings the selection back into
    /// range.
    pub fn remove_completed(&mut self)
        ensures
            final(self)@ == remove_completed_of(old(self)@),
            final(self).wf(),
    {
        let mut items: Vec<TodoItem> = Vec::new();
        std::mem::swap(&mut items, &mut self.items);
        self.items = keep_open_items(items);
        self.reclamp();
    }
}

} // verus!
