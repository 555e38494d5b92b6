use vstd::prelude::*;

verus! {

/// An ordered sequence of items with a cursor that stays on an item.
///
/// The cursor is `None` exactly when there are no items; otherwise it
/// indexes one of them.
pub struct StatefulList<T> {
    items: Vec<T>,
    cursor: Option<usize>,
}

/// Where the cursor of a fresh list over `n` items stands.
pub open spec fn initial_cursor(n: nat) -> Option<nat> {
    if n == 0 {
        None
    } else {
        Some(0)
    }
}

/// The cursor one step forward over `n` items, clamped at the last one.
pub open spec fn cursor_after_next(c: Option<nat>, n: nat) -> Option<nat> {
    match c {
        None => initial_cursor(n),
        Some(i) => if i + 1 < n {
            Some(i + 1)
        } else {
            Some(i)
        },
    }
}

/// The cursor one step back over `n` items, clamped at the first one.
pub open spec fn cursor_after_previous(c: Option<nat>, n: nat) -> Option<nat> {
    match c {
        None => initial_cursor(n),
        Some(i) => if i == 0 {
            Some(0)
        } else {
            Some((i - 1) as nat)
        },
    }
}

impl<T> StatefulList<T> {
    /// The items, in order.
    pub closed spec fn items_view(&self) -> Seq<T> {
        self.items@
    }

    /// The index the cursor is on, if any.
    pub closed spec fn cursor_view(&self) -> Option<nat> {
        match self.cursor {
            Some(i) => Some(i as nat),
            None => None,
        }
    }

    /// The cursor is absent exactly when the list is empty, and in range
    /// otherwise.
    pub open spec fn wf(&self) -> bool {
        match self.cursor_view() {
            None => self.items_view().len() == 0,
            Some(i) => i < self.items_view().len(),
        }
    }

    /// The item under the cursor, if any.
    pub open spec fn current_view(&self) -> Option<T> {
        match self.cursor_view() {
            Some(i) => Some(self.items_view()[i as int]),
            None => None,
        }
    }

    /// Builds a list over `items` with the cursor on the first one.
    pub fn with_items(items: Vec<T>) -> (r: Self)
        ensures
            r.wf(),
            r.items_view() == items@,
            r.cursor_view() == initial_cursor(items@.len()),
    {
        let cursor = if items.len() == 0 {
            None
        } else {
            Some(0)
        };
        StatefulList { items, cursor }
    }

    /// Moves the cursor one item forward; it stays on the last item.
    pub fn next(&mut self)
        requires
            old(self).wf(),
        ensures
            final(self).wf(),
            final(self).items_view() == old(self).items_view(),
            final(self).cursor_view() == cursor_after_next(
                old(self).cursor_view(),
                old(self).items_view().len(),
            ),
    {
        if self.items.len() > 0 {
            let i: usize = match self.cursor {
                Some(i) => {
                    if i >= self.items.len() - 1 {
                        i
                    } else {
                        i + 1
                    }
                },
                None => 0,
            };
            self.cursor = Some(i);
        }
    }

    /// Moves the cursor one item back; it stays on the first item.
    pub fn previous(&mut self)
        requires
            old(self).wf(),
        ensures
            final(self).wf(),
            final(self).items_view() == old(self).items_view(),
            final(self).cursor_view() == cursor_after_previous(
                old(self).cursor_view(),
                old(self).items_view().len(),
            ),
    {
        if self.items.len() > 0 {
            let i: usize = match self.cursor {
                Some(i) => {
                    if i == 0 {
                        i
                    } else {
                        i - 1
                    }
                },
                None => 0,
            };
            self.cursor = Some(i);
        }
    }

    /// The index of the item under the cursor, or `None` on an empty list.
    pub fn selected(&self) -> (r: Option<usize>)
        requires
            self.wf(),
        ensures
            r matches Some(i) ==> self.cursor_view() == Some(i as nat),
            r is None ==> self.cursor_view() is None,
            r is None <==> self.items_view().len() == 0,
    {
        if self.items.len() == 0 {
            return None;
        }
        self.cursor
    }

    /// The item under the cursor, or `None` on an empty list.
    pub fn selected_value(&self) -> (r: Option<&T>)
        requires
            self.wf(),
        ensures
            r matches Some(v) ==> self.current_view() == Some(*v),
            r is None <==> self.current_view() is None,
            r is None <==> self.items_view().len() == 0,
    {
        match self.selected() {
            Some(index) => Some(&self.items[index]),
            None => None,
        }
    }

    /// The items, in order.
    pub fn items(&self) -> (r: &Vec<T>)
        ensures
            r@ == self.items_view(),
    {
        &self.items
    }

    /// Puts `item` in front of the others. The cursor keeps its index, and
    /// lands on the new item if the list was empty.
    pub fn prepend(&mut self, item: T)
        requires
            old(self).wf(),
            old(self).items_view().len() < usize::MAX,
        ensures
            final(self).wf(),
            final(self).items_view() == seq![item] + old(self).items_view(),
            final(self).cursor_view() == (match old(self).cursor_view() {
                None => Some(0nat),
                Some(i) => Some(i),
            }),
    {
        self.items.insert(0, item);
        if self.cursor.is_none() {
            self.cursor = Some(0);
        }
        assert(self.items@ =~= seq![item] + old(self).items@);
    }
}

} // verus!
