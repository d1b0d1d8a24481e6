//! The browsing state behind the listing display: the remote entries and
//! which of them is selected, with wrap-around movement.

use vstd::prelude::*;

verus! {

/// A list of entries together with the selection cursor. The cursor
/// always points inside the list or at nothing.
pub struct StatefulList {
    pub items: Vec<String>,
    pub selected: Option<usize>,
}

impl StatefulList {
    /// The selection cursor.
    pub open spec fn selected(&self) -> Option<usize> {
        self.selected
    }

    /// The cursor points inside the list or at nothing.
    pub open spec fn wf(&self) -> bool {
        self.selected() matches Some(i) ==> i < self.items@.len()
    }

    /// A list over the given entries with nothing selected.
    pub fn with_items(items: Vec<String>) -> (r: StatefulList)
        ensures
            r.items@ == items@,
            r.selected() is None,
            r.wf(),
    {
        StatefulList { items, selected: None }
    }

    /// The selected index, if any.
    pub fn selection(&self) -> (r: Option<usize>)
        ensures
            r == self.selected(),
    {
        self.selected
    }

    /// Moves the cursor to the next entry, wrapping to the first after
    /// the last; an empty list keeps nothing selected.
    pub fn next(&mut self)
        requires
            old(self).wf(),
        ensures
            final(self).items@ == old(self).items@,
            final(self).wf(),
            final(self).selected() == (if old(self).items@.len() == 0 {
                Option::<usize>::None
            } else {
                match old(self).selected() {
                    None => Some(0usize),
                    Some(i) => if i + 1 < old(self).items@.len() {
                        Some((i + 1) as usize)
                    } else {
                        Some(0usize)
                    },
                }
            }),
    {
        if self.items.len() == 0 {
            self.selected = None;
            return;
        }
        self.selected = match self.selected {
            None => Some(0),
            Some(i) => {
                if i + 1 < self.items.len() {
                    Some(i + 1)
                } else {
                    Some(0)
                }
            },
        };
    }

    /// Moves the cursor to the previous entry, wrapping to the last
    /// before the first; an empty list keeps nothing selected.
    pub fn previous(&mut self)
        requires
            old(self).wf(),
        ensures
            final(self).items@ == old(self).items@,
            final(self).wf(),
            final(self).selected() == (if old(self).items@.len() == 0 {
                Option::<usize>::None
            } else {
                match old(self).selected() {
                    None => Some(0usize),
                    Some(i) => if i == 0 {
                        Some((old(self).items@.len() - 1) as usize)
                    } else {
                        Some((i - 1) as usize)
                    },
                }
            }),
    {
        if self.items.len() == 0 {
            self.selected = None;
            return;
        }
        self.selected = match self.selected {
            None => Some(0),
            Some(i) => {
                if i == 0 {
                    Some(self.items.len() - 1)
                } else {
                    Some(i - 1)
                }
            },
        };
    }
}

/// The state behind the display: the remote listing being browsed.
pub struct App {
    pub remote_list: StatefulList,
}

impl App {
    /// An application state with an empty remote listing.
    pub fn new() -> (a: App)
        ensures
            a.remote_list.items@.len() == 0,
            a.remote_list.selected() is None,
            a.remote_list.wf(),
    {
        App { remote_list: StatefulList::with_items(Vec::new()) }
    }

    /// The remote entries being browsed.
    pub fn items(&self) -> (r: Vec<String>)
        ensures
            r.deep_view() == self.remote_list.items.deep_view(),
    {
        self.remote_list.items.clone()
    }
}

} // verus!
