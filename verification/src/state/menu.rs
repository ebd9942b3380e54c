//! The start menu: a fixed list of destinations, one of them selected.

use crate::selection::{next_index, previous_index, Selection};
use vstd::prelude::*;

verus! {

/// The entries of the start menu and the position of the selected one.
pub struct MenuState {
    items: Vec<String>,
    selected_index: usize,
}

/// The labels of the start menu, in the order in which they are shown.
pub open spec fn menu_labels() -> Seq<Seq<char>> {
    seq!["Config Files"@, "Container"@]
}

impl View for MenuState {
    type V = Selection<Seq<char>>;

    closed spec fn view(&self) -> Selection<Seq<char>> {
        Selection { items: self.items.deep_view(), index: self.selected_index as nat }
    }
}

impl MenuState {
    #[verifier::type_invariant]
    spec fn well_formed(&self) -> bool {
        &&& self@.wf()
        &&& self@.items == menu_labels()
    }

    /// The menu with its two entries and the first one selected.
    pub fn new() -> (menu: Self)
        ensures
            menu@ == Selection::replaced(menu_labels()),
    {
        let mut items: Vec<String> = Vec::new();
        items.push("Config Files".to_owned());
        items.push("Container".to_owned());
        assert(items.deep_view() =~= menu_labels());
        MenuState { items, selected_index: 0 }
    }

    /// Moves the selection to the entry below, from the last entry to the first.
    pub fn next(&mut self)
        ensures
            final(self)@ == old(self)@.next(),
    {
        proof {
            use_type_invariant(&*self);
        }
        if !self.items.is_empty() {
            self.selected_index = next_index(self.selected_index, self.items.len());
        }
    }

    /// Moves the selection to the entry above, from the first entry to the last.
    pub fn previous(&mut self)
        ensures
            final(self)@ == old(self)@.previous(),
    {
        proof {
            use_type_invariant(&*self);
        }
        if !self.items.is_empty() {
            self.selected_index = previous_index(self.selected_index, self.items.len());
        }
    }

    /// The label of the selected entry.
    pub fn selected(&self) -> (label: Option<&String>)
        ensures
            label.deep_view() == self@.current(),
    {
        if self.selected_index < self.items.len() {
            Some(&self.items[self.selected_index])
        } else {
            None
        }
    }

    /// All labels, in the order in which they are shown.
    pub fn items(&self) -> (labels: &Vec<String>)
        ensures
            labels.deep_view() == self@.items,
            self@.items == menu_labels(),
    {
        proof {
            use_type_invariant(self);
        }
        &self.items
    }

    /// The position of the selected entry.
    pub fn selected_index(&self) -> (index: usize)
        ensures
            index == self@.index,
            self@.wf(),
            self@.items == menu_labels(),
    {
        proof {
            use_type_invariant(self);
        }
        self.selected_index
    }
}

} // verus!
