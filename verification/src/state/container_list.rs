//! The list of containers that the server reports.

use crate::api::{ContainerInfo, ContainerInfoView};
use crate::selection::{next_index, previous_index, Selection};
use vstd::prelude::*;

verus! {

/// The reported containers and the position of the selected one.
pub struct ContainerListState {
    containers: Vec<ContainerInfo>,
    selected_index: usize,
}

impl View for ContainerListState {
    type V = Selection<ContainerInfoView>;

    closed spec fn view(&self) -> Selection<ContainerInfoView> {
        Selection { items: self.containers.deep_view(), index: self.selected_index as nat }
    }
}

impl ContainerListState {
    #[verifier::type_invariant]
    spec fn well_formed(&self) -> bool {
        self@.wf()
    }

    /// An empty list.
    pub fn new() -> (list: Self)
        ensures
            list@ == Selection::<ContainerInfoView>::replaced(Seq::empty()),
    {
        let list = ContainerListState { containers: Vec::new(), selected_index: 0 };
        assert(list@.items =~= Seq::empty());
        list
    }

    /// Moves the selection to the container below, from the last one to the first.
    /// Does nothing on an empty list.
    pub fn next(&mut self)
        ensures
            final(self)@ == old(self)@.next(),
    {
        proof {
            use_type_invariant(&*self);
        }
        if !self.containers.is_empty() {
            self.selected_index = next_index(self.selected_index, self.containers.len());
        }
    }

    /// Moves the selection to the container above, from the first one to the last.
    /// Does nothing on an empty list.
    pub fn previous(&mut self)
        ensures
            final(self)@ == old(self)@.previous(),
    {
        proof {
            use_type_invariant(&*self);
        }
        if !self.containers.is_empty() {
            self.selected_index = previous_index(self.selected_index, self.containers.len());
        }
    }

    /// The selected container; none on an empty list.
    pub fn _selected(&self) -> (container: Option<&ContainerInfo>)
        ensures
            container.deep_view() == self@.current(),
    {
        if self.selected_index < self.containers.len() {
            Some(&self.containers[self.selected_index])
        } else {
            None
        }
    }

    /// Replaces the whole list and puts the selection on its first entry.
    pub fn set_containers(&mut self, containers: Vec<ContainerInfo>)
        ensures
            final(self)@ == Selection::replaced(containers.deep_view()),
    {
        proof {
            use_type_invariant(&*self);
        }
        self.selected_index = 0;
        self.containers = containers;
    }

    /// All containers, in the order in which they are shown.
    pub fn containers(&self) -> (all: &Vec<ContainerInfo>)
        ensures
            all.deep_view() == self@.items,
    {
        &self.containers
    }

    /// The position of the selected container; 0 on an empty list.
    pub fn selected_index(&self) -> (index: usize)
        ensures
            index == self@.index,
            self@.wf(),
    {
        proof {
            use_type_invariant(self);
        }
        self.selected_index
    }

    /// Whether the list holds no container at all.
    pub fn is_empty(&self) -> (empty: bool)
        ensures
            empty == (self@.items.len() == 0),
    {
        self.containers.is_empty()
    }
}

} // verus!
