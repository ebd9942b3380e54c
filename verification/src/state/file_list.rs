//! The list of configuration files that the server offers.

use crate::selection::{next_index, previous_index, Selection};
use vstd::prelude::*;

verus! {

/// The names of the remote files and the position of the selected one.
pub struct FileListState {
    files: Vec<String>,
    selected_index: usize,
}

impl View for FileListState {
    type V = Selection<Seq<char>>;

    closed spec fn view(&self) -> Selection<Seq<char>> {
        Selection { items: self.files.deep_view(), index: self.selected_index as nat }
    }
}

impl FileListState {
    #[verifier::type_invariant]
    spec fn well_formed(&self) -> bool {
        self@.wf()
    }

    /// An empty list.
    pub fn new() -> (list: Self)
        ensures
            list@ == Selection::<Seq<char>>::replaced(Seq::empty()),
    {
        let list = FileListState { files: Vec::new(), selected_index: 0 };
        assert(list@.items =~= Seq::empty());
        list
    }

    /// Moves the selection to the file below, from the last file to the first.
    /// Does nothing on an empty list.
    pub fn next(&mut self)
        ensures
            final(self)@ == old(self)@.next(),
    {
        proof {
            use_type_invariant(&*self);
        }
        if !self.files.is_empty() {
            self.selected_index = next_index(self.selected_index, self.files.len());
        }
    }

    /// Moves the selection to the file above, from the first file to the last.
    /// Does nothing on an empty list.
    pub fn previous(&mut self)
        ensures
            final(self)@ == old(self)@.previous(),
    {
        proof {
            use_type_invariant(&*self);
        }
        if !self.files.is_empty() {
            self.selected_index = previous_index(self.selected_index, self.files.len());
        }
    }

    /// The name of the selected file; none on an empty list.
    pub fn selected(&self) -> (name: Option<&String>)
        ensures
            name.deep_view() == self@.current(),
    {
        if self.selected_index < self.files.len() {
            Some(&self.files[self.selected_index])
        } else {
            None
        }
    }

    /// Replaces the whole list and puts the selection on its first entry.
    pub fn set_files(&mut self, files: Vec<String>)
        ensures
            final(self)@ == Selection::replaced(files.deep_view()),
    {
        proof {
            use_type_invariant(&*self);
        }
        self.selected_index = 0;
        self.files = files;
    }

    /// All names, in the order in which they are shown.
    pub fn files(&self) -> (names: &Vec<String>)
        ensures
            names.deep_view() == self@.items,
    {
        &self.files
    }

    /// The position of the selected file; 0 on an empty list.
    pub fn selected_index(&self) -> (index: usize)
        ensures
            index == self@.index,
            self@.wf(),
    {
        proof {
            use_type_invariant(self);
        }
        self.selected_index
    }

    /// Whether the list holds no file at all.
    pub fn is_empty(&self) -> (empty: bool)
        ensures
            empty == (self@.items.len() == 0),
    {
        self.files.is_empty()
    }
}

} // verus!
