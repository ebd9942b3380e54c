//! The application state: every pane's state, the focus, the editing mode, the dirty
//! flag and the status message.

use super::{ContainerListState, EditorState, FileListState, MenuState};
use crate::api::ContainerInfoView;
use crate::buffer::BufferView;
use crate::selection::Selection;
use crate::state::menu::menu_labels;
use vstd::prelude::*;

verus! {

/// The regions of the screen; exactly one of them has the keyboard.
#[derive(Debug, Clone, Copy, PartialEq, Eq, Structural)]
pub enum Pane {
    Menu,
    FileList,
    ContainerList,
    Editor,
}

/// The editing modes of the editor pane.
#[derive(Debug, Clone, Copy, PartialEq, Eq, Structural)]
pub enum VimMode {
    Normal,
    Insert,
}

/// Everything the user interface shows and changes.
pub struct AppState {
    pub focus: Pane,
    pub vim_mode: VimMode,
    pub menu: MenuState,
    pub file_list: FileListState,
    pub container_list: ContainerListState,
    pub editor: EditorState,
    pub dirty: bool,
    pub status_message: Option<String>,
}

impl AppState {
    /// The state at start: the menu has the keyboard, the lists and the buffer are
    /// empty, the editor is in normal mode, nothing is dirty and nothing is reported.
    pub fn new() -> (state: Self)
        ensures
            state.focus == Pane::Menu,
            state.vim_mode == VimMode::Normal,
            state.menu@ == Selection::replaced(menu_labels()),
            state.file_list@ == Selection::<Seq<char>>::replaced(Seq::empty()),
            state.container_list@ == Selection::<ContainerInfoView>::replaced(Seq::empty()),
            state.editor.textarea@ == BufferView::opened(Seq::empty()),
            state.editor.current_file is None,
            state.editor.original_content@ == Seq::<char>::empty(),
            !state.dirty,
            state.status_message is None,
    {
        AppState {
            focus: Pane::Menu,
            vim_mode: VimMode::Normal,
            menu: MenuState::new(),
            file_list: FileListState::new(),
            container_list: ContainerListState::new(),
            editor: EditorState::new(),
            dirty: false,
            status_message: None,
        }
    }

    /// Reports `message` on the status line.
    pub fn set_status(&mut self, message: String)
        ensures
            *final(self) == (AppState { status_message: Some(message), ..*old(self) }),
    {
        self.status_message = Some(message);
    }

    /// Takes the message off the status line.
    pub fn clear_status(&mut self)
        ensures
            *final(self) == (AppState { status_message: None, ..*old(self) }),
    {
        self.status_message = None;
    }

    /// Whether the buffer's text differs from the text as loaded.
    pub open spec fn differs(&self) -> bool {
        self.editor.content() != self.editor.original_content@
    }

    /// Sets the dirty flag to whether the buffer's text differs from the text as loaded.
    pub fn check_dirty(&mut self)
        ensures
            *final(self) == (AppState { dirty: old(self).differs(), ..*old(self) }),
    {
        let current_content = self.editor.get_content();
        self.dirty = !(current_content == self.editor.original_content);
    }
}

} // verus!
