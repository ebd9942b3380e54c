pub mod app;
pub mod container_list;
pub mod editor;
pub mod file_list;
pub mod menu;
pub mod refresh;

pub use app::{AppState, Pane, VimMode};
pub use container_list::ContainerListState;
pub use editor::{BufferSnapshot, EditorState};
pub use file_list::FileListState;
pub use menu::MenuState;
