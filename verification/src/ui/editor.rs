//! The editor pane as it is shown.

use crate::state::{AppState, Pane};
use crate::text::followed_by;
use crate::theme::editor::EditorTheme;
use crate::theme::Style;
use vstd::prelude::*;

verus! {

/// The title in the editor's border: the name of the loaded file, marked with `[+]`
/// while the buffer is dirty; a note where no file is loaded.
pub open spec fn title_text(state: AppState) -> Seq<char> {
    match state.editor.current_file {
        Some(filename) => if state.dirty {
            filename@ + " [+]"@
        } else {
            filename@
        },
        None => "No file loaded"@,
    }
}

/// The title in the editor's border.
pub fn title(state: &AppState) -> (text: String)
    ensures
        text@ == title_text(*state),
{
    match &state.editor.current_file {
        Some(filename) => {
            let dirty_marker = if state.dirty {
                " [+]"
            } else {
                ""
            };
            proof {
                reveal_strlit("");
                assert(filename@ + ""@ =~= filename@);
            }
            followed_by(filename.as_str(), dirty_marker)
        },
        None => "No file loaded".to_owned(),
    }
}

/// The editor's border: in the colour of the editing mode while the editor has the
/// keyboard.
pub fn border_style(state: &AppState) -> (style: Style)
    ensures
        style == (Style {
            fg: Some(EditorTheme::border_tone(state.vim_mode, state.focus == Pane::Editor)),
            bg: None,
            bold: false,
        }),
{
    EditorTheme::border_style(state.vim_mode, state.focus == Pane::Editor)
}

} // verus!
