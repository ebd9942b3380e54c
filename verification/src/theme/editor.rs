//! The look of the editor pane.

use super::{Style, Theme, Tone};
use crate::state::VimMode;
use vstd::prelude::*;

verus! {

/// The styles of the editor pane.
pub struct EditorTheme;

impl EditorTheme {
    /// The colour of the editor's border: that of the editing mode while the editor has
    /// the keyboard, the colour of idle borders otherwise.
    pub open spec fn border_tone(vim_mode: VimMode, is_focused: bool) -> Tone {
        if !is_focused {
            Tone::Overlay1
        } else if vim_mode == VimMode::Normal {
            Tone::Sapphire
        } else {
            Tone::Mauve
        }
    }

    /// The border of the editor.
    pub fn border_style(vim_mode: VimMode, is_focused: bool) -> (style: Style)
        ensures
            style == (Style {
                fg: Some(Self::border_tone(vim_mode, is_focused)),
                bg: None,
                bold: false,
            }),
    {
        if is_focused {
            match vim_mode {
                VimMode::Normal => Style::plain().fg(Theme::NORMAL_MODE),
                VimMode::Insert => Style::plain().fg(Theme::INSERT_MODE),
            }
        } else {
            Theme::standard_border_unfocused()
        }
    }
}

} // verus!
