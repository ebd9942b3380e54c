//! The file list as it is shown.

use super::{entry_spans, list_entries, Span};
use crate::state::{AppState, Pane};
use crate::theme::{Style, Theme, Tone};
use vstd::prelude::*;

verus! {

/// The title in the border of the list.
pub fn title() -> (text: &'static str)
    ensures
        text@ == "Config Files"@,
{
    "Config Files"
}

/// The file names as they are shown, the selected one marked.
pub fn entries(state: &AppState) -> (spans: Vec<Span>)
    ensures
        spans.deep_view() == entry_spans(state.file_list@.items, state.file_list@.index),
{
    list_entries(state.file_list.files(), state.file_list.selected_index())
}

/// The border of the list: accented while the list has the keyboard.
pub fn border_style(state: &AppState) -> (style: Style)
    ensures
        style == (Style {
            fg: Some(
                if state.focus == Pane::FileList {
                    Tone::Lavender
                } else {
                    Tone::Overlay1
                },
            ),
            bg: None,
            bold: false,
        }),
{
    if state.focus == Pane::FileList {
        Theme::standard_border_focused()
    } else {
        Theme::standard_border_unfocused()
    }
}

} // verus!
