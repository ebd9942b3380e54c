//! The start menu as it is shown.

use super::{entry_spans, list_entries, Span};
use crate::state::AppState;
use vstd::prelude::*;

verus! {

/// The title above the menu entries.
pub fn title() -> (text: &'static str)
    ensures
        text@ == "CONFIG MANAGER"@,
{
    "CONFIG MANAGER"
}

/// The menu entries as they are shown, the selected one marked.
pub fn entries(state: &AppState) -> (spans: Vec<Span>)
    ensures
        spans.deep_view() == entry_spans(state.menu@.items, state.menu@.index),
{
    list_entries(state.menu.items(), state.menu.selected_index())
}

} // verus!
