//! The look of the container list.

use super::{Style, Theme, Tone};
use vstd::prelude::*;

verus! {

/// The styles of the container list.
pub struct ContainerListTheme;

impl ContainerListTheme {
    /// The identifier of a container.
    pub fn id_style() -> (style: Style)
        ensures
            style == (Style { fg: Some(Tone::Yellow), bg: None, bold: false }),
    {
        Theme::standard_value()
    }

    /// The name of a container.
    pub fn name_style() -> (style: Style)
        ensures
            style == (Style { fg: Some(Tone::Text), bg: None, bold: false }),
    {
        Theme::standard_normal_item()
    }

    /// What the runtime says of a container's status.
    pub fn status_info_style() -> (style: Style)
        ensures
            style == (Style { fg: Some(Tone::Subtext0), bg: None, bold: false }),
    {
        Theme::standard_label()
    }

    /// The colour for a container in the state `state`: green while it runs, grey once
    /// it has exited, yellow in every other state.
    pub open spec fn state_tone(state: Seq<char>) -> Tone {
        if state == "running"@ {
            Tone::Green
        } else if state == "exited"@ {
            Tone::Overlay1
        } else {
            Tone::Yellow
        }
    }

    /// The colour of the state badge of a container.
    pub fn status_color(state: &str) -> (tone: Tone)
        ensures
            tone == Self::state_tone(state@),
    {
        if *state == *"running" {
            Theme::SUCCESS
        } else if *state == *"exited" {
            Theme::OVERLAY1
        } else {
            Theme::YELLOW
        }
    }

    /// The border while the list has the keyboard.
    pub fn border_focused() -> (style: Style)
        ensures
            style == (Style { fg: Some(Tone::Lavender), bg: None, bold: false }),
    {
        Theme::standard_border_focused()
    }

    /// The border while the list does not have the keyboard.
    pub fn border_unfocused() -> (style: Style)
        ensures
            style == (Style { fg: Some(Tone::Overlay1), bg: None, bold: false }),
    {
        Theme::standard_border_unfocused()
    }

    /// The selected container.
    pub fn highlight_style() -> (style: Style)
        ensures
            style == (Style { fg: Some(Tone::Text), bg: Some(Tone::Surface1), bold: true }),
    {
        Theme::standard_highlight_bg().fg(Theme::TEXT).bold()
    }
}

} // verus!
