//! The look of the start menu.

use super::{Style, Theme, Tone};
use vstd::prelude::*;

verus! {

/// The styles of the start menu.
pub struct MenuTheme;

impl MenuTheme {
    /// The title above the entries.
    pub fn title_style() -> (style: Style)
        ensures
            style == (Style { fg: Some(Tone::Lavender), bg: None, bold: true }),
    {
        Style::plain().fg(Theme::ACCENT).bold()
    }

    /// The border around the menu.
    pub fn border_style() -> (style: Style)
        ensures
            style == (Style { fg: Some(Tone::Lavender), bg: None, bold: false }),
    {
        Style::plain().fg(Theme::ACCENT)
    }

    /// The selected entry.
    pub fn selected_item_style() -> (style: Style)
        ensures
            style == (Style { fg: Some(Tone::Yellow), bg: None, bold: true }),
    {
        Style::plain().fg(Theme::SELECTED).bold()
    }

    /// Every other entry.
    pub fn normal_item_style() -> (style: Style)
        ensures
            style == (Style { fg: Some(Tone::Text), bg: None, bold: false }),
    {
        Style::plain().fg(Theme::TEXT)
    }

    /// The text before the selected entry.
    pub fn selected_prefix() -> (prefix: &'static str)
        ensures
            prefix@ == "> "@,
    {
        "> "
    }

    /// The text before every other entry.
    pub fn normal_prefix() -> (prefix: &'static str)
        ensures
            prefix@ == "  "@,
    {
        "  "
    }
}

} // verus!
