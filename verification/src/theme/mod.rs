//! The look of the interface: the palette, the meaning given to its colours, and the
//! styles that the widgets share.

pub mod container_list;
pub mod editor;
pub mod menu;
pub mod status_line;

use vstd::prelude::*;

verus! {

/// An entry of the palette.
#[derive(Debug, Clone, Copy, PartialEq, Eq, Structural)]
pub enum Tone {
    Lavender,
    Mauve,
    Sapphire,
    Green,
    Yellow,
    Peach,
    Red,
    Text,
    Subtext0,
    Overlay1,
    Surface1,
    Mantle,
}

/// How a piece of text is drawn: its colour, the colour behind it, and its weight.
#[derive(Debug, Clone, Copy, PartialEq, Eq)]
pub struct Style {
    pub fg: Option<Tone>,
    pub bg: Option<Tone>,
    pub bold: bool,
}

impl Style {
    /// The style that changes nothing.
    pub fn plain() -> (style: Self)
        ensures
            style == (Style { fg: None, bg: None, bold: false }),
    {
        Style { fg: None, bg: None, bold: false }
    }

    /// This style with the text in `tone`.
    pub fn fg(self, tone: Tone) -> (style: Self)
        ensures
            style == (Style { fg: Some(tone), ..self }),
    {
        Style { fg: Some(tone), bg: self.bg, bold: self.bold }
    }

    /// This style with `tone` behind the text.
    pub fn bg(self, tone: Tone) -> (style: Self)
        ensures
            style == (Style { bg: Some(tone), ..self }),
    {
        Style { fg: self.fg, bg: Some(tone), bold: self.bold }
    }

    /// This style in bold.
    pub fn bold(self) -> (style: Self)
        ensures
            style == (Style { bold: true, ..self }),
    {
        Style { fg: self.fg, bg: self.bg, bold: true }
    }
}

/// The text before the selected entry of a list.
pub const SELECTED_PREFIX: &'static str = "> ";

/// The text before every other entry of a list.
pub const NORMAL_PREFIX: &'static str = "  ";

/// The palette and the styles built from it.
pub struct Theme;

impl Theme {
    pub const LAVENDER: Tone = Tone::Lavender;

    pub const MAUVE: Tone = Tone::Mauve;

    pub const SAPPHIRE: Tone = Tone::Sapphire;

    pub const GREEN: Tone = Tone::Green;

    pub const YELLOW: Tone = Tone::Yellow;

    pub const PEACH: Tone = Tone::Peach;

    pub const RED: Tone = Tone::Red;

    pub const TEXT: Tone = Tone::Text;

    pub const SUBTEXT0: Tone = Tone::Subtext0;

    pub const OVERLAY1: Tone = Tone::Overlay1;

    pub const SURFACE1: Tone = Tone::Surface1;

    pub const MANTLE: Tone = Tone::Mantle;

    /// The colour of what has the keyboard and of titles.
    pub const ACCENT: Tone = Tone::Lavender;

    /// The colour of the selected entry.
    pub const SELECTED: Tone = Tone::Yellow;

    /// The colour that marks a changed buffer.
    pub const MODIFIED: Tone = Tone::Peach;

    /// The colour of good news.
    pub const SUCCESS: Tone = Tone::Green;

    /// The colour of bad news.
    pub const ERROR: Tone = Tone::Red;

    /// The colour of normal mode.
    pub const NORMAL_MODE: Tone = Tone::Sapphire;

    /// The colour of insert mode.
    pub const INSERT_MODE: Tone = Tone::Mauve;

    /// The colour of what matters less.
    pub const DIM: Tone = Tone::Subtext0;

    /// The border of the widget that has the keyboard.
    pub fn standard_border_focused() -> (style: Style)
        ensures
            style == (Style { fg: Some(Tone::Lavender), bg: None, bold: false }),
    {
        Style::plain().fg(Theme::ACCENT)
    }

    /// The border of a widget that does not have the keyboard.
    pub fn standard_border_unfocused() -> (style: Style)
        ensures
            style == (Style { fg: Some(Tone::Overlay1), bg: None, bold: false }),
    {
        Style::plain().fg(Theme::OVERLAY1)
    }

    /// The selected entry of a list.
    pub fn standard_selected_item() -> (style: Style)
        ensures
            style == (Style { fg: Some(Tone::Yellow), bg: None, bold: true }),
    {
        Style::plain().fg(Theme::SELECTED).bold()
    }

    /// Every other entry of a list.
    pub fn standard_normal_item() -> (style: Style)
        ensures
            style == (Style { fg: Some(Tone::Text), bg: None, bold: false }),
    {
        Style::plain().fg(Theme::TEXT)
    }

    /// A title.
    pub fn standard_title() -> (style: Style)
        ensures
            style == (Style { fg: Some(Tone::Lavender), bg: None, bold: true }),
    {
        Style::plain().fg(Theme::ACCENT).bold()
    }

    /// A label.
    pub fn standard_label() -> (style: Style)
        ensures
            style == (Style { fg: Some(Tone::Subtext0), bg: None, bold: false }),
    {
        Style::plain().fg(Theme::DIM)
    }

    /// A value.
    pub fn standard_value() -> (style: Style)
        ensures
            style == (Style { fg: Some(Tone::Yellow), bg: None, bold: false }),
    {
        Style::plain().fg(Theme::YELLOW)
    }

    /// The background of bars and panels.
    pub fn standard_background() -> (style: Style)
        ensures
            style == (Style { fg: None, bg: Some(Tone::Mantle), bold: false }),
    {
        Style::plain().bg(Theme::MANTLE)
    }

    /// The background of a highlighted row.
    pub fn standard_highlight_bg() -> (style: Style)
        ensures
            style == (Style { fg: None, bg: Some(Tone::Surface1), bold: false }),
    {
        Style::plain().bg(Theme::SURFACE1)
    }
}

} // verus!
