//! The look of the status line.

use super::{Style, Theme, Tone};
use crate::state::VimMode;
use vstd::prelude::*;

verus! {

/// The styles of the status line.
pub struct StatusLineTheme;

impl StatusLineTheme {
    /// The background of the line.
    pub fn background() -> (style: Style)
        ensures
            style == (Style { fg: None, bg: Some(Tone::Mantle), bold: false }),
    {
        Theme::standard_background()
    }

    /// The name of the editing mode as the line shows it.
    pub open spec fn mode_name(vim_mode: VimMode) -> Seq<char> {
        match vim_mode {
            VimMode::Normal => "NORMAL"@,
            VimMode::Insert => "INSERT"@,
        }
    }

    /// The name of the editing mode as the line shows it.
    pub fn mode_text(vim_mode: VimMode) -> (text: &'static str)
        ensures
            text@ == Self::mode_name(vim_mode),
    {
        match vim_mode {
            VimMode::Normal => "NORMAL",
            VimMode::Insert => "INSERT",
        }
    }

    /// The colour of the editing mode.
    pub open spec fn mode_tone(vim_mode: VimMode) -> Tone {
        match vim_mode {
            VimMode::Normal => Tone::Sapphire,
            VimMode::Insert => Tone::Mauve,
        }
    }

    /// The name of the editing mode: bold, in the mode's colour.
    pub fn mode_style(vim_mode: VimMode) -> (style: Style)
        ensures
            style == (Style { fg: Some(Self::mode_tone(vim_mode)), bg: None, bold: true }),
    {
        let color = match vim_mode {
            VimMode::Normal => Theme::NORMAL_MODE,
            VimMode::Insert => Theme::INSERT_MODE,
        };
        Style::plain().fg(color).bold()
    }

    /// The name of the loaded file.
    pub fn filename_style() -> (style: Style)
        ensures
            style == (Style { fg: Some(Tone::Text), bg: None, bold: false }),
    {
        Theme::standard_normal_item()
    }

    /// The mark of a changed buffer.
    pub fn modified_style() -> (style: Style)
        ensures
            style == (Style { fg: Some(Tone::Peach), bg: None, bold: false }),
    {
        Style::plain().fg(Theme::MODIFIED)
    }

    /// The note that no file is loaded.
    pub fn no_file_style() -> (style: Style)
        ensures
            style == (Style { fg: Some(Tone::Subtext0), bg: None, bold: false }),
    {
        Theme::standard_label()
    }

    /// A message that reports success.
    pub fn status_message_style() -> (style: Style)
        ensures
            style == (Style { fg: Some(Tone::Green), bg: None, bold: false }),
    {
        Style::plain().fg(Theme::SUCCESS)
    }

    /// A message that reports a failure.
    pub fn error_message_style() -> (style: Style)
        ensures
            style == (Style { fg: Some(Tone::Red), bg: None, bold: false }),
    {
        Style::plain().fg(Theme::ERROR)
    }

    /// The key help at the end of the line.
    pub fn help_text_style() -> (style: Style)
        ensures
            style == (Style { fg: Some(Tone::Subtext0), bg: None, bold: false }),
    {
        Theme::standard_label()
    }

    /// A label.
    pub fn label_style() -> (style: Style)
        ensures
            style == (Style { fg: Some(Tone::Subtext0), bg: None, bold: false }),
    {
        Theme::standard_label()
    }

    /// A value.
    pub fn value_style() -> (style: Style)
        ensures
            style == (Style { fg: Some(Tone::Yellow), bg: None, bold: false }),
    {
        Theme::standard_value()
    }
}

} // verus!
