//! The status line as it is shown.

use super::{Span, SpanView};
use crate::state::{AppState, Pane, VimMode};
use crate::text::followed_by;
use crate::theme::status_line::StatusLineTheme;
use crate::theme::{Style, Tone};
use vstd::prelude::*;

verus! {

/// The key help for a pane and an editing mode.
pub open spec fn help_of(focus: Pane, vim_mode: VimMode) -> Seq<char> {
    match focus {
        Pane::Menu => " | j/k:navigate Enter:select"@,
        Pane::FileList => " | j/k:navigate Enter:load ESC:menu Ctrl-→:editor"@,
        Pane::Editor => match vim_mode {
            VimMode::Normal => " | i:insert F2:save Ctrl-←:files"@,
            VimMode::Insert => " | ESC:normal F2:save"@,
        },
        Pane::ContainerList => " | j/k:navigate ESC/Ctrl-←:menu"@,
    }
}

/// The key help at the end of the status line.
pub fn help_text(focus: Pane, vim_mode: VimMode) -> (text: &'static str)
    ensures
        text@ == help_of(focus, vim_mode),
{
    match focus {
        Pane::Menu => " | j/k:navigate Enter:select",
        Pane::FileList => " | j/k:navigate Enter:load ESC:menu Ctrl-→:editor",
        Pane::Editor => match vim_mode {
            VimMode::Normal => " | i:insert F2:save Ctrl-←:files",
            VimMode::Insert => " | ESC:normal F2:save",
        },
        Pane::ContainerList => " | j/k:navigate ESC/Ctrl-←:menu",
    }
}

/// The separator between two parts of the line.
pub open spec fn separator() -> SpanView {
    SpanView { text: " | "@, style: Style { fg: None, bg: None, bold: false } }
}

/// The part of the line that names the editing mode.
pub open spec fn mode_part(state: AppState) -> Seq<SpanView> {
    seq![
        SpanView {
            text: " "@ + StatusLineTheme::mode_name(state.vim_mode) + " "@,
            style: Style {
                fg: Some(StatusLineTheme::mode_tone(state.vim_mode)),
                bg: None,
                bold: true,
            },
        },
    ]
}

/// The part of the line that names the loaded file, marked while the buffer is dirty.
/// The menu does not show it.
pub open spec fn file_part(state: AppState) -> Seq<SpanView> {
    if state.focus == Pane::Menu {
        Seq::empty()
    } else {
        match state.editor.current_file {
            Some(filename) => {
                let name = SpanView {
                    text: filename@,
                    style: Style { fg: Some(Tone::Text), bg: None, bold: false },
                };
                if state.dirty {
                    seq![
                        separator(),
                        name,
                        SpanView {
                            text: " [modified]"@,
                            style: Style { fg: Some(Tone::Peach), bg: None, bold: false },
                        },
                    ]
                } else {
                    seq![separator(), name]
                }
            },
            None => seq![
                separator(),
                SpanView {
                    text: "No file"@,
                    style: Style { fg: Some(Tone::Subtext0), bg: None, bold: false },
                },
            ],
        }
    }
}

/// The part of the line that shows the status message. The menu does not show it.
pub open spec fn message_part(state: AppState) -> Seq<SpanView> {
    if state.focus == Pane::Menu {
        Seq::empty()
    } else {
        match state.status_message {
            Some(message) => seq![
                separator(),
                SpanView {
                    text: message@,
                    style: Style { fg: Some(Tone::Green), bg: None, bold: false },
                },
            ],
            None => Seq::empty(),
        }
    }
}

/// The part of the line that shows the key help.
pub open spec fn help_part(state: AppState) -> Seq<SpanView> {
    seq![
        SpanView {
            text: help_of(state.focus, state.vim_mode),
            style: Style { fg: Some(Tone::Subtext0), bg: None, bold: false },
        },
    ]
}

/// The left side of the status line: mode, file, message, help.
pub open spec fn left_spans(state: AppState) -> Seq<SpanView> {
    mode_part(state) + file_part(state) + message_part(state) + help_part(state)
}

/// The left side of the status line.
pub fn left(state: &AppState) -> (spans: Vec<Span>)
    ensures
        spans.deep_view() == left_spans(*state),
{
    let mut mode = followed_by(" ", StatusLineTheme::mode_text(state.vim_mode));
    mode.push(' ');
    proof {
        reveal_strlit(" ");
        assert(mode@ =~= " "@ + StatusLineTheme::mode_name(state.vim_mode) + " "@);
    }
    let mut spans: Vec<Span> = Vec::new();
    spans.push(Span::styled(mode, StatusLineTheme::mode_style(state.vim_mode)));
    assert(spans.deep_view() =~= mode_part(*state));

    if state.focus != Pane::Menu {
        spans.push(Span::raw(" | "));
        match &state.editor.current_file {
            Some(filename) => {
                spans.push(Span::styled(filename.clone(), StatusLineTheme::filename_style()));
                if state.dirty {
                    spans.push(
                        Span::styled(" [modified]".to_owned(), StatusLineTheme::modified_style()),
                    );
                }
            },
            None => {
                spans.push(Span::styled("No file".to_owned(), StatusLineTheme::no_file_style()));
            },
        }
    }
    assert(spans.deep_view() =~= mode_part(*state) + file_part(*state));

    if state.focus != Pane::Menu {
        match &state.status_message {
            Some(message) => {
                spans.push(Span::raw(" | "));
                spans.push(
                    Span::styled(message.clone(), StatusLineTheme::status_message_style()),
                );
            },
            None => {},
        }
    }
    assert(spans.deep_view() =~= mode_part(*state) + file_part(*state) + message_part(*state));

    spans.push(
        Span::styled(
            help_text(state.focus, state.vim_mode).to_owned(),
            StatusLineTheme::help_text_style(),
        ),
    );
    assert(spans.deep_view() =~= left_spans(*state));
    spans
}

} // verus!
