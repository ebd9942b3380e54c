//! What the screen shows: for every widget the texts to draw and their styles, as
//! plain values that a terminal front end lays out and paints.

pub mod container_list;
pub mod editor;
pub mod file_list;
pub mod menu;
pub mod status_line;

use crate::state::Pane;
use crate::theme::Style;
use vstd::prelude::*;

verus! {

/// A piece of text with its style.
#[derive(Debug, PartialEq, Eq)]
pub struct Span {
    pub text: String,
    pub style: Style,
}

/// The content of a [`Span`].
pub struct SpanView {
    pub text: Seq<char>,
    pub style: Style,
}

impl View for Span {
    type V = SpanView;

    open spec fn view(&self) -> SpanView {
        SpanView { text: self.text@, style: self.style }
    }
}

impl DeepView for Span {
    type V = SpanView;

    open spec fn deep_view(&self) -> SpanView {
        self@
    }
}

impl Span {
    /// `text` in the given style.
    pub fn styled(text: String, style: Style) -> (span: Self)
        ensures
            span@ == (SpanView { text: text@, style }),
    {
        Span { text, style }
    }

    /// `text` in the style that changes nothing.
    pub fn raw(text: &str) -> (span: Self)
        ensures
            span@ == (SpanView { text: text@, style: Style { fg: None, bg: None, bold: false } }),
    {
        Span { text: text.to_owned(), style: Style::plain() }
    }
}

/// What fills the area above the status line.
#[derive(Debug, Clone, Copy, PartialEq, Eq, Structural)]
pub enum Screen {
    /// The start menu, centred.
    Menu,
    /// The file list beside the editor.
    Files,
    /// The container list.
    Containers,
}

/// The screen that goes with the pane that has the keyboard.
pub open spec fn screen_of(focus: Pane) -> Screen {
    match focus {
        Pane::Menu => Screen::Menu,
        Pane::FileList => Screen::Files,
        Pane::Editor => Screen::Files,
        Pane::ContainerList => Screen::Containers,
    }
}

/// The screen to show while `focus` has the keyboard.
pub fn screen_for(focus: Pane) -> (screen: Screen)
    ensures
        screen == screen_of(focus),
{
    match focus {
        Pane::Menu => Screen::Menu,
        Pane::FileList | Pane::Editor => Screen::Files,
        Pane::ContainerList => Screen::Containers,
    }
}

/// One entry of a list as it is shown: the name behind `"> "` in the style of the
/// selection where the entry is selected, behind two spaces in the style of the other
/// entries where it is not.
pub open spec fn entry_span(name: Seq<char>, selected: bool) -> SpanView {
    if selected {
        SpanView {
            text: "> "@ + name,
            style: Style { fg: Some(crate::theme::Tone::Yellow), bg: None, bold: true },
        }
    } else {
        SpanView {
            text: "  "@ + name,
            style: Style { fg: Some(crate::theme::Tone::Text), bg: None, bold: false },
        }
    }
}

/// The entries of a list of names as they are shown, the one at `selected` marked.
pub open spec fn entry_spans(names: Seq<Seq<char>>, selected: nat) -> Seq<SpanView> {
    Seq::new(names.len(), |i: int| entry_span(names[i], i == selected))
}

/// The entries of `names` as they are shown, the one at `selected` marked.
pub fn list_entries(names: &Vec<String>, selected: usize) -> (spans: Vec<Span>)
    ensures
        spans.deep_view() == entry_spans(names.deep_view(), selected as nat),
{
    let mut spans: Vec<Span> = Vec::new();
    let mut i: usize = 0;
    while i < names.len()
        invariant
            i <= names.len(),
            spans.len() == i,
            forall|j: int| 0 <= j < i ==> spans[j]@ == entry_span(names[j]@, j == selected),
        decreases names.len() - i,
    {
        let span = if i == selected {
            Span::styled(
                crate::text::followed_by(crate::theme::SELECTED_PREFIX, names[i].as_str()),
                crate::theme::Theme::standard_selected_item(),
            )
        } else {
            Span::styled(
                crate::text::followed_by(crate::theme::NORMAL_PREFIX, names[i].as_str()),
                crate::theme::Theme::standard_normal_item(),
            )
        };
        spans.push(span);
        i += 1;
    }
    assert(spans.deep_view() =~= entry_spans(names.deep_view(), selected as nat));
    spans
}

} // verus!
