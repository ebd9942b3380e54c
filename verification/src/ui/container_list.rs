//! The container list as it is shown.

use super::{Span, SpanView};
use crate::api::{ContainerInfo, ContainerInfoView};
use crate::state::{AppState, Pane};
use crate::text::{first_chars, followed_by, pad_right, padded};
use crate::theme::container_list::ContainerListTheme;
use crate::theme::{Style, Tone};
use vstd::prelude::*;

verus! {

/// The title in the border of the list.
pub fn title() -> (text: &'static str)
    ensures
        text@ == " Containers "@,
{
    " Containers "
}

/// The first twelve characters of a container's identifier.
pub open spec fn short_id(id: Seq<char>) -> Seq<char> {
    if id.len() <= 12 {
        id
    } else {
        id.take(12)
    }
}

/// One container as it is shown, in four columns: the short identifier filled up to
/// twelve characters, the name filled up to fifteen, the state in brackets in the
/// colour of that state, and the status; a space ends each of the first three.
pub open spec fn row_spans(container: ContainerInfoView) -> Seq<SpanView> {
    seq![
        SpanView {
            text: padded(short_id(container.id), 12) + " "@,
            style: Style { fg: Some(Tone::Yellow), bg: None, bold: false },
        },
        SpanView {
            text: padded(container.name, 15) + " "@,
            style: Style { fg: Some(Tone::Text), bg: None, bold: false },
        },
        SpanView {
            text: "["@ + container.state + "] "@,
            style: Style {
                fg: Some(ContainerListTheme::state_tone(container.state)),
                bg: None,
                bold: false,
            },
        },
        SpanView {
            text: container.status,
            style: Style { fg: Some(Tone::Subtext0), bg: None, bold: false },
        },
    ]
}

/// One container as it is shown.
pub fn row(container: &ContainerInfo) -> (spans: Vec<Span>)
    ensures
        spans.deep_view() == row_spans(container@),
{
    let head = first_chars(container.id.as_str(), 12);
    let mut id = pad_right(head.as_str(), 12);
    id.push(' ');
    let mut name = pad_right(container.name.as_str(), 15);
    name.push(' ');
    let mut state = followed_by("[", container.state.as_str());
    state.push(']');
    state.push(' ');
    proof {
        reveal_strlit(" ");
        reveal_strlit("] ");
        assert(id@ =~= padded(short_id(container.id@), 12) + " "@);
        assert(name@ =~= padded(container.name@, 15) + " "@);
        assert(state@ =~= "["@ + container.state@ + "] "@);
    }
    let mut spans: Vec<Span> = Vec::new();
    spans.push(Span::styled(id, ContainerListTheme::id_style()));
    spans.push(Span::styled(name, ContainerListTheme::name_style()));
    spans.push(
        Span::styled(
            state,
            Style::plain().fg(ContainerListTheme::status_color(container.state.as_str())),
        ),
    );
    spans.push(Span::styled(container.status.clone(), ContainerListTheme::status_info_style()));
    assert(spans.deep_view() =~= row_spans(container@));
    spans
}

/// All containers as they are shown, row by row in the order of the list.
pub fn rows(state: &AppState) -> (all: Vec<Vec<Span>>)
    ensures
        all.deep_view() == Seq::new(
            state.container_list@.items.len(),
            |i: int| row_spans(state.container_list@.items[i]),
        ),
{
    let containers = state.container_list.containers();
    let mut all: Vec<Vec<Span>> = Vec::new();
    let mut i: usize = 0;
    while i < containers.len()
        invariant
            i <= containers.len(),
            all.len() == i,
            forall|j: int| 0 <= j < i ==> all[j].deep_view() == row_spans(containers[j]@),
        decreases containers.len() - i,
    {
        all.push(row(&containers[i]));
        i += 1;
    }
    assert(all.deep_view() =~= Seq::new(
        state.container_list@.items.len(),
        |i: int| row_spans(state.container_list@.items[i]),
    ));
    all
}

/// The position of the row to highlight.
pub fn highlighted(state: &AppState) -> (index: usize)
    ensures
        index == state.container_list@.index,
{
    state.container_list.selected_index()
}

/// The border of the list: accented while the list has the keyboard.
pub fn border_style(state: &AppState) -> (style: Style)
    ensures
        style == (Style {
            fg: Some(
                if state.focus == Pane::ContainerList {
                    Tone::Lavender
                } else {
                    Tone::Overlay1
                },
            ),
            bg: None,
            bold: false,
        }),
{
    if state.focus == Pane::ContainerList {
        ContainerListTheme::border_focused()
    } else {
        ContainerListTheme::border_unfocused()
    }
}

} // verus!
