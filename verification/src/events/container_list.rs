//! Keys of the container list pane.

use crate::keys::{KeyCode, KeyEvent};
use crate::state::{AppState, Pane};
use vstd::prelude::*;

verus! {

/// The state after the container list has handled `key`: `j`/down and `k`/up move the
/// selection with wraparound, Esc and Ctrl+Left give the keyboard back to the menu,
/// every other key changes nothing.
pub open spec fn container_list_step(pre: AppState, key: KeyEvent, post: AppState) -> bool {
    if key.is_down() {
        &&& post.container_list@ == pre.container_list@.next()
        &&& post == AppState { container_list: post.container_list, ..pre }
    } else if key.is_up() {
        &&& post.container_list@ == pre.container_list@.previous()
        &&& post == AppState { container_list: post.container_list, ..pre }
    } else if key.code == KeyCode::Esc || (key.code == KeyCode::Left && key.ctrl) {
        post == AppState { focus: Pane::Menu, ..pre }
    } else {
        post == pre
    }
}

/// Handles a key press while the container list has the keyboard.
pub fn handle_keys(state: &mut AppState, key_event: KeyEvent)
    ensures
        container_list_step(*old(state), key_event, *final(state)),
{
    match key_event.code {
        KeyCode::Char('j') | KeyCode::Down => {
            state.container_list.next();
        },
        KeyCode::Char('k') | KeyCode::Up => {
            state.container_list.previous();
        },
        KeyCode::Esc => {
            state.focus = Pane::Menu;
        },
        KeyCode::Left => {
            if key_event.ctrl {
                state.focus = Pane::Menu;
            }
        },
        _ => {},
    }
}

} // verus!
