//! Keys of the start menu.

use crate::api::{Request, RequestView};
use crate::keys::{KeyCode, KeyEvent};
use crate::state::refresh::{cache_loaded, load_pane_cache, refresh_pane};
use crate::state::{AppState, Pane};
use crate::storage::{CacheValueView, LocalCache, Resource};
use vstd::prelude::*;

verus! {

/// The pane that the menu entry at `index` leads to: the file list for the first entry,
/// the container list for the second.
pub open spec fn menu_target(index: nat) -> Option<Pane> {
    if index == 0 {
        Some(Pane::FileList)
    } else if index == 1 {
        Some(Pane::ContainerList)
    } else {
        None
    }
}

/// State and request after the keyboard has gone to the list pane `pane`: the pane has
/// the keyboard and its list is filled from the cache. The container list is asked for
/// anew every time; the file list only where it is still empty after that.
pub open spec fn pane_entered(
    pane: Pane,
    pre: AppState,
    cache: Map<Resource, CacheValueView>,
    post: AppState,
    request: Option<RequestView>,
) -> bool {
    &&& cache_loaded(pane, AppState { focus: pane, ..pre }, cache, post)
    &&& request == if pane == Pane::FileList && post.file_list@.items.len() > 0 {
        None
    } else {
        Some(
            if pane == Pane::FileList {
                RequestView::FetchFileList
            } else {
                RequestView::FetchContainerList
            },
        )
    }
}

/// State and request after the menu has handled `key`: `j`/down and `k`/up move the
/// selection with wraparound; Enter enters the pane that the selected entry leads to,
/// as [`pane_entered`] says; every other key changes nothing.
pub open spec fn menu_step(
    pre: AppState,
    cache: Map<Resource, CacheValueView>,
    key: KeyEvent,
    post: AppState,
    request: Option<RequestView>,
) -> bool {
    if key.is_down() {
        &&& post.menu@ == pre.menu@.next()
        &&& post == AppState { menu: post.menu, ..pre }
        &&& request is None
    } else if key.is_up() {
        &&& post.menu@ == pre.menu@.previous()
        &&& post == AppState { menu: post.menu, ..pre }
        &&& request is None
    } else if key.code == KeyCode::Enter && menu_target(pre.menu@.index) is Some {
        pane_entered(menu_target(pre.menu@.index)->0, pre, cache, post, request)
    } else {
        &&& post == pre
        &&& request is None
    }
}

/// Handles a key press while the menu has the keyboard, and returns the request that
/// the press calls for.
pub fn handle_keys(state: &mut AppState, cache: &LocalCache, key_event: KeyEvent) -> (request:
    Option<Request>)
    ensures
        menu_step(*old(state), cache@, key_event, *final(state), request.deep_view()),
{
    let mut request: Option<Request> = None;
    match key_event.code {
        KeyCode::Char('j') | KeyCode::Down => {
            state.menu.next();
        },
        KeyCode::Char('k') | KeyCode::Up => {
            state.menu.previous();
        },
        KeyCode::Enter => {
            let index = state.menu.selected_index();
            if index == 0 {
                state.focus = Pane::FileList;
                load_pane_cache(Pane::FileList, state, cache);
                if state.file_list.is_empty() {
                    request = refresh_pane(Pane::FileList);
                }
            } else if index == 1 {
                state.focus = Pane::ContainerList;
                load_pane_cache(Pane::ContainerList, state, cache);
                request = refresh_pane(Pane::ContainerList);
            }
        },
        _ => {},
    }
    request
}

/// Confirming the first menu entry gives the keyboard to the file list, confirming the
/// second gives it to the container list.
pub proof fn lemma_confirm_enters_pane(
    pre: AppState,
    cache: Map<Resource, CacheValueView>,
    key: KeyEvent,
    post: AppState,
    request: Option<RequestView>,
)
    requires
        menu_step(pre, cache, key, post, request),
        key.code == KeyCode::Enter,
    ensures
        pre.menu@.index == 0 ==> post.focus == Pane::FileList,
        pre.menu@.index == 1 ==> post.focus == Pane::ContainerList,
        pre.menu@.index == 0 && post.file_list@.items.len() == 0 ==> request == Some(
            RequestView::FetchFileList,
        ),
        pre.menu@.index == 0 && post.file_list@.items.len() > 0 ==> request is None,
{
}

} // verus!
