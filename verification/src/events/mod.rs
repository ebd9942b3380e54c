//! The interaction engine: every key press goes to the pane that has the keyboard, and
//! every answer from the server goes to the part of the state that asked for it.

pub mod container_list;
pub mod editor;
pub mod file_list;
pub mod menu;

use crate::api::{
    ApiError, ContainerInfo, ContainerListResponse, FileContentResponse, FileListResponse, Request,
    RequestView,
};
use crate::keys::{KeyCode, KeyEvent};
use crate::state::refresh::{
    container_list_refreshed, file_list_refreshed, refresh_container_list, refresh_file_list,
};
use crate::state::{AppState, Pane};
use crate::storage::{CacheValueView, LocalCache, Resource};
use vstd::prelude::*;

verus! {

/// The key that saves the buffer.
pub open spec fn is_save_key(key: KeyEvent) -> bool {
    key.code == KeyCode::F(2)
}

/// State and request after a key press.
///
/// The press goes to the pane that has the keyboard. Before that pane's own keys come
/// the keys that move between panes: Ctrl+Right in the file list gives the keyboard to
/// the editor, Ctrl+Left in the editor gives it to the file list, and neither touches
/// anything else. In the editor the save key asks for the buffer to be saved and leaves
/// the state as it is.
pub open spec fn key_step(
    pre: AppState,
    cache: Map<Resource, CacheValueView>,
    key: KeyEvent,
    post: AppState,
    request: Option<RequestView>,
) -> bool {
    match pre.focus {
        Pane::Menu => menu::menu_step(pre, cache, key, post, request),
        Pane::FileList => if key.code == KeyCode::Right && key.ctrl {
            &&& post == AppState { focus: Pane::Editor, ..pre }
            &&& request is None
        } else {
            file_list::file_list_step(pre, key, post, request)
        },
        Pane::ContainerList => {
            &&& container_list::container_list_step(pre, key, post)
            &&& request is None
        },
        Pane::Editor => if key.code == KeyCode::Left && key.ctrl {
            &&& post == AppState { focus: Pane::FileList, ..pre }
            &&& request is None
        } else if is_save_key(key) {
            &&& post == pre
            &&& request == editor::save_request_of(pre)
        } else {
            &&& editor::editor_step(pre, key, post)
            &&& request is None
        },
    }
}

/// Handles a key press, and returns the request that the press calls for.
pub fn handle_key_event(state: &mut AppState, cache: &LocalCache, key_event: KeyEvent) -> (request:
    Option<Request>)
    ensures
        key_step(*old(state), cache@, key_event, *final(state), request.deep_view()),
{
    match state.focus {
        Pane::Menu => menu::handle_keys(state, cache, key_event),
        Pane::FileList => {
            if key_event.code == KeyCode::Right && key_event.ctrl {
                state.focus = Pane::Editor;
                None
            } else {
                file_list::handle_keys(state, key_event)
            }
        },
        Pane::ContainerList => {
            container_list::handle_keys(state, key_event);
            None
        },
        Pane::Editor => {
            if key_event.code == KeyCode::Left && key_event.ctrl {
                state.focus = Pane::FileList;
                None
            } else if key_event.code == KeyCode::F(2) {
                editor::save_request(state)
            } else {
                editor::handle_keys(state, key_event);
                None
            }
        },
    }
}

/// The ways in which a key can move the keyboard from one pane to another.
pub open spec fn focus_may_move(from: Pane, to: Pane) -> bool {
    match from {
        Pane::Menu => to == Pane::FileList || to == Pane::ContainerList,
        Pane::FileList => to == Pane::Menu || to == Pane::Editor,
        Pane::ContainerList => to == Pane::Menu,
        Pane::Editor => to == Pane::FileList,
    }
}

/// A key press leaves the keyboard where it is or moves it along one of the ways of
/// [`focus_may_move`]. The editing mode changes only while the editor has the keyboard.
pub proof fn lemma_focus_moves_by_transition(
    pre: AppState,
    cache: Map<Resource, CacheValueView>,
    key: KeyEvent,
    post: AppState,
    request: Option<RequestView>,
)
    requires
        key_step(pre, cache, key, post, request),
    ensures
        post.focus == pre.focus || focus_may_move(pre.focus, post.focus),
        pre.focus != Pane::Editor ==> post.vim_mode == pre.vim_mode && post.editor == pre.editor
            && post.dirty == pre.dirty,
        pre.focus == Pane::Editor && key.code == KeyCode::Left && key.ctrl ==> post.vim_mode
            == pre.vim_mode && post.editor == pre.editor,
{
    if pre.focus == Pane::Menu && key.code == KeyCode::Enter && !key.is_down() && !key.is_up() {
        assert(post.focus == pre.focus || focus_may_move(pre.focus, post.focus));
    }
}

/// The selection of every list stays inside its list: lists that are well formed
/// before a key press are well formed after it.
pub proof fn lemma_keys_keep_selections_in_range(
    pre: AppState,
    cache: Map<Resource, CacheValueView>,
    key: KeyEvent,
    post: AppState,
    request: Option<RequestView>,
)
    requires
        key_step(pre, cache, key, post, request),
        pre.menu@.wf(),
        pre.file_list@.wf(),
        pre.container_list@.wf(),
    ensures
        post.menu@.wf(),
        post.file_list@.wf(),
        post.container_list@.wf(),
{
}

/// An answer from the server to a [`Request`].
#[derive(Debug, PartialEq, Eq)]
pub enum Completion {
    /// The answer to [`Request::FetchFileList`].
    FileList(Result<FileListResponse, ApiError>),
    /// The answer to [`Request::FetchContainerList`].
    ContainerList(Result<ContainerListResponse, ApiError>),
    /// The answer to [`Request::FetchFileContent`] for the file `filename`.
    FileContent { filename: String, outcome: Result<FileContentResponse, ApiError> },
    /// The answer to [`Request::SaveFile`] for the file `filename`.
    Saved { filename: String, verdict: Result<(), ApiError> },
}

impl Completion {
    /// The resource whose cache entry the answer decides: the answers to requests for a
    /// list write or remove the entry of that list; the others touch no entry.
    pub open spec fn resource_of(self) -> Option<Resource> {
        match self {
            Completion::FileList(_) => Some(Resource::FileList),
            Completion::ContainerList(_) => Some(Resource::ContainerList),
            _ => None,
        }
    }

    /// The resource whose cache entry the answer decides.
    pub fn resource(&self) -> (resource: Option<Resource>)
        ensures
            resource == self.resource_of(),
    {
        match self {
            Completion::FileList(_) => Some(Resource::FileList),
            Completion::ContainerList(_) => Some(Resource::ContainerList),
            _ => None,
        }
    }
}

/// The list of file names in an answer, or the error in its place.
pub open spec fn files_in(outcome: Result<FileListResponse, ApiError>) -> Result<
    Vec<String>,
    ApiError,
> {
    match outcome {
        Ok(response) => Ok(response.files),
        Err(error) => Err(error),
    }
}

/// The list of containers in an answer, or the error in its place.
pub open spec fn containers_in(outcome: Result<ContainerListResponse, ApiError>) -> Result<
    Vec<ContainerInfo>,
    ApiError,
> {
    match outcome {
        Ok(response) => Ok(response.containers),
        Err(error) => Err(error),
    }
}

/// The content in an answer, or the error in its place.
pub open spec fn content_in(outcome: Result<FileContentResponse, ApiError>) -> Result<
    String,
    ApiError,
> {
    match outcome {
        Ok(response) => Ok(response.content),
        Err(error) => Err(error),
    }
}

/// State and cache after an answer from the server: what the part that asked for it
/// makes of it. Only the answers to requests for a list touch the cache.
pub open spec fn completed(
    pre: AppState,
    pre_cache: Map<Resource, CacheValueView>,
    completion: Completion,
    post: AppState,
    post_cache: Map<Resource, CacheValueView>,
) -> bool {
    match completion {
        Completion::FileList(outcome) => file_list_refreshed(
            pre,
            pre_cache,
            files_in(outcome),
            post,
            post_cache,
        ),
        Completion::ContainerList(outcome) => container_list_refreshed(
            pre,
            pre_cache,
            containers_in(outcome),
            post,
            post_cache,
        ),
        Completion::FileContent { filename, outcome } => {
            &&& file_list::file_content_applied(pre, filename@, content_in(outcome), post)
            &&& post_cache == pre_cache
        },
        Completion::Saved { filename, verdict } => {
            &&& editor::save_result_applied(pre, filename@, verdict, post)
            &&& post_cache == pre_cache
        },
    }
}

/// The selection of every list stays inside its list: lists that are well formed
/// before an answer arrives are well formed after it. An answer never moves the
/// keyboard, except that a file that has arrived gives it to the editor.
pub proof fn lemma_answers_keep_selections_in_range(
    pre: AppState,
    pre_cache: Map<Resource, CacheValueView>,
    completion: Completion,
    post: AppState,
    post_cache: Map<Resource, CacheValueView>,
)
    requires
        completed(pre, pre_cache, completion, post, post_cache),
        pre.menu@.wf(),
        pre.file_list@.wf(),
        pre.container_list@.wf(),
    ensures
        post.menu@.wf(),
        post.file_list@.wf(),
        post.container_list@.wf(),
        post.focus == pre.focus || (post.focus == Pane::Editor
            && completion matches Completion::FileContent { outcome: Ok(_), .. }),
        post.vim_mode == pre.vim_mode,
{
}

/// An answer touches no cache entry but that of its own resource: every other entry is
/// there after the answer exactly if it was there before, with the same value.
pub proof fn lemma_answer_touches_its_entry_only(
    pre: AppState,
    pre_cache: Map<Resource, CacheValueView>,
    completion: Completion,
    post: AppState,
    post_cache: Map<Resource, CacheValueView>,
    other: Resource,
)
    requires
        completed(pre, pre_cache, completion, post, post_cache),
        completion.resource_of() != Some(other),
    ensures
        post_cache.contains_key(other) == pre_cache.contains_key(other),
        post_cache.contains_key(other) ==> post_cache[other] == pre_cache[other],
{
}

/// Applies an answer from the server to the state and the cache.
pub fn complete(state: &mut AppState, cache: &mut LocalCache, completion: Completion)
    ensures
        completed(*old(state), old(cache)@, completion, *final(state), final(cache)@),
{
    match completion {
        Completion::FileList(outcome) => {
            let files = match outcome {
                Ok(response) => Ok(response.files),
                Err(error) => Err(error),
            };
            refresh_file_list(state, cache, files);
        },
        Completion::ContainerList(outcome) => {
            let containers = match outcome {
                Ok(response) => Ok(response.containers),
                Err(error) => Err(error),
            };
            refresh_container_list(state, cache, containers);
        },
        Completion::FileContent { filename, outcome } => {
            let content = match outcome {
                Ok(response) => Ok(response.content),
                Err(error) => Err(error),
            };
            file_list::apply_file_content(state, filename, content);
        },
        Completion::Saved { filename, verdict } => {
            editor::apply_save_result(state, filename, verdict);
        },
    }
}

} // verus!
