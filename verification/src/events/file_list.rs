//! Keys of the file list pane, and the arrival of a file's content.

use crate::api::{ApiError, Request, RequestView};
use crate::buffer::BufferView;
use crate::keys::{KeyCode, KeyEvent};
use crate::state::{AppState, EditorState, Pane};
use crate::text::followed_by;
use vstd::prelude::*;

verus! {

/// The request for the content of the selected file; none on an empty list.
pub open spec fn content_request(state: AppState) -> Option<RequestView> {
    match state.file_list@.current() {
        Some(name) => Some(RequestView::FetchFileContent { filename: name }),
        None => None,
    }
}

/// State and request after the file list has handled `key`: Esc gives the keyboard
/// back to the menu and takes the message off the status line; `j`/down and `k`/up move
/// the selection with wraparound; Enter asks for the content of the selected file and
/// leaves the state as it is; every other key changes nothing.
pub open spec fn file_list_step(
    pre: AppState,
    key: KeyEvent,
    post: AppState,
    request: Option<RequestView>,
) -> bool {
    if key.code == KeyCode::Esc {
        &&& post == AppState { focus: Pane::Menu, status_message: None, ..pre }
        &&& request is None
    } else if key.is_down() {
        &&& post.file_list@ == pre.file_list@.next()
        &&& post == AppState { file_list: post.file_list, ..pre }
        &&& request is None
    } else if key.is_up() {
        &&& post.file_list@ == pre.file_list@.previous()
        &&& post == AppState { file_list: post.file_list, ..pre }
        &&& request is None
    } else if key.code == KeyCode::Enter {
        &&& post == pre
        &&& request == content_request(pre)
    } else {
        &&& post == pre
        &&& request is None
    }
}

/// Handles a key press while the file list has the keyboard, and returns the request
/// that the press calls for.
pub fn handle_keys(state: &mut AppState, key_event: KeyEvent) -> (request: Option<Request>)
    ensures
        file_list_step(*old(state), key_event, *final(state), request.deep_view()),
{
    let mut request: Option<Request> = None;
    match key_event.code {
        KeyCode::Esc => {
            state.focus = Pane::Menu;
            state.status_message = None;
        },
        KeyCode::Char('j') | KeyCode::Down => {
            state.file_list.next();
        },
        KeyCode::Char('k') | KeyCode::Up => {
            state.file_list.previous();
        },
        KeyCode::Enter => {
            match state.file_list.selected() {
                Some(filename) => {
                    request = Some(Request::FetchFileContent { filename: filename.clone() });
                },
                None => {},
            }
        },
        _ => {},
    }
    request
}

/// Esc in the file list gives the keyboard back to the menu and takes the message off
/// the status line, whatever it said.
pub proof fn lemma_escape_returns_to_menu(
    pre: AppState,
    key: KeyEvent,
    post: AppState,
    request: Option<RequestView>,
)
    requires
        file_list_step(pre, key, post, request),
        key.code == KeyCode::Esc,
    ensures
        post.focus == Pane::Menu,
        post.status_message is None,
        request is None,
{
}

/// What the status line says after the file `filename` was loaded.
pub open spec fn loaded_text(filename: Seq<char>) -> Seq<char> {
    "Loaded: "@ + filename
}

/// What the status line says after a file failed to load.
pub open spec fn load_error_text(error: ApiError) -> Seq<char> {
    "Error loading: "@ + error.message@
}

/// The state after the answer to a request for the content of `filename`.
///
/// On success the buffer holds the lines of the content with the cursor at the very
/// beginning, so that the buffer's text is the content; the content is remembered as
/// the text as loaded, the dirty flag is down, the editor has the keyboard and the load
/// is reported; the editing mode and the lists stay. On failure only the failure is
/// reported: the keyboard stays where it is.
pub open spec fn file_content_applied(
    pre: AppState,
    filename: Seq<char>,
    outcome: Result<String, ApiError>,
    post: AppState,
) -> bool {
    match outcome {
        Ok(content) => {
            &&& post.editor.textarea@ == BufferView::opened(EditorState::loaded_lines(content@))
            &&& post.editor.content() == content@
            &&& post.editor.current_file.deep_view() == Some(filename)
            &&& post.editor.original_content@ == content@
            &&& post.status_message.deep_view() == Some(loaded_text(filename))
            &&& post == AppState {
                focus: Pane::Editor,
                dirty: false,
                editor: post.editor,
                status_message: post.status_message,
                ..pre
            }
        },
        Err(error) => {
            &&& post.status_message.deep_view() == Some(load_error_text(error))
            &&& post == AppState { status_message: post.status_message, ..pre }
        },
    }
}

/// Applies the answer to a request for the content of the file `filename`.
pub fn apply_file_content(
    state: &mut AppState,
    filename: String,
    outcome: Result<String, ApiError>,
)
    ensures
        file_content_applied(*old(state), filename@, outcome, *final(state)),
{
    match outcome {
        Ok(content) => {
            let message = followed_by("Loaded: ", filename.as_str());
            state.editor.load_content(filename, content);
            state.dirty = false;
            state.focus = Pane::Editor;
            state.set_status(message);
        },
        Err(error) => {
            state.set_status(followed_by("Error loading: ", error.message.as_str()));
        },
    }
}

/// A file that has arrived is shown clean: the dirty flag is down, the editor has the
/// keyboard, and the editing mode is what it was.
pub proof fn lemma_loaded_file_is_clean(
    pre: AppState,
    filename: Seq<char>,
    content: String,
    post: AppState,
)
    requires
        file_content_applied(pre, filename, Ok(content), post),
    ensures
        !post.dirty,
        post.focus == Pane::Editor,
        post.vim_mode == pre.vim_mode,
        post.editor.textarea@.wf(),
{
}

/// After the arrival of a file the buffer's text is the text as loaded, whatever that
/// text is: the buffer does not differ from it, and the dirty flag, which is down, says
/// so.
pub proof fn lemma_loaded_buffer_matches(
    pre: AppState,
    filename: Seq<char>,
    content: String,
    post: AppState,
)
    requires
        file_content_applied(pre, filename, Ok(content), post),
    ensures
        post.editor.content() == content@,
        post.editor.original_content@ == content@,
        !post.differs(),
        post.dirty == post.differs(),
{
}

/// A file that failed to arrive changes nothing but the status line: the keyboard
/// stays where it was.
pub proof fn lemma_failed_load_keeps_focus(
    pre: AppState,
    filename: Seq<char>,
    error: ApiError,
    post: AppState,
)
    requires
        file_content_applied(pre, filename, Err(error), post),
    ensures
        post.focus == pre.focus,
        post.editor == pre.editor,
        post.dirty == pre.dirty,
        post.status_message is Some,
{
}

} // verus!
