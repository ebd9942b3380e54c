use config_manager::api::{ApiError, FileContentResponse, FileListResponse, Request};
use config_manager::events::{complete, handle_key_event, Completion};
use config_manager::keys::{KeyCode, KeyEvent};
use config_manager::state::{AppState, Pane, VimMode};
use config_manager::storage::LocalCache;

fn press(state: &mut AppState, cache: &LocalCache, code: KeyCode) -> Option<Request> {
    handle_key_event(state, cache, KeyEvent::plain(code))
}

#[test]
fn end_to_end_load_and_edit() {
    let mut state = AppState::new();
    let mut cache = LocalCache::new();
    assert_eq!(state.focus, Pane::Menu);
    assert!(state.file_list.is_empty());

    let request = press(&mut state, &cache, KeyCode::Enter);
    assert!(matches!(request, Some(Request::FetchFileList)));
    assert_eq!(state.focus, Pane::FileList);

    complete(
        &mut state,
        &mut cache,
        Completion::FileList(Ok(FileListResponse { files: vec!["app.toml".to_string()] })),
    );
    assert_eq!(state.file_list.files(), &vec!["app.toml".to_string()]);
    assert_eq!(state.file_list.selected_index(), 0);

    let request = press(&mut state, &cache, KeyCode::Enter);
    let filename = match request {
        Some(Request::FetchFileContent { filename }) => filename,
        other => panic!("unexpected request: {:?}", other),
    };
    assert_eq!(filename, "app.toml");

    complete(
        &mut state,
        &mut cache,
        Completion::FileContent {
            filename,
            outcome: Ok(FileContentResponse { content: "a=1".to_string() }),
        },
    );
    assert_eq!(state.editor.get_content(), "a=1");
    assert!(!state.dirty);
    assert_eq!(state.focus, Pane::Editor);
    assert_eq!(state.vim_mode, VimMode::Normal);

    assert!(press(&mut state, &cache, KeyCode::Char('i')).is_none());
    assert_eq!(state.vim_mode, VimMode::Insert);
    for code in [KeyCode::Char('b'), KeyCode::Char('='), KeyCode::Char('2'), KeyCode::Enter] {
        assert!(press(&mut state, &cache, code).is_none());
    }
    assert_eq!(state.editor.get_content(), "b=2\na=1");
    assert!(state.dirty);
}

#[test]
fn failed_refresh_reports_error() {
    let mut state = AppState::new();
    let mut cache = LocalCache::new();
    complete(
        &mut state,
        &mut cache,
        Completion::FileList(Err(ApiError { message: "Server returned error: 500".to_string() })),
    );
    assert_eq!(
        state.status_message.as_deref(),
        Some("Error loading files: Server returned error: 500")
    );
}
