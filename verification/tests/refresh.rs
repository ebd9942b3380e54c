use config_manager::api::{ApiError, ContainerInfo, Request};
use config_manager::state::refresh::{
    load_pane_cache, refresh_container_list, refresh_file_list, refresh_pane,
};
use config_manager::state::{AppState, Pane};
use config_manager::storage::{clear, load, save, CacheValue, LocalCache, Resource};

fn files(names: &[&str]) -> Vec<String> {
    names.iter().map(|name| name.to_string()).collect()
}

fn container(id: &str, state: &str) -> ContainerInfo {
    ContainerInfo {
        id: id.to_string(),
        name: format!("name-{}", id),
        state: state.to_string(),
        status: "Up".to_string(),
    }
}

#[test]
fn refresh_pane_names_the_request() {
    assert_eq!(refresh_pane(Pane::FileList), Some(Request::FetchFileList));
    assert_eq!(refresh_pane(Pane::ContainerList), Some(Request::FetchContainerList));
    assert_eq!(refresh_pane(Pane::Menu), None);
    assert_eq!(refresh_pane(Pane::Editor), None);
}

#[test]
fn successful_refresh_replaces_list_wholesale() {
    let mut state = AppState::new();
    let mut cache = LocalCache::new();
    save(&mut cache, Resource::FileList, CacheValue::Files(files(&["a.toml", "b.conf"])));
    load_pane_cache(Pane::FileList, &mut state, &cache);
    state.file_list.next();
    assert_eq!(state.file_list.files(), &files(&["a.toml", "b.conf"]));
    assert_eq!(state.file_list.selected_index(), 1);

    refresh_file_list(&mut state, &mut cache, Ok(files(&["c.toml"])));
    assert_eq!(state.file_list.files(), &files(&["c.toml"]));
    assert_eq!(state.file_list.selected_index(), 0);
    assert_eq!(load(&cache, Resource::FileList), Some(CacheValue::Files(files(&["c.toml"]))));
    assert_eq!(state.status_message, Some("Loaded file list".to_string()));
}

#[test]
fn failed_refresh_clears_cache_and_keeps_list() {
    let mut state = AppState::new();
    let mut cache = LocalCache::new();
    state.file_list.set_files(files(&["a.toml"]));
    save(&mut cache, Resource::FileList, CacheValue::Files(files(&["a.toml"])));

    refresh_file_list(
        &mut state,
        &mut cache,
        Err(ApiError { message: "Failed to fetch file list: offline".to_string() }),
    );
    assert_eq!(state.file_list.files(), &files(&["a.toml"]));
    assert_eq!(load(&cache, Resource::FileList), None);
    assert_eq!(
        state.status_message,
        Some("Error loading files: Failed to fetch file list: offline".to_string())
    );
}

#[test]
fn failed_refresh_keeps_the_selection() {
    let mut state = AppState::new();
    let mut cache = LocalCache::new();
    state.file_list.set_files(files(&["a.toml", "b.toml", "c.toml"]));
    state.file_list.next();
    state.file_list.next();
    refresh_file_list(&mut state, &mut cache, Err(ApiError { message: "x".to_string() }));
    assert_eq!(state.file_list.selected_index(), 2);
    assert_eq!(state.focus, Pane::Menu);
}

#[test]
fn container_refresh_replaces_or_keeps() {
    let mut state = AppState::new();
    let mut cache = LocalCache::new();
    state.container_list.set_containers(vec![container("a", "running"), container("b", "exited")]);
    state.container_list.next();
    save(
        &mut cache,
        Resource::ContainerList,
        CacheValue::Containers(vec![container("a", "running")]),
    );

    refresh_container_list(
        &mut state,
        &mut cache,
        Err(ApiError { message: "Server returned error: 500".to_string() }),
    );
    assert_eq!(
        state.container_list.containers(),
        &vec![container("a", "running"), container("b", "exited")]
    );
    assert_eq!(state.container_list.selected_index(), 1);
    assert_eq!(load(&cache, Resource::ContainerList), None);
    assert_eq!(
        state.status_message,
        Some("Error loading containers: Server returned error: 500".to_string())
    );

    refresh_container_list(&mut state, &mut cache, Ok(vec![container("c", "paused")]));
    assert_eq!(state.container_list.containers(), &vec![container("c", "paused")]);
    assert_eq!(state.container_list.selected_index(), 0);
    assert_eq!(
        load(&cache, Resource::ContainerList),
        Some(CacheValue::Containers(vec![container("c", "paused")]))
    );
    assert_eq!(state.status_message, Some("Loaded container list".to_string()));
}

#[test]
fn refreshes_of_different_resources_do_not_interfere() {
    let mut one = AppState::new();
    let mut one_cache = LocalCache::new();
    refresh_file_list(&mut one, &mut one_cache, Ok(files(&["a.toml"])));
    refresh_container_list(&mut one, &mut one_cache, Ok(vec![container("a", "running")]));

    let mut other = AppState::new();
    let mut other_cache = LocalCache::new();
    refresh_container_list(&mut other, &mut other_cache, Ok(vec![container("a", "running")]));
    refresh_file_list(&mut other, &mut other_cache, Ok(files(&["a.toml"])));

    assert_eq!(one.file_list.files(), other.file_list.files());
    assert_eq!(one.container_list.containers(), other.container_list.containers());
    for resource in [Resource::FileList, Resource::ContainerList] {
        assert_eq!(load(&one_cache, resource), load(&other_cache, resource));
        assert!(load(&one_cache, resource).is_some());
    }
}

#[test]
fn load_pane_cache_fills_list_from_cache() {
    let mut state = AppState::new();
    let mut cache = LocalCache::new();
    state.file_list.set_files(files(&["old.toml", "older.toml"]));
    state.file_list.next();

    load_pane_cache(Pane::FileList, &mut state, &cache);
    assert_eq!(state.file_list.files(), &files(&["old.toml", "older.toml"]));
    assert_eq!(state.file_list.selected_index(), 1);

    save(&mut cache, Resource::FileList, CacheValue::Files(files(&["a.toml"])));
    save(&mut cache, Resource::ContainerList, CacheValue::Containers(vec![container("a", "x")]));
    load_pane_cache(Pane::Menu, &mut state, &cache);
    load_pane_cache(Pane::Editor, &mut state, &cache);
    assert_eq!(state.file_list.files(), &files(&["old.toml", "older.toml"]));
    assert!(state.container_list.is_empty());

    load_pane_cache(Pane::FileList, &mut state, &cache);
    assert_eq!(state.file_list.files(), &files(&["a.toml"]));
    assert_eq!(state.file_list.selected_index(), 0);
    assert!(state.container_list.is_empty());

    load_pane_cache(Pane::ContainerList, &mut state, &cache);
    assert_eq!(state.container_list.containers(), &vec![container("a", "x")]);
}

#[test]
fn cache_entry_of_the_wrong_kind_counts_as_missing() {
    let mut state = AppState::new();
    let mut cache = LocalCache::new();
    state.file_list.set_files(files(&["kept.toml"]));
    save(&mut cache, Resource::FileList, CacheValue::Containers(vec![container("a", "x")]));
    save(&mut cache, Resource::ContainerList, CacheValue::Files(files(&["a.toml"])));
    load_pane_cache(Pane::FileList, &mut state, &cache);
    load_pane_cache(Pane::ContainerList, &mut state, &cache);
    assert_eq!(state.file_list.files(), &files(&["kept.toml"]));
    assert!(state.container_list.is_empty());
}

#[test]
fn cache_saves_loads_and_clears_by_resource() {
    let mut cache = LocalCache::new();
    assert_eq!(load(&cache, Resource::FileList), None);
    assert_eq!(load(&cache, Resource::ContainerList), None);

    save(&mut cache, Resource::FileList, CacheValue::Files(files(&["a.toml"])));
    assert_eq!(load(&cache, Resource::FileList), Some(CacheValue::Files(files(&["a.toml"]))));
    assert_eq!(load(&cache, Resource::ContainerList), None);

    save(&mut cache, Resource::FileList, CacheValue::Files(files(&["b.toml", "c.toml"])));
    assert_eq!(
        load(&cache, Resource::FileList),
        Some(CacheValue::Files(files(&["b.toml", "c.toml"])))
    );

    save(&mut cache, Resource::ContainerList, CacheValue::Containers(Vec::new()));
    clear(&mut cache, Resource::FileList);
    assert_eq!(load(&cache, Resource::FileList), None);
    assert_eq!(load(&cache, Resource::ContainerList), Some(CacheValue::Containers(Vec::new())));
    clear(&mut cache, Resource::FileList);
    assert_eq!(load(&cache, Resource::FileList), None);
    clear(&mut cache, Resource::ContainerList);
    assert_eq!(load(&cache, Resource::ContainerList), None);
}

#[test]
fn cache_keys_name_the_resources() {
    assert_eq!(Resource::FileList.key(), "file-list");
    assert_eq!(Resource::ContainerList.key(), "container-list");
}

#[test]
fn cache_value_clone_is_equal() {
    let value = CacheValue::Containers(vec![container("a", "running")]);
    assert_eq!(value.clone(), value);
    let value = CacheValue::Files(files(&["a.toml", "b.toml"]));
    assert_eq!(value.clone(), value);
}
