//! Keeping the lists in step with the server: which request a pane needs, and what an
//! answer does to the state and to the local cache.

use super::{AppState, Pane};
use crate::api::{
    clone_containers, clone_names, ApiError, ContainerInfo, Request, RequestView,
};
use crate::selection::Selection;
use crate::storage::{clear, load, save, CacheValue, CacheValueView, LocalCache, Resource};
use crate::text::followed_by;
use vstd::prelude::*;

verus! {

/// The request that brings a pane's list up to date: one for each of the two list
/// panes, none for the others.
pub open spec fn refresh_request(pane: Pane) -> Option<RequestView> {
    match pane {
        Pane::FileList => Some(RequestView::FetchFileList),
        Pane::ContainerList => Some(RequestView::FetchContainerList),
        _ => None,
    }
}

/// The request to send in order to refresh the list of `pane`.
pub fn refresh_pane(pane: Pane) -> (request: Option<Request>)
    ensures
        request.deep_view() == refresh_request(pane),
{
    match pane {
        Pane::FileList => Some(Request::FetchFileList),
        Pane::ContainerList => Some(Request::FetchContainerList),
        _ => None,
    }
}

/// The state after the list of `pane` is filled from the cache: where the cache holds a
/// list of the pane's kind under the pane's resource, that list replaces the pane's list
/// as a whole, with the selection on its first entry; otherwise nothing changes.
pub open spec fn cache_loaded(
    pane: Pane,
    pre: AppState,
    cache: Map<Resource, CacheValueView>,
    post: AppState,
) -> bool {
    match pane {
        Pane::FileList => if cache.contains_key(Resource::FileList)
            && cache[Resource::FileList] is Files {
            &&& post.file_list@ == Selection::replaced(cache[Resource::FileList]->Files_0)
            &&& post == AppState { file_list: post.file_list, ..pre }
        } else {
            post == pre
        },
        Pane::ContainerList => if cache.contains_key(Resource::ContainerList)
            && cache[Resource::ContainerList] is Containers {
            &&& post.container_list@ == Selection::replaced(
                cache[Resource::ContainerList]->Containers_0,
            )
            &&& post == AppState { container_list: post.container_list, ..pre }
        } else {
            post == pre
        },
        _ => post == pre,
    }
}

/// Fills the list of `pane` with what the cache holds for it.
pub fn load_pane_cache(pane: Pane, state: &mut AppState, cache: &LocalCache)
    ensures
        cache_loaded(pane, *old(state), cache@, *final(state)),
{
    match pane {
        Pane::FileList => {
            match load(cache, Resource::FileList) {
                Some(CacheValue::Files(files)) => {
                    state.file_list.set_files(files);
                },
                _ => {},
            }
        },
        Pane::ContainerList => {
            match load(cache, Resource::ContainerList) {
                Some(CacheValue::Containers(containers)) => {
                    state.container_list.set_containers(containers);
                },
                _ => {},
            }
        },
        _ => {},
    }
}

/// What the status line says after the file list has arrived.
pub open spec fn file_list_loaded_text() -> Seq<char> {
    "Loaded file list"@
}

/// What the status line says after the file list failed to arrive.
pub open spec fn file_list_error_text(error: ApiError) -> Seq<char> {
    "Error loading files: "@ + error.message@
}

/// What the status line says after the container list has arrived.
pub open spec fn container_list_loaded_text() -> Seq<char> {
    "Loaded container list"@
}

/// What the status line says after the container list failed to arrive.
pub open spec fn container_list_error_text(error: ApiError) -> Seq<char> {
    "Error loading containers: "@ + error.message@
}

/// State and cache after the answer to a request for the file list.
///
/// On success the received list is stored in the cache, replaces the list in the state
/// as a whole with the selection on its first entry, and success is reported. On
/// failure the cache entry is removed, the list in the state stays as it is, and the
/// failure is reported. Nothing else changes.
pub open spec fn file_list_refreshed(
    pre: AppState,
    pre_cache: Map<Resource, CacheValueView>,
    outcome: Result<Vec<String>, ApiError>,
    post: AppState,
    post_cache: Map<Resource, CacheValueView>,
) -> bool {
    match outcome {
        Ok(files) => {
            &&& post_cache == pre_cache.insert(
                Resource::FileList,
                CacheValueView::Files(files.deep_view()),
            )
            &&& post.file_list@ == Selection::replaced(files.deep_view())
            &&& post.status_message.deep_view() == Some(file_list_loaded_text())
            &&& post == AppState {
                file_list: post.file_list,
                status_message: post.status_message,
                ..pre
            }
        },
        Err(error) => {
            &&& post_cache == pre_cache.remove(Resource::FileList)
            &&& post.status_message.deep_view() == Some(file_list_error_text(error))
            &&& post == AppState { status_message: post.status_message, ..pre }
        },
    }
}

/// Applies the answer to a request for the file list.
pub fn refresh_file_list(
    state: &mut AppState,
    cache: &mut LocalCache,
    outcome: Result<Vec<String>, ApiError>,
)
    ensures
        file_list_refreshed(*old(state), old(cache)@, outcome, *final(state), final(cache)@),
{
    match outcome {
        Ok(files) => {
            save(cache, Resource::FileList, CacheValue::Files(clone_names(&files)));
            state.file_list.set_files(files);
            state.set_status("Loaded file list".to_owned());
        },
        Err(error) => {
            clear(cache, Resource::FileList);
            state.set_status(followed_by("Error loading files: ", error.message.as_str()));
        },
    }
}

/// State and cache after the answer to a request for the container list.
///
/// On success the received list is stored in the cache, replaces the list in the state
/// as a whole with the selection on its first entry, and success is reported. On
/// failure the cache entry is removed, the list in the state stays as it is, and the
/// failure is reported. Nothing else changes.
pub open spec fn container_list_refreshed(
    pre: AppState,
    pre_cache: Map<Resource, CacheValueView>,
    outcome: Result<Vec<ContainerInfo>, ApiError>,
    post: AppState,
    post_cache: Map<Resource, CacheValueView>,
) -> bool {
    match outcome {
        Ok(containers) => {
            &&& post_cache == pre_cache.insert(
                Resource::ContainerList,
                CacheValueView::Containers(containers.deep_view()),
            )
            &&& post.container_list@ == Selection::replaced(containers.deep_view())
            &&& post.status_message.deep_view() == Some(container_list_loaded_text())
            &&& post == AppState {
                container_list: post.container_list,
                status_message: post.status_message,
                ..pre
            }
        },
        Err(error) => {
            &&& post_cache == pre_cache.remove(Resource::ContainerList)
            &&& post.status_message.deep_view() == Some(container_list_error_text(error))
            &&& post == AppState { status_message: post.status_message, ..pre }
        },
    }
}

/// Applies the answer to a request for the container list.
pub fn refresh_container_list(
    state: &mut AppState,
    cache: &mut LocalCache,
    outcome: Result<Vec<ContainerInfo>, ApiError>,
)
    ensures
        container_list_refreshed(
            *old(state),
            old(cache)@,
            outcome,
            *final(state),
            final(cache)@,
        ),
{
    match outcome {
        Ok(containers) => {
            save(
                cache,
                Resource::ContainerList,
                CacheValue::Containers(clone_containers(&containers)),
            );
            state.container_list.set_containers(containers);
            state.set_status("Loaded container list".to_owned());
        },
        Err(error) => {
            clear(cache, Resource::ContainerList);
            state.set_status(followed_by("Error loading containers: ", error.message.as_str()));
        },
    }
}

/// A list that has arrived replaces the old list as a whole: whatever the state and the
/// cache held before, both then hold exactly the received list, and the selection stands
/// on its first entry.
pub proof fn lemma_refresh_replaces_wholesale(
    pre: AppState,
    pre_cache: Map<Resource, CacheValueView>,
    files: Vec<String>,
    post: AppState,
    post_cache: Map<Resource, CacheValueView>,
)
    requires
        file_list_refreshed(pre, pre_cache, Ok(files), post, post_cache),
    ensures
        post.file_list@.items == files.deep_view(),
        post.file_list@.index == 0,
        post_cache.contains_key(Resource::FileList),
        post_cache[Resource::FileList] == CacheValueView::Files(files.deep_view()),
{
}

/// A list that failed to arrive leaves the list in the state as it was, removes the
/// cache entry and reports the failure.
pub proof fn lemma_failed_refresh_keeps_list(
    pre: AppState,
    pre_cache: Map<Resource, CacheValueView>,
    error: ApiError,
    post: AppState,
    post_cache: Map<Resource, CacheValueView>,
)
    requires
        file_list_refreshed(pre, pre_cache, Err(error), post, post_cache),
    ensures
        post.file_list == pre.file_list,
        !post_cache.contains_key(Resource::FileList),
        post.status_message.deep_view() == Some(file_list_error_text(error)),
{
}

/// A container list that has arrived replaces the old one as a whole, in the state and
/// in the cache, with the selection on its first entry; one that failed to arrive
/// leaves the list in the state as it was, removes the cache entry and reports the
/// failure.
pub proof fn lemma_container_refresh(
    pre: AppState,
    pre_cache: Map<Resource, CacheValueView>,
    outcome: Result<Vec<ContainerInfo>, ApiError>,
    post: AppState,
    post_cache: Map<Resource, CacheValueView>,
)
    requires
        container_list_refreshed(pre, pre_cache, outcome, post, post_cache),
    ensures
        outcome matches Ok(containers) ==> {
            &&& post.container_list@.items == containers.deep_view()
            &&& post.container_list@.index == 0
            &&& post_cache.contains_key(Resource::ContainerList)
            &&& post_cache[Resource::ContainerList] == CacheValueView::Containers(
                containers.deep_view(),
            )
        },
        outcome matches Err(error) ==> {
            &&& post.container_list == pre.container_list
            &&& !post_cache.contains_key(Resource::ContainerList)
            &&& post.status_message.deep_view() == Some(container_list_error_text(error))
        },
{
}

/// Answers for the two lists may arrive in either order: whichever comes first, both
/// lists, both selections and the whole cache are the same in the end. Only the status
/// line tells which came last.
pub proof fn lemma_refreshes_commute(
    start: AppState,
    start_cache: Map<Resource, CacheValueView>,
    files: Result<Vec<String>, ApiError>,
    containers: Result<Vec<ContainerInfo>, ApiError>,
    files_first: (AppState, Map<Resource, CacheValueView>),
    then_containers: (AppState, Map<Resource, CacheValueView>),
    containers_first: (AppState, Map<Resource, CacheValueView>),
    then_files: (AppState, Map<Resource, CacheValueView>),
)
    requires
        file_list_refreshed(start, start_cache, files, files_first.0, files_first.1),
        container_list_refreshed(
            files_first.0,
            files_first.1,
            containers,
            then_containers.0,
            then_containers.1,
        ),
        container_list_refreshed(
            start,
            start_cache,
            containers,
            containers_first.0,
            containers_first.1,
        ),
        file_list_refreshed(
            containers_first.0,
            containers_first.1,
            files,
            then_files.0,
            then_files.1,
        ),
    ensures
        then_containers.0.file_list@ == then_files.0.file_list@,
        then_containers.0.container_list@ == then_files.0.container_list@,
        then_containers.1 == then_files.1,
        then_containers.0 == (AppState {
            file_list: then_containers.0.file_list,
            container_list: then_containers.0.container_list,
            status_message: then_containers.0.status_message,
            ..then_files.0
        }),
{
    assert(then_containers.1 =~= then_files.1);
}

/// Of two answers for the same list the one that arrives last wins: after two lists
/// have arrived one after the other, state and cache hold the second, whatever the
/// first was.
pub proof fn lemma_last_refresh_wins(
    start: AppState,
    start_cache: Map<Resource, CacheValueView>,
    first: Result<Vec<String>, ApiError>,
    between: AppState,
    between_cache: Map<Resource, CacheValueView>,
    second: Vec<String>,
    end: AppState,
    end_cache: Map<Resource, CacheValueView>,
)
    requires
        file_list_refreshed(start, start_cache, first, between, between_cache),
        file_list_refreshed(between, between_cache, Ok(second), end, end_cache),
    ensures
        end.file_list@ == Selection::replaced(second.deep_view()),
        end_cache == start_cache.insert(
            Resource::FileList,
            CacheValueView::Files(second.deep_view()),
        ),
{
    assert(end_cache =~= start_cache.insert(
        Resource::FileList,
        CacheValueView::Files(second.deep_view()),
    ));
}

/// An answer for one list never touches the other list, nor the other list's cache
/// entry: answers for different resources may arrive in any order.
pub proof fn lemma_refreshes_are_independent(
    pre: AppState,
    pre_cache: Map<Resource, CacheValueView>,
    files: Result<Vec<String>, ApiError>,
    containers: Result<Vec<ContainerInfo>, ApiError>,
    post: AppState,
    post_cache: Map<Resource, CacheValueView>,
)
    ensures
        file_list_refreshed(pre, pre_cache, files, post, post_cache) ==> {
            &&& post.container_list == pre.container_list
            &&& post_cache.contains_key(Resource::ContainerList) == pre_cache.contains_key(
                Resource::ContainerList,
            )
            &&& post_cache.contains_key(Resource::ContainerList)
                ==> post_cache[Resource::ContainerList] == pre_cache[Resource::ContainerList]
        },
        container_list_refreshed(pre, pre_cache, containers, post, post_cache) ==> {
            &&& post.file_list == pre.file_list
            &&& post_cache.contains_key(Resource::FileList) == pre_cache.contains_key(
                Resource::FileList,
            )
            &&& post_cache.contains_key(Resource::FileList) ==> post_cache[Resource::FileList]
                == pre_cache[Resource::FileList]
        },
{
}

} // verus!
