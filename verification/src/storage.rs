//! The local cache: the lists as last received from the server, one entry for each
//! resource, kept so that they can be shown before the server has answered again.

use crate::api::{clone_containers, clone_names, ContainerInfo, ContainerInfoView};
use vstd::prelude::*;

verus! {

/// The resources whose last known state is cached.
#[derive(Debug, Clone, Copy, PartialEq, Eq, Structural)]
pub enum Resource {
    FileList,
    ContainerList,
}

impl Resource {
    /// The name under which the resource is stored.
    pub open spec fn key_text(self) -> Seq<char> {
        match self {
            Resource::FileList => "file-list"@,
            Resource::ContainerList => "container-list"@,
        }
    }

    /// The name under which the resource is stored.
    pub fn key(self) -> (name: &'static str)
        ensures
            name@ == self.key_text(),
    {
        match self {
            Resource::FileList => "file-list",
            Resource::ContainerList => "container-list",
        }
    }
}

/// A value that can be cached: a list of file names or a list of containers.
#[derive(Debug, PartialEq, Eq)]
pub enum CacheValue {
    Files(Vec<String>),
    Containers(Vec<ContainerInfo>),
}

/// The content of a [`CacheValue`].
pub enum CacheValueView {
    Files(Seq<Seq<char>>),
    Containers(Seq<ContainerInfoView>),
}

impl View for CacheValue {
    type V = CacheValueView;

    open spec fn view(&self) -> CacheValueView {
        match self {
            CacheValue::Files(names) => CacheValueView::Files(names.deep_view()),
            CacheValue::Containers(containers) => CacheValueView::Containers(
                containers.deep_view(),
            ),
        }
    }
}

impl DeepView for CacheValue {
    type V = CacheValueView;

    open spec fn deep_view(&self) -> CacheValueView {
        self@
    }
}

impl Clone for CacheValue {
    fn clone(&self) -> (copy: Self)
        ensures
            copy@ == self@,
    {
        match self {
            CacheValue::Files(names) => CacheValue::Files(clone_names(names)),
            CacheValue::Containers(containers) => CacheValue::Containers(
                clone_containers(containers),
            ),
        }
    }
}

/// The cache: for each resource the value stored last, if one is stored.
pub struct LocalCache {
    file_list: Option<CacheValue>,
    container_list: Option<CacheValue>,
}

impl View for LocalCache {
    type V = Map<Resource, CacheValueView>;

    closed spec fn view(&self) -> Map<Resource, CacheValueView> {
        let files = match self.file_list {
            Some(value) => Map::empty().insert(Resource::FileList, value@),
            None => Map::empty(),
        };
        match self.container_list {
            Some(value) => files.insert(Resource::ContainerList, value@),
            None => files,
        }
    }
}

impl LocalCache {
    /// A cache with nothing stored.
    pub fn new() -> (cache: Self)
        ensures
            cache@ == Map::<Resource, CacheValueView>::empty(),
    {
        LocalCache { file_list: None, container_list: None }
    }
}

/// Stores `value` for `resource`, in place of what was stored for it before.
pub fn save(cache: &mut LocalCache, resource: Resource, value: CacheValue)
    ensures
        final(cache)@ == old(cache)@.insert(resource, value@),
{
    match resource {
        Resource::FileList => {
            cache.file_list = Some(value);
        },
        Resource::ContainerList => {
            cache.container_list = Some(value);
        },
    }
    assert(cache@ =~= old(cache)@.insert(resource, value@));
}

/// A copy of the value stored for `resource`; none where nothing is stored for it.
pub fn load(cache: &LocalCache, resource: Resource) -> (value: Option<CacheValue>)
    ensures
        value.deep_view() == if cache@.contains_key(resource) {
            Some(cache@[resource])
        } else {
            None
        },
{
    let slot = match resource {
        Resource::FileList => &cache.file_list,
        Resource::ContainerList => &cache.container_list,
    };
    match slot {
        Some(stored) => Some(stored.clone()),
        None => None,
    }
}

/// Removes what is stored for `resource`, if anything is.
pub fn clear(cache: &mut LocalCache, resource: Resource)
    ensures
        final(cache)@ == old(cache)@.remove(resource),
{
    match resource {
        Resource::FileList => {
            cache.file_list = None;
        },
        Resource::ContainerList => {
            cache.container_list = None;
        },
    }
    assert(cache@ =~= old(cache)@.remove(resource));
}

} // verus!
