use config_manager::api::ContainerInfo;
use config_manager::selection::{next_index, previous_index};
use config_manager::state::{ContainerListState, FileListState, MenuState};

fn names(count: usize) -> Vec<String> {
    (0..count).map(|i| format!("file{}.toml", i)).collect()
}

fn container(id: &str) -> ContainerInfo {
    ContainerInfo {
        id: id.to_string(),
        name: format!("name-{}", id),
        state: "running".to_string(),
        status: "Up 2 hours".to_string(),
    }
}

#[test]
fn menu_starts_with_two_entries_and_first_selected() {
    let menu = MenuState::new();
    assert_eq!(menu.items(), &vec!["Config Files".to_string(), "Container".to_string()]);
    assert_eq!(menu.selected_index(), 0);
    assert_eq!(menu.selected(), Some(&"Config Files".to_string()));
}

#[test]
fn menu_next_and_previous_wrap_around() {
    let mut menu = MenuState::new();
    menu.next();
    assert_eq!(menu.selected_index(), 1);
    assert_eq!(menu.selected(), Some(&"Container".to_string()));
    menu.next();
    assert_eq!(menu.selected_index(), 0);
    menu.previous();
    assert_eq!(menu.selected_index(), 1);
    menu.previous();
    assert_eq!(menu.selected_index(), 0);
}

#[test]
fn index_steps_wrap_at_the_ends() {
    assert_eq!(next_index(0, 3), 1);
    assert_eq!(next_index(1, 3), 2);
    assert_eq!(next_index(2, 3), 0);
    assert_eq!(next_index(0, 1), 0);
    assert_eq!(previous_index(0, 3), 2);
    assert_eq!(previous_index(2, 3), 1);
    assert_eq!(previous_index(1, 3), 0);
    assert_eq!(previous_index(0, 1), 0);
    assert_eq!(next_index(usize::MAX - 1, usize::MAX), 0);
}

#[test]
fn file_list_full_cycle_returns_to_start() {
    for count in 1..6 {
        for start in 0..count {
            let mut list = FileListState::new();
            list.set_files(names(count));
            for _ in 0..start {
                list.next();
            }
            assert_eq!(list.selected_index(), start);
            for _ in 0..count {
                list.next();
            }
            assert_eq!(list.selected_index(), start);
            for _ in 0..count {
                list.previous();
            }
            assert_eq!(list.selected_index(), start);
        }
    }
}

#[test]
fn file_list_next_then_previous_cancel() {
    let mut list = FileListState::new();
    list.set_files(names(4));
    for start in 0..4 {
        assert_eq!(list.selected_index(), start);
        list.next();
        list.previous();
        assert_eq!(list.selected_index(), start);
        list.previous();
        list.next();
        assert_eq!(list.selected_index(), start);
        list.next();
    }
}

#[test]
fn empty_file_list_ignores_moves() {
    let mut list = FileListState::new();
    assert!(list.is_empty());
    assert_eq!(list.selected_index(), 0);
    assert_eq!(list.selected(), None);
    list.next();
    assert_eq!(list.selected_index(), 0);
    list.previous();
    assert_eq!(list.selected_index(), 0);
    assert_eq!(list.selected(), None);
    assert!(list.files().is_empty());
}

#[test]
fn set_files_replaces_list_and_resets_selection() {
    let mut list = FileListState::new();
    list.set_files(names(3));
    list.next();
    list.next();
    assert_eq!(list.selected_index(), 2);
    assert_eq!(list.selected(), Some(&"file2.toml".to_string()));
    list.set_files(vec!["c.toml".to_string()]);
    assert_eq!(list.files(), &vec!["c.toml".to_string()]);
    assert_eq!(list.selected_index(), 0);
    assert_eq!(list.selected(), Some(&"c.toml".to_string()));
    list.set_files(Vec::new());
    assert!(list.is_empty());
    assert_eq!(list.selected_index(), 0);
}

#[test]
fn container_list_wraps_and_resets() {
    let mut list = ContainerListState::new();
    assert!(list.is_empty());
    list.next();
    list.previous();
    assert_eq!(list.selected_index(), 0);
    assert_eq!(list._selected(), None);

    list.set_containers(vec![container("a"), container("b"), container("c")]);
    assert_eq!(list._selected(), Some(&container("a")));
    list.previous();
    assert_eq!(list.selected_index(), 2);
    assert_eq!(list._selected(), Some(&container("c")));
    list.next();
    assert_eq!(list.selected_index(), 0);
    list.next();
    assert_eq!(list.selected_index(), 1);
    for _ in 0..3 {
        list.next();
    }
    assert_eq!(list.selected_index(), 1);
    for _ in 0..3 {
        list.previous();
    }
    assert_eq!(list.selected_index(), 1);

    list.set_containers(vec![container("z")]);
    assert_eq!(list.containers(), &vec![container("z")]);
    assert_eq!(list.selected_index(), 0);
}

#[test]
fn container_info_clone_copies_every_field() {
    let original = ContainerInfo {
        id: "0123456789abcdef".to_string(),
        name: "web".to_string(),
        state: "exited".to_string(),
        status: "Exited (0) 3 days ago".to_string(),
    };
    assert_eq!(original.clone(), original);
}
