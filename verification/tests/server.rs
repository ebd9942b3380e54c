use config_manager::api::ContainerInfo;
use config_manager::order::{comes_before, sort_by_name};
use config_manager::server::config::{
    default_depth, found_file, holds_char, lists_type, AppConfig, ConfigDirectory, ConfigFile,
    WalkedEntry,
};
use config_manager::server::containers::{
    action_failure, action_message, listing_failure, parse_container_line, parse_containers,
    timeout_failure, ACTION_TIMEOUT_SECS, LISTING_FORMAT,
};
use config_manager::server::names::{
    backup_path, config_path, is_config_name, offered_names, read_failure, validate_filename,
    write_failure, FilenameError, CONFIG_DIR,
};
use config_manager::text::{chars_of, has_suffix, split_at_char};

fn strings(items: &[&str]) -> Vec<String> {
    items.iter().map(|item| item.to_string()).collect()
}

fn file(name: &str, path: &str) -> ConfigFile {
    ConfigFile {
        path: path.to_string(),
        name: name.to_string(),
        description: String::new(),
        readonly: false,
    }
}

fn directory(types: &[&str]) -> ConfigDirectory {
    ConfigDirectory {
        path: "/etc/app".to_string(),
        name: "app".to_string(),
        depth: default_depth(),
        types: strings(types),
        description: "application".to_string(),
        readonly: true,
    }
}

fn walked(relative: &str, extension: Option<&str>) -> WalkedEntry {
    WalkedEntry {
        is_file: true,
        path: format!("/etc/app/{}", relative),
        relative_path: relative.to_string(),
        file_name: relative.rsplit('/').next().map(|name| name.to_string()),
        extension: extension.map(|ext| ext.to_string()),
    }
}

#[test]
fn names_with_allowed_extension() {
    for name in ["a.conf", "a.toml", ".conf", ".toml", "dir/app.toml", "x.conf.toml"] {
        assert!(is_config_name(name));
    }
    for name in ["", "a", "conf", "toml", "a.conf ", "a.tom", "a.toml.bak", "a.TOML", "a.confx"] {
        assert!(!is_config_name(name));
    }
}

#[test]
fn allowed_extension_agrees_with_std_ends_with() {
    let samples = ["", ".", "conf", ".conf", "a.conf", "a.toml", "a.tomlx", "ä.toml", "t.oml"];
    for name in samples {
        assert_eq!(is_config_name(name), name.ends_with(".conf") || name.ends_with(".toml"));
        let chars = chars_of(name);
        for suffix in ["", ".", "l", ".toml", "a.toml", "xa.toml"] {
            assert_eq!(has_suffix(&chars, suffix), name.ends_with(suffix));
        }
    }
}

#[test]
fn valid_filenames_pass() {
    for name in ["app.toml", "nginx.conf", "a.b.toml", ".conf", "my file.toml"] {
        assert_eq!(validate_filename(name), Ok(()));
    }
}

#[test]
fn filenames_that_leave_the_directory_are_invalid() {
    let names = [
        "../app.toml",
        "..",
        "a..toml",
        "dir/app.toml",
        "/app.toml",
        "dir\\app.toml",
        "app.toml/",
        "a/../b.conf",
        "...",
    ];
    for name in names {
        assert_eq!(validate_filename(name), Err(FilenameError::Invalid));
    }
}

#[test]
fn filenames_without_allowed_extension_are_refused() {
    for name in ["", "app", "app.txt", "app.toml.bak", ".", "a.b", "toml"] {
        assert_eq!(validate_filename(name), Err(FilenameError::ExtensionNotAllowed));
    }
}

#[test]
fn filename_validation_agrees_with_std_string_search() {
    let samples = [
        "", ".", "..", "a.toml", "a..toml", "a/b.toml", "a\\b.conf", "x.conf", ".a.", "a.b.c",
        "../x", ". .", "a.toml.", "ü.toml", "ü..toml",
    ];
    for name in samples {
        let expected = if name.contains("..") || name.contains('/') || name.contains('\\') {
            Err(FilenameError::Invalid)
        } else if !name.ends_with(".conf") && !name.ends_with(".toml") {
            Err(FilenameError::ExtensionNotAllowed)
        } else {
            Ok(())
        };
        assert_eq!(validate_filename(name), expected);
    }
}

#[test]
fn filename_errors_read_as_bad_requests() {
    assert_eq!(FilenameError::Invalid.status(), 400);
    assert_eq!(FilenameError::ExtensionNotAllowed.status(), 400);
    assert_eq!(FilenameError::Invalid.message(), "Invalid filename");
    assert_eq!(
        FilenameError::ExtensionNotAllowed.message(),
        "Only .conf and .toml files allowed"
    );
}

#[test]
fn config_and_backup_paths() {
    assert_eq!(CONFIG_DIR, "/tmp/config-manager-configs");
    assert_eq!(config_path("app.toml"), "/tmp/config-manager-configs/app.toml");
    assert_eq!(
        backup_path(&config_path("app.toml")),
        "/tmp/config-manager-configs/app.toml.backup"
    );
}

#[test]
fn split_at_char_keeps_empty_pieces() {
    assert_eq!(split_at_char("a\tb\tc", '\t'), strings(&["a", "b", "c"]));
    assert_eq!(split_at_char("", '\t'), strings(&[""]));
    assert_eq!(split_at_char("\t", '\t'), strings(&["", ""]));
    assert_eq!(split_at_char("a\t\tb\t", '\t'), strings(&["a", "", "b", ""]));
    for sample in ["", "x", ",", "a,b", ",a,,b,", "ä,ö"] {
        let expected: Vec<String> = sample.split(',').map(|piece| piece.to_string()).collect();
        assert_eq!(split_at_char(sample, ','), expected);
    }
}

#[test]
fn chars_of_a_text() {
    assert_eq!(chars_of("aß→"), vec!['a', 'ß', '→']);
    assert_eq!(chars_of(""), Vec::<char>::new());
}

#[test]
fn listing_line_gives_a_container() {
    assert_eq!(
        parse_container_line("abc123\tweb\trunning\tUp 2 hours"),
        Some(ContainerInfo {
            id: "abc123".to_string(),
            name: "web".to_string(),
            state: "running".to_string(),
            status: "Up 2 hours".to_string(),
        })
    );
    assert_eq!(
        parse_container_line("a\tb\tc\td\te\tf"),
        Some(ContainerInfo {
            id: "a".to_string(),
            name: "b".to_string(),
            state: "c".to_string(),
            status: "d".to_string(),
        })
    );
    assert_eq!(
        parse_container_line("\t\t\t"),
        Some(ContainerInfo {
            id: String::new(),
            name: String::new(),
            state: String::new(),
            status: String::new(),
        })
    );
}

#[test]
fn listing_line_with_fewer_than_four_fields_gives_none() {
    for line in ["", "a", "a\tb", "a\tb\tc", "a b c d"] {
        assert_eq!(parse_container_line(line), None);
    }
}

#[test]
fn listing_gives_containers_in_order() {
    let listing = "1\tone\trunning\tUp\nbroken line\n\n2\ttwo\texited\tExited (0)\r\n";
    let containers = parse_containers(listing);
    let ids: Vec<&str> = containers.iter().map(|c| c.id.as_str()).collect();
    assert_eq!(ids, vec!["1", "2"]);
    assert_eq!(containers[1].status, "Exited (0)");
    assert_eq!(parse_containers(""), Vec::<ContainerInfo>::new());
    assert_eq!(LISTING_FORMAT, "{{.ID}}\t{{.Names}}\t{{.State}}\t{{.Status}}");
}

#[test]
fn action_messages() {
    assert_eq!(action_message("start"), "container started");
    assert_eq!(action_message("stop"), "container stopped");
    assert_eq!(action_message("restart"), "container restarted");
    assert_eq!(action_message("pause"), "container pause");
    assert_eq!(timeout_failure("restart"), (408, "docker restart timed out".to_string()));
    assert_eq!(
        action_failure("stop", "no such container"),
        (500, "docker stop failed: no such container".to_string())
    );
    assert_eq!(
        listing_failure(false, "not installed"),
        (500, "Failed to execute docker command: not installed".to_string())
    );
    assert_eq!(
        listing_failure(true, "permission denied"),
        (500, "Docker command failed: permission denied".to_string())
    );
    assert_eq!(ACTION_TIMEOUT_SECS, 120);
}

#[test]
fn file_failures() {
    assert_eq!(
        read_failure("app.toml", true, "No such file or directory"),
        (404, "File not found: app.toml".to_string())
    );
    assert_eq!(
        read_failure("app.toml", false, "permission denied"),
        (500, "Read error: permission denied".to_string())
    );
    assert_eq!(write_failure("disk full"), (500, "Write error: disk full".to_string()));
}

#[test]
fn names_are_ordered_like_strings() {
    let samples = ["", "a", "b", "ab", "abc", "abd", "B", "a/b", "a.b", "ä", "z", "zz", "ü"];
    for a in samples {
        for b in samples {
            assert_eq!(comes_before(a, b), a < b);
        }
    }
}

#[test]
fn table_lists_names_in_rising_order() {
    let files = vec![file("b.toml", "/b"), file("a.conf", "/a"), file("c.toml", "/c")];
    let table = AppConfig::from_parts(files, Vec::new()).unwrap();
    assert_eq!(table.list_files(), strings(&["a.conf", "b.toml", "c.toml"]));
    assert_eq!(AppConfig::new().list_files(), Vec::<String>::new());
}

#[test]
fn table_order_agrees_with_std_sort() {
    let names =
        ["m.toml", "a.toml", "z.conf", "B.toml", "a/b.toml", "ä.conf", "a.conf", "aa.conf"];
    let files: Vec<ConfigFile> = names.iter().map(|name| file(name, "/p")).collect();
    let mut expected = strings(&names);
    expected.sort();
    assert_eq!(AppConfig::from_parts(files, Vec::new()).unwrap().list_files(), expected);
}

#[test]
fn table_finds_files_by_name() {
    let files = vec![file("b.toml", "/b"), file("a.conf", "/a")];
    let table = AppConfig::from_parts(files, vec![file("app/c.txt", "/c")]).unwrap();
    assert_eq!(table.get_file("a.conf"), Some(&file("a.conf", "/a")));
    assert_eq!(table.get_file("b.toml"), Some(&file("b.toml", "/b")));
    assert_eq!(table.get_file("app/c.txt"), Some(&file("app/c.txt", "/c")));
    assert_eq!(table.get_file("c.toml"), None);
    assert_eq!(table.get_file(""), None);
    assert_eq!(table.get_file("a.con"), None);
    assert_eq!(AppConfig::new().get_file("a.conf"), None);
}

#[test]
fn later_file_of_the_same_name_wins() {
    let files = vec![file("a.conf", "/first"), file("b.toml", "/b"), file("a.conf", "/second")];
    let table = AppConfig::from_parts(files, vec![file("b.toml", "/found")]).unwrap();
    assert_eq!(table.list_files(), strings(&["a.conf", "b.toml"]));
    assert_eq!(table.get_file("a.conf"), Some(&file("a.conf", "/second")));
    assert_eq!(table.get_file("b.toml"), Some(&file("b.toml", "/found")));
}

#[test]
fn with_file_puts_in_or_replaces() {
    let table = AppConfig::new()
        .with_file(file("m", "/1"))
        .with_file(file("a", "/2"))
        .with_file(file("z", "/3"))
        .with_file(file("m", "/4"));
    assert_eq!(table.list_files(), strings(&["a", "m", "z"]));
    assert_eq!(table.get_file("m"), Some(&file("m", "/4")));
}

#[test]
fn table_refuses_configured_names_without_allowed_extension() {
    let files = vec![file("a.conf", "/a"), file("notes.txt", "/n"), file("other", "/o")];
    assert_eq!(
        AppConfig::from_parts(files, Vec::new()).err(),
        Some("File name must end with .conf or .toml: notes.txt".to_string())
    );
}

#[test]
fn found_files_need_no_allowed_extension() {
    let table = AppConfig::from_parts(Vec::new(), vec![file("app/notes.txt", "/n")]).unwrap();
    assert_eq!(table.list_files(), strings(&["app/notes.txt"]));
}

#[test]
fn found_file_is_named_after_directory_and_path() {
    let found = found_file(&directory(&[]), &walked("nginx.conf", Some("conf")));
    assert_eq!(
        found,
        Some(ConfigFile {
            path: "/etc/app/nginx.conf".to_string(),
            name: "app/nginx.conf".to_string(),
            description: "From directory: application".to_string(),
            readonly: true,
        })
    );
    let found = found_file(&directory(&[]), &walked("sub/dir/x.toml", Some("toml"))).unwrap();
    assert_eq!(found.name, "app/sub/dir/x.toml");
    let mut entry = walked("x.toml", Some("toml"));
    entry.relative_path = "sub\\x.toml".to_string();
    assert_eq!(found_file(&directory(&[]), &entry).unwrap().name, "app/sub\\x.toml");
    let mut entry = walked("x.toml", Some("toml"));
    entry.file_name = None;
    assert_eq!(found_file(&directory(&[]), &entry).unwrap().name, "app/unknown");
}

#[test]
fn found_file_filters_by_type() {
    let dir = directory(&["toml", "conf"]);
    assert!(found_file(&dir, &walked("a.toml", Some("toml"))).is_some());
    assert!(found_file(&dir, &walked("a.conf", Some("conf"))).is_some());
    assert!(found_file(&dir, &walked("a.txt", Some("txt"))).is_none());
    assert!(found_file(&dir, &walked("a.TOML", Some("TOML"))).is_none());
    assert!(found_file(&dir, &walked("Makefile", None)).is_none());
    assert!(found_file(&directory(&[]), &walked("Makefile", None)).is_some());
    let mut entry = walked("a.toml", Some("toml"));
    entry.is_file = false;
    assert!(found_file(&dir, &entry).is_none());
    assert!(found_file(&directory(&[]), &entry).is_none());
}

#[test]
fn string_helpers() {
    assert!(holds_char("a/b", '/'));
    assert!(!holds_char("ab", '/'));
    assert!(!holds_char("", '/'));
    assert!(lists_type(&strings(&["toml", "conf"]), "conf"));
    assert!(!lists_type(&strings(&["toml", "conf"]), "con"));
    assert!(!lists_type(&Vec::new(), "toml"));
    assert_eq!(default_depth(), 3);
}

#[test]
fn config_file_clone_is_equal() {
    let original = ConfigFile {
        path: "/p".to_string(),
        name: "n.toml".to_string(),
        description: "d".to_string(),
        readonly: true,
    };
    assert_eq!(original.clone(), original);
}

#[test]
fn sort_by_name_agrees_with_std_sort() {
    let samples: [&[&str]; 6] = [
        &[],
        &["one"],
        &["b", "a"],
        &["m.toml", "a.toml", "z.conf", "B.toml", "a/b.toml", "ä.conf", "a.conf", "aa.conf", ""],
        &["x", "x", "a", "x", "a"],
        &["c", "b", "a", "c", "b", "a"],
    ];
    for sample in samples {
        let mut expected = strings(sample);
        expected.sort();
        assert_eq!(sort_by_name(strings(sample)), expected);
    }
}

#[test]
fn sort_by_name_keeps_the_order_of_equal_names() {
    let files = vec![
        file("b", "/1"),
        file("a", "/2"),
        file("b", "/3"),
        file("a", "/4"),
        file("c", "/5"),
        file("a", "/6"),
    ];
    let mut expected = files.clone();
    expected.sort_by(|x, y| x.name.cmp(&y.name));
    let sorted = sort_by_name(files);
    assert_eq!(sorted, expected);
    let paths: Vec<&str> = sorted.iter().map(|f| f.path.as_str()).collect();
    assert_eq!(paths, vec!["/2", "/4", "/6", "/1", "/3", "/5"]);
}

#[test]
fn offered_names_are_filtered_and_sorted() {
    let found = strings(&["z.toml", "notes.txt", "a.conf", ".hidden", "m.toml", "a.conf.bak"]);
    assert_eq!(offered_names(&found), strings(&["a.conf", "m.toml", "z.toml"]));
    assert_eq!(offered_names(&Vec::new()), Vec::<String>::new());
    assert_eq!(offered_names(&strings(&["x", "y"])), Vec::<String>::new());
}
