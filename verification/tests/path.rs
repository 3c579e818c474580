use cipher_browser::path::{
    check_absolute, check_component, file_name, join, parent, with_file_name, SEPARATOR,
};

#[test]
fn separator_is_slash() {
    assert_eq!(SEPARATOR, '/');
}

#[test]
fn parent_drops_last_component() {
    assert_eq!(parent("/home/user"), Some("/home".to_string()));
    assert_eq!(parent("/home/user/a.txt"), Some("/home/user".to_string()));
    assert_eq!(parent("/home"), Some("/".to_string()));
    assert_eq!(parent("/ü/日本"), Some("/ü".to_string()));
}

#[test]
fn root_has_no_parent() {
    assert_eq!(parent("/"), None);
}

#[test]
fn path_without_separator_has_no_parent() {
    assert_eq!(parent("name"), None);
    assert_eq!(parent(""), None);
}

#[test]
fn file_name_is_last_component() {
    assert_eq!(file_name("/home/user/a.txt"), "a.txt");
    assert_eq!(file_name("/a.txt"), "a.txt");
    assert_eq!(file_name("a.txt"), "a.txt");
    assert_eq!(file_name("/"), "");
    assert_eq!(file_name("/home/"), "");
    assert_eq!(file_name(""), "");
    assert_eq!(file_name("/ü/日本.txt"), "日本.txt");
}

#[test]
fn join_puts_one_separator_between() {
    assert_eq!(join("/home/user", "docs"), "/home/user/docs");
    assert_eq!(join("/", "home"), "/home");
    assert_eq!(join("/home/", "user"), "/home/user");
    assert_eq!(join("rel", "x"), "rel/x");
}

#[test]
fn join_keeps_absolute_name() {
    assert_eq!(join("/home/user", "/etc"), "/etc");
    assert_eq!(join("", "/etc"), "/etc");
}

#[test]
fn join_below_empty_path_is_the_name() {
    assert_eq!(join("", "a"), "a");
    assert_eq!(join("", ""), "");
    assert_eq!(join("/x", ""), "/x/");
}

#[test]
fn with_file_name_stays_in_directory() {
    assert_eq!(with_file_name("/d/a.txt", "1c.a.txt"), "/d/1c.a.txt");
    assert_eq!(with_file_name("/a.txt", "b"), "/b");
    assert_eq!(with_file_name("a.txt", "b"), "b");
    assert_eq!(with_file_name("/d/a.txt", ""), "/d/");
    assert_eq!(with_file_name("/", "x"), "/x");
}

#[test]
fn absolute_paths_are_recognised() {
    assert!(check_absolute("/"));
    assert!(check_absolute("/home"));
    assert!(check_absolute("/home/user/a.txt"));
    assert!(!check_absolute(""));
    assert!(!check_absolute("home"));
    assert!(!check_absolute("/home/"));
    assert!(!check_absolute("//"));
    assert!(!check_absolute("/home//user"));
    assert!(!check_absolute("//home"));
    assert!(!check_absolute("home/user"));
}

#[test]
fn components_are_recognised() {
    assert!(check_component("a.txt"));
    assert!(check_component(".."));
    assert!(check_component("ü"));
    assert!(!check_component(""));
    assert!(!check_component("a/b"));
    assert!(!check_component("/"));
    assert!(!check_component("a/"));
}

#[test]
fn join_then_split_gives_both_back() {
    for dir in ["/", "/home", "/home/user", "/ü/日本"] {
        for name in ["a", "a.txt", "1c.a.txt", "ü", ".."] {
            let path = join(dir, name);
            assert!(check_absolute(&path));
            assert_eq!(parent(&path), Some(dir.to_string()));
            assert_eq!(file_name(&path), name);
            assert_eq!(with_file_name(&path, "other"), join(dir, "other"));
        }
    }
}

#[test]
fn parent_of_absolute_is_absolute_and_shorter() {
    let mut path = "/a/b/c/d".to_string();
    let mut steps = 0;
    while let Some(dir) = parent(&path) {
        assert!(check_absolute(&dir));
        assert!(dir.len() < path.len());
        path = dir;
        steps += 1;
    }
    assert_eq!(path, "/");
    assert_eq!(steps, 4);
}
