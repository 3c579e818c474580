use cipher_browser::navigator::{
    list, Action, Child, Entry, ListError, NavigatorState,
};

fn reading(children: &[(&str, bool)]) -> Vec<Child> {
    children
        .iter()
        .map(|(name, is_directory)| Child { name: name.to_string(), is_directory: *is_directory })
        .collect()
}

fn listing(dir: &str, children: &[(&str, bool)]) -> Vec<Entry> {
    list(dir, &reading(children))
}

fn home_user() -> NavigatorState {
    NavigatorState::enter("/home/user".to_string(), Ok(reading(&[("docs", true), ("a.txt", false)])))
}

#[test]
fn entry_of_child_joins_path_and_shortens_name() {
    let entry = Entry::child("/home/user", "a.txt", false);
    assert_eq!(entry.name, "a.txt");
    assert_eq!(entry.display_name, "../a.txt");
    assert_eq!(entry.absolute_path, "/home/user/a.txt");
    assert!(!entry.is_directory);
    let entry = Entry::child("/", "etc", true);
    assert_eq!(entry.name, "etc");
    assert_eq!(entry.display_name, "../etc");
    assert_eq!(entry.absolute_path, "/etc");
    assert!(entry.is_directory);
}

#[test]
fn entry_clone_is_equal() {
    let entry = Entry::child("/home", "user", true);
    assert_eq!(entry.clone(), entry);
}

#[test]
fn list_keeps_the_order_of_the_reading() {
    let entries = listing("/d", &[("zeta", false), ("alpha", true), ("mid", false)]);
    assert_eq!(entries.len(), 3);
    assert_eq!(entries[0], Entry::child("/d", "zeta", false));
    assert_eq!(entries[1], Entry::child("/d", "alpha", true));
    assert_eq!(entries[2], Entry::child("/d", "mid", false));
    assert!(listing("/d", &[]).is_empty());
}

#[test]
fn enter_starts_with_focus_on_first_entry() {
    let nav = home_user();
    assert_eq!(nav.current_path(), "/home/user");
    assert_eq!(nav.entries().len(), 2);
    assert_eq!(nav.focus_index(), 0);
    assert_eq!(nav.focused(), Some(&Entry::child("/home/user", "docs", true)));
}

#[test]
fn enter_after_failed_reading_has_no_entries() {
    let nav = NavigatorState::enter("/root".to_string(), Err(ListError::PermissionDenied));
    assert_eq!(nav.current_path(), "/root");
    assert!(nav.entries().is_empty());
    assert_eq!(nav.focus_index(), 0);
    assert_eq!(nav.focused(), None);
}

#[test]
fn move_focus_stays_inside_the_listing() {
    let mut nav = NavigatorState::enter(
        "/d".to_string(),
        Ok(reading(&[("a", false), ("b", false), ("c", false)])),
    );
    nav.move_focus(1);
    assert_eq!(nav.focus_index(), 1);
    nav.move_focus(1);
    assert_eq!(nav.focus_index(), 2);
    nav.move_focus(1);
    assert_eq!(nav.focus_index(), 2);
    nav.move_focus(-1);
    assert_eq!(nav.focus_index(), 1);
    nav.move_focus(-5);
    assert_eq!(nav.focus_index(), 0);
    nav.move_focus(-1);
    assert_eq!(nav.focus_index(), 0);
    nav.move_focus(2);
    assert_eq!(nav.focus_index(), 2);
    nav.move_focus(0);
    assert_eq!(nav.focus_index(), 2);
    nav.move_focus(i32::MIN);
    assert_eq!(nav.focus_index(), 0);
    nav.move_focus(i32::MAX);
    assert_eq!(nav.focus_index(), 2);
    assert_eq!(nav.focused(), Some(&Entry::child("/d", "c", false)));
}

#[test]
fn move_focus_on_empty_listing_stays_zero() {
    let mut nav = NavigatorState::enter("/empty".to_string(), Ok(Vec::new()));
    for delta in [1, -1, 0, 7, i32::MAX, i32::MIN] {
        nav.move_focus(delta);
        assert_eq!(nav.focus_index(), 0);
        assert_eq!(nav.focused(), None);
    }
}

#[test]
fn refresh_replaces_entries_and_clamps_focus() {
    let mut nav = NavigatorState::enter(
        "/d".to_string(),
        Ok(reading(&[("a", false), ("b", false), ("c", false)])),
    );
    nav.move_focus(2);
    assert_eq!(nav.refresh(Ok(reading(&[("a", false), ("b", false)]))), Ok(()));
    assert_eq!(nav.current_path(), "/d");
    assert_eq!(nav.entries().len(), 2);
    assert_eq!(nav.focus_index(), 1);
    assert_eq!(nav.refresh(Ok(reading(&[("a", false), ("b", false), ("x", true)]))), Ok(()));
    assert_eq!(nav.focus_index(), 1);
    assert_eq!(nav.refresh(Ok(Vec::new())), Ok(()));
    assert_eq!(nav.focus_index(), 0);
    assert!(nav.entries().is_empty());
}

#[test]
fn failed_refresh_keeps_the_entries() {
    let mut nav = home_user();
    nav.move_focus(1);
    for error in [
        ListError::PermissionDenied,
        ListError::NotADirectory,
        ListError::Vanished,
        ListError::Other,
    ] {
        assert_eq!(nav.refresh(Err(error)), Err(error));
        assert_eq!(nav.current_path(), "/home/user");
        assert_eq!(nav.entries(), &listing("/home/user", &[("docs", true), ("a.txt", false)]));
        assert_eq!(nav.focus_index(), 1);
    }
}

#[test]
fn ascend_at_root_returns_false_and_changes_nothing() {
    let root_entries = listing("/", &[("home", true), ("etc", true)]);
    let mut nav =
        NavigatorState::enter("/".to_string(), Ok(reading(&[("home", true), ("etc", true)])));
    nav.move_focus(1);
    assert_eq!(nav.ascend_target(), None);
    assert_eq!(nav.ascend(Ok(reading(&[("other", false)]))), Ok(false));
    assert_eq!(nav.current_path(), "/");
    assert_eq!(nav.entries(), &root_entries);
    assert_eq!(nav.focus_index(), 1);
    assert_eq!(nav.ascend(Err(ListError::Other)), Ok(false));
    assert_eq!(nav.current_path(), "/");
    assert_eq!(nav.entries(), &root_entries);
}

#[test]
fn ascend_moves_to_parent_and_resets_focus() {
    let mut nav = home_user();
    nav.move_focus(1);
    assert_eq!(nav.ascend_target(), Some("/home".to_string()));
    let parent_entries = listing("/home", &[("user", true), ("guest", true)]);
    assert_eq!(nav.ascend(Ok(reading(&[("user", true), ("guest", true)]))), Ok(true));
    assert_eq!(nav.current_path(), "/home");
    assert_eq!(nav.entries(), &parent_entries);
    assert_eq!(nav.focus_index(), 0);
    assert_eq!(nav.ascend_target(), Some("/".to_string()));
    assert_eq!(nav.ascend(Ok(reading(&[("home", true)]))), Ok(true));
    assert_eq!(nav.current_path(), "/");
    assert_eq!(nav.ascend_target(), None);
}

#[test]
fn failed_ascend_keeps_the_place() {
    let mut nav = home_user();
    nav.move_focus(1);
    assert_eq!(nav.ascend(Err(ListError::PermissionDenied)), Err(ListError::PermissionDenied));
    assert_eq!(nav.current_path(), "/home/user");
    assert_eq!(nav.entries().len(), 2);
    assert_eq!(nav.focus_index(), 1);
}

#[test]
fn select_enters_focused_directory() {
    let mut nav = home_user();
    assert_eq!(nav.focus_index(), 0);
    let selection = nav.focused().unwrap().clone();
    assert_eq!(selection.display_name, "../docs");
    let docs = listing("/home/user/docs", &[("one", false), ("two", false), ("sub", true)]);
    assert_eq!(
        nav.descend_into(&selection, Ok(reading(&[("one", false), ("two", false), ("sub", true)]))),
        Ok(Action::EnterDirectory)
    );
    assert_eq!(nav.current_path(), "/home/user/docs");
    assert_eq!(nav.focus_index(), 0);
    assert_eq!(nav.entries(), &docs);
}

#[test]
fn descend_resets_focus_from_any_index() {
    let mut nav = NavigatorState::enter(
        "/d".to_string(),
        Ok(reading(&[("a", false), ("b", false), ("sub", true)])),
    );
    nav.move_focus(2);
    let selection = nav.focused().unwrap().clone();
    let inside = listing("/d/sub", &[("only", false)]);
    assert_eq!(
        nav.descend_into(&selection, Ok(reading(&[("only", false)]))),
        Ok(Action::EnterDirectory)
    );
    assert_eq!(nav.current_path(), "/d/sub");
    assert_eq!(nav.entries(), &inside);
    assert_eq!(nav.focus_index(), 0);
}

#[test]
fn descend_into_file_hands_its_path_on() {
    let mut nav = home_user();
    nav.move_focus(1);
    let selection = nav.focused().unwrap().clone();
    let before = listing("/home/user", &[("docs", true), ("a.txt", false)]);
    assert_eq!(
        nav.descend_into(&selection, Err(ListError::NotADirectory)),
        Ok(Action::SelectFile("/home/user/a.txt".to_string()))
    );
    assert_eq!(
        nav.descend_into(&selection, Ok(reading(&[("y", false)]))),
        Ok(Action::SelectFile("/home/user/a.txt".to_string()))
    );
    assert_eq!(nav.current_path(), "/home/user");
    assert_eq!(nav.entries(), &before);
    assert_eq!(nav.focus_index(), 1);
}

#[test]
fn failed_descend_keeps_the_place() {
    let mut nav = home_user();
    let selection = nav.focused().unwrap().clone();
    assert_eq!(nav.descend_into(&selection, Err(ListError::Vanished)), Err(ListError::Vanished));
    assert_eq!(nav.current_path(), "/home/user");
    assert_eq!(nav.entries().len(), 2);
    assert_eq!(nav.focus_index(), 0);
}

#[test]
fn ascend_undoes_descend() {
    let mut nav = home_user();
    let selection = nav.focused().unwrap().clone();
    nav.descend_into(&selection, Ok(Vec::new())).unwrap();
    assert_eq!(nav.current_path(), "/home/user/docs");
    assert_eq!(nav.ascend_target(), Some("/home/user".to_string()));
    assert_eq!(nav.ascend(Ok(Vec::new())), Ok(true));
    assert_eq!(nav.current_path(), "/home/user");
}

#[test]
fn list_errors_have_messages() {
    assert_eq!(ListError::PermissionDenied.message(), "Directory may not be read");
    assert_eq!(ListError::NotADirectory.message(), "Not a directory");
    assert_eq!(ListError::Vanished.message(), "Directory is no longer there");
    assert_eq!(ListError::Other.message(), "Couldn't read directory");
}

#[test]
fn every_entry_lies_in_the_current_directory() {
    let mut nav = home_user();
    let check = |nav: &NavigatorState| {
        for entry in nav.entries() {
            assert_eq!(
                entry,
                &Entry::child(nav.current_path(), &entry.name, entry.is_directory)
            );
        }
    };
    check(&nav);
    nav.refresh(Ok(reading(&[("x", false), ("y", true)]))).unwrap();
    check(&nav);
    nav.move_focus(1);
    let selection = nav.focused().unwrap().clone();
    nav.descend_into(&selection, Ok(reading(&[("inner", false)]))).unwrap();
    assert_eq!(nav.entries()[0].absolute_path, "/home/user/y/inner");
    check(&nav);
    nav.ascend(Ok(reading(&[("x", false), ("y", true)]))).unwrap();
    assert_eq!(nav.entries()[1].absolute_path, "/home/user/y");
    check(&nav);
}
