use dirspread::{
    get_terminal, ConfigFile, Directory, Dirspread, DirspreadError, Entry, Failure, Terminal,
    CONFIG_FILE_NAME, KITTY_WINDOW_ID,
};
use std::path::PathBuf;

fn dir(name: &str) -> Entry {
    Entry { name: name.to_string(), is_dir: true }
}

fn file(name: &str) -> Entry {
    Entry { name: name.to_string(), is_dir: false }
}

fn bare(name: &str) -> Directory {
    Directory { disp_name: None, dir_name: name.to_string(), on_open: None }
}

fn names(list: &[&str]) -> Vec<String> {
    list.iter().map(|name| name.to_string()).collect()
}

#[test]
fn names_of_file_and_variable() {
    assert_eq!(CONFIG_FILE_NAME, "dsconfig.json");
    assert_eq!(KITTY_WINDOW_ID, "KITTY_WINDOW_ID");
}

#[test]
fn terminal_follows_the_environment() {
    assert_eq!(get_terminal(true), Terminal::KITTY);
    assert_eq!(get_terminal(false), Terminal::TERMINAL);
}

#[test]
fn new_session_has_nothing_set() {
    let session = Dirspread::new(PathBuf::from("/work"), Terminal::KITTY);
    assert_eq!(session.parent_dir, PathBuf::from("/work"));
    assert_eq!(session.terminal, Terminal::KITTY);
    assert_eq!(session.win_name, None);
    assert_eq!(session.dirs, None);
    assert_eq!(session.ignored_dirs, None);
    assert!(session.needs_listing());
}

#[test]
fn no_config_file_changes_nothing() {
    let mut session = Dirspread::new(PathBuf::from("/work"), Terminal::TERMINAL);
    assert_eq!(session.set_from_config(None), Ok(()));
    assert_eq!(session.parent_dir, PathBuf::from("/work"));
    assert_eq!(session.terminal, Terminal::TERMINAL);
    assert_eq!(session.win_name, None);
    assert_eq!(session.dirs, None);
    assert_eq!(session.ignored_dirs, None);
}

#[test]
fn config_sets_title_directories_and_ignored_names() {
    let mut session = Dirspread::new(PathBuf::from("/work"), Terminal::KITTY);
    let listed = vec![
        Directory {
            disp_name: Some("Server".to_string()),
            dir_name: "api".to_string(),
            on_open: Some("cargo run".to_string()),
        },
        bare("web"),
    ];
    let config = ConfigFile {
        win_name: Some("project".to_string()),
        ignored_dirs: Some(names(&["target"])),
        dirs: Some(listed.clone()),
    };
    assert_eq!(session.set_from_config(Some(Ok(config))), Ok(()));
    assert_eq!(session.win_name, Some("project".to_string()));
    assert_eq!(session.ignored_dirs, Some(names(&["target"])));
    assert_eq!(session.dirs, Some(listed));
    assert_eq!(session.parent_dir, PathBuf::from("/work"));
    assert_eq!(session.terminal, Terminal::KITTY);
    assert!(!session.needs_listing());
}

#[test]
fn config_replaces_by_nothing_too() {
    let mut session = Dirspread::new(PathBuf::from("/work"), Terminal::KITTY);
    session.win_name = Some("old".to_string());
    session.dirs = Some(vec![bare("old")]);
    session.ignored_dirs = Some(names(&["old"]));
    let empty = ConfigFile { win_name: None, ignored_dirs: None, dirs: None };
    assert_eq!(session.save_config(Ok(empty)), Ok(()));
    assert_eq!(session.win_name, None);
    assert_eq!(session.dirs, None);
    assert_eq!(session.ignored_dirs, None);
}

#[test]
fn unreadable_config_is_a_config_error() {
    let mut session = Dirspread::new(PathBuf::from("/work"), Terminal::KITTY);
    session.win_name = Some("kept".to_string());
    let outcome = session.set_from_config(Some(Err("permission denied".to_string())));
    assert_eq!(
        outcome,
        Err(Failure::ConfigError(DirspreadError::new("permission denied")))
    );
    assert_eq!(session.win_name, Some("kept".to_string()));
    assert_eq!(session.dirs, None);
    assert_eq!(session.ignored_dirs, None);
}

#[test]
fn malformed_json_is_a_config_error() {
    let text = "{ \"windowName\": \"project\", \"dirs\": [ { \"dirName\": ";
    let parsed = serde_json::from_str::<serde_json::Value>(text);
    let reason = match parsed {
        Ok(_) => panic!("the text is no JSON"),
        Err(error) => error.to_string(),
    };
    let mut session = Dirspread::new(PathBuf::from("/work"), Terminal::TERMINAL);
    let outcome = session.save_config(Err(reason.clone()));
    assert_eq!(outcome, Err(Failure::ConfigError(DirspreadError::new(&reason))));
    assert!(!reason.is_empty());
    assert_eq!(session.win_name, None);
    assert_eq!(session.dirs, None);
}

#[test]
fn without_config_the_subdirectories_are_listed() {
    let mut session = Dirspread::new(PathBuf::from("/work"), Terminal::KITTY);
    assert_eq!(session.set_from_config(None), Ok(()));
    let listing = vec![dir("b"), file("notes.txt"), dir("a"), file("dsconfig.json"), dir("c")];
    assert_eq!(session.get_directories_if_no_config(Ok(listing)), Ok(()));
    assert_eq!(session.dirs, Some(vec![bare("b"), bare("a"), bare("c")]));
    assert_eq!(session.win_name, None);
    assert_eq!(session.ignored_dirs, None);
    assert!(!session.needs_listing());
}

#[test]
fn empty_parent_gives_no_directories() {
    let mut session = Dirspread::new(PathBuf::from("/work"), Terminal::KITTY);
    assert_eq!(session.get_directories_if_no_config(Ok(Vec::new())), Ok(()));
    assert_eq!(session.dirs, Some(Vec::new()));
}

#[test]
fn parent_with_files_only_gives_no_directories() {
    let mut session = Dirspread::new(PathBuf::from("/work"), Terminal::KITTY);
    let listing = vec![file("a"), file("b")];
    assert_eq!(session.get_directories_if_no_config(Ok(listing)), Ok(()));
    assert_eq!(session.dirs, Some(Vec::new()));
}

#[test]
fn same_name_twice_is_listed_twice() {
    let mut session = Dirspread::new(PathBuf::from("/work"), Terminal::KITTY);
    let listing = vec![dir("a"), dir("a")];
    assert_eq!(session.get_directories_if_no_config(Ok(listing)), Ok(()));
    assert_eq!(session.dirs, Some(vec![bare("a"), bare("a")]));
}

#[test]
fn explicit_directories_stand_whatever_is_on_disk() {
    let mut session = Dirspread::new(PathBuf::from("/work"), Terminal::KITTY);
    let listed = vec![bare("x"), bare("gone")];
    let config = ConfigFile {
        win_name: None,
        ignored_dirs: Some(names(&["x"])),
        dirs: Some(listed.clone()),
    };
    assert_eq!(session.set_from_config(Some(Ok(config))), Ok(()));
    let listing = vec![dir("x"), dir("y"), file("z")];
    assert_eq!(session.get_directories_if_no_config(Ok(listing)), Ok(()));
    assert_eq!(session.dirs, Some(listed));
    assert_eq!(session.ignored_dirs, Some(names(&["x"])));
}

#[test]
fn explicit_directories_need_no_listing() {
    let mut session = Dirspread::new(PathBuf::from("/work"), Terminal::KITTY);
    let config = ConfigFile { win_name: None, ignored_dirs: None, dirs: Some(vec![bare("x")]) };
    assert_eq!(session.set_from_config(Some(Ok(config))), Ok(()));
    assert!(!session.needs_listing());
    let outcome = session.get_directories_if_no_config(Err("cannot list".to_string()));
    assert_eq!(outcome, Ok(()));
    assert_eq!(session.dirs, Some(vec![bare("x")]));
}

#[test]
fn explicit_empty_list_stands() {
    let mut session = Dirspread::new(PathBuf::from("/work"), Terminal::KITTY);
    let config = ConfigFile { win_name: None, ignored_dirs: None, dirs: Some(Vec::new()) };
    assert_eq!(session.set_from_config(Some(Ok(config))), Ok(()));
    assert_eq!(session.get_directories_if_no_config(Ok(vec![dir("a")])), Ok(()));
    assert_eq!(session.dirs, Some(Vec::new()));
}

#[test]
fn ignored_directory_is_left_out() {
    let mut session = Dirspread::new(PathBuf::from("/work"), Terminal::KITTY);
    let config = ConfigFile { win_name: None, ignored_dirs: Some(names(&["x"])), dirs: None };
    assert_eq!(session.set_from_config(Some(Ok(config))), Ok(()));
    assert!(session.needs_listing());
    let listing = vec![dir("a"), dir("x"), dir("b")];
    assert_eq!(session.get_directories_if_no_config(Ok(listing)), Ok(()));
    assert_eq!(session.dirs, Some(vec![bare("a"), bare("b")]));
}

#[test]
fn ignored_names_are_matched_whole() {
    let mut session = Dirspread::new(PathBuf::from("/work"), Terminal::KITTY);
    session.ignored_dirs = Some(names(&["x", "node_modules", ""]));
    let listing = vec![dir("xx"), dir("X"), dir("node_modules"), dir("x "), dir("x")];
    assert_eq!(session.get_directories_if_no_config(Ok(listing)), Ok(()));
    assert_eq!(session.dirs, Some(vec![bare("xx"), bare("X"), bare("x ")]));
}

#[test]
fn ignoring_what_is_not_there_changes_nothing() {
    let mut session = Dirspread::new(PathBuf::from("/work"), Terminal::KITTY);
    session.ignored_dirs = Some(names(&["absent"]));
    let listing = vec![dir("a"), dir("b")];
    assert_eq!(session.get_directories_if_no_config(Ok(listing)), Ok(()));
    assert_eq!(session.dirs, Some(vec![bare("a"), bare("b")]));
}

#[test]
fn empty_ignore_list_ignores_nothing() {
    let mut session = Dirspread::new(PathBuf::from("/work"), Terminal::KITTY);
    session.ignored_dirs = Some(Vec::new());
    assert_eq!(session.get_directories_if_no_config(Ok(vec![dir("a")])), Ok(()));
    assert_eq!(session.dirs, Some(vec![bare("a")]));
}

#[test]
fn unreadable_parent_is_a_directory_resolution_error() {
    let mut session = Dirspread::new(PathBuf::from("/work"), Terminal::KITTY);
    session.ignored_dirs = Some(names(&["x"]));
    let outcome = session.get_directories_if_no_config(Err("not found".to_string()));
    assert_eq!(
        outcome,
        Err(Failure::DirectoryResolutionError(DirspreadError::new("not found")))
    );
    assert_eq!(session.dirs, None);
    assert_eq!(session.ignored_dirs, Some(names(&["x"])));
    assert!(session.needs_listing());
}

#[test]
fn full_path_only_of_a_directory() {
    assert_eq!(
        Dirspread::get_full_path("/work/a".to_string(), true),
        Some("/work/a".to_string())
    );
    assert_eq!(Dirspread::get_full_path("/work/a".to_string(), false), None);
    assert_eq!(Dirspread::get_full_path(String::new(), false), None);
}
