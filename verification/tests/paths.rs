use editor_core::utils::path_utils::check_file;
use editor_core::utils::path_utils::extension;
use editor_core::utils::path_utils::file_name;
use editor_core::utils::path_utils::is_ignored;
use editor_core::utils::path_utils::is_within_workspace;
use editor_core::utils::path_utils::parent_directory;
use editor_core::utils::path_utils::split_components;
use editor_core::utils::path_utils::PathError;

fn text(chars: &[char]) -> String {
    chars.iter().collect()
}

#[test]
fn components_skip_empty_pieces() {
    let parts: Vec<String> = split_components("/a//b/c/").iter().map(|c| text(c)).collect();
    assert_eq!(parts, vec!["a", "b", "c"]);
    assert!(split_components("").is_empty());
    assert!(split_components("///").is_empty());
    let relative: Vec<String> = split_components("x/y").iter().map(|c| text(c)).collect();
    assert_eq!(relative, vec!["x", "y"]);
}

#[test]
fn parent_of_paths() {
    assert_eq!(parent_directory("/ws/a/b.txt"), Some("/ws/a".to_string()));
    assert_eq!(parent_directory("/a"), Some("/".to_string()));
    assert_eq!(parent_directory("/"), None);
    assert_eq!(parent_directory(""), None);
    assert_eq!(parent_directory("a"), Some(String::new()));
    assert_eq!(parent_directory("a/b"), Some("a".to_string()));
}

#[test]
fn file_names_and_extensions() {
    assert_eq!(file_name("/ws/src/main.rs"), "main.rs");
    assert_eq!(file_name("/"), "");
    assert_eq!(file_name("/ws/dir/"), "dir");
    assert_eq!(extension("/ws/src/main.rs"), Some("rs".to_string()));
    assert_eq!(extension("/ws/archive.tar.gz"), Some("gz".to_string()));
    assert_eq!(extension("/ws/.gitignore"), None);
    assert_eq!(extension("/ws/Makefile"), None);
    assert_eq!(extension("/ws/.config.toml"), Some("toml".to_string()));
    assert_eq!(extension("/ws/trailing."), Some(String::new()));
    assert_eq!(extension("/"), None);
}

#[test]
fn ignored_directories() {
    assert!(is_ignored("/ws/.git/config"));
    assert!(is_ignored("/ws/node_modules/x/index.js"));
    assert!(is_ignored("/ws/target"));
    assert!(!is_ignored("/ws/src/targets.rs"));
    assert!(!is_ignored("/ws/src/git/mod.rs"));
    assert!(!is_ignored(""));
}

#[test]
fn descendants_are_compared_by_component() {
    assert!(is_within_workspace("/a/b", "/a/b/c"));
    assert!(is_within_workspace("/a/b", "/a//b/c"));
    assert!(!is_within_workspace("/a/b", "/a/bc"));
    assert!(!is_within_workspace("/a/b", "/a"));
    assert!(!is_within_workspace("/a/b", "a/b/c"));
    assert!(is_within_workspace("/", "/anything"));
}

#[test]
fn only_existing_files_can_be_opened() {
    assert_eq!(check_file(true, true), Ok(()));
    assert_eq!(check_file(true, false), Err(PathError::NotAFile));
    assert_eq!(check_file(false, false), Err(PathError::NotFound));
    assert_eq!(check_file(false, true), Err(PathError::NotFound));
}
