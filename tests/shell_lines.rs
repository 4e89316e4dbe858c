use pathman::text::contains;
use pathman::{CurrentShell, PathmanError, Shell};

fn shell(kind: Shell, home: &str) -> CurrentShell {
    CurrentShell { shell: kind, home: home.to_string() }
}

#[test]
fn shell_names_are_matched_in_order() {
    assert_eq!(Shell::from_shell_var("/usr/bin/bash"), Some(Shell::Bash));
    assert_eq!(Shell::from_shell_var("/usr/local/bin/zsh"), Some(Shell::Zsh));
    assert_eq!(Shell::from_shell_var("/opt/homebrew/bin/fish"), Some(Shell::Fish));
    assert_eq!(Shell::from_shell_var("/bin/zsh-or-bash"), Some(Shell::Bash));
    assert_eq!(Shell::from_shell_var("/bin/fish-zsh"), Some(Shell::Zsh));
    assert_eq!(Shell::from_shell_var("/bin/sh"), None);
    assert_eq!(Shell::from_shell_var(""), None);
}

#[test]
fn a_missing_home_directory_comes_first() {
    assert!(matches!(
        CurrentShell::resolve(None, None),
        Err(PathmanError::UnableToFindHomeDirectory)
    ));
    assert!(matches!(
        CurrentShell::resolve(None, Some("/bin/bash".to_string())),
        Err(PathmanError::UnableToFindHomeDirectory)
    ));
}

#[test]
fn a_detected_shell_keeps_the_home_directory() {
    let s = CurrentShell::resolve(Some("/tmp/h".to_string()), Some("/bin/zsh".to_string()))
        .ok()
        .unwrap();
    assert_eq!(s.shell, Shell::Zsh);
    assert_eq!(s.home, "/tmp/h");
}

#[test]
fn bash_has_three_candidates_in_order() {
    assert_eq!(
        shell(Shell::Bash, "/home/u").config_file_candidates(),
        vec![
            "/home/u/.bashrc".to_string(),
            "/home/u/.bash_profile".to_string(),
            "/home/u/.profile".to_string(),
        ]
    );
}

#[test]
fn candidates_under_a_home_with_a_trailing_slash_or_an_empty_home() {
    assert_eq!(
        shell(Shell::Zsh, "/home/u/").config_file_candidates(),
        vec!["/home/u/.zshrc".to_string()]
    );
    assert_eq!(
        shell(Shell::Fish, "").config_file_candidates(),
        vec![".config/fish/config.fish".to_string()]
    );
}

#[test]
fn the_first_existing_candidate_wins() {
    let s = shell(Shell::Bash, "/h");
    assert_eq!(s.config_file_path(&vec![false, true, true]), Ok("/h/.bash_profile".to_string()));
    assert_eq!(s.config_file_path(&vec![false, false, true]), Ok("/h/.profile".to_string()));
    assert_eq!(s.config_file_path(&vec![true, true, true]), Ok("/h/.bashrc".to_string()));
    assert_eq!(
        s.config_file_path(&vec![false, false, false]),
        Err(PathmanError::UnableToFindShellConfigFile)
    );
    assert_eq!(s.config_file_path(&vec![false]), Err(PathmanError::UnableToFindShellConfigFile));
}

#[test]
fn commands_for_each_dialect() {
    let bash = shell(Shell::Bash, "/h");
    let zsh = shell(Shell::Zsh, "/h");
    let fish = shell(Shell::Fish, "/h");
    assert_eq!(bash.get_prepend_command(Some("/a b")), Ok("export PATH=\"/a b:$PATH\"".to_string()));
    assert_eq!(zsh.get_append_command(Some("/x")), Ok("export PATH=\"$PATH:/x\"".to_string()));
    assert_eq!(fish.get_prepend_command(Some("/x")), Ok("set -gx PATH \"/x\" $PATH".to_string()));
    assert_eq!(fish.get_append_command(Some("/x")), Ok("set -gx PATH $PATH \"/x\"".to_string()));
}

#[test]
fn a_path_that_is_not_text_gives_a_conversion_error() {
    let bash = shell(Shell::Bash, "/h");
    assert_eq!(bash.get_prepend_command(None), Err(PathmanError::UnableToConvertPathToString));
    assert_eq!(bash.get_append_command(None), Err(PathmanError::UnableToConvertPathToString));
}

#[test]
fn prepend_and_append_lines_differ() {
    let bash = shell(Shell::Bash, "/h");
    let prepended = bash.get_prepend_command(Some("/test")).unwrap();
    let appended = bash.get_append_command(Some("/test2")).unwrap();
    assert_ne!(prepended, appended);
    assert!(!contains(&prepended, &appended));
}

#[test]
fn substring_search() {
    assert!(contains("abc", ""));
    assert!(contains("abc", "bc"));
    assert!(contains("abc", "abc"));
    assert!(!contains("abc", "abcd"));
    assert!(!contains("", "a"));
    assert!(contains("héllo wörld", "ö"));
}
