use pathman::WindowsPathUpdater;

#[test]
fn trailing_slash_on_the_new_path_counts_as_present() {
    assert!(WindowsPathUpdater::path_exists_in_path(
        "C:\\tools\\",
        "C:\\bin;C:\\tools"
    ));
    assert_eq!(WindowsPathUpdater::prepend("C:\\tools\\", "C:\\bin;C:\\tools"), None);
}

#[test]
fn trailing_slash_on_a_segment_counts_as_present() {
    assert!(WindowsPathUpdater::path_exists_in_path("/opt/bin", "/usr/bin;/opt/bin/"));
    assert_eq!(WindowsPathUpdater::append("/opt/bin", "/usr/bin;/opt/bin//"), None);
}

#[test]
fn a_longer_or_shorter_segment_does_not_match() {
    assert!(!WindowsPathUpdater::path_exists_in_path("/opt/bin", "/opt/bin2;/opt"));
    assert!(!WindowsPathUpdater::path_exists_in_path("/opt/bin", "x/opt/bin"));
}

#[test]
fn prepending_to_an_empty_value_gives_the_path_alone() {
    assert_eq!(
        WindowsPathUpdater::prepend("C:\\tools", ""),
        Some("C:\\tools".to_string())
    );
}

#[test]
fn appending_to_an_empty_value_gives_the_path_alone() {
    assert_eq!(
        WindowsPathUpdater::append("C:\\tools", ""),
        Some("C:\\tools".to_string())
    );
}

#[test]
fn prepending_puts_the_path_and_one_separator_in_front() {
    assert_eq!(
        WindowsPathUpdater::prepend("C:\\tools", "C:\\bin;D:\\x"),
        Some("C:\\tools;C:\\bin;D:\\x".to_string())
    );
}

#[test]
fn appending_puts_one_separator_and_the_path_at_the_end() {
    assert_eq!(
        WindowsPathUpdater::append("C:\\tools", "C:\\bin;"),
        Some("C:\\bin;;C:\\tools".to_string())
    );
}

#[test]
fn a_path_of_separators_only_matches_the_empty_segment() {
    assert!(WindowsPathUpdater::path_exists_in_path("/", ""));
    assert!(WindowsPathUpdater::path_exists_in_path("\\", "C:\\bin;;D:\\x"));
    assert!(!WindowsPathUpdater::path_exists_in_path("/", "C:\\bin;D:\\x"));
    assert_eq!(WindowsPathUpdater::prepend("/", ""), None);
}

#[test]
fn the_first_and_last_segments_are_found() {
    assert!(WindowsPathUpdater::path_exists_in_path("a", "a;b;c"));
    assert!(WindowsPathUpdater::path_exists_in_path("c\\", "a;b;c"));
    assert!(WindowsPathUpdater::path_exists_in_path("b", "a;b;c"));
}
