use itunes_xml::serve::resolve_file_path;

#[test]
fn decodes_percent_escapes_and_roots_the_path() {
    assert_eq!(
        resolve_file_path("home%2Fuser%2Fa%20b.mp3"),
        Some("/home/user/a b.mp3".to_string()),
    );
}

#[test]
fn plain_paths_only_gain_the_root() {
    assert_eq!(resolve_file_path("music/x.mp3"), Some("/music/x.mp3".to_string()));
    assert_eq!(resolve_file_path(""), Some("/".to_string()));
}

#[test]
fn undecodable_paths_are_refused() {
    assert_eq!(resolve_file_path("%FF"), None);
}
