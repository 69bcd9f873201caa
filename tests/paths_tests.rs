use lock_cli::paths::{check_path, get_name_from_path, PathError, PathKind, PathNeed};

#[test]
fn name_after_last_slash() {
    assert_eq!(get_name_from_path("dir/sub/file.txt"), "file.txt");
}

#[test]
fn name_after_last_backslash() {
    assert_eq!(get_name_from_path("dir\\sub/inner\\key.bin"), "key.bin");
}

#[test]
fn name_without_separator_is_whole_path() {
    assert_eq!(get_name_from_path("plain"), "plain");
}

#[test]
fn name_of_path_ending_in_separator_is_empty() {
    assert_eq!(get_name_from_path("dir/"), "");
}

#[test]
fn name_with_non_ascii_characters() {
    assert_eq!(get_name_from_path("k\u{e9}/\u{fc}ber.txt"), "\u{fc}ber.txt");
}

#[test]
fn missing_path_is_refused() {
    assert_eq!(
        check_path("x".to_string(), PathKind::Missing, PathNeed::Existing),
        Err(PathError::DoesNotExist)
    );
}

#[test]
fn directory_where_file_needed_is_refused() {
    assert_eq!(
        check_path("x".to_string(), PathKind::Directory, PathNeed::File),
        Err(PathError::NotAFile)
    );
}

#[test]
fn file_where_directory_needed_is_refused() {
    assert_eq!(
        check_path("x".to_string(), PathKind::File, PathNeed::Directory),
        Err(PathError::NotADirectory)
    );
}

#[test]
fn fitting_path_is_accepted() {
    assert_eq!(
        check_path("keys/a.key".to_string(), PathKind::File, PathNeed::File),
        Ok("keys/a.key".to_string())
    );
    assert_eq!(
        check_path("out".to_string(), PathKind::Directory, PathNeed::Existing),
        Ok("out".to_string())
    );
}
