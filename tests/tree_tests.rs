use lock_cli::tree::{list_content, list_of_files, DirNode, FileFlags};

fn flags(signed: bool) -> FileFlags {
    FileFlags { has_content: true, has_key: true, has_digest: true, is_signed: signed }
}

fn sample() -> DirNode {
    DirNode {
        files: vec![("a".to_string(), flags(false)), ("b".to_string(), flags(true))],
        dirs: vec![(
            "c".to_string(),
            DirNode { files: vec![("d".to_string(), flags(false))], dirs: vec![] },
        )],
    }
}

#[test]
fn enumerate_yields_each_file_once_with_full_path() {
    let files = list_of_files(&sample());
    assert_eq!(files, vec!["a".to_string(), "b".to_string(), "c/d".to_string()]);
}

#[test]
fn enumerate_skips_directory_only_nodes() {
    let tree = DirNode {
        files: vec![],
        dirs: vec![
            ("empty".to_string(), DirNode { files: vec![], dirs: vec![] }),
            (
                "x".to_string(),
                DirNode {
                    files: vec![],
                    dirs: vec![(
                        "y".to_string(),
                        DirNode { files: vec![("z".to_string(), flags(false))], dirs: vec![] },
                    )],
                },
            ),
        ],
    };
    assert_eq!(list_of_files(&tree), vec!["x/y/z".to_string()]);
}

#[test]
fn enumerate_empty_tree() {
    let tree = DirNode { files: vec![], dirs: vec![] };
    assert!(list_of_files(&tree).is_empty());
}

#[test]
fn render_places_terminal_connector_on_last_file() {
    let lines = list_content(&sample());
    assert_eq!(
        lines,
        vec![
            "\u{251c}<DIR> c".to_string(),
            "\u{2502}\u{2514}<FILE> d has_content: true, has_key: true, has_digest: true, has_signature: false".to_string(),
            "\u{251c}<FILE> a has_content: true, has_key: true, has_digest: true, has_signature: false".to_string(),
            "\u{2514}<FILE> b has_content: true, has_key: true, has_digest: true, has_signature: true".to_string(),
            String::new(),
        ]
    );
    let terminals = lines.iter().filter(|l| l.starts_with('\u{2514}')).count();
    assert_eq!(terminals, 1);
}

#[test]
fn render_places_terminal_connector_on_last_directory_without_files() {
    let tree = DirNode {
        files: vec![],
        dirs: vec![
            ("p".to_string(), DirNode { files: vec![], dirs: vec![] }),
            ("q".to_string(), DirNode { files: vec![], dirs: vec![] }),
        ],
    };
    assert_eq!(
        list_content(&tree),
        vec!["\u{251c}<DIR> p".to_string(), "\u{2514}<DIR> q".to_string(), String::new()]
    );
}

#[test]
fn render_nested_last_directory_uses_space_guide() {
    let tree = DirNode {
        files: vec![],
        dirs: vec![(
            "c".to_string(),
            DirNode { files: vec![("d".to_string(), flags(true))], dirs: vec![] },
        )],
    };
    assert_eq!(
        list_content(&tree),
        vec![
            "\u{2514}<DIR> c".to_string(),
            " \u{2514}<FILE> d has_content: true, has_key: true, has_digest: true, has_signature: true".to_string(),
            String::new(),
        ]
    );
}

#[test]
fn render_empty_tree_is_one_blank_line() {
    let tree = DirNode { files: vec![], dirs: vec![] };
    assert_eq!(list_content(&tree), vec![String::new()]);
}

fn segs(parts: &[&str]) -> Vec<String> {
    parts.iter().map(|p| p.to_string()).collect()
}

#[test]
fn lookup_finds_files_only() {
    let tree = sample();
    assert!(lock_cli::tree::contains_file(&tree, &segs(&["a"])));
    assert!(lock_cli::tree::contains_file(&tree, &segs(&["c", "d"])));
    assert!(!lock_cli::tree::contains_file(&tree, &segs(&["c"])));
    assert!(!lock_cli::tree::contains_file(&tree, &segs(&["d"])));
    assert!(!lock_cli::tree::contains_file(&tree, &segs(&["c", "d", "e"])));
    assert!(!lock_cli::tree::contains_file(&tree, &segs(&[])));
}

#[test]
fn first_missing_names_the_first_absent_path() {
    let tree = sample();
    let ok = vec![segs(&["b"]), segs(&["c", "d"])];
    assert_eq!(lock_cli::tree::first_missing(&tree, &ok), None);
    let bad = vec![segs(&["a"]), segs(&["x"]), segs(&["y"])];
    assert_eq!(lock_cli::tree::first_missing(&tree, &bad), Some(1));
}

#[test]
fn excluded_path_is_picked_and_found() {
    let tree = DirNode {
        files: vec![
            ("a".to_string(), flags(false)),
            ("b".to_string(), flags(false)),
            ("c".to_string(), flags(false)),
        ],
        dirs: vec![],
    };
    let files = list_of_files(&tree);
    let excluded = lock_cli::session::pick_paths(&files, &vec![1]).unwrap();
    assert_eq!(excluded, vec!["b".to_string()]);
    assert_eq!(lock_cli::tree::first_missing(&tree, &vec![segs(&["b"])]), None);
}
