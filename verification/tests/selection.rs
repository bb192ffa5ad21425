use filedialog::selection::{Selection, SelectionEntry};

fn entry(name: &str, path: &str) -> SelectionEntry {
    SelectionEntry { file_name: name.to_string(), file_path_name: path.to_string() }
}

#[test]
fn empty_selection_is_empty_and_lists_nothing() {
    let s = Selection::new(Vec::new());
    assert_eq!(s.count(), 0);
    assert!(s.is_empty());
    assert_eq!(s.files(), Vec::<String>::new());
    assert!(s.files_map().is_empty());
}

#[test]
fn files_keep_table_order_and_skip_empty_paths() {
    let s = Selection::new(vec![
        entry("b.txt", "/tmp/b.txt"),
        entry("ghost", ""),
        entry("a.txt", "/tmp/a.txt"),
        entry("", "/tmp/nameless"),
    ]);
    assert_eq!(s.count(), 4);
    assert!(!s.is_empty());
    assert_eq!(
        s.files(),
        vec!["/tmp/b.txt".to_string(), "/tmp/a.txt".to_string(), "/tmp/nameless".to_string()]
    );
}

#[test]
fn files_map_last_write_wins() {
    let s = Selection::new(vec![entry("a.txt", "/one/a.txt"), entry("a.txt", "/two/a.txt")]);
    assert_eq!(s.files_map(), vec![("a.txt".to_string(), "/two/a.txt".to_string())]);
}

#[test]
fn files_map_skips_rows_without_name_or_path() {
    let s = Selection::new(vec![
        entry("a.txt", "/tmp/a.txt"),
        entry("", "/tmp/nameless"),
        entry("ghost", ""),
        entry("b.txt", "/tmp/b.txt"),
        entry("a.txt", "/other/a.txt"),
    ]);
    assert_eq!(
        s.files_map(),
        vec![
            ("a.txt".to_string(), "/other/a.txt".to_string()),
            ("b.txt".to_string(), "/tmp/b.txt".to_string()),
        ]
    );
}

#[test]
fn files_map_row_without_path_does_not_replace() {
    let s = Selection::new(vec![entry("a.txt", "/tmp/a.txt"), entry("a.txt", "")]);
    assert_eq!(s.files_map(), vec![("a.txt".to_string(), "/tmp/a.txt".to_string())]);
}

#[test]
fn files_map_keeps_the_order_of_first_appearance() {
    let s = Selection::new(vec![
        entry("z.txt", "/1/z.txt"),
        entry("a.txt", "/1/a.txt"),
        entry("z.txt", "/2/z.txt"),
        entry("m.txt", "/1/m.txt"),
    ]);
    assert_eq!(
        s.files_map(),
        vec![
            ("z.txt".to_string(), "/2/z.txt".to_string()),
            ("a.txt".to_string(), "/1/a.txt".to_string()),
            ("m.txt".to_string(), "/1/m.txt".to_string()),
        ]
    );
}
