use winctl::{contains_bytes, find_window_by_title, find_windows_by_title, RawWindow, WindowInfo};

fn info(handle: i64, title: &str) -> WindowInfo {
    let raw = RawWindow {
        handle,
        title: title.to_string(),
        process_id: 1,
        class_name: String::new(),
        mapped: true,
        ex_style: 0,
        x: 0,
        y: 0,
        width: 1,
        height: 1,
        path: String::new(),
    };
    winctl::make_record(&raw)
}

#[test]
fn substring_search_is_case_insensitive() {
    let windows = vec![info(1, "My Notepad - file.txt"), info(2, "Calculator")];
    let found = find_windows_by_title(&windows, &"Notepad".to_string(), Some(false));
    assert_eq!(found.len(), 1);
    assert_eq!(found[0].handle, 1);
    let upper = find_windows_by_title(&windows, &"NOTEPAD".to_string(), None);
    assert_eq!(upper.len(), 1);
    assert_eq!(upper[0].handle, 1);
}

#[test]
fn exact_search_needs_the_whole_title() {
    let windows = vec![info(1, "My Notepad - file.txt"), info(2, "Notepad")];
    let found = find_windows_by_title(&windows, &"Notepad".to_string(), Some(true));
    assert_eq!(found.len(), 1);
    assert_eq!(found[0].handle, 2);
}

#[test]
fn exact_search_is_case_sensitive() {
    let windows = vec![info(1, "notepad")];
    let found = find_windows_by_title(&windows, &"Notepad".to_string(), Some(true));
    assert!(found.is_empty());
}

#[test]
fn absent_exact_flag_means_substring_search() {
    let windows = vec![info(1, "Alpha Beta")];
    assert_eq!(find_windows_by_title(&windows, &"beta".to_string(), None).len(), 1);
}

#[test]
fn search_keeps_snapshot_order() {
    let windows = vec![info(3, "editor a"), info(1, "EDITOR b"), info(2, "other")];
    let found = find_windows_by_title(&windows, &"Editor".to_string(), Some(false));
    assert_eq!(found.len(), 2);
    assert_eq!(found[0].handle, 3);
    assert_eq!(found[1].handle, 1);
}

#[test]
fn find_first_returns_the_first_match_or_none() {
    let windows = vec![info(3, "editor a"), info(1, "editor b")];
    let first = find_window_by_title(&windows, &"editor".to_string(), None).unwrap();
    assert_eq!(first.handle, 3);
    assert!(find_window_by_title(&windows, &"missing".to_string(), None).is_none());
}

#[test]
fn empty_query_matches_every_window() {
    let windows = vec![info(1, "anything")];
    assert_eq!(find_windows_by_title(&windows, &String::new(), None).len(), 1);
}

#[test]
fn byte_search_finds_inner_occurrences() {
    assert!(contains_bytes(b"abcdef", b"cde"));
    assert!(contains_bytes(b"abcdef", b""));
    assert!(contains_bytes(b"abcdef", b"abcdef"));
    assert!(!contains_bytes(b"abcdef", b"cdf"));
    assert!(!contains_bytes(b"ab", b"abc"));
}
