use pathscan::classify::{classify, Classification, OverLimit, ScanPath};

fn path(text: &str) -> ScanPath {
    ScanPath::from_text(String::from(text))
}

#[test]
fn a_path_longer_than_the_limit_is_over() {
    let result = classify(&path("/tmp/abcdef"), 10);
    assert_eq!(result, Classification { length: 11, over_limit: true });
}

#[test]
fn a_path_exactly_at_the_limit_is_not_over() {
    let result = classify(&path("/tmp/abcde"), 10);
    assert_eq!(result.length, 10);
    assert!(!result.over_limit);
}

#[test]
fn a_path_shorter_than_the_limit_is_not_over() {
    let result = classify(&path("/a"), 240);
    assert_eq!(result, Classification { length: 2, over_limit: false });
}

#[test]
fn the_empty_path_has_length_zero() {
    assert_eq!(classify(&path(""), 0), Classification { length: 0, over_limit: false });
}

#[test]
fn a_limit_of_zero_is_passed_by_any_non_empty_path() {
    assert_eq!(classify(&path("x"), 0), Classification { length: 1, over_limit: true });
}

#[test]
fn length_counts_bytes_not_characters() {
    // Three characters, of 1, 2 and 3 bytes.
    let result = classify(&path("a\u{e9}\u{20ac}"), 5);
    assert_eq!(result, Classification { length: 6, over_limit: true });
    assert!(!classify(&path("a\u{e9}\u{20ac}"), 6).over_limit);
}

#[test]
fn the_largest_limit_is_never_passed() {
    assert!(!classify(&path("/some/path"), usize::MAX).over_limit);
}

#[test]
fn classification_depends_on_length_and_limit_alone() {
    let one = classify(&path("/aaa/bbb"), 5);
    let other = classify(&path("/ccc/ddd"), 5);
    assert_eq!(one, other);
    assert_eq!(classify(&path("/aaa/bbb"), 5), one);
}

#[test]
fn an_entry_keeps_its_path_and_size() {
    let entry = OverLimit::new(String::from("/long/path"), 10);
    assert_eq!(entry.path, "/long/path");
    assert_eq!(entry.size, 10);
}

#[test]
fn a_clone_equals_the_entry() {
    let entry = OverLimit::new(String::from("/long/\"path\""), 12);
    let copy = entry.clone();
    assert_eq!(copy.path, "/long/\"path\"");
    assert_eq!(copy.size, 12);
    assert_eq!(entry.path, copy.path);
}

#[test]
fn a_path_from_text_holds_the_bytes_of_the_text() {
    let made = path("/d\u{e9}p");
    assert_eq!(made.text, "/d\u{e9}p");
    assert_eq!(made.bytes, "/d\u{e9}p".as_bytes());
    assert_eq!(made.bytes.len(), 5);
}

#[test]
fn a_path_that_is_no_valid_text_is_measured_by_its_bytes() {
    // Two bytes that are no UTF-8 are shown as two replacement characters
    // of three bytes each.
    let odd = ScanPath::new(vec![b'/', b'a', 0xff, 0xfe], String::from("/a\u{fffd}\u{fffd}"));
    assert_eq!(odd.text.len(), 8);
    assert_eq!(classify(&odd, 3), Classification { length: 4, over_limit: true });
    assert_eq!(classify(&odd, 4), Classification { length: 4, over_limit: false });
}

#[test]
fn a_clone_of_a_path_has_its_bytes_and_its_text() {
    let odd = ScanPath::new(vec![b'/', 0x80], String::from("/\u{fffd}"));
    let copy = odd.clone();
    assert_eq!(copy.bytes, vec![b'/', 0x80]);
    assert_eq!(copy.text, "/\u{fffd}");
}
