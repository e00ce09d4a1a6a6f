use dirserve::text::{chars_of, find_last, matches_at, same_text};

#[test]
fn chars_of_collects_characters() {
    assert_eq!(chars_of(""), Vec::<char>::new());
    assert_eq!(chars_of("a/b"), vec!['a', '/', 'b']);
    assert_eq!(chars_of("\u{e9}\u{1f600}z"), vec!['\u{e9}', '\u{1f600}', 'z']);
}

#[test]
fn matches_at_finds_occurrences() {
    let hay = chars_of("abcabc");
    assert!(matches_at(&hay, 0, &chars_of("abc")));
    assert!(matches_at(&hay, 3, &chars_of("abc")));
    assert!(matches_at(&hay, 1, &chars_of("bca")));
    assert!(matches_at(&hay, 6, &chars_of("")));
    assert!(matches_at(&hay, 0, &chars_of("abcabc")));
}

#[test]
fn matches_at_rejects_other_places() {
    let hay = chars_of("abcabc");
    assert!(!matches_at(&hay, 1, &chars_of("abc")));
    assert!(!matches_at(&hay, 4, &chars_of("abc")));
    assert!(!matches_at(&hay, 7, &chars_of("")));
    assert!(!matches_at(&hay, 0, &chars_of("abcabcd")));
    assert!(!matches_at(&hay, usize::MAX, &chars_of("a")));
}

#[test]
fn find_last_occurrence() {
    let hay = chars_of("a/b/c.d");
    assert_eq!(find_last(&hay, 0, '/'), Some(3));
    assert_eq!(find_last(&hay, 3, '/'), Some(3));
    assert_eq!(find_last(&hay, 4, '/'), None);
    assert_eq!(find_last(&hay, 0, '.'), Some(5));
    assert_eq!(find_last(&hay, 7, '.'), None);
    assert_eq!(find_last(&hay, 0, 'x'), None);
    assert_eq!(find_last(&Vec::new(), 0, 'x'), None);
}

#[test]
fn same_text_compares_characters() {
    assert!(same_text("", ""));
    assert!(same_text("index.html", "index.html"));
    assert!(!same_text("index.html", "index.htm"));
    assert!(!same_text("a", "b"));
    assert!(!same_text("", "a"));
    assert!(same_text("\u{e9}", "\u{e9}"));
}
