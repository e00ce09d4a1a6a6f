use std::path::PathBuf;

use dirserve::resolve::{
    asks_for_index, join, resolve, strip_prefix, with_directory_index, Target, INDEX_NAME,
};

#[test]
fn strip_prefix_removes_every_leading_repetition() {
    assert_eq!(strip_prefix("/a.css", "/"), "a.css");
    assert_eq!(strip_prefix("///a.css", "/"), "a.css");
    assert_eq!(strip_prefix("/", "/"), "");
    assert_eq!(strip_prefix("", "/"), "");
    assert_eq!(strip_prefix("/app/app/x", "/app"), "/x");
    assert_eq!(strip_prefix("/app/x", "/app/"), "x");
    assert_eq!(strip_prefix("abab", "ab"), "");
    assert_eq!(strip_prefix("ababa", "ab"), "a");
}

#[test]
fn strip_prefix_leaves_other_paths_alone() {
    assert_eq!(strip_prefix("a/b", "/"), "a/b");
    assert_eq!(strip_prefix("/ap/x", "/app"), "/ap/x");
    assert_eq!(strip_prefix("/a", "/a/b/c"), "/a");
    assert_eq!(strip_prefix("x/app", "/app"), "x/app");
}

#[test]
fn strip_prefix_with_empty_prefix_removes_nothing() {
    assert_eq!(strip_prefix("/a", ""), "/a");
    assert_eq!(strip_prefix("", ""), "");
}

#[test]
fn strip_prefix_counts_characters_not_bytes() {
    assert_eq!(strip_prefix("\u{e9}\u{e9}x", "\u{e9}"), "x");
    assert_eq!(strip_prefix("/\u{fc}/\u{fc}/z\u{fc}", "/\u{fc}"), "/z\u{fc}");
}

#[test]
fn strip_prefix_is_idempotent() {
    for (path, prefix) in [("//a//b", "/"), ("ababab", "ab"), ("/x", "/app"), ("", "/")] {
        let once = strip_prefix(path, prefix);
        assert_eq!(strip_prefix(once, prefix), once);
        if !prefix.is_empty() {
            assert!(!once.starts_with(prefix));
        }
        assert!(path.ends_with(once));
    }
}

#[test]
fn strip_prefix_agrees_with_the_standard_library() {
    let paths = ["", "/", "//", "/a", "//a/b", "/app/x", "/app/app", "a/b", "/appx", "abab", "aaa"];
    let prefixes = ["", "/", "/app", "/app/", "ab", "a", "aa", "//"];
    for path in paths {
        for prefix in prefixes {
            assert_eq!(
                strip_prefix(path, prefix),
                path.trim_start_matches(prefix),
                "path {path:?} prefix {prefix:?}"
            );
        }
    }
}

#[test]
fn index_requests() {
    assert!(asks_for_index(""));
    assert!(asks_for_index("/"));
    assert!(asks_for_index("index.html"));
    assert!(asks_for_index("/index.html"));
    assert!(asks_for_index("index.htm"));
}

#[test]
fn other_requests_are_no_index_requests() {
    assert!(!asks_for_index("/index.htm"));
    assert!(!asks_for_index("index.html/"));
    assert!(!asks_for_index("Index.html"));
    assert!(!asks_for_index("index"));
    assert!(!asks_for_index("//"));
    assert!(!asks_for_index("a/index.html"));
    assert!(!asks_for_index(" "));
}

#[test]
fn resolve_root_requests_to_the_index() {
    assert_eq!(resolve("/", "/"), Target::Index);
    assert_eq!(resolve("", "/"), Target::Index);
    assert_eq!(resolve("/index.html", "/"), Target::Index);
    assert_eq!(resolve("/index.htm", "/"), Target::Index);
    assert_eq!(resolve("/", ""), Target::Index);
    assert_eq!(resolve("/", "/app"), Target::Index);
    assert_eq!(resolve("/app", "/app"), Target::Index);
    assert_eq!(resolve("/app/", "/app"), Target::Index);
    assert_eq!(resolve("/app/index.html", "/app"), Target::Index);
    assert_eq!(resolve("/app/index.html", "/app/"), Target::Index);
}

#[test]
fn resolve_other_requests_to_files() {
    assert_eq!(resolve("/style.css", "/"), Target::File("style.css".to_string()));
    assert_eq!(resolve("/a/b/app.js", "/"), Target::File("a/b/app.js".to_string()));
    assert_eq!(resolve("/app/x.wasm", "/app"), Target::File("/x.wasm".to_string()));
    assert_eq!(resolve("/other/x", "/app"), Target::File("/other/x".to_string()));
    assert_eq!(resolve("/sub/index.html", "/"), Target::File("sub/index.html".to_string()));
}

#[test]
fn join_puts_one_separator_where_needed() {
    assert_eq!(join("srv", "a.css"), "srv/a.css");
    assert_eq!(join("srv/", "a.css"), "srv/a.css");
    assert_eq!(join("/srv/www", "sub/a.css"), "/srv/www/sub/a.css");
    assert_eq!(join("./", "a"), "./a");
    assert_eq!(join("", "a"), "a");
    assert_eq!(join("srv", ""), "srv/");
    assert_eq!(join("", ""), "");
}

#[test]
fn join_keeps_the_base_before_a_leading_slash() {
    assert_eq!(join("srv", "/a.css"), "srv/a.css");
    assert_eq!(join("srv/", "/a.css"), "srv//a.css");
    assert_eq!(join("/srv", "/etc/passwd"), "/srv/etc/passwd");
}

#[test]
fn join_agrees_with_the_standard_library_on_relative_paths() {
    let bases = ["srv", "srv/", "/srv/www", "./", ".", "", "/"];
    let rests = ["a", "a/b.css", "index.html", "", "..", "./x"];
    for base in bases {
        for rest in rests {
            let expected = PathBuf::from(base).join(rest);
            assert_eq!(
                join(base, rest),
                expected.to_str().unwrap(),
                "base {base:?} rest {rest:?}"
            );
        }
    }
}

#[test]
fn locate_targets() {
    assert_eq!(Target::Index.locate("/srv", "/tmp/.tmpX1"), "/tmp/.tmpX1");
    assert_eq!(
        Target::File("a/b.css".to_string()).locate("/srv", "/tmp/.tmpX1"),
        "/srv/a/b.css"
    );
    assert_eq!(Target::File("/b.css".to_string()).locate("/srv", "/tmp/.tmpX1"), "/srv/b.css");
}

#[test]
fn directories_lead_to_their_entry_page() {
    assert_eq!(INDEX_NAME, "index.html");
    assert_eq!(with_directory_index("/srv/docs".to_string(), true), "/srv/docs/index.html");
    assert_eq!(with_directory_index("/srv/docs/".to_string(), true), "/srv/docs/index.html");
    assert_eq!(with_directory_index("/srv/docs".to_string(), false), "/srv/docs");
    assert_eq!(with_directory_index("/srv/a.css".to_string(), false), "/srv/a.css");
}
