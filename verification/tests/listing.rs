use dirserve::listing::{list_item, render_error, render_index, INDEX_PREFIX, INDEX_SUFFIX};

#[test]
fn frame_texts() {
    assert_eq!(INDEX_PREFIX, "<!DOCTYPE html><html><head></head><body><main><ul>");
    assert_eq!(INDEX_SUFFIX, "</ul></body></html>");
}

#[test]
fn list_item_links_to_the_path() {
    assert_eq!(list_item("a.txt"), "<li><a href=\"/a.txt\">a.txt</a></li>");
    assert_eq!(list_item("sub/b.css"), "<li><a href=\"/sub/b.css\">sub/b.css</a></li>");
    assert_eq!(list_item(""), "<li><a href=\"/\"></a></li>");
}

#[test]
fn list_item_escapes_nothing() {
    assert_eq!(list_item("a&b <c>.txt"), "<li><a href=\"/a&b <c>.txt\">a&b <c>.txt</a></li>");
}

#[test]
fn empty_listing_is_the_frame() {
    let files: Vec<String> = Vec::new();
    assert_eq!(
        render_index(&files),
        "<!DOCTYPE html><html><head></head><body><main><ul></ul></body></html>"
    );
}

#[test]
fn listing_of_one_file() {
    let files = vec!["a.txt".to_string()];
    assert_eq!(
        render_index(&files),
        "<!DOCTYPE html><html><head></head><body><main><ul>\
         <li><a href=\"/a.txt\">a.txt</a></li></ul></body></html>"
    );
}

#[test]
fn listing_keeps_the_order_of_the_files() {
    let files = vec!["b.js".to_string(), "a.css".to_string(), "c.wasm".to_string()];
    assert_eq!(
        render_index(&files),
        "<!DOCTYPE html><html><head></head><body><main><ul>\
         <li><a href=\"/b.js\">b.js</a></li>\
         <li><a href=\"/a.css\">a.css</a></li>\
         <li><a href=\"/c.wasm\">c.wasm</a></li>\
         </ul></body></html>"
    );
}

#[test]
fn listing_has_one_item_per_file() {
    for n in [0usize, 1, 2, 7, 40] {
        let files: Vec<String> = (0..n).map(|i| format!("file{i}.txt")).collect();
        let document = render_index(&files);
        assert!(document.starts_with(INDEX_PREFIX));
        assert!(document.ends_with(INDEX_SUFFIX));
        assert_eq!(document.matches("<li>").count(), n);
        let mut expected_len = INDEX_PREFIX.len() + INDEX_SUFFIX.len();
        for file in &files {
            let item = list_item(file);
            assert!(document.contains(&format!("href=\"/{file}\"")));
            assert!(document.contains(&item));
            expected_len += item.len();
        }
        assert_eq!(document.len(), expected_len);
    }
}

#[test]
fn error_page_holds_the_description() {
    assert_eq!(
        render_error("No such file or directory (os error 2)"),
        "<!DOCTYPE html><html><head></head><body><main><ul>\
         <li><pre><code>No such file or directory (os error 2)</code></pre></li>\
         </ul></body></html>"
    );
    assert_eq!(
        render_error(""),
        "<!DOCTYPE html><html><head></head><body><main><ul>\
         <li><pre><code></code></pre></li></ul></body></html>"
    );
}
