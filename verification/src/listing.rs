//! The listing document: a fixed preamble, one list item per file and a
//! fixed suffix. Paths are written as they are; no character is escaped.

use vstd::prelude::*;
use vstd::seq_lib::lemma_flatten_concat;
use crate::text::{ends_with, occurs_at};

verus! {

/// The text every rendered document starts with.
pub const INDEX_PREFIX: &'static str = "<!DOCTYPE html><html><head></head><body><main><ul>";

/// The text every rendered document ends with.
pub const INDEX_SUFFIX: &'static str = "</ul></body></html>";

/// The target of the hyperlink to the file at `path`, relative to the root.
pub open spec fn href_of(path: Seq<char>) -> Seq<char> {
    seq!['/'] + path
}

/// The list item for the file at `path`: a hyperlink whose target is
/// [`href_of`]`(path)` and whose visible text is `path`.
pub open spec fn list_item_spec(path: Seq<char>) -> Seq<char> {
    "<li><a href=\""@ + href_of(path) + "\">"@ + path + "</a></li>"@
}

/// The list items of a document that lists `files`, one per file, in order.
pub open spec fn index_items(files: Seq<Seq<char>>) -> Seq<Seq<char>> {
    files.map_values(|path: Seq<char>| list_item_spec(path))
}

/// The document that lists `files`.
pub open spec fn index_spec(files: Seq<Seq<char>>) -> Seq<char> {
    INDEX_PREFIX@ + index_items(files).flatten() + INDEX_SUFFIX@
}

/// The single item of a document that reports a failed read.
pub open spec fn error_item_spec(description: Seq<char>) -> Seq<char> {
    "<li><pre><code>"@ + description + "</code></pre></li>"@
}

/// The document that reports a failed read: the frame of a listing around
/// the failure's description in a preformatted block.
pub open spec fn error_page_spec(description: Seq<char>) -> Seq<char> {
    INDEX_PREFIX@ + error_item_spec(description) + INDEX_SUFFIX@
}

/// Where the item of the file at index `i` starts in the document that
/// lists `files`: behind the preamble and the items before it.
pub open spec fn item_offset(files: Seq<Seq<char>>, i: int) -> int {
    (INDEX_PREFIX@.len() + index_items(files).take(i).flatten().len()) as int
}

/// Different paths have different list items.
pub proof fn lemma_list_item_is_injective(first: Seq<char>, second: Seq<char>)
    requires
        list_item_spec(first) == list_item_spec(second),
    ensures
        first == second,
{
    let lead = ("<li><a href=\""@.len() + 1) as int;
    let fixed = lead + "\">"@.len() + "</a></li>"@.len();
    assert(list_item_spec(first).len() == fixed + 2 * first.len());
    assert(list_item_spec(second).len() == fixed + 2 * second.len());
    assert(first =~= list_item_spec(first).subrange(lead, lead + first.len()));
    assert(second =~= list_item_spec(second).subrange(lead, lead + second.len()));
}

/// A document is its preamble, its items and its suffix, and nothing else:
/// one item per file, in the order of the files, each with a hyperlink to
/// `/` and the file's path.
pub proof fn law_document_has_one_item_per_file(files: Seq<Seq<char>>)
    ensures
        index_items(files).len() == files.len(),
        forall|i: int|
            0 <= i < files.len() ==> #[trigger] index_items(files)[i] == list_item_spec(files[i]),
        index_spec(files) == INDEX_PREFIX@ + index_items(files).flatten() + INDEX_SUFFIX@,
        INDEX_PREFIX@.is_prefix_of(index_spec(files)),
        ends_with(index_spec(files), INDEX_SUFFIX@),
{
    let document = index_spec(files);
    assert(document.subrange(0, INDEX_PREFIX@.len() as int) =~= INDEX_PREFIX@);
    assert(document.subrange(document.len() - INDEX_SUFFIX@.len(), document.len() as int)
        =~= INDEX_SUFFIX@);
}

/// The document that lists no file is the preamble followed by the suffix.
pub proof fn law_empty_listing_is_the_frame()
    ensures
        index_spec(Seq::empty()) == INDEX_PREFIX@ + INDEX_SUFFIX@,
{
    assert(index_items(Seq::empty()) =~= Seq::<Seq<char>>::empty());
    assert(index_spec(Seq::empty()) =~= INDEX_PREFIX@ + INDEX_SUFFIX@);
}

/// The item of every file stands in the document, at its offset.
pub proof fn law_document_holds_each_item(files: Seq<Seq<char>>, i: int)
    requires
        0 <= i < files.len(),
    ensures
        occurs_at(index_spec(files), item_offset(files, i), list_item_spec(files[i])),
{
    let items = index_items(files);
    let before = items.take(i);
    let after = items.skip(i + 1);
    let item = list_item_spec(files[i]);
    assert(items =~= before + seq![item] + after);
    lemma_flatten_concat(before + seq![item], after);
    lemma_flatten_concat(before, seq![item]);
    seq![item].lemma_flatten_one_element();
    let document = index_spec(files);
    let at = item_offset(files, i);
    assert(document =~= INDEX_PREFIX@ + before.flatten() + item + after.flatten()
        + INDEX_SUFFIX@);
    assert(document.subrange(at, at + item.len()) =~= item);
}

/// Renders the list item for the file at `path`.
pub fn list_item(path: &str) -> (item: String)
    ensures
        item@ == list_item_spec(path@),
{
    let mut item = String::from_str("<li><a href=\"");
    item.append("/");
    proof {
        reveal_strlit("/");
        assert("/"@ =~= seq!['/']);
    }
    item.append(path);
    item.append("\">");
    item.append(path);
    item.append("</a></li>");
    assert(item@ =~= list_item_spec(path@));
    item
}

/// Renders the document that lists `files`, in the order given.
pub fn render_index(files: &Vec<String>) -> (document: String)
    ensures
        document@ == index_spec(files.deep_view()),
{
    let ghost paths = files.deep_view();
    let ghost item_of = |path: Seq<char>| list_item_spec(path);
    let mut document = String::from_str(INDEX_PREFIX);
    let mut i: usize = 0;
    assert(paths.take(0).flat_map(item_of) =~= Seq::<char>::empty());
    assert(document@ =~= INDEX_PREFIX@ + paths.take(0).flat_map(item_of));
    while i < files.len()
        invariant
            i <= files.len(),
            paths == files.deep_view(),
            item_of == (|path: Seq<char>| list_item_spec(path)),
            document@ == INDEX_PREFIX@ + paths.take(i as int).flat_map(item_of),
        decreases files.len() - i,
    {
        let item = list_item(files[i].as_str());
        proof {
            assert(paths[i as int] == files[i as int]@);
            paths.lemma_flat_map_take_append(item_of, i as int);
        }
        document.append(item.as_str());
        assert(document@ =~= INDEX_PREFIX@ + paths.take(i + 1).flat_map(item_of));
        i += 1;
    }
    assert(paths.take(i as int) =~= paths);
    document.append(INDEX_SUFFIX);
    document
}

/// Renders the document that reports a failed read described by
/// `description`.
pub fn render_error(description: &str) -> (document: String)
    ensures
        document@ == error_page_spec(description@),
{
    let mut document = String::from_str(INDEX_PREFIX);
    document.append("<li><pre><code>");
    document.append(description);
    document.append("</code></pre></li>");
    document.append(INDEX_SUFFIX);
    assert(document@ =~= error_page_spec(description@));
    document
}

} // verus!
