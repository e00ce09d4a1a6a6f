//! Media kinds, the content-type label each one selects, and the
//! classification of a path by the suffix of its file name.

use vstd::prelude::*;
use crate::text::{chars_of, find_last, last_index_of, lemma_last_index_is, lemma_last_index_none,
    lemma_last_index_of, same_text};

verus! {

/// The media kinds a served file can be classified into.
#[derive(Clone, Copy, Debug, PartialEq, Eq, Structural)]
pub enum MediaKind {
    Html,
    Css,
    Js,
    Wasm,
}

impl MediaKind {
    /// The value of the `content-type` header for this kind.
    pub open spec fn content_type_spec(self) -> Seq<char> {
        match self {
            MediaKind::Html => "text/html"@,
            MediaKind::Css => "text/css"@,
            MediaKind::Js => "application/javascript"@,
            MediaKind::Wasm => "application/wasm"@,
        }
    }

    /// Returns the value of the `content-type` header for this kind.
    pub fn content_type(&self) -> (label: &'static str)
        ensures
            label@ == self.content_type_spec(),
    {
        match self {
            MediaKind::Html => "text/html",
            MediaKind::Css => "text/css",
            MediaKind::Js => "application/javascript",
            MediaKind::Wasm => "application/wasm",
        }
    }
}

/// The file name of `path`: what follows its last `/`, or all of it where
/// it holds no `/`.
pub open spec fn file_name_spec(path: Seq<char>) -> Seq<char> {
    match last_index_of(path, '/') {
        Some(k) => path.skip(k + 1),
        None => path,
    }
}

/// The extension of the file name `name`: what follows its last `.`. A name
/// without a `.`, a name whose only `.` is its first character, and the
/// name `..` have no extension.
pub open spec fn extension_spec(name: Seq<char>) -> Option<Seq<char>> {
    if name == seq!['.', '.'] {
        None
    } else {
        match last_index_of(name, '.') {
            Some(k) => if k == 0 {
                None
            } else {
                Some(name.skip(k + 1))
            },
            None => None,
        }
    }
}

/// The media kind that an extension selects.
pub open spec fn kind_of_extension(extension: Option<Seq<char>>) -> MediaKind {
    match extension {
        Some(suffix) => if suffix == "css"@ {
            MediaKind::Css
        } else if suffix == "js"@ {
            MediaKind::Js
        } else if suffix == "wasm"@ {
            MediaKind::Wasm
        } else {
            MediaKind::Html
        },
        None => MediaKind::Html,
    }
}

/// The media kind of the file at `path`, by the extension of its file name.
pub open spec fn classify_spec(path: Seq<char>) -> MediaKind {
    kind_of_extension(extension_spec(file_name_spec(path)))
}

/// The file name of a path holds no `/`, ends the path, and is all of the
/// path that follows its last `/`.
pub proof fn law_file_name_ends_path(path: Seq<char>)
    ensures
        file_name_spec(path).len() <= path.len(),
        file_name_spec(path) == path.skip(path.len() - file_name_spec(path).len()),
        forall|i: int| 0 <= i < file_name_spec(path).len() ==> file_name_spec(path)[i] != '/',
        file_name_spec(path).len() < path.len() ==> path[path.len() - file_name_spec(path).len()
            - 1] == '/',
{
    lemma_last_index_of(path, '/');
    assert(path.skip(0) =~= path);
}

/// A text without `/` that ends `path`, and either is all of `path` or
/// stands behind a `/`, is the file name of `path`.
pub proof fn law_last_segment_is_file_name(path: Seq<char>, name: Seq<char>)
    requires
        name.len() <= path.len(),
        path.skip(path.len() - name.len()) == name,
        forall|i: int| 0 <= i < name.len() ==> name[i] != '/',
        name.len() < path.len() ==> path[path.len() - name.len() - 1] == '/',
    ensures
        file_name_spec(path) == name,
{
    let start = path.len() - name.len();
    if start == 0 {
        assert(path.skip(0) =~= path);
        lemma_last_index_none(path, '/');
    } else {
        assert forall|j: int| start - 1 < j < path.len() implies path[j] != '/' by {
            assert(path.skip(start)[j - start] == path[j]);
        }
        lemma_last_index_is(path, '/', start - 1);
    }
}

/// `name`, a file name, has the extension `suffix`: it ends with a `.` and
/// `suffix`, and something stands before that `.`.
pub open spec fn has_extension(name: Seq<char>, suffix: Seq<char>) -> bool {
    &&& name.len() > suffix.len() + 1
    &&& name[name.len() - suffix.len() - 1] == '.'
    &&& name.skip(name.len() - suffix.len()) == suffix
}

/// For a suffix that is not empty and holds no `.`, to have it as
/// extension is to end with a `.` and the suffix behind at least one other
/// character.
pub proof fn lemma_extension_is_suffix(name: Seq<char>, suffix: Seq<char>)
    requires
        suffix.len() > 0,
        forall|i: int| 0 <= i < suffix.len() ==> suffix[i] != '.',
    ensures
        extension_spec(name) == Some(suffix) <==> has_extension(name, suffix),
{
    lemma_last_index_of(name, '.');
    if has_extension(name, suffix) {
        let k = name.len() - suffix.len() - 1;
        assert forall|j: int| k < j < name.len() implies name[j] != '.' by {
            assert(name.skip(name.len() - suffix.len())[j - k - 1] == name[j]);
        }
        lemma_last_index_is(name, '.', k);
    }
    if extension_spec(name) == Some(suffix) {
        let k = last_index_of(name, '.').unwrap();
        assert(name.skip(k + 1).len() == suffix.len());
    }
}

/// The suffix of the file name decides the kind: `.css`, `.js` and `.wasm`
/// behind at least one other character select their kinds, and every other
/// name, a name without suffix too, is HTML.
pub proof fn law_suffix_decides_kind(path: Seq<char>)
    ensures
        classify_spec(path) == MediaKind::Css <==> has_extension(file_name_spec(path), "css"@),
        classify_spec(path) == MediaKind::Js <==> has_extension(file_name_spec(path), "js"@),
        classify_spec(path) == MediaKind::Wasm <==> has_extension(file_name_spec(path), "wasm"@),
        classify_spec(path) == MediaKind::Html <==> !has_extension(file_name_spec(path), "css"@)
            && !has_extension(file_name_spec(path), "js"@) && !has_extension(
            file_name_spec(path),
            "wasm"@,
        ),
{
    reveal_strlit("css");
    reveal_strlit("js");
    reveal_strlit("wasm");
    let name = file_name_spec(path);
    lemma_extension_is_suffix(name, "css"@);
    lemma_extension_is_suffix(name, "js"@);
    lemma_extension_is_suffix(name, "wasm"@);
}

/// The mathematical content of an optional string slice.
pub open spec fn slice_view(text: Option<&str>) -> Option<Seq<char>> {
    match text {
        Some(s) => Some(s@),
        None => None,
    }
}

/// Returns the extension of the file name of `path`.
pub fn extension<'a>(path: &'a str) -> (found: Option<&'a str>)
    ensures
        slice_view(found) == extension_spec(file_name_spec(path@)),
{
    let chars = chars_of(path);
    let n = chars.len();
    let start: usize = match find_last(&chars, 0, '/') {
        Some(k) => k + 1,
        None => 0,
    };
    assert(chars@.skip(0) =~= chars@);
    let ghost name = file_name_spec(path@);
    assert(name == chars@.skip(start as int));
    if n - start == 2 && chars[start] == '.' && chars[start + 1] == '.' {
        assert(name =~= seq!['.', '.']);
        return None;
    }
    assert(name != seq!['.', '.']) by {
        if name == seq!['.', '.'] {
            assert(name.len() == 2);
            assert(name[0] == '.' && name[1] == '.');
        }
    }
    match find_last(&chars, start, '.') {
        Some(k) => {
            if k == start {
                None
            } else {
                let suffix = path.substring_char(k + 1, n);
                assert(suffix@ =~= name.skip(k - start + 1));
                Some(suffix)
            }
        },
        None => None,
    }
}

/// Returns the media kind that an extension selects.
pub fn kind_for(extension: Option<&str>) -> (kind: MediaKind)
    ensures
        kind == kind_of_extension(slice_view(extension)),
{
    match extension {
        Some(suffix) => {
            if same_text(suffix, "css") {
                MediaKind::Css
            } else if same_text(suffix, "js") {
                MediaKind::Js
            } else if same_text(suffix, "wasm") {
                MediaKind::Wasm
            } else {
                MediaKind::Html
            }
        },
        None => MediaKind::Html,
    }
}

/// Classifies the file at `path` by the extension of its file name.
pub fn classify(path: &str) -> (kind: MediaKind)
    ensures
        kind == classify_spec(path@),
{
    kind_for(extension(path))
}

} // verus!
