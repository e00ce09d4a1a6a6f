//! Resolution of a request path: the configured prefix is stripped, the
//! names of the entry page lead to the document slot, and every other path
//! leads to a candidate file under the root.

use vstd::prelude::*;
use crate::text::{chars_of, matches_at, same_text};

verus! {

/// The name of the entry page of a directory.
pub const INDEX_NAME: &'static str = "index.html";

/// `path` without the leading repetitions of `prefix`: the prefix is removed
/// as often as the rest still starts with it. An empty prefix removes
/// nothing.
pub open spec fn strip_prefix_spec(path: Seq<char>, prefix: Seq<char>) -> Seq<char>
    decreases path.len(),
{
    if prefix.len() > 0 && prefix.is_prefix_of(path) {
        strip_prefix_spec(path.skip(prefix.len() as int), prefix)
    } else {
        path
    }
}

/// `rest`, a request path without its prefix, asks for the entry page: it
/// is empty, `/`, `index.html` or `/index.html`. The shortened `index.htm`
/// is accepted as an alias of `index.html`; `/index.htm` is not.
pub open spec fn is_index_request(rest: Seq<char>) -> bool {
    ||| rest.len() == 0
    ||| rest == "/"@
    ||| rest == "index.html"@
    ||| rest == "/index.html"@
    ||| rest == "index.htm"@
}

/// `base` with `rest` below it. A `/` is put between the two unless `base`
/// is empty or ends with one, or `rest` starts with one. A `rest` that
/// starts with `/` does not replace `base`.
pub open spec fn join_spec(base: Seq<char>, rest: Seq<char>) -> Seq<char> {
    if base.len() == 0 || base.last() == '/' || (rest.len() > 0 && rest[0] == '/') {
        base + rest
    } else {
        base + seq!['/'] + rest
    }
}

/// What a request path leads to.
#[derive(Debug, PartialEq, Eq)]
pub enum Target {
    /// The document slot, which holds the entry page.
    Index,
    /// A candidate file under the root; holds the request path without its
    /// prefix.
    File(String),
}

/// The mathematical content of a [`Target`].
pub enum TargetView {
    Index,
    File(Seq<char>),
}

impl View for Target {
    type V = TargetView;

    open spec fn view(&self) -> TargetView {
        match self {
            Target::Index => TargetView::Index,
            Target::File(rest) => TargetView::File(rest@),
        }
    }
}

/// What the request path `request` leads to once `prefix` is stripped.
pub open spec fn resolve_spec(request: Seq<char>, prefix: Seq<char>) -> TargetView {
    let rest = strip_prefix_spec(request, prefix);
    if is_index_request(rest) {
        TargetView::Index
    } else {
        TargetView::File(rest)
    }
}

/// Where `target` is found: the document slot at `index`, or the candidate
/// file below `root`.
pub open spec fn locate_spec(target: TargetView, root: Seq<char>, index: Seq<char>) -> Seq<char> {
    match target {
        TargetView::Index => index,
        TargetView::File(rest) => join_spec(root, rest),
    }
}

/// The path that is read for `path`: the entry page below it where `path`
/// is a directory, `path` itself where it is not.
pub open spec fn directory_index_spec(path: Seq<char>, is_dir: bool) -> Seq<char> {
    if is_dir {
        join_spec(path, INDEX_NAME@)
    } else {
        path
    }
}

/// What is left of `path` is its end, and no longer starts with a non-empty
/// `prefix`.
pub proof fn lemma_strip_prefix_leaves_rest(path: Seq<char>, prefix: Seq<char>)
    ensures
        strip_prefix_spec(path, prefix).len() <= path.len(),
        strip_prefix_spec(path, prefix) == path.skip(
            path.len() - strip_prefix_spec(path, prefix).len(),
        ),
        prefix.len() > 0 ==> !prefix.is_prefix_of(strip_prefix_spec(path, prefix)),
    decreases path.len(),
{
    if prefix.len() > 0 && prefix.is_prefix_of(path) {
        let tail = path.skip(prefix.len() as int);
        lemma_strip_prefix_leaves_rest(tail, prefix);
        let rest = strip_prefix_spec(tail, prefix);
        assert(tail.skip(tail.len() - rest.len()) =~= path.skip(path.len() - rest.len()));
    } else {
        assert(path.skip(0) =~= path);
    }
}

/// Stripping twice strips no more than stripping once.
pub proof fn law_strip_prefix_is_idempotent(path: Seq<char>, prefix: Seq<char>)
    ensures
        strip_prefix_spec(strip_prefix_spec(path, prefix), prefix) == strip_prefix_spec(
            path,
            prefix,
        ),
{
    lemma_strip_prefix_leaves_rest(path, prefix);
}

/// A request for the root leads to the document slot whatever the prefix:
/// the empty path and `/` resolve to the slot's location.
pub proof fn law_root_request_leads_to_index(
    prefix: Seq<char>,
    root: Seq<char>,
    index: Seq<char>,
)
    ensures
        resolve_spec(Seq::empty(), prefix) == TargetView::Index,
        resolve_spec("/"@, prefix) == TargetView::Index,
        locate_spec(resolve_spec("/"@, prefix), root, index) == index,
{
    reveal_strlit("/");
    let slash = "/"@;
    if prefix.len() > 0 && prefix.is_prefix_of(slash) {
        let tail = slash.skip(prefix.len() as int);
        assert(tail.len() == 0);
        assert(strip_prefix_spec(tail, prefix) == tail);
    }
}

/// A request that does not ask for the entry page leads to the file below
/// the root that the stripped path names.
pub proof fn law_file_request_leads_below_root(
    request: Seq<char>,
    prefix: Seq<char>,
    root: Seq<char>,
    index: Seq<char>,
)
    requires
        !is_index_request(strip_prefix_spec(request, prefix)),
    ensures
        locate_spec(resolve_spec(request, prefix), root, index) == join_spec(
            root,
            strip_prefix_spec(request, prefix),
        ),
{
}

/// A joined path starts with its base and ends with what was put below it,
/// with at most one `/` between them.
pub proof fn law_join_keeps_both_parts(base: Seq<char>, rest: Seq<char>)
    ensures
        base.is_prefix_of(join_spec(base, rest)),
        join_spec(base, rest).skip(join_spec(base, rest).len() - rest.len()) == rest,
        join_spec(base, rest).len() <= base.len() + 1 + rest.len(),
{
    let joined = join_spec(base, rest);
    assert(joined.subrange(0, base.len() as int) =~= base);
    assert(joined.skip(joined.len() - rest.len()) =~= rest);
}

/// Strips the leading repetitions of `prefix` from `path`.
pub fn strip_prefix<'a>(path: &'a str, prefix: &str) -> (rest: &'a str)
    ensures
        rest@ == strip_prefix_spec(path@, prefix@),
{
    let chars = chars_of(path);
    let lead = chars_of(prefix);
    let n = chars.len();
    let m = lead.len();
    if m == 0 {
        return path;
    }
    let mut k: usize = 0;
    assert(chars@.skip(0) =~= chars@);
    loop
        invariant
            k <= n,
            n == chars.len(),
            m == lead.len(),
            m > 0,
            chars@ == path@,
            lead@ == prefix@,
            strip_prefix_spec(path@, prefix@) == strip_prefix_spec(chars@.skip(k as int), lead@),
        ensures
            strip_prefix_spec(path@, prefix@) == chars@.skip(k as int),
        decreases n - k,
    {
        let ghost tail = chars@.skip(k as int);
        if !matches_at(&chars, k, &lead) {
            proof {
                if lead@.is_prefix_of(tail) {
                    assert(chars@.subrange(k as int, k + m) =~= tail.subrange(0, m as int));
                }
            }
            break;
        }
        proof {
            assert(chars@.subrange(k as int, k + m) =~= tail.subrange(0, m as int));
            assert(lead@.is_prefix_of(tail));
            assert(tail.skip(m as int) =~= chars@.skip(k + m));
        }
        k += m;
    }
    let rest = path.substring_char(k, n);
    assert(rest@ =~= chars@.skip(k as int));
    rest
}

/// Tells whether `rest`, a request path without its prefix, asks for the
/// entry page.
pub fn asks_for_index(rest: &str) -> (index: bool)
    ensures
        index == is_index_request(rest@),
{
    rest.unicode_len() == 0 || same_text(rest, "/") || same_text(rest, "index.html") || same_text(
        rest,
        "/index.html",
    ) || same_text(rest, "index.htm")
}

/// Puts `rest` below `base`.
pub fn join(base: &str, rest: &str) -> (path: String)
    ensures
        path@ == join_spec(base@, rest@),
{
    let head = chars_of(base);
    let tail = chars_of(rest);
    let mut path = String::from_str(base);
    let joined = head.len() == 0 || head[head.len() - 1] == '/' || (tail.len() > 0 && tail[0]
        == '/');
    if !joined {
        path.append("/");
        proof {
            reveal_strlit("/");
            assert("/"@ =~= seq!['/']);
        }
    }
    path.append(rest);
    path
}

/// Resolves the request path `request`: strips `prefix` and tells the
/// requests for the entry page from those for a file.
pub fn resolve(request: &str, prefix: &str) -> (target: Target)
    ensures
        target@ == resolve_spec(request@, prefix@),
{
    let rest = strip_prefix(request, prefix);
    if asks_for_index(rest) {
        Target::Index
    } else {
        Target::File(String::from_str(rest))
    }
}

impl Target {
    /// Returns where the target is found: the document slot at `index`, or
    /// the candidate file below `root`.
    pub fn locate(&self, root: &str, index: &str) -> (path: String)
        ensures
            path@ == locate_spec(self@, root@, index@),
    {
        match self {
            Target::Index => String::from_str(index),
            Target::File(rest) => join(root, rest.as_str()),
        }
    }
}

/// Returns the path to read for `path`: the entry page below it where
/// `is_dir` says that `path` is a directory, `path` itself where it is not.
pub fn with_directory_index(path: String, is_dir: bool) -> (target: String)
    ensures
        target@ == directory_index_spec(path@, is_dir),
{
    if is_dir {
        join(path.as_str(), INDEX_NAME)
    } else {
        path
    }
}

} // verus!
