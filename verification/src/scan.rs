//! Selection of the files that a listing names, from what a read of the
//! root directory has shown.

use vstd::prelude::*;
use crate::error::{entry_error, entry_message, read_dir_error, read_dir_message, Error, ErrorView};
use crate::listing::{index_items, index_spec, lemma_list_item_is_injective, list_item_spec};
use crate::reorder::{lemma_filter_map_reordered, lemma_map_reordered};

verus! {

/// What the lookup of an entry's type has shown.
#[derive(Clone, Copy, Debug, PartialEq, Eq, Structural)]
pub struct FileKind {
    /// The entry is a regular file.
    pub is_file: bool,
    /// The entry is a symbolic link.
    pub is_symlink: bool,
}

/// One entry seen while reading the root directory.
#[derive(Debug, PartialEq, Eq)]
pub struct ScanEntry {
    /// The entry's path relative to the root; `None` when the entry's path
    /// does not lie under the root.
    pub relative: Option<String>,
    /// The entry's type; `None` when the lookup of the type failed.
    pub kind: Option<FileKind>,
}

impl ScanEntry {
    /// The entry is a regular file that is no symbolic link.
    pub open spec fn is_regular(self) -> bool {
        self.kind matches Some(kind) && kind.is_file && !kind.is_symlink
    }

    /// The entry is known to be a symbolic link.
    pub open spec fn is_symlink(self) -> bool {
        self.kind matches Some(kind) && kind.is_symlink
    }

    /// The path under which a listing names the entry, if it names it: the
    /// relative path of a regular file. Directories, symbolic links, entries
    /// of unknown type and entries outside the root are passed over.
    pub open spec fn listed_path(self) -> Option<Seq<char>> {
        if self.is_regular() {
            match self.relative {
                Some(path) => Some(path@),
                None => None,
            }
        } else {
            None
        }
    }
}

/// What a read of the root directory has shown: the entries seen, in the
/// order they came, and the description of the failure that ended the read
/// early, if one did.
#[derive(Debug, PartialEq, Eq)]
pub struct DirListing {
    pub entries: Vec<ScanEntry>,
    pub failure: Option<String>,
}

/// The paths that a listing names for `entries`, in the order of the entries.
pub open spec fn listed_paths(entries: Seq<ScanEntry>) -> Seq<Seq<char>> {
    entries.filter_map(|entry: ScanEntry| entry.listed_path())
}

/// The result of a scan of `root`: the listed paths of a complete read, or
/// the failure that stopped it.
pub open spec fn file_list_spec(root: Seq<char>, read: Result<DirListing, String>) -> Result<
    Seq<Seq<char>>,
    ErrorView,
> {
    match read {
        Err(cause) => Err(ErrorView::ReadDir(read_dir_message(root, cause@))),
        Ok(listing) => match listing.failure {
            Some(cause) => Err(ErrorView::Entry(entry_message(cause@))),
            None => Ok(listed_paths(listing.entries@)),
        },
    }
}

/// The mathematical content of a scan's result.
pub open spec fn file_list_view(outcome: Result<Vec<String>, Error>) -> Result<
    Seq<Seq<char>>,
    ErrorView,
> {
    match outcome {
        Ok(files) => Ok(files.deep_view()),
        Err(error) => Err(error@),
    }
}

/// The text of an optional string.
pub open spec fn text_of(text: Option<String>) -> Option<Seq<char>> {
    match text {
        Some(s) => Some(s@),
        None => None,
    }
}

/// Two reads have shown the same: as many entries, and at each place the
/// same relative path and the same type.
pub open spec fn same_entries(first: Seq<ScanEntry>, second: Seq<ScanEntry>) -> bool {
    &&& first.len() == second.len()
    &&& forall|i: int|
        0 <= i < first.len() ==> (#[trigger] first[i]).kind == second[i].kind && text_of(
            first[i].relative,
        ) == text_of(second[i].relative)
}

/// Two scans of a directory that has not changed give the same document,
/// character for character, where the entries come in the same order.
pub proof fn law_same_scan_same_document(first: Seq<ScanEntry>, second: Seq<ScanEntry>)
    requires
        same_entries(first, second),
    ensures
        listed_paths(first) == listed_paths(second),
        index_spec(listed_paths(first)) == index_spec(listed_paths(second)),
    decreases first.len(),
{
    if first.len() > 0 {
        let a = first.drop_last();
        let b = second.drop_last();
        assert forall|i: int| 0 <= i < a.len() implies (#[trigger] a[i]).kind == b[i].kind
            && text_of(a[i].relative) == text_of(b[i].relative) by {
            assert(a[i] == first[i] && b[i] == second[i]);
        }
        law_same_scan_same_document(a, b);
        assert(first.last() == first[first.len() - 1]);
        assert(first.last().listed_path() == second.last().listed_path());
    }
}

/// Two scans that see the same entries in another order give documents
/// with the same items, each as often: the order of the entries decides
/// only the order of the items.
pub proof fn law_order_of_entries_only_orders_items(
    first: Seq<ScanEntry>,
    second: Seq<ScanEntry>,
)
    requires
        first.to_multiset() == second.to_multiset(),
    ensures
        listed_paths(first).to_multiset() == listed_paths(second).to_multiset(),
        index_items(listed_paths(first)).to_multiset() == index_items(
            listed_paths(second),
        ).to_multiset(),
{
    lemma_filter_map_reordered(first, second, |entry: ScanEntry| entry.listed_path());
    lemma_map_reordered(
        listed_paths(first),
        listed_paths(second),
        |path: Seq<char>| list_item_spec(path),
    );
}

/// Where every entry is a regular file under the root, the listing is
/// complete: it names as many paths as there are entries, the path of each
/// entry at the entry's place, and the document holds one item for each.
pub proof fn law_listing_is_complete(entries: Seq<ScanEntry>)
    requires
        forall|i: int|
            0 <= i < entries.len() ==> (#[trigger] entries[i]).is_regular()
                && entries[i].relative is Some,
    ensures
        listed_paths(entries).len() == entries.len(),
        forall|i: int|
            0 <= i < entries.len() ==> #[trigger] listed_paths(entries)[i]
                == entries[i].relative.unwrap()@,
        index_items(listed_paths(entries)).len() == entries.len(),
        forall|i: int|
            0 <= i < entries.len() ==> #[trigger] index_items(listed_paths(entries))[i]
                == list_item_spec(entries[i].relative.unwrap()@),
    decreases entries.len(),
{
    if entries.len() > 0 {
        let front = entries.drop_last();
        assert forall|i: int| 0 <= i < front.len() implies (#[trigger] front[i]).is_regular()
            && front[i].relative is Some by {
            assert(front[i] == entries[i]);
        }
        law_listing_is_complete(front);
        let last = entries.last();
        assert(last == entries[entries.len() - 1]);
        assert(listed_paths(entries) == listed_paths(front) + seq![last.relative.unwrap()@]);
        assert forall|i: int| 0 <= i < entries.len() implies #[trigger] listed_paths(entries)[i]
            == entries[i].relative.unwrap()@ by {
            if i < front.len() {
                assert(listed_paths(front)[i] == front[i].relative.unwrap()@);
                assert(front[i] == entries[i]);
            }
        }
    }
}

/// Every path that a listing names is the relative path of an entry that is
/// a regular file and no symbolic link.
pub proof fn law_listed_paths_are_regular_files(entries: Seq<ScanEntry>, path: Seq<char>)
    requires
        listed_paths(entries).contains(path),
    ensures
        exists|j: int|
            0 <= j < entries.len() && (#[trigger] entries[j]).is_regular()
                && !entries[j].is_symlink() && text_of(entries[j].relative) == Some(path),
{
    let pick = |entry: ScanEntry| entry.listed_path();
    entries.lemma_filter_map_contains(pick, path);
    let entry = choose|entry: ScanEntry| #[trigger] entries.contains(entry) && pick(entry) == Some(path);
    let j = choose|j: int| 0 <= j < entries.len() && entries[j] == entry;
    assert(entries[j].is_regular());
}

/// A symbolic link never appears in the listing: a path that only symbolic
/// links have is not named, and the document holds no item for it.
pub proof fn law_symlinks_are_not_listed(entries: Seq<ScanEntry>, path: Seq<char>)
    requires
        forall|j: int|
            0 <= j < entries.len() && text_of((#[trigger] entries[j]).relative) == Some(path)
                ==> entries[j].is_symlink(),
    ensures
        !listed_paths(entries).contains(path),
        !index_items(listed_paths(entries)).contains(list_item_spec(path)),
{
    let listed = listed_paths(entries);
    if listed.contains(path) {
        law_listed_paths_are_regular_files(entries, path);
    }
    let items = index_items(listed);
    if items.contains(list_item_spec(path)) {
        let i = choose|i: int| 0 <= i < items.len() && items[i] == list_item_spec(path);
        lemma_list_item_is_injective(listed[i], path);
        assert(listed.contains(path));
    }
}

/// Selects the paths that a listing names for `entries`.
pub fn select_files(entries: &Vec<ScanEntry>) -> (files: Vec<String>)
    ensures
        files.deep_view() == listed_paths(entries@),
{
    let ghost pick = |entry: ScanEntry| entry.listed_path();
    let mut files: Vec<String> = Vec::new();
    let mut i: usize = 0;
    assert(files.deep_view() =~= entries@.take(0).filter_map(pick));
    while i < entries.len()
        invariant
            i <= entries.len(),
            pick == (|entry: ScanEntry| entry.listed_path()),
            files.deep_view() == entries@.take(i as int).filter_map(pick),
        decreases entries.len() - i,
    {
        let entry = &entries[i];
        let ghost before = files.deep_view();
        proof {
            entries@.lemma_filter_map_take_succ(pick, i as int);
        }
        match entry.kind {
            Some(kind) => {
                if kind.is_file && !kind.is_symlink {
                    match &entry.relative {
                        Some(path) => {
                            files.push(path.clone());
                            assert(files.deep_view() =~= before + seq![path@]);
                        },
                        None => {},
                    }
                }
            },
            None => {},
        }
        i += 1;
    }
    assert(entries@.take(i as int) =~= entries@);
    files
}

/// Turns what a read of `root` has shown into the list of files to publish.
///
/// A read that could not start gives [`Error::ReadDir`]; a read that a
/// failure ended early gives [`Error::Entry`], whatever entries came before
/// it; a complete read gives the listed paths.
pub fn generate_file_list(root: &str, read: &Result<DirListing, String>) -> (outcome: Result<
    Vec<String>,
    Error,
>)
    ensures
        file_list_view(outcome) == file_list_spec(root@, *read),
{
    match read {
        Err(cause) => Err(read_dir_error(root, cause.as_str())),
        Ok(listing) => match &listing.failure {
            Some(cause) => Err(entry_error(cause.as_str())),
            None => Ok(select_files(&listing.entries)),
        },
    }
}

} // verus!
