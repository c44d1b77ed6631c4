use std::path::PathBuf;
use vstd::prelude::*;

use crate::walk::entry_name_of;

verus! {

/// walkdir's iterator, with the root and the follow-links flag it was
/// opened for, and a record of the items it has yielded. Its fields are
/// private to this module, where only `open_walk` makes one and only
/// `walk_next` takes items from it.
pub struct WalkItems {
    iter: walkdir::IntoIter,
    root: PathBuf,
    follow_links: bool,
    yielded: Ghost<Seq<bool>>,
    ended: Ghost<bool>,
}

impl WalkItems {
    /// The root that walkdir was opened for.
    pub closed spec fn root(&self) -> PathBuf {
        self.root
    }

    /// The follow-links flag that walkdir was opened with.
    pub closed spec fn follows_links(&self) -> bool {
        self.follow_links
    }

    /// For each item walkdir has yielded so far, in order: whether it was an
    /// entry (`true`) or a failure (`false`).
    pub closed spec fn yielded(&self) -> Seq<bool> {
        self.yielded@
    }

    /// Whether walkdir has reported that it has no more items.
    pub closed spec fn ended(&self) -> bool {
        self.ended@
    }

    /// The root that walkdir was opened for.
    pub(crate) fn root_dir(&self) -> (root: &PathBuf)
        ensures
            *root == self.root(),
    {
        &self.root
    }
}

/// Opens `walkdir::WalkDir::new(root).follow_links(follow_links)` as its
/// iterator and takes the iterator's first item (`Iterator::next`), taking
/// an entry apart into its path (`into_path`), the bytes of its name
/// (`file_name`, `OsStr::as_encoded_bytes`) and whether it is a directory
/// (`file_type`). Trusted, as walkdir documents (`WalkDir::new`) and its
/// source shows: the iterator is the one for `root` and `follow_links`; the
/// first item is always there and is recorded; when it is an entry, its
/// path is the root and its name is `entry_name_of` of that path. Nothing
/// else is said: what the walk yields depends on the file system.
#[verifier::external_body]
pub(crate) fn open_walk(root: &PathBuf, follow_links: bool) -> (opened: (
    WalkItems,
    Option<Result<(PathBuf, Vec<u8>, bool), walkdir::Error>>,
))
    ensures
        opened.0.root() == *root,
        opened.0.follows_links() == follow_links,
        opened.1 is Some,
        opened.0.yielded() == seq![opened.1 matches Some(Ok(_))],
        !opened.0.ended(),
        opened.1 matches Some(Ok(first)) ==> first.0 == *root && first.1@ == entry_name_of(first.0),
{
    let mut iter = walkdir::WalkDir::new(root).follow_links(follow_links).into_iter();
    let first = match iter.next() {
        Some(Ok(entry)) => {
            let is_dir = entry.file_type().is_dir();
            let name = entry.file_name().as_encoded_bytes().to_vec();
            Some(Ok((entry.into_path(), name, is_dir)))
        },
        Some(Err(error)) => Some(Err(error)),
        None => None,
    };
    let yielded = Ghost(seq![first matches Some(Ok(_))]);
    (WalkItems { iter, root: root.clone(), follow_links, yielded, ended: Ghost(false) }, first)
}

/// Calls `Iterator::next` of `walkdir::IntoIter` and records the item.
/// Trusted: the item is recorded as an entry or a failure; `None` records
/// that walkdir has ended, and once it has, it yields nothing more (walkdir's
/// iterator is a `FusedIterator`). Nothing else is said of the item: it
/// depends on the file system.
#[verifier::external_body]
pub(crate) fn walk_next(items: &mut WalkItems) -> (item: Option<Result<walkdir::DirEntry, walkdir::Error>>)
    ensures
        final(items).root() == old(items).root(),
        final(items).follows_links() == old(items).follows_links(),
        old(items).ended() ==> item is None,
        final(items).ended() == (old(items).ended() || item is None),
        final(items).yielded() == match item {
            Some(found) => old(items).yielded().push(found is Ok),
            None => old(items).yielded(),
        },
{
    items.iter.next()
}

} // verus!
