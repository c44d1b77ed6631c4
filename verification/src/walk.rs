use std::path::PathBuf;
use vstd::prelude::*;

use crate::walk_items::{open_walk, walk_next, WalkItems};

verus! {

#[verifier::external_type_specification]
#[verifier::external_body]
pub struct ExWalkIter(walkdir::IntoIter);

#[verifier::external_type_specification]
#[verifier::external_body]
pub struct ExWalkEntry(walkdir::DirEntry);

#[verifier::external_type_specification]
#[verifier::external_body]
pub struct ExWalkError(walkdir::Error);

/// The bytes of the name that `walkdir::DirEntry::file_name` gives for an
/// entry whose path is `path`: the final component of the path, or the
/// whole path when it has none (walkdir computes it from the path alone).
pub uninterp spec fn entry_name_of(path: PathBuf) -> Seq<u8>;

/// Takes an entry apart: `walkdir::DirEntry::into_path`, the bytes of
/// `walkdir::DirEntry::file_name` (`OsStr::as_encoded_bytes`, the raw bytes
/// on Unix), and whether `walkdir::DirEntry::file_type` is a directory.
/// Trusted: walkdir takes the name from the very path that `into_path`
/// hands back, so the name is `entry_name_of` of that path. Nothing is said
/// of the path or of the file type.
#[verifier::external_body]
fn entry_parts(entry: walkdir::DirEntry) -> (parts: (PathBuf, Vec<u8>, bool))
    ensures
        parts.1@ == entry_name_of(parts.0),
{
    let is_dir = entry.file_type().is_dir();
    let name = entry.file_name().as_encoded_bytes().to_vec();
    (entry.into_path(), name, is_dir)
}

/// Calls `walkdir::Error::path` and copies the path, if there is one
/// (`Path::to_path_buf`). The error is opaque here, so nothing is said of
/// it.
#[verifier::external_body]
fn failure_path(error: &walkdir::Error) -> Option<PathBuf> {
    match error.path() {
        Some(path) => Some(path.to_path_buf()),
        None => None,
    }
}

/// One entry reported by the directory walk, as the search sees it: its
/// path, its file name as bytes, and whether it is a directory.
pub struct WalkEntry {
    pub path: PathBuf,
    pub file_name: Vec<u8>,
    pub is_dir: bool,
}

/// The entry's file name is the one that walkdir gives for its path.
pub open spec fn named_by_path(entry: WalkEntry) -> bool {
    entry.file_name@ == entry_name_of(entry.path)
}

/// Every entry among the steps has the file name of its path.
pub open spec fn entries_named(steps: Seq<WalkStep>) -> bool {
    forall|i: int| 0 <= i < steps.len() && (#[trigger] steps[i]) is Entry ==> named_by_path(steps[i]->Entry_0)
}

/// The walk has reported a first step, and when that step is an entry, it
/// is the entry for `root`.
pub open spec fn begins_at_root(steps: Seq<WalkStep>, root: PathBuf) -> bool {
    &&& steps.len() > 0
    &&& steps[0] is Entry ==> steps[0]->Entry_0.path == root
}

/// One step of the directory walk: an entry, or a failure with the path
/// that it concerns (if the walk names one) and the walk's description.
pub enum WalkStep {
    Entry(WalkEntry),
    Failed { path: Option<PathBuf>, detail: String },
}

/// For each step, whether it is an entry (`true`) or a failure (`false`).
pub open spec fn step_kinds(steps: Seq<WalkStep>) -> Seq<bool> {
    steps.map_values(|step: WalkStep| step is Entry)
}

/// The kind of the step that waits to be reported, if there is one.
pub open spec fn waiting_kinds(first: Option<WalkStep>) -> Seq<bool> {
    match first {
        Some(step) => seq![step is Entry],
        None => Seq::empty(),
    }
}

/// A walk of the directory tree under `root`, following symbolic links to
/// directories when `follow_links` is set. It reports every item that
/// walkdir yields, in order, as a step, and remembers every step that it
/// has reported. `start` takes the walk's first item, which waits in
/// `first` until `next_step` reports it.
pub struct DirWalk {
    items: WalkItems,
    first: Option<WalkStep>,
    steps: Ghost<Seq<WalkStep>>,
    finished: bool,
}

impl DirWalk {
    /// The directory that the walk starts from: the root walkdir was opened
    /// for.
    pub closed spec fn root(&self) -> PathBuf {
        self.items.root()
    }

    /// Whether the walk follows symbolic links: the flag walkdir was opened
    /// with.
    pub closed spec fn follows_links(&self) -> bool {
        self.items.follows_links()
    }

    /// The steps that the walk has reported so far, in order.
    pub closed spec fn steps(&self) -> Seq<WalkStep> {
        self.steps@
    }

    /// Whether the walk has reported that it has no more steps.
    pub closed spec fn finished(&self) -> bool {
        self.finished
    }

    /// For each item walkdir has yielded to the walk so far, in order:
    /// whether it was an entry or a failure.
    pub closed spec fn yielded(&self) -> Seq<bool> {
        self.items.yielded()
    }

    /// Whether walkdir has reported that it has no more items.
    pub closed spec fn walkdir_ended(&self) -> bool {
        self.items.ended()
    }

    /// The walk is as `start` and `next_step` leave it: its first step waits
    /// exactly until a step has been reported, that step is an entry only for
    /// the root, every reported entry has the name of its path, the reported
    /// steps and the waiting one are walkdir's items in order, and the walk
    /// has finished exactly when walkdir has ended.
    pub closed spec fn wf(&self) -> bool {
        &&& (self.steps@.len() == 0 <==> self.first is Some)
        &&& (self.steps@.len() == 0 ==> !self.finished)
        &&& (self.first matches Some(WalkStep::Entry(entry)) ==> entry.path == self.root()
            && named_by_path(entry))
        &&& entries_named(self.steps@)
        &&& (self.steps@.len() > 0 ==> begins_at_root(self.steps@, self.root()))
        &&& step_kinds(self.steps@) + waiting_kinds(self.first) == self.items.yielded()
        &&& self.finished == self.items.ended()
    }

    /// Starts a walk from `root`, following symbolic links to directories
    /// exactly when `follow_links` is set.
    pub fn start(root: PathBuf, follow_links: bool) -> (walk: DirWalk)
        ensures
            walk.wf(),
            walk.root() == root,
            walk.follows_links() == follow_links,
            walk.steps() == Seq::<WalkStep>::empty(),
            walk.yielded().len() == 1,
            entries_named(walk.steps()),
            !walk.finished(),
    {
        let (items, first_item) = open_walk(&root, follow_links);
        let first = match first_item {
            Some(Ok((path, file_name, is_dir))) => Some(WalkStep::Entry(WalkEntry { path, file_name, is_dir })),
            Some(Err(failure)) => {
                let detail = failure.to_string();
                Some(WalkStep::Failed { path: failure_path(&failure), detail })
            },
            None => None,
        };
        let walk = DirWalk { items, first, steps: Ghost(Seq::empty()), finished: false };
        assert(step_kinds(walk.steps@) + waiting_kinds(walk.first) =~= walk.items.yielded());
        walk
    }

    /// The directory that the walk starts from.
    pub fn root_dir(&self) -> (root: &PathBuf)
        ensures
            *root == self.root(),
    {
        self.items.root_dir()
    }

    /// The next step of the walk, or `None` once the walk has reported its
    /// end (after which it reports nothing more). The first step is always
    /// there, and when it is an entry, it is the root. Every item that
    /// walkdir yields is reported, in order, as an entry or a failure as it
    /// is; the walk finishes exactly when walkdir ends.
    pub fn next_step(&mut self) -> (step: Option<WalkStep>)
        requires
            old(self).wf(),
        ensures
            final(self).wf(),
            final(self).root() == old(self).root(),
            final(self).follows_links() == old(self).follows_links(),
            old(self).steps().len() == 0 ==> step is Some && (step matches Some(WalkStep::Entry(entry))
                ==> entry.path == old(self).root()),
            match step {
                None => final(self).steps() == old(self).steps() && final(self).finished(),
                Some(s) => final(self).steps() == old(self).steps().push(s) && !old(self).finished()
                    && !final(self).finished() && (s is Entry ==> named_by_path(s->Entry_0)),
            },
            step_kinds(final(self).steps()) == final(self).yielded(),
            final(self).finished() == final(self).walkdir_ended(),
            entries_named(old(self).steps()) ==> entries_named(final(self).steps()),
            final(self).steps().len() > 0 ==> begins_at_root(final(self).steps(), final(self).root()),
    {
        proof {
            if self.first is None {
                assert(step_kinds(self.steps@) + waiting_kinds(self.first) =~= step_kinds(self.steps@));
            } else {
                assert(step_kinds(self.steps@) =~= Seq::<bool>::empty());
            }
        }
        if self.finished {
            return None;
        }
        let step = match self.first.take() {
            Some(first) => first,
            None => match walk_next(&mut self.items) {
                None => {
                    self.finished = true;
                    assert(step_kinds(self.steps@) + waiting_kinds(self.first) =~= step_kinds(self.steps@));
                    return None;
                },
                Some(Err(failure)) => {
                    let detail = failure.to_string();
                    WalkStep::Failed { path: failure_path(&failure), detail }
                },
                Some(Ok(dir_entry)) => {
                    let (path, file_name, is_dir) = entry_parts(dir_entry);
                    WalkStep::Entry(WalkEntry { path, file_name, is_dir })
                },
            },
        };
        proof {
            let before = self.steps@;
            self.steps@ = self.steps@.push(step);
            assert(step_kinds(self.steps@) =~= step_kinds(before).push(step is Entry));
            assert(step_kinds(self.steps@) + waiting_kinds(self.first) =~= step_kinds(self.steps@));
            if before.len() > 0 {
                assert(self.steps@[0] == before[0]);
            }
            assert forall|i: int| 0 <= i < self.steps@.len() && (#[trigger] self.steps@[i]) is Entry
                implies named_by_path(self.steps@[i]->Entry_0) by {
                if i < before.len() {
                    assert(self.steps@[i] == before[i]);
                }
            }
        }
        Some(step)
    }
}

/// A walk reports walkdir's items and nothing else. Once it has reported a
/// step, its steps are the items that walkdir has yielded, one for one and
/// in order, each an entry exactly when walkdir yielded an entry; before
/// that, walkdir has yielded just the first item, which waits to be
/// reported. The walk has finished exactly when walkdir has ended.
pub proof fn lemma_steps_are_walkdir_items(walk: DirWalk)
    requires
        walk.wf(),
    ensures
        walk.steps().len() > 0 ==> walk.steps().len() == walk.yielded().len(),
        walk.steps().len() > 0 ==> forall|i: int|
            0 <= i < walk.steps().len() ==> ((#[trigger] walk.steps()[i]) is Entry <==> walk.yielded()[i]),
        walk.steps().len() == 0 ==> walk.yielded().len() == 1,
        walk.finished() == walk.walkdir_ended(),
{
    let steps = walk.steps();
    if steps.len() > 0 {
        assert(step_kinds(steps) + waiting_kinds(walk.first) =~= step_kinds(steps));
        assert forall|i: int| 0 <= i < steps.len() implies ((#[trigger] steps[i]) is Entry <==> walk.yielded()[i]) by {
            assert(step_kinds(steps)[i] == (steps[i] is Entry));
        }
    } else {
        assert(step_kinds(steps).len() == 0);
    }
}

} // verus!
