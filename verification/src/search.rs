use std::path::PathBuf;
use vstd::prelude::*;

use crate::error::SearchError;
use crate::found::{FoundFile, SearchOptions};
use crate::compiled::{regex_compiles, regex_error_text, regex_matches};
use crate::pattern::FilenameMatcher;
use crate::walk::{begins_at_root, entries_named, entry_name_of, step_kinds, DirWalk, WalkEntry, WalkStep};

verus! {

/// What the search makes of one entry: a found file when the entry is not
/// a directory and its file name matches the pattern, nothing otherwise.
pub open spec fn found_file_for(pattern: Seq<char>, entry: WalkEntry) -> Option<FoundFile> {
    if !entry.is_dir && regex_matches(pattern, entry.file_name@) {
        Some(FoundFile { path: entry.path })
    } else {
        None
    }
}

/// The files that a search for `pattern` finds among `entries`, in the
/// order in which the walk reported them.
pub open spec fn files_found(pattern: Seq<char>, entries: Seq<WalkEntry>) -> Seq<FoundFile> {
    entries.filter_map(|entry: WalkEntry| found_file_for(pattern, entry))
}

/// The entries among the steps of a walk, in order.
pub open spec fn entries_of(steps: Seq<WalkStep>) -> Seq<WalkEntry> {
    steps.filter_map(
        |step: WalkStep|
            match step {
                WalkStep::Entry(entry) => Some(entry),
                WalkStep::Failed { .. } => None,
            },
    )
}

/// The error for a failed step of a walk from `root`: it names the path
/// that the failure concerns, or `root` when the failure names none.
pub open spec fn failure_error(root: PathBuf, path: Option<PathBuf>, detail: String) -> SearchError {
    SearchError::WalkFailed {
        path: match path {
            Some(path) => path,
            None => root,
        },
        detail,
    }
}

/// Where a search stands after one more step of the walk: an error stays;
/// a failed step ends the search with its error; an entry adds its file
/// when it is kept.
pub open spec fn search_next(
    pattern: Seq<char>,
    root: PathBuf,
    progress: Result<Seq<FoundFile>, SearchError>,
    step: WalkStep,
) -> Result<Seq<FoundFile>, SearchError> {
    match progress {
        Err(error) => Err(error),
        Ok(files) => match step {
            WalkStep::Failed { path, detail } => Err(failure_error(root, path, detail)),
            WalkStep::Entry(entry) => Ok(
                match found_file_for(pattern, entry) {
                    Some(file) => files.push(file),
                    None => files,
                },
            ),
        },
    }
}

/// What a search for `pattern` makes of the steps of a walk from `root`:
/// the error of the first failed step, or, when no step failed, the files
/// found among the entries.
pub open spec fn search_result(pattern: Seq<char>, root: PathBuf, steps: Seq<WalkStep>) -> Result<
    Seq<FoundFile>,
    SearchError,
>
    decreases steps.len(),
{
    if steps.len() == 0 {
        Ok(Seq::empty())
    } else {
        search_next(pattern, root, search_result(pattern, root, steps.drop_last()), steps.last())
    }
}

/// A search result with the list taken by its view.
pub open spec fn result_view(result: Result<Vec<FoundFile>, SearchError>) -> Result<Seq<FoundFile>, SearchError> {
    match result {
        Ok(files) => Ok(files@),
        Err(error) => Err(error),
    }
}

/// `result` is what a search for `pattern` gives on `walk`, a walk from
/// `start_dir` that follows links exactly when `follow_links` is set: the
/// list when the walk reported its end with no failure; the error of the
/// first failure, which is the last step that the walk reported; or, after
/// `u64::MAX` steps without a failure, `TooManyEntries`.
pub open spec fn search_of_walk(
    pattern: Seq<char>,
    start_dir: PathBuf,
    follow_links: bool,
    walk: DirWalk,
    result: Result<Vec<FoundFile>, SearchError>,
) -> bool {
    &&& walk.root() == start_dir
    &&& walk.follows_links() == follow_links
    &&& entries_named(walk.steps())
    &&& begins_at_root(walk.steps(), start_dir)
    &&& step_kinds(walk.steps()) == walk.yielded()
    &&& match result {
        Ok(_) => result_view(result) == search_result(pattern, start_dir, walk.steps()) && walk.finished()
            && walk.walkdir_ended(),
        Err(SearchError::WalkFailed { .. }) => result_view(result) == search_result(
            pattern,
            start_dir,
            walk.steps(),
        ) && walk.steps().len() > 0 && walk.steps().last() is Failed && search_result(
            pattern,
            start_dir,
            walk.steps().drop_last(),
        ) is Ok,
        Err(SearchError::TooManyEntries) => walk.steps().len() == u64::MAX && search_result(
            pattern,
            start_dir,
            walk.steps(),
        ) is Ok,
        Err(SearchError::InvalidPattern { .. }) => false,
    }
}

/// Adds the entry's path to `found` when the entry is not a directory and
/// its name matched; leaves `found` as it was otherwise.
pub fn collect_entry(found: &mut Vec<FoundFile>, entry: &WalkEntry, name_matches: bool)
    ensures
        final(found)@ == if !entry.is_dir && name_matches {
            old(found)@.push(FoundFile { path: entry.path })
        } else {
            old(found)@
        },
{
    if !entry.is_dir && name_matches {
        found.push(FoundFile::new(entry.path.clone()));
    }
}

/// The error for a failure of the walk: it names the path that the failure
/// concerns, or the start directory when the failure names none.
pub fn walk_error(start_dir: &PathBuf, failed_at: Option<PathBuf>, detail: String) -> (error: SearchError)
    ensures
        error == failure_error(*start_dir, failed_at, detail),
{
    let path = match failed_at {
        Some(path) => path,
        None => start_dir.clone(),
    };
    SearchError::WalkFailed { path, detail }
}

/// Takes one step of the walk into account: `files` are the files found
/// so far, and the result is where the search stands after `step`.
pub fn take_step(matcher: &FilenameMatcher, root: &PathBuf, files: Vec<FoundFile>, step: &WalkStep) -> (next:
    Result<Vec<FoundFile>, SearchError>)
    ensures
        result_view(next) == search_next(matcher.pattern(), *root, Ok(files@), *step),
{
    match step {
        WalkStep::Failed { path, detail } => {
            let failed_at = match path {
                Some(path) => Some(path.clone()),
                None => None,
            };
            Err(walk_error(root, failed_at, detail.clone()))
        },
        WalkStep::Entry(entry) => {
            let mut files = files;
            let name_matches = !entry.is_dir && matcher.is_match(entry.file_name.as_slice());
            collect_entry(&mut files, entry, name_matches);
            Ok(files)
        },
    }
}

/// What a search for `pattern` makes of the given steps of a walk from
/// `root`: an invalid pattern is an error; otherwise the error of the first
/// failed step, or the files found among the entries when none failed.
pub fn search_steps(pattern: &str, root: &PathBuf, steps: &Vec<WalkStep>) -> (result: Result<
    Vec<FoundFile>,
    SearchError,
>)
    ensures
        result matches Err(SearchError::InvalidPattern { .. }) <==> !regex_compiles(pattern@),
        result matches Err(SearchError::InvalidPattern { detail }) ==> detail@ == regex_error_text(pattern@),
        regex_compiles(pattern@) ==> result_view(result) == search_result(pattern@, *root, steps@),
{
    let matcher = match FilenameMatcher::new(pattern) {
        Ok(matcher) => matcher,
        Err(error) => return Err(error),
    };
    let mut files: Vec<FoundFile> = Vec::new();
    let mut i: usize = 0;
    assert(steps@.take(0) =~= Seq::<WalkStep>::empty());
    while i < steps.len()
        invariant
            matcher.pattern() == pattern@,
            regex_compiles(pattern@),
            i <= steps.len(),
            search_result(pattern@, *root, steps@.take(i as int)) == Ok::<Seq<FoundFile>, SearchError>(files@),
        decreases steps.len() - i,
    {
        proof {
            let done = steps@.take(i as int);
            assert(steps@.take(i + 1) =~= done.push(steps@[i as int]));
            lemma_search_pushed(pattern@, *root, done, steps@[i as int]);
        }
        match take_step(&matcher, root, files, &steps[i]) {
            Ok(next) => {
                files = next;
            },
            Err(error) => {
                proof {
                    let upto = steps@.take(i + 1);
                    lemma_failure_persists(pattern@, *root, upto, steps@.skip(i + 1));
                    assert(upto + steps@.skip(i + 1) =~= steps@);
                }
                return Err(error);
            },
        }
        i = i + 1;
    }
    assert(steps@.take(steps.len() as int) =~= steps@);
    Ok(files)
}

/// Finds the files under `start_dir` whose names match the regular
/// expression `pattern`, not following symbolic links to directories.
pub fn find_files(pattern: &str, start_dir: PathBuf) -> (result: Result<Vec<FoundFile>, SearchError>)
    ensures
        result matches Err(SearchError::InvalidPattern { .. }) <==> !regex_compiles(pattern@),
        result matches Err(SearchError::InvalidPattern { detail }) ==> detail@ == regex_error_text(pattern@),
        regex_compiles(pattern@) ==> exists|walk: DirWalk|
            #[trigger] search_of_walk(pattern@, start_dir, false, walk, result),
{
    find_files_with_options(pattern, start_dir, SearchOptions::default())
}

/// Finds the files under `start_dir` whose names match the regular
/// expression `pattern`, walking the tree as `options` says.
///
/// An invalid pattern is reported before anything is walked. Directories
/// are never returned. The first failure that the walk reports ends the
/// search with that failure; otherwise the search lists the kept entries
/// once the walk has reported its end.
pub fn find_files_with_options(pattern: &str, start_dir: PathBuf, options: SearchOptions) -> (result:
    Result<Vec<FoundFile>, SearchError>)
    ensures
        result matches Err(SearchError::InvalidPattern { .. }) <==> !regex_compiles(pattern@),
        result matches Err(SearchError::InvalidPattern { detail }) ==> detail@ == regex_error_text(pattern@),
        regex_compiles(pattern@) ==> exists|walk: DirWalk|
            #[trigger] search_of_walk(pattern@, start_dir, options.follow_links, walk, result),
{
    let matcher = match FilenameMatcher::new(pattern) {
        Ok(matcher) => matcher,
        Err(error) => return Err(error),
    };
    let root = start_dir.clone();
    let mut walk = DirWalk::start(start_dir, options.follow_links);
    let mut files: Vec<FoundFile> = Vec::new();
    let mut visited: u64 = 0;
    loop
        invariant
            matcher.pattern() == pattern@,
            regex_compiles(pattern@),
            root == start_dir,
            walk.root() == start_dir,
            walk.follows_links() == options.follow_links,
            walk.wf(),
            entries_named(walk.steps()),
            walk.steps().len() > 0 ==> begins_at_root(walk.steps(), start_dir),
            walk.steps().len() > 0 ==> step_kinds(walk.steps()) == walk.yielded(),
            !walk.finished(),
            walk.steps().len() == visited,
            search_result(pattern@, root, walk.steps()) == Ok::<Seq<FoundFile>, SearchError>(files@),
        decreases u64::MAX - visited,
    {
        if visited == u64::MAX {
            let result = Err(SearchError::TooManyEntries);
            assert(search_of_walk(pattern@, start_dir, options.follow_links, walk, result));
            return result;
        }
        let ghost before = walk.steps();
        match walk.next_step() {
            None => {
                let result = Ok(files);
                assert(search_of_walk(pattern@, start_dir, options.follow_links, walk, result));
                return result;
            },
            Some(step) => {
                visited = visited + 1;
                proof {
                    lemma_search_pushed(pattern@, root, before, step);
                }
                match take_step(&matcher, &root, files, &step) {
                    Ok(next) => {
                        files = next;
                    },
                    Err(error) => {
                        let result = Err(error);
                        assert(walk.steps().drop_last() =~= before);
                        assert(search_of_walk(pattern@, start_dir, options.follow_links, walk, result));
                        return result;
                    },
                }
            },
        }
    }
}

/// One more step: the search after it is the search so far, moved on by
/// that step.
pub proof fn lemma_search_pushed(pattern: Seq<char>, root: PathBuf, steps: Seq<WalkStep>, step: WalkStep)
    ensures
        search_result(pattern, root, steps.push(step)) == search_next(
            pattern,
            root,
            search_result(pattern, root, steps),
            step,
        ),
{
    assert(steps.push(step).drop_last() =~= steps);
}

/// Once a step has failed, later steps change nothing: the search keeps
/// the error of the first failure.
pub proof fn lemma_failure_persists(pattern: Seq<char>, root: PathBuf, steps: Seq<WalkStep>, more: Seq<WalkStep>)
    requires
        search_result(pattern, root, steps) is Err,
    ensures
        search_result(pattern, root, steps + more) == search_result(pattern, root, steps),
    decreases more.len(),
{
    if more.len() == 0 {
        assert(steps + more =~= steps);
    } else {
        let shorter = more.drop_last();
        lemma_failure_persists(pattern, root, steps, shorter);
        assert((steps + more).drop_last() =~= steps + shorter);
    }
}

/// When no step of the walk failed, the search gives exactly the files
/// found among its entries.
pub proof fn lemma_search_without_failure(pattern: Seq<char>, root: PathBuf, steps: Seq<WalkStep>)
    requires
        forall|i: int| 0 <= i < steps.len() ==> (#[trigger] steps[i]) is Entry,
    ensures
        search_result(pattern, root, steps) == Ok::<Seq<FoundFile>, SearchError>(
            files_found(pattern, entries_of(steps)),
        ),
    decreases steps.len(),
{
    reveal_with_fuel(Seq::filter_map, 1);
    if steps.len() > 0 {
        let prior = steps.drop_last();
        assert forall|i: int| 0 <= i < prior.len() implies (#[trigger] prior[i]) is Entry by {
            assert(prior[i] == steps[i]);
        }
        lemma_search_without_failure(pattern, root, prior);
        let last = steps.last();
        assert(steps[steps.len() - 1] is Entry);
        let entry = last->Entry_0;
        assert(steps.drop_last() =~= prior);
        let earlier = entries_of(prior);
        assert(entries_of(steps) == earlier.push(entry));
        assert(earlier.push(entry).drop_last() =~= earlier);
        let found = files_found(pattern, earlier.push(entry));
        assert(found == match found_file_for(pattern, entry) {
            Some(file) => files_found(pattern, earlier).push(file),
            None => files_found(pattern, earlier),
        });
    }
}

/// A search that ends with a list met no failure: every step of the walk
/// was an entry, and the list is exactly the files found among them.
pub proof fn lemma_ok_means_no_failure(pattern: Seq<char>, root: PathBuf, steps: Seq<WalkStep>)
    requires
        search_result(pattern, root, steps) is Ok,
    ensures
        forall|i: int| 0 <= i < steps.len() ==> (#[trigger] steps[i]) is Entry,
        search_result(pattern, root, steps) == Ok::<Seq<FoundFile>, SearchError>(
            files_found(pattern, entries_of(steps)),
        ),
    decreases steps.len(),
{
    if steps.len() > 0 {
        let prior = steps.drop_last();
        assert(search_result(pattern, root, prior) is Ok);
        lemma_ok_means_no_failure(pattern, root, prior);
        assert(steps.last() is Entry);
        assert forall|i: int| 0 <= i < steps.len() implies (#[trigger] steps[i]) is Entry by {
            if i < prior.len() {
                assert(steps[i] == prior[i]);
            }
        }
    }
    lemma_search_without_failure(pattern, root, steps);
}

/// When a step fails and none before it did, the search gives the error of
/// that step, with no list.
pub proof fn lemma_search_first_failure(pattern: Seq<char>, root: PathBuf, steps: Seq<WalkStep>, i: int)
    requires
        0 <= i < steps.len(),
        steps[i] is Failed,
        forall|j: int| 0 <= j < i ==> (#[trigger] steps[j]) is Entry,
    ensures
        search_result(pattern, root, steps) == Err::<Seq<FoundFile>, SearchError>(
            failure_error(root, steps[i]->path, steps[i]->detail),
        ),
{
    let before = steps.take(i);
    assert forall|j: int| 0 <= j < before.len() implies (#[trigger] before[j]) is Entry by {
        assert(before[j] == steps[j]);
    }
    lemma_search_without_failure(pattern, root, before);
    lemma_search_pushed(pattern, root, before, steps[i]);
    let upto = before.push(steps[i]);
    lemma_failure_persists(pattern, root, upto, steps.skip(i + 1));
    assert(upto + steps.skip(i + 1) =~= steps);
}

/// A search that lists files tried the pattern on each listed file's own
/// name: when the entries of the walk carry the names that walkdir gives
/// their paths, the name of every listed file's path matches the pattern.
pub proof fn lemma_listed_names_match(pattern: Seq<char>, root: PathBuf, steps: Seq<WalkStep>, i: int)
    requires
        entries_named(steps),
        search_result(pattern, root, steps) is Ok,
        0 <= i < search_result(pattern, root, steps)->Ok_0.len(),
    ensures
        regex_matches(pattern, entry_name_of(search_result(pattern, root, steps)->Ok_0[i].path)),
    decreases steps.len(),
{
    let prior = steps.drop_last();
    let last = steps.last();
    assert(steps[steps.len() - 1] == last);
    assert forall|j: int| 0 <= j < prior.len() && (#[trigger] prior[j]) is Entry implies
        crate::walk::named_by_path(prior[j]->Entry_0) by {
        assert(prior[j] == steps[j]);
    }
    let before = search_result(pattern, root, prior);
    assert(before is Ok);
    let files = before->Ok_0;
    if i < files.len() {
        lemma_listed_names_match(pattern, root, prior, i);
        assert(search_result(pattern, root, steps)->Ok_0[i] == files[i]);
    } else {
        assert(last is Entry);
    }
}

/// Every file that a search finds comes from an entry of the walk that is
/// not a directory and whose file name matches the pattern.
pub proof fn lemma_found_files_match(pattern: Seq<char>, entries: Seq<WalkEntry>, i: int)
    requires
        0 <= i < files_found(pattern, entries).len(),
    ensures
        exists|j: int|
            0 <= j < entries.len() && !(#[trigger] entries[j]).is_dir
                && regex_matches(pattern, entries[j].file_name@)
                && files_found(pattern, entries)[i].path == entries[j].path,
{
    let f = |entry: WalkEntry| found_file_for(pattern, entry);
    let file = files_found(pattern, entries)[i];
    assert(entries.filter_map(f).contains(file));
    entries.lemma_filter_map_contains(f, file);
    let entry = choose|t: WalkEntry| #[trigger] entries.contains(t) && f(t) == Some(file);
    let j = choose|j: int| 0 <= j < entries.len() && entries[j] == entry;
    assert(0 <= j < entries.len() && entries[j] == entry);
}

/// Every entry of the walk that is not a directory and whose file name
/// matches the pattern is among the files that the search finds.
pub proof fn lemma_matching_entries_found(pattern: Seq<char>, entries: Seq<WalkEntry>, j: int)
    requires
        0 <= j < entries.len(),
        !entries[j].is_dir,
        regex_matches(pattern, entries[j].file_name@),
    ensures
        files_found(pattern, entries).contains(FoundFile { path: entries[j].path }),
    decreases entries.len(),
{
    let prior = entries.drop_last();
    reveal_with_fuel(Seq::filter_map, 1);
    if j == entries.len() - 1 {
        let found = files_found(pattern, entries);
        assert(found.last() == FoundFile { path: entries[j].path });
        assert(found[found.len() - 1] == FoundFile { path: entries[j].path });
    } else {
        lemma_matching_entries_found(pattern, prior, j);
        let earlier = files_found(pattern, prior);
        let k = choose|k: int| 0 <= k < earlier.len() && earlier[k] == FoundFile { path: entries[j].path };
        assert(files_found(pattern, entries)[k] == earlier[k]);
    }
}

/// The search finds files in the order in which the walk reports them:
/// what it finds in two stretches of the walk is what it finds in the
/// first followed by what it finds in the second.
pub proof fn lemma_found_in_walk_order(pattern: Seq<char>, first: Seq<WalkEntry>, second: Seq<WalkEntry>)
    ensures
        files_found(pattern, first + second) == files_found(pattern, first) + files_found(pattern, second),
    decreases second.len(),
{
    reveal_with_fuel(Seq::filter_map, 1);
    if second.len() == 0 {
        assert(first + second =~= first);
        assert(files_found(pattern, first) + files_found(pattern, second) =~= files_found(pattern, first));
    } else {
        let shorter = second.drop_last();
        lemma_found_in_walk_order(pattern, first, shorter);
        assert((first + second).drop_last() =~= first + shorter);
        assert((first + second).last() == second.last());
        assert(files_found(pattern, first + second) =~= files_found(pattern, first) + files_found(
            pattern,
            second,
        ));
    }
}

} // verus!

verus! {

/// When every step is an entry, the entries of the steps are those
/// entries, one for one.
proof fn lemma_entries_of_entry_steps(steps: Seq<WalkStep>)
    requires
        forall|i: int| 0 <= i < steps.len() ==> (#[trigger] steps[i]) is Entry,
    ensures
        entries_of(steps).len() == steps.len(),
        forall|i: int| 0 <= i < steps.len() ==> #[trigger] entries_of(steps)[i] == steps[i]->Entry_0,
    decreases steps.len(),
{
    reveal_with_fuel(Seq::filter_map, 1);
    if steps.len() > 0 {
        let prior = steps.drop_last();
        assert forall|i: int| 0 <= i < prior.len() implies (#[trigger] prior[i]) is Entry by {
            assert(prior[i] == steps[i]);
        }
        lemma_entries_of_entry_steps(prior);
        assert(steps[steps.len() - 1] is Entry);
        assert(entries_of(steps) == entries_of(prior).push(steps.last()->Entry_0));
        assert forall|i: int| 0 <= i < steps.len() implies #[trigger] entries_of(steps)[i] == steps[i]->Entry_0 by {
            if i < prior.len() {
                assert(prior[i] == steps[i]);
            }
        }
    }
}

/// A search reports what walkdir yields, for the directory and the
/// follow-links flag it was asked for: the walk was opened by walkdir for
/// `start_dir` and `follow_links`; its steps are walkdir's items one for
/// one and in order, each an entry exactly when walkdir yielded an entry.
/// A list comes only once walkdir has ended without a failure; a walk
/// failure comes only when walkdir's last item was a failure and every item
/// before it an entry, and it is the error of that failure.
pub proof fn lemma_search_follows_walkdir(
    pattern: Seq<char>,
    start_dir: PathBuf,
    follow_links: bool,
    walk: DirWalk,
    result: Result<Vec<FoundFile>, SearchError>,
)
    requires
        search_of_walk(pattern, start_dir, follow_links, walk, result),
    ensures
        walk.root() == start_dir,
        walk.follows_links() == follow_links,
        walk.steps().len() == walk.yielded().len(),
        forall|i: int| 0 <= i < walk.steps().len() ==> ((#[trigger] walk.steps()[i]) is Entry <==> walk.yielded()[i]),
        result is Ok ==> walk.walkdir_ended() && forall|i: int| 0 <= i < walk.yielded().len() ==> #[trigger] walk.yielded()[i],
        result matches Err(SearchError::WalkFailed { .. }) ==> {
            &&& walk.yielded().len() > 0
            &&& !walk.yielded().last()
            &&& forall|i: int| 0 <= i < walk.yielded().len() - 1 ==> #[trigger] walk.yielded()[i]
            &&& result == Err::<Vec<FoundFile>, SearchError>(
                failure_error(start_dir, walk.steps().last()->path, walk.steps().last()->detail),
            )
        },
{
    let steps = walk.steps();
    assert(step_kinds(steps) == walk.yielded());
    assert forall|i: int| 0 <= i < steps.len() implies ((#[trigger] steps[i]) is Entry <==> walk.yielded()[i]) by {
        assert(step_kinds(steps)[i] == (steps[i] is Entry));
    }
    if result is Ok {
        lemma_ok_means_no_failure(pattern, start_dir, steps);
        assert forall|i: int| 0 <= i < walk.yielded().len() implies #[trigger] walk.yielded()[i] by {
            assert(steps[i] is Entry);
        }
    }
    if result matches Err(SearchError::WalkFailed { .. }) {
        let prior = steps.drop_last();
        lemma_ok_means_no_failure(pattern, start_dir, prior);
        let n = steps.len() - 1;
        assert forall|j: int| 0 <= j < n implies (#[trigger] steps[j]) is Entry by {
            assert(prior[j] == steps[j]);
        }
        assert forall|i: int| 0 <= i < walk.yielded().len() - 1 implies #[trigger] walk.yielded()[i] by {
            assert(steps[i] is Entry);
        }
        assert(steps[n] == steps.last());
        assert(!walk.yielded()[n]);
        lemma_search_first_failure(pattern, start_dir, steps, n);
    }
}

/// `file` comes from a step of the walk that is an entry, not a directory,
/// whose name `pattern` matches, and whose path is the file's path.
pub open spec fn picked_from(pattern: Seq<char>, steps: Seq<WalkStep>, file: FoundFile) -> bool {
    exists|j: int|
        0 <= j < steps.len() && (#[trigger] steps[j]) is Entry && !steps[j]->Entry_0.is_dir
            && regex_matches(pattern, steps[j]->Entry_0.file_name@) && file.path == steps[j]->Entry_0.path
}

/// The list that a search gives is exactly the files that the user's
/// pattern picks out of the walk: each listed file is an entry of the walk
/// that is not a directory and whose name `pattern` matches, and each such
/// entry is listed.
pub proof fn lemma_listing_is_matching_files(
    pattern: Seq<char>,
    start_dir: PathBuf,
    follow_links: bool,
    walk: DirWalk,
    files: Vec<FoundFile>,
)
    requires
        search_of_walk(pattern, start_dir, follow_links, walk, Ok(files)),
    ensures
        forall|k: int| 0 <= k < files@.len() ==> picked_from(pattern, walk.steps(), #[trigger] files@[k]),
        forall|j: int|
            0 <= j < walk.steps().len() && (#[trigger] walk.steps()[j]) is Entry
                && !walk.steps()[j]->Entry_0.is_dir
                && regex_matches(pattern, walk.steps()[j]->Entry_0.file_name@) ==> files@.contains(
                FoundFile { path: walk.steps()[j]->Entry_0.path },
            ),
{
    let steps = walk.steps();
    lemma_ok_means_no_failure(pattern, start_dir, steps);
    lemma_entries_of_entry_steps(steps);
    let entries = entries_of(steps);
    assert(files@ == files_found(pattern, entries));
    assert forall|k: int| 0 <= k < files@.len() implies picked_from(pattern, steps, #[trigger] files@[k]) by {
        lemma_found_files_match(pattern, entries, k);
        let j = choose|j: int|
            0 <= j < entries.len() && !(#[trigger] entries[j]).is_dir
                && regex_matches(pattern, entries[j].file_name@)
                && files_found(pattern, entries)[k].path == entries[j].path;
        assert(entries[j] == steps[j]->Entry_0);
        assert(steps[j] is Entry);
        assert(files@[k].path == steps[j]->Entry_0.path);
    }
    assert forall|j: int|
        0 <= j < steps.len() && (#[trigger] steps[j]) is Entry && !steps[j]->Entry_0.is_dir
            && regex_matches(pattern, steps[j]->Entry_0.file_name@) implies files@.contains(
        FoundFile { path: steps[j]->Entry_0.path },
    ) by {
        assert(entries[j] == steps[j]->Entry_0);
        lemma_matching_entries_found(pattern, entries, j);
    }
}

} // verus!
