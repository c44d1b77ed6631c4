# ripper

Find files whose names match a regular expression, and delete them.

- `src/` is the library, verified with Verus.
  - `walk.rs`: `DirWalk`, a walk of the directory tree that records its
    root, whether it follows links, and every step it has reported; each
    reported entry carries the file name that walkdir gives its path, and
    the first step is always there and, when an entry, is the root. The
    walk itself is the `walkdir` crate's, called through small trusted
    wrappers.
  - `search.rs`: `search_result` states what a search makes of a walk's
    steps (the first failure ends it; otherwise the non-directory entries
    whose names match, in walk order); `search_steps` and `take_step`
    compute it, and `find_files_with_options` is proved to return it for
    the steps of a finished walk from the start directory, following links
    as asked.
  - `pattern.rs`: file-name patterns, compiled by the `regex` crate.
  - `deletion.rs`: the tally of a batch of deletions and its failure report.
  - `confirm.rs`: reading the answer to the deletion prompt.
- `app/` is the `ripper` command: argument parsing, printing, the prompt,
  and removing files from disk.
- `tests/` runs the library on real directories and on concrete values.
