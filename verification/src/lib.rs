//! Finding files whose names match a regular expression, and accounting
//! for their deletion.
//!
//! - `found`: the found file and the search options.
//! - `compiled`: regexes of the `regex` crate, kept with their patterns.
//! - `pattern`: file-name patterns.
//! - `walk`: the directory walk of the `walkdir` crate.
//! - `walk_items`: walkdir's iterator, with what it was opened for and what
//!   it has yielded.
//! - `search`: what a search finds among the entries of a walk.
//! - `error`: why a search stops without a list of files.
//! - `deletion`: the tally of a batch of deletions.
//! - `confirm`: reading the answer to the deletion prompt.

mod compiled;
mod confirm;
mod deletion;
mod error;
mod found;
mod pattern;
mod search;
mod walk;
mod walk_items;

pub use confirm::{
    all_white_space, answer_is_yes, confirms_deletion, is_white_space, lemma_confirming_replies,
    lemma_leading_space_trimmed, lemma_space_around_reply_ignored, reply_confirms, surrounded,
    lemma_surrounding_space_ignored, lemma_trailing_space_trimmed, lemma_unspaced_text_kept,
    lemma_white_space_trims_away, plan_deletion, trim_end, trim_start, trimmed, DeletePlan,
};
pub use deletion::{
    decimal, digit_char, failure_report, delete_failure_text, deleted_total, failures, lemma_attempt_pushed,
    lemma_every_attempt_accounted, Attempt, DeletionSummary,
};
pub use error::{invalid_pattern_text, too_many_entries_text, walk_failed_prefix, SearchError};
pub use found::{path_text, FoundFile, SearchOptions};
pub use compiled::{regex_compiles, regex_error_text, regex_matches, CompiledPattern};
pub use pattern::FilenameMatcher;
pub use search::{
    collect_entry, entries_of, failure_error, files_found, find_files, find_files_with_options,
    found_file_for, lemma_failure_persists, lemma_found_files_match, lemma_found_in_walk_order, lemma_listed_names_match,
    lemma_listing_is_matching_files, lemma_matching_entries_found, lemma_ok_means_no_failure,
    lemma_search_follows_walkdir, picked_from, lemma_search_first_failure, lemma_search_pushed,
    lemma_search_without_failure, result_view, search_next, search_of_walk, search_result,
    search_steps, take_step, walk_error,
};
pub use walk::{
    begins_at_root, entries_named, entry_name_of, lemma_steps_are_walkdir_items, named_by_path, step_kinds, waiting_kinds, DirWalk,
    WalkEntry, WalkStep,
};
pub use walk_items::WalkItems;
