use std::path::PathBuf;
use vstd::prelude::*;
use vstd::string::StringExecFns;

use crate::found::FoundFile;

verus! {

/// The description recorded for each file that could not be deleted.
pub open spec fn delete_failure_text() -> Seq<char> {
    "Failed to delete file"@
}

/// The character of the decimal digit `d`.
pub open spec fn digit_char(d: nat) -> char {
    seq!['0', '1', '2', '3', '4', '5', '6', '7', '8', '9'][d as int]
}

/// The decimal digits of `n`, most significant first, with no sign and no
/// leading zero.
pub open spec fn decimal(n: nat) -> Seq<char>
    decreases n,
{
    if n < 10 {
        seq![digit_char(n)]
    } else {
        decimal(n / 10).push(digit_char(n % 10))
    }
}

/// The one-character text of the digit `d`.
fn digit_text(d: usize) -> (text: String)
    requires
        d < 10,
    ensures
        text@ == seq![digit_char(d as nat)],
{
    match d {
        0 => {
            proof {
                reveal_strlit("0");
                assert("0"@ =~= seq!['0']);
            }
            String::from_str("0")
        },
        1 => {
            proof {
                reveal_strlit("1");
                assert("1"@ =~= seq!['1']);
            }
            String::from_str("1")
        },
        2 => {
            proof {
                reveal_strlit("2");
                assert("2"@ =~= seq!['2']);
            }
            String::from_str("2")
        },
        3 => {
            proof {
                reveal_strlit("3");
                assert("3"@ =~= seq!['3']);
            }
            String::from_str("3")
        },
        4 => {
            proof {
                reveal_strlit("4");
                assert("4"@ =~= seq!['4']);
            }
            String::from_str("4")
        },
        5 => {
            proof {
                reveal_strlit("5");
                assert("5"@ =~= seq!['5']);
            }
            String::from_str("5")
        },
        6 => {
            proof {
                reveal_strlit("6");
                assert("6"@ =~= seq!['6']);
            }
            String::from_str("6")
        },
        7 => {
            proof {
                reveal_strlit("7");
                assert("7"@ =~= seq!['7']);
            }
            String::from_str("7")
        },
        8 => {
            proof {
                reveal_strlit("8");
                assert("8"@ =~= seq!['8']);
            }
            String::from_str("8")
        },
        9 => {
            proof {
                reveal_strlit("9");
                assert("9"@ =~= seq!['9']);
            }
            String::from_str("9")
        },
        _ => String::new(),
    }
}

/// The decimal digits of `n`, as `usize`'s `Display` writes them.
fn decimal_text(n: usize) -> (text: String)
    ensures
        text@ == decimal(n as nat),
{
    let mut rest = n;
    let mut text = String::new();
    while rest >= 10
        invariant
            decimal(n as nat) == decimal(rest as nat) + text@,
        decreases rest,
    {
        let digit = digit_text(rest % 10);
        let ghost tail = text@;
        text = digit.concat(text.as_str());
        proof {
            assert(decimal(rest as nat) == decimal((rest / 10) as nat).push(digit_char((rest % 10) as nat)));
            assert(decimal((rest / 10) as nat).push(digit_char((rest % 10) as nat)) + tail
                =~= decimal((rest / 10) as nat) + text@);
        }
        rest = rest / 10;
    }
    let digit = digit_text(rest);
    digit.concat(text.as_str())
}

/// The text by which a batch with `failed` of `total` deletions failing is
/// reported.
pub open spec fn failure_report(failed: nat, total: nat) -> Seq<char> {
    "Failed to delete "@ + decimal(failed) + " out of "@ + decimal(total) + " matching files"@
}

/// One deletion attempt: the file, and whether it was deleted.
pub type Attempt = (FoundFile, bool);

/// How many of the attempts deleted their file.
pub open spec fn deleted_total(attempts: Seq<Attempt>) -> nat {
    attempts.filter(|attempt: Attempt| attempt.1).len()
}

/// The failed attempts, in order: each one's path with the failure text.
pub open spec fn failures(attempts: Seq<Attempt>) -> Seq<(PathBuf, Seq<char>)> {
    attempts.filter_map(
        |attempt: Attempt|
            if attempt.1 {
                None
            } else {
                Some((attempt.0.path, delete_failure_text()))
            },
    )
}

/// The tally of a batch of deletions: how many files were deleted, and for
/// each file that could not be deleted, its path and a description.
pub struct DeletionSummary {
    pub deleted_count: usize,
    pub errors: Vec<(PathBuf, String)>,
}

impl DeletionSummary {
    /// The errors with each description taken by its view.
    pub open spec fn error_view(&self) -> Seq<(PathBuf, Seq<char>)> {
        self.errors@.map_values(|error: (PathBuf, String)| (error.0, error.1@))
    }

    /// The summary is the tally of exactly these attempts, in this order.
    pub open spec fn summarizes(&self, attempts: Seq<Attempt>) -> bool {
        &&& self.deleted_count == deleted_total(attempts)
        &&& self.error_view() == failures(attempts)
    }

    /// The tally of no attempts.
    pub fn new() -> (summary: DeletionSummary)
        ensures
            summary.deleted_count == 0,
            summary.errors@.len() == 0,
            summary.summarizes(Seq::empty()),
    {
        let summary = DeletionSummary { deleted_count: 0, errors: Vec::new() };
        assert(summary.error_view() =~= failures(Seq::empty())) by {
            reveal_with_fuel(Seq::filter_map, 1);
        }
        assert(deleted_total(Seq::empty()) == 0) by {
            reveal_with_fuel(Seq::filter, 1);
        }
        summary
    }

    /// Records the outcome of one deletion: a deleted file is counted, a
    /// file that could not be deleted is listed with its path and
    /// "Failed to delete file".
    pub fn record(&mut self, file: &FoundFile, deleted: bool)
        requires
            deleted ==> old(self).deleted_count < usize::MAX,
        ensures
            final(self).deleted_count == old(self).deleted_count + if deleted { 1int } else { 0int },
            deleted ==> final(self).errors@ == old(self).errors@,
            !deleted ==> final(self).errors@.len() == old(self).errors@.len() + 1
                && final(self).errors@.drop_last() == old(self).errors@
                && final(self).errors@.last().0 == file.path
                && final(self).errors@.last().1@ == delete_failure_text(),
            forall|attempts: Seq<Attempt>| #[trigger] old(self).summarizes(attempts)
                ==> final(self).summarizes(attempts.push((*file, deleted))),
    {
        let ghost before = *self;
        if deleted {
            self.deleted_count = self.deleted_count + 1;
        } else {
            let text = String::from_str("Failed to delete file");
            self.errors.push((file.path.clone(), text));
        }
        proof {
            assert forall|attempts: Seq<Attempt>| #[trigger] before.summarizes(attempts)
                implies self.summarizes(attempts.push((*file, deleted))) by {
                lemma_attempt_pushed(attempts, (*file, deleted));
                if !deleted {
                    assert(self.error_view() =~= before.error_view().push((file.path, delete_failure_text())));
                } else {
                    assert(self.error_view() =~= before.error_view());
                }
            }
        }
    }

    /// How the batch is reported when some deletion failed: "Failed to
    /// delete {failed} out of {total} matching files"; `None` when every
    /// file was deleted.
    pub fn failure_message(&self, total: usize) -> (message: Option<String>)
        ensures
            message is None <==> self.errors@.len() == 0,
            message matches Some(text) ==> text@ == failure_report(self.errors@.len(), total as nat),
    {
        if self.errors.len() == 0 {
            return None;
        }
        let text = String::from_str("Failed to delete ");
        let text = text.concat(decimal_text(self.errors.len()).as_str());
        let text = text.concat(" out of ");
        let text = text.concat(decimal_text(total).as_str());
        let text = text.concat(" matching files");
        Some(text)
    }
}

/// One more attempt adds one to the count when it deleted its file, and
/// one failure at the end when it did not.
pub proof fn lemma_attempt_pushed(attempts: Seq<Attempt>, attempt: Attempt)
    ensures
        deleted_total(attempts.push(attempt)) == deleted_total(attempts) + if attempt.1 { 1int } else { 0int },
        failures(attempts.push(attempt)) == if attempt.1 {
            failures(attempts)
        } else {
            failures(attempts).push((attempt.0.path, delete_failure_text()))
        },
{
    let pushed = attempts.push(attempt);
    assert(pushed.drop_last() =~= attempts);
    reveal_with_fuel(Seq::filter, 1);
    reveal_with_fuel(Seq::filter_map, 1);
}

/// Every attempt is accounted for exactly once: the deleted files and the
/// listed failures together number the attempts.
pub proof fn lemma_every_attempt_accounted(attempts: Seq<Attempt>)
    ensures
        deleted_total(attempts) + failures(attempts).len() == attempts.len(),
    decreases attempts.len(),
{
    if attempts.len() > 0 {
        let prior = attempts.drop_last();
        lemma_every_attempt_accounted(prior);
        assert(prior.push(attempts.last()) =~= attempts);
        lemma_attempt_pushed(prior, attempts.last());
    } else {
        reveal_with_fuel(Seq::filter, 1);
        reveal_with_fuel(Seq::filter_map, 1);
    }
}

} // verus!
